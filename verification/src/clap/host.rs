use vstd::prelude::*;
use super::parameters::{ParameterEventInfo, ParameterEventMap};

verus! {

/// The CLAP host as a plugin's editor sees it: which of the host's extensions are there,
/// and what the editor's requests become.
pub struct ClapHost {
    has_gui: bool,
    has_params: bool,
    has_state: bool,
    has_undo: bool,
}

/// What marking the plugin's state dirty asks of the host.
#[derive(Clone, Copy, Debug, PartialEq, Eq, Structural)]
pub struct DirtyRequests {
    /// Tell the host's state extension that the state changed.
    pub mark_dirty: bool,
    /// Tell the host's undo extension that a change was made.
    pub change_made: bool,
}

impl ClapHost {
    pub closed spec fn gui(&self) -> bool {
        self.has_gui
    }

    pub closed spec fn params(&self) -> bool {
        self.has_params
    }

    pub closed spec fn state(&self) -> bool {
        self.has_state
    }

    pub closed spec fn undo(&self) -> bool {
        self.has_undo
    }

    /// A host with the given extensions.
    pub fn new(has_gui: bool, has_params: bool, has_state: bool, has_undo: bool) -> (host: Self)
        ensures
            host.gui() == has_gui,
            host.params() == has_params,
            host.state() == has_state,
            host.undo() == has_undo,
    {
        ClapHost { has_gui, has_params, has_state, has_undo }
    }

    /// CLAP hosts can resize plugin windows.
    pub fn can_resize(&self) -> (resizable: bool)
        ensures
            resizable,
    {
        true
    }

    /// Whether a resize can be asked of the host: only through its GUI extension. Without
    /// it the resize is not taken.
    pub fn can_request_resize(&self) -> (requestable: bool)
        ensures
            requestable == self.gui(),
    {
        self.has_gui
    }

    /// The editor starts a gesture on a parameter. Returns whether the host is asked to
    /// flush parameters (it is when it has the parameter extension).
    pub fn start_parameter_change<V: Copy>(&self, map: &mut ParameterEventMap<V>, id: u32) -> (flush: bool)
        requires
            old(map).has_id(id),
        ensures
            flush == self.params(),
            exists|k: int|
                0 <= k < old(map).entries().len() && #[trigger] old(map).entries()[k].0 == id
                    && final(map).entries() == old(map).entries().update(
                    k,
                    (id, ParameterEventInfo { change_started: true, ..old(map).entries()[k].1 }),
                ),
    {
        map.start_parameter_change(id);
        self.has_params
    }

    /// The editor sets a parameter's value.
    pub fn change_parameter_value<V: Copy>(&self, map: &mut ParameterEventMap<V>, id: u32, normalized: V) -> (flush: bool)
        requires
            old(map).has_id(id),
        ensures
            flush == self.params(),
            exists|k: int|
                0 <= k < old(map).entries().len() && #[trigger] old(map).entries()[k].0 == id
                    && final(map).entries() == old(map).entries().update(
                    k,
                    (id, ParameterEventInfo { value: Some(normalized), ..old(map).entries()[k].1 }),
                ),
    {
        map.change_parameter_value(id, normalized);
        self.has_params
    }

    /// The editor ends a gesture on a parameter.
    pub fn end_parameter_change<V: Copy>(&self, map: &mut ParameterEventMap<V>, id: u32) -> (flush: bool)
        requires
            old(map).has_id(id),
        ensures
            flush == self.params(),
            exists|k: int|
                0 <= k < old(map).entries().len() && #[trigger] old(map).entries()[k].0 == id
                    && final(map).entries() == old(map).entries().update(
                    k,
                    (id, ParameterEventInfo { change_ended: true, ..old(map).entries()[k].1 }),
                ),
    {
        map.end_parameter_change(id);
        self.has_params
    }

    /// All parameters changed: the host is asked to flush where it can be.
    pub fn reload_parameters(&self) -> (flush: bool)
        ensures
            flush == self.params(),
    {
        self.has_params
    }

    /// The plugin's state changed: the host's state and undo extensions are told, where
    /// the host has them.
    pub fn mark_state_dirty(&self) -> (requests: DirtyRequests)
        ensures
            requests == (DirtyRequests { mark_dirty: self.state(), change_made: self.undo() }),
    {
        DirtyRequests { mark_dirty: self.has_state, change_made: self.has_undo }
    }
}

} // verus!
