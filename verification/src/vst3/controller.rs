use vstd::prelude::*;
use crate::parameters::{group_position, ParameterGroup};
use crate::text::{decode_utf16, utf16_decoded};
use super::component::{parameter_flags, parameter_group_id, FIRST_UNIT_ID, PARAMETER_CAN_AUTOMATE, PARAMETER_IS_BYPASS, PARAMETER_IS_HIDDEN, ROOT_UNIT_ID};
use super::error::Error;
use super::parameters::{change_kind, parameter_change_kind, ChangeKind};

verus! {

/// What the edit controller keeps of a parameter to describe it to the host.
#[derive(Clone, Debug)]
pub struct ControllerParameter {
    pub id: u32,
    pub name: String,
    pub steps: u32,
    /// The path of the group the parameter belongs to; empty for none.
    pub path: String,
    pub is_bypass: bool,
    pub visible: bool,
}

/// A parameter as the host is told of it, but for its default value.
#[derive(Clone, Debug)]
pub struct Vst3ParameterInfo {
    pub id: u32,
    pub title: String,
    pub step_count: i32,
    pub unit_id: i32,
    pub flags: i32,
}

/// The unit of a parameter: the root for no group, else the unit of its group.
pub open spec fn unit_of(groups: Seq<ParameterGroup>, path: Seq<char>) -> int {
    if path.len() == 0 {
        ROOT_UNIT_ID as int
    } else {
        FIRST_UNIT_ID + group_position(groups, path).unwrap()
    }
}

pub open spec fn flags_of(is_bypass: bool, visible: bool) -> i32 {
    if is_bypass {
        PARAMETER_IS_BYPASS | PARAMETER_CAN_AUTOMATE
    } else if !visible {
        PARAMETER_IS_HIDDEN
    } else {
        PARAMETER_CAN_AUTOMATE
    }
}

/// The description of the parameter at `index`; an index out of range is an invalid
/// argument. Every parameter's group must be among the groups.
pub fn parameter_info(parameters: &[ControllerParameter], groups: &[ParameterGroup], index: i32) -> (info: Result<Vst3ParameterInfo, Error>)
    requires
        groups@.len() < i32::MAX,
        forall|i: int|
            0 <= i < parameters@.len() && (#[trigger] parameters@[i]).path@.len() > 0 ==> group_position(
                groups@,
                parameters@[i].path@,
            ) is Some,
    ensures
        index < 0 || index >= parameters@.len() ==> info == Err::<Vst3ParameterInfo, Error>(
            Error::InvalidArgument,
        ),
        0 <= index < parameters@.len() ==> (info matches Ok(d) && {
            let p = parameters@[index as int];
            &&& d.id == p.id
            &&& d.title@ == p.name@
            &&& d.step_count == p.steps as i32
            &&& d.unit_id == unit_of(groups@, p.path@)
            &&& d.flags == flags_of(p.is_bypass, p.visible)
        }),
{
    if index < 0 || index as usize >= parameters.len() {
        return Err(Error::InvalidArgument);
    }
    let parameter = &parameters[index as usize];
    Ok(
        Vst3ParameterInfo {
            id: parameter.id,
            title: parameter.name.clone(),
            step_count: parameter.steps as i32,
            unit_id: parameter_group_id(groups, &parameter.path),
            flags: parameter_flags(parameter.is_bypass, parameter.visible),
        },
    )
}

/// The text a host passes to be read as a parameter value (its units before the first
/// NUL): a missing text is an invalid argument, an uninitialized plugin refuses, and text
/// that is not valid UTF-16 is an invalid argument.
pub fn parameter_text(text: Option<&[u16]>, has_plugin: bool) -> (decoded: Result<String, Error>)
    ensures
        text is None ==> decoded == Err::<String, Error>(Error::InvalidArgument),
        text is Some && !has_plugin ==> decoded == Err::<String, Error>(Error::ResultFalse),
        has_plugin ==> (text matches Some(units) ==> match utf16_decoded(units@) {
            Some(s) => decoded matches Ok(d) && d@ == s,
            None => decoded == Err::<String, Error>(Error::InvalidArgument),
        }),
{
    match text {
        None => Err(Error::InvalidArgument),
        Some(units) => {
            if !has_plugin {
                return Err(Error::ResultFalse);
            }
            match decode_utf16(units) {
                Some(s) => Ok(s),
                None => Err(Error::InvalidArgument),
            }
        },
    }
}

/// Whether the host gets an editor view: only when it asks for the editor by its name,
/// and the plugin has an editor.
pub fn creates_view(name: Option<&str>, plugin_has_editor: bool) -> (created: bool)
    ensures
        created == (name matches Some(n) && n@ == "editor"@ && plugin_has_editor),
{
    match name {
        Some(n) => n.to_owned() == String::from_str("editor") && plugin_has_editor,
        None => false,
    }
}

/// Whether a value the host sets goes to the plugin's parameter: not for the hidden
/// parameters that stand for MIDI pitch bend, which only reach the processor.
pub fn sets_plugin_parameter(pitch_bend_parameter_ids: &[u32; 16], id: u32) -> (sets: bool)
    ensures
        sets == (change_kind(pitch_bend_parameter_ids@, id) == ChangeKind::Value),
{
    match parameter_change_kind(pitch_bend_parameter_ids, id) {
        ChangeKind::Value => true,
        ChangeKind::PitchBend { .. } => false,
    }
}

} // verus!
