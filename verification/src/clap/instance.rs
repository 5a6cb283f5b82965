use vstd::prelude::*;
use crate::format::Platform;
use crate::parameters::{count_set, descriptor_ids, has_duplicate_ids, in_id_order, sorted_by_id, ParameterDescriptor};
use crate::process::{ProcessMode, ProcessState, ProcessorConfig};
use super::extensions::{gui_creation, process_mode_for_render, unregisters_timer, GuiCreation, RENDER_OFFLINE, RENDER_REALTIME};
use super::parameters::{is_cleared, ParameterEventMap};

verus! {

pub const PROCESS_ERROR: i32 = 0;

pub const PROCESS_CONTINUE: i32 = 1;

pub const PROCESS_CONTINUE_IF_NOT_QUIET: i32 = 2;

pub const PROCESS_TAIL: i32 = 3;

/// The audio buffers a host passes with a block, as far as the plugin checks them.
#[derive(Clone, Copy, Debug)]
pub struct AudioLayout {
    pub inputs_present: bool,
    pub outputs_present: bool,
    pub input_count: u32,
    pub output_count: u32,
    /// Channels of the main input and output and of the auxiliary input.
    pub input_channels: u32,
    pub output_channels: u32,
    pub aux_channels: u32,
    /// Whether some output channel is not the input channel it pairs with.
    pub out_of_place: bool,
}

/// The only layout processed: a stereo main input (and a stereo auxiliary input where
/// the plugin has one) and one stereo output.
pub open spec fn supported_layout(layout: AudioLayout, has_aux_input: bool) -> bool {
    &&& layout.input_count == (if has_aux_input {
        2u32
    } else {
        1u32
    })
    &&& layout.output_count == 1
    &&& layout.input_channels == 2
    &&& layout.output_channels == 2
    &&& has_aux_input ==> layout.aux_channels == 2
}

/// What happens to a block.
#[derive(Clone, Copy, Debug, PartialEq, Eq, Structural)]
pub enum ClapBlock {
    /// No buffers: the block fails at once.
    Fail,
    /// Buffers but no processor (the plugin is not active): the input is copied to the
    /// output where they differ, and the block fails.
    Inactive { copy_input: bool },
    /// The input is copied to the output where they differ, the host is asked once for
    /// a main-thread callback (to hand the block's events to the plugin), and the block is
    /// processed, with the auxiliary input where the plugin has one.
    Process { copy_input: bool, with_aux: bool, request_callback: bool },
}

/// Decides what happens to a block. A block with buffers in another layout is not
/// supported.
pub fn plan_block(layout: AudioLayout, has_aux_input: bool, has_processor: bool) -> (block: ClapBlock)
    requires
        layout.inputs_present && layout.outputs_present ==> supported_layout(layout, has_aux_input),
    ensures
        block == if !layout.inputs_present || !layout.outputs_present {
            ClapBlock::Fail
        } else if !has_processor {
            ClapBlock::Inactive { copy_input: layout.out_of_place }
        } else {
            ClapBlock::Process { copy_input: layout.out_of_place, with_aux: has_aux_input, request_callback: true }
        },
{
    if !layout.inputs_present || !layout.outputs_present {
        ClapBlock::Fail
    } else if !has_processor {
        ClapBlock::Inactive { copy_input: layout.out_of_place }
    } else {
        ClapBlock::Process { copy_input: layout.out_of_place, with_aux: has_aux_input, request_callback: true }
    }
}

/// What a processed block reports: the status for the host, the tail kept for the
/// host's next query, and whether the host is told that the tail changed.
#[derive(Clone, Copy, Debug, PartialEq, Eq, Structural)]
pub struct BlockOutcome {
    pub status: i32,
    pub tail: usize,
    pub notify_tail_changed: bool,
}

pub open spec fn block_outcome(state: ProcessState, previous_tail: usize, host_has_tail_extension: bool) -> BlockOutcome {
    match state {
        ProcessState::Error => BlockOutcome {
            status: PROCESS_ERROR,
            tail: previous_tail,
            notify_tail_changed: false,
        },
        ProcessState::Normal => BlockOutcome {
            status: PROCESS_CONTINUE_IF_NOT_QUIET,
            tail: previous_tail,
            notify_tail_changed: false,
        },
        ProcessState::Tail(t) => BlockOutcome {
            status: PROCESS_TAIL,
            tail: t,
            notify_tail_changed: t != previous_tail && host_has_tail_extension,
        },
        ProcessState::KeepAlive => BlockOutcome {
            status: PROCESS_CONTINUE,
            tail: previous_tail,
            notify_tail_changed: false,
        },
    }
}

/// The status of a processed block. A tail is kept for the host's next query, and a host
/// that has the tail extension is told when the tail differs from the one kept before.
pub fn finish_block(state: ProcessState, previous_tail: usize, host_has_tail_extension: bool) -> (outcome: BlockOutcome)
    ensures
        outcome == block_outcome(state, previous_tail, host_has_tail_extension),
{
    match state {
        ProcessState::Error => BlockOutcome {
            status: PROCESS_ERROR,
            tail: previous_tail,
            notify_tail_changed: false,
        },
        ProcessState::Normal => BlockOutcome {
            status: PROCESS_CONTINUE_IF_NOT_QUIET,
            tail: previous_tail,
            notify_tail_changed: false,
        },
        ProcessState::Tail(t) => BlockOutcome {
            status: PROCESS_TAIL,
            tail: t,
            notify_tail_changed: t != previous_tail && host_has_tail_extension,
        },
        ProcessState::KeepAlive => BlockOutcome {
            status: PROCESS_CONTINUE,
            tail: previous_tail,
            notify_tail_changed: false,
        },
    }
}

/// Reporting the same tail twice tells the host of it at most once: after a block with
/// a tail, a block with the same tail tells nothing.
pub proof fn lemma_same_tail_told_once(tail: usize, previous_tail: usize, host_has_tail_extension: bool)
    ensures
        !block_outcome(
            ProcessState::Tail(tail),
            block_outcome(ProcessState::Tail(tail), previous_tail, host_has_tail_extension).tail,
            host_has_tail_extension,
        ).notify_tail_changed,
{
}

/// Each state is reported with its own CLAP status (an error fails the block, normal
/// output may stop when quiet, a tail continues for its length, keep-alive continues),
/// only a tail changes the tail kept, and the host is told of a tail only when the host
/// has the tail extension and the tail differs from the one kept.
pub proof fn lemma_block_status_by_state(state: ProcessState, previous_tail: usize, host_has_tail_extension: bool)
    ensures
        ({
            let outcome = block_outcome(state, previous_tail, host_has_tail_extension);
            &&& outcome.status == PROCESS_ERROR <==> state is Error
            &&& outcome.status == PROCESS_CONTINUE_IF_NOT_QUIET <==> state is Normal
            &&& outcome.status == PROCESS_TAIL <==> state is Tail
            &&& outcome.status == PROCESS_CONTINUE <==> state is KeepAlive
            &&& outcome.tail == match state {
                ProcessState::Tail(t) => t,
                _ => previous_tail,
            }
            &&& outcome.notify_tail_changed <==> (host_has_tail_extension && outcome.tail != previous_tail)
        }),
{
}

/// The processor an activated instance creates: for the host's sample rate and block
/// sizes, in the instance's process mode.
pub fn activation_config<R>(sample_rate: R, min_frames: u32, max_frames: u32, process_mode: ProcessMode) -> (config: ProcessorConfig<R>)
    ensures
        config.sample_rate == sample_rate,
        config.min_block_size == min_frames,
        config.max_block_size == max_frames,
        config.process_mode == process_mode,
{
    ProcessorConfig {
        sample_rate,
        min_block_size: min_frames as usize,
        max_block_size: max_frames as usize,
        process_mode,
    }
}

/// Where the events of a parameter flush go.
#[derive(Clone, Copy, Debug, PartialEq, Eq, Structural)]
pub enum FlushRoute {
    /// The active processor takes them at once; they are also queued for the plugin on
    /// the main thread, and the host is asked for a main-thread callback.
    ProcessorAndQueue,
    /// Without a processor the flush comes on the main thread, and the plugin takes them
    /// at once.
    Plugin,
}

pub fn flush_route(has_processor: bool) -> (route: FlushRoute)
    ensures
        route == if has_processor {
            FlushRoute::ProcessorAndQueue
        } else {
            FlushRoute::Plugin
        },
{
    if has_processor {
        FlushRoute::ProcessorAndQueue
    } else {
        FlushRoute::Plugin
    }
}

/// Whether a bypass flag is set on at most one parameter.
pub open spec fn bypass_flags(descriptors: Seq<ParameterDescriptor>) -> Seq<bool> {
    descriptors.map_values(|d: ParameterDescriptor| d.is_bypass)
}

/// The state of a CLAP plugin instance that its callbacks decide on: the plugin's
/// parameters in the order the host sees them (id order), the host's extensions, whether
/// it is active (has a processor), its process mode, the tail last reported, and its editor.
pub struct ClapInstance {
    parameters: Vec<ParameterDescriptor>,
    process_mode: ProcessMode,
    active: bool,
    tail: usize,
    has_editor: bool,
    timer_id: Option<u32>,
    host_has_gui: bool,
    host_has_params: bool,
    host_has_state: bool,
    host_has_tail: bool,
    host_has_timer_support: bool,
}

impl ClapInstance {
    pub closed spec fn parameters(&self) -> Seq<ParameterDescriptor> {
        self.parameters@
    }

    pub closed spec fn process_mode(&self) -> ProcessMode {
        self.process_mode
    }

    pub closed spec fn active(&self) -> bool {
        self.active
    }

    pub closed spec fn tail(&self) -> usize {
        self.tail
    }

    pub closed spec fn has_editor(&self) -> bool {
        self.has_editor
    }

    pub closed spec fn timer_id(&self) -> Option<u32> {
        self.timer_id
    }

    /// The host's gui, params, state, tail and timer-support extensions, as known.
    pub closed spec fn host_extensions(&self) -> (bool, bool, bool, bool, bool) {
        (
            self.host_has_gui,
            self.host_has_params,
            self.host_has_state,
            self.host_has_tail,
            self.host_has_timer_support,
        )
    }

    /// A new instance of a plugin with these parameters (distinct ids, at most one bypass
    /// parameter), with the map of editor changes it shares with its host. It keeps each
    /// parameter's description in id order, is inactive with no tail, in real time, with
    /// no editor and no timer, and knows none of the host's extensions until `init`.
    pub fn new<V: Copy>(descriptors: Vec<ParameterDescriptor>) -> (made: (Self, ParameterEventMap<V>))
        requires
            !has_duplicate_ids(descriptor_ids(descriptors@)),
            count_set(bypass_flags(descriptors@)) <= 1,
        ensures
            in_id_order(made.0.parameters()),
            made.0.parameters().len() == descriptors@.len(),
            forall|d: ParameterDescriptor| made.0.parameters().contains(d) <==> descriptors@.contains(d),
            made.0.process_mode() == ProcessMode::Realtime,
            !made.0.active(),
            made.0.tail() == 0,
            !made.0.has_editor(),
            made.0.timer_id() is None,
            made.0.host_extensions() == (false, false, false, false, false),
            made.1.wf(),
            forall|id: u32| made.1.has_id(id) <==> descriptor_ids(descriptors@).contains(id),
            forall|k: int| 0 <= k < made.1.entries().len() ==> is_cleared(#[trigger] made.1.entries()[k].1),
    {
        let parameters = sorted_by_id(descriptors);
        let ids = ClapInstance::ids_of(&parameters);
        let map = ParameterEventMap::new(ids.as_slice());
        proof {
            assert forall|id: u32| descriptor_ids(parameters@).contains(id) <==> descriptor_ids(
                descriptors@,
            ).contains(id) by {
                if descriptor_ids(parameters@).contains(id) {
                    let k = choose|k: int| 0 <= k < parameters@.len() && descriptor_ids(parameters@)[k] == id;
                    assert(parameters@.contains(parameters@[k]));
                    let j = choose|j: int| 0 <= j < descriptors@.len() && descriptors@[j] == parameters@[k];
                    assert(descriptor_ids(descriptors@)[j] == id);
                }
                if descriptor_ids(descriptors@).contains(id) {
                    let j = choose|j: int| 0 <= j < descriptors@.len() && descriptor_ids(descriptors@)[j] == id;
                    assert(descriptors@.contains(descriptors@[j]));
                    let k = choose|k: int| 0 <= k < parameters@.len() && parameters@[k] == descriptors@[j];
                    assert(descriptor_ids(parameters@)[k] == id);
                }
            }
        }
        let instance = ClapInstance {
            parameters,
            process_mode: ProcessMode::Realtime,
            active: false,
            tail: 0,
            has_editor: false,
            timer_id: None,
            host_has_gui: false,
            host_has_params: false,
            host_has_state: false,
            host_has_tail: false,
            host_has_timer_support: false,
        };
        (instance, map)
    }

    fn ids_of(parameters: &Vec<ParameterDescriptor>) -> (ids: Vec<u32>)
        ensures
            ids@ == descriptor_ids(parameters@),
    {
        let mut ids: Vec<u32> = Vec::new();
        let mut i: usize = 0;
        while i < parameters.len()
            invariant
                0 <= i <= parameters@.len(),
                ids@ == descriptor_ids(parameters@.subrange(0, i as int)),
            decreases parameters@.len() - i,
        {
            proof {
                assert(descriptor_ids(parameters@.subrange(0, i + 1)) == descriptor_ids(
                    parameters@.subrange(0, i as int),
                ).push(parameters@[i as int].id));
            }
            ids.push(parameters[i].id);
            i = i + 1;
        }
        proof {
            assert(parameters@.subrange(0, parameters@.len() as int) == parameters@);
        }
        ids
    }

    /// The parameter ids in the order the host sees them.
    pub fn parameter_ids(&self) -> (ids: Vec<u32>)
        ensures
            ids@ == descriptor_ids(self.parameters()),
    {
        ClapInstance::ids_of(&self.parameters)
    }

    /// The parameter the host asks for by index; `None` past the last one.
    pub fn parameter_at(&self, index: u32) -> (parameter: Option<&ParameterDescriptor>)
        ensures
            index < self.parameters().len() ==> parameter == Some(&self.parameters()[index as int]),
            index >= self.parameters().len() ==> parameter is None,
    {
        if (index as usize) < self.parameters.len() {
            Some(&self.parameters[index as usize])
        } else {
            None
        }
    }

    /// The host's extensions, learnt when the host initializes the instance.
    pub fn init(&mut self, gui: bool, params: bool, state: bool, tail: bool, timer_support: bool)
        ensures
            final(self).host_extensions() == (gui, params, state, tail, timer_support),
            final(self).parameters() == old(self).parameters(),
            final(self).process_mode() == old(self).process_mode(),
            final(self).active() == old(self).active(),
            final(self).tail() == old(self).tail(),
            final(self).has_editor() == old(self).has_editor(),
            final(self).timer_id() == old(self).timer_id(),
    {
        self.host_has_gui = gui;
        self.host_has_params = params;
        self.host_has_state = state;
        self.host_has_tail = tail;
        self.host_has_timer_support = timer_support;
    }

    /// The host sets the render mode: a known mode becomes the process mode of processors
    /// created from now on; an unknown one is refused and changes nothing.
    pub fn set_render_mode(&mut self, mode: i32) -> (accepted: bool)
        ensures
            accepted == (mode == RENDER_REALTIME || mode == RENDER_OFFLINE),
            mode == RENDER_REALTIME ==> final(self).process_mode() == ProcessMode::Realtime,
            mode == RENDER_OFFLINE ==> final(self).process_mode() == ProcessMode::Offline,
            !accepted ==> *final(self) == *old(self),
            final(self).parameters() == old(self).parameters(),
            final(self).active() == old(self).active(),
            final(self).tail() == old(self).tail(),
            final(self).has_editor() == old(self).has_editor(),
            final(self).timer_id() == old(self).timer_id(),
            final(self).host_extensions() == old(self).host_extensions(),
    {
        match process_mode_for_render(mode) {
            Some(process_mode) => {
                self.process_mode = process_mode;
                true
            },
            None => false,
        }
    }

    /// Activation creates the processor for the host's sample rate and block sizes, in
    /// the instance's process mode.
    pub fn activate<R>(&mut self, sample_rate: R, min_frames: u32, max_frames: u32) -> (config: ProcessorConfig<R>)
        ensures
            config.sample_rate == sample_rate,
            config.min_block_size == min_frames,
            config.max_block_size == max_frames,
            config.process_mode == old(self).process_mode(),
            final(self).active(),
            final(self).parameters() == old(self).parameters(),
            final(self).process_mode() == old(self).process_mode(),
            final(self).tail() == old(self).tail(),
            final(self).has_editor() == old(self).has_editor(),
            final(self).timer_id() == old(self).timer_id(),
            final(self).host_extensions() == old(self).host_extensions(),
    {
        self.active = true;
        activation_config(sample_rate, min_frames, max_frames, self.process_mode)
    }

    /// Deactivation drops the processor.
    pub fn deactivate(&mut self)
        ensures
            !final(self).active(),
            final(self).parameters() == old(self).parameters(),
            final(self).process_mode() == old(self).process_mode(),
            final(self).tail() == old(self).tail(),
            final(self).has_editor() == old(self).has_editor(),
            final(self).timer_id() == old(self).timer_id(),
            final(self).host_extensions() == old(self).host_extensions(),
    {
        self.active = false;
    }

    /// What happens to a block, given the instance's state.
    pub fn plan_block(&self, layout: AudioLayout, has_aux_input: bool) -> (block: ClapBlock)
        requires
            layout.inputs_present && layout.outputs_present ==> supported_layout(layout, has_aux_input),
        ensures
            block == if !layout.inputs_present || !layout.outputs_present {
                ClapBlock::Fail
            } else if !self.active() {
                ClapBlock::Inactive { copy_input: layout.out_of_place }
            } else {
                ClapBlock::Process {
                    copy_input: layout.out_of_place,
                    with_aux: has_aux_input,
                    request_callback: true,
                }
            },
    {
        plan_block(layout, has_aux_input, self.active)
    }

    /// The status of a processed block; a tail is kept for the host's next query, and the
    /// host is told of a changed tail where it has the tail extension.
    pub fn finish_block(&mut self, state: ProcessState) -> (outcome: BlockOutcome)
        ensures
            outcome == block_outcome(state, old(self).tail(), old(self).host_extensions().3),
            final(self).tail() == outcome.tail,
            final(self).parameters() == old(self).parameters(),
            final(self).process_mode() == old(self).process_mode(),
            final(self).active() == old(self).active(),
            final(self).has_editor() == old(self).has_editor(),
            final(self).timer_id() == old(self).timer_id(),
            final(self).host_extensions() == old(self).host_extensions(),
    {
        let outcome = finish_block(state, self.tail, self.host_has_tail);
        self.tail = outcome.tail;
        outcome
    }

    /// The tail the host is told, in samples (taken to 32 bits).
    pub fn tail_for_host(&self) -> (tail: u32)
        ensures
            tail == self.tail() as u32,
    {
        self.tail as u32
    }

    /// Creating the editor: a floating editor is refused; otherwise the editor is made,
    /// and a frame timer is registered (under the id the host gives, `timer_id`) where
    /// the platform needs one and the host supports timers.
    pub fn create_editor(&mut self, is_floating: bool, platform: Platform, timer_id: u32) -> (creation: GuiCreation)
        ensures
            creation == (GuiCreation {
                created: !is_floating,
                register_timer: !is_floating && platform == Platform::Linux && old(
                    self,
                ).host_extensions().4,
            }),
            final(self).has_editor() == (old(self).has_editor() || creation.created),
            final(self).timer_id() == if creation.register_timer {
                Some(timer_id)
            } else {
                old(self).timer_id()
            },
            final(self).parameters() == old(self).parameters(),
            final(self).process_mode() == old(self).process_mode(),
            final(self).active() == old(self).active(),
            final(self).tail() == old(self).tail(),
            final(self).host_extensions() == old(self).host_extensions(),
    {
        let creation = gui_creation(is_floating, platform, self.host_has_timer_support);
        if creation.created {
            self.has_editor = true;
        }
        if creation.register_timer {
            self.timer_id = Some(timer_id);
        }
        creation
    }

    /// Destroying the editor; returns whether its frame timer is unregistered.
    pub fn destroy_editor(&mut self, platform: Platform) -> (unregister: bool)
        ensures
            unregister == (platform == Platform::Linux && old(self).timer_id() is Some && old(
                self,
            ).host_extensions().4),
            !final(self).has_editor(),
            final(self).timer_id() == old(self).timer_id(),
            final(self).parameters() == old(self).parameters(),
            final(self).process_mode() == old(self).process_mode(),
            final(self).active() == old(self).active(),
            final(self).tail() == old(self).tail(),
            final(self).host_extensions() == old(self).host_extensions(),
    {
        self.has_editor = false;
        unregisters_timer(platform, self.timer_id, self.host_has_timer_support)
    }
}

} // verus!
