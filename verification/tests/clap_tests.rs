use plinth_plugin::clap::event::{ClapEventHeader, ClapEventKind, EventIterator};
use plinth_plugin::clap::extensions::{
    audio_port_count, audio_port_info, extension_for, gui_creation, is_gui_api_supported,
    note_port_count, note_port_info, parameter_at, parameter_info, process_mode_for_render,
    unregisters_timer, Extension, GuiCreation, AUDIO_PORT_IS_MAIN,
    AUDIO_PORT_REQUIRES_COMMON_SAMPLE_SIZE, INVALID_ID, NOTE_DIALECT_CLAP, PARAM_IS_AUTOMATABLE,
    PARAM_IS_BYPASS, PARAM_IS_MODULATABLE, PARAM_IS_STEPPED,
};
use plinth_plugin::clap::factory::Factory;
use plinth_plugin::clap::host::{ClapHost, DirtyRequests};
use plinth_plugin::clap::instance::{
    activation_config, finish_block, flush_route, plan_block, AudioLayout, BlockOutcome, ClapBlock, ClapInstance, FlushRoute,
    PROCESS_CONTINUE, PROCESS_CONTINUE_IF_NOT_QUIET, PROCESS_ERROR, PROCESS_TAIL,
};
use plinth_plugin::clap::parameters::{HostMessage, ParameterEventMap};
use plinth_plugin::clap::stream::{Transfer, TransferStep};
use plinth_plugin::event::Event;
use plinth_plugin::parameters::ParameterDescriptor;
use plinth_plugin::process::{ProcessMode, ProcessState};
use plinth_plugin::format::Platform;

fn header(event_type: u16, time: u32, param_id: u32) -> ClapEventHeader {
    ClapEventHeader { space_id: 0, event_type, time, param_id }
}

#[test]
fn clap_events_read_in_order() {
    let events = vec![
        header(0, 0, 0),
        header(9, 1, 0),
        header(5, 3, 7),
        header(6, 5, 7),
        header(1, 8, 0),
    ];
    let mut it = EventIterator::new(vec![7], events);
    assert_eq!(it.next(), Some((0, ClapEventKind::NoteOn)));
    assert_eq!(it.next(), Some((2, ClapEventKind::ParameterValue { sample_offset: 3, id: 7 })));
    assert_eq!(it.next(), Some((3, ClapEventKind::ParameterModulation { sample_offset: 5, id: 7 })));
    assert_eq!(it.next(), Some((4, ClapEventKind::NoteOff)));
    assert_eq!(it.next(), None);
}

#[test]
fn clap_event_for_unknown_parameter_yields_none_then_continues() {
    let events = vec![header(5, 0, 99), header(0, 2, 0)];
    let mut it = EventIterator::new(vec![7], events);
    assert_eq!(it.next(), None);
    assert_eq!(it.next(), Some((1, ClapEventKind::NoteOn)));
}

#[test]
fn clap_events_of_other_spaces_passed_over() {
    let events = vec![ClapEventHeader { space_id: 3, event_type: 0, time: 0, param_id: 0 }];
    let mut it = EventIterator::new(vec![], events);
    assert_eq!(it.next(), None);
}

#[test]
fn transfer_asks_for_missing_bytes() {
    let mut transfer = Transfer::new(10);
    assert_eq!(transfer.request(), Some((0, 10)));
    assert_eq!(transfer.record(4), TransferStep::Continue);
    assert_eq!(transfer.request(), Some((4, 6)));
    assert_eq!(transfer.record(6), TransferStep::Done(10));
    assert_eq!(transfer.request(), None);
}

#[test]
fn transfer_stops_on_nothing_or_error() {
    let mut transfer = Transfer::new(10);
    assert_eq!(transfer.record(3), TransferStep::Continue);
    assert_eq!(transfer.record(0), TransferStep::Done(3));
    let mut failing = Transfer::new(10);
    assert_eq!(failing.record(-1), TransferStep::Failed);
}

#[test]
fn editor_changes_reported_once_in_id_order() {
    let mut map: ParameterEventMap<f64> = ParameterEventMap::new(&[30, 10, 20, 10]);
    map.start_parameter_change(20);
    map.change_parameter_value(20, 0.5);
    map.end_parameter_change(20);
    map.change_parameter_modulation(10, 0.25);
    let mut it = map.iter_and_send(true);
    let mut host = Vec::new();
    let mut events = Vec::new();
    while let Some(event) = it.next(&mut map, &mut host) {
        events.push(event);
    }
    assert_eq!(events.len(), 2);
    assert!(matches!(events[0], Event::ParameterModulation { id: 10, amount, .. } if amount == 0.25));
    assert!(matches!(events[1], Event::ParameterValue { id: 20, value, .. } if value == 0.5));
    assert_eq!(host.len(), 3);
    assert!(matches!(host[0], HostMessage::GestureBegin { id: 20 }));
    assert!(matches!(host[1], HostMessage::Value { id: 20, value } if value == 0.5));
    assert!(matches!(host[2], HostMessage::GestureEnd { id: 20 }));
    // Reported changes are cleared: a second pass finds nothing.
    let mut again = map.iter_and_send(true);
    let mut host_again = Vec::new();
    assert!(again.next(&mut map, &mut host_again).is_none());
    assert!(host_again.is_empty());
}

#[test]
fn editor_changes_without_host_queue() {
    let mut map: ParameterEventMap<f64> = ParameterEventMap::new(&[1]);
    map.start_parameter_change(1);
    map.change_parameter_value(1, 0.75);
    let mut it = map.iter_and_send(false);
    let mut host = Vec::new();
    let event = it.next(&mut map, &mut host);
    assert!(matches!(event, Some(Event::ParameterValue { id: 1, value, .. }) if value == 0.75));
    assert!(host.is_empty());
}

#[test]
fn extensions_looked_up_by_id() {
    assert_eq!(extension_for("clap.audio-ports"), Some(Extension::AudioPorts));
    assert_eq!(extension_for("clap.timer-support"), Some(Extension::TimerSupport));
    assert_eq!(extension_for("clap.params"), Some(Extension::Params));
    assert_eq!(extension_for("clap.note-name"), None);
    assert_eq!(extension_for(""), None);
}

#[test]
fn audio_and_note_ports() {
    assert_eq!(audio_port_count(true, true), 2);
    assert_eq!(audio_port_count(true, false), 1);
    assert_eq!(audio_port_count(false, true), 1);
    let main = audio_port_info(0, false, false).unwrap();
    assert_eq!(main.flags, AUDIO_PORT_IS_MAIN | AUDIO_PORT_REQUIRES_COMMON_SAMPLE_SIZE);
    assert_eq!(main.in_place_pair, 0);
    assert_eq!(main.name, "Main");
    let aux = audio_port_info(1, true, true).unwrap();
    assert!(audio_port_info(1, false, true).is_none());
    assert!(audio_port_info(1, true, false).is_none());
    assert!(audio_port_info(2, true, true).is_none());
    assert_eq!(aux.flags, 0);
    assert_eq!(aux.in_place_pair, INVALID_ID);
    assert_eq!(aux.name, "Aux");
    assert_eq!(aux.channel_count, 2);
    assert_eq!(note_port_count(true, true, false), 1);
    assert_eq!(note_port_count(false, true, false), 0);
    assert_eq!(note_port_count(false, false, true), 1);
    let note = note_port_info(0);
    assert_eq!(note.supported_dialects, NOTE_DIALECT_CLAP);
    assert_eq!(note.name, "Main");
}

#[test]
fn render_modes() {
    assert_eq!(process_mode_for_render(0), Some(ProcessMode::Realtime));
    assert_eq!(process_mode_for_render(1), Some(ProcessMode::Offline));
    assert_eq!(process_mode_for_render(2), None);
}

#[test]
fn parameter_info_flags_and_range() {
    let stepped = parameter_info(4, false, 3, &"Mode".to_string(), &"osc".to_string());
    assert_eq!(stepped.flags, PARAM_IS_AUTOMATABLE | PARAM_IS_MODULATABLE | PARAM_IS_STEPPED);
    assert_eq!(stepped.max_value, 3);
    assert_eq!(stepped.module, "osc");
    let bypass = parameter_info(5, true, 0, &"Bypass".to_string(), &String::new());
    assert_eq!(bypass.flags, PARAM_IS_AUTOMATABLE | PARAM_IS_MODULATABLE | PARAM_IS_BYPASS);
    assert_eq!(bypass.max_value, 1);
    assert_eq!(bypass.min_value, 0);
    assert_eq!(parameter_at(&[3, 9, 12], 1), Some(9));
    assert_eq!(parameter_at(&[3, 9, 12], 3), None);
}

#[test]
fn gui_embedding() {
    assert!(is_gui_api_supported("x11", false, Platform::Linux));
    assert!(!is_gui_api_supported("x11", true, Platform::Linux));
    assert!(!is_gui_api_supported("cocoa", false, Platform::Windows));
    assert!(is_gui_api_supported("win32", false, Platform::Windows));
    assert_eq!(gui_creation(false, Platform::Linux, true), GuiCreation { created: true, register_timer: true });
    assert_eq!(gui_creation(false, Platform::MacOs, true), GuiCreation { created: true, register_timer: false });
    assert_eq!(gui_creation(true, Platform::Linux, true), GuiCreation { created: false, register_timer: false });
    assert!(unregisters_timer(Platform::Linux, Some(3), true));
    assert!(!unregisters_timer(Platform::Linux, None, true));
}

#[test]
fn factory_counts_references() {
    let mut factory = Factory::new("com.example.plugin".to_string());
    assert_eq!(factory.count(), 1);
    assert_eq!(factory.add_ref(), 2);
    assert_eq!(factory.remove_ref(), 1);
    assert_eq!(factory.remove_ref(), 0);
    assert_eq!(factory.plugin_count(), 1);
    assert!(factory.has_descriptor(0));
    assert!(!factory.has_descriptor(1));
    assert!(factory.creates(Some("com.example.plugin")));
    assert!(!factory.creates(Some("com.example.other")));
    assert!(!factory.creates(None));
}

#[test]
fn factory_id_checked() {
    assert!(Factory::is_valid_factory_id(Some("clap.plugin-factory")));
    assert!(!Factory::is_valid_factory_id(Some("clap.preset-discovery-factory/2")));
    assert!(!Factory::is_valid_factory_id(None));
}

fn layout() -> AudioLayout {
    AudioLayout {
        inputs_present: true,
        outputs_present: true,
        input_count: 1,
        output_count: 1,
        input_channels: 2,
        output_channels: 2,
        aux_channels: 0,
        out_of_place: false,
    }
}

#[test]
fn clap_blocks_planned() {
    assert_eq!(plan_block(layout(), false, true), ClapBlock::Process { copy_input: false, with_aux: false, request_callback: true });
    let missing = AudioLayout { outputs_present: false, ..layout() };
    assert_eq!(plan_block(missing, false, true), ClapBlock::Fail);
    let apart = AudioLayout { out_of_place: true, ..layout() };
    assert_eq!(plan_block(apart, false, false), ClapBlock::Inactive { copy_input: true });
    let with_aux = AudioLayout { input_count: 2, aux_channels: 2, ..layout() };
    assert_eq!(plan_block(with_aux, true, true), ClapBlock::Process { copy_input: false, with_aux: true, request_callback: true });
}

#[test]
fn clap_block_outcomes() {
    assert_eq!(finish_block(ProcessState::Error, 7, true).status, PROCESS_ERROR);
    assert_eq!(finish_block(ProcessState::Normal, 7, true), BlockOutcome { status: PROCESS_CONTINUE_IF_NOT_QUIET, tail: 7, notify_tail_changed: false });
    assert_eq!(finish_block(ProcessState::KeepAlive, 7, true).status, PROCESS_CONTINUE);
    let first = finish_block(ProcessState::Tail(100), 0, true);
    assert_eq!(first, BlockOutcome { status: PROCESS_TAIL, tail: 100, notify_tail_changed: true });
    let again = finish_block(ProcessState::Tail(100), first.tail, true);
    assert!(!again.notify_tail_changed);
    assert!(!finish_block(ProcessState::Tail(50), 100, false).notify_tail_changed);
}

#[test]
fn clap_activation_config() {
    let config = activation_config(44100u32, 32, 1024, ProcessMode::Offline);
    assert_eq!(config.min_block_size, 32);
    assert_eq!(config.max_block_size, 1024);
    assert_eq!(config.process_mode, ProcessMode::Offline);
}

#[test]
fn clap_host_requests() {
    let host = ClapHost::new(false, true, true, false);
    assert!(host.can_resize());
    assert!(!host.can_request_resize());
    let mut map: ParameterEventMap<f64> = ParameterEventMap::new(&[1, 2]);
    assert!(host.start_parameter_change(&mut map, 2));
    assert!(host.change_parameter_value(&mut map, 2, 0.3));
    assert!(host.end_parameter_change(&mut map, 2));
    assert!(map.parameter_event_info(2).change_started);
    assert!(map.parameter_event_info(2).change_ended);
    assert_eq!(map.parameter_event_info(2).value, Some(0.3));
    assert!(!map.parameter_event_info(1).change_started);
    assert!(host.reload_parameters());
    assert_eq!(host.mark_state_dirty(), DirtyRequests { mark_dirty: true, change_made: false });
    let quiet = ClapHost::new(true, false, false, true);
    assert!(!quiet.reload_parameters());
    assert!(quiet.can_request_resize());
    assert_eq!(quiet.mark_state_dirty(), DirtyRequests { mark_dirty: false, change_made: true });
}

#[test]
fn reported_changes_come_once_in_id_order() {
    let mut map: ParameterEventMap<f64> = ParameterEventMap::new(&[3, 1, 2]);
    map.change_parameter_modulation(3, 0.9);
    map.change_parameter_value(3, 0.4);
    map.start_parameter_change(1);
    map.change_parameter_value(1, 0.2);
    map.end_parameter_change(1);
    let (events, host) = map.report_changes(true);
    assert_eq!(events.len(), 3);
    assert!(matches!(events[0], Event::ParameterValue { id: 1, value, .. } if value == 0.2));
    assert!(matches!(events[1], Event::ParameterValue { id: 3, value, .. } if value == 0.4));
    assert!(matches!(events[2], Event::ParameterModulation { id: 3, amount, .. } if amount == 0.9));
    assert_eq!(host.len(), 4);
    assert!(matches!(host[0], HostMessage::GestureBegin { id: 1 }));
    assert!(matches!(host[1], HostMessage::Value { id: 1, .. }));
    assert!(matches!(host[2], HostMessage::GestureEnd { id: 1 }));
    assert!(matches!(host[3], HostMessage::Value { id: 3, value } if value == 0.4));
    let (again, host_again) = map.report_changes(true);
    assert!(again.is_empty());
    assert!(host_again.is_empty());
}

#[test]
fn flushes_routed_by_activity() {
    assert_eq!(flush_route(true), FlushRoute::ProcessorAndQueue);
    assert_eq!(flush_route(false), FlushRoute::Plugin);
}

fn descriptor(id: u32, name: &str, is_bypass: bool) -> ParameterDescriptor {
    ParameterDescriptor { id, name: name.to_string(), path: String::new(), steps: 0, is_bypass, visible: true }
}

#[test]
fn instance_starts_inactive_with_parameters_in_id_order() {
    let (mut instance, map) = ClapInstance::new::<f64>(vec![
        descriptor(42, "Gain", false),
        descriptor(7, "Bypass", true),
        descriptor(19, "Pan", false),
    ]);
    assert_eq!(instance.parameter_ids(), vec![7, 19, 42]);
    assert_eq!(instance.parameter_at(1).unwrap().name, "Pan");
    assert!(instance.parameter_at(3).is_none());
    assert!(!map.parameter_event_info(19).change_started);
    assert_eq!(instance.tail_for_host(), 0);
    assert_eq!(instance.plan_block(layout(), false), ClapBlock::Inactive { copy_input: false });
    assert!(instance.set_render_mode(1));
    assert!(!instance.set_render_mode(5));
    let config = instance.activate(48000u32, 16, 512);
    assert_eq!(config.process_mode, ProcessMode::Offline);
    assert_eq!(instance.plan_block(layout(), false), ClapBlock::Process { copy_input: false, with_aux: false, request_callback: true });
    instance.init(false, false, false, true, true);
    assert!(instance.finish_block(ProcessState::Tail(300)).notify_tail_changed);
    assert_eq!(instance.tail_for_host(), 300);
    assert!(!instance.finish_block(ProcessState::Tail(300)).notify_tail_changed);
    let creation = instance.create_editor(false, Platform::Linux, 9);
    assert!(creation.created && creation.register_timer);
    assert!(instance.destroy_editor(Platform::Linux));
    instance.deactivate();
    assert_eq!(instance.plan_block(layout(), false), ClapBlock::Inactive { copy_input: false });
}
