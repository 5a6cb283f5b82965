use plinth_plugin::vst3::controller::{creates_view, parameter_info, parameter_text, sets_plugin_parameter, ControllerParameter};
use plinth_plugin::format::PluginFormat;
use plinth_plugin::parameters::ParameterGroup;
use plinth_plugin::process::{ProcessMode, ProcessState};
use plinth_plugin::format::Platform;
use plinth_plugin::vst3::block::{block_events, plan_block, ProcessRequest, Vst3Block};
use plinth_plugin::event::Event;
use plinth_plugin::vst3::component::{
    bus_count, bus_info, can_process_sample_size, midi_controller_assignment, parameter_flags,
    parameter_group_id, process_mode_for_io_mode, set_bus_arrangements, tail_samples, unit_count,
    unit_info, MidiParameter, BUS_TYPE_AUX, BUS_TYPE_MAIN, DIRECTION_INPUT, DIRECTION_OUTPUT,
    INFINITE_TAIL, MEDIA_AUDIO, MEDIA_EVENT, NO_TAIL, SAMPLE_32, STEREO,
};
use plinth_plugin::vst3::error::Error;
use plinth_plugin::vst3::factory::{check_class_index, check_create_instance, class_id_from_bytes};
use plinth_plugin::vst3::key_codes::{to_key_code, unicode_to_string, KeyCode};
use plinth_plugin::vst3::lifecycle::{
    aux_activation, host_name, set_processing, setup_config, state_transfer_result, vst3_host_info,
};
use plinth_plugin::vst3::note_expressions::{
    note_expression_count, note_expression_for_display, note_expression_for_text,
    physical_ui_mapping, NoteExpressionDescriptor, NoteExpressions, ValueKind, BRIGHTNESS_TYPE_ID,
    INVALID_TYPE_ID, PUI_PRESSURE, PUI_X_MOVEMENT, PUI_Y_MOVEMENT, TUNING_TYPE_ID, VOLUME_TYPE_ID,
};
use plinth_plugin::vst3::parameters::{ChangeKind, ParameterChangeIterator, ParameterQueue};
use plinth_plugin::vst3::stream::{Stream, StreamStep};
use plinth_plugin::vst3::subcategories::{subcategory_string, Subcategory};
use plinth_plugin::vst3::view::{is_platform_type_supported, PluginView, ViewRect, Vst3Host};

fn all_expressions() -> NoteExpressions {
    NoteExpressions { volume: true, pan: true, tuning: true, vibrato: true, expression: true, brightness: true }
}

fn no_expressions() -> NoteExpressions {
    NoteExpressions { volume: false, pan: false, tuning: false, vibrato: false, expression: false, brightness: false }
}

#[test]
fn error_codes_round_trip() {
    let all = [
        Error::NoInterface,
        Error::ResultFalse,
        Error::InvalidArgument,
        Error::NotImplemented,
        Error::InternalError,
        Error::NotInitialized,
        Error::OutOfMemory,
    ];
    for error in all {
        assert_eq!(Error::from_i32(error.code()), Some(error));
    }
    assert_eq!(Error::NoInterface.code(), -1);
    assert_eq!(Error::OutOfMemory.code(), 6);
    assert_eq!(Error::from_i32(0), None);
    assert_eq!(Error::from_i32(7), None);
    assert_eq!(Error::InvalidArgument.message(), "Invalid argument");
    assert_eq!(Error::ResultFalse.message(), "False");
}

#[test]
fn stream_moves_until_buffer_full() {
    let mut stream = Stream::new(10);
    assert!(stream.wants_more());
    assert_eq!(stream.request(), Some((0, 10)));
    assert_eq!(stream.record(4, 0), StreamStep::Continue);
    assert_eq!(stream.request(), Some((4, 6)));
    assert_eq!(stream.record(6, 0), StreamStep::Done(10));
    assert!(!stream.wants_more());
    assert_eq!(stream.request(), None);
}

#[test]
fn stream_ends_when_nothing_moved_and_fails_on_error() {
    let mut stream = Stream::new(10);
    assert_eq!(stream.record(3, 0), StreamStep::Continue);
    assert_eq!(stream.record(0, 0), StreamStep::Done(3));
    let mut failing = Stream::new(10);
    assert_eq!(failing.record(2, 2), StreamStep::Failed(Error::InvalidArgument));
}

#[test]
fn stream_read_places_each_chunk_after_the_last() {
    let host = [1u8, 2, 3, 4, 5, 6, 7];
    let mut buf = [0u8; 5];
    let mut stream = Stream::new(buf.len());
    let (start, missing) = stream.request().unwrap();
    assert_eq!((start, missing), (0, 5));
    let mut chunk = vec![0u8; missing];
    chunk[..2].copy_from_slice(&host[..2]);
    assert_eq!(stream.record_read(&mut buf, &chunk, 2, 0), StreamStep::Continue);
    assert_eq!(buf, [1, 2, 0, 0, 0]);
    let (start, missing) = stream.request().unwrap();
    assert_eq!((start, missing), (2, 3));
    let mut chunk = vec![0u8; missing];
    chunk.copy_from_slice(&host[2..5]);
    assert_eq!(stream.record_read(&mut buf, &chunk, 3, 0), StreamStep::Done(5));
    assert_eq!(buf, [1, 2, 3, 4, 5]);
    let mut failing = Stream::new(3);
    let mut untouched = [9u8; 3];
    assert_eq!(failing.record_read(&mut untouched, &[1, 2, 3], 2, 2), StreamStep::Failed(Error::InvalidArgument));
    assert_eq!(untouched, [9, 9, 9]);
    let mut ended = Stream::new(3);
    assert_eq!(ended.record_read(&mut untouched, &[1, 2, 3], 0, 0), StreamStep::Done(0));
    assert_eq!(untouched, [9, 9, 9]);
}

#[test]
fn subcategories_named_and_joined() {
    assert_eq!(Subcategory::PitchShift.to_str(), "Pitch Shift");
    assert_eq!(Subcategory::Eq.to_str(), "EQ");
    assert_eq!(Subcategory::UpDownMix.to_str(), "Up-Downmix");
    assert_eq!(subcategory_string(&[Subcategory::Fx, Subcategory::Reverb, Subcategory::Stereo]), "Fx|Reverb|Stereo");
    assert_eq!(subcategory_string(&[Subcategory::Instrument]), "Instrument");
    assert_eq!(subcategory_string(&[]), "");
}

#[test]
fn key_codes_name_keys() {
    assert_eq!(to_key_code(1), KeyCode::Backspace);
    assert_eq!(to_key_code(19), KeyCode::NumpadEnter);
    assert_eq!(to_key_code(24), KeyCode::Numpad0);
    assert_eq!(to_key_code(51), KeyCode::F12);
    assert_eq!(to_key_code(58), KeyCode::ContextMenu);
    assert_eq!(to_key_code(3), KeyCode::Unidentified);
    assert_eq!(to_key_code(-5), KeyCode::Unidentified);
}

#[test]
fn unicode_characters_become_text() {
    assert_eq!(unicode_to_string(0x41), Some("A".to_string()));
    assert_eq!(unicode_to_string(0x1F600), Some("\u{1F600}".to_string()));
    assert_eq!(unicode_to_string(0xD800), None);
    assert_eq!(unicode_to_string(0x110000), None);
}

#[test]
fn note_expressions_found_only_when_enabled() {
    let enabled = NoteExpressionDescriptor::enabled_expressions(all_expressions());
    assert_eq!(enabled.len(), 6);
    assert_eq!(enabled[0].type_id, VOLUME_TYPE_ID);
    let only_tuning = NoteExpressions { tuning: true, ..no_expressions() };
    let found = NoteExpressionDescriptor::find(only_tuning, TUNING_TYPE_ID).unwrap();
    assert_eq!(found.type_id, TUNING_TYPE_ID);
    assert_eq!(found.value_kind, ValueKind::Tuning);
    assert!(NoteExpressionDescriptor::find(only_tuning, VOLUME_TYPE_ID).is_none());
    assert!(NoteExpressionDescriptor::enabled_expressions(no_expressions()).is_empty());
}

#[test]
fn note_expression_count_on_note_channels_only() {
    assert_eq!(note_expression_count(true, 0, 3, all_expressions()), 6);
    assert_eq!(note_expression_count(true, 1, 3, all_expressions()), 0);
    assert_eq!(note_expression_count(true, 0, 16, all_expressions()), 0);
    assert_eq!(note_expression_count(false, 0, 3, all_expressions()), 0);
}

#[test]
fn note_expression_display_and_text_requests() {
    let display = note_expression_for_display(true, 0, 0, VOLUME_TYPE_ID, true, all_expressions()).unwrap();
    assert_eq!(display.type_id, VOLUME_TYPE_ID);
    assert!(matches!(
        note_expression_for_display(true, 0, 0, VOLUME_TYPE_ID, false, all_expressions()),
        Err(Error::InvalidArgument)
    ));
    let text: Vec<u16> = "12.5".encode_utf16().collect();
    let (descriptor, decoded) =
        note_expression_for_text(true, 0, 0, TUNING_TYPE_ID, Some(&text), true, all_expressions()).unwrap();
    assert_eq!(descriptor.type_id, TUNING_TYPE_ID);
    assert_eq!(decoded, "12.5");
    let broken = [0xD800u16];
    assert!(matches!(
        note_expression_for_text(true, 0, 0, TUNING_TYPE_ID, Some(&broken), true, all_expressions()),
        Err(Error::InvalidArgument)
    ));
}

#[test]
fn physical_controls_map_to_expressions() {
    let list = [PUI_X_MOVEMENT, PUI_Y_MOVEMENT, PUI_PRESSURE];
    let mapping = physical_ui_mapping(true, 0, 0, Some(&list), all_expressions()).unwrap();
    assert_eq!(mapping, vec![TUNING_TYPE_ID, BRIGHTNESS_TYPE_ID, INVALID_TYPE_ID]);
    let none = physical_ui_mapping(true, 0, 0, Some(&list), no_expressions()).unwrap();
    assert_eq!(none, vec![INVALID_TYPE_ID, INVALID_TYPE_ID, INVALID_TYPE_ID]);
    assert!(matches!(physical_ui_mapping(true, 0, 0, None, all_expressions()), Err(Error::InvalidArgument)));
}

#[test]
fn parameter_changes_in_offset_order() {
    let queues = vec![
        ParameterQueue { id: 10, offsets: vec![0, 8] },
        ParameterQueue { id: 20, offsets: vec![4] },
    ];
    let mut it = ParameterChangeIterator::new(Some(queues), [u32::MAX; 16]);
    let mut seen = Vec::new();
    while let Some(change) = it.next() {
        assert_eq!(change.kind, ChangeKind::Value);
        seen.push((change.id, change.offset));
    }
    // The point that opens a new sample offset is delivered again on the next call.
    assert_eq!(seen, vec![(10, 0), (20, 4), (20, 4), (10, 8), (10, 8)]);
    assert!(it.next().is_none());
}

#[test]
fn parameter_changes_at_a_shared_offset() {
    let queues = vec![
        ParameterQueue { id: 1, offsets: vec![5] },
        ParameterQueue { id: 2, offsets: vec![5] },
    ];
    let mut it = ParameterChangeIterator::new(Some(queues), [u32::MAX; 16]);
    let mut seen = Vec::new();
    while let Some(change) = it.next() {
        seen.push((change.id, change.offset));
    }
    // Each queue counts the points it passes at the current offset on its own.
    assert_eq!(seen, vec![(1, 5), (1, 5)]);
}

#[test]
fn parameter_changes_without_queues_end_at_once() {
    let mut it = ParameterChangeIterator::new(None, [u32::MAX; 16]);
    assert!(it.next().is_none());
    let mut empty = ParameterChangeIterator::new(Some(vec![]), [u32::MAX; 16]);
    assert!(empty.next().is_none());
}

#[test]
fn pitch_bend_parameters_become_pitch_bends() {
    let mut pitch_ids = [u32::MAX; 16];
    pitch_ids[3] = 77;
    let queues = vec![ParameterQueue { id: 77, offsets: vec![2] }];
    let mut it = ParameterChangeIterator::new(Some(queues), pitch_ids);
    let change = it.next().unwrap();
    assert_eq!(change.kind, ChangeKind::PitchBend { channel: 3 });
}

#[test]
fn bus_arrangements_must_be_stereo() {
    assert_eq!(set_bus_arrangements(false, Some(&[STEREO]), Some(&[STEREO])), Ok(()));
    assert_eq!(set_bus_arrangements(true, Some(&[STEREO, STEREO]), Some(&[STEREO])), Ok(()));
    assert_eq!(set_bus_arrangements(false, Some(&[1]), Some(&[STEREO])), Err(Error::ResultFalse));
    assert_eq!(set_bus_arrangements(true, Some(&[STEREO]), Some(&[STEREO])), Err(Error::ResultFalse));
    assert!(set_bus_arrangements(false, None, Some(&[STEREO])).is_err());
}

#[test]
fn sample_size_and_io_mode() {
    assert_eq!(can_process_sample_size(SAMPLE_32), Ok(()));
    assert_eq!(can_process_sample_size(1), Err(Error::ResultFalse));
    assert_eq!(process_mode_for_io_mode(0), Ok(ProcessMode::Realtime));
    assert_eq!(process_mode_for_io_mode(2), Ok(ProcessMode::Offline));
}

#[test]
fn buses_counted_and_described() {
    assert_eq!(bus_count(MEDIA_AUDIO, DIRECTION_INPUT, true, false, false), 2);
    assert_eq!(bus_count(MEDIA_AUDIO, DIRECTION_INPUT, false, false, false), 1);
    assert_eq!(bus_count(MEDIA_AUDIO, DIRECTION_OUTPUT, true, false, false), 1);
    assert_eq!(bus_count(MEDIA_EVENT, DIRECTION_INPUT, false, true, false), 1);
    assert_eq!(bus_count(MEDIA_EVENT, DIRECTION_INPUT, false, false, false), 0);
    let main = bus_info(MEDIA_AUDIO, DIRECTION_INPUT, 0, true, false, false).unwrap();
    assert_eq!(main.name, "Main");
    assert_eq!(main.bus_type, BUS_TYPE_MAIN);
    assert_eq!(main.channel_count, 2);
    let aux = bus_info(MEDIA_AUDIO, DIRECTION_INPUT, 1, true, false, false).unwrap();
    assert_eq!(aux.bus_type, BUS_TYPE_AUX);
    assert!(matches!(bus_info(MEDIA_AUDIO, DIRECTION_INPUT, 1, false, false, false), Err(Error::InvalidArgument)));
}

#[test]
fn midi_controllers_assigned() {
    assert_eq!(midi_controller_assignment(0, 2, 129), Ok(MidiParameter::PitchBend { channel: 2 }));
    assert_eq!(midi_controller_assignment(0, 2, 128), Ok(MidiParameter::ChannelPressure { channel: 2 }));
    assert_eq!(midi_controller_assignment(0, 2, 130), Ok(MidiParameter::ProgramChange { channel: 2 }));
    assert_eq!(midi_controller_assignment(0, 2, 7), Ok(MidiParameter::ControlChange { channel: 2, controller: 7 }));
    assert_eq!(midi_controller_assignment(1, 2, 7), Err(Error::ResultFalse));
    assert_eq!(midi_controller_assignment(0, 16, 7), Err(Error::InvalidArgument));
    assert_eq!(midi_controller_assignment(0, 0, 200), Err(Error::ResultFalse));
}

#[test]
fn parameter_flags_and_units() {
    assert_eq!(parameter_flags(false, true), 1);
    assert_eq!(parameter_flags(true, true), 1 | 65536);
    assert_eq!(parameter_flags(false, false), 16);
    let groups = vec![
        ParameterGroup { path: "osc".to_string(), name: "Oscillator".to_string(), parent: None },
        ParameterGroup { path: "osc/env".to_string(), name: "Envelope".to_string(), parent: Some("osc".to_string()) },
    ];
    assert_eq!(unit_count(&groups), 3);
    assert_eq!(parameter_group_id(&groups, &"osc/env".to_string()), 2);
    assert_eq!(parameter_group_id(&groups, &String::new()), 0);
    let root = unit_info(&groups, 0).unwrap();
    assert_eq!(root.id, 0);
    let env = unit_info(&groups, 2).unwrap();
    assert_eq!(env.parent_unit_id, 1);
    assert_eq!(env.name, "Envelope");
    assert!(matches!(unit_info(&groups, 3), Err(Error::InvalidArgument)));
}

#[test]
fn tails_reported_to_host() {
    assert_eq!(tail_samples(ProcessState::Error), None);
    assert_eq!(tail_samples(ProcessState::Normal), Some(NO_TAIL));
    assert_eq!(tail_samples(ProcessState::Tail(0)), Some(NO_TAIL));
    assert_eq!(tail_samples(ProcessState::Tail(480)), Some(480));
    assert_eq!(tail_samples(ProcessState::KeepAlive), Some(INFINITE_TAIL));
}

fn audio_request() -> ProcessRequest {
    ProcessRequest {
        inputs_present: true,
        outputs_present: true,
        num_inputs: 1,
        num_outputs: 1,
        num_samples: 64,
        symbolic_sample_size: SAMPLE_32,
        main_input_channels: 2,
        main_output_channels: 2,
        aux_active: false,
        out_of_place: true,
    }
}

#[test]
fn process_calls_planned() {
    assert_eq!(plan_block(audio_request(), false, true), Vst3Block::Process { copy_input: true, with_aux: false });
    let double = ProcessRequest { symbolic_sample_size: 1, ..audio_request() };
    assert_eq!(plan_block(double, false, true), Vst3Block::Refuse);
    assert_eq!(plan_block(audio_request(), true, true), Vst3Block::Silence { fill_output: true });
    assert_eq!(plan_block(audio_request(), false, false), Vst3Block::Refuse);
    let events = ProcessRequest { num_samples: 0, symbolic_sample_size: 1, ..audio_request() };
    assert_eq!(plan_block(events, false, true), Vst3Block::EventsOnly);
    assert_eq!(plan_block(events, true, true), Vst3Block::Silence { fill_output: false });
}

#[test]
fn class_ids_read_big_endian() {
    let mut bytes = [0u8; 16];
    bytes[15] = 1;
    assert_eq!(class_id_from_bytes(&bytes), 1);
    bytes[0] = 0x12;
    assert_eq!(class_id_from_bytes(&bytes), (0x12u128 << 120) | 1);
    let id: u128 = 0x0123_4567_89AB_CDEF_FEDC_BA98_7654_3210;
    assert_eq!(class_id_from_bytes(&id.to_be_bytes()), id);
    assert_eq!(check_create_instance(Some(&id.to_be_bytes()), id), Ok(()));
    assert_eq!(check_create_instance(Some(&bytes), id), Err(Error::InvalidArgument));
    assert_eq!(check_create_instance(None, id), Err(Error::InvalidArgument));
    assert_eq!(check_class_index(0), Ok(()));
    assert_eq!(check_class_index(1), Err(Error::InvalidArgument));
}

#[test]
fn host_name_read_up_to_nul() {
    let mut buffer = [0u16; 16];
    for (i, unit) in "Bitwig".encode_utf16().enumerate() {
        buffer[i] = unit;
    }
    assert_eq!(host_name(0, &buffer), Some("Bitwig".to_string()));
    assert_eq!(host_name(1, &buffer), None);
    let info = vst3_host_info(Some("Bitwig".to_string()));
    assert_eq!(info.format, PluginFormat::Vst3);
}

#[test]
fn lifecycle_decisions() {
    let config = setup_config(48000u32, 512, ProcessMode::Offline);
    assert_eq!(config.max_block_size, 512);
    assert_eq!(config.min_block_size, 0);
    assert_eq!(config.process_mode, ProcessMode::Offline);
    assert_eq!(aux_activation(true, MEDIA_AUDIO, DIRECTION_INPUT, 1, 1), Some(true));
    assert_eq!(aux_activation(true, MEDIA_AUDIO, DIRECTION_INPUT, 0, 1), None);
    assert_eq!(aux_activation(false, MEDIA_AUDIO, DIRECTION_INPUT, 1, 0), None);
    assert_eq!(set_processing(0, true), (false, true));
    assert_eq!(set_processing(1, true), (true, false));
    assert_eq!(state_transfer_result(true, true, true), Ok(()));
    assert_eq!(state_transfer_result(true, false, true), Err(Error::ResultFalse));
}

#[test]
fn view_checks_host_requests() {
    let mut view = PluginView::new();
    assert!(!view.context_ref().has_frame());
    assert_eq!(view.attached(true, "X11EmbedWindowID", Platform::Linux), Ok(()));
    assert_eq!(view.attached(true, "HWND", Platform::Linux), Err(Error::InvalidArgument));
    assert_eq!(view.attached(false, "X11EmbedWindowID", Platform::Linux), Err(Error::InvalidArgument));
    assert_eq!(view.set_frame(false), Err(Error::InvalidArgument));
    assert_eq!(view.set_frame(true), Ok(()));
    assert!(view.context_ref().has_frame());
    let rect = ViewRect { left: 10, top: 20, right: 410, bottom: 320 };
    assert_eq!(view.on_size(Some(rect)), Ok((400, 300)));
    assert_eq!(view.on_size(Some(ViewRect { left: 5, top: 0, right: 0, bottom: 0 })), Err(Error::ResultFalse));
    assert_eq!(view.on_size(None), Err(Error::InvalidArgument));
    let constrained = view.constrained_rect(rect, 800, 600);
    assert_eq!(constrained, ViewRect { left: 10, top: 20, right: 790, bottom: 580 });
    assert_eq!(view.can_resize(false), Err(Error::ResultFalse));
    assert!(is_platform_type_supported("NSView", Platform::MacOs));
    assert!(!is_platform_type_supported("NSView", Platform::Windows));
}

#[test]
fn vst3_host_resizes_through_frame() {
    let host = Vst3Host::new(Some("Reaper".to_string()));
    assert_eq!(host.name(), Some("Reaper"));
    assert!(host.can_resize());
    let mut view = PluginView::new();
    assert!(!host.resize_accepted(view.context_ref(), 0));
    view.set_frame(true).unwrap();
    assert!(host.resize_accepted(view.context_ref(), 0));
    assert!(!host.resize_accepted(view.context_ref(), 1));
}

#[test]
fn controller_describes_parameters() {
    let groups = vec![ParameterGroup { path: "osc".to_string(), name: "Oscillator".to_string(), parent: None }];
    let parameters = vec![
        ControllerParameter { id: 3, name: "Gain".to_string(), steps: 0, path: String::new(), is_bypass: false, visible: true },
        ControllerParameter { id: 9, name: "Wave".to_string(), steps: 4, path: "osc".to_string(), is_bypass: false, visible: false },
        ControllerParameter { id: 1, name: "Bypass".to_string(), steps: 1, path: String::new(), is_bypass: true, visible: true },
    ];
    let gain = parameter_info(&parameters, &groups, 0).unwrap();
    assert_eq!((gain.id, gain.step_count, gain.unit_id, gain.flags), (3, 0, 0, 1));
    assert_eq!(gain.title, "Gain");
    let wave = parameter_info(&parameters, &groups, 1).unwrap();
    assert_eq!((wave.id, wave.step_count, wave.unit_id, wave.flags), (9, 4, 1, 16));
    let bypass = parameter_info(&parameters, &groups, 2).unwrap();
    assert_eq!(bypass.flags, 65536 | 1);
    assert!(matches!(parameter_info(&parameters, &groups, 3), Err(Error::InvalidArgument)));
    assert!(matches!(parameter_info(&parameters, &groups, -1), Err(Error::InvalidArgument)));
}

#[test]
fn controller_reads_text_and_creates_views() {
    let text: Vec<u16> = "-6 dB".encode_utf16().collect();
    assert_eq!(parameter_text(Some(&text), true), Ok("-6 dB".to_string()));
    assert_eq!(parameter_text(Some(&text), false), Err(Error::ResultFalse));
    assert_eq!(parameter_text(None, true), Err(Error::InvalidArgument));
    assert_eq!(parameter_text(Some(&[0xDC00]), true), Err(Error::InvalidArgument));
    assert!(creates_view(Some("editor"), true));
    assert!(!creates_view(Some("editor"), false));
    assert!(!creates_view(Some("viewer"), true));
    assert!(!creates_view(None, true));
    let mut pitch_ids = [u32::MAX; 16];
    pitch_ids[0] = 500;
    assert!(!sets_plugin_parameter(&pitch_ids, 500));
    assert!(sets_plugin_parameter(&pitch_ids, 3));
}

#[test]
fn note_events_before_parameter_changes() {
    let notes = vec![Event::NoteOn { sample_offset: 4, channel: 0, note_id: None, key: 60, velocity: 0.5f64 }];
    let changes = vec![Event::ParameterValue { sample_offset: 0, id: 2, value: 0.1 }];
    let events = block_events(notes, changes);
    assert_eq!(events.len(), 2);
    assert!(matches!(events[0], Event::NoteOn { .. }));
    assert!(matches!(events[1], Event::ParameterValue { id: 2, .. }));
}
