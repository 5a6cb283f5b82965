use plinth_plugin::auv3::block::{activation_config, auv3_host_info, plan_block, tail_length_samples, Auv3Block};
use plinth_plugin::auv3::event::{render_parameter_events, EventIterator, RenderEvent};
use plinth_plugin::auv3::parameters::{
    group_identifier, group_info, group_parent_index, parameter_identifier, parent_group_index,
    ParameterEntry, ParameterTable, ValueForwarding,
};
use plinth_plugin::auv3::render_event::{AURenderEventType, MIDIProtocolId};
use plinth_plugin::auv3::wrapper::Auv3State;
use plinth_plugin::event::Event;
use plinth_plugin::format::PluginFormat;
use plinth_plugin::parameters::ParameterGroup;
use plinth_plugin::process::{ProcessMode, ProcessState};

fn parameter_event(time: i64, address: u64, value: f32) -> RenderEvent<f32> {
    RenderEvent { event_sample_time: time, event_type: AURenderEventType::AURenderEventParameter, parameter_address: address, value }
}

#[test]
fn render_event_codes_round_trip() {
    let kinds = [
        AURenderEventType::AURenderEventParameter,
        AURenderEventType::AURenderEventParameterRamp,
        AURenderEventType::AURenderEventMIDI,
        AURenderEventType::AURenderEventMIDISysEx,
        AURenderEventType::AURenderEventMIDIEventList,
    ];
    for kind in kinds {
        assert_eq!(AURenderEventType::from_code(kind.code()), Some(kind));
    }
    assert_eq!(AURenderEventType::AURenderEventMIDI.code(), 8);
    assert_eq!(AURenderEventType::from_code(3), None);
    assert_eq!(MIDIProtocolId::Protocol2_0.code(), 2);
    assert_eq!(MIDIProtocolId::from_code(1), Some(MIDIProtocolId::Protocol1_0));
    assert_eq!(MIDIProtocolId::from_code(3), None);
}

#[test]
fn render_events_become_parameter_changes() {
    let events = vec![
        parameter_event(-20, 7, 0.5),
        RenderEvent { event_sample_time: 4, event_type: AURenderEventType::AURenderEventMIDI, parameter_address: 7, value: 0.0 },
        parameter_event(8, 99, 0.1),
        RenderEvent { event_sample_time: 16, event_type: AURenderEventType::AURenderEventParameterRamp, parameter_address: 3, value: 0.25 },
    ];
    let mut it = EventIterator::new(events, vec![3, 7]);
    let first = it.next().unwrap();
    assert!(matches!(first, Event::ParameterValue { sample_offset: 0, id: 7, value } if value == 0.5));
    let second = it.next().unwrap();
    assert!(matches!(second, Event::ParameterValue { sample_offset: 16, id: 3, value } if value == 0.25));
    assert!(it.next().is_none());
    assert!(it.next().is_none());
}

#[test]
fn render_addresses_taken_to_32_bits() {
    let events = vec![parameter_event(1, (1u64 << 32) | 7, 0.75)];
    let mut it = EventIterator::new(events, vec![7]);
    assert!(matches!(it.next(), Some(Event::ParameterValue { id: 7, .. })));
}

fn entries() -> Vec<ParameterEntry> {
    vec![
        ParameterEntry { id: 10, steps: 0, name: "Gain".to_string(), path: String::new() },
        ParameterEntry { id: 20, steps: 4, name: "Mode".to_string(), path: "osc".to_string() },
    ]
}

#[test]
fn cached_values_set_and_read() {
    let mut table = ParameterTable::new(entries());
    assert_eq!(table.parameter_count(), 2);
    assert_eq!(table.parameter_ids(), vec![10, 20]);
    assert_eq!(table.parameter_value(20), Some(0.0f32.to_bits()));
    assert_eq!(table.index_of(20), Some(1));
    let forwarding = table.set_parameter_value(20, 2.0f32.to_bits(), false);
    assert_eq!(forwarding, Some(ValueForwarding { id: 20, multiplier: 4, notify_plugin: true }));
    assert_eq!(table.parameter_value(20), Some(2.0f32.to_bits()));
    let from_editor = table.set_parameter_value(10, 0.5f32.to_bits(), true);
    assert_eq!(from_editor, Some(ValueForwarding { id: 10, multiplier: 1, notify_plugin: false }));
    assert_eq!(table.set_parameter_value(30, 1.0f32.to_bits(), false), None);
    assert_eq!(table.parameter_value(30), None);
    assert_eq!(table.parameter_multiplier(20), 4);
    table.store_editor_value(10, 0.25f32.to_bits());
    assert_eq!(table.parameter_value(10), Some(0.25f32.to_bits()));
}

#[test]
fn audio_unit_state_queues_events_before_render_events() {
    let mut state: Auv3State<f64> = Auv3State::new(entries());
    assert_eq!(state.tail_length(), 0);
    assert_eq!(state.table_ref().parameter_value(10), Some(0));
    state.activate(48000u32, 512);
    let forwarding = state.set_parameter_value(20, 2.0f32.to_bits(), 0.5).unwrap();
    assert!(forwarding.notify_plugin);
    state.set_sending_from_editor(true);
    assert!(!state.set_parameter_value(10, 1.0f32.to_bits(), 1.0).unwrap().notify_plugin);
    state.set_sending_from_editor(false);
    state.queue_events(vec![Event::ParameterValue { sample_offset: 0, id: 10, value: 0.25 }]);
    let render = vec![RenderEvent { event_sample_time: 3, event_type: AURenderEventType::AURenderEventParameter, parameter_address: 20, value: 0.75 }];
    let (queued, mut it) = state.start_block(render);
    assert_eq!(queued.len(), 3);
    assert!(matches!(queued[0], Event::ParameterValue { id: 20, value, .. } if value == 0.5));
    assert!(matches!(queued[1], Event::ParameterValue { id: 10, value, .. } if value == 1.0));
    assert!(matches!(queued[2], Event::ParameterValue { id: 10, value, .. } if value == 0.25));
    assert!(matches!(it.next(), Some(Event::ParameterValue { sample_offset: 3, id: 20, .. })));
    let (again, _) = state.start_block(vec![]);
    assert!(again.is_empty());
    assert_eq!(state.finish_block(ProcessState::Tail(64)), 64);
    assert_eq!(state.tail_length(), 64);
}

#[test]
fn parameters_described_with_groups() {
    let table = ParameterTable::new(entries());
    let groups = vec![ParameterGroup { path: "osc".to_string(), name: "Oscillator".to_string(), parent: None }];
    let mode = table.parameter_info(1, &groups).unwrap();
    assert_eq!(mode.address, 20);
    assert_eq!(mode.steps, 4);
    assert_eq!(mode.name, "Mode");
    assert_eq!(mode.identifier, "ID20");
    assert_eq!(mode.parent_group_index, 0);
    let gain = table.parameter_info(0, &groups).unwrap();
    assert_eq!(gain.parent_group_index, -1);
    assert!(table.parameter_info(2, &groups).is_none());
}

#[test]
fn group_parents_by_position() {
    let groups = vec![
        ParameterGroup { path: "a".to_string(), name: "A".to_string(), parent: None },
        ParameterGroup { path: "a/b".to_string(), name: "B".to_string(), parent: Some("a".to_string()) },
    ];
    assert_eq!(group_parent_index(&groups, 0), -1);
    assert_eq!(group_parent_index(&groups, 1), 0);
    assert_eq!(parent_group_index(&groups, &"a/b".to_string()), 1);
    assert_eq!(parent_group_index(&groups, &"x".to_string()), -1);
}

#[test]
fn auv3_blocks_and_tails() {
    assert_eq!(plan_block(2, true, true, false, true), Auv3Block::Process { copy_input: true, with_aux: false });
    assert_eq!(plan_block(2, true, false, true, false), Auv3Block::EventsOnly);
    assert_eq!(tail_length_samples(ProcessState::Error), 0);
    assert_eq!(tail_length_samples(ProcessState::Normal), 0);
    assert_eq!(tail_length_samples(ProcessState::Tail(300)), 300);
    assert_eq!(tail_length_samples(ProcessState::KeepAlive), usize::MAX);
}

#[test]
fn auv3_activation_and_host() {
    let config = activation_config(48000u32, 256);
    assert_eq!(config.max_block_size, 256);
    assert_eq!(config.min_block_size, 0);
    assert_eq!(config.process_mode, ProcessMode::Realtime);
    let info = auv3_host_info();
    assert!(info.name.is_none());
    assert_eq!(info.format, PluginFormat::Auv3);
}

#[test]
fn identifiers_are_decimal() {
    assert_eq!(parameter_identifier(0), "ID0");
    assert_eq!(parameter_identifier(1234), "ID1234");
    assert_eq!(parameter_identifier(u32::MAX), "ID4294967295");
    assert_eq!(group_identifier(7), "Group7");
    assert_eq!(group_identifier(10), "Group10");
}

#[test]
fn groups_described() {
    let groups = vec![
        ParameterGroup { path: "a".to_string(), name: "A".to_string(), parent: None },
        ParameterGroup { path: "a/b".to_string(), name: "B".to_string(), parent: Some("a".to_string()) },
    ];
    let inner = group_info(&groups, 1);
    assert_eq!(inner.name, "B");
    assert_eq!(inner.identifier, "Group1");
    assert_eq!(inner.parent_group_index, 0);
    assert_eq!(group_info(&groups, 0).parent_group_index, -1);
}

#[test]
fn render_events_read_to_the_end() {
    let events = vec![
        parameter_event(5, 99, 0.1),
        parameter_event(-3, 7, 0.5),
        RenderEvent { event_sample_time: 4, event_type: AURenderEventType::AURenderEventMIDISysEx, parameter_address: 7, value: 0.0 },
        RenderEvent { event_sample_time: 9, event_type: AURenderEventType::AURenderEventParameterRamp, parameter_address: 3, value: 0.25 },
    ];
    let changes = render_parameter_events(events, vec![3, 7]);
    assert_eq!(changes.len(), 2);
    assert!(matches!(changes[0], Event::ParameterValue { sample_offset: 0, id: 7, value } if value == 0.5));
    assert!(matches!(changes[1], Event::ParameterValue { sample_offset: 9, id: 3, value } if value == 0.25));
    assert!(render_parameter_events::<f32>(vec![], vec![3]).is_empty());
}
