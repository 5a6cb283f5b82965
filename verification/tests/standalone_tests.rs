use plinth_plugin::format::{Platform, PluginFormat};
use plinth_plugin::process::ProcessMode;
use plinth_plugin::event::Event;
use plinth_plugin::standalone::audio::{block_chunks, block_schedule, deinterleave, interleave};
use plinth_plugin::standalone::config::{
    available_drivers, select_stream_config, AudioDeviceDriver, MidiInputConfig,
    SampleFormat, StreamConfigRange,
};
use plinth_plugin::standalone::midi::{parse_midi, MidiMessage};
use plinth_plugin::standalone::parameters::StandaloneParameterEventMap;
use plinth_plugin::standalone::runner::{
    buffer_size, midi_ports_to_connect, standalone_host_info, standalone_processor_config,
    startup_steps, window_action, BufferSize, FrameClock, FrameStep, StartupStep, WindowAction,
    WindowEvent,
};

#[test]
fn drivers_offered_per_platform() {
    let available = [AudioDeviceDriver::Jack, AudioDeviceDriver::Alsa];
    assert_eq!(available_drivers(Platform::Linux, &available), vec![AudioDeviceDriver::Default, AudioDeviceDriver::Alsa, AudioDeviceDriver::Jack]);
    assert_eq!(available_drivers(Platform::Windows, &available), vec![AudioDeviceDriver::Default, AudioDeviceDriver::Jack]);
    assert_eq!(available_drivers(Platform::MacOs, &[]), vec![AudioDeviceDriver::Default]);
    assert_eq!(AudioDeviceDriver::default(), AudioDeviceDriver::Default);
}

fn range(min: u32, max: u32, channels: u16, format: SampleFormat) -> StreamConfigRange {
    StreamConfigRange { min_sample_rate: min, max_sample_rate: max, channels, sample_format: format }
}

#[test]
fn stream_config_preference() {
    let ranges = [
        range(8000, 48000, 1, SampleFormat::F32),
        range(8000, 48000, 2, SampleFormat::I16),
        range(8000, 48000, 2, SampleFormat::F32),
        range(96000, 192000, 2, SampleFormat::F32),
    ];
    assert_eq!(select_stream_config(&ranges, None), None);
    assert_eq!(select_stream_config(&ranges, Some(44100)), Some((2, 44100)));
    assert_eq!(select_stream_config(&ranges[..2], Some(48000)), Some((1, 48000)));
    assert_eq!(select_stream_config(&ranges[..1], Some(44100)), Some((0, 44100)));
    assert_eq!(select_stream_config(&ranges, Some(96000)), Some((3, 96000)));
    assert_eq!(select_stream_config(&ranges[..3], Some(96000)), None);
}

#[test]
fn midi_input_default_listens_everywhere() {
    assert!(MidiInputConfig::default().port_names.is_none());
}

#[test]
fn midi_messages_parsed() {
    assert_eq!(parse_midi(&[0x93, 60, 100]), Some(MidiMessage::NoteOn { channel: 3, key: 60, velocity: 100 }));
    assert_eq!(parse_midi(&[0x90, 60, 0]), Some(MidiMessage::NoteOff { channel: 0, key: 60, velocity: 0 }));
    assert_eq!(parse_midi(&[0x81, 62, 40]), Some(MidiMessage::NoteOff { channel: 1, key: 62, velocity: 40 }));
    assert_eq!(parse_midi(&[0x80, 62]), Some(MidiMessage::NoteOff { channel: 0, key: 62, velocity: 0 }));
    assert_eq!(parse_midi(&[0x90, 62]), Some(MidiMessage::NoteOff { channel: 0, key: 62, velocity: 0 }));
    assert_eq!(parse_midi(&[0xE2, 0x00, 0x40]), Some(MidiMessage::PitchBend { channel: 2, bend: 0 }));
    assert_eq!(parse_midi(&[0xE0, 0x7F, 0x7F]), Some(MidiMessage::PitchBend { channel: 0, bend: 8191 }));
    assert_eq!(parse_midi(&[0xE0, 0x00, 0x00]), Some(MidiMessage::PitchBend { channel: 0, bend: -8192 }));
    assert_eq!(parse_midi(&[0xE0, 0x00]), None);
    assert_eq!(parse_midi(&[0xB0, 7, 100]), None);
    assert_eq!(parse_midi(&[0x90]), None);
    assert_eq!(parse_midi(&[]), None);
}

#[test]
fn standalone_parameter_changes_taken_once() {
    let mut map = StandaloneParameterEventMap::new(&[30, 10, 20], 0.0f64);
    assert!(map.take_events().is_empty());
    map.change_parameter_value(20, 0.5);
    map.change_parameter_value(10, 0.1);
    map.change_parameter_value(20, 0.75);
    assert_eq!(map.take_events(), vec![(10, 0.1), (20, 0.75)]);
    assert!(map.take_events().is_empty());
}

#[test]
fn callbacks_processed_in_blocks() {
    assert_eq!(block_chunks(10, 4), vec![(0, 4), (4, 4), (8, 2)]);
    assert_eq!(block_chunks(8, 4), vec![(0, 4), (4, 4)]);
    assert_eq!(block_chunks(3, 4096), vec![(0, 3)]);
    assert!(block_chunks(0, 4).is_empty());
}

#[test]
fn interleaved_audio_split_and_joined() {
    let data = vec![1, 2, 3, 4, 5, 6, 7, 8];
    let block = deinterleave(&data, 2, 1, 2);
    assert_eq!(block, vec![vec![3, 5], vec![4, 6]]);
    let mut out = data.clone();
    interleave(&mut out, 2, 1, 2, &vec![vec![30, 50], vec![40, 60]]);
    assert_eq!(out, vec![1, 2, 30, 40, 50, 60, 7, 8]);
    let mut same = data.clone();
    interleave(&mut same, 2, 1, 2, &block);
    assert_eq!(same, data);
}

#[test]
fn standalone_host_and_config() {
    let info = standalone_host_info();
    assert_eq!(info.name.as_deref(), Some("Standalone"));
    assert_eq!(info.format, PluginFormat::Standalone);
    let config = standalone_processor_config(48000u32, 4096);
    assert_eq!(config.min_block_size, 1);
    assert_eq!(config.max_block_size, 4096);
    assert_eq!(config.process_mode, ProcessMode::Realtime);
}

#[test]
fn window_events_handled() {
    assert_eq!(window_action(WindowEvent::CloseRequested, Platform::Linux), WindowAction::CloseAndExit);
    assert_eq!(window_action(WindowEvent::ScaleFactorChanged, Platform::Windows), WindowAction::SetScale);
    assert_eq!(window_action(WindowEvent::ScaleFactorChanged, Platform::MacOs), WindowAction::Nothing);
    assert_eq!(window_action(WindowEvent::Other, Platform::Linux), WindowAction::Nothing);
}

#[test]
fn frames_paced() {
    let mut clock = FrameClock::new(1_000_000);
    assert_eq!(clock.step(false, 2_000_000), FrameStep::Idle);
    assert_eq!(clock.step(true, 1_010_000), FrameStep::Wait { until: 1_016_000 });
    assert_eq!(clock.step(true, 1_016_000), FrameStep::Frame { until: 1_032_000 });
    assert_eq!(clock.step(true, 1_020_000), FrameStep::Wait { until: 1_032_000 });
}

#[test]
fn callback_events_go_to_first_block() {
    let midi = vec![Event::NoteOn { sample_offset: 0, channel: 0, note_id: None, key: 60, velocity: 1.0f64 }];
    let schedule = block_schedule(10, 4, midi, vec![(3, 0.5), (8, 0.25)]);
    let bounds: Vec<(usize, usize)> = schedule.iter().map(|b| (b.0, b.1)).collect();
    assert_eq!(bounds, vec![(0, 4), (4, 4), (8, 2)]);
    assert_eq!(schedule[0].2.len(), 3);
    assert!(matches!(schedule[0].2[0], Event::NoteOn { key: 60, .. }));
    assert!(matches!(schedule[0].2[1], Event::ParameterValue { id: 3, value, .. } if value == 0.5));
    assert!(matches!(schedule[0].2[2], Event::ParameterValue { id: 8, value, .. } if value == 0.25));
    assert!(schedule[1].2.is_empty() && schedule[2].2.is_empty());
    assert!(block_schedule::<f64>(0, 4, vec![], vec![(1, 0.5)]).is_empty());
}

#[test]
fn standalone_starts_in_order() {
    assert_eq!(
        startup_steps(true),
        vec![
            StartupStep::CreatePlugin,
            StartupStep::CreateProcessor,
            StartupStep::ResetProcessor,
            StartupStep::ConnectMidi,
            StartupStep::StartAudio,
            StartupStep::CreateEditor,
            StartupStep::RunEventLoop,
        ]
    );
    assert!(!startup_steps(false).contains(&StartupStep::ConnectMidi));
    assert_eq!(startup_steps(false).len(), 6);
}

#[test]
fn midi_ports_chosen_by_name() {
    let available = vec!["Keys".to_string(), "Pads".to_string(), "Drums".to_string()];
    let all = MidiInputConfig { port_names: None };
    assert_eq!(midi_ports_to_connect(true, &all, &available), vec![0, 1, 2]);
    assert!(midi_ports_to_connect(false, &all, &available).is_empty());
    let some = MidiInputConfig { port_names: Some(vec!["Drums".to_string(), "Keys".to_string(), "Gone".to_string()]) };
    assert_eq!(midi_ports_to_connect(true, &some, &available), vec![0, 2]);
    assert_eq!(buffer_size(Some(512)), BufferSize::Fixed(512));
    assert_eq!(buffer_size(None), BufferSize::Default);
}
