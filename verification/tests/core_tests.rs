use plinth_plugin::text::number_chars;
use plinth_plugin::editor::NoEditor;
use plinth_plugin::error::Error;
use plinth_plugin::event::{split_signal, Event, SignalSplitter};
use plinth_plugin::format::PluginFormat;
use plinth_plugin::parameters::{check_parameter_set, find_group, has_duplicates, sorted_ids, ParameterGroup, ParameterSetError};
use plinth_plugin::process::ProcessMode;

fn value(offset: usize, id: u32) -> Event<f64> {
    Event::ParameterValue { sample_offset: offset, id, value: 0.5 }
}

#[test]
fn signal_split_at_parameter_events() {
    let events = vec![
        value(10, 1),
        Event::NoteOn { sample_offset: 20, channel: 0, note_id: None, key: 60, velocity: 1.0 },
        value(50, 2),
    ];
    let mut splitter = Event::split_signal_at_events(100, events);
    let first = splitter.next().unwrap();
    assert_eq!((first.0, first.1), (0, 10));
    assert!(matches!(first.2, Some(Event::ParameterValue { id: 1, .. })));
    let second = splitter.next().unwrap();
    assert_eq!((second.0, second.1), (10, 50));
    assert!(matches!(second.2, Some(Event::ParameterValue { id: 2, .. })));
    let last = splitter.next().unwrap();
    assert_eq!((last.0, last.1), (50, 100));
    assert!(last.2.is_none());
    assert!(splitter.next().is_none());
}

#[test]
fn signal_without_parameter_events_is_one_piece() {
    let mut splitter: SignalSplitter<f64> = SignalSplitter::new(64, vec![]);
    let piece = splitter.next().unwrap();
    assert_eq!((piece.0, piece.1), (0, 64));
    assert!(splitter.next().is_none());
    let mut empty: SignalSplitter<f64> = SignalSplitter::new(0, vec![]);
    assert!(empty.next().is_none());
}

#[test]
fn events_past_the_signal_split_at_its_end() {
    let mut splitter = Event::split_signal_at_events(32, vec![value(40, 3)]);
    let piece = splitter.next().unwrap();
    assert_eq!((piece.0, piece.1), (0, 32));
    assert!(piece.2.is_some());
    assert!(splitter.next().is_none());
}

#[test]
fn event_offsets_and_kinds() {
    let note = Event::NoteOff { sample_offset: 7, channel: None, note_id: None, key: Some(60), velocity: 0.0f64 };
    assert_eq!(note.sample_offset(), 7);
    assert!(!note.is_parameter_event());
    let modulation = Event::ParameterModulation { sample_offset: 3, id: 9, amount: 0.1f64 };
    assert!(modulation.is_parameter_event());
    assert_eq!(modulation.sample_offset(), 3);
}

#[test]
fn format_names() {
    assert_eq!(PluginFormat::Auv3.name(), "AUv3");
    assert_eq!(PluginFormat::Clap.name(), "CLAP");
    assert_eq!(PluginFormat::Standalone.name(), "Standalone");
    assert_eq!(PluginFormat::Vst3.name(), "VST3");
}

#[test]
fn process_mode_starts_realtime() {
    assert_eq!(ProcessMode::default_mode(), ProcessMode::Realtime);
}

#[test]
fn parameter_sets_checked() {
    assert!(has_duplicates(&[1, 2, 1]));
    assert!(!has_duplicates(&[1, 2, 3]));
    assert_eq!(check_parameter_set(&[1, 2, 3], &[false, true, false]), Ok(()));
    assert_eq!(check_parameter_set(&[1, 2, 2], &[false, false, false]), Err(ParameterSetError::DuplicateId));
    assert_eq!(check_parameter_set(&[1, 2, 3], &[true, true, false]), Err(ParameterSetError::SeveralBypassParameters));
}

#[test]
fn ids_sorted_once_each() {
    assert_eq!(sorted_ids(&[5, 1, 3, 1, 5]), vec![1, 3, 5]);
    assert_eq!(sorted_ids(&[]), Vec::<u32>::new());
}

#[test]
fn groups_found_by_path() {
    let groups = vec![
        ParameterGroup { path: "a".to_string(), name: "A".to_string(), parent: None },
        ParameterGroup { path: "a/b".to_string(), name: "B".to_string(), parent: Some("a".to_string()) },
    ];
    assert_eq!(find_group(&groups, &"a/b".to_string()), Some(1));
    assert_eq!(find_group(&groups, &"c".to_string()), None);
}

#[test]
fn io_errors_convert() {
    let error: Error = std::io::Error::new(std::io::ErrorKind::UnexpectedEof, "short").into();
    assert!(matches!(error, Error::IoError(_)));
    assert!(matches!(Error::ParameterIdError(4), Error::ParameterIdError(4)));
}

#[test]
fn no_editor_is_fixed() {
    let editor = NoEditor::new();
    assert!(!editor.can_resize());
    assert_eq!(editor.check_window_size(640, 480), None);
}

#[test]
fn whole_signal_split_follows_on() {
    let events = vec![
        value(0, 1),
        Event::NoteOn { sample_offset: 5, channel: 0, note_id: Some(3), key: 64, velocity: 0.8 },
        value(16, 2),
        value(16, 3),
        value(90, 4),
    ];
    let pieces = split_signal(64, events);
    let bounds: Vec<(usize, usize)> = pieces.iter().map(|p| (p.0, p.1)).collect();
    assert_eq!(bounds, vec![(0, 0), (0, 16), (16, 16), (16, 64)]);
    let ids: Vec<u32> = pieces
        .iter()
        .filter_map(|p| match p.2 {
            Some(Event::ParameterValue { id, .. }) => Some(id),
            _ => None,
        })
        .collect();
    assert_eq!(ids, vec![1, 2, 3, 4]);
}

#[test]
fn whole_signal_without_events() {
    let pieces = split_signal::<f64>(48, vec![]);
    assert_eq!(pieces.len(), 1);
    assert_eq!((pieces[0].0, pieces[0].1), (0, 48));
    assert!(pieces[0].2.is_none());
    assert!(split_signal::<f64>(0, vec![]).is_empty());
}

#[test]
fn number_characters_kept() {
    assert_eq!(number_chars("-12.5 dB"), "-12.5");
    assert_eq!(number_chars("+3 st"), "+3");
    assert_eq!(number_chars("C"), "");
}
