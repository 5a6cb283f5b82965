use vstd::prelude::*;
use crate::format::{HostInfo, Platform, PluginFormat};
use crate::process::{ProcessMode, ProcessorConfig};
use super::config::MidiInputConfig;

verus! {

/// Microseconds between two editor frames.
pub const FRAME_INTERVAL_MICROS: u64 = 16_000;

/// What the host tells a standalone plugin about itself.
pub fn standalone_host_info() -> (info: HostInfo)
    ensures
        info.name matches Some(name) && name@ == "Standalone"@,
        info.format == PluginFormat::Standalone,
{
    HostInfo { name: Some(String::from_str("Standalone")), format: PluginFormat::Standalone }
}

/// The processor a standalone plugin plays with: at the device's sample rate, in blocks
/// of one frame up to the plugin's largest block, in real time.
pub fn standalone_processor_config<R>(sample_rate: R, max_block_size: usize) -> (config: ProcessorConfig<R>)
    ensures
        config.sample_rate == sample_rate,
        config.min_block_size == 1,
        config.max_block_size == max_block_size,
        config.process_mode == ProcessMode::Realtime,
{
    ProcessorConfig {
        sample_rate,
        min_block_size: 1,
        max_block_size,
        process_mode: ProcessMode::Realtime,
    }
}

/// Whether the window's scale is passed on to the editor: everywhere but macOS, where the
/// system's scale is already applied in the plugin's view.
pub fn applies_window_scale(platform: Platform) -> (applies: bool)
    ensures
        applies == (platform != Platform::MacOs),
{
    match platform {
        Platform::MacOs => false,
        _ => true,
    }
}

/// The window events a standalone plugin reacts to.
#[derive(Clone, Copy, Debug, PartialEq, Eq, Structural)]
pub enum WindowEvent {
    CloseRequested,
    ScaleFactorChanged,
    Other,
}

/// What the standalone runner does on a window event.
#[derive(Clone, Copy, Debug, PartialEq, Eq, Structural)]
pub enum WindowAction {
    /// Close the editor and leave the event loop.
    CloseAndExit,
    /// Pass the new scale to the editor.
    SetScale,
    Nothing,
}

pub fn window_action(event: WindowEvent, platform: Platform) -> (action: WindowAction)
    ensures
        action == match event {
            WindowEvent::CloseRequested => WindowAction::CloseAndExit,
            WindowEvent::ScaleFactorChanged => if platform != Platform::MacOs {
                WindowAction::SetScale
            } else {
                WindowAction::Nothing
            },
            WindowEvent::Other => WindowAction::Nothing,
        },
{
    match event {
        WindowEvent::CloseRequested => WindowAction::CloseAndExit,
        WindowEvent::ScaleFactorChanged => {
            if applies_window_scale(platform) {
                WindowAction::SetScale
            } else {
                WindowAction::Nothing
            }
        },
        WindowEvent::Other => WindowAction::Nothing,
    }
}

/// What the event loop does when it is about to wait.
#[derive(Clone, Copy, Debug, PartialEq, Eq, Structural)]
pub enum FrameStep {
    /// No window: nothing to draw.
    Idle,
    /// Too early for a frame: wait until the given time.
    Wait { until: u64 },
    /// Hand the editor's events to the plugin, draw a frame, then wait until the given time.
    Frame { until: u64 },
}

/// Paces the editor's frames: one frame per interval, timed from the last frame.
pub struct FrameClock {
    last_frame: u64,
}

pub open spec fn frame_step(has_window: bool, last_frame: u64, now: u64) -> (FrameStep, u64) {
    if !has_window {
        (FrameStep::Idle, last_frame)
    } else if now >= last_frame + FRAME_INTERVAL_MICROS {
        (FrameStep::Frame { until: (now + FRAME_INTERVAL_MICROS) as u64 }, now)
    } else {
        (FrameStep::Wait { until: (last_frame + FRAME_INTERVAL_MICROS) as u64 }, last_frame)
    }
}

impl FrameClock {
    pub closed spec fn last_frame(&self) -> u64 {
        self.last_frame
    }

    /// A clock whose last frame was drawn at `now` (in microseconds).
    pub fn new(now: u64) -> (clock: Self)
        ensures
            clock.last_frame() == now,
    {
        FrameClock { last_frame: now }
    }

    /// Decides the step at time `now`; a frame is due once an interval has passed since
    /// the last one, and then becomes the last one.
    pub fn step(&mut self, has_window: bool, now: u64) -> (step: FrameStep)
        requires
            old(self).last_frame() + FRAME_INTERVAL_MICROS <= u64::MAX,
            now + FRAME_INTERVAL_MICROS <= u64::MAX,
        ensures
            (step, final(self).last_frame()) == frame_step(has_window, old(self).last_frame(), now),
    {
        if !has_window {
            FrameStep::Idle
        } else if now >= self.last_frame + FRAME_INTERVAL_MICROS {
            self.last_frame = now;
            FrameStep::Frame { until: now + FRAME_INTERVAL_MICROS }
        } else {
            FrameStep::Wait { until: self.last_frame + FRAME_INTERVAL_MICROS }
        }
    }
}

/// Two frames are never drawn less than an interval apart: right after a frame, the
/// clock waits until the interval has passed.
pub proof fn lemma_frames_an_interval_apart(last_frame: u64, now: u64, later: u64)
    requires
        now + FRAME_INTERVAL_MICROS <= u64::MAX,
        frame_step(true, last_frame, now).0 is Frame,
        later < now + FRAME_INTERVAL_MICROS,
    ensures
        frame_step(true, frame_step(true, last_frame, now).1, later).0 is Wait,
{
}

/// The steps by which a standalone plugin starts.
#[derive(Clone, Copy, Debug, PartialEq, Eq, Structural)]
pub enum StartupStep {
    CreatePlugin,
    CreateProcessor,
    /// The processor is reset once, before the audio stream runs it.
    ResetProcessor,
    /// The MIDI input ports are connected.
    ConnectMidi,
    StartAudio,
    CreateEditor,
    RunEventLoop,
}

pub open spec fn startup_order(has_note_input: bool) -> Seq<StartupStep> {
    seq![StartupStep::CreatePlugin, StartupStep::CreateProcessor, StartupStep::ResetProcessor] + (
    if has_note_input {
        seq![StartupStep::ConnectMidi]
    } else {
        Seq::empty()
    }) + seq![StartupStep::StartAudio, StartupStep::CreateEditor, StartupStep::RunEventLoop]
}

/// The order in which a standalone plugin starts: the processor is created and reset once
/// before the audio stream starts to run it, and MIDI inputs are connected exactly when
/// the plugin takes notes.
pub fn startup_steps(has_note_input: bool) -> (steps: Vec<StartupStep>)
    ensures
        steps@ == startup_order(has_note_input),
{
    let mut steps = vec![StartupStep::CreatePlugin, StartupStep::CreateProcessor, StartupStep::ResetProcessor];
    if has_note_input {
        steps.push(StartupStep::ConnectMidi);
    }
    steps.push(StartupStep::StartAudio);
    steps.push(StartupStep::CreateEditor);
    steps.push(StartupStep::RunEventLoop);
    proof {
        if has_note_input {
            assert(steps@ =~= startup_order(has_note_input));
        } else {
            assert(steps@ =~= startup_order(has_note_input));
        }
    }
    steps
}

/// Whether a MIDI input port is connected: every port when no names are configured,
/// else the ports whose name is configured.
pub open spec fn connects_port(port_names: Option<Seq<Seq<char>>>, name: Seq<char>) -> bool {
    match port_names {
        None => true,
        Some(names) => names.contains(name),
    }
}

pub open spec fn configured_names(config: MidiInputConfig) -> Option<Seq<Seq<char>>> {
    match config.port_names {
        None => None,
        Some(names) => Some(names@.map_values(|n: String| n@)),
    }
}

fn is_configured(names: &Vec<String>, name: &String) -> (found: bool)
    ensures
        found == names@.map_values(|n: String| n@).contains(name@),
{
    let ghost views = names@.map_values(|n: String| n@);
    let mut i: usize = 0;
    while i < names.len()
        invariant
            0 <= i <= names@.len(),
            views == names@.map_values(|n: String| n@),
            forall|j: int| 0 <= j < i ==> names@[j]@ != name@,
        decreases names@.len() - i,
    {
        if names[i] == *name {
            proof {
                assert(views[i as int] == name@);
            }
            return true;
        }
        i = i + 1;
    }
    proof {
        if views.contains(name@) {
            let j = choose|j: int| 0 <= j < views.len() && views[j] == name@;
            assert(names@[j]@ == name@);
        }
    }
    false
}

/// The positions, in order, of the available MIDI input ports a standalone plugin
/// connects to: none for a plugin without note input, else those `connects_port` picks.
pub fn midi_ports_to_connect(has_note_input: bool, config: &MidiInputConfig, available: &[String]) -> (ports: Vec<usize>)
    ensures
        forall|a: int, b: int| 0 <= a < b < ports@.len() ==> ports@[a] < ports@[b],
        forall|i: int|
            0 <= i < available@.len() ==> (ports@.contains(i as usize) <==> has_note_input
                && connects_port(configured_names(*config), available@[i]@)),
        forall|k: int| 0 <= k < ports@.len() ==> (#[trigger] ports@[k]) < available@.len(),
{
    let mut ports: Vec<usize> = Vec::new();
    if !has_note_input {
        return ports;
    }
    let mut i: usize = 0;
    while i < available.len()
        invariant
            0 <= i <= available@.len(),
            has_note_input,
            forall|a: int, b: int| 0 <= a < b < ports@.len() ==> ports@[a] < ports@[b],
            forall|k: int| 0 <= k < ports@.len() ==> (#[trigger] ports@[k]) < i,
            forall|j: int|
                0 <= j < i ==> (ports@.contains(j as usize) <==> connects_port(
                    configured_names(*config),
                    available@[j]@,
                )),
        decreases available@.len() - i,
    {
        let connect = match &config.port_names {
            None => true,
            Some(names) => is_configured(names, &available[i]),
        };
        let ghost before = ports@;
        if connect {
            ports.push(i);
        }
        proof {
            assert forall|j: int| 0 <= j < i + 1 implies (ports@.contains(j as usize) <==> connects_port(
                configured_names(*config),
                available@[j]@,
            )) by {
                if j < i {
                    if ports@.contains(j as usize) {
                        let k = choose|k: int| 0 <= k < ports@.len() && ports@[k] == j as usize;
                        if k < before.len() {
                            assert(before[k] == j as usize);
                        }
                    }
                    if before.contains(j as usize) {
                        let k = choose|k: int| 0 <= k < before.len() && before[k] == j as usize;
                        assert(ports@[k] == j as usize);
                    }
                } else {
                    if connect {
                        assert(ports@[before.len() as int] == i);
                    } else {
                        if ports@.contains(i) {
                            let k = choose|k: int| 0 <= k < ports@.len() && ports@[k] == i;
                            assert(before[k] < i);
                        }
                    }
                }
            }
        }
        i = i + 1;
    }
    ports
}

/// The audio buffer a standalone plugin asks for.
#[derive(Clone, Copy, Debug, PartialEq, Eq, Structural)]
pub enum BufferSize {
    /// The device's default buffer size.
    Default,
    /// A fixed number of frames.
    Fixed(u32),
}

/// The configured buffer size, or the device's default where none is configured.
pub fn buffer_size(configured: Option<u32>) -> (size: BufferSize)
    ensures
        size == match configured {
            Some(frames) => BufferSize::Fixed(frames),
            None => BufferSize::Default,
        },
{
    match configured {
        Some(frames) => BufferSize::Fixed(frames),
        None => BufferSize::Default,
    }
}

} // verus!
