use vstd::prelude::*;
use crate::format::Platform;

verus! {

/// The audio back ends a standalone plugin can play through.
#[derive(Clone, Copy, Debug, PartialEq, Eq, Structural)]
pub enum AudioDeviceDriver {
    Default,
    Asio,
    Wasapi,
    Alsa,
    CoreAudio,
    Jack,
}

impl Default for AudioDeviceDriver {
    fn default() -> (driver: Self)
        ensures
            driver == AudioDeviceDriver::Default,
    {
        AudioDeviceDriver::Default
    }
}

/// The named back ends that can exist on a platform, in the order they are offered.
pub open spec fn platform_drivers(platform: Platform) -> Seq<AudioDeviceDriver> {
    match platform {
        Platform::Windows => seq![
            AudioDeviceDriver::Asio,
            AudioDeviceDriver::Wasapi,
            AudioDeviceDriver::Jack,
        ],
        Platform::Linux => seq![AudioDeviceDriver::Alsa, AudioDeviceDriver::Jack],
        Platform::MacOs => seq![AudioDeviceDriver::CoreAudio, AudioDeviceDriver::Jack],
        Platform::Other => Seq::empty(),
    }
}

/// The default back end first, then each back end of the platform that is available.
pub open spec fn offered_drivers(platform: Platform, available: Seq<AudioDeviceDriver>) -> Seq<AudioDeviceDriver> {
    seq![AudioDeviceDriver::Default] + platform_drivers(platform).filter(
        |d: AudioDeviceDriver| available.contains(d),
    )
}

fn is_available(available: &[AudioDeviceDriver], driver: AudioDeviceDriver) -> (found: bool)
    ensures
        found == available@.contains(driver),
{
    let mut i: usize = 0;
    while i < available.len()
        invariant
            0 <= i <= available@.len(),
            forall|j: int| 0 <= j < i ==> available@[j] != driver,
        decreases available@.len() - i,
    {
        if available[i] == driver {
            return true;
        }
        i = i + 1;
    }
    false
}

/// The back ends offered to a user: always the default one, followed by the named back
/// ends of the platform that the system has available.
pub fn available_drivers(platform: Platform, available: &[AudioDeviceDriver]) -> (drivers: Vec<AudioDeviceDriver>)
    ensures
        drivers@ == offered_drivers(platform, available@),
{
    let candidates: Vec<AudioDeviceDriver> = match platform {
        Platform::Windows => vec![
            AudioDeviceDriver::Asio,
            AudioDeviceDriver::Wasapi,
            AudioDeviceDriver::Jack,
        ],
        Platform::Linux => vec![AudioDeviceDriver::Alsa, AudioDeviceDriver::Jack],
        Platform::MacOs => vec![AudioDeviceDriver::CoreAudio, AudioDeviceDriver::Jack],
        Platform::Other => Vec::new(),
    };
    proof {
        assert(candidates@ == platform_drivers(platform));
    }
    let ghost keep = |d: AudioDeviceDriver| available@.contains(d);
    let mut drivers: Vec<AudioDeviceDriver> = vec![AudioDeviceDriver::Default];
    let mut i: usize = 0;
    while i < candidates.len()
        invariant
            0 <= i <= candidates@.len(),
            candidates@ == platform_drivers(platform),
            keep == (|d: AudioDeviceDriver| available@.contains(d)),
            drivers@ == seq![AudioDeviceDriver::Default] + candidates@.subrange(0, i as int).filter(
                keep,
            ),
        decreases candidates@.len() - i,
    {
        proof {
            let prefix = candidates@.subrange(0, i as int);
            assert(candidates@.subrange(0, i + 1) == prefix.push(candidates@[i as int]));
            reveal(Seq::filter);
            assert(candidates@.subrange(0, i + 1).drop_last() == prefix);
        }
        if is_available(available, candidates[i]) {
            drivers.push(candidates[i]);
        }
        i = i + 1;
    }
    proof {
        assert(candidates@.subrange(0, candidates@.len() as int) == candidates@);
    }
    drivers
}

/// The sample formats an audio device can play.
#[derive(Clone, Copy, Debug, PartialEq, Eq, Structural)]
pub enum SampleFormat {
    I8,
    I16,
    I24,
    I32,
    I64,
    U8,
    U16,
    U32,
    U64,
    F32,
    F64,
}

/// A range of stream configurations a device supports.
#[derive(Clone, Copy, Debug, PartialEq, Eq, Structural)]
pub struct StreamConfigRange {
    pub min_sample_rate: u32,
    pub max_sample_rate: u32,
    pub channels: u16,
    pub sample_format: SampleFormat,
}

pub const PREFERRED_CHANNELS: u16 = 2;

pub open spec fn supports_rate(range: StreamConfigRange, rate: u32) -> bool {
    range.min_sample_rate <= rate <= range.max_sample_rate
}

/// How well a configuration range fits: 3 for the rate in stereo 32-bit float, 2 for the
/// rate in stereo, 1 for the rate alone, 0 for none.
pub open spec fn fit(range: StreamConfigRange, rate: u32) -> int {
    if !supports_rate(range, rate) {
        0
    } else if range.channels == PREFERRED_CHANNELS && range.sample_format == SampleFormat::F32 {
        3
    } else if range.channels == PREFERRED_CHANNELS {
        2
    } else {
        1
    }
}

/// The first range with the best fit, `None` if no range supports the rate.
pub open spec fn is_best_match(ranges: Seq<StreamConfigRange>, rate: u32, index: int) -> bool {
    &&& 0 <= index < ranges.len()
    &&& fit(ranges[index], rate) > 0
    &&& forall|j: int| 0 <= j < ranges.len() ==> fit(#[trigger] ranges[j], rate) <= fit(ranges[index], rate)
    &&& forall|j: int| 0 <= j < index ==> fit(#[trigger] ranges[j], rate) < fit(ranges[index], rate)
}

/// A range with the rate in stereo (exactly two channels) 32-bit float.
pub open spec fn stereo_float_with_rate(range: StreamConfigRange, rate: u32) -> bool {
    supports_rate(range, rate) && range.channels == 2 && range.sample_format == SampleFormat::F32
}

/// A range with the rate in stereo (exactly two channels).
pub open spec fn stereo_with_rate(range: StreamConfigRange, rate: u32) -> bool {
    supports_rate(range, rate) && range.channels == 2
}

/// The best match is the first stereo 32-bit float range with the rate if there is one,
/// else the first stereo range with the rate if there is one, else the first range with
/// the rate.
pub proof fn lemma_best_match_is_first_preferred(ranges: Seq<StreamConfigRange>, rate: u32, index: int)
    requires
        is_best_match(ranges, rate, index),
    ensures
        supports_rate(ranges[index], rate),
        (exists|j: int| 0 <= j < ranges.len() && stereo_float_with_rate(#[trigger] ranges[j], rate)) ==> {
            &&& stereo_float_with_rate(ranges[index], rate)
            &&& forall|j: int| 0 <= j < index ==> !stereo_float_with_rate(#[trigger] ranges[j], rate)
        },
        !(exists|j: int| 0 <= j < ranges.len() && stereo_float_with_rate(#[trigger] ranges[j], rate))
            && (exists|j: int| 0 <= j < ranges.len() && stereo_with_rate(#[trigger] ranges[j], rate)) ==> {
            &&& stereo_with_rate(ranges[index], rate)
            &&& forall|j: int| 0 <= j < index ==> !stereo_with_rate(#[trigger] ranges[j], rate)
        },
        !(exists|j: int| 0 <= j < ranges.len() && stereo_with_rate(#[trigger] ranges[j], rate)) ==> forall|j: int|
            0 <= j < index ==> !supports_rate(#[trigger] ranges[j], rate),
{
    if exists|j: int| 0 <= j < ranges.len() && stereo_float_with_rate(#[trigger] ranges[j], rate) {
        let j = choose|j: int| 0 <= j < ranges.len() && stereo_float_with_rate(#[trigger] ranges[j], rate);
        assert(fit(ranges[j], rate) == 3);
        assert forall|k: int| 0 <= k < index implies !stereo_float_with_rate(#[trigger] ranges[k], rate) by {
            assert(fit(ranges[k], rate) < fit(ranges[index], rate));
        }
    }
    if exists|j: int| 0 <= j < ranges.len() && stereo_with_rate(#[trigger] ranges[j], rate) {
        let j = choose|j: int| 0 <= j < ranges.len() && stereo_with_rate(#[trigger] ranges[j], rate);
        assert(fit(ranges[j], rate) >= 2);
        if !(exists|j: int| 0 <= j < ranges.len() && stereo_float_with_rate(#[trigger] ranges[j], rate)) {
            assert(fit(ranges[index], rate) == 2) by {
                assert(!stereo_float_with_rate(ranges[index], rate));
            }
            assert forall|k: int| 0 <= k < index implies !stereo_with_rate(#[trigger] ranges[k], rate) by {
                assert(fit(ranges[k], rate) < fit(ranges[index], rate));
            }
        }
    } else {
        assert forall|k: int| 0 <= k < index implies !supports_rate(#[trigger] ranges[k], rate) by {
            assert(fit(ranges[k], rate) < fit(ranges[index], rate));
            assert(!stereo_with_rate(ranges[index], rate));
        }
    }
}

/// Picks a stream configuration among a device's ranges (ranked best first by the audio
/// library) for a configured sample rate, preferring stereo 32-bit float, then stereo,
/// then any range with the rate. Returns the range's position and the rate to open it
/// at. `None` means the device's default configuration is used: when no rate is
/// configured (the device's default rate), or when no range has the configured rate.
pub fn select_stream_config(ranges: &[StreamConfigRange], sample_rate: Option<u32>) -> (selected: Option<(usize, u32)>)
    ensures
        sample_rate is None ==> selected is None,
        sample_rate matches Some(rate) ==> match selected {
            Some((index, r)) => r == rate && is_best_match(ranges@, rate, index as int),
            None => forall|j: int| 0 <= j < ranges@.len() ==> !supports_rate(#[trigger] ranges@[j], rate),
        },
{
    let rate = match sample_rate {
        Some(r) => r,
        None => return None,
    };
    let mut best: Option<usize> = None;
    let mut best_fit: u8 = 0;
    let mut i: usize = 0;
    while i < ranges.len()
        invariant
            0 <= i <= ranges@.len(),
            sample_rate == Some(rate),
            best_fit <= 3,
            forall|j: int| 0 <= j < i ==> fit(#[trigger] ranges@[j], rate) <= best_fit,
            match best {
                Some(b) => {
                    &&& b < i
                    &&& best_fit > 0
                    &&& fit(ranges@[b as int], rate) == best_fit
                    &&& forall|j: int| 0 <= j < b ==> fit(#[trigger] ranges@[j], rate) < best_fit
                },
                None => best_fit == 0,
            },
        decreases ranges@.len() - i,
    {
        let range = ranges[i];
        let f: u8 = if !(range.min_sample_rate <= rate && rate <= range.max_sample_rate) {
            0
        } else if range.channels == PREFERRED_CHANNELS && range.sample_format == SampleFormat::F32 {
            3
        } else if range.channels == PREFERRED_CHANNELS {
            2
        } else {
            1
        };
        if f > best_fit {
            best = Some(i);
            best_fit = f;
        }
        i = i + 1;
    }
    match best {
        Some(b) => Some((b, rate)),
        None => {
            proof {
                assert forall|j: int| 0 <= j < ranges@.len() implies !supports_rate(#[trigger] ranges@[j], rate) by {
                    assert(fit(ranges@[j], rate) <= 0);
                }
            }
            None
        },
    }
}

/// Which MIDI inputs a standalone plugin listens to.
#[derive(Clone, Debug)]
pub struct MidiInputConfig {
    /// The ports to connect to; `None` connects to every port there is.
    pub port_names: Option<Vec<String>>,
}

impl Default for MidiInputConfig {
    fn default() -> (config: Self)
        ensures
            config.port_names is None,
    {
        MidiInputConfig { port_names: None }
    }
}

} // verus!
