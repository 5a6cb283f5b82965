use vstd::prelude::*;

verus! {

/// The VST3 plugin categories a plugin can list itself under.
#[derive(Clone, Copy, Debug, PartialEq, Eq, Structural)]
pub enum Subcategory {
    Fx,
    Instrument,
    Analyzer,
    Delay,
    Distortion,
    Drum,
    Dynamics,
    Eq,
    External,
    Filter,
    Generator,
    Mastering,
    Modulation,
    Network,
    Piano,
    PitchShift,
    Restoration,
    Reverb,
    Sampler,
    Spatial,
    Synth,
    Tools,
    UpDownMix,
    Ambisonics,
    Mono,
    Stereo,
    Surround,
}

/// The name a host shows for a subcategory.
pub open spec fn subcategory_name(subcategory: Subcategory) -> Seq<char> {
    match subcategory {
        Subcategory::Fx => "Fx"@,
        Subcategory::Instrument => "Instrument"@,
        Subcategory::Analyzer => "Analyzer"@,
        Subcategory::Delay => "Delay"@,
        Subcategory::Distortion => "Distortion"@,
        Subcategory::Drum => "Drum"@,
        Subcategory::Dynamics => "Dynamics"@,
        Subcategory::Eq => "EQ"@,
        Subcategory::External => "External"@,
        Subcategory::Filter => "Filter"@,
        Subcategory::Generator => "Generator"@,
        Subcategory::Mastering => "Mastering"@,
        Subcategory::Modulation => "Modulation"@,
        Subcategory::Network => "Network"@,
        Subcategory::Piano => "Piano"@,
        Subcategory::PitchShift => "Pitch Shift"@,
        Subcategory::Restoration => "Restoration"@,
        Subcategory::Reverb => "Reverb"@,
        Subcategory::Sampler => "Sampler"@,
        Subcategory::Spatial => "Spatial"@,
        Subcategory::Synth => "Synth"@,
        Subcategory::Tools => "Tools"@,
        Subcategory::UpDownMix => "Up-Downmix"@,
        Subcategory::Ambisonics => "Ambisonics"@,
        Subcategory::Mono => "Mono"@,
        Subcategory::Stereo => "Stereo"@,
        Subcategory::Surround => "Surround"@,
    }
}

impl Subcategory {
    pub fn to_str(&self) -> (name: &str)
        ensures
            name@ == subcategory_name(*self),
    {
        match self {
            Subcategory::Fx => "Fx",
            Subcategory::Instrument => "Instrument",
            Subcategory::Analyzer => "Analyzer",
            Subcategory::Delay => "Delay",
            Subcategory::Distortion => "Distortion",
            Subcategory::Drum => "Drum",
            Subcategory::Dynamics => "Dynamics",
            Subcategory::Eq => "EQ",
            Subcategory::External => "External",
            Subcategory::Filter => "Filter",
            Subcategory::Generator => "Generator",
            Subcategory::Mastering => "Mastering",
            Subcategory::Modulation => "Modulation",
            Subcategory::Network => "Network",
            Subcategory::Piano => "Piano",
            Subcategory::PitchShift => "Pitch Shift",
            Subcategory::Restoration => "Restoration",
            Subcategory::Reverb => "Reverb",
            Subcategory::Sampler => "Sampler",
            Subcategory::Spatial => "Spatial",
            Subcategory::Synth => "Synth",
            Subcategory::Tools => "Tools",
            Subcategory::UpDownMix => "Up-Downmix",
            Subcategory::Ambisonics => "Ambisonics",
            Subcategory::Mono => "Mono",
            Subcategory::Stereo => "Stereo",
            Subcategory::Surround => "Surround",
        }
    }
}

/// The names of `subcategories` joined by `|`, the form a VST3 class info lists them in.
pub open spec fn joined_names(subcategories: Seq<Subcategory>) -> Seq<char>
    decreases subcategories.len(),
{
    if subcategories.len() == 0 {
        Seq::empty()
    } else if subcategories.len() == 1 {
        subcategory_name(subcategories[0])
    } else {
        joined_names(subcategories.drop_last()) + "|"@ + subcategory_name(subcategories.last())
    }
}

/// The subcategory string of a plugin class: the names joined by `|`.
pub fn subcategory_string(subcategories: &[Subcategory]) -> (joined: String)
    ensures
        joined@ == joined_names(subcategories@),
{
    let mut joined = String::new();
    let mut i: usize = 0;
    while i < subcategories.len()
        invariant
            0 <= i <= subcategories@.len(),
            joined@ == joined_names(subcategories@.subrange(0, i as int)),
        decreases subcategories@.len() - i,
    {
        proof {
            let prefix = subcategories@.subrange(0, i + 1);
            assert(prefix.drop_last() == subcategories@.subrange(0, i as int));
            assert(prefix.last() == subcategories@[i as int]);
        }
        if i > 0 {
            joined.append("|");
        }
        joined.append(subcategories[i].to_str());
        i = i + 1;
    }
    proof {
        assert(subcategories@.subrange(0, subcategories@.len() as int) == subcategories@);
    }
    joined
}


/// The subcategories of plugin `P` as its class information lists them.
pub fn plugin_subcategory_string<P: crate::plugin::Vst3Plugin>() -> (joined: String)
    ensures
        joined@ == joined_names(P::SUBCATEGORIES@),
{
    subcategory_string(P::SUBCATEGORIES)
}

} // verus!
