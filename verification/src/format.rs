use vstd::prelude::*;

verus! {

/// The plugin API through which a plugin instance is hosted.
#[derive(Clone, Copy, Debug, PartialEq, Eq, Structural)]
pub enum PluginFormat {
    Auv3,
    Clap,
    Standalone,
    Vst3,
}

/// The display name of a plugin format.
pub open spec fn format_name(format: PluginFormat) -> Seq<char> {
    match format {
        PluginFormat::Auv3 => "AUv3"@,
        PluginFormat::Clap => "CLAP"@,
        PluginFormat::Standalone => "Standalone"@,
        PluginFormat::Vst3 => "VST3"@,
    }
}

impl PluginFormat {
    /// The name under which the format is shown to users.
    pub fn name(&self) -> (name: String)
        ensures
            name@ == format_name(*self),
    {
        match self {
            PluginFormat::Auv3 => String::from_str("AUv3"),
            PluginFormat::Clap => String::from_str("CLAP"),
            PluginFormat::Standalone => String::from_str("Standalone"),
            PluginFormat::Vst3 => String::from_str("VST3"),
        }
    }
}

/// What a plugin learns about the host that loaded it.
#[derive(Clone, Debug)]
pub struct HostInfo {
    pub name: Option<String>,
    pub format: PluginFormat,
}

/// The operating systems whose windowing and audio back ends differ.
#[derive(Clone, Copy, Debug, PartialEq, Eq, Structural)]
pub enum Platform {
    Windows,
    Linux,
    MacOs,
    Other,
}

} // verus!
