use vstd::prelude::*;
use super::error::Error;
use crate::format::Platform;

verus! {

/// A rectangle in the host's window coordinates.
#[derive(Clone, Copy, Debug, PartialEq, Eq, Structural)]
pub struct ViewRect {
    pub left: i32,
    pub top: i32,
    pub right: i32,
    pub bottom: i32,
}

/// The window type a view is embedded in on each platform.
pub open spec fn platform_type_name(platform: Platform) -> Option<Seq<char>> {
    match platform {
        Platform::Windows => Some("HWND"@),
        Platform::MacOs => Some("NSView"@),
        Platform::Linux => Some("X11EmbedWindowID"@),
        Platform::Other => None,
    }
}

pub open spec fn is_platform_type(platform_type: Seq<char>, platform: Platform) -> bool {
    platform_type_name(platform) == Some(platform_type)
}

/// Whether the view can be embedded in a window of this type on this platform.
pub fn is_platform_type_supported(platform_type: &str, platform: Platform) -> (supported: bool)
    ensures
        supported == is_platform_type(platform_type@, platform),
{
    let platform_type = platform_type.to_owned();
    match platform {
        Platform::Windows => platform_type == String::from_str("HWND"),
        Platform::MacOs => platform_type == String::from_str("NSView"),
        Platform::Linux => platform_type == String::from_str("X11EmbedWindowID"),
        Platform::Other => false,
    }
}

/// The size a rectangle asks for, if it is one (left of and above its far corner) and
/// its size fits.
pub open spec fn requested_size(rect: ViewRect) -> Option<(i32, i32)> {
    if rect.left > rect.right || rect.top > rect.bottom {
        None
    } else {
        Some(((rect.right - rect.left) as i32, (rect.bottom - rect.top) as i32))
    }
}

/// What the view shares with the host object the editor talks to: the frame the host
/// gave the view, through which the editor asks to be resized.
pub struct ViewContext {
    has_frame: bool,
}

impl ViewContext {
    pub closed spec fn frame_set(&self) -> bool {
        self.has_frame
    }

    pub fn has_frame(&self) -> (set: bool)
        ensures
            set == self.frame_set(),
    {
        self.has_frame
    }
}

/// The editor view a VST3 plugin shows in a host window.
pub struct PluginView {
    context: ViewContext,
}

impl PluginView {
    pub closed spec fn context(&self) -> ViewContext {
        self.context
    }

    /// A view without a frame.
    pub fn new() -> (view: Self)
        ensures
            !view.context().frame_set(),
    {
        PluginView { context: ViewContext { has_frame: false } }
    }

    pub fn context_ref(&self) -> (context: &ViewContext)
        ensures
            *context == self.context(),
    {
        &self.context
    }

    /// Embedding the view needs a parent window of the platform's type; then the editor
    /// opens in it.
    pub fn attached(&self, parent_present: bool, platform_type: &str, platform: Platform) -> (result: Result<(), Error>)
        ensures
            result == if !parent_present || !is_platform_type(platform_type@, platform) {
                Err::<(), Error>(Error::InvalidArgument)
            } else {
                Ok(())
            },
    {
        if !parent_present {
            return Err(Error::InvalidArgument);
        }
        if !is_platform_type_supported(platform_type, platform) {
            return Err(Error::InvalidArgument);
        }
        Ok(())
    }

    /// The host gives the view its frame; a missing one is refused and leaves the view
    /// as it was.
    pub fn set_frame(&mut self, frame_present: bool) -> (result: Result<(), Error>)
        ensures
            !frame_present ==> result == Err::<(), Error>(Error::InvalidArgument) && *final(self)
                == *old(self),
            frame_present ==> result is Ok && final(self).context().frame_set(),
    {
        if !frame_present {
            return Err(Error::InvalidArgument);
        }
        self.context = ViewContext { has_frame: true };
        Ok(())
    }

    /// The size the host sets, for the editor to take: a missing rectangle is an invalid
    /// argument, and an inverted one is refused.
    pub fn on_size(&self, rect: Option<ViewRect>) -> (size: Result<(i32, i32), Error>)
        requires
            rect matches Some(r) ==> r.right - r.left <= i32::MAX && r.bottom - r.top <= i32::MAX,
        ensures
            size == match rect {
                None => Err::<(i32, i32), Error>(Error::InvalidArgument),
                Some(r) => match requested_size(r) {
                    Some(s) => Ok(s),
                    None => Err(Error::ResultFalse),
                },
            },
    {
        match rect {
            None => Err(Error::InvalidArgument),
            Some(r) => {
                if r.left > r.right || r.top > r.bottom {
                    Err(Error::ResultFalse)
                } else {
                    Ok((r.right - r.left, r.bottom - r.top))
                }
            },
        }
    }

    /// The rectangle the host is given back for a size it proposed: kept at its corner,
    /// and stretched to the size the editor supports.
    pub fn constrained_rect(&self, rect: ViewRect, supported_width: i32, supported_height: i32) -> (constrained: ViewRect)
        requires
            supported_width - rect.left >= i32::MIN,
            supported_width - rect.left <= i32::MAX,
            supported_height - rect.top >= i32::MIN,
            supported_height - rect.top <= i32::MAX,
        ensures
            constrained == (ViewRect {
                left: rect.left,
                top: rect.top,
                right: (supported_width - rect.left) as i32,
                bottom: (supported_height - rect.top) as i32,
            }),
    {
        ViewRect {
            left: rect.left,
            top: rect.top,
            right: supported_width - rect.left,
            bottom: supported_height - rect.top,
        }
    }

    /// Whether the host may resize the view: as the editor says.
    pub fn can_resize(&self, editor_can_resize: bool) -> (result: Result<(), Error>)
        ensures
            result == if editor_can_resize {
                Ok::<(), Error>(())
            } else {
                Err(Error::ResultFalse)
            },
    {
        if editor_can_resize {
            Ok(())
        } else {
            Err(Error::ResultFalse)
        }
    }
}

/// The host as a VST3 plugin's editor sees it.
pub struct Vst3Host {
    name: Option<String>,
}

impl Vst3Host {
    pub closed spec fn name_view(&self) -> Option<Seq<char>> {
        match self.name {
            Some(n) => Some(n@),
            None => None,
        }
    }

    pub fn new(name: Option<String>) -> (host: Self)
        ensures
            host.name_view() == match name {
                Some(n) => Some(n@),
                None => None::<Seq<char>>,
            },
    {
        Vst3Host { name }
    }

    pub fn name(&self) -> (name: Option<&str>)
        ensures
            match name {
                Some(n) => self.name_view() == Some(n@),
                None => self.name_view() is None,
            },
    {
        match &self.name {
            Some(n) => Some(n.as_str()),
            None => None,
        }
    }

    /// VST3 hosts resize plugin views.
    pub fn can_resize(&self) -> (resizable: bool)
        ensures
            resizable,
    {
        true
    }

    /// Whether a resize the editor asked for was taken: only through a frame, and only
    /// when the frame reports success.
    pub fn resize_accepted(&self, context: &ViewContext, frame_result: i32) -> (accepted: bool)
        ensures
            accepted == (context.frame_set() && frame_result == super::error::RESULT_OK),
    {
        context.has_frame() && frame_result == super::error::RESULT_OK
    }
}

} // verus!
