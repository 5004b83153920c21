//! The device context: choosing a surface format from an adapter's
//! capabilities, building the surface configuration for a window's
//! size, and keeping that configuration in step with resizes.

use vstd::prelude::*;

use crate::error::GpuError;

verus! {

/// A window's size in physical pixels.
#[derive(Clone, Copy, Debug, PartialEq, Eq, Structural)]
pub struct WindowSize {
    pub width: u32,
    pub height: u32,
}

/// One pixel format a surface supports: an opaque identifier handed
/// out by the backend, and whether the format is SRGB-encoded.
#[derive(Clone, Copy, Debug, PartialEq, Eq, Structural)]
pub struct FormatInfo {
    pub id: u32,
    pub srgb: bool,
}

/// What a surface supports on a given adapter: pixel formats,
/// presentation modes and alpha compositing modes, each listed in the
/// backend's preference order. Modes are carried as opaque identifiers.
#[derive(Clone, Debug)]
pub struct SurfaceCapabilities {
    pub formats: Vec<FormatInfo>,
    pub present_modes: Vec<u32>,
    pub alpha_modes: Vec<u32>,
}

/// A surface configuration: the chosen format, the configured size,
/// and the presentation and alpha modes in use.
#[derive(Clone, Copy, Debug, PartialEq, Eq, Structural)]
pub struct SurfaceConfiguration {
    pub format: FormatInfo,
    pub width: u32,
    pub height: u32,
    pub present_mode: u32,
    pub alpha_mode: u32,
}

/// True when some supported format is SRGB-encoded.
pub open spec fn has_srgb(formats: Seq<FormatInfo>) -> bool {
    exists|i: int| 0 <= i < formats.len() && formats[i].srgb
}

/// The format the bootstrap prefers: the first SRGB-encoded entry of
/// the supported list, or the first entry of the list when none is.
pub open spec fn is_preferred_format(formats: Seq<FormatInfo>, f: FormatInfo) -> bool {
    if has_srgb(formats) {
        exists|i: int|
            0 <= i < formats.len() && formats[i].srgb && f == formats[i]
                && (forall|j: int| 0 <= j < i ==> !formats[j].srgb)
    } else {
        formats.len() > 0 && f == formats[0]
    }
}

/// Picks the surface format: the first SRGB-capable entry of the
/// supported list, falling back to the first supported format, and
/// nothing when the list is empty.
pub fn select_surface_format(formats: &Vec<FormatInfo>) -> (r: Option<FormatInfo>)
    ensures
        r is Some <==> formats@.len() > 0,
        (r matches Some(f) ==> is_preferred_format(formats@, f)),
{
    let mut i: usize = 0;
    while i < formats.len()
        invariant
            i <= formats@.len(),
            forall|j: int| 0 <= j < i ==> !formats@[j].srgb,
        decreases formats@.len() - i,
    {
        if formats[i].srgb {
            return Some(formats[i]);
        }
        i = i + 1;
    }
    if formats.len() > 0 {
        Some(formats[0])
    } else {
        None
    }
}

/// The device context, as far as its decisions go: the surface
/// configuration, and the window size it was configured for.
#[derive(Clone, Copy, Debug, PartialEq, Eq, Structural)]
pub struct State {
    pub config: SurfaceConfiguration,
    pub size: WindowSize,
}

impl State {
    /// The configuration mirrors the stored window size, and a
    /// configured surface never has a zero dimension.
    pub open spec fn wf(self) -> bool {
        &&& self.config.width == self.size.width
        &&& self.config.height == self.size.height
        &&& self.size.width > 0
        &&& self.size.height > 0
    }

    /// Builds the context for a window of the given size from the
    /// surface's capabilities: the preferred format, the first
    /// supported presentation and alpha modes, and the window's size.
    ///
    /// A zero-sized window cannot back a surface; an adapter with no
    /// format or mode to offer cannot be negotiated with.
    pub fn new(caps: &SurfaceCapabilities, size: WindowSize) -> (r: Result<State, GpuError>)
        ensures
            r is Ok <==> size.width > 0 && size.height > 0 && caps.formats@.len() > 0
                && caps.present_modes@.len() > 0 && caps.alpha_modes@.len() > 0,
            (r matches Ok(s) ==> {
                &&& s.wf()
                &&& s.size == size
                &&& is_preferred_format(caps.formats@, s.config.format)
                &&& s.config.width == size.width
                &&& s.config.height == size.height
                &&& s.config.present_mode == caps.present_modes@[0]
                &&& s.config.alpha_mode == caps.alpha_modes@[0]
            }),
            (r matches Err(e) ==> e == (if size.width == 0 || size.height == 0 {
                GpuError::SurfaceConfigurationInvalid
            } else {
                GpuError::NoCompatibleAdapter
            })),
    {
        if size.width == 0 || size.height == 0 {
            return Err(GpuError::SurfaceConfigurationInvalid);
        }
        let format = match select_surface_format(&caps.formats) {
            Some(f) => f,
            None => {
                return Err(GpuError::NoCompatibleAdapter);
            },
        };
        if caps.present_modes.len() == 0 || caps.alpha_modes.len() == 0 {
            return Err(GpuError::NoCompatibleAdapter);
        }
        let config = SurfaceConfiguration {
            format,
            width: size.width,
            height: size.height,
            present_mode: caps.present_modes[0],
            alpha_mode: caps.alpha_modes[0],
        };
        Ok(State { config, size })
    }

    /// Applies a size-change notification: when both new dimensions are
    /// strictly positive the stored size and the configuration take the
    /// new size, keeping format and modes; a zero dimension leaves the
    /// context untouched, since a zero-area surface cannot be configured.
    pub fn resize(&mut self, new_size: WindowSize)
        requires
            old(self).wf(),
        ensures
            final(self).wf(),
            (new_size.width > 0 && new_size.height > 0 ==> {
                &&& final(self).size == new_size
                &&& final(self).config.width == new_size.width
                &&& final(self).config.height == new_size.height
                &&& final(self).config.format == old(self).config.format
                &&& final(self).config.present_mode == old(self).config.present_mode
                &&& final(self).config.alpha_mode == old(self).config.alpha_mode
            }),
            (!(new_size.width > 0 && new_size.height > 0) ==> *final(self) == *old(self)),
    {
        if new_size.width > 0 && new_size.height > 0 {
            self.size = new_size;
            self.config.width = new_size.width;
            self.config.height = new_size.height;
        }
    }
}

} // verus!
