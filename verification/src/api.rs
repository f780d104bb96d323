//! What the native layer is asked when a loop starts and when a window is
//! measured.
use crate::geometry::PhysicalSize;
use crate::window::Rect;
use vstd::prelude::*;

verus! {

/// The ways of telling the native layer that the process minds the DPI of
/// each monitor, from the newest to the oldest.
#[derive(Clone, Copy, PartialEq, Eq, Structural, Debug)]
pub enum DpiAwareness {
    /// By the context of the second version.
    PerMonitorV2,
    /// By the context of the first version.
    PerMonitor,
    /// By the setting of the process.
    Process,
}

/// The way that is tried after one that was tried without success.
pub open spec fn next_dpi_awareness(failed: Option<DpiAwareness>) -> Option<DpiAwareness> {
    match failed {
        None => Some(DpiAwareness::PerMonitorV2),
        Some(DpiAwareness::PerMonitorV2) => Some(DpiAwareness::PerMonitor),
        Some(DpiAwareness::PerMonitor) => Some(DpiAwareness::Process),
        Some(DpiAwareness::Process) => None,
    }
}

/// Says which way of declaring the process aware of the DPI is tried next:
/// the newest first, and after a way that failed the next older one. Nothing
/// is tried after a way that succeeded or after the oldest.
pub fn enable_dpi_awareness(tried: Option<(DpiAwareness, bool)>) -> (r: Option<DpiAwareness>)
    ensures
        r == match tried {
            None => next_dpi_awareness(None),
            Some((way, succeeded)) => if succeeded {
                None
            } else {
                next_dpi_awareness(Some(way))
            },
        },
{
    match tried {
        None => Some(DpiAwareness::PerMonitorV2),
        Some((way, succeeded)) => {
            if succeeded {
                None
            } else {
                match way {
                    DpiAwareness::PerMonitorV2 => Some(DpiAwareness::PerMonitor),
                    DpiAwareness::PerMonitor => Some(DpiAwareness::Process),
                    DpiAwareness::Process => None,
                }
            }
        },
    }
}

/// What the native layer is asked when the outer size of a window is wanted
/// for a size of its client area.
#[derive(Clone, Copy, PartialEq, Eq, Structural, Debug)]
pub struct AdjustRequest {
    pub rect: Rect,
    pub style: u32,
    pub menu: bool,
    pub ex_style: u32,
    pub dpi: u32,
}

/// The request for the outer size of a window without a menu whose client
/// area lies at the origin and has a size.
pub open spec fn adjust_request(size: PhysicalSize<u32>, style: u32, ex_style: u32, dpi: u32)
    -> AdjustRequest {
    AdjustRequest {
        rect: Rect { left: 0, top: 0, right: size.width as i32, bottom: size.height as i32 },
        style,
        menu: false,
        ex_style,
        dpi,
    }
}

/// Makes the request for the outer size of a window whose client area has a
/// size.
pub fn adjust_window_rect(size: PhysicalSize<u32>, style: u32, ex_style: u32, dpi: u32) -> (r:
    AdjustRequest)
    ensures
        r == adjust_request(size, style, ex_style, dpi),
{
    AdjustRequest {
        rect: Rect {
            left: 0,
            top: 0,
            right: #[verifier::truncate]
            (size.width as i32),
            bottom: #[verifier::truncate]
            (size.height as i32),
        },
        style,
        menu: false,
        ex_style,
        dpi,
    }
}

} // verus!
