//! Monitors.
use crate::geometry::{PhysicalSize, ScreenPosition};
use crate::window::Rect;
use vstd::prelude::*;

verus! {

pub const MONITORINFOF_PRIMARY: u32 = 0x0000_0001;

/// Describes monitor info.
#[derive(Clone, Copy, Debug)]
pub struct Monitor {
    pub hmonitor: isize,
    pub position: ScreenPosition,
    pub size: PhysicalSize<u32>,
    pub is_primary: bool,
}

/// The monitor that the native layer describes by a handle, a rectangle and
/// flags.
pub open spec fn monitor_of(hmonitor: isize, rc: Rect, flags: u32) -> Monitor {
    Monitor {
        hmonitor,
        position: ScreenPosition { x: rc.left, y: rc.top, _u: core::marker::PhantomData },
        size: PhysicalSize {
            width: rc.spec_width() as u32,
            height: rc.spec_height() as u32,
            _u: core::marker::PhantomData,
        },
        is_primary: (flags & MONITORINFOF_PRIMARY) != 0,
    }
}

fn extent(from: i32, to: i32) -> (r: u32)
    ensures
        r == (to - from) as u32,
{
    #[verifier::truncate]
    ((to as i64 - from as i64) as u32)
}

impl Monitor {
    /// Makes the monitor that the native layer describes.
    pub fn new(hmonitor: isize, rc: Rect, flags: u32) -> (r: Monitor)
        ensures
            r == monitor_of(hmonitor, rc, flags),
    {
        Monitor {
            hmonitor,
            position: ScreenPosition::new(rc.left, rc.top),
            size: PhysicalSize::new(extent(rc.left, rc.right), extent(rc.top, rc.bottom)),
            is_primary: (flags & MONITORINFOF_PRIMARY) != 0,
        }
    }

    /// Two monitors are the same monitor where their handles are equal.
    pub fn eq(&self, other: &Monitor) -> (r: bool)
        ensures
            r == (self.hmonitor == other.hmonitor),
    {
        self.hmonitor == other.hmonitor
    }
}

/// Takes note of one monitor that the native layer lists, and asks for the
/// next.
pub fn get_monitors_proc(v: &mut Vec<Monitor>, hmonitor: isize, rc: Rect, flags: u32) -> (more:
    bool)
    ensures
        more,
        final(v)@ == old(v)@.push(monitor_of(hmonitor, rc, flags)),
{
    v.push(Monitor::new(hmonitor, rc, flags));
    true
}

/// A screen position to a monitor.
///
/// `hmonitor` is what the native layer gave for the point, which is zero
/// where no monitor holds the point; `rc` and `flags` are what it reports of
/// that monitor.
pub fn monitor_from_point(hmonitor: isize, rc: Rect, flags: u32) -> (r: Option<Monitor>)
    ensures
        r == if hmonitor == 0 {
            None
        } else {
            Some(monitor_of(hmonitor, rc, flags))
        },
{
    if hmonitor == 0 {
        return None;
    }
    Some(Monitor::new(hmonitor, rc, flags))
}

} // verus!
