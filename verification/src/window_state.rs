//! The main window's saved placement, and whether it may be restored.
use vstd::prelude::*;

verus! {

/// The main window's outer position and inner size.
#[derive(Debug, Clone, Copy, PartialEq, Eq, Structural)]
pub struct WindowState {
    pub x: i32,
    pub y: i32,
    pub width: u32,
    pub height: u32,
}

/// A connected monitor's position and size.
#[derive(Debug, Clone, Copy, PartialEq, Eq, Structural)]
pub struct MonitorArea {
    pub x: i32,
    pub y: i32,
    pub width: u32,
    pub height: u32,
}

/// The saved window and the monitor overlap (their rectangles share a point
/// strictly inside both); a size is read as a signed 32-bit number.
pub open spec fn overlaps(s: WindowState, m: MonitorArea) -> bool {
    let win_right = s.x + (s.width as i32);
    let win_bottom = s.y + (s.height as i32);
    let mon_right = m.x + (m.width as i32);
    let mon_bottom = m.y + (m.height as i32);
    s.x < mon_right && win_right > m.x && s.y < mon_bottom && win_bottom > m.y
}

fn overlaps_exec(s: &WindowState, m: &MonitorArea) -> (r: bool)
    ensures
        r == overlaps(*s, *m),
{
    let win_right: i64 = s.x as i64 + (s.width as i32) as i64;
    let win_bottom: i64 = s.y as i64 + (s.height as i32) as i64;
    let mon_right: i64 = m.x as i64 + (m.width as i32) as i64;
    let mon_bottom: i64 = m.y as i64 + (m.height as i32) as i64;
    (s.x as i64) < mon_right && win_right > m.x as i64 && (s.y as i64) < mon_bottom && win_bottom
        > m.y as i64
}

/// A saved placement is restored only if it still overlaps a connected
/// monitor, so that a window saved on a monitor that was unplugged since does
/// not open out of reach.
pub fn fits_on_a_monitor(state: &WindowState, monitors: &Vec<MonitorArea>) -> (r: bool)
    ensures
        r == exists|i: int| 0 <= i < monitors@.len() && overlaps(*state, #[trigger] monitors@[i]),
{
    let mut i: usize = 0;
    while i < monitors.len()
        invariant
            i <= monitors@.len(),
            forall|j: int| 0 <= j < i ==> !overlaps(*state, #[trigger] monitors@[j]),
        decreases monitors@.len() - i,
    {
        if overlaps_exec(state, &monitors[i]) {
            return true;
        }
        i = i + 1;
    }
    false
}

} // verus!
