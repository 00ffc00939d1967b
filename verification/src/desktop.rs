use vstd::prelude::*;
use vstd::string::StrSliceExecFns;

verus! {

/// A screen rectangle in virtual-desktop pixels, edges inclusive of `left`
/// and `top`, exclusive of `right` and `bottom` (as Win32 `RECT`).
#[derive(Debug, Clone, Copy, PartialEq, Eq, Structural, Default)]
pub struct Rect {
    pub left: i32,
    pub top: i32,
    pub right: i32,
    pub bottom: i32,
}

/// Pixels a window may fall short of a monitor edge and still count as
/// covering it.
pub const COVER_SLOP: i32 = 4;

/// Whether `window` covers `monitor`, up to the slop on every edge.
pub open spec fn spec_covers(window: Rect, monitor: Rect) -> bool {
    &&& window.left <= monitor.left + COVER_SLOP
    &&& window.top <= monitor.top + COVER_SLOP
    &&& window.right >= monitor.right - COVER_SLOP
    &&& window.bottom >= monitor.bottom - COVER_SLOP
}

/// Whether a foreground window is as large as its monitor.
pub fn covers(window: Rect, monitor: Rect) -> (c: bool)
    requires
        monitor.left + COVER_SLOP <= i32::MAX,
        monitor.top + COVER_SLOP <= i32::MAX,
        monitor.right - COVER_SLOP >= i32::MIN,
        monitor.bottom - COVER_SLOP >= i32::MIN,
    ensures
        c == spec_covers(window, monitor),
{
    let slop = COVER_SLOP;
    window.left <= monitor.left + slop && window.top <= monitor.top + slop && window.right
        >= monitor.right - slop && window.bottom >= monitor.bottom - slop
}

/// Whether the UTF-16 units spell the text one unit per character (which
/// is how UTF-16 spells any text of basic-plane characters, ASCII included).
pub open spec fn spells(units: Seq<u16>, s: Seq<char>) -> bool {
    units.len() == s.len() && forall|i: int| 0 <= i < s.len() ==> (units[i] as u32) == (s[i] as u32)
}

/// Whether the UTF-16 text `units` spells the ASCII text `name`.
pub fn units_spell(units: &[u16], name: &str) -> (eq: bool)
    ensures
        eq == spells(units@, name@),
{
    let n = name.unicode_len();
    if units.len() != n {
        return false;
    }
    let mut i: usize = 0;
    while i < n
        invariant
            n == name@.len(),
            units@.len() == n,
            i <= n,
            forall|j: int| 0 <= j < i ==> (units@[j] as u32) == (name@[j] as u32),
        decreases n - i,
    {
        if units[i] as u32 != name.get_char(i) as u32 {
            return false;
        }
        i = i + 1;
    }
    true
}

/// Window classes of the desktop shell and of the wallpaper itself: when
/// one of them has the focus, no application is running fullscreen.
pub open spec fn is_shell_class_name(units: Seq<u16>) -> bool {
    ||| spells(units, "Progman"@)
    ||| spells(units, "WorkerW"@)
    ||| spells(units, "Shell_TrayWnd"@)
    ||| spells(units, "Shell_SecondaryTrayWnd"@)
    ||| spells(units, "SkyWallpaperSurface"@)
}

/// Whether a window class name (as the UTF-16 units the system reports)
/// belongs to the shell or the wallpaper.
pub fn is_shell_class(units: &[u16]) -> (shell: bool)
    ensures
        shell == is_shell_class_name(units@),
{
    units_spell(units, "Progman") || units_spell(units, "WorkerW") || units_spell(units, "Shell_TrayWnd")
        || units_spell(units, "Shell_SecondaryTrayWnd") || units_spell(units, "SkyWallpaperSurface")
}

/// Placement of one wallpaper surface, relative to the shell window that
/// hosts it.
#[derive(Debug, Clone, Copy, PartialEq, Eq, Structural)]
pub struct MonitorRect {
    pub x: i32,
    pub y: i32,
    pub width: u32,
    pub height: u32,
}

/// A monitor's rectangle relative to the host window, each side at least one
/// pixel.
pub open spec fn spec_relative(monitor: Rect, parent: Rect) -> MonitorRect {
    MonitorRect {
        x: (monitor.left - parent.left) as i32,
        y: (monitor.top - parent.top) as i32,
        width: if monitor.right - monitor.left >= 1 { (monitor.right - monitor.left) as u32 } else { 1 },
        height: if monitor.bottom - monitor.top >= 1 { (monitor.bottom - monitor.top) as u32 } else { 1 },
    }
}

/// Places a monitor relative to the host window.
pub fn monitor_relative(monitor: Rect, parent: Rect) -> (r: MonitorRect)
    requires
        i32::MIN <= monitor.left - parent.left <= i32::MAX,
        i32::MIN <= monitor.top - parent.top <= i32::MAX,
        i32::MIN <= monitor.right - monitor.left <= i32::MAX,
        i32::MIN <= monitor.bottom - monitor.top <= i32::MAX,
    ensures
        r == spec_relative(monitor, parent),
{
    let w = monitor.right - monitor.left;
    let h = monitor.bottom - monitor.top;
    MonitorRect {
        x: monitor.left - parent.left,
        y: monitor.top - parent.top,
        width: if w >= 1 { w as u32 } else { 1 },
        height: if h >= 1 { h as u32 } else { 1 },
    }
}

/// The surface assumed when the system lists no monitor.
pub open spec fn default_monitor() -> MonitorRect {
    MonitorRect { x: 0, y: 0, width: 1920, height: 1080 }
}

/// The monitors to draw on: the listed ones, or one full-HD surface when the
/// list is empty.
pub fn monitors_or_default(monitors: Vec<MonitorRect>) -> (out: Vec<MonitorRect>)
    ensures
        monitors@.len() == 0 ==> out@ == seq![default_monitor()],
        monitors@.len() > 0 ==> out@ == monitors@,
{
    let mut monitors = monitors;
    if monitors.len() == 0 {
        monitors.push(MonitorRect { x: 0, y: 0, width: 1920, height: 1080 });
    }
    monitors
}

/// Whether every surface is hidden behind other windows (and there is at
/// least one surface).
pub fn all_hidden(hidden: &Vec<bool>) -> (all: bool)
    ensures
        all == (hidden@.len() > 0 && forall|i: int| 0 <= i < hidden@.len() ==> hidden@[i]),
{
    if hidden.len() == 0 {
        return false;
    }
    let mut i: usize = 0;
    while i < hidden.len()
        invariant
            i <= hidden@.len(),
            forall|j: int| 0 <= j < i ==> hidden@[j],
        decreases hidden@.len() - i,
    {
        if !hidden[i] {
            return false;
        }
        i = i + 1;
    }
    true
}

/// Position and size of one surface, as compared between health checks.
pub type Layout = (i32, i32, u32, u32);

/// Whether two surface layouts are the same.
pub fn layouts_equal(a: &Vec<Layout>, b: &Vec<Layout>) -> (eq: bool)
    ensures
        eq == (a@ == b@),
{
    if a.len() != b.len() {
        return false;
    }
    let mut i: usize = 0;
    while i < a.len()
        invariant
            a@.len() == b@.len(),
            i <= a@.len(),
            forall|j: int| 0 <= j < i ==> a@[j] == b@[j],
        decreases a@.len() - i,
    {
        let (x0, y0, w0, h0) = a[i];
        let (x1, y1, w1, h1) = b[i];
        if x0 != x1 || y0 != y1 || w0 != w1 || h0 != h1 {
            return false;
        }
        i = i + 1;
    }
    assert(a@ =~= b@);
    true
}

/// Whether the wallpaper host is broken: its shell window died, or it no
/// longer has exactly one surface per monitor.
pub fn host_broken(parent_alive: bool, surface_count: usize, monitor_count: usize) -> (broken: bool)
    ensures
        broken == (!parent_alive || surface_count != monitor_count),
{
    !parent_alive || surface_count != monitor_count
}

/// Whether the surfaces must be rebuilt: the host is broken, the system
/// reported a display change, or the monitors moved since the last check.
pub fn needs_rebuild(broken: bool, display_changed: bool, layout_now: &Vec<Layout>, layout_before: &Vec<Layout>) -> (rebuild: bool)
    ensures
        rebuild == (broken || display_changed || layout_now@ != layout_before@),
{
    broken || display_changed || !layouts_equal(layout_now, layout_before)
}

/// A window with the monitor's own rectangle covers it.
pub proof fn lemma_monitor_covers_itself(monitor: Rect)
    ensures
        spec_covers(monitor, monitor),
{
}

/// Every surface placed relative to the host is at least one pixel on each
/// side.
pub proof fn lemma_relative_nonempty(monitor: Rect, parent: Rect)
    ensures
        spec_relative(monitor, parent).width >= 1,
        spec_relative(monitor, parent).height >= 1,
{
}
/// A window covers a monitor only when it reaches each of the monitor's four
/// edges within the slop, and reaching all four is enough: a window that
/// stops short of any edge by more than the slop (a maximized window above
/// a taskbar, say) does not cover it.
pub proof fn lemma_covers_reaches_every_edge(window: Rect, monitor: Rect)
    ensures
        spec_covers(window, monitor) ==> window.left <= monitor.left + 4,
        spec_covers(window, monitor) ==> window.top <= monitor.top + 4,
        spec_covers(window, monitor) ==> window.right >= monitor.right - 4,
        spec_covers(window, monitor) ==> window.bottom >= monitor.bottom - 4,
        (window.left <= monitor.left + 4 && window.top <= monitor.top + 4 && window.right >= monitor.right - 4
            && window.bottom >= monitor.bottom - 4) ==> spec_covers(window, monitor),
{
}

/// A larger window covers whatever a smaller one inside it covers.
pub proof fn lemma_covers_grows_with_window(small: Rect, large: Rect, monitor: Rect)
    requires
        large.left <= small.left,
        large.top <= small.top,
        large.right >= small.right,
        large.bottom >= small.bottom,
        spec_covers(small, monitor),
    ensures
        spec_covers(large, monitor),
{
}

/// A surface is placed at its monitor's offset from the host's top-left
/// corner and keeps the monitor's size (at least one pixel a side): moving
/// the host by (dx, dy) moves every surface by (-dx, -dy), and a monitor at
/// the host's own corner lands at the origin.
pub proof fn lemma_relative_is_offset_from_host(monitor: Rect, parent: Rect, dx: int, dy: int)
    requires
        i32::MIN <= monitor.left - parent.left <= i32::MAX,
        i32::MIN <= monitor.top - parent.top <= i32::MAX,
        i32::MIN <= parent.left + dx <= i32::MAX,
        i32::MIN <= parent.top + dy <= i32::MAX,
        i32::MIN <= monitor.left - (parent.left + dx) <= i32::MAX,
        i32::MIN <= monitor.top - (parent.top + dy) <= i32::MAX,
    ensures
        spec_relative(monitor, parent).x == monitor.left - parent.left,
        spec_relative(monitor, parent).y == monitor.top - parent.top,
        monitor.right - monitor.left >= 1 ==> spec_relative(monitor, parent).width == monitor.right - monitor.left,
        monitor.bottom - monitor.top >= 1 ==> spec_relative(monitor, parent).height == monitor.bottom - monitor.top,
        monitor.right - monitor.left < 1 ==> spec_relative(monitor, parent).width == 1,
        monitor.bottom - monitor.top < 1 ==> spec_relative(monitor, parent).height == 1,
        ({
            let moved = Rect {
                left: (parent.left + dx) as i32,
                top: (parent.top + dy) as i32,
                right: parent.right,
                bottom: parent.bottom,
            };
            &&& spec_relative(monitor, moved).x == spec_relative(monitor, parent).x - dx
            &&& spec_relative(monitor, moved).y == spec_relative(monitor, parent).y - dy
            &&& spec_relative(monitor, moved).width == spec_relative(monitor, parent).width
            &&& spec_relative(monitor, moved).height == spec_relative(monitor, parent).height
        }),
        (monitor.left == parent.left && monitor.top == parent.top) ==> (spec_relative(monitor, parent).x == 0
            && spec_relative(monitor, parent).y == 0),
{
}

} // verus!
