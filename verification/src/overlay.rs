//! The overlay's state and its decisions: which style a label selects, where
//! the overlay goes for a caret or pointer position, when it actually moves,
//! and when the pointer is polled.
use vstd::prelude::*;

use crate::config::{AppConfig, Opacity, OverlayStyle};
use crate::label::{is_japanese_label, japanese_label};

verus! {

/// The overlay's state. `pointer_poll_active` says whether a pointer-polling
/// timer runs; the caller owns the timer itself.
#[derive(Debug)]
pub struct OverlayModel {
    pub label: String,
    pub width: i32,
    pub height: i32,
    pub opacity: Opacity,
    pub on_style: OverlayStyle,
    pub off_style: OverlayStyle,
    pub caret_x: i32,
    pub caret_y: i32,
    pub caret_h: i32,
    pub caret_known: bool,
    pub offset_x: i32,
    pub offset_y: i32,
    pub poll_ms: u64,
    pub pointer_poll_active: bool,
    pub last_window_x: i32,
    pub last_window_y: i32,
}

/// A window size.
#[derive(Clone, Copy, Debug, PartialEq, Eq, Structural)]
pub struct Size {
    pub width: i32,
    pub height: i32,
}

/// What the caller does after a label update.
#[derive(Clone, Copy, Debug, PartialEq, Eq, Structural)]
pub enum Follow {
    /// Move to the known caret (`move_to_caret` with these values).
    Caret { x: i32, y: i32, h: i32 },
    /// Move to the pointer and start polling it.
    Pointer,
}

/// The outcome of a label update.
#[derive(Clone, Copy, Debug, PartialEq, Eq, Structural)]
pub enum LabelUpdate {
    /// The label was already shown; nothing changes.
    Unchanged,
    /// The label changed: resize the window when `resize` says so, follow
    /// the caret or the pointer, then show the window when `show` says so
    /// (for あ) and hide it otherwise, and redraw.
    Changed { resize: Option<Size>, follow: Follow, show: bool },
}

/// Where the overlay should go for a caret: the caret position is the anchor
/// for finding the monitor, the target is below the caret by the offsets.
#[derive(Clone, Copy, Debug, PartialEq, Eq, Structural)]
pub struct CaretMove {
    /// The pointer-polling timer ran and is to be removed.
    pub stop_poll: bool,
    pub anchor_x: i32,
    pub anchor_y: i32,
    pub target_x: i32,
    pub target_y: i32,
}

/// The style a label selects: the `[on]` style for あ, the `[off]` style
/// otherwise.
pub open spec fn style_for(on: OverlayStyle, off: OverlayStyle, label: Seq<char>) -> OverlayStyle {
    if label == japanese_label() {
        on
    } else {
        off
    }
}

/// An `i32` value.
pub open spec fn fits_i32(v: int) -> bool {
    i32::MIN <= v <= i32::MAX
}

/// Where the overlay goes for a caret at (`x`, `y`) of height `h`.
pub open spec fn caret_target(m: OverlayModel, x: i32, y: i32, h: i32) -> (int, int) {
    (x + m.offset_x, y + h + m.offset_y)
}

impl OverlayModel {
    /// The pointer is polled only while the caret position is unknown.
    pub open spec fn well_formed(&self) -> bool {
        self.pointer_poll_active ==> !self.caret_known
    }

    /// The state at start: label `A` in the `[off]` style, caret unknown, no
    /// timer, and no window position recorded yet.
    pub fn new(config: &AppConfig) -> (r: OverlayModel)
        ensures
            r.well_formed(),
            r.label@ == "A"@,
            r.width == config.off_style.width,
            r.height == config.off_style.height,
            r.opacity == config.off_style.opacity,
            r.on_style == config.on_style,
            r.off_style == config.off_style,
            r.caret_x == 0 && r.caret_y == 0 && r.caret_h == 0,
            !r.caret_known,
            r.offset_x == config.off_style.offset_x,
            r.offset_y == config.off_style.offset_y,
            r.poll_ms == config.poll_ms,
            !r.pointer_poll_active,
            r.last_window_x == i32::MIN && r.last_window_y == i32::MIN,
    {
        let off = config.off_style;
        OverlayModel {
            label: String::from_str("A"),
            width: off.width,
            height: off.height,
            opacity: off.opacity,
            on_style: config.on_style,
            off_style: off,
            caret_x: 0,
            caret_y: 0,
            caret_h: 0,
            caret_known: false,
            offset_x: off.offset_x,
            offset_y: off.offset_y,
            poll_ms: config.poll_ms,
            pointer_poll_active: false,
            last_window_x: i32::MIN,
            last_window_y: i32::MIN,
        }
    }

    /// The style `label` selects.
    pub fn style_for_label(&self, label: &str) -> (r: OverlayStyle)
        ensures
            r == style_for(self.on_style, self.off_style, label@),
    {
        if is_japanese_label(label) {
            self.on_style
        } else {
            self.off_style
        }
    }

    /// Takes on the size, opacity and offsets of the style `label` selects.
    /// When the size changes the recorded window position is forgotten (so
    /// the next placement moves the window) and the new size is returned.
    pub fn apply_style_for_label(&mut self, label: &str) -> (r: Option<Size>)
        ensures
            ({
                let style = style_for(old(self).on_style, old(self).off_style, label@);
                let changed = old(self).width != style.width || old(self).height != style.height;
                &&& r == if changed {
                    Some(Size { width: style.width, height: style.height })
                } else {
                    None
                }
                &&& *final(self) == (OverlayModel {
                    width: style.width,
                    height: style.height,
                    opacity: style.opacity,
                    offset_x: style.offset_x,
                    offset_y: style.offset_y,
                    last_window_x: if changed {
                        i32::MIN
                    } else {
                        old(self).last_window_x
                    },
                    last_window_y: if changed {
                        i32::MIN
                    } else {
                        old(self).last_window_y
                    },
                    ..*old(self)
                })
            }),
    {
        let style = self.style_for_label(label);
        let size_changed = self.width != style.width || self.height != style.height;
        self.width = style.width;
        self.height = style.height;
        self.opacity = style.opacity;
        self.offset_x = style.offset_x;
        self.offset_y = style.offset_y;
        if size_changed {
            self.last_window_x = i32::MIN;
            self.last_window_y = i32::MIN;
            Some(Size { width: style.width, height: style.height })
        } else {
            None
        }
    }

    /// Shows `label`: nothing happens when it is already shown; otherwise the
    /// label and its style are taken on, the overlay is to follow the caret
    /// when its position is known and the pointer when it is not, and it is
    /// visible for あ and hidden for any other label.
    pub fn update_label(&mut self, label: &str) -> (r: LabelUpdate)
        requires
            old(self).well_formed(),
        ensures
            final(self).well_formed(),
            old(self).label@ == label@ ==> r == LabelUpdate::Unchanged && *final(self) == *old(
                self,
            ),
            old(self).label@ != label@ ==> ({
                let style = style_for(old(self).on_style, old(self).off_style, label@);
                let changed = old(self).width != style.width || old(self).height != style.height;
                &&& final(self).label@ == label@
                &&& *final(self) == (OverlayModel {
                    label: final(self).label,
                    width: style.width,
                    height: style.height,
                    opacity: style.opacity,
                    offset_x: style.offset_x,
                    offset_y: style.offset_y,
                    last_window_x: if changed {
                        i32::MIN
                    } else {
                        old(self).last_window_x
                    },
                    last_window_y: if changed {
                        i32::MIN
                    } else {
                        old(self).last_window_y
                    },
                    ..*old(self)
                })
                &&& r == (LabelUpdate::Changed {
                    resize: if changed {
                        Some(Size { width: style.width, height: style.height })
                    } else {
                        None
                    },
                    follow: if old(self).caret_known {
                        Follow::Caret {
                            x: old(self).caret_x,
                            y: old(self).caret_y,
                            h: old(self).caret_h,
                        }
                    } else {
                        Follow::Pointer
                    },
                    show: label@ == japanese_label(),
                })
            }),
    {
        if self.label == label.to_owned() {
            return LabelUpdate::Unchanged;
        }
        self.label = label.to_owned();
        let resize = self.apply_style_for_label(label);
        let follow = if self.caret_known {
            Follow::Caret { x: self.caret_x, y: self.caret_y, h: self.caret_h }
        } else {
            Follow::Pointer
        };
        let show = is_japanese_label(label);
        LabelUpdate::Changed { resize, follow, show }
    }

    /// Whether the overlay window is to be visible: for the Japanese-input
    /// label あ only.
    pub fn is_shown(&self) -> (r: bool)
        ensures
            r == (self.label@ == japanese_label()),
    {
        is_japanese_label(self.label.as_str())
    }

    /// Records the caret at (`x`, `y`) of height `h` as known, stops pointer
    /// polling, and gives the anchor and target of the move.
    pub fn move_to_caret(&mut self, x: i32, y: i32, h: i32) -> (r: CaretMove)
        requires
            fits_i32(x + old(self).offset_x),
            fits_i32(y + h),
            fits_i32(y + h + old(self).offset_y),
        ensures
            final(self).well_formed(),
            *final(self) == (OverlayModel {
                caret_x: x,
                caret_y: y,
                caret_h: h,
                caret_known: true,
                pointer_poll_active: false,
                ..*old(self)
            }),
            r.stop_poll == old(self).pointer_poll_active,
            r.anchor_x == x && r.anchor_y == y,
            (r.target_x as int, r.target_y as int) == caret_target(*old(self), x, y, h),
    {
        self.caret_x = x;
        self.caret_y = y;
        self.caret_h = h;
        self.caret_known = true;
        let stop_poll = self.pointer_poll_active;
        self.pointer_poll_active = false;
        CaretMove {
            stop_poll,
            anchor_x: x,
            anchor_y: y,
            target_x: x + self.offset_x,
            target_y: y + h + self.offset_y,
        }
    }

    /// Records that the caret position is no longer known.
    pub fn mark_caret_unknown(&mut self)
        requires
            old(self).well_formed(),
        ensures
            final(self).well_formed(),
            *final(self) == (OverlayModel { caret_known: false, ..*old(self) }),
    {
        self.caret_known = false;
    }

    /// Where the overlay goes for the pointer at (`px`, `py`).
    pub fn pointer_target(&self, px: i32, py: i32) -> (r: (i32, i32))
        requires
            fits_i32(px + self.offset_x),
            fits_i32(py + self.offset_y),
        ensures
            r.0 == px + self.offset_x,
            r.1 == py + self.offset_y,
    {
        (px + self.offset_x, py + self.offset_y)
    }

    /// Decides whether the window moves to (`x`, `y`): it does, and the
    /// position is recorded, unless that is the position recorded last.
    pub fn commit_position(&mut self, x: i32, y: i32) -> (r: bool)
        ensures
            r == !(old(self).last_window_x == x && old(self).last_window_y == y),
            *final(self) == (OverlayModel { last_window_x: x, last_window_y: y, ..*old(self) }),
    {
        if self.last_window_x == x && self.last_window_y == y {
            return false;
        }
        self.last_window_x = x;
        self.last_window_y = y;
        true
    }

    /// Starts pointer polling when no timer runs and the caret is unknown,
    /// giving the timer's interval (at least 1 ms).
    pub fn start_pointer_poll(&mut self) -> (r: Option<u64>)
        requires
            old(self).well_formed(),
        ensures
            final(self).well_formed(),
            (!old(self).pointer_poll_active && !old(self).caret_known) ==> r == Some(
                if old(self).poll_ms < 1 {
                    1u64
                } else {
                    old(self).poll_ms
                },
            ) && *final(self) == (OverlayModel { pointer_poll_active: true, ..*old(self) }),
            (old(self).pointer_poll_active || old(self).caret_known) ==> r is None && *final(self)
                == *old(self),
    {
        if self.pointer_poll_active || self.caret_known {
            return None;
        }
        self.pointer_poll_active = true;
        Some(
            if self.poll_ms < 1 {
                1
            } else {
                self.poll_ms
            },
        )
    }

    /// One tick of the polling timer: it goes on (and the overlay moves to
    /// the pointer) while the caret is unknown, and stops otherwise.
    pub fn poll_tick(&mut self) -> (r: bool)
        ensures
            r == !old(self).caret_known,
            final(self).well_formed(),
            r ==> *final(self) == *old(self),
            !r ==> *final(self) == (OverlayModel { pointer_poll_active: false, ..*old(self) }),
    {
        if self.caret_known {
            self.pointer_poll_active = false;
            false
        } else {
            true
        }
    }
}

/// `v` clamped to `lo..=hi` (`Ord::clamp`).
pub open spec fn clamped(v: int, lo: int, hi: int) -> int {
    if v < lo {
        lo
    } else if v > hi {
        hi
    } else {
        v
    }
}

/// Keeps a window of `width` x `height` at (`target_x`, `target_y`) inside
/// the monitor area at (`area_x`, `area_y`) of `area_w` x `area_h`.
pub fn clamp_to_area(
    target_x: i32,
    target_y: i32,
    area_x: i32,
    area_y: i32,
    area_w: i32,
    area_h: i32,
    width: i32,
    height: i32,
) -> (r: (i32, i32))
    requires
        area_admits(area_x, area_y, area_w, area_h, width, height),
    ensures
        r.0 == clamped(target_x as int, area_x as int, area_x + area_w - width),
        r.1 == clamped(target_y as int, area_y as int, area_y + area_h - height),
{
    let max_x = area_x + area_w - width;
    let max_y = area_y + area_h - height;
    let x = if target_x < area_x {
        area_x
    } else if target_x > max_x {
        max_x
    } else {
        target_x
    };
    let y = if target_y < area_y {
        area_y
    } else if target_y > max_y {
        max_y
    } else {
        target_y
    };
    (x, y)
}

/// The start of a span of length `inner` centred in a span of length `outer`
/// that starts at `start` (with division rounding toward zero).
pub open spec fn centered_start_of(start: int, outer: int, inner: int) -> int {
    let d = outer - inner;
    start + if d >= 0 {
        d / 2
    } else {
        -((-d) / 2)
    }
}

/// Centres a span of length `inner` in a span of length `outer` starting at
/// `start`: the overlay on the monitor at start-up, and the label text in
/// the overlay and in the tray icon.
pub fn centered_start(start: i32, outer: i32, inner: i32) -> (r: i32)
    requires
        fits_i32(outer - inner),
        fits_i32(centered_start_of(start as int, outer as int, inner as int)),
    ensures
        r == centered_start_of(start as int, outer as int, inner as int),
{
    let d = outer - inner;
    start + d / 2
}

/// The monitor area admits a window of `width` x `height` without overflow,
/// which `clamp_to_area` needs (`Ord::clamp` panics when the window is larger
/// than the area).
pub open spec fn area_admits(area_x: i32, area_y: i32, area_w: i32, area_h: i32, width: i32, height: i32) -> bool {
    &&& fits_i32(area_x + area_w)
    &&& fits_i32(area_x + area_w - width)
    &&& fits_i32(area_y + area_h)
    &&& fits_i32(area_y + area_h - height)
    &&& area_x <= area_x + area_w - width
    &&& area_y <= area_y + area_h - height
}

/// Whether `clamp_to_area` may be called for this area and window size.
pub fn area_admits_window(area_x: i32, area_y: i32, area_w: i32, area_h: i32, width: i32, height: i32) -> (r: bool)
    ensures
        r == area_admits(area_x, area_y, area_w, area_h, width, height),
{
    let xe = area_x as i64 + area_w as i64;
    let xm = xe - width as i64;
    let ye = area_y as i64 + area_h as i64;
    let ym = ye - height as i64;
    let lo = i32::MIN as i64;
    let hi = i32::MAX as i64;
    lo <= xe && xe <= hi && lo <= xm && xm <= hi && lo <= ye && ye <= hi && lo <= ym && ym <= hi
        && area_x as i64 <= xm && area_y as i64 <= ym
}

impl OverlayModel {
    /// Whether the caret target for (`x`, `y`, `h`) is computed without
    /// overflow, which `move_to_caret` needs.
    pub fn caret_target_fits(&self, x: i32, y: i32, h: i32) -> (r: bool)
        ensures
            r == (fits_i32(x + self.offset_x) && fits_i32(y + h) && fits_i32(y + h + self.offset_y)),
    {
        let a = x as i64 + self.offset_x as i64;
        let b = y as i64 + h as i64;
        let c = b + self.offset_y as i64;
        let lo = i32::MIN as i64;
        let hi = i32::MAX as i64;
        lo <= a && a <= hi && lo <= b && b <= hi && lo <= c && c <= hi
    }

    /// Whether the pointer target for (`px`, `py`) is computed without
    /// overflow, which `pointer_target` needs.
    pub fn pointer_target_fits(&self, px: i32, py: i32) -> (r: bool)
        ensures
            r == (fits_i32(px + self.offset_x) && fits_i32(py + self.offset_y)),
    {
        let a = px as i64 + self.offset_x as i64;
        let b = py as i64 + self.offset_y as i64;
        let lo = i32::MIN as i64;
        let hi = i32::MAX as i64;
        lo <= a && a <= hi && lo <= b && b <= hi
    }
}

/// Whether `centered_start` is computed without overflow.
pub fn centering_fits(start: i32, outer: i32, inner: i32) -> (r: bool)
    ensures
        r == (fits_i32(outer - inner) && fits_i32(centered_start_of(start as int, outer as int, inner as int))),
{
    let d = outer as i64 - inner as i64;
    let lo = i32::MIN as i64;
    let hi = i32::MAX as i64;
    if d < lo || d > hi {
        return false;
    }
    let c = start as i64 + d / 2;
    lo <= c && c <= hi
}

} // verus!
