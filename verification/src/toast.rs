//! Floating toast notifications: their kinds and where the active ones are
//! drawn in the top-right corner of the terminal.
use vstd::prelude::*;
use crate::mouse_handler::Rect;

verus! {

/// Severity of a toast, which picks its colour and icon.
#[derive(Debug, Clone, PartialEq, Eq, Structural)]
pub enum ToastKind {
    Info,
    Success,
    Warning,
    Error,
}

/// At most this many toasts are shown at once.
pub const MAX_VISIBLE_TOASTS: usize = 4;

/// The icon drawn before a toast's message.
pub open spec fn toast_icon_spec(kind: ToastKind) -> Seq<char> {
    match kind {
        ToastKind::Info => "\u{2139} "@,
        ToastKind::Success => "\u{2714} "@,
        ToastKind::Warning => "\u{26A0} "@,
        ToastKind::Error => "\u{2716} "@,
    }
}

pub fn toast_icon(kind: &ToastKind) -> (s: String)
    ensures
        s@ == toast_icon_spec(*kind),
{
    match kind {
        ToastKind::Info => String::from_str("\u{2139} "),
        ToastKind::Success => String::from_str("\u{2714} "),
        ToastKind::Warning => String::from_str("\u{26A0} "),
        ToastKind::Error => String::from_str("\u{2716} "),
    }
}

/// Width of a toast badge on a screen `width` columns wide: 42 columns, or
/// the screen less a 4-column margin when narrower.
pub open spec fn toast_width_spec(width: u16) -> u16 {
    let avail: u16 = if width >= 4 {
        (width - 4) as u16
    } else {
        0
    };
    if avail < 42 {
        avail
    } else {
        42
    }
}

/// Where the `count` active toasts are drawn (at most four, the oldest
/// first): 3-row badges stacked from row 1, right-aligned 2 columns from the
/// screen's right edge.
pub fn toast_rects(width: u16, count: usize) -> (r: Vec<Rect>)
    ensures
        r@.len() == if count < MAX_VISIBLE_TOASTS {
            count
        } else {
            MAX_VISIBLE_TOASTS
        },
        forall|i: int|
            0 <= i < r@.len() ==> (#[trigger] r@[i]) == (Rect {
                x: if width >= toast_width_spec(width) + 2 {
                    (width - toast_width_spec(width) - 2) as u16
                } else {
                    0
                },
                y: (1 + 3 * i) as u16,
                width: toast_width_spec(width),
                height: 3,
            }),
{
    let avail: u16 = if width >= 4 {
        width - 4
    } else {
        0
    };
    let toast_w: u16 = if avail < 42 {
        avail
    } else {
        42
    };
    let start_x: u16 = if width >= toast_w + 2 {
        width - (toast_w + 2)
    } else {
        0
    };
    let n = if count < MAX_VISIBLE_TOASTS {
        count
    } else {
        MAX_VISIBLE_TOASTS
    };
    let mut out: Vec<Rect> = Vec::new();
    let mut current_y: u16 = 1;
    let mut i: usize = 0;
    while i < n
        invariant
            i <= n <= MAX_VISIBLE_TOASTS,
            out@.len() == i,
            current_y == 1 + 3 * i,
            toast_w == toast_width_spec(width),
            start_x == if width >= toast_width_spec(width) + 2 {
                (width - toast_width_spec(width) - 2) as u16
            } else {
                0
            },
            forall|k: int|
                0 <= k < i ==> (#[trigger] out@[k]) == (Rect {
                    x: start_x,
                    y: (1 + 3 * k) as u16,
                    width: toast_w,
                    height: 3,
                }),
        decreases n - i,
    {
        out.push(Rect { x: start_x, y: current_y, width: toast_w, height: 3 });
        current_y = current_y + 3;
        i = i + 1;
    }
    out
}

} // verus!
