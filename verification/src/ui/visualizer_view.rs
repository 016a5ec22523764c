//! The visualizer's bars: the characters they are drawn with, how they are
//! laid out across the panel, and which gradient color a bar takes.
use vstd::prelude::*;

use crate::ui::theme::Color;

verus! {

/// Unicode block characters for bar rendering, from empty to full.
pub const BAR_CHARS: [char; 9] = [
    ' ',
    '\u{2581}',
    '\u{2582}',
    '\u{2583}',
    '\u{2584}',
    '\u{2585}',
    '\u{2586}',
    '\u{2587}',
    '\u{2588}',
];

/// The width of each bar: the panel's width plus one, shared out among one
/// more than the bars (so a one-column gap fits between bars), at least one.
pub open spec fn bar_width_spec(available_width: nat, num_bars: nat) -> nat {
    let w = (available_width + 1) / (num_bars + 1);
    if w >= 1 {
        w
    } else {
        1
    }
}

/// The columns all bars take together, one-column gaps included.
pub open spec fn bars_total_width(num_bars: nat, bar_width: nat) -> nat {
    num_bars * bar_width + if num_bars > 0 {
        (num_bars - 1) as nat
    } else {
        0
    }
}

/// The bars' width and the offset that centers them in the panel.
pub fn bar_layout(available_width: usize, num_bars: usize) -> (r: (usize, usize))
    requires
        available_width + 2 * num_bars + 1 <= usize::MAX,
    ensures
        r.0 == bar_width_spec(available_width as nat, num_bars as nat),
        r.1 == if bars_total_width(num_bars as nat, r.0 as nat) < available_width {
            (available_width - bars_total_width(num_bars as nat, r.0 as nat)) / 2
        } else {
            0
        },
{
    let w = (available_width + 1) / (num_bars + 1);
    let bar_width: usize = if w >= 1 {
        w
    } else {
        1
    };
    proof {
        if w >= 1 {
            assert(w * (num_bars + 1) <= available_width + 1) by (nonlinear_arith)
                requires
                    w == (available_width + 1) / (num_bars + 1),
                    num_bars + 1 > 0,
            ;
            assert(num_bars * w <= available_width + 1) by (nonlinear_arith)
                requires
                    w * (num_bars + 1) <= available_width + 1,
            ;
        }
    }
    let gaps: usize = if num_bars > 0 {
        num_bars - 1
    } else {
        0
    };
    let total = num_bars * bar_width + gaps;
    let x_offset = if total < available_width {
        (available_width - total) / 2
    } else {
        0
    };
    (bar_width, x_offset)
}

/// The gradient color of a bar at gradient position `level`: green with no
/// colors, the only color with one, else the color at `level`, capped at the last.
pub open spec fn gradient_color_spec(colors: Seq<Color>, level: usize) -> Color {
    if colors.len() == 0 {
        Color::Green
    } else if colors.len() == 1 {
        colors[0]
    } else if level < colors.len() {
        colors[level as int]
    } else {
        colors.last()
    }
}

/// The gradient color of a bar at gradient position `level` (the bar's
/// height scaled to the positions of the gradient and rounded).
pub fn gradient_color(colors: &[Color], level: usize) -> (r: Color)
    ensures
        r == gradient_color_spec(colors@, level),
{
    if colors.len() == 0 {
        return Color::Green;
    }
    if colors.len() == 1 {
        return colors[0];
    }
    if level < colors.len() {
        colors[level]
    } else {
        colors[colors.len() - 1]
    }
}

} // verus!
