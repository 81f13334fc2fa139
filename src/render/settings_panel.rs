//! The text of the settings panel: a box 26 characters wide with one line
//! per setting, the selected one marked with `>`.

use vstd::prelude::*;
use crate::render::text::{
    border, decimal, digit, digit_char, extend, pad_left, pad_right, pad_right_in_place, push_border,
    push_decimal, push_fill, push_str,
};
use crate::render::Panel;
use crate::sim::settings::{Settings, PARTICLE_COUNT, SETTINGS_COUNT};

verus! {

/// Width of the panel, borders included.
pub const PANEL_WIDTH: usize = 26;

/// Width of a line between the borders.
pub const CONTENT_WIDTH: usize = 24;

/// Width of the column holding the marker and the name.
pub const NAME_WIDTH: usize = 15;

/// Width of the column holding the value.
pub const VALUE_WIDTH: usize = 7;

/// `v` hundredths written with `decimals` digits after the point (extra
/// digits are cut off).
pub open spec fn hundredths_text(v: nat, decimals: int) -> Seq<char> {
    if decimals <= 0 {
        decimal(v / 100)
    } else if decimals == 1 {
        decimal(v / 100) + seq!['.', digit(((v / 10) % 10) as int)]
    } else {
        decimal(v / 100) + seq!['.', digit(((v / 10) % 10) as int), digit((v % 10) as int)]
    }
}

/// Digits shown after the point for setting `i`.
pub open spec fn decimals_of(i: int) -> int {
    if i == 0 || i == 4 || i == 8 {
        0
    } else if i == 6 {
        2
    } else {
        1
    }
}

/// The label of setting `i`.
pub open spec fn name_of(i: int) -> Seq<char> {
    if i == 0 {
        "Particles"@
    } else if i == 1 {
        "Gravity"@
    } else if i == 2 {
        "Density"@
    } else if i == 3 {
        "Viscosity"@
    } else if i == 4 {
        "Stiffness"@
    } else if i == 5 {
        "Smoothing Rad"@
    } else if i == 6 {
        "Dampening"@
    } else if i == 7 {
        "Mouse Force"@
    } else {
        "Mouse Radius"@
    }
}

/// How setting `i` with value `v` is shown: the particle count as a whole
/// number, the others as their hundredths.
pub open spec fn value_text(i: int, v: nat) -> Seq<char> {
    if i == 0 {
        decimal(v)
    } else {
        hundredths_text(v, decimals_of(i))
    }
}

/// The panel line of setting `i`.
pub open spec fn setting_line(i: int, selected: bool, v: nat) -> Seq<char> {
    let marker = if selected {
        '>'
    } else {
        ' '
    };
    let name_col = pad_right(seq![marker, ' '] + name_of(i), NAME_WIDTH as int);
    seq!['\u{2502}'] + pad_right(
        name_col + seq![' '] + pad_left(value_text(i, v), VALUE_WIDTH as int),
        CONTENT_WIDTH as int,
    ) + seq!['\u{2502}']
}

/// The lines of the first `n` settings.
pub open spec fn setting_lines(s: Settings, n: int) -> Seq<char>
    decreases n,
{
    if n <= 0 {
        Seq::empty()
    } else {
        setting_lines(s, n - 1) + setting_line(
            n - 1,
            s.spec_selected() == n - 1,
            s.spec_value(n - 1) as nat,
        )
    }
}

/// The panel text of settings `s`: empty while the panel is closed.
pub open spec fn settings_text(s: Settings) -> Seq<char> {
    if !s.spec_visible() {
        Seq::empty()
    } else {
        border('\u{250c}', '\u{2510}', CONTENT_WIDTH as int) + setting_lines(s, 9) + border(
            '\u{2514}',
            '\u{2518}',
            CONTENT_WIDTH as int,
        )
    }
}

fn name(i: usize) -> (r: &'static str)
    requires
        i < 9,
    ensures
        r@ == name_of(i as int),
{
    if i == 0 {
        "Particles"
    } else if i == 1 {
        "Gravity"
    } else if i == 2 {
        "Density"
    } else if i == 3 {
        "Viscosity"
    } else if i == 4 {
        "Stiffness"
    } else if i == 5 {
        "Smoothing Rad"
    } else if i == 6 {
        "Dampening"
    } else if i == 7 {
        "Mouse Force"
    } else {
        "Mouse Radius"
    }
}

fn decimals(i: usize) -> (r: usize)
    ensures
        r == decimals_of(i as int),
{
    if i == 0 || i == 4 || i == 8 {
        0
    } else if i == 6 {
        2
    } else {
        1
    }
}

fn value_chars(i: usize, v: usize) -> (r: Vec<char>)
    ensures
        r@ == value_text(i as int, v as nat),
{
    let mut out: Vec<char> = Vec::new();
    if i == PARTICLE_COUNT {
        push_decimal(&mut out, v);
        return out;
    }
    push_decimal(&mut out, v / 100);
    let d = decimals(i);
    if d >= 1 {
        out.push('.');
        out.push(digit_char((v / 10) % 10));
        if d >= 2 {
            out.push(digit_char(v % 10));
        }
    }
    out
}

fn line_chars(i: usize, selected: bool, v: usize) -> (r: Vec<char>)
    requires
        i < 9,
    ensures
        r@ == setting_line(i as int, selected, v as nat),
{
    let marker = if selected {
        '>'
    } else {
        ' '
    };
    let mut name_col: Vec<char> = Vec::new();
    name_col.push(marker);
    name_col.push(' ');
    push_str(&mut name_col, name(i));
    pad_right_in_place(&mut name_col, NAME_WIDTH);

    let value = value_chars(i, v);
    let mut value_col: Vec<char> = Vec::new();
    if value.len() < VALUE_WIDTH {
        push_fill(&mut value_col, ' ', VALUE_WIDTH - value.len());
    }
    extend(&mut value_col, &value);

    let mut content = name_col;
    content.push(' ');
    extend(&mut content, &value_col);
    pad_right_in_place(&mut content, CONTENT_WIDTH);

    let mut line: Vec<char> = Vec::new();
    line.push('\u{2502}');
    extend(&mut line, &content);
    line.push('\u{2502}');
    line
}

impl Settings {
    /// Width of the settings panel.
    pub fn render_width() -> (r: usize)
        ensures
            r == PANEL_WIDTH,
    {
        PANEL_WIDTH
    }

    /// Height of the settings panel: a border, a line per setting, a border.
    pub fn render_height() -> (r: usize)
        ensures
            r == SETTINGS_COUNT + 2,
    {
        SETTINGS_COUNT + 2
    }

    /// The panel text: empty while the panel is closed, else the box with a
    /// line per setting in panel order.
    pub fn render(&self) -> (r: Vec<char>)
        ensures
            r@ == settings_text(*self),
    {
        let mut out: Vec<char> = Vec::new();
        if !self.visible() {
            return out;
        }
        push_border(&mut out, '\u{250c}', '\u{2510}', CONTENT_WIDTH);
        let ghost top = out@;
        let mut i: usize = 0;
        while i < SETTINGS_COUNT
            invariant
                0 <= i <= 9,
                out@ == top + setting_lines(*self, i as int),
            decreases 9 - i,
        {
            let v = *self.param(i).value();
            let line = line_chars(i, self.selected_idx() == i, v);
            extend(&mut out, &line);
            assert(out@ == top + setting_lines(*self, i + 1));
            i = i + 1;
        }
        push_border(&mut out, '\u{2514}', '\u{2518}', CONTENT_WIDTH);
        out
    }

    /// The panel laid against the right edge of the screen.
    pub fn panel(&self) -> (r: Panel)
        ensures
            r.text@ == settings_text(*self),
            r.width == PANEL_WIDTH,
            r.height == SETTINGS_COUNT + 2,
            r.anchor_right,
    {
        Panel {
            text: self.render(),
            width: Self::render_width(),
            height: Self::render_height(),
            anchor_right: true,
        }
    }
}

} // verus!
