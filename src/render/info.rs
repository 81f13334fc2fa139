//! The timing panel at the top left of the screen. Its figures are held as
//! whole numbers of tenths, the precision they are shown with.

use vstd::prelude::*;
use crate::render::text::{
    border, decimal, digit, digit_char, extend, pad_right, pad_right_in_place, push_border,
    push_decimal, push_str,
};
use crate::render::Panel;

verus! {

/// Width of the panel, borders included.
pub const INFO_WIDTH: usize = 20;

/// Width of a line between the borders.
pub const INFO_CONTENT_WIDTH: usize = 18;

/// `v` tenths with one digit after the point.
pub open spec fn tenths_text(v: nat) -> Seq<char> {
    decimal(v / 10) + seq!['.', digit((v % 10) as int)]
}

/// A line of the panel: `content` padded and framed.
pub open spec fn info_line(content: Seq<char>) -> Seq<char> {
    seq!['\u{2502}'] + pad_right(content, INFO_CONTENT_WIDTH as int) + seq!['\u{2502}']
}

/// The figures shown: particle count, step time, frame time, frame rate.
pub struct Info {
    particle_count: usize,
    sim_time_tenths: usize,
    render_time_tenths: usize,
    fps_tenths: usize,
    visible: bool,
}

/// The panel text of `info`: empty while the panel is closed.
pub open spec fn info_text(info: Info) -> Seq<char> {
    if !info.spec_visible() {
        Seq::empty()
    } else {
        border('\u{250c}', '\u{2510}', INFO_CONTENT_WIDTH as int)
            + info_line("Particles: "@ + decimal(info.spec_particle_count() as nat))
            + info_line("Sim: "@ + tenths_text(info.spec_sim_time_tenths() as nat) + " ms"@)
            + info_line("Render: "@ + tenths_text(info.spec_render_time_tenths() as nat) + " ms"@)
            + info_line("FPS: "@ + tenths_text(info.spec_fps_tenths() as nat))
            + border('\u{2514}', '\u{2518}', INFO_CONTENT_WIDTH as int)
    }
}

fn push_tenths(out: &mut Vec<char>, v: usize)
    ensures
        final(out)@ == old(out)@ + tenths_text(v as nat),
{
    push_decimal(out, v / 10);
    out.push('.');
    out.push(digit_char(v % 10));
}

fn push_line(out: &mut Vec<char>, content: &mut Vec<char>)
    ensures
        final(out)@ == old(out)@ + info_line(old(content)@),
{
    pad_right_in_place(content, INFO_CONTENT_WIDTH);
    out.push('\u{2502}');
    extend(out, content);
    out.push('\u{2502}');
}

impl Info {
    /// The particle count shown.
    pub closed spec fn spec_particle_count(&self) -> usize {
        self.particle_count
    }

    /// The step time shown, in tenths of a millisecond.
    pub closed spec fn spec_sim_time_tenths(&self) -> usize {
        self.sim_time_tenths
    }

    /// The frame time shown, in tenths of a millisecond.
    pub closed spec fn spec_render_time_tenths(&self) -> usize {
        self.render_time_tenths
    }

    /// The frame rate shown, in tenths of a frame per second.
    pub closed spec fn spec_fps_tenths(&self) -> usize {
        self.fps_tenths
    }

    /// Whether the panel is open.
    pub closed spec fn spec_visible(&self) -> bool {
        self.visible
    }

    /// Width of the panel.
    pub fn render_width() -> (r: usize)
        ensures
            r == INFO_WIDTH,
    {
        INFO_WIDTH
    }

    /// Height of the panel: a border, four lines, a border.
    pub fn render_height() -> (r: usize)
        ensures
            r == 6,
    {
        6
    }

    /// Takes new figures; the panel stays open or closed.
    pub fn update(
        &mut self,
        particle_count: usize,
        sim_time_tenths: usize,
        render_time_tenths: usize,
        fps_tenths: usize,
    )
        ensures
            final(self).spec_particle_count() == particle_count,
            final(self).spec_sim_time_tenths() == sim_time_tenths,
            final(self).spec_render_time_tenths() == render_time_tenths,
            final(self).spec_fps_tenths() == fps_tenths,
            final(self).spec_visible() == old(self).spec_visible(),
    {
        self.particle_count = particle_count;
        self.sim_time_tenths = sim_time_tenths;
        self.render_time_tenths = render_time_tenths;
        self.fps_tenths = fps_tenths;
    }

    /// Opens the panel when it is closed and closes it when it is open.
    pub fn toggle_visibility(&mut self)
        ensures
            final(self).spec_visible() == !old(self).spec_visible(),
            final(self).spec_particle_count() == old(self).spec_particle_count(),
            final(self).spec_sim_time_tenths() == old(self).spec_sim_time_tenths(),
            final(self).spec_render_time_tenths() == old(self).spec_render_time_tenths(),
            final(self).spec_fps_tenths() == old(self).spec_fps_tenths(),
    {
        self.visible = !self.visible;
    }

    /// Whether the panel is open.
    pub fn visible(&self) -> (r: bool)
        ensures
            r == self.spec_visible(),
    {
        self.visible
    }

    /// The panel text: empty while the panel is closed, else the box with
    /// the four figures.
    pub fn render(&self) -> (r: Vec<char>)
        ensures
            r@ == info_text(*self),
    {
        let mut out: Vec<char> = Vec::new();
        if !self.visible {
            return out;
        }
        push_border(&mut out, '\u{250c}', '\u{2510}', INFO_CONTENT_WIDTH);

        let mut line: Vec<char> = Vec::new();
        push_str(&mut line, "Particles: ");
        push_decimal(&mut line, self.particle_count);
        push_line(&mut out, &mut line);

        let mut line: Vec<char> = Vec::new();
        push_str(&mut line, "Sim: ");
        push_tenths(&mut line, self.sim_time_tenths);
        push_str(&mut line, " ms");
        push_line(&mut out, &mut line);

        let mut line: Vec<char> = Vec::new();
        push_str(&mut line, "Render: ");
        push_tenths(&mut line, self.render_time_tenths);
        push_str(&mut line, " ms");
        push_line(&mut out, &mut line);

        let mut line: Vec<char> = Vec::new();
        push_str(&mut line, "FPS: ");
        push_tenths(&mut line, self.fps_tenths);
        push_line(&mut out, &mut line);

        push_border(&mut out, '\u{2514}', '\u{2518}', INFO_CONTENT_WIDTH);
        out
    }

    /// The panel laid at the left edge of the screen.
    pub fn panel(&self) -> (r: Panel)
        ensures
            r.text@ == info_text(*self),
            r.width == INFO_WIDTH,
            r.height == 6,
            !r.anchor_right,
    {
        Panel { text: self.render(), width: Self::render_width(), height: Self::render_height(), anchor_right: false }
    }
}

impl Default for Info {
    /// All figures zero, the panel closed.
    fn default() -> (r: Self)
        ensures
            r.spec_particle_count() == 0,
            r.spec_sim_time_tenths() == 0,
            r.spec_render_time_tenths() == 0,
            r.spec_fps_tenths() == 0,
            !r.spec_visible(),
    {
        Info { particle_count: 0, sim_time_tenths: 0, render_time_tenths: 0, fps_tenths: 0, visible: false }
    }
}

} // verus!
