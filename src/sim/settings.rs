//! The live simulation parameters, held as whole numbers, and the
//! selection the panel keys act on.

use vstd::prelude::*;
use crate::sim::param::{stepped_down, stepped_up, Param};

verus! {

/// Every setting but the particle count is held as a whole number of
/// hundredths of its unit.
pub const HUNDREDTHS: usize = 100;

/// Position of each setting in the panel, and the index `selected_idx` uses.
pub const PARTICLE_COUNT: usize = 0;
pub const GRAVITY: usize = 1;
pub const TARGET_DENSITY: usize = 2;
pub const VISCOSITY: usize = 3;
pub const STIFFNESS: usize = 4;
pub const SMOOTHING_RADIUS: usize = 5;
pub const DAMPENING: usize = 6;
pub const MOUSE_FORCE_STRENGTH: usize = 7;
pub const MOUSE_FORCE_RADIUS: usize = 8;

/// How many settings there are.
pub const SETTINGS_COUNT: usize = 9;

/// The configured (min, max, step, base) of setting `i`: the particle count
/// in particles, the others in hundredths.
pub open spec fn configured(i: int) -> (usize, usize, usize, usize) {
    if i == 0 {
        (500, 20000, 500, 10000)
    } else if i == 1 {
        (0, 5000, 100, 1500)
    } else if i == 2 {
        (10, 1000, 10, 100)
    } else if i == 3 {
        (0, 2000, 10, 200)
    } else if i == 4 {
        (0, 900000, 10000, 300000)
    } else if i == 5 {
        (50, 500, 10, 200)
    } else if i == 6 {
        (0, 100, 1, 1)
    } else if i == 7 {
        (0, 2000, 50, 300)
    } else {
        (500, 5000, 100, 1500)
    }
}

/// Whether `p` has the bounds, step and base configured for setting `i` and
/// a value within those bounds.
pub open spec fn fits_setting(p: Param<usize>, i: int) -> bool {
    let (min, max, step, base) = configured(i);
    &&& p.min == min
    &&& p.max == max
    &&& p.step == step
    &&& p.base == base
    &&& min <= p.value <= max
}

/// `q` is `p` with only its value changed.
pub open spec fn same_but_value(p: Param<usize>, q: Param<usize>) -> bool {
    q.min == p.min && q.max == p.max && q.step == p.step && q.base == p.base
}

fn configured_param(min: usize, max: usize, step: usize, base: usize) -> (r: Param<usize>)
    ensures
        r.min == min,
        r.max == max,
        r.step == step,
        r.base == base,
        r.value == base,
{
    Param::default().min(min).max(max).step(step).base(base)
}

/// The live parameters of the simulation, the one selected for adjustment,
/// and whether the panel that shows them is open.
pub struct Settings {
    particle_count: Param<usize>,
    gravity: Param<usize>,
    dampening: Param<usize>,
    target_density: Param<usize>,
    stiffness: Param<usize>,
    smoothing_radius: Param<usize>,
    viscosity: Param<usize>,
    mouse_force_strength: Param<usize>,
    mouse_force_radius: Param<usize>,
    selected_idx: usize,
    visible: bool,
}

impl Settings {
    /// Setting `i`, in panel order.
    pub closed spec fn spec_param(&self, i: int) -> Param<usize> {
        if i == 0 {
            self.particle_count
        } else if i == 1 {
            self.gravity
        } else if i == 2 {
            self.target_density
        } else if i == 3 {
            self.viscosity
        } else if i == 4 {
            self.stiffness
        } else if i == 5 {
            self.smoothing_radius
        } else if i == 6 {
            self.dampening
        } else if i == 7 {
            self.mouse_force_strength
        } else {
            self.mouse_force_radius
        }
    }

    /// The current value of setting `i`.
    pub open spec fn spec_value(&self, i: int) -> usize {
        self.spec_param(i).value
    }

    /// The index of the selected setting.
    pub closed spec fn spec_selected(&self) -> usize {
        self.selected_idx
    }

    /// Whether the panel is open.
    pub closed spec fn spec_visible(&self) -> bool {
        self.visible
    }

    /// Every setting keeps its configuration and a value within its bounds,
    /// and the selection names a setting.
    pub open spec fn wf(&self) -> bool {
        &&& forall|i: int| 0 <= i < 9 ==> #[trigger] fits_setting(self.spec_param(i), i)
        &&& self.spec_selected() < 9
    }

    /// `self` and `other` agree on everything but the value of setting `i`.
    pub open spec fn same_except(&self, other: &Settings, i: int) -> bool {
        &&& forall|j: int| 0 <= j < 9 && j != i ==> #[trigger] other.spec_param(j) == self.spec_param(j)
        &&& same_but_value(self.spec_param(i), other.spec_param(i))
        &&& other.spec_selected() == self.spec_selected()
        &&& other.spec_visible() == self.spec_visible()
    }

    /// Every setting of `self` equals that of `before`.
    pub open spec fn same_params(&self, before: &Settings) -> bool {
        forall|i: int| #[trigger] self.spec_param(i) == before.spec_param(i)
    }

    /// `self` is `before` with the panel opened or closed.
    pub open spec fn toggled_from(&self, before: &Settings) -> bool {
        &&& self.spec_visible() == !before.spec_visible()
        &&& self.spec_selected() == before.spec_selected()
        &&& self.same_params(before)
    }

    /// `self` is `before` with the selection moved one down, round from the
    /// last setting to the first, when the panel is open.
    pub open spec fn next_from(&self, before: &Settings) -> bool {
        &&& self.spec_selected() == if before.spec_visible() {
            (before.spec_selected() + 1) % 9
        } else {
            before.spec_selected() as int
        }
        &&& self.spec_visible() == before.spec_visible()
        &&& self.same_params(before)
    }

    /// `self` is `before` with the selection moved one up, round from the
    /// first setting to the last, when the panel is open.
    pub open spec fn prev_from(&self, before: &Settings) -> bool {
        &&& self.spec_selected() == if before.spec_visible() {
            (before.spec_selected() + 8) % 9
        } else {
            before.spec_selected() as int
        }
        &&& self.spec_visible() == before.spec_visible()
        &&& self.same_params(before)
    }

    /// `self` is `before` with the selected setting stepped up, when the
    /// panel is open.
    pub open spec fn inc_from(&self, before: &Settings) -> bool {
        let i = before.spec_selected() as int;
        let p = before.spec_param(i);
        &&& before.same_except(self, i)
        &&& self.spec_value(i) == if before.spec_visible() {
            stepped_up(p.value as int, p.step as int, p.max as int)
        } else {
            p.value as int
        }
    }

    /// `self` is `before` with the selected setting stepped down, when the
    /// panel is open.
    pub open spec fn dec_from(&self, before: &Settings) -> bool {
        let i = before.spec_selected() as int;
        let p = before.spec_param(i);
        &&& before.same_except(self, i)
        &&& self.spec_value(i) == if before.spec_visible() {
            stepped_down(p.value as int, p.step as int, p.min as int)
        } else {
            p.value as int
        }
    }

    /// `self` is `before` with the selected setting back at its base value,
    /// when the panel is open.
    pub open spec fn reset_from(&self, before: &Settings) -> bool {
        let i = before.spec_selected() as int;
        let p = before.spec_param(i);
        &&& before.same_except(self, i)
        &&& self.spec_value(i) == if before.spec_visible() {
            p.base
        } else {
            p.value
        }
    }

    fn param_mut(&mut self, i: usize) -> (r: &mut Param<usize>)
        requires
            i < 9,
        ensures
            *r == old(self).spec_param(i as int),
            forall|j: int| 0 <= j < 9 && j != i ==> #[trigger] final(self).spec_param(j) == old(self).spec_param(j),
            final(self).spec_param(i as int) == *final(r),
            final(self).spec_selected() == old(self).spec_selected(),
            final(self).spec_visible() == old(self).spec_visible(),
    {
        if i == 0 {
            &mut self.particle_count
        } else if i == 1 {
            &mut self.gravity
        } else if i == 2 {
            &mut self.target_density
        } else if i == 3 {
            &mut self.viscosity
        } else if i == 4 {
            &mut self.stiffness
        } else if i == 5 {
            &mut self.smoothing_radius
        } else if i == 6 {
            &mut self.dampening
        } else if i == 7 {
            &mut self.mouse_force_strength
        } else {
            &mut self.mouse_force_radius
        }
    }

    /// The number of settings.
    pub fn num_settings() -> (r: usize)
        ensures
            r == 9,
    {
        SETTINGS_COUNT
    }

    /// The number of particles the simulation should hold.
    pub fn particle_count(&self) -> (r: usize)
        ensures
            r == self.spec_value(0),
    {
        self.particle_count.value
    }

    /// Downward acceleration, in hundredths.
    pub fn gravity(&self) -> (r: usize)
        ensures
            r == self.spec_value(1),
    {
        self.gravity.value
    }

    /// The factor applied to the velocity reflected at a wall, in hundredths.
    pub fn dampening(&self) -> (r: usize)
        ensures
            r == self.spec_value(6),
    {
        self.dampening.value
    }

    /// The rest density of the fluid, in hundredths.
    pub fn target_density(&self) -> (r: usize)
        ensures
            r == self.spec_value(2),
    {
        self.target_density.value
    }

    /// The pressure per unit of excess density, in hundredths.
    pub fn stiffness(&self) -> (r: usize)
        ensures
            r == self.spec_value(4),
    {
        self.stiffness.value
    }

    /// The kernel support radius h, in hundredths.
    pub fn smoothing_radius(&self) -> (r: usize)
        ensures
            r == self.spec_value(5),
    {
        self.smoothing_radius.value
    }

    /// The viscosity coefficient, in hundredths.
    pub fn viscosity(&self) -> (r: usize)
        ensures
            r == self.spec_value(3),
    {
        self.viscosity.value
    }

    /// The strength of the mouse force, in hundredths.
    pub fn mouse_force_strength(&self) -> (r: usize)
        ensures
            r == self.spec_value(7),
    {
        self.mouse_force_strength.value
    }

    /// The reach of the mouse force, in hundredths.
    pub fn mouse_force_radius(&self) -> (r: usize)
        ensures
            r == self.spec_value(8),
    {
        self.mouse_force_radius.value
    }

    /// h squared, in ten-thousandths.
    pub fn smoothing_radius_sq(&self) -> (r: usize)
        requires
            self.wf(),
        ensures
            r == self.spec_value(5) * self.spec_value(5),
    {
        assert(fits_setting(self.spec_param(5), 5));
        let h = self.smoothing_radius.value;
        assert(h * h <= 500 * 500) by (nonlinear_arith)
            requires h <= 500;
        h * h
    }

    /// The side of a grid cell, nine tenths of h, in thousandths.
    pub fn cell_size(&self) -> (r: usize)
        requires
            self.wf(),
        ensures
            r == 9 * self.spec_value(5),
    {
        assert(fits_setting(self.spec_param(5), 5));
        9 * self.smoothing_radius.value
    }

    /// The index of the selected setting.
    pub fn selected_idx(&self) -> (r: usize)
        ensures
            r == self.spec_selected(),
    {
        self.selected_idx
    }

    /// Whether the panel is open.
    pub fn visible(&self) -> (r: bool)
        ensures
            r == self.spec_visible(),
    {
        self.visible
    }

    /// Opens the panel when it is closed and closes it when it is open.
    pub fn toggle_visibility(&mut self)
        ensures
            final(self).toggled_from(old(self)),
    {
        self.visible = !self.visible;
    }

    /// Setting `i`, in panel order.
    pub fn param(&self, i: usize) -> (r: &Param<usize>)
        requires
            i < 9,
        ensures
            *r == self.spec_param(i as int),
    {
        if i == 0 {
            &self.particle_count
        } else if i == 1 {
            &self.gravity
        } else if i == 2 {
            &self.target_density
        } else if i == 3 {
            &self.viscosity
        } else if i == 4 {
            &self.stiffness
        } else if i == 5 {
            &self.smoothing_radius
        } else if i == 6 {
            &self.dampening
        } else if i == 7 {
            &self.mouse_force_strength
        } else {
            &self.mouse_force_radius
        }
    }

    /// All settings, in panel order.
    pub fn params(&self) -> (r: [&Param<usize>; 9])
        ensures
            forall|i: int| 0 <= i < 9 ==> *#[trigger] r@[i] == self.spec_param(i),
    {
        let r = [
            &self.particle_count,
            &self.gravity,
            &self.target_density,
            &self.viscosity,
            &self.stiffness,
            &self.smoothing_radius,
            &self.dampening,
            &self.mouse_force_strength,
            &self.mouse_force_radius,
        ];
        assert(forall|i: int| 0 <= i < 9 ==> *#[trigger] r@[i] == self.spec_param(i));
        r
    }

    /// Moves the selection to the next setting, from the last back to the
    /// first; only while the panel is open.
    pub fn select_next(&mut self)
        requires
            old(self).wf(),
        ensures
            final(self).wf(),
            final(self).next_from(old(self)),
    {
        if !self.visible {
            return;
        }
        let ghost before = *self;
        self.selected_idx = (self.selected_idx + 1) % SETTINGS_COUNT;
        assert forall|i: int| 0 <= i < 9 implies #[trigger] fits_setting(self.spec_param(i), i) by {
            assert(fits_setting(before.spec_param(i), i));
        }
    }

    /// Moves the selection to the previous setting, from the first round to
    /// the last; only while the panel is open.
    pub fn select_prev(&mut self)
        requires
            old(self).wf(),
        ensures
            final(self).wf(),
            final(self).prev_from(old(self)),
    {
        if !self.visible {
            return;
        }
        let ghost before = *self;
        self.selected_idx = (SETTINGS_COUNT + self.selected_idx - 1) % SETTINGS_COUNT;
        assert forall|i: int| 0 <= i < 9 implies #[trigger] fits_setting(self.spec_param(i), i) by {
            assert(fits_setting(before.spec_param(i), i));
        }
    }

    /// Steps the selected setting up, stopping at its maximum; only while the
    /// panel is open.
    pub fn inc_selected(&mut self)
        requires
            old(self).wf(),
        ensures
            final(self).wf(),
            final(self).inc_from(old(self)),
    {
        if !self.visible {
            return;
        }
        let idx = self.selected_idx;
        assert(fits_setting(self.spec_param(idx as int), idx as int));
        self.param_mut(idx).inc();
        assert(fits_setting(self.spec_param(idx as int), idx as int));
    }

    /// Steps the selected setting down, stopping at its minimum; only while
    /// the panel is open.
    pub fn dec_selected(&mut self)
        requires
            old(self).wf(),
        ensures
            final(self).wf(),
            final(self).dec_from(old(self)),
    {
        if !self.visible {
            return;
        }
        let idx = self.selected_idx;
        assert(fits_setting(self.spec_param(idx as int), idx as int));
        self.param_mut(idx).dec();
        assert(fits_setting(self.spec_param(idx as int), idx as int));
    }

    /// Restores the selected setting to its base value; only while the panel
    /// is open.
    pub fn reset_selected(&mut self)
        requires
            old(self).wf(),
        ensures
            final(self).wf(),
            final(self).reset_from(old(self)),
    {
        if !self.visible {
            return;
        }
        let idx = self.selected_idx;
        assert(fits_setting(self.spec_param(idx as int), idx as int));
        self.param_mut(idx).reset();
        assert(fits_setting(self.spec_param(idx as int), idx as int));
    }
}

impl Default for Settings {
    /// Every setting at its base value, the first one selected, the panel
    /// closed.
    fn default() -> (r: Self)
        ensures
            r.wf(),
            forall|i: int| 0 <= i < 9 ==> (#[trigger] r.spec_param(i)).value == configured(i).3,
            r.spec_selected() == 0,
            !r.spec_visible(),
    {
        let r = Settings {
            particle_count: configured_param(500, 20000, 500, 10000),
            gravity: configured_param(0, 5000, 100, 1500),
            dampening: configured_param(0, 100, 1, 1),
            target_density: configured_param(10, 1000, 10, 100),
            stiffness: configured_param(0, 900000, 10000, 300000),
            smoothing_radius: configured_param(50, 500, 10, 200),
            viscosity: configured_param(0, 2000, 10, 200),
            mouse_force_strength: configured_param(0, 2000, 50, 300),
            mouse_force_radius: configured_param(500, 5000, 100, 1500),
            selected_idx: 0,
            visible: false,
        };
        assert(forall|i: int| 0 <= i < 9 ==> #[trigger] fits_setting(r.spec_param(i), i));
        r
    }
}

} // verus!
