//! The formation-template allocator: on each spawn request it either
//! reuses the current elliptical flight-path template (while fewer than
//! `FORMATION_MEMBERS_MAX` enemies share it) or draws a fresh randomized
//! one and resets the member count.

use vstd::prelude::*;
use rand::Rng;
use crate::geom::lemma_div_bounds;
use crate::geom::Vec2;
use crate::geom::WinSize;
use crate::geom::COORD_MAX;
use crate::geom::SCALE;
use crate::geom::SPEED_MAX;
use crate::trig::atan2_fp;
use crate::trig::atan2_milli;
use crate::trig::TWO_PI_MR;

verus! {

/// Shared angular-progression speed of every template, in milli-pixels
/// per second (500 pixels per second).
pub const BASE_SPEED: i64 = 500_000;

/// How many enemies may share one template before a fresh one is drawn.
pub const FORMATION_MEMBERS_MAX: u32 = 2;

/// An elliptical flight-path template: spawn point, ellipse center and
/// semi-axes, angular speed, and the enemy's current phase angle. Each
/// enemy owns a copy; `angle` is the only field the integrator mutates.
#[derive(Clone, Copy, PartialEq, Eq, Structural, Debug)]
pub struct Formation {
    pub start: Vec2,
    pub radius: Vec2,
    pub pivot: Vec2,
    pub speed: i64,
    pub angle: i64,
}

impl Formation {
    /// Radii strictly positive, everything bounded, angle normalized.
    pub open spec fn wf(self) -> bool {
        &&& self.start.bounded()
        &&& self.pivot.bounded()
        &&& 0 < self.radius.x <= COORD_MAX
        &&& 0 < self.radius.y <= COORD_MAX
        &&& 0 <= self.speed <= SPEED_MAX
        &&& 0 <= self.angle < TWO_PI_MR
    }

    /// Where an enemy carrying this template appears: the start point,
    /// mirrored to the opposite edge when the spawner's coin flip says so.
    pub fn spawn_point(&self, mirror: bool) -> (p: Vec2)
        requires
            self.wf(),
        ensures
            p.y == self.start.y,
            p.x == (if mirror {
                -self.start.x as int
            } else {
                self.start.x as int
            }),
    {
        Vec2 { x: if mirror { -self.start.x } else { self.start.x }, y: self.start.y }
    }
}

/// The randomness one fresh template consumes, as plain values, so that
/// the construction itself is deterministic and fully specified.
#[derive(Clone, Copy, PartialEq, Eq, Structural, Debug)]
pub struct FormationDraw {
    pub start_y: i64,
    pub pivot_x: i64,
    pub pivot_y: i64,
    pub radius_x: i64,
}

impl FormationDraw {
    /// The ranges the allocator draws from, for a given window.
    pub open spec fn in_range(self, win: WinSize) -> bool {
        &&& -(win.h / 2 + 100 * SCALE) <= self.start_y < win.h / 2 + 100 * SCALE
        &&& -(win.w / 4) <= self.pivot_x < win.w / 4
        &&& 0 <= self.pivot_y < win.h / 3 - 50 * SCALE
        &&& 80 * SCALE <= self.radius_x < 150 * SCALE
    }
}

/// The template a window and a draw determine: the spawn point sits one
/// fixed offset beyond the right window edge, the vertical semi-axis is
/// fixed, and the initial phase angle points from the pivot to the start.
pub open spec fn matches_draw(f: Formation, win: WinSize, d: FormationDraw) -> bool {
    &&& f.start.x == win.w / 2 + 100 * SCALE
    &&& f.start.y == d.start_y
    &&& f.pivot.x == d.pivot_x
    &&& f.pivot.y == d.pivot_y
    &&& f.radius.x == d.radius_x
    &&& f.radius.y == 100 * SCALE
    &&& f.speed == BASE_SPEED
    &&& f.angle == atan2_milli(d.start_y - d.pivot_y, win.w / 2 + 100 * SCALE - d.pivot_x)
}

/// What every freshly drawn template satisfies, whatever the randomness:
/// each field in its documented range, and the initial angle the
/// arctangent from pivot to start.
pub open spec fn fresh_shape(f: Formation, win: WinSize) -> bool {
    &&& f.start.x == win.w / 2 + 100 * SCALE
    &&& -(win.h / 2 + 100 * SCALE) <= f.start.y < win.h / 2 + 100 * SCALE
    &&& -(win.w / 4) <= f.pivot.x < win.w / 4
    &&& 0 <= f.pivot.y < win.h / 3 - 50 * SCALE
    &&& 80 * SCALE <= f.radius.x < 150 * SCALE
    &&& f.radius.y == 100 * SCALE
    &&& f.speed == BASE_SPEED
    &&& f.angle == atan2_milli(f.start.y - f.pivot.y, f.start.x - f.pivot.x)
}

/// Builds the template a window and a draw determine.
pub fn fresh_formation(win: &WinSize, d: &FormationDraw) -> (f: Formation)
    requires
        win.wf(),
        d.in_range(*win),
    ensures
        matches_draw(f, *win, *d),
        fresh_shape(f, *win),
        f.wf(),
{
    proof {
        lemma_div_bounds(win.w as int, 2, COORD_MAX as int / 4);
        lemma_div_bounds(win.w as int, 4, COORD_MAX as int / 8);
        lemma_div_bounds(win.h as int, 2, COORD_MAX as int / 4);
        lemma_div_bounds(win.h as int, 3, COORD_MAX as int / 4);
    }
    let sx: i64 = win.w / 2 + 100 * SCALE;
    let angle: i64 = atan2_fp(d.start_y - d.pivot_y, sx - d.pivot_x);
    Formation {
        start: Vec2 { x: sx, y: d.start_y },
        radius: Vec2 { x: d.radius_x, y: 100 * SCALE },
        pivot: Vec2 { x: d.pivot_x, y: d.pivot_y },
        speed: BASE_SPEED,
        angle,
    }
}

#[verifier::external_type_specification]
#[verifier::external_body]
pub struct ExThreadRng(rand::rngs::ThreadRng);

/// Relies on rand::thread_rng: a handle to the calling thread's generator.
#[verifier::external_body]
fn fresh_rng() -> rand::rngs::ThreadRng {
    rand::thread_rng()
}

/// Relies on rand::Rng::gen_range over a half-open i64 range: the result
/// is drawn uniformly from `[lo, hi)`; it panics on an empty range, which
/// the precondition rules out.
#[verifier::external_body]
fn draw_uniform(rng: &mut rand::rngs::ThreadRng, lo: i64, hi: i64) -> (r: i64)
    requires
        lo < hi,
    ensures
        lo <= r < hi,
{
    rng.gen_range(lo..hi)
}

/// Process-wide allocator state: the template being handed out and how
/// many enemies received it so far.
pub struct FormationMaker {
    current_template: Option<Formation>,
    current_members: u32,
}

impl FormationMaker {
    pub closed spec fn template(self) -> Option<Formation> {
        self.current_template
    }

    pub closed spec fn members(self) -> u32 {
        self.current_members
    }

    /// The member count never exceeds the cap: a template is shared by a
    /// bounded batch, and a request past the cap draws a fresh one.
    pub open spec fn wf(self) -> bool {
        &&& self.members() <= FORMATION_MEMBERS_MAX
        &&& match self.template() {
            Some(f) => f.wf() && 1 <= self.members(),
            None => true,
        }
    }

    /// A request is served from the current template exactly when one
    /// exists and fewer than the cap have received it.
    pub open spec fn can_reuse(self) -> bool {
        self.template() is Some && self.members() < FORMATION_MEMBERS_MAX
    }

    /// Hands the current template to one more member.
    fn reuse(&mut self) -> (f: Formation)
        requires
            old(self).wf(),
            old(self).can_reuse(),
        ensures
            final(self).wf(),
            f == old(self).template().unwrap(),
            final(self).template() == old(self).template(),
            final(self).members() == old(self).members() + 1,
    {
        self.current_members = self.current_members + 1;
        self.current_template.unwrap()
    }

    /// Installs a freshly built template and resets the count to one.
    fn install(&mut self, f: Formation) -> (r: Formation)
        requires
            f.wf(),
        ensures
            final(self).wf(),
            r == f,
            final(self).template() == Some(f),
            final(self).members() == 1,
    {
        self.current_template = Some(f);
        self.current_members = 1;
        f
    }

    /// Serves one spawn request: reuses the current template while the
    /// member cap allows, otherwise draws a fresh randomized one. The
    /// fresh branch promises exactly what holds of every draw.
    pub fn make(&mut self, win_size: &WinSize) -> (f: Formation)
        requires
            old(self).wf(),
            win_size.wf(),
        ensures
            final(self).wf(),
            f.wf(),
            final(self).template() == Some(f),
            old(self).can_reuse() ==> (f == old(self).template().unwrap() && final(self).members() == old(self).members() + 1),
            !old(self).can_reuse() ==> (fresh_shape(f, *win_size) && final(self).members()
                == 1),
    {
        if self.current_template.is_some() && self.current_members < FORMATION_MEMBERS_MAX {
            self.reuse()
        } else {
            proof {
                lemma_div_bounds(win_size.h as int, 2, COORD_MAX as int / 4);
                lemma_div_bounds(win_size.h as int, 3, COORD_MAX as int / 4);
                lemma_div_bounds(win_size.w as int, 4, COORD_MAX as int / 8);
            }
            let mut rng = fresh_rng();
            let h_span: i64 = win_size.h / 2 + 100 * SCALE;
            let draw = FormationDraw {
                start_y: draw_uniform(&mut rng, -h_span, h_span),
                pivot_x: draw_uniform(&mut rng, -(win_size.w / 4), win_size.w / 4),
                pivot_y: draw_uniform(&mut rng, 0, win_size.h / 3 - 50 * SCALE),
                radius_x: draw_uniform(&mut rng, 80 * SCALE, 150 * SCALE),
            };
            let f = fresh_formation(win_size, &draw);
            self.install(f)
        }
    }

    /// Serves one spawn request from a caller-supplied draw instead of
    /// the thread's generator, so a deterministic source can be injected;
    /// the reuse branch ignores the draw, exactly as `make` draws nothing
    /// when it reuses.
    pub fn make_with(&mut self, win_size: &WinSize, draw: &FormationDraw) -> (f: Formation)
        requires
            old(self).wf(),
            win_size.wf(),
            draw.in_range(*win_size),
        ensures
            final(self).wf(),
            f.wf(),
            final(self).template() == Some(f),
            old(self).can_reuse() ==> (f == old(self).template().unwrap() && final(self).members() == old(self).members() + 1),
            !old(self).can_reuse() ==> (matches_draw(f, *win_size, *draw) && final(self).members() == 1),
    {
        if self.current_template.is_some() && self.current_members < FORMATION_MEMBERS_MAX {
            self.reuse()
        } else {
            let f = fresh_formation(win_size, draw);
            self.install(f)
        }
    }
}

impl Default for FormationMaker {
    /// Starts with no template and no members.
    fn default() -> (m: FormationMaker)
        ensures
            m.template() is None,
            m.members() == 0,
            m.wf(),
    {
        FormationMaker { current_template: None, current_members: 0 }
    }
}

} // verus!
