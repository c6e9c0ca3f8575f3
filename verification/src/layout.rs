//! Arena layout generator: places the organelles inside the cell membrane.
//!
//! Everything scales uniformly with the configured cell radius relative to a
//! reference radius of 50 units. The nucleus sits at the origin; the ER/Golgi
//! body sits at 45 degrees from the origin; three mitochondria sit at 45, 225
//! and 315 degrees. All scalars are milli-units, and the diagonal components
//! use the fixed-point cos(45 deg) factor from the `fixed` module.

use vstd::prelude::*;
use crate::fixed::{scale_div, mul_div, lemma_scale_div_bounds, lemma_mul_abs_bound,
    DIAG_NUM, DIAG_DEN};
use crate::texture::Rgba;

verus! {

/// The reference cell radius, in whole units: a cell of this radius has
/// scale factor one.
pub const REFERENCE_RADIUS_UNITS: i64 = 50;

/// Largest cell radius magnitude the generator accepts, in milli-units
/// (one million world units): keeps every intermediate product within `i64`.
pub const MAX_CELL_RADIUS_MILLI: i64 = 1000000000;

/// The closed set of organelle kinds.
#[derive(Debug, Clone, Copy, PartialEq, Eq, Structural)]
pub enum OrganelleType {
    Nucleus,
    ErGolgi,
    Mitochondria,
}

/// A drawable organelle: its kind and its circle radius in milli-units.
#[derive(Debug, Clone, Copy, PartialEq, Eq, Structural)]
pub struct Organelle {
    pub organelle_type: OrganelleType,
    pub radius_milli: i64,
}

/// The base color of each organelle kind, as drawn by the vector-circle
/// renderer (the same bases the texture synthesizer starts from).
pub open spec fn organelle_base_color(kind: OrganelleType) -> Rgba {
    match kind {
        OrganelleType::Nucleus => Rgba { r: 102, g: 51, b: 153, a: 255 },
        OrganelleType::ErGolgi => Rgba { r: 229, g: 178, b: 51, a: 255 },
        OrganelleType::Mitochondria => Rgba { r: 204, g: 76, b: 51, a: 255 },
    }
}

impl Organelle {
    /// The organelle's base color: purple for the nucleus, gold for the
    /// ER/Golgi body, red for a mitochondrion.
    pub fn color(&self) -> (c: Rgba)
        ensures
            c == organelle_base_color(self.organelle_type),
    {
        match self.organelle_type {
            OrganelleType::Nucleus => Rgba { r: 102, g: 51, b: 153, a: 255 },
            OrganelleType::ErGolgi => Rgba { r: 229, g: 178, b: 51, a: 255 },
            OrganelleType::Mitochondria => Rgba { r: 204, g: 76, b: 51, a: 255 },
        }
    }
}

/// The configured cell radius, in milli-units.
#[derive(Debug, Clone, Copy, PartialEq, Eq, Structural)]
pub struct CellRadius {
    pub radius_milli: i64,
}

impl Default for CellRadius {
    /// The configured default: 75 world units, which leaves room around the
    /// organelles for gameplay.
    fn default() -> (c: CellRadius)
        ensures
            c.radius_milli == 75000,
    {
        CellRadius { radius_milli: 75000 }
    }
}

/// One placed organelle: its center, radius and kind.
#[derive(Debug, Clone, Copy, PartialEq, Eq, Structural)]
pub struct OrganellePosition {
    pub x_milli: i64,
    pub y_milli: i64,
    pub radius_milli: i64,
    pub organelle_type: OrganelleType,
}

/// A length of `n` whole units scaled by the cell's scale factor
/// (cell radius over the 50-unit reference), in milli-units.
pub open spec fn scaled_milli(n: int, radius_milli: int) -> int {
    scale_div(n * radius_milli, REFERENCE_RADIUS_UNITS as int)
}

/// The axis component of a length `d_milli` laid out at 45 degrees from the
/// origin: `d` times the fixed-point cos(45 deg).
pub open spec fn diag_milli(d_milli: int) -> int {
    scale_div(d_milli * DIAG_NUM, DIAG_DEN as int)
}

/// The nucleus placement: at the origin, radius 9 units scaled.
pub open spec fn nucleus_of(radius_milli: int) -> OrganellePosition {
    OrganellePosition {
        x_milli: 0,
        y_milli: 0,
        radius_milli: scaled_milli(9, radius_milli) as i64,
        organelle_type: OrganelleType::Nucleus,
    }
}

/// The ER/Golgi placement: 15 units scaled out at 45 degrees, radius 7
/// units scaled.
pub open spec fn er_golgi_of(radius_milli: int) -> OrganellePosition {
    OrganellePosition {
        x_milli: diag_milli(scaled_milli(15, radius_milli)) as i64,
        y_milli: diag_milli(scaled_milli(15, radius_milli)) as i64,
        radius_milli: scaled_milli(7, radius_milli) as i64,
        organelle_type: OrganelleType::ErGolgi,
    }
}

/// One mitochondrion placement: 25 units scaled out at 45, 225 or 315
/// degrees (the axis signs `sx`, `sy`), radius 6 units scaled.
pub open spec fn mitochondrion_of(radius_milli: int, sx: int, sy: int) -> OrganellePosition {
    OrganellePosition {
        x_milli: (sx * diag_milli(scaled_milli(25, radius_milli))) as i64,
        y_milli: (sy * diag_milli(scaled_milli(25, radius_milli))) as i64,
        radius_milli: scaled_milli(6, radius_milli) as i64,
        organelle_type: OrganelleType::Mitochondria,
    }
}

/// The three mitochondria, in the fixed angle order 45, 225, 315 degrees.
pub open spec fn mitochondria_of(radius_milli: int) -> Seq<OrganellePosition> {
    seq![
        mitochondrion_of(radius_milli, 1, 1),
        mitochondrion_of(radius_milli, -1, -1),
        mitochondrion_of(radius_milli, 1, -1),
    ]
}

/// The full arena layout: the nucleus, the ER/Golgi body, and the three
/// mitochondria in their fixed order.
pub struct OrganelleLayout {
    pub nucleus: OrganellePosition,
    pub er_golgi: OrganellePosition,
    pub mitochondria: Vec<OrganellePosition>,
}

/// `l` is exactly the layout the generator owes for `radius_milli`.
pub open spec fn layout_matches(l: OrganelleLayout, radius_milli: int) -> bool {
    &&& l.nucleus == nucleus_of(radius_milli)
    &&& l.er_golgi == er_golgi_of(radius_milli)
    &&& l.mitochondria@ == mitochondria_of(radius_milli)
}

/// A length of `n` whole units (up to 25) scaled by the cell's scale factor.
fn scaled_milli_exec(n: i64, radius_milli: i64) -> (r: i64)
    requires
        0 <= n <= 25,
        -MAX_CELL_RADIUS_MILLI <= radius_milli <= MAX_CELL_RADIUS_MILLI,
    ensures
        r == scaled_milli(n as int, radius_milli as int),
        -25 * MAX_CELL_RADIUS_MILLI <= r <= 25 * MAX_CELL_RADIUS_MILLI,
{
    proof {
        lemma_mul_abs_bound(n as int, 25, radius_milli as int, MAX_CELL_RADIUS_MILLI as int);
        lemma_scale_div_bounds(n * radius_milli, REFERENCE_RADIUS_UNITS as int);
    }
    mul_div(n, radius_milli, REFERENCE_RADIUS_UNITS)
}

/// The axis component of a milli-length laid out at 45 degrees.
fn diag_milli_exec(d_milli: i64) -> (r: i64)
    requires
        -25 * MAX_CELL_RADIUS_MILLI <= d_milli <= 25 * MAX_CELL_RADIUS_MILLI,
    ensures
        r == diag_milli(d_milli as int),
        -25 * MAX_CELL_RADIUS_MILLI <= r <= 25 * MAX_CELL_RADIUS_MILLI,
{
    proof {
        lemma_mul_abs_bound(d_milli as int, 25 * MAX_CELL_RADIUS_MILLI as int,
            DIAG_NUM as int, DIAG_NUM as int);
        lemma_scale_div_bounds(d_milli * DIAG_NUM, DIAG_DEN as int);
    }
    mul_div(d_milli, DIAG_NUM, DIAG_DEN)
}

/// Compute the arena layout for a cell of the given radius.
///
/// Pure and total: a zero or negative radius yields degenerate (zero or
/// negative) radii and distances, as the caller asked for; nothing fails.
pub fn compute_layout(cell_radius_milli: i64) -> (l: OrganelleLayout)
    requires
        -MAX_CELL_RADIUS_MILLI <= cell_radius_milli <= MAX_CELL_RADIUS_MILLI,
    ensures
        layout_matches(l, cell_radius_milli as int),
{
    let nucleus = OrganellePosition {
        x_milli: 0,
        y_milli: 0,
        radius_milli: scaled_milli_exec(9, cell_radius_milli),
        organelle_type: OrganelleType::Nucleus,
    };

    let er_offset: i64 = diag_milli_exec(scaled_milli_exec(15, cell_radius_milli));
    let er_golgi = OrganellePosition {
        x_milli: er_offset,
        y_milli: er_offset,
        radius_milli: scaled_milli_exec(7, cell_radius_milli),
        organelle_type: OrganelleType::ErGolgi,
    };

    let mito_offset: i64 = diag_milli_exec(scaled_milli_exec(25, cell_radius_milli));
    let mito_radius: i64 = scaled_milli_exec(6, cell_radius_milli);
    let mut mitochondria: Vec<OrganellePosition> = Vec::new();
    mitochondria.push(OrganellePosition {
        x_milli: mito_offset,
        y_milli: mito_offset,
        radius_milli: mito_radius,
        organelle_type: OrganelleType::Mitochondria,
    });
    mitochondria.push(OrganellePosition {
        x_milli: -mito_offset,
        y_milli: -mito_offset,
        radius_milli: mito_radius,
        organelle_type: OrganelleType::Mitochondria,
    });
    mitochondria.push(OrganellePosition {
        x_milli: mito_offset,
        y_milli: -mito_offset,
        radius_milli: mito_radius,
        organelle_type: OrganelleType::Mitochondria,
    });

    proof {
        assert(mitochondria@ =~= mitochondria_of(cell_radius_milli as int));
    }
    OrganelleLayout { nucleus, er_golgi, mitochondria }
}

/// The layout generator is a pure function of the radius: two layouts built
/// for the same radius agree in every field.
pub proof fn lemma_layout_deterministic(a: OrganelleLayout, b: OrganelleLayout, radius_milli: int)
    requires
        layout_matches(a, radius_milli),
        layout_matches(b, radius_milli),
    ensures
        a.nucleus == b.nucleus,
        a.er_golgi == b.er_golgi,
        a.mitochondria@ == b.mitochondria@,
{
}

/// For every positive radius, every placement the generator produces lies
/// inside the enclosing membrane: the nucleus sits at the origin, and the
/// squared distance of the ER/Golgi body and of each mitochondrion from the
/// origin is at most the squared cell radius.
pub proof fn lemma_layout_inside_membrane(radius_milli: int)
    requires
        0 < radius_milli <= MAX_CELL_RADIUS_MILLI as int,
    ensures
        nucleus_of(radius_milli).x_milli == 0 && nucleus_of(radius_milli).y_milli == 0,
        ({
            let e = er_golgi_of(radius_milli);
            e.x_milli * e.x_milli + e.y_milli * e.y_milli <= radius_milli * radius_milli
        }),
        ({
            let m0 = mitochondria_of(radius_milli)[0];
            let m1 = mitochondria_of(radius_milli)[1];
            let m2 = mitochondria_of(radius_milli)[2];
            &&& m0.x_milli * m0.x_milli + m0.y_milli * m0.y_milli
                <= radius_milli * radius_milli
            &&& m1.x_milli * m1.x_milli + m1.y_milli * m1.y_milli
                <= radius_milli * radius_milli
            &&& m2.x_milli * m2.x_milli + m2.y_milli * m2.y_milli
                <= radius_milli * radius_milli
        }),
{
    let r = radius_milli;

    let d_er = scaled_milli(15, r);
    lemma_mul_abs_bound(15, 25, r, MAX_CELL_RADIUS_MILLI as int);
    lemma_scale_div_bounds(15 * r, 50);
    vstd::arithmetic::div_mod::lemma_fundamental_div_mod(15 * r, 50);
    vstd::arithmetic::div_mod::lemma_mod_bound(15 * r, 50);
    assert(10 * d_er <= 3 * r);
    let k_er = diag_milli(d_er);
    lemma_mul_abs_bound(d_er, 25 * MAX_CELL_RADIUS_MILLI as int, DIAG_NUM as int,
        DIAG_NUM as int);
    lemma_scale_div_bounds(d_er * DIAG_NUM, DIAG_DEN as int);
    vstd::arithmetic::div_mod::lemma_fundamental_div_mod(d_er * DIAG_NUM, DIAG_DEN as int);
    vstd::arithmetic::div_mod::lemma_mod_bound(d_er * DIAG_NUM, DIAG_DEN as int);
    assert(1000000 * k_er <= 707107 * d_er);
    assert(10000000 * k_er <= 2121321 * r);
    assert(2 * (k_er * k_er) <= r * r) by (nonlinear_arith)
        requires
            0 <= k_er,
            10000000 * k_er <= 2121321 * r,
            0 < r;

    let d_m = scaled_milli(25, r);
    lemma_mul_abs_bound(25, 25, r, MAX_CELL_RADIUS_MILLI as int);
    lemma_scale_div_bounds(25 * r, 50);
    vstd::arithmetic::div_mod::lemma_fundamental_div_mod(25 * r, 50);
    vstd::arithmetic::div_mod::lemma_mod_bound(25 * r, 50);
    assert(2 * d_m <= r);
    let k_m = diag_milli(d_m);
    lemma_mul_abs_bound(d_m, 25 * MAX_CELL_RADIUS_MILLI as int, DIAG_NUM as int,
        DIAG_NUM as int);
    lemma_scale_div_bounds(d_m * DIAG_NUM, DIAG_DEN as int);
    vstd::arithmetic::div_mod::lemma_fundamental_div_mod(d_m * DIAG_NUM, DIAG_DEN as int);
    vstd::arithmetic::div_mod::lemma_mod_bound(d_m * DIAG_NUM, DIAG_DEN as int);
    assert(1000000 * k_m <= 707107 * d_m);
    assert(2000000 * k_m <= 707107 * r);
    assert(2 * (k_m * k_m) <= r * r) by (nonlinear_arith)
        requires
            0 <= k_m,
            2000000 * k_m <= 707107 * r,
            0 < r;
    assert((-k_m) * (-k_m) == k_m * k_m) by (nonlinear_arith);
}

/// For every positive radius: the nucleus sits at the origin with radius 9
/// units scaled; the three mitochondria all lie the same distance from the
/// origin (25 units scaled, along the diagonals) with equal radii of 6 units
/// scaled, at the fixed angles 45, 225 and 315 degrees.
pub proof fn lemma_layout_shape(radius_milli: int)
    requires
        0 < radius_milli <= MAX_CELL_RADIUS_MILLI as int,
    ensures
        nucleus_of(radius_milli).x_milli == 0,
        nucleus_of(radius_milli).y_milli == 0,
        nucleus_of(radius_milli).radius_milli == scale_div(9 * radius_milli, 50),
        mitochondria_of(radius_milli).len() == 3,
        ({
            let m0 = mitochondria_of(radius_milli)[0];
            let m1 = mitochondria_of(radius_milli)[1];
            let m2 = mitochondria_of(radius_milli)[2];
            &&& m0.x_milli * m0.x_milli + m0.y_milli * m0.y_milli
                == m1.x_milli * m1.x_milli + m1.y_milli * m1.y_milli
            &&& m1.x_milli * m1.x_milli + m1.y_milli * m1.y_milli
                == m2.x_milli * m2.x_milli + m2.y_milli * m2.y_milli
            &&& m0.radius_milli == scale_div(6 * radius_milli, 50)
            &&& m1.radius_milli == scale_div(6 * radius_milli, 50)
            &&& m2.radius_milli == scale_div(6 * radius_milli, 50)
        }),
{
    let m0 = mitochondria_of(radius_milli)[0];
    let m1 = mitochondria_of(radius_milli)[1];
    let m2 = mitochondria_of(radius_milli)[2];
    let k = diag_milli(scaled_milli(25, radius_milli));
    assert(-25 * MAX_CELL_RADIUS_MILLI <= scaled_milli(25, radius_milli)
        <= 25 * MAX_CELL_RADIUS_MILLI) by {
        lemma_mul_abs_bound(25, 25, radius_milli, MAX_CELL_RADIUS_MILLI as int);
        lemma_scale_div_bounds(25 * radius_milli, 50);
    }
    assert(-25 * MAX_CELL_RADIUS_MILLI <= k <= 25 * MAX_CELL_RADIUS_MILLI) by {
        lemma_mul_abs_bound(scaled_milli(25, radius_milli), 25 * MAX_CELL_RADIUS_MILLI as int,
            DIAG_NUM as int, DIAG_NUM as int);
        lemma_scale_div_bounds(scaled_milli(25, radius_milli) * DIAG_NUM, DIAG_DEN as int);
    }
    assert(0 <= scaled_milli(9, radius_milli) <= 25 * MAX_CELL_RADIUS_MILLI) by {
        lemma_mul_abs_bound(9, 25, radius_milli, MAX_CELL_RADIUS_MILLI as int);
        lemma_scale_div_bounds(9 * radius_milli, 50);
    }
    assert(0 <= scaled_milli(6, radius_milli) <= 25 * MAX_CELL_RADIUS_MILLI) by {
        lemma_mul_abs_bound(6, 25, radius_milli, MAX_CELL_RADIUS_MILLI as int);
        lemma_scale_div_bounds(6 * radius_milli, 50);
    }
    assert(m0.x_milli == k && m0.y_milli == k);
    assert(m1.x_milli == -k && m1.y_milli == -k);
    assert(m2.x_milli == k && m2.y_milli == -k);
    assert((-k) * (-k) == k * k) by (nonlinear_arith);
}

} // verus!
