//! Arena assembly: the one-shot spawn plan for the cell scene.
//!
//! From the configured cell radius this builds the list of sprites the
//! renderer must spawn: the membrane disc behind everything, then the
//! nucleus, the ER/Golgi body and the three mitochondria in front of it,
//! each with its pixel-art texture resolution, world position and drawn
//! diameter. The host engine synthesizes each sprite's texture with the
//! `texture` module and spawns a drawable per entry.

use vstd::prelude::*;
use crate::layout::{compute_layout, layout_matches, nucleus_of, er_golgi_of, mitochondria_of,
    OrganelleType, MAX_CELL_RADIUS_MILLI};
use crate::texture::{TexturePattern, MEMBRANE_TEXTURE_SIZE, NUCLEUS_TEXTURE_SIZE,
    ER_GOLGI_TEXTURE_SIZE, MITOCHONDRIA_TEXTURE_SIZE};

verus! {

/// The render layer of the membrane, behind the organelles.
pub const MEMBRANE_LAYER: u32 = 0;
/// The render layer of every organelle, in front of the membrane.
pub const ORGANELLE_LAYER: u32 = 1;

/// One sprite to spawn: which circle pattern paints it and at what pixel
/// resolution, where its center sits, how wide it is drawn, and on which
/// render layer.
#[derive(Debug, Clone, Copy, PartialEq, Eq, Structural)]
pub struct SpriteSpec {
    pub pattern: TexturePattern,
    pub texture_size: u32,
    pub x_milli: i64,
    pub y_milli: i64,
    pub diameter_milli: i64,
    pub layer: u32,
}

/// The membrane sprite owed for a cell radius: the 128-pixel membrane
/// texture, centered, drawn at the cell's diameter, on the back layer.
pub open spec fn membrane_sprite_of(radius_milli: int) -> SpriteSpec {
    SpriteSpec {
        pattern: TexturePattern::Membrane,
        texture_size: MEMBRANE_TEXTURE_SIZE,
        x_milli: 0,
        y_milli: 0,
        diameter_milli: (2 * radius_milli) as i64,
        layer: MEMBRANE_LAYER,
    }
}

/// The organelle sprites owed for a cell radius, in spawn order: nucleus,
/// ER/Golgi, then the three mitochondria, each centered on its layout
/// placement and drawn at twice its placed radius.
pub open spec fn organelle_sprites_of(radius_milli: int) -> Seq<SpriteSpec> {
    seq![
        SpriteSpec {
            pattern: TexturePattern::Nucleus,
            texture_size: NUCLEUS_TEXTURE_SIZE,
            x_milli: nucleus_of(radius_milli).x_milli,
            y_milli: nucleus_of(radius_milli).y_milli,
            diameter_milli: (2 * nucleus_of(radius_milli).radius_milli) as i64,
            layer: ORGANELLE_LAYER,
        },
        SpriteSpec {
            pattern: TexturePattern::ErGolgi,
            texture_size: ER_GOLGI_TEXTURE_SIZE,
            x_milli: er_golgi_of(radius_milli).x_milli,
            y_milli: er_golgi_of(radius_milli).y_milli,
            diameter_milli: (2 * er_golgi_of(radius_milli).radius_milli) as i64,
            layer: ORGANELLE_LAYER,
        },
        SpriteSpec {
            pattern: TexturePattern::Mitochondria,
            texture_size: MITOCHONDRIA_TEXTURE_SIZE,
            x_milli: mitochondria_of(radius_milli)[0].x_milli,
            y_milli: mitochondria_of(radius_milli)[0].y_milli,
            diameter_milli: (2 * mitochondria_of(radius_milli)[0].radius_milli) as i64,
            layer: ORGANELLE_LAYER,
        },
        SpriteSpec {
            pattern: TexturePattern::Mitochondria,
            texture_size: MITOCHONDRIA_TEXTURE_SIZE,
            x_milli: mitochondria_of(radius_milli)[1].x_milli,
            y_milli: mitochondria_of(radius_milli)[1].y_milli,
            diameter_milli: (2 * mitochondria_of(radius_milli)[1].radius_milli) as i64,
            layer: ORGANELLE_LAYER,
        },
        SpriteSpec {
            pattern: TexturePattern::Mitochondria,
            texture_size: MITOCHONDRIA_TEXTURE_SIZE,
            x_milli: mitochondria_of(radius_milli)[2].x_milli,
            y_milli: mitochondria_of(radius_milli)[2].y_milli,
            diameter_milli: (2 * mitochondria_of(radius_milli)[2].radius_milli) as i64,
            layer: ORGANELLE_LAYER,
        },
    ]
}

/// The spawn plan of the whole arena scene.
pub struct ArenaScene {
    pub membrane: SpriteSpec,
    pub organelles: Vec<SpriteSpec>,
}

/// Build the spawn plan for a cell of the given radius: the membrane
/// centered at the cell's diameter on the back layer, and the five
/// organelle sprites of the computed layout on the front layer.
pub fn build_arena_scene(cell_radius_milli: i64) -> (scene: ArenaScene)
    requires
        -MAX_CELL_RADIUS_MILLI <= cell_radius_milli <= MAX_CELL_RADIUS_MILLI,
    ensures
        scene.membrane == membrane_sprite_of(cell_radius_milli as int),
        scene.organelles@ == organelle_sprites_of(cell_radius_milli as int),
{
    let membrane = SpriteSpec {
        pattern: TexturePattern::Membrane,
        texture_size: MEMBRANE_TEXTURE_SIZE,
        x_milli: 0,
        y_milli: 0,
        diameter_milli: 2 * cell_radius_milli,
        layer: MEMBRANE_LAYER,
    };

    let layout = compute_layout(cell_radius_milli);
    proof {
        crate::fixed::lemma_mul_abs_bound(9, 25, cell_radius_milli as int,
            MAX_CELL_RADIUS_MILLI as int);
        crate::fixed::lemma_scale_div_bounds(9 * cell_radius_milli, 50);
        crate::fixed::lemma_mul_abs_bound(7, 25, cell_radius_milli as int,
            MAX_CELL_RADIUS_MILLI as int);
        crate::fixed::lemma_scale_div_bounds(7 * cell_radius_milli, 50);
        crate::fixed::lemma_mul_abs_bound(6, 25, cell_radius_milli as int,
            MAX_CELL_RADIUS_MILLI as int);
        crate::fixed::lemma_scale_div_bounds(6 * cell_radius_milli, 50);
    }
    let mut organelles: Vec<SpriteSpec> = Vec::new();
    organelles.push(sprite_for(&layout.nucleus, TexturePattern::Nucleus, NUCLEUS_TEXTURE_SIZE));
    organelles.push(sprite_for(&layout.er_golgi, TexturePattern::ErGolgi, ER_GOLGI_TEXTURE_SIZE));
    let m0 = layout.mitochondria[0];
    let m1 = layout.mitochondria[1];
    let m2 = layout.mitochondria[2];
    organelles.push(sprite_for(&m0, TexturePattern::Mitochondria, MITOCHONDRIA_TEXTURE_SIZE));
    organelles.push(sprite_for(&m1, TexturePattern::Mitochondria, MITOCHONDRIA_TEXTURE_SIZE));
    organelles.push(sprite_for(&m2, TexturePattern::Mitochondria, MITOCHONDRIA_TEXTURE_SIZE));
    proof {
        assert(organelles@ =~= organelle_sprites_of(cell_radius_milli as int));
    }
    ArenaScene { membrane, organelles }
}

/// The sprite for one placed organelle: its pattern and resolution at the
/// placement's center, drawn at twice the placed radius, on the front layer.
fn sprite_for(placement: &crate::layout::OrganellePosition, pattern: TexturePattern,
    texture_size: u32) -> (s: SpriteSpec)
    requires
        -0x4000_0000_0000_0000 <= placement.radius_milli <= 0x3fff_ffff_ffff_ffff,
    ensures
        s == (SpriteSpec {
            pattern,
            texture_size,
            x_milli: placement.x_milli,
            y_milli: placement.y_milli,
            diameter_milli: (2 * placement.radius_milli) as i64,
            layer: ORGANELLE_LAYER,
        }),
{
    SpriteSpec {
        pattern,
        texture_size,
        x_milli: placement.x_milli,
        y_milli: placement.y_milli,
        diameter_milli: 2 * placement.radius_milli,
        layer: ORGANELLE_LAYER,
    }
}

} // verus!
