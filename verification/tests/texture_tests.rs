use parasite_protocol::layout::OrganelleType;
use parasite_protocol::texture::{
    create_er_golgi_texture, create_membrane_texture, create_mitochondria_texture,
    create_nucleus_texture, synthesize, RasterImage,
};

fn pixel(img: &RasterImage, x: u32, y: u32) -> (u8, u8, u8, u8) {
    let i = (4 * (y * img.size + x)) as usize;
    (img.data[i], img.data[i + 1], img.data[i + 2], img.data[i + 3])
}

#[test]
fn nucleus_center_pixel_opaque() {
    // distance 0 is inside the circle, never transparent; the center lands
    // in the hash bucket that darkens (chromatin)
    let img = synthesize(OrganelleType::Nucleus, 64);
    assert_eq!(img.size, 64);
    assert_eq!(img.data.len(), 64 * 64 * 4);
    let (r, g, b, a) = pixel(&img, 32, 32);
    assert_eq!(a, 255);
    assert_eq!((r, g, b), (76, 38, 127));
}

#[test]
fn nucleus_corner_pixel_transparent() {
    // the corner lies outside the inscribed circle: alpha 0, RGB black
    let img = synthesize(OrganelleType::Nucleus, 64);
    assert_eq!(pixel(&img, 0, 0), (0, 0, 0, 0));
    assert_eq!(pixel(&img, 63, 0), (0, 0, 0, 0));
    assert_eq!(pixel(&img, 0, 63), (0, 0, 0, 0));
    assert_eq!(pixel(&img, 63, 63), (0, 0, 0, 0));
}

#[test]
fn nucleus_base_and_nucleolus_pixels() {
    let img = create_nucleus_texture(64);
    // hash bucket other than 0/1 inside the circle: base purple
    assert_eq!(pixel(&img, 20, 32), (102, 51, 153, 255));
    // hash bucket 1 within 0.2*size of center: lighter nucleolus
    assert_eq!(pixel(&img, 26, 30), (127, 63, 178, 255));
}

#[test]
fn membrane_center_base_and_edge_border() {
    let img = create_membrane_texture(128);
    // center: base blue
    assert_eq!(pixel(&img, 64, 64), (51, 102, 204, 255));
    // within 2 units of the circle edge: darker border ring
    assert_eq!(pixel(&img, 64, 1), (38, 89, 178, 255));
    // corner: outside
    assert_eq!(pixel(&img, 0, 0), (0, 0, 0, 0));
}

#[test]
fn er_golgi_banding_pixels() {
    let img = create_er_golgi_texture(56);
    // center: fold 0, base gold
    assert_eq!(pixel(&img, 28, 28), (229, 178, 51, 255));
    // a pixel whose fold runs under -0.3: lighter band
    assert_eq!(pixel(&img, 28, 40), (242, 191, 63, 255));
    // a pixel whose fold runs over 0.3: darker band
    assert_eq!(pixel(&img, 30, 34), (204, 153, 38, 255));
}

#[test]
fn mitochondria_scanline_pixels() {
    let img = create_mitochondria_texture(48);
    // a scanline row (y divisible by 3) near the center darkens
    assert_eq!(pixel(&img, 24, 24), (178, 63, 38, 255));
    // the row below is base red
    assert_eq!(pixel(&img, 24, 25), (204, 76, 51, 255));
}

#[test]
fn every_in_circle_pixel_opaque_every_outside_pixel_clear() {
    let img = create_mitochondria_texture(48);
    let size = 48i64;
    for y in 0..48u32 {
        for x in 0..48u32 {
            let ox = 2 * x as i64 - size;
            let oy = 2 * y as i64 - size;
            let inside = ox * ox + oy * oy <= (size - 2) * (size - 2);
            let (r, g, b, a) = pixel(&img, x, y);
            if inside {
                assert_eq!(a, 255);
            } else {
                assert_eq!((r, g, b, a), (0, 0, 0, 0));
            }
        }
    }
}

#[test]
fn smallest_textures_are_painted() {
    // size 1: the single pixel lies outside its negative-radius circle
    let img = create_membrane_texture(1);
    assert_eq!(img.data.len(), 4);
    assert_eq!(pixel(&img, 0, 0), (0, 0, 0, 0));
    // size 2: the pixel at the center has distance 0 and radius 0
    let img = create_membrane_texture(2);
    assert_eq!(pixel(&img, 1, 1), (38, 89, 178, 255));
    assert_eq!(pixel(&img, 0, 0), (0, 0, 0, 0));
}

#[test]
fn synthesis_is_deterministic() {
    let a = synthesize(OrganelleType::ErGolgi, 56);
    let b = synthesize(OrganelleType::ErGolgi, 56);
    assert_eq!(a.size, b.size);
    assert_eq!(a.data, b.data);
}
