use parasite_protocol::layout::{compute_layout, CellRadius, Organelle, OrganelleType};

#[test]
fn layout_at_75_nucleus_at_origin_scaled() {
    let l = compute_layout(75_000);
    assert_eq!(l.nucleus.x_milli, 0);
    assert_eq!(l.nucleus.y_milli, 0);
    // 9 * 75/50 = 13.5 units
    assert_eq!(l.nucleus.radius_milli, 13_500);
    assert_eq!(l.nucleus.organelle_type, OrganelleType::Nucleus);
}

#[test]
fn layout_at_75_mitochondria_radius_nine() {
    // 6 * 1.5 = 9.0 units, for each of the three entries
    let l = compute_layout(75_000);
    assert_eq!(l.mitochondria.len(), 3);
    for m in &l.mitochondria {
        assert_eq!(m.radius_milli, 9_000);
        assert_eq!(m.organelle_type, OrganelleType::Mitochondria);
    }
}

#[test]
fn layout_at_50_nucleus_radius_exactly_nine() {
    // scale factor 1: nucleus radius 9.0 exactly
    let l = compute_layout(50_000);
    assert_eq!(l.nucleus.radius_milli, 9_000);
}

#[test]
fn layout_at_75_er_golgi_placement() {
    let l = compute_layout(75_000);
    // 15 * 1.5 = 22.5 units out at 45 degrees: 22.5 * 0.707107 = 15.909...
    assert_eq!(l.er_golgi.x_milli, 15_909);
    assert_eq!(l.er_golgi.y_milli, 15_909);
    assert_eq!(l.er_golgi.radius_milli, 10_500);
    assert_eq!(l.er_golgi.organelle_type, OrganelleType::ErGolgi);
}

#[test]
fn layout_at_75_mitochondria_angles() {
    let l = compute_layout(75_000);
    // 25 * 1.5 = 37.5 units out: 37.5 * 0.707107 = 26.516... per axis,
    // at 45, 225 and 315 degrees
    let k = 26_516;
    assert_eq!((l.mitochondria[0].x_milli, l.mitochondria[0].y_milli), (k, k));
    assert_eq!((l.mitochondria[1].x_milli, l.mitochondria[1].y_milli), (-k, -k));
    assert_eq!((l.mitochondria[2].x_milli, l.mitochondria[2].y_milli), (k, -k));
}

#[test]
fn layout_mitochondria_equidistant_from_origin() {
    let l = compute_layout(75_000);
    let d: Vec<i64> = l
        .mitochondria
        .iter()
        .map(|m| m.x_milli * m.x_milli + m.y_milli * m.y_milli)
        .collect();
    assert_eq!(d[0], d[1]);
    assert_eq!(d[1], d[2]);
}

#[test]
fn layout_placements_inside_membrane() {
    let r: i64 = 75_000;
    let l = compute_layout(r);
    let mut placements = vec![l.nucleus, l.er_golgi];
    placements.extend(l.mitochondria.iter().copied());
    for p in &placements {
        assert!(p.x_milli * p.x_milli + p.y_milli * p.y_milli <= r * r);
    }
}

#[test]
fn layout_is_idempotent() {
    // two calls with the same radius give bit-identical placements
    let a = compute_layout(75_000);
    let b = compute_layout(75_000);
    assert_eq!(a.nucleus, b.nucleus);
    assert_eq!(a.er_golgi, b.er_golgi);
    assert_eq!(a.mitochondria, b.mitochondria);
}

#[test]
fn layout_degenerate_at_zero_radius() {
    // a non-positive radius degenerates but does not fail
    let l = compute_layout(0);
    assert_eq!(l.nucleus.radius_milli, 0);
    assert_eq!(l.er_golgi.x_milli, 0);
    assert_eq!(l.mitochondria[0].radius_milli, 0);
}

#[test]
fn cell_radius_default_is_75() {
    let c = CellRadius::default();
    assert_eq!(c.radius_milli, 75_000);
}

#[test]
fn organelle_base_colors() {
    let nucleus = Organelle { organelle_type: OrganelleType::Nucleus, radius_milli: 9_000 };
    let c = nucleus.color();
    assert_eq!((c.r, c.g, c.b, c.a), (102, 51, 153, 255));
    let er = Organelle { organelle_type: OrganelleType::ErGolgi, radius_milli: 10_500 };
    let c = er.color();
    assert_eq!((c.r, c.g, c.b, c.a), (229, 178, 51, 255));
    let mito = Organelle { organelle_type: OrganelleType::Mitochondria, radius_milli: 9_000 };
    let c = mito.color();
    assert_eq!((c.r, c.g, c.b, c.a), (204, 76, 51, 255));
}
