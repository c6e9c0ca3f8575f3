use parasite_protocol::app_state::{initial_states, AppState, RunState};
use parasite_protocol::arena::build_arena_scene;
use parasite_protocol::texture::TexturePattern;

#[test]
fn scene_membrane_behind_at_cell_diameter() {
    let scene = build_arena_scene(75_000);
    let m = scene.membrane;
    assert_eq!(m.pattern, TexturePattern::Membrane);
    assert_eq!(m.texture_size, 128);
    assert_eq!((m.x_milli, m.y_milli), (0, 0));
    assert_eq!(m.diameter_milli, 150_000);
    assert_eq!(m.layer, 0);
}

#[test]
fn scene_spawns_five_organelles_in_front() {
    let scene = build_arena_scene(75_000);
    assert_eq!(scene.organelles.len(), 5);
    for o in &scene.organelles {
        assert_eq!(o.layer, 1);
    }

    let nucleus = scene.organelles[0];
    assert_eq!(nucleus.pattern, TexturePattern::Nucleus);
    assert_eq!(nucleus.texture_size, 64);
    assert_eq!((nucleus.x_milli, nucleus.y_milli), (0, 0));
    assert_eq!(nucleus.diameter_milli, 27_000);

    let er = scene.organelles[1];
    assert_eq!(er.pattern, TexturePattern::ErGolgi);
    assert_eq!(er.texture_size, 56);
    assert_eq!((er.x_milli, er.y_milli), (15_909, 15_909));
    assert_eq!(er.diameter_milli, 21_000);

    let k = 26_516;
    let expected = [(k, k), (-k, -k), (k, -k)];
    for (i, want) in expected.iter().enumerate() {
        let m = scene.organelles[2 + i];
        assert_eq!(m.pattern, TexturePattern::Mitochondria);
        assert_eq!(m.texture_size, 48);
        assert_eq!((m.x_milli, m.y_milli), *want);
        assert_eq!(m.diameter_milli, 18_000);
    }
}

#[test]
fn app_starts_at_menu_then_switches_into_run() {
    assert_eq!(AppState::default(), AppState::MainMenu);
    assert_eq!(RunState::default(), RunState::Planning);
    let (app, run) = initial_states();
    assert_eq!(app, AppState::InRun);
    assert_eq!(run, RunState::Planning);
}
