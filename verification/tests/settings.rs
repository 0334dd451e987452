use goblin_camp::data::base::Size;
use goblin_camp::data::settings::{
    get_sensible_default_resolution, heights, widths, Display, KeyBindings, Renderer, Settings,
};

#[test]
fn renderers_in_order() {
    assert_eq!(Renderer::all(), vec![Renderer::GlSl, Renderer::OpenGL, Renderer::SDL]);
    assert_eq!(Renderer::GlSl.label(), "GLSL");
    assert_eq!(Renderer::OpenGL.label(), "OpenGL");
    assert_eq!(Renderer::SDL.label(), "SDL");
    assert_eq!(Renderer::from_index(0), Some(Renderer::GlSl));
    assert_eq!(Renderer::from_index(1), Some(Renderer::OpenGL));
    assert_eq!(Renderer::from_index(2), Some(Renderer::SDL));
    assert_eq!(Renderer::from_index(3), None);
    assert_eq!(Renderer::default(), Renderer::SDL);
}

#[test]
fn resolution_fits_the_screen() {
    assert_eq!(widths()[0], 800);
    assert_eq!(heights()[6], 1600);
    let r = get_sensible_default_resolution(1920, 1080);
    assert_eq!((r.width, r.height), (1600, 900));
    let r = get_sensible_default_resolution(1000, 700);
    assert_eq!((r.width, r.height), (800, 600));
    let r = get_sensible_default_resolution(100, 100);
    assert_eq!((r.width, r.height), (800, 600));
    let r = get_sensible_default_resolution(9000, 9000);
    assert_eq!((r.width, r.height), (2560, 1600));
    let d = Display::for_screen(1366, 768);
    assert!(!d.fullscreen);
    assert_eq!((d.resolution.width, d.resolution.height), (1280, 600));
}

#[test]
fn new_settings_have_the_defaults() {
    let s = Settings::new(Display { fullscreen: false, resolution: Size::new(1024, 768) });
    assert_eq!(s.river_width, 30);
    assert_eq!(s.river_depth, 5);
    assert!(s.auto_save);
    assert!(!s.tutorial);
    assert_eq!(s.renderer, Renderer::SDL);
    assert_eq!(s.tile_set, None);
    assert_eq!(s.key_bindings, KeyBindings::default());
    assert_eq!(s.display.resolution.width, 1024);
}

#[test]
fn switches_follow_the_settings() {
    let mut s = Settings::new(Display { fullscreen: true, resolution: Size::new(800, 600) });
    s.compress_saves = true;
    let shown = s.text_and_values();
    assert_eq!(
        shown,
        vec![
            ("Fullscreen mode", true),
            ("Tutorial", false),
            ("Translucent UI", false),
            ("Compress saves", true),
            ("Auto save", true),
            ("Pause on danger", false),
        ]
    );
    let other = Settings::new(Display { fullscreen: false, resolution: Size::new(1280, 900) });
    s.restore_from(other);
    assert!(!s.display.fullscreen);
    assert!(!s.compress_saves);
    assert_eq!(s.display.resolution.width, 1280);
}

#[test]
fn key_map_lists_and_updates() {
    let mut keys = KeyBindings::default();
    let map = keys.key_map();
    assert_eq!(map.len(), 15);
    assert_eq!(map[0], ("Announcements", 'a'));
    assert_eq!(map[3], ("Exit", 'q'));
    assert_eq!(map[9], ("Pause", ' '));
    assert_eq!(map[11], ("Developer Console", '`'));
    assert_eq!(map[14], ("Workshops", 'w'));
    for i in 0..15 {
        let mut changed = keys;
        changed.update_key_map(i, '#');
        let after = changed.key_map();
        for j in 0..15 {
            if i == j {
                assert_eq!(after[j].1, '#');
            } else {
                assert_eq!(after[j].1, map[j].1);
            }
            assert_eq!(after[j].0, map[j].0);
        }
    }
    keys.update_key_map(3, 'x');
    assert_eq!(keys.exit, 'x');
}

#[test]
fn commands_and_switches_have_their_names() {
    let mut keys = KeyBindings::default();
    let names: Vec<&str> = keys.key_map().iter().map(|entry| entry.0).collect();
    assert_eq!(
        names,
        vec![
            "Announcements",
            "Center",
            "Stock Manager",
            "Exit",
            "Permanent",
            "Furniture",
            "Orders",
            "Help",
            "Basics",
            "Pause",
            "Terrain Overlay",
            "Developer Console",
            "Jobs",
            "Squads",
            "Workshops",
        ]
    );
    let typed: String = keys.key_map().iter().map(|entry| entry.1).collect();
    assert_eq!(typed, "acsqpfohb t`jmw");
    keys.update_key_map(9, 'x');
    assert_eq!(keys.key_map()[9], ("Pause", 'x'));
    let renamed: Vec<&str> = keys.key_map().iter().map(|entry| entry.0).collect();
    assert_eq!(renamed, names);

    let mut settings = Settings::new(Display { fullscreen: true, resolution: Size::new(800, 600) });
    settings.auto_save = true;
    settings.tutorial = false;
    settings.translucent_ui = true;
    settings.compress_saves = false;
    settings.pause_on_danger = true;
    assert_eq!(
        settings.text_and_values(),
        vec![
            ("Fullscreen mode", true),
            ("Tutorial", false),
            ("Translucent UI", true),
            ("Compress saves", false),
            ("Auto save", true),
            ("Pause on danger", true),
        ]
    );
}
