use goblin_camp::data::base::{Position, Size};
use goblin_camp::data::random::DefaultGenerator;
use goblin_camp::data::settings::{Display, KeyBindings, Renderer, Settings};
use goblin_camp::data::tile_sets::{TileSetInfo, TileSets};
use goblin_camp::game::game_data::camera::camera_step;
use goblin_camp::game::game_data::{GameData, MapGenerationStage, TerrainWork};
use goblin_camp::game::game_state::game::{ConfirmNewGame, ConfirmOutcome, Game, GameUpdate};
use goblin_camp::game::game_state::keys_dialog::{
    get_non_unique_elements, KeyMapField, KeysDialog, KeysDialogOutcome,
};
use goblin_camp::game::game_state::loading_dialog::LoadingDialog;
use goblin_camp::game::game_state::main_menu::settings_dialog::{
    row_action, switch, RowAction, SettingsDialog, SettingsDialogOutcome,
};
use goblin_camp::game::game_state::main_menu::tile_sets_dialog::{Click, TileSetsDialog, TileSetsDialogOutcome};
use goblin_camp::game::game_state::main_menu::{
    entries, entry_under, ActiveState, MainMenu, MenuAction, RenderData,
};
use goblin_camp::game::game_state::{runs_in_foreground, update_game_state, GameStateChange};
use goblin_camp::game::{Event, Input, Key, KeyCode, KeyEvent, Mouse};

fn settings() -> Settings {
    Settings::new(Display { fullscreen: false, resolution: Size::new(1024, 768) })
}

fn released(code: KeyCode, printable: char) -> Input {
    let mut input = Input::idle(Mouse::default());
    input.release_key_event = KeyEvent { raw: Key { code, printable, pressed: false, shift: false } };
    input.mouse_event.character_position = Position::new(-100, -100);
    input
}

fn click(x: i32, y: i32) -> Input {
    let mut mouse = Mouse::default();
    mouse.cx = x;
    mouse.cy = y;
    mouse.lbutton_pressed = true;
    Input::idle(mouse)
}

#[test]
fn the_stack_of_states_changes_as_asked() {
    let mut stack = vec![1, 2, 3];
    update_game_state(&mut stack, GameStateChange::NoOp);
    assert_eq!(stack, vec![1, 2, 3]);
    update_game_state(&mut stack, GameStateChange::Push(4));
    assert_eq!(stack, vec![1, 2, 3, 4]);
    update_game_state(&mut stack, GameStateChange::Pop);
    assert_eq!(stack, vec![1, 2, 3]);
    update_game_state(&mut stack, GameStateChange::PopPush(9));
    assert_eq!(stack, vec![1, 2, 9]);
    update_game_state(&mut stack, GameStateChange::Replace(7));
    assert_eq!(stack, vec![7]);
    update_game_state(&mut stack, GameStateChange::EndGame);
    assert!(stack.is_empty());
    update_game_state(&mut stack, GameStateChange::Pop);
    assert!(stack.is_empty());
    update_game_state(&mut stack, GameStateChange::PopPush(5));
    assert_eq!(stack, vec![5]);
    assert!(GameStateChange::<i32>::NoOp.is_none());
    assert!(!GameStateChange::Push(1).is_none());
    assert!(!GameStateChange::<i32>::EndGame.is_none());
    assert!(runs_in_foreground(2, 3));
    assert!(!runs_in_foreground(0, 3));
}

#[test]
fn repeated_keys_are_found() {
    assert_eq!(get_non_unique_elements(&vec!['a', 'b', 'a', 'c', 'b', 'a']), vec!['a', 'b', 'a']);
    assert!(get_non_unique_elements(&vec!['a', 'b', 'c']).is_empty());
    assert!(get_non_unique_elements(&vec![]).is_empty());
}

#[test]
fn keys_are_shown_between_brackets() {
    let mut field = KeyMapField::new("Pause", ' ');
    assert_eq!(field.display_value(), "[SPC]");
    assert_eq!(field.display_value.as_deref(), Some("[SPC]"));
    field.update_value('p');
    assert!(field.display_value.is_none());
    assert_eq!(field.display_value(), "[ p ]");
    assert_eq!(field.display_value(), "[ p ]");
}

#[test]
fn keys_dialog_binds_and_marks() {
    let mut settings = settings();
    let mut dialog = KeysDialog::new();
    dialog.activate(&settings, Size::new(80, 50));
    assert_eq!(dialog.fields.len(), 15);
    assert_eq!((dialog.size.width, dialog.size.height), (40, 19));
    assert_eq!(dialog.position, Position::new(20, 16));
    assert_eq!(dialog.fields[3].label, "Exit");
    assert_eq!(dialog.fields[3].value, 'q');

    // A key that prints becomes the key of the command in focus.
    assert_eq!(dialog.update(&released(KeyCode::Char, 'c'), &mut settings), KeysDialogOutcome::Stay);
    assert_eq!(settings.key_bindings.announcements, 'c');
    assert_eq!(dialog.fields[0].value, 'c');
    // Now two commands have the key.
    let marked: Vec<bool> = dialog.fields.iter().map(|f| f.conflict).collect();
    let mut expected = vec![false; 15];
    expected[0] = true;
    expected[1] = true;
    assert_eq!(marked, expected);
    assert_eq!(dialog.update(&released(KeyCode::Enter, '\r'), &mut settings), KeysDialogOutcome::ShowConflicts);
    assert!(dialog.message_box);
    dialog.activate(&settings, Size::new(80, 50));
    assert!(!dialog.message_box);
    assert_eq!(dialog.fields[0].value, 'c');

    // A click on a row puts its command in focus.
    assert_eq!(dialog.update(&click(25, 16 + 3 + 4), &mut settings), KeysDialogOutcome::Stay);
    assert_eq!(dialog.focused_field, 4);
    assert_eq!(dialog.update(&click(25, 16 + 2), &mut settings), KeysDialogOutcome::Stay);
    assert_eq!(dialog.focused_field, 4);
    assert_eq!(dialog.update(&click(19, 16 + 3), &mut settings), KeysDialogOutcome::Stay);
    assert_eq!(dialog.focused_field, 4);
    assert_eq!(dialog.update(&click(59, 16 + 17), &mut settings), KeysDialogOutcome::Stay);
    assert_eq!(dialog.focused_field, 14);
    assert_eq!(dialog.update(&released(KeyCode::Char, '\u{7f}'), &mut settings), KeysDialogOutcome::Stay);
    assert_eq!(settings.key_bindings.workshops, 'w');

    // With the clash gone, Enter saves.
    dialog.focused_field = 0;
    dialog.update(&released(KeyCode::Char, 'a'), &mut settings);
    assert!(dialog.fields.iter().all(|f| !f.conflict));
    assert_eq!(dialog.update(&released(KeyCode::Enter, '\r'), &mut settings), KeysDialogOutcome::Save);

    // Escape brings the keys back as they were.
    dialog.update(&released(KeyCode::Char, 'z'), &mut settings);
    assert_eq!(settings.key_bindings.announcements, 'z');
    assert_eq!(dialog.update(&released(KeyCode::Escape, '\u{1b}'), &mut settings), KeysDialogOutcome::Discard);
    assert_eq!(settings.key_bindings, KeyBindings::default());
}

#[test]
fn settings_dialog_reads_numbers() {
    let mut settings = settings();
    let mut dialog = SettingsDialog::new();
    dialog.activate(&settings);
    assert_eq!(dialog.width_field.value, vec!['1', '0', '2', '4']);
    assert_eq!(dialog.height_field.value, vec!['7', '6', '8']);
    let screen = Size::new(80, 50);
    assert_eq!(SettingsDialog::dialog_position(screen), Position::new(20, 15));

    assert_eq!(dialog.update(&released(KeyCode::Char, '0'), &mut settings, screen), SettingsDialogOutcome::Stay);
    assert_eq!(settings.display.resolution.width, 10240);
    dialog.update(&released(KeyCode::Backspace, '\u{8}'), &mut settings, screen);
    dialog.update(&released(KeyCode::Backspace, '\u{8}'), &mut settings, screen);
    assert_eq!(settings.display.resolution.width, 102);
    dialog.update(&released(KeyCode::Char, 'x'), &mut settings, screen);
    assert_eq!(dialog.width_field.value, vec!['1', '0', '2']);
    for _ in 0..3 {
        dialog.update(&released(KeyCode::Backspace, '\u{8}'), &mut settings, screen);
    }
    assert!(dialog.width_field.invalid);
    assert_eq!(settings.display.resolution.width, 1);
    dialog.update(&released(KeyCode::Backspace, '\u{8}'), &mut settings, screen);
    assert!(dialog.width_field.value.is_empty());
    assert_eq!(
        dialog.update(&released(KeyCode::Enter, '\r'), &mut settings, screen),
        SettingsDialogOutcome::ShowInvalid
    );
    dialog.activate(&settings);
    assert!(dialog.width_field.invalid);

    // A number too large for the window is no number.
    for _ in 0..12 {
        dialog.update(&released(KeyCode::Char, '9'), &mut settings, screen);
    }
    assert!(dialog.width_field.invalid);
    assert_eq!(settings.display.resolution.width, 999_999_999);
    // A field takes no more than 33 digits.
    for _ in 0..40 {
        dialog.update(&released(KeyCode::Char, '1'), &mut settings, screen);
    }
    assert_eq!(dialog.width_field.value.len(), 33);

    // The other field is typed into after a click on it.
    dialog.update(&click(25, 15 + 6), &mut settings, screen);
    assert_eq!(dialog.focused_field, 1);
    dialog.update(&released(KeyCode::Char, '0'), &mut settings, screen);
    assert_eq!(settings.display.resolution.height, 7680);
    dialog.update(&click(25, 15 + 4), &mut settings, screen);
    assert_eq!(dialog.focused_field, 0);

    assert_eq!(
        dialog.update(&released(KeyCode::Escape, '\u{1b}'), &mut settings, screen),
        SettingsDialogOutcome::Discard
    );
    assert_eq!(settings.display.resolution.width, 1024);
    assert_eq!(settings.display.resolution.height, 768);
}

#[test]
fn settings_dialog_turns_switches() {
    assert_eq!(row_action(4), RowAction::FocusWidth);
    assert_eq!(row_action(7), RowAction::FocusHeight);
    assert_eq!(row_action(8), RowAction::Nothing);
    assert_eq!(row_action(9), RowAction::FlipFullscreen);
    assert_eq!(row_action(22), RowAction::PickRenderer(0));
    assert_eq!(row_action(24), RowAction::PickRenderer(2));
    assert_eq!(row_action(26), RowAction::FlipUseTileSet);
    assert_eq!(row_action(-4), RowAction::Nothing);

    let mut settings = settings();
    let mut dialog = SettingsDialog::new();
    dialog.activate(&settings);
    let screen = Size::new(80, 50);
    for (row, read) in [
        (9, (|s: &Settings| s.display.fullscreen) as fn(&Settings) -> bool),
        (11, |s: &Settings| s.tutorial),
        (13, |s: &Settings| s.translucent_ui),
        (15, |s: &Settings| s.compress_saves),
        (17, |s: &Settings| s.auto_save),
        (19, |s: &Settings| s.pause_on_danger),
    ] {
        let before = read(&settings);
        dialog.update(&click(30, 15 + row), &mut settings, screen);
        assert_eq!(read(&settings), !before);
        dialog.update(&click(30, 15 + row + 1), &mut settings, screen);
        assert_eq!(read(&settings), !before);
    }
    // The rows of the renderers and of the tile set lie below the
    // dialog, so a click never reaches them.
    dialog.update(&click(30, 15 + 22), &mut settings, screen);
    assert_eq!(settings.renderer, Renderer::SDL);
    switch(&mut settings, RowAction::PickRenderer(1));
    assert_eq!(settings.renderer, Renderer::OpenGL);
    switch(&mut settings, RowAction::PickRenderer(5));
    assert_eq!(settings.renderer, Renderer::OpenGL);
    switch(&mut settings, RowAction::FlipUseTileSet);
    assert!(settings.use_tile_set);
    assert_eq!(dialog.update(&released(KeyCode::Enter, '\r'), &mut settings, screen), SettingsDialogOutcome::Save);
}

#[test]
fn loading_dialog_spins_until_done() {
    let mut dialog = LoadingDialog::default();
    dialog.activate(80, 50);
    assert_eq!(dialog.text_position(), (40, 25));
    assert!(!dialog.update(&vec![]));
    assert!(!dialog.update(&vec!["Loading".to_string()]));
    assert_eq!(dialog.current_spinner, 2);
    assert_eq!(dialog.frame(), 2);
    assert!(dialog.update(&vec!["Other".to_string(), "DoneLoading".to_string()]));
    assert_eq!(dialog.frame(), 3);
    dialog.update(&vec![]);
    assert_eq!(dialog.frame(), 0);
    assert_eq!(LoadingDialog::frame_text(0), "\\ Loading...");
    assert_eq!(LoadingDialog::frame_text(1), "| Loading...");
    assert_eq!(LoadingDialog::frame_text(2), "/ Loading...");
    assert_eq!(LoadingDialog::frame_text(3), "- Loading...");
    dialog.current_spinner = usize::MAX;
    dialog.update(&vec![]);
    assert_eq!(dialog.current_spinner, 0);
}

#[test]
fn main_menu_chooses_by_key_and_mouse() {
    let all = entries();
    assert_eq!(all.len(), 9);
    assert_eq!(all[0].label, "New Game");
    assert_eq!(all[8].label, "Exit");
    assert_eq!(all[8].shortcut, 'q');
    assert!(all[0].is_active(false));
    assert!(!all[1].is_active(false));
    assert!(all[1].is_active(true));
    assert!(!all[2].is_active(true));
    assert_eq!(all[4].active, ActiveState::Never);

    let mut menu = MainMenu::new();
    menu.activate(Size::new(80, 50));
    let mut data = menu.render_data.unwrap();
    assert_eq!((data.height, data.edge_x, data.edge_y), (20, 30, 15));
    let key = |c: char| Some(Event::Key(Key { code: KeyCode::Char, printable: c, pressed: true, shift: false }));
    assert_eq!(MainMenu::handle_input(&mut data, key('n'), false), Some(MenuAction::ConfirmNewGame));
    assert_eq!(MainMenu::handle_input(&mut data, key('q'), false), Some(MenuAction::EndGame));
    assert_eq!(MainMenu::handle_input(&mut data, key('c'), false), None);
    assert_eq!(MainMenu::handle_input(&mut data, key('c'), true), Some(MenuAction::EndGame));
    assert_eq!(MainMenu::handle_input(&mut data, key('o'), true), None);
    assert_eq!(MainMenu::handle_input(&mut data, None, true), None);

    let mouse = |x: i32, y: i32, down: bool| {
        let mut m = Mouse::default();
        m.cx = x;
        m.cy = y;
        m.lbutton = down;
        Some(Event::Mouse(m))
    };
    // The entries stand in every second row from the third row on.
    assert_eq!(entry_under(30, 15, Mouse { cx: 35, cy: 17, ..Mouse::default() }), Some(0));
    assert_eq!(entry_under(30, 15, Mouse { cx: 35, cy: 18, ..Mouse::default() }), None);
    assert_eq!(entry_under(30, 15, Mouse { cx: 35, cy: 33, ..Mouse::default() }), Some(8));
    assert_eq!(entry_under(30, 15, Mouse { cx: 35, cy: 35, ..Mouse::default() }), None);
    assert_eq!(entry_under(30, 15, Mouse { cx: 35, cy: 16, ..Mouse::default() }), None);
    assert_eq!(entry_under(30, 15, Mouse { cx: 30, cy: 17, ..Mouse::default() }), None);
    assert_eq!(entry_under(30, 15, Mouse { cx: 50, cy: 17, ..Mouse::default() }), None);

    assert_eq!(MainMenu::handle_input(&mut data, mouse(35, 17, false), false), None);
    assert_eq!(data.selected, Some(0));
    assert_eq!(MainMenu::handle_input(&mut data, mouse(35, 17, true), false), None);
    assert!(data.l_button_down);
    assert_eq!(MainMenu::handle_input(&mut data, mouse(35, 17, false), false), Some(MenuAction::ConfirmNewGame));
    assert!(!data.l_button_down);
    // An entry that cannot be chosen is not chosen by the mouse either.
    MainMenu::handle_input(&mut data, mouse(35, 19, true), false);
    assert_eq!(MainMenu::handle_input(&mut data, mouse(35, 19, false), false), None);
    assert_eq!(data.selected, Some(1));

    menu.render_data = Some(RenderData { selected: Some(3), l_button_down: true, ..data });
    menu.activate(Size::new(10, 10));
    let again = menu.render_data.unwrap();
    assert_eq!((again.edge_x, again.edge_y), (30, 15));
    assert_eq!(again.selected, None);
    assert!(!again.l_button_down);
}

fn named(dir: &str) -> TileSetInfo {
    TileSetInfo {
        dir: dir.to_string(),
        instance_name: dir.to_string(),
        description: String::new(),
        author: String::new(),
        version: String::new(),
        tile_width: 8,
        tile_height: 8,
    }
}

fn three_sets() -> TileSets {
    let mut sets = TileSets::new();
    for dir in ["/t/plain", "/t/default", "/t/fancy"] {
        sets.load_tile_set_metadata_entry(Some(named(dir)));
    }
    sets
}

#[test]
fn tile_sets_dialog_selects_and_confirms() {
    let mut settings = settings();
    let mut dialog = TileSetsDialog::new();
    dialog.activate(Size::new(90, 40), three_sets(), &settings);
    assert_eq!(dialog.list_width, 30);
    assert_eq!(dialog.selected_tile_set, 1);
    assert_eq!(dialog.sub_h, 3);

    assert_eq!(dialog.click(Position::new(28, 1)), Click::ScrollUp);
    assert_eq!(dialog.click(Position::new(28, 38)), Click::ScrollDown);
    assert_eq!(dialog.click(Position::new(28, 20)), Click::Nothing);
    assert_eq!(dialog.click(Position::new(5, 2)), Click::Line(0));
    assert_eq!(dialog.click(Position::new(5, 4)), Click::Line(2));
    assert_eq!(dialog.click(Position::new(5, 5)), Click::Nothing);
    assert_eq!(dialog.click(Position::new(1, 3)), Click::Nothing);
    assert_eq!(dialog.click(Position::new(46, 34)), Click::Confirm);
    assert_eq!(dialog.click(Position::new(53, 36)), Click::Confirm);
    assert_eq!(dialog.click(Position::new(54, 36)), Click::Nothing);
    assert_eq!(dialog.click(Position::new(66, 35)), Click::Cancel);
    assert_eq!(dialog.click(Position::new(66, 37)), Click::Nothing);

    assert_eq!(dialog.update(&click(5, 4), &mut settings), TileSetsDialogOutcome::Stay);
    assert_eq!(dialog.selected_tile_set, 2);
    assert_eq!(dialog.update(&click(28, 38), &mut settings), TileSetsDialogOutcome::Stay);
    assert_eq!(dialog.scroll, 0);
    assert_eq!(dialog.update(&click(28, 1), &mut settings), TileSetsDialogOutcome::Stay);
    assert_eq!(dialog.scroll, 0);
    assert_eq!(dialog.update(&click(50, 35), &mut settings), TileSetsDialogOutcome::Save);
    assert_eq!(settings.tile_set.as_deref(), Some("fancy"));

    // The next time the chosen tile set is the one selected.
    let mut dialog = TileSetsDialog::new();
    dialog.activate(Size::new(90, 40), three_sets(), &settings);
    assert_eq!(dialog.selected_tile_set, 2);
    dialog.update(&click(5, 2), &mut settings);
    assert_eq!(dialog.selected_tile_set, 0);
    assert_eq!(dialog.update(&click(66, 35), &mut settings), TileSetsDialogOutcome::Discard);
    assert_eq!(settings.tile_set.as_deref(), Some("fancy"));
    let mut dialog = TileSetsDialog::new();
    dialog.activate(Size::new(90, 40), three_sets(), &settings);
    settings.tile_set = Some("changed".to_string());
    assert_eq!(dialog.update(&released(KeyCode::Escape, '\u{1b}'), &mut settings), TileSetsDialogOutcome::Discard);
    assert_eq!(settings.tile_set.as_deref(), Some("fancy"));

    // Without tile sets there is nothing to confirm.
    let mut empty = TileSetsDialog::new();
    empty.activate(Size::new(90, 40), TileSets::new(), &settings);
    assert_eq!(empty.selected_tile_set, 0);
    assert_eq!(empty.update(&click(50, 35), &mut settings), TileSetsDialogOutcome::Stay);
}

#[test]
fn long_lists_scroll() {
    let settings = settings();
    let mut sets = TileSets::new();
    for i in 0..60 {
        sets.load_tile_set_metadata_entry(Some(named(&format!("/t/set{}", i))));
    }
    let mut dialog = TileSetsDialog::new();
    dialog.activate(Size::new(90, 40), sets, &settings);
    assert_eq!(dialog.selected_tile_set, 0);
    let mut changed = settings.duplicate();
    for _ in 0..30 {
        dialog.update(&click(28, 38), &mut changed);
    }
    assert_eq!(dialog.scroll, 23);
    dialog.update(&click(5, 10), &mut changed);
    assert_eq!(dialog.selected_tile_set, 31);
    for _ in 0..40 {
        dialog.update(&click(28, 1), &mut changed);
    }
    assert_eq!(dialog.scroll, 0);
}

#[test]
fn a_new_game_asks_first_while_one_runs() {
    assert_eq!(ConfirmNewGame::update(true), ConfirmOutcome::Ask);
    assert_eq!(ConfirmNewGame::update(false), ConfirmOutcome::Begin);
    assert_eq!(ConfirmNewGame::question().len(), 69);
}

#[test]
fn the_game_makes_its_map_in_the_background() {
    let settings = settings();
    let mut generator = DefaultGenerator::new_with_seed(4);
    let mut data = GameData::with_extent(Size::new(40, 40));
    data.set_height(Position::new(1, 1).x.into_coordinate(), 5);
    data.set_running(true);
    assert!(data.running());
    let mut game = Game::new();
    assert_eq!(game.update(), GameUpdate::ShowLoading);
    assert_eq!(game.camera(), Position::new(110, 75));
    assert!(game.stage().is_none());
    assert!(game.pending_work().is_none());

    assert_eq!(game.background_update(&mut data, &mut generator, &settings), None);
    assert_eq!(game.stage(), Some(MapGenerationStage::HeightMapClear));
    let mut steps = 0;
    while game.stage() != Some(MapGenerationStage::Done) {
        assert_eq!(game.background_update(&mut data, &mut generator, &settings), None);
        steps += 1;
        if steps == 1 {
            assert!(matches!(game.pending_work(), Some(TerrainWork::Clear)));
        }
    }
    assert_eq!(steps, 10);
    assert!(game.first_run());
    assert_eq!(
        game.background_update(&mut data, &mut generator, &settings),
        Some("DoneLoading".to_string())
    );
    assert!(!game.first_run());
    assert_eq!(game.update(), GameUpdate::NoOp);
    assert_eq!(game.background_update(&mut data, &mut generator, &settings), None);
    assert!(game.stage().is_none());
    assert!(data.map().cache_tile(goblin_camp::coordinate::Coordinate::new(0, 0)).walkable);
}

trait IntoCoordinate {
    fn into_coordinate(self) -> goblin_camp::coordinate::Coordinate;
}

impl IntoCoordinate for i32 {
    fn into_coordinate(self) -> goblin_camp::coordinate::Coordinate {
        goblin_camp::coordinate::Coordinate::new(self, self)
    }
}

#[test]
fn arrow_keys_move_the_camera() {
    let key = |code: KeyCode, shift: bool| Key { code, printable: '\0', pressed: true, shift };
    assert_eq!(camera_step(key(KeyCode::Up, false)), (0, -1));
    assert_eq!(camera_step(key(KeyCode::Down, false)), (0, 1));
    assert_eq!(camera_step(key(KeyCode::Left, true)), (-10, 0));
    assert_eq!(camera_step(key(KeyCode::Right, true)), (10, 0));
    assert_eq!(camera_step(key(KeyCode::Enter, true)), (0, 0));
}

#[test]
fn dialogs_start_empty() {
    let keys = KeysDialog::new();
    assert!(keys.fields.is_empty());
    assert_eq!(keys.focused_field, 0);
    assert!(keys.original_settings.is_none());
    assert_eq!(keys.position, Position { x: 0, y: 0 });
    assert_eq!(keys.size, Size { width: 0, height: 0 });
    assert!(!keys.message_box);

    let settings = SettingsDialog::new();
    assert_eq!(settings.width_field.label, "Resolution (width)");
    assert_eq!(settings.height_field.label, "Resolution (height)");
    assert!(settings.width_field.value.is_empty());
    assert!(settings.height_field.value.is_empty());
    assert_eq!(settings.focused_field, 0);

    let tile_sets = TileSetsDialog::new();
    assert!(tile_sets.tile_sets.sets.is_empty());
    assert!(tile_sets.original_tile_set.is_none());
    assert_eq!(tile_sets.selected_tile_set, 0);
    assert_eq!(
        (tile_sets.screen_width, tile_sets.screen_height, tile_sets.list_width, tile_sets.scroll, tile_sets.sub_h),
        (0, 0, 0, 0, 0)
    );
}
