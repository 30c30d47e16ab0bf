use labelling_shell::command::load_video_path;
use labelling_shell::dispatch::{
    apply_action, command_action, handle_menu_event, log_message, menu_action, parse_menu_id,
    MenuAction, MenuCommand, ShellState, WindowState,
};
use labelling_shell::menu::build_menu;

const ALL: [(&str, MenuCommand); 10] = [
    ("import", MenuCommand::Import),
    ("quit", MenuCommand::Quit),
    ("undo", MenuCommand::Undo),
    ("redo", MenuCommand::Redo),
    ("cut", MenuCommand::Cut),
    ("copy", MenuCommand::Copy),
    ("paste", MenuCommand::Paste),
    ("minimize", MenuCommand::Minimize),
    ("zoom", MenuCommand::Zoom),
    ("about", MenuCommand::About),
];

#[test]
fn load_video_path_returns_the_path() {
    assert_eq!(load_video_path("/tmp/video.mp4".to_string()), "/tmp/video.mp4");
}

#[test]
fn load_video_path_is_identity_on_odd_strings() {
    for s in ["", "a\0b", "vidéo/日本語.mkv", "C:\\clips\\x.avi", "  "] {
        assert_eq!(load_video_path(s.to_string()), s);
    }
}

#[test]
fn every_identifier_parses_to_its_command() {
    for (id, c) in ALL {
        assert_eq!(parse_menu_id(id), Some(c));
    }
}

#[test]
fn near_miss_identifiers_parse_to_nothing() {
    for id in ["", "bogus", "Import", "quit ", "imports", "cu", "Zoom", "about\0"] {
        assert_eq!(parse_menu_id(id), None);
    }
}

#[test]
fn menu_tree_has_the_four_submenus() {
    let t = build_menu();
    let titles: Vec<&str> = t.submenus.iter().map(|s| s.title.as_str()).collect();
    assert_eq!(titles, vec!["File", "Edit", "Window", "Help"]);
    let items: Vec<Vec<(&str, &str)>> = t
        .submenus
        .iter()
        .map(|s| s.items.iter().map(|i| (i.id.as_str(), i.label.as_str())).collect())
        .collect();
    assert_eq!(
        items,
        vec![
            vec![("import", "Import Files"), ("quit", "Quit")],
            vec![("undo", "Undo"), ("redo", "Redo"), ("cut", "Cut"), ("copy", "Copy"), ("paste", "Paste")],
            vec![("minimize", "Minimize"), ("zoom", "Zoom")],
            vec![("about", "About")],
        ]
    );
}

#[test]
fn menu_identifiers_are_exactly_the_commands() {
    let t = build_menu();
    let mut ids: Vec<String> = Vec::new();
    for s in &t.submenus {
        for i in &s.items {
            assert!(parse_menu_id(&i.id).is_some());
            assert!(!ids.contains(&i.id));
            ids.push(i.id.clone());
        }
    }
    let mut expected: Vec<String> = ALL.iter().map(|(id, _)| id.to_string()).collect();
    ids.sort();
    expected.sort();
    assert_eq!(ids, expected);
}

#[test]
fn import_notifies_once_and_changes_nothing() {
    let mut s = ShellState::new();
    let before = s;
    let a = handle_menu_event(&mut s, "import");
    assert_eq!(a, MenuAction::Notify(MenuCommand::Import));
    assert_eq!(s, before);
    assert_eq!(log_message(MenuCommand::Import), Some("Import function triggered".to_string()));
}

#[test]
fn bogus_identifier_has_no_effect() {
    let mut s = ShellState::new();
    let before = s;
    assert_eq!(handle_menu_event(&mut s, "bogus"), MenuAction::Ignore);
    assert_eq!(s, before);
}

#[test]
fn quit_exits_with_success() {
    let mut s = ShellState::new();
    assert_eq!(handle_menu_event(&mut s, "quit"), MenuAction::Exit(0));
    assert_eq!(s.exit_status, Some(0));
    assert_eq!(s.window, WindowState::Normal);
}

#[test]
fn minimize_then_zoom_sets_window_state() {
    let mut s = ShellState::new();
    assert_eq!(handle_menu_event(&mut s, "minimize"), MenuAction::MinimizeWindow);
    assert_eq!(s.window, WindowState::Minimized);
    assert_eq!(handle_menu_event(&mut s, "zoom"), MenuAction::MaximizeWindow);
    assert_eq!(s.window, WindowState::Maximized);
    assert_eq!(s.exit_status, None);
}

#[test]
fn edit_commands_only_notify() {
    for id in ["undo", "redo", "cut", "copy", "paste", "about"] {
        let mut s = ShellState::new();
        let before = s;
        let a = handle_menu_event(&mut s, id);
        assert!(matches!(a, MenuAction::Notify(_)));
        assert_eq!(s, before);
    }
}

#[test]
fn log_messages_of_each_command() {
    let expected = [
        (MenuCommand::Import, Some("Import function triggered")),
        (MenuCommand::Quit, None),
        (MenuCommand::Undo, Some("Undo action triggered")),
        (MenuCommand::Redo, Some("Redo action triggered")),
        (MenuCommand::Cut, Some("Cut action triggered")),
        (MenuCommand::Copy, Some("Copy action triggered")),
        (MenuCommand::Paste, Some("Paste action triggered")),
        (MenuCommand::Minimize, None),
        (MenuCommand::Zoom, None),
        (MenuCommand::About, Some("About action triggered")),
    ];
    for (c, m) in expected {
        assert_eq!(log_message(c), m.map(|t| t.to_string()));
    }
}

#[test]
fn actions_of_commands() {
    assert_eq!(command_action(MenuCommand::Quit), MenuAction::Exit(0));
    assert_eq!(command_action(MenuCommand::Minimize), MenuAction::MinimizeWindow);
    assert_eq!(command_action(MenuCommand::Zoom), MenuAction::MaximizeWindow);
    assert_eq!(command_action(MenuCommand::Paste), MenuAction::Notify(MenuCommand::Paste));
    assert_eq!(menu_action("zoom"), MenuAction::MaximizeWindow);
    assert_eq!(menu_action("ZOOM"), MenuAction::Ignore);
}

#[test]
fn apply_action_changes_only_its_field() {
    let s = ShellState { window: WindowState::Maximized, exit_status: None };
    let q = apply_action(s, MenuAction::Exit(3));
    assert_eq!(q, ShellState { window: WindowState::Maximized, exit_status: Some(3) });
    assert_eq!(apply_action(q, MenuAction::MinimizeWindow).window, WindowState::Minimized);
    assert_eq!(apply_action(q, MenuAction::Ignore), q);
    assert_eq!(apply_action(q, MenuAction::Notify(MenuCommand::Cut)), q);
}
