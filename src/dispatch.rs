use vstd::prelude::*;
use vstd::string::{StrSliceExecFns, StringExecFns};

verus! {

/// The commands that the native menu offers.
#[derive(Clone, Copy, Debug, PartialEq, Eq, Structural)]
pub enum MenuCommand {
    Import,
    Quit,
    Undo,
    Redo,
    Cut,
    Copy,
    Paste,
    Minimize,
    Zoom,
    About,
}

/// The stable identifier under which a command's menu item is registered.
pub open spec fn command_id(c: MenuCommand) -> Seq<char> {
    match c {
        MenuCommand::Import => "import"@,
        MenuCommand::Quit => "quit"@,
        MenuCommand::Undo => "undo"@,
        MenuCommand::Redo => "redo"@,
        MenuCommand::Cut => "cut"@,
        MenuCommand::Copy => "copy"@,
        MenuCommand::Paste => "paste"@,
        MenuCommand::Minimize => "minimize"@,
        MenuCommand::Zoom => "zoom"@,
        MenuCommand::About => "about"@,
    }
}

/// The command that a menu identifier selects, if any.
pub open spec fn command_of(id: Seq<char>) -> Option<MenuCommand> {
    if id == "import"@ {
        Some(MenuCommand::Import)
    } else if id == "quit"@ {
        Some(MenuCommand::Quit)
    } else if id == "undo"@ {
        Some(MenuCommand::Undo)
    } else if id == "redo"@ {
        Some(MenuCommand::Redo)
    } else if id == "cut"@ {
        Some(MenuCommand::Cut)
    } else if id == "copy"@ {
        Some(MenuCommand::Copy)
    } else if id == "paste"@ {
        Some(MenuCommand::Paste)
    } else if id == "minimize"@ {
        Some(MenuCommand::Minimize)
    } else if id == "zoom"@ {
        Some(MenuCommand::Zoom)
    } else if id == "about"@ {
        Some(MenuCommand::About)
    } else {
        None
    }
}

/// Character-wise equality of two strings.
fn same_text(a: &str, b: &str) -> (r: bool)
    ensures
        r == (a@ == b@),
{
    let n = a.unicode_len();
    if n != b.unicode_len() {
        return false;
    }
    let mut i: usize = 0;
    while i < n
        invariant
            n == a@.len(),
            n == b@.len(),
            i <= n,
            a@.subrange(0, i as int) == b@.subrange(0, i as int),
        decreases n - i,
    {
        if a.get_char(i) != b.get_char(i) {
            assert(a@[i as int] == a@.subrange(0, i + 1)[i as int]);
            assert(b@[i as int] == b@.subrange(0, i + 1)[i as int]);
            return false;
        }
        assert(a@.subrange(0, i + 1) =~= a@.subrange(0, i as int).push(a@[i as int]));
        assert(b@.subrange(0, i + 1) =~= b@.subrange(0, i as int).push(b@[i as int]));
        i = i + 1;
    }
    assert(a@ =~= a@.subrange(0, n as int));
    assert(b@ =~= b@.subrange(0, n as int));
    true
}

/// Looks up the command registered under a menu identifier; `None` for an
/// identifier that no menu item carries.
pub fn parse_menu_id(id: &str) -> (r: Option<MenuCommand>)
    ensures
        r == command_of(id@),
{
    if same_text(id, "import") {
        Some(MenuCommand::Import)
    } else if same_text(id, "quit") {
        Some(MenuCommand::Quit)
    } else if same_text(id, "undo") {
        Some(MenuCommand::Undo)
    } else if same_text(id, "redo") {
        Some(MenuCommand::Redo)
    } else if same_text(id, "cut") {
        Some(MenuCommand::Cut)
    } else if same_text(id, "copy") {
        Some(MenuCommand::Copy)
    } else if same_text(id, "paste") {
        Some(MenuCommand::Paste)
    } else if same_text(id, "minimize") {
        Some(MenuCommand::Minimize)
    } else if same_text(id, "zoom") {
        Some(MenuCommand::Zoom)
    } else if same_text(id, "about") {
        Some(MenuCommand::About)
    } else {
        None
    }
}

/// What the host is asked to do after a menu selection.
#[derive(Clone, Copy, Debug, PartialEq, Eq, Structural)]
pub enum MenuAction {
    /// Emit the command's log notification; nothing else changes.
    Notify(MenuCommand),
    /// Terminate the process with the given status.
    Exit(i32),
    /// Ask the window to become minimized.
    MinimizeWindow,
    /// Ask the window to become maximized.
    MaximizeWindow,
    /// Do nothing: the identifier belongs to no menu item.
    Ignore,
}

/// The state of the window as the shell last requested it.
#[derive(Clone, Copy, Debug, PartialEq, Eq, Structural)]
pub enum WindowState {
    Normal,
    Minimized,
    Maximized,
}

/// What menu events can change: the window's state, and whether the process
/// has been told to exit (and with which status).
#[derive(Clone, Copy, Debug, PartialEq, Eq, Structural)]
pub struct ShellState {
    pub window: WindowState,
    pub exit_status: Option<i32>,
}

/// The action bound to a command.
pub open spec fn action_for(c: MenuCommand) -> MenuAction {
    match c {
        MenuCommand::Quit => MenuAction::Exit(0),
        MenuCommand::Minimize => MenuAction::MinimizeWindow,
        MenuCommand::Zoom => MenuAction::MaximizeWindow,
        _ => MenuAction::Notify(c),
    }
}

/// The action that selecting the menu item `id` calls for.
pub open spec fn action_of(id: Seq<char>) -> MenuAction {
    match command_of(id) {
        Some(c) => action_for(c),
        None => MenuAction::Ignore,
    }
}

/// The state after an action has been carried out.
pub open spec fn apply(s: ShellState, a: MenuAction) -> ShellState {
    match a {
        MenuAction::Exit(code) => ShellState { exit_status: Some(code), ..s },
        MenuAction::MinimizeWindow => ShellState { window: WindowState::Minimized, ..s },
        MenuAction::MaximizeWindow => ShellState { window: WindowState::Maximized, ..s },
        _ => s,
    }
}

/// The line logged for a command that only notifies; `None` for the others.
pub open spec fn log_text(c: MenuCommand) -> Option<Seq<char>> {
    match c {
        MenuCommand::Import => Some("Import function triggered"@),
        MenuCommand::Undo => Some("Undo action triggered"@),
        MenuCommand::Redo => Some("Redo action triggered"@),
        MenuCommand::Cut => Some("Cut action triggered"@),
        MenuCommand::Copy => Some("Copy action triggered"@),
        MenuCommand::Paste => Some("Paste action triggered"@),
        MenuCommand::About => Some("About action triggered"@),
        _ => None,
    }
}

impl ShellState {
    /// A freshly started shell: window in its normal state, no exit requested.
    pub fn new() -> (r: ShellState)
        ensures
            r.window == WindowState::Normal,
            r.exit_status == None::<i32>,
    {
        ShellState { window: WindowState::Normal, exit_status: None }
    }
}

/// The action bound to a command.
pub fn command_action(c: MenuCommand) -> (r: MenuAction)
    ensures
        r == action_for(c),
{
    match c {
        MenuCommand::Quit => MenuAction::Exit(0),
        MenuCommand::Minimize => MenuAction::MinimizeWindow,
        MenuCommand::Zoom => MenuAction::MaximizeWindow,
        _ => MenuAction::Notify(c),
    }
}

/// The action that selecting the menu item `id` calls for; `Ignore` for an
/// identifier that no menu item carries.
pub fn menu_action(id: &str) -> (r: MenuAction)
    ensures
        r == action_of(id@),
{
    match parse_menu_id(id) {
        Some(c) => command_action(c),
        None => MenuAction::Ignore,
    }
}

/// Carries out an action on the shell's state.
pub fn apply_action(s: ShellState, a: MenuAction) -> (r: ShellState)
    ensures
        r == apply(s, a),
{
    match a {
        MenuAction::Exit(code) => ShellState { exit_status: Some(code), ..s },
        MenuAction::MinimizeWindow => ShellState { window: WindowState::Minimized, ..s },
        MenuAction::MaximizeWindow => ShellState { window: WindowState::Maximized, ..s },
        _ => s,
    }
}

/// Handles one menu selection: finds the action bound to `id`, applies it to
/// the state, and returns it so that the host can carry it out.
pub fn handle_menu_event(state: &mut ShellState, id: &str) -> (r: MenuAction)
    ensures
        r == action_of(id@),
        *final(state) == apply(*old(state), r),
{
    let a = menu_action(id);
    *state = apply_action(*state, a);
    a
}

/// The line logged for a command that only notifies; `None` for the others.
pub fn log_message(c: MenuCommand) -> (r: Option<String>)
    ensures
        r matches Some(t) ==> log_text(c) == Some(t@),
        r is None <==> log_text(c) is None,
{
    match c {
        MenuCommand::Import => Some(String::from_str("Import function triggered")),
        MenuCommand::Undo => Some(String::from_str("Undo action triggered")),
        MenuCommand::Redo => Some(String::from_str("Redo action triggered")),
        MenuCommand::Cut => Some(String::from_str("Cut action triggered")),
        MenuCommand::Copy => Some(String::from_str("Copy action triggered")),
        MenuCommand::Paste => Some(String::from_str("Paste action triggered")),
        MenuCommand::About => Some(String::from_str("About action triggered")),
        _ => None,
    }
}

/// Every command is found again under its own identifier, and an identifier
/// that selects a command is that command's identifier: identifiers and
/// commands correspond one to one.
pub proof fn lemma_command_id_round_trip(c: MenuCommand, id: Seq<char>)
    ensures
        command_of(command_id(c)) == Some(c),
        command_of(id) == Some(c) <==> id == command_id(c),
{
    reveal_strlit("import");
    reveal_strlit("quit");
    reveal_strlit("undo");
    reveal_strlit("redo");
    reveal_strlit("cut");
    reveal_strlit("copy");
    reveal_strlit("paste");
    reveal_strlit("minimize");
    reveal_strlit("zoom");
    reveal_strlit("about");
    assert("import"@.len() == 6 && "quit"@.len() == 4 && "undo"@.len() == 4);
    assert("redo"@.len() == 4 && "cut"@.len() == 3 && "copy"@.len() == 4);
    assert("paste"@.len() == 5 && "minimize"@.len() == 8 && "zoom"@.len() == 4);
    assert("about"@.len() == 5);
    assert("quit"@[0] == 'q' && "undo"@[0] == 'u' && "redo"@[0] == 'r');
    assert("copy"@[0] == 'c' && "zoom"@[0] == 'z');
    assert("paste"@[0] == 'p' && "about"@[0] == 'a');
}

/// Selecting an identifier that no menu item carries does nothing: the action
/// is `Ignore` and the state is left as it was.
pub proof fn lemma_unknown_id_is_ignored(s: ShellState, id: Seq<char>)
    requires
        forall|c: MenuCommand| id != command_id(c),
    ensures
        action_of(id) == MenuAction::Ignore,
        apply(s, action_of(id)) == s,
{
    if let Some(c) = command_of(id) {
        lemma_command_id_round_trip(c, id);
        assert(id == command_id(c));
    }
}

/// Selecting `quit` asks the process to exit with success status.
pub proof fn lemma_quit_exits_with_success(s: ShellState)
    ensures
        action_of("quit"@) == MenuAction::Exit(0),
        apply(s, action_of("quit"@)).exit_status == Some(0i32),
        apply(s, action_of("quit"@)).window == s.window,
{
    lemma_command_id_round_trip(MenuCommand::Quit, "quit"@);
}

/// Selecting `minimize` leaves the window minimized, and selecting `zoom`
/// leaves it maximized, whatever the state before.
pub proof fn lemma_window_commands(s: ShellState)
    ensures
        apply(s, action_of("minimize"@)).window == WindowState::Minimized,
        apply(s, action_of("zoom"@)).window == WindowState::Maximized,
        apply(s, action_of("minimize"@)).exit_status == s.exit_status,
        apply(s, action_of("zoom"@)).exit_status == s.exit_status,
{
    lemma_command_id_round_trip(MenuCommand::Minimize, "minimize"@);
    lemma_command_id_round_trip(MenuCommand::Zoom, "zoom"@);
}

/// A command whose action is a notification changes no state, and has a line
/// to log.
pub proof fn lemma_notifications_change_nothing(s: ShellState, c: MenuCommand)
    requires
        action_for(c) is Notify,
    ensures
        apply(s, action_for(c)) == s,
        log_text(c) is Some,
{
}

} // verus!
