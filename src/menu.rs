use vstd::prelude::*;
use vstd::string::StringExecFns;

use crate::dispatch::{
    action_of, apply, command_id, command_of, lemma_command_id_round_trip, MenuAction, MenuCommand,
    ShellState,
};

verus! {

/// A selectable entry: the identifier that dispatch goes by, and the label
/// shown to the user.
pub struct MenuItem {
    pub id: String,
    pub label: String,
}

/// A named, ordered group of menu items under one top-level heading.
pub struct Submenu {
    pub title: String,
    pub items: Vec<MenuItem>,
}

/// The whole menu bar: its submenus, in order.
pub struct MenuTree {
    pub submenus: Vec<Submenu>,
}

impl View for MenuItem {
    type V = (Seq<char>, Seq<char>);

    open spec fn view(&self) -> (Seq<char>, Seq<char>) {
        (self.id@, self.label@)
    }
}

impl View for Submenu {
    type V = (Seq<char>, Seq<(Seq<char>, Seq<char>)>);

    open spec fn view(&self) -> (Seq<char>, Seq<(Seq<char>, Seq<char>)>) {
        (self.title@, self.items@.map_values(|i: MenuItem| i@))
    }
}

impl View for MenuTree {
    type V = Seq<(Seq<char>, Seq<(Seq<char>, Seq<char>)>)>;

    open spec fn view(&self) -> Seq<(Seq<char>, Seq<(Seq<char>, Seq<char>)>)> {
        self.submenus@.map_values(|s: Submenu| s@)
    }
}

/// The application's menu bar: File, Edit, Window and Help, each with its
/// items as (identifier, label).
pub open spec fn menu_spec() -> Seq<(Seq<char>, Seq<(Seq<char>, Seq<char>)>)> {
    seq![
        ("File"@, seq![("import"@, "Import Files"@), ("quit"@, "Quit"@)]),
        ("Edit"@, seq![
            ("undo"@, "Undo"@),
            ("redo"@, "Redo"@),
            ("cut"@, "Cut"@),
            ("copy"@, "Copy"@),
            ("paste"@, "Paste"@),
        ]),
        ("Window"@, seq![("minimize"@, "Minimize"@), ("zoom"@, "Zoom"@)]),
        ("Help"@, seq![("about"@, "About"@)]),
    ]
}

/// Whether `(i, j)` addresses the `j`-th item of the `i`-th submenu of `t`.
pub open spec fn is_slot(t: Seq<(Seq<char>, Seq<(Seq<char>, Seq<char>)>)>, i: int, j: int) -> bool {
    0 <= i < t.len() && 0 <= j < t[i].1.len()
}

fn item(id: &str, label: &str) -> (r: MenuItem)
    ensures
        r@ == (id@, label@),
{
    MenuItem { id: String::from_str(id), label: String::from_str(label) }
}

fn submenu(title: &str, items: Vec<MenuItem>) -> (r: Submenu)
    ensures
        r.title@ == title@,
        r.items@ == items@,
{
    Submenu { title: String::from_str(title), items }
}

/// Builds the application's menu bar.
pub fn build_menu() -> (r: MenuTree)
    ensures
        r@ == menu_spec(),
{
    let mut file: Vec<MenuItem> = Vec::new();
    file.push(item("import", "Import Files"));
    file.push(item("quit", "Quit"));
    let file = submenu("File", file);
    assert(file@ =~= menu_spec()[0]);

    let mut edit: Vec<MenuItem> = Vec::new();
    edit.push(item("undo", "Undo"));
    edit.push(item("redo", "Redo"));
    edit.push(item("cut", "Cut"));
    edit.push(item("copy", "Copy"));
    edit.push(item("paste", "Paste"));
    let edit = submenu("Edit", edit);
    assert(edit@ =~= menu_spec()[1]);

    let mut window: Vec<MenuItem> = Vec::new();
    window.push(item("minimize", "Minimize"));
    window.push(item("zoom", "Zoom"));
    let window = submenu("Window", window);
    assert(window@ =~= menu_spec()[2]);

    let mut help: Vec<MenuItem> = Vec::new();
    help.push(item("about", "About"));
    let help = submenu("Help", help);
    assert(help@ =~= menu_spec()[3]);

    let mut submenus: Vec<Submenu> = Vec::new();
    submenus.push(file);
    submenus.push(edit);
    submenus.push(window);
    submenus.push(help);
    let r = MenuTree { submenus };
    assert(r@ =~= menu_spec());
    r
}

/// Where a command's item stands in the menu bar: (submenu, item).
pub open spec fn slot_of(c: MenuCommand) -> (int, int) {
    match c {
        MenuCommand::Import => (0, 0),
        MenuCommand::Quit => (0, 1),
        MenuCommand::Undo => (1, 0),
        MenuCommand::Redo => (1, 1),
        MenuCommand::Cut => (1, 2),
        MenuCommand::Copy => (1, 3),
        MenuCommand::Paste => (1, 4),
        MenuCommand::Minimize => (2, 0),
        MenuCommand::Zoom => (2, 1),
        MenuCommand::About => (3, 0),
    }
}

/// Each item of the menu bar carries the identifier of the command found at
/// its place.
proof fn lemma_slots_hold_commands(i: int, j: int)
    requires
        is_slot(menu_spec(), i, j),
    ensures
        command_of(menu_spec()[i].1[j].0) matches Some(c) && slot_of(c) == (i, j)
            && menu_spec()[i].1[j].0 == command_id(c),
{
    let t = menu_spec();
    assert(t.len() == 4);
    assert(t[0].1.len() == 2 && t[1].1.len() == 5 && t[2].1.len() == 2 && t[3].1.len() == 1);
    let c = if i == 0 {
        if j == 0 { MenuCommand::Import } else { MenuCommand::Quit }
    } else if i == 1 {
        if j == 0 {
            MenuCommand::Undo
        } else if j == 1 {
            MenuCommand::Redo
        } else if j == 2 {
            MenuCommand::Cut
        } else if j == 3 {
            MenuCommand::Copy
        } else {
            MenuCommand::Paste
        }
    } else if i == 2 {
        if j == 0 { MenuCommand::Minimize } else { MenuCommand::Zoom }
    } else {
        MenuCommand::About
    };
    assert(t[i].1[j].0 == command_id(c));
    lemma_command_id_round_trip(c, t[i].1[j].0);
}

/// The identifiers in the menu bar are exactly those of the commands, and no
/// two items share one; so an identifier outside the menu selects nothing.
pub proof fn lemma_menu_identifiers(id: Seq<char>)
    ensures
        (exists|i: int, j: int| is_slot(menu_spec(), i, j) && menu_spec()[i].1[j].0 == id)
            <==> command_of(id) is Some,
        forall|i1: int, j1: int, i2: int, j2: int|
            is_slot(menu_spec(), i1, j1) && is_slot(menu_spec(), i2, j2)
                && #[trigger] menu_spec()[i1].1[j1].0 == #[trigger] menu_spec()[i2].1[j2].0
                ==> i1 == i2 && j1 == j2,
{
    let t = menu_spec();
    if let Some(c) = command_of(id) {
        lemma_command_id_round_trip(c, id);
        let (i, j) = slot_of(c);
        assert(is_slot(t, i, j) && t[i].1[j].0 == id) by {
            assert(t[0].1.len() == 2 && t[1].1.len() == 5 && t[2].1.len() == 2);
            assert(t[3].1.len() == 1);
        }
    }
    if exists|i: int, j: int| is_slot(t, i, j) && t[i].1[j].0 == id {
        let (i, j) = choose|i: int, j: int| is_slot(t, i, j) && t[i].1[j].0 == id;
        lemma_slots_hold_commands(i, j);
    }
    assert forall|i1: int, j1: int, i2: int, j2: int|
        is_slot(t, i1, j1) && is_slot(t, i2, j2) && #[trigger] t[i1].1[j1].0
            == #[trigger] t[i2].1[j2].0 implies i1 == i2 && j1 == j2 by {
        lemma_slots_hold_commands(i1, j1);
        lemma_slots_hold_commands(i2, j2);
    }
}

/// Selecting an identifier that no item of the menu bar carries is ignored
/// and leaves the state as it was.
pub proof fn lemma_unlisted_id_is_ignored(s: ShellState, id: Seq<char>)
    requires
        !(exists|i: int, j: int| is_slot(menu_spec(), i, j) && menu_spec()[i].1[j].0 == id),
    ensures
        action_of(id) == MenuAction::Ignore,
        apply(s, action_of(id)) == s,
{
    lemma_menu_identifiers(id);
}

} // verus!
