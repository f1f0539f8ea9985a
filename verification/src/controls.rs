//! Decisions behind the tray menu, the safe-paste shortcut and the paste
//! keystrokes.

use vstd::prelude::*;
use vstd::string::*;
use vstd::utf8::*;

verus! {

broadcast use {encode_utf8_decode_utf8};

/// Milliseconds between hiding the overlay and pasting, so that focus has
/// returned to the application pasted into.
pub const PASTE_DELAY_MS: u64 = 150;

/// Whether two strings hold the same characters.
pub fn same_str(a: &str, b: &str) -> (r: bool)
    ensures
        r == (a@ == b@),
{
    let x = a.as_bytes();
    let y = b.as_bytes();
    proof {
        assert(decode_utf8(encode_utf8(a@)) == a@);
        assert(decode_utf8(encode_utf8(b@)) == b@);
    }
    if x.len() != y.len() {
        return false;
    }
    let mut i: usize = 0;
    while i < x.len()
        invariant
            i <= x@.len(),
            x@.len() == y@.len(),
            x@ == encode_utf8(a@),
            y@ == encode_utf8(b@),
            forall|j: int| 0 <= j < i ==> x@[j] == y@[j],
        decreases x@.len() - i,
    {
        if x[i] != y[i] {
            return false;
        }
        i = i + 1;
    }
    assert(x@ =~= y@);
    true
}

/// What a tray menu item asks for.
#[derive(Debug, Clone, Copy, PartialEq, Eq, Structural)]
pub enum MenuCommand {
    /// Show the overlay window, or hide it when it is visible.
    ToggleHud,
    /// Pause or resume monitoring.
    TogglePause,
    /// Turn start at login on or off.
    ToggleAutostart,
    /// Leave the application.
    Quit,
    /// An item this application does not know.
    Ignore,
}

/// The command of the tray item with the given id.
pub open spec fn menu_command_of(id: Seq<char>) -> MenuCommand {
    if id == "toggle_hud"@ {
        MenuCommand::ToggleHud
    } else if id == "pause"@ {
        MenuCommand::TogglePause
    } else if id == "autostart"@ {
        MenuCommand::ToggleAutostart
    } else if id == "quit"@ {
        MenuCommand::Quit
    } else {
        MenuCommand::Ignore
    }
}

/// Maps the id of a clicked tray item to its command.
pub fn menu_command(id: &str) -> (c: MenuCommand)
    ensures
        c == menu_command_of(id@),
{
    if same_str(id, "toggle_hud") {
        MenuCommand::ToggleHud
    } else if same_str(id, "pause") {
        MenuCommand::TogglePause
    } else if same_str(id, "autostart") {
        MenuCommand::ToggleAutostart
    } else if same_str(id, "quit") {
        MenuCommand::Quit
    } else {
        MenuCommand::Ignore
    }
}

/// The command of an item of the smaller tray menu of [`tray`], which has no
/// auto-start item: only its three ids are known.
pub open spec fn tray_command_of(id: Seq<char>) -> MenuCommand {
    if id == "toggle_hud"@ {
        MenuCommand::ToggleHud
    } else if id == "pause"@ {
        MenuCommand::TogglePause
    } else if id == "quit"@ {
        MenuCommand::Quit
    } else {
        MenuCommand::Ignore
    }
}

/// Maps the id of a clicked item of the smaller tray menu to its command.
pub fn tray_command(id: &str) -> (c: MenuCommand)
    ensures
        c == tray_command_of(id@),
        c != MenuCommand::ToggleAutostart,
{
    if same_str(id, "toggle_hud") {
        MenuCommand::ToggleHud
    } else if same_str(id, "pause") {
        MenuCommand::TogglePause
    } else if same_str(id, "quit") {
        MenuCommand::Quit
    } else {
        MenuCommand::Ignore
    }
}

/// An entry of the tray menu.
#[derive(Debug, Clone, Copy)]
pub enum MenuEntry {
    /// A clickable item with its id and title.
    Item { id: &'static str, title: &'static str },
    /// A separator line.
    Separator,
}

/// `e` is the item with the given id and title.
pub open spec fn is_item(e: MenuEntry, id: Seq<char>, title: Seq<char>) -> bool {
    e matches MenuEntry::Item { id: i, title: t } && i@ == id && t@ == title
}

/// The tray menu: toggle HUD, pause, auto-start, a separator, quit.
pub fn tray_menu_entries() -> (r: Vec<MenuEntry>)
    ensures
        r@.len() == 5,
        is_item(r@[0], "toggle_hud"@, "Toggle HUD"@),
        is_item(r@[1], "pause"@, "Pause Monitoring"@),
        is_item(r@[2], "autostart"@, "Toggle Auto-start"@),
        r@[3] is Separator,
        is_item(r@[4], "quit"@, "Quit pip-clip"@),
{
    let mut r: Vec<MenuEntry> = Vec::new();
    r.push(MenuEntry::Item { id: "toggle_hud", title: "Toggle HUD" });
    r.push(MenuEntry::Item { id: "pause", title: "Pause Monitoring" });
    r.push(MenuEntry::Item { id: "autostart", title: "Toggle Auto-start" });
    r.push(MenuEntry::Separator);
    r.push(MenuEntry::Item { id: "quit", title: "Quit pip-clip" });
    r
}

/// The smaller tray menu without auto-start: toggle HUD, pause, quit.
pub fn tray() -> (r: Vec<MenuEntry>)
    ensures
        r@.len() == 3,
        is_item(r@[0], "toggle_hud"@, "Toggle HUD"@),
        is_item(r@[1], "pause"@, "Pause Monitoring"@),
        is_item(r@[2], "quit"@, "Quit"@),
{
    let mut r: Vec<MenuEntry> = Vec::new();
    r.push(MenuEntry::Item { id: "toggle_hud", title: "Toggle HUD" });
    r.push(MenuEntry::Item { id: "pause", title: "Pause Monitoring" });
    r.push(MenuEntry::Item { id: "quit", title: "Quit" });
    r
}

/// Every item of the tray menus reaches a command of its own.
pub proof fn lemma_menu_items_dispatch()
    ensures
        tray_command_of("toggle_hud"@) == MenuCommand::ToggleHud,
        tray_command_of("pause"@) == MenuCommand::TogglePause,
        tray_command_of("quit"@) == MenuCommand::Quit,
        tray_command_of("autostart"@) == MenuCommand::Ignore,
        menu_command_of("toggle_hud"@) == MenuCommand::ToggleHud,
        menu_command_of("pause"@) == MenuCommand::TogglePause,
        menu_command_of("autostart"@) == MenuCommand::ToggleAutostart,
        menu_command_of("quit"@) == MenuCommand::Quit,
{
    reveal_strlit("toggle_hud");
    reveal_strlit("pause");
    reveal_strlit("autostart");
    reveal_strlit("quit");
    assert("pause"@.len() != "toggle_hud"@.len());
    assert("autostart"@.len() != "toggle_hud"@.len());
    assert("autostart"@.len() != "pause"@.len());
    assert("quit"@.len() != "toggle_hud"@.len());
    assert("quit"@.len() != "pause"@.len());
    assert("quit"@.len() != "autostart"@.len());
}

/// Title of the pause item: it offers to resume while monitoring is paused.
pub fn pause_item_title(paused: bool) -> (t: &'static str)
    ensures
        paused ==> t@ == "Resume Monitoring"@,
        !paused ==> t@ == "Pause Monitoring"@,
{
    if paused {
        "Resume Monitoring"
    } else {
        "Pause Monitoring"
    }
}

/// What the "Toggle HUD" item does to the overlay window.
#[derive(Debug, Clone, Copy, PartialEq, Eq, Structural)]
pub enum HudAction {
    /// Hide the window.
    Hide,
    /// Show the window and give it focus.
    ShowAndFocus,
}

/// The HUD action for a window whose visibility is `visible` (`None` when it
/// could not be queried, which counts as visible).
pub open spec fn hud_action_of(visible: Option<bool>) -> HudAction {
    match visible {
        Some(false) => HudAction::ShowAndFocus,
        _ => HudAction::Hide,
    }
}

/// Decides whether "Toggle HUD" hides or shows the overlay.
pub fn hud_toggle(visible: Option<bool>) -> (a: HudAction)
    ensures
        a == hud_action_of(visible),
{
    match visible {
        Some(false) => HudAction::ShowAndFocus,
        _ => HudAction::Hide,
    }
}

/// What the "Toggle Auto-start" item does.
#[derive(Debug, PartialEq, Eq)]
pub enum AutostartAction {
    /// Start at login is on: turn it off.
    Disable,
    /// Start at login is off: turn it on.
    Enable,
    /// Whether it is on could not be found out; report the error.
    Report(String),
}

/// Decides the auto-start action from whether start at login is on.
pub fn autostart_action(enabled: Result<bool, String>) -> (a: AutostartAction)
    ensures
        enabled == Ok::<bool, String>(true) ==> a == AutostartAction::Disable,
        enabled == Ok::<bool, String>(false) ==> a == AutostartAction::Enable,
        enabled matches Err(msg) ==> a == AutostartAction::Report(msg),
{
    match enabled {
        Ok(true) => AutostartAction::Disable,
        Ok(false) => AutostartAction::Enable,
        Err(msg) => AutostartAction::Report(msg),
    }
}

/// A key of the paste chord.
#[derive(Debug, Clone, Copy, PartialEq, Eq, Structural)]
pub enum PasteKey {
    /// The Command key.
    Meta,
    /// The Control key.
    Control,
    /// The letter v.
    V,
}

/// How a key is driven.
#[derive(Debug, Clone, Copy, PartialEq, Eq, Structural)]
pub enum KeyDirection {
    Press,
    Click,
    Release,
}

/// One simulated key event.
#[derive(Debug, Clone, Copy, PartialEq, Eq, Structural)]
pub struct KeyStroke {
    pub key: PasteKey,
    pub direction: KeyDirection,
}

/// The paste modifier: Command on macOS, Control elsewhere.
pub open spec fn paste_modifier(macos: bool) -> PasteKey {
    if macos {
        PasteKey::Meta
    } else {
        PasteKey::Control
    }
}

/// Returns the paste modifier of the platform.
pub fn paste_modifier_key(macos: bool) -> (k: PasteKey)
    ensures
        k == paste_modifier(macos),
{
    if macos {
        PasteKey::Meta
    } else {
        PasteKey::Control
    }
}

/// The key events that paste into the focused application: hold the modifier,
/// click v, release the modifier.
pub open spec fn paste_chord(macos: bool) -> Seq<KeyStroke> {
    seq![
        KeyStroke { key: paste_modifier(macos), direction: KeyDirection::Press },
        KeyStroke { key: PasteKey::V, direction: KeyDirection::Click },
        KeyStroke { key: paste_modifier(macos), direction: KeyDirection::Release },
    ]
}

/// Returns the key events of the paste chord of the platform.
pub fn paste_keystrokes(macos: bool) -> (r: Vec<KeyStroke>)
    ensures
        r@ == paste_chord(macos),
{
    let m = paste_modifier_key(macos);
    let mut r: Vec<KeyStroke> = Vec::new();
    r.push(KeyStroke { key: m, direction: KeyDirection::Press });
    r.push(KeyStroke { key: PasteKey::V, direction: KeyDirection::Click });
    r.push(KeyStroke { key: m, direction: KeyDirection::Release });
    assert(r@ =~= paste_chord(macos));
    r
}

/// The paste chord leaves no key held: the modifier it presses first is the one
/// it releases last, and between them only v is clicked.
pub proof fn lemma_paste_chord_balanced(macos: bool)
    ensures
        paste_chord(macos).len() == 3,
        paste_chord(macos)[0].direction == KeyDirection::Press,
        paste_chord(macos)[2].direction == KeyDirection::Release,
        paste_chord(macos)[0].key == paste_chord(macos)[2].key,
        paste_chord(macos)[0].key != PasteKey::V,
        paste_chord(macos)[1] == (KeyStroke { key: PasteKey::V, direction: KeyDirection::Click }),
{
}

/// The global safe-paste shortcut: the paste modifier, Shift and V.
#[derive(Debug, Clone, Copy, PartialEq, Eq, Structural)]
pub struct Shortcut {
    pub modifier: PasteKey,
    pub shift: bool,
    pub key: PasteKey,
}

/// The safe-paste shortcut of the platform: Cmd+Shift+V on macOS,
/// Ctrl+Shift+V elsewhere.
pub fn safe_paste_shortcut(macos: bool) -> (s: Shortcut)
    ensures
        s == (Shortcut { modifier: paste_modifier(macos), shift: true, key: PasteKey::V }),
{
    Shortcut { modifier: paste_modifier_key(macos), shift: true, key: PasteKey::V }
}

/// The safe-paste shortcut written as an accelerator string.
pub fn safe_paste_accelerator(macos: bool) -> (a: &'static str)
    ensures
        macos ==> a@ == "Command+Shift+V"@,
        !macos ==> a@ == "Ctrl+Shift+V"@,
{
    if macos {
        "Command+Shift+V"
    } else {
        "Ctrl+Shift+V"
    }
}

} // verus!
