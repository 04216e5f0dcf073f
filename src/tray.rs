//! The tray controller: its fixed menu, and the decision that each icon
//! click or menu selection leads to.

use vstd::prelude::*;
use crate::text::text_of;

verus! {

/// The identity of one of the tray menu's three entries.
#[derive(Clone, Copy, Debug, PartialEq, Eq, Structural)]
pub enum MenuId {
    Show,
    Scan,
    Quit,
}

/// One entry of the tray menu.
pub struct MenuEntry {
    pub id: MenuId,
    pub label: String,
    pub enabled: bool,
}

/// How the tray is set up at startup.
pub struct TrayConfig {
    pub entries: Vec<MenuEntry>,
    pub show_menu_on_left_click: bool,
}

/// A mouse button.
#[derive(Clone, Copy, Debug, PartialEq, Eq, Structural)]
pub enum MouseButton {
    Left,
    Right,
    Middle,
}

/// Whether a click event reports the button going down or coming back up.
#[derive(Clone, Copy, Debug, PartialEq, Eq, Structural)]
pub enum ButtonState {
    Up,
    Down,
}

/// An event on the tray icon.
#[derive(Clone, Copy, Debug, PartialEq, Eq, Structural)]
pub enum IconEvent {
    Click { button: MouseButton, state: ButtonState },
    DoubleClick { button: MouseButton },
    Enter,
    Move,
    Leave,
}

/// What the host does in answer to a tray event.
#[derive(Clone, Copy, Debug, PartialEq, Eq, Structural)]
pub enum TrayAction {
    /// Nothing at all.
    Nothing,
    /// Make the main window visible and give it input focus.
    ShowWindow,
    /// End the process with this exit code.
    Exit { code: i32 },
    /// Start a detached task that later signals the UI to scan; do not wait for it.
    SpawnScanSignal,
}

/// The text identity of a menu entry.
pub open spec fn id_text(id: MenuId) -> Seq<char> {
    match id {
        MenuId::Show => "show"@,
        MenuId::Scan => "scan"@,
        MenuId::Quit => "quit"@,
    }
}

/// The label shown for a menu entry.
pub open spec fn label_text(id: MenuId) -> Seq<char> {
    match id {
        MenuId::Show => "Show Window"@,
        MenuId::Scan => "Scan Watched Repos"@,
        MenuId::Quit => "Quit Bugnosis"@,
    }
}

/// The menu entries, in the order they are shown.
pub open spec fn menu_order() -> Seq<MenuId> {
    seq![MenuId::Show, MenuId::Scan, MenuId::Quit]
}

/// The name of the signal that asks the UI to scan the watched repositories.
pub open spec fn scan_signal_name() -> Seq<char> {
    "trigger-scan"@
}

/// The menu entry whose identity is `text`, if any.
pub open spec fn menu_id_of(text: Seq<char>) -> Option<MenuId> {
    if text == id_text(MenuId::Show) {
        Some(MenuId::Show)
    } else if text == id_text(MenuId::Scan) {
        Some(MenuId::Scan)
    } else if text == id_text(MenuId::Quit) {
        Some(MenuId::Quit)
    } else {
        None
    }
}

/// The action owed for a window show request: none without a window.
pub open spec fn show_if_present(window_present: bool) -> TrayAction {
    if window_present {
        TrayAction::ShowWindow
    } else {
        TrayAction::Nothing
    }
}

/// The action owed for an icon event: only a left-button release shows the
/// main window.
pub open spec fn icon_action(e: IconEvent, window_present: bool) -> TrayAction {
    match e {
        IconEvent::Click { button: MouseButton::Left, state: ButtonState::Up } =>
            show_if_present(window_present),
        _ => TrayAction::Nothing,
    }
}

/// The action owed for the selection of a menu entry.
pub open spec fn menu_action(id: Option<MenuId>, window_present: bool) -> TrayAction {
    match id {
        Some(MenuId::Quit) => TrayAction::Exit { code: 0 },
        Some(MenuId::Show) => show_if_present(window_present),
        Some(MenuId::Scan) => TrayAction::SpawnScanSignal,
        None => TrayAction::Nothing,
    }
}

/// The signals the detached scan task emits: one `trigger-scan` if the main
/// window still exists, none otherwise.
pub open spec fn scan_task_signals(window_present: bool) -> Seq<Seq<char>> {
    if window_present {
        seq![scan_signal_name()]
    } else {
        seq![]
    }
}

/// The text identity of a menu entry.
pub fn menu_id_text(id: MenuId) -> (r: String)
    ensures
        r@ == id_text(id),
{
    match id {
        MenuId::Show => text_of("show"),
        MenuId::Scan => text_of("scan"),
        MenuId::Quit => text_of("quit"),
    }
}

/// The label shown for a menu entry.
pub fn menu_label(id: MenuId) -> (r: String)
    ensures
        r@ == label_text(id),
{
    match id {
        MenuId::Show => text_of("Show Window"),
        MenuId::Scan => text_of("Scan Watched Repos"),
        MenuId::Quit => text_of("Quit Bugnosis"),
    }
}

/// The tray's setup: the three entries, enabled, in the order show, scan,
/// quit; and no menu on a left click, which has a meaning of its own.
pub fn tray_config() -> (r: TrayConfig)
    ensures
        r.entries@.len() == 3,
        forall|i: int|
            0 <= i < 3 ==> {
                &&& #[trigger] r.entries@[i].id == menu_order()[i]
                &&& r.entries@[i].label@ == label_text(menu_order()[i])
                &&& r.entries@[i].enabled
            },
        !r.show_menu_on_left_click,
{
    let mut entries: Vec<MenuEntry> = Vec::new();
    entries.push(MenuEntry { id: MenuId::Show, label: menu_label(MenuId::Show), enabled: true });
    entries.push(MenuEntry { id: MenuId::Scan, label: menu_label(MenuId::Scan), enabled: true });
    entries.push(MenuEntry { id: MenuId::Quit, label: menu_label(MenuId::Quit), enabled: true });
    TrayConfig { entries, show_menu_on_left_click: false }
}

/// The menu entry whose identity is `text`, if any.
pub fn parse_menu_id(text: &str) -> (r: Option<MenuId>)
    ensures
        r == menu_id_of(text@),
{
    let t = text_of(text);
    if t == menu_id_text(MenuId::Show) {
        Some(MenuId::Show)
    } else if t == menu_id_text(MenuId::Scan) {
        Some(MenuId::Scan)
    } else if t == menu_id_text(MenuId::Quit) {
        Some(MenuId::Quit)
    } else {
        None
    }
}

/// Decides what an icon event leads to, given whether the main window
/// currently exists.
pub fn on_icon_event(e: IconEvent, window_present: bool) -> (r: TrayAction)
    ensures
        r == icon_action(e, window_present),
{
    match e {
        IconEvent::Click { button: MouseButton::Left, state: ButtonState::Up } => {
            if window_present {
                TrayAction::ShowWindow
            } else {
                TrayAction::Nothing
            }
        },
        _ => TrayAction::Nothing,
    }
}

/// Decides what the selection of the menu entry with identity `id` leads to,
/// given whether the main window currently exists.
pub fn on_menu_event(id: &str, window_present: bool) -> (r: TrayAction)
    ensures
        r == menu_action(menu_id_of(id@), window_present),
{
    match parse_menu_id(id) {
        Some(MenuId::Quit) => TrayAction::Exit { code: 0 },
        Some(MenuId::Show) => {
            if window_present {
                TrayAction::ShowWindow
            } else {
                TrayAction::Nothing
            }
        },
        Some(MenuId::Scan) => TrayAction::SpawnScanSignal,
        None => TrayAction::Nothing,
    }
}

/// The signals the detached scan task emits, given whether the main window
/// still exists when it runs.
pub fn scan_task(window_present: bool) -> (r: Vec<String>)
    ensures
        r@.map_values(|s: String| s@) == scan_task_signals(window_present),
{
    let mut v: Vec<String> = Vec::new();
    if window_present {
        v.push(text_of("trigger-scan"));
    }
    assert(v@.map_values(|s: String| s@) =~= scan_task_signals(window_present));
    v
}

/// Only a left-button release on the icon acts on the window: a right-button
/// release never does, and without a main window a left release does nothing,
/// while with one it shows and focuses it.
pub proof fn icon_click_law(window_present: bool)
    ensures
        icon_action(
            IconEvent::Click { button: MouseButton::Right, state: ButtonState::Up },
            window_present,
        ) == TrayAction::Nothing,
        icon_action(
            IconEvent::Click { button: MouseButton::Left, state: ButtonState::Up },
            false,
        ) == TrayAction::Nothing,
        icon_action(
            IconEvent::Click { button: MouseButton::Left, state: ButtonState::Up },
            true,
        ) == TrayAction::ShowWindow,
{
}

/// Selecting `quit` ends the process with code zero; selecting `scan` only
/// starts the detached task, and that task emits exactly one `trigger-scan`
/// while the main window exists.
pub proof fn menu_selection_law(window_present: bool)
    ensures
        menu_action(menu_id_of("quit"@), window_present) == (TrayAction::Exit { code: 0 }),
        menu_action(menu_id_of("scan"@), window_present) == TrayAction::SpawnScanSignal,
        scan_task_signals(true) == seq![scan_signal_name()],
{
    reveal_strlit("quit");
    reveal_strlit("scan");
    reveal_strlit("show");
    assert("quit"@ != "show"@) by {
        assert("quit"@[0] != "show"@[0]);
    }
    assert("quit"@ != "scan"@) by {
        assert("quit"@[0] != "scan"@[0]);
    }
    assert("scan"@ != "show"@) by {
        assert("scan"@[1] != "show"@[1]);
    }
}

} // verus!
