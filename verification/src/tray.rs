use vstd::prelude::*;

use crate::text::{chars_equal, chars_of, occurs_at, slice_chars, starts_with_chars, string_from_chars};

verus! {

/// What the tray icon shows.
#[derive(Debug, Clone, Copy, PartialEq, Eq, Structural)]
pub enum TrayState {
    Idle,
    Recording,
}

/// The fill colour of the tray icon: grey when idle, red while recording.
pub fn tray_color(state: TrayState) -> (r: (u8, u8, u8))
    ensures
        state == TrayState::Idle ==> r == (128u8, 128u8, 128u8),
        state == TrayState::Recording ==> r == (239u8, 68u8, 68u8),
{
    match state {
        TrayState::Idle => (128u8, 128u8, 128u8),
        TrayState::Recording => (239u8, 68u8, 68u8),
    }
}

/// What a click on a tray menu entry asks for.
#[derive(Debug, Clone)]
pub enum MenuAction {
    /// Leave the application.
    Quit,
    /// Use the named input device.
    SelectDevice(String),
    /// Nothing.
    Other,
}

/// The prefix of the menu entries that name input devices.
pub open spec fn device_prefix() -> Seq<char> {
    "device:"@
}

/// The identifier of the menu entry for the input device `name`.
pub fn device_menu_id(name: &str) -> (r: String)
    ensures
        r@ == device_prefix() + name@,
{
    let mut v = chars_of("device:");
    let mut n = chars_of(name);
    v.append(&mut n);
    string_from_chars(&v)
}

/// The label of the menu entry for the input device `name`, marked when it is the
/// system's default device.
pub fn device_menu_label(name: &str, is_default: bool) -> (r: String)
    ensures
        is_default ==> r@ == "✓ "@ + name@ + " (默认)"@,
        !is_default ==> r@ == name@,
{
    if is_default {
        let mut v = chars_of("✓ ");
        let mut n = chars_of(name);
        v.append(&mut n);
        let mut tail = chars_of(" (默认)");
        v.append(&mut tail);
        string_from_chars(&v)
    } else {
        string_from_chars(&chars_of(name))
    }
}

/// Decodes the identifier of a clicked menu entry.
pub fn menu_action(id: &str) -> (r: MenuAction)
    ensures
        id@ == "quit"@ ==> r is Quit,
        id@ != "quit"@ && occurs_at(id@, device_prefix(), 0) ==> (r matches MenuAction::SelectDevice(
            name,
        ) && name@ == id@.skip(device_prefix().len() as int)),
        id@ != "quit"@ && !occurs_at(id@, device_prefix(), 0) ==> r is Other,
{
    let v = chars_of(id);
    if chars_equal(&v, &chars_of("quit")) {
        return MenuAction::Quit;
    }
    let prefix = chars_of("device:");
    if starts_with_chars(&v, &prefix) {
        let name = slice_chars(&v, prefix.len(), v.len());
        MenuAction::SelectDevice(string_from_chars(&name))
    } else {
        MenuAction::Other
    }
}

/// The entry made for a device names that device when clicked.
pub proof fn lemma_device_menu_roundtrip(name: Seq<char>)
    ensures
        (device_prefix() + name) != "quit"@,
        occurs_at(device_prefix() + name, device_prefix(), 0),
        (device_prefix() + name).skip(device_prefix().len() as int) == name,
{
    reveal_strlit("device:");
    reveal_strlit("quit");
    let id = device_prefix() + name;
    assert(id[0] == 'd');
    assert("quit"@[0] == 'q');
    assert(id.skip(device_prefix().len() as int) =~= name);
}

} // verus!
