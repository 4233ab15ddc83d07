use vstd::prelude::*;

verus! {

/// What the tray menu asks for.
#[derive(Clone, Copy, Debug, PartialEq, Eq, Structural)]
pub enum TrayAction {
    Refresh,
    Settings,
    Exit,
}

pub open spec fn refresh_id() -> Seq<char> {
    "refresh"@
}

pub open spec fn settings_id() -> Seq<char> {
    "settings"@
}

pub open spec fn exit_id() -> Seq<char> {
    "exit"@
}

/// The action of the menu item with identifier `id`, if it is one of the menu's.
pub fn action_for_menu_id(id: &str) -> (r: Option<TrayAction>)
    ensures
        r == if id@ == refresh_id() {
            Some(TrayAction::Refresh)
        } else if id@ == settings_id() {
            Some(TrayAction::Settings)
        } else if id@ == exit_id() {
            Some(TrayAction::Exit)
        } else {
            None
        },
{
    let given = String::from_str(id);
    if given == String::from_str("refresh") {
        Some(TrayAction::Refresh)
    } else if given == String::from_str("settings") {
        Some(TrayAction::Settings)
    } else if given == String::from_str("exit") {
        Some(TrayAction::Exit)
    } else {
        None
    }
}

} // verus!
