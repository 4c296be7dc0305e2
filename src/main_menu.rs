//! The main menu: its widget identifiers and the command each button gives.
use vstd::prelude::*;

verus! {

/// The widget identifiers of the main menu.
pub struct MainMenuWidgets;

impl MainMenuWidgets {
    pub const WINDOW: u32 = 1000;

    pub const PANEL: u32 = 1001;

    pub const TITLE: u32 = 1002;

    pub const NEW_GAME: u32 = 1003;

    pub const LOAD_GAME: u32 = 1004;

    pub const PLAY_SCENARIO: u32 = 1005;

    pub const PLAY_HEIGHTMAP: u32 = 1006;

    pub const EDIT_SCENARIO: u32 = 1007;

    pub const MULTIPLAYER: u32 = 1008;

    pub const OPTIONS: u32 = 1009;

    pub const HIGHSCORE: u32 = 1010;

    pub const HELP: u32 = 1011;

    pub const CONTENT_DOWNLOAD: u32 = 1012;

    pub const EXIT: u32 = 1013;
}

/// The command that the main menu button `id` gives, if it is a button.
pub open spec fn main_menu_command(id: u32) -> Option<Seq<char>> {
    if id == 1003 {
        Some("NEW_GAME"@)
    } else if id == 1004 {
        Some("LOAD_GAME"@)
    } else if id == 1005 {
        Some("DATE_SELECTOR_TEST"@)
    } else if id == 1006 {
        Some("LEAGUE_TABLE_TEST"@)
    } else if id == 1007 {
        Some("SCENARIO_EDITOR"@)
    } else if id == 1008 {
        Some("MULTIPLAYER"@)
    } else if id == 1009 {
        Some("OPTIONS"@)
    } else if id == 1010 {
        Some("HIGHSCORE"@)
    } else if id == 1011 {
        Some("HELP"@)
    } else if id == 1012 {
        Some("CONTENT_DOWNLOAD"@)
    } else if id == 1013 {
        Some("EXIT"@)
    } else {
        None
    }
}

pub fn handle_main_menu_click(widget_id: u32) -> (r: Option<String>)
    ensures
        r is Some == main_menu_command(widget_id) is Some,
        r is Some ==> r->0@ == main_menu_command(widget_id)->0,
{
    proof {
        reveal_strlit("CONTENT_DOWNLOAD");
        reveal_strlit("DATE_SELECTOR_TEST");
        reveal_strlit("EXIT");
        reveal_strlit("HELP");
        reveal_strlit("HIGHSCORE");
        reveal_strlit("LEAGUE_TABLE_TEST");
        reveal_strlit("LOAD_GAME");
        reveal_strlit("MULTIPLAYER");
        reveal_strlit("NEW_GAME");
        reveal_strlit("OPTIONS");
        reveal_strlit("SCENARIO_EDITOR");
    }
    match widget_id {
        1003 => Some(String::from_str("NEW_GAME")),
        1004 => Some(String::from_str("LOAD_GAME")),
        1005 => Some(String::from_str("DATE_SELECTOR_TEST")),
        1006 => Some(String::from_str("LEAGUE_TABLE_TEST")),
        1007 => Some(String::from_str("SCENARIO_EDITOR")),
        1008 => Some(String::from_str("MULTIPLAYER")),
        1009 => Some(String::from_str("OPTIONS")),
        1010 => Some(String::from_str("HIGHSCORE")),
        1011 => Some(String::from_str("HELP")),
        1012 => Some(String::from_str("CONTENT_DOWNLOAD")),
        1013 => Some(String::from_str("EXIT")),
        _ => None,
    }
}

} // verus!
