//! The toolbar at the top of the game screen: its widget identifiers and the
//! command each button gives.
use vstd::prelude::*;

verus! {

/// The identifier of the toolbar window.
pub const TOOLBAR_WINDOW_ID: u32 = 5000;

/// The widget identifiers of the toolbar buttons.
pub struct ToolbarWidgets;

impl ToolbarWidgets {
    pub const PAUSE: u32 = 5001;

    pub const FAST_FORWARD: u32 = 5002;

    pub const OPTIONS: u32 = 5003;

    pub const SAVE: u32 = 5004;

    pub const LOAD: u32 = 5005;

    pub const MAP: u32 = 5006;

    pub const TOWN_DIRECTORY: u32 = 5007;

    pub const SUBSIDIES: u32 = 5008;

    pub const STATIONS: u32 = 5009;

    pub const FINANCES: u32 = 5010;

    pub const COMPANY: u32 = 5011;

    pub const GRAPHS: u32 = 5012;

    pub const LEAGUE: u32 = 5013;

    pub const INDUSTRIES: u32 = 5014;

    pub const TRAINS: u32 = 5015;

    pub const ROAD_VEHICLES: u32 = 5016;

    pub const SHIPS: u32 = 5017;

    pub const AIRCRAFT: u32 = 5018;

    pub const ZOOM_IN: u32 = 5019;

    pub const ZOOM_OUT: u32 = 5020;

    pub const BUILD_RAIL: u32 = 5021;

    pub const BUILD_ROAD: u32 = 5022;

    pub const BUILD_WATER: u32 = 5023;

    pub const BUILD_AIRPORT: u32 = 5024;

    pub const MUSIC: u32 = 5025;

    pub const NEWS: u32 = 5026;

    pub const HELP: u32 = 5027;
}

/// The command that the toolbar button `id` gives, if it is a button.
pub open spec fn toolbar_command(id: u32) -> Option<Seq<char>> {
    if id == 5001 {
        Some("PAUSE_GAME"@)
    } else if id == 5002 {
        Some("FAST_FORWARD"@)
    } else if id == 5003 {
        Some("OPEN_OPTIONS"@)
    } else if id == 5004 {
        Some("SAVE_GAME"@)
    } else if id == 5005 {
        Some("LOAD_GAME"@)
    } else if id == 5006 {
        Some("SHOW_MAP"@)
    } else if id == 5007 {
        Some("SHOW_TOWNS"@)
    } else if id == 5008 {
        Some("SHOW_SUBSIDIES"@)
    } else if id == 5009 {
        Some("SHOW_STATIONS"@)
    } else if id == 5010 {
        Some("SHOW_FINANCES"@)
    } else if id == 5011 {
        Some("SHOW_COMPANY"@)
    } else if id == 5012 {
        Some("SHOW_GRAPHS"@)
    } else if id == 5013 {
        Some("SHOW_LEAGUE"@)
    } else if id == 5014 {
        Some("SHOW_INDUSTRIES"@)
    } else if id == 5015 {
        Some("BUILD_TRAINS"@)
    } else if id == 5016 {
        Some("BUILD_ROAD_VEHICLES"@)
    } else if id == 5017 {
        Some("BUILD_SHIPS"@)
    } else if id == 5018 {
        Some("BUILD_AIRCRAFT"@)
    } else if id == 5019 {
        Some("ZOOM_IN"@)
    } else if id == 5020 {
        Some("ZOOM_OUT"@)
    } else if id == 5021 {
        Some("BUILD_RAIL"@)
    } else if id == 5022 {
        Some("BUILD_ROAD"@)
    } else if id == 5023 {
        Some("BUILD_WATER"@)
    } else if id == 5024 {
        Some("BUILD_AIRPORT"@)
    } else if id == 5025 {
        Some("OPEN_MUSIC"@)
    } else if id == 5026 {
        Some("SHOW_NEWS"@)
    } else if id == 5027 {
        Some("SHOW_HELP"@)
    } else {
        None
    }
}

pub fn toolbar_command_for(widget_id: u32) -> (r: Option<String>)
    ensures
        r is Some == toolbar_command(widget_id) is Some,
        r is Some ==> r->0@ == toolbar_command(widget_id)->0,
{
    proof {
        reveal_strlit("BUILD_AIRCRAFT");
        reveal_strlit("BUILD_AIRPORT");
        reveal_strlit("BUILD_RAIL");
        reveal_strlit("BUILD_ROAD");
        reveal_strlit("BUILD_ROAD_VEHICLES");
        reveal_strlit("BUILD_SHIPS");
        reveal_strlit("BUILD_TRAINS");
        reveal_strlit("BUILD_WATER");
        reveal_strlit("FAST_FORWARD");
        reveal_strlit("LOAD_GAME");
        reveal_strlit("OPEN_MUSIC");
        reveal_strlit("OPEN_OPTIONS");
        reveal_strlit("PAUSE_GAME");
        reveal_strlit("SAVE_GAME");
        reveal_strlit("SHOW_COMPANY");
        reveal_strlit("SHOW_FINANCES");
        reveal_strlit("SHOW_GRAPHS");
        reveal_strlit("SHOW_HELP");
        reveal_strlit("SHOW_INDUSTRIES");
        reveal_strlit("SHOW_LEAGUE");
        reveal_strlit("SHOW_MAP");
        reveal_strlit("SHOW_NEWS");
        reveal_strlit("SHOW_STATIONS");
        reveal_strlit("SHOW_SUBSIDIES");
        reveal_strlit("SHOW_TOWNS");
        reveal_strlit("ZOOM_IN");
        reveal_strlit("ZOOM_OUT");
    }
    match widget_id {
        5001 => Some(String::from_str("PAUSE_GAME")),
        5002 => Some(String::from_str("FAST_FORWARD")),
        5003 => Some(String::from_str("OPEN_OPTIONS")),
        5004 => Some(String::from_str("SAVE_GAME")),
        5005 => Some(String::from_str("LOAD_GAME")),
        5006 => Some(String::from_str("SHOW_MAP")),
        5007 => Some(String::from_str("SHOW_TOWNS")),
        5008 => Some(String::from_str("SHOW_SUBSIDIES")),
        5009 => Some(String::from_str("SHOW_STATIONS")),
        5010 => Some(String::from_str("SHOW_FINANCES")),
        5011 => Some(String::from_str("SHOW_COMPANY")),
        5012 => Some(String::from_str("SHOW_GRAPHS")),
        5013 => Some(String::from_str("SHOW_LEAGUE")),
        5014 => Some(String::from_str("SHOW_INDUSTRIES")),
        5015 => Some(String::from_str("BUILD_TRAINS")),
        5016 => Some(String::from_str("BUILD_ROAD_VEHICLES")),
        5017 => Some(String::from_str("BUILD_SHIPS")),
        5018 => Some(String::from_str("BUILD_AIRCRAFT")),
        5019 => Some(String::from_str("ZOOM_IN")),
        5020 => Some(String::from_str("ZOOM_OUT")),
        5021 => Some(String::from_str("BUILD_RAIL")),
        5022 => Some(String::from_str("BUILD_ROAD")),
        5023 => Some(String::from_str("BUILD_WATER")),
        5024 => Some(String::from_str("BUILD_AIRPORT")),
        5025 => Some(String::from_str("OPEN_MUSIC")),
        5026 => Some(String::from_str("SHOW_NEWS")),
        5027 => Some(String::from_str("SHOW_HELP")),
        _ => None,
    }
}

} // verus!
