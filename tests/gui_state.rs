use openttd_savegame::date_selector::{DateSelectorWidgets, DateSelectorWindow, GameDate};
use openttd_savegame::gfx::{Colour, Rect};
use openttd_savegame::league::{CompanyColor, LeagueWindow, PerformanceTitle, WindowAction};
use openttd_savegame::main_menu::{handle_main_menu_click, MainMenuWidgets};
use openttd_savegame::settings_audio::{
    music_toggle_rect, music_volume_rect, AudioSettingsAction, AudioSettingsWindow,
};
use openttd_savegame::settings_gameplay::{
    autosave_frequency_rect, autosave_toggle_rect, difficulty_label, difficulty_preset_rect,
    GameplaySettingsAction, GameplaySettingsWindow,
};
use openttd_savegame::settings_graphics::GraphicsSettingsWindow;
use openttd_savegame::settings_layout::tab_rect;
use openttd_savegame::toolbar::{toolbar_command_for, ToolbarWidgets};
use openttd_savegame::widgets::{LabelWidget, PanelWidget, WidgetBase, WidgetType};
use openttd_savegame::world_gen::{Climate, MapSize, WorldGenWindow};

#[test]
fn test_colour_creation() {
    let color = Colour::rgb(255, 128, 0);
    assert_eq!(color.r, 255);
    assert_eq!(color.g, 128);
    assert_eq!(color.b, 0);
    assert_eq!(color.a, 255);
    let color_alpha = Colour::rgba(255, 128, 0, 128);
    assert_eq!(color_alpha.a, 128);
}

#[test]
fn test_rect_contains_point() {
    let rect = Rect::new(10, 10, 100, 50);
    assert!(rect.contains_point(50, 30));
    assert!(rect.contains_point(10, 10));
    assert!(rect.contains_point(109, 59));
    assert!(!rect.contains_point(9, 10));
    assert!(!rect.contains_point(10, 9));
    assert!(!rect.contains_point(110, 30));
    assert!(!rect.contains_point(50, 60));
}

#[test]
fn test_predefined_colors() {
    assert_eq!(Colour::black(), Colour::rgb(0, 0, 0));
    assert_eq!(Colour::white(), Colour::rgb(255, 255, 255));
    assert_eq!(Colour::red(), Colour::rgb(255, 0, 0));
    assert_eq!(Colour::green(), Colour::rgb(0, 255, 0));
    assert_eq!(Colour::blue(), Colour::rgb(0, 0, 255));
}

#[test]
fn rect_center_and_ui_colours() {
    assert_eq!(Rect::new(10, 20, 101, 50).center(), (60, 45));
    assert_eq!(Colour::ui_background(), Colour::rgb(0x2A, 0x2A, 0x2A));
    assert_eq!(Colour::ui_highlight(), Colour::rgb(100, 150, 255));
}

fn settings_rect() -> Rect {
    Rect::new(140, 80, 520, 360)
}

#[test]
fn test_audio_settings_toggle_and_volume() {
    let mut window = AudioSettingsWindow::new();
    let rect = settings_rect();
    let music_toggle = music_toggle_rect();
    assert!(window.handle_click(music_toggle.x + 1, music_toggle.y + 1, rect).is_some());
    assert!(!window.music_enabled());
    let volume_rect = music_volume_rect();
    assert!(window.handle_click(volume_rect.x + 1, volume_rect.y + 1, rect).is_some());
    assert_ne!(window.music_volume(), 80);
}

#[test]
fn test_audio_settings_switch_to_gameplay() {
    let mut window = AudioSettingsWindow::new();
    let rect = settings_rect();
    let tab = tab_rect(2);
    let action = window.handle_click(tab.x + 1, tab.y + 1, rect);
    assert!(matches!(action, Some(AudioSettingsAction::OpenGameplay)));
}

#[test]
fn audio_settings_outside_and_close() {
    let mut window = AudioSettingsWindow::new();
    let rect = settings_rect();
    assert!(window.handle_click(0, 0, rect).is_none());
    assert!(matches!(window.handle_click(650, 84, rect), Some(AudioSettingsAction::Close)));
    assert!(matches!(window.handle_click(160, 340, rect), Some(AudioSettingsAction::Close)));
    let volume_rect = music_volume_rect();
    window.handle_click(volume_rect.x + 1, volume_rect.y + 1, rect);
    assert_eq!(window.music_volume(), 0);
    window.handle_click(volume_rect.x + 1, volume_rect.y + 1, rect);
    assert_eq!(window.music_volume(), 25);
    assert!(window.sound_enabled());
    assert_eq!(window.sound_volume(), 70);
}

#[test]
fn test_gameplay_settings_toggle_and_frequency() {
    let mut window = GameplaySettingsWindow::new();
    let rect = settings_rect();
    let toggle_rect = autosave_toggle_rect();
    assert!(window.handle_click(toggle_rect.x + 1, toggle_rect.y + 1, rect).is_some());
    assert!(!window.autosave_enabled());
    let frequency_rect = autosave_frequency_rect();
    assert!(window.handle_click(frequency_rect.x + 1, frequency_rect.y + 1, rect).is_some());
    assert_ne!(window.autosave_frequency(), 10);
}

#[test]
fn test_gameplay_settings_switch_tabs() {
    let mut window = GameplaySettingsWindow::new();
    let rect = settings_rect();
    let audio = tab_rect(0);
    let audio_action = window.handle_click(audio.x + 1, audio.y + 1, rect);
    assert!(matches!(audio_action, Some(GameplaySettingsAction::OpenAudio)));
    let video = tab_rect(1);
    let video_action = window.handle_click(video.x + 1, video.y + 1, rect);
    assert!(matches!(video_action, Some(GameplaySettingsAction::OpenVideo)));
}

#[test]
fn gameplay_difficulty_cycles() {
    let mut window = GameplaySettingsWindow::new();
    let rect = settings_rect();
    let preset = difficulty_preset_rect();
    assert_eq!(window.difficulty_index(), 1);
    window.handle_click(preset.x + 1, preset.y + 1, rect);
    window.handle_click(preset.x + 1, preset.y + 1, rect);
    assert_eq!(window.difficulty_index(), 3);
    window.handle_click(preset.x + 1, preset.y + 1, rect);
    assert_eq!(window.difficulty_index(), 0);
    assert_eq!(difficulty_label(0), "Easy");
    assert_eq!(difficulty_label(9), "Custom");
    assert!(window.breakdowns_enabled());
}

#[test]
fn graphics_settings_lists_and_toggles() {
    let mut window = GraphicsSettingsWindow::new();
    let rect = Rect::new(140, 80, 520, 420);
    assert!(!window.dropdown_open());
    assert!(window.handle_click(200, 131, rect));
    assert!(window.is_dropdown_open());
    assert!(window.handle_click(200, 314 + 45, rect));
    assert!(!window.dropdown_open());
    assert_eq!(window.state.selected_resolution, 2);
    assert!(window.handle_click(200, 159, rect));
    assert!(window.fullscreen_enabled());
    assert!(!window.handle_click(10, 10, rect));
}

#[test]
fn test_world_gen_apply_action_updates_config() {
    let mut window = WorldGenWindow::new();
    assert!(window.apply_action("CLIMATE_TROPICAL"));
    assert_eq!(window.config.climate, Climate::Tropical);
    let previous_size = window.config.map_size_x;
    assert!(window.apply_action("CYCLE_MAP_SIZE_X"));
    assert_ne!(window.config.map_size_x, previous_size);
}

#[test]
fn test_world_gen_year_changes() {
    let mut window = WorldGenWindow::new();
    let start_year = window.config.start_year;
    assert!(window.apply_action("YEAR_UP"));
    assert_eq!(window.config.start_year, start_year + 1);
    assert!(window.apply_action("YEAR_DOWN"));
    assert_eq!(window.config.start_year, start_year);
}

#[test]
fn world_gen_names_and_unknown_action() {
    let mut window = WorldGenWindow::new();
    assert!(!window.apply_action("FLY_TO_MOON"));
    assert_eq!(window.config.map_size_x, MapSize::Size512);
    assert!(window.apply_action("CYCLE_MAP_SIZE_Y"));
    assert_eq!(window.config.map_size_y, MapSize::Size1024);
    assert_eq!(MapSize::Size4096.name(), "4096");
    assert_eq!(MapSize::Size64.value(), 64);
    assert_eq!(Climate::Toyland.name(), "Toyland");
}

#[test]
fn game_date_clamps_and_formats() {
    let date = GameDate::new(0, 13, 1800);
    assert_eq!((date.day, date.month, date.year), (1, 12, 1900));
    assert_eq!(date.to_string(), "01 DEC 1900");
    assert_eq!(GameDate::new(25, 3, 1950).to_string(), "25 MAR 1950");
    assert_eq!(GameDate { day: 1, month: 0, year: 7 }.month_name(), "???");
}

#[test]
fn date_selector_picks_a_day() {
    let mut window = DateSelectorWindow::new(GameDate::new(1, 1, 1950), 1800, 2200);
    assert_eq!((window.min_year, window.max_year), (1900, 2100));
    let rect = Rect::new(0, 0, 360, 400);
    assert!(window.handle_click(30, 90, rect).is_none());
    assert_eq!(window.dropdown_open, Some(DateSelectorWidgets::DayDropdown));
    assert!(window.handle_click(30, 110 + 5 + 20 * 4 + 1, rect).is_none());
    assert_eq!(window.selected_date.day, 5);
    assert_eq!(window.dropdown_open, None);
    let chosen = window.handle_click(30, 365, rect).unwrap();
    assert_eq!(chosen.day, 5);
}

#[test]
fn league_titles_and_colours() {
    assert_eq!(PerformanceTitle::from_rating(0), PerformanceTitle::Engineer);
    assert_eq!(PerformanceTitle::from_rating(128), PerformanceTitle::TrafficManager);
    assert_eq!(PerformanceTitle::from_rating(959), PerformanceTitle::President);
    assert_eq!(PerformanceTitle::from_rating(960), PerformanceTitle::Tycoon);
    assert_eq!(PerformanceTitle::Tycoon.as_str(), "Tycoon of the Century");
    assert_eq!(CompanyColor::Brown.to_colour(), Colour::rgb(139, 69, 19));
    let league = LeagueWindow::new();
    assert_eq!(league.companies.len(), 4);
    assert_eq!(league.companies[0].get_title(), PerformanceTitle::Chairman);
}

#[test]
fn menu_and_toolbar_commands() {
    assert_eq!(handle_main_menu_click(MainMenuWidgets::NEW_GAME), Some("NEW_GAME".to_string()));
    assert_eq!(handle_main_menu_click(MainMenuWidgets::PLAY_SCENARIO), Some("DATE_SELECTOR_TEST".to_string()));
    assert_eq!(handle_main_menu_click(MainMenuWidgets::TITLE), None);
    assert_eq!(toolbar_command_for(ToolbarWidgets::PAUSE), Some("PAUSE_GAME".to_string()));
    assert_eq!(toolbar_command_for(4999), None);
}

#[test]
fn widget_builders() {
    let base = WidgetBase::new(7, WidgetType::Button);
    assert_eq!(base.rect, Rect::new(0, 0, 100, 20));
    assert!(base.visible && base.enabled);
    let panel = PanelWidget::new(3).with_border(false).with_colour(Colour::red());
    assert!(!panel.border);
    assert_eq!(panel.background_colour, Colour::red());
    let label = LabelWidget::new(4, "Hi");
    assert_eq!(label.text, "Hi");
    assert_eq!(label.base.widget_type, WidgetType::Label);
}

#[test]
fn league_rows_follow_rating_order() {
    let rect = Rect::new(100, 100, 600, 400);
    let mut league = LeagueWindow::new();
    assert_eq!(league.handle_click(680, 110, rect), Some(WindowAction::Close));
    assert_eq!(league.handle_click(200, 170, rect), Some(WindowAction::CompanySelected(0)));
    assert_eq!(league.handle_click(200, 223, rect), Some(WindowAction::CompanySelected(2)));
    assert_eq!(league.selected_company, Some(2));
    league.companies[3].rating = 900;
    assert_eq!(league.handle_click(200, 170, rect), Some(WindowAction::CompanySelected(3)));
    assert_eq!(league.handle_click(200, 198, rect), Some(WindowAction::CompanySelected(0)));
    assert_eq!(league.handle_click(200, 600, rect), None);
}
