//! Reading and writing of the binary savegame format: the file header, the
//! gamma-coded integers, the chunk stream and its five chunk encodings. Beside
//! the codec stand the game's data model (map, companies, towns, industries,
//! stations, vehicles) and the state kept by the menus and settings windows.

pub mod chunk;
pub mod company;
pub mod compression;
pub mod date_selector;
pub mod endian;
pub mod error;
pub mod gamma;
pub mod gfx;
pub mod header;
pub mod highscore;
pub mod industry;
pub mod league;
pub mod main_menu;
pub mod map;
pub mod savegame;
pub mod settings_audio;
pub mod settings_gameplay;
pub mod settings_graphics;
pub mod settings_layout;
pub mod station;
pub mod sums;
pub mod text;
pub mod text_format;
pub mod toolbar;
pub mod town;
pub mod types;
pub mod vehicle;
pub mod video;
pub mod widgets;
pub mod world_gen;
