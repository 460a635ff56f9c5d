pub mod terminal;
pub mod text;
pub mod text_input;
pub mod time;
pub mod path;
pub mod wow;
pub mod backend;
pub mod lua;
pub mod character;
pub mod ui;
pub mod file_list;
pub mod character_list;
pub mod config;
pub mod options;
pub mod task;
pub mod palette;
pub mod console;
pub mod log;
pub mod cli;
pub mod class_config;
pub mod scan;
pub mod popups;
pub mod app_state;
