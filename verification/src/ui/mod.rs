pub mod list_filter;
pub mod scroll;
pub mod sort;
pub mod settings;
pub mod text_width;
pub mod context_menu;
pub mod history;
pub mod settings_input;
pub mod queue_keys;
pub mod main_keys;
pub mod hit_test;
pub mod settings_layout;
pub mod progress;
pub mod details;
pub mod source_selector;
pub mod status_bar;
pub mod list_mouse;
pub mod main_mouse;
