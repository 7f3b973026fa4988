pub mod app;
pub mod brief_screen;
pub mod command_palette;
pub mod keys;
pub mod list_screens;
pub mod onboarding;
pub mod onboarding_screen;
pub mod screen;
pub mod theme;
pub mod thread_screen;
pub mod views;
pub mod workspace;
