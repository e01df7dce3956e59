pub mod app;
pub mod computer_player;
pub mod detector;
pub mod game;
pub mod update;
