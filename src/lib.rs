pub mod text;
pub mod piece_move;
pub mod io_controller;
pub mod io_view;
pub mod history;
pub mod driver;
