pub mod message_dialog;
pub mod ui_state;
pub mod alert;
pub mod file_dialog;
pub mod web;
