//! The parts that menus and dialogs are made of, and how they answer to
//! the mouse and the keys.

pub mod button;
pub mod checkbox;
pub mod dialog;
pub mod drawable;
pub mod label;
pub mod message_box;
pub mod originals;
pub mod textbox;
pub mod ui_container;
pub mod update_result;

pub use crate::data::base::{Position, Rectangle, Size};
pub use button::Button;
pub use checkbox::CheckBox;
pub use dialog::Dialog;
pub use label::Label;
pub use message_box::{MessageBox, MessageBoxResult};
pub use textbox::TextBox;
pub use ui_container::{Component, UiContainer};
