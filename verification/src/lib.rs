//! Game logic of SuperTuxShowdown: buffered inputs, the fighter action
//! state machine, launch helpers, animation rules and the frame-tool editor
//! flow, each with its contract proved.

pub mod input;
pub mod action;
pub mod anim;
pub mod editor;
pub mod asset;
pub mod selection;
