//! Planning and decoding core of a keyboard firmware.
//!
//! A description of a keyboard's hardware (`config`) is checked against the
//! rules of a build (`validate`, with the capability table of `chip` and the
//! matrix regions of `matrix`). A description that passes is turned into the
//! plan of its node (`plan`): the resources to acquire (`wiring`, `flash`)
//! and the tasks to run side by side (`tasks`). Nothing here touches
//! hardware; the plan is for a runtime or a code generator to carry out.
//!
//! Beside the planning stand the quadrature decoder of a rotary encoder
//! (`rotary_encoder`) and the keycode tables (`keycode`, `base_keycode`).

pub mod base_keycode;
pub mod chip;
pub mod config;
pub mod flash;
pub mod keycode;
pub mod matrix;
pub mod plan;
pub mod rotary_encoder;
pub mod tasks;
pub mod text;
pub mod validate;
pub mod wiring;
