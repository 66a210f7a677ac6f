//! The part of a graphics editor that turns raw input into actions, and the
//! state machines of the tools that take those actions.
//!
//! A raw input (a key that goes down or comes up, a move of the pointer, a
//! turn of the wheel) is looked up in a table of bindings. The first binding
//! of the input whose modifier keys are all held, and whose action the active
//! handlers advertise, gives the one action of the input; bindings that ask
//! for more modifiers are tried first. The action then goes to the active
//! tool, whose state machine sends messages and, when its state changes,
//! tells the front end its hints and its cursor again.

pub mod default_mapping;
pub mod hint;
pub mod input_mapper;
pub mod input_preprocessor;
pub mod keyboard;
pub mod layer_info;
pub mod message;
pub mod rectangle_tool;
pub mod resize;
pub mod segments;
pub mod style;
pub mod text;
pub mod tool;
