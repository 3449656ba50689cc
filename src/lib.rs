//! Global keyboard and mouse binds, and synthetic input.
//!
//! The library holds the logic of the event dispatch core: the logical keys
//! and buttons and their names, the bind registry and what each event does,
//! the hook transitions of each input class, the mapping of native codes,
//! and the events that synthetic input sends. Installing hooks and injecting
//! events is left to the platform layer, which performs what these functions
//! return.

pub mod chars;
pub mod codes;
pub mod input_map;
pub mod keys;
pub mod names;
pub mod registry;
pub mod synth;
pub mod text;

pub use crate::chars::{from_keybd_key, get_keybd_key, KeySequence, KeyStep};
pub use crate::input_map::InputMap;
pub use crate::keys::{KeybdKey, LogicalInput, MouseButton};
pub use crate::names::ParseError;
pub use crate::registry::{
    should_continue, start_handling_input_events, stop_handling_input_events, Action, Bind,
    BlockInput, ButtonStates, Dispatch, HookChange, HookChanges, Registry,
};
pub use crate::synth::{MouseCursor, MouseWheel, SyntheticInput};
