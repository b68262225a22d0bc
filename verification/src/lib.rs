//! Keyboard and cursor control unit of a simulated cockpit.
//!
//! The unit is a small tree of simulation elements. Once per simulation tick a
//! driver walks the tree twice with a visitor: first every element reads its
//! inputs from the simulator's variable store, then every element writes its
//! outputs back. The keys of the unit are self-clearing latches: a key that was
//! seen pressed resets its variable in the same tick, so that a flag set once
//! by the outside is seen as pressed in exactly one tick.

pub mod binary64;
pub mod button;
pub mod cursor_control_device;
pub mod electrical;
pub mod keyboard;
pub mod keys;
pub mod layout;
pub mod names;
pub mod simulation;
pub mod store;
pub mod unit;
pub mod variable;

pub use binary64::Binary64;
pub use button::Button;
pub use cursor_control_device::CursorControlDevice;
pub use electrical::ElectricalBusType;
pub use keyboard::Keyboard;
pub use simulation::{
    tick, ReadPass, SimulationElement, SimulationElementVisitor, Visitable, WritePass,
};
pub use store::{RecordingStore, VariableStore};
pub use unit::{KccuInputComponent, KeyboardAndCursorControlUnit};
pub use variable::{InitContext, VariableIdentifier};
