//! A deterministic 2D driving environment: a kinematic bicycle-model vehicle,
//! actuation limits, and consume-on-capture reward markers.
//!
//! All physical quantities are fixed-point scalars: an `i64` holding the value
//! times [`fixed::SCALE`]. Arithmetic saturates at the `i64` range instead of
//! overflowing, and time steps are nonnegative; both choices are documented on
//! the operations that rely on them.

pub mod fixed;
pub mod trig;
pub mod vec2;
pub mod dynamics;
pub mod reward;
pub mod sim;
pub mod observer;

pub use dynamics::VehicleState;
pub use observer::{HeadingRelativeObserver, Observation, Observer, SelectionPolicy};
pub use reward::RewardEntry;
pub use sim::{Action, SimState, Simulator};
pub use vec2::Vec2;
