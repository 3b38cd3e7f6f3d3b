//! Driver core for the MT6701 magnetic rotary angle sensor.
//!
//! The sensor reports an absolute single-turn angle as a 14-bit sample over a
//! synchronous serial bus. This crate turns a stream of such samples into a
//! continuous multi-turn position: the current single-turn angle, a signed
//! count of accumulated full revolutions, and (when the caller supplies
//! timestamps) the ingredients of an angular-velocity estimate.
//!
//! Angles are held as integer counts: one full mechanical turn is 16384
//! counts, so a sample `c` stands for the angle `(c / 16384) * 2*pi` radians.
//! The embedding application converts counts to radians at its edge; the turn
//! counting, wraparound detection and state handling here are exact integer
//! logic.
//!
//! The bus itself is an injected collaborator: the driver is generic over a
//! frame-transfer primitive and a chip-select output line, so a simulated bus
//! can stand in for the hardware.

pub mod angle;
pub mod sensor;

pub use angle::{extract_angle, frame_angle, turn_step, FULL_TURN_COUNTS, WRAP_THRESHOLD_COUNTS};
pub use sensor::{
    elapsed_between, Elapsed, EstimatorView, FrameTransfer, MT6701Error, MT6701Spi, OutputLine,
    Position, Velocity,
};
