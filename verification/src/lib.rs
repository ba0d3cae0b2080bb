//! Homeostatic control core for a small two-wheeled robot.
//!
//! The library turns one sensor frame per tick into an internal
//! "homeostasis" state (tension, coherence, energy, curiosity), classifies
//! that state into a discrete reflex mode, and synthesizes the motor and
//! actuator command for the tick.  A dead-reckoning odometry integrator
//! runs alongside on the same frame.
//!
//! All fractional quantities are fixed-point integers: one logical unit is
//! `fixmath::UNIT` ticks of the scale, so the core needs no floating-point
//! support and runs unchanged on a bare-metal target.  `fixmath` is the
//! software math shim (square root, sine, cosine, arc tangent) that the
//! core depends on instead of a native float library.

pub mod brain;
pub mod embedded;
pub mod fixmath;
pub mod nav;
pub mod protocol;
pub mod state;
pub mod transport;

pub use brain::MBotBrain;
pub use fixmath::normalize_angle;
pub use nav::circle_points_vec;
pub use nav::drive_to_point;
pub use nav::x_points;
pub use state::HomeostasisState;
pub use state::MBotSensors;
pub use state::MotorCommand;
pub use state::ReflexMode;
pub use transport::TransportType;
