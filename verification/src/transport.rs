//! Which physical link a companion uses to reach the robot.
//!
//! The link itself (Bluetooth scanning, serial I/O, the simulated loop)
//! is a collaborator outside this library; the core only names the
//! choice so callers can carry it around.

use vstd::prelude::*;

verus! {

/// The link a companion drives the robot over.
pub enum TransportType {
    /// The robot's Bluetooth LE service.
    Bluetooth,
    /// A serial port, named by its device path.
    Serial(String),
    /// No hardware: a simulated robot for testing.
    Simulated,
}

impl TransportType {
    /// Whether this choice needs real hardware on the other end.
    pub fn needs_hardware(&self) -> (r: bool)
        ensures
            r == !(self is Simulated),
    {
        match self {
            TransportType::Bluetooth => true,
            TransportType::Serial(_) => true,
            TransportType::Simulated => false,
        }
    }
}

} // verus!
