pub mod capture;
pub mod decimal;
pub mod dht22;
pub mod light;
pub mod payload;
pub mod supervisor;
pub mod tls;

use vstd::prelude::*;

verus! {

/// Errors that may occur while acquiring or decoding a sensor reading.
#[derive(Clone, Copy, Debug, PartialEq, Eq, Structural)]
pub enum ReadingError {
    /// A pulse phase lasted longer than the busy-wait ceiling.
    Timeout,
    /// The checksum byte sent by the sensor does not match the data bytes.
    Checksum,
    /// The underlying GPIO access failed.
    Gpio,
}

/// Message used when a required configuration option is absent.
pub fn not_set(env: &str) -> (r: String)
    ensures
        r@ == env@ + " not set"@,
{
    let s = env.to_owned();
    s.concat(" not set")
}

} // verus!
