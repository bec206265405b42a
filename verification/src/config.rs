//! What can be set from outside: the two selector bytes, the timings and how
//! the device reaches the network.

use vstd::prelude::*;

verus! {

/// How the device gets onto the network.
#[derive(Clone, Copy, Debug, PartialEq, Eq, Structural)]
pub enum NetworkRole {
    /// Join an existing wireless network.
    Join,
    /// Host a network of its own.
    Host,
}

/// The wire encoding that a read is decoded under.
#[derive(Clone, Copy, Debug, PartialEq, Eq, Structural)]
pub enum Mode {
    /// Bytes name keys of the on-screen keyboard.
    Matrix,
    /// Bytes name buttons.
    Direct,
}

/// The settings of one device.
#[derive(Clone, Copy, Debug, PartialEq, Eq, Structural)]
pub struct Config {
    /// How the device reaches the network.
    pub role: NetworkRole,
    /// TCP port that the listener accepts on.
    pub port: u16,
    /// Seconds without traffic after which a connection is closed.
    pub idle_timeout_secs: u64,
    /// First byte of a read that selects Matrix Mode.
    pub matrix_selector: u8,
    /// First byte of a read that selects Direct Mode.
    pub direct_selector: u8,
    /// Whether an acknowledgment ends the connection.
    pub close_after_ack: bool,
    /// Milliseconds for which a line is held active.
    pub hold_ms: u64,
    /// Milliseconds of rest after a line was released.
    pub settle_ms: u64,
}

impl Config {
    /// The mode that a first byte selects. Where both selectors are the same
    /// byte, it selects Matrix Mode.
    pub open spec fn spec_mode_for(&self, selector: u8) -> Option<Mode> {
        if selector == self.matrix_selector {
            Some(Mode::Matrix)
        } else if selector == self.direct_selector {
            Some(Mode::Direct)
        } else {
            None
        }
    }

    /// The mode that the first byte of a read selects, if it selects any.
    #[verifier::when_used_as_spec(spec_mode_for)]
    pub fn mode_for(&self, selector: u8) -> (mode: Option<Mode>)
        ensures
            mode == self.spec_mode_for(selector),
    {
        if selector == self.matrix_selector {
            Some(Mode::Matrix)
        } else if selector == self.direct_selector {
            Some(Mode::Direct)
        } else {
            None
        }
    }

    /// The same settings with the ASCII digits `0` and `1` as selectors, for
    /// clients that type the selector as text.
    pub fn with_ascii_selectors(self) -> (config: Self)
        ensures
            config == (Config { matrix_selector: 0x30, direct_selector: 0x31, ..self }),
    {
        Config { matrix_selector: 0x30, direct_selector: 0x31, ..self }
    }
}

impl Default for Config {
    /// Joins a network, listens on port 1234, gives up a silent connection
    /// after ten seconds, selects the mode by the raw bytes 0 and 1, closes
    /// after each acknowledgment and pulses for 50 ms with 50 ms of rest.
    fn default() -> (config: Self)
        ensures
            config == (Config {
                role: NetworkRole::Join,
                port: 1234,
                idle_timeout_secs: 10,
                matrix_selector: 0,
                direct_selector: 1,
                close_after_ack: true,
                hold_ms: 50,
                settle_ms: 50,
            }),
    {
        Config {
            role: NetworkRole::Join,
            port: 1234,
            idle_timeout_secs: 10,
            matrix_selector: 0,
            direct_selector: 1,
            close_after_ack: true,
            hold_ms: 50,
            settle_ms: 50,
        }
    }
}

} // verus!
