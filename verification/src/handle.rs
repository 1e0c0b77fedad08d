//! The terminal handle: what a successful acquisition produces. It owns the
//! accepted rendezvous connection — dropping the handle closes it, which is
//! the signal for the helper process to exit — and the device identity the
//! helper reported.

use vstd::prelude::*;
use crate::identity::{decimal_val, is_decimal, parse_decimal_u32};

verus! {

/// How the host platform addresses a terminal's input and output.
#[derive(Clone, Copy, PartialEq, Eq, Structural, Debug)]
pub enum Platform {
    /// The process addresses its console through fixed device names and the
    /// helper reports its process id (hosts with attachable consoles).
    ConsoleDevices,
    /// Terminals are addressed by a device path, which the helper reports.
    DevicePaths,
}

/// Relies on `tokio::net::TcpStream`: the accepted rendezvous connection.
/// The handle only stores and finally drops it; no verified code reads or
/// writes through it.
#[verifier::external_type_specification]
#[verifier::external_body]
pub struct ExTcpStream(tokio::net::TcpStream);

/// An acquired terminal.
pub struct Terminal {
    /// Connection to the helper, kept open for the handle's lifetime;
    /// dropping the handle closes it and so tells the helper to exit.
    pub connection: tokio::net::TcpStream,
    /// The trimmed identity line: a terminal device path, or the helper's
    /// process id on hosts with attachable consoles.
    pub device_identity: String,
    /// How identities are interpreted on this host.
    pub platform: Platform,
}

impl Terminal {
    /// Package an accepted connection and the identity read from it.
    pub fn new(connection: tokio::net::TcpStream, device_identity: String, platform: Platform)
        -> (t: Terminal)
        ensures
            t.connection == connection,
            t.device_identity == device_identity,
            t.platform == platform,
    {
        Terminal { connection, device_identity, platform }
    }

    /// A name suitable for redirecting a debuggee's standard input into this
    /// terminal: the calling process's own console input device on hosts with
    /// attachable consoles, the discovered device path elsewhere.
    pub fn input_devname(&self) -> (r: &str)
        ensures
            self.platform is ConsoleDevices ==> r@ == "CONIN$"@,
            self.platform is DevicePaths ==> r@ == self.device_identity@,
    {
        match self.platform {
            Platform::ConsoleDevices => "CONIN$",
            Platform::DevicePaths => self.device_identity.as_str(),
        }
    }

    /// The counterpart of `input_devname` for standard output.
    pub fn output_devname(&self) -> (r: &str)
        ensures
            self.platform is ConsoleDevices ==> r@ == "CONOUT$"@,
            self.platform is DevicePaths ==> r@ == self.device_identity@,
    {
        match self.platform {
            Platform::ConsoleDevices => "CONOUT$",
            Platform::DevicePaths => self.device_identity.as_str(),
        }
    }

    /// The helper's process id: the identity parsed as a decimal number.
    /// Console attachment on hosts with attachable consoles operates on this
    /// id; `None` when the identity is not such a number.
    pub fn console_pid(&self) -> (r: Option<u32>)
        ensures
            r is Some <==> is_decimal(self.device_identity@) && decimal_val(self.device_identity@)
                <= u32::MAX,
            r is Some ==> r->Some_0 == decimal_val(self.device_identity@),
    {
        parse_decimal_u32(self.device_identity.as_str())
    }
}

} // verus!
