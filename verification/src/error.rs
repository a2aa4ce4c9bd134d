//! Error types for the serial session engine.
//!
//! Every failure in the engine degrades to a session-level state change plus
//! one of these values; nothing here is fatal to the process.

use vstd::prelude::*;

verus! {

/// Main error type of the crate.
#[derive(Debug)]
pub enum SerialBevyError {
    /// Serial port operation failed.
    SerialPort(String),
    /// Failed to open a serial port.
    PortOpen { port_name: String, reason: String },
    /// Failed to read from a serial port.
    PortRead(String),
    /// Failed to write to a serial port.
    PortWrite(String),
    /// Channel communication error.
    Channel(String),
    /// Data encoding/decoding error.
    Encoding(String),
    /// File I/O error.
    FileIo(String),
    /// Invalid configuration.
    InvalidConfig(String),
}

impl SerialBevyError {
    /// The human-readable description of this error.
    pub open spec fn message_spec(&self) -> Seq<char> {
        match self {
            SerialBevyError::SerialPort(m) => "Serial port error: "@ + m@,
            SerialBevyError::PortOpen { port_name, reason } => "Failed to open serial port '"@
                + port_name@ + "': "@ + reason@,
            SerialBevyError::PortRead(m) => "Failed to read from serial port: "@ + m@,
            SerialBevyError::PortWrite(m) => "Failed to write to serial port: "@ + m@,
            SerialBevyError::Channel(m) => "Channel communication error: "@ + m@,
            SerialBevyError::Encoding(m) => "Data encoding error: "@ + m@,
            SerialBevyError::FileIo(m) => "File I/O error: "@ + m@,
            SerialBevyError::InvalidConfig(m) => "Invalid configuration: "@ + m@,
        }
    }

    /// Creates a new serial port error.
    pub fn serial_port(msg: &str) -> (r: Self)
        ensures
            r matches SerialBevyError::SerialPort(m) && m@ == msg@,
    {
        SerialBevyError::SerialPort(msg.to_owned())
    }

    /// Creates a new port open error.
    pub fn port_open(port_name: &str, reason: &str) -> (r: Self)
        ensures
            r matches SerialBevyError::PortOpen { port_name: p, reason: e } && p@ == port_name@
                && e@ == reason@,
    {
        SerialBevyError::PortOpen { port_name: port_name.to_owned(), reason: reason.to_owned() }
    }

    /// Creates a new channel error.
    pub fn channel(msg: &str) -> (r: Self)
        ensures
            r matches SerialBevyError::Channel(m) && m@ == msg@,
    {
        SerialBevyError::Channel(msg.to_owned())
    }

    /// Creates a new encoding error.
    pub fn encoding(msg: &str) -> (r: Self)
        ensures
            r matches SerialBevyError::Encoding(m) && m@ == msg@,
    {
        SerialBevyError::Encoding(msg.to_owned())
    }

    /// Renders the error as one line of text.
    pub fn message(&self) -> (r: String)
        ensures
            r@ == self.message_spec(),
    {
        match self {
            SerialBevyError::SerialPort(m) => {
                let mut s = String::from_str("Serial port error: ");
                s.append(m.as_str());
                s
            },
            SerialBevyError::PortOpen { port_name, reason } => {
                let mut s = String::from_str("Failed to open serial port '");
                s.append(port_name.as_str());
                s.append("': ");
                s.append(reason.as_str());
                s
            },
            SerialBevyError::PortRead(m) => {
                let mut s = String::from_str("Failed to read from serial port: ");
                s.append(m.as_str());
                s
            },
            SerialBevyError::PortWrite(m) => {
                let mut s = String::from_str("Failed to write to serial port: ");
                s.append(m.as_str());
                s
            },
            SerialBevyError::Channel(m) => {
                let mut s = String::from_str("Channel communication error: ");
                s.append(m.as_str());
                s
            },
            SerialBevyError::Encoding(m) => {
                let mut s = String::from_str("Data encoding error: ");
                s.append(m.as_str());
                s
            },
            SerialBevyError::FileIo(m) => {
                let mut s = String::from_str("File I/O error: ");
                s.append(m.as_str());
                s
            },
            SerialBevyError::InvalidConfig(m) => {
                let mut s = String::from_str("Invalid configuration: ");
                s.append(m.as_str());
                s
            },
        }
    }
}

} // verus!
