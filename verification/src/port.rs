//! Serial port state, configuration, and the channel message set.
//!
//! The state of a session is only what was last reported through the bridge;
//! the functions here never guess ahead of the hardware.

use vstd::prelude::*;

verus! {

/// Common baud rates for serial communication.
pub const COMMON_BAUD_RATES: [u32; 14] = [
    4800,
    9600,
    19200,
    38400,
    57600,
    115200,
    230400,
    460800,
    500000,
    576000,
    921600,
    1000000,
    1500000,
    2000000,
];

/// Serial port state.
#[derive(Clone, Copy, Debug, PartialEq, Eq, Structural)]
pub enum PortState {
    /// Port is ready for communication.
    Ready,
    /// Port is closed.
    Close,
    /// Port encountered an error.
    Error,
}

impl PortState {
    /// Returns true if the port is open (`Ready`).
    pub fn is_open(&self) -> (r: bool)
        ensures
            r == (self is Ready),
    {
        matches!(self, PortState::Ready)
    }

    /// Returns true if the port is closed.
    pub fn is_close(&self) -> (r: bool)
        ensures
            r == (self is Close),
    {
        matches!(self, PortState::Close)
    }

    /// Returns true if the port is in error state.
    pub fn is_error(&self) -> (r: bool)
        ensures
            r == (self is Error),
    {
        matches!(self, PortState::Error)
    }

    /// Sets the state to `Ready`.
    pub fn open(&mut self)
        ensures
            *final(self) == PortState::Ready,
    {
        *self = PortState::Ready;
    }

    /// Sets the state to `Close`.
    pub fn close(&mut self)
        ensures
            *final(self) == PortState::Close,
    {
        *self = PortState::Close;
    }

    /// Sets the state to `Error`.
    pub fn error(&mut self)
        ensures
            *final(self) == PortState::Error,
    {
        *self = PortState::Error;
    }
}

/// Number of data bits per character.
#[derive(Clone, Copy, Debug, PartialEq, Eq, Structural)]
pub enum DataBits {
    /// Five data bits.
    Five,
    /// Six data bits.
    Six,
    /// Seven data bits.
    Seven,
    /// Eight data bits.
    Eight,
}

/// Number of stop bits after each character.
#[derive(Clone, Copy, Debug, PartialEq, Eq, Structural)]
pub enum StopBits {
    /// One stop bit.
    One,
    /// Two stop bits.
    Two,
}

/// Parity checking mode.
#[derive(Clone, Copy, Debug, PartialEq, Eq, Structural)]
pub enum Parity {
    /// No parity bit.
    Disabled,
    /// Odd parity.
    Odd,
    /// Even parity.
    Even,
}

/// Flow control mode.
#[derive(Clone, Copy, Debug, PartialEq, Eq, Structural)]
pub enum FlowControl {
    /// No flow control.
    Disabled,
    /// XON/XOFF flow control.
    Software,
    /// RTS/CTS flow control.
    Hardware,
}

/// Serial port configuration, copied by value into a session task when the
/// port is opened; later edits only take effect on the next open.
#[derive(Clone, Debug)]
pub struct PortSettings {
    /// Port name (e.g. "COM1" or "/dev/ttyUSB0").
    pub port_name: String,
    /// Baud rate in bits per second.
    pub baud_rate: u32,
    /// Number of data bits.
    pub data_bits: DataBits,
    /// Number of stop bits.
    pub stop_bits: StopBits,
    /// Parity checking mode.
    pub parity: Parity,
    /// Flow control mode.
    pub flow_control: FlowControl,
    /// I/O timeout, in microseconds.
    pub timeout: u64,
}

impl PortSettings {
    /// True for the default configuration in every field but the port name.
    pub open spec fn default_except_name(&self) -> bool {
        &&& self.baud_rate == 115200
        &&& self.data_bits == DataBits::Eight
        &&& self.stop_bits == StopBits::One
        &&& self.parity == Parity::Disabled
        &&& self.flow_control == FlowControl::Disabled
        &&& self.timeout == 500
    }

    /// True for the configuration every new session starts from.
    pub open spec fn is_default(&self) -> bool {
        &&& self.port_name@ == "Select a port"@
        &&& self.default_except_name()
    }

    /// Creates new port settings with defaults.
    pub fn new() -> (r: Self)
        ensures
            r.is_default(),
    {
        PortSettings {
            port_name: String::from_str("Select a port"),
            baud_rate: 115200,
            data_bits: DataBits::Eight,
            stop_bits: StopBits::One,
            parity: Parity::Disabled,
            flow_control: FlowControl::Disabled,
            timeout: 500,
        }
    }

    /// Copies every field from another settings value.
    pub fn config(&mut self, other: &Self)
        ensures
            final(self).port_name@ == other.port_name@,
            final(self).baud_rate == other.baud_rate,
            final(self).data_bits == other.data_bits,
            final(self).stop_bits == other.stop_bits,
            final(self).parity == other.parity,
            final(self).flow_control == other.flow_control,
            final(self).timeout == other.timeout,
    {
        self.port_name = other.port_name.clone();
        self.baud_rate = other.baud_rate;
        self.data_bits = other.data_bits;
        self.stop_bits = other.stop_bits;
        self.parity = other.parity;
        self.flow_control = other.flow_control;
        self.timeout = other.timeout;
    }

    /// Gets a mutable reference to the port name.
    pub fn port_name(&mut self) -> (r: &mut String)
        ensures
            *r == old(self).port_name,
            *final(self) == (PortSettings { port_name: *final(r), ..*old(self) }),
    {
        &mut self.port_name
    }

    /// Gets a mutable reference to the baud rate.
    pub fn baud_rate(&mut self) -> (r: &mut u32)
        ensures
            *r == old(self).baud_rate,
            *final(self) == (PortSettings { baud_rate: *final(r), ..*old(self) }),
    {
        &mut self.baud_rate
    }

    /// Gets a mutable reference to the data bits.
    pub fn data_size(&mut self) -> (r: &mut DataBits)
        ensures
            *r == old(self).data_bits,
            *final(self) == (PortSettings { data_bits: *final(r), ..*old(self) }),
    {
        &mut self.data_bits
    }

    /// Gets a mutable reference to the stop bits.
    pub fn stop_bits(&mut self) -> (r: &mut StopBits)
        ensures
            *r == old(self).stop_bits,
            *final(self) == (PortSettings { stop_bits: *final(r), ..*old(self) }),
    {
        &mut self.stop_bits
    }

    /// Gets a mutable reference to the parity setting.
    pub fn parity(&mut self) -> (r: &mut Parity)
        ensures
            *r == old(self).parity,
            *final(self) == (PortSettings { parity: *final(r), ..*old(self) }),
    {
        &mut self.parity
    }

    /// Gets a mutable reference to the flow control setting.
    pub fn flow_control(&mut self) -> (r: &mut FlowControl)
        ensures
            *r == old(self).flow_control,
            *final(self) == (PortSettings { flow_control: *final(r), ..*old(self) }),
    {
        &mut self.flow_control
    }

    /// Gets a mutable reference to the timeout, in microseconds.
    pub fn timeout(&mut self) -> (r: &mut u64)
        ensures
            *r == old(self).timeout,
            *final(self) == (PortSettings { timeout: *final(r), ..*old(self) }),
    {
        &mut self.timeout
    }

    /// The display name of the data bits setting.
    pub fn databits_name(&self) -> (r: &'static str)
        ensures
            r@ == match self.data_bits {
                DataBits::Five => "Five"@,
                DataBits::Six => "Six"@,
                DataBits::Seven => "Seven"@,
                DataBits::Eight => "Eight"@,
            },
    {
        match self.data_bits {
            DataBits::Five => "Five",
            DataBits::Six => "Six",
            DataBits::Seven => "Seven",
            DataBits::Eight => "Eight",
        }
    }

    /// The display name of the stop bits setting.
    pub fn stop_bits_name(&self) -> (r: &'static str)
        ensures
            r@ == match self.stop_bits {
                StopBits::One => "One"@,
                StopBits::Two => "Two"@,
            },
    {
        match self.stop_bits {
            StopBits::One => "One",
            StopBits::Two => "Two",
        }
    }

    /// The display name of the parity setting.
    pub fn parity_name(&self) -> (r: &'static str)
        ensures
            r@ == match self.parity {
                Parity::Disabled => "None"@,
                Parity::Odd => "Odd"@,
                Parity::Even => "Even"@,
            },
    {
        match self.parity {
            Parity::Disabled => "None",
            Parity::Odd => "Odd",
            Parity::Even => "Even",
        }
    }

    /// The display name of the flow control setting.
    pub fn flow_control_name(&self) -> (r: &'static str)
        ensures
            r@ == match self.flow_control {
                FlowControl::Disabled => "None"@,
                FlowControl::Software => "Software"@,
                FlowControl::Hardware => "Hardware"@,
            },
    {
        match self.flow_control {
            FlowControl::Disabled => "None",
            FlowControl::Software => "Software",
            FlowControl::Hardware => "Hardware",
        }
    }
}

impl Default for PortSettings {
    /// The configuration every new session starts from.
    fn default() -> (r: Self)
        ensures
            r.is_default(),
    {
        PortSettings::new()
    }
}

/// A payload carried through a session's channels.
#[derive(Clone, Debug)]
pub struct PorRWData {
    /// The raw data bytes.
    pub data: Vec<u8>,
}

/// A message on a session's channels: requests travel into the session task,
/// state and data reports travel back out.
#[derive(Clone, Debug)]
pub enum PortChannelData {
    /// Names of the available serial ports.
    PortName(Vec<String>),
    /// Request to write data to the port.
    PortWrite(PorRWData),
    /// Data read from the port.
    PortRead(PorRWData),
    /// Request to open the port.
    PortOpen,
    /// Request to close the named port.
    PortClose(String),
    /// The port's state changed.
    PortState(PortState),
    /// A port error occurred; the payload describes it.
    PortError(PorRWData),
}

impl PortChannelData {
    /// The port names carried by a `PortName` message; any other message
    /// yields none.
    pub fn into_names(self) -> (r: Vec<String>)
        ensures
            self matches PortChannelData::PortName(names) ==> r == names,
            !(self is PortName) ==> r@.len() == 0,
    {
        match self {
            PortChannelData::PortName(names) => names,
            _ => Vec::new(),
        }
    }
}

} // verus!
