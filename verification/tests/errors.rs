use serial_bevy::SerialBevyError;

#[test]
fn test_serial_port_error() {
    let error = SerialBevyError::serial_port("Connection refused");
    assert!(error.message().contains("Connection refused"));
}

#[test]
fn test_port_open_error() {
    let error = SerialBevyError::port_open("/dev/ttyUSB0", "Permission denied");
    let msg = error.message();
    assert!(msg.contains("/dev/ttyUSB0"));
    assert!(msg.contains("Permission denied"));
}

#[test]
fn test_channel_error() {
    let error = SerialBevyError::channel("Receiver dropped");
    assert!(error.message().contains("Receiver dropped"));
}

#[test]
fn test_encoding_error() {
    let error = SerialBevyError::encoding("Invalid hex string");
    assert!(error.message().contains("Invalid hex string"));
}

#[test]
fn test_exact_error_messages() {
    assert_eq!(
        SerialBevyError::serial_port("boom").message(),
        "Serial port error: boom"
    );
    assert_eq!(
        SerialBevyError::port_open("COM9", "busy").message(),
        "Failed to open serial port 'COM9': busy"
    );
    assert_eq!(
        SerialBevyError::PortRead(String::from("eof")).message(),
        "Failed to read from serial port: eof"
    );
    assert_eq!(
        SerialBevyError::PortWrite(String::from("full")).message(),
        "Failed to write to serial port: full"
    );
    assert_eq!(
        SerialBevyError::channel("closed").message(),
        "Channel communication error: closed"
    );
    assert_eq!(
        SerialBevyError::encoding("bad").message(),
        "Data encoding error: bad"
    );
    assert_eq!(
        SerialBevyError::FileIo(String::from("denied")).message(),
        "File I/O error: denied"
    );
    assert_eq!(
        SerialBevyError::InvalidConfig(String::from("baud")).message(),
        "Invalid configuration: baud"
    );
}
