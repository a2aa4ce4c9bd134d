use serial_bevy::log::log_entry;
use serial_bevy::DataSource;
use serial_bevy::DataType;
use serial_bevy::PorRWData;
use serial_bevy::PortChannelData;
use serial_bevy::PortState;
use serial_bevy::Serial;
use serial_bevy::Serials;
use serial_bevy::SessionTask;
use serial_bevy::TaskEffect;
use serial_bevy::TaskPhase;

#[test]
fn test_send_cache_data_queues_input() {
    let mut serial = Serial::new();
    serial.open();
    *serial.data().get_cache_data().get_current_data() = String::from("hi\n");
    serial.send_cache_data();
    assert_eq!(serial.data().get_cache_data().get_current_data().as_str(), "");
    let batch = serial.send_serial_data().unwrap();
    assert_eq!(batch.file_data, "hi");
    assert_eq!(batch.payload, b"hi".to_vec());
    assert!(batch.port_open);
    // The line break was stripped and the command recorded once.
    let cmd = serial.data().get_cache_data().get_history_data(1);
    assert_eq!(cmd, "hi");
}

#[test]
fn test_send_cache_data_keeps_line_feed_when_asked() {
    let mut serial = Serial::new();
    serial.open();
    *serial.data().line_feed() = true;
    *serial.data().get_cache_data().get_current_data() = String::from("hi\n");
    serial.send_cache_data();
    let batch = serial.send_serial_data().unwrap();
    assert_eq!(batch.payload, b"hi\n".to_vec());
    // The history entry is still stripped.
    assert_eq!(serial.data().get_cache_data().get_history_data(1), "hi");
}

#[test]
fn test_send_cache_data_ignores_closed_session() {
    let mut serial = Serial::new();
    *serial.data().get_cache_data().get_current_data() = String::from("hi\n");
    serial.send_cache_data();
    assert_eq!(
        serial.data().get_cache_data().get_current_data().as_str(),
        "hi\n"
    );
    assert!(serial.send_serial_data().is_none());
}

#[test]
fn test_send_serial_data_joins_and_encodes() {
    let mut serial = Serial::new();
    serial.data().send_data(String::from("a"));
    serial.data().send_data(String::from("b"));
    let batch = serial.send_serial_data().unwrap();
    assert_eq!(batch.file_data, "a\nb");
    assert_eq!(batch.payload, b"ab".to_vec());
    assert!(!batch.port_open);
    assert!(serial.send_serial_data().is_none());
}

#[test]
fn test_send_serial_data_hex_encoding() {
    let mut serial = Serial::new();
    serial.data().set_data_type(DataType::Hex);
    serial.data().send_data(String::from("48 65"));
    let batch = serial.send_serial_data().unwrap();
    assert_eq!(batch.payload, vec![0x48, 0x65]);
}

#[test]
fn test_history_data_checkout_navigation() {
    let mut serial = Serial::new();
    serial.open();
    for cmd in ["a\n", "b\n"] {
        *serial.data().get_cache_data().get_current_data() = String::from(cmd);
        serial.send_cache_data();
    }
    serial.history_data_checkout(false);
    assert_eq!(
        serial.data().get_cache_data().get_current_data().as_str(),
        "a"
    );
    serial.history_data_checkout(true);
    assert_eq!(
        serial.data().get_cache_data().get_current_data().as_str(),
        "b"
    );
}

#[test]
fn test_receive_state_messages() {
    let mut serial = Serial::new();
    assert!(serial
        .receive_serial_data(PortChannelData::PortState(PortState::Ready))
        .is_none());
    assert!(serial.is_open());
    serial.ensure_task(1);
    assert!(serial
        .receive_serial_data(PortChannelData::PortState(PortState::Close))
        .is_none());
    assert!(serial.is_close());
    assert!(serial.thread_handle.is_none());
    assert!(serial
        .receive_serial_data(PortChannelData::PortState(PortState::Error))
        .is_none());
    assert!(serial.is_error());
}

#[test]
fn test_receive_data_produces_log_request() {
    let mut serial = Serial::new();
    let req = serial
        .receive_serial_data(PortChannelData::PortRead(PorRWData {
            data: b"hi".to_vec(),
        }))
        .unwrap();
    assert_eq!(req.source, DataSource::Read);
    assert_eq!(req.data, b"hi".to_vec());
}

#[test]
fn test_receive_error_decodes_and_marks_error() {
    let mut serial = Serial::new();
    serial.ensure_task(9);
    let req = serial
        .receive_serial_data(PortChannelData::PortError(PorRWData {
            data: b"open port failed".to_vec(),
        }))
        .unwrap();
    assert_eq!(req.source, DataSource::Error);
    assert_eq!(req.data, b"open port failed".to_vec());
    assert!(serial.is_error());
    // The task that reported the error has terminated: the handle is free.
    assert!(serial.thread_handle.is_none());
}

#[test]
fn test_full_session_scenario() {
    // Open "COM3" at 115200-8N1, write b"hi", close: the session announces
    // Ready, the traffic log carries a "sent" line with "hi", the close is
    // announced and the task handle is cleared.
    let mut serials = Serials::new();
    serials.update_serial_port_names(&vec![String::from("COM3")]);
    let serial = &mut serials.serial[0];
    assert_eq!(serial.set.port_name, "COM3");
    assert_eq!(serial.set.baud_rate, 115200);
    assert!(serial.ensure_task(1));

    let mut task = SessionTask::new();
    let effects = task.on_outbound(&PortChannelData::PortOpen);
    assert!(matches!(effects[0], TaskEffect::OpenPort));
    let effects = task.on_open_result(true);
    match &effects[0] {
        TaskEffect::Emit(msg) => {
            assert!(serial.receive_serial_data(msg.clone()).is_none());
        }
        _ => panic!("expected an emitted state"),
    }
    assert!(serial.is_open());

    *serial.data().get_cache_data().get_current_data() = String::from("hi\n");
    serial.send_cache_data();
    let batch = serial.send_serial_data().unwrap();
    assert!(batch.port_open);
    let logged = log_entry("20240102 03:04:05.006", DataSource::Write, batch.file_data.as_bytes());
    let text = String::from_utf8(logged).unwrap();
    assert!(text.contains(" T]"));
    assert!(text.contains("hi"));

    let effects = task.on_outbound(&PortChannelData::PortWrite(PorRWData {
        data: batch.payload,
    }));
    match &effects[0] {
        TaskEffect::WriteBytes(b) => assert_eq!(b, &b"hi".to_vec()),
        _ => panic!("expected a write"),
    }

    let effects = task.on_outbound(&PortChannelData::PortClose(String::from("COM3")));
    match &effects[0] {
        TaskEffect::Emit(msg) => {
            assert!(serial.receive_serial_data(msg.clone()).is_none());
        }
        _ => panic!("expected the announced close"),
    }
    assert_eq!(task.phase(), TaskPhase::Terminated);
    assert!(serial.is_close());
    assert!(serial.thread_handle.is_none());
}
