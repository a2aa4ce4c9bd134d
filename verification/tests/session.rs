use serial_bevy::session::read_step;
use serial_bevy::session::shutdown_requested;
use serial_bevy::PorRWData;
use serial_bevy::PortChannelData;
use serial_bevy::PortState;
use serial_bevy::SessionTask;
use serial_bevy::TaskEffect;
use serial_bevy::TaskPhase;

#[test]
fn test_task_waits_for_open_request() {
    let mut task = SessionTask::new();
    assert_eq!(task.phase(), TaskPhase::AwaitingOpen);
    // Everything but an open request is ignored in this phase.
    let effects = task.on_outbound(&PortChannelData::PortWrite(PorRWData { data: vec![1] }));
    assert!(effects.is_empty());
    assert_eq!(task.phase(), TaskPhase::AwaitingOpen);
    let effects = task.on_outbound(&PortChannelData::PortOpen);
    assert_eq!(effects.len(), 1);
    assert!(matches!(effects[0], TaskEffect::OpenPort));
    assert_eq!(task.phase(), TaskPhase::Opening);
}

#[test]
fn test_open_success_announces_ready() {
    let mut task = SessionTask::new();
    task.on_outbound(&PortChannelData::PortOpen);
    let effects = task.on_open_result(true);
    assert_eq!(task.phase(), TaskPhase::Ready);
    assert_eq!(effects.len(), 2);
    assert!(matches!(
        effects[0],
        TaskEffect::Emit(PortChannelData::PortState(PortState::Ready))
    ));
    assert!(matches!(effects[1], TaskEffect::SpawnRead));
}

#[test]
fn test_open_failure_terminates_never_ready() {
    let mut task = SessionTask::new();
    task.on_outbound(&PortChannelData::PortOpen);
    let effects = task.on_open_result(false);
    assert_eq!(task.phase(), TaskPhase::Terminated);
    assert_eq!(effects.len(), 2);
    match &effects[0] {
        TaskEffect::Emit(PortChannelData::PortError(d)) => {
            assert_eq!(d.data, b"open port failed".to_vec());
        }
        _ => panic!("expected an emitted error"),
    }
    assert!(matches!(effects[1], TaskEffect::Exit));
    // No later message revives the task or announces Ready.
    let effects = task.on_outbound(&PortChannelData::PortOpen);
    assert!(effects.is_empty());
    let effects = task.on_outbound(&PortChannelData::PortWrite(PorRWData { data: vec![1] }));
    assert!(effects.is_empty());
    assert_eq!(task.phase(), TaskPhase::Terminated);
}

#[test]
fn test_open_failure_session_recovers() {
    // A failed open surfaces as an error, never as Ready; clearing the error
    // closes the session, drops the task handle, and a fresh task can claim
    // the session again.
    let mut serial = serial_bevy::Serial::new();
    assert!(serial.ensure_task(1));
    let mut task = SessionTask::new();
    task.on_outbound(&PortChannelData::PortOpen);
    let effects = task.on_open_result(false);
    match &effects[0] {
        TaskEffect::Emit(msg) => {
            let req = serial.receive_serial_data(msg.clone()).unwrap();
            assert_eq!(req.data, b"open port failed".to_vec());
        }
        _ => panic!("expected an emitted error"),
    }
    assert!(serial.is_error());
    assert!(!serial.is_open());
    // The failed task's handle is released with the error itself, so a
    // subsequent open can proceed with a fresh task.
    assert!(serial.thread_handle.is_none());
    assert!(serial.ensure_task(2));
    // Clearing the error closes the session for the next open request.
    serial.close();
    assert!(serial.is_close());
    assert!(serial.thread_handle.is_none());
}

#[test]
fn test_write_then_close_order() {
    let mut task = SessionTask::new();
    task.on_outbound(&PortChannelData::PortOpen);
    task.on_open_result(true);
    // FIFO delivery: the write queued before the close is attempted first.
    let effects = task.on_outbound(&PortChannelData::PortWrite(PorRWData {
        data: b"abc".to_vec(),
    }));
    assert_eq!(effects.len(), 1);
    match &effects[0] {
        TaskEffect::WriteBytes(b) => assert_eq!(b, &b"abc".to_vec()),
        _ => panic!("expected a write"),
    }
    let effects = task.on_outbound(&PortChannelData::PortClose(String::from("COM1")));
    assert_eq!(effects.len(), 3);
    assert!(matches!(
        effects[0],
        TaskEffect::Emit(PortChannelData::PortState(PortState::Close))
    ));
    assert!(matches!(effects[1], TaskEffect::AbortRead));
    assert!(matches!(effects[2], TaskEffect::Exit));
    assert_eq!(task.phase(), TaskPhase::Terminated);
}

#[test]
fn test_write_failure_tears_down_silently() {
    let mut task = SessionTask::new();
    task.on_outbound(&PortChannelData::PortOpen);
    task.on_open_result(true);
    let effects = task.on_write_failed();
    assert_eq!(task.phase(), TaskPhase::Terminated);
    assert_eq!(effects.len(), 2);
    assert!(matches!(effects[0], TaskEffect::AbortRead));
    assert!(matches!(effects[1], TaskEffect::Exit));
}

#[test]
fn test_read_step() {
    let r = read_step(3, b"abcdef");
    match r {
        Some(PortChannelData::PortRead(d)) => assert_eq!(d.data, b"abc".to_vec()),
        _ => panic!("expected read data"),
    }
    assert!(read_step(0, b"abcdef").is_none());
}

#[test]
fn test_shutdown_requested() {
    assert!(shutdown_requested(&PortChannelData::PortClose(String::from(
        "COM1"
    ))));
    assert!(!shutdown_requested(&PortChannelData::PortOpen));
}
