use serial_bevy::registry::usb_port_names;
use serial_bevy::registry::DiscoveredPort;
use serial_bevy::Serial;
use serial_bevy::Serials;

#[test]
fn test_serials_new() {
    let serials = Serials::new();
    assert!(serials.is_empty());
}

#[test]
fn test_serials_add() {
    let mut serials = Serials::new();
    serials.add(Serial::new());
    assert_eq!(serials.len(), 1);
}

#[test]
fn test_serials_remove_and_get() {
    let mut serials = Serials::new();
    let mut a = Serial::new();
    a.set.port_name = String::from("A");
    let mut b = Serial::new();
    b.set.port_name = String::from("B");
    serials.add(a);
    serials.add(b);
    serials.remove(0);
    assert_eq!(serials.len(), 1);
    assert_eq!(serials.get(0).set.port_name, "B");
}

#[test]
fn test_reconcile_keeps_discovered_and_adds_new() {
    let mut serials = Serials::new();
    let mut a = Serial::new();
    a.set.port_name = String::from("A");
    let mut b = Serial::new();
    b.set.port_name = String::from("B");
    b.set.baud_rate = 9600;
    serials.add(a);
    serials.add(b);

    let discovered = vec![String::from("B"), String::from("C")];
    serials.update_serial_port_names(&discovered);

    assert_eq!(serials.len(), 2);
    assert_eq!(serials.get(0).set.port_name, "B");
    assert_eq!(serials.get(1).set.port_name, "C");
    // "B" kept its prior state object: the changed baud rate survives.
    assert_eq!(serials.get(0).set.baud_rate, 9600);
    // "C" was created closed, with no task and default settings.
    let c = &mut serials.serial[1];
    assert!(c.is_close());
    assert!(c.thread_handle.is_none());
    assert_eq!(c.set.baud_rate, 115200);
}

#[test]
fn test_reconcile_idempotent_names() {
    let mut serials = Serials::new();
    let discovered = vec![String::from("X"), String::from("Y")];
    serials.update_serial_port_names(&discovered);
    assert_eq!(serials.len(), 2);
    // A second pass over the same discovery report changes nothing, not
    // even a session edited in between.
    serials.serial[0].set.baud_rate = 9600;
    serials.update_serial_port_names(&discovered);
    assert_eq!(serials.len(), 2);
    assert_eq!(serials.get(0).set.port_name, "X");
    assert_eq!(serials.get(0).set.baud_rate, 9600);
    assert_eq!(serials.get(1).set.port_name, "Y");
}

#[test]
fn test_usb_port_names_filter() {
    let ports = vec![
        DiscoveredPort {
            name: String::from("/dev/ttyUSB0"),
            is_usb: true,
        },
        DiscoveredPort {
            name: String::from("/dev/ttyS0"),
            is_usb: false,
        },
        DiscoveredPort {
            name: String::from("/dev/ttyACM1"),
            is_usb: true,
        },
    ];
    let names = usb_port_names(&ports);
    assert_eq!(names, vec![String::from("/dev/ttyUSB0"), String::from("/dev/ttyACM1")]);
}

#[test]
fn test_ensure_task_single_spawn() {
    let mut serial = Serial::new();
    assert!(serial.thread_handle.is_none());
    let first = serial.ensure_task(7);
    let second = serial.ensure_task(8);
    assert!(first);
    assert!(!second);
    assert_eq!(serial.thread_handle, Some(7));
}

#[test]
fn test_ensure_task_after_close() {
    let mut serial = Serial::new();
    assert!(serial.ensure_task(1));
    serial.close();
    assert!(serial.thread_handle.is_none());
    assert!(serial.ensure_task(2));
    assert_eq!(serial.thread_handle, Some(2));
}
