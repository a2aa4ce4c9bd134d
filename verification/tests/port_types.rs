use serial_bevy::DataBits;
use serial_bevy::DataType;
use serial_bevy::FlowControl;
use serial_bevy::LlmConfig;
use serial_bevy::LlmState;
use serial_bevy::Parity;
use serial_bevy::PorRWData;
use serial_bevy::PortChannelData;
use serial_bevy::PortSettings;
use serial_bevy::PortState;
use serial_bevy::StopBits;

#[test]
fn test_port_settings_default() {
    let settings = PortSettings::default();
    assert_eq!(settings.baud_rate, 115200);
    assert_eq!(settings.data_bits, DataBits::Eight);
    assert_eq!(settings.stop_bits, StopBits::One);
    assert_eq!(settings.parity, Parity::Disabled);
}

#[test]
fn test_port_settings_names() {
    let settings = PortSettings::new();
    assert_eq!(settings.databits_name(), "Eight");
    assert_eq!(settings.stop_bits_name(), "One");
    assert_eq!(settings.parity_name(), "None");
    assert_eq!(settings.flow_control_name(), "None");
}

#[test]
fn test_port_settings_config() {
    let mut a = PortSettings::new();
    let mut b = PortSettings::new();
    b.port_name = String::from("COM7");
    b.baud_rate = 9600;
    b.parity = Parity::Even;
    b.flow_control = FlowControl::Software;
    a.config(&b);
    assert_eq!(a.port_name, "COM7");
    assert_eq!(a.baud_rate, 9600);
    assert_eq!(a.parity, Parity::Even);
    assert_eq!(a.flow_control, FlowControl::Software);
}

#[test]
fn test_state_transitions() {
    let mut state = PortState::Close;
    assert!(state.is_close());

    state.open();
    assert!(state.is_open());

    state.error();
    assert!(state.is_error());

    state.close();
    assert!(state.is_close());
}

#[test]
fn test_data_type_display() {
    assert_eq!(DataType::Hex.as_str(), "Hex");
    assert_eq!(DataType::Utf8.as_str(), "UTF-8");
}

#[test]
fn test_data_type_names() {
    assert_eq!(DataType::Hex.as_str_en(), "Hexadecimal");
    assert_eq!(DataType::Gbk.description(), "GBK Chinese encoding");
}

#[test]
fn test_port_channel_data_conversion() {
    let data = PortChannelData::PortName(vec![String::from("COM1"), String::from("COM2")]);
    let names: Vec<String> = data.into_names();
    assert_eq!(names.len(), 2);

    let data = PortChannelData::PortOpen;
    let names: Vec<String> = data.into_names();
    assert!(names.is_empty());
}

#[test]
fn test_port_rw_data_clone() {
    let d = PorRWData { data: vec![1, 2, 3] };
    let e = d.clone();
    assert_eq!(e.data, vec![1, 2, 3]);
}

#[test]
fn test_llm_config() {
    let mut config = LlmConfig::new();
    assert!(!*config.enable());
    assert_eq!(config.get_model(), "glm-4-flash");

    config.set_model("gpt-4");
    assert_eq!(config.get_model(), "gpt-4");
}

#[test]
fn test_llm_state() {
    let mut state = LlmState::Ready;
    assert!(state.is_ready());

    state.set_state(LlmState::Processing);
    assert!(state.is_processing());

    state.set_state(LlmState::Error);
    assert!(state.is_error());
}
