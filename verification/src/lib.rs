//! Serial-session engine: a verified core for a tick-driven serial port tool.
//!
//! The crate models each serial connection as a session with immutable-per-open
//! settings, a small lifecycle state machine, an outbound queue, command
//! history, and a traffic log.  Byte/text conversion between the supported
//! encoding schemes is provided as pure, fully specified functions.  The
//! asynchronous runtime, the hardware handles and all file handling live
//! outside this crate; they drive the functions here and perform the effects
//! these functions decide on.

pub mod data;
pub mod encoding;
pub mod error;
pub mod llm;
pub mod log;
pub mod port;
pub mod registry;
pub mod serial;
pub mod session;
pub mod text;

pub use data::CacheData;
pub use data::PortData;
pub use encoding::decode_bytes;
pub use encoding::encode_hex;
pub use encoding::encode_string;
pub use encoding::DataType;
pub use error::SerialBevyError;
pub use llm::LlmConfig;
pub use llm::LlmMessage;
pub use llm::LlmState;
pub use log::DataSource;
pub use port::DataBits;
pub use port::FlowControl;
pub use port::Parity;
pub use port::PorRWData;
pub use port::PortChannelData;
pub use port::PortSettings;
pub use port::PortState;
pub use port::StopBits;
pub use registry::Serials;
pub use serial::Serial;
pub use session::SessionTask;
pub use session::TaskEffect;
pub use session::TaskPhase;
