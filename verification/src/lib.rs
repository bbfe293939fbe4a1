pub mod buffer;
pub mod codec;
pub mod connection;
pub mod error;
pub mod handler;
pub mod idle;
pub mod message_system;
pub mod messages;
pub mod package;
pub mod session;
pub mod wheel_timer;

pub use buffer::Buffer;
pub use codec::Codec;
pub use connection::Connection;
pub use error::IMError;
pub use message_system::MessageSystem;
pub use package::Package;
pub use session::Session;
pub use session::SessionManager;
pub use wheel_timer::WheelTimer;
