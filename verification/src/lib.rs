pub mod clock;
pub mod laws;
pub mod mac;
pub mod message;
pub mod signing;

pub use message::MAVLINK_IFLAG_SIGNED;
pub use message::MAVLinkV2MessageRaw;
pub use signing::SigningConfig;
pub use signing::SigningData;
