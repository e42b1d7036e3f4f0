pub mod capture;
pub mod channel;
pub mod pulse_capture;

pub use channel::ChannelExtractor;
