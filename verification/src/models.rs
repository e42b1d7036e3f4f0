pub mod melspectrogram;
pub mod wakeword;
