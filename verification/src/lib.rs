pub mod alsa_volume;
pub mod audio;
pub mod audio_capture;
pub mod audio_sink;
pub mod audio_source;
pub mod consumer_server;
pub mod error;
pub mod led_engine;
pub mod led_notify;
pub mod led_ring;
pub mod llm;
pub mod models;
pub mod mpv_controller;
pub mod pipeline;
pub mod platform;
pub mod producer_server;
pub mod protocol;
pub mod resampler;
pub mod speech_producer;
pub mod spotify_control;
pub mod spotify_controller;
pub mod stt;
pub mod text;
pub mod tts;
pub mod vad;
pub mod wakeword_utils;
pub mod wakeword_vad;
