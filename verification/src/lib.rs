//! The verified core of a music player with voice commands: the playback queue and
//! interface state, the voice-command parser and panel, the artist tree of the library,
//! translations, equalizer parameters, speech-model catalog, and the texts and SQL of
//! the library views.
pub mod eq;
pub mod i18n;
pub mod intent;
pub mod library;
pub mod models;
pub mod player;
pub mod scan;
pub mod session;
pub mod settings;
pub mod text;
pub mod tree;
pub mod voice;
pub mod whisper;
