//! Plain data shared by the library, the indexer and the voice-command parser.
use vstd::prelude::*;

use std::sync::atomic::{AtomicBool, Ordering};
use std::sync::Arc;

verus! {

/// A structured search over the track library; every field that is set must match.
#[derive(Debug, Clone)]
pub struct SearchQuery {
    pub text: Option<String>,
    pub artist: Option<String>,
    pub album: Option<String>,
    pub genre: Option<String>,
}

/// Summary of a finished library scan.
#[derive(Debug, Clone, Copy, PartialEq, Eq, Structural)]
pub struct SyncStatus {
    pub total_tracks: usize,
    pub new_tracks: usize,
    pub removed_tracks: usize,
    pub scan_duration_ms: u64,
}

/// A cancellation flag shared between the interface and the scanning threads.
///
/// Other threads may set or clear the flag at any moment, so nothing is promised
/// about the value a read returns.
#[derive(Clone)]
pub struct ScanCancellation(Arc<AtomicBool>);

impl ScanCancellation {
    /// A flag that is not set.
    pub fn new() -> Self {
        ScanCancellation(Arc::new(AtomicBool::new(false)))
    }

    /// Sets the flag.
    pub fn cancel(&self) {
        self.0.store(true, Ordering::Relaxed);
    }

    /// Reads the flag.
    pub fn is_cancelled(&self) -> bool {
        self.0.load(Ordering::Relaxed)
    }

    /// Clears the flag.
    pub fn reset(&self) {
        self.0.store(false, Ordering::Relaxed);
    }
}

/// Action of a voice command.
#[derive(Debug, Clone, Copy, PartialEq, Eq, Structural)]
pub enum IntentAction {
    Play,
    Queue,
    Search,
    Pause,
    Resume,
    Next,
    Previous,
    Stop,
    VolumeUp,
    VolumeDown,
    Shuffle,
    ClearQueue,
}

/// Optional query fields of a content-based voice command.
#[derive(Debug, Clone)]
pub struct IntentQuery {
    pub artist: Option<String>,
    pub title: Option<String>,
    pub album: Option<String>,
    pub genre: Option<String>,
    pub mood: Option<String>,
    pub free_text: Option<String>,
}

impl Default for IntentQuery {
    fn default() -> (q: Self)
        ensures
            q.artist is None,
            q.title is None,
            q.album is None,
            q.genre is None,
            q.mood is None,
            q.free_text is None,
    {
        IntentQuery { artist: None, title: None, album: None, genre: None, mood: None, free_text: None }
    }
}

/// A structured music command extracted from a voice command.
#[derive(Debug, Clone)]
pub struct MusicIntent {
    pub action: IntentAction,
    pub query: Option<IntentQuery>,
}

/// Entry of the speech-model catalog.
#[derive(Debug, Clone)]
pub struct ModelInfo {
    pub id: String,
    pub url: String,
    pub downloaded: bool,
    pub loaded: bool,
}

} // verus!
