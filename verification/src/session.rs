//! Playback queue and the user-interface state of a listening session.
//!
//! Every function here takes the current state and one user event and
//! returns the next state together with what the audio player has to do.
//! The caller performs that command (loading a file, pausing the sink, ...).
use vstd::prelude::*;

use crate::player::PlayState;
use std::collections::VecDeque;
use crate::text::str_eq;

verus! {

/// Repeat mode for the queue.
#[derive(Debug, Clone, Copy, PartialEq, Eq, Structural)]
pub enum RepeatMode {
    Off,
    All,
    One,
}

/// The repeat mode that follows `m` when the repeat button is pressed.
pub open spec fn next_repeat_mode(m: RepeatMode) -> RepeatMode {
    match m {
        RepeatMode::Off => RepeatMode::All,
        RepeatMode::All => RepeatMode::One,
        RepeatMode::One => RepeatMode::Off,
    }
}

impl RepeatMode {
    /// Off -> All -> One -> Off.
    pub fn cycle(self) -> (r: Self)
        ensures
            r == next_repeat_mode(self),
    {
        match self {
            RepeatMode::Off => RepeatMode::All,
            RepeatMode::All => RepeatMode::One,
            RepeatMode::One => RepeatMode::Off,
        }
    }
}

/// Pressing the repeat button three times brings back the mode one started from.
pub proof fn lemma_repeat_cycle_period_three(m: RepeatMode)
    ensures
        next_repeat_mode(next_repeat_mode(next_repeat_mode(m))) == m,
        next_repeat_mode(m) != m,
{
}

/// Active tab in the main window.
#[derive(Debug, Clone, Copy, PartialEq, Eq, Structural)]
pub enum Tab {
    Library,
    Search,
    Voice,
    Equalizer,
}

/// The list a track action refers to.
#[derive(Debug, Clone, Copy, PartialEq, Eq, Structural)]
pub enum TrackSource {
    Library,
    Search,
    Queue,
}

/// Track context actions (right-click menu or inline button).
#[derive(Debug, Clone, Copy, PartialEq, Eq, Structural)]
pub enum TrackAction {
    PlayNow,
    PlayNext,
    AddToQueue,
    RemoveFromQueue,
}

/// Library view mode toggle.
#[derive(Debug, Clone, Copy, PartialEq, Eq, Structural)]
pub enum LibraryViewMode {
    AllTracks,
    ArtistTree,
}

/// What the audio player has to do after an event was applied.
#[derive(Debug, Clone, Copy, PartialEq, Eq, Structural)]
pub enum PlayerCommand {
    /// Leave the player alone.
    Nothing,
    /// Load and start the track at the current index (nothing when there is none).
    PlayCurrent,
    /// Stop the player.
    Stop,
    /// Toggle between playing and paused.
    TogglePause,
}

/// The row a context menu was opened on.
#[derive(Debug, Clone, Copy, PartialEq, Eq, Structural)]
pub struct ContextMenuTarget {
    pub source: TrackSource,
    pub track_index: usize,
}

/// How many recently scanned file names the scan window keeps.
pub const RECENT_FILES_CAP: usize = 50;

/// The index a shuffle step picks: the low 32 bits of `rand`, read as a signed
/// number, taken by magnitude modulo the queue length.
pub open spec fn shuffle_pick(rand: u64, len: nat) -> int
    recommends
        len > 0,
{
    let low = (rand as int) % 0x1_0000_0000;
    let magnitude = if low >= 0x8000_0000 {
        0x1_0000_0000 - low
    } else {
        low
    };
    magnitude % (len as int)
}

/// The index that follows `current` for a step forward or backward, when shuffle is off.
/// `None` means that the step goes past an end of the queue and repeat is not `All`.
pub open spec fn linear_step(current: int, forward: bool, len: int, repeat: RepeatMode) -> Option<
    int,
> {
    let n = if forward {
        current + 1
    } else {
        current - 1
    };
    if n < 0 {
        if repeat == RepeatMode::All {
            Some(len - 1)
        } else {
            None
        }
    } else if n >= len {
        if repeat == RepeatMode::All {
            Some(0)
        } else {
            None
        }
    } else {
        Some(n)
    }
}

/// Chooses the shuffle index from a random value (see `shuffle_pick`).
pub fn shuffle_index(rand: u64, len: usize) -> (r: usize)
    requires
        len > 0,
    ensures
        r == shuffle_pick(rand, len as nat),
        r < len,
{
    let low: u64 = rand % 0x1_0000_0000;
    let magnitude: u64 = if low >= 0x8000_0000 {
        0x1_0000_0000 - low
    } else {
        low
    };
    (magnitude % (len as u64)) as usize
}

/// The state of one listening session: the play queue, the library lists
/// the queue is filled from, and the interface flags that steer the events.
pub struct Session<T> {
    /// The play queue; the single source of truth for playback and the queue panel.
    pub playlist: Vec<T>,
    /// Index into `playlist` of the track that plays.
    pub current_index: Option<usize>,
    pub shuffle: bool,
    pub repeat: RepeatMode,
    /// The whole library, as last loaded.
    pub all_tracks: Vec<T>,
    pub search_query: String,
    pub search_results: Vec<T>,
    pub library_view_mode: LibraryViewMode,
    /// Artists whose rows are unfolded in the artist tree; no name occurs twice.
    pub expanded_artists: Vec<String>,
    pub active_tab: Tab,
    pub settings_open: bool,
    pub context_menu: Option<ContextMenuTarget>,
    pub input_focused: bool,
    pub is_scanning: bool,
    pub scan_modal_open: bool,
    /// The most recently scanned files, oldest first.
    pub scan_recent_files: VecDeque<String>,
}

/// The current index, when there is one, points into the playlist; the expanded
/// artists hold no name twice; at most `RECENT_FILES_CAP` recent files are kept.
pub open spec fn session_wf<T>(s: Session<T>) -> bool {
    &&& (s.current_index matches Some(i) ==> i < s.playlist@.len())
    &&& no_duplicates(s.expanded_artists@.map_values(|a: String| a@))
    &&& s.scan_recent_files@.len() <= RECENT_FILES_CAP
}

/// No element occurs twice.
pub open spec fn no_duplicates<A>(s: Seq<A>) -> bool {
    forall|i: int, j: int| 0 <= i < s.len() && 0 <= j < s.len() && i != j ==> s[i] != s[j]
}

/// `set` with `a` taken out when it is in, and put in otherwise.
pub open spec fn toggle_membership(set: Set<Seq<char>>, a: Seq<char>) -> Set<Seq<char>> {
    if set.contains(a) {
        set.remove(a)
    } else {
        set.insert(a)
    }
}

/// Folding an artist of the tree out and back in (or in and back out) restores the
/// set of unfolded artists.
pub proof fn lemma_toggle_artist_twice(set: Set<Seq<char>>, a: Seq<char>)
    ensures
        toggle_membership(toggle_membership(set, a), a) == set,
{
    assert(toggle_membership(toggle_membership(set, a), a) =~= set);
}

/// The set of artist names that are unfolded.
pub open spec fn expanded_set<T>(s: Session<T>) -> Set<Seq<char>> {
    s.expanded_artists@.map_values(|a: String| a@).to_set()
}

/// The fields that the queue operations leave alone.
pub open spec fn same_library_and_ui<T>(a: Session<T>, b: Session<T>) -> bool {
    &&& a.all_tracks == b.all_tracks
    &&& a.search_results == b.search_results
    &&& a.search_query == b.search_query
    &&& a.library_view_mode == b.library_view_mode
    &&& a.expanded_artists == b.expanded_artists
    &&& a.active_tab == b.active_tab
    &&& a.settings_open == b.settings_open
    &&& a.input_focused == b.input_focused
    &&& a.is_scanning == b.is_scanning
    &&& a.scan_modal_open == b.scan_modal_open
    &&& a.scan_recent_files == b.scan_recent_files
}

impl<T: Clone> Session<T> {
    pub open spec fn wf(&self) -> bool {
        session_wf(*self)
    }

    /// A session with an empty queue and library, on the Library tab.
    pub fn new() -> (s: Self)
        ensures
            s.wf(),
            s.playlist@.len() == 0,
            s.current_index is None,
            !s.shuffle,
            s.repeat == RepeatMode::Off,
            s.all_tracks@.len() == 0,
            s.search_query@.len() == 0,
            s.search_results@.len() == 0,
            s.library_view_mode == LibraryViewMode::AllTracks,
            s.expanded_artists@.len() == 0,
            s.active_tab == Tab::Library,
            !s.settings_open,
            s.context_menu is None,
            !s.input_focused,
            !s.is_scanning,
            !s.scan_modal_open,
            s.scan_recent_files@.len() == 0,
    {
        Session {
            playlist: Vec::new(),
            current_index: None,
            shuffle: false,
            repeat: RepeatMode::Off,
            all_tracks: Vec::new(),
            search_query: String::new(),
            search_results: Vec::new(),
            library_view_mode: LibraryViewMode::AllTracks,
            expanded_artists: Vec::new(),
            active_tab: Tab::Library,
            settings_open: false,
            context_menu: None,
            input_focused: false,
            is_scanning: false,
            scan_modal_open: false,
            scan_recent_files: VecDeque::new(),
        }
    }

    /// The track the current index points at.
    pub fn current_track(&self) -> (r: Option<&T>)
        requires
            self.wf(),
        ensures
            match self.current_index {
                Some(i) => r == Some(&self.playlist@[i as int]),
                None => r is None,
            },
    {
        match self.current_index {
            Some(i) => Some(&self.playlist[i]),
            None => None,
        }
    }

    /// Steps forward or backward through the queue (see `advance_outcome`).
    pub fn advance(&mut self, forward: bool, rand: u64) -> (cmd: PlayerCommand)
        requires
            old(self).wf(),
        ensures
            final(self).wf(),
            ({
                let (c, k) = advance_outcome(
                    old(self).playlist@.len() as int,
                    old(self).current_index,
                    old(self).shuffle,
                    old(self).repeat,
                    forward,
                    rand,
                );
                *final(self) == with_current(*old(self), c) && cmd == k
            }),
            old(self).shuffle && old(self).repeat != RepeatMode::One && old(self).playlist@.len()
                > 0 ==> final(self).current_index == Some(
                shuffle_pick(rand, old(self).playlist@.len()) as usize,
            ) && cmd == PlayerCommand::PlayCurrent,
    {
        let len = self.playlist.len();
        if len == 0 {
            return PlayerCommand::Nothing;
        }
        if self.repeat == RepeatMode::One {
            return PlayerCommand::PlayCurrent;
        }
        let current: usize = match self.current_index {
            Some(i) => i,
            None => 0,
        };
        let next: usize = if self.shuffle {
            shuffle_index(rand, len)
        } else if forward {
            if current + 1 >= len {
                if self.repeat == RepeatMode::All {
                    0
                } else {
                    return PlayerCommand::Stop;
                }
            } else {
                current + 1
            }
        } else {
            if current == 0 {
                if self.repeat == RepeatMode::All {
                    len - 1
                } else {
                    return PlayerCommand::Nothing;
                }
            } else {
                current - 1
            }
        };
        self.current_index = Some(next);
        PlayerCommand::PlayCurrent
    }

    /// The "next track" button: ignored while a text field has focus or the settings are open.
    pub fn next_track(&mut self, rand: u64) -> (cmd: PlayerCommand)
        requires
            old(self).wf(),
        ensures
            final(self).wf(),
            ({
                let (c, k) = advance_outcome(
                    old(self).playlist@.len() as int,
                    old(self).current_index,
                    old(self).shuffle,
                    old(self).repeat,
                    true,
                    rand,
                );
                if old(self).input_focused || old(self).settings_open {
                    *final(self) == *old(self) && cmd == PlayerCommand::Nothing
                } else {
                    *final(self) == with_current(*old(self), c) && cmd == k
                }
            }),
    {
        if self.input_focused || self.settings_open {
            return PlayerCommand::Nothing;
        }
        self.advance(true, rand)
    }

    /// The "previous track" button: ignored while a text field has focus or the settings are open.
    pub fn prev_track(&mut self, rand: u64) -> (cmd: PlayerCommand)
        requires
            old(self).wf(),
        ensures
            final(self).wf(),
            ({
                let (c, k) = advance_outcome(
                    old(self).playlist@.len() as int,
                    old(self).current_index,
                    old(self).shuffle,
                    old(self).repeat,
                    false,
                    rand,
                );
                if old(self).input_focused || old(self).settings_open {
                    *final(self) == *old(self) && cmd == PlayerCommand::Nothing
                } else {
                    *final(self) == with_current(*old(self), c) && cmd == k
                }
            }),
    {
        if self.input_focused || self.settings_open {
            return PlayerCommand::Nothing;
        }
        self.advance(false, rand)
    }

    /// The play/pause key. Ignored while a text field has focus or the settings are open.
    /// With the player stopped and no current track, the first track of a non-empty queue
    /// starts; otherwise the player toggles between playing and paused.
    pub fn toggle_play_pause(&mut self, player: PlayState) -> (cmd: PlayerCommand)
        requires
            old(self).wf(),
        ensures
            final(self).wf(),
            if old(self).input_focused || old(self).settings_open {
                *final(self) == *old(self) && cmd == PlayerCommand::Nothing
            } else if player == PlayState::Stopped && old(self).current_index is None {
                if old(self).playlist@.len() > 0 {
                    *final(self) == with_current(*old(self), Some(0))
                        && cmd == PlayerCommand::PlayCurrent
                } else {
                    *final(self) == *old(self) && cmd == PlayerCommand::Nothing
                }
            } else {
                *final(self) == *old(self) && cmd == PlayerCommand::TogglePause
            },
    {
        if self.input_focused || self.settings_open {
            return PlayerCommand::Nothing;
        }
        if player == PlayState::Stopped && self.current_index.is_none() {
            if self.playlist.len() > 0 {
                self.current_index = Some(0);
                PlayerCommand::PlayCurrent
            } else {
                PlayerCommand::Nothing
            }
        } else {
            PlayerCommand::TogglePause
        }
    }

    /// The stop button: the player stops and no track is current any more.
    pub fn stop(&mut self) -> (cmd: PlayerCommand)
        requires
            old(self).wf(),
        ensures
            final(self).wf(),
            *final(self) == with_current(*old(self), None),
            cmd == PlayerCommand::Stop,
    {
        self.current_index = None;
        PlayerCommand::Stop
    }

    /// Double-click on a queue entry: it becomes the current track and starts;
    /// an index past the queue only closes the context menu.
    pub fn jump_to_queue_track(&mut self, index: usize) -> (cmd: PlayerCommand)
        requires
            old(self).wf(),
        ensures
            final(self).wf(),
            if index < old(self).playlist@.len() {
                *final(self) == without_menu(with_current(*old(self), Some(index))) && cmd
                    == PlayerCommand::PlayCurrent
            } else {
                *final(self) == without_menu(*old(self)) && cmd == PlayerCommand::Nothing
            },
    {
        self.context_menu = None;
        if index < self.playlist.len() {
            self.current_index = Some(index);
            PlayerCommand::PlayCurrent
        } else {
            PlayerCommand::Nothing
        }
    }

    /// Empties the queue and stops the player.
    pub fn clear_queue(&mut self) -> (cmd: PlayerCommand)
        requires
            old(self).wf(),
        ensures
            final(self).wf(),
            final(self).playlist@.len() == 0,
            *final(self) == with_current(with_playlist(*old(self), final(self).playlist), None),
            cmd == PlayerCommand::Stop,
    {
        self.playlist.clear();
        self.current_index = None;
        PlayerCommand::Stop
    }

    /// Appends a copy of the whole library to the queue.
    pub fn queue_all(&mut self)
        requires
            old(self).wf(),
        ensures
            final(self).wf(),
            appended_copies(old(self).playlist@, old(self).all_tracks@, final(self).playlist@),
            *final(self) == with_playlist(*old(self), final(self).playlist),
    {
        self.playlist.extend_from_slice(self.all_tracks.as_slice());
    }

    /// Appends a copy of the search results to the queue.
    pub fn queue_all_search_results(&mut self)
        requires
            old(self).wf(),
        ensures
            final(self).wf(),
            appended_copies(old(self).playlist@, old(self).search_results@, final(self).playlist@),
            *final(self) == with_playlist(*old(self), final(self).playlist),
    {
        self.playlist.extend_from_slice(self.search_results.as_slice());
    }

    /// Shuffle on/off.
    pub fn toggle_shuffle(&mut self)
        requires
            old(self).wf(),
        ensures
            final(self).wf(),
            *final(self) == with_shuffle(*old(self), !old(self).shuffle),
    {
        self.shuffle = !self.shuffle;
    }

    /// The repeat button (see `RepeatMode::cycle`).
    pub fn cycle_repeat(&mut self)
        requires
            old(self).wf(),
        ensures
            final(self).wf(),
            *final(self) == with_repeat(*old(self), next_repeat_mode(old(self).repeat)),
    {
        self.repeat = self.repeat.cycle();
    }

    /// The list a track action with this source reads from.
    pub open spec fn source_list(&self, source: TrackSource) -> Seq<T> {
        match source {
            TrackSource::Library => self.all_tracks@,
            TrackSource::Search => self.search_results@,
            TrackSource::Queue => self.playlist@,
        }
    }

    /// The row `index` of a list, if there is one.
    pub fn track_at(&self, source: TrackSource, index: usize) -> (r: Option<&T>)
        ensures
            index < self.source_list(source).len() ==> r == Some(&self.source_list(source)[index as int]),
            index >= self.source_list(source).len() ==> r is None,
    {
        let list = match source {
            TrackSource::Library => &self.all_tracks,
            TrackSource::Search => &self.search_results,
            TrackSource::Queue => &self.playlist,
        };
        if index < list.len() {
            Some(&list[index])
        } else {
            None
        }
    }

    /// A track action from a row of the library, the search results or the queue.
    ///
    /// The context menu closes. When `index` is past the end of the source list nothing
    /// else happens. Otherwise:
    /// - `PlayNow` from the queue makes the row current; from the library (or the search
    ///   results) the queue becomes a copy of the whole library (or of the results) so that
    ///   next and previous keep working, and the row becomes current; the track starts.
    /// - `PlayNext` inserts a copy of the track right after the current one (at the front
    ///   when there is none).
    /// - `AddToQueue` appends a copy of the track.
    /// - `RemoveFromQueue` removes queue entry `index` when there is one; a current index
    ///   behind it moves down by one, and removing the current entry stops the player.
    pub fn track_action(&mut self, source: TrackSource, index: usize, action: TrackAction) -> (cmd:
        PlayerCommand)
        requires
            old(self).wf(),
        ensures
            final(self).wf(),
            final(self).context_menu is None,
            same_library_and_ui(*old(self), *final(self)),
            final(self).shuffle == old(self).shuffle,
            final(self).repeat == old(self).repeat,
            ({
                let pre = *old(self);
                let post = *final(self);
                let src = pre.source_list(source);
                if index >= src.len() {
                    post == without_menu(pre) && cmd == PlayerCommand::Nothing
                } else {
                    match action {
                        TrackAction::PlayNow => {
                            &&& cmd == PlayerCommand::PlayCurrent
                            &&& post.current_index == Some(index)
                            &&& if source == TrackSource::Queue {
                                post.playlist == pre.playlist
                            } else {
                                appended_copies(Seq::empty(), src, post.playlist@)
                            }
                        },
                        TrackAction::PlayNext => {
                            let at = match pre.current_index {
                                Some(i) => i + 1,
                                None => 0,
                            };
                            &&& cmd == PlayerCommand::Nothing
                            &&& post.current_index == pre.current_index
                            &&& post.playlist@ == pre.playlist@.insert(at, post.playlist@[at])
                            &&& cloned::<T>(src[index as int], post.playlist@[at])
                        },
                        TrackAction::AddToQueue => {
                            &&& cmd == PlayerCommand::Nothing
                            &&& post.current_index == pre.current_index
                            &&& post.playlist@ == pre.playlist@.push(post.playlist@.last())
                            &&& cloned::<T>(src[index as int], post.playlist@.last())
                        },
                        TrackAction::RemoveFromQueue => {
                            if index < pre.playlist@.len() {
                                &&& post.playlist@ == pre.playlist@.remove(index as int)
                                &&& post.current_index == current_after_removal(
                                    pre.current_index,
                                    index,
                                )
                                &&& cmd == (if pre.current_index == Some(index) {
                                    PlayerCommand::Stop
                                } else {
                                    PlayerCommand::Nothing
                                })
                            } else {
                                post.playlist == pre.playlist && post.current_index
                                    == pre.current_index && cmd == PlayerCommand::Nothing
                            }
                        },
                    }
                }
            }),
    {
        self.context_menu = None;
        let src_len = match source {
            TrackSource::Library => self.all_tracks.len(),
            TrackSource::Search => self.search_results.len(),
            TrackSource::Queue => self.playlist.len(),
        };
        if index >= src_len {
            return PlayerCommand::Nothing;
        }
        match action {
            TrackAction::PlayNow => {
                match source {
                    TrackSource::Queue => {},
                    TrackSource::Library => {
                        self.playlist = self.all_tracks.clone();
                    },
                    TrackSource::Search => {
                        self.playlist = self.search_results.clone();
                    },
                }
                self.current_index = Some(index);
                PlayerCommand::PlayCurrent
            },
            TrackAction::PlayNext | TrackAction::AddToQueue => {
                let track = match source {
                    TrackSource::Library => self.all_tracks[index].clone(),
                    TrackSource::Search => self.search_results[index].clone(),
                    TrackSource::Queue => self.playlist[index].clone(),
                };
                if action == TrackAction::PlayNext {
                    let queue_len = self.playlist.len();
                    let at: usize = match self.current_index {
                        Some(i) => {
                            assert(i < queue_len);
                            i + 1
                        },
                        None => 0,
                    };
                    self.playlist.insert(at, track);
                } else {
                    self.playlist.push(track);
                }
                PlayerCommand::Nothing
            },
            TrackAction::RemoveFromQueue => {
                if index < self.playlist.len() {
                    self.playlist.remove(index);
                    match self.current_index {
                        Some(ci) => {
                            if index < ci {
                                self.current_index = Some(ci - 1);
                                PlayerCommand::Nothing
                            } else if index == ci {
                                self.current_index = None;
                                PlayerCommand::Stop
                            } else {
                                PlayerCommand::Nothing
                            }
                        },
                        None => PlayerCommand::Nothing,
                    }
                } else {
                    PlayerCommand::Nothing
                }
            },
        }
    }

    /// Tracks found for a spoken "play" or "queue" command. With no tracks nothing
    /// changes (the result is `false`). "Play" makes them the queue and starts the
    /// first; "queue" appends them.
    pub fn apply_intent_tracks(&mut self, play: bool, tracks: Vec<T>) -> (r: (PlayerCommand, bool))
        requires
            old(self).wf(),
        ensures
            final(self).wf(),
            r.1 == (tracks@.len() > 0),
            tracks@.len() == 0 ==> *final(self) == *old(self) && r.0 == PlayerCommand::Nothing,
            tracks@.len() > 0 && play ==> *final(self) == with_current(
                with_playlist(*old(self), tracks),
                Some(0),
            ) && r.0 == PlayerCommand::PlayCurrent,
            tracks@.len() > 0 && !play ==> final(self).playlist@ == old(self).playlist@ + tracks@
                && *final(self) == with_playlist(*old(self), final(self).playlist) && r.0
                == PlayerCommand::Nothing,
    {
        if tracks.len() == 0 {
            return (PlayerCommand::Nothing, false);
        }
        if play {
            self.playlist = tracks;
            self.current_index = Some(0);
            (PlayerCommand::PlayCurrent, true)
        } else {
            let mut more = tracks;
            self.playlist.append(&mut more);
            (PlayerCommand::Nothing, true)
        }
    }

    /// A freshly loaded library replaces the old one.
    pub fn library_loaded(&mut self, tracks: Vec<T>)
        requires
            old(self).wf(),
        ensures
            final(self).wf(),
            *final(self) == (Session { all_tracks: tracks, ..*old(self) }),
    {
        self.all_tracks = tracks;
    }

    /// The search text changed. The result tells whether a search has to run:
    /// for an empty text the results are cleared instead.
    pub fn search_query_changed(&mut self, query: String) -> (run_search: bool)
        requires
            old(self).wf(),
        ensures
            final(self).wf(),
            run_search == (query@.len() > 0),
            final(self).search_query == query,
            run_search ==> final(self).search_results == old(self).search_results,
            !run_search ==> final(self).search_results@.len() == 0,
            *final(self) == (Session {
                search_query: final(self).search_query,
                search_results: final(self).search_results,
                ..*old(self)
            }),
    {
        let run = !query.as_str().is_empty();
        self.search_query = query;
        if !run {
            self.search_results.clear();
        }
        run
    }

    /// Results of a search replace the old ones.
    pub fn search_results_arrived(&mut self, results: Vec<T>)
        requires
            old(self).wf(),
        ensures
            final(self).wf(),
            *final(self) == (Session { search_results: results, ..*old(self) }),
    {
        self.search_results = results;
    }

    /// Switches between the flat track list and the artist tree.
    pub fn set_library_view_mode(&mut self, mode: LibraryViewMode)
        requires
            old(self).wf(),
        ensures
            final(self).wf(),
            *final(self) == (Session { library_view_mode: mode, ..*old(self) }),
    {
        self.library_view_mode = mode;
    }

    /// Folds an artist of the artist tree in when it is unfolded, and out otherwise.
    pub fn toggle_artist_expanded(&mut self, artist: String)
        requires
            old(self).wf(),
        ensures
            final(self).wf(),
            expanded_set(*final(self)) == toggle_membership(expanded_set(*old(self)), artist@),
            *final(self) == (Session { expanded_artists: final(self).expanded_artists, ..*old(self) }),
    {
        let ghost names = self.expanded_artists@.map_values(|a: String| a@);
        let n = self.expanded_artists.len();
        let mut i: usize = 0;
        while i < n
            invariant
                n == self.expanded_artists@.len(),
                i <= n,
                self == old(self),
                names == self.expanded_artists@.map_values(|a: String| a@),
                old(self).wf(),
                no_duplicates(names),
                forall|j: int| 0 <= j < i ==> names[j] != artist@,
            decreases n - i,
        {
            if self.expanded_artists[i] == artist {
                self.expanded_artists.remove(i);
                proof {
                    let after = self.expanded_artists@.map_values(|a: String| a@);
                    assert(after =~= names.remove(i as int));
                    assert(names[i as int] == artist@);
                    assert forall|k: int| 0 <= k < names.len() && k != i implies names[k]
                        != artist@ by {
                        assert(names[k] != names[i as int]);
                    }
                    assert forall|x: Seq<char>| #[trigger] after.contains(x) == names.to_set().remove(
                        artist@,
                    ).contains(x) by {
                        if after.contains(x) {
                            let k = choose|k: int| 0 <= k < after.len() && after[k] == x;
                            if k < i {
                                assert(names[k] == x);
                            } else {
                                assert(names[k + 1] == x);
                            }
                            assert(names.contains(x));
                        }
                        if names.to_set().remove(artist@).contains(x) {
                            assert(names.contains(x));
                            let k = choose|k: int| 0 <= k < names.len() && names[k] == x;
                            assert(k != i);
                            if k < i {
                                assert(after[k] == x);
                            } else {
                                assert(after[k - 1] == x);
                            }
                        }
                    }
                    assert(after.to_set() =~= names.to_set().remove(artist@));
                    assert(names.contains(artist@));
                    assert forall|p: int, q: int|
                        0 <= p < after.len() && 0 <= q < after.len() && p != q implies after[p]
                        != after[q] by {
                        let pp = if p < i { p } else { p + 1 };
                        let qq = if q < i { q } else { q + 1 };
                        assert(after[p] == names[pp]);
                        assert(after[q] == names[qq]);
                    }
                }
                return;
            }
            i += 1;
        }
        let ghost a = artist@;
        self.expanded_artists.push(artist);
        proof {
            let after = self.expanded_artists@.map_values(|a: String| a@);
            assert(after =~= names.push(a));
            assert(!names.to_set().contains(a)) by {
                if names.to_set().contains(a) {
                    let k = choose|k: int| 0 <= k < names.len() && names[k] == a;
                    assert(names[k] != a);
                }
            }
            assert forall|x: Seq<char>| #[trigger] after.to_set().contains(x)
                == names.to_set().insert(a).contains(x) by {
                if after.to_set().contains(x) {
                    let k = choose|k: int| 0 <= k < after.len() && after[k] == x;
                    if k < names.len() {
                        assert(names[k] == x);
                    }
                }
                if names.to_set().insert(a).contains(x) && x != a {
                    let k = choose|k: int| 0 <= k < names.len() && names[k] == x;
                    assert(after[k] == x);
                }
                if x == a {
                    assert(after[names.len() as int] == x);
                }
            }
            assert(after.to_set() =~= names.to_set().insert(a));
            assert forall|p: int, q: int|
                0 <= p < after.len() && 0 <= q < after.len() && p != q implies after[p]
                != after[q] by {
                if p < names.len() && q < names.len() {
                    assert(after[p] == names[p]);
                    assert(after[q] == names[q]);
                } else if p < names.len() {
                    assert(after[p] == names[p]);
                } else if q < names.len() {
                    assert(after[q] == names[q]);
                }
            }
        }
    }

    /// A right-click on a row opens its context menu.
    pub fn open_context_menu(&mut self, source: TrackSource, index: usize)
        requires
            old(self).wf(),
        ensures
            final(self).wf(),
            *final(self) == (Session {
                context_menu: Some(ContextMenuTarget { source, track_index: index }),
                ..*old(self)
            }),
    {
        self.context_menu = Some(ContextMenuTarget { source, track_index: index });
    }

    /// Closes the context menu.
    pub fn close_context_menu(&mut self)
        requires
            old(self).wf(),
        ensures
            final(self).wf(),
            *final(self) == without_menu(*old(self)),
    {
        self.context_menu = None;
    }

    /// Whether seeking from the keyboard applies: not while typing in a text field or
    /// while the settings are open.
    pub fn accepts_seek_keys(&self) -> (r: bool)
        ensures
            r == !(self.input_focused || self.settings_open),
    {
        !(self.input_focused || self.settings_open)
    }

    /// Selecting a tab closes the context menu.
    pub fn select_tab(&mut self, tab: Tab)
        requires
            old(self).wf(),
        ensures
            final(self).wf(),
            *final(self) == (Session { active_tab: tab, context_menu: None, ..*old(self) }),
    {
        self.active_tab = tab;
        self.context_menu = None;
    }

    /// Opening the settings closes the context menu.
    pub fn open_settings(&mut self)
        requires
            old(self).wf(),
        ensures
            final(self).wf(),
            *final(self) == (Session { settings_open: true, context_menu: None, ..*old(self) }),
    {
        self.settings_open = true;
        self.context_menu = None;
    }

    /// The close key: it closes the scan window when that is open, and otherwise the
    /// settings. The result tells whether the settings have to be saved (they do when
    /// the settings were the ones closed).
    pub fn close_settings(&mut self) -> (save: bool)
        requires
            old(self).wf(),
        ensures
            final(self).wf(),
            save == !old(self).scan_modal_open,
            old(self).scan_modal_open ==> *final(self) == (Session {
                scan_modal_open: false,
                ..*old(self)
            }),
            !old(self).scan_modal_open ==> *final(self) == (Session {
                settings_open: false,
                ..*old(self)
            }),
    {
        if self.scan_modal_open {
            self.scan_modal_open = false;
            false
        } else {
            self.settings_open = false;
            true
        }
    }

    /// Opens or closes the scan window.
    pub fn set_scan_modal_open(&mut self, open: bool)
        requires
            old(self).wf(),
        ensures
            final(self).wf(),
            *final(self) == (Session { scan_modal_open: open, ..*old(self) }),
    {
        self.scan_modal_open = open;
    }

    /// Starts a scan of the music folder when one is configured: the session is marked
    /// as scanning and the list of recent files is emptied. The result is the folder to scan.
    pub fn start_scan(&mut self, music_folder: Option<String>) -> (folder: Option<String>)
        requires
            old(self).wf(),
        ensures
            final(self).wf(),
            folder == music_folder,
            music_folder is None ==> *final(self) == *old(self),
            music_folder is Some ==> final(self).scan_recent_files@.len() == 0 && *final(self)
                == (Session {
                is_scanning: true,
                scan_recent_files: final(self).scan_recent_files,
                ..*old(self)
            }),
    {
        if music_folder.is_some() {
            self.is_scanning = true;
            self.scan_recent_files.clear();
        }
        music_folder
    }

    /// Records the file a scan progress report names. Empty names are ignored; when the
    /// list is full the oldest name is dropped first.
    pub fn record_scanned_file(&mut self, current_file: String)
        requires
            old(self).wf(),
        ensures
            final(self).wf(),
            current_file@.len() == 0 ==> *final(self) == *old(self),
            current_file@.len() > 0 ==> final(self).scan_recent_files@ == (if old(
                self,
            ).scan_recent_files@.len() >= RECENT_FILES_CAP {
                old(self).scan_recent_files@.drop_first()
            } else {
                old(self).scan_recent_files@
            }).push(current_file) && *final(self) == (Session {
                scan_recent_files: final(self).scan_recent_files,
                ..*old(self)
            }),
    {
        if current_file.as_str().is_empty() {
            return;
        }
        if self.scan_recent_files.len() >= RECENT_FILES_CAP {
            let ghost before = self.scan_recent_files@;
            let _ = self.scan_recent_files.pop_front();
            assert(self.scan_recent_files@ =~= before.drop_first());
        }
        self.scan_recent_files.push_back(current_file);
    }

    /// The scan finished.
    pub fn scan_finished(&mut self)
        requires
            old(self).wf(),
        ensures
            final(self).wf(),
            *final(self) == (Session { is_scanning: false, ..*old(self) }),
    {
        self.is_scanning = false;
    }

    /// The current track finished: step forward, whatever has focus.
    pub fn track_ended(&mut self, rand: u64) -> (cmd: PlayerCommand)
        requires
            old(self).wf(),
        ensures
            final(self).wf(),
            ({
                let (c, k) = advance_outcome(
                    old(self).playlist@.len() as int,
                    old(self).current_index,
                    old(self).shuffle,
                    old(self).repeat,
                    true,
                    rand,
                );
                *final(self) == with_current(*old(self), c) && cmd == k
            }),
    {
        self.advance(true, rand)
    }
}

/// `new` is `old` followed by a copy of each element of `added`, in order.
pub open spec fn appended_copies<T: Clone>(old: Seq<T>, added: Seq<T>, new: Seq<T>) -> bool {
    &&& new.len() == old.len() + added.len()
    &&& forall|i: int| 0 <= i < old.len() ==> #[trigger] new[i] == old[i]
    &&& forall|i: int|
        0 <= i < added.len() ==> cloned::<T>(added[i], #[trigger] new[old.len() + i])
}

/// The current index after queue entry `removed` was taken out: an index behind it
/// moves down by one, the removed entry itself is no longer current.
pub open spec fn current_after_removal(current: Option<usize>, removed: usize) -> Option<usize> {
    match current {
        Some(ci) => if removed < ci {
            Some((ci - 1) as usize)
        } else if removed == ci {
            None
        } else {
            Some(ci)
        },
        None => None,
    }
}

/// Taking an entry other than the current one out of the queue leaves the same track
/// current: the adjusted index points at the entry that was current before.
pub proof fn lemma_removal_keeps_current_track<T>(queue: Seq<T>, current: usize, removed: usize)
    requires
        current < queue.len(),
        removed < queue.len(),
        removed != current,
    ensures
        current_after_removal(Some(current), removed) matches Some(c) && c < queue.len() - 1
            && queue.remove(removed as int)[c as int] == queue[current as int],
{
}

/// The session `s` with the queue replaced.
pub open spec fn with_playlist<T>(s: Session<T>, p: Vec<T>) -> Session<T> {
    Session { playlist: p, ..s }
}

/// The session `s` with the context menu closed.
pub open spec fn without_menu<T>(s: Session<T>) -> Session<T> {
    Session { context_menu: None, ..s }
}

/// The session `s` with the shuffle flag replaced.
pub open spec fn with_shuffle<T>(s: Session<T>, b: bool) -> Session<T> {
    Session { shuffle: b, ..s }
}

/// The session `s` with the repeat mode replaced.
pub open spec fn with_repeat<T>(s: Session<T>, r: RepeatMode) -> Session<T> {
    Session { repeat: r, ..s }
}

/// The session `s` with the current index replaced.
pub open spec fn with_current<T>(s: Session<T>, c: Option<usize>) -> Session<T> {
    Session { current_index: c, ..s }
}

/// The new current index and the player command of a step through a queue of `len` tracks.
///
/// With an empty queue nothing happens. With repeat `One` the current track
/// starts again. With shuffle on, the index comes from `rand` (see `shuffle_pick`).
/// Otherwise the neighbour is taken (a missing current index counts as 0); past the
/// last track repeat `All` wraps to the first and repeat `Off` stops the player without
/// moving; before the first track repeat `All` wraps to the last and repeat `Off`
/// does nothing.
pub open spec fn advance_outcome(
    len: int,
    current: Option<usize>,
    shuffle: bool,
    repeat: RepeatMode,
    forward: bool,
    rand: u64,
) -> (Option<usize>, PlayerCommand) {
    let cur = match current {
        Some(i) => i as int,
        None => 0,
    };
    if len <= 0 {
        (current, PlayerCommand::Nothing)
    } else if repeat == RepeatMode::One {
        (current, PlayerCommand::PlayCurrent)
    } else if shuffle {
        (Some(shuffle_pick(rand, len as nat) as usize), PlayerCommand::PlayCurrent)
    } else {
        match linear_step(cur, forward, len, repeat) {
            Some(n) => (Some(n as usize), PlayerCommand::PlayCurrent),
            None => (
                current,
                if forward {
                    PlayerCommand::Stop
                } else {
                    PlayerCommand::Nothing
                },
            ),
        }
    }
}

/// Stepping forward and then back through a queue of `len` tracks returns to the track
/// one started from, unless shuffle or repeat-one is on or the forward step stopped at
/// the end of the queue (repeat off on the last track).
pub proof fn lemma_next_then_prev(len: int, i: usize, repeat: RepeatMode, r1: u64, r2: u64)
    requires
        i < len <= usize::MAX,
        repeat != RepeatMode::One,
        repeat == RepeatMode::All || i + 1 < len,
    ensures
        ({
            let (c, _) = advance_outcome(len, Some(i), false, repeat, true, r1);
            c is Some && advance_outcome(len, c, false, repeat, false, r2).0 == Some(i)
        }),
{
}

/// Stepping back and then forward through a queue of `len` tracks returns to the track
/// one started from, unless shuffle or repeat-one is on or the step back did nothing
/// (repeat off on the first track).
pub proof fn lemma_prev_then_next(len: int, i: usize, repeat: RepeatMode, r1: u64, r2: u64)
    requires
        i < len <= usize::MAX,
        repeat != RepeatMode::One,
        repeat == RepeatMode::All || i > 0,
    ensures
        ({
            let (c, _) = advance_outcome(len, Some(i), false, repeat, false, r1);
            c is Some && advance_outcome(len, c, false, repeat, true, r2).0 == Some(i)
        }),
{
}

/// With shuffle on and repeat not `One`, a step through a non-empty queue plays the track
/// that the random value picks, whatever the repeat mode (`Off` or `All`), the direction
/// and the current index: the outcome is the same for every one of them, and the pick
/// is an index of the queue.
pub proof fn lemma_shuffle_step_ignores_repeat_and_direction(
    len: int,
    current: Option<usize>,
    repeat: RepeatMode,
    forward: bool,
    rand: u64,
)
    requires
        0 < len <= usize::MAX,
        repeat != RepeatMode::One,
    ensures
        advance_outcome(len, current, true, repeat, forward, rand) == (
            Some(shuffle_pick(rand, len as nat) as usize),
            PlayerCommand::PlayCurrent,
        ),
        advance_outcome(len, current, true, repeat, forward, rand) == advance_outcome(
            len,
            None,
            true,
            RepeatMode::All,
            !forward,
            rand,
        ),
        advance_outcome(len, current, true, repeat, forward, rand) == advance_outcome(
            len,
            None,
            true,
            RepeatMode::Off,
            true,
            rand,
        ),
        0 <= shuffle_pick(rand, len as nat) < len,
{
}

/// The shuffle pick is an index of the queue; a random value below 2^31 picks its own
/// remainder modulo the queue length, and values that agree in their low 32 bits pick alike.
pub proof fn lemma_shuffle_pick_values(rand: u64, len: nat)
    requires
        len > 0,
    ensures
        0 <= shuffle_pick(rand, len) < len,
        rand < 0x8000_0000 ==> shuffle_pick(rand, len) == (rand as int) % (len as int),
        rand >= 0x1_0000_0000 ==> shuffle_pick(rand, len) == shuffle_pick(
            (rand - 0x1_0000_0000) as u64,
            len,
        ),
{
}

/// Without shuffle and repeat, a step through a non-empty queue moves to the neighbour;
/// at the ends repeat `All` wraps around, and repeat `Off` stops the player (forward past
/// the last track) or does nothing (back from the first), keeping the current index.
pub proof fn lemma_linear_step_cases(len: int, i: usize, repeat: RepeatMode, rand: u64)
    requires
        i < len <= usize::MAX,
        repeat != RepeatMode::One,
    ensures
        i + 1 < len ==> advance_outcome(len, Some(i), false, repeat, true, rand) == (
            Some((i + 1) as usize),
            PlayerCommand::PlayCurrent,
        ),
        i > 0 ==> advance_outcome(len, Some(i), false, repeat, false, rand) == (
            Some((i - 1) as usize),
            PlayerCommand::PlayCurrent,
        ),
        i + 1 == len && repeat == RepeatMode::All ==> advance_outcome(
            len,
            Some(i),
            false,
            repeat,
            true,
            rand,
        ) == (Some(0usize), PlayerCommand::PlayCurrent),
        i == 0 && repeat == RepeatMode::All ==> advance_outcome(
            len,
            Some(i),
            false,
            repeat,
            false,
            rand,
        ) == (Some((len - 1) as usize), PlayerCommand::PlayCurrent),
        i + 1 == len && repeat == RepeatMode::Off ==> advance_outcome(
            len,
            Some(i),
            false,
            repeat,
            true,
            rand,
        ) == (Some(i), PlayerCommand::Stop),
        i == 0 && repeat == RepeatMode::Off ==> advance_outcome(
            len,
            Some(i),
            false,
            repeat,
            false,
            rand,
        ) == (Some(i), PlayerCommand::Nothing),
        advance_outcome(len, Some(i), true, RepeatMode::One, true, rand) == (
            Some(i),
            PlayerCommand::PlayCurrent,
        ),
{
}


/// A key of the keyboard that the player reacts to.
pub enum Key {
    Space,
    ArrowLeft,
    ArrowRight,
    ArrowUp,
    ArrowDown,
    Escape,
    /// A key that types text.
    Character(String),
    /// Any other key.
    Other,
}

/// What a key press asks for.
#[derive(Debug, Clone, Copy, PartialEq, Eq, Structural)]
pub enum KeyCommand {
    TogglePlayPause,
    NextTrack,
    PrevTrack,
    /// Move the playback position by this many seconds.
    SeekBy(i32),
    /// Set the volume to this percentage.
    SetVolume(u8),
    /// Raise the volume by one step.
    VolumeUp,
    /// Lower the volume by one step.
    VolumeDown,
    CloseSettings,
}

/// The command of a key press; `command_modifier` tells whether the platform's command
/// key (Ctrl, or Cmd on macOS) is held. Space plays or pauses, N and P step through the
/// queue, Left and Right seek by five seconds (with the command key: step through the
/// queue), Up and Down raise and lower the volume by one step (with the command key: set
/// it to 90 % and 70 %), Escape closes the settings.
pub open spec fn key_binding(key: Key, command_modifier: bool) -> Option<KeyCommand> {
    match key {
        Key::Space => Some(KeyCommand::TogglePlayPause),
        Key::ArrowRight => Some(
            if command_modifier {
                KeyCommand::NextTrack
            } else {
                KeyCommand::SeekBy(5i32)
            },
        ),
        Key::ArrowLeft => Some(
            if command_modifier {
                KeyCommand::PrevTrack
            } else {
                KeyCommand::SeekBy(-5i32)
            },
        ),
        Key::ArrowUp => Some(
            if command_modifier {
                KeyCommand::SetVolume(90u8)
            } else {
                KeyCommand::VolumeUp
            },
        ),
        Key::ArrowDown => Some(
            if command_modifier {
                KeyCommand::SetVolume(70u8)
            } else {
                KeyCommand::VolumeDown
            },
        ),
        Key::Character(c) => if c@ == "n"@ || c@ == "N"@ {
            Some(KeyCommand::NextTrack)
        } else if c@ == "p"@ || c@ == "P"@ {
            Some(KeyCommand::PrevTrack)
        } else {
            None
        },
        Key::Escape => Some(KeyCommand::CloseSettings),
        Key::Other => None,
    }
}

/// The keyboard shortcuts (see `key_binding`).
pub fn key_command(key: &Key, command_modifier: bool) -> (r: Option<KeyCommand>)
    ensures
        r == key_binding(*key, command_modifier),
{
    match key {
        Key::Space => Some(KeyCommand::TogglePlayPause),
        Key::ArrowRight => Some(
            if command_modifier {
                KeyCommand::NextTrack
            } else {
                KeyCommand::SeekBy(5)
            },
        ),
        Key::ArrowLeft => Some(
            if command_modifier {
                KeyCommand::PrevTrack
            } else {
                KeyCommand::SeekBy(-5)
            },
        ),
        Key::ArrowUp => Some(
            if command_modifier {
                KeyCommand::SetVolume(90)
            } else {
                KeyCommand::VolumeUp
            },
        ),
        Key::ArrowDown => Some(
            if command_modifier {
                KeyCommand::SetVolume(70)
            } else {
                KeyCommand::VolumeDown
            },
        ),
        Key::Character(c) => if str_eq(c.as_str(), "n") || str_eq(c.as_str(), "N") {
            Some(KeyCommand::NextTrack)
        } else if str_eq(c.as_str(), "p") || str_eq(c.as_str(), "P") {
            Some(KeyCommand::PrevTrack)
        } else {
            None
        },
        Key::Escape => Some(KeyCommand::CloseSettings),
        Key::Other => None,
    }
}

/// An entry of a row's context menu.
#[derive(Debug, Clone, Copy, PartialEq, Eq, Structural)]
pub enum MenuItem {
    /// A track action on the row.
    Action(TrackAction),
    /// Make the queue row current and play it.
    JumpTo,
}

/// The context menu of a row: library and search rows offer to play now, play next and
/// add to the queue; queue rows offer to play now (by jumping to the row) and removal.
pub open spec fn menu_items_of(source: TrackSource) -> Seq<MenuItem> {
    match source {
        TrackSource::Queue => seq![MenuItem::JumpTo, MenuItem::Action(TrackAction::RemoveFromQueue)],
        _ => seq![
            MenuItem::Action(TrackAction::PlayNow),
            MenuItem::Action(TrackAction::PlayNext),
            MenuItem::Action(TrackAction::AddToQueue),
        ],
    }
}

/// The entries of a row's context menu (see `menu_items_of`).
pub fn context_menu_items(source: TrackSource) -> (r: Vec<MenuItem>)
    ensures
        r@ == menu_items_of(source),
{
    match source {
        TrackSource::Queue => vec![MenuItem::JumpTo, MenuItem::Action(TrackAction::RemoveFromQueue)],
        _ => vec![
            MenuItem::Action(TrackAction::PlayNow),
            MenuItem::Action(TrackAction::PlayNext),
            MenuItem::Action(TrackAction::AddToQueue),
        ],
    }
}

} // verus!
