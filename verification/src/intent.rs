//! Voice commands: the local keyword parser, the description shown to the user,
//! the request sent to the language model and the JSON object cut out of its answer.
use vstd::prelude::*;

use crate::models::{IntentAction, IntentQuery, MusicIntent};
use crate::text::{
    join, join_strings, push_str, views, owned,
    chars_of, contains_str, equals_str, has_prefix, has_substring, lowercase, occurs_at,
    occurs_at_exec,
    string_of, to_lowercase, trim, trim_range, trimmed,
};

verus! {

/// Instructions sent to the language model ahead of a voice command.
pub const SYSTEM_PROMPT: &'static str = "You are a music player voice assistant. Parse the user's voice command into a structured JSON music intent.
The user may speak in English or Spanish. Always respond in English JSON regardless of input language.

The JSON must match this exact schema:
{
  \"action\": \"play\" | \"queue\" | \"search\" | \"pause\" | \"resume\" | \"next\" | \"previous\" | \"stop\" | \"volume_up\" | \"volume_down\" | \"shuffle\" | \"clear_queue\",
  \"query\": {
    \"artist\": \"string or omit\",
    \"title\": \"string or omit\",
    \"album\": \"string or omit\",
    \"genre\": \"string or omit\",
    \"mood\": \"string or omit\",
    \"freeText\": \"string or omit\"
  }
}

Action rules:
- \"play\" -> find ALL matching tracks, replace the queue with them, and start playing.
- \"queue\" -> find ALL matching tracks and ADD them to the existing queue without interrupting playback.
- \"search\" -> just show results without touching the queue.
- \"pause\" / \"resume\" / \"next\" / \"previous\" / \"stop\" -> transport controls, no query needed.
- \"volume_up\" / \"volume_down\" -> volume control, no query needed.
- \"shuffle\" -> toggle shuffle mode, no query needed.
- \"clear_queue\" -> empty the queue, no query needed.

Query field rules:
- Put the band/artist name in \"artist\"
- Put the song name in \"title\"
- Put the album name in \"album\"
- Put the music style in \"genre\" (rock, jazz, blues, pop, classical, etc.)
- Put mood/vibe descriptions in \"mood\" (chill, energetic, sad, happy, etc.)
- If you can't categorize it, use \"freeText\"
- When the user says \"all music from X\" or \"everything by X\" -> use artist: \"X\" with action \"play\"

Return ONLY valid JSON. No markdown, no explanation, no code fences.";

// ───────────────────────── local keyword parser ─────────────────────────

/// The transport command a normalized command names, when it names one.
pub open spec fn transport_action(s: Seq<char>) -> Option<IntentAction> {
    if has_substring(s, "pause"@) || has_substring(s, "pausa"@) {
        Some(IntentAction::Pause)
    } else if has_substring(s, "resume"@) || has_substring(s, "continua"@) || has_substring(
        s,
        "reanudar"@,
    ) {
        Some(IntentAction::Resume)
    } else if s == "next"@ || s == "skip"@ || has_substring(s, "next song"@) || has_substring(
        s,
        "siguiente"@,
    ) {
        Some(IntentAction::Next)
    } else if s == "previous"@ || s == "prev"@ || has_substring(s, "previous song"@)
        || has_substring(s, "anterior"@) {
        Some(IntentAction::Previous)
    } else if s == "stop"@ || s == "para"@ || s == "detener"@ {
        Some(IntentAction::Stop)
    } else if has_substring(s, "volume up"@) || has_substring(s, "sube"@) || has_substring(
        s,
        "louder"@,
    ) {
        Some(IntentAction::VolumeUp)
    } else if has_substring(s, "volume down"@) || has_substring(s, "baja"@) || has_substring(
        s,
        "quieter"@,
    ) {
        Some(IntentAction::VolumeDown)
    } else if s == "shuffle"@ || has_substring(s, "aleatorio"@) {
        Some(IntentAction::Shuffle)
    } else if has_substring(s, "clear queue"@) || has_substring(s, "clear the queue"@)
        || has_substring(s, "limpiar"@) || has_substring(s, "vaciar"@) {
        Some(IntentAction::ClearQueue)
    } else {
        None
    }
}

/// The keywords of each transport command, command by command: a pause is asked for by
/// "pause" or "pausa", a resume by "resume", "continua" or "reanudar", the next track by
/// exactly "next" or "skip" or by "next song" or "siguiente", the previous one by exactly
/// "previous" or "prev" or by "previous song" or "anterior", a stop by exactly "stop",
/// "para" or "detener", a louder volume by "volume up", "sube" or "louder", a quieter one
/// by "volume down", "baja" or "quieter", shuffle by exactly "shuffle" or by "aleatorio",
/// and clearing the queue by "clear queue", "clear the queue", "limpiar" or "vaciar".
/// Play, queue and search have no keyword here.
pub open spec fn keyword_asks_for(s: Seq<char>, a: IntentAction) -> bool {
    match a {
        IntentAction::Pause => has_substring(s, "pause"@) || has_substring(s, "pausa"@),
        IntentAction::Resume => has_substring(s, "resume"@) || has_substring(s, "continua"@)
            || has_substring(s, "reanudar"@),
        IntentAction::Next => s == "next"@ || s == "skip"@ || has_substring(s, "next song"@)
            || has_substring(s, "siguiente"@),
        IntentAction::Previous => s == "previous"@ || s == "prev"@ || has_substring(
            s,
            "previous song"@,
        ) || has_substring(s, "anterior"@),
        IntentAction::Stop => s == "stop"@ || s == "para"@ || s == "detener"@,
        IntentAction::VolumeUp => has_substring(s, "volume up"@) || has_substring(s, "sube"@)
            || has_substring(s, "louder"@),
        IntentAction::VolumeDown => has_substring(s, "volume down"@) || has_substring(
            s,
            "baja"@,
        ) || has_substring(s, "quieter"@),
        IntentAction::Shuffle => s == "shuffle"@ || has_substring(s, "aleatorio"@),
        IntentAction::ClearQueue => has_substring(s, "clear queue"@) || has_substring(
            s,
            "clear the queue"@,
        ) || has_substring(s, "limpiar"@) || has_substring(s, "vaciar"@),
        IntentAction::Play => false,
        IntentAction::Queue => false,
        IntentAction::Search => false,
    }
}

/// What follows the first of `prefixes` that starts `s` and leaves something that is
/// not only white space, trimmed.
pub open spec fn strip_prefix_any_spec(s: Seq<char>, prefixes: Seq<Seq<char>>) -> Option<
    Seq<char>,
>
    decreases prefixes.len(),
{
    if prefixes.len() == 0 {
        None
    } else if has_prefix(s, prefixes[0]) && trim(s.skip(prefixes[0].len() as int)).len() > 0 {
        Some(trim(s.skip(prefixes[0].len() as int)))
    } else {
        strip_prefix_any_spec(s, prefixes.drop_first())
    }
}

/// Prefixes of a "play" command.
pub open spec fn play_prefixes() -> Seq<Seq<char>> {
    seq!["play "@, "pon "@, "reproduce "@]
}

/// Prefixes of a "queue" command.
pub open spec fn queue_prefixes() -> Seq<Seq<char>> {
    seq!["queue "@, "encola "@, "agregar "@, "add "@]
}

/// Prefixes of a "search" command.
pub open spec fn search_prefixes() -> Seq<Seq<char>> {
    seq!["search "@, "busca "@, "buscar "@]
}

/// Phrases that ask for everything of one artist, the artist following them.
pub open spec fn artist_phrase_prefixes() -> Seq<Seq<char>> {
    seq![
        "all music from "@,
        "all music by "@,
        "all songs from "@,
        "all songs by "@,
        "everything from "@,
        "everything by "@,
        "toda la m\u{fa}sica de "@,
        "todo de "@,
    ]
}

/// The artist a play or queue text asks for in full: `X` in "all music from X",
/// "everything by X" and the like (see `artist_phrase_prefixes`), or in "all X music";
/// trimmed, and only when something is left.
pub open spec fn artist_phrase(t: Seq<char>) -> Option<Seq<char>> {
    let pre = "all "@;
    let post = " music"@;
    match strip_prefix_any_spec(t, artist_phrase_prefixes()) {
        Some(a) => Some(a),
        None => if t.len() >= pre.len() + post.len() && has_prefix(t, pre) && occurs_at(
            t,
            post,
            t.len() - post.len(),
        ) && trim(t.subrange(pre.len() as int, t.len() - post.len())).len() > 0 {
            Some(trim(t.subrange(pre.len() as int, t.len() - post.len())))
        } else {
            None
        },
    }
}

/// A query whose only field is the artist `a`.
pub open spec fn is_artist_query(q: IntentQuery, a: Seq<char>) -> bool {
    &&& q.artist matches Some(x) && x@ == a
    &&& q.free_text is None
    &&& q.title is None
    &&& q.album is None
    &&& q.genre is None
    &&& q.mood is None
}

/// The query of a play, queue or search command with text `t`: for play and queue a
/// request for everything of an artist (see `artist_phrase`) names the artist, any other
/// text is free text.
pub open spec fn is_content_query(a: IntentAction, q: IntentQuery, t: Seq<char>) -> bool {
    if (a == IntentAction::Play || a == IntentAction::Queue) && artist_phrase(t) is Some {
        is_artist_query(q, artist_phrase(t)->0)
    } else {
        is_free_text_query(q, t)
    }
}

/// The action and free text a normalized command stands for: a transport command
/// without text, or play / queue / search with the rest of the command as free text.
pub open spec fn local_intent(s: Seq<char>) -> Option<(IntentAction, Option<Seq<char>>)> {
    match transport_action(s) {
        Some(a) => Some((a, None)),
        None => match strip_prefix_any_spec(s, play_prefixes()) {
            Some(r) => Some((IntentAction::Play, Some(r))),
            None => match strip_prefix_any_spec(s, queue_prefixes()) {
                Some(r) => Some((IntentAction::Queue, Some(r))),
                None => match strip_prefix_any_spec(s, search_prefixes()) {
                    Some(r) => Some((IntentAction::Search, Some(r))),
                    None => None,
                },
            },
        },
    }
}

/// A command whose keywords all ask for the same transport command `a` is read as `a`,
/// without a query, whatever else it says: "quieter please" turns the volume down,
/// "louder" up, "pausa" pauses.
pub proof fn lemma_keywords_decide_transport(s: Seq<char>, a: IntentAction)
    requires
        keyword_asks_for(s, a),
        forall|b: IntentAction| b != a ==> !#[trigger] keyword_asks_for(s, b),
    ensures
        local_intent(s) == Some((a, None::<Seq<char>>)),
{
    assert(a == IntentAction::Pause || !keyword_asks_for(s, IntentAction::Pause));
    assert(a == IntentAction::Resume || !keyword_asks_for(s, IntentAction::Resume));
    assert(a == IntentAction::Next || !keyword_asks_for(s, IntentAction::Next));
    assert(a == IntentAction::Previous || !keyword_asks_for(s, IntentAction::Previous));
    assert(a == IntentAction::Stop || !keyword_asks_for(s, IntentAction::Stop));
    assert(a == IntentAction::VolumeUp || !keyword_asks_for(s, IntentAction::VolumeUp));
    assert(a == IntentAction::VolumeDown || !keyword_asks_for(s, IntentAction::VolumeDown));
    assert(a == IntentAction::Shuffle || !keyword_asks_for(s, IntentAction::Shuffle));
    assert(a == IntentAction::ClearQueue || !keyword_asks_for(s, IntentAction::ClearQueue));
}

/// The order in which the transport keywords are tried: pause, resume, next, previous,
/// stop, volume up, volume down, shuffle, clear queue. Play, queue and search come after.
pub open spec fn keyword_rank(a: IntentAction) -> int {
    match a {
        IntentAction::Pause => 0,
        IntentAction::Resume => 1,
        IntentAction::Next => 2,
        IntentAction::Previous => 3,
        IntentAction::Stop => 4,
        IntentAction::VolumeUp => 5,
        IntentAction::VolumeDown => 6,
        IntentAction::Shuffle => 7,
        IntentAction::ClearQueue => 8,
        IntentAction::Play => 9,
        IntentAction::Queue => 10,
        IntentAction::Search => 11,
    }
}

/// When a command holds keywords of several transport commands, the first in the order
/// of `keyword_rank` wins: "pause louder" pauses, "louder quieter" turns the volume up.
pub proof fn lemma_first_keyword_wins(s: Seq<char>, a: IntentAction)
    requires
        keyword_asks_for(s, a),
        forall|b: IntentAction|
            keyword_rank(b) < keyword_rank(a) ==> !#[trigger] keyword_asks_for(s, b),
    ensures
        local_intent(s) == Some((a, None::<Seq<char>>)),
{
    assert(keyword_rank(IntentAction::Pause) >= keyword_rank(a) || !keyword_asks_for(
        s,
        IntentAction::Pause,
    ));
    assert(keyword_rank(IntentAction::Resume) >= keyword_rank(a) || !keyword_asks_for(
        s,
        IntentAction::Resume,
    ));
    assert(keyword_rank(IntentAction::Next) >= keyword_rank(a) || !keyword_asks_for(
        s,
        IntentAction::Next,
    ));
    assert(keyword_rank(IntentAction::Previous) >= keyword_rank(a) || !keyword_asks_for(
        s,
        IntentAction::Previous,
    ));
    assert(keyword_rank(IntentAction::Stop) >= keyword_rank(a) || !keyword_asks_for(
        s,
        IntentAction::Stop,
    ));
    assert(keyword_rank(IntentAction::VolumeUp) >= keyword_rank(a) || !keyword_asks_for(
        s,
        IntentAction::VolumeUp,
    ));
    assert(keyword_rank(IntentAction::VolumeDown) >= keyword_rank(a) || !keyword_asks_for(
        s,
        IntentAction::VolumeDown,
    ));
    assert(keyword_rank(IntentAction::Shuffle) >= keyword_rank(a) || !keyword_asks_for(
        s,
        IntentAction::Shuffle,
    ));
}

/// A command without any transport keyword is never read as a transport command: it is
/// a play, queue or search command, or not understood.
pub proof fn lemma_no_keyword_no_transport(s: Seq<char>)
    requires
        forall|b: IntentAction| !#[trigger] keyword_asks_for(s, b),
    ensures
        match local_intent(s) {
            None => true,
            Some((a, t)) => t is Some && (a == IntentAction::Play || a == IntentAction::Queue
                || a == IntentAction::Search),
        },
{
    assert(!keyword_asks_for(s, IntentAction::Pause));
    assert(!keyword_asks_for(s, IntentAction::Resume));
    assert(!keyword_asks_for(s, IntentAction::Next));
    assert(!keyword_asks_for(s, IntentAction::Previous));
    assert(!keyword_asks_for(s, IntentAction::Stop));
    assert(!keyword_asks_for(s, IntentAction::VolumeUp));
    assert(!keyword_asks_for(s, IntentAction::VolumeDown));
    assert(!keyword_asks_for(s, IntentAction::Shuffle));
    assert(!keyword_asks_for(s, IntentAction::ClearQueue));
}

/// A query whose only field is the free text `t`.
pub open spec fn is_free_text_query(q: IntentQuery, t: Seq<char>) -> bool {
    &&& q.free_text matches Some(f) && f@ == t
    &&& q.artist is None
    &&& q.title is None
    &&& q.album is None
    &&& q.genre is None
    &&& q.mood is None
}

/// `r` is the intent that `local_intent` describes.
pub open spec fn matches_local_intent(r: Option<MusicIntent>, s: Seq<char>) -> bool {
    match local_intent(s) {
        None => r is None,
        Some((a, None)) => r matches Some(i) && i.action == a && i.query is None,
        Some((a, Some(t))) => r matches Some(i) && i.action == a && (i.query matches Some(q)
            && is_content_query(a, q, t)),
    }
}

/// The rest of `s` after the first of `prefixes` that starts it, trimmed, when that
/// rest is not empty.
pub fn strip_prefix_any(s: &str, prefixes: &[&str]) -> (r: Option<String>)
    ensures
        r matches Some(t) ==> strip_prefix_any_spec(s@, prefixes@.map_values(|p: &str| p@))
            == Some(t@),
        r is None ==> strip_prefix_any_spec(s@, prefixes@.map_values(|p: &str| p@)) is None,
{
    let v = chars_of(s);
    let ghost ps = prefixes@.map_values(|p: &str| p@);
    let n = prefixes.len();
    let mut i: usize = 0;
    assert(ps.skip(0) =~= ps);
    while i < n
        invariant
            n == prefixes@.len(),
            i <= n,
            v@ == s@,
            ps == prefixes@.map_values(|p: &str| p@),
            strip_prefix_any_spec(s@, ps) == strip_prefix_any_spec(s@, ps.skip(i as int)),
        decreases n - i,
    {
        let p = chars_of(prefixes[i]);
        assert(ps.skip(i as int)[0] == p@);
        assert(ps.skip(i as int).drop_first() =~= ps.skip(i + 1));
        if occurs_at_exec(&v, &p, 0) {
            let (a, b) = trim_range(&v, p.len(), v.len());
            assert(v@.subrange(p@.len() as int, v@.len() as int) =~= v@.skip(p@.len() as int));
            if a < b {
                return Some(string_of(&v, a, b));
            }
        }
        i += 1;
    }
    None
}

/// Reads a command that is already lower-case: trims it and applies the keyword rules
/// (see `local_intent`). `None` means that the command needs the language model.
pub fn interpret_lowercase_command(lower: &str) -> (r: Option<MusicIntent>)
    ensures
        matches_local_intent(r, trim(lower@)),
{
    let trimmed_text = trimmed(lower);
    let s = chars_of(trimmed_text.as_str());
    let transport = if contains_str(&s, "pause") || contains_str(&s, "pausa") {
        Some(IntentAction::Pause)
    } else if contains_str(&s, "resume") || contains_str(&s, "continua") || contains_str(
        &s,
        "reanudar",
    ) {
        Some(IntentAction::Resume)
    } else if equals_str(&s, "next") || equals_str(&s, "skip") || contains_str(&s, "next song")
        || contains_str(&s, "siguiente") {
        Some(IntentAction::Next)
    } else if equals_str(&s, "previous") || equals_str(&s, "prev") || contains_str(
        &s,
        "previous song",
    ) || contains_str(&s, "anterior") {
        Some(IntentAction::Previous)
    } else if equals_str(&s, "stop") || equals_str(&s, "para") || equals_str(&s, "detener") {
        Some(IntentAction::Stop)
    } else if contains_str(&s, "volume up") || contains_str(&s, "sube") || contains_str(
        &s,
        "louder",
    ) {
        Some(IntentAction::VolumeUp)
    } else if contains_str(&s, "volume down") || contains_str(&s, "baja") || contains_str(
        &s,
        "quieter",
    ) {
        Some(IntentAction::VolumeDown)
    } else if equals_str(&s, "shuffle") || contains_str(&s, "aleatorio") {
        Some(IntentAction::Shuffle)
    } else if contains_str(&s, "clear queue") || contains_str(&s, "clear the queue")
        || contains_str(&s, "limpiar") || contains_str(&s, "vaciar") {
        Some(IntentAction::ClearQueue)
    } else {
        None
    };
    assert(transport == transport_action(s@));
    if let Some(action) = transport {
        return Some(MusicIntent { action, query: None });
    }
    let t = trimmed_text.as_str();
    let play: [&str; 3] = ["play ", "pon ", "reproduce "];
    assert(play@.map_values(|p: &str| p@) =~= play_prefixes());
    if let Some(rest) = strip_prefix_any(t, &play) {
        return Some(content_intent(IntentAction::Play, rest));
    }
    let queue: [&str; 4] = ["queue ", "encola ", "agregar ", "add "];
    assert(queue@.map_values(|p: &str| p@) =~= queue_prefixes());
    if let Some(rest) = strip_prefix_any(t, &queue) {
        return Some(content_intent(IntentAction::Queue, rest));
    }
    let search: [&str; 3] = ["search ", "busca ", "buscar "];
    assert(search@.map_values(|p: &str| p@) =~= search_prefixes());
    if let Some(rest) = strip_prefix_any(t, &search) {
        return Some(content_intent(IntentAction::Search, rest));
    }
    None
}

/// The artist of a request for everything of one artist (see `artist_phrase`).
fn artist_in_phrase(t: &str) -> (r: Option<String>)
    ensures
        match r {
            Some(x) => artist_phrase(t@) == Some(x@),
            None => artist_phrase(t@) is None,
        },
{
    let prefixes: [&str; 8] = [
        "all music from ",
        "all music by ",
        "all songs from ",
        "all songs by ",
        "everything from ",
        "everything by ",
        "toda la m\u{fa}sica de ",
        "todo de ",
    ];
    assert(prefixes@.map_values(|p: &str| p@) =~= artist_phrase_prefixes());
    if let Some(a) = strip_prefix_any(t, &prefixes) {
        return Some(a);
    }
    let v = chars_of(t);
    let pre = chars_of("all ");
    let post = chars_of(" music");
    if v.len() >= pre.len() && v.len() - pre.len() >= post.len() && occurs_at_exec(&v, &pre, 0)
        && occurs_at_exec(&v, &post, v.len() - post.len()) {
        let (a, b) = trim_range(&v, pre.len(), v.len() - post.len());
        if a < b {
            return Some(string_of(&v, a, b));
        }
    }
    None
}

/// The intent of a play, queue or search command with text `text` (see
/// `is_content_query`).
fn content_intent(action: IntentAction, text: String) -> (r: MusicIntent)
    ensures
        r.action == action,
        r.query matches Some(q) && is_content_query(action, q, text@),
{
    if action == IntentAction::Play || action == IntentAction::Queue {
        if let Some(artist) = artist_in_phrase(text.as_str()) {
            return MusicIntent {
                action,
                query: Some(
                    IntentQuery {
                        artist: Some(artist),
                        title: None,
                        album: None,
                        genre: None,
                        mood: None,
                        free_text: None,
                    },
                ),
            };
        }
    }
    free_text_intent(action, text)
}

/// An intent whose query holds only free text.
fn free_text_intent(action: IntentAction, text: String) -> (r: MusicIntent)
    ensures
        r.action == action,
        r.query matches Some(q) && is_free_text_query(q, text@),
{
    MusicIntent {
        action,
        query: Some(
            IntentQuery {
                artist: None,
                title: None,
                album: None,
                genre: None,
                mood: None,
                free_text: Some(text),
            },
        ),
    }
}

/// Tries to parse a voice command with the local keyword rules: the command is
/// lower-cased and trimmed, then read as described by `local_intent`.
/// `None` means that the command is ambiguous and needs the language model.
pub fn parse_local_intent(text: &str) -> (r: Option<MusicIntent>)
    ensures
        matches_local_intent(r, trim(lowercase(text@))),
{
    let lower = to_lowercase(text);
    interpret_lowercase_command(lower.as_str())
}

// ───────────────────────── description shown to the user ─────────────────────────

/// One description part for an optional field: `pre`, the field, `post`; nothing when unset.
pub open spec fn opt_part(o: Option<String>, pre: Seq<char>, post: Seq<char>) -> Seq<Seq<char>> {
    match o {
        Some(x) => seq![pre + x@ + post],
        None => Seq::empty(),
    }
}

/// Parts of the description of a "play" command.
pub open spec fn play_parts(q: IntentQuery) -> Seq<Seq<char>> {
    opt_part(q.title, "\""@, "\""@) + opt_part(q.artist, "by "@, ""@) + opt_part(
        q.album,
        "album: "@,
        ""@,
    ) + opt_part(q.genre, ""@, " music"@) + opt_part(q.mood, ""@, " vibes"@) + opt_part(
        q.free_text,
        ""@,
        ""@,
    )
}

/// Parts of the description of a "queue" command.
pub open spec fn queue_parts(q: IntentQuery) -> Seq<Seq<char>> {
    opt_part(q.artist, ""@, ""@) + opt_part(q.title, "\""@, "\""@) + opt_part(
        q.genre,
        ""@,
        " music"@,
    ) + opt_part(q.free_text, ""@, ""@)
}

/// Parts of the description of a "search" command.
pub open spec fn search_parts(q: IntentQuery) -> Seq<Seq<char>> {
    opt_part(q.artist, ""@, ""@) + opt_part(q.title, ""@, ""@) + opt_part(q.genre, ""@, ""@)
        + opt_part(q.free_text, ""@, ""@)
}

/// The human-readable description of an intent.
pub open spec fn description(i: MusicIntent) -> Seq<char> {
    match i.action {
        IntentAction::Play => match i.query {
            Some(q) => "Playing "@ + join(play_parts(q), " "@),
            None => "Playing music..."@,
        },
        IntentAction::Queue => match i.query {
            Some(q) => "Queuing "@ + join(queue_parts(q), ", "@),
            None => "Adding to queue..."@,
        },
        IntentAction::Search => match i.query {
            Some(q) => "Searching for "@ + join(search_parts(q), ", "@),
            None => "Searching..."@,
        },
        IntentAction::Pause => "Paused"@,
        IntentAction::Resume => "Playing"@,
        IntentAction::Next => "Next track"@,
        IntentAction::Previous => "Previous track"@,
        IntentAction::Stop => "Stopped"@,
        IntentAction::VolumeUp => "Volume up"@,
        IntentAction::VolumeDown => "Volume down"@,
        IntentAction::Shuffle => "Shuffle toggled"@,
        IntentAction::ClearQueue => "Queue cleared"@,
    }
}

/// Appends the part for an optional field (see `opt_part`).
fn push_part(parts: &mut Vec<String>, o: &Option<String>, pre: &str, post: &str)
    ensures
        views(final(parts)@) == views(old(parts)@) + opt_part(*o, pre@, post@),
{
    if let Some(x) = o {
        let mut part = owned(pre);
        push_str(&mut part, x.as_str());
        push_str(&mut part, post);
        parts.push(part);
        assert(views(final(parts)@) =~= views(old(parts)@) + opt_part(*o, pre@, post@));
    } else {
        assert(views(final(parts)@) =~= views(old(parts)@) + opt_part(*o, pre@, post@));
    }
}

/// `head` followed by `tail`.
fn concat(head: &str, tail: &str) -> (r: String)
    ensures
        r@ == head@ + tail@,
{
    let mut r = owned(head);
    push_str(&mut r, tail);
    r
}

/// Human-readable description of a music intent (see `description`).
pub fn describe_intent(intent: &MusicIntent) -> (r: String)
    ensures
        r@ == description(*intent),
{
    match intent.action {
        IntentAction::Play => {
            if let Some(q) = &intent.query {
                let mut parts: Vec<String> = Vec::new();
                push_part(&mut parts, &q.title, "\"", "\"");
                push_part(&mut parts, &q.artist, "by ", "");
                push_part(&mut parts, &q.album, "album: ", "");
                push_part(&mut parts, &q.genre, "", " music");
                push_part(&mut parts, &q.mood, "", " vibes");
                push_part(&mut parts, &q.free_text, "", "");
                assert(views(parts@) =~= play_parts(*q));
                concat("Playing ", join_strings(&parts, " ").as_str())
            } else {
                owned("Playing music...")
            }
        },
        IntentAction::Queue => {
            if let Some(q) = &intent.query {
                let mut parts: Vec<String> = Vec::new();
                push_part(&mut parts, &q.artist, "", "");
                push_part(&mut parts, &q.title, "\"", "\"");
                push_part(&mut parts, &q.genre, "", " music");
                push_part(&mut parts, &q.free_text, "", "");
                assert(views(parts@) =~= queue_parts(*q));
                concat("Queuing ", join_strings(&parts, ", ").as_str())
            } else {
                owned("Adding to queue...")
            }
        },
        IntentAction::Search => {
            if let Some(q) = &intent.query {
                let mut parts: Vec<String> = Vec::new();
                push_part(&mut parts, &q.artist, "", "");
                push_part(&mut parts, &q.title, "", "");
                push_part(&mut parts, &q.genre, "", "");
                push_part(&mut parts, &q.free_text, "", "");
                assert(views(parts@) =~= search_parts(*q));
                concat("Searching for ", join_strings(&parts, ", ").as_str())
            } else {
                owned("Searching...")
            }
        },
        IntentAction::Pause => owned("Paused"),
        IntentAction::Resume => owned("Playing"),
        IntentAction::Next => owned("Next track"),
        IntentAction::Previous => owned("Previous track"),
        IntentAction::Stop => owned("Stopped"),
        IntentAction::VolumeUp => owned("Volume up"),
        IntentAction::VolumeDown => owned("Volume down"),
        IntentAction::Shuffle => owned("Shuffle toggled"),
        IntentAction::ClearQueue => owned("Queue cleared"),
    }
}

// ───────────────────────── the language model ─────────────────────────

/// The address of the `generateContent` call of `model`, with the key as query parameter.
pub open spec fn request_url(model: Seq<char>, api_key: Seq<char>) -> Seq<char> {
    "https://generativelanguage.googleapis.com/v1beta/models/"@ + model + ":generateContent?key="@
        + api_key
}

/// The address of the `generateContent` call (see `request_url`).
pub fn gemini_request_url(model: &str, api_key: &str) -> (r: String)
    ensures
        r@ == request_url(model@, api_key@),
{
    let mut r = owned("https://generativelanguage.googleapis.com/v1beta/models/");
    push_str(&mut r, model);
    push_str(&mut r, ":generateContent?key=");
    push_str(&mut r, api_key);
    r
}

/// The text sent to the model: the instructions, a blank line, and the quoted command.
pub open spec fn prompt_text(command: Seq<char>) -> Seq<char> {
    SYSTEM_PROMPT@ + "\n\nVoice command: \""@ + command + "\""@
}

/// The text sent to the model for a voice command (see `prompt_text`).
pub fn gemini_prompt(command: &str) -> (r: String)
    ensures
        r@ == prompt_text(command@),
{
    let mut r = owned(SYSTEM_PROMPT);
    push_str(&mut r, "\n\nVoice command: \"");
    push_str(&mut r, command);
    push_str(&mut r, "\"");
    r
}

/// Number of opening minus number of closing braces in `t`.
pub open spec fn brace_balance(t: Seq<char>) -> int
    decreases t.len(),
{
    if t.len() == 0 {
        0
    } else {
        brace_balance(t.drop_last()) + if t.last() == '{' {
            1int
        } else if t.last() == '}' {
            -1int
        } else {
            0int
        }
    }
}

/// The first position of `c` in `s` at or after `i`.
pub open spec fn index_of_from(s: Seq<char>, c: char, i: int) -> Option<int>
    decreases s.len() - i,
{
    if i < 0 || i >= s.len() {
        None
    } else if s[i] == c {
        Some(i)
    } else {
        index_of_from(s, c, i + 1)
    }
}

/// The object that opens at `start` closes at `j`: the braces of `s[start..=j]` balance,
/// and those of every shorter piece from `start` do not.
pub open spec fn closes_at(s: Seq<char>, start: int, j: int) -> bool {
    &&& start <= j < s.len()
    &&& brace_balance(s.subrange(start, j + 1)) == 0
    &&& forall|k: int| start <= k < j ==> brace_balance(#[trigger] s.subrange(start, k + 1)) > 0
}

/// `obj` is the piece of `s` from `start` to the position where the object closes.
pub open spec fn object_cut(s: Seq<char>, start: int, obj: Seq<char>) -> bool {
    exists|j: int| #[trigger] closes_at(s, start, j) && obj == s.subrange(start, j + 1)
}

/// Cuts the first balanced `{...}` object out of `s`: it starts at the first `{` and ends
/// at the first `}` that closes it, so that nested objects and trailing prose do not
/// confuse it. `None` when there is no `{` or it is never closed.
pub fn extract_json_object(s: &str) -> (r: Option<String>)
    ensures
        match index_of_from(s@, '{', 0) {
            None => r is None,
            Some(start) => match r {
                Some(obj) => object_cut(s@, start, obj@),
                None => forall|j: int|
                    start <= j < s@.len() ==> brace_balance(#[trigger] s@.subrange(start, j + 1))
                        > 0,
            },
        },
{
    let v = chars_of(s);
    let n = v.len();
    let mut start: usize = 0;
    while start < n && v[start] != '{'
        invariant
            n == v@.len(),
            v@ == s@,
            start <= n,
            index_of_from(s@, '{', 0) == index_of_from(s@, '{', start as int),
        decreases n - start,
    {
        start += 1;
    }
    if start == n {
        return None;
    }
    let mut depth: usize = 0;
    let mut k: usize = start;
    while k < n
        invariant
            n == v@.len(),
            v@ == s@,
            start < n,
            v@[start as int] == '{',
            start <= k <= n,
            index_of_from(s@, '{', 0) == Some(start as int),
            depth as int == brace_balance(s@.subrange(start as int, k as int)),
            k > start ==> depth > 0,
            depth <= k - start,
            forall|m: int|
                start <= m < k ==> brace_balance(#[trigger] s@.subrange(start as int, m + 1)) > 0,
        decreases n - k,
    {
        let c = v[k];
        assert(s@.subrange(start as int, k + 1).drop_last() =~= s@.subrange(start as int, k as int));
        if k == start {
            assert(s@.subrange(start as int, start as int) =~= Seq::<char>::empty());
        }
        if c == '{' {
            depth += 1;
        } else if c == '}' {
            depth -= 1;
            if depth == 0 {
                let obj = string_of(&v, start, k + 1);
                assert(closes_at(s@, start as int, k as int) && obj@ == s@.subrange(
                    start as int,
                    k + 1,
                ));
                assert(object_cut(s@, start as int, obj@));
                return Some(obj);
            }
        }
        k += 1;
    }
    None
}

/// `t` holds no complete object: no `{`, or the first one is never closed.
pub open spec fn no_json_object(t: Seq<char>) -> bool {
    match index_of_from(t, '{', 0) {
        None => true,
        Some(start) => forall|j: int|
            start <= j < t.len() ==> brace_balance(#[trigger] t.subrange(start, j + 1)) > 0,
    }
}

/// `obj` is the first complete object of `t` (see `extract_json_object`).
pub open spec fn first_json_object(t: Seq<char>, obj: Seq<char>) -> bool {
    match index_of_from(t, '{', 0) {
        None => false,
        Some(start) => object_cut(t, start, obj),
    }
}

/// The error message for a reply of the model with an unsuccessful HTTP status.
pub open spec fn api_error_text(status: Seq<char>, body: Seq<char>) -> Seq<char> {
    "Gemini API error "@ + status + ": "@ + body
}

/// The error message for an unsuccessful reply (see `api_error_text`).
pub fn gemini_api_error(status: &str, body: &str) -> (r: String)
    ensures
        r@ == api_error_text(status@, body@),
{
    let mut r = owned("Gemini API error ");
    push_str(&mut r, status);
    push_str(&mut r, ": ");
    push_str(&mut r, body);
    r
}

/// The intent object in the text of the model's reply: the first complete JSON object
/// of the text, or the error message when the reply has no text (`None`) or the text
/// holds no complete object.
pub fn reply_intent_json(raw: Option<&str>) -> (r: Result<String, String>)
    ensures
        match raw {
            None => r matches Err(e) && e@ == "No text in Gemini response"@,
            Some(t) => match r {
                Ok(obj) => first_json_object(t@, obj@),
                Err(e) => no_json_object(t@) && e@ == "No JSON object found in Gemini response: "@
                    + t@,
            },
        },
{
    match raw {
        None => Err(owned("No text in Gemini response")),
        Some(t) => match extract_json_object(t) {
            Some(obj) => Ok(obj),
            None => {
                let mut e = owned("No JSON object found in Gemini response: ");
                push_str(&mut e, t);
                Err(e)
            },
        },
    }
}

/// The position `index_of_from` finds holds the character looked for.
pub proof fn lemma_index_of_from(s: Seq<char>, c: char, i: int)
    ensures
        index_of_from(s, c, i) matches Some(k) ==> i <= k < s.len() && s[k] == c,
    decreases s.len() - i,
{
    if 0 <= i < s.len() && s[i] != c {
        lemma_index_of_from(s, c, i + 1);
    }
}

/// The object cut out of a text opens with `{`, closes with `}`, and has as many
/// opening as closing braces.
pub proof fn lemma_cut_object_is_balanced(s: Seq<char>, obj: Seq<char>)
    requires
        index_of_from(s, '{', 0) matches Some(start) && object_cut(s, start, obj),
    ensures
        obj.len() >= 2,
        obj[0] == '{',
        obj.last() == '}',
        brace_balance(obj) == 0,
{
    let start = index_of_from(s, '{', 0)->0;
    lemma_index_of_from(s, '{', 0);
    let j = choose|j: int| #[trigger] closes_at(s, start, j) && obj == s.subrange(start, j + 1);
    let one = s.subrange(start, start + 1);
    assert(one.drop_last() =~= Seq::<char>::empty());
    assert(one.last() == '{');
    assert(brace_balance(Seq::<char>::empty()) == 0);
    assert(brace_balance(one) == brace_balance(one.drop_last()) + 1);
    if j == start {
        assert(obj =~= one);
        assert(brace_balance(one) == 1);
    }
    assert(j > start);
    let before = s.subrange(start, j);
    assert(obj.drop_last() =~= before);
    assert(brace_balance(s.subrange(start, (j - 1) + 1)) > 0);
    assert(s.subrange(start, (j - 1) + 1) =~= before);
    assert(obj[0] == s[start]);
}

/// The text searched for a spoken "play" or "queue" command: the free text, else the
/// artist, title, album or genre, in that order. `None` (no query, or no field set)
/// stands for the whole library.
pub open spec fn intent_search_term(query: Option<IntentQuery>) -> Option<String> {
    match query {
        None => None,
        Some(q) => if q.free_text is Some {
            q.free_text
        } else if q.artist is Some {
            q.artist
        } else if q.title is Some {
            q.title
        } else if q.album is Some {
            q.album
        } else {
            q.genre
        },
    }
}

/// The text to search for a spoken "play" or "queue" command (see `intent_search_term`).
pub fn search_term_for_intent(query: Option<&IntentQuery>) -> (r: Option<String>)
    ensures
        r == intent_search_term(match query { Some(q) => Some(*q), None => None }),
{
    match query {
        None => None,
        Some(q) => if q.free_text.is_some() {
            q.free_text.clone()
        } else if q.artist.is_some() {
            q.artist.clone()
        } else if q.title.is_some() {
            q.title.clone()
        } else if q.album.is_some() {
            q.album.clone()
        } else {
            q.genre.clone()
        },
    }
}

/// What the player does for a recognized intent.
#[derive(Debug, Clone, PartialEq, Eq)]
pub enum IntentStep {
    NextTrack,
    PrevTrack,
    Pause,
    Resume,
    Stop,
    VolumeUp,
    VolumeDown,
    ToggleShuffle,
    ClearQueue,
    /// Run a library search for this text (the current tab stays).
    Search(String),
    /// Find the matching tracks and make them the queue.
    FindAndPlay,
    /// Find the matching tracks and append them to the queue.
    FindAndQueue,
    /// Nothing to do.
    Nothing,
}

/// The text a spoken "search" command searches for: the free text, else the artist,
/// else the title; nothing when none is set or it is empty.
pub open spec fn spoken_search_term(q: IntentQuery) -> Option<Seq<char>> {
    let term = if q.free_text is Some {
        q.free_text->0@
    } else if q.artist is Some {
        q.artist->0@
    } else if q.title is Some {
        q.title->0@
    } else {
        Seq::empty()
    };
    if term.len() > 0 {
        Some(term)
    } else {
        None
    }
}

/// `r` is the step that carries out `intent`: transport and volume actions map to the
/// matching player step, "search" searches for `spoken_search_term` (nothing without
/// one), and "play" and "queue" look for tracks.
pub open spec fn step_matches(intent: MusicIntent, r: IntentStep) -> bool {
    match intent.action {
        IntentAction::Next => r == IntentStep::NextTrack,
        IntentAction::Previous => r == IntentStep::PrevTrack,
        IntentAction::Pause => r == IntentStep::Pause,
        IntentAction::Resume => r == IntentStep::Resume,
        IntentAction::Stop => r == IntentStep::Stop,
        IntentAction::VolumeUp => r == IntentStep::VolumeUp,
        IntentAction::VolumeDown => r == IntentStep::VolumeDown,
        IntentAction::Shuffle => r == IntentStep::ToggleShuffle,
        IntentAction::ClearQueue => r == IntentStep::ClearQueue,
        IntentAction::Play => r == IntentStep::FindAndPlay,
        IntentAction::Queue => r == IntentStep::FindAndQueue,
        IntentAction::Search => match intent.query {
            Some(q) => match spoken_search_term(q) {
                Some(t) => r matches IntentStep::Search(x) && x@ == t,
                None => r == IntentStep::Nothing,
            },
            None => r == IntentStep::Nothing,
        },
    }
}

/// A spoken search whose query holds non-empty free text searches for that text,
/// whatever artist or title the query also holds.
pub proof fn lemma_search_step_uses_free_text(intent: MusicIntent, r: IntentStep, t: Seq<char>)
    requires
        intent.action == IntentAction::Search,
        intent.query matches Some(q) && (q.free_text matches Some(f) && f@ == t),
        t.len() > 0,
        step_matches(intent, r),
    ensures
        r matches IntentStep::Search(x) && x@ == t,
{
}

/// Without free text a spoken search searches for the artist, and without an artist for
/// the title, when that text is not empty; with nothing to search for it does nothing.
pub proof fn lemma_search_step_fallbacks(intent: MusicIntent, r: IntentStep)
    requires
        intent.action == IntentAction::Search,
        step_matches(intent, r),
    ensures
        intent.query is None ==> r == IntentStep::Nothing,
        ({
            let q = intent.query->0;
            &&& intent.query is Some && q.free_text is None && q.artist is Some
                && q.artist->0@.len() > 0 ==> (r matches IntentStep::Search(x) && x@
                == q.artist->0@)
            &&& intent.query is Some && q.free_text is None && q.artist is None
                && q.title is Some && q.title->0@.len() > 0 ==> (r matches IntentStep::Search(x)
                && x@ == q.title->0@)
            &&& intent.query is Some && q.free_text is None && q.artist is None
                && q.title is None ==> r == IntentStep::Nothing
            &&& intent.query is Some && q.free_text is Some && q.free_text->0@.len() == 0 ==> r
                == IntentStep::Nothing
        }),
{
}

/// What follows a stripped prefix is never empty.
pub proof fn lemma_stripped_rest_not_empty(s: Seq<char>, prefixes: Seq<Seq<char>>)
    ensures
        strip_prefix_any_spec(s, prefixes) matches Some(r) ==> r.len() > 0,
    decreases prefixes.len(),
{
    if prefixes.len() > 0 {
        lemma_stripped_rest_not_empty(s, prefixes.drop_first());
    }
}

/// A command that the local rules read as a search for text `t` ("search rock",
/// "busca jazz") is carried out as a library search for exactly `t`.
pub proof fn lemma_spoken_search_runs_search(
    s: Seq<char>,
    intent: MusicIntent,
    r: IntentStep,
    t: Seq<char>,
)
    requires
        local_intent(s) == Some((IntentAction::Search, Some(t))),
        matches_local_intent(Some(intent), s),
        step_matches(intent, r),
    ensures
        t.len() > 0,
        r matches IntentStep::Search(x) && x@ == t,
{
    lemma_stripped_rest_not_empty(s, search_prefixes());
}

/// The step that carries out an intent (see `step_matches`).
pub fn intent_step(intent: &MusicIntent) -> (r: IntentStep)
    ensures
        step_matches(*intent, r),
{
    match intent.action {
        IntentAction::Next => IntentStep::NextTrack,
        IntentAction::Previous => IntentStep::PrevTrack,
        IntentAction::Pause => IntentStep::Pause,
        IntentAction::Resume => IntentStep::Resume,
        IntentAction::Stop => IntentStep::Stop,
        IntentAction::VolumeUp => IntentStep::VolumeUp,
        IntentAction::VolumeDown => IntentStep::VolumeDown,
        IntentAction::Shuffle => IntentStep::ToggleShuffle,
        IntentAction::ClearQueue => IntentStep::ClearQueue,
        IntentAction::Play => IntentStep::FindAndPlay,
        IntentAction::Queue => IntentStep::FindAndQueue,
        IntentAction::Search => {
            match &intent.query {
                Some(q) => {
                    let term = match &q.free_text {
                        Some(t) => owned(t.as_str()),
                        None => match &q.artist {
                            Some(a) => owned(a.as_str()),
                            None => match &q.title {
                                Some(t) => owned(t.as_str()),
                                None => String::new(),
                            },
                        },
                    };
                    if term.as_str().is_empty() {
                        IntentStep::Nothing
                    } else {
                        IntentStep::Search(term)
                    }
                },
                None => IntentStep::Nothing,
            }
        },
    }
}

} // verus!
