use nullamp::intent::{
    describe_intent, extract_json_object, gemini_api_error, gemini_prompt, gemini_request_url, intent_step,
    interpret_lowercase_command, parse_local_intent, search_term_for_intent, strip_prefix_any,
    reply_intent_json, IntentStep, SYSTEM_PROMPT,
};
use nullamp::models::{IntentAction, IntentQuery, MusicIntent};

fn action_of(text: &str) -> Option<IntentAction> {
    parse_local_intent(text).map(|i| i.action)
}

fn artist_of(text: &str) -> Option<String> {
    parse_local_intent(text).and_then(|i| i.query).and_then(|q| q.artist)
}

fn free_text_of(text: &str) -> Option<String> {
    parse_local_intent(text).and_then(|i| i.query).and_then(|q| q.free_text)
}

#[test]
fn transport_commands_in_english_and_spanish() {
    assert_eq!(action_of("pause"), Some(IntentAction::Pause));
    assert_eq!(action_of("Pausa por favor"), Some(IntentAction::Pause));
    assert_eq!(action_of("resume"), Some(IntentAction::Resume));
    assert_eq!(action_of("reanudar"), Some(IntentAction::Resume));
    assert_eq!(action_of("Next"), Some(IntentAction::Next));
    assert_eq!(action_of("  skip  "), Some(IntentAction::Next));
    assert_eq!(action_of("next song please"), Some(IntentAction::Next));
    assert_eq!(action_of("siguiente"), Some(IntentAction::Next));
    assert_eq!(action_of("prev"), Some(IntentAction::Previous));
    assert_eq!(action_of("la anterior"), Some(IntentAction::Previous));
    assert_eq!(action_of("stop"), Some(IntentAction::Stop));
    assert_eq!(action_of("Detener"), Some(IntentAction::Stop));
    assert_eq!(action_of("volume up"), Some(IntentAction::VolumeUp));
    assert_eq!(action_of("louder"), Some(IntentAction::VolumeUp));
    assert_eq!(action_of("baja el volumen"), Some(IntentAction::VolumeDown));
    assert_eq!(action_of("shuffle"), Some(IntentAction::Shuffle));
    assert_eq!(action_of("modo aleatorio"), Some(IntentAction::Shuffle));
    assert_eq!(action_of("clear the queue"), Some(IntentAction::ClearQueue));
    assert_eq!(action_of("vaciar"), Some(IntentAction::ClearQueue));
}

#[test]
fn transport_commands_have_no_query() {
    let i = parse_local_intent("pause").unwrap();
    assert!(i.query.is_none());
}

#[test]
fn exact_words_only_match_whole_command() {
    // "stop" is only a stop command on its own
    assert_eq!(action_of("stop the music"), None);
    assert_eq!(action_of("skipping"), None);
}

#[test]
fn rule_order_pause_before_play() {
    // "pause" is checked before the "play" prefix
    assert_eq!(action_of("play pause"), Some(IntentAction::Pause));
}

#[test]
fn content_commands_carry_trimmed_free_text() {
    assert_eq!(action_of("Play some Jazz"), Some(IntentAction::Play));
    assert_eq!(free_text_of("Play some Jazz"), Some("some jazz".to_string()));
    assert_eq!(action_of("pon   queen "), Some(IntentAction::Play));
    assert_eq!(free_text_of("pon   queen "), Some("queen".to_string()));
    assert_eq!(action_of("queue abba"), Some(IntentAction::Queue));
    assert_eq!(action_of("add rock"), Some(IntentAction::Queue));
    assert_eq!(free_text_of("encola salsa"), Some("salsa".to_string()));
    assert_eq!(action_of("search beatles"), Some(IntentAction::Search));
    assert_eq!(free_text_of("buscar rock"), Some("rock".to_string()));
    let q = parse_local_intent("play x").unwrap().query.unwrap();
    assert!(q.artist.is_none() && q.title.is_none() && q.album.is_none());
    assert!(q.genre.is_none() && q.mood.is_none());
}

#[test]
fn ambiguous_commands_need_the_model() {
    assert!(parse_local_intent("I want to hear something").is_none());
    assert!(parse_local_intent("play").is_none());
    assert!(parse_local_intent("play    ").is_none());
    assert!(parse_local_intent("").is_none());
}

#[test]
fn lowercase_is_applied_before_matching() {
    // fails if the case mapping handed its argument back unchanged
    assert_eq!(action_of("PAUSE"), Some(IntentAction::Pause));
    assert_eq!(free_text_of("PLAY ÉXITOS"), Some("éxitos".to_string()));
}

#[test]
fn interpret_lowercase_command_trims() {
    assert_eq!(interpret_lowercase_command("  next \n").map(|i| i.action), Some(IntentAction::Next));
}

#[test]
fn strip_prefix_any_first_prefix_with_content() {
    assert_eq!(strip_prefix_any("play  x ", &["play ", "pl"]), Some("x".to_string()));
    assert_eq!(strip_prefix_any("play   ", &["play ", "pl"]), Some("ay".to_string()));
    assert_eq!(strip_prefix_any("hello", &["play "]), None);
}

fn intent(action: IntentAction, query: Option<IntentQuery>) -> MusicIntent {
    MusicIntent { action, query }
}

fn query(artist: Option<&str>, title: Option<&str>, genre: Option<&str>, free: Option<&str>) -> IntentQuery {
    IntentQuery {
        artist: artist.map(String::from),
        title: title.map(String::from),
        album: None,
        genre: genre.map(String::from),
        mood: None,
        free_text: free.map(String::from),
    }
}

#[test]
fn describe_play() {
    let mut q = query(Some("Queen"), Some("Bohemian"), Some("rock"), Some("loud"));
    q.album = Some("Opera".to_string());
    q.mood = Some("epic".to_string());
    assert_eq!(
        describe_intent(&intent(IntentAction::Play, Some(q))),
        "Playing \"Bohemian\" by Queen album: Opera rock music epic vibes loud"
    );
    assert_eq!(describe_intent(&intent(IntentAction::Play, None)), "Playing music...");
    assert_eq!(describe_intent(&intent(IntentAction::Play, Some(query(None, None, None, None)))), "Playing ");
}

#[test]
fn describe_queue_and_search() {
    let q = query(Some("Queen"), Some("Bohemian"), Some("rock"), Some("x"));
    assert_eq!(
        describe_intent(&intent(IntentAction::Queue, Some(q.clone()))),
        "Queuing Queen, \"Bohemian\", rock music, x"
    );
    assert_eq!(
        describe_intent(&intent(IntentAction::Search, Some(q))),
        "Searching for Queen, Bohemian, rock, x"
    );
    assert_eq!(describe_intent(&intent(IntentAction::Queue, None)), "Adding to queue...");
    assert_eq!(describe_intent(&intent(IntentAction::Search, None)), "Searching...");
}

#[test]
fn describe_transport() {
    let cases = [
        (IntentAction::Pause, "Paused"),
        (IntentAction::Resume, "Playing"),
        (IntentAction::Next, "Next track"),
        (IntentAction::Previous, "Previous track"),
        (IntentAction::Stop, "Stopped"),
        (IntentAction::VolumeUp, "Volume up"),
        (IntentAction::VolumeDown, "Volume down"),
        (IntentAction::Shuffle, "Shuffle toggled"),
        (IntentAction::ClearQueue, "Queue cleared"),
    ];
    for (a, text) in cases {
        assert_eq!(describe_intent(&intent(a, None)), text);
    }
}

#[test]
fn json_object_is_cut_out_of_prose() {
    assert_eq!(
        extract_json_object("Sure! ```json\n{\"action\": \"play\", \"query\": {\"artist\": \"x\"}}\n``` done"),
        Some("{\"action\": \"play\", \"query\": {\"artist\": \"x\"}}".to_string())
    );
    assert_eq!(extract_json_object("{}{}"), Some("{}".to_string()));
    assert_eq!(extract_json_object("no braces"), None);
    assert_eq!(extract_json_object("{ never closed"), None);
    assert_eq!(extract_json_object("a } b { c { d } e } f"), Some("{ c { d } e }".to_string()));
    assert_eq!(extract_json_object("é{ñ}"), Some("{ñ}".to_string()));
}

#[test]
fn request_url_and_prompt() {
    assert_eq!(
        gemini_request_url("gemini-2.5-flash", "KEY"),
        "https://generativelanguage.googleapis.com/v1beta/models/gemini-2.5-flash:generateContent?key=KEY"
    );
    let p = gemini_prompt("play jazz");
    assert!(p.starts_with(SYSTEM_PROMPT));
    assert!(p.ends_with("\n\nVoice command: \"play jazz\""));
    assert_eq!(p.len(), SYSTEM_PROMPT.len() + "\n\nVoice command: \"play jazz\"".len());
}

#[test]
fn intent_steps() {
    assert_eq!(intent_step(&intent(IntentAction::Next, None)), IntentStep::NextTrack);
    assert_eq!(intent_step(&intent(IntentAction::Previous, None)), IntentStep::PrevTrack);
    assert_eq!(intent_step(&intent(IntentAction::Play, None)), IntentStep::FindAndPlay);
    assert_eq!(intent_step(&intent(IntentAction::Queue, None)), IntentStep::FindAndQueue);
    assert_eq!(intent_step(&intent(IntentAction::Search, None)), IntentStep::Nothing);
    assert_eq!(
        intent_step(&intent(IntentAction::Search, Some(query(Some("Queen"), Some("t"), None, None)))),
        IntentStep::Search("Queen".to_string())
    );
    assert_eq!(
        intent_step(&intent(IntentAction::Search, Some(query(None, None, Some("rock"), None)))),
        IntentStep::Nothing
    );
    assert_eq!(
        intent_step(&intent(IntentAction::Search, Some(query(None, None, None, Some(""))))),
        IntentStep::Nothing
    );
}

#[test]
fn search_term_order() {
    assert_eq!(search_term_for_intent(None), None);
    let q = query(Some("a"), Some("t"), Some("g"), Some("f"));
    assert_eq!(search_term_for_intent(Some(&q)), Some("f".to_string()));
    let q = query(Some("a"), Some("t"), Some("g"), None);
    assert_eq!(search_term_for_intent(Some(&q)), Some("a".to_string()));
    let mut q = query(None, None, Some("g"), None);
    q.album = Some("al".to_string());
    assert_eq!(search_term_for_intent(Some(&q)), Some("al".to_string()));
    let q = query(None, None, Some("g"), None);
    assert_eq!(search_term_for_intent(Some(&q)), Some("g".to_string()));
    assert_eq!(search_term_for_intent(Some(&IntentQuery::default())), None);
}

#[test]
fn readme_voice_command_examples() {
    assert_eq!(action_of("Play all Queen music"), Some(IntentAction::Play));
    assert_eq!(free_text_of("Play all Queen music"), None);
    assert_eq!(artist_of("Play all Queen music"), Some("queen".to_string()));
    assert_eq!(
        search_term_for_intent(parse_local_intent("Play all Queen music").unwrap().query.as_ref()),
        Some("queen".to_string())
    );
    assert_eq!(action_of("Queue some jazz"), Some(IntentAction::Queue));
    assert_eq!(free_text_of("Queue some jazz"), Some("some jazz".to_string()));
    assert_eq!(action_of("Next song"), Some(IntentAction::Next));
    assert_eq!(action_of("Pause"), Some(IntentAction::Pause));
    assert_eq!(action_of("Volume up"), Some(IntentAction::VolumeUp));
    assert_eq!(action_of("Search rock"), Some(IntentAction::Search));
    assert_eq!(free_text_of("Search rock"), Some("rock".to_string()));
}

#[test]
fn model_reply_outcomes() {
    assert_eq!(reply_intent_json(None), Err("No text in Gemini response".to_string()));
    assert_eq!(
        reply_intent_json(Some("```json\n{\"action\":\"next\"}\n```")),
        Ok("{\"action\":\"next\"}".to_string())
    );
    assert_eq!(
        reply_intent_json(Some("sorry")),
        Err("No JSON object found in Gemini response: sorry".to_string())
    );
    assert_eq!(
        reply_intent_json(Some("{ \"action\": ")),
        Err("No JSON object found in Gemini response: { \"action\": ".to_string())
    );
    assert_eq!(
        gemini_api_error("429 Too Many Requests", "quota"),
        "Gemini API error 429 Too Many Requests: quota"
    );
}

#[test]
fn requests_for_everything_of_an_artist_name_the_artist() {
    assert_eq!(artist_of("play everything by Daft Punk"), Some("daft punk".to_string()));
    assert_eq!(artist_of("play all music from  The Beatles "), Some("the beatles".to_string()));
    assert_eq!(artist_of("queue all songs by abba"), Some("abba".to_string()));
    assert_eq!(artist_of("pon toda la m\u{fa}sica de Shakira"), Some("shakira".to_string()));
    assert_eq!(artist_of("pon todo de Soda Stereo"), Some("soda stereo".to_string()));
    assert_eq!(action_of("queue all queen music"), Some(IntentAction::Queue));
    assert_eq!(artist_of("queue all queen music"), Some("queen".to_string()));
    // nothing between "all" and "music", or a search, stays free text
    assert_eq!(free_text_of("play all music"), Some("all music".to_string()));
    assert_eq!(free_text_of("search all queen music"), Some("all queen music".to_string()));
    assert_eq!(artist_of("search everything by queen"), None);
    assert_eq!(free_text_of("play some jazz"), Some("some jazz".to_string()));
}
