use nullamp::eq::{
    eq_presets, f32_bits_of_i8, CurveEvent, CurvePointer, EqCanvasState, EqCurve, EqParams, EQ_BANDS,
};
use nullamp::i18n::{en, es, t, translations};
use nullamp::models::ScanCancellation;
use nullamp::player::PlayState;
use nullamp::settings::{supported_gemini_model, toggled_language, DEFAULT_GEMINI_MODEL};
use nullamp::whisper::{
    first_available, model_action, whisper_model_of_file, ModelAction, WhisperModelInfo, model_download_url, scan_model_infos, startup_model_files, whisper_model_file,
    whisper_models,
};
use std::sync::Arc;

#[test]
fn translation_lookup_with_fallbacks() {
    let table = translations();
    assert_eq!(t(&table, "en", "tab_library"), "Library");
    assert_eq!(t(&table, "es", "tab_library"), "Biblioteca");
    assert_eq!(t(&table, "es", "scan_files_per_sec"), "a/s");
    // unknown language falls back to English
    assert_eq!(t(&table, "fr", "queue"), "Queue");
    // unknown key falls back to the key
    assert_eq!(t(&table, "es", "no_such_key"), "no_such_key");
}

#[test]
fn both_languages_have_the_same_keys() {
    let table = translations();
    assert_eq!(table.tables.len(), 2);
    let en = &table.tables[0];
    let es = &table.tables[1];
    assert_eq!(en.lang, "en");
    assert_eq!(es.lang, "es");
    assert_eq!(en.entries.len(), 80);
    assert_eq!(es.entries.len(), 80);
    for (k, _) in &en.entries {
        assert!(es.entries.iter().any(|(k2, _)| k2 == k), "{k}");
    }
}

#[test]
fn scan_cancellation_flag() {
    let c = ScanCancellation::new();
    assert!(!c.is_cancelled());
    let shared = c.clone();
    shared.cancel();
    assert!(c.is_cancelled());
    c.reset();
    assert!(!shared.is_cancelled());
}

#[test]
fn small_integers_as_float_bits() {
    for n in i8::MIN..=i8::MAX {
        assert_eq!(f32::from_bits(f32_bits_of_i8(n)), n as f32, "{n}");
    }
}

#[test]
fn eq_params_defaults_and_bounds() {
    let eq = EqParams::new();
    assert!(eq.is_enabled());
    for b in 0..EQ_BANDS {
        assert_eq!(eq.get_band(b), 0);
    }
    eq.set_band(3, 2.5f32.to_bits());
    assert_eq!(f32::from_bits(eq.get_band(3)), 2.5);
    eq.set_band(10, 7.0f32.to_bits());
    assert_eq!(eq.get_band(10), 0);
    eq.set_enabled(false);
    assert!(!eq.is_enabled());
    eq.set_preamp((-3.0f32).to_bits());
    assert_eq!(f32::from_bits(eq.get_preamp()), -3.0);
}

#[test]
fn load_preset_sets_all_bands() {
    let eq = EqParams::new();
    eq.set_preamp(6.0f32.to_bits());
    assert!(eq.load_preset("Rock"));
    let rock = [5.0f32, 3.0, -3.0, -4.0, -2.0, 2.0, 5.0, 6.0, 6.0, 6.0];
    for (i, g) in rock.iter().enumerate() {
        assert_eq!(f32::from_bits(eq.get_band(i)), *g);
    }
    assert_eq!(f32::from_bits(eq.get_preamp()), 0.0);
    assert!(!eq.load_preset("Nope"));
    assert_eq!(eq_presets().len(), 7);
    assert_eq!(eq_presets()[0].0, "Flat");
}

#[test]
fn eq_curve_holds_parameters() {
    let p = Arc::new(EqParams::new());
    let c = EqCurve::new(p.clone(), true);
    assert!(c.enabled);
    assert!(Arc::ptr_eq(&c.eq_params, &p));
    assert!(EqCanvasState::default().drag_band.is_none());
}

#[test]
fn player_state_transitions() {
    assert_eq!(PlayState::Paused.play(), (PlayState::Playing, true));
    assert_eq!(PlayState::Stopped.play(), (PlayState::Stopped, false));
    assert_eq!(PlayState::Playing.pause(), (PlayState::Paused, true));
    assert_eq!(PlayState::Paused.pause(), (PlayState::Paused, false));
    assert_eq!(PlayState::Playing.toggle_play_pause(), (PlayState::Paused, true));
    assert_eq!(PlayState::Paused.toggle_play_pause(), (PlayState::Playing, true));
    assert_eq!(PlayState::Stopped.toggle_play_pause(), (PlayState::Stopped, false));
    for s in [PlayState::Playing, PlayState::Paused, PlayState::Stopped] {
        assert_eq!(s.toggle_play_pause().0.toggle_play_pause().0, s);
    }
    assert!(PlayState::Playing.is_track_finished(true));
    assert!(!PlayState::Paused.is_track_finished(true));
    assert!(!PlayState::Playing.is_track_finished(false));
}

#[test]
fn gemini_model_migration() {
    assert_eq!(supported_gemini_model("gemini-2.5-flash"), "gemini-2.5-flash");
    assert_eq!(supported_gemini_model("gemini-1.0-pro"), DEFAULT_GEMINI_MODEL);
    assert_eq!(DEFAULT_GEMINI_MODEL, "gemini-3.1-flash-lite-preview");
}

#[test]
fn language_toggle() {
    assert_eq!(toggled_language("en"), "es");
    assert_eq!(toggled_language("es"), "en");
    assert_eq!(toggled_language("fr"), "en");
    assert_eq!(toggled_language(&toggled_language("es")), "es");
}

#[test]
fn whisper_catalog() {
    let m = whisper_models();
    assert_eq!(m[0], ("tiny", "ggml-tiny.bin", 75));
    assert_eq!(m[3], ("medium", "ggml-medium.bin", 1500));
    assert_eq!(whisper_model_file("small"), Some("ggml-small.bin"));
    assert_eq!(whisper_model_file("huge"), None);
    assert_eq!(
        model_download_url("ggml-base.bin"),
        "https://huggingface.co/ggerganov/whisper.cpp/resolve/main/ggml-base.bin"
    );
    assert_eq!(startup_model_files(), ["ggml-small.bin", "ggml-base.bin", "ggml-tiny.bin", "ggml-medium.bin"]);
    assert_eq!(first_available([false, true, true, false]), Some(1));
    assert_eq!(first_available([false; 4]), None);
}

#[test]
fn model_infos_mark_downloads_and_active() {
    let infos = scan_model_infos([true, false, true, false], Some("small"));
    assert_eq!(infos.len(), 4);
    assert_eq!(infos[2].id, "small");
    assert!(infos[2].is_active && infos[2].downloaded);
    assert!(!infos[0].is_active && infos[0].downloaded);
    assert!(!infos[1].downloaded);
    assert_eq!(infos[3].size_mb, 1500);
    assert!(scan_model_infos([false; 4], None).iter().all(|i| !i.is_active));
}

#[test]
fn model_card_offers() {
    let info = WhisperModelInfo { id: "base", size_mb: 142, downloaded: true, is_active: false };
    assert_eq!(model_action(&info, None), ModelAction::Use);
    let active = WhisperModelInfo { is_active: true, ..info.clone() };
    assert_eq!(model_action(&active, None), ModelAction::Active);
    let missing = WhisperModelInfo { downloaded: false, ..info.clone() };
    assert_eq!(model_action(&missing, None), ModelAction::Download);
    assert_eq!(
        model_action(&missing, Some((3 * 1024 * 1024 + 5, 142 * 1024 * 1024))),
        ModelAction::Downloading { mb_done: 3, mb_total: 142 }
    );
}

#[test]
fn dragging_a_band_on_the_curve() {
    let mut st = EqCanvasState::default();
    assert_eq!(st.pointer(false), CurvePointer::Default);
    assert_eq!(st.pointer(true), CurvePointer::Crosshair);
    // moving without a grab sets nothing
    assert_eq!(st.handle(CurveEvent::Moved, Some(4)), None);
    // pressing outside the curve grabs nothing
    assert_eq!(st.handle(CurveEvent::LeftPressed, None), None);
    assert_eq!(st.drag_band, None);
    assert_eq!(st.handle(CurveEvent::LeftPressed, Some(3)), Some(3));
    assert_eq!(st.pointer(false), CurvePointer::ResizingVertically);
    // the grabbed band follows the pointer wherever it is over the curve
    assert_eq!(st.handle(CurveEvent::Moved, Some(7)), Some(3));
    assert_eq!(st.handle(CurveEvent::Moved, None), None);
    assert_eq!(st.handle(CurveEvent::Other, Some(7)), None);
    assert_eq!(st.drag_band, Some(3));
    assert_eq!(st.handle(CurveEvent::LeftReleased, Some(7)), None);
    assert_eq!(st.drag_band, None);
    assert_eq!(st.handle(CurveEvent::Moved, Some(7)), None);
}

#[test]
fn the_seven_presets_load() {
    let eq = EqParams::new();
    assert!(eq.load_preset("Jazz"));
    let jazz = [4.0f32, 3.0, 1.0, 2.0, -2.0, -2.0, 0.0, 1.0, 3.0, 4.0];
    for (i, g) in jazz.iter().enumerate() {
        assert_eq!(f32::from_bits(eq.get_band(i)), *g);
    }
    for name in ["Flat", "Bass Boost", "Treble", "Rock", "Pop", "Jazz", "Classical"] {
        assert!(eq.load_preset(name), "{name}");
    }
    for name in ["Full Bass", "Club", "Dance", "Techno", "jazz"] {
        assert!(!eq.load_preset(name), "{name}");
    }
}

#[test]
fn model_of_a_file() {
    assert_eq!(whisper_model_of_file("ggml-small.bin"), Some("small"));
    assert_eq!(whisper_model_of_file("ggml-tiny.bin"), Some("tiny"));
    assert_eq!(whisper_model_of_file("ggml-base.bin"), Some("base"));
    assert_eq!(whisper_model_of_file("ggml-medium.bin"), Some("medium"));
    assert_eq!(whisper_model_of_file("other.bin"), None);
    // the start-up search looks for small first
    let files = startup_model_files();
    assert_eq!(whisper_model_of_file(files[first_available([true, false, true, false]).unwrap()]), Some("small"));
}

#[test]
fn english_and_spanish_keys_agree() {
    let en_keys: std::collections::HashSet<&str> = en().iter().map(|e| e.0).collect();
    let es_keys: std::collections::HashSet<&str> = es().iter().map(|e| e.0).collect();
    assert_eq!(en_keys, es_keys);
    let table = translations();
    for k in &en_keys {
        assert_ne!(t(&table, "es", k), *k);
    }
}
