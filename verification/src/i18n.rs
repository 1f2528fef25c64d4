//! Interface strings in English and Spanish, looked up by key with a fallback to English.
use vstd::prelude::*;

use crate::text::str_eq;

verus! {

/// The strings of one language: pairs of key and text.
pub struct LanguageTable {
    pub lang: &'static str,
    pub entries: Vec<(&'static str, &'static str)>,
}

/// The translation table of all supported languages.
pub struct Translations {
    pub tables: Vec<LanguageTable>,
}

/// Key and text of each entry, as character sequences.
pub open spec fn entry_views(e: Seq<(&'static str, &'static str)>) -> Seq<(Seq<char>, Seq<char>)> {
    e.map_values(|p: (&'static str, &'static str)| (p.0@, p.1@))
}

/// The text stored under `key`: the first entry with that key.
pub open spec fn lookup(entries: Seq<(Seq<char>, Seq<char>)>, key: Seq<char>) -> Option<Seq<char>>
    decreases entries.len(),
{
    if entries.len() == 0 {
        None
    } else if entries[0].0 == key {
        Some(entries[0].1)
    } else {
        lookup(entries.drop_first(), key)
    }
}

/// Languages and their entries, as character sequences.
pub open spec fn tables_view(t: Seq<LanguageTable>) -> Seq<(Seq<char>, Seq<(Seq<char>, Seq<char>)>)> {
    t.map_values(|l: LanguageTable| (l.lang@, entry_views(l.entries@)))
}

/// The entries of the first table for `lang`.
pub open spec fn table_for(
    tables: Seq<(Seq<char>, Seq<(Seq<char>, Seq<char>)>)>,
    lang: Seq<char>,
) -> Option<Seq<(Seq<char>, Seq<char>)>>
    decreases tables.len(),
{
    if tables.len() == 0 {
        None
    } else if tables[0].0 == lang {
        Some(tables[0].1)
    } else {
        table_for(tables.drop_first(), lang)
    }
}

/// The text for `key` in `lang`, if that language has it.
pub open spec fn text_in(
    tables: Seq<(Seq<char>, Seq<(Seq<char>, Seq<char>)>)>,
    lang: Seq<char>,
    key: Seq<char>,
) -> Option<Seq<char>> {
    match table_for(tables, lang) {
        Some(e) => lookup(e, key),
        None => None,
    }
}

/// The text shown for `key` in `lang`: the text of that language, else the English
/// text, else the key itself.
pub open spec fn translated(
    tables: Seq<(Seq<char>, Seq<(Seq<char>, Seq<char>)>)>,
    lang: Seq<char>,
    key: Seq<char>,
) -> Seq<char> {
    match text_in(tables, lang, key) {
        Some(t) => t,
        None => match text_in(tables, "en"@, key) {
            Some(t) => t,
            None => key,
        },
    }
}

impl Translations {
    pub open spec fn view(&self) -> Seq<(Seq<char>, Seq<(Seq<char>, Seq<char>)>)> {
        tables_view(self.tables@)
    }
}

/// Builds the translation table of all supported languages: English and Spanish.
pub fn translations() -> (r: Translations)
    ensures
        r.view() == seq![("en"@, en_table()), ("es"@, es_table())],
{
    let mut tables: Vec<LanguageTable> = Vec::new();
    tables.push(LanguageTable { lang: "en", entries: en() });
    tables.push(LanguageTable { lang: "es", entries: es() });
    let r = Translations { tables };
    assert(r.view() =~= seq![("en"@, en_table()), ("es"@, es_table())]);
    r
}

/// The text stored under `key` in `entries`, when there is one.
fn lookup_entry<'a>(entries: &'a Vec<(&'static str, &'static str)>, key: &str) -> (r: Option<
    &'a str,
>)
    ensures
        match r {
            Some(t) => lookup(entry_views(entries@), key@) == Some(t@),
            None => lookup(entry_views(entries@), key@) is None,
        },
{
    let n = entries.len();
    let mut i: usize = 0;
    assert(entry_views(entries@).skip(0) =~= entry_views(entries@));
    while i < n
        invariant
            n == entries@.len(),
            i <= n,
            lookup(entry_views(entries@), key@) == lookup(entry_views(entries@).skip(i as int), key@),
        decreases n - i,
    {
        assert(entry_views(entries@).skip(i as int).drop_first() =~= entry_views(entries@).skip(
            i + 1,
        ));
        let (k, v) = entries[i];
        if str_eq(k, key) {
            return Some(v);
        }
        i += 1;
    }
    None
}

/// The text for `key` in `lang`, when that language has one.
fn text_for<'a>(table: &'a Translations, lang: &str, key: &str) -> (r: Option<&'a str>)
    ensures
        match r {
            Some(t) => text_in(table.view(), lang@, key@) == Some(t@),
            None => text_in(table.view(), lang@, key@) is None,
        },
{
    let n = table.tables.len();
    let mut i: usize = 0;
    assert(table.view().skip(0) =~= table.view());
    while i < n
        invariant
            n == table.tables@.len(),
            i <= n,
            table_for(table.view(), lang@) == table_for(table.view().skip(i as int), lang@),
        decreases n - i,
    {
        assert(table.view().skip(i as int).drop_first() =~= table.view().skip(i + 1));
        if str_eq(table.tables[i].lang, lang) {
            return lookup_entry(&table.tables[i].entries, key);
        }
        i += 1;
    }
    None
}

/// Gets the text for a key in the given language, falling back to English and then
/// to the key itself (see `translated`).
pub fn t<'a>(table: &'a Translations, lang: &str, key: &'a str) -> (r: &'a str)
    ensures
        r@ == translated(table.view(), lang@, key@),
{
    match text_for(table, lang, key) {
        Some(text) => text,
        None => match text_for(table, "en", key) {
            Some(text) => text,
            None => key,
        },
    }
}

/// The English strings, by key.
pub open spec fn en_table() -> Seq<(Seq<char>, Seq<char>)> {
    seq![
        ("tab_library"@, "Library"@),
        ("tab_search"@, "Search"@),
        ("tab_voice"@, "Voice"@),
        ("tab_eq"@, "EQ"@),
        ("queue"@, "Queue"@),
        ("queue_empty"@, "Queue is empty"@),
        ("queue_hint"@, "Right-click tracks in Library to add"@),
        ("scanning"@, "Scanning library..."@),
        ("no_library"@, "No music library configured."@),
        ("no_library_hint"@, "Open Settings to add a music folder."@),
        ("no_artist_meta"@, "No artist metadata found."@),
        ("no_artist_hint"@, "Use the \"All\" view to see all tracks."@),
        ("double_click_hint"@, "Double-click to play \u{00b7} Right-click for options"@),
        ("queue_all"@, "+ Queue All"@),
        ("view_all"@, "All"@),
        ("view_artists"@, "Artists"@),
        ("search_placeholder"@, "Search tracks, artists, albums..."@),
        ("search_type_hint"@, "Type to search your library"@),
        ("search_no_results"@, "No results for"@),
        ("result"@, "result"@),
        ("results"@, "results"@),
        ("play_now"@, "Play Now"@),
        ("play_next"@, "Play Next"@),
        ("add_to_queue"@, "Add to Queue"@),
        ("remove_from_queue"@, "Remove from Queue"@),
        ("voice_click_to_speak"@, "Click to speak a command"@),
        ("voice_listening"@, "Listening\u{2026} Click to stop"@),
        ("voice_transcribing"@, "Transcribing\u{2026}"@),
        ("voice_thinking"@, "Understanding intent\u{2026}"@),
        ("voice_i_heard"@, "I heard:"@),
        ("voice_intent"@, "Intent:"@),
        ("voice_example_1"@, "\"Play all Queen music\""@),
        ("voice_example_2"@, "\"Queue some jazz\""@),
        ("voice_example_3"@, "\"Next song\""@),
        ("voice_model_required"@, "Speech Recognition Model"@),
        ("voice_model_desc"@, "Download a model to enable voice commands"@),
        ("voice_download"@, "Download"@),
        ("voice_type_command"@, "or type a command\u{2026}"@),
        ("voice_change_model"@, "Change model"@),
        ("voice_model_speed"@, "Speed"@),
        ("voice_model_accuracy"@, "Accuracy"@),
        ("voice_model_active"@, "active"@),
        ("voice_model_in_use"@, "In use"@),
        ("voice_model_use"@, "Use"@),
        ("voice_model_back"@, "\u{2190} Back"@),
        ("eq_on"@, "ON"@),
        ("eq_presets"@, "PRESETS \u{25be}"@),
        ("eq_custom"@, "Custom"@),
        ("settings"@, "Settings"@),
        ("settings_desc"@, "Configure Nullamp preferences"@),
        ("api_key"@, "Gemini API Key"@),
        ("gemini_model"@, "Gemini Model"@),
        ("lang_english"@, "English"@),
        ("lang_spanish"@, "Spanish"@),
        ("music_folder"@, "Music Folder"@),
        ("select_folder"@, "Select Folder"@),
        ("change_folder"@, "Change Folder"@),
        ("save"@, "Save"@),
        ("not_set"@, "not set"@),
        ("configured"@, "configured"@),
        ("browse"@, "Browse\u{2026}"@),
        ("scan_library"@, "Scan Library"@),
        ("show"@, "Show"@),
        ("hide"@, "Hide"@),
        ("close"@, "Close"@),
        ("language"@, "Language"@),
        ("whisper_models"@, "Whisper Models"@),
        ("no_track_loaded"@, "No track loaded"@),
        ("tracks"@, "tracks"@),
        ("tracks_in_library"@, "tracks in library"@),
        ("scan_discovering"@, "Discovering files\u{2026}"@),
        ("scan_indexing"@, "Indexing"@),
        ("scan_removing"@, "Cleaning up\u{2026}"@),
        ("scan_complete"@, "Scan complete"@),
        ("scan_cancelled"@, "Scan cancelled"@),
        ("scan_cancel"@, "Cancel"@),
        ("scan_files_per_sec"@, "f/s"@),
        ("scan_eta"@, "ETA"@),
        ("scan_new"@, "new"@),
        ("scan_removed"@, "removed"@),
    ]
}

/// The Spanish strings, by key.
pub open spec fn es_table() -> Seq<(Seq<char>, Seq<char>)> {
    seq![
        ("tab_library"@, "Biblioteca"@),
        ("tab_search"@, "Buscar"@),
        ("tab_voice"@, "Voz"@),
        ("tab_eq"@, "EQ"@),
        ("queue"@, "Cola"@),
        ("queue_empty"@, "La cola est\u{00e1} vac\u{00ed}a"@),
        ("queue_hint"@, "Clic derecho en una pista para agregar"@),
        ("scanning"@, "Escaneando biblioteca\u{2026}"@),
        ("no_library"@, "No hay biblioteca de m\u{00fa}sica configurada."@),
        ("no_library_hint"@, "Abre Ajustes para agregar una carpeta de m\u{00fa}sica."@),
        ("no_artist_meta"@, "No se encontraron artistas con metadatos."@),
        ("no_artist_hint"@, "Usa la vista \"Todo\" para ver todas las pistas."@),
        ("double_click_hint"@, "Doble clic para reproducir \u{00b7} Clic derecho para opciones"@),
        ("queue_all"@, "+ Agregar todo"@),
        ("view_all"@, "Todo"@),
        ("view_artists"@, "Artistas"@),
        ("search_placeholder"@, "Buscar pistas, artistas, \u{00e1}lbumes\u{2026}"@),
        ("search_type_hint"@, "Escribe para buscar en tu biblioteca"@),
        ("search_no_results"@, "Sin resultados para"@),
        ("result"@, "resultado"@),
        ("results"@, "resultados"@),
        ("play_now"@, "Reproducir ahora"@),
        ("play_next"@, "Reproducir despu\u{00e9}s"@),
        ("add_to_queue"@, "Agregar a la cola"@),
        ("remove_from_queue"@, "Quitar de la cola"@),
        ("voice_click_to_speak"@, "Haz clic para dar un comando"@),
        ("voice_listening"@, "Escuchando\u{2026} Haz clic para detener"@),
        ("voice_transcribing"@, "Transcribiendo\u{2026}"@),
        ("voice_thinking"@, "Entendiendo la intenci\u{00f3}n\u{2026}"@),
        ("voice_i_heard"@, "Escuch\u{00e9}:"@),
        ("voice_intent"@, "Intenci\u{00f3}n:"@),
        ("voice_example_1"@, "\"Pon m\u{00fa}sica de Queen\""@),
        ("voice_example_2"@, "\"Agrega jazz a la cola\""@),
        ("voice_example_3"@, "\"Siguiente canci\u{00f3}n\""@),
        ("voice_model_required"@, "Modelo de Reconocimiento de Voz"@),
        ("voice_model_desc"@, "Descarga un modelo para activar los comandos de voz"@),
        ("voice_download"@, "Descargar"@),
        ("voice_type_command"@, "o escribe un comando\u{2026}"@),
        ("voice_change_model"@, "Cambiar modelo"@),
        ("voice_model_speed"@, "Velocidad"@),
        ("voice_model_accuracy"@, "Precisi\u{00f3}n"@),
        ("voice_model_active"@, "activo"@),
        ("voice_model_in_use"@, "En uso"@),
        ("voice_model_use"@, "Usar"@),
        ("voice_model_back"@, "\u{2190} Volver"@),
        ("eq_on"@, "ON"@),
        ("eq_presets"@, "PRESETS \u{25be}"@),
        ("eq_custom"@, "Custom"@),
        ("settings"@, "Ajustes"@),
        ("settings_desc"@, "Configura las preferencias de Nullamp"@),
        ("api_key"@, "Clave API de Gemini"@),
        ("gemini_model"@, "Modelo Gemini"@),
        ("lang_english"@, "Ingl\u{00e9}s"@),
        ("lang_spanish"@, "Espa\u{00f1}ol"@),
        ("music_folder"@, "Carpeta de m\u{00fa}sica"@),
        ("select_folder"@, "Seleccionar carpeta"@),
        ("change_folder"@, "Cambiar carpeta"@),
        ("save"@, "Guardar"@),
        ("not_set"@, "no configurado"@),
        ("configured"@, "configurado"@),
        ("browse"@, "Examinar\u{2026}"@),
        ("scan_library"@, "Escanear biblioteca"@),
        ("show"@, "Mostrar"@),
        ("hide"@, "Ocultar"@),
        ("close"@, "Cerrar"@),
        ("language"@, "Idioma"@),
        ("whisper_models"@, "Modelos Whisper"@),
        ("no_track_loaded"@, "Sin pista cargada"@),
        ("tracks"@, "pistas"@),
        ("tracks_in_library"@, "pistas en biblioteca"@),
        ("scan_discovering"@, "Descubriendo archivos\u{2026}"@),
        ("scan_indexing"@, "Indexando"@),
        ("scan_removing"@, "Limpiando\u{2026}"@),
        ("scan_complete"@, "Escaneo completo"@),
        ("scan_cancelled"@, "Escaneo cancelado"@),
        ("scan_cancel"@, "Cancelar"@),
        ("scan_files_per_sec"@, "a/s"@),
        ("scan_eta"@, "ETA"@),
        ("scan_new"@, "nuevos"@),
        ("scan_removed"@, "eliminados"@),
    ]
}

/// The English strings (see `en_table`).
pub fn en() -> (r: Vec<(&'static str, &'static str)>)
    ensures
        entry_views(r@) == en_table(),
{
    vec![
        ("tab_library", "Library"),
        ("tab_search", "Search"),
        ("tab_voice", "Voice"),
        ("tab_eq", "EQ"),
        ("queue", "Queue"),
        ("queue_empty", "Queue is empty"),
        ("queue_hint", "Right-click tracks in Library to add"),
        ("scanning", "Scanning library..."),
        ("no_library", "No music library configured."),
        ("no_library_hint", "Open Settings to add a music folder."),
        ("no_artist_meta", "No artist metadata found."),
        ("no_artist_hint", "Use the \"All\" view to see all tracks."),
        ("double_click_hint", "Double-click to play \u{00b7} Right-click for options"),
        ("queue_all", "+ Queue All"),
        ("view_all", "All"),
        ("view_artists", "Artists"),
        ("search_placeholder", "Search tracks, artists, albums..."),
        ("search_type_hint", "Type to search your library"),
        ("search_no_results", "No results for"),
        ("result", "result"),
        ("results", "results"),
        ("play_now", "Play Now"),
        ("play_next", "Play Next"),
        ("add_to_queue", "Add to Queue"),
        ("remove_from_queue", "Remove from Queue"),
        ("voice_click_to_speak", "Click to speak a command"),
        ("voice_listening", "Listening\u{2026} Click to stop"),
        ("voice_transcribing", "Transcribing\u{2026}"),
        ("voice_thinking", "Understanding intent\u{2026}"),
        ("voice_i_heard", "I heard:"),
        ("voice_intent", "Intent:"),
        ("voice_example_1", "\"Play all Queen music\""),
        ("voice_example_2", "\"Queue some jazz\""),
        ("voice_example_3", "\"Next song\""),
        ("voice_model_required", "Speech Recognition Model"),
        ("voice_model_desc", "Download a model to enable voice commands"),
        ("voice_download", "Download"),
        ("voice_type_command", "or type a command\u{2026}"),
        ("voice_change_model", "Change model"),
        ("voice_model_speed", "Speed"),
        ("voice_model_accuracy", "Accuracy"),
        ("voice_model_active", "active"),
        ("voice_model_in_use", "In use"),
        ("voice_model_use", "Use"),
        ("voice_model_back", "\u{2190} Back"),
        ("eq_on", "ON"),
        ("eq_presets", "PRESETS \u{25be}"),
        ("eq_custom", "Custom"),
        ("settings", "Settings"),
        ("settings_desc", "Configure Nullamp preferences"),
        ("api_key", "Gemini API Key"),
        ("gemini_model", "Gemini Model"),
        ("lang_english", "English"),
        ("lang_spanish", "Spanish"),
        ("music_folder", "Music Folder"),
        ("select_folder", "Select Folder"),
        ("change_folder", "Change Folder"),
        ("save", "Save"),
        ("not_set", "not set"),
        ("configured", "configured"),
        ("browse", "Browse\u{2026}"),
        ("scan_library", "Scan Library"),
        ("show", "Show"),
        ("hide", "Hide"),
        ("close", "Close"),
        ("language", "Language"),
        ("whisper_models", "Whisper Models"),
        ("no_track_loaded", "No track loaded"),
        ("tracks", "tracks"),
        ("tracks_in_library", "tracks in library"),
        ("scan_discovering", "Discovering files\u{2026}"),
        ("scan_indexing", "Indexing"),
        ("scan_removing", "Cleaning up\u{2026}"),
        ("scan_complete", "Scan complete"),
        ("scan_cancelled", "Scan cancelled"),
        ("scan_cancel", "Cancel"),
        ("scan_files_per_sec", "f/s"),
        ("scan_eta", "ETA"),
        ("scan_new", "new"),
        ("scan_removed", "removed"),
    ]
}

/// The Spanish strings (see `es_table`).
pub fn es() -> (r: Vec<(&'static str, &'static str)>)
    ensures
        entry_views(r@) == es_table(),
{
    vec![
        ("tab_library", "Biblioteca"),
        ("tab_search", "Buscar"),
        ("tab_voice", "Voz"),
        ("tab_eq", "EQ"),
        ("queue", "Cola"),
        ("queue_empty", "La cola est\u{00e1} vac\u{00ed}a"),
        ("queue_hint", "Clic derecho en una pista para agregar"),
        ("scanning", "Escaneando biblioteca\u{2026}"),
        ("no_library", "No hay biblioteca de m\u{00fa}sica configurada."),
        ("no_library_hint", "Abre Ajustes para agregar una carpeta de m\u{00fa}sica."),
        ("no_artist_meta", "No se encontraron artistas con metadatos."),
        ("no_artist_hint", "Usa la vista \"Todo\" para ver todas las pistas."),
        ("double_click_hint", "Doble clic para reproducir \u{00b7} Clic derecho para opciones"),
        ("queue_all", "+ Agregar todo"),
        ("view_all", "Todo"),
        ("view_artists", "Artistas"),
        ("search_placeholder", "Buscar pistas, artistas, \u{00e1}lbumes\u{2026}"),
        ("search_type_hint", "Escribe para buscar en tu biblioteca"),
        ("search_no_results", "Sin resultados para"),
        ("result", "resultado"),
        ("results", "resultados"),
        ("play_now", "Reproducir ahora"),
        ("play_next", "Reproducir despu\u{00e9}s"),
        ("add_to_queue", "Agregar a la cola"),
        ("remove_from_queue", "Quitar de la cola"),
        ("voice_click_to_speak", "Haz clic para dar un comando"),
        ("voice_listening", "Escuchando\u{2026} Haz clic para detener"),
        ("voice_transcribing", "Transcribiendo\u{2026}"),
        ("voice_thinking", "Entendiendo la intenci\u{00f3}n\u{2026}"),
        ("voice_i_heard", "Escuch\u{00e9}:"),
        ("voice_intent", "Intenci\u{00f3}n:"),
        ("voice_example_1", "\"Pon m\u{00fa}sica de Queen\""),
        ("voice_example_2", "\"Agrega jazz a la cola\""),
        ("voice_example_3", "\"Siguiente canci\u{00f3}n\""),
        ("voice_model_required", "Modelo de Reconocimiento de Voz"),
        ("voice_model_desc", "Descarga un modelo para activar los comandos de voz"),
        ("voice_download", "Descargar"),
        ("voice_type_command", "o escribe un comando\u{2026}"),
        ("voice_change_model", "Cambiar modelo"),
        ("voice_model_speed", "Velocidad"),
        ("voice_model_accuracy", "Precisi\u{00f3}n"),
        ("voice_model_active", "activo"),
        ("voice_model_in_use", "En uso"),
        ("voice_model_use", "Usar"),
        ("voice_model_back", "\u{2190} Volver"),
        ("eq_on", "ON"),
        ("eq_presets", "PRESETS \u{25be}"),
        ("eq_custom", "Custom"),
        ("settings", "Ajustes"),
        ("settings_desc", "Configura las preferencias de Nullamp"),
        ("api_key", "Clave API de Gemini"),
        ("gemini_model", "Modelo Gemini"),
        ("lang_english", "Ingl\u{00e9}s"),
        ("lang_spanish", "Espa\u{00f1}ol"),
        ("music_folder", "Carpeta de m\u{00fa}sica"),
        ("select_folder", "Seleccionar carpeta"),
        ("change_folder", "Cambiar carpeta"),
        ("save", "Guardar"),
        ("not_set", "no configurado"),
        ("configured", "configurado"),
        ("browse", "Examinar\u{2026}"),
        ("scan_library", "Escanear biblioteca"),
        ("show", "Mostrar"),
        ("hide", "Ocultar"),
        ("close", "Cerrar"),
        ("language", "Idioma"),
        ("whisper_models", "Modelos Whisper"),
        ("no_track_loaded", "Sin pista cargada"),
        ("tracks", "pistas"),
        ("tracks_in_library", "pistas en biblioteca"),
        ("scan_discovering", "Descubriendo archivos\u{2026}"),
        ("scan_indexing", "Indexando"),
        ("scan_removing", "Limpiando\u{2026}"),
        ("scan_complete", "Escaneo completo"),
        ("scan_cancelled", "Escaneo cancelado"),
        ("scan_cancel", "Cancelar"),
        ("scan_files_per_sec", "a/s"),
        ("scan_eta", "ETA"),
        ("scan_new", "nuevos"),
        ("scan_removed", "eliminados"),
    ]
}

/// The keys of a table, in order.
pub open spec fn keys_of(entries: Seq<(Seq<char>, Seq<char>)>) -> Seq<Seq<char>> {
    entries.map_values(|e: (Seq<char>, Seq<char>)| e.0)
}

/// Two tables with the same keys in the same order have text for the same keys.
proof fn lemma_same_keys_same_lookups(a: Seq<(Seq<char>, Seq<char>)>, b: Seq<(Seq<char>, Seq<char>)>, key: Seq<char>)
    requires
        keys_of(a) == keys_of(b),
    ensures
        lookup(a, key) is Some <==> lookup(b, key) is Some,
    decreases a.len(),
{
    assert(a.len() == keys_of(a).len() && b.len() == keys_of(b).len());
    if a.len() > 0 {
        assert(a[0].0 == keys_of(a)[0] && b[0].0 == keys_of(b)[0]);
        assert(keys_of(a.drop_first()) =~= keys_of(a).drop_first());
        assert(keys_of(b.drop_first()) =~= keys_of(b).drop_first());
        lemma_same_keys_same_lookups(a.drop_first(), b.drop_first(), key);
    }
}

/// English and Spanish hold the same keys: every interface key with an English text (in
/// `en`) has a Spanish one (in `es`) and the other way round, so Spanish never falls back
/// to English.
#[verifier::rlimit(50)]
pub proof fn lemma_languages_have_the_same_keys(key: Seq<char>)
    ensures
        lookup(en_table(), key) is Some <==> lookup(es_table(), key) is Some,
{
    assert(keys_of(en_table()) =~= keys_of(es_table()));
    lemma_same_keys_same_lookups(en_table(), es_table(), key);
}

} // verus!
