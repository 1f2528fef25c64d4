//! Stored preferences: the supported language models and the interface language.
use vstd::prelude::*;

use crate::text::{owned, str_eq};

verus! {

/// The language model used when none (or an unsupported one) is configured.
pub const DEFAULT_GEMINI_MODEL: &'static str = "gemini-3.1-flash-lite-preview";

/// The interface language used when none is configured.
pub const DEFAULT_LANGUAGE: &'static str = "en";

/// The language models that can be configured.
pub open spec fn supported_models() -> Seq<Seq<char>> {
    seq![
        "gemini-3.1-flash-lite-preview"@,
        "gemini-3-flash-preview"@,
        "gemini-2.5-flash"@,
        "gemini-2.5-flash-lite"@,
    ]
}

/// The model kept when settings are loaded: the stored one when it is still supported,
/// the default otherwise.
pub fn supported_gemini_model(stored: &str) -> (r: String)
    ensures
        r@ == (if supported_models().contains(stored@) {
            stored@
        } else {
            DEFAULT_GEMINI_MODEL@
        }),
{
    let models: [&str; 4] = [
        "gemini-3.1-flash-lite-preview",
        "gemini-3-flash-preview",
        "gemini-2.5-flash",
        "gemini-2.5-flash-lite",
    ];
    assert(models@.map_values(|m: &str| m@) =~= supported_models());
    let mut i: usize = 0;
    while i < 4
        invariant
            i <= 4,
            models@.map_values(|m: &str| m@) == supported_models(),
            forall|j: int| 0 <= j < i ==> supported_models()[j] != stored@,
        decreases 4 - i,
    {
        if str_eq(models[i], stored) {
            assert(supported_models()[i as int] == stored@);
            return owned(stored);
        }
        i += 1;
    }
    owned(DEFAULT_GEMINI_MODEL)
}

/// The language after the language button: Spanish after English, English after anything else.
pub open spec fn next_language(lang: Seq<char>) -> Seq<char> {
    if lang == "en"@ {
        "es"@
    } else {
        "en"@
    }
}

/// The language after the language button (see `next_language`).
pub fn toggled_language(lang: &str) -> (r: String)
    ensures
        r@ == next_language(lang@),
{
    if str_eq(lang, "en") {
        owned("es")
    } else {
        owned("en")
    }
}

/// Pressing the language button twice from English or Spanish comes back to it.
pub proof fn lemma_language_toggle_twice(lang: Seq<char>)
    requires
        lang == "en"@ || lang == "es"@,
    ensures
        next_language(next_language(lang)) == lang,
{
    reveal_strlit("en");
    reveal_strlit("es");
}

} // verus!
