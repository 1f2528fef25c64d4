//! The speech-recognition models: catalog, download addresses and which one is used.
use vstd::prelude::*;

use crate::text::{owned, push_str, str_eq};

verus! {

/// Where the model files are downloaded from.
pub const MODEL_BASE_URL: &'static str = "https://huggingface.co/ggerganov/whisper.cpp/resolve/main/";

/// State of one speech model in the model list.
#[derive(Debug, Clone)]
pub struct WhisperModelInfo {
    /// `"tiny"`, `"base"`, `"small"` or `"medium"`.
    pub id: &'static str,
    pub size_mb: u32,
    pub downloaded: bool,
    pub is_active: bool,
}

/// The supported models: id, file name and size in megabytes, smallest first.
pub open spec fn model_catalog() -> Seq<(Seq<char>, Seq<char>, u32)> {
    seq![
        ("tiny"@, "ggml-tiny.bin"@, 75u32),
        ("base"@, "ggml-base.bin"@, 142u32),
        ("small"@, "ggml-small.bin"@, 466u32),
        ("medium"@, "ggml-medium.bin"@, 1500u32),
    ]
}

/// Id, file name and size of each supported model (see `model_catalog`).
pub fn whisper_models() -> (r: [(&'static str, &'static str, u32); 4])
    ensures
        r@.map_values(|m: (&'static str, &'static str, u32)| (m.0@, m.1@, m.2)) == model_catalog(),
{
    let r: [(&'static str, &'static str, u32); 4] = [
        ("tiny", "ggml-tiny.bin", 75),
        ("base", "ggml-base.bin", 142),
        ("small", "ggml-small.bin", 466),
        ("medium", "ggml-medium.bin", 1500),
    ];
    assert(r@.map_values(|m: (&'static str, &'static str, u32)| (m.0@, m.1@, m.2)) =~= model_catalog());
    r
}

/// The file name of the model with this id, when it is a supported one.
pub open spec fn model_file(id: Seq<char>) -> Option<Seq<char>> {
    if id == "tiny"@ {
        Some("ggml-tiny.bin"@)
    } else if id == "base"@ {
        Some("ggml-base.bin"@)
    } else if id == "small"@ {
        Some("ggml-small.bin"@)
    } else if id == "medium"@ {
        Some("ggml-medium.bin"@)
    } else {
        None
    }
}

/// The file name of a model (see `model_file`).
pub fn whisper_model_file(id: &str) -> (r: Option<&'static str>)
    ensures
        match r {
            Some(f) => model_file(id@) == Some(f@),
            None => model_file(id@) is None,
        },
{
    if str_eq(id, "tiny") {
        Some("ggml-tiny.bin")
    } else if str_eq(id, "base") {
        Some("ggml-base.bin")
    } else if str_eq(id, "small") {
        Some("ggml-small.bin")
    } else if str_eq(id, "medium") {
        Some("ggml-medium.bin")
    } else {
        None
    }
}

/// The id of the model stored in the file `file`, when it is a supported one.
pub open spec fn file_model(file: Seq<char>) -> Option<Seq<char>> {
    if file == "ggml-tiny.bin"@ {
        Some("tiny"@)
    } else if file == "ggml-base.bin"@ {
        Some("base"@)
    } else if file == "ggml-small.bin"@ {
        Some("small"@)
    } else if file == "ggml-medium.bin"@ {
        Some("medium"@)
    } else {
        None
    }
}

/// The id of the model in a file (see `file_model`): the model that is active after the
/// start-up search found that file.
pub fn whisper_model_of_file(file: &str) -> (r: Option<&'static str>)
    ensures
        match r {
            Some(id) => file_model(file@) == Some(id@),
            None => file_model(file@) is None,
        },
{
    if str_eq(file, "ggml-tiny.bin") {
        Some("tiny")
    } else if str_eq(file, "ggml-base.bin") {
        Some("base")
    } else if str_eq(file, "ggml-small.bin") {
        Some("small")
    } else if str_eq(file, "ggml-medium.bin") {
        Some("medium")
    } else {
        None
    }
}

/// The download address of a model file.
pub fn model_download_url(file_name: &str) -> (r: String)
    ensures
        r@ == MODEL_BASE_URL@ + file_name@,
{
    let mut r = owned(MODEL_BASE_URL);
    push_str(&mut r, file_name);
    r
}

/// The model list: each catalog entry with whether its file is present (`downloaded[i]`
/// for entry `i`) and whether it is the active one.
pub fn scan_model_infos(downloaded: [bool; 4], active_id: Option<&str>) -> (r: Vec<WhisperModelInfo>)
    ensures
        r@.len() == 4,
        forall|i: int|
            0 <= i < 4 ==> {
                let info = #[trigger] r@[i];
                &&& info.id@ == model_catalog()[i].0
                &&& info.size_mb == model_catalog()[i].2
                &&& info.downloaded == downloaded@[i]
                &&& info.is_active == (active_id matches Some(a) && a@ == model_catalog()[i].0)
            },
{
    let models = whisper_models();
    let mut r: Vec<WhisperModelInfo> = Vec::new();
    let mut i: usize = 0;
    while i < 4
        invariant
            i <= 4,
            r@.len() == i,
            models@.map_values(|m: (&'static str, &'static str, u32)| (m.0@, m.1@, m.2))
                == model_catalog(),
            forall|j: int|
                0 <= j < i ==> {
                    let info = #[trigger] r@[j];
                    &&& info.id@ == model_catalog()[j].0
                    &&& info.size_mb == model_catalog()[j].2
                    &&& info.downloaded == downloaded@[j]
                    &&& info.is_active == (active_id matches Some(a) && a@ == model_catalog()[j].0)
                },
        decreases 4 - i,
    {
        let (id, _file, size_mb) = models[i];
        assert(model_catalog()[i as int] == (id@, _file@, size_mb));
        let is_active = match active_id {
            Some(a) => str_eq(a, id),
            None => false,
        };
        r.push(WhisperModelInfo { id, size_mb, downloaded: downloaded[i], is_active });
        i += 1;
    }
    r
}

/// The order in which model files are looked for when the program starts.
pub open spec fn startup_search_order() -> Seq<Seq<char>> {
    seq!["ggml-small.bin"@, "ggml-base.bin"@, "ggml-tiny.bin"@, "ggml-medium.bin"@]
}

/// The model files in the order they are looked for at start (see `startup_search_order`).
pub fn startup_model_files() -> (r: [&'static str; 4])
    ensures
        r@.map_values(|f: &'static str| f@) == startup_search_order(),
{
    let r: [&'static str; 4] = ["ggml-small.bin", "ggml-base.bin", "ggml-tiny.bin", "ggml-medium.bin"];
    assert(r@.map_values(|f: &'static str| f@) =~= startup_search_order());
    r
}

/// The first index `i` with `present[i]`.
pub open spec fn first_present(present: Seq<bool>) -> Option<int> {
    if present.len() > 0 && present[0] {
        Some(0)
    } else if present.len() > 1 && present[1] {
        Some(1)
    } else if present.len() > 2 && present[2] {
        Some(2)
    } else if present.len() > 3 && present[3] {
        Some(3)
    } else {
        None
    }
}

/// Index of the first present file among four (files looked for in a fixed order).
pub fn first_available(present: [bool; 4]) -> (r: Option<usize>)
    ensures
        match r {
            Some(i) => first_present(present@) == Some(i as int),
            None => first_present(present@) is None,
        },
{
    if present[0] {
        Some(0)
    } else if present[1] {
        Some(1)
    } else if present[2] {
        Some(2)
    } else if present[3] {
        Some(3)
    } else {
        None
    }
}


/// What a model card offers.
#[derive(Debug, Clone, Copy, PartialEq, Eq, Structural)]
pub enum ModelAction {
    /// A download runs: whole megabytes received and expected.
    Downloading { mb_done: u64, mb_total: u64 },
    /// The model in use.
    Active,
    /// A downloaded model that can be switched to.
    Use,
    /// A model that can be downloaded.
    Download,
}

/// The offer of a model card; `download` holds the bytes received and expected while
/// the model is being downloaded.
pub open spec fn model_action_of(info: WhisperModelInfo, download: Option<(u64, u64)>) -> ModelAction {
    match download {
        Some((done, total)) => ModelAction::Downloading {
            mb_done: done / 0x10_0000,
            mb_total: total / 0x10_0000,
        },
        None => if info.is_active {
            ModelAction::Active
        } else if info.downloaded {
            ModelAction::Use
        } else {
            ModelAction::Download
        },
    }
}

/// The offer of a model card (see `model_action_of`).
pub fn model_action(info: &WhisperModelInfo, download: Option<(u64, u64)>) -> (r: ModelAction)
    ensures
        r == model_action_of(*info, download),
{
    match download {
        Some((done, total)) => ModelAction::Downloading {
            mb_done: done / (1024 * 1024),
            mb_total: total / (1024 * 1024),
        },
        None => if info.is_active {
            ModelAction::Active
        } else if info.downloaded {
            ModelAction::Use
        } else {
            ModelAction::Download
        },
    }
}

} // verus!
