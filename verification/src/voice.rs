//! The voice panel: recording, transcription and intent recognition, and the status
//! line that tells the user where a spoken command stands.
use vstd::prelude::*;

use crate::intent::{
    describe_intent, description, intent_step, interpret_lowercase_command, local_intent,
    matches_local_intent, step_matches, IntentStep,
};
use crate::models::MusicIntent;
use crate::text::{
    chars_of, contains_str, has_substring, lowercase, owned, push_str, to_lowercase, trim,
};

verus! {

/// State of the voice panel.
pub struct VoiceState {
    /// No speech model file was found.
    pub model_missing: bool,
    pub is_recording: bool,
    /// What was heard (or typed) last.
    pub transcript: String,
    /// The status line.
    pub status: String,
}

/// How starting the microphone went.
pub enum MicStart {
    Started,
    Failed(String),
    NoMicrophone,
}

/// What to do with a transcribed or typed command.
pub enum CommandOutcome {
    /// The local rules recognized it.
    Recognized(MusicIntent),
    /// Ask the language model.
    AskModel,
    /// Nothing recognized it and no model is configured.
    Unrecognized,
}

/// `status` became `s`, the other fields stayed.
pub open spec fn only_status(a: VoiceState, b: VoiceState, s: Seq<char>) -> bool {
    &&& b.status@ == s
    &&& b.model_missing == a.model_missing
    &&& b.is_recording == a.is_recording
    &&& b.transcript == a.transcript
}

impl VoiceState {
    /// A panel that is not recording, with empty transcript and status.
    pub fn new(model_missing: bool) -> (r: Self)
        ensures
            r.model_missing == model_missing,
            !r.is_recording,
            r.transcript@.len() == 0,
            r.status@.len() == 0,
    {
        VoiceState { model_missing, is_recording: false, transcript: String::new(), status: String::new() }
    }

    /// The record button. Without a speech model the status says so and the microphone
    /// stays off (the result is `false`); otherwise the microphone may start.
    pub fn may_start_recording(&mut self) -> (r: bool)
        ensures
            r == !old(self).model_missing,
            r ==> *final(self) == *old(self),
            !r ==> only_status(*old(self), *final(self), "Voice model not found. See settings."@),
    {
        if self.model_missing {
            self.status = owned("Voice model not found. See settings.");
            false
        } else {
            true
        }
    }

    /// The outcome of starting the microphone.
    pub fn recording_started(&mut self, mic: MicStart)
        ensures
            match mic {
                MicStart::Started => final(self).is_recording && final(self).status@ == "Listening..."@
                    && final(self).transcript@.len() == 0 && final(self).model_missing
                    == old(self).model_missing,
                MicStart::Failed(e) => only_status(*old(self), *final(self), "Mic error: "@ + e@),
                MicStart::NoMicrophone => only_status(
                    *old(self),
                    *final(self),
                    "No microphone available"@,
                ),
            },
    {
        match mic {
            MicStart::Started => {
                self.is_recording = true;
                self.status = owned("Listening...");
                self.transcript = String::new();
            },
            MicStart::Failed(e) => {
                let mut s = owned("Mic error: ");
                push_str(&mut s, e.as_str());
                self.status = s;
            },
            MicStart::NoMicrophone => {
                self.status = owned("No microphone available");
            },
        }
    }

    /// The stop button. The result tells whether the captured audio goes to transcription
    /// (it does when any was captured).
    pub fn recording_stopped(&mut self, captured_any: bool) -> (transcribe: bool)
        ensures
            transcribe == captured_any,
            !final(self).is_recording,
            final(self).status@ == (if captured_any {
                "Transcribing..."@
            } else {
                "No audio captured"@
            }),
            final(self).transcript == old(self).transcript,
            final(self).model_missing == old(self).model_missing,
    {
        self.is_recording = false;
        if captured_any {
            self.status = owned("Transcribing...");
        } else {
            self.status = owned("No audio captured");
        }
        captured_any
    }

    /// Recorded audio is ready; without a loaded speech model the status says so and
    /// nothing is transcribed (the result is `false`).
    pub fn may_transcribe(&mut self, has_model: bool) -> (r: bool)
        ensures
            r == has_model,
            r ==> *final(self) == *old(self),
            !r ==> only_status(*old(self), *final(self), "Whisper model not loaded"@),
    {
        if !has_model {
            self.status = owned("Whisper model not loaded");
        }
        has_model
    }

    /// A transcription arrived: it becomes the transcript, the local rules read it
    /// (see `parse_local_intent`), and when they cannot, the language model is asked if a
    /// key is configured.
    pub fn transcription_complete(&mut self, text: String, has_api_key: bool) -> (r: CommandOutcome)
        ensures
            final(self).transcript == text,
            final(self).is_recording == old(self).is_recording,
            final(self).model_missing == old(self).model_missing,
            ({
                let s = trim(lowercase(text@));
                match r {
                    CommandOutcome::Recognized(i) => matches_local_intent(Some(i), s)
                        && final(self).status@ == "Processing intent..."@,
                    CommandOutcome::AskModel => local_intent(s) is None && has_api_key
                        && final(self).status@ == "Processing intent..."@,
                    CommandOutcome::Unrecognized => local_intent(s) is None && !has_api_key
                        && final(self).status@ == "No intent recognized"@,
                }
            }),
    {
        let lower = to_lowercase(text.as_str());
        let parsed = interpret_lowercase_command(lower.as_str());
        self.transcript = text;
        self.status = owned("Processing intent...");
        match parsed {
            Some(i) => CommandOutcome::Recognized(i),
            None => if has_api_key {
                CommandOutcome::AskModel
            } else {
                self.status = owned("No intent recognized");
                CommandOutcome::Unrecognized
            },
        }
    }

    /// A typed command: it becomes the transcript and the local rules read it; when they
    /// cannot and a key is configured, the status shows that the language model is asked.
    pub fn text_command(&mut self, cmd: String, has_api_key: bool) -> (r: CommandOutcome)
        ensures
            final(self).transcript == cmd,
            final(self).is_recording == old(self).is_recording,
            final(self).model_missing == old(self).model_missing,
            ({
                let s = trim(lowercase(cmd@));
                match r {
                    CommandOutcome::Recognized(i) => matches_local_intent(Some(i), s)
                        && final(self).status == old(self).status,
                    CommandOutcome::AskModel => local_intent(s) is None && has_api_key
                        && final(self).status@ == "Processing intent\u{2026}"@,
                    CommandOutcome::Unrecognized => local_intent(s) is None && !has_api_key
                        && final(self).status == old(self).status,
                }
            }),
    {
        let lower = to_lowercase(cmd.as_str());
        let parsed = interpret_lowercase_command(lower.as_str());
        self.transcript = cmd;
        match parsed {
            Some(i) => CommandOutcome::Recognized(i),
            None => if has_api_key {
                self.status = owned("Processing intent\u{2026}");
                CommandOutcome::AskModel
            } else {
                CommandOutcome::Unrecognized
            },
        }
    }

    /// An intent was recognized: the status describes it (see `description`) and the
    /// result is the step that carries it out (see `intent_step`).
    pub fn intent_recognized(&mut self, intent: &MusicIntent) -> (r: IntentStep)
        ensures
            only_status(*old(self), *final(self), description(*intent)),
            step_matches(*intent, r),
    {
        self.status = describe_intent(intent);
        intent_step(intent)
    }

    /// A "play" or "queue" command found no tracks.
    pub fn no_tracks_found(&mut self)
        ensures
            only_status(*old(self), *final(self), "No tracks found"@),
    {
        self.status = owned("No tracks found");
    }

    /// Recording, transcription or the language model failed; recording stops.
    pub fn voice_error(&mut self, err: &str)
        ensures
            final(self).status@ == "Error: "@ + err@,
            !final(self).is_recording,
            final(self).transcript == old(self).transcript,
            final(self).model_missing == old(self).model_missing,
    {
        let mut s = owned("Error: ");
        push_str(&mut s, err);
        self.status = s;
        self.is_recording = false;
    }

    /// A model download failed.
    pub fn download_failed(&mut self, error: &str)
        ensures
            only_status(*old(self), *final(self), "Download failed: "@ + error@),
    {
        let mut s = owned("Download failed: ");
        push_str(&mut s, error);
        self.status = s;
    }
}


/// What the microphone button does.
#[derive(Debug, Clone, Copy, PartialEq, Eq, Structural)]
pub enum MicButton {
    /// No speech model: pressing does nothing.
    Disabled,
    /// Recording: pressing stops.
    Stop,
    /// A command is being transcribed or interpreted: pressing does nothing.
    Busy,
    /// Pressing starts recording.
    Start,
}

/// What the panel shows below the button.
#[derive(Debug, Clone, Copy, PartialEq, Eq, Structural)]
pub enum PanelText {
    /// The level meter of the recording.
    Waveform,
    /// The status line.
    Status,
    /// That a speech model is needed.
    ModelDescription,
    /// How to speak, with examples.
    Hints,
}

/// A spoken command is on its way: not recording, and the status line says that
/// something is being transcribed, processed, listened to or searched.
pub open spec fn is_busy(v: VoiceState) -> bool {
    let s = v.status@;
    &&& !v.is_recording
    &&& s.len() > 0
    &&& (has_substring(s, "Transcribing"@) || has_substring(s, "Processing"@) || has_substring(
        s,
        "Listening"@,
    ) || has_substring(s, "Searching"@))
}

/// The microphone button of a panel state.
pub open spec fn mic_button_of(v: VoiceState) -> MicButton {
    if v.model_missing {
        MicButton::Disabled
    } else if v.is_recording {
        MicButton::Stop
    } else if is_busy(v) {
        MicButton::Busy
    } else {
        MicButton::Start
    }
}

/// The text below the button of a panel state.
pub open spec fn panel_text_of(v: VoiceState) -> PanelText {
    if v.is_recording {
        PanelText::Waveform
    } else if v.status@.len() > 0 {
        PanelText::Status
    } else if v.model_missing {
        PanelText::ModelDescription
    } else {
        PanelText::Hints
    }
}

impl VoiceState {
    /// What the microphone button does now (see `mic_button_of`).
    pub fn mic_button(&self) -> (r: MicButton)
        ensures
            r == mic_button_of(*self),
    {
        if self.model_missing {
            MicButton::Disabled
        } else if self.is_recording {
            MicButton::Stop
        } else if self.is_busy() {
            MicButton::Busy
        } else {
            MicButton::Start
        }
    }

    /// Whether a spoken command is on its way (see `is_busy`).
    pub fn is_busy(&self) -> (r: bool)
        ensures
            r == is_busy(*self),
    {
        if self.is_recording || self.status.as_str().is_empty() {
            return false;
        }
        let s = chars_of(self.status.as_str());
        contains_str(&s, "Transcribing") || contains_str(&s, "Processing") || contains_str(
            &s,
            "Listening",
        ) || contains_str(&s, "Searching")
    }

    /// What the panel shows below the button (see `panel_text_of`).
    pub fn panel_text(&self) -> (r: PanelText)
        ensures
            r == panel_text_of(*self),
    {
        if self.is_recording {
            PanelText::Waveform
        } else if !self.status.as_str().is_empty() {
            PanelText::Status
        } else if self.model_missing {
            PanelText::ModelDescription
        } else {
            PanelText::Hints
        }
    }
}

} // verus!
