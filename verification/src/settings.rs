//! The application's persisted settings: language-model access and the
//! audio/recording preferences, with their defaults and the keyed update
//! the user interface drives. All values are kept as strings, as they
//! travel to and from the settings file and the interface.

use vstd::prelude::*;
use crate::text::str_eq;

verus! {

/// Language-model access settings.
#[derive(Debug, Clone)]
pub struct LlmSettings {
    /// Base URL of the chat-completion endpoint.
    pub endpoint: String,
    /// Secret API key; never handed to the interface.
    pub api_key: String,
    /// Model name requested from the endpoint.
    pub model: String,
}

/// The part of [`LlmSettings`] safe to show the interface: everything
/// but the API key.
#[derive(Debug, Clone)]
pub struct LlmSettingsPublic {
    /// Base URL of the chat-completion endpoint.
    pub endpoint: String,
    /// Model name requested from the endpoint.
    pub model: String,
}

/// Audio and recording preferences.
#[derive(Debug, Clone)]
pub struct AppSettings {
    /// Name of the capture device feeding the virtual microphone.
    pub selected_microphone: String,
    /// Name of the playback device used for monitoring.
    pub selected_output_device: String,
    /// Microphone volume, in percent.
    pub microphone_volume: String,
    /// Selected noise-suppression model id.
    pub selected_model: String,
    /// Selected transcription model id.
    pub selected_transcription_model: String,
    /// Application whose audio is mixed into recordings.
    pub selected_recording_app: String,
    /// Whether the application starts with the session.
    pub autostart_enabled: String,
    /// Whether speaker diarization runs after transcription.
    pub diarization_enabled: String,
    /// Most speakers diarization may distinguish.
    pub diarization_max_speakers: String,
    /// Speaker-similarity threshold for diarization.
    pub diarization_threshold: String,
    /// Gap in seconds under which same-speaker segments merge.
    pub diarization_merge_gap: String,
}

/// The settings file as a whole.
#[derive(Debug, Clone)]
pub struct SettingsFile {
    /// Language-model access settings.
    pub llm: LlmSettings,
    /// Audio and recording preferences.
    pub app: AppSettings,
}

/// Default for boolean-valued settings: off.
pub fn default_false_string() -> (s: String)
    ensures
        s@ == "false"@,
{
    "false".to_owned()
}

/// Default cap on the number of speakers diarization distinguishes.
pub fn default_diarization_max_speakers() -> (s: String)
    ensures
        s@ == "3"@,
{
    "3".to_owned()
}

/// Default speaker-similarity threshold for diarization.
pub fn default_diarization_threshold() -> (s: String)
    ensures
        s@ == "0.30"@,
{
    "0.30".to_owned()
}

/// Default merge gap, in seconds, for consecutive same-speaker segments.
pub fn default_diarization_merge_gap() -> (s: String)
    ensures
        s@ == "2.5"@,
{
    "2.5".to_owned()
}

impl Default for LlmSettings {
    /// The stock language-model settings: the public endpoint, no key.
    fn default() -> (d: LlmSettings)
        ensures
            d.endpoint@ == "https://api.openai.com/v1"@,
            d.api_key@ == ""@,
            d.model@ == "gpt-4"@,
    {
        proof {
            reveal_strlit("");
        }
        LlmSettings {
            endpoint: "https://api.openai.com/v1".to_owned(),
            api_key: String::new(),
            model: "gpt-4".to_owned(),
        }
    }
}

impl Default for AppSettings {
    /// The stock preferences: no devices chosen, full volume, no
    /// processing models, diarization off at its stock tuning.
    fn default() -> (d: AppSettings)
        ensures
            d.selected_microphone@ == ""@,
            d.selected_output_device@ == ""@,
            d.microphone_volume@ == "100"@,
            d.selected_model@ == "dummy"@,
            d.selected_transcription_model@ == "none"@,
            d.selected_recording_app@ == "none"@,
            d.autostart_enabled@ == "false"@,
            d.diarization_enabled@ == "false"@,
            d.diarization_max_speakers@ == "3"@,
            d.diarization_threshold@ == "0.30"@,
            d.diarization_merge_gap@ == "2.5"@,
    {
        proof {
            reveal_strlit("");
        }
        AppSettings {
            selected_microphone: String::new(),
            selected_output_device: String::new(),
            microphone_volume: "100".to_owned(),
            selected_model: "dummy".to_owned(),
            selected_transcription_model: "none".to_owned(),
            selected_recording_app: "none".to_owned(),
            autostart_enabled: default_false_string(),
            diarization_enabled: default_false_string(),
            diarization_max_speakers: default_diarization_max_speakers(),
            diarization_threshold: default_diarization_threshold(),
            diarization_merge_gap: default_diarization_merge_gap(),
        }
    }
}

impl Default for SettingsFile {
    /// Both sections at their stock values.
    fn default() -> (d: SettingsFile)
        ensures
            d.llm.endpoint@ == "https://api.openai.com/v1"@,
            d.llm.api_key@ == ""@,
            d.llm.model@ == "gpt-4"@,
            d.app.selected_microphone@ == ""@,
            d.app.microphone_volume@ == "100"@,
            d.app.selected_model@ == "dummy"@,
    {
        SettingsFile { llm: LlmSettings::default(), app: AppSettings::default() }
    }
}

impl LlmSettings {
    /// The view handed to the interface: endpoint and model, with the
    /// API key withheld.
    pub fn public_view(&self) -> (p: LlmSettingsPublic)
        ensures
            p.endpoint@ == self.endpoint@,
            p.model@ == self.model@,
    {
        LlmSettingsPublic { endpoint: self.endpoint.clone(), model: self.model.clone() }
    }
}

/// Whether `key` names a field of [`AppSettings`].
pub open spec fn is_app_setting_key(key: Seq<char>) -> bool {
    ||| key == "selected_microphone"@
    ||| key == "selected_output_device"@
    ||| key == "microphone_volume"@
    ||| key == "selected_model"@
    ||| key == "selected_transcription_model"@
    ||| key == "selected_recording_app"@
    ||| key == "autostart_enabled"@
    ||| key == "diarization_enabled"@
    ||| key == "diarization_max_speakers"@
    ||| key == "diarization_threshold"@
    ||| key == "diarization_merge_gap"@
}

/// Set the field of `settings` that `key` names to `value`; every other
/// field keeps its value. Returns whether the key was known — an unknown
/// key changes nothing, and the caller reports it.
pub fn update_app_setting(settings: &mut AppSettings, key: &str, value: String) -> (known: bool)
    ensures
        known == is_app_setting_key(key@),
        final(settings).selected_microphone
            == if key@ == "selected_microphone"@ { value }
               else { old(settings).selected_microphone },
        final(settings).selected_output_device
            == if key@ == "selected_output_device"@ { value }
               else { old(settings).selected_output_device },
        final(settings).microphone_volume
            == if key@ == "microphone_volume"@ { value }
               else { old(settings).microphone_volume },
        final(settings).selected_model
            == if key@ == "selected_model"@ { value }
               else { old(settings).selected_model },
        final(settings).selected_transcription_model
            == if key@ == "selected_transcription_model"@ { value }
               else { old(settings).selected_transcription_model },
        final(settings).selected_recording_app
            == if key@ == "selected_recording_app"@ { value }
               else { old(settings).selected_recording_app },
        final(settings).autostart_enabled
            == if key@ == "autostart_enabled"@ { value }
               else { old(settings).autostart_enabled },
        final(settings).diarization_enabled
            == if key@ == "diarization_enabled"@ { value }
               else { old(settings).diarization_enabled },
        final(settings).diarization_max_speakers
            == if key@ == "diarization_max_speakers"@ { value }
               else { old(settings).diarization_max_speakers },
        final(settings).diarization_threshold
            == if key@ == "diarization_threshold"@ { value }
               else { old(settings).diarization_threshold },
        final(settings).diarization_merge_gap
            == if key@ == "diarization_merge_gap"@ { value }
               else { old(settings).diarization_merge_gap },
{
    proof {
        reveal_strlit("selected_microphone");
        reveal_strlit("selected_output_device");
        reveal_strlit("microphone_volume");
        reveal_strlit("selected_model");
        reveal_strlit("selected_transcription_model");
        reveal_strlit("selected_recording_app");
        reveal_strlit("autostart_enabled");
        reveal_strlit("diarization_enabled");
        reveal_strlit("diarization_max_speakers");
        reveal_strlit("diarization_threshold");
        reveal_strlit("diarization_merge_gap");
        // The keys are pairwise distinct: most differ in length, and the
        // same-length pairs differ in the character asserted below.
        assert("selected_microphone"@.len() == 19);
        assert("selected_output_device"@.len() == 22);
        assert("microphone_volume"@.len() == 17);
        assert("selected_model"@.len() == 14);
        assert("selected_transcription_model"@.len() == 28);
        assert("selected_recording_app"@.len() == 22);
        assert("autostart_enabled"@.len() == 17);
        assert("diarization_enabled"@.len() == 19);
        assert("diarization_max_speakers"@.len() == 24);
        assert("diarization_threshold"@.len() == 21);
        assert("diarization_merge_gap"@.len() == 21);
        assert("selected_output_device"@[9] != "selected_recording_app"@[9]);
        assert("microphone_volume"@[0] != "autostart_enabled"@[0]);
        assert("selected_microphone"@[0] != "diarization_enabled"@[0]);
        assert("diarization_threshold"@[12] != "diarization_merge_gap"@[12]);
    }
    if str_eq(key, "selected_microphone") {
        settings.selected_microphone = value;
        true
    } else if str_eq(key, "selected_output_device") {
        settings.selected_output_device = value;
        true
    } else if str_eq(key, "microphone_volume") {
        settings.microphone_volume = value;
        true
    } else if str_eq(key, "selected_model") {
        settings.selected_model = value;
        true
    } else if str_eq(key, "selected_transcription_model") {
        settings.selected_transcription_model = value;
        true
    } else if str_eq(key, "selected_recording_app") {
        settings.selected_recording_app = value;
        true
    } else if str_eq(key, "autostart_enabled") {
        settings.autostart_enabled = value;
        true
    } else if str_eq(key, "diarization_enabled") {
        settings.diarization_enabled = value;
        true
    } else if str_eq(key, "diarization_max_speakers") {
        settings.diarization_max_speakers = value;
        true
    } else if str_eq(key, "diarization_threshold") {
        settings.diarization_threshold = value;
        true
    } else if str_eq(key, "diarization_merge_gap") {
        settings.diarization_merge_gap = value;
        true
    } else {
        false
    }
}

} // verus!
