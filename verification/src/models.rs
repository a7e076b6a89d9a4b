//! The processing models the application can run: noise-suppression
//! models for the live microphone path and the engine families behind
//! the transcription models, with the selection state the interface
//! drives.

use vstd::prelude::*;
use crate::text::str_eq;

verus! {

/// Engine family a transcription model runs on.
#[derive(Debug, Clone, PartialEq, Eq, Structural)]
pub enum EngineType {
    /// Whisper-family models.
    Whisper,
    /// Parakeet-family models.
    Parakeet,
    /// Moonshine-family models.
    Moonshine,
}

/// Noise-suppression model applied to the live microphone path.
#[derive(Debug, Clone, Copy, PartialEq, Eq, Structural)]
pub enum ModelKind {
    /// Pass samples through untouched.
    Dummy,
    /// Add test noise, for debugging the path.
    Noisy,
}

impl ModelKind {
    /// The model a settings name selects; every unknown name falls back
    /// to the pass-through model.
    pub fn from_name(name: &str) -> (kind: ModelKind)
        ensures
            kind == if name@ == "noisy"@ { ModelKind::Noisy } else { ModelKind::Dummy },
    {
        if str_eq(name, "noisy") {
            ModelKind::Noisy
        } else {
            ModelKind::Dummy
        }
    }
}

/// One noise-suppression model, as offered to the user.
#[derive(Debug, Clone)]
pub struct NsModelInfo {
    /// Identifier stored in the settings.
    pub id: String,
    /// Human-readable name.
    pub name: String,
    /// Short description shown beside the name.
    pub description: String,
}

/// The noise-suppression models this application offers, in the order
/// the interface lists them.
pub fn get_available_ns_models() -> (models: Vec<NsModelInfo>)
    ensures
        models@.len() == 3,
        models@[0].id@ == "dummy"@,
        models@[0].name@ == "None"@,
        models@[0].description@ == "No processing"@,
        models@[1].id@ == "noisy"@,
        models@[1].name@ == "Test noise"@,
        models@[1].description@ == "Adds test noise (debug)"@,
        models@[2].id@ == "rnnnoise"@,
        models@[2].name@ == "RNN Noise"@,
        models@[2].description@ == "RNNoise neural network denoiser (48 kHz)"@,
{
    let mut models: Vec<NsModelInfo> = Vec::new();
    models.push(NsModelInfo {
        id: "dummy".to_owned(),
        name: "None".to_owned(),
        description: "No processing".to_owned(),
    });
    models.push(NsModelInfo {
        id: "noisy".to_owned(),
        name: "Test noise".to_owned(),
        description: "Adds test noise (debug)".to_owned(),
    });
    models.push(NsModelInfo {
        id: "rnnnoise".to_owned(),
        name: "RNN Noise".to_owned(),
        description: "RNNoise neural network denoiser (48 kHz)".to_owned(),
    });
    models
}

/// The transcription model the user currently has selected, by id; empty
/// until a choice is made.
#[derive(Debug, Clone)]
pub struct SelectedModelState(pub String);

impl Default for SelectedModelState {
    /// No model selected yet.
    fn default() -> (d: SelectedModelState)
        ensures
            d.0@ == ""@,
    {
        proof {
            reveal_strlit("");
        }
        SelectedModelState(String::new())
    }
}

} // verus!
