//! Sampling parameters and the settings kept from the last run.

use serde_json::Value;
use vstd::prelude::*;

verus! {

/// The parameters that steer sampling.
///
/// Real-valued parameters are held as IEEE 754 bit patterns, so that they
/// pass through unchanged: binary64 for `temperature`, `top_p` and `min_p`,
/// binary32 for the two penalties. Stop sequences, logit bias and the
/// repetition-control parameters are free-form JSON.
#[derive(Debug, PartialEq)]
pub struct ModelParams {
    pub temperature: Option<u64>,
    pub top_k: Option<usize>,
    pub top_p: Option<u64>,
    pub min_p: Option<u64>,
    pub top_n_logprobs: usize,
    pub frequency_penalty: Option<u32>,
    pub presence_penalty: Option<u32>,
    pub stop_toks: Option<Value>,
    pub max_len: Option<usize>,
    pub logits_bias: Option<Value>,
    pub n_choices: usize,
    pub dry_params: Option<Value>,
}

/// The settings of the last run: which model was loaded, with which chat
/// template and which sampling parameters.
#[derive(Debug, PartialEq)]
pub struct LastModelConf {
    pub model_dir: String,
    pub model_name: String,
    pub chat_template: String,
    pub model_params: ModelParams,
}

/// What to tell the user about the settings of the last run.
#[derive(Clone, Copy, Debug, PartialEq, Eq, Structural)]
pub enum ConfNotice {
    /// The stored settings could not be read; empty ones stand in.
    LoadFailed,
    /// Nothing was stored: no model directory is set.
    NoPreviousSettings,
    /// Settings of an earlier run are there to continue with.
    ContinueWithPrevious,
}

impl ModelParams {
    /// Parameters with nothing set: every optional one absent, every count
    /// zero.
    pub open spec fn empty() -> ModelParams {
        ModelParams {
            temperature: None,
            top_k: None,
            top_p: None,
            min_p: None,
            top_n_logprobs: 0,
            frequency_penalty: None,
            presence_penalty: None,
            stop_toks: None,
            max_len: None,
            logits_bias: None,
            n_choices: 0,
            dry_params: None,
        }
    }
}

impl Default for ModelParams {
    fn default() -> (params: Self)
        ensures
            params == ModelParams::empty(),
    {
        ModelParams {
            temperature: None,
            top_k: None,
            top_p: None,
            min_p: None,
            top_n_logprobs: 0,
            frequency_penalty: None,
            presence_penalty: None,
            stop_toks: None,
            max_len: None,
            logits_bias: None,
            n_choices: 0,
            dry_params: None,
        }
    }
}

impl LastModelConf {
    /// Whether these are the empty settings: no texts, no parameters.
    pub open spec fn is_empty(&self) -> bool {
        &&& self.model_dir@.len() == 0
        &&& self.model_name@.len() == 0
        &&& self.chat_template@.len() == 0
        &&& self.model_params == ModelParams::empty()
    }
}

impl Default for LastModelConf {
    fn default() -> (conf: Self)
        ensures
            conf.is_empty(),
    {
        LastModelConf {
            model_dir: String::new(),
            model_name: String::new(),
            chat_template: String::new(),
            model_params: ModelParams::default(),
        }
    }
}

impl ConfNotice {
    /// The notice in words.
    pub open spec fn message_text(self) -> Seq<char> {
        match self {
            ConfNotice::LoadFailed => "Previous model settings could not be read"@,
            ConfNotice::NoPreviousSettings => "No previous model settings"@,
            ConfNotice::ContinueWithPrevious => "Continue with previous settings?"@,
        }
    }

    /// The notice in words, as shown to the user.
    pub fn message(&self) -> (text: String)
        ensures
            text@ == self.message_text(),
    {
        match self {
            ConfNotice::LoadFailed => String::from_str("Previous model settings could not be read"),
            ConfNotice::NoPreviousSettings => String::from_str("No previous model settings"),
            ConfNotice::ContinueWithPrevious => String::from_str(
                "Continue with previous settings?",
            ),
        }
    }
}

/// Settles the settings to start from, given what loading the stored ones
/// came to (`None` where they could not be read).
///
/// Unreadable settings are replaced by empty ones. Readable settings are
/// handed back as they are; they count as settings of an earlier run exactly
/// when their model directory is not empty.
pub fn get_previous_confs(loaded: Option<LastModelConf>) -> (settled: (LastModelConf, ConfNotice))
    ensures
        match loaded {
            None => settled.0.is_empty() && settled.1 == ConfNotice::LoadFailed,
            Some(conf) => {
                &&& settled.0 == conf
                &&& settled.1 == if conf.model_dir@.len() == 0 {
                    ConfNotice::NoPreviousSettings
                } else {
                    ConfNotice::ContinueWithPrevious
                }
            },
        },
{
    match loaded {
        None => (LastModelConf::default(), ConfNotice::LoadFailed),
        Some(conf) => {
            let notice = if conf.model_dir.as_str().is_empty() {
                ConfNotice::NoPreviousSettings
            } else {
                ConfNotice::ContinueWithPrevious
            };
            (conf, notice)
        },
    }
}

} // verus!
