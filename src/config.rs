//! Persisted settings: what each record holds, its starting value and the
//! file it lives in. Reading and writing the files is left to the caller.
use vstd::prelude::*;

verus! {

/// A settings record stored in a file of its own.
pub trait Config: Sized {
    /// Whether the record holds no setting.
    spec fn is_blank(&self) -> bool;

    /// The record used when no file exists yet.
    fn default() -> (r: Self)
        ensures
            r.is_blank(),
    ;

    /// The file name of the record.
    spec fn path() -> Seq<char>;

    /// Where the record is stored, relative to the working directory.
    fn config_path() -> (r: &'static str)
        ensures
            r@ == Self::path(),
    ;
}

/// The devices selected last, re-applied at start-up.
#[derive(Clone, Debug)]
pub struct AudioConfig {
    pub previous_input_device: Option<String>,
    pub previous_output_device: Option<String>,
}

/// The assistant's credentials and conversation.
#[derive(Clone, Debug)]
pub struct AssistantConfig {
    pub api_key: Option<String>,
    pub thread_id: Option<String>,
}

impl Config for AudioConfig {
    open spec fn is_blank(&self) -> bool {
        self.previous_input_device is None && self.previous_output_device is None
    }

    fn default() -> (r: Self) {
        AudioConfig { previous_input_device: None, previous_output_device: None }
    }

    open spec fn path() -> Seq<char> {
        "config/audio_device.json"@
    }

    fn config_path() -> (r: &'static str) {
        "config/audio_device.json"
    }
}

impl Config for AssistantConfig {
    open spec fn is_blank(&self) -> bool {
        self.api_key is None && self.thread_id is None
    }

    fn default() -> (r: Self) {
        AssistantConfig { api_key: None, thread_id: None }
    }

    open spec fn path() -> Seq<char> {
        "assistant.json"@
    }

    fn config_path() -> (r: &'static str) {
        "assistant.json"
    }
}

} // verus!
