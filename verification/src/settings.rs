//! What a run needs from its configuration, checked before anything is sent
//! to a service.

use vstd::prelude::*;

verus! {

/// Why a configuration cannot be run with.
#[derive(Clone, Copy, Debug, PartialEq, Eq, Structural)]
pub enum ConfigError {
    /// No model is named for the summary.
    MissingModelId,
    /// No bucket is named for the upload.
    MissingBucket,
}

impl ConfigError {
    pub open spec fn message_text(self) -> Seq<char> {
        match self {
            ConfigError::MissingModelId =>
                "Configuration error: model.model_id is missing or empty in config.toml"@,
            ConfigError::MissingBucket => "Configuration error: no S3 bucket is named"@,
        }
    }

    /// The message with which the run ends.
    pub fn message(self) -> (message: &'static str)
        ensures
            message@ == self.message_text(),
    {
        match self {
            ConfigError::MissingModelId =>
                "Configuration error: model.model_id is missing or empty in config.toml",
            ConfigError::MissingBucket => "Configuration error: no S3 bucket is named",
        }
    }
}

/// What is wrong with a model id, if anything: a model id must not be empty.
pub open spec fn model_id_fault(model_id: Seq<char>) -> Option<ConfigError> {
    if model_id.len() == 0 {
        Some(ConfigError::MissingModelId)
    } else {
        None
    }
}

/// What keeps a run from starting, if anything: a missing model id, or else
/// a missing bucket.
pub open spec fn run_fault(model_id: Seq<char>, bucket: Seq<char>) -> Option<ConfigError> {
    if model_id.len() == 0 {
        Some(ConfigError::MissingModelId)
    } else if bucket.len() == 0 {
        Some(ConfigError::MissingBucket)
    } else {
        None
    }
}

/// A configuration without a model id is rejected wherever it is looked at:
/// by the check of the model id and by the check before a run, whatever the
/// bucket.
pub proof fn lemma_missing_model_id_is_rejected(model_id: Seq<char>, bucket: Seq<char>)
    ensures
        model_id_fault(model_id) == Some(ConfigError::MissingModelId) <==> model_id.len() == 0,
        model_id_fault(model_id) is None <==> model_id.len() > 0,
        run_fault(model_id, bucket) == Some(ConfigError::MissingModelId) <==> model_id.len() == 0,
        run_fault(model_id, bucket) is None <==> model_id.len() > 0 && bucket.len() > 0,
{
}

/// Checks the configured model id, a missing one being handed in as the empty
/// text. To be called as soon as the configuration is read, before the first
/// request to any service.
pub fn check_model_id(model_id: &str) -> (checked: Result<(), ConfigError>)
    ensures
        match checked {
            Ok(_) => model_id_fault(model_id@) is None,
            Err(e) => model_id_fault(model_id@) == Some(e),
        },
{
    if model_id.is_empty() {
        Err(ConfigError::MissingModelId)
    } else {
        Ok(())
    }
}

/// Checks what a run needs before it starts.
pub fn check_run(model_id: &str, bucket: &str) -> (checked: Result<(), ConfigError>)
    ensures
        match checked {
            Ok(_) => run_fault(model_id@, bucket@) is None,
            Err(e) => run_fault(model_id@, bucket@) == Some(e),
        },
{
    if model_id.is_empty() {
        Err(ConfigError::MissingModelId)
    } else if bucket.is_empty() {
        Err(ConfigError::MissingBucket)
    } else {
        Ok(())
    }
}

} // verus!
