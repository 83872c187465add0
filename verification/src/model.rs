//! The values the service sends back, and what counts as a well-formed answer
//! to a submission.

use crate::error::{Error, ErrorView};
use crate::status::JobStatus;
use vstd::prelude::*;
use vstd::string::*;

verus! {

/// Answer to a text-to-speech submission.
#[derive(Clone, Debug, PartialEq, Eq)]
pub struct TtsInferenceResponse {
    pub success: bool,
    pub error_type: Option<String>,
    pub error_message: Option<String>,
    pub error_reason: Option<String>,
    pub inference_job_token: Option<String>,
    pub inference_job_token_type: Option<String>,
}

/// Answer to a status poll of a text-to-speech job.
#[derive(Clone, Debug, PartialEq, Eq)]
pub struct TtsJobResponse {
    pub success: bool,
    pub state: TtsJobState,
}

/// State of a text-to-speech job.
#[derive(Clone, Debug, PartialEq, Eq)]
pub struct TtsJobState {
    pub status: JobStatus,
    pub job_token: String,
    /// Where the audio lies under the storage base. A completed job may have
    /// none; that is no error.
    pub maybe_public_bucket_wav_audio_path: Option<String>,
}

/// One entry of the voice catalog.
#[derive(Clone, Debug, PartialEq, Eq)]
pub struct TtsVoice {
    pub model_token: String,
    pub tts_model_type: String,
    pub title: String,
    pub ietf_language_tag: String,
    pub ietf_primary_language_subtag: String,
}

/// Answer to a media upload.
#[derive(Clone, Debug, PartialEq, Eq)]
pub struct UploadFileResponse {
    pub success: bool,
    pub upload_token: String,
}

/// Answer to a face-animation submission.
#[derive(Clone, Debug, PartialEq, Eq)]
pub struct CreateFaceAnimationResponse {
    pub success: bool,
    pub inference_job_token: String,
}

/// Answer to a status poll of a face-animation job.
#[derive(Clone, Debug, PartialEq, Eq)]
pub struct FaceAnimationJobResponse {
    pub success: bool,
    pub state: FaceAnimationJobState,
}

/// State of a face-animation job.
#[derive(Clone, Debug, PartialEq, Eq)]
pub struct FaceAnimationJobState {
    pub job_token: String,
    pub request: FaceAnimationRequest,
    pub status: FaceAnimationStatus,
    /// What the job produced. A completed job may have nothing; that is no
    /// error.
    pub maybe_result: Option<FaceAnimationResult>,
    pub created_at: String,
    pub updated_at: String,
}

/// What a face-animation job was asked to do.
#[derive(Clone, Debug, PartialEq, Eq)]
pub struct FaceAnimationRequest {
    pub inference_category: String,
    pub maybe_model_type: String,
    pub maybe_model_token: Option<String>,
    pub maybe_model_title: String,
    pub maybe_raw_inference_text: Option<String>,
}

/// How far a face-animation job has come.
#[derive(Clone, Debug, PartialEq, Eq)]
pub struct FaceAnimationStatus {
    pub status: JobStatus,
    pub maybe_extra_status_description: Option<String>,
    pub maybe_assigned_worker: String,
    pub maybe_assigned_cluster: String,
    pub maybe_first_started_at: String,
    pub attempt_count: u32,
    pub require_keepalive: bool,
    pub maybe_failure_category: Option<String>,
}

/// What a completed face-animation job produced.
#[derive(Clone, Debug, PartialEq, Eq)]
pub struct FaceAnimationResult {
    pub entity_type: String,
    pub entity_token: String,
    /// Where the media lies under the storage base.
    pub maybe_public_bucket_media_path: String,
    pub maybe_successfully_completed_at: String,
}

/// The detail of the error for a submission that the service did not accept.
pub open spec fn rejected_detail() -> Seq<char> {
    "Invalid response body: the service reported no success"@
}

/// The detail of the error for an accepted submission that names no job.
pub open spec fn missing_token_detail() -> Seq<char> {
    "Invalid response body: missing 'inference_job_token' property"@
}

impl TtsInferenceResponse {
    /// The token of the submitted job.
    ///
    /// A response whose `success` flag is off, or that names no job, is not a
    /// well-formed answer to a submission. What the service says about the
    /// reason stays in the response for the caller to read.
    pub fn job_token(&self) -> (token: Result<String, Error>)
        ensures
            match token {
                Ok(job) => self.success && self.inference_job_token == Some(job),
                Err(error) => if !self.success {
                    error@ == ErrorView::InvalidResponseShape(rejected_detail())
                } else {
                    self.inference_job_token is None && error@ == ErrorView::InvalidResponseShape(
                        missing_token_detail(),
                    )
                },
            },
    {
        if !self.success {
            Err(
                Error::InvalidResponseShape(
                    "Invalid response body: the service reported no success".to_owned(),
                ),
            )
        } else {
            match &self.inference_job_token {
                Some(job) => Ok(job.clone()),
                None => Err(
                    Error::InvalidResponseShape(
                        "Invalid response body: missing 'inference_job_token' property".to_owned(),
                    ),
                ),
            }
        }
    }
}

impl CreateFaceAnimationResponse {
    /// The token of the submitted job, unless the service's `success` flag
    /// is off.
    pub fn job_token(&self) -> (token: Result<String, Error>)
        ensures
            match token {
                Ok(job) => self.success && job == self.inference_job_token,
                Err(error) => !self.success && error@ == ErrorView::InvalidResponseShape(
                    rejected_detail(),
                ),
            },
    {
        if self.success {
            Ok(self.inference_job_token.clone())
        } else {
            Err(
                Error::InvalidResponseShape(
                    "Invalid response body: the service reported no success".to_owned(),
                ),
            )
        }
    }
}

impl UploadFileResponse {
    /// The token of the uploaded media, unless the service's `success` flag
    /// is off.
    pub fn media_token(&self) -> (token: Result<String, Error>)
        ensures
            match token {
                Ok(media) => self.success && media == self.upload_token,
                Err(error) => !self.success && error@ == ErrorView::InvalidResponseShape(
                    rejected_detail(),
                ),
            },
    {
        if self.success {
            Ok(self.upload_token.clone())
        } else {
            Err(
                Error::InvalidResponseShape(
                    "Invalid response body: the service reported no success".to_owned(),
                ),
            )
        }
    }
}

/// The field of a catalog response that holds the voices.
pub const CATALOG_FIELD: &'static str = "models";

/// What a catalog response holds under [`CATALOG_FIELD`].
#[derive(Clone, Debug, PartialEq, Eq)]
pub enum CatalogModels {
    /// The response has no such field.
    Missing,
    /// The field is there but is no list of voices.
    Malformed,
    /// The voices that the field lists.
    Listed(Vec<TtsVoice>),
}

impl CatalogModels {
    /// The error for a catalog response that lists no voices. A response
    /// that does list them, if only none at all, has no error.
    pub open spec fn spec_error(self) -> Option<ErrorView> {
        match self {
            CatalogModels::Missing => Some(
                ErrorView::InvalidResponseShape(
                    "Invalid response body: missing 'models' property"@,
                ),
            ),
            CatalogModels::Malformed => Some(
                ErrorView::InvalidResponseShape("Failed to deserialize models"@),
            ),
            CatalogModels::Listed(_) => None,
        }
    }

    /// The voices of the catalog.
    ///
    /// A response without the field is an error, and so is one whose field
    /// is no list of voices: neither is taken for an empty catalog.
    pub fn voices(self) -> (listed: Result<Vec<TtsVoice>, Error>)
        ensures
            match listed {
                Ok(voices) => self == CatalogModels::Listed(voices),
                Err(error) => self.spec_error() == Some(error@),
            },
    {
        match self {
            CatalogModels::Missing => Err(
                Error::InvalidResponseShape(
                    "Invalid response body: missing 'models' property".to_owned(),
                ),
            ),
            CatalogModels::Malformed => Err(
                Error::InvalidResponseShape("Failed to deserialize models".to_owned()),
            ),
            CatalogModels::Listed(voices) => Ok(voices),
        }
    }
}

} // verus!
