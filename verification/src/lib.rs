//! An I/O-free core for a client of the FakeYou text-to-speech service.
//!
//! The crate models the remote job lifecycle: it builds the requests a
//! transport has to send, labels what comes back, and decides after every
//! status poll whether to go on polling. Sending and receiving is left to the
//! caller, which hands this crate plain values.

pub mod endpoint;
pub mod error;
pub mod model;
pub mod payload;
pub mod poll;
pub mod status;
pub mod text;
pub mod token;

pub use endpoint::{request_file_url, user_agent, Endpoint, Method};
pub use error::{check_status, error_chain_fmt, Error, TransportFailure};
pub use model::{
    CatalogModels, CreateFaceAnimationResponse, FaceAnimationJobResponse, FaceAnimationJobState,
    FaceAnimationRequest, FaceAnimationResult, FaceAnimationStatus, TtsInferenceResponse,
    TtsJobResponse, TtsJobState, TtsVoice, UploadFileResponse,
};
pub use payload::{
    CreateFaceAnimationPayload, FaceAnimationMediaSource, FaceAnimationOptions, LoginPayload,
    TtsInferencePayload, UploadFilePayload,
};
pub use poll::{classify, JobPoller, JobReport, PollEvent, PollStep, Verdict};
pub use status::{JobKind, JobStatus};
