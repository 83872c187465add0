//! Where the service is reached, and where the media it produces can be
//! fetched.

use vstd::prelude::*;
use vstd::string::*;

verus! {

/// Scheme and host of the service.
pub const BASE_URL: &'static str = "https://api.fakeyou.com";

/// The storage base: the prefix of every media URL.
pub const FILE_STORAGE_BASE_URL: &'static str = "https://storage.googleapis.com/vocodes-public";

/// Seconds a transport may spend on connecting.
pub const CONNECT_TIMEOUT_SECS: u64 = 10;

/// How a request is made.
#[derive(Clone, Copy, Debug, PartialEq, Eq, Structural)]
pub enum Method {
    Get,
    Post,
}

/// The requests the service is asked with. Those that concern one job carry
/// the job's token.
#[derive(Clone, Debug, PartialEq, Eq)]
pub enum Endpoint {
    Login,
    TtsInference,
    TtsJob(String),
    TtsList,
    UploadAudio,
    UploadImage,
    CreateFaceAnimation,
    InferenceJobStatus(String),
}

impl Endpoint {
    /// The path of the endpoint below [`BASE_URL`].
    pub open spec fn spec_path(self) -> Seq<char> {
        match self {
            Endpoint::Login => "/login"@,
            Endpoint::TtsInference => "/tts/inference"@,
            Endpoint::TtsJob(token) => "/tts/job/"@ + token@,
            Endpoint::TtsList => "/tts/list"@,
            Endpoint::UploadAudio => "/media_uploads/upload_audio"@,
            Endpoint::UploadImage => "/media_uploads/upload_image"@,
            Endpoint::CreateFaceAnimation => "/animation/face_animation/create"@,
            Endpoint::InferenceJobStatus(token) => "/model_inference/job_status/"@ + token@,
        }
    }

    /// The method of the endpoint: the two status requests and the catalog
    /// are read with `Get`, everything else is sent with `Post`.
    pub open spec fn spec_method(self) -> Method {
        match self {
            Endpoint::TtsJob(_) | Endpoint::TtsList | Endpoint::InferenceJobStatus(_) => {
                Method::Get
            },
            _ => Method::Post,
        }
    }

    /// The method of the endpoint.
    pub fn method(&self) -> (method: Method)
        ensures
            method == self.spec_method(),
    {
        match self {
            Endpoint::TtsJob(_) | Endpoint::TtsList | Endpoint::InferenceJobStatus(_) => {
                Method::Get
            },
            _ => Method::Post,
        }
    }

    /// The full URL of the endpoint.
    pub fn url(&self) -> (url: String)
        ensures
            url@ == BASE_URL@ + self.spec_path(),
    {
        let mut url = BASE_URL.to_owned();
        match self {
            Endpoint::Login => url.append("/login"),
            Endpoint::TtsInference => url.append("/tts/inference"),
            Endpoint::TtsJob(token) => {
                url.append("/tts/job/");
                url.append(token.as_str());
            },
            Endpoint::TtsList => url.append("/tts/list"),
            Endpoint::UploadAudio => url.append("/media_uploads/upload_audio"),
            Endpoint::UploadImage => url.append("/media_uploads/upload_image"),
            Endpoint::CreateFaceAnimation => url.append("/animation/face_animation/create"),
            Endpoint::InferenceJobStatus(token) => {
                url.append("/model_inference/job_status/");
                url.append(token.as_str());
            },
        }
        assert(url@ =~= BASE_URL@ + self.spec_path());
        url
    }
}

/// The URL under which media at `public_bucket_media_path` can be fetched: the
/// storage base with the path put behind it as it is. Nothing is checked or
/// normalised; a path that does not start with `/` is the caller's mistake.
pub fn request_file_url(public_bucket_media_path: &str) -> (url: String)
    ensures
        url@ == FILE_STORAGE_BASE_URL@ + public_bucket_media_path@,
{
    let mut url = FILE_STORAGE_BASE_URL.to_owned();
    url.append(public_bucket_media_path);
    url
}

/// The name under which a client of the given version presents itself.
pub fn user_agent(version: &str) -> (agent: String)
    ensures
        agent@ == "chatterverse-fakeyou-client@"@ + version@,
{
    let mut agent = "chatterverse-fakeyou-client@".to_owned();
    agent.append(version);
    agent
}

} // verus!
