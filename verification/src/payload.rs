//! The values that are sent to the service.

use crate::token::{fresh_idempotency_token, is_random_uuid};
use vstd::prelude::*;
use vstd::string::*;

verus! {

/// The `source` of an uploaded file, as the service wants it named.
pub const UPLOAD_SOURCE: &'static str = "file";

/// The frame of an animation, unless another is asked for.
pub const DEFAULT_DIMENSIONS: &'static str = "twitter_square";

/// The credentials of a login.
#[derive(Clone, Debug, PartialEq, Eq)]
pub struct LoginPayload {
    pub username_or_email: String,
    pub password: String,
}

impl LoginPayload {
    /// The credentials as they are sent.
    pub fn new(username_or_email: String, password: String) -> (payload: LoginPayload)
        ensures
            payload == (LoginPayload { username_or_email, password }),
    {
        LoginPayload { username_or_email, password }
    }
}

/// A text-to-speech submission.
///
/// Sending the same value again repeats the submission under the same
/// idempotency token; the service then starts no second job.
#[derive(Clone, Debug, PartialEq, Eq)]
pub struct TtsInferencePayload {
    /// A random UUID, as a 128-bit number in big-endian order.
    pub uuid_idempotency_token: u128,
    pub tts_model_token: String,
    pub inference_text: String,
}

impl TtsInferencePayload {
    /// A submission under the given idempotency token. To repeat a
    /// submission, give the token of the first attempt.
    pub fn with_token(
        uuid_idempotency_token: u128,
        tts_model_token: String,
        inference_text: String,
    ) -> (payload: TtsInferencePayload)
        ensures
            payload == (TtsInferencePayload {
                uuid_idempotency_token,
                tts_model_token,
                inference_text,
            }),
    {
        TtsInferencePayload { uuid_idempotency_token, tts_model_token, inference_text }
    }

    /// A new submission, under an idempotency token of its own.
    pub fn new(tts_model_token: String, inference_text: String) -> (payload: TtsInferencePayload)
        ensures
            is_random_uuid(payload.uuid_idempotency_token),
            payload == (TtsInferencePayload {
                uuid_idempotency_token: payload.uuid_idempotency_token,
                tts_model_token,
                inference_text,
            }),
    {
        TtsInferencePayload::with_token(fresh_idempotency_token(), tts_model_token, inference_text)
    }
}

/// The upload of an audio or image file.
#[derive(Clone, Debug, PartialEq, Eq)]
pub struct UploadFilePayload<'a> {
    /// A random UUID, as a 128-bit number in big-endian order.
    pub uuid_idempotency_token: u128,
    /// The bytes of the file.
    pub file: &'a [u8],
    /// Always [`UPLOAD_SOURCE`].
    pub source: &'a str,
}

impl<'a> UploadFilePayload<'a> {
    /// An upload of `file` under the given idempotency token. To repeat an
    /// upload, give the token of the first attempt.
    pub fn with_token(uuid_idempotency_token: u128, file: &'a [u8]) -> (payload: UploadFilePayload<
        'a,
    >)
        ensures
            payload.uuid_idempotency_token == uuid_idempotency_token,
            payload.file@ == file@,
            payload.source@ == UPLOAD_SOURCE@,
    {
        UploadFilePayload { uuid_idempotency_token, file, source: UPLOAD_SOURCE }
    }

    /// A new upload of `file`, under an idempotency token of its own.
    pub fn new(file: &'a [u8]) -> (payload: UploadFilePayload<'a>)
        ensures
            is_random_uuid(payload.uuid_idempotency_token),
            payload.file@ == file@,
            payload.source@ == UPLOAD_SOURCE@,
    {
        UploadFilePayload::with_token(fresh_idempotency_token(), file)
    }
}

/// An uploaded file that an animation is made from.
#[derive(Clone, Debug, PartialEq, Eq)]
pub struct FaceAnimationMediaSource {
    pub maybe_media_upload_token: String,
}

/// What can be chosen about an animation. `dimensions` may be left out, and
/// is then [`DEFAULT_DIMENSIONS`].
#[derive(Clone, Debug, PartialEq, Eq)]
pub struct FaceAnimationOptions {
    pub dimensions: Option<String>,
    pub disable_face_enhancement: bool,
    pub make_still: bool,
    pub remove_watermark: bool,
}

/// A face-animation submission: an uploaded audio file drives an uploaded
/// image.
///
/// Sending the same value again repeats the submission under the same
/// idempotency token; the service then starts no second job.
#[derive(Clone, Debug, PartialEq, Eq)]
pub struct CreateFaceAnimationPayload {
    pub audio_sorce: FaceAnimationMediaSource,
    pub dimensions: String,
    pub disable_face_enhancement: bool,
    pub image_source: FaceAnimationMediaSource,
    pub make_still: bool,
    pub remove_watermark: bool,
    /// A random UUID, as a 128-bit number in big-endian order.
    pub uuid_idempotency_token: u128,
}

impl FaceAnimationOptions {
    /// The options to start from: the default frame, and nothing switched
    /// on. Set the fields that should differ.
    pub fn new() -> (options: FaceAnimationOptions)
        ensures
            options == (FaceAnimationOptions {
                dimensions: None,
                disable_face_enhancement: false,
                make_still: false,
                remove_watermark: false,
            }),
    {
        FaceAnimationOptions {
            dimensions: None,
            disable_face_enhancement: false,
            make_still: false,
            remove_watermark: false,
        }
    }

    /// The frame that these options ask for.
    pub open spec fn spec_dimensions(self) -> Seq<char> {
        match self.dimensions {
            Some(dimensions) => dimensions@,
            None => DEFAULT_DIMENSIONS@,
        }
    }
}

impl CreateFaceAnimationPayload {
    /// A submission under the given idempotency token. To repeat a
    /// submission, give the token of the first attempt.
    pub fn with_token(
        uuid_idempotency_token: u128,
        audio_upload_token: String,
        image_upload_token: String,
        options: FaceAnimationOptions,
    ) -> (payload: CreateFaceAnimationPayload)
        ensures
            payload.uuid_idempotency_token == uuid_idempotency_token,
            payload.audio_sorce.maybe_media_upload_token == audio_upload_token,
            payload.image_source.maybe_media_upload_token == image_upload_token,
            payload.dimensions@ == options.spec_dimensions(),
            payload.disable_face_enhancement == options.disable_face_enhancement,
            payload.make_still == options.make_still,
            payload.remove_watermark == options.remove_watermark,
    {
        let dimensions = match options.dimensions {
            Some(dimensions) => dimensions,
            None => DEFAULT_DIMENSIONS.to_owned(),
        };
        CreateFaceAnimationPayload {
            audio_sorce: FaceAnimationMediaSource { maybe_media_upload_token: audio_upload_token },
            dimensions,
            disable_face_enhancement: options.disable_face_enhancement,
            image_source: FaceAnimationMediaSource { maybe_media_upload_token: image_upload_token },
            make_still: options.make_still,
            remove_watermark: options.remove_watermark,
            uuid_idempotency_token,
        }
    }

    /// A new submission, under an idempotency token of its own.
    pub fn new(
        audio_upload_token: String,
        image_upload_token: String,
        options: FaceAnimationOptions,
    ) -> (payload: CreateFaceAnimationPayload)
        ensures
            is_random_uuid(payload.uuid_idempotency_token),
            payload.audio_sorce.maybe_media_upload_token == audio_upload_token,
            payload.image_source.maybe_media_upload_token == image_upload_token,
            payload.dimensions@ == options.spec_dimensions(),
            payload.disable_face_enhancement == options.disable_face_enhancement,
            payload.make_still == options.make_still,
            payload.remove_watermark == options.remove_watermark,
    {
        CreateFaceAnimationPayload::with_token(
            fresh_idempotency_token(),
            audio_upload_token,
            image_upload_token,
            options,
        )
    }

    /// Names another uploaded audio file as the one that drives the animation.
    pub fn audio_sorce(&mut self, maybe_media_upload_token: String)
        ensures
            *final(self) == (CreateFaceAnimationPayload {
                audio_sorce: FaceAnimationMediaSource { maybe_media_upload_token },
                ..*old(self)
            }),
    {
        self.audio_sorce = FaceAnimationMediaSource { maybe_media_upload_token };
    }

    /// Names another uploaded image as the one that is animated.
    pub fn image_source(&mut self, maybe_media_upload_token: String)
        ensures
            *final(self) == (CreateFaceAnimationPayload {
                image_source: FaceAnimationMediaSource { maybe_media_upload_token },
                ..*old(self)
            }),
    {
        self.image_source = FaceAnimationMediaSource { maybe_media_upload_token };
    }
}

} // verus!
