use fakeyou_client::payload::{DEFAULT_DIMENSIONS, UPLOAD_SOURCE};
use fakeyou_client::token::{RANDOM_UUID_BITS, VERSION_AND_VARIANT_BITS};
use fakeyou_client::{
    CreateFaceAnimationPayload, FaceAnimationMediaSource, FaceAnimationOptions, LoginPayload,
    TtsInferencePayload, UploadFilePayload,
};
use uuid::{Uuid, Variant};

fn assert_random_uuid(token: u128) {
    assert_eq!(token & VERSION_AND_VARIANT_BITS, RANDOM_UUID_BITS);
    let uuid = Uuid::from_u128(token);
    assert_eq!(uuid.get_version_num(), 4);
    assert_eq!(uuid.get_variant(), Variant::RFC4122);
}

fn options() -> FaceAnimationOptions {
    FaceAnimationOptions {
        dimensions: None,
        disable_face_enhancement: true,
        make_still: false,
        remove_watermark: true,
    }
}

#[test]
fn login_payload_carries_the_credentials() {
    let payload = LoginPayload::new("user@example.com".to_string(), "hunter2".to_string());
    assert_eq!(payload.username_or_email, "user@example.com");
    assert_eq!(payload.password, "hunter2");
}

#[test]
fn tts_payload_carries_model_and_text() {
    let payload = TtsInferencePayload::new("TM:abc".to_string(), "Hello there".to_string());
    assert_eq!(payload.tts_model_token, "TM:abc");
    assert_eq!(payload.inference_text, "Hello there");
    assert_random_uuid(payload.uuid_idempotency_token);
}

#[test]
fn two_submissions_of_the_same_content_have_different_tokens() {
    let first = TtsInferencePayload::new("TM:abc".to_string(), "Hello there".to_string());
    let second = TtsInferencePayload::new("TM:abc".to_string(), "Hello there".to_string());
    assert_eq!(first.tts_model_token, second.tts_model_token);
    assert_eq!(first.inference_text, second.inference_text);
    assert_ne!(first.uuid_idempotency_token, second.uuid_idempotency_token);
}

#[test]
fn two_uploads_of_the_same_file_have_different_tokens() {
    let file = [1u8, 2, 3];
    let first = UploadFilePayload::new(&file);
    let second = UploadFilePayload::new(&file);
    assert_ne!(first.uuid_idempotency_token, second.uuid_idempotency_token);
}

#[test]
fn two_animations_of_the_same_media_have_different_tokens() {
    let first =
        CreateFaceAnimationPayload::new("audio".to_string(), "image".to_string(), options());
    let second =
        CreateFaceAnimationPayload::new("audio".to_string(), "image".to_string(), options());
    assert_ne!(first.uuid_idempotency_token, second.uuid_idempotency_token);
}

#[test]
fn a_repeated_submission_keeps_its_token() {
    let first = TtsInferencePayload::new("TM:abc".to_string(), "Hello there".to_string());
    let again = first.clone();
    assert_eq!(first, again);
}

#[test]
fn upload_payload_carries_the_file() {
    let file = [0u8, 159, 146, 150, 255];
    let payload = UploadFilePayload::new(&file);
    assert_eq!(payload.file, &file[..]);
    assert_eq!(payload.source, "file");
    assert_eq!(UPLOAD_SOURCE, "file");
    assert_random_uuid(payload.uuid_idempotency_token);
}

#[test]
fn upload_of_an_empty_file() {
    let payload = UploadFilePayload::new(&[]);
    assert!(payload.file.is_empty());
    assert_eq!(payload.source, "file");
}

#[test]
fn animation_payload_takes_the_default_dimensions() {
    let payload = CreateFaceAnimationPayload::new(
        "audio-token".to_string(),
        "image-token".to_string(),
        options(),
    );
    assert_eq!(DEFAULT_DIMENSIONS, "twitter_square");
    assert_eq!(payload.dimensions, "twitter_square");
    assert_eq!(payload.audio_sorce.maybe_media_upload_token, "audio-token");
    assert_eq!(payload.image_source.maybe_media_upload_token, "image-token");
    assert!(payload.disable_face_enhancement);
    assert!(!payload.make_still);
    assert!(payload.remove_watermark);
    assert_random_uuid(payload.uuid_idempotency_token);
}

#[test]
fn animation_payload_takes_the_dimensions_asked_for() {
    let payload = CreateFaceAnimationPayload::new(
        "audio-token".to_string(),
        "image-token".to_string(),
        FaceAnimationOptions {
            dimensions: Some("twitter_landscape".to_string()),
            disable_face_enhancement: false,
            make_still: true,
            remove_watermark: false,
        },
    );
    assert_eq!(payload.dimensions, "twitter_landscape");
    assert!(!payload.disable_face_enhancement);
    assert!(payload.make_still);
    assert!(!payload.remove_watermark);
}

#[test]
fn audio_sorce_replaces_only_the_audio() {
    let mut payload =
        CreateFaceAnimationPayload::new("audio".to_string(), "image".to_string(), options());
    let before = payload.clone();
    payload.audio_sorce("other-audio".to_string());
    assert_eq!(
        payload,
        CreateFaceAnimationPayload {
            audio_sorce: FaceAnimationMediaSource {
                maybe_media_upload_token: "other-audio".to_string()
            },
            ..before
        }
    );
}

#[test]
fn image_source_replaces_only_the_image() {
    let mut payload =
        CreateFaceAnimationPayload::new("audio".to_string(), "image".to_string(), options());
    let before = payload.clone();
    payload.image_source("other-image".to_string());
    assert_eq!(
        payload,
        CreateFaceAnimationPayload {
            image_source: FaceAnimationMediaSource {
                maybe_media_upload_token: "other-image".to_string()
            },
            ..before
        }
    );
}

#[test]
fn a_submission_can_be_made_under_a_given_token() {
    let token = 0x0123_4567_89ab_4def_8123_4567_89ab_cdef_u128;
    let payload =
        TtsInferencePayload::with_token(token, "TM:abc".to_string(), "Hello".to_string());
    assert_eq!(
        payload,
        TtsInferencePayload {
            uuid_idempotency_token: token,
            tts_model_token: "TM:abc".to_string(),
            inference_text: "Hello".to_string(),
        }
    );
}

#[test]
fn an_upload_can_be_made_under_a_given_token() {
    let file = [7u8, 8, 9];
    let payload = UploadFilePayload::with_token(42, &file);
    assert_eq!(
        payload,
        UploadFilePayload { uuid_idempotency_token: 42, file: &file, source: "file" }
    );
}

#[test]
fn an_animation_can_be_made_under_a_given_token() {
    let payload = CreateFaceAnimationPayload::with_token(
        7,
        "audio".to_string(),
        "image".to_string(),
        options(),
    );
    assert_eq!(
        payload,
        CreateFaceAnimationPayload {
            audio_sorce: FaceAnimationMediaSource { maybe_media_upload_token: "audio".to_string() },
            dimensions: "twitter_square".to_string(),
            disable_face_enhancement: true,
            image_source: FaceAnimationMediaSource {
                maybe_media_upload_token: "image".to_string()
            },
            make_still: false,
            remove_watermark: true,
            uuid_idempotency_token: 7,
        }
    );
}

#[test]
fn options_start_with_the_default_frame_and_nothing_switched_on() {
    let options = FaceAnimationOptions::new();
    assert_eq!(
        options,
        FaceAnimationOptions {
            dimensions: None,
            disable_face_enhancement: false,
            make_still: false,
            remove_watermark: false,
        }
    );
    let payload =
        CreateFaceAnimationPayload::with_token(1, "a".to_string(), "i".to_string(), options);
    assert_eq!(payload.dimensions, "twitter_square");
}
