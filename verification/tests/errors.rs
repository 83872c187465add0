use fakeyou_client::error::{TOO_MANY_REQUESTS, UNAUTHORIZED};
use fakeyou_client::{check_status, error_chain_fmt, Error, JobKind, TransportFailure};

fn failure(status: Option<u16>) -> TransportFailure {
    TransportFailure {
        status,
        malformed_body: false,
        message: "request failed".to_string(),
        causes: vec!["connection closed".to_string()],
    }
}

#[test]
fn unauthorized_is_an_authentication_error() {
    assert_eq!(UNAUTHORIZED, 401);
    assert_eq!(Error::from(failure(Some(401))), Error::AuthenticationError);
}

#[test]
fn too_many_requests_is_rate_limiting() {
    assert_eq!(TOO_MANY_REQUESTS, 429);
    assert_eq!(Error::from(failure(Some(429))), Error::RateLimited);
}

#[test]
fn other_statuses_stay_transport_errors() {
    for status in [400, 403, 404, 418, 500, 503] {
        assert_eq!(
            Error::from(failure(Some(status))),
            Error::TransportError(failure(Some(status)))
        );
    }
}

#[test]
fn a_failure_without_a_status_is_a_transport_error() {
    assert_eq!(Error::from(failure(None)), Error::TransportError(failure(None)));
}

#[test]
fn an_unreadable_body_is_a_response_of_invalid_shape() {
    let unreadable = TransportFailure {
        status: None,
        malformed_body: true,
        message: "missing field `success`".to_string(),
        causes: vec![],
    };
    assert_eq!(
        Error::from(unreadable),
        Error::InvalidResponseShape("missing field `success`".to_string())
    );
}

#[test]
fn the_status_decides_before_the_body() {
    let denied = TransportFailure {
        status: Some(401),
        malformed_body: true,
        message: "unreadable".to_string(),
        causes: vec![],
    };
    assert_eq!(Error::from(denied), Error::AuthenticationError);
}

#[test]
fn every_2xx_status_passes() {
    for status in [200, 201, 204, 299] {
        assert_eq!(check_status(status), Ok(()));
        assert_eq!(TransportFailure::from_status(status), None);
    }
}

#[test]
fn login_with_invalid_credentials_is_an_authentication_error() {
    assert_eq!(check_status(401), Err(Error::AuthenticationError));
}

#[test]
fn rate_limiting_is_told_from_the_status() {
    assert_eq!(check_status(429), Err(Error::RateLimited));
}

#[test]
fn every_status_outside_2xx_is_surfaced() {
    for status in [100, 199, 300, 302, 400, 404, 500, 599, u16::MAX] {
        let expected = TransportFailure {
            status: Some(status),
            malformed_body: false,
            message: format!("unexpected HTTP status {}", status),
            causes: vec![],
        };
        assert_eq!(TransportFailure::from_status(status), Some(expected.clone()));
        assert_eq!(check_status(status), Err(Error::TransportError(expected)));
    }
}

#[test]
fn messages() {
    assert_eq!(
        Error::AuthenticationError.message(),
        "Failed to authenticate user, check your credentials"
    );
    assert_eq!(Error::RateLimited.message(), "Too many requests");
    assert_eq!(
        Error::JobFailed(JobKind::Tts, "TJ:abc".to_string()).message(),
        "Tts job 'TJ:abc' was unsuccessful"
    );
    assert_eq!(
        Error::JobFailed(JobKind::FaceAnimation, "JINF:xyz".to_string()).message(),
        "Face animation job was unsuccessful: JINF:xyz"
    );
    assert_eq!(
        Error::InvalidResponseShape("Failed to deserialize models".to_string()).message(),
        "Failed to deserialize models"
    );
    assert_eq!(Error::TransportError(failure(Some(500))).message(), "request failed");
}

#[test]
fn chain_without_causes() {
    assert_eq!(error_chain_fmt("Too many requests", &vec![]), "Too many requests\n\n");
    assert_eq!(error_chain_fmt("", &vec![]), "\n\n");
}

#[test]
fn chain_with_causes() {
    let causes = vec!["error sending request".to_string(), "connection refused".to_string()];
    assert_eq!(
        error_chain_fmt("request failed", &causes),
        "request failed\n\nCaused by:\n\terror sending request\nCaused by:\n\tconnection refused\n"
    );
}

#[test]
fn report_of_an_error_without_causes() {
    assert_eq!(
        Error::AuthenticationError.report(),
        "Failed to authenticate user, check your credentials\n\n"
    );
    assert_eq!(
        Error::JobFailed(JobKind::Tts, "abc".to_string()).report(),
        "Tts job 'abc' was unsuccessful\n\n"
    );
    assert_eq!(
        Error::JobFailed(JobKind::FaceAnimation, "abc".to_string()).report(),
        "Face animation job was unsuccessful: abc\n\n"
    );
}

#[test]
fn report_of_a_transport_error_lists_its_causes() {
    assert_eq!(
        Error::TransportError(failure(None)).report(),
        "request failed\n\nCaused by:\n\tconnection closed\n"
    );
}

#[test]
fn the_message_of_a_status_failure_names_the_status() {
    let message = |status: u16| TransportFailure::from_status(status).map(|f| f.message);
    assert_eq!(message(404), Some("unexpected HTTP status 404".to_string()));
    assert_eq!(message(0), Some("unexpected HTTP status 0".to_string()));
    assert_eq!(message(7), Some("unexpected HTTP status 7".to_string()));
    assert_eq!(message(100), Some("unexpected HTTP status 100".to_string()));
    assert_eq!(message(65535), Some("unexpected HTTP status 65535".to_string()));
    assert_eq!(message(200), None);
}
