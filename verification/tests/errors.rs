//! Status codes and messages.

use espeakng::error::MESSAGE_BUFFER_LEN;
use espeakng::{
    handle_error, os_failure, status_result, ESpeakNgError, Error, OtherError, Request,
};

const ALL: [(ESpeakNgError, u32, &str); 16] = [
    (ESpeakNgError::CompileError, 0x1000_01FF, "CompileError"),
    (ESpeakNgError::VersionMismatch, 0x1000_02FF, "VersionMismatch"),
    (ESpeakNgError::FifoBufferFull, 0x1000_03FF, "FifoBufferFull"),
    (ESpeakNgError::NotInitialized, 0x1000_04FF, "NotInitialized"),
    (ESpeakNgError::AudioError, 0x1000_05FF, "AudioError"),
    (ESpeakNgError::VoiceNotFound, 0x1000_06FF, "VoiceNotFound"),
    (ESpeakNgError::MbrolaNotFound, 0x1000_07FF, "MbrolaNotFound"),
    (ESpeakNgError::MbrolaVoiceNotFound, 0x1000_08FF, "MbrolaVoiceNotFound"),
    (ESpeakNgError::EventBufferFull, 0x1000_09FF, "EventBufferFull"),
    (ESpeakNgError::NotSupported, 0x1000_0AFF, "NotSupported"),
    (ESpeakNgError::UnsupportedPhonemeFormat, 0x1000_0BFF, "UnsupportedPhonemeFormat"),
    (ESpeakNgError::NoSpectFrames, 0x1000_0CFF, "NoSpectFrames"),
    (ESpeakNgError::EmptyPhonemeManifest, 0x1000_0DFF, "EmptyPhonemeManifest"),
    (ESpeakNgError::SpeechStopped, 0x1000_0EFF, "SpeechStopped"),
    (ESpeakNgError::UnknownPhonemeFeature, 0x1000_0FFF, "UnknownPhonemeFeature"),
    (ESpeakNgError::UnknownTextEncoding, 0x1000_10FF, "UnknownTextEncoding"),
];

#[test]
fn zero_status_is_success() {
    assert!(handle_error(0).is_ok());
}

#[test]
fn every_known_status_has_its_code() {
    for (error, code, _) in ALL {
        assert_eq!(error.code(), code);
        assert_eq!(ESpeakNgError::from_repr(code), Some(error));
    }
}

#[test]
fn every_known_status_is_an_engine_error() {
    for (error, code, _) in ALL {
        match handle_error(code) {
            Err(Error::ESpeakNg(found)) => assert_eq!(found, error),
            other => panic!("unexpected result {:?}", other),
        }
    }
}

#[test]
fn codes_next_to_the_table_are_unknown() {
    assert_eq!(ESpeakNgError::from_repr(0), None);
    assert_eq!(ESpeakNgError::from_repr(0x1000_00FF), None);
    assert_eq!(ESpeakNgError::from_repr(0x1000_11FF), None);
    assert_eq!(ESpeakNgError::from_repr(0x1000_06FE), None);
    assert_eq!(ESpeakNgError::from_repr(0x0000_06FF), None);
    assert_eq!(ESpeakNgError::from_repr(u32::MAX), None);
}

#[test]
fn unknown_status_is_a_c_error() {
    assert!(matches!(handle_error(1), Err(Error::OtherC(_))));
    assert!(matches!(handle_error(2), Err(Error::OtherC(_))));
    assert!(matches!(handle_error(0x1000_11FF), Err(Error::OtherC(_))));
    assert!(matches!(handle_error(u32::MAX), Err(Error::OtherC(_))));
}

#[test]
fn unknown_status_carries_the_errno_that_is_set() {
    errno::set_errno(errno::Errno(17));
    match handle_error(3) {
        Err(Error::OtherC(Some(found))) => assert_eq!(found, errno::Errno(17)),
        other => panic!("unexpected result {:?}", other),
    }
}

#[test]
fn unknown_status_carries_no_errno_when_none_is_set() {
    errno::set_errno(errno::Errno(0));
    assert!(matches!(handle_error(1), Err(Error::OtherC(None))));
    errno::set_errno(errno::Errno(0));
    assert!(matches!(handle_error(u32::MAX), Err(Error::OtherC(None))));
}

#[test]
fn known_status_does_not_look_at_the_errno() {
    errno::set_errno(errno::Errno(17));
    assert!(matches!(
        handle_error(0x1000_06FF),
        Err(Error::ESpeakNg(ESpeakNgError::VoiceNotFound))
    ));
    assert!(handle_error(0).is_ok());
}

#[test]
fn os_failure_attaches_a_number_that_is_not_zero() {
    assert!(matches!(os_failure(0), Error::OtherC(None)));
    match os_failure(2) {
        Error::OtherC(Some(found)) => assert_eq!(found, errno::Errno(2)),
        other => panic!("unexpected error {:?}", other),
    }
    match os_failure(-1) {
        Error::OtherC(Some(found)) => assert_eq!(found, errno::Errno(-1)),
        other => panic!("unexpected error {:?}", other),
    }
}

#[test]
fn status_result_goes_by_the_number_it_is_given() {
    assert!(status_result(0, 5).is_ok());
    assert!(matches!(
        status_result(0x1000_05FF, 5),
        Err(Error::ESpeakNg(ESpeakNgError::AudioError))
    ));
    assert!(matches!(status_result(7, 0), Err(Error::OtherC(None))));
    match status_result(7, 5) {
        Err(Error::OtherC(Some(found))) => assert_eq!(found, errno::Errno(5)),
        other => panic!("unexpected result {:?}", other),
    }
}

#[test]
fn names_are_the_variant_names() {
    for (error, _, name) in ALL {
        assert_eq!(error.name(), name);
        assert_eq!(format!("{:?}", error), name);
    }
}

#[test]
fn message_of_an_engine_error() {
    assert_eq!(
        Error::ESpeakNg(ESpeakNgError::VoiceNotFound).message(),
        "Failed to execute an internal espeakNG function: VoiceNotFound"
    );
}

#[test]
fn message_of_the_fixed_errors() {
    assert_eq!(
        Error::MbrolaWithoutMbrolaVoice.message(),
        "eSpeak cannot generate mbrola phonemes without an mbrola voice set!"
    );
    assert_eq!(
        Error::AlreadyInit.message(),
        "espeakng::initialise was called after already having been called!"
    );
}

#[test]
fn message_of_a_c_error() {
    assert_eq!(Error::OtherC(None).message(), "Failed to execute an internal C function: None");
    let with_errno = Error::OtherC(Some(errno::Errno(2))).message();
    assert_eq!(
        with_errno,
        format!("Failed to execute an internal C function: {:?}", Some(errno::Errno(2)))
    );
    assert!(with_errno.starts_with("Failed to execute an internal C function: Some(Errno {"));
    assert!(with_errno.contains("code: 2"));
    assert!(with_errno.ends_with(")"));
}

#[test]
fn message_of_a_c_error_wraps_the_description() {
    assert_eq!(
        Error::os_error_message("Errno { code: 2 }"),
        "Failed to execute an internal C function: Some(Errno { code: 2 })"
    );
    assert_eq!(
        Error::os_error_message(""),
        "Failed to execute an internal C function: Some()"
    );
}

#[test]
fn message_of_other_errors() {
    assert_eq!(
        Error::Other(OtherError::Io(String::from("disk full"))).message(),
        "An internal error occurred: disk full"
    );
    assert_eq!(
        Error::Other(OtherError::InvalidUtf8 { valid_up_to: 3 }).message(),
        "An internal error occurred: the phoneme trace is not valid UTF-8"
    );
}

#[test]
fn engine_message_is_asked_for_with_a_fixed_buffer() {
    assert_eq!(MESSAGE_BUFFER_LEN, 512);
    match ESpeakNgError::VoiceNotFound.message_request() {
        Request::GetStatusCodeMessage { code, buffer_len } => {
            assert_eq!(code, 0x1000_06FF);
            assert_eq!(buffer_len, 512);
        }
        other => panic!("unexpected request {:?}", other),
    }
}

#[test]
fn engine_message_ends_at_the_first_zero() {
    let mut buffer = [0u8; 512];
    buffer[..21].copy_from_slice(b"The voice was missing");
    buffer[30] = b'x';
    assert_eq!(ESpeakNgError::message_from_buffer(&buffer), "The voice was missing");
}

#[test]
fn engine_message_that_fills_the_buffer_is_kept_whole() {
    let buffer = [b'a'; 512];
    assert_eq!(ESpeakNgError::message_from_buffer(&buffer).len(), 512);
}

#[test]
fn engine_error_converts_into_the_library_error() {
    let error: Error = ESpeakNgError::AudioError.into();
    assert!(matches!(error, Error::ESpeakNg(ESpeakNgError::AudioError)));
}
