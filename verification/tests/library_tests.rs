use std::borrow::Borrow;
use std::time::Duration;

use http::StatusCode;
use tonic::{Code, Status};
use typed_error::{
    AppError, DetailValue, ErrorCode, ErrorDetails, ErrorKind, ErrorResponse, HttpErrorExt,
    InvalidErrorCode, RetryHint,
};

const ALL_KINDS: [ErrorKind; 11] = [
    ErrorKind::Validation,
    ErrorKind::Unauthorized,
    ErrorKind::Forbidden,
    ErrorKind::NotFound,
    ErrorKind::Conflict,
    ErrorKind::RateLimited,
    ErrorKind::Timeout,
    ErrorKind::Cancelled,
    ErrorKind::Unavailable,
    ErrorKind::External,
    ErrorKind::Internal,
];

#[test]
fn kind_names_are_pairwise_distinct() {
    for (i, a) in ALL_KINDS.iter().enumerate() {
        for (j, b) in ALL_KINDS.iter().enumerate() {
            assert_eq!(i == j, a.as_str() == b.as_str());
        }
    }
}

#[test]
fn kind_to_string_equals_as_str() {
    for kind in ALL_KINDS {
        assert_eq!(kind.to_string(), kind.as_str());
    }
}

#[test]
fn client_fault_kinds_map_to_4xx_and_outages_to_5xx() {
    for kind in ALL_KINDS {
        let code = kind.http_status().as_u16();
        if kind.is_client_fault() {
            assert!((400..500).contains(&code));
        }
    }
    assert_eq!(ErrorKind::Unavailable.http_status().as_u16(), 503);
    assert_eq!(ErrorKind::External.http_status().as_u16(), 502);
    assert_eq!(ErrorKind::Internal.http_status().as_u16(), 500);
}

#[test]
fn app_error_status_equals_kind_status_for_every_kind() {
    for kind in ALL_KINDS {
        let error = AppError::new(kind, "CODE").message("text");
        assert_eq!(error.http_status(), kind.http_status());
    }
}

#[test]
fn grpc_codes_for_every_kind() {
    let expected = [
        Code::InvalidArgument,
        Code::Unauthenticated,
        Code::PermissionDenied,
        Code::NotFound,
        Code::AlreadyExists,
        Code::ResourceExhausted,
        Code::DeadlineExceeded,
        Code::Cancelled,
        Code::Unavailable,
        Code::Unavailable,
        Code::Internal,
    ];
    for (kind, code) in ALL_KINDS.iter().zip(expected) {
        let status = Status::from(&AppError::new(*kind, "CODE"));
        assert_eq!(status.code(), code);
    }
}

#[test]
fn grpc_status_without_message_uses_code_and_kind() {
    let status: Status = AppError::rate_limited("TOO_MANY").into();
    assert_eq!(status.code(), Code::ResourceExhausted);
    assert_eq!(status.message(), "TOO_MANY (rate_limited)");
}

#[test]
fn try_new_rejects_unicode_white_space() {
    assert_eq!(
        ErrorCode::try_new("\u{3000}\t\n\u{85}\u{2028}"),
        Err(InvalidErrorCode)
    );
}

#[test]
fn try_new_accepts_zero_width_space() {
    let code = ErrorCode::try_new("\u{200B}").unwrap();
    assert_eq!(code.as_str(), "\u{200B}");
}

#[test]
fn try_new_keeps_surrounding_white_space() {
    let code = ErrorCode::try_new("  CODE  ").unwrap();
    assert_eq!(code.as_str(), "  CODE  ");
    assert_eq!(ErrorCode::new("  CODE  "), code);
}

#[test]
fn new_accepts_empty_text() {
    let code = ErrorCode::new("");
    assert_eq!(code.as_str(), "");
    assert_eq!(code.to_string(), "");
}

#[test]
fn error_code_accepts_owned_string() {
    let code = ErrorCode::new(String::from("OWNED"));
    assert_eq!(code.into_string(), "OWNED".to_string());
}

#[test]
fn invalid_error_code_text() {
    assert_eq!(
        InvalidErrorCode.to_string(),
        "error code must not be empty or whitespace only"
    );
}

#[test]
fn extreme_integers_render_in_decimal() {
    assert_eq!(DetailValue::from(i64::MIN).to_string(), "-9223372036854775808");
    assert_eq!(DetailValue::from(i64::MAX).to_string(), "9223372036854775807");
    assert_eq!(DetailValue::from(u64::MAX).to_string(), "18446744073709551615");
    assert_eq!(DetailValue::from(0_u8).to_string(), "0");
    assert_eq!(DetailValue::from(-1_i8).to_string(), "-1");
    assert_eq!(DetailValue::from(100_usize).to_string(), "100");
    assert_eq!(DetailValue::from(-7_isize).to_string(), "-7");
}

#[test]
fn conversions_pick_the_variant() {
    assert_eq!(DetailValue::from(7_i16).as_integer(), Some(7));
    assert_eq!(DetailValue::from(7_u16).as_unsigned(), Some(7));
    assert_eq!(DetailValue::from(7_u16).as_integer(), None);
    assert_eq!(DetailValue::from(true).as_string(), None);
    assert!(DetailValue::from("x").is_string());
    assert!(!DetailValue::from("x").is_float());
    assert_eq!(DetailValue::from(true).to_string(), "true");
}

#[test]
fn detail_value_clone_keeps_contents() {
    let value = DetailValue::from("text");
    assert_eq!(value.clone(), value);
}

#[test]
fn details_insert_returns_previous_value() {
    let mut details = ErrorDetails::new();
    assert_eq!(details.insert("k".to_string(), DetailValue::from(1_u32)), None);
    assert_eq!(
        details.insert("k".to_string(), DetailValue::from(2_u32)),
        Some(DetailValue::from(1_u32))
    );
    assert_eq!(details.get("k").and_then(DetailValue::as_unsigned), Some(2));
    assert_eq!(details.get("missing"), None);
}

#[test]
fn details_order_does_not_depend_on_insertion_order() {
    let names = ["z", "a", "B", "é", "ab", ""];
    let mut first = ErrorDetails::new();
    for name in names {
        first.insert(name.to_string(), DetailValue::from(true));
    }
    let mut second = ErrorDetails::new();
    for name in names.iter().rev() {
        second.insert(name.to_string(), DetailValue::from(true));
    }
    let first_keys: Vec<_> = first.keys().cloned().collect();
    let second_keys: Vec<_> = second.keys().cloned().collect();
    let mut sorted: Vec<String> = names.iter().map(|s| s.to_string()).collect();
    sorted.sort();
    assert_eq!(first_keys, sorted);
    assert_eq!(second_keys, sorted);
    assert_eq!(first, second);
}

#[test]
fn details_extend_later_entry_wins() {
    let mut details = ErrorDetails::new();
    details.extend(vec![
        ("k".to_string(), DetailValue::from(1_u32)),
        ("j".to_string(), DetailValue::from(2_u32)),
        ("k".to_string(), DetailValue::from(3_u32)),
    ]);
    assert_eq!(details.get("k").and_then(DetailValue::as_unsigned), Some(3));
    assert_eq!(details.get("j").and_then(DetailValue::as_unsigned), Some(2));
    let keys: Vec<_> = details.keys().cloned().collect();
    assert_eq!(keys, vec!["j".to_string(), "k".to_string()]);
}

#[test]
fn details_equal_successive_detail_calls() {
    let batch = AppError::validation("CODE").details(vec![
        ("a".to_string(), DetailValue::from(1_u32)),
        ("a".to_string(), DetailValue::from("x")),
    ]);
    let single = AppError::validation("CODE").detail("a", 1_u32).detail("a", "x");
    assert_eq!(batch.details_map(), single.details_map());
}

#[test]
fn details_clone_and_is_empty() {
    let mut details = ErrorDetails::new();
    assert!(details.is_empty());
    details.insert("x".to_string(), DetailValue::from(-3_i32));
    let copy = details.clone();
    assert!(!copy.is_empty());
    assert_eq!(copy, details);
}

#[test]
fn builders_change_only_their_field() {
    let error = AppError::timeout("SLOW")
        .message("too slow")
        .retry_hint(RetryHint::Safe)
        .message("")
        .detail("attempt", 4_u8);
    assert_eq!(error.kind(), ErrorKind::Timeout);
    assert_eq!(error.code().as_str(), "SLOW");
    assert_eq!(error.message_str(), "");
    assert_eq!(error.retry_hint_ref(), &RetryHint::Safe);
    assert!(error.is_retryable());
    assert!(error.source().is_none());
    assert_eq!(error.to_string(), "SLOW (timeout)");
}

#[test]
fn helper_constructors_set_their_kind() {
    let errors = [
        AppError::validation("C"),
        AppError::unauthorized("C"),
        AppError::forbidden("C"),
        AppError::not_found("C"),
        AppError::conflict("C"),
        AppError::rate_limited("C"),
        AppError::timeout("C"),
        AppError::cancelled("C"),
        AppError::unavailable("C"),
        AppError::external("C"),
        AppError::internal("C"),
    ];
    for (error, kind) in errors.iter().zip(ALL_KINDS) {
        assert_eq!(error.kind(), kind);
        assert_eq!(error.retry_hint_ref(), &RetryHint::Never);
    }
}

#[test]
fn retry_after_ms_truncates_to_u64() {
    let duration = Duration::from_secs(u64::MAX);
    let expected = (duration.as_millis() % (1_u128 << 64)) as u64;
    assert_eq!(RetryHint::After(duration).retry_after_ms(), Some(expected));
    assert_eq!(
        RetryHint::After(Duration::from_micros(1999)).retry_after_ms(),
        Some(1)
    );
}

#[test]
fn retry_text_uses_whole_milliseconds() {
    assert_eq!(
        RetryHint::After(Duration::from_micros(2500)).to_string(),
        "after(2ms)"
    );
    assert_eq!(RetryHint::After(Duration::ZERO).to_string(), "after(0ms)");
}

#[test]
fn delay_implies_retryable() {
    for hint in [
        RetryHint::Never,
        RetryHint::Safe,
        RetryHint::After(Duration::from_millis(7)),
    ] {
        assert!(!hint.has_delay() || hint.is_retryable());
        assert_eq!(hint.retry_after().is_some(), hint.has_delay());
        assert_eq!(hint.retry_after_ms().is_some(), hint.has_delay());
    }
}

#[test]
fn response_conversions_agree() {
    let build = || {
        AppError::unavailable("DOWN")
            .message("service down")
            .detail("region", "eu")
            .retry_hint(RetryHint::After(Duration::from_millis(750)))
    };
    let borrowed = ErrorResponse::from(&build());
    let owned = ErrorResponse::from(build());
    assert_eq!(borrowed, owned);
    assert_eq!(owned.retry_after_ms, Some(750));
    assert!(owned.retryable);
    assert_eq!(owned.clone(), owned);
}

#[test]
fn response_new_accepts_owned_strings() {
    let response = ErrorResponse::new(
        ErrorKind::Internal,
        String::from("X"),
        String::from("y"),
        ErrorDetails::new(),
        true,
        Some(5),
    );
    assert_eq!(response.code, "X");
    assert_eq!(response.message, "y");
    assert_eq!(response.retry_after_ms, Some(5));
    assert!(response.retryable);
}

#[test]
fn error_code_conversions_and_borrow() {
    let code = ErrorCode::from("A");
    let borrowed: &str = code.borrow();
    assert_eq!(borrowed, "A");
    assert_eq!(AsRef::<str>::as_ref(&code), "A");
    let error = AppError::new(ErrorKind::Conflict, code.clone());
    assert_eq!(error.code(), &code);
}

#[test]
fn status_code_is_not_the_raw_number_for_conflict() {
    assert_eq!(ErrorKind::Conflict.http_status(), StatusCode::CONFLICT);
    assert_ne!(ErrorKind::Conflict.http_status(), StatusCode::BAD_REQUEST);
}

#[test]
fn details_debug_text_is_map_form() {
    let mut details = ErrorDetails::new();
    details.insert("b".to_string(), DetailValue::from(2_u32));
    details.insert("a".to_string(), DetailValue::from("x"));
    let mut map = std::collections::BTreeMap::new();
    map.insert("b".to_string(), DetailValue::from(2_u32));
    map.insert("a".to_string(), DetailValue::from("x"));
    assert_eq!(format!("{:?}", details), format!("{:?}", map));
    assert_eq!(
        format!("{:?}", details),
        "{\"a\": String(\"x\"), \"b\": Unsigned(2)}"
    );
}

#[test]
fn source_debug_text_is_the_source_error() {
    let io_error = std::io::Error::new(std::io::ErrorKind::NotFound, "gone");
    let expected = format!("{:?}", io_error);
    let error = AppError::internal("READ").source_error(io_error);
    let source = error.source().expect("source recorded");
    assert_eq!(format!("{:?}", source), expected);
    assert_eq!(source.to_string(), "gone");
}

#[test]
fn details_len_contains_remove_iter() {
    let mut details = ErrorDetails::new();
    assert_eq!(details.len(), 0);
    details.insert("b".to_string(), DetailValue::from(2_u32));
    details.insert("a".to_string(), DetailValue::from(1_u32));
    details.insert("c".to_string(), DetailValue::from(3_u32));
    details.insert("a".to_string(), DetailValue::from(4_u32));
    assert_eq!(details.len(), 3);
    assert!(details.contains_key("a"));
    assert!(!details.contains_key("d"));
    let pairs: Vec<(String, u64)> = details
        .iter()
        .into_iter()
        .map(|(k, v)| (k.clone(), v.as_unsigned().unwrap()))
        .collect();
    assert_eq!(
        pairs,
        vec![("a".to_string(), 4), ("b".to_string(), 2), ("c".to_string(), 3)]
    );
    assert_eq!(details.remove("b"), Some(DetailValue::from(2_u32)));
    assert_eq!(details.remove("b"), None);
    assert_eq!(details.len(), 2);
    assert!(!details.contains_key("b"));
    let keys: Vec<_> = details.keys().cloned().collect();
    assert_eq!(keys, vec!["a".to_string(), "c".to_string()]);
}
