use guerrillamail_client_c::builder::{gm_builder_t, BuilderState, DEFAULT_TIMEOUT_MS};
use guerrillamail_client_c::client::{build_client_handle, outcome, runtime_new, runtime_outcome, status_from_error, ClientError};
use guerrillamail_client_c::ffi::{
    check_builder_build, check_client_new_default, check_create_email, check_delete_email,
    check_fetch_email, check_get_messages, ffi_call_status, finish_create_email,
    finish_delete_email, finish_fetch_email, finish_get_messages, gm_builder_new,
    gm_builder_set_danger_accept_invalid_certs, gm_builder_set_proxy, gm_builder_set_timeout_ms,
    gm_builder_set_user_agent, gm_last_error_clear, gm_last_error_message, prepare_client_build, read_required_str, report_panic,
    require_present,
};
use guerrillamail_client_c::last_error::{
    clear_last_error, invalid_arg, null_error, set_last_error, LastError,
};
use guerrillamail_client_c::status::{status_for_kind, gm_status_t, ErrorKind};
use guerrillamail_client_c::values::{
    free_gm_email_details_fields, free_gm_message, free_gm_string, gm_email_details_free,
    gm_message_list_free, gm_message_list_t, gm_string_free, gm_string_t, into_gm_email_details,
    into_gm_message, into_gm_message_list, into_gm_string, EmailDetails, Message,
};

fn token_error() -> ClientError {
    ClientError {
        kind: ErrorKind::TokenParse,
        message: "Failed to parse API token from GuerrillaMail page".to_string(),
    }
}

fn client_error(kind: ErrorKind, message: &str) -> ClientError {
    ClientError { kind, message: message.to_string() }
}

fn last_error_text(errors: &LastError) -> String {
    let bytes = errors.message_bytes().expect("an error was recorded");
    assert_eq!(bytes.last(), Some(&0u8));
    String::from_utf8(bytes[..bytes.len() - 1].to_vec()).expect("utf8 error")
}

fn c_bytes(value: &str) -> Vec<u8> {
    value.as_bytes().to_vec()
}

fn string_text(value: &gm_string_t) -> String {
    let data = value.data.as_ref().expect("non-null string");
    assert_eq!(data.len(), value.len + 1);
    assert_eq!(data[value.len], 0);
    String::from_utf8(data[..value.len].to_vec()).expect("utf8 string")
}

fn message(id: &str) -> Message {
    Message {
        mail_id: id.to_string(),
        mail_from: "sender@example.com".to_string(),
        mail_subject: "Subject".to_string(),
        mail_excerpt: "Excerpt".to_string(),
        mail_timestamp: "1700000000".to_string(),
    }
}

fn details(count: Option<u32>) -> EmailDetails {
    EmailDetails {
        mail_id: "1".to_string(),
        mail_from: "sender@example.com".to_string(),
        mail_subject: "Subject".to_string(),
        mail_body: "<p>Body</p>".to_string(),
        mail_timestamp: "1700000000".to_string(),
        attachment_count: count,
    }
}

#[test]
fn gm_string_free_is_null_safe() {
    gm_string_free(None);

    let mut value = gm_string_t::default();
    gm_string_free(Some(&mut value));
    assert!(value.is_null());
    assert_eq!(value.len, 0);
}

#[test]
fn gm_builder_set_timeout_rejects_zero() {
    let mut errors = LastError::new();
    let mut slot: Option<gm_builder_t> = None;
    assert_eq!(gm_builder_new(&mut errors, Some(&mut slot)), gm_status_t::GM_OK);
    let mut builder = slot.expect("builder stored");

    let status = gm_builder_set_timeout_ms(&mut errors, Some(&mut builder), 0);
    assert_eq!(status, gm_status_t::GM_ERR_INVALID_ARGUMENT);
    let error = last_error_text(&errors);
    assert!(error.contains("timeout_ms"));
    assert_eq!(builder.state.timeout_ms, DEFAULT_TIMEOUT_MS);
}

#[test]
fn null_client_reports_error() {
    let alias = c_bytes("demoalias");
    let mut errors = LastError::new();
    let result = check_create_email(&mut errors, true, None, Some(&alias));
    assert_eq!(result.err(), Some(gm_status_t::GM_ERR_NULL));
    let error = last_error_text(&errors);
    assert!(error.contains("client"));
    assert_eq!(error, "client is null");
}

#[test]
fn status_codes_match_the_c_header() {
    let all = [
        gm_status_t::GM_OK,
        gm_status_t::GM_ERR_NULL,
        gm_status_t::GM_ERR_INVALID_ARGUMENT,
        gm_status_t::GM_ERR_REQUEST,
        gm_status_t::GM_ERR_RESPONSE_PARSE,
        gm_status_t::GM_ERR_TOKEN_PARSE,
        gm_status_t::GM_ERR_JSON,
        gm_status_t::GM_ERR_INTERNAL,
    ];
    for (i, s) in all.iter().enumerate() {
        assert_eq!(s.code(), i as u32);
        assert_eq!(gm_status_t::from_code(i as u32), Some(*s));
    }
    assert_eq!(gm_status_t::from_code(8), None);
}

#[test]
fn error_kinds_map_to_statuses() {
    assert_eq!(status_for_kind(ErrorKind::Request), gm_status_t::GM_ERR_REQUEST);
    assert_eq!(status_for_kind(ErrorKind::ResponseParse), gm_status_t::GM_ERR_RESPONSE_PARSE);
    assert_eq!(status_for_kind(ErrorKind::TokenParse), gm_status_t::GM_ERR_TOKEN_PARSE);
    assert_eq!(status_for_kind(ErrorKind::HeaderValue), gm_status_t::GM_ERR_INTERNAL);
    assert_eq!(status_for_kind(ErrorKind::InvalidUrl), gm_status_t::GM_ERR_INTERNAL);
    assert_eq!(status_for_kind(ErrorKind::Clock), gm_status_t::GM_ERR_INTERNAL);
}

#[test]
fn client_errors_are_recorded_with_their_text() {
    let mut errors = LastError::new();
    assert_eq!(
        status_from_error(&mut errors, ErrorKind::TokenParse, "Failed to parse API token from GuerrillaMail page"),
        gm_status_t::GM_ERR_TOKEN_PARSE
    );
    assert_eq!(last_error_text(&errors), "Failed to parse API token from GuerrillaMail page");

    assert_eq!(
        status_from_error(&mut errors, ErrorKind::ResponseParse, "Unexpected GuerrillaMail response: missing list"),
        gm_status_t::GM_ERR_RESPONSE_PARSE
    );
    assert_eq!(last_error_text(&errors), "Unexpected GuerrillaMail response: missing list");

    assert_eq!(
        status_from_error(&mut errors, ErrorKind::InvalidUrl, "Invalid URL: invalid base_url"),
        gm_status_t::GM_ERR_INTERNAL
    );
    assert_eq!(last_error_text(&errors), "Invalid URL: invalid base_url");
    assert_eq!(status_from_error(&mut errors, ErrorKind::Request, "r"), gm_status_t::GM_ERR_REQUEST);
}

#[test]
fn outcome_passes_success_through_untouched() {
    let mut errors = LastError::new();
    let r: Result<u32, gm_status_t> = outcome(&mut errors, Ok(7));
    assert_eq!(r, Ok(7));
    assert!(errors.message_bytes().is_none());
    let r: Result<u32, gm_status_t> = outcome(&mut errors, Err(token_error()));
    assert_eq!(r, Err(gm_status_t::GM_ERR_TOKEN_PARSE));
    assert_eq!(last_error_text(&errors), "Failed to parse API token from GuerrillaMail page");
}

#[test]
fn last_error_slot_set_and_clear() {
    let mut errors = LastError::new();
    assert!(errors.message_bytes().is_none());
    set_last_error(&mut errors, "boom");
    assert_eq!(errors.message_bytes().unwrap(), &b"boom\0".to_vec());
    clear_last_error(&mut errors);
    assert!(errors.message_bytes().is_none());
    assert_eq!(null_error(&mut errors, "x is null"), gm_status_t::GM_ERR_NULL);
    assert_eq!(last_error_text(&errors), "x is null");
    assert_eq!(invalid_arg(&mut errors, "bad"), gm_status_t::GM_ERR_INVALID_ARGUMENT);
    assert_eq!(last_error_text(&errors), "bad");
}

#[test]
fn panics_are_reported_as_internal_errors() {
    let mut errors = LastError::new();
    assert_eq!(report_panic(&mut errors), gm_status_t::GM_ERR_INTERNAL);
    assert_eq!(last_error_text(&errors), "panic while executing FFI function");

    let mut errors = LastError::new();
    assert_eq!(ffi_call_status(&mut errors, None), gm_status_t::GM_ERR_INTERNAL);
    assert_eq!(last_error_text(&errors), "panic while executing FFI function");
    let mut errors = LastError::new();
    assert_eq!(ffi_call_status(&mut errors, Some(Ok(()))), gm_status_t::GM_OK);
    assert!(errors.message_bytes().is_none());
    assert_eq!(
        ffi_call_status(&mut errors, Some(Err(gm_status_t::GM_ERR_REQUEST))),
        gm_status_t::GM_ERR_REQUEST
    );
}

#[test]
fn builder_defaults() {
    let state = BuilderState::default();
    assert!(state.proxy.is_none());
    assert!(state.danger_accept_invalid_certs);
    assert!(state.user_agent.is_none());
    assert_eq!(state.timeout_ms, 30_000);
    assert!(state.ajax_url.is_none());
    assert!(state.base_url.is_none());
}

#[test]
fn builder_new_requires_out_slot() {
    let mut errors = LastError::new();
    assert_eq!(gm_builder_new(&mut errors, None), gm_status_t::GM_ERR_NULL);
    assert_eq!(last_error_text(&errors), "out_builder is null");
    let mut slot = None;
    assert_eq!(gm_builder_new(&mut errors, Some(&mut slot)), gm_status_t::GM_OK);
    assert!(errors.message_bytes().is_none());
    assert!(slot.is_some());
}

#[test]
fn builder_setters_change_only_their_field() {
    let mut errors = LastError::new();
    let mut builder = gm_builder_t { state: BuilderState::default() };

    let proxy = c_bytes("http://127.0.0.1:8080");
    assert_eq!(gm_builder_set_proxy(&mut errors, Some(&mut builder), Some(&proxy)), gm_status_t::GM_OK);
    assert_eq!(builder.state.proxy.as_deref(), Some("http://127.0.0.1:8080"));

    assert_eq!(gm_builder_set_proxy(&mut errors, Some(&mut builder), None), gm_status_t::GM_OK);
    assert!(builder.state.proxy.is_none());

    assert_eq!(
        gm_builder_set_danger_accept_invalid_certs(&mut errors, Some(&mut builder), false),
        gm_status_t::GM_OK
    );
    assert!(!builder.state.danger_accept_invalid_certs);

    let ua = c_bytes("ffi-test/1.0");
    assert_eq!(gm_builder_set_user_agent(&mut errors, Some(&mut builder), Some(&ua)), gm_status_t::GM_OK);
    assert_eq!(builder.state.user_agent.as_deref(), Some("ffi-test/1.0"));

    assert_eq!(gm_builder_set_timeout_ms(&mut errors, Some(&mut builder), 1500), gm_status_t::GM_OK);
    assert_eq!(builder.state.timeout_ms, 1500);
    assert!(builder.state.proxy.is_none());
    assert!(!builder.state.danger_accept_invalid_certs);
    assert!(errors.message_bytes().is_none());
}

#[test]
fn builder_setters_report_null_and_bad_arguments() {
    let mut errors = LastError::new();
    assert_eq!(gm_builder_set_timeout_ms(&mut errors, None, 10), gm_status_t::GM_ERR_NULL);
    assert_eq!(last_error_text(&errors), "builder is null");
    assert_eq!(gm_builder_set_danger_accept_invalid_certs(&mut errors, None, true), gm_status_t::GM_ERR_NULL);
    assert_eq!(gm_builder_set_proxy(&mut errors, None, None), gm_status_t::GM_ERR_NULL);

    let mut builder = gm_builder_t { state: BuilderState::default() };
    assert_eq!(gm_builder_set_user_agent(&mut errors, Some(&mut builder), None), gm_status_t::GM_ERR_NULL);
    assert_eq!(last_error_text(&errors), "user_agent is null");

    let bad = vec![0xffu8, 0xfe];
    assert_eq!(
        gm_builder_set_proxy(&mut errors, Some(&mut builder), Some(&bad)),
        gm_status_t::GM_ERR_INVALID_ARGUMENT
    );
    assert_eq!(last_error_text(&errors), "proxy is not valid UTF-8");
    assert!(builder.state.proxy.is_none());
    assert_eq!(
        gm_builder_set_user_agent(&mut errors, Some(&mut builder), Some(&bad)),
        gm_status_t::GM_ERR_INVALID_ARGUMENT
    );
    assert_eq!(last_error_text(&errors), "user_agent is not valid UTF-8");
}

#[test]
fn read_required_str_decodes_utf8() {
    let mut errors = LastError::new();
    let bytes = c_bytes("h\u{e9}llo");
    assert_eq!(read_required_str(&mut errors, Some(&bytes), "alias").unwrap(), "h\u{e9}llo");
    assert!(errors.message_bytes().is_none());
    assert_eq!(read_required_str(&mut errors, None, "alias").err(), Some(gm_status_t::GM_ERR_NULL));
    assert_eq!(last_error_text(&errors), "alias is null");
    let bad = vec![b'a', 0xc3];
    assert_eq!(
        read_required_str(&mut errors, Some(&bad), "alias").err(),
        Some(gm_status_t::GM_ERR_INVALID_ARGUMENT)
    );
    assert_eq!(last_error_text(&errors), "alias is not valid UTF-8");
}

#[test]
fn require_present_reports_its_message() {
    let mut errors = LastError::new();
    assert_eq!(require_present(&mut errors, true, "out is null"), Ok(()));
    assert!(errors.message_bytes().is_none());
    assert_eq!(require_present(&mut errors, false, "out is null"), Err(gm_status_t::GM_ERR_NULL));
    assert_eq!(last_error_text(&errors), "out is null");
}

#[test]
fn with_test_urls_keeps_other_settings() {
    let mut state = BuilderState::default();
    state.timeout_ms = 5;
    let state = state.with_test_urls("http://127.0.0.1:1".to_string(), "http://127.0.0.1:1/ajax.php".to_string());
    assert_eq!(state.base_url.as_deref(), Some("http://127.0.0.1:1"));
    assert_eq!(state.ajax_url.as_deref(), Some("http://127.0.0.1:1/ajax.php"));
    assert_eq!(state.timeout_ms, 5);
    assert!(state.danger_accept_invalid_certs);
}

#[test]
fn build_checks_order() {
    let mut errors = LastError::new();
    assert_eq!(check_builder_build(&mut errors, false, None).err(), Some(gm_status_t::GM_ERR_NULL));
    assert_eq!(last_error_text(&errors), "out_client is null");
    assert_eq!(check_builder_build(&mut errors, true, None).err(), Some(gm_status_t::GM_ERR_NULL));
    assert_eq!(last_error_text(&errors), "builder is null");
    let builder = gm_builder_t { state: BuilderState::default() };
    let state = check_builder_build(&mut errors, true, Some(&builder)).unwrap();
    assert_eq!(state.timeout_ms, 30_000);
    assert!(errors.message_bytes().is_none());

    assert_eq!(check_client_new_default(&mut errors, false).err(), Some(gm_status_t::GM_ERR_NULL));
    assert_eq!(last_error_text(&errors), "out_client is null");
    let state = check_client_new_default(&mut errors, true).unwrap();
    assert!(state.danger_accept_invalid_certs);
}

#[test]
fn runtime_and_builder_are_prepared_without_network() {
    let mut errors = LastError::new();
    let runtime = runtime_new(&mut errors).expect("runtime");
    drop(runtime);
    let state = BuilderState::default();
    let (runtime, builder) = prepare_client_build(&mut errors, &state).expect("prepared");
    let shown = format!("{:?}", builder.into_client_builder());
    assert!(shown.contains("danger_accept_invalid_certs: true"));
    assert!(shown.contains("30s"));
    assert!(errors.message_bytes().is_none());
    let failed = build_client_handle(&mut errors, runtime, Err(token_error()));
    assert_eq!(failed.err(), Some(gm_status_t::GM_ERR_TOKEN_PARSE));
    assert_eq!(last_error_text(&errors), "Failed to parse API token from GuerrillaMail page");
}

#[test]
fn client_call_checks_order() {
    let mut errors = LastError::new();
    let email = c_bytes("demoalias@sharklasers.com");
    assert_eq!(check_get_messages(&mut errors, false, None, Some(&email)).err(), Some(gm_status_t::GM_ERR_NULL));
    assert_eq!(last_error_text(&errors), "out_messages is null");
    assert_eq!(check_get_messages(&mut errors, true, None, Some(&email)).err(), Some(gm_status_t::GM_ERR_NULL));
    assert_eq!(last_error_text(&errors), "client is null");
    assert_eq!(check_delete_email(&mut errors, false, None, None).err(), Some(gm_status_t::GM_ERR_NULL));
    assert_eq!(last_error_text(&errors), "out_deleted is null");
    assert_eq!(check_fetch_email(&mut errors, false, None, None, None).err(), Some(gm_status_t::GM_ERR_NULL));
    assert_eq!(last_error_text(&errors), "out_details is null");
    assert_eq!(check_create_email(&mut errors, false, None, None).err(), Some(gm_status_t::GM_ERR_NULL));
    assert_eq!(last_error_text(&errors), "out_email is null");
}

#[test]
fn finishing_client_calls() {
    let mut errors = LastError::new();
    let email = finish_create_email(&mut errors, Ok("demoalias@sharklasers.com".to_string())).unwrap();
    assert_eq!(string_text(&email), "demoalias@sharklasers.com");
    assert_eq!(email.len, 25);
    assert!(errors.message_bytes().is_none());
    assert_eq!(finish_create_email(&mut errors, Err(token_error())).err(), Some(gm_status_t::GM_ERR_TOKEN_PARSE));

    let mut errors = LastError::new();
    let list = finish_get_messages(&mut errors, Ok(vec![message("1"), message("2")])).unwrap();
    assert_eq!(list.len, 2);
    let items = list.items.as_ref().unwrap();
    assert_eq!(string_text(&items[0].mail_id), "1");
    assert_eq!(string_text(&items[1].mail_id), "2");
    assert_eq!(
        finish_get_messages(&mut errors, Err(client_error(ErrorKind::ResponseParse, "x"))).err(),
        Some(gm_status_t::GM_ERR_RESPONSE_PARSE)
    );

    let mut errors = LastError::new();
    let d = finish_fetch_email(&mut errors, Ok(details(Some(1)))).unwrap();
    assert_eq!(string_text(&d.mail_subject), "Subject");
    assert!(d.has_attachment_count);
    assert_eq!(d.attachment_count, 1);

    assert_eq!(finish_delete_email(&mut errors, Ok(())), Ok(true));
    assert_eq!(finish_delete_email(&mut errors, Err(client_error(ErrorKind::InvalidUrl, "u"))), Err(gm_status_t::GM_ERR_INTERNAL));
}

#[test]
fn strings_messages_and_details_convert_and_release() {
    let mut s = into_gm_string("abc".to_string());
    assert_eq!(s.len, 3);
    assert_eq!(s.data.as_ref().unwrap(), &b"abc\0".to_vec());
    free_gm_string(&mut s);
    assert!(s.is_null());
    assert_eq!(s.len, 0);
    free_gm_string(&mut s);
    assert!(s.is_null());

    let empty = into_gm_string(String::new());
    assert_eq!(empty.len, 0);
    assert_eq!(empty.data.as_ref().unwrap(), &vec![0u8]);

    let mut m = into_gm_message(message("9"));
    assert_eq!(string_text(&m.mail_from), "sender@example.com");
    assert_eq!(string_text(&m.mail_excerpt), "Excerpt");
    free_gm_message(&mut m);
    assert!(m.mail_id.is_null() && m.mail_timestamp.is_null());

    let mut list = into_gm_message_list(vec![message("a"), message("b"), message("c")]);
    assert_eq!(list.len, 3);
    assert_eq!(string_text(&list.items.as_ref().unwrap()[2].mail_id), "c");
    gm_message_list_free(Some(&mut list));
    assert!(list.items.is_none());
    assert_eq!(list.len, 0);
    gm_message_list_free(Some(&mut list));
    gm_message_list_free(None);
    let empty_list = gm_message_list_t::default();
    assert!(empty_list.items.is_none());

    let none = into_gm_email_details(details(None));
    assert!(!none.has_attachment_count);
    assert_eq!(none.attachment_count, 0);
    assert_eq!(string_text(&none.mail_body), "<p>Body</p>");

    let mut d = into_gm_email_details(details(Some(4)));
    assert_eq!(d.attachment_count, 4);
    free_gm_email_details_fields(&mut d);
    assert!(d.mail_body.is_null());
    assert!(!d.has_attachment_count);
    assert_eq!(d.attachment_count, 0);

    let mut d = into_gm_email_details(details(Some(2)));
    gm_email_details_free(Some(&mut d));
    assert!(d.mail_id.is_null());
    gm_email_details_free(None);
}

#[test]
fn last_error_accessors() {
    let mut errors = LastError::new();
    assert!(gm_last_error_message(&errors).is_none());
    set_last_error(&mut errors, "client is null");
    assert_eq!(gm_last_error_message(&errors).unwrap(), &b"client is null\0".to_vec());
    gm_last_error_clear(&mut errors);
    assert!(gm_last_error_message(&errors).is_none());
}

#[test]
fn client_builder_carries_the_settings() {
    let mut state = BuilderState::default();
    state.proxy = Some("http://127.0.0.1:8080".to_string());
    state.user_agent = Some("ffi-test/1.0".to_string());
    state.timeout_ms = 1500;
    state.danger_accept_invalid_certs = false;
    let state = state.with_test_urls("http://127.0.0.1:9".to_string(), "http://127.0.0.1:9/ajax.php".to_string());
    let shown = format!("{:?}", state.to_client_builder().into_client_builder());
    assert!(shown.contains("http://127.0.0.1:8080"));
    assert!(shown.contains("ffi-test/1.0"));
    assert!(shown.contains("1.5s"));
    assert!(shown.contains("danger_accept_invalid_certs: false"));
    assert!(shown.contains("http://127.0.0.1:9/ajax.php"));
    assert!(shown.contains("base_url: \"http://127.0.0.1:9\""));

    let defaults = format!("{:?}", BuilderState::default().to_client_builder().into_client_builder());
    assert!(defaults.contains("proxy: None"));
    assert!(defaults.contains("Firefox/131.0"));
    assert!(defaults.contains("https://www.guerrillamail.com/ajax.php"));
}

#[test]
fn runtime_failures_are_recorded_with_their_text() {
    let mut errors = LastError::new();
    let failed = runtime_outcome(&mut errors, Err(std::io::Error::new(std::io::ErrorKind::Other, "no threads")));
    assert_eq!(failed.err(), Some(gm_status_t::GM_ERR_INTERNAL));
    assert_eq!(last_error_text(&errors), "failed to create Tokio runtime: no threads");
}

#[test]
fn runtime_runs_blocking_calls() {
    let mut errors = LastError::new();
    let runtime = runtime_new(&mut errors).expect("runtime");
    assert_eq!(runtime.runtime().block_on(async { 6 * 7 }), 42);
    assert!(errors.message_bytes().is_none());
}
