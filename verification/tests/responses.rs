use slippi_game_reporter::response::{
    interpret_response, interpret_terminal_response, SubmitOutcome,
};

#[test]
fn malformed_body_is_a_decode_error() {
    assert!(matches!(
        interpret_response("not json at all"),
        SubmitOutcome::DecodeError
    ));
}

#[test]
fn missing_data_field_is_a_decode_error() {
    assert!(matches!(
        interpret_response("{\"something\":1}"),
        SubmitOutcome::DecodeError
    ));
}

#[test]
fn missing_success_flag_is_a_decode_error() {
    assert!(matches!(
        interpret_response("{\"data\":{\"reportOnlineGame\":{}}}"),
        SubmitOutcome::DecodeError
    ));
}

#[test]
fn non_empty_error_array_is_a_graphql_error() {
    let body = "{\"errors\":[{\"message\":\"bad\"}],\"data\":null}";
    assert!(matches!(
        interpret_response(body),
        SubmitOutcome::GraphqlError
    ));
}

#[test]
fn empty_error_array_is_not_an_error() {
    let body =
        "{\"errors\":[],\"data\":{\"reportOnlineGame\":{\"success\":true,\"uploadUrl\":null}}}";
    match interpret_response(body) {
        SubmitOutcome::Success { upload_url } => assert!(upload_url.is_none()),
        other => panic!("expected success, got {:?}", other),
    }
}

#[test]
fn false_success_flag_is_a_semantic_failure() {
    let body = "{\"data\":{\"reportOnlineGame\":{\"success\":false}}}";
    assert!(matches!(
        interpret_response(body),
        SubmitOutcome::NotSuccessful
    ));
}

#[test]
fn success_with_url_carries_the_url() {
    let body = "{\"data\":{\"reportOnlineGame\":{\"success\":true,\"uploadUrl\":\"https://x/y\"}}}";
    match interpret_response(body) {
        SubmitOutcome::Success { upload_url } => {
            assert_eq!(upload_url.as_deref(), Some("https://x/y"))
        },
        other => panic!("expected success, got {:?}", other),
    }
}

#[test]
fn success_without_url_field_carries_none() {
    let body = "{\"data\":{\"reportOnlineGame\":{\"success\":true}}}";
    match interpret_response(body) {
        SubmitOutcome::Success { upload_url } => assert!(upload_url.is_none()),
        other => panic!("expected success, got {:?}", other),
    }
}

#[test]
fn terminal_response_reads_the_named_field() {
    let body = "{\"data\":{\"completeOnlineGame\":true}}";
    assert!(interpret_terminal_response(body, "completeOnlineGame"));
    assert!(!interpret_terminal_response(body, "abandonOnlineGame"));
    assert!(!interpret_terminal_response("garbage", "completeOnlineGame"));
    let body = "{\"data\":{\"abandonOnlineGame\":false}}";
    assert!(!interpret_terminal_response(body, "abandonOnlineGame"));
}
