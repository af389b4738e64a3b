use kilocode::errors::ClientError;
use kilocode::response::{extract_completion, parse_chat_response};

#[test]
fn success_body_gives_first_choice_content() {
    let body = "{\"choices\":[{\"message\":{\"role\":\"assistant\",\"content\":\"hi\"}}]}";
    assert_eq!(extract_completion(200, body), Ok("hi".to_string()));
}

#[test]
fn error_member_wins_even_under_success_status() {
    let body = "{\"error\":{\"message\":\"rate limited\"}}";
    match extract_completion(200, body) {
        Err(ClientError::Api { status, message }) => {
            assert_eq!(status, 200);
            assert_eq!(message, "rate limited");
        },
        other => panic!("expected an API error, got {:?}", other.is_ok()),
    }
}

#[test]
fn failing_status_carries_the_raw_body() {
    match extract_completion(503, "upstream down") {
        Err(ClientError::Api { status, message }) => {
            assert_eq!(status, 503);
            assert_eq!(message, "upstream down");
            let text = ClientError::Api { status, message }.message();
            assert_eq!(text, "API error (503): upstream down");
        },
        _ => panic!("expected an API error"),
    }
}

#[test]
fn malformed_body_is_a_parse_error() {
    assert!(matches!(extract_completion(200, "not json"), Err(ClientError::ResponseParse)));
    assert!(matches!(extract_completion(200, "{\"choices\":["), Err(ClientError::ResponseParse)));
    assert!(matches!(
        extract_completion(200, "{\"choices\":[{\"message\":{\"role\":\"assistant\"}}]}"),
        Err(ClientError::ResponseParse)
    ));
    assert!(matches!(extract_completion(200, "{} trailing"), Err(ClientError::ResponseParse)));
}

#[test]
fn empty_choices_is_an_empty_response() {
    assert!(matches!(
        extract_completion(200, "{\"choices\":[]}"),
        Err(ClientError::EmptyResponse)
    ));
    assert!(matches!(extract_completion(200, "{}"), Err(ClientError::EmptyResponse)));
    assert_eq!(ClientError::EmptyResponse.message(), "No response from API");
}

#[test]
fn unknown_members_are_skipped() {
    let body = "{\"id\":\"x-1\",\"object\":\"chat.completion\",\"created\":1700000000,\
        \"usage\":{\"total_tokens\":12,\"details\":[1,2.5,-3e2,true,false,null]},\
        \"choices\":[{\"index\":0,\"message\":{\"role\":\"assistant\",\"content\":\"hi\"},\
        \"finish_reason\":\"stop\"}]}";
    assert_eq!(extract_completion(200, body), Ok("hi".to_string()));
}

#[test]
fn whitespace_is_tolerated() {
    let body = "  { \"choices\" : [ { \"message\" : { \"role\" : \"assistant\" , \"content\" : \"hi\" } } ] }  ";
    assert_eq!(extract_completion(200, body), Ok("hi".to_string()));
}

#[test]
fn string_escapes_are_decoded() {
    let body = "{\"choices\":[{\"message\":{\"role\":\"assistant\",\
        \"content\":\"line\\none \\\"q\\\" \\u0041 \\uD83D\\uDE00 \\\\ \\/ \\t\"}}]}";
    assert_eq!(
        extract_completion(200, body),
        Ok("line\none \"q\" A \u{1F600} \\ / \t".to_string())
    );
}

#[test]
fn lone_surrogate_is_rejected() {
    let body = "{\"choices\":[{\"message\":{\"role\":\"assistant\",\"content\":\"\\uD83D\"}}]}";
    assert!(matches!(extract_completion(200, body), Err(ClientError::ResponseParse)));
}

#[test]
fn first_occurrence_of_a_key_wins() {
    let body = "{\"choices\":[{\"message\":{\"role\":\"assistant\",\"content\":\"first\"}}],\
        \"choices\":[{\"message\":{\"role\":\"assistant\",\"content\":\"second\"}}]}";
    assert_eq!(extract_completion(200, body), Ok("first".to_string()));
}

#[test]
fn parsed_response_keeps_all_choices() {
    let body = "{\"choices\":[\
        {\"message\":{\"role\":\"assistant\",\"content\":\"a\"}},\
        {\"message\":{\"role\":\"assistant\",\"content\":\"b\"}}]}";
    let resp = parse_chat_response(body).unwrap();
    assert_eq!(resp.choices.len(), 2);
    assert_eq!(resp.choices[0].message.content, "a");
    assert_eq!(resp.choices[1].message.content, "b");
    assert_eq!(resp.choices[0].message.role, "assistant");
    assert!(resp.error.is_none());
}

#[test]
fn error_object_must_carry_a_message() {
    assert!(parse_chat_response("{\"error\":{}}").is_none());
    let resp = parse_chat_response("{\"error\":{\"code\":429,\"message\":\"slow down\"}}").unwrap();
    assert_eq!(resp.error.unwrap().message, "slow down");
}

#[test]
fn transport_and_credential_messages() {
    let e = ClientError::Transport { message: "timed out".to_string() };
    assert_eq!(e.message(), "API request failed: timed out");
    let e = ClientError::MissingCredential { key: "kilocode.api_key".to_string() };
    assert_eq!(
        e.message(),
        "API key not configured. Please set 'kilocode.api_key' in Zed settings."
    );
    assert_eq!(ClientError::InputTooLarge.message(), "Input too large (max 100,000 characters)");
    assert_eq!(ClientError::ResponseParse.message(), "Failed to parse API response");
}
