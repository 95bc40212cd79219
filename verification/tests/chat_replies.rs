use llm_client::api::{extract_chat_reply, Chat, GeminiClient, OpenAIClient};
use llm_client::ChatError;

#[test]
fn extractor_returns_content() {
    let reply = extract_chat_reply("{\"choices\":[{\"message\":{\"content\":\"hello\"}}]}");
    assert_eq!(reply, Ok(String::from("hello")));
}

#[test]
fn extractor_sentinel_on_empty_object() {
    let reply = extract_chat_reply("{}");
    assert_eq!(reply, Ok(String::from("No content found")));
}

#[test]
fn extractor_sentinel_on_wrong_shapes() {
    assert_eq!(
        extract_chat_reply("{\"choices\":[]}"),
        Ok(String::from("No content found"))
    );
    assert_eq!(
        extract_chat_reply("{\"choices\":[{\"message\":{}}]}"),
        Ok(String::from("No content found"))
    );
    assert_eq!(
        extract_chat_reply("{\"choices\":[{\"message\":{\"content\":5}}]}"),
        Ok(String::from("No content found"))
    );
    assert_eq!(
        extract_chat_reply("[1,2,3]"),
        Ok(String::from("No content found"))
    );
}

#[test]
fn parse_error_is_fatal_not_sentinel() {
    let reply = extract_chat_reply("not json at all");
    assert_eq!(reply, Err(ChatError::ParseFailed));
}

#[test]
fn gemini_reply_walks_the_same_path() {
    let client = GeminiClient::new(String::from("k"), None, None);
    let reply = client.chat_reply("{\"choices\":[{\"message\":{\"content\":\"hi\"}}]}");
    assert_eq!(reply, Ok(String::from("hi")));
}

#[test]
fn end_to_end_mocked_transport() {
    let client = OpenAIClient::new(String::from("abc"), None, None);
    let request = client.chat_request(String::from("ping"));
    assert_eq!(request.url, "https://api.openai.com/v1/chat/completions");
    let body = llm_client::json::to_text(&request.json_body);
    let value: serde_json::Value = serde_json::from_str(&body).unwrap();
    assert_eq!(value["messages"][1]["content"].as_str(), Some("ping"));
    assert_eq!(value["store"].as_bool(), Some(false));
    let mocked_response = "{\"choices\":[{\"message\":{\"content\":\"hello\"}}]}";
    let output = client.chat_reply(mocked_response).unwrap();
    assert_eq!(output, "hello");
}

#[test]
fn error_messages_match_diagnostics() {
    assert_eq!(ChatError::NoResponse.message(), "No response");
    assert_eq!(ChatError::UnreadableBody.message(), "Failed to read response text");
    assert_eq!(ChatError::ParseFailed.message(), "Failed to parse JSON");
    assert_eq!(ChatError::MissingCredential.message(), "OPENAI_API_KEY must be set");
}
