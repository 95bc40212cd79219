use llm_client::api::{Chat, GeminiClient, OpenAIClient};
use llm_client::json::to_text;

#[test]
fn openai_request_url_and_headers() {
    let client = OpenAIClient::new(String::from("abc"), None, None);
    let request = client.chat_request(String::from("ping"));
    assert_eq!(request.url, "https://api.openai.com/v1/chat/completions");
    assert_eq!(request.content_type, "application/json");
    assert_eq!(request.authorization, "Bearer abc");
}

#[test]
fn gemini_request_no_auth_header_key_in_url() {
    let client = GeminiClient::new(String::from("abc"), None, None);
    let request = client.chat_request(String::from("ping"));
    assert_eq!(
        request.url,
        "https://generativelanguage.googleapis.com/v1beta/models/gpt-4o:generateContent?key=abc"
    );
    assert_eq!(request.authorization, "");
    assert_eq!(request.content_type, "application/json");
}

#[test]
fn openai_body_matches_schema() {
    let client = OpenAIClient::new(String::from("abc"), None, None);
    let request = client.chat_request(String::from("ping"));
    assert_eq!(
        to_text(&request.json_body),
        "{\"model\":\"gpt-4o\",\"messages\":[\
         {\"role\":\"system\",\"content\":\"You are a helpful assistant.\"},\
         {\"role\":\"user\",\"content\":\"ping\"}],\"store\":false}"
    );
}

#[test]
fn gemini_body_matches_schema() {
    let client = GeminiClient::new(String::from("abc"), None, None);
    let request = client.chat_request(String::from("hi"));
    assert_eq!(
        to_text(&request.json_body),
        "{\"contents\":[{\"parts\":[{\"text\":\"hi\"}]}]}"
    );
}

#[test]
fn user_message_lands_in_messages_1_content() {
    let client = OpenAIClient::new(String::from("abc"), None, None);
    let request = client.chat_request(String::from("what is up?"));
    let body = to_text(&request.json_body);
    let value: serde_json::Value = serde_json::from_str(&body).unwrap();
    assert_eq!(value["messages"][1]["content"].as_str(), Some("what is up?"));
    assert_eq!(value["messages"][0]["role"].as_str(), Some("system"));
    assert_eq!(value["model"].as_str(), Some("gpt-4o"));
    assert_eq!(value["store"].as_bool(), Some(false));
}

#[test]
fn chosen_model_and_prompt_are_used() {
    let client = OpenAIClient::new(
        String::from("t"),
        Some(String::from("gpt-4o-mini")),
        Some(String::from("Answer briefly.")),
    );
    let request = client.chat_request(String::from("hi"));
    let body = to_text(&request.json_body);
    let value: serde_json::Value = serde_json::from_str(&body).unwrap();
    assert_eq!(value["model"].as_str(), Some("gpt-4o-mini"));
    assert_eq!(value["messages"][0]["content"].as_str(), Some("Answer briefly."));
}

#[test]
fn message_with_quotes_and_newlines_survives_escaping() {
    let message = "a \"quoted\" line\nand a tab\there \\ done";
    let client = OpenAIClient::new(String::from("t"), None, None);
    let request = client.chat_request(String::from(message));
    let body = to_text(&request.json_body);
    let value: serde_json::Value = serde_json::from_str(&body).unwrap();
    assert_eq!(value["messages"][1]["content"].as_str(), Some(message));
}
