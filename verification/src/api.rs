//! The chat clients: request building and reply extraction.
//!
//! A client holds the provider's fixed identity (URL, model, system prompt,
//! token). [`Chat::chat_request`] turns a user message into the full request
//! description; [`Chat::chat_reply`] turns the raw response body into the
//! reply text. Sending the request is the caller's business.

use vstd::prelude::*;
use crate::json::{Json, obj_get, obj_lookup};
use crate::parse::{parse_json, spec_parse};
use crate::ChatError;

verus! {

/// The provider identity shared by the client variants: credential, system
/// prompt and model name.
pub struct ChatClient {
    pub token: String,
    pub system_prompt: String,
    pub model: String,
}

/// A client for an OpenAI-compatible chat-completion service.
pub struct OpenAIClient {
    pub url: String,
    pub store: bool,
    pub client: ChatClient,
}

/// A client for a Gemini-compatible chat service. Its reply extraction
/// deliberately walks the same OpenAI-shaped field path as [`OpenAIClient`],
/// as the service's actual response shape is not handled yet.
pub struct GeminiClient {
    pub url: String,
    pub store: bool,
    pub client: ChatClient,
}

/// The full description of one chat request, ready to send: where to POST,
/// the content type, the authorization header value (empty when the
/// credential travels in the URL instead), and the JSON body.
#[derive(Debug)]
pub struct APICall {
    pub url: String,
    pub content_type: String,
    pub authorization: String,
    pub json_body: Json,
}

/// One `{"role": ..., "content": ...}` entry of an OpenAI request body.
pub open spec fn message_shape(j: Json, role: Seq<char>, content: Seq<char>) -> bool {
    &&& j matches Json::Obj(f)
    &&& f@.len() == 2
    &&& f@[0].0@ == "role"@
    &&& f@[0].1 matches Json::Str(r)
    &&& r@ == role
    &&& f@[1].0@ == "content"@
    &&& f@[1].1 matches Json::Str(c)
    &&& c@ == content
}

/// The OpenAI request body: model, a system message followed by the user
/// message, and the store flag.
pub open spec fn openai_body_shape(
    j: Json,
    model: Seq<char>,
    system_prompt: Seq<char>,
    message: Seq<char>,
    store: bool,
) -> bool {
    &&& j matches Json::Obj(top)
    &&& top@.len() == 3
    &&& top@[0].0@ == "model"@
    &&& top@[0].1 matches Json::Str(m)
    &&& m@ == model
    &&& top@[1].0@ == "messages"@
    &&& top@[1].1 matches Json::Arr(msgs)
    &&& msgs@.len() == 2
    &&& message_shape(msgs@[0], "system"@, system_prompt)
    &&& message_shape(msgs@[1], "user"@, message)
    &&& top@[2].0@ == "store"@
    &&& top@[2].1 == Json::Bool(store)
}

/// The Gemini request body: one content with one part holding the message.
pub open spec fn gemini_body_shape(j: Json, message: Seq<char>) -> bool {
    &&& j matches Json::Obj(top)
    &&& top@.len() == 1
    &&& top@[0].0@ == "contents"@
    &&& top@[0].1 matches Json::Arr(contents)
    &&& contents@.len() == 1
    &&& contents@[0] matches Json::Obj(c)
    &&& c@.len() == 1
    &&& c@[0].0@ == "parts"@
    &&& c@[0].1 matches Json::Arr(parts)
    &&& parts@.len() == 1
    &&& parts@[0] matches Json::Obj(p)
    &&& p@.len() == 1
    &&& p@[0].0@ == "text"@
    &&& p@[0].1 matches Json::Str(t)
    &&& t@ == message
}

/// The reply text inside a response, if any: the string under
/// `choices[0].message.content`.
pub open spec fn content_of(j: Json) -> Option<Seq<char>> {
    match j {
        Json::Obj(top) => match obj_get(top@, "choices"@) {
            Option::Some(Json::Arr(choices)) => if choices@.len() > 0 {
                match choices@[0] {
                    Json::Obj(choice) => match obj_get(choice@, "message"@) {
                        Option::Some(Json::Obj(msg)) => match obj_get(msg@, "content"@) {
                            Option::Some(Json::Str(s)) => Option::Some(s@),
                            _ => Option::None,
                        },
                        _ => Option::None,
                    },
                    _ => Option::None,
                }
            } else {
                Option::None
            },
            _ => Option::None,
        },
        _ => Option::None,
    }
}

/// What the extractor hands back for a parsed response: the reply text, or
/// the sentinel where the response holds none at the expected path.
pub open spec fn reply_of(j: Json) -> Seq<char> {
    match content_of(j) {
        Option::Some(s) => s,
        Option::None => "No content found"@,
    }
}

/// What the whole reply pipeline owes for a response body: the extracted
/// reply of the parsed body, or a parse failure where the body is not JSON.
pub open spec fn reply_outcome(body: Seq<char>, r: Result<String, ChatError>) -> bool {
    match spec_parse(body) {
        Option::Some(j) => r matches Ok(s) && s@ == reply_of(j),
        Option::None => r == Result::<String, ChatError>::Err(ChatError::ParseFailed),
    }
}

/// The string under `choices[0].message.content`, if the value has one
/// there.
fn content_lookup<'a>(j: &'a Json) -> (r: Option<&'a String>)
    ensures
        match r {
            Option::Some(s) => content_of(*j) == Option::Some(s@),
            Option::None => content_of(*j) is None,
        },
{
    let key_choices = String::from_str("choices");
    let key_message = String::from_str("message");
    let key_content = String::from_str("content");
    if let Json::Obj(top) = j {
        if let Some(Json::Arr(choices)) = obj_lookup(top, &key_choices) {
            if choices.len() > 0 {
                if let Json::Obj(choice) = &choices[0] {
                    if let Some(Json::Obj(msg)) = obj_lookup(choice, &key_message) {
                        if let Some(Json::Str(s)) = obj_lookup(msg, &key_content) {
                            return Some(s);
                        }
                    }
                }
            }
        }
    }
    None
}

/// The reply text of a parsed response, or the sentinel where the response
/// holds none at the expected path.
pub fn extract_reply(j: &Json) -> (r: String)
    ensures
        r@ == reply_of(*j),
{
    match content_lookup(j) {
        Some(s) => s.clone(),
        None => String::from_str("No content found"),
    }
}

/// Parses a response body and extracts the reply: the one recovered failure
/// is a missing reply field, which yields the sentinel text; a body that is
/// not JSON is a fatal parse error.
pub fn extract_chat_reply(body: &str) -> (r: Result<String, ChatError>)
    ensures
        reply_outcome(body@, r),
{
    match parse_json(body) {
        Some(j) => Ok(extract_reply(&j)),
        None => Err(ChatError::ParseFailed),
    }
}

/// The one capability a provider variant offers: produce the request for a
/// message, and extract the reply from a response body.
pub trait Chat {
    /// The URL the request is sent to.
    spec fn spec_url(&self) -> Seq<char>;

    /// The authorization header value; empty when the credential travels in
    /// the URL instead.
    spec fn spec_auth(&self) -> Seq<char>;

    /// The shape the request body has for a message.
    spec fn body_shape(&self, body: Json, message: Seq<char>) -> bool;

    /// The full request description for one user message.
    fn chat_request(&self, message: String) -> (r: APICall)
        ensures
            r.url@ == self.spec_url(),
            r.content_type@ == "application/json"@,
            r.authorization@ == self.spec_auth(),
            self.body_shape(r.json_body, message@),
    ;

    /// The reply carried by a raw response body.
    fn chat_reply(&self, body: &str) -> (r: Result<String, ChatError>)
        ensures
            reply_outcome(body@, r),
    ;
}

impl OpenAIClient {
    /// A client for the OpenAI chat-completion endpoint; the model and the
    /// system prompt fall back to fixed defaults.
    pub fn new(token: String, model: Option<String>, system_prompt: Option<String>) -> (r:
        OpenAIClient)
        ensures
            r.url@ == "https://api.openai.com/v1/chat/"@,
            r.store == false,
            r.client.token == token,
            r.client.system_prompt@ == match system_prompt {
                Option::Some(s) => s@,
                Option::None => "You are a helpful assistant."@,
            },
            r.client.model@ == match model {
                Option::Some(m) => m@,
                Option::None => "gpt-4o"@,
            },
    {
        OpenAIClient {
            url: String::from_str("https://api.openai.com/v1/chat/"),
            store: false,
            client: ChatClient {
                token,
                system_prompt: match system_prompt {
                    Some(s) => s,
                    None => String::from_str("You are a helpful assistant."),
                },
                model: match model {
                    Some(m) => m,
                    None => String::from_str("gpt-4o"),
                },
            },
        }
    }
}

impl GeminiClient {
    /// A client for the Gemini endpoint; the model and the system prompt
    /// fall back to the same fixed defaults as the OpenAI variant.
    pub fn new(token: String, model: Option<String>, system_prompt: Option<String>) -> (r:
        GeminiClient)
        ensures
            r.url@ == "https://generativelanguage.googleapis.com/v1beta/"@,
            r.store == false,
            r.client.token == token,
            r.client.system_prompt@ == match system_prompt {
                Option::Some(s) => s@,
                Option::None => "You are a helpful assistant."@,
            },
            r.client.model@ == match model {
                Option::Some(m) => m@,
                Option::None => "gpt-4o"@,
            },
    {
        GeminiClient {
            url: String::from_str("https://generativelanguage.googleapis.com/v1beta/"),
            store: false,
            client: ChatClient {
                token,
                system_prompt: match system_prompt {
                    Some(s) => s,
                    None => String::from_str("You are a helpful assistant."),
                },
                model: match model {
                    Some(m) => m,
                    None => String::from_str("gpt-4o"),
                },
            },
        }
    }

    /// Builds the Gemini request body for a message.
    fn gemini_body(&self, message: &str) -> (j: Json)
        ensures
            gemini_body_shape(j, message@),
    {
        let mut part: Vec<(String, Json)> = Vec::new();
        part.push((String::from_str("text"), Json::Str(String::from_str(message))));
        let mut parts: Vec<Json> = Vec::new();
        parts.push(Json::Obj(part));
        let mut content: Vec<(String, Json)> = Vec::new();
        content.push((String::from_str("parts"), Json::Arr(parts)));
        let mut contents: Vec<Json> = Vec::new();
        contents.push(Json::Obj(content));
        let mut top: Vec<(String, Json)> = Vec::new();
        top.push((String::from_str("contents"), Json::Arr(contents)));
        Json::Obj(top)
    }
}

impl OpenAIClient {
    /// Builds one `{"role": ..., "content": ...}` message object.
    fn message_obj(role: &str, content: &str) -> (j: Json)
        ensures
            message_shape(j, role@, content@),
    {
        let mut f: Vec<(String, Json)> = Vec::new();
        f.push((String::from_str("role"), Json::Str(String::from_str(role))));
        f.push((String::from_str("content"), Json::Str(String::from_str(content))));
        Json::Obj(f)
    }

    /// Builds the OpenAI request body for a message.
    fn openai_body(&self, message: &str) -> (j: Json)
        ensures
            openai_body_shape(
                j,
                self.client.model@,
                self.client.system_prompt@,
                message@,
                self.store,
            ),
    {
        let mut msgs: Vec<Json> = Vec::new();
        msgs.push(Self::message_obj("system", self.client.system_prompt.as_str()));
        msgs.push(Self::message_obj("user", message));
        let mut top: Vec<(String, Json)> = Vec::new();
        top.push((String::from_str("model"), Json::Str(self.client.model.clone())));
        top.push((String::from_str("messages"), Json::Arr(msgs)));
        top.push((String::from_str("store"), Json::Bool(self.store)));
        Json::Obj(top)
    }
}

impl Chat for OpenAIClient {
    /// The completions endpoint under the configured base URL.
    open spec fn spec_url(&self) -> Seq<char> {
        self.url@ + "completions"@
    }

    /// A bearer token.
    open spec fn spec_auth(&self) -> Seq<char> {
        "Bearer "@ + self.client.token@
    }

    open spec fn body_shape(&self, body: Json, message: Seq<char>) -> bool {
        openai_body_shape(body, self.client.model@, self.client.system_prompt@, message, self.store)
    }

    fn chat_request(&self, message: String) -> (r: APICall) {
        APICall {
            url: self.url.clone().concat("completions"),
            content_type: String::from_str("application/json"),
            authorization: String::from_str("Bearer ").concat(self.client.token.as_str()),
            json_body: self.openai_body(message.as_str()),
        }
    }

    fn chat_reply(&self, body: &str) -> (r: Result<String, ChatError>) {
        extract_chat_reply(body)
    }
}

impl Chat for GeminiClient {
    /// The per-model generateContent endpoint, with the credential as a
    /// query parameter.
    open spec fn spec_url(&self) -> Seq<char> {
        self.url@ + "models/"@ + self.client.model@ + ":generateContent?key="@ + self.client.token@
    }

    /// Empty: the credential travels in the URL.
    open spec fn spec_auth(&self) -> Seq<char> {
        Seq::empty()
    }

    open spec fn body_shape(&self, body: Json, message: Seq<char>) -> bool {
        gemini_body_shape(body, message)
    }

    fn chat_request(&self, message: String) -> (r: APICall) {
        APICall {
            url: self.url.clone().concat("models/").concat(self.client.model.as_str()).concat(
                ":generateContent?key=",
            ).concat(self.client.token.as_str()),
            content_type: String::from_str("application/json"),
            authorization: String::new(),
            json_body: self.gemini_body(message.as_str()),
        }
    }

    fn chat_reply(&self, body: &str) -> (r: Result<String, ChatError>) {
        extract_chat_reply(body)
    }
}

/// For every model, system prompt, user message and store flag, the OpenAI
/// request body carries the user message as the `content` of the second
/// entry under `messages`.
pub proof fn lemma_user_message_in_body(
    j: Json,
    model: Seq<char>,
    system_prompt: Seq<char>,
    message: Seq<char>,
    store: bool,
)
    requires
        openai_body_shape(j, model, system_prompt, message, store),
    ensures
        j matches Json::Obj(top) && (obj_get(top@, "messages"@) matches Option::Some(m)
            && m matches Json::Arr(msgs) && msgs@.len() == 2 && (msgs@[1] matches Json::Obj(user)
            && (obj_get(user@, "content"@) matches Option::Some(c) && c matches Json::Str(s) && s@
            == message))),
{
    reveal_strlit("model");
    reveal_strlit("messages");
    reveal_strlit("role");
    reveal_strlit("content");
    let top = j->Obj_0;
    assert(obj_get(top@, "messages"@) == Option::Some(top@[1].1)) by {
        assert("model"@.len() == 5);
        assert("messages"@.len() == 8);
        assert(top@[0].0@ != "messages"@);
        assert(obj_get(top@, "messages"@) == obj_get(top@.drop_first(), "messages"@));
        assert(top@.drop_first()[0] == top@[1]);
        assert(obj_get(top@.drop_first(), "messages"@) == Option::Some(top@.drop_first()[0].1));
    }
    let user = (top@[1].1->Arr_0)@[1]->Obj_0;
    assert(obj_get(user@, "content"@) == Option::Some(user@[1].1)) by {
        assert("role"@.len() == 4);
        assert("content"@.len() == 7);
        assert(user@[0].0@ != "content"@);
        assert(obj_get(user@, "content"@) == obj_get(user@.drop_first(), "content"@));
        assert(user@.drop_first()[0] == user@[1]);
        assert(obj_get(user@.drop_first(), "content"@) == Option::Some(user@.drop_first()[0].1));
    }
}

/// For every token, the OpenAI authorization header value is exactly
/// `"Bearer "` followed by the token.
pub proof fn lemma_openai_bearer_auth(c: OpenAIClient)
    ensures
        c.spec_auth() == "Bearer "@ + c.client.token@,
{
}

/// The Gemini variant sends no authorization header: its value is empty,
/// and the credential stands in the URL query string instead.
pub proof fn lemma_gemini_auth_absent(c: GeminiClient)
    ensures
        c.spec_auth() == Seq::<char>::empty(),
        c.spec_url() == c.url@ + "models/"@ + c.client.model@ + ":generateContent?key="@
            + c.client.token@,
{
}

} // verus!
