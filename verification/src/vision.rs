//! The captioning service: what is asked of it for one image, and what its
//! answer means.

use crate::config::Config;
use crate::json::{decoded, Json, JsonView};
use crate::markup::{dedent, dedented, strip_tags, tags_stripped, MARKUP_LIMIT};
use crate::reply::{is_success, success, Reply, ReplyView};
use crate::text::{decimal, decimal_text};
use vstd::prelude::*;
use vstd::string::StringExecFns;

verus! {

/// Where captions are asked for.
pub const ENDPOINT: &'static str = "https://api.openai.com/v1/chat/completions";

/// The prompt up to the language code.
pub const PROMPT_HEAD: &'static str =
    "Please describe this image to visually impaired user.\n        Please be as descriptive as possible, but keep it relatively short.\n        You must write description in language with following two letter code: '";

/// The prompt between the language code and the context.
pub const PROMPT_MIDDLE: &'static str = "'\n        Use following context of message if needed: '";

/// The end of the prompt.
pub const PROMPT_TAIL: &'static str = "'";

/// Why one attempt to caption an image gave no caption.
#[derive(Debug, PartialEq, Eq)]
pub enum CaptionError {
    /// The service was not reached.
    Transport,
    /// The service answered with a status that does not stand for success.
    Status(u16),
    /// The answer is no JSON text, or holds neither a caption nor an error.
    Malformed,
    /// The service answered with an error of its own, held here.
    Remote(Json),
}

/// What a `CaptionError` holds.
pub enum CaptionErrorView {
    Transport,
    Status(u16),
    Malformed,
    Remote(JsonView),
}

impl View for CaptionError {
    type V = CaptionErrorView;

    open spec fn view(&self) -> CaptionErrorView {
        match self {
            CaptionError::Transport => CaptionErrorView::Transport,
            CaptionError::Status(code) => CaptionErrorView::Status(*code),
            CaptionError::Malformed => CaptionErrorView::Malformed,
            CaptionError::Remote(e) => CaptionErrorView::Remote(e@),
        }
    }
}

/// One request for a caption.
#[derive(Debug, PartialEq, Eq)]
pub struct CaptionRequest {
    /// Where the request goes.
    pub endpoint: String,
    /// The value of its `Authorization` header.
    pub authorization: String,
    /// Its body.
    pub body: Json,
}

/// What a `CaptionRequest` holds.
pub struct CaptionRequestView {
    pub endpoint: Seq<char>,
    pub authorization: Seq<char>,
    pub body: JsonView,
}

impl View for CaptionRequest {
    type V = CaptionRequestView;

    open spec fn view(&self) -> CaptionRequestView {
        CaptionRequestView {
            endpoint: self.endpoint@,
            authorization: self.authorization@,
            body: self.body@,
        }
    }
}

/// The fixed words of the prompt around the language code and the context.
pub open spec fn prompt_around(lang_code: Seq<char>, plain_context: Seq<char>) -> Seq<char> {
    PROMPT_HEAD@ + lang_code + PROMPT_MIDDLE@ + plain_context + PROMPT_TAIL@
}

/// The prompt that goes with an image: the fixed words around the language
/// code and the context without its markup, the whole without the
/// indentation that all its lines share.
pub open spec fn prompt_text(lang_code: Seq<char>, context: Seq<char>) -> Seq<char> {
    dedented(prompt_around(lang_code, tags_stripped(context)))
}

/// The image part of a message.
pub open spec fn image_part(image_url: Seq<char>) -> JsonView {
    JsonView::Object(
        seq![
            ("type"@, JsonView::Text("image_url"@)),
            ("image_url"@, JsonView::Object(seq![("url"@, JsonView::Text(image_url))])),
        ],
    )
}

/// The text part of a message.
pub open spec fn text_part(prompt: Seq<char>) -> JsonView {
    JsonView::Object(seq![("type"@, JsonView::Text("text"@)), ("text"@, JsonView::Text(prompt))])
}

/// The one message of a request: the prompt and the image, from the user.
pub open spec fn user_message(prompt: Seq<char>, image_url: Seq<char>) -> JsonView {
    JsonView::Object(
        seq![
            ("role"@, JsonView::Text("user"@)),
            ("content"@, JsonView::Array(seq![text_part(prompt), image_part(image_url)])),
        ],
    )
}

/// The body of a request.
pub open spec fn request_document(
    model: Seq<char>,
    max_tokens: usize,
    prompt: Seq<char>,
    image_url: Seq<char>,
) -> JsonView {
    JsonView::Object(
        seq![
            ("model"@, JsonView::Text(model)),
            ("messages"@, JsonView::Array(seq![user_message(prompt, image_url)])),
            ("max_tokens"@, JsonView::Number(decimal(max_tokens as nat))),
        ],
    )
}

/// The caption in an answer: the text at `choices[0].message.content`.
pub open spec fn first_choice(doc: JsonView) -> Option<Seq<char>> {
    match doc.field("choices"@) {
        Some(JsonView::Array(choices)) => if choices.len() > 0 {
            match choices[0].field("message"@) {
                Some(message) => message.text_field("content"@),
                None => None,
            }
        } else {
            None
        },
        _ => None,
    }
}

/// What a decoded answer means: its caption where it has one; else the
/// error that the service reports in the member `error`; else nothing that
/// can be used.
pub open spec fn caption_of(doc: JsonView) -> Result<Seq<char>, CaptionErrorView> {
    match first_choice(doc) {
        Some(caption) => Ok(caption),
        None => match doc.field("error"@) {
            Some(e) => Err(CaptionErrorView::Remote(e)),
            None => Err(CaptionErrorView::Malformed),
        },
    }
}

/// What the outcome of a request means.
pub open spec fn caption_from(reply: ReplyView) -> Result<Seq<char>, CaptionErrorView> {
    match reply {
        ReplyView::Unreachable => Err(CaptionErrorView::Transport),
        ReplyView::Answer { status, body } => if !is_success(status) {
            Err(CaptionErrorView::Status(status))
        } else {
            match decoded(body) {
                Some(doc) => caption_of(doc),
                None => Err(CaptionErrorView::Malformed),
            }
        },
    }
}

/// An object of two members.
fn pair(first: &str, a: Json, second: &str, b: Json) -> (r: Json)
    ensures
        r@ == JsonView::Object(seq![(first@, a@), (second@, b@)]),
{
    let mut members: Vec<(String, Json)> = Vec::new();
    members.push((first.to_owned(), a));
    members.push((second.to_owned(), b));
    let r = Json::Object(members);
    proof {
        assert(r@->Object_0 =~= seq![(first@, a@), (second@, b@)]);
    }
    r
}

/// An array of one item.
fn single(item: Json) -> (r: Json)
    ensures
        r@ == JsonView::Array(seq![item@]),
{
    let mut items: Vec<Json> = Vec::new();
    items.push(item);
    let r = Json::Array(items);
    proof {
        assert(r@->Array_0 =~= seq![item@]);
    }
    r
}

/// A text value.
fn text(s: &str) -> (r: Json)
    ensures
        r@ == JsonView::Text(s@),
{
    Json::Text(s.to_owned())
}

/// The captioning service.
#[derive(Clone, Copy, Debug, PartialEq, Eq, Structural)]
pub struct Vision();

impl Vision {
    /// The fixed words of the prompt around the language code and a context
    /// that is plain text already.
    pub fn prompt_around(&self, lang_code: &str, plain_context: &str) -> (r: String)
        ensures
            r@ == prompt_around(lang_code@, plain_context@),
    {
        let mut raw = PROMPT_HEAD.to_owned();
        raw.append(lang_code);
        raw.append(PROMPT_MIDDLE);
        raw.append(plain_context);
        raw.append(PROMPT_TAIL);
        raw
    }

    /// The prompt that goes with an image of a post written in `lang_code`
    /// whose body is `context`.
    pub fn prompt(&self, lang_code: &str, context: &str) -> (r: String)
        requires
            context@.len() <= MARKUP_LIMIT,
        ensures
            r@ == prompt_text(lang_code@, context@),
    {
        let plain = strip_tags(context);
        let raw = self.prompt_around(lang_code, plain.as_str());
        dedent(raw.as_str())
    }

    /// The body of a request.
    pub fn request_body(&self, model: &str, max_tokens: usize, prompt: &str, image_url: &str) -> (r:
        Json)
        ensures
            r@ == request_document(model@, max_tokens, prompt@, image_url@),
    {
        let url = Json::Object(vec![("url".to_owned(), text(image_url))]);
        proof {
            assert(url@->Object_0 =~= seq![("url"@, JsonView::Text(image_url@))]);
        }
        let image = pair("type", text("image_url"), "image_url", url);
        let words = pair("type", text("text"), "text", text(prompt));
        let mut parts: Vec<Json> = Vec::new();
        parts.push(words);
        parts.push(image);
        let content = Json::Array(parts);
        proof {
            assert(content@->Array_0 =~= seq![text_part(prompt@), image_part(image_url@)]);
        }
        let message = pair("role", text("user"), "content", content);
        let messages = single(message);
        let mut members: Vec<(String, Json)> = Vec::new();
        members.push(("model".to_owned(), text(model)));
        members.push(("messages".to_owned(), messages));
        members.push(("max_tokens".to_owned(), Json::Number(decimal_text(max_tokens))));
        proof {
            assert(members[2].1@ == JsonView::Number(decimal(max_tokens as nat)));
        }
        let r = Json::Object(members);
        proof {
            let want = request_document(model@, max_tokens, prompt@, image_url@)->Object_0;
            assert(r@->Object_0[0] == want[0]);
            assert(r@->Object_0[1] == want[1]);
            assert(r@->Object_0[2] == want[2]);
            assert(r@->Object_0 =~= want);
        }
        r
    }

    /// The request for a caption of the image at `image_url`, attached to a
    /// post written in `lang_code` whose body is `context`.
    pub fn request(&self, config: &Config, image_url: &str, lang_code: &str, context: &str) -> (r:
        CaptionRequest)
        requires
            context@.len() <= MARKUP_LIMIT,
        ensures
            r@ == (CaptionRequestView {
                endpoint: ENDPOINT@,
                authorization: "Bearer "@ + config@.gpt_access_token,
                body: request_document(
                    config@.model,
                    config@.max_tokens,
                    prompt_text(lang_code@, context@),
                    image_url@,
                ),
            }),
    {
        let prompt = self.prompt(lang_code, context);
        let model = config.get_model();
        let key = config.get_gpt_api_key();
        let mut authorization = "Bearer ".to_owned();
        authorization.append(key.as_str());
        CaptionRequest {
            endpoint: ENDPOINT.to_owned(),
            authorization,
            body: self.request_body(
                model.as_str(),
                config.get_max_tokens(),
                prompt.as_str(),
                image_url,
            ),
        }
    }

    /// What a decoded answer means.
    pub fn caption_in(&self, doc: &Json) -> (r: Result<String, CaptionError>)
        ensures
            match r {
                Ok(caption) => caption_of(doc@) == Ok::<Seq<char>, CaptionErrorView>(caption@),
                Err(e) => caption_of(doc@) == Err::<Seq<char>, CaptionErrorView>(e@),
            },
    {
        let found: Option<&String> = match doc.get("choices") {
            Some(list) => match list.as_array() {
                Some(choices) => if choices.len() > 0 {
                    match choices[0].get("message") {
                        Some(message) => message.text_field("content"),
                        None => None,
                    }
                } else {
                    None
                },
                None => None,
            },
            None => None,
        };
        match found {
            Some(caption) => Ok(caption.clone()),
            None => match doc.get("error") {
                Some(e) => Err(CaptionError::Remote(e.clone())),
                None => Err(CaptionError::Malformed),
            },
        }
    }

    /// What the outcome of a request means: the caption, or why there is
    /// none.
    pub fn read_reply(&self, reply: &Reply) -> (r: Result<String, CaptionError>)
        ensures
            match r {
                Ok(caption) => caption_from(reply@) == Ok::<Seq<char>, CaptionErrorView>(caption@),
                Err(e) => caption_from(reply@) == Err::<Seq<char>, CaptionErrorView>(e@),
            },
    {
        match reply {
            Reply::Unreachable => Err(CaptionError::Transport),
            Reply::Answer { status, body } => {
                if !success(*status) {
                    return Err(CaptionError::Status(*status));
                }
                match Json::parse(body.as_str()) {
                    Some(doc) => self.caption_in(&doc),
                    None => Err(CaptionError::Malformed),
                }
            },
        }
    }
}

} // verus!
