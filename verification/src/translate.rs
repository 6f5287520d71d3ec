use vstd::prelude::*;
use base64::Engine;
use crate::diff::Frame;
use crate::json::{
    element_of, has_members, is_array_of, is_number, is_text, item_at, member_at, member_of,
    JsonValue,
};

verus! {

/// `image::ImageError`, carried from the JPEG encoder to the message it gives.
#[verifier::external_type_specification]
#[verifier::external_body]
pub struct ExImageError(image::ImageError);

/// Why a translation did not produce text.
#[derive(Debug)]
pub enum TranslateError {
    /// The request was cancelled before it completed.
    Cancelled,
    /// The captured image could not be encoded; the text says why.
    ImageEncode(String),
    /// Sending the request or reading the reply failed; the text says why.
    Http(String),
    /// The reply holds no translated text where it should.
    BadResponse,
}

/// The text shown for a translation error.
pub open spec fn translate_error_text(e: TranslateError) -> Seq<char> {
    match e {
        TranslateError::Cancelled => "request cancelled"@,
        TranslateError::ImageEncode(detail) => "image encoding failed: "@ + detail@,
        TranslateError::Http(detail) => "http error: "@ + detail@,
        TranslateError::BadResponse => "unexpected api response"@,
    }
}

impl TranslateError {
    /// The text shown for this error.
    pub fn message(&self) -> (res: String)
        ensures
            res@ == translate_error_text(*self),
    {
        match self {
            TranslateError::Cancelled => String::from_str("request cancelled"),
            TranslateError::ImageEncode(detail) => {
                let mut res = String::from_str("image encoding failed: ");
                res.append(detail.as_str());
                res
            },
            TranslateError::Http(detail) => {
                let mut res = String::from_str("http error: ");
                res.append(detail.as_str());
                res
            },
            TranslateError::BadResponse => String::from_str("unexpected api response"),
        }
    }
}

/// The symbol of a 6-bit value in the standard base64 alphabet (RFC 4648, section 4).
pub open spec fn base64_symbol(v: int) -> char {
    if v < 26 {
        (65 + v) as char
    } else if v < 52 {
        (97 + v - 26) as char
    } else if v < 62 {
        (48 + v - 52) as char
    } else if v == 62 {
        '+'
    } else {
        '/'
    }
}

/// Standard base64 with `=` padding (RFC 4648, section 4): every 3 bytes become 4
/// symbols; a final group of 1 or 2 bytes is padded to 4 symbols with `=`.
pub open spec fn base64_standard(bytes: Seq<u8>) -> Seq<char>
    decreases bytes.len(),
{
    if bytes.len() == 0 {
        Seq::empty()
    } else if bytes.len() == 1 {
        let b0 = bytes[0] as int;
        seq![base64_symbol(b0 / 4), base64_symbol((b0 % 4) * 16), '=', '=']
    } else if bytes.len() == 2 {
        let b0 = bytes[0] as int;
        let b1 = bytes[1] as int;
        seq![
            base64_symbol(b0 / 4),
            base64_symbol((b0 % 4) * 16 + b1 / 16),
            base64_symbol((b1 % 16) * 4),
            '=',
        ]
    } else {
        let b0 = bytes[0] as int;
        let b1 = bytes[1] as int;
        let b2 = bytes[2] as int;
        seq![
            base64_symbol(b0 / 4),
            base64_symbol((b0 % 4) * 16 + b1 / 16),
            base64_symbol((b1 % 16) * 4 + b2 / 64),
            base64_symbol(b2 % 64),
        ] + base64_standard(bytes.subrange(3, bytes.len() as int))
    }
}

/// `base64::engine::general_purpose::STANDARD.encode`: standard base64 with padding.
/// The crate's `encode` panics when the encoded length overflows `usize`, which
/// the `requires` rules out.
#[verifier::external_body]
fn encode_base64(bytes: &Vec<u8>) -> (res: String)
    requires
        bytes@.len() / 3 * 4 + 4 <= usize::MAX,
    ensures
        res@ == base64_standard(bytes@),
{
    base64::engine::general_purpose::STANDARD.encode(bytes)
}

/// Quality (1 to 100) at which captured images are encoded as JPEG before they are sent.
pub const JPEG_QUALITY: u8 = 85;

/// The bytes of the JPEG file that `image`'s `JpegEncoder`, made with
/// `new_with_quality(.., quality)`, writes for an RGB image.
pub uninterp spec fn jpeg_encoding(width: u32, height: u32, rgb: Seq<u8>, quality: u8) -> Seq<u8>;

/// Encodes an RGB8 image as JPEG at `quality` into memory, with
/// `JpegEncoder::new_with_quality` and `DynamicImage::write_with_encoder`
/// (the encoder clamps the quality to 1..=100 and never panics on it).
/// `image`'s JPEG encoder refuses a side of 0 or above 65535 and, writing into a
/// `Vec`, fails in no other way; the bytes are named by `jpeg_encoding`. A `Vec`
/// never holds more than `isize::MAX` bytes.
#[verifier::external_body]
fn encode_jpeg(frame: &Frame, quality: u8) -> (res: Result<Vec<u8>, image::ImageError>)
    requires
        frame.well_formed(),
    ensures
        res is Ok <==> (1 <= frame.width <= 65535 && 1 <= frame.height <= 65535),
        res matches Ok(bytes) ==> bytes@ == jpeg_encoding(frame.width, frame.height, frame.rgb@, quality)
            && bytes@.len() <= isize::MAX,
{
    let img = image::RgbImage::from_raw(frame.width, frame.height, frame.rgb.clone()).unwrap();
    let mut buf: Vec<u8> = Vec::new();
    let encoder = image::codecs::jpeg::JpegEncoder::new_with_quality(&mut buf, quality);
    image::DynamicImage::ImageRgb8(img).write_with_encoder(encoder).map(|_| buf)
}

/// The `Display` text of an `image::ImageError`.
#[verifier::external_body]
fn image_error_text(e: &image::ImageError) -> String {
    e.to_string()
}

/// The instruction sent with the image.
pub open spec fn translation_prompt_text(target_language: Seq<char>) -> Seq<char> {
    "You are a translation assistant. Extract all text visible in this image and translate it to "@
        + target_language
        + ". Return ONLY the translated text, preserving paragraph breaks. If no text is visible, return empty string."@
}

/// The instruction sent with the image: extract the visible text and translate
/// it to `target_language`.
pub fn translation_prompt(target_language: &str) -> (res: String)
    ensures
        res@ == translation_prompt_text(target_language@),
{
    let mut res = String::from_str(
        "You are a translation assistant. Extract all text visible in this image and translate it to ",
    );
    res.append(target_language);
    res.append(
        ". Return ONLY the translated text, preserving paragraph breaks. If no text is visible, return empty string.",
    );
    res
}

/// A `data:` URL carrying base64-encoded JPEG bytes.
pub open spec fn jpeg_data_url(base64: Seq<char>) -> Seq<char> {
    "data:image/jpeg;base64,"@ + base64
}

/// The body of an OpenAI-style chat completion request: one user message whose
/// content is the image (by URL) followed by the prompt, answered with at most
/// 1024 tokens. Members are in the order `serde_json` writes them.
pub open spec fn is_chat_request(
    body: JsonValue,
    model: Seq<char>,
    image_url: Seq<char>,
    prompt: Seq<char>,
) -> bool {
    let message = item_at(member_at(body, 1), 0);
    let content = member_at(message, 0);
    let image_part = item_at(content, 0);
    let text_part = item_at(content, 1);
    &&& has_members(body, seq!["max_tokens"@, "messages"@, "model"@])
    &&& is_number(member_at(body, 0), "1024"@)
    &&& is_array_of(member_at(body, 1), 1)
    &&& is_text(member_at(body, 2), model)
    &&& has_members(message, seq!["content"@, "role"@])
    &&& is_text(member_at(message, 1), "user"@)
    &&& is_array_of(content, 2)
    &&& has_members(image_part, seq!["image_url"@, "type"@])
    &&& has_members(member_at(image_part, 0), seq!["url"@])
    &&& is_text(member_at(member_at(image_part, 0), 0), image_url)
    &&& is_text(member_at(image_part, 1), "image_url"@)
    &&& has_members(text_part, seq!["text"@, "type"@])
    &&& is_text(member_at(text_part, 0), prompt)
    &&& is_text(member_at(text_part, 1), "text"@)
}

fn text_value(s: &str) -> (v: JsonValue)
    ensures
        is_text(v, s@),
{
    JsonValue::String(String::from_str(s))
}

fn member(key: &str, value: JsonValue) -> (m: (String, JsonValue))
    ensures
        m.0@ == key@,
        m.1 == value,
{
    (String::from_str(key), value)
}

/// Builds the chat completion request body for `model`, the image at
/// `image_url` and the instruction `prompt`.
pub fn chat_request_body(model: &str, image_url: &str, prompt: &str) -> (body: JsonValue)
    ensures
        is_chat_request(body, model@, image_url@, prompt@),
{
    let mut url_members: Vec<(String, JsonValue)> = Vec::new();
    url_members.push(member("url", text_value(image_url)));
    let mut image_members: Vec<(String, JsonValue)> = Vec::new();
    image_members.push(member("image_url", JsonValue::Object(url_members)));
    image_members.push(member("type", text_value("image_url")));
    let mut text_members: Vec<(String, JsonValue)> = Vec::new();
    text_members.push(member("text", text_value(prompt)));
    text_members.push(member("type", text_value("text")));
    let mut content: Vec<JsonValue> = Vec::new();
    content.push(JsonValue::Object(image_members));
    content.push(JsonValue::Object(text_members));
    let mut message_members: Vec<(String, JsonValue)> = Vec::new();
    message_members.push(member("content", JsonValue::Array(content)));
    message_members.push(member("role", text_value("user")));
    let mut messages: Vec<JsonValue> = Vec::new();
    messages.push(JsonValue::Object(message_members));
    let mut body_members: Vec<(String, JsonValue)> = Vec::new();
    body_members.push(member("max_tokens", JsonValue::Number(String::from_str("1024"))));
    body_members.push(member("messages", JsonValue::Array(messages)));
    body_members.push(member("model", text_value(model)));
    JsonValue::Object(body_members)
}

/// What a chat completion reply says: `choices[0].message.content`, when that is a string.
pub open spec fn reply_content(reply: JsonValue) -> Option<Seq<char>> {
    match member_of(reply, "choices"@) {
        Some(choices) => match element_of(choices, 0) {
            Some(choice) => match member_of(choice, "message"@) {
                Some(message) => match member_of(message, "content"@) {
                    Some(JsonValue::String(text)) => Some(text@),
                    _ => None,
                },
                None => None,
            },
            None => None,
        },
        None => None,
    }
}

/// Takes the translated text out of a chat completion reply: the string at
/// `choices[0].message.content`, or `BadResponse` when there is none.
pub fn reply_text(reply: &JsonValue) -> (res: Result<String, TranslateError>)
    ensures
        match reply_content(*reply) {
            Some(text) => res matches Ok(t) && t@ == text,
            None => res matches Err(TranslateError::BadResponse),
        },
        member_of(*reply, "choices"@) matches Some(choices) ==> element_of(choices, 0) matches Some(
            choice,
        ) ==> member_of(choice, "message"@) matches Some(message) ==> member_of(message, "content"@) matches Some(
            JsonValue::String(text),
        ) ==> (res matches Ok(t) && t@ == text@),
        res matches Err(e) ==> e is BadResponse,
{
    let choices = match reply.member(&String::from_str("choices")) {
        Some(v) => v,
        None => return Err(TranslateError::BadResponse),
    };
    let choice = match choices.element(0) {
        Some(v) => v,
        None => return Err(TranslateError::BadResponse),
    };
    let message = match choice.member(&String::from_str("message")) {
        Some(v) => v,
        None => return Err(TranslateError::BadResponse),
    };
    match message.member(&String::from_str("content")) {
        Some(JsonValue::String(text)) => Ok(text.clone()),
        _ => Err(TranslateError::BadResponse),
    }
}

/// Whatever string the reply carries at `choices[0].message.content`, the
/// empty string included, that string is the translated text; no reply without
/// a string there yields text.
pub proof fn lemma_reply_content_is_any_string(
    reply: JsonValue,
    choices: JsonValue,
    choice: JsonValue,
    message: JsonValue,
    text: String,
)
    requires
        member_of(reply, "choices"@) == Some(choices),
        element_of(choices, 0) == Some(choice),
        member_of(choice, "message"@) == Some(message),
        member_of(message, "content"@) == Some(JsonValue::String(text)),
    ensures
        reply_content(reply) == Some(text@),
{
}

/// Text comes out of a reply only from a string at `choices[0].message.content`.
pub proof fn lemma_reply_content_needs_string(reply: JsonValue)
    requires
        reply_content(reply) is Some,
    ensures
        member_of(reply, "choices"@) matches Some(choices) && element_of(choices, 0) matches Some(
            choice,
        ) && member_of(choice, "message"@) matches Some(message) && member_of(message, "content"@) matches Some(
            JsonValue::String(text),
        ) && reply_content(reply) == Some(text@),
{
}

/// Everything that is sent for one translation: where, with which credentials,
/// and the JSON body.
#[derive(Debug)]
pub struct ChatRequest {
    pub url: String,
    pub authorization: String,
    pub body: JsonValue,
}

/// Talks to an OpenAI-compatible chat completion endpoint behind a gateway.
pub struct TranslateEngine {
    gateway_url: String,
    model: String,
    api_key: String,
}

/// The endpoint of chat completions below a gateway URL.
pub open spec fn completions_url(gateway_url: Seq<char>) -> Seq<char> {
    gateway_url + "/chat/completions"@
}

/// The `Authorization` header value for an API key.
pub open spec fn bearer(api_key: Seq<char>) -> Seq<char> {
    "Bearer "@ + api_key
}

impl TranslateEngine {
    /// The gateway's base URL.
    pub closed spec fn spec_gateway_url(&self) -> Seq<char> {
        self.gateway_url@
    }

    /// The model asked.
    pub closed spec fn spec_model(&self) -> Seq<char> {
        self.model@
    }

    /// The API key sent as a bearer token.
    pub closed spec fn spec_api_key(&self) -> Seq<char> {
        self.api_key@
    }

    /// An engine for the gateway at `gateway_url`, asking `model` with `api_key`.
    pub fn new(gateway_url: String, model: String, api_key: String) -> (e: Self)
        ensures
            e.spec_gateway_url() == gateway_url@,
            e.spec_model() == model@,
            e.spec_api_key() == api_key@,
    {
        TranslateEngine { gateway_url, model, api_key }
    }

    /// The URL that requests are posted to.
    pub fn request_url(&self) -> (res: String)
        ensures
            res@ == completions_url(self.spec_gateway_url()),
    {
        let mut res = self.gateway_url.clone();
        res.append("/chat/completions");
        res
    }

    /// The `Authorization` header value.
    pub fn authorization(&self) -> (res: String)
        ensures
            res@ == bearer(self.spec_api_key()),
    {
        let mut res = String::from_str("Bearer ");
        res.append(self.api_key.as_str());
        res
    }

    /// The request asking to translate the JPEG image `jpeg` to `target_language`.
    pub fn request_for_jpeg(&self, jpeg: &Vec<u8>, target_language: &str) -> (req: ChatRequest)
        requires
            jpeg@.len() / 3 * 4 + 4 <= usize::MAX,
        ensures
            req.url@ == completions_url(self.spec_gateway_url()),
            req.authorization@ == bearer(self.spec_api_key()),
            is_chat_request(
                req.body,
                self.spec_model(),
                jpeg_data_url(base64_standard(jpeg@)),
                translation_prompt_text(target_language@),
            ),
    {
        let mut image_url = String::from_str("data:image/jpeg;base64,");
        let encoded = encode_base64(jpeg);
        image_url.append(encoded.as_str());
        let prompt = translation_prompt(target_language);
        let body = chat_request_body(self.model.as_str(), image_url.as_str(), prompt.as_str());
        ChatRequest { url: self.request_url(), authorization: self.authorization(), body }
    }

    /// Prepares the translation of `frame` to `target_language`: refused when
    /// the request is already cancelled, or when the image cannot be encoded as
    /// JPEG; otherwise the request carrying the image as JPEG at quality 85.
    pub fn prepare_request(&self, frame: &Frame, target_language: &str, cancelled: bool) -> (res:
        Result<ChatRequest, TranslateError>)
        requires
            frame.well_formed(),
        ensures
            cancelled ==> res matches Err(TranslateError::Cancelled),
            !cancelled && !(1 <= frame.width <= 65535 && 1 <= frame.height <= 65535) ==> res matches Err(
                TranslateError::ImageEncode(_),
            ),
            !cancelled && 1 <= frame.width <= 65535 && 1 <= frame.height <= 65535 ==> (res matches Ok(
                req,
            ) && req.url@ == completions_url(self.spec_gateway_url()) && req.authorization@ == bearer(
                self.spec_api_key(),
            ) && is_chat_request(
                req.body,
                self.spec_model(),
                jpeg_data_url(
                    base64_standard(jpeg_encoding(frame.width, frame.height, frame.rgb@, JPEG_QUALITY)),
                ),
                translation_prompt_text(target_language@),
            )),
    {
        if cancelled {
            return Err(TranslateError::Cancelled);
        }
        match encode_jpeg(frame, JPEG_QUALITY) {
            Ok(jpeg) => Ok(self.request_for_jpeg(&jpeg, target_language)),
            Err(e) => Err(TranslateError::ImageEncode(image_error_text(&e))),
        }
    }
}

} // verus!
