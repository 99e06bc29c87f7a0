//! The synthesis request and the reading of the provider's answer.
//!
//! One request is made per run and never repeated. The HTTP exchange itself
//! is the caller's; this module says what is sent and what the answer means.
//! JSON is parsed by `serde_json`.

use vstd::prelude::*;
use crate::config::Configuration;
use crate::outcome::SynthesisError;

verus! {

/// The provider's synthesize endpoint, to which the request is POSTed.
pub const ENDPOINT: &'static str = "https://texttospeech.googleapis.com/v1/text:synthesize";

/// Name of the header that carries the API key.
pub const API_KEY_HEADER: &'static str = "X-goog-api-key";

/// Name of the header that asks for a JSON answer.
pub const ACCEPT_HEADER: &'static str = "Accept";

/// Value of the `Accept` header.
pub const ACCEPT_JSON: &'static str = "application/json";

/// The only audio encoding ever requested: 16-bit linear PCM in a WAV container.
pub const AUDIO_ENCODING: &'static str = "LINEAR16";

/// Name of the header that declares the body as JSON.
pub const CONTENT_TYPE_HEADER: &'static str = "Content-Type";

/// The body up to the text to speak.
pub const BODY_BEFORE_TEXT: &'static str = "{\"input\":{\"text\":";

/// The body between the text and the language code.
pub const BODY_BEFORE_LANGUAGE: &'static str = "},\"voice\":{\"languageCode\":";

/// The body between the language code and the voice name.
pub const BODY_BEFORE_VOICE: &'static str = ",\"name\":";

/// The body between the voice name and the audio encoding.
pub const BODY_BEFORE_ENCODING: &'static str = "},\"audioConfig\":{\"audioEncoding\":";

/// The end of the body.
pub const BODY_END: &'static str = "}}";

/// Name of the response field that holds the audio.
pub const AUDIO_CONTENT_FIELD: &'static str = "audioContent";

/// The variable parts of one synthesis request. On the wire they form the
/// JSON body `{input: {text}, voice: {languageCode, name}, audioConfig:
/// {audioEncoding}}`, the encoding always being [`AUDIO_ENCODING`].
#[derive(Clone, Debug, PartialEq, Eq)]
pub struct SynthesisRequest {
    /// The text to speak; may be empty.
    pub text: String,
    pub language_code: String,
    pub voice_name: String,
    /// The key for the [`API_KEY_HEADER`] header.
    pub api_key: String,
}

/// A [`SynthesisRequest`] as plain text values.
pub struct SynthesisRequestView {
    pub text: Seq<char>,
    pub language_code: Seq<char>,
    pub voice_name: Seq<char>,
    pub api_key: Seq<char>,
}

impl View for SynthesisRequest {
    type V = SynthesisRequestView;

    open spec fn view(&self) -> SynthesisRequestView {
        SynthesisRequestView {
            text: self.text@,
            language_code: self.language_code@,
            voice_name: self.voice_name@,
            api_key: self.api_key@,
        }
    }
}

/// A text as `serde_json` writes it as a JSON string: in double quotes, with
/// the escapes that JSON asks for.
pub uninterp spec fn json_string_literal(text: Seq<char>) -> Seq<char>;

/// Makes a `serde_json::Value::String` of `text` (`Value::from`) and formats
/// it with the value's `Display`, which writes compact JSON. The contract
/// only gives the result its name: equal texts are written alike.
#[verifier::external_body]
fn json_string(text: &str) -> (literal: String)
    ensures
        literal@ == json_string_literal(text@),
{
    serde_json::Value::from(text).to_string()
}

/// The JSON body of a request: `{input: {text}, voice: {languageCode, name},
/// audioConfig: {audioEncoding}}` without white space, every value written
/// as a JSON string.
pub open spec fn body_text(request: SynthesisRequestView) -> Seq<char> {
    BODY_BEFORE_TEXT@ + json_string_literal(request.text) + BODY_BEFORE_LANGUAGE@
        + json_string_literal(request.language_code) + BODY_BEFORE_VOICE@ + json_string_literal(
        request.voice_name,
    ) + BODY_BEFORE_ENCODING@ + json_string_literal(AUDIO_ENCODING@) + BODY_END@
}

/// Puts the body together from its fixed parts and the four values as JSON
/// strings.
pub fn frame_body(text: &str, language_code: &str, voice_name: &str, encoding: &str) -> (body: String)
    ensures
        body@ == BODY_BEFORE_TEXT@ + text@ + BODY_BEFORE_LANGUAGE@ + language_code@
            + BODY_BEFORE_VOICE@ + voice_name@ + BODY_BEFORE_ENCODING@ + encoding@ + BODY_END@,
{
    let mut body = BODY_BEFORE_TEXT.to_owned();
    body.append(text);
    body.append(BODY_BEFORE_LANGUAGE);
    body.append(language_code);
    body.append(BODY_BEFORE_VOICE);
    body.append(voice_name);
    body.append(BODY_BEFORE_ENCODING);
    body.append(encoding);
    body.append(BODY_END);
    body
}

impl SynthesisRequest {
    /// The JSON body to POST for this request.
    pub fn body(&self) -> (body: String)
        ensures
            body@ == body_text(self@),
    {
        let text = json_string(self.text.as_str());
        let language_code = json_string(self.language_code.as_str());
        let voice_name = json_string(self.voice_name.as_str());
        let encoding = json_string(AUDIO_ENCODING);
        frame_body(text.as_str(), language_code.as_str(), voice_name.as_str(), encoding.as_str())
    }

    /// The request for `text` under `config`.
    pub open spec fn for_text(text: Seq<char>, config: crate::config::ConfigurationView) -> SynthesisRequestView {
        SynthesisRequestView {
            text,
            language_code: config.gcloud_language,
            voice_name: config.gcloud_voice,
            api_key: config.gcloud_token,
        }
    }

    /// Builds the request for `text`: the text as given, voice and key from
    /// the configuration.
    pub fn build(text: &str, config: &Configuration) -> (request: SynthesisRequest)
        ensures
            request@ == Self::for_text(text@, config@),
    {
        SynthesisRequest {
            text: text.to_owned(),
            language_code: config.gcloud_language.clone(),
            voice_name: config.gcloud_voice.clone(),
            api_key: config.gcloud_token.clone(),
        }
    }
}

/// How the one HTTP exchange ended, as the caller reports it.
#[derive(Clone, Debug, PartialEq, Eq)]
pub enum Exchange {
    /// No answer was received: the connection failed, timed out or broke
    /// while the body was read.
    Unreachable,
    /// An answer was received in full.
    Reply { status: u16, body: Vec<u8> },
}

/// An [`Exchange`] as plain values.
pub enum ExchangeView {
    Unreachable,
    Reply { status: u16, body: Seq<u8> },
}

impl View for Exchange {
    type V = ExchangeView;

    open spec fn view(&self) -> ExchangeView {
        match self {
            Exchange::Unreachable => ExchangeView::Unreachable,
            Exchange::Reply { status, body } => ExchangeView::Reply { status: *status, body: body@ },
        }
    }
}

/// Why `serde_json` turned a body down, by its own four categories. The
/// parser stops at the first thing it cannot take, so the category speaks of
/// that place and of nothing behind it.
#[derive(Clone, Copy, Debug, PartialEq, Eq, Structural)]
pub enum JsonFault {
    /// Bytes could not be read.
    Io,
    /// The parser ran into invalid JSON syntax.
    Syntax,
    /// The parser met a value of another type than a mapping from names to
    /// strings holds at that place.
    Data,
    /// The parser ran into the end of the body.
    Eof,
}

/// What `serde_json` makes of a body read as a mapping from field names to
/// strings: the mapping, or the category of its error.
pub uninterp spec fn json_string_fields(body: Seq<u8>) -> Result<Map<Seq<char>, Seq<char>>, JsonFault>;

/// The mapping that a list of name-value pairs stands for. Where a name
/// occurs twice the earlier pair counts.
pub open spec fn fields_of(pairs: Seq<(Seq<char>, Seq<char>)>) -> Map<Seq<char>, Seq<char>>
    decreases pairs.len(),
{
    if pairs.len() == 0 {
        Map::empty()
    } else {
        fields_of(pairs.drop_first()).insert(pairs[0].0, pairs[0].1)
    }
}

/// Calls `serde_json::from_slice` for a `HashMap<String, String>` and hands
/// the entries out as a list, in the order the map is walked. On failure it
/// calls `serde_json::Error::classify` and hands out the category. The
/// contract gives the parse its name and says that the list holds exactly
/// the parsed mapping; it says nothing of the order of the list.
#[verifier::external_body]
fn parse_string_fields(body: &Vec<u8>) -> (r: Result<Vec<(String, String)>, JsonFault>)
    ensures
        match r {
            Ok(pairs) => json_string_fields(body@) == Ok::<Map<Seq<char>, Seq<char>>, JsonFault>(
                fields_of(pairs.deep_view()),
            ),
            Err(fault) => json_string_fields(body@) == Err::<Map<Seq<char>, Seq<char>>, JsonFault>(
                fault,
            ),
        },
{
    match serde_json::from_slice::<std::collections::HashMap<String, String>>(body.as_slice()) {
        Ok(fields) => Ok(fields.into_iter().collect()),
        Err(error) => Err(
            match error.classify() {
                serde_json::error::Category::Io => JsonFault::Io,
                serde_json::error::Category::Syntax => JsonFault::Syntax,
                serde_json::error::Category::Data => JsonFault::Data,
                serde_json::error::Category::Eof => JsonFault::Eof,
            },
        ),
    }
}

/// The provider's answer: a mapping from field names to strings, kept as a
/// list of pairs.
#[derive(Clone, Debug, PartialEq, Eq)]
pub struct SynthesisResponse {
    pub fields: Vec<(String, String)>,
}

impl View for SynthesisResponse {
    type V = Map<Seq<char>, Seq<char>>;

    open spec fn view(&self) -> Map<Seq<char>, Seq<char>> {
        fields_of(self.fields.deep_view())
    }
}

/// A status in the 2xx range.
pub open spec fn status_accepted_spec(status: u16) -> bool {
    200 <= status < 300
}

/// Whether an HTTP status counts as success: the 2xx range.
#[verifier::when_used_as_spec(status_accepted_spec)]
pub fn status_accepted(status: u16) -> (accepted: bool)
    ensures
        accepted == status_accepted_spec(status),
{
    200 <= status && status < 300
}

impl JsonFault {
    /// Broken syntax, an early end and unreadable bytes count as a transport
    /// failure; a value of another type than expected is a response that
    /// cannot be decoded.
    pub open spec fn error_spec(self) -> SynthesisError {
        match self {
            JsonFault::Data => SynthesisError::ResponseDecodeError,
            JsonFault::Io | JsonFault::Syntax | JsonFault::Eof => SynthesisError::TransportError,
        }
    }

    /// The synthesis error that a parse failure of this category means.
    #[verifier::when_used_as_spec(error_spec)]
    pub fn error(self) -> (error: SynthesisError)
        ensures
            error == self.error_spec(),
    {
        match self {
            JsonFault::Data => SynthesisError::ResponseDecodeError,
            JsonFault::Io | JsonFault::Syntax | JsonFault::Eof => SynthesisError::TransportError,
        }
    }
}

/// What an answer with the given status means, given what the JSON parser
/// says of its body.
pub open spec fn judged(status: u16, parsed: Result<Map<Seq<char>, Seq<char>>, JsonFault>) -> Result<
    Map<Seq<char>, Seq<char>>,
    SynthesisError,
> {
    if !status_accepted(status) {
        Err(SynthesisError::TransportError)
    } else {
        match parsed {
            Ok(fields) => Ok(fields),
            Err(fault) => Err(fault.error()),
        }
    }
}

/// What [`read_exchange`] returns for an exchange.
pub open spec fn response_of(exchange: ExchangeView) -> Result<
    Map<Seq<char>, Seq<char>>,
    SynthesisError,
> {
    match exchange {
        ExchangeView::Unreachable => Err(SynthesisError::TransportError),
        ExchangeView::Reply { status, body } => judged(status, json_string_fields(body)),
    }
}

/// A finished parse as plain values.
pub open spec fn parse_view(parsed: Result<Vec<(String, String)>, JsonFault>) -> Result<
    Map<Seq<char>, Seq<char>>,
    JsonFault,
> {
    match parsed {
        Ok(pairs) => Ok(fields_of(pairs.deep_view())),
        Err(fault) => Err(fault),
    }
}

/// Decides what a finished parse means for an answer whose status is known.
///
/// `TransportError` for a status outside 2xx whatever the body holds, and for
/// a parse that ran into broken syntax or the end of the body;
/// `ResponseDecodeError` for a parse that met a value of another type than a
/// mapping from names to strings holds; else the mapping.
pub fn judge(status: u16, parsed: Result<Vec<(String, String)>, JsonFault>) -> (r: Result<
    SynthesisResponse,
    SynthesisError,
>)
    ensures
        match r {
            Ok(response) => judged(status, parse_view(parsed)) == Ok::<
                Map<Seq<char>, Seq<char>>,
                SynthesisError,
            >(response@),
            Err(error) => judged(status, parse_view(parsed)) == Err::<
                Map<Seq<char>, Seq<char>>,
                SynthesisError,
            >(error),
        },
{
    if !status_accepted(status) {
        return Err(SynthesisError::TransportError);
    }
    match parsed {
        Ok(fields) => Ok(SynthesisResponse { fields }),
        Err(fault) => Err(fault.error()),
    }
}

/// Reads the outcome of the HTTP exchange as a synthesis response.
///
/// Fails with `TransportError` where no answer came, where the status is
/// outside 2xx, and where the parser ran into broken syntax or the end of the
/// body; with `ResponseDecodeError` where the parser met a value of another
/// type than a mapping from names to strings holds. The parser stops at the
/// first of these that it meets.
pub fn read_exchange(exchange: &Exchange) -> (r: Result<SynthesisResponse, SynthesisError>)
    ensures
        match r {
            Ok(response) => response_of(exchange@) == Ok::<
                Map<Seq<char>, Seq<char>>,
                SynthesisError,
            >(response@),
            Err(error) => response_of(exchange@) == Err::<
                Map<Seq<char>, Seq<char>>,
                SynthesisError,
            >(error),
        },
{
    match exchange {
        Exchange::Unreachable => Err(SynthesisError::TransportError),
        Exchange::Reply { status, body } => {
            if !status_accepted(*status) {
                // The body of a refused request is never parsed.
                Err(SynthesisError::TransportError)
            } else {
                judge(*status, parse_string_fields(body))
            }
        },
    }
}

/// Looking a name up in a list of pairs: past an entry with another name the
/// answer is that of the rest of the list.
proof fn lemma_fields_step(pairs: Seq<(Seq<char>, Seq<char>)>, name: Seq<char>)
    requires
        pairs.len() > 0,
    ensures
        pairs[0].0 == name ==> fields_of(pairs).contains_key(name) && fields_of(pairs)[name]
            == pairs[0].1,
        pairs[0].0 != name ==> (fields_of(pairs).contains_key(name) <==> fields_of(
            pairs.drop_first(),
        ).contains_key(name)),
        pairs[0].0 != name && fields_of(pairs).contains_key(name) ==> fields_of(pairs)[name]
            == fields_of(pairs.drop_first())[name],
{
}

impl SynthesisResponse {
    /// The value of field `name`, if the response has that field.
    pub fn field(&self, name: &str) -> (value: Option<String>)
        ensures
            match value {
                Some(text) => self@.contains_key(name@) && self@[name@] == text@,
                None => !self@.contains_key(name@),
            },
    {
        let wanted: String = name.to_owned();
        let ghost all = self.fields.deep_view();
        let mut i: usize = 0;
        assert(all.skip(0) == all);
        while i < self.fields.len()
            invariant
                i <= self.fields.len(),
                all == self.fields.deep_view(),
                wanted@ == name@,
                fields_of(all).contains_key(name@) <==> fields_of(all.skip(i as int)).contains_key(
                    name@,
                ),
                fields_of(all).contains_key(name@) ==> fields_of(all)[name@] == fields_of(
                    all.skip(i as int),
                )[name@],
            decreases self.fields.len() - i,
        {
            proof {
                lemma_fields_step(all.skip(i as int), name@);
                assert(all.skip(i as int).drop_first() == all.skip(i as int + 1));
                assert(all.skip(i as int)[0] == all[i as int]);
                assert(all[i as int] == self.fields[i as int].deep_view());
            }
            if self.fields[i].0 == wanted {
                return Some(self.fields[i].1.clone());
            }
            i = i + 1;
        }
        assert(all.skip(i as int).len() == 0);
        None
    }

    /// The `audioContent` field: the base64 audio, if the response has it.
    pub fn audio_content(&self) -> (value: Option<String>)
        ensures
            match value {
                Some(text) => self@.contains_key(AUDIO_CONTENT_FIELD@) && self@[AUDIO_CONTENT_FIELD@]
                    == text@,
                None => !self@.contains_key(AUDIO_CONTENT_FIELD@),
            },
    {
        self.field(AUDIO_CONTENT_FIELD)
    }
}

} // verus!
