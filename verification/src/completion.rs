//! One text generation, in two steps around the exchange with the endpoint:
//! what is sent, and what is made of what came back.

use vstd::prelude::*;
use vstd::string::StringExecFns;
use crate::prompt::{
    build_prompt, kind_of, lemma_kind_names, parse_kind, prompt_text, video_debug, DESCRIPTION_HEAD,
    DESCRIPTION_TAIL, TAGS_HEAD, TAGS_TAIL, TITLE_HEAD, TITLE_TAIL,
};
use crate::request::{build_request, is_request_for, ChatRequest};
use crate::response::{extract_content, first_content, result_text, ApiResponse, NO_CONTENT};
use crate::video::{Props, PropsView, VideoView};

verus! {

/// The variable of the environment that holds the credential.
pub const KEY_VARIABLE: &'static str = "GROQ_API_KEY";

/// The error for a missing credential.
pub const KEY_NOT_SET: &'static str = "GROQ_API_KEY is not set in the environment";

/// The error for a name that stands for no kind.
pub const INVALID_KIND: &'static str = "Invalid generation type";

/// What stands before the reason when the request could not be made.
pub const REQUEST_FAILED: &'static str = "Request failed: ";

/// What stands before the reason when the answer could not be read.
pub const PARSE_FAILED: &'static str = "Failed to parse response JSON: ";

/// What stands before every error that the user interface is shown.
pub const GENERATION_FAILED: &'static str = "Error generating content: ";

/// What came of sending the request.
#[derive(Debug)]
pub enum Exchange {
    /// No answer came; the text says why.
    RequestFailed(String),
    /// An answer came that is not of the expected shape; the text says why.
    ParseFailed(String),
    /// An answer came and was read.
    Answered(ApiResponse),
}

/// What an `Exchange` holds.
pub ghost enum ExchangeView {
    RequestFailed(Seq<char>),
    ParseFailed(Seq<char>),
    Answered(Seq<Seq<char>>),
}

impl View for Exchange {
    type V = ExchangeView;

    open spec fn view(&self) -> ExchangeView {
        match self {
            Exchange::RequestFailed(reason) => ExchangeView::RequestFailed(reason@),
            Exchange::ParseFailed(reason) => ExchangeView::ParseFailed(reason@),
            Exchange::Answered(response) => ExchangeView::Answered(response@),
        }
    }
}

/// The characters of a credential, where there is one.
pub open spec fn key_text(api_key: Option<&str>) -> Option<Seq<char>> {
    match api_key {
        Some(key) => Some(key@),
        None => None,
    }
}

/// What is to be sent: the credential and the prompt, or the error that
/// ends the generation before anything is sent. The credential is looked
/// at first, the kind after it.
pub open spec fn planned(api_key: Option<Seq<char>>, props: PropsView) -> Result<
    (Seq<char>, Seq<char>),
    Seq<char>,
> {
    match api_key {
        None => Err(KEY_NOT_SET@),
        Some(key) => match kind_of(props.generate) {
            None => Err(INVALID_KIND@),
            Some(kind) => Ok((key, prompt_text(kind, video_debug(props.video)))),
        },
    }
}

/// What is made of an exchange: the first choice's content, or the error
/// that says what went wrong.
pub open spec fn concluded(exchange: ExchangeView) -> Result<Seq<char>, Seq<char>> {
    match exchange {
        ExchangeView::RequestFailed(reason) => Err(REQUEST_FAILED@ + reason),
        ExchangeView::ParseFailed(reason) => Err(PARSE_FAILED@ + reason),
        ExchangeView::Answered(choices) => first_content(choices),
    }
}

/// What the user interface is given: a text as it is, an error behind the
/// words that every error begins with.
pub open spec fn reported(outcome: Result<Seq<char>, Seq<char>>) -> Result<Seq<char>, Seq<char>> {
    match outcome {
        Ok(content) => Ok(content),
        Err(reason) => Err(GENERATION_FAILED@ + reason),
    }
}

/// With a credential, each of the three names has the prompt that is made
/// from its own template: the template's two parts around the rendering of
/// the record.
pub proof fn lemma_template_of_each_kind(key: Seq<char>, video: VideoView)
    ensures
        planned(Some(key), PropsView { video, generate: "title"@ }) == Ok::<_, Seq<char>>(
            (key, TITLE_HEAD@ + video_debug(video) + TITLE_TAIL@),
        ),
        planned(Some(key), PropsView { video, generate: "description"@ }) == Ok::<_, Seq<char>>(
            (key, DESCRIPTION_HEAD@ + video_debug(video) + DESCRIPTION_TAIL@),
        ),
        planned(Some(key), PropsView { video, generate: "tags"@ }) == Ok::<_, Seq<char>>(
            (key, TAGS_HEAD@ + video_debug(video) + TAGS_TAIL@),
        ),
{
    lemma_kind_names();
}

/// Without a credential the generation ends with the error for the missing
/// credential, whatever is asked for: nothing is sent.
pub proof fn lemma_missing_credential_ends(props: PropsView)
    ensures
        planned(None, props) == Err::<(Seq<char>, Seq<char>), _>(KEY_NOT_SET@),
{
}

/// An answer that was read gives its first choice's content as it stands,
/// up to the user interface; one without a choice gives the error for it.
pub proof fn lemma_answer_reaches_caller(choices: Seq<Seq<char>>)
    ensures
        choices.len() > 0 ==> reported(concluded(ExchangeView::Answered(choices))) == Ok::<
            _,
            Seq<char>,
        >(choices[0]),
        choices.len() == 0 ==> reported(concluded(ExchangeView::Answered(choices))) == Err::<
            Seq<char>,
            _,
        >(GENERATION_FAILED@ + NO_CONTENT@),
{
}

/// The first step: decides what is sent. Without a credential nothing is,
/// whatever the request holds; with one, a request is made if and only if
/// the name stands for a kind, and it carries that kind's prompt.
pub fn prepare_chat_completion(api_key: Option<&str>, props: &Props) -> (r: Result<
    ChatRequest,
    String,
>)
    ensures
        match planned(key_text(api_key), props@) {
            Ok((key, prompt)) => r is Ok && is_request_for(r->Ok_0, key, prompt),
            Err(reason) => r is Err && r->Err_0@ == reason,
        },
        api_key is None ==> r is Err && r->Err_0@ == KEY_NOT_SET@,
{
    match api_key {
        None => Err(String::from_str(KEY_NOT_SET)),
        Some(key) => match parse_kind(props.generate.as_str()) {
            None => Err(String::from_str(INVALID_KIND)),
            Some(kind) => Ok(build_request(key, build_prompt(&props.video, kind))),
        },
    }
}

/// The second step: decides what the generation gives, from what came of
/// the exchange.
pub fn finish_chat_completion(exchange: &Exchange) -> (r: Result<String, String>)
    ensures
        result_text(r) == concluded(exchange@),
{
    match exchange {
        Exchange::RequestFailed(reason) => {
            let mut message = String::from_str(REQUEST_FAILED);
            message.append(reason.as_str());
            Err(message)
        },
        Exchange::ParseFailed(reason) => {
            let mut message = String::from_str(PARSE_FAILED);
            message.append(reason.as_str());
            Err(message)
        },
        Exchange::Answered(response) => extract_content(response),
    }
}

/// Hands the outcome of a generation to the user interface.
pub fn generate_ai_response(outcome: Result<String, String>) -> (r: Result<String, String>)
    ensures
        result_text(r) == reported(result_text(outcome)),
{
    match outcome {
        Ok(content) => Ok(content),
        Err(reason) => {
            let mut message = String::from_str(GENERATION_FAILED);
            message.append(reason.as_str());
            Err(message)
        },
    }
}

} // verus!
