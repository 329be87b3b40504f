//! The answer of the chat-completions endpoint, once its JSON is read.

use vstd::prelude::*;
use vstd::string::StringExecFns;

verus! {

/// The error for an answer without a choice.
pub const NO_CONTENT: &'static str = "No message content found in the response";

/// The message of a choice.
#[derive(Debug)]
pub struct Message {
    pub content: String,
}

/// One completion that the model offers.
#[derive(Debug)]
pub struct Choice {
    pub message: Message,
}

/// The answer: the choices, in the order in which they came.
#[derive(Debug)]
pub struct ApiResponse {
    pub choices: Vec<Choice>,
}

/// The content of each choice's message, in order.
pub open spec fn contents(choices: Seq<Choice>) -> Seq<Seq<char>> {
    choices.map_values(|c: Choice| c.message.content@)
}

impl View for ApiResponse {
    type V = Seq<Seq<char>>;

    open spec fn view(&self) -> Seq<Seq<char>> {
        contents(self.choices@)
    }
}

/// What is made of an answer: the first choice's content as it stands, or
/// the error for an answer without a choice.
pub open spec fn first_content(choices: Seq<Seq<char>>) -> Result<Seq<char>, Seq<char>> {
    if choices.len() > 0 {
        Ok(choices[0])
    } else {
        Err(NO_CONTENT@)
    }
}

/// The texts that a result holds.
pub open spec fn result_text(r: Result<String, String>) -> Result<Seq<char>, Seq<char>> {
    match r {
        Ok(s) => Ok(s@),
        Err(e) => Err(e@),
    }
}

/// Takes the text out of an answer: the first choice's content, unchanged;
/// an error where there is no choice.
pub fn extract_content(response: &ApiResponse) -> (r: Result<String, String>)
    ensures
        result_text(r) == first_content(response@),
        response.choices@.len() > 0 ==> r is Ok && r->Ok_0@
            == response.choices@[0].message.content@,
        response.choices@.len() == 0 ==> r is Err && r->Err_0@ == NO_CONTENT@,
{
    if response.choices.len() > 0 {
        Ok(response.choices[0].message.content.clone())
    } else {
        Err(String::from_str(NO_CONTENT))
    }
}

} // verus!
