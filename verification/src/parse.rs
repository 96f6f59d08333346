//! The decisions of a parse: what is refused before the engine is asked,
//! what the engine is asked for, and the measures of a parsed text.

use crate::config::{conf_or_default, SimpleConf, SimpleConfView};
use crate::engine::{translate, Conf, ConfView};
use crate::results::{
    empty_text_message, optional_text, parse_done_message, ParseResult, ParseResultView,
};
use crate::text::{
    count_words, encoded_len, is_blank, is_blank_text, utf8_len, word_count, wrap_i32,
    wrapped_count,
};
use vstd::prelude::*;

verus! {

/// What the engine is asked for: to parse `text` under `conf`.
#[derive(Debug)]
pub struct ParseJob {
    pub text: String,
    pub conf: Conf,
    /// Whether the parse also renders HTML; a plain parse never asks for it.
    pub generate_html: bool,
}

/// What a [`ParseJob`] holds, with its text as characters.
pub struct ParseJobView {
    pub text: Seq<char>,
    pub conf: ConfView,
    pub generate_html: bool,
}

impl View for ParseJob {
    type V = ParseJobView;

    open spec fn view(&self) -> ParseJobView {
        ParseJobView { text: self.text@, conf: self.conf@, generate_html: self.generate_html }
    }
}

/// Where a parse stands once its arguments are looked at.
#[derive(Debug)]
pub enum ParseStep {
    /// The parse is over without the engine, with this result.
    Done(ParseResult),
    /// The engine has to run this job.
    Parse(ParseJob),
}

/// What a [`ParseStep`] holds.
pub enum ParseStepView {
    Done(ParseResultView),
    Parse(ParseJobView),
}

impl View for ParseStep {
    type V = ParseStepView;

    open spec fn view(&self) -> ParseStepView {
        match self {
            ParseStep::Done(result) => ParseStepView::Done(result@),
            ParseStep::Parse(job) => ParseStepView::Parse(job@),
        }
    }
}

/// The result of a parse that was refused with `message`: nothing was
/// measured.
pub open spec fn parse_failure(message: Seq<char>) -> ParseResultView {
    ParseResultView {
        success: false,
        message,
        page_count: 0,
        character_count: 0,
        word_count: 0,
    }
}

/// The first step of a parse. A blank text is refused; anything else is a
/// job for the engine, under the translated configuration.
pub open spec fn parse_step(text: Seq<char>, conf: SimpleConfView) -> ParseStepView {
    if is_blank(text) {
        ParseStepView::Done(parse_failure(empty_text_message()))
    } else {
        ParseStepView::Parse(ParseJobView { text, conf: translate(conf), generate_html: false })
    }
}

/// The measures of a text that the engine took. The page count is always
/// one; the character count is the length of the text in bytes and the
/// word count the number of its whitespace-delimited words, each as a
/// 32-bit signed count.
pub open spec fn measured(text: Seq<char>) -> ParseResultView {
    ParseResultView {
        success: true,
        message: parse_done_message(),
        page_count: 1,
        character_count: wrap_i32(utf8_len(text) as int),
        word_count: wrap_i32(word_count(text) as int),
    }
}

/// The result of a parse with statistics: the refusal of a blank text, the
/// measures of any other.
pub open spec fn parse_stats(text: Seq<char>) -> ParseResultView {
    if is_blank(text) {
        parse_failure(empty_text_message())
    } else {
        measured(text)
    }
}

/// The serialised form of a parse: the engine's text where there is one,
/// the empty object where there is none.
pub open spec fn serialized_form(serialized: Option<Seq<char>>) -> Seq<char> {
    match serialized {
        Some(json) => json,
        None => "{}"@,
    }
}

/// The digit that stands for `n` in the escape of a control character.
pub open spec fn hex_digit(n: u32) -> char {
    "0123456789abcdef"@[n as int]
}

/// How one character stands inside a JSON string. The quotation mark and
/// the backslash get a backslash before them; backspace, tab, line feed,
/// form feed and carriage return get their letter; every other character
/// below the space is written as `\u00` and two digits; anything else
/// stands as it is.
pub open spec fn json_escape(c: char) -> Seq<char> {
    let n = c as u32;
    if n == 0x22 {
        seq!['\\', '"']
    } else if n == 0x5C {
        seq!['\\', '\\']
    } else if n == 0x08 {
        seq!['\\', 'b']
    } else if n == 0x09 {
        seq!['\\', 't']
    } else if n == 0x0A {
        seq!['\\', 'n']
    } else if n == 0x0C {
        seq!['\\', 'f']
    } else if n == 0x0D {
        seq!['\\', 'r']
    } else if n < 0x20 {
        seq!['\\', 'u', '0', '0', hex_digit(n / 16), hex_digit(n % 16)]
    } else {
        seq![c]
    }
}

/// The characters of `text`, each as it stands inside a JSON string.
pub open spec fn json_escaped(text: Seq<char>) -> Seq<char>
    decreases text.len(),
{
    if text.len() == 0 {
        Seq::empty()
    } else {
        json_escaped(text.drop_last()) + json_escape(text.last())
    }
}

/// The JSON string of `text`: its characters between quotation marks, each
/// as it stands inside a JSON string.
pub open spec fn json_string(text: Seq<char>) -> Seq<char> {
    seq!['"'] + json_escaped(text) + seq!['"']
}

/// Whether `c` stands as it is inside a JSON string.
pub open spec fn is_plain(c: char) -> bool {
    let n = c as u32;
    n >= 0x20 && n != 0x22 && n != 0x5C
}

/// A text of plain characters stands as it is inside a JSON string.
pub proof fn lemma_plain_text_is_not_escaped(text: Seq<char>)
    requires
        forall|i: int| 0 <= i < text.len() ==> is_plain(#[trigger] text[i]),
    ensures
        json_escaped(text) == text,
        json_string(text) == seq!['"'] + text + seq!['"'],
    decreases text.len(),
{
    if text.len() > 0 {
        lemma_plain_text_is_not_escaped(text.drop_last());
        assert(is_plain(text[text.len() - 1]));
        assert(json_escape(text.last()) =~= seq![text.last()]);
        assert(json_escaped(text) =~= text);
    } else {
        assert(json_escaped(text) =~= text);
    }
}

/// `serde_json::to_string` on a string slice. It writes the slice as one
/// JSON string into memory: a quotation mark, each character as
/// [`json_escape`] has it, a quotation mark. It returns an error only
/// where a value refuses to be written, or a map has a key that is no
/// string, or the writer fails: none of these can hold of a string slice
/// written into memory, so a result always comes back.
#[verifier::external_body]
fn to_json_string(text: &str) -> (quoted: Option<String>)
    ensures
        quoted is Some,
        quoted matches Some(json) ==> json@ == json_string(text@),
{
    serde_json::to_string(text).ok()
}

/// How a result that ended a parse without the engine goes to the host as
/// text: an object of its success flag and its message, the message as
/// the JSON string `quoted`; the empty object where there is no such
/// string.
pub open spec fn reply_form(success: bool, quoted: Option<Seq<char>>) -> Seq<char> {
    match quoted {
        Some(message) => "{\"success\":"@ + (if success {
            "true"@
        } else {
            "false"@
        }) + ",\"message\":"@ + message + "}"@,
        None => "{}"@,
    }
}

/// Begins a parse of `text`, under `config` or the default configuration.
pub fn parse_fountain_text(text: String, config: Option<SimpleConf>) -> (step: ParseStep)
    ensures
        step@ == parse_step(text@, conf_or_default(config)),
        step is Done <==> is_blank(text@),
{
    if is_blank_text(text.as_str()) {
        return ParseStep::Done(
            ParseResult {
                success: false,
                message: "Fountain文本不能为空".to_owned(),
                page_count: 0,
                character_count: 0,
                word_count: 0,
            },
        );
    }
    let conf: Conf = config.unwrap_or_default().into();
    ParseStep::Parse(ParseJob { text, conf, generate_html: false })
}

/// Ends a parse that the engine took, where its result goes to the host as
/// text: hands on what the engine's result serialised to, or the empty
/// object `{}` where it did not serialise.
pub fn serialized_or_empty(serialized: Option<String>) -> (json: String)
    ensures
        json@ == serialized_form(optional_text(serialized)),
{
    match serialized {
        Some(json) => json,
        None => "{}".to_owned(),
    }
}

/// Frames a result for the host as text, its message given as the JSON
/// string `quoted`.
pub fn reply_text(success: bool, quoted: Option<String>) -> (json: String)
    ensures
        json@ == reply_form(success, optional_text(quoted)),
{
    match quoted {
        Some(message) => {
            let flag: &str = if success {
                "true"
            } else {
                "false"
            };
            "{\"success\":".to_owned().concat(flag).concat(",\"message\":").concat(
                message.as_str(),
            ).concat("}")
        },
        None => "{}".to_owned(),
    }
}

/// Ends a parse that was refused, where its result goes to the host as
/// text: the refusal as an object that holds its flag and its message.
pub fn serialized_refusal(refusal: &ParseResult) -> (json: String)
    ensures
        json@ == reply_form(refusal.success, Some(json_string(refusal.message@))),
{
    reply_text(refusal.success, to_json_string(refusal.message.as_str()))
}

/// Parses for statistics: refuses a blank text as a parse does, and
/// measures any other.
pub fn parse_fountain_text_with_stats(text: String, config: Option<SimpleConf>) -> (result:
    ParseResult)
    ensures
        result@ == parse_stats(text@),
        result.success <==> !is_blank(text@),
{
    match parse_fountain_text(text, config) {
        ParseStep::Done(refusal) => refusal,
        ParseStep::Parse(job) => ParseResult {
            success: true,
            message: "Fountain文本解析成功".to_owned(),
            page_count: 1,
            character_count: wrapped_count(encoded_len(job.text.as_str())),
            word_count: wrapped_count(count_words(job.text.as_str())),
        },
    }
}

} // verus!
