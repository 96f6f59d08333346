//! The records in which the adapter answers its host, and the texts of its
//! messages.

use vstd::prelude::*;

verus! {

/// The outcome of an export.
#[derive(Debug)]
pub struct ExportResult {
    pub success: bool,
    pub message: String,
    /// Where the document was written, after an export to a file.
    pub file_path: Option<String>,
    /// The encoded document, after an export that wrote no file.
    pub payload: Option<String>,
}

/// What an [`ExportResult`] holds, with each text as its characters.
pub struct ExportResultView {
    pub success: bool,
    pub message: Seq<char>,
    pub file_path: Option<Seq<char>>,
    pub payload: Option<Seq<char>>,
}

/// The characters of an optional text.
pub open spec fn optional_text(text: Option<String>) -> Option<Seq<char>> {
    match text {
        Some(text) => Some(text@),
        None => None,
    }
}

impl View for ExportResult {
    type V = ExportResultView;

    open spec fn view(&self) -> ExportResultView {
        ExportResultView {
            success: self.success,
            message: self.message@,
            file_path: optional_text(self.file_path),
            payload: optional_text(self.payload),
        }
    }
}

impl Clone for ExportResult {
    fn clone(&self) -> (copy: ExportResult)
        ensures
            copy@ == self@,
    {
        ExportResult {
            success: self.success,
            message: self.message.clone(),
            file_path: clone_optional_text(&self.file_path),
            payload: clone_optional_text(&self.payload),
        }
    }
}

/// The outcome of a parse, with the measures of the text.
#[derive(Debug)]
pub struct ParseResult {
    pub success: bool,
    pub message: String,
    pub page_count: i32,
    pub character_count: i32,
    pub word_count: i32,
}

/// What a [`ParseResult`] holds, with its message as characters.
pub struct ParseResultView {
    pub success: bool,
    pub message: Seq<char>,
    pub page_count: int,
    pub character_count: int,
    pub word_count: int,
}

impl View for ParseResult {
    type V = ParseResultView;

    open spec fn view(&self) -> ParseResultView {
        ParseResultView {
            success: self.success,
            message: self.message@,
            page_count: self.page_count as int,
            character_count: self.character_count as int,
            word_count: self.word_count as int,
        }
    }
}

impl Clone for ParseResult {
    fn clone(&self) -> (copy: ParseResult)
        ensures
            copy@ == self@,
    {
        ParseResult {
            success: self.success,
            message: self.message.clone(),
            page_count: self.page_count,
            character_count: self.character_count,
            word_count: self.word_count,
        }
    }
}

/// The message for a text that is empty or blank.
pub open spec fn empty_text_message() -> Seq<char> {
    "Fountain文本不能为空"@
}

/// The message for a destination that is empty or blank.
pub open spec fn empty_path_message() -> Seq<char> {
    "输出路径不能为空"@
}

/// The message for a document written to its file.
pub open spec fn export_done_message() -> Seq<char> {
    "DOCX文档导出成功"@
}

/// What stands before the engine's words when an export to a file fails.
pub open spec fn export_failed_prefix() -> Seq<char> {
    "导出失败: "@
}

/// The message for a document encoded for preview.
pub open spec fn preview_done_message() -> Seq<char> {
    "DOCX Base64编码生成成功"@
}

/// What stands before the engine's words when an export for preview fails.
pub open spec fn preview_failed_prefix() -> Seq<char> {
    "生成失败: "@
}

/// The message for a text that was parsed.
pub open spec fn parse_done_message() -> Seq<char> {
    "Fountain文本解析成功"@
}

/// A copy of an optional text.
fn clone_optional_text(text: &Option<String>) -> (copy: Option<String>)
    ensures
        optional_text(copy) == optional_text(*text),
{
    match text {
        Some(text) => Some(text.clone()),
        None => None,
    }
}

/// None of the adapter's messages is empty.
pub proof fn lemma_messages_not_empty()
    ensures
        empty_text_message().len() > 0,
        empty_path_message().len() > 0,
        export_done_message().len() > 0,
        export_failed_prefix().len() > 0,
        preview_done_message().len() > 0,
        preview_failed_prefix().len() > 0,
        parse_done_message().len() > 0,
{
    reveal_strlit("Fountain文本不能为空");
    reveal_strlit("输出路径不能为空");
    reveal_strlit("DOCX文档导出成功");
    reveal_strlit("导出失败: ");
    reveal_strlit("DOCX Base64编码生成成功");
    reveal_strlit("生成失败: ");
    reveal_strlit("Fountain文本解析成功");
}

} // verus!
