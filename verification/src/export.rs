//! The decisions of an export: what is refused before the engine is asked,
//! what the engine is asked for, and how its answer is reported.

use crate::config::{conf_or_default, SimpleConf, SimpleConfView};
use crate::engine::{translate, Conf, ConfView};
use crate::results::{
    empty_path_message, empty_text_message, export_done_message, export_failed_prefix,
    preview_done_message, preview_failed_prefix, ExportResult, ExportResultView,
};
use crate::text::{is_blank, is_blank_text, same_text};
use vstd::prelude::*;

verus! {

/// What the engine is asked for: to parse `text` under `conf` and to
/// generate the document at `destination`.
#[derive(Debug)]
pub struct ExportJob {
    pub text: String,
    pub destination: String,
    pub conf: Conf,
    /// Whether the parse also renders HTML; an export always asks for it.
    pub generate_html: bool,
    /// Whether the export was begun as one for preview. The result is
    /// worded by it, whatever the destination.
    pub preview: bool,
}

/// What an [`ExportJob`] holds, with each text as its characters.
pub struct ExportJobView {
    pub text: Seq<char>,
    pub destination: Seq<char>,
    pub conf: ConfView,
    pub generate_html: bool,
    pub preview: bool,
}

impl View for ExportJob {
    type V = ExportJobView;

    open spec fn view(&self) -> ExportJobView {
        ExportJobView {
            text: self.text@,
            destination: self.destination@,
            conf: self.conf@,
            generate_html: self.generate_html,
            preview: self.preview,
        }
    }
}

/// The destination that asks for an encoded document in place of a file.
pub open spec fn preview_destination() -> Seq<char> {
    "$PREVIEW$"@
}

impl ExportJobView {
    /// Whether the destination asks for an encoded document in place of a
    /// file.
    pub open spec fn is_in_memory(self) -> bool {
        self.destination == preview_destination()
    }
}

impl ExportJob {
    /// Whether the destination asks for an encoded document in place of a
    /// file.
    pub fn is_in_memory(&self) -> (in_memory: bool)
        ensures
            in_memory == self@.is_in_memory(),
    {
        same_text(self.destination.as_str(), "$PREVIEW$")
    }
}

/// Where an export stands once its arguments are looked at.
#[derive(Debug)]
pub enum ExportStep {
    /// The export is over without the engine, with this result.
    Done(ExportResult),
    /// The engine has to run this job.
    Generate(ExportJob),
}

/// What an [`ExportStep`] holds.
pub enum ExportStepView {
    Done(ExportResultView),
    Generate(ExportJobView),
}

impl View for ExportStep {
    type V = ExportStepView;

    open spec fn view(&self) -> ExportStepView {
        match self {
            ExportStep::Done(result) => ExportStepView::Done(result@),
            ExportStep::Generate(job) => ExportStepView::Generate(job@),
        }
    }
}

/// The result of an export that failed with `message`.
pub open spec fn export_failure(message: Seq<char>) -> ExportResultView {
    ExportResultView { success: false, message, file_path: None, payload: None }
}

/// The first step of an export, begun as one for preview or not. A blank
/// text is refused, then a blank destination; anything else is a job for
/// the engine, under the translated configuration.
pub open spec fn export_step(
    text: Seq<char>,
    destination: Seq<char>,
    conf: SimpleConfView,
    preview: bool,
) -> ExportStepView {
    if is_blank(text) {
        ExportStepView::Done(export_failure(empty_text_message()))
    } else if is_blank(destination) {
        ExportStepView::Done(export_failure(empty_path_message()))
    } else {
        ExportStepView::Generate(
            ExportJobView {
                text,
                destination,
                conf: translate(conf),
                generate_html: true,
                preview,
            },
        )
    }
}

/// The message of an export that the engine carried out.
pub open spec fn done_message(preview: bool) -> Seq<char> {
    if preview {
        preview_done_message()
    } else {
        export_done_message()
    }
}

/// The message of an export at which the engine failed with `words`.
pub open spec fn failed_message(preview: bool, words: Seq<char>) -> Seq<char> {
    if preview {
        preview_failed_prefix() + words
    } else {
        export_failed_prefix() + words
    }
}

/// What the engine answers to a job: the encoded document where it made
/// one, or its words on what went wrong.
pub open spec fn outcome_view(outcome: Result<Option<String>, String>) -> Result<
    Option<Seq<char>>,
    Seq<char>,
> {
    match outcome {
        Ok(Some(encoded)) => Ok(Some(encoded@)),
        Ok(None) => Ok(None),
        Err(words) => Err(words@),
    }
}

/// The result of a job, given the engine's answer. The message goes by
/// how the export was begun: a failure keeps the engine's words behind the
/// prefix of a file export or of a preview. Path and payload go by the
/// destination: a written file is reported with its path and no payload,
/// an encoded document with the payload and no path.
pub open spec fn export_result(
    job: ExportJobView,
    outcome: Result<Option<Seq<char>>, Seq<char>>,
) -> ExportResultView {
    match outcome {
        Ok(encoded) => if job.is_in_memory() {
            ExportResultView {
                success: true,
                message: done_message(job.preview),
                file_path: None,
                payload: encoded,
            }
        } else {
            ExportResultView {
                success: true,
                message: done_message(job.preview),
                file_path: Some(job.destination),
                payload: None,
            }
        },
        Err(words) => export_failure(failed_message(job.preview, words)),
    }
}

/// The preview destination is no blank text.
pub proof fn lemma_preview_destination_not_blank()
    ensures
        !is_blank(preview_destination()),
{
    reveal_strlit("$PREVIEW$");
    assert(preview_destination()[0] == '$');
}

fn refuse(message: &str) -> (result: ExportResult)
    ensures
        result@ == export_failure(message@),
{
    ExportResult { success: false, message: message.to_owned(), file_path: None, payload: None }
}

fn begin_export(
    text: String,
    destination: String,
    config: Option<SimpleConf>,
    preview: bool,
) -> (step: ExportStep)
    ensures
        step@ == export_step(text@, destination@, conf_or_default(config), preview),
{
    if is_blank_text(text.as_str()) {
        return ExportStep::Done(refuse("Fountain文本不能为空"));
    }
    if is_blank_text(destination.as_str()) {
        return ExportStep::Done(refuse("输出路径不能为空"));
    }
    let conf: Conf = config.unwrap_or_default().into();
    ExportStep::Generate(ExportJob { text, destination, conf, generate_html: true, preview })
}

/// Begins an export of `text` to `output_path`, under `config` or the
/// default configuration.
pub fn export_to_docx(text: String, output_path: String, config: Option<SimpleConf>) -> (step:
    ExportStep)
    ensures
        step@ == export_step(text@, output_path@, conf_or_default(config), false),
        step is Done <==> is_blank(text@) || is_blank(output_path@),
{
    begin_export(text, output_path, config, false)
}

/// Begins an export of `text` for preview: the destination is the one
/// that asks for an encoded document, and no file is written.
pub fn export_to_docx_base64(text: String, config: Option<SimpleConf>) -> (step: ExportStep)
    ensures
        step@ == export_step(text@, preview_destination(), conf_or_default(config), true),
        step is Done <==> is_blank(text@),
{
    proof {
        lemma_preview_destination_not_blank();
    }
    begin_export(text, "$PREVIEW$".to_owned(), config, true)
}

/// Ends an export: reports what the engine answered to `job`.
pub fn finish_export(job: ExportJob, outcome: Result<Option<String>, String>) -> (result:
    ExportResult)
    ensures
        result@ == export_result(job@, outcome_view(outcome)),
        result.success <==> outcome is Ok,
{
    let message: String = match &outcome {
        Ok(_) => if job.preview {
            "DOCX Base64编码生成成功".to_owned()
        } else {
            "DOCX文档导出成功".to_owned()
        },
        Err(words) => if job.preview {
            "生成失败: ".to_owned().concat(words.as_str())
        } else {
            "导出失败: ".to_owned().concat(words.as_str())
        },
    };
    match outcome {
        Ok(encoded) => {
            if job.is_in_memory() {
                ExportResult { success: true, message, file_path: None, payload: encoded }
            } else {
                ExportResult {
                    success: true,
                    message,
                    file_path: Some(job.destination),
                    payload: None,
                }
            }
        },
        Err(_) => ExportResult { success: false, message, file_path: None, payload: None },
    }
}

} // verus!
