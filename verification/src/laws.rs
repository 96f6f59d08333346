//! What holds of the adapter as a whole, stated over the models that its
//! contracts use.

use crate::config::{
    chinese_a4_name, chinese_conf, default_conf, english_conf, english_letter_name, SimpleConf,
    SimpleConfView,
};
use crate::engine::{translate, Conf, ConfView, PaperView, PrintProfile};
use crate::export::{
    export_failure, export_result, export_step, lemma_preview_destination_not_blank,
    preview_destination, ExportJobView, ExportStepView,
};
use crate::parse::{
    is_plain, json_string, lemma_plain_text_is_not_escaped, measured, parse_failure,
    parse_stats, parse_step, reply_form, serialized_form, ParseStepView,
};
use crate::results::{
    empty_path_message, empty_text_message, export_done_message, export_failed_prefix,
    lemma_messages_not_empty, preview_done_message, preview_failed_prefix,
};
use crate::text::{
    is_blank, is_white_space, lemma_blank_iff_no_word, lemma_utf8_len_bounds,
    lemma_utf8_len_push, lemma_word_count_bound, lemma_word_count_step, utf8_len, utf8_width,
    word_count, wrap_i32,
};
use vstd::prelude::*;
use vstd::std_specs::convert::FromSpec;

verus! {

/// Translation is a function of what the configuration holds: two
/// configurations that hold the same translate to engine configurations
/// that hold the same, namely `translate` of it.
pub proof fn law_translation_is_deterministic(a: SimpleConf, b: SimpleConf)
    requires
        a@ == b@,
    ensures
        Conf::from_spec(a)@ == Conf::from_spec(b)@,
        Conf::from_spec(a)@ == translate(a@),
{
}

/// The two profile names differ, so the default name does not select the
/// letter profile.
pub proof fn law_profile_names_differ()
    ensures
        chinese_a4_name() != english_letter_name(),
        PrintProfile::named(chinese_a4_name()) == PrintProfile::ChineseA4,
        PrintProfile::named(english_letter_name()) == PrintProfile::EnglishLetter,
{
    reveal_strlit("中文a4");
    reveal_strlit("英文letter");
    assert(chinese_a4_name().len() == 4);
    assert(english_letter_name().len() == 8);
}

/// A blank text is refused by every operation, whatever the destination,
/// the configuration and the kind of export: the result is a failure with
/// no path and no payload, and its message is the one for an empty text,
/// which is not empty.
pub proof fn law_blank_text_is_refused(
    text: Seq<char>,
    destination: Seq<char>,
    conf: SimpleConfView,
    preview: bool,
)
    requires
        is_blank(text),
    ensures
        export_step(text, destination, conf, preview) == ExportStepView::Done(
            export_failure(empty_text_message()),
        ),
        parse_step(text, conf) == ParseStepView::Done(parse_failure(empty_text_message())),
        parse_stats(text) == parse_failure(empty_text_message()),
        !export_failure(empty_text_message()).success,
        export_failure(empty_text_message()).file_path.is_none(),
        export_failure(empty_text_message()).payload.is_none(),
        !parse_failure(empty_text_message()).success,
        empty_text_message().len() > 0,
{
    lemma_messages_not_empty();
}

/// A blank destination is refused whatever the text and the configuration:
/// the export ends at once in a failure whose message is not empty.
pub proof fn law_blank_destination_is_refused(
    text: Seq<char>,
    destination: Seq<char>,
    conf: SimpleConfView,
    preview: bool,
)
    requires
        is_blank(destination),
    ensures
        export_step(text, destination, conf, preview) matches ExportStepView::Done(result) && {
            &&& !result.success
            &&& result.message.len() > 0
            &&& result.file_path.is_none()
            &&& result.payload.is_none()
            &&& !is_blank(text) ==> result.message == empty_path_message()
        },
{
    lemma_messages_not_empty();
}

/// Whether an operation is refused depends on the text and the destination
/// alone, never on the configuration.
pub proof fn law_refusal_ignores_configuration(
    text: Seq<char>,
    destination: Seq<char>,
    conf: SimpleConfView,
    preview: bool,
)
    ensures
        export_step(text, destination, conf, preview) is Done <==> is_blank(text) || is_blank(
            destination,
        ),
        parse_step(text, conf) is Done <==> is_blank(text),
        parse_stats(text).success <==> !is_blank(text),
{
}

/// A profile name other than that of the letter profile, known or not,
/// selects the default profile, which keeps the engine's own paper; the
/// translation is the one of the same configuration with the default
/// profile named, and no operation is refused on account of the name.
pub proof fn law_unknown_profile_is_default(
    text: Seq<char>,
    destination: Seq<char>,
    conf: SimpleConfView,
    preview: bool,
)
    requires
        conf.print_profile != english_letter_name(),
    ensures
        translate(conf).print_profile == PrintProfile::ChineseA4,
        translate(conf).print_profile.paper_spec().is_none(),
        translate(conf) == translate(
            SimpleConfView { print_profile: chinese_a4_name(), ..conf },
        ),
        !is_blank(text) && !is_blank(destination) ==> export_step(
            text,
            destination,
            conf,
            preview,
        ) is Generate,
        !is_blank(text) ==> parse_step(text, conf) is Parse,
{
    law_profile_names_differ();
}

/// The default configuration translates to the default profile with the
/// engine's own paper, not to letter paper, and every other field is the
/// default's.
pub proof fn law_default_translates_to_default_profile()
    ensures
        translate(default_conf()).print_profile == PrintProfile::ChineseA4,
        translate(default_conf()).print_profile.paper_spec().is_none(),
        translate(default_conf()).print_title_page,
        !translate(default_conf()).double_space_between_scenes,
        !translate(default_conf()).print_sections,
        translate(default_conf()).print_synopsis,
        translate(default_conf()).print_actions,
        translate(default_conf()).print_headers,
        translate(default_conf()).print_dialogues,
        !translate(default_conf()).number_sections,
        translate(default_conf()).use_dual_dialogue,
        translate(default_conf()).print_notes,
        translate(default_conf()).print_header.len() == 0,
        translate(default_conf()).print_footer.len() == 0,
        translate(default_conf()).print_watermark.len() == 0,
        translate(default_conf()).scenes_numbers == "both"@,
        !translate(default_conf()).each_scene_on_new_page,
{
    law_profile_names_differ();
}

/// The Chinese preset is the default configuration; the English preset
/// translates to the letter profile, whose paper is 8.5 by 11 inches.
pub proof fn law_presets()
    ensures
        chinese_conf() == default_conf(),
        translate(english_conf()).print_profile == PrintProfile::EnglishLetter,
        translate(english_conf()).double_space_between_scenes,
        translate(english_conf()).print_profile.paper_spec() == Some(
            PaperView { paper_size: "letter"@, page_width: 850, page_height: 1100 },
        ),
{
}

/// An export for preview is refused for a blank text only: the preview
/// destination is never taken for a blank one, and the job asks for an
/// encoded document.
pub proof fn law_preview_needs_text_only(text: Seq<char>, conf: SimpleConfView)
    ensures
        export_step(text, preview_destination(), conf, true) is Done <==> is_blank(text),
        export_step(text, preview_destination(), conf, true) matches ExportStepView::Generate(
            job,
        ) ==> job.preview && job.is_in_memory(),
{
    lemma_preview_destination_not_blank();
}

/// An export succeeds exactly when the engine does. Where the destination
/// is a file, success is reported under that destination and without
/// payload; where it asks for an encoded document, with the payload that
/// the engine gave and without path. A failure carries neither path nor
/// payload, and its message ends in the engine's words.
pub proof fn law_export_result(job: ExportJobView, outcome: Result<Option<Seq<char>>, Seq<char>>)
    ensures
        export_result(job, outcome).success <==> outcome is Ok,
        outcome is Ok && !job.is_in_memory() ==> export_result(job, outcome).file_path == Some(
            job.destination,
        ) && export_result(job, outcome).payload.is_none(),
        outcome is Ok && job.is_in_memory() ==> export_result(job, outcome).file_path.is_none()
            && export_result(job, outcome).payload == outcome->Ok_0,
        outcome matches Err(words) ==> {
            let result = export_result(job, outcome);
            &&& result.file_path.is_none()
            &&& result.payload.is_none()
            &&& result.message.len() > words.len()
            &&& result.message.skip(result.message.len() - words.len()) == words
        },
        export_result(job, outcome).message.len() > 0,
{
    lemma_messages_not_empty();
    if let Err(words) = outcome {
        let result = export_result(job, outcome);
        assert(result.message.skip(result.message.len() - words.len()) =~= words);
    }
}

/// The wording of a result goes by how the export was begun, never by its
/// destination. An export that was not begun as a preview reports the
/// engine's failure behind the prefix of a file export and its success
/// with the message of a written document, also where the destination is
/// the one of a preview; an export begun as a preview uses the wording of
/// a preview.
pub proof fn law_wording_goes_by_operation(
    text: Seq<char>,
    destination: Seq<char>,
    conf: ConfView,
    words: Seq<char>,
    encoded: Option<Seq<char>>,
)
    ensures
        ({
            let job = ExportJobView {
                text,
                destination,
                conf,
                generate_html: true,
                preview: false,
            };
            &&& export_result(job, Err(words)) == export_failure(export_failed_prefix() + words)
            &&& export_result(job, Ok(encoded)).message == export_done_message()
        }),
        ({
            let job = ExportJobView {
                text,
                destination,
                conf,
                generate_html: true,
                preview: true,
            };
            &&& export_result(job, Err(words)) == export_failure(preview_failed_prefix() + words)
            &&& export_result(job, Ok(encoded)).message == preview_done_message()
        }),
{
}

/// What goes to the host as the serialised form of a parse is never empty
/// where the engine's own text is not.
pub proof fn law_serialized_form_not_empty(serialized: Option<Seq<char>>)
    requires
        serialized matches Some(json) ==> json.len() > 0,
    ensures
        serialized_form(serialized).len() > 0,
{
    reveal_strlit("{}");
}

/// A refused parse goes to the host with its message in it: the text is
/// the object of the flag `false` and the message as a JSON string, and
/// nothing else.
pub proof fn law_refusal_reply_holds_message(quoted: Seq<char>)
    ensures
        reply_form(false, Some(quoted)) == "{\"success\":false,\"message\":"@ + quoted + "}"@,
        reply_form(false, Some(quoted)).len() == quoted.len() + 28,
{
    reveal_strlit("{\"success\":");
    reveal_strlit("false");
    reveal_strlit(",\"message\":");
    reveal_strlit("{\"success\":false,\"message\":");
    reveal_strlit("}");
    assert("{\"success\":"@ + "false"@ + ",\"message\":"@ =~= "{\"success\":false,\"message\":"@);
}

/// A parse that is refused for a blank text goes to the host as this text
/// and no other: the message stands in it as it is, since none of its
/// characters is escaped.
pub proof fn law_blank_text_reply()
    ensures
        json_string(empty_text_message()) == "\"Fountain文本不能为空\""@,
        reply_form(false, Some(json_string(empty_text_message())))
            == "{\"success\":false,\"message\":\"Fountain文本不能为空\"}"@,
{
    let message = empty_text_message();
    reveal_strlit("Fountain文本不能为空");
    reveal_strlit("\"Fountain文本不能为空\"");
    reveal_strlit("{\"success\":false,\"message\":");
    reveal_strlit("}");
    reveal_strlit("{\"success\":false,\"message\":\"Fountain文本不能为空\"}");
    assert forall|i: int| 0 <= i < message.len() implies is_plain(#[trigger] message[i]) by {}
    lemma_plain_text_is_not_escaped(message);
    assert(json_string(message) =~= "\"Fountain文本不能为空\""@);
    law_refusal_reply_holds_message(json_string(message));
    assert("{\"success\":false,\"message\":"@ + json_string(message) + "}"@
        =~= "{\"success\":false,\"message\":\"Fountain文本不能为空\"}"@);
}

/// A count below 2^31 is reported as it is, and every reported count lies
/// in the range of a 32-bit signed integer.
pub proof fn law_counts_in_range(n: nat)
    ensures
        n < 0x8000_0000 ==> wrap_i32(n as int) == n,
        -0x8000_0000 <= wrap_i32(n as int) < 0x8000_0000,
{
}

/// A text has at most as many words as bytes.
pub proof fn law_words_at_most_bytes(text: Seq<char>)
    ensures
        word_count(text) <= utf8_len(text),
{
    lemma_word_count_bound(text);
    lemma_utf8_len_bounds(text);
}

/// Whitespace at the end of a text adds no word, and adds its own bytes to
/// the length.
pub proof fn law_trailing_whitespace_adds_no_word(text: Seq<char>, c: char)
    requires
        is_white_space(c),
    ensures
        word_count(text.push(c)) == word_count(text),
        utf8_len(text.push(c)) == utf8_len(text) + utf8_width(c),
        is_blank(text.push(c)) <==> is_blank(text),
{
    let longer = text.push(c);
    lemma_word_count_step(longer, text.len() as int);
    assert(longer.take(longer.len() as int) =~= longer);
    assert(longer.take(text.len() as int) =~= text);
    lemma_utf8_len_push(text, c);
    lemma_blank_iff_no_word(text);
    lemma_blank_iff_no_word(longer);
}

/// The measures of a text of moderate size: a text under 2^31 bytes that
/// is not blank is reported with its length in bytes and the number of its
/// words, of which it has at least one and at most as many as bytes.
pub proof fn law_measures_of_moderate_text(text: Seq<char>)
    requires
        !is_blank(text),
        utf8_len(text) < 0x8000_0000,
    ensures
        parse_stats(text) == measured(text),
        measured(text).character_count == utf8_len(text),
        measured(text).word_count == word_count(text),
        1 <= measured(text).word_count <= measured(text).character_count,
        measured(text).page_count == 1,
{
    lemma_blank_iff_no_word(text);
    lemma_utf8_len_bounds(text);
    lemma_word_count_bound(text);
}

} // verus!
