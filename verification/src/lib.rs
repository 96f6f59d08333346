//! The verified core of a bridge between a host application and a
//! screenplay engine: it validates what the host hands over, translates
//! the host's configuration into the engine's, says what the engine is to
//! be asked for, and reports the engine's answer in the host's records.
//! The calls into the engine are made by whoever drives these steps.

pub mod config;
pub mod engine;
pub mod export;
pub mod laws;
pub mod parse;
pub mod results;
pub mod text;

pub use config::{
    create_chinese_config, create_default_config, create_english_config, SimpleConf,
};
pub use engine::{Conf, Paper, PrintProfile};
pub use export::{export_to_docx, export_to_docx_base64, finish_export, ExportJob, ExportStep};
pub use parse::{
    parse_fountain_text, parse_fountain_text_with_stats, reply_text, serialized_or_empty,
    serialized_refusal, ParseJob, ParseStep,
};
pub use results::{ExportResult, ParseResult};

use vstd::prelude::*;

verus! {

/// What [`test_connection`] answers.
pub open spec fn connection_message() -> Seq<char> {
    "Rust bridge connection successful!"@
}

/// Answers a host that probes whether the bridge is there.
pub fn test_connection() -> (message: String)
    ensures
        message@ == connection_message(),
{
    "Rust bridge connection successful!".to_owned()
}

} // verus!
