//! LayerTwo: counts the lines of a text, describing each one as it goes, and
//! summarises the run as a small JSON object.

mod decimal;
mod lines;
mod processor;

pub use decimal::{decimal, decimal_text, digit_char, lemma_decimal_injective};
pub use lines::{lines_of, newline_pieces, strip_cr};
pub use processor::{
    describes, is_utc_rfc3339, item_message, lemma_empty_input_summary,
    lemma_stats_json_round_trip, run_text, stats_json, LayerTwoProcessor, ProcessData,
    ProcessResult, Stats,
};
