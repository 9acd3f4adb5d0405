//! The processor: a running count of the items it has seen, and a record for
//! each one.

use vstd::prelude::*;

use crate::decimal::{decimal, decimal_text, lemma_decimal_has_no_comma, lemma_decimal_injective};
use crate::lines::{lines_of, text_lines};

verus! {

/// What is recorded of one processed item.
#[derive(Debug)]
pub struct ProcessData {
    /// The item's length in bytes (UTF-8).
    pub length: usize,
    /// When the item was processed, in RFC 3339 form.
    pub processed_at: String,
    /// The item's number: 1 for the first item a processor handles.
    pub item_number: usize,
}

/// The outcome of processing one item.
#[derive(Debug)]
pub struct ProcessResult {
    /// Whether the operation was successful.
    pub success: bool,
    /// A message describing the outcome.
    pub message: String,
    /// What was recorded of the item.
    pub data: Option<ProcessData>,
}

/// A summary of a processor's state.
#[derive(Debug, Clone, Copy, PartialEq, Eq)]
pub struct Stats {
    /// How many items have been processed.
    pub processed_count: usize,
    /// Whether the processor is verbose.
    pub verbose: bool,
}

/// Counts the items it processes.
#[derive(Debug)]
pub struct LayerTwoProcessor {
    verbose: bool,
    processed_count: usize,
}

/// The message for the item numbered `n`.
pub open spec fn item_message(n: nat) -> Seq<char> {
    "Successfully processed item #"@ + decimal(n)
}

/// The JSON text of a summary: an object with an integer `processed_count`
/// and a boolean `verbose`, in that order, without white space.
pub open spec fn stats_json(processed_count: nat, verbose: bool) -> Seq<char> {
    "{\"processed_count\":"@ + decimal(processed_count) + ",\"verbose\":"@ + (if verbose {
        "true"@
    } else {
        "false"@
    }) + "}"@
}

/// Reading the summary text back gives the summary it was written from: two
/// summaries with the same JSON text have the same count and the same flag.
pub proof fn lemma_stats_json_round_trip(c1: nat, v1: bool, c2: nat, v2: bool)
    requires
        stats_json(c1, v1) == stats_json(c2, v2),
    ensures
        c1 == c2,
        v1 == v2,
{
    reveal_strlit(",\"verbose\":");
    reveal_strlit("true");
    reveal_strlit("false");
    let p = "{\"processed_count\":"@;
    let q = ",\"verbose\":"@;
    let b1 = if v1 { "true"@ } else { "false"@ };
    let b2 = if v2 { "true"@ } else { "false"@ };
    let d1 = decimal(c1);
    let d2 = decimal(c2);
    let u1 = d1 + q + b1 + "}"@;
    let u2 = d2 + q + b2 + "}"@;
    assert(stats_json(c1, v1) =~= p + u1);
    assert(stats_json(c2, v2) =~= p + u2);
    assert(u1 =~= stats_json(c1, v1).subrange(p.len() as int, stats_json(c1, v1).len() as int));
    assert(u2 =~= stats_json(c2, v2).subrange(p.len() as int, stats_json(c2, v2).len() as int));
    assert(u1 == u2);
    lemma_decimal_has_no_comma(c1);
    lemma_decimal_has_no_comma(c2);
    if d1.len() < d2.len() {
        assert(u1[d1.len() as int] == q[0]);
        assert(u2[d1.len() as int] == d2[d1.len() as int]);
    }
    if d2.len() < d1.len() {
        assert(u2[d2.len() as int] == q[0]);
        assert(u1[d2.len() as int] == d1[d2.len() as int]);
    }
    assert(d1.len() == d2.len());
    assert(d1 =~= u1.subrange(0, d1.len() as int));
    assert(d2 =~= u2.subrange(0, d2.len() as int));
    lemma_decimal_injective(c1, c2);
    let k = (d1.len() + q.len()) as int;
    assert(b1 + "}"@ =~= u1.subrange(k, u1.len() as int));
    assert(b2 + "}"@ =~= u2.subrange(k, u2.len() as int));
    assert(b1.len() == b2.len());
    assert(b1 =~= (b1 + "}"@).subrange(0, b1.len() as int));
    assert(b2 =~= (b2 + "}"@).subrange(0, b2.len() as int));
}

/// An empty text has no line, so a run over it counts nothing, and its
/// summary reads `{"processed_count":0,"verbose":false}` (or `true`).
pub proof fn lemma_empty_input_summary(verbose: bool)
    ensures
        lines_of(Seq::<char>::empty()).len() == 0,
        !verbose ==> stats_json(0, verbose) == "{\"processed_count\":0,\"verbose\":false}"@,
        verbose ==> stats_json(0, verbose) == "{\"processed_count\":0,\"verbose\":true}"@,
{
    reveal_strlit("{\"processed_count\":");
    reveal_strlit(",\"verbose\":");
    reveal_strlit("true");
    reveal_strlit("false");
    reveal_strlit("}");
    reveal_strlit("{\"processed_count\":0,\"verbose\":false}");
    reveal_strlit("{\"processed_count\":0,\"verbose\":true}");
    assert(decimal(0) =~= seq!['0']);
    if verbose {
        assert(stats_json(0, verbose) =~= "{\"processed_count\":0,\"verbose\":true}"@);
    } else {
        assert(stats_json(0, verbose) =~= "{\"processed_count\":0,\"verbose\":false}"@);
    }
}

/// A time stamp in UTC as `DateTime::to_rfc3339` writes it ends in `+00:00`.
pub open spec fn is_utc_rfc3339(s: Seq<char>) -> bool {
    s.len() >= 6 && s.subrange(s.len() - 6, s.len() as int) == "+00:00"@
}

/// The record that processing `item` as item number `n` at `at` gives.
pub open spec fn describes(r: ProcessResult, item: Seq<char>, n: nat, at: Seq<char>) -> bool {
    &&& r.success
    &&& r.message@ == item_message(n)
    &&& r.data is Some
    &&& r.data->0.length == vstd::utf8::encode_utf8(item).len()
    &&& r.data->0.item_number == n
    &&& r.data->0.processed_at@ == at
}

/// Relies on `chrono::Utc::now` and `DateTime::to_rfc3339`: the current time,
/// written with the offset `+00:00`.
#[verifier::external_body]
fn utc_now_rfc3339() -> (r: String)
    ensures
        is_utc_rfc3339(r@),
{
    chrono::Utc::now().to_rfc3339()
}

/// Relies on serde_json: a `Value::Object` over its default map, which keeps
/// its keys sorted, written by `Display` in compact form; an unsigned integer
/// is written in decimal.
#[verifier::external_body]
fn stats_json_text(processed_count: usize, verbose: bool) -> (r: String)
    ensures
        r@ == stats_json(processed_count as nat, verbose),
{
    let mut fields = serde_json::Map::new();
    fields.insert("processed_count".to_owned(), serde_json::Value::from(processed_count));
    fields.insert("verbose".to_owned(), serde_json::Value::Bool(verbose));
    serde_json::Value::Object(fields).to_string()
}

impl Stats {
    /// The summary as JSON text, `{"processed_count":<n>,"verbose":<b>}`.
    pub fn to_json(&self) -> (r: String)
        ensures
            r@ == stats_json(self.processed_count as nat, self.verbose),
    {
        stats_json_text(self.processed_count, self.verbose)
    }
}

impl LayerTwoProcessor {
    /// How many items this processor has handled.
    pub closed spec fn processed(&self) -> nat {
        self.processed_count as nat
    }

    /// Whether this processor is verbose.
    pub closed spec fn is_verbose(&self) -> bool {
        self.verbose
    }

    /// Creates a new processor instance with the given verbosity level.
    pub fn new(verbose: bool) -> (r: Self)
        ensures
            r.processed() == 0,
            r.is_verbose() == verbose,
    {
        Self { verbose, processed_count: 0 }
    }

    /// Processes `data` as the next item, stamped with `processed_at`.
    pub fn process_at(&mut self, data: &str, processed_at: String) -> (r: ProcessResult)
        requires
            old(self).processed() < usize::MAX,
        ensures
            final(self).processed() == old(self).processed() + 1,
            final(self).is_verbose() == old(self).is_verbose(),
            describes(r, data@, final(self).processed(), processed_at@),
    {
        self.processed_count = self.processed_count + 1;
        let mut message = "Successfully processed item #".to_owned();
        let number = decimal_text(self.processed_count);
        message.append(number.as_str());
        let length = data.as_bytes().len();
        ProcessResult {
            success: true,
            message,
            data: Some(
                ProcessData {
                    length,
                    processed_at,
                    item_number: self.processed_count,
                },
            ),
        }
    }

    /// Processes `data` as the next item, stamped with the current time.
    pub fn process(&mut self, data: &str) -> (r: ProcessResult)
        requires
            old(self).processed() < usize::MAX,
        ensures
            final(self).processed() == old(self).processed() + 1,
            final(self).is_verbose() == old(self).is_verbose(),
            r.data is Some,
            is_utc_rfc3339(r.data->0.processed_at@),
            describes(r, data@, final(self).processed(), r.data->0.processed_at@),
    {
        let now = utc_now_rfc3339();
        self.process_at(data, now)
    }

    /// Returns the current processing statistics.
    pub fn get_stats(&self) -> (s: Stats)
        ensures
            s.processed_count == self.processed(),
            s.verbose == self.is_verbose(),
    {
        Stats { processed_count: self.processed_count, verbose: self.verbose }
    }
}

/// Runs a new processor over each line of `text`, in order, and returns it
/// with the record of every line.
pub fn run_text(verbose: bool, text: &str) -> (r: (LayerTwoProcessor, Vec<ProcessResult>))
    ensures
        r.0.processed() == lines_of(text@).len(),
        r.0.is_verbose() == verbose,
        r.1@.len() == lines_of(text@).len(),
        forall|i: int|
            0 <= i < r.1@.len() ==> {
                &&& #[trigger] r.1@[i].data is Some
                &&& is_utc_rfc3339(r.1@[i].data->0.processed_at@)
                &&& describes(r.1@[i], lines_of(text@)[i], (i + 1) as nat, r.1@[i].data->0.processed_at@)
            },
{
    let lines = text_lines(text);
    let mut processor = LayerTwoProcessor::new(verbose);
    let mut results: Vec<ProcessResult> = Vec::new();
    let mut k: usize = 0;
    while k < lines.len()
        invariant
            k <= lines@.len(),
            lines@.len() == lines_of(text@).len(),
            forall|i: int| 0 <= i < lines@.len() ==> #[trigger] lines@[i]@ == lines_of(text@)[i],
            processor.processed() == k,
            processor.is_verbose() == verbose,
            results@.len() == k,
            forall|i: int|
                0 <= i < k ==> {
                    &&& #[trigger] results@[i].data is Some
                    &&& is_utc_rfc3339(results@[i].data->0.processed_at@)
                    &&& describes(results@[i], lines_of(text@)[i], (i + 1) as nat, results@[i].data->0.processed_at@)
                },
        decreases lines@.len() - k,
    {
        let r = processor.process(lines[k]);
        results.push(r);
        k = k + 1;
    }
    (processor, results)
}

} // verus!
