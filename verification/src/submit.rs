//! Batch submission: the client handle, the URLs it posts to and polls, the
//! batch identifier taken from the status link, and the bounded polling that
//! follows a submission.

use vstd::prelude::*;

use crate::text::find_char;
use crate::text::spec_dec;
use crate::text::spec_first_index_from;
use crate::text::u64_to_string;
use crate::text::KeyValue;
use crate::text::KeyValueV;
use vstd::string::StrSliceExecFns;
use vstd::string::StringExecFns;

verus! {

/// A client handle bound to one daemon base URL.
#[derive(Clone)]
pub struct ReqwestClient {
    pub url: String,
}

impl ReqwestClient {
    /// Binds a client to a base URL.
    pub fn new(url: String) -> (s: Self)
        ensures
            s.url == url,
    {
        ReqwestClient { url }
    }

    /// The URL that a batch is posted to: `<base>/batches`, with the service
    /// id as a query parameter when one is given.
    pub fn batches_url(&self, service_id: Option<&str>) -> (r: String)
        ensures
            r@ == spec_batches_url(self.url@, service_id.deep_view()),
    {
        let u = self.url.clone().concat("/batches");
        match service_id {
            Some(sid) => u.concat("?service_id=").concat(sid),
            None => u,
        }
    }
}

/// The URL that a batch is posted to.
pub open spec fn spec_batches_url(base: Seq<char>, sid: Option<Seq<char>>) -> Seq<char> {
    let u = base + "/batches"@;
    match sid {
        Some(s) => u + "?service_id="@ + s,
        None => u,
    }
}

/// The body answered by a successful batch post: where to poll for status.
pub struct BatchStatusLink {
    pub link: String,
}

/// The URL polled for batch status: the status link, the seconds still
/// waited for, and the service id when one is given.
pub open spec fn spec_status_url(link: Seq<char>, wait: u64, sid: Option<Seq<char>>) -> Seq<char> {
    let u = link + "&wait="@ + spec_dec(wait as nat);
    match sid {
        Some(s) => u + "&service_id="@ + s,
        None => u,
    }
}

/// Builds the URL polled for batch status.
pub fn status_url(link: &str, wait: u64, service_id: Option<&str>) -> (r: String)
    ensures
        r@ == spec_status_url(link@, wait, service_id.deep_view()),
{
    let u = link.to_owned().concat("&wait=").concat(u64_to_string(wait).as_str());
    match service_id {
        Some(sid) => u.concat("&service_id=").concat(sid),
        None => u,
    }
}

/// The piece of `s` that starts at `from` and ends before the next `c`, or
/// at the end of `s` when no `c` follows.
pub open spec fn spec_piece_until(s: Seq<char>, c: char, from: int) -> Seq<char> {
    match spec_first_index_from(s, c, from) {
        Some(j) => s.subrange(from, j),
        None => s.subrange(from, s.len() as int),
    }
}

/// The batch identifier inside a status link: the text of the link's first
/// query parameter after its `=`, up to the next `=` if any. `None` when the
/// link has no `?`, or no `=` after it.
pub open spec fn spec_extract_batch_id(link: Seq<char>) -> Option<Seq<char>> {
    match spec_first_index_from(link, '?', 0) {
        None => None,
        Some(q) => {
            let piece = spec_piece_until(link, '?', q + 1);
            match spec_first_index_from(piece, '=', 0) {
                None => None,
                Some(e) => Some(spec_piece_until(piece, '=', e + 1)),
            }
        },
    }
}

/// Reads the batch identifier out of a status link.
pub fn extract_batch_id(link: &str) -> (r: Option<String>)
    ensures
        r.deep_view() == spec_extract_batch_id(link@),
{
    let len = link.unicode_len();
    let q = match find_char(link, '?', 0) {
        Some(q) => q,
        None => {
            return None;
        },
    };
    let q2 = match find_char(link, '?', q + 1) {
        Some(x) => x,
        None => len,
    };
    let piece = link.substring_char(q + 1, q2);
    proof {
        assert(piece@ == spec_piece_until(link@, '?', q + 1));
    }
    let piece_len = piece.unicode_len();
    let e = match find_char(piece, '=', 0) {
        Some(e) => e,
        None => {
            return None;
        },
    };
    let e2 = match find_char(piece, '=', e + 1) {
        Some(x) => x,
        None => piece_len,
    };
    let id = piece.substring_char(e + 1, e2);
    proof {
        assert(id@ == spec_piece_until(piece@, '=', e + 1));
    }
    Some(id.to_owned())
}

/// The status the ledger reports for one transaction of the batch.
pub struct BatchStatus {
    pub id: String,
    pub invalid_transactions: Vec<Vec<KeyValue>>,
    pub status: String,
}

/// Mathematical model of a [`BatchStatus`].
pub struct BatchStatusV {
    pub id: Seq<char>,
    pub invalid_transactions: Seq<Seq<KeyValueV>>,
    pub status: Seq<char>,
}

impl View for BatchStatus {
    type V = BatchStatusV;

    open spec fn view(&self) -> BatchStatusV {
        BatchStatusV {
            id: self.id@,
            invalid_transactions: self.invalid_transactions.deep_view(),
            status: self.status@,
        }
    }
}

impl DeepView for BatchStatus {
    type V = BatchStatusV;

    open spec fn deep_view(&self) -> BatchStatusV {
        self.view()
    }
}

/// Whether every transaction of the batch reported `Valid`.
pub open spec fn spec_all_valid(sts: Seq<BatchStatusV>) -> bool {
    forall|i: int| 0 <= i < sts.len() ==> (#[trigger] sts[i]).status == "Valid"@
}

/// Whether no transaction of the batch is still pending.
pub open spec fn spec_none_pending(sts: Seq<BatchStatusV>) -> bool {
    forall|i: int| 0 <= i < sts.len() ==> (#[trigger] sts[i]).status != "Pending"@
}

/// Reports whether every transaction reported `Valid`.
pub fn all_valid(statuses: &Vec<BatchStatus>) -> (r: bool)
    ensures
        r == spec_all_valid(statuses.deep_view()),
{
    let mut i: usize = 0;
    while i < statuses.len()
        invariant
            i <= statuses.len(),
            forall|k: int| 0 <= k < i ==> (#[trigger] statuses.deep_view()[k]).status == "Valid"@,
        decreases statuses.len() - i,
    {
        if !crate::text::str_eq(statuses[i].status.as_str(), "Valid") {
            assert(statuses.deep_view()[i as int].status != "Valid"@);
            return false;
        }
        assert(statuses.deep_view()[i as int].status == "Valid"@);
        i = i + 1;
    }
    true
}

/// Reports whether no transaction is still pending.
pub fn none_pending(statuses: &Vec<BatchStatus>) -> (r: bool)
    ensures
        r == spec_none_pending(statuses.deep_view()),
{
    let mut i: usize = 0;
    while i < statuses.len()
        invariant
            i <= statuses.len(),
            forall|k: int| 0 <= k < i ==> (#[trigger] statuses.deep_view()[k]).status != "Pending"@,
        decreases statuses.len() - i,
    {
        if crate::text::str_eq(statuses[i].status.as_str(), "Pending") {
            assert(statuses.deep_view()[i as int].status == "Pending"@);
            return false;
        }
        assert(statuses.deep_view()[i as int].status != "Pending"@);
        i = i + 1;
    }
    true
}

/// The diagnostic of one invalid-transaction record: its `message` field, or
/// a fixed note when the record carries none.
pub open spec fn spec_record_message(entries: Seq<KeyValueV>, from: int) -> Seq<char>
    decreases entries.len() - from,
{
    if from < 0 || from >= entries.len() {
        "Batch contained invalid transactions"@
    } else if entries[from].key == "message"@ {
        entries[from].value
    } else {
        spec_record_message(entries, from + 1)
    }
}

/// Reads the diagnostic out of one invalid-transaction record.
pub fn record_message(entries: &Vec<KeyValue>) -> (r: String)
    ensures
        r@ == spec_record_message(entries.deep_view(), 0),
{
    let mut i: usize = 0;
    while i < entries.len()
        invariant
            i <= entries.len(),
            spec_record_message(entries.deep_view(), 0) == spec_record_message(
                entries.deep_view(),
                i as int,
            ),
        decreases entries.len() - i,
    {
        if crate::text::str_eq(entries[i].key.as_str(), "message") {
            assert(entries.deep_view()[i as int].key == "message"@);
            return entries[i].value.clone();
        }
        assert(entries.deep_view()[i as int].key != "message"@);
        i = i + 1;
    }
    "Batch contained invalid transactions".to_owned()
}

/// The diagnostics contributed by one transaction status: one message per
/// invalid-transaction record when the status is `Invalid`, none otherwise.
pub open spec fn spec_status_messages(s: BatchStatusV, from: int) -> Seq<Seq<char>>
    decreases s.invalid_transactions.len() - from,
{
    if s.status != "Invalid"@ || from < 0 || from >= s.invalid_transactions.len() {
        Seq::empty()
    } else {
        seq![spec_record_message(s.invalid_transactions[from], 0)] + spec_status_messages(
            s,
            from + 1,
        )
    }
}

/// The diagnostics of a whole status report, in report order.
pub open spec fn spec_invalid_messages(sts: Seq<BatchStatusV>, from: int) -> Seq<Seq<char>>
    decreases sts.len() - from,
{
    if from < 0 || from >= sts.len() {
        Seq::empty()
    } else {
        spec_status_messages(sts[from], 0) + spec_invalid_messages(sts, from + 1)
    }
}

/// Collects the diagnostics of every invalid transaction, in report order.
pub fn collect_invalid_messages(statuses: &Vec<BatchStatus>) -> (r: Vec<String>)
    ensures
        r.deep_view() == spec_invalid_messages(statuses.deep_view(), 0),
{
    let ghost sts: Seq<BatchStatusV> = statuses.deep_view();
    let mut r: Vec<String> = Vec::new();
    let mut i: usize = 0;
    proof {
        assert(r.deep_view() =~= Seq::<Seq<char>>::empty());
    }
    while i < statuses.len()
        invariant
            i <= statuses.len(),
            sts == statuses.deep_view(),
            r.deep_view() + spec_invalid_messages(sts, i as int) == spec_invalid_messages(sts, 0),
        decreases statuses.len() - i,
    {
        let s = &statuses[i];
        proof {
            assert(s@ == sts[i as int]);
        }
        if crate::text::str_eq(s.status.as_str(), "Invalid") {
            let mut j: usize = 0;
            while j < s.invalid_transactions.len()
                invariant
                    j <= s.invalid_transactions.len(),
                    s@ == sts[i as int],
                    0 <= i < sts.len(),
                    sts[i as int].status == "Invalid"@,
                    sts == statuses.deep_view(),
                    r.deep_view() + spec_status_messages(sts[i as int], j as int)
                        + spec_invalid_messages(sts, i + 1) == spec_invalid_messages(sts, 0),
                decreases s.invalid_transactions.len() - j,
            {
                let ghost r_before: Seq<Seq<char>> = r.deep_view();
                let m = record_message(&s.invalid_transactions[j]);
                proof {
                    let si: BatchStatusV = sts[i as int];
                    assert(s.invalid_transactions[j as int].deep_view()
                        == si.invalid_transactions[j as int]);
                }
                r.push(m);
                proof {
                    assert(r.deep_view() =~= r_before + seq![
                        spec_record_message(sts[i as int].invalid_transactions[j as int], 0),
                    ]);
                    assert(spec_status_messages(sts[i as int], j as int) == seq![
                        spec_record_message(sts[i as int].invalid_transactions[j as int], 0),
                    ] + spec_status_messages(sts[i as int], j + 1));
                    assert(r.deep_view() + spec_status_messages(sts[i as int], j + 1)
                        + spec_invalid_messages(sts, i + 1) =~= spec_invalid_messages(sts, 0));
                }
                j = j + 1;
            }
            proof {
                assert(spec_status_messages(sts[i as int], s.invalid_transactions.len() as int)
                    =~= Seq::<Seq<char>>::empty());
                assert(r.deep_view() + spec_invalid_messages(sts, i + 1) =~= spec_invalid_messages(
                    sts,
                    0,
                ));
            }
        } else {
            proof {
                assert(spec_status_messages(sts[i as int], 0) =~= Seq::<Seq<char>>::empty());
                assert(spec_invalid_messages(sts, i as int) == spec_status_messages(
                    sts[i as int],
                    0,
                ) + spec_invalid_messages(sts, i + 1));
                assert(r.deep_view() + spec_invalid_messages(sts, i + 1) =~= spec_invalid_messages(
                    sts,
                    0,
                ));
            }
        }
        i = i + 1;
    }
    proof {
        assert(spec_invalid_messages(sts, sts.len() as int) =~= Seq::<Seq<char>>::empty());
        assert(r.deep_view() =~= spec_invalid_messages(sts, 0));
    }
    r
}

/// The budget left after one poll round: the elapsed seconds are taken off,
/// and the budget never falls below zero.
pub open spec fn spec_next_wait(w: u64, elapsed_secs: u64) -> u64 {
    if elapsed_secs <= w {
        (w - elapsed_secs) as u64
    } else {
        0
    }
}

/// What one poll round yields: the diagnostics of invalid transactions, and
/// whether the batch is fully valid or fully resolved.
pub struct PollOutcome {
    pub invalid_messages: Vec<String>,
    pub all_valid: bool,
    pub finished: bool,
}

/// One round of the polling loop, on the statuses one poll answered:
/// collects the diagnostics of invalid transactions, reports whether all are
/// valid, ends the poll when none is pending, and otherwise takes the
/// elapsed wall time off the remaining wait budget.
pub fn poll_step(wait_remaining: &mut u64, statuses: &Vec<BatchStatus>, elapsed_secs: u64) -> (r:
    PollOutcome)
    ensures
        r.invalid_messages.deep_view() == spec_invalid_messages(statuses.deep_view(), 0),
        r.all_valid == spec_all_valid(statuses.deep_view()),
        r.finished == spec_none_pending(statuses.deep_view()),
        r.finished ==> *final(wait_remaining) == *old(wait_remaining),
        !r.finished ==> *final(wait_remaining) == spec_next_wait(*old(wait_remaining), elapsed_secs),
{
    let invalid_messages = collect_invalid_messages(statuses);
    let valid = all_valid(statuses);
    let finished = none_pending(statuses);
    if !finished {
        if elapsed_secs <= *wait_remaining {
            *wait_remaining = *wait_remaining - elapsed_secs;
        } else {
            *wait_remaining = 0;
        }
    }
    PollOutcome { invalid_messages, all_valid: valid, finished }
}

/// How a submission ended.
pub enum SubmissionOutcome {
    /// The poll resolved with every transaction `Valid`.
    Confirmed,
    /// The poll resolved with some transaction not `Valid`.
    PartiallyInvalid,
    /// The wait budget ran out while transactions were still pending.
    TimedOut,
}

/// Classifies the end of the polling loop from its last round: a resolved
/// batch confirms, or reports partial invalidity; a spent budget is a
/// timeout. None of the three raises an error: leaving the loop is the only
/// completion signal.
pub fn submission_outcome(finished: bool, all_valid: bool) -> (r: SubmissionOutcome)
    ensures
        r is Confirmed <==> finished && all_valid,
        r is PartiallyInvalid <==> finished && !all_valid,
        r is TimedOut <==> !finished,
{
    if !finished {
        SubmissionOutcome::TimedOut
    } else if all_valid {
        SubmissionOutcome::Confirmed
    } else {
        SubmissionOutcome::PartiallyInvalid
    }
}

/// The budget left after a sequence of poll rounds.
pub open spec fn spec_wait_after(w: u64, rounds: Seq<u64>) -> u64
    decreases rounds.len(),
{
    if rounds.len() == 0 {
        w
    } else {
        spec_wait_after(spec_next_wait(w, rounds[0]), rounds.drop_first())
    }
}

proof fn lemma_wait_zero_stays_zero(rounds: Seq<u64>)
    ensures
        spec_wait_after(0, rounds) == 0,
    decreases rounds.len(),
{
    if rounds.len() > 0 {
        lemma_wait_zero_stays_zero(rounds.drop_first());
    }
}

/// The polling loop ends within the wait budget whatever the server
/// answers: when every poll round takes at least one second of wall time, a
/// budget of `w` seconds is spent after at most `w` rounds.
pub proof fn lemma_poll_budget_exhausted(w: u64, rounds: Seq<u64>)
    requires
        rounds.len() >= w,
        forall|i: int| 0 <= i < rounds.len() ==> #[trigger] rounds[i] >= 1,
    ensures
        spec_wait_after(w, rounds) == 0,
    decreases rounds.len(),
{
    if w == 0 {
        lemma_wait_zero_stays_zero(rounds);
    } else {
        assert(rounds[0] >= 1);
        assert(forall|i: int|
            0 <= i < rounds.drop_first().len() ==> #[trigger] rounds.drop_first()[i] == rounds[i
                + 1]);
        lemma_poll_budget_exhausted(spec_next_wait(w, rounds[0]), rounds.drop_first());
    }
}

} // verus!
