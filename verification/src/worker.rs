//! The outbox worker: it hands each pending side effect to a handler and counts how the
//! batch went.
use vstd::prelude::*;

use crate::bridge::string_from_chars;
use crate::integrations::{action_kind_text, IntegrationAction, IntegrationOutboxRow};
use crate::text::{extend_str, str_eq};

verus! {

/// How one pass over the outbox went: rows read, rows handled, rows that failed.
#[derive(Clone, Debug, PartialEq, Eq, Structural)]
pub struct IntegrationDrainReport {
    pub scanned: usize,
    pub processed: usize,
    pub failed: usize,
}

/// The number of handled rows among the outcomes.
pub open spec fn handled_count(outcomes: Seq<bool>) -> nat
    decreases outcomes.len(),
{
    if outcomes.len() == 0 {
        0
    } else {
        handled_count(outcomes.drop_last()) + if outcomes.last() {
            1nat
        } else {
            0nat
        }
    }
}

proof fn lemma_handled_le(outcomes: Seq<bool>)
    ensures
        handled_count(outcomes) <= outcomes.len(),
    decreases outcomes.len(),
{
    if outcomes.len() > 0 {
        lemma_handled_le(outcomes.drop_last());
    }
}

impl IntegrationDrainReport {
    /// The report of a pass that has read `scanned` rows and handled none yet.
    pub fn start(scanned: usize) -> (r: IntegrationDrainReport)
        ensures
            r == (IntegrationDrainReport { scanned, processed: 0, failed: 0 }),
    {
        IntegrationDrainReport { scanned, processed: 0, failed: 0 }
    }

    /// Counts the outcome of one more row: handled, or failed.
    pub fn record(&mut self, handled: bool)
        requires
            old(self).processed + old(self).failed < old(self).scanned,
        ensures
            final(self).scanned == old(self).scanned,
            final(self).processed == old(self).processed + if handled {
                1int
            } else {
                0int
            },
            final(self).failed == old(self).failed + if handled {
                0int
            } else {
                1int
            },
    {
        if handled {
            self.processed = self.processed + 1;
        } else {
            self.failed = self.failed + 1;
        }
    }
}

/// The report of a pass over rows with the given outcomes, in order: every row read is
/// either handled or failed.
pub fn drain_report(outcomes: &Vec<bool>) -> (r: IntegrationDrainReport)
    ensures
        r.scanned == outcomes@.len(),
        r.processed == handled_count(outcomes@),
        r.failed == outcomes@.len() - handled_count(outcomes@),
        r.processed + r.failed == r.scanned,
{
    let mut report = IntegrationDrainReport::start(outcomes.len());
    let mut i: usize = 0;
    while i < outcomes.len()
        invariant
            i <= outcomes@.len(),
            report.scanned == outcomes@.len(),
            report.processed == handled_count(outcomes@.take(i as int)),
            report.processed + report.failed == i,
        decreases outcomes@.len() - i,
    {
        proof {
            assert(outcomes@.take(i + 1).drop_last() =~= outcomes@.take(i as int));
            lemma_handled_le(outcomes@.take(i as int));
        }
        report.record(outcomes[i]);
        i = i + 1;
    }
    assert(outcomes@.take(outcomes@.len() as int) =~= outcomes@);
    report
}

/// The mark a pass writes for a row after its handler ran: processed, or failed with the
/// handler's error and the attempt limit after which the row is given up.
#[derive(Clone, Debug, PartialEq, Eq)]
pub enum OutboxMark {
    Processed { outbox_id: u128 },
    Failed { outbox_id: u128, last_error: String, max_attempts: i32 },
}

/// The mark for row `outbox_id` whose handler gave `outcome`.
pub fn mark_for(outbox_id: u128, outcome: Result<(), String>, max_attempts: i32) -> (r: OutboxMark)
    ensures
        outcome is Ok ==> r == (OutboxMark::Processed { outbox_id }),
        outcome matches Err(e) ==> r == (OutboxMark::Failed { outbox_id, last_error: e, max_attempts }),
{
    match outcome {
        Ok(()) => OutboxMark::Processed { outbox_id },
        Err(e) => OutboxMark::Failed { outbox_id, last_error: e, max_attempts },
    }
}

/// The report after a mark was written for one more row: the row counts as handled or
/// failed, as the mark says; an error of the store ends the pass with that error.
pub fn after_mark(
    report: IntegrationDrainReport,
    mark: &OutboxMark,
    written: Result<(), String>,
) -> (r: Result<IntegrationDrainReport, String>)
    requires
        report.processed + report.failed < report.scanned,
    ensures
        written matches Err(e) ==> r == Err::<IntegrationDrainReport, String>(e),
        written is Ok ==> r == Ok::<IntegrationDrainReport, String>(
            IntegrationDrainReport {
                scanned: report.scanned,
                processed: (report.processed + if mark is Processed {
                    1int
                } else {
                    0int
                }) as usize,
                failed: (report.failed + if mark is Processed {
                    0int
                } else {
                    1int
                }) as usize,
            },
        ),
{
    match written {
        Err(e) => Err(e),
        Ok(()) => {
            let mut next = report;
            let handled = match mark {
                OutboxMark::Processed { .. } => true,
                OutboxMark::Failed { .. } => false,
            };
            next.record(handled);
            Ok(next)
        },
    }
}

/// The worker that drains the outbox in batches through its handler.
pub struct IntegrationOutboxWorker<H> {
    handler: H,
    batch_size: i64,
    max_attempts: i32,
}

impl<H> IntegrationOutboxWorker<H> {
    /// A worker over a handler, reading batches of `batch_size` rows and giving up on a row
    /// after `max_attempts` attempts.
    pub fn new(handler: H, batch_size: i64, max_attempts: i32) -> (r: Self)
        ensures
            r.handler_spec() == handler,
            r.batch_size_spec() == batch_size,
            r.max_attempts_spec() == max_attempts,
    {
        IntegrationOutboxWorker { handler, batch_size, max_attempts }
    }

    pub closed spec fn handler_spec(&self) -> H {
        self.handler
    }

    pub closed spec fn batch_size_spec(&self) -> i64 {
        self.batch_size
    }

    pub closed spec fn max_attempts_spec(&self) -> i32 {
        self.max_attempts
    }

    /// The handler the rows are handed to.
    pub fn handler(&self) -> (r: &H)
        ensures
            *r == self.handler_spec(),
    {
        &self.handler
    }

    /// How many rows one pass reads at most.
    pub fn batch_size(&self) -> (r: i64)
        ensures
            r == self.batch_size_spec(),
    {
        self.batch_size
    }

    /// How many attempts a row gets before it is given up.
    pub fn max_attempts(&self) -> (r: i32)
        ensures
            r == self.max_attempts_spec(),
    {
        self.max_attempts
    }
}

/// Which handler an outbox row goes to.
#[derive(Clone, Copy, Debug, PartialEq, Eq, Structural)]
pub enum OutboxDispatch {
    CacheInvalidate,
    NatsPublish,
    SearchIndex,
}

/// The handler for a stored action kind, or `None` for an unknown kind.
pub open spec fn dispatch_of_kind(kind: Seq<char>) -> Option<OutboxDispatch> {
    if kind == "cache_invalidate"@ {
        Some(OutboxDispatch::CacheInvalidate)
    } else if kind == "nats_publish"@ {
        Some(OutboxDispatch::NatsPublish)
    } else if kind == "search_index"@ {
        Some(OutboxDispatch::SearchIndex)
    } else {
        None
    }
}

/// The error for a row of an unknown kind.
pub open spec fn unknown_kind_error(kind: Seq<char>) -> Seq<char> {
    "未知 integration action 类型: "@ + kind
}

/// The handler an outbox row goes to (see `dispatch_of_kind`); an unknown kind is an
/// error naming it.
pub fn dispatch_row(row: &IntegrationOutboxRow) -> (r: Result<OutboxDispatch, String>)
    ensures
        match dispatch_of_kind(row.action_kind@) {
            Some(d) => r == Ok::<OutboxDispatch, String>(d),
            None => r matches Err(e) && e@ == unknown_kind_error(row.action_kind@),
        },
{
    let kind = row.action_kind.as_str();
    if str_eq(kind, "cache_invalidate") {
        Ok(OutboxDispatch::CacheInvalidate)
    } else if str_eq(kind, "nats_publish") {
        Ok(OutboxDispatch::NatsPublish)
    } else if str_eq(kind, "search_index") {
        Ok(OutboxDispatch::SearchIndex)
    } else {
        let mut v: Vec<char> = Vec::new();
        extend_str(&mut v, "未知 integration action 类型: ");
        extend_str(&mut v, kind);
        Err(string_from_chars(&v))
    }
}

/// The handler that carries out an action recorded by the library.
pub open spec fn dispatch_for(a: IntegrationAction) -> OutboxDispatch {
    match a {
        IntegrationAction::CacheInvalidate(_) => OutboxDispatch::CacheInvalidate,
        IntegrationAction::NatsPublish(_) => OutboxDispatch::NatsPublish,
        IntegrationAction::SearchIndex(_) => OutboxDispatch::SearchIndex,
    }
}

/// Every action the library records in the outbox is one the worker can dispatch, and it
/// goes to the handler of its own kind.
pub proof fn law_recorded_actions_dispatch(a: IntegrationAction)
    ensures
        dispatch_of_kind(action_kind_text(a)) == Some(dispatch_for(a)),
{
    reveal_strlit("cache_invalidate");
    reveal_strlit("nats_publish");
    reveal_strlit("search_index");
    assert("cache_invalidate"@[0] != "nats_publish"@[0]);
    assert("cache_invalidate"@[0] != "search_index"@[0]);
    assert("nats_publish"@[0] != "search_index"@[0]);
}

/// One step of a cache invalidation: a key with `*` deletes every key it matches, any
/// other key is deleted as it is.
#[derive(Clone, Debug, PartialEq, Eq)]
pub enum CacheStep {
    DeleteMatching(String),
    Delete(String),
}

/// Whether a step carries out the invalidation of one key.
pub open spec fn cache_step_ok(step: CacheStep, key: Seq<char>) -> bool {
    if key.contains('*') {
        step matches CacheStep::DeleteMatching(k) && k@ == key
    } else {
        step matches CacheStep::Delete(k) && k@ == key
    }
}

/// The steps that invalidate the given keys, one per key in order.
pub fn cache_steps(keys: &Vec<String>) -> (r: Vec<CacheStep>)
    ensures
        r@.len() == keys@.len(),
        forall|i: int| 0 <= i < keys@.len() ==> cache_step_ok(#[trigger] r@[i], keys@[i]@),
{
    let mut steps: Vec<CacheStep> = Vec::new();
    let mut i: usize = 0;
    while i < keys.len()
        invariant
            i <= keys@.len(),
            steps@.len() == i,
            forall|j: int| 0 <= j < i ==> cache_step_ok(#[trigger] steps@[j], keys@[j]@),
        decreases keys@.len() - i,
    {
        let key = keys[i].clone();
        let star = has_star(key.as_str());
        if star {
            steps.push(CacheStep::DeleteMatching(key));
        } else {
            steps.push(CacheStep::Delete(key));
        }
        i = i + 1;
    }
    steps
}

fn has_star(s: &str) -> (b: bool)
    ensures
        b == s@.contains('*'),
{
    let cs = crate::text::chars_of(s);
    let mut i: usize = 0;
    while i < cs.len()
        invariant
            cs@ == s@,
            i <= cs@.len(),
            forall|j: int| 0 <= j < i ==> cs@[j] != '*',
        decreases cs@.len() - i,
    {
        if cs[i] == '*' {
            return true;
        }
        i = i + 1;
    }
    false
}

/// Whether a search-index payload asks for a deletion (kind `search_delete`) rather than
/// an upsert.
pub fn is_search_delete(kind: Option<&str>) -> (b: bool)
    ensures
        b == (kind matches Some(k) && k@ == "search_delete"@),
{
    match kind {
        Some(k) => str_eq(k, "search_delete"),
        None => false,
    }
}

} // verus!
