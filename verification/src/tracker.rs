//! Waiting for a submitted transaction: when to poll again, when to give
//! up, and what the result of an included transaction means.

use vstd::prelude::*;
use vstd::string::*;
use crate::error::Error;
use crate::event::{
    events_of, events_view, parse_events, raw_events_view, EventBody, EventKind, IbcEvent,
    IbcEventView, RawEvent, RawEventView,
};
use crate::height::Height;
use crate::identifier::ClientId;
use crate::subscription::{eq_filter_text, rpc_eq_filter};

verus! {

/// What a node reports of a transaction that it found by its hash.
#[derive(Debug, PartialEq, Eq)]
pub struct TxResponse {
    /// The height of the block that holds the transaction.
    pub height: u64,
    /// The result code of the execution; zero for success.
    pub code: u32,
    /// The log of the execution.
    pub log: String,
    /// The events that the execution emitted.
    pub events: Vec<RawEvent>,
}

/// The content of a [`TxResponse`].
pub struct TxResponseView {
    pub height: u64,
    pub code: u32,
    pub log: Seq<char>,
    pub events: Seq<RawEventView>,
}

impl View for TxResponse {
    type V = TxResponseView;

    open spec fn view(&self) -> TxResponseView {
        TxResponseView {
            height: self.height,
            code: self.code,
            log: self.log@,
            events: raw_events_view(self.events@),
        }
    }
}

/// A search for a transaction, as it is put to a node.
#[derive(Debug, PartialEq, Eq)]
pub struct TxSearch {
    /// The filter that selects the transaction.
    pub query: String,
    /// Whether the node is to prove that the transaction is in the block.
    pub prove: bool,
    /// The page of results to return, counted from 1.
    pub page: u32,
    /// The number of results on a page.
    pub per_page: u8,
    /// Whether the results come in ascending order.
    pub ascending: bool,
}

/// What to do after one search for the transaction.
#[derive(Debug, PartialEq, Eq)]
pub enum TrackerStep {
    /// The transaction is in a block; this is what the node reports of it.
    Included(TxResponse),
    /// Not found yet: wait this many milliseconds, then search again.
    Wait { millis: u64 },
    /// Not found, and the time allowed for it is over.
    TimedOut,
}

/// The content of a [`TrackerStep`].
pub enum TrackerStepView {
    Included(TxResponseView),
    Wait { millis: u64 },
    TimedOut,
}

impl View for TrackerStep {
    type V = TrackerStepView;

    open spec fn view(&self) -> TrackerStepView {
        match *self {
            TrackerStep::Included(r) => TrackerStepView::Included(r@),
            TrackerStep::Wait { millis } => TrackerStepView::Wait { millis },
            TrackerStep::TimedOut => TrackerStepView::TimedOut,
        }
    }
}

/// One search for the transaction: how long after the start it was made,
/// and what it found.
pub struct Poll {
    pub elapsed_ms: u64,
    pub found: Option<TxResponseView>,
}

/// How a whole wait ends.
pub enum WaitOutcome {
    /// The transaction was found.
    Included(TxResponseView),
    /// The wait was given up.
    TimedOut,
    /// The searches made so far decide nothing.
    Undecided,
}

/// Polls a node for a submitted transaction until the node has it or the
/// time allowed for it is over.
#[derive(Clone, Copy, Debug, PartialEq, Eq, Structural)]
pub struct TransactionTracker {
    /// How long to wait for the transaction at most, in milliseconds.
    pub timeout_ms: u64,
    /// How long to wait between two searches, in milliseconds.
    pub poll_interval_ms: u64,
}

impl Default for TransactionTracker {
    /// Searches every 300 milliseconds, for 30 seconds.
    fn default() -> (t: TransactionTracker)
        ensures
            t == (TransactionTracker { timeout_ms: 30000, poll_interval_ms: 300 }),
    {
        TransactionTracker { timeout_ms: 30000, poll_interval_ms: 300 }
    }
}

impl TransactionTracker {
    /// A tracker with the given bounds, both in milliseconds.
    pub fn new(timeout_ms: u64, poll_interval_ms: u64) -> (t: TransactionTracker)
        ensures
            t == (TransactionTracker { timeout_ms, poll_interval_ms }),
    {
        TransactionTracker { timeout_ms, poll_interval_ms }
    }

    /// The search for the transaction with the given hash: by the hash
    /// alone, without proof, in ascending order, and for the first match
    /// only.
    pub fn search(&self, tx_hash: &str) -> (search: TxSearch)
        ensures
            search.query@ == eq_filter_text("tx.hash"@, tx_hash@),
            !search.prove,
            search.page == 1,
            search.per_page == 1,
            search.ascending,
    {
        TxSearch {
            query: rpc_eq_filter("tx.hash", tx_hash),
            prove: false,
            page: 1,
            per_page: 1,
            ascending: true,
        }
    }

    /// What follows from one search: a transaction that was found is
    /// reported, whatever the time; without one the wait goes on as long as
    /// no more than `timeout_ms` have passed.
    pub open spec fn step(self, poll: Poll) -> TrackerStepView {
        match poll.found {
            Some(response) => TrackerStepView::Included(response),
            None => if poll.elapsed_ms > self.timeout_ms {
                TrackerStepView::TimedOut
            } else {
                TrackerStepView::Wait { millis: self.poll_interval_ms }
            },
        }
    }

    /// How a wait ends in which these searches are made one after the
    /// other: the first search that does not say "wait" decides.
    pub open spec fn outcome(self, polls: Seq<Poll>) -> WaitOutcome
        decreases polls.len(),
    {
        if polls.len() == 0 {
            WaitOutcome::Undecided
        } else {
            match self.step(polls[0]) {
                TrackerStepView::Included(response) => WaitOutcome::Included(response),
                TrackerStepView::TimedOut => WaitOutcome::TimedOut,
                TrackerStepView::Wait { .. } => self.outcome(polls.drop_first()),
            }
        }
    }

    /// Decides what to do after one search, made `elapsed_ms` milliseconds
    /// after the first one, which found `found`.
    pub fn on_poll(&self, elapsed_ms: u64, found: Option<TxResponse>) -> (next: TrackerStep)
        ensures
            next@ == self.step(
                Poll {
                    elapsed_ms,
                    found: match found {
                        Some(r) => Some(r@),
                        None => None,
                    },
                },
            ),
    {
        match found {
            Some(response) => TrackerStep::Included(response),
            None => if elapsed_ms > self.timeout_ms {
                TrackerStep::TimedOut
            } else {
                TrackerStep::Wait { millis: self.poll_interval_ms }
            },
        }
    }
}

impl TrackerStep {
    /// How the wait has ended, if it has: with the response of the node, or
    /// with `InclusionTimeout`. `None` while the wait goes on.
    pub fn into_result(self) -> (r: Option<Result<TxResponse, Error>>)
        ensures
            match self {
                TrackerStep::Included(response) => r == Some(
                    Ok::<TxResponse, Error>(response),
                ),
                TrackerStep::TimedOut => r == Some(
                    Err::<TxResponse, Error>(Error::InclusionTimeout),
                ),
                TrackerStep::Wait { .. } => r is None,
            },
    {
        match self {
            TrackerStep::Included(response) => Some(Ok(response)),
            TrackerStep::TimedOut => Some(Err(Error::InclusionTimeout)),
            TrackerStep::Wait { .. } => None,
        }
    }
}

/// A transaction that turns up after some fruitless searches within the
/// time allowed is reported as it was found.
pub proof fn lemma_included_after_waiting(tracker: TransactionTracker, polls: Seq<Poll>, k: int)
    requires
        0 <= k < polls.len(),
        forall|i: int| 0 <= i < k ==> polls[i].found is None && polls[i].elapsed_ms <= tracker.timeout_ms,
        polls[k].found is Some,
    ensures
        tracker.outcome(polls) == WaitOutcome::Included(polls[k].found.unwrap()),
    decreases k,
{
    if k > 0 {
        let rest = polls.drop_first();
        assert forall|i: int| 0 <= i < k - 1 implies rest[i].found is None && rest[i].elapsed_ms
            <= tracker.timeout_ms by {
            assert(rest[i] == polls[i + 1]);
        }
        assert(rest[k - 1] == polls[k]);
        lemma_included_after_waiting(tracker, rest, k - 1);
    }
}

/// A wait is never given up early: where it times out, a search was made
/// later than `timeout_ms` after the start, and neither that search nor
/// any before it had found the transaction.
pub proof fn lemma_timeout_not_early(tracker: TransactionTracker, polls: Seq<Poll>) -> (k: int)
    requires
        tracker.outcome(polls) == WaitOutcome::TimedOut,
    ensures
        0 <= k < polls.len(),
        polls[k].elapsed_ms > tracker.timeout_ms,
        forall|i: int| 0 <= i <= k ==> polls[i].found is None,
        forall|i: int| 0 <= i < k ==> polls[i].elapsed_ms <= tracker.timeout_ms,
    decreases polls.len(),
{
    match tracker.step(polls[0]) {
        TrackerStepView::TimedOut => 0,
        _ => {
            let rest = polls.drop_first();
            let k = lemma_timeout_not_early(tracker, rest);
            assert forall|i: int| 0 <= i <= k + 1 implies polls[i].found is None by {
                if i > 0 {
                    assert(rest[i - 1] == polls[i]);
                }
            }
            assert forall|i: int| 0 <= i < k + 1 implies polls[i].elapsed_ms
                <= tracker.timeout_ms by {
                if i > 0 {
                    assert(rest[i - 1] == polls[i]);
                }
            }
            assert(rest[k] == polls[k + 1]);
            k + 1
        },
    }
}

/// Where the transaction is never found, the wait times out at the first
/// search made later than `timeout_ms` after the start.
pub proof fn lemma_never_found_times_out(tracker: TransactionTracker, polls: Seq<Poll>, k: int)
    requires
        0 <= k < polls.len(),
        forall|i: int| 0 <= i <= k ==> polls[i].found is None,
        forall|i: int| 0 <= i < k ==> polls[i].elapsed_ms <= tracker.timeout_ms,
        polls[k].elapsed_ms > tracker.timeout_ms,
    ensures
        tracker.outcome(polls) == WaitOutcome::TimedOut,
    decreases k,
{
    if k > 0 {
        let rest = polls.drop_first();
        assert forall|i: int| 0 <= i <= k - 1 implies rest[i].found is None by {
            assert(rest[i] == polls[i + 1]);
        }
        assert forall|i: int| 0 <= i < k - 1 implies rest[i].elapsed_ms <= tracker.timeout_ms by {
            assert(rest[i] == polls[i + 1]);
        }
        assert(rest[k - 1] == polls[k]);
        lemma_never_found_times_out(tracker, rest, k - 1);
    }
}

/// The height of the block that holds a transaction, on a chain with the
/// given revision number.
pub open spec fn inclusion_height(revision_number: u64, response: TxResponseView) -> Height {
    Height { revision_number, revision_height: response.height }
}

/// Checks that an included transaction was executed successfully.
///
/// Fails with `TransactionExecution`, the code and the log, exactly where
/// the code is not zero.
pub fn check_execution(response: &TxResponse) -> (r: Result<(), Error>)
    ensures
        r is Ok <==> response.code == 0,
        r matches Err(e) ==> e matches Error::TransactionExecution { code, log } && code
            == response.code && log@ == response.log@,
{
    if response.code != 0 {
        Err(Error::TransactionExecution { code: response.code, log: response.log.clone() })
    } else {
        Ok(())
    }
}

/// The protocol events of an included transaction.
///
/// Fails with `TransactionExecution` where the execution failed. Otherwise
/// returns every event that can be read from the result, in order.
pub fn included_events(revision_number: u64, response: &TxResponse) -> (r: Result<
    Vec<IbcEvent>,
    Error,
>)
    ensures
        r is Ok <==> response.code == 0,
        r matches Ok(events) ==> events_view(events@) == events_of(
            inclusion_height(revision_number, response@),
            response@.events,
        ),
        r matches Err(e) ==> e matches Error::TransactionExecution { code, log } && code
            == response.code && log@ == response.log@,
{
    match check_execution(response) {
        Err(e) => Err(e),
        Ok(()) => Ok(parse_events(Height::new(revision_number, response.height), &response.events)),
    }
}

/// The identifiers of the clients that a list of events reports as
/// created, in the order of the events.
pub open spec fn created_clients(events: Seq<IbcEventView>) -> Seq<Seq<char>>
    decreases events.len(),
{
    if events.len() == 0 {
        Seq::empty()
    } else {
        let rest = created_clients(events.drop_last());
        match (events.last().kind, events.last().body) {
            (Some(EventKind::CreateClient), EventBody::Client(a)) => rest.push(a.client_id),
            _ => rest,
        }
    }
}

/// The identifiers of the clients that a list of events reports as created.
pub fn created_client_ids(events: &Vec<IbcEvent>) -> (ids: Vec<ClientId>)
    ensures
        ids@.len() == created_clients(events_view(events@)).len(),
        forall|k: int| 0 <= k < ids@.len() ==> ids@[k]@ == created_clients(events_view(events@))[k],
{
    let ghost all = events_view(events@);
    let mut ids: Vec<ClientId> = Vec::new();
    let mut i: usize = 0;
    while i < events.len()
        invariant
            i <= events.len(),
            all == events_view(events@),
            ids@.len() == created_clients(all.subrange(0, i as int)).len(),
            forall|k: int|
                0 <= k < ids@.len() ==> ids@[k]@ == created_clients(all.subrange(0, i as int))[k],
        decreases events.len() - i,
    {
        proof {
            let prefix = all.subrange(0, i + 1);
            assert(prefix.last() == events@[i as int]@);
            assert(prefix.drop_last() =~= all.subrange(0, i as int));
        }
        match &events[i] {
            IbcEvent::CreateClient(a) => {
                ids.push(a.client_id.clone());
            },
            _ => {},
        }
        i = i + 1;
    }
    assert(all.subrange(0, i as int) =~= all);
    ids
}

/// Picks the client that a transaction created, given the events of the
/// transaction.
///
/// Succeeds exactly where one event reports the creation of a client, and
/// returns the identifier in that event. Otherwise fails with
/// `UnexpectedEventCount` and the number of such events.
pub fn single_created_client(events: &Vec<IbcEvent>) -> (r: Result<ClientId, Error>)
    ensures
        r is Ok <==> created_clients(events_view(events@)).len() == 1,
        r matches Ok(id) ==> id@ == created_clients(events_view(events@))[0],
        r matches Err(e) ==> e matches Error::UnexpectedEventCount { found } && found
            == created_clients(events_view(events@)).len(),
{
    let mut ids = created_client_ids(events);
    if ids.len() == 1 {
        Ok(ids.remove(0))
    } else {
        Err(Error::UnexpectedEventCount { found: ids.len() })
    }
}

/// Finds the identifier of the client that a transaction created.
///
/// Fails with `TransactionExecution` where the execution failed, and with
/// `UnexpectedEventCount` where the result does not hold exactly one
/// event that reports the creation of a client.
pub fn client_id_from_response(revision_number: u64, response: &TxResponse) -> (r: Result<
    ClientId,
    Error,
>)
    ensures
        response.code != 0 ==> (r matches Err(e) && e matches Error::TransactionExecution {
            code,
            log,
        } && code == response.code && log@ == response.log@),
        response.code == 0 ==> ({
            let created = created_clients(
                events_of(inclusion_height(revision_number, response@), response@.events),
            );
            &&& r is Ok <==> created.len() == 1
            &&& r matches Ok(id) ==> id@ == created[0]
            &&& r matches Err(e) ==> e matches Error::UnexpectedEventCount { found } && found
                == created.len()
        }),
{
    match included_events(revision_number, response) {
        Err(e) => Err(e),
        Ok(events) => single_created_client(&events),
    }
}

} // verus!
