//! What the adapter hands to the relayer core when the chain has
//! finalized a new head.

use vstd::prelude::*;
use crate::client_state::{consensus_state_of, ConsensusState, ConsensusStateView};
use crate::error::Error;
use crate::event::{events_view, IbcEvent, IbcEventView};
use crate::height::Height;
use crate::light_client::{
    judge, Judgement, LightBlock, LightBlockView, LightClientStateView, LightClientVerifier,
    Verdict,
};
use crate::timestamp::Timestamp;

verus! {

/// How a chain comes to regard a block as final.
#[derive(Clone, Copy, Debug, PartialEq, Eq, Structural)]
pub enum FinalityProtocol {
    /// A block is final as soon as it is committed.
    Tendermint,
}

/// The news that a new head is final, with the header to verify.
#[derive(Debug, PartialEq, Eq)]
pub struct FinalityEvent {
    pub block: LightBlock,
}

/// Whether an update sets up a new light client on the other chain or
/// moves an existing one on.
#[derive(Clone, Copy, Debug, PartialEq, Eq, Structural)]
pub enum UpdateKind {
    Ordinary,
    ClientCreation,
}

/// What an update of the light client on the other chain says: from which
/// trusted height it starts, which height it reaches, and the consensus
/// state at that height.
#[derive(Debug, PartialEq, Eq)]
pub struct UpdatePayload {
    pub trusted_height: Height,
    pub target_height: Height,
    pub consensus_state: ConsensusState,
}

/// The content of an [`UpdatePayload`].
pub struct UpdatePayloadView {
    pub trusted_height: Height,
    pub target_height: Height,
    pub consensus_state: ConsensusStateView,
}

impl View for UpdatePayload {
    type V = UpdatePayloadView;

    open spec fn view(&self) -> UpdatePayloadView {
        UpdatePayloadView {
            trusted_height: self.trusted_height,
            target_height: self.target_height,
            consensus_state: self.consensus_state@,
        }
    }
}

/// The events among `events` whose block height lies above `low` and not
/// above `high`, in order.
pub open spec fn events_in_window(events: Seq<IbcEventView>, low: u64, high: u64) -> Seq<
    IbcEventView,
>
    decreases events.len(),
{
    if events.len() == 0 {
        Seq::empty()
    } else if low < events.last().height().revision_height <= high {
        events_in_window(events.drop_last(), low, high).push(events.last())
    } else {
        events_in_window(events.drop_last(), low, high)
    }
}

/// Keeps the events whose block height lies above `low` and not above
/// `high`.
pub fn select_window(events: Vec<IbcEvent>, low: u64, high: u64) -> (kept: Vec<IbcEvent>)
    ensures
        events_view(kept@) == events_in_window(events_view(events@), low, high),
{
    let ghost all = events_view(events@);
    let mut kept: Vec<IbcEvent> = Vec::new();
    assert(events_view(kept@) =~= Seq::<IbcEventView>::empty());
    for event in it: events.into_iter()
        invariant
            all == events_view(it.seq()),
            events_view(kept@) == events_in_window(all.subrange(0, it.index() as int), low, high),
    {
        let ghost before = events_view(kept@);
        let ghost i = it.index() as int;
        proof {
            let prefix = all.subrange(0, i + 1);
            assert(prefix.last() == event@);
            assert(prefix.drop_last() =~= all.subrange(0, i));
        }
        let height = event.height().revision_height;
        if low < height && height <= high {
            kept.push(event);
            assert(events_view(kept@) =~= before.push(event@));
        }
    }
    assert(all.subrange(0, all.len() as int) =~= all);
    kept
}

/// What a finality event yields, given the state of the light client
/// before it: the update, the events to relay, and the kind of update;
/// or the failure of the verification.
///
/// A header that is accepted yields an update from the old trusted height
/// to its own, with the events between the two. A header that is not above the
/// trusted one yields an update that moves nothing, without events. A header
/// that cannot be accepted from the trusted one directly fails with
/// `Trust`: the gap has to be bridged first.
pub open spec fn finality_outcome(
    state: LightClientStateView,
    has_client: bool,
    revision_number: u64,
    block: LightBlockView,
    now: Timestamp,
    collected: Seq<IbcEventView>,
) -> Result<(UpdatePayloadView, Seq<IbcEventView>, UpdateKind), Error> {
    let kind = if has_client {
        UpdateKind::Ordinary
    } else {
        UpdateKind::ClientCreation
    };
    let trusted = Height { revision_number, revision_height: state.trusted.height };
    match judge(state.options, state.trusted, block, now) {
        Judgement::Accepted => Ok(
            (
                UpdatePayloadView {
                    trusted_height: trusted,
                    target_height: Height { revision_number, revision_height: block.height },
                    consensus_state: consensus_state_of(block),
                },
                events_in_window(collected, state.trusted.height, block.height),
                kind,
            ),
        ),
        Judgement::AlreadyTrusted => Ok(
            (
                UpdatePayloadView {
                    trusted_height: trusted,
                    target_height: trusted,
                    consensus_state: consensus_state_of(state.trusted),
                },
                Seq::empty(),
                kind,
            ),
        ),
        Judgement::NotEnoughTrust => Err(Error::Trust),
        Judgement::Expired => Err(Error::ExpiredTrust),
        Judgement::FromFuture => Err(Error::TimeDrift),
        Judgement::Malformed => Err(Error::InvalidHeader),
        Judgement::NotCommitted => Err(Error::Trust),
    }
}

impl FinalityProtocol {
    /// Handles the news of a new final head: has the light client verify
    /// the header at the local time `now`, and puts together what the
    /// relayer core needs, out of the events collected so far.
    ///
    /// The light client changes as in `verify`: a failure leaves
    /// the trusted header as it was. The result is what
    /// `finality_outcome` names.
    pub fn query_latest_ibc_events(
        self,
        verifier: &mut LightClientVerifier,
        has_client: bool,
        revision_number: u64,
        finality_event: FinalityEvent,
        now: Timestamp,
        collected: Vec<IbcEvent>,
    ) -> (r: Result<(UpdatePayload, Vec<IbcEvent>, UpdateKind), Error>)
        ensures
            final(verifier)@ == old(verifier)@.after(finality_event.block@, now),
            ({
                let outcome = finality_outcome(
                    old(verifier)@,
                    has_client,
                    revision_number,
                    finality_event.block@,
                    now,
                    events_view(collected@),
                );
                match r {
                    Ok(update) => outcome == Ok::<
                        (UpdatePayloadView, Seq<IbcEventView>, UpdateKind),
                        Error,
                    >((update.0@, events_view(update.1@), update.2)),
                    Err(e) => outcome == Err::<
                        (UpdatePayloadView, Seq<IbcEventView>, UpdateKind),
                        Error,
                    >(e),
                }
            }),
    {
        let kind = if has_client {
            UpdateKind::Ordinary
        } else {
            UpdateKind::ClientCreation
        };
        let low = verifier.trusted_height();
        let ghost judgement = judge(
            verifier@.options,
            verifier@.trusted,
            finality_event.block@,
            now,
        );
        match self {
            FinalityProtocol::Tendermint => {
                let verdict = match verifier.verify(finality_event.block, now) {
                    Ok(verdict) => verdict,
                    Err(e) => {
                        return Err(e);
                    },
                };
                let high = verifier.trusted_height();
                let consensus_state = ConsensusState::from_block(verifier.trusted());
                let trusted_height = Height::new(revision_number, low);
                match verdict {
                    Verdict::NotEnoughTrust => Err(Error::Trust),
                    Verdict::Advanced => Ok(
                        (
                            UpdatePayload {
                                trusted_height,
                                target_height: Height::new(revision_number, high),
                                consensus_state,
                            },
                            select_window(collected, low, high),
                            kind,
                        ),
                    ),
                    Verdict::AlreadyTrusted => {
                        let none: Vec<IbcEvent> = Vec::new();
                        assert(events_view(none@) =~= Seq::<IbcEventView>::empty());
                        Ok(
                            (
                                UpdatePayload {
                                    trusted_height,
                                    target_height: trusted_height,
                                    consensus_state,
                                },
                                none,
                                kind,
                            ),
                        )
                    },
                }
            },
        }
    }
}

/// The events that an update carries all lie in the window that the
/// update covers: above the height trusted before, not above the height
/// trusted after. So no event is handed on before its block is final.
pub proof fn lemma_window_bounds(events: Seq<IbcEventView>, low: u64, high: u64)
    ensures
        forall|k: int|
            0 <= k < events_in_window(events, low, high).len() ==> {
                let e = #[trigger] events_in_window(events, low, high)[k];
                low < e.height().revision_height <= high
            },
    decreases events.len(),
{
    if events.len() > 0 {
        let rest = events.drop_last();
        lemma_window_bounds(rest, low, high);
        assert forall|k: int| 0 <= k < events_in_window(events, low, high).len() implies {
            let e = #[trigger] events_in_window(events, low, high)[k];
            low < e.height().revision_height <= high
        } by {
            if k < events_in_window(rest, low, high).len() {
                assert(events_in_window(events, low, high)[k] == events_in_window(
                    rest,
                    low,
                    high,
                )[k]);
            }
        }
    }
}

} // verus!
