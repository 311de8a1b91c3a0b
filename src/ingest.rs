//! What the ingestion stage does with a delivered message once the store has
//! answered its insert, and the laws that tie this to the store's unique tag.
use vstd::prelude::*;
use crate::ledger::{pending_entry, LedgerEntry};
use crate::model::StatusChoice;
use crate::schema::Msg;
use crate::text::{contains_seq, contains_text};

verus! {

/// The store's answer to inserting a pending row.
#[derive(Clone, Debug)]
pub enum PersistOutcome {
    Inserted,
    /// The insert failed; the store's message is kept.
    Rejected(String),
}

/// The acknowledgement given to the message source, and whether the request
/// goes on to the dispatch channel.
#[derive(Clone, Copy, Debug, PartialEq, Eq, Structural)]
pub enum IngestAction {
    /// Not handled: the source redelivers it.
    Nack,
    /// Already handled by an earlier delivery: acknowledged, not forwarded.
    Ack,
    /// Newly recorded: acknowledged, then forwarded for settlement.
    AckAndForward,
}

impl IngestAction {
    pub open spec fn spec_acks(self) -> bool {
        self != IngestAction::Nack
    }

    pub open spec fn spec_forwards(self) -> bool {
        self == IngestAction::AckAndForward
    }

    /// Whether the message is acknowledged.
    pub fn acks(&self) -> (r: bool)
        ensures
            r == self.spec_acks(),
    {
        !matches!(self, IngestAction::Nack)
    }

    /// Whether the request is handed to the dispatch channel.
    pub fn forwards(&self) -> (r: bool)
        ensures
            r == self.spec_forwards(),
            r ==> self.spec_acks(),
    {
        matches!(self, IngestAction::AckAndForward)
    }
}

impl PersistOutcome {
    pub open spec fn spec_inserted(&self) -> bool {
        self is Inserted
    }

    pub open spec fn spec_message(&self) -> Seq<char> {
        match self {
            PersistOutcome::Inserted => Seq::empty(),
            PersistOutcome::Rejected(m) => m@,
        }
    }
}

/// Whether a store message reports a violation of the unique tag.
pub open spec fn is_duplicate_text(message: Seq<char>) -> bool {
    contains_seq(message, "duplicate key value violates unique constraint"@)
}

/// The action for a store answer: forward what was inserted, acknowledge a
/// duplicate without forwarding, and leave everything else for redelivery.
pub open spec fn action_for_reply(inserted: bool, message: Seq<char>) -> IngestAction {
    if inserted {
        IngestAction::AckAndForward
    } else if is_duplicate_text(message) {
        IngestAction::Ack
    } else {
        IngestAction::Nack
    }
}

/// Whether a store message reports a violation of the unique tag.
pub fn is_duplicate_key(message: &str) -> (r: bool)
    ensures
        r == is_duplicate_text(message@),
{
    contains_text(message, "duplicate key value violates unique constraint")
}

/// Decides the acknowledgement and forwarding of a message from the store's
/// answer to its insert. Forwarding happens only after a successful insert.
pub fn decide_after_persist(outcome: &PersistOutcome) -> (r: IngestAction)
    ensures
        r == action_for_reply(outcome.spec_inserted(), outcome.spec_message()),
        r.spec_forwards() ==> outcome.spec_inserted(),
{
    match outcome {
        PersistOutcome::Inserted => IngestAction::AckAndForward,
        PersistOutcome::Rejected(m) => {
            if is_duplicate_key(m.as_str()) {
                IngestAction::Ack
            } else {
                IngestAction::Nack
            }
        },
    }
}

/// The ledger as the store keeps it: at most one row per tag.
pub open spec fn tag_of(entry: LedgerEntry) -> Seq<char> {
    entry.request.tag_id@
}

/// Whether the store accepts a new row: no row has its tag yet.
pub open spec fn store_accepts(rows: Map<Seq<char>, LedgerEntry>, entry: LedgerEntry) -> bool {
    !rows.contains_key(tag_of(entry))
}

/// The rows after an insert under the unique constraint on the tag.
pub open spec fn store_insert(rows: Map<Seq<char>, LedgerEntry>, entry: LedgerEntry) -> Map<
    Seq<char>,
    LedgerEntry,
> {
    if store_accepts(rows, entry) {
        rows.insert(tag_of(entry), entry)
    } else {
        rows
    }
}

/// Two deliveries of requests with one tag leave exactly one row for it (the
/// first delivery's, when the tag was new, and that delivery is forwarded),
/// and the second, rejected by the store with its unique-constraint message,
/// is acknowledged and never forwarded.
pub proof fn lemma_ingestion_idempotent(
    rows: Map<Seq<char>, LedgerEntry>,
    first: Msg,
    second: Msg,
    rejection: Seq<char>,
)
    requires
        first.tag_id@ == second.tag_id@,
        is_duplicate_text(rejection),
    ensures
        ({
            let once = store_insert(rows, pending_entry(first));
            let twice = store_insert(once, pending_entry(second));
            &&& twice == once
            &&& once.contains_key(first.tag_id@)
            &&& !rows.contains_key(first.tag_id@) ==> once[first.tag_id@] == pending_entry(first)
                && twice[first.tag_id@] == pending_entry(first)
                && action_for_reply(store_accepts(rows, pending_entry(first)), rejection)
                == IngestAction::AckAndForward
            &&& once.dom() == rows.dom().insert(first.tag_id@)
            &&& !store_accepts(once, pending_entry(second))
            &&& action_for_reply(store_accepts(once, pending_entry(second)), rejection)
                == IngestAction::Ack
        }),
{
    let once = store_insert(rows, pending_entry(first));
    assert(once.dom() =~= rows.dom().insert(first.tag_id@));
}

/// A request is forwarded only when the store took its row, and then the
/// ledger holds that row in the pending state.
pub proof fn lemma_forward_only_after_pending_row(
    rows: Map<Seq<char>, LedgerEntry>,
    request: Msg,
    message: Seq<char>,
)
    ensures
        action_for_reply(store_accepts(rows, pending_entry(request)), message).spec_forwards()
            ==> ({
            let after = store_insert(rows, pending_entry(request));
            &&& after.contains_key(request.tag_id@)
            &&& after[request.tag_id@] == pending_entry(request)
            &&& after[request.tag_id@].status == StatusChoice::Pending
        }),
{
}

} // verus!
