//! The ledger row of a request and its status state machine: created
//! pending, then settled once, to success or to failure.
use vstd::prelude::*;
use crate::error::AppError;
use crate::model::StatusChoice;
use crate::schema::Msg;

verus! {

/// The persisted lifecycle of one request.
#[derive(Clone, Debug)]
pub struct LedgerEntry {
    pub request: Msg,
    pub status: StatusChoice,
    pub status_code: Option<i32>,
    pub tx_hash: Option<String>,
    pub fail_reason: Option<String>,
}

/// The outcome written to a row when its dispatch ends.
#[derive(Clone, Debug)]
pub struct SettlementUpdate {
    pub status_code: i32,
    pub status: StatusChoice,
    pub tx_hash: Option<String>,
    pub fail_reason: Option<String>,
}

/// The row written on first ingestion of a request.
pub open spec fn pending_entry(request: Msg) -> LedgerEntry {
    LedgerEntry {
        request,
        status: StatusChoice::Pending,
        status_code: None,
        tx_hash: None,
        fail_reason: None,
    }
}

/// Success records 202 and the full hash; a failure records the error's code
/// and message, and no hash.
pub open spec fn update_matches(result: Result<String, AppError>, u: SettlementUpdate) -> bool {
    match result {
        Ok(h) => {
            &&& u.status_code == 202
            &&& u.status == StatusChoice::Success
            &&& u.tx_hash matches Some(t) && t@ == h@
            &&& u.fail_reason is None
        },
        Err(e) => {
            &&& u.status_code == e.spec_status_code()
            &&& u.status == StatusChoice::Fail
            &&& u.tx_hash is None
            &&& u.fail_reason matches Some(m) && m@ == e.spec_message()
        },
    }
}

impl LedgerEntry {
    /// A new row for `request`, in the pending state.
    pub fn pending(request: Msg) -> (r: LedgerEntry)
        ensures
            r == pending_entry(request),
    {
        LedgerEntry {
            request,
            status: StatusChoice::Pending,
            status_code: None,
            tx_hash: None,
            fail_reason: None,
        }
    }

    /// Records the dispatch outcome: the one mutation a pending row receives.
    pub fn settle(&mut self, update: SettlementUpdate)
        requires
            old(self).status == StatusChoice::Pending,
            update.status != StatusChoice::Pending,
        ensures
            final(self).request == old(self).request,
            final(self).status == update.status,
            final(self).status_code == Some(update.status_code),
            final(self).tx_hash == update.tx_hash,
            final(self).fail_reason == update.fail_reason,
    {
        self.status = update.status;
        self.status_code = Some(update.status_code);
        self.tx_hash = update.tx_hash;
        self.fail_reason = update.fail_reason;
    }
}

/// Classifies a dispatch result into the update written to its row.
pub fn settlement_update(result: &Result<String, AppError>) -> (r: SettlementUpdate)
    ensures
        update_matches(*result, r),
        r.status != StatusChoice::Pending,
{
    match result {
        Ok(h) => SettlementUpdate {
            status_code: 202,
            status: StatusChoice::Success,
            tx_hash: Some(h.clone()),
            fail_reason: None,
        },
        Err(e) => SettlementUpdate {
            status_code: e.status_code(),
            status: StatusChoice::Fail,
            tx_hash: None,
            fail_reason: Some(e.message()),
        },
    }
}

/// A missing `result` field is recorded as a 500 whose reason names the field.
pub proof fn lemma_missing_field_reason(k: String, u: SettlementUpdate)
    requires
        k@ == "result"@,
        update_matches(Err(AppError::KeyError(k)), u),
    ensures
        u.status_code == 500,
        u.tx_hash is None,
        u.fail_reason matches Some(m) && crate::text::contains_seq(m@, k@),
{
    reveal_strlit("can't get key ");
    let m = u.fail_reason->Some_0;
    let head = "can't get key "@;
    assert(m@.subrange(head.len() as int, (head.len() + k@.len()) as int) =~= k@);
    assert(crate::text::occurs_at(m@, k@, head.len() as int));
}

} // verus!
