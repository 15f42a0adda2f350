use vstd::prelude::*;
use crate::chain::now_millis;
use vstd::string::*;

verus! {

/// The fields a record's payload must carry to be relayed.
#[derive(Debug, Clone)]
pub struct TransactionPayload {
    pub amount: String,
    pub from: String,
    pub to: String,
}

/// A record awaiting settlement. Timestamps are milliseconds since the Unix epoch.
/// `payload` is `None` when the stored payload lacks the expected fields.
#[derive(Debug, Clone)]
pub struct Transaction {
    pub id: i32,
    pub created_at: i64,
    pub payload: Option<TransactionPayload>,
    pub status: String,
}

impl Transaction {
    /// A fresh record stamped with the current time, with display status "pending".
    pub fn new(id: i32, payload: Option<TransactionPayload>) -> (r: Self)
        ensures
            r.id == id,
            r.payload == payload,
            r.status@ == seq!['p', 'e', 'n', 'd', 'i', 'n', 'g'],
    {
        let status = String::from_str("pending");
        proof { reveal_strlit("pending"); }
        Transaction { id, created_at: now_millis(), payload, status }
    }

    /// The ledger key of this record.
    pub open spec fn key(&self) -> i64 {
        self.id as i64
    }
}

} // verus!
