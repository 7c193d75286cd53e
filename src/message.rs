//! The message record and the store's error type.
use vstd::prelude::*;

verus! {

/// The mathematical value of one stored message.
pub ghost struct Record {
    pub id: int,
    pub timestamp: Seq<char>,
    pub message: Seq<char>,
}

/// One stored message as handed out by the store.
#[derive(Debug)]
pub struct FetchedMessage {
    pub id: i32,
    pub timestamp: String,
    pub message: String,
}

impl View for FetchedMessage {
    type V = Record;

    open spec fn view(&self) -> Record {
        Record { id: self.id as int, timestamp: self.timestamp@, message: self.message@ }
    }
}

/// The records that a sequence of fetched messages stands for, in order.
pub open spec fn records(s: Seq<FetchedMessage>) -> Seq<Record> {
    s.map_values(|m: FetchedMessage| m@)
}

impl FetchedMessage {
    /// A copy of this message with the same id, timestamp and text.
    pub fn duplicate(&self) -> (r: FetchedMessage)
        ensures
            r@ == self@,
    {
        FetchedMessage {
            id: self.id,
            timestamp: self.timestamp.clone(),
            message: self.message.clone(),
        }
    }
}

/// Why a store operation failed.
#[derive(Debug)]
pub enum StoreError {
    /// Every id the table can assign has been used.
    IdsExhausted,
    /// The backend reported a failure; the text is for the log only.
    Backend(String),
}

} // verus!
