//! One session as both tiers hold it: an opaque session identifier, the
//! serialized identity payload, and an absolute expiry timestamp.

use vstd::prelude::*;

use crate::strutil::copy_chars;

verus! {

/// A session record keyed by the application's own session identifier.
#[derive(Debug)]
pub struct SessionRecord {
    pub id: String,
    pub data: Vec<char>,
    pub expiry_date: i64,
}

/// Mathematical value of a `SessionRecord`.
pub struct SessionRecordView {
    pub id: Seq<char>,
    pub data: Seq<char>,
    pub expiry_date: int,
}

impl View for SessionRecord {
    type V = SessionRecordView;

    open spec fn view(&self) -> SessionRecordView {
        SessionRecordView { id: self.id@, data: self.data@, expiry_date: self.expiry_date as int }
    }
}

impl SessionRecord {
    /// An exact copy; every field keeps its value.
    pub fn duplicate(&self) -> (r: SessionRecord)
        ensures
            r@ == self@,
    {
        SessionRecord {
            id: self.id.clone(),
            data: copy_chars(&self.data),
            expiry_date: self.expiry_date,
        }
    }
}

} // verus!
