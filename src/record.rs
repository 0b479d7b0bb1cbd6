//! A mirror-table row decoded for pushing back to the remote side.

use vstd::prelude::*;

verus! {

/// A decoded column value. Floating-point values are carried as their IEEE
/// bit patterns.
pub enum Value {
    I32(i32),
    I64(i64),
    F32Bits(u32),
    F64Bits(u64),
    Bool(bool),
    Str(String),
}

/// One mirror-table row: its key, its remote id if it has one, and its other
/// columns in order.
pub struct Record {
    pub id: i32,
    pub sfid: Option<String>,
    pub data: Vec<(String, Option<Value>)>,
}

impl Record {
    /// The columns, in order.
    pub open spec fn columns(&self) -> Seq<(String, Option<Value>)> {
        self.data@
    }

    /// A record of the row `id` with remote id `sfid` and the decoded user
    /// columns, every one kept in order, nulls included.
    pub fn new(id: i32, sfid: Option<String>, cols: Vec<(String, Option<Value>)>) -> (r: Record)
        ensures
            r.id == id,
            r.sfid == sfid,
            r.columns() == cols@,
    {
        Record { id, sfid, data: cols }
    }

    /// The columns, in order.
    pub fn data(&self) -> (r: &Vec<(String, Option<Value>)>)
        ensures
            r@ == self.columns(),
    {
        &self.data
    }

    /// A record is pushed back unless it has no remote id and all its values are null.
    pub fn is_pushable(&self) -> (r: bool)
        ensures
            r == (self.sfid is Some || exists|i: int| 0 <= i < self.columns().len() && self.columns()[i].1 is Some),
    {
        if self.sfid.is_some() {
            return true;
        }
        let mut i: usize = 0;
        while i < self.data.len()
            invariant
                i <= self.data@.len(),
                forall|j: int| 0 <= j < i ==> self.data@[j].1 is None,
            decreases self.data@.len() - i,
        {
            if self.data[i].1.is_some() {
                return true;
            }
            i = i + 1;
        }
        false
    }
}

} // verus!
