//! One row of the store.

use crate::model::{valid_count, valid_name};
use vstd::prelude::*;

verus! {

/// The persisted pair of a visitor's name and how often that name has visited.
#[derive(Debug, PartialEq, Eq)]
pub struct VisitorRecord {
    pub name: String,
    pub count: u64,
}

impl VisitorRecord {
    /// A record has a name that is not empty and a count of at least one.
    pub open spec fn wf(&self) -> bool {
        valid_name(self.name@) && valid_count(self.count as int)
    }
}

impl Clone for VisitorRecord {
    fn clone(&self) -> (copy: VisitorRecord)
        ensures
            copy == *self,
    {
        VisitorRecord { name: self.name.clone(), count: self.count }
    }
}

} // verus!
