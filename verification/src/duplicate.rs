//! Copying of values.

use vstd::prelude::*;
use vstd::string::*;

use crate::duration::Duration;
use crate::status::ToolTaskStatus;
use crate::string_map::StringMap;

verus! {

/// Values that can be copied without any change that their model shows.
pub trait Duplicate: DeepView + Sized {
    /// A second value with the same model.
    fn duplicate(&self) -> (copy: Self)
        ensures
            copy.deep_view() == self.deep_view(),
    ;
}

impl Duplicate for String {
    fn duplicate(&self) -> (copy: Self) {
        self.clone()
    }
}

impl Duplicate for bool {
    fn duplicate(&self) -> (copy: Self) {
        *self
    }
}

impl Duplicate for i64 {
    fn duplicate(&self) -> (copy: Self) {
        *self
    }
}

impl Duplicate for u16 {
    fn duplicate(&self) -> (copy: Self) {
        *self
    }
}

impl Duplicate for usize {
    fn duplicate(&self) -> (copy: Self) {
        *self
    }
}

impl Duplicate for u64 {
    fn duplicate(&self) -> (copy: Self) {
        *self
    }
}

impl Duplicate for Duration {
    fn duplicate(&self) -> (copy: Self) {
        *self
    }
}

impl Duplicate for ToolTaskStatus {
    fn duplicate(&self) -> (copy: Self) {
        *self
    }
}

impl<T: Duplicate> Duplicate for Option<T> {
    fn duplicate(&self) -> (copy: Self) {
        match self {
            Some(value) => Some(value.duplicate()),
            None => None,
        }
    }
}

impl<T: Duplicate> Duplicate for Vec<T> {
    fn duplicate(&self) -> (copy: Self) {
        let mut copy: Vec<T> = Vec::new();
        let mut i: usize = 0;
        while i < self.len()
            invariant
                i <= self.len(),
                copy.len() == i,
                forall|j: int|
                    0 <= j < i ==> (#[trigger] copy@[j]).deep_view() == self@[j].deep_view(),
            decreases self.len() - i,
        {
            copy.push(self[i].duplicate());
            i = i + 1;
        }
        assert(copy.deep_view() =~= self.deep_view());
        copy
    }
}

impl<V: Duplicate> Duplicate for StringMap<V> {
    fn duplicate(&self) -> (copy: Self) {
        let copy = self.duplicate_entries();
        assert(copy.deep_view() =~= self.deep_view());
        copy
    }
}

} // verus!
