//! Copying and comparing values by their contents.

use crate::text::same_text;
use vstd::prelude::*;

verus! {

/// Values that can be copied with all their contents.
pub trait Copied: DeepView + Sized {
    fn copied(&self) -> (copy: Self)
        ensures
            copy.deep_view() == self.deep_view(),
    ;
}

/// Values whose contents can be compared.
pub trait SameContents: DeepView + Sized {
    fn same(&self, other: &Self) -> (same: bool)
        ensures
            same == (self.deep_view() == other.deep_view()),
    ;
}

impl Copied for bool {
    fn copied(&self) -> (copy: bool) {
        *self
    }
}

impl Copied for u8 {
    fn copied(&self) -> (copy: u8) {
        *self
    }
}

impl Copied for u16 {
    fn copied(&self) -> (copy: u16) {
        *self
    }
}

impl Copied for i32 {
    fn copied(&self) -> (copy: i32) {
        *self
    }
}

impl Copied for i64 {
    fn copied(&self) -> (copy: i64) {
        *self
    }
}

impl Copied for u64 {
    fn copied(&self) -> (copy: u64) {
        *self
    }
}

impl Copied for String {
    fn copied(&self) -> (copy: String) {
        self.clone()
    }
}

impl<A: Copied, B: Copied> Copied for (A, B) {
    fn copied(&self) -> (copy: (A, B)) {
        (self.0.copied(), self.1.copied())
    }
}

impl<T: Copied> Copied for Option<T> {
    fn copied(&self) -> (copy: Option<T>) {
        match self {
            Some(value) => Some(value.copied()),
            None => None,
        }
    }
}

impl<T: Copied> Copied for Vec<T> {
    fn copied(&self) -> (copy: Vec<T>) {
        let mut copy: Vec<T> = Vec::new();
        let mut i: usize = 0;
        while i < self.len()
            invariant
                i <= self.len(),
                copy.len() == i,
                forall|j: int| 0 <= j < i ==> (#[trigger] copy[j]).deep_view() == self[j].deep_view(),
            decreases self.len() - i,
        {
            copy.push(self[i].copied());
            i = i + 1;
        }
        proof {
            assert(copy.deep_view() =~= self.deep_view());
        }
        copy
    }
}

impl SameContents for bool {
    fn same(&self, other: &bool) -> (same: bool) {
        *self == *other
    }
}

impl SameContents for u64 {
    fn same(&self, other: &u64) -> (same: bool) {
        *self == *other
    }
}

impl SameContents for String {
    fn same(&self, other: &String) -> (same: bool) {
        same_text(self.as_str(), other.as_str())
    }
}

impl<T: SameContents> SameContents for Option<T> {
    fn same(&self, other: &Option<T>) -> (same: bool) {
        match (self, other) {
            (Some(a), Some(b)) => a.same(b),
            (None, None) => true,
            _ => false,
        }
    }
}

impl<T: SameContents> SameContents for Vec<T> {
    fn same(&self, other: &Vec<T>) -> (same: bool) {
        proof {
            assert(self.deep_view().len() == self.len());
            assert(other.deep_view().len() == other.len());
        }
        if self.len() != other.len() {
            return false;
        }
        let mut i: usize = 0;
        while i < self.len()
            invariant
                i <= self.len(),
                self.len() == other.len(),
                forall|j: int|
                    0 <= j < i ==> (#[trigger] self[j]).deep_view() == other[j].deep_view(),
            decreases self.len() - i,
        {
            if !self[i].same(&other[i]) {
                proof {
                    assert(self.deep_view()[i as int] == self[i as int].deep_view());
                    assert(other.deep_view()[i as int] == other[i as int].deep_view());
                }
                return false;
            }
            i = i + 1;
        }
        proof {
            assert(self.deep_view() =~= other.deep_view());
        }
        true
    }
}

} // verus!
