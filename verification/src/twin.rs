//! Copies that are known to be equal to what they were made from.
use crate::spans::Span;
use vstd::prelude::*;

verus! {

/// A value that can be copied with everything it holds.
pub trait Twin: DeepView + Sized {
    /// A second value that is equal to this one.
    fn twin(&self) -> (r: Self)
        ensures
            r.deep_view() == self.deep_view(),
    ;
}

impl Twin for String {
    fn twin(&self) -> (r: Self) {
        self.clone()
    }
}

impl Twin for bool {
    fn twin(&self) -> (r: Self) {
        *self
    }
}

impl Twin for u64 {
    fn twin(&self) -> (r: Self) {
        *self
    }
}

impl Twin for usize {
    fn twin(&self) -> (r: Self) {
        *self
    }
}

impl<A: Twin, B: Twin> Twin for (A, B) {
    fn twin(&self) -> (r: Self) {
        (self.0.twin(), self.1.twin())
    }
}

impl<T: Twin> Twin for Option<T> {
    fn twin(&self) -> (r: Self) {
        match self {
            Some(x) => Some(x.twin()),
            None => None,
        }
    }
}

impl<T: Twin> Twin for Vec<T> {
    fn twin(&self) -> (r: Self) {
        let mut r: Vec<T> = Vec::new();
        let mut i: usize = 0;
        while i < self.len()
            invariant
                i <= self@.len(),
                r@.len() == i,
                forall|k: int|
                    0 <= k < i ==> (#[trigger] r@[k]).deep_view() == self@[k].deep_view(),
            decreases self.len() - i,
        {
            r.push(self[i].twin());
            i += 1;
        }
        assert(r.deep_view() =~= self.deep_view());
        r
    }
}

pub fn copy_spans(v: &Vec<Span>) -> (r: Vec<Span>)
    ensures
        r@ == v@,
{
    let mut r: Vec<Span> = Vec::new();
    let mut i: usize = 0;
    while i < v.len()
        invariant
            i <= v@.len(),
            r@ == v@.take(i as int),
        decreases v.len() - i,
    {
        r.push(v[i]);
        i += 1;
        assert(v@.take(i as int) =~= v@.take(i - 1).push(v@[i - 1]));
    }
    assert(v@.take(i as int) =~= v@);
    r
}

pub fn copy_ids(v: &Vec<u64>) -> (r: Vec<u64>)
    ensures
        r@ == v@,
{
    let mut r: Vec<u64> = Vec::new();
    let mut i: usize = 0;
    while i < v.len()
        invariant
            i <= v@.len(),
            r@ == v@.take(i as int),
        decreases v.len() - i,
    {
        r.push(v[i]);
        i += 1;
        assert(v@.take(i as int) =~= v@.take(i - 1).push(v@[i - 1]));
    }
    assert(v@.take(i as int) =~= v@);
    r
}

} // verus!
