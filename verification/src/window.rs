//! A window is one carved piece of the output file: a fixed number of bytes
//! that exactly one writer fills from the front.

use vstd::prelude::*;
use crate::bytes::{append_bytes, append_zeros, put_bytes, splice};

verus! {

/// A carved region of the output. `data` holds what has been taken from the
/// front so far; the rest of the `capacity` is the residual.
pub struct Window {
    pub data: Vec<u8>,
    pub capacity: usize,
}

impl Window {
    /// What was taken never exceeds what was carved.
    pub open spec fn wf(&self) -> bool {
        self.data@.len() <= self.capacity
    }

    /// Whether what was taken does not exceed what was carved.
    pub fn is_well_formed(&self) -> (ok: bool)
        ensures
            ok == self.wf(),
    {
        self.data.len() <= self.capacity
    }

    /// The number of bytes not yet taken.
    pub open spec fn residual(&self) -> int {
        self.capacity - self.data@.len()
    }

    /// A fresh window of `capacity` bytes, none of them taken.
    pub fn new(capacity: usize) -> (w: Window)
        ensures
            w.wf(),
            w.data@ == Seq::<u8>::empty(),
            w.capacity == capacity,
    {
        Window { data: Vec::new(), capacity }
    }

    /// The number of bytes not yet taken.
    pub fn remaining(&self) -> (n: usize)
        requires
            self.wf(),
        ensures
            n == self.residual(),
    {
        self.capacity - self.data.len()
    }

    /// Whether the whole window has been taken.
    pub fn is_exhausted(&self) -> (b: bool)
        requires
            self.wf(),
        ensures
            b == (self.residual() == 0),
    {
        self.capacity == self.data.len()
    }

    /// Takes `n` bytes from the front of the residual, zero-filled, and
    /// returns the position at which they start. Takes nothing if fewer than
    /// `n` bytes are left.
    pub fn take_prefix(&mut self, n: usize) -> (r: Option<usize>)
        requires
            old(self).wf(),
        ensures
            final(self).wf(),
            final(self).capacity == old(self).capacity,
            n <= old(self).residual() ==> r == Some(old(self).data.len())
                && final(self).data@ == old(self).data@ + Seq::new(n as nat, |i: int| 0u8),
            n > old(self).residual() ==> r.is_none() && final(self).data@ == old(self).data@,
    {
        if n > self.capacity - self.data.len() {
            return None;
        }
        let at: usize = self.data.len();
        append_zeros(&mut self.data, n);
        Some(at)
    }

    /// Takes `src.len()` bytes from the front of the residual and fills them
    /// with `src`. Takes nothing and returns `false` if too few are left.
    pub fn emit(&mut self, src: &Vec<u8>) -> (ok: bool)
        requires
            old(self).wf(),
        ensures
            final(self).wf(),
            final(self).capacity == old(self).capacity,
            ok == (src@.len() <= old(self).residual()),
            ok ==> final(self).data@ == old(self).data@ + src@,
            !ok ==> final(self).data@ == old(self).data@,
    {
        if src.len() > self.capacity - self.data.len() {
            return false;
        }
        append_bytes(&mut self.data, src);
        true
    }

    /// Overwrites bytes that were taken earlier.
    pub fn patch(&mut self, at: usize, src: &Vec<u8>)
        requires
            old(self).wf(),
            at + src@.len() <= old(self).data@.len(),
        ensures
            final(self).wf(),
            final(self).capacity == old(self).capacity,
            final(self).data@ == splice(old(self).data@, at as int, src@),
    {
        put_bytes(&mut self.data, at, src);
    }
}

} // verus!
