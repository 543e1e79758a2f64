//! One party's batch of authenticated bits: private bit shares together
//! with, per peer, the MAC tags that authenticate the bits to that peer and
//! the keys that verify the peer's bits.

use vstd::prelude::*;
use crate::field::{ConstInt, Ring};

verus! {

/// A batch of authenticated bits. `macs[j]` holds the tags this party holds
/// toward peer index `j`; `keys[j]` the key material verifying peer `j`'s
/// bits. Every per-peer vector is as long as `bits`.
pub struct Abits<F> {
    pub bits: Vec<bool>,
    pub macs: Vec<Vec<F>>,
    pub keys: Vec<Vec<F>>,
}

impl<F: Ring> Abits<F> {
    /// The batch invariant: one MAC vector and one key vector per peer, each
    /// aligned with `bits`, holding well-formed elements.
    pub open spec fn wf(&self) -> bool {
        &&& self.macs@.len() == self.keys@.len()
        &&& forall|j: int|
            0 <= j < self.macs@.len() ==> (#[trigger] self.macs@[j])@.len() == self.bits@.len()
        &&& forall|j: int|
            0 <= j < self.keys@.len() ==> (#[trigger] self.keys@[j])@.len() == self.bits@.len()
        &&& forall|j: int, i: int|
            0 <= j < self.macs@.len() && 0 <= i < self.bits@.len() ==> (#[trigger] self.macs@[j]@[
                i
            ]).wf()
        &&& forall|j: int, i: int|
            0 <= j < self.keys@.len() && 0 <= i < self.bits@.len() ==> (#[trigger] self.keys@[j]@[
                i
            ]).wf()
    }

    /// Number of bits in the batch.
    pub fn len(&self) -> (r: usize)
        ensures
            r == self.bits@.len(),
    {
        self.bits.len()
    }

    /// Decides the batch invariant, so a batch handed in by an outside
    /// authenticated-bit source can be gated before it is opened.
    pub fn validate(&self) -> (r: bool)
        ensures
            r == self.wf(),
    {
        if self.macs.len() != self.keys.len() {
            return false;
        }
        let npeers = self.macs.len();
        let nbits = self.bits.len();
        let mut j: usize = 0;
        while j < npeers
            invariant
                j <= npeers,
                npeers == self.macs@.len(),
                npeers == self.keys@.len(),
                nbits == self.bits@.len(),
                forall|q: int|
                    0 <= q < j ==> (#[trigger] self.macs@[q])@.len() == self.bits@.len(),
                forall|q: int|
                    0 <= q < j ==> (#[trigger] self.keys@[q])@.len() == self.bits@.len(),
                forall|q: int, i: int|
                    0 <= q < j && 0 <= i < self.bits@.len() ==> (#[trigger] self.macs@[q]@[
                        i
                    ]).wf(),
                forall|q: int, i: int|
                    0 <= q < j && 0 <= i < self.bits@.len() ==> (#[trigger] self.keys@[q]@[
                        i
                    ]).wf(),
            decreases npeers - j,
        {
            if self.macs[j].len() != nbits || self.keys[j].len() != nbits {
                return false;
            }
            let mut i: usize = 0;
            while i < nbits
                invariant
                    i <= nbits,
                    j < npeers,
                    npeers == self.macs@.len(),
                    npeers == self.keys@.len(),
                    nbits == self.bits@.len(),
                    self.macs@[j as int]@.len() == nbits,
                    self.keys@[j as int]@.len() == nbits,
                    forall|q: int|
                        0 <= q < i ==> (#[trigger] self.macs@[j as int]@[q]).wf(),
                    forall|q: int|
                        0 <= q < i ==> (#[trigger] self.keys@[j as int]@[q]).wf(),
                decreases nbits - i,
            {
                if !self.macs[j][i].is_well_formed() || !self.keys[j][i].is_well_formed() {
                    return false;
                }
                i = i + 1;
            }
            j = j + 1;
        }
        true
    }
}

} // verus!
