//! Source of the random bits that drive the protocol: basis choices, the
//! Writer's message bits and the collapse of a mismatched measurement.
//!
//! A source is either backed by the system generator or by a predetermined
//! script of bits, so that a whole simulation run can be reproduced exactly.

use vstd::prelude::*;
use crate::photon::{polarizzazione_da_bit, Polarization};
use rand::Rng;

verus! {

/// Relies on `rand::Rng::gen_range` over the range `0..=1`: it returns a
/// uniformly sampled value of that range, hence a value at most 1.
#[verifier::external_body]
fn bit_casuale_sistema() -> (b: u8)
    ensures
        b <= 1,
{
    rand::thread_rng().gen_range(0..=1)
}

/// A seedable supplier of bits. With `predeterminata` set, the bits of
/// `copione` are handed out in order (and 0 once they run out); otherwise
/// every draw comes from the system generator.
#[derive(Debug)]
pub struct RandomSource {
    pub predeterminata: bool,
    pub copione: Vec<u8>,
    pub pos: usize,
}

impl RandomSource {
    /// Every scripted bit is 0 or 1, the script is a real vector (its length
    /// fits a machine word) and the cursor never passes it.
    pub open spec fn wf(self) -> bool {
        &&& forall|i: int| 0 <= i < self.copione@.len() ==> self.copione@[i] <= 1
        &&& self.pos <= self.copione@.len()
        &&& self.copione@.len() <= usize::MAX
    }

    /// The bit the next draw returns, when the source is scripted.
    pub open spec fn prossimo_spec(self) -> u8 {
        if self.pos < self.copione@.len() {
            self.copione@[self.pos as int]
        } else {
            0
        }
    }

    /// The scripted bit `k` draws ahead of the cursor (0 past the script).
    pub open spec fn bit_copione(self, k: int) -> u8 {
        if 0 <= k && self.pos + k < self.copione@.len() {
            self.copione@[self.pos + k]
        } else {
            0
        }
    }

    /// The source after one draw: the cursor moves along the script; a system
    /// source carries no state that the model tracks.
    pub open spec fn avanzata(self) -> Self {
        if self.predeterminata && self.pos < self.copione@.len() {
            RandomSource { pos: (self.pos + 1) as usize, ..self }
        } else {
            self
        }
    }

    /// A source backed by the system generator.
    pub fn sistema() -> (s: Self)
        ensures
            s.wf(),
            !s.predeterminata,
    {
        RandomSource { predeterminata: false, copione: Vec::new(), pos: 0 }
    }

    /// A source that replays the given bits in order.
    pub fn con_copione(copione: Vec<u8>) -> (s: Self)
        requires
            forall|i: int| 0 <= i < copione@.len() ==> copione@[i] <= 1,
        ensures
            s.wf(),
            s.predeterminata,
            s.copione@ == copione@,
            s.pos == 0,
    {
        let lunghezza = copione.len();
        assert(copione@.len() == lunghezza);
        RandomSource { predeterminata: true, copione, pos: 0 }
    }

    /// Draws one bit: the next scripted bit (0 once the script is exhausted)
    /// or a fresh system bit.
    pub fn prossimo_bit(&mut self) -> (b: u8)
        requires
            old(self).wf(),
        ensures
            final(self).wf(),
            b <= 1,
            *final(self) == old(self).avanzata(),
            old(self).predeterminata ==> b == old(self).prossimo_spec(),
    {
        if self.predeterminata {
            if self.pos < self.copione.len() {
                let b = self.copione[self.pos];
                self.pos = self.pos + 1;
                b
            } else {
                0
            }
        } else {
            bit_casuale_sistema()
        }
    }

    /// Draws one basis, from one bit: 0 gives `Rectilinear`, 1 `Diagonal`.
    pub fn prossima_polarizzazione(&mut self) -> (p: Polarization)
        requires
            old(self).wf(),
        ensures
            final(self).wf(),
            *final(self) == old(self).avanzata(),
            old(self).predeterminata ==> p == polarizzazione_da_bit(
                old(self).prossimo_spec(),
            ),
    {
        let b = self.prossimo_bit();
        if b == 0 {
            Polarization::Rectilinear
        } else {
            Polarization::Diagonal
        }
    }
}

} // verus!
