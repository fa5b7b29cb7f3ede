//! The quantum channel: a single slot holding one photon's (basis, bit)
//! state plus a presence flag, with the measurement-collapse rule.

use vstd::prelude::*;
use crate::photon::{Photon, Polarization};
use crate::random_source::RandomSource;

verus! {

/// Single-slot carrier of one photon. At most one photon is in flight at a
/// time: `fotone_in` turns true only on a Writer write and false only when
/// the Reader completes its read of the round. The collapse of a mismatched
/// measurement is the channel's only randomness at read time; it is drawn
/// from `sorgente`.
#[derive(Debug)]
pub struct QuantumChannel {
    pub canale_quantistico: Photon,
    pub fotone_in: bool,
    pub sorgente: RandomSource,
}

impl QuantumChannel {
    /// The slot always holds a bit in {0, 1}.
    pub open spec fn wf(self) -> bool {
        &&& self.canale_quantistico.wf()
        &&& self.sorgente.wf()
    }

    /// An empty channel: a default slot and no photon in flight.
    pub fn new(sorgente: RandomSource) -> (q: Self)
        requires
            sorgente.wf(),
        ensures
            q.wf(),
            q.canale_quantistico == (Photon {
                polarizzazione: Polarization::Rectilinear,
                valore: 0,
            }),
            !q.fotone_in,
            q.sorgente == sorgente,
    {
        QuantumChannel {
            canale_quantistico: Photon { polarizzazione: Polarization::Rectilinear, valore: 0 },
            fotone_in: false,
            sorgente,
        }
    }

    /// The Writer's transmission: overwrites the slot unconditionally (round
    /// ordering is the callers' duty) and leaves the presence flag alone.
    pub fn spedizione_fotone(&mut self, polarizzazione: Polarization, valore: u8)
        requires
            old(self).wf(),
            valore <= 1,
        ensures
            final(self).wf(),
            final(self).canale_quantistico == (Photon { polarizzazione, valore }),
            final(self).fotone_in == old(self).fotone_in,
            final(self).sorgente == old(self).sorgente,
    {
        self.canale_quantistico = Photon { polarizzazione, valore };
    }

    /// A measurement. With the slot's own basis it is non-destructive and
    /// returns the stored bit. With the other basis the stored bit collapses:
    /// a fresh bit is drawn, replaces the stored one (the basis stays) and is
    /// returned — so only the first mismatched measurement of a slot can
    /// collapse it; re-reading in the same basis is then deterministic.
    pub fn lettura_fotone(&mut self, polarizzazione_misura: Polarization) -> (valore: u8)
        requires
            old(self).wf(),
        ensures
            final(self).wf(),
            valore <= 1,
            final(self).fotone_in == old(self).fotone_in,
            final(self).canale_quantistico.polarizzazione == old(
                self,
            ).canale_quantistico.polarizzazione,
            polarizzazione_misura == old(self).canale_quantistico.polarizzazione ==> {
                &&& valore == old(self).canale_quantistico.valore
                &&& *final(self) == *old(self)
            },
            polarizzazione_misura != old(self).canale_quantistico.polarizzazione ==> {
                &&& final(self).canale_quantistico.valore == valore
                &&& final(self).sorgente == old(self).sorgente.avanzata()
                &&& (old(self).sorgente.predeterminata ==> valore == old(
                    self,
                ).sorgente.prossimo_spec())
            },
    {
        let pol_tx = self.canale_quantistico.polarizzazione;
        if pol_tx == polarizzazione_misura {
            self.canale_quantistico.valore
        } else {
            let nuovo = self.sorgente.prossimo_bit();
            self.canale_quantistico = Photon { polarizzazione: pol_tx, valore: nuovo };
            nuovo
        }
    }

    /// Marks that a new photon is in the channel; bookkeeping only.
    pub fn set_fotone_in(&mut self)
        requires
            old(self).wf(),
        ensures
            final(self).wf(),
            *final(self) == (QuantumChannel { fotone_in: true, ..*old(self) }),
    {
        self.fotone_in = true;
    }

    /// Marks that the read of the round is complete; bookkeeping only.
    pub fn set_fotone_out(&mut self)
        requires
            old(self).wf(),
        ensures
            final(self).wf(),
            *final(self) == (QuantumChannel { fotone_in: false, ..*old(self) }),
    {
        self.fotone_in = false;
    }
}

} // verus!
