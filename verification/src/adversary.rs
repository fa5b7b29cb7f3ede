//! The optional eavesdropper: before the Reader, it measures each photon in a
//! randomly chosen basis (collapsing it when that basis differs from the
//! sender's) and records what it saw.

use vstd::prelude::*;
use crate::photon::{fotoni_validi, polarizzazione_da_bit, Photon};
use crate::quantum_channel::QuantumChannel;
use crate::random_source::RandomSource;

verus! {

/// The intercept-resend attacker. Disabled it is a no-op; enabled it reads
/// every photon strictly before the Reader (the orchestrator enforces the
/// order) and never touches the channel's occupancy flag.
#[derive(Debug)]
pub struct Adversary {
    pub avversario_messaggio_quantistico_ricevuto: Vec<Photon>,
    pub attivo: bool,
    pub sorgente: RandomSource,
}

impl Adversary {
    /// Every recorded observation carries a bit in {0, 1}.
    pub open spec fn wf(self) -> bool {
        &&& fotoni_validi(self.avversario_messaggio_quantistico_ricevuto@)
        &&& self.sorgente.wf()
    }

    /// An adversary with no observations yet.
    pub fn new(attivo: bool, sorgente: RandomSource) -> (a: Self)
        requires
            sorgente.wf(),
        ensures
            a.wf(),
            a.attivo == attivo,
            a.sorgente == sorgente,
            a.avversario_messaggio_quantistico_ricevuto@.len() == 0,
    {
        Adversary {
            avversario_messaggio_quantistico_ricevuto: Vec::new(),
            attivo,
            sorgente,
        }
    }

    /// Reads one photon, if enabled: chooses a basis at random, measures the
    /// channel with it (possibly collapsing the slot) and records the pair.
    /// It never resets the occupancy flag — that is the Reader's duty.
    pub fn leggi_fotone_se_attivo(&mut self, q: &mut QuantumChannel)
        requires
            old(self).wf(),
            old(q).wf(),
        ensures
            final(self).wf(),
            final(q).wf(),
            final(self).attivo == old(self).attivo,
            final(q).fotone_in == old(q).fotone_in,
            final(q).canale_quantistico.polarizzazione == old(
                q,
            ).canale_quantistico.polarizzazione,
            !old(self).attivo ==> *final(self) == *old(self) && *final(q) == *old(q),
            old(self).attivo ==> {
                let f = final(self).avversario_messaggio_quantistico_ricevuto@.last();
                &&& final(self).avversario_messaggio_quantistico_ricevuto@ == old(
                    self,
                ).avversario_messaggio_quantistico_ricevuto@.push(f)
                &&& f.wf()
                &&& final(self).sorgente == old(self).sorgente.avanzata()
                &&& (old(self).sorgente.predeterminata ==> f.polarizzazione
                    == polarizzazione_da_bit(old(self).sorgente.prossimo_spec()))
                &&& (f.polarizzazione == old(q).canale_quantistico.polarizzazione ==> *final(q)
                    == *old(q) && f.valore == old(q).canale_quantistico.valore)
                &&& (f.polarizzazione != old(q).canale_quantistico.polarizzazione ==> {
                    &&& final(q).canale_quantistico.valore == f.valore
                    &&& final(q).sorgente == old(q).sorgente.avanzata()
                    &&& (old(q).sorgente.predeterminata ==> f.valore == old(
                        q,
                    ).sorgente.prossimo_spec())
                })
            },
    {
        if self.attivo {
            let pol_let = self.sorgente.prossima_polarizzazione();
            let valore = q.lettura_fotone(pol_let);
            self.avversario_messaggio_quantistico_ricevuto.push(
                Photon { polarizzazione: pol_let, valore },
            );
        }
    }
}

} // verus!
