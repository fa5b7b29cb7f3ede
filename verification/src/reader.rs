//! The receiver actor: measures each photon in a randomly chosen basis,
//! compares its bases against the Writer's published list, sifts the raw key,
//! sacrifices the test subsequence and confirms or discards the final key.

use vstd::prelude::*;
use crate::keys::{chiave_ridotta, estrai_sottosequenza_test, rimuovi_bit_test, setaccia,
    setaccia_fotoni, sottosequenza_test};
use crate::photon::{fotoni_validi, polarizzazione_da_bit, Photon, Polarization};
use crate::public_channel::PublicChannel;
use crate::quantum_channel::QuantumChannel;
use crate::random_source::RandomSource;
use crate::vettori::copia;

verus! {

/// The Reader of one simulation run of `lung_msg` rounds.
#[derive(Debug)]
pub struct Reader {
    pub messaggio_quantistico_ricevuto: Vec<Photon>,
    pub esito_letture: Vec<bool>,
    pub chiave_grezza: Vec<u8>,
    pub chiave_simmetrica: Vec<u8>,
    pub test_avversario: Vec<u8>,
    pub lung_msg: usize,
    pub sorgente: RandomSource,
}

impl Reader {
    /// Every recorded observation carries a bit in {0, 1}.
    pub open spec fn wf(self) -> bool {
        &&& fotoni_validi(self.messaggio_quantistico_ricevuto@)
        &&& self.sorgente.wf()
    }

    /// A Reader that has observed nothing yet.
    pub fn new(lung_msg: usize, sorgente: RandomSource) -> (l: Self)
        requires
            sorgente.wf(),
        ensures
            l.wf(),
            l.lung_msg == lung_msg,
            l.sorgente == sorgente,
            l.messaggio_quantistico_ricevuto@.len() == 0,
            l.esito_letture@.len() == 0,
            l.chiave_grezza@.len() == 0,
            l.chiave_simmetrica@.len() == 0,
            l.test_avversario@.len() == 0,
    {
        Reader {
            messaggio_quantistico_ricevuto: Vec::new(),
            esito_letture: Vec::new(),
            chiave_grezza: Vec::new(),
            chiave_simmetrica: Vec::new(),
            test_avversario: Vec::new(),
            lung_msg,
            sorgente,
        }
    }

    /// Measures the photon of the current round: chooses a basis at random,
    /// reads the channel with it (possibly collapsing the slot), records the
    /// pair and clears the channel's occupancy flag. Must run after the
    /// Adversary's read of the same round.
    pub fn leggi_fotone(&mut self, q: &mut QuantumChannel)
        requires
            old(self).wf(),
            old(q).wf(),
        ensures
            final(self).wf(),
            final(q).wf(),
            !final(q).fotone_in,
            final(q).canale_quantistico.polarizzazione == old(
                q,
            ).canale_quantistico.polarizzazione,
            final(self).lung_msg == old(self).lung_msg,
            final(self).esito_letture == old(self).esito_letture,
            final(self).chiave_grezza == old(self).chiave_grezza,
            final(self).chiave_simmetrica == old(self).chiave_simmetrica,
            final(self).test_avversario == old(self).test_avversario,
            final(self).sorgente == old(self).sorgente.avanzata(),
            ({
                let f = final(self).messaggio_quantistico_ricevuto@.last();
                &&& final(self).messaggio_quantistico_ricevuto@ == old(
                    self,
                ).messaggio_quantistico_ricevuto@.push(f)
                &&& f.wf()
                &&& (old(self).sorgente.predeterminata ==> f.polarizzazione
                    == polarizzazione_da_bit(old(self).sorgente.prossimo_spec()))
                &&& (f.polarizzazione == old(q).canale_quantistico.polarizzazione ==> {
                    &&& f.valore == old(q).canale_quantistico.valore
                    &&& final(q).canale_quantistico == old(q).canale_quantistico
                    &&& final(q).sorgente == old(q).sorgente
                })
                &&& (f.polarizzazione != old(q).canale_quantistico.polarizzazione ==> {
                    &&& final(q).canale_quantistico.valore == f.valore
                    &&& final(q).sorgente == old(q).sorgente.avanzata()
                    &&& (old(q).sorgente.predeterminata ==> f.valore == old(
                        q,
                    ).sorgente.prossimo_spec())
                })
            }),
    {
        let pol_let = self.sorgente.prossima_polarizzazione();
        let valore = q.lettura_fotone(pol_let);
        self.messaggio_quantistico_ricevuto.push(Photon { polarizzazione: pol_let, valore });
        q.set_fotone_out();
    }

    /// Signals on the public channel that all rounds were read.
    pub fn segnala_fine_lettura(&self, p: &mut PublicChannel)
        requires
            old(p).wf(),
        ensures
            final(p).wf(),
            *final(p) == (PublicChannel { fine_lettura: true, ..*old(p) }),
    {
        p.fine_lettura();
    }

    /// Reconciliation: compares its own bases against the Writer's published
    /// list, publishes the sifting mask, sifts the raw key, samples the test
    /// subsequence and computes its final key (still to be confirmed).
    pub fn elabora_e_invia_esito(
        &mut self,
        p: &mut PublicChannel,
        polarizzazioni_scrittore: Vec<Polarization>,
    )
        requires
            old(self).wf(),
            old(p).wf(),
            polarizzazioni_scrittore@.len() == old(self).messaggio_quantistico_ricevuto@.len(),
            old(self).messaggio_quantistico_ricevuto@.len() == old(p).lung_msg,
        ensures
            final(self).wf(),
            final(p).wf(),
            final(self).messaggio_quantistico_ricevuto == old(self).messaggio_quantistico_ricevuto,
            final(self).lung_msg == old(self).lung_msg,
            final(self).sorgente == old(self).sorgente,
            final(self).esito_letture@.len() == polarizzazioni_scrittore@.len(),
            forall|i: int|
                0 <= i < polarizzazioni_scrittore@.len() ==> final(self).esito_letture@[i] == (old(
                    self,
                ).messaggio_quantistico_ricevuto@[i].polarizzazione
                    == polarizzazioni_scrittore@[i]),
            final(self).chiave_grezza@ == setaccia(
                old(self).messaggio_quantistico_ricevuto@,
                final(self).esito_letture@,
            ),
            final(self).test_avversario@ == sottosequenza_test(final(self).chiave_grezza@),
            final(self).chiave_simmetrica@ == chiave_ridotta(final(self).chiave_grezza@),
            *final(p) == (PublicChannel {
                sequenza_ricezione: final(p).sequenza_ricezione,
                sequenza_polarizzazioni_pronta: true,
                ..*old(p)
            }),
            final(p).sequenza_ricezione@ == final(self).esito_letture@,
    {
        let mut esito: Vec<bool> = Vec::new();
        let mut i: usize = 0;
        while i < polarizzazioni_scrittore.len()
            invariant
                i <= polarizzazioni_scrittore@.len(),
                polarizzazioni_scrittore@.len()
                    == self.messaggio_quantistico_ricevuto@.len(),
                *self == *old(self),
                esito@.len() == i,
                forall|j: int|
                    0 <= j < i ==> esito@[j] == (
                    self.messaggio_quantistico_ricevuto@[j].polarizzazione
                        == polarizzazioni_scrittore@[j]),
            decreases polarizzazioni_scrittore@.len() - i,
        {
            let f = self.messaggio_quantistico_ricevuto[i];
            esito.push(f.polarizzazione == polarizzazioni_scrittore[i]);
            i = i + 1;
        }
        self.esito_letture = esito;
        p.invia_sequenza_ricezione(copia(&self.esito_letture));
        self.chiave_grezza = setaccia_fotoni(
            &self.messaggio_quantistico_ricevuto,
            &self.esito_letture,
        );
        self.test_avversario = estrai_sottosequenza_test(&self.chiave_grezza);
        self.chiave_simmetrica = rimuovi_bit_test(&self.chiave_grezza);
    }

    /// Publishes the sacrificed test bits on the public channel.
    pub fn invia_test_avversario(&self, p: &mut PublicChannel)
        requires
            old(p).wf(),
        ensures
            final(p).wf(),
            *final(p) == (PublicChannel {
                test_avversario: final(p).test_avversario,
                test_avversario_pronto: true,
                ..*old(p)
            }),
            final(p).test_avversario@ == self.test_avversario@,
    {
        p.scrivi_test_avversario(copia(&self.test_avversario));
    }

    /// After the Writer signalled the final status: keeps the final key if it
    /// was confirmed, discards the key material otherwise.
    pub fn conferma_finale(&mut self, p: &PublicChannel)
        ensures
            p.chiave_simmetrica_ok ==> *final(self) == *old(self),
            !p.chiave_simmetrica_ok ==> *final(self) == (Reader {
                chiave_simmetrica: final(self).chiave_simmetrica,
                ..*old(self)
            }) && final(self).chiave_simmetrica@.len() == 0,
    {
        if !p.chiave_simmetrica_ok {
            self.chiave_simmetrica.clear();
        }
    }
}

} // verus!
