//! The sender actor: generates the random (basis, bit) message, transmits it
//! photon by photon, publishes its basis list, sifts its raw key, compares
//! the sacrificed test bits and commits or discards the final key.

use vstd::prelude::*;
use crate::keys::{chiave_ridotta, conta_differenze, differenze_fino, estrai_sottosequenza_test,
    lemma_differenze_zero, minimo, rimuovi_bit_test, setaccia, setaccia_fotoni,
    sottosequenza_test};
use crate::photon::{fotoni_validi, polarizzazione_da_bit, Photon, Polarization};
use crate::public_channel::PublicChannel;
use crate::quantum_channel::QuantumChannel;
use crate::random_source::RandomSource;

verus! {

/// The outcome of the Writer's eavesdropping test: the Reader never published
/// its test bits, the test failed (with the count of compared positions and
/// of mismatches, a length difference contributing its absolute value), or
/// the key was confirmed.
#[derive(Clone, Copy, PartialEq, Eq, Structural, Debug)]
pub enum EsitoTest {
    TestNonPronto,
    AvversarioRilevato { bit_confrontati: usize, errori: usize },
    ChiaveConfermata,
}

/// The Writer of one simulation run of `lung_msg` rounds.
#[derive(Debug)]
pub struct Writer {
    pub messaggio_quantistico: Vec<Photon>,
    pub chiave_grezza: Vec<u8>,
    pub chiave_simmetrica: Vec<u8>,
    pub test_avversario: Vec<u8>,
    pub lung_msg: usize,
    pub sorgente: RandomSource,
}

impl Writer {
    /// Every message photon carries a bit in {0, 1}.
    pub open spec fn wf(self) -> bool {
        &&& fotoni_validi(self.messaggio_quantistico@)
        &&& self.sorgente.wf()
    }

    /// A Writer with no message yet.
    pub fn new(lung_msg: usize, sorgente: RandomSource) -> (s: Self)
        requires
            sorgente.wf(),
        ensures
            s.wf(),
            s.lung_msg == lung_msg,
            s.sorgente == sorgente,
            s.messaggio_quantistico@.len() == 0,
            s.chiave_grezza@.len() == 0,
            s.chiave_simmetrica@.len() == 0,
            s.test_avversario@.len() == 0,
    {
        Writer {
            messaggio_quantistico: Vec::new(),
            chiave_grezza: Vec::new(),
            chiave_simmetrica: Vec::new(),
            test_avversario: Vec::new(),
            lung_msg,
            sorgente,
        }
    }

    /// Generates the message: `lung_msg` photons with a random basis and a
    /// random bit each, two draws per photon. With a predetermined source
    /// holding enough bits, photon `i` is exactly (basis of bit `2i`,
    /// bit `2i + 1`) of the script.
    pub fn inizializzazione(&mut self)
        requires
            old(self).wf(),
            old(self).messaggio_quantistico@.len() == 0,
        ensures
            final(self).wf(),
            final(self).messaggio_quantistico@.len() == old(self).lung_msg,
            final(self).lung_msg == old(self).lung_msg,
            final(self).chiave_grezza == old(self).chiave_grezza,
            final(self).chiave_simmetrica == old(self).chiave_simmetrica,
            final(self).test_avversario == old(self).test_avversario,
            final(self).sorgente.predeterminata == old(self).sorgente.predeterminata,
            final(self).sorgente.copione@ == old(self).sorgente.copione@,
            !old(self).sorgente.predeterminata ==> final(self).sorgente == old(self).sorgente,
            (old(self).sorgente.predeterminata && old(self).sorgente.pos + 2 * old(self).lung_msg
                <= old(self).sorgente.copione@.len()) ==> {
                &&& final(self).sorgente.pos == old(self).sorgente.pos + 2 * old(self).lung_msg
                &&& forall|i: int|
                    0 <= i < old(self).lung_msg ==> {
                        &&& (#[trigger] final(self).messaggio_quantistico@[i]).polarizzazione
                            == polarizzazione_da_bit(
                            old(self).sorgente.copione@[old(self).sorgente.pos + 2 * i],
                        )
                        &&& final(self).messaggio_quantistico@[i].valore == old(
                            self,
                        ).sorgente.copione@[old(self).sorgente.pos + 2 * i + 1]
                    }
            },
    {
        let n = self.lung_msg;
        let mut i: usize = 0;
        while i < n
            invariant
                i <= n,
                n == old(self).lung_msg,
                self.lung_msg == n,
                self.chiave_grezza == old(self).chiave_grezza,
                self.chiave_simmetrica == old(self).chiave_simmetrica,
                self.test_avversario == old(self).test_avversario,
                self.messaggio_quantistico@.len() == i,
                fotoni_validi(self.messaggio_quantistico@),
                self.sorgente.wf(),
                self.sorgente.predeterminata == old(self).sorgente.predeterminata,
                self.sorgente.copione@ == old(self).sorgente.copione@,
                !old(self).sorgente.predeterminata ==> self.sorgente == old(self).sorgente,
                (old(self).sorgente.predeterminata && old(self).sorgente.pos + 2 * n <= old(
                    self,
                ).sorgente.copione@.len()) ==> {
                    &&& self.sorgente.pos == old(self).sorgente.pos + 2 * i
                    &&& forall|j: int|
                        0 <= j < i ==> {
                            &&& (#[trigger] self.messaggio_quantistico@[j]).polarizzazione
                                == polarizzazione_da_bit(
                                old(self).sorgente.copione@[old(self).sorgente.pos + 2 * j],
                            )
                            &&& self.messaggio_quantistico@[j].valore == old(
                                self,
                            ).sorgente.copione@[old(self).sorgente.pos + 2 * j + 1]
                        }
                },
            decreases n - i,
        {
            proof {
                if old(self).sorgente.predeterminata && old(self).sorgente.pos + 2 * n <= old(
                    self,
                ).sorgente.copione@.len() {
                    assert(self.sorgente.pos + 2 <= self.sorgente.copione@.len());
                }
            }
            let ghost sorgente_prima = self.sorgente;
            let pol = self.sorgente.prossima_polarizzazione();
            proof {
                if sorgente_prima.predeterminata && sorgente_prima.pos + 2
                    <= sorgente_prima.copione@.len() {
                    assert(self.sorgente.pos == sorgente_prima.pos + 1);
                    assert(pol == polarizzazione_da_bit(
                        sorgente_prima.copione@[sorgente_prima.pos as int],
                    ));
                }
            }
            let val = self.sorgente.prossimo_bit();
            proof {
                if sorgente_prima.predeterminata && sorgente_prima.pos + 2
                    <= sorgente_prima.copione@.len() {
                    assert(self.sorgente.pos == sorgente_prima.pos + 2);
                    assert(val == sorgente_prima.copione@[sorgente_prima.pos + 1]);
                }
            }
            self.messaggio_quantistico.push(Photon { polarizzazione: pol, valore: val });
            i = i + 1;
        }
    }

    /// Writes photon `indice` of the message on the quantum channel and marks
    /// the photon present.
    pub fn scrivi_su_canale_quantistico(&self, q: &mut QuantumChannel, indice: usize)
        requires
            self.wf(),
            old(q).wf(),
            indice < self.messaggio_quantistico@.len(),
        ensures
            final(q).wf(),
            *final(q) == (QuantumChannel {
                canale_quantistico: self.messaggio_quantistico@[indice as int],
                fotone_in: true,
                ..*old(q)
            }),
    {
        let f = self.messaggio_quantistico[indice];
        assert(self.messaggio_quantistico@[indice as int].wf());
        q.spedizione_fotone(f.polarizzazione, f.valore);
        q.set_fotone_in();
    }

    /// Publishes the basis list of the whole message on the public channel.
    pub fn pubblicazione_polarizzazione(&self, p: &mut PublicChannel)
        requires
            self.wf(),
            old(p).wf(),
            self.messaggio_quantistico@.len() == old(p).lung_msg,
        ensures
            final(p).wf(),
            *final(p) == (PublicChannel {
                canale_pubblico: final(p).canale_pubblico,
                pubblicazione_pronta: true,
                ..*old(p)
            }),
            final(p).canale_pubblico@.len() == self.messaggio_quantistico@.len(),
            forall|i: int|
                0 <= i < self.messaggio_quantistico@.len() ==> final(p).canale_pubblico@[i]
                    == self.messaggio_quantistico@[i].polarizzazione,
    {
        let mut polarizzazioni: Vec<Polarization> = Vec::new();
        let mut i: usize = 0;
        while i < self.messaggio_quantistico.len()
            invariant
                i <= self.messaggio_quantistico@.len(),
                polarizzazioni@.len() == i,
                forall|j: int|
                    0 <= j < i ==> polarizzazioni@[j]
                        == self.messaggio_quantistico@[j].polarizzazione,
            decreases self.messaggio_quantistico@.len() - i,
        {
            let f = self.messaggio_quantistico[i];
            polarizzazioni.push(f.polarizzazione);
            i = i + 1;
        }
        p.pubblica_polarizzazioni(polarizzazioni);
    }

    /// Sifts the raw key from the message, by the mask the Reader published:
    /// the same algorithm, the same mask, the same index order.
    pub fn selezione_chiave_grezza(&mut self, p: &mut PublicChannel)
        requires
            old(self).wf(),
            old(p).wf(),
            old(self).messaggio_quantistico@.len() == old(p).lung_msg,
        ensures
            final(self).wf(),
            final(p).wf(),
            *final(self) == (Writer { chiave_grezza: final(self).chiave_grezza, ..*old(self) }),
            final(self).chiave_grezza@ == setaccia(
                old(self).messaggio_quantistico@,
                old(p).sequenza_ricezione@,
            ),
            *final(p) == (PublicChannel {
                sequenza_polarizzazioni_pronta: false,
                ..*old(p)
            }),
    {
        let esito = p.leggi_sequenza_ricezione();
        self.chiave_grezza = setaccia_fotoni(&self.messaggio_quantistico, &esito);
    }

    /// Samples its own test subsequence, compares it with the Reader's (once
    /// published), and either reports the eavesdropping evidence or commits
    /// the final key; either way the run terminates.
    pub fn selezione_test_e_chiave_finale(&mut self, p: &mut PublicChannel) -> (esito: EsitoTest)
        requires
            old(self).wf(),
            old(p).wf(),
        ensures
            final(self).wf(),
            final(p).wf(),
            final(self).messaggio_quantistico == old(self).messaggio_quantistico,
            final(self).chiave_grezza == old(self).chiave_grezza,
            final(self).lung_msg == old(self).lung_msg,
            final(self).sorgente == old(self).sorgente,
            final(self).test_avversario@ == sottosequenza_test(old(self).chiave_grezza@),
            final(p).processo_terminato,
            !old(p).test_avversario_pronto ==> {
                &&& esito == EsitoTest::TestNonPronto
                &&& final(self).chiave_simmetrica == old(self).chiave_simmetrica
                &&& *final(p) == (PublicChannel { processo_terminato: true, ..*old(p) })
            },
            old(p).test_avversario_pronto ==> ({
                let mio = sottosequenza_test(old(self).chiave_grezza@);
                let suo = old(p).test_avversario@;
                &&& (mio == suo ==> {
                    &&& esito == EsitoTest::ChiaveConfermata
                    &&& final(self).chiave_simmetrica@ == chiave_ridotta(
                        old(self).chiave_grezza@,
                    )
                    &&& *final(p) == (PublicChannel {
                        test_avversario_pronto: false,
                        chiave_simmetrica_ok: true,
                        processo_terminato: true,
                        ..*old(p)
                    })
                })
                &&& (mio != suo ==> {
                    &&& (esito matches EsitoTest::AvversarioRilevato { bit_confrontati, errori }
                        && bit_confrontati == mio.len() && errori == conta_differenze(mio, suo)
                        + (if mio.len() >= suo.len() {
                        mio.len() - suo.len()
                    } else {
                        suo.len() - mio.len()
                    }) && errori >= 1)
                    &&& final(self).chiave_simmetrica == old(self).chiave_simmetrica
                    &&& *final(p) == (PublicChannel {
                        test_avversario_pronto: false,
                        processo_terminato: true,
                        ..*old(p)
                    })
                })
            }),
    {
        self.test_avversario = estrai_sottosequenza_test(&self.chiave_grezza);
        if p.test_avversario_pronto {
            let test_lettore = p.leggi_test_avversario();
            let lung_mio = self.test_avversario.len();
            let lung_suo = test_lettore.len();
            let lung_comune = if lung_mio <= lung_suo {
                lung_mio
            } else {
                lung_suo
            };
            let mut errori_zip: usize = 0;
            let mut i: usize = 0;
            while i < lung_comune
                invariant
                    i <= lung_comune,
                    errori_zip <= i,
                    lung_comune == minimo(
                        self.test_avversario@.len() as int,
                        test_lettore@.len() as int,
                    ),
                    errori_zip == differenze_fino(
                        self.test_avversario@,
                        test_lettore@,
                        i as int,
                    ),
                decreases lung_comune - i,
            {
                if self.test_avversario[i] != test_lettore[i] {
                    errori_zip = errori_zip + 1;
                }
                i = i + 1;
            }
            proof {
                assert(errori_zip == conta_differenze(self.test_avversario@, test_lettore@));
            }
            if errori_zip > 0 || lung_mio != lung_suo {
                let differenza_lunghezze = if lung_mio >= lung_suo {
                    lung_mio - lung_suo
                } else {
                    lung_suo - lung_mio
                };
                let errori = errori_zip + differenza_lunghezze;
                p.processo_terminato();
                proof {
                    if lung_mio == lung_suo {
                        lemma_differenze_zero(self.test_avversario@, test_lettore@);
                    }
                }
                EsitoTest::AvversarioRilevato { bit_confrontati: lung_mio, errori }
            } else {
                proof {
                    lemma_differenze_zero(self.test_avversario@, test_lettore@);
                }
                self.chiave_simmetrica = rimuovi_bit_test(&self.chiave_grezza);
                p.chiave_simmetrica_ok();
                p.processo_terminato();
                EsitoTest::ChiaveConfermata
            }
        } else {
            p.processo_terminato();
            EsitoTest::TestNonPronto
        }
    }
}

} // verus!
