//! The driver of one simulation run: the fixed nine-phase protocol across
//! `lung_msg` rounds. The phase order is itself a correctness invariant —
//! per round Writer-transmit, Adversary-intercept (if enabled),
//! Reader-measure-and-clear; then signal-done, publish-bases, reconcile,
//! sift-and-test-and-finalize, confirm.

use vstd::prelude::*;
use crate::adversary::Adversary;
use crate::keys::{conta_veri, conta_veri_vec, lemma_setaccio_concorde, setaccia,
    sottosequenza_test};
use crate::photon::polarizzazione_da_bit;
use crate::public_channel::PublicChannel;
use crate::quantum_channel::QuantumChannel;
use crate::random_source::RandomSource;
use crate::reader::Reader;
use crate::writer::{EsitoTest, Writer};

verus! {

/// The four components of a completed run, read-only afterwards, plus the
/// Writer's test verdict.
#[derive(Debug)]
pub struct SimulationRun {
    pub scrittore: Writer,
    pub lettore: Reader,
    pub avversario: Adversary,
    pub canale_pubblico: PublicChannel,
    pub esito_test: EsitoTest,
}

/// Runs the whole protocol: `lung_msg` rounds of transmission, then
/// reconciliation, sifting, the sacrifice-based eavesdropping test and the
/// commit/abort decision. Each actor draws its randomness from its own
/// source; the channel draws collapse bits from its own.
#[verifier::rlimit(50)]
pub fn esegui_simulazione(
    lung_msg: usize,
    avversario_attivo: bool,
    sorgente_scrittore: RandomSource,
    sorgente_lettore: RandomSource,
    sorgente_avversario: RandomSource,
    sorgente_canale: RandomSource,
) -> (r: SimulationRun)
    requires
        sorgente_scrittore.wf(),
        sorgente_lettore.wf(),
        sorgente_avversario.wf(),
        sorgente_canale.wf(),
    ensures
        r.scrittore.messaggio_quantistico@.len() == lung_msg,
        r.lettore.messaggio_quantistico_ricevuto@.len() == lung_msg,
        r.avversario.attivo == avversario_attivo,
        r.avversario.avversario_messaggio_quantistico_ricevuto@.len() == (if avversario_attivo {
            lung_msg as int
        } else {
            0
        }),
        // The sifting mask marks exactly the rounds whose bases matched.
        r.lettore.esito_letture@.len() == lung_msg,
        forall|i: int|
            0 <= i < lung_msg ==> r.lettore.esito_letture@[i] == ((
            #[trigger] r.lettore.messaggio_quantistico_ricevuto@[i]).polarizzazione
                == r.scrittore.messaggio_quantistico@[i].polarizzazione),
        // Both raw keys sift by that one mask, each from its own bits.
        r.lettore.chiave_grezza@ == setaccia(
            r.lettore.messaggio_quantistico_ricevuto@,
            r.lettore.esito_letture@,
        ),
        r.scrittore.chiave_grezza@ == setaccia(
            r.scrittore.messaggio_quantistico@,
            r.lettore.esito_letture@,
        ),
        // Both raw keys are as long as the count of set mask entries.
        r.scrittore.chiave_grezza@.len() == conta_veri(r.lettore.esito_letture@),
        r.lettore.chiave_grezza@.len() == conta_veri(r.lettore.esito_letture@),
        // Both test subsequences sample their raw key at stride 8, offset 0.
        r.lettore.test_avversario@ == sottosequenza_test(r.lettore.chiave_grezza@),
        r.scrittore.test_avversario@ == sottosequenza_test(r.scrittore.chiave_grezza@),
        // The run terminates, and the key is confirmed exactly when the two
        // test subsequences agree bit-for-bit and in length.
        r.canale_pubblico.processo_terminato,
        r.canale_pubblico.chiave_simmetrica_ok == (r.scrittore.test_avversario@
            == r.lettore.test_avversario@),
        r.canale_pubblico.chiave_simmetrica_ok ==> r.esito_test == EsitoTest::ChiaveConfermata,
        !r.canale_pubblico.chiave_simmetrica_ok ==> (r.esito_test matches
            EsitoTest::AvversarioRilevato { bit_confrontati, errori } && bit_confrontati
            == r.scrittore.test_avversario@.len() && errori >= 1),
        // On commit both final keys are the raw key without the sacrificed
        // indices; on abort both actors hold no key material.
        r.canale_pubblico.chiave_simmetrica_ok ==> r.scrittore.chiave_simmetrica@
            == crate::keys::chiave_ridotta(r.scrittore.chiave_grezza@)
            && r.lettore.chiave_simmetrica@ == crate::keys::chiave_ridotta(
            r.lettore.chiave_grezza@,
        ),
        !r.canale_pubblico.chiave_simmetrica_ok ==> r.scrittore.chiave_simmetrica@.len() == 0
            && r.lettore.chiave_simmetrica@.len() == 0,
        // With the adversary disabled nothing touches a photon between the
        // Writer's write and the Reader's read: on every matched-basis round
        // the Reader's bit equals the Writer's bit.
        !avversario_attivo ==> forall|i: int|
            0 <= i < lung_msg && (#[trigger] r.lettore.messaggio_quantistico_ricevuto@[i]).polarizzazione
                == r.scrittore.messaggio_quantistico@[i].polarizzazione
                ==> r.lettore.messaggio_quantistico_ricevuto@[i].valore
                == r.scrittore.messaggio_quantistico@[i].valore,
        // An intercept corrupts a matched-basis round only when the
        // adversary's chosen basis differed from the Writer's: where it
        // agreed, the measurement was non-destructive and the Reader's bit
        // still equals the Writer's.
        avversario_attivo ==> forall|i: int|
            0 <= i < lung_msg && (
            #[trigger] r.avversario.avversario_messaggio_quantistico_ricevuto@[i]).polarizzazione
                == r.scrittore.messaggio_quantistico@[i].polarizzazione
                && r.lettore.messaggio_quantistico_ricevuto@[i].polarizzazione
                == r.scrittore.messaggio_quantistico@[i].polarizzazione
                ==> r.lettore.messaggio_quantistico_ricevuto@[i].valore
                == r.scrittore.messaggio_quantistico@[i].valore,
        // Hence, adversary disabled and the channel noiseless: the raw keys
        // and the test subsequences agree and the key is always confirmed.
        !avversario_attivo ==> r.canale_pubblico.chiave_simmetrica_ok && r.scrittore.chiave_grezza@
            == r.lettore.chiave_grezza@ && r.scrittore.chiave_simmetrica@
            == r.lettore.chiave_simmetrica@ && r.esito_test == EsitoTest::ChiaveConfermata,
        // The empty run: everything empty, the test passes vacuously.
        lung_msg == 0 ==> r.canale_pubblico.chiave_simmetrica_ok && r.scrittore.chiave_grezza@.len()
            == 0 && r.lettore.chiave_grezza@.len() == 0 && r.scrittore.chiave_simmetrica@.len()
            == 0 && r.lettore.chiave_simmetrica@.len() == 0,
        // A predetermined Writer source with enough bits fixes the message:
        // photon i is (basis of script bit 2i, script bit 2i+1).
        (sorgente_scrittore.predeterminata && sorgente_scrittore.pos + 2 * lung_msg
            <= sorgente_scrittore.copione@.len()) ==> forall|i: int|
            0 <= i < lung_msg ==> (#[trigger] r.scrittore.messaggio_quantistico@[i]).polarizzazione
                == polarizzazione_da_bit(
                sorgente_scrittore.copione@[sorgente_scrittore.pos + 2 * i],
            ) && r.scrittore.messaggio_quantistico@[i].valore
                == sorgente_scrittore.copione@[sorgente_scrittore.pos + 2 * i + 1],
        // A predetermined Reader source with enough bits fixes the Reader's
        // basis of round i to script bit i.
        (sorgente_lettore.predeterminata && sorgente_lettore.pos + lung_msg
            <= sorgente_lettore.copione@.len()) ==> forall|i: int|
            0 <= i < lung_msg ==> (
            #[trigger] r.lettore.messaggio_quantistico_ricevuto@[i]).polarizzazione
                == polarizzazione_da_bit(sorgente_lettore.copione@[sorgente_lettore.pos + i]),
{
    let mut canale_pubblico = PublicChannel::new(lung_msg);
    let mut canale_quantistico = QuantumChannel::new(sorgente_canale);
    let mut scrittore = Writer::new(lung_msg, sorgente_scrittore);
    let mut lettore = Reader::new(lung_msg, sorgente_lettore);
    let mut avversario = Adversary::new(avversario_attivo, sorgente_avversario);

    // Phase 1: the Writer draws its message.
    scrittore.inizializzazione();

    // Phase 2: one photon at a time — transmit, optional intercept, measure.
    let mut i: usize = 0;
    while i < lung_msg
        invariant
            i <= lung_msg,
            scrittore.wf(),
            scrittore.messaggio_quantistico@.len() == lung_msg,
            canale_quantistico.wf(),
            lettore.wf(),
            lettore.lung_msg == lung_msg,
            lettore.messaggio_quantistico_ricevuto@.len() == i,
            lettore.esito_letture@.len() == 0,
            lettore.chiave_grezza@.len() == 0,
            lettore.chiave_simmetrica@.len() == 0,
            lettore.test_avversario@.len() == 0,
            lettore.sorgente.predeterminata == sorgente_lettore.predeterminata,
            lettore.sorgente.copione@ == sorgente_lettore.copione@,
            avversario.wf(),
            avversario.attivo == avversario_attivo,
            avversario.avversario_messaggio_quantistico_ricevuto@.len() == (if avversario_attivo {
                i as int
            } else {
                0
            }),
            !avversario_attivo ==> forall|j: int|
                0 <= j < i && (#[trigger] lettore.messaggio_quantistico_ricevuto@[j]).polarizzazione
                    == scrittore.messaggio_quantistico@[j].polarizzazione
                    ==> lettore.messaggio_quantistico_ricevuto@[j].valore
                    == scrittore.messaggio_quantistico@[j].valore,
            avversario_attivo ==> forall|j: int|
                0 <= j < i && (
                #[trigger] avversario.avversario_messaggio_quantistico_ricevuto@[j]).polarizzazione
                    == scrittore.messaggio_quantistico@[j].polarizzazione
                    && lettore.messaggio_quantistico_ricevuto@[j].polarizzazione
                    == scrittore.messaggio_quantistico@[j].polarizzazione
                    ==> lettore.messaggio_quantistico_ricevuto@[j].valore
                    == scrittore.messaggio_quantistico@[j].valore,
            (sorgente_lettore.predeterminata && sorgente_lettore.pos + lung_msg
                <= sorgente_lettore.copione@.len()) ==> lettore.sorgente.pos
                == sorgente_lettore.pos + i,
            (sorgente_lettore.predeterminata && sorgente_lettore.pos + lung_msg
                <= sorgente_lettore.copione@.len()) ==> forall|j: int|
                0 <= j < i ==> (
                #[trigger] lettore.messaggio_quantistico_ricevuto@[j]).polarizzazione
                    == polarizzazione_da_bit(sorgente_lettore.copione@[sorgente_lettore.pos + j]),
        decreases lung_msg - i,
    {
        scrittore.scrivi_su_canale_quantistico(&mut canale_quantistico, i);
        avversario.leggi_fotone_se_attivo(&mut canale_quantistico);
        lettore.leggi_fotone(&mut canale_quantistico);
        i = i + 1;
    }

    // Phases 3 and 4: the Reader signals the end of the readings, the Writer
    // publishes the bases it used.
    lettore.segnala_fine_lettura(&mut canale_pubblico);
    scrittore.pubblicazione_polarizzazione(&mut canale_pubblico);

    // Phase 5: the Reader reads the published bases, builds and publishes the
    // sifting mask, sifts its raw key and samples its test bits.
    let polarizzazioni_scrittore = canale_pubblico.leggi_polarizzazioni();
    let ghost basi_pubblicate = polarizzazioni_scrittore@;
    lettore.elabora_e_invia_esito(&mut canale_pubblico, polarizzazioni_scrittore);
    proof {
        assert forall|k: int| 0 <= k < lung_msg implies lettore.esito_letture@[k] == ((
        #[trigger] lettore.messaggio_quantistico_ricevuto@[k]).polarizzazione
            == scrittore.messaggio_quantistico@[k].polarizzazione) by {
            assert(basi_pubblicate[k] == scrittore.messaggio_quantistico@[k].polarizzazione);
            assert(lettore.esito_letture@[k] == (
            lettore.messaggio_quantistico_ricevuto@[k].polarizzazione == basi_pubblicate[k]));
        }
    }

    // Phase 6: the Writer sifts its own raw key by the published mask.
    if canale_pubblico.sequenza_polarizzazioni_pronta {
        scrittore.selezione_chiave_grezza(&mut canale_pubblico);
    }

    // Phases 7 and 8: the Reader publishes its test bits; the Writer compares
    // and commits or aborts.
    lettore.invia_test_avversario(&mut canale_pubblico);
    let esito_test = scrittore.selezione_test_e_chiave_finale(&mut canale_pubblico);

    // Phase 9: the Reader keeps or discards its key accordingly.
    lettore.conferma_finale(&canale_pubblico);

    proof {
        crate::keys::lemma_lunghezza_setaccio(
            scrittore.messaggio_quantistico@,
            lettore.esito_letture@,
        );
        crate::keys::lemma_lunghezza_setaccio(
            lettore.messaggio_quantistico_ricevuto@,
            lettore.esito_letture@,
        );
        if !avversario_attivo {
            assert forall|k: int|
                0 <= k < lettore.esito_letture@.len() && lettore.esito_letture@[k] implies
                scrittore.messaggio_quantistico@[k].valore
                    == lettore.messaggio_quantistico_ricevuto@[k].valore by {
                assert(lettore.messaggio_quantistico_ricevuto@[k].polarizzazione
                    == scrittore.messaggio_quantistico@[k].polarizzazione);
            }
            lemma_setaccio_concorde(
                scrittore.messaggio_quantistico@,
                lettore.messaggio_quantistico_ricevuto@,
                lettore.esito_letture@,
            );
        }
        if lung_msg == 0 {
            assert(scrittore.chiave_grezza@ =~= lettore.chiave_grezza@);
        }
    }

    SimulationRun { scrittore, lettore, avversario, canale_pubblico, esito_test }
}

/// The summary counts of a completed run, as the reporting layer shows them.
#[derive(Clone, Copy, PartialEq, Eq, Structural, Debug)]
pub struct Statistiche {
    pub fotoni_totali: usize,
    pub scartati_per_polarizzazione: usize,
    pub selezionati_inizialmente: usize,
    pub sacrificati_per_test: usize,
    pub lunghezza_chiave_finale: usize,
}

/// Computes the summary counts: total photons, rounds discarded by basis
/// mismatch, rounds initially kept, sacrificed test bits and final key
/// length.
pub fn statistiche(scrittore: &Writer, lettore: &Reader) -> (s: Statistiche)
    ensures
        s.fotoni_totali == scrittore.messaggio_quantistico@.len(),
        s.selezionati_inizialmente == conta_veri(lettore.esito_letture@),
        s.scartati_per_polarizzazione == lettore.esito_letture@.len() - conta_veri(
            lettore.esito_letture@,
        ),
        s.sacrificati_per_test == (lettore.chiave_grezza@.len() + 7) / 8,
        s.lunghezza_chiave_finale == scrittore.chiave_simmetrica@.len(),
{
    let selezionati = conta_veri_vec(&lettore.esito_letture);
    let sacrificati = if lettore.chiave_grezza.len() == 0 {
        0
    } else {
        (lettore.chiave_grezza.len() - 1) / 8 + 1
    };
    Statistiche {
        fotoni_totali: scrittore.messaggio_quantistico.len(),
        scartati_per_polarizzazione: lettore.esito_letture.len() - selezionati,
        selezionati_inizialmente: selezionati,
        sacrificati_per_test: sacrificati,
        lunghezza_chiave_finale: scrittore.chiave_simmetrica.len(),
    }
}

} // verus!
