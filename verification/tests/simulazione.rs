//! End-to-end runs of the protocol, with predetermined and with system
//! randomness.

use bb84_simulazione::random_source::RandomSource;
use bb84_simulazione::simulation::{esegui_simulazione, statistiche};
use bb84_simulazione::writer::EsitoTest;

fn sorgente(bits: &[u8]) -> RandomSource {
    RandomSource::con_copione(bits.to_vec())
}

#[test]
fn esecuzione_vuota_senza_avversario() {
    let r = esegui_simulazione(
        0,
        false,
        RandomSource::sistema(),
        RandomSource::sistema(),
        RandomSource::sistema(),
        RandomSource::sistema(),
    );
    assert!(r.scrittore.messaggio_quantistico.is_empty());
    assert!(r.lettore.messaggio_quantistico_ricevuto.is_empty());
    assert!(r.lettore.esito_letture.is_empty());
    assert!(r.scrittore.chiave_grezza.is_empty());
    assert!(r.lettore.chiave_grezza.is_empty());
    assert!(r.scrittore.test_avversario.is_empty());
    assert!(r.lettore.test_avversario.is_empty());
    assert!(r.scrittore.chiave_simmetrica.is_empty());
    assert!(r.lettore.chiave_simmetrica.is_empty());
    assert!(r.canale_pubblico.chiave_simmetrica_ok);
    assert!(r.canale_pubblico.processo_terminato);
    assert_eq!(r.esito_test, EsitoTest::ChiaveConfermata);
}

#[test]
fn esecuzione_vuota_con_avversario() {
    let r = esegui_simulazione(
        0,
        true,
        RandomSource::sistema(),
        RandomSource::sistema(),
        RandomSource::sistema(),
        RandomSource::sistema(),
    );
    assert!(r.avversario.avversario_messaggio_quantistico_ricevuto.is_empty());
    assert!(r.scrittore.chiave_simmetrica.is_empty());
    assert!(r.canale_pubblico.chiave_simmetrica_ok);
    assert!(r.canale_pubblico.processo_terminato);
}

#[test]
fn scenario_otto_round_basi_allineate() {
    // Writer: photon i = (basis of bit 2i, bit 2i+1).
    let copione_scrittore: [u8; 16] = [0, 1, 1, 0, 0, 1, 1, 1, 0, 0, 1, 0, 0, 1, 1, 0];
    // Reader: the same eight basis bits, so every basis matches.
    let copione_lettore: [u8; 8] = [0, 1, 0, 1, 0, 1, 0, 1];
    let r = esegui_simulazione(
        8,
        false,
        sorgente(&copione_scrittore),
        sorgente(&copione_lettore),
        RandomSource::sistema(),
        RandomSource::sistema(),
    );
    assert_eq!(r.lettore.esito_letture, vec![true; 8]);
    assert_eq!(r.scrittore.chiave_grezza, vec![1, 0, 1, 1, 0, 0, 1, 0]);
    assert_eq!(r.lettore.chiave_grezza, vec![1, 0, 1, 1, 0, 0, 1, 0]);
    assert_eq!(r.scrittore.test_avversario, vec![1]);
    assert_eq!(r.lettore.test_avversario, vec![1]);
    assert_eq!(r.scrittore.chiave_simmetrica, vec![0, 1, 1, 0, 0, 1, 0]);
    assert_eq!(r.lettore.chiave_simmetrica, vec![0, 1, 1, 0, 0, 1, 0]);
    assert_eq!(r.scrittore.chiave_simmetrica.len(), 7);
    assert!(r.canale_pubblico.chiave_simmetrica_ok);
    assert!(r.canale_pubblico.processo_terminato);
    assert_eq!(r.esito_test, EsitoTest::ChiaveConfermata);
}

#[test]
fn lunghezze_chiavi_con_sorgenti_di_sistema() {
    // Whatever the random draws, the raw keys of the two actors are as long
    // as the number of set entries of the sifting mask, the test subsequence
    // is ceil(len/8) and the final key is the rest.
    let r = esegui_simulazione(
        64,
        false,
        RandomSource::sistema(),
        RandomSource::sistema(),
        RandomSource::sistema(),
        RandomSource::sistema(),
    );
    let selezionati = r.lettore.esito_letture.iter().filter(|&&b| b).count();
    assert_eq!(r.scrittore.chiave_grezza.len(), selezionati);
    assert_eq!(r.lettore.chiave_grezza.len(), selezionati);
    let grezza = r.scrittore.chiave_grezza.len();
    let attesi_test = grezza.div_ceil(8);
    assert_eq!(r.scrittore.test_avversario.len(), attesi_test);
    assert_eq!(r.lettore.test_avversario.len(), attesi_test);
    // Without an adversary the run always confirms the key.
    assert!(r.canale_pubblico.chiave_simmetrica_ok);
    assert_eq!(r.scrittore.chiave_simmetrica.len(), grezza - attesi_test);
    assert_eq!(r.scrittore.chiave_simmetrica, r.lettore.chiave_simmetrica);
    // The sampled bits are the raw key's bits at indices 0, 8, 16, ...
    for (j, &b) in r.scrittore.test_avversario.iter().enumerate() {
        assert_eq!(b, r.scrittore.chiave_grezza[8 * j]);
    }
    // The final key is the raw key with exactly those indices removed.
    let attesa: Vec<u8> = r
        .scrittore
        .chiave_grezza
        .iter()
        .enumerate()
        .filter(|(i, _)| i % 8 != 0)
        .map(|(_, &b)| b)
        .collect();
    assert_eq!(r.scrittore.chiave_simmetrica, attesa);
}

#[test]
fn statistiche_di_un_round_completo() {
    let copione_scrittore: [u8; 16] = [0, 1, 1, 0, 0, 1, 1, 1, 0, 0, 1, 0, 0, 1, 1, 0];
    // The Reader misses the basis on the last four rounds.
    let copione_lettore: [u8; 8] = [0, 1, 0, 1, 1, 0, 1, 0];
    let r = esegui_simulazione(
        8,
        false,
        sorgente(&copione_scrittore),
        sorgente(&copione_lettore),
        RandomSource::sistema(),
        RandomSource::sistema(),
    );
    let s = statistiche(&r.scrittore, &r.lettore);
    assert_eq!(s.fotoni_totali, 8);
    assert_eq!(s.selezionati_inizialmente, 4);
    assert_eq!(s.scartati_per_polarizzazione, 4);
    assert_eq!(s.sacrificati_per_test, 1);
    assert_eq!(s.lunghezza_chiave_finale, 3);
}

#[test]
fn intercettazione_rilevata_deterministicamente() {
    // One round: the Writer sends (Rectilinear, 1); the adversary measures in
    // the other basis, collapsing the bit to the scripted 0; the Reader
    // measures in the matching basis and so reads the corrupted 0.
    let r = esegui_simulazione(
        1,
        true,
        sorgente(&[0, 1]),
        sorgente(&[0]),
        sorgente(&[1]),
        sorgente(&[0]),
    );
    assert_eq!(r.avversario.avversario_messaggio_quantistico_ricevuto.len(), 1);
    assert_eq!(r.scrittore.chiave_grezza, vec![1]);
    assert_eq!(r.lettore.chiave_grezza, vec![0]);
    assert!(!r.canale_pubblico.chiave_simmetrica_ok);
    assert!(r.canale_pubblico.processo_terminato);
    match r.esito_test {
        EsitoTest::AvversarioRilevato { bit_confrontati, errori } => {
            assert_eq!(bit_confrontati, 1);
            assert_eq!(errori, 1);
        }
        altro => panic!("atteso AvversarioRilevato, trovato {:?}", altro),
    }
    // The Reader discarded its key material.
    assert!(r.lettore.chiave_simmetrica.is_empty());
    assert!(r.scrittore.chiave_simmetrica.is_empty());
}

#[test]
fn intercettazione_con_base_concorde_resta_invisibile() {
    // The adversary happens to measure in the Writer's own basis: the
    // measurement is non-destructive, it records the true bit and the Reader
    // still agrees with the Writer, so the test passes.
    let r = esegui_simulazione(
        1,
        true,
        sorgente(&[0, 1]),
        sorgente(&[0]),
        sorgente(&[0]),
        RandomSource::sistema(),
    );
    assert_eq!(r.avversario.avversario_messaggio_quantistico_ricevuto[0].valore, 1);
    assert_eq!(r.scrittore.chiave_grezza, vec![1]);
    assert_eq!(r.lettore.chiave_grezza, vec![1]);
    assert!(r.canale_pubblico.chiave_simmetrica_ok);
    assert_eq!(r.esito_test, EsitoTest::ChiaveConfermata);
}

#[test]
fn intercettazione_rilevata_statisticamente() {
    // With 256 rounds an intercept-resend attack corrupts enough sifted bits
    // that the sacrifice test all but surely fails; over 20 runs a large
    // majority must detect it.
    let prove: usize = 20;
    let mut rilevate: usize = 0;
    for _ in 0..prove {
        let r = esegui_simulazione(
            256,
            true,
            RandomSource::sistema(),
            RandomSource::sistema(),
            RandomSource::sistema(),
            RandomSource::sistema(),
        );
        if !r.canale_pubblico.chiave_simmetrica_ok {
            rilevate += 1;
        }
    }
    assert!(rilevate >= 10, "rilevate solo {} intercettazioni su {}", rilevate, prove);
}

#[test]
fn avversario_disattivato_non_osserva() {
    let r = esegui_simulazione(
        16,
        false,
        RandomSource::sistema(),
        RandomSource::sistema(),
        RandomSource::sistema(),
        RandomSource::sistema(),
    );
    assert!(r.avversario.avversario_messaggio_quantistico_ricevuto.is_empty());
    assert!(!r.avversario.attivo);
}

#[test]
fn avversario_attivo_osserva_ogni_round() {
    let r = esegui_simulazione(
        16,
        true,
        RandomSource::sistema(),
        RandomSource::sistema(),
        RandomSource::sistema(),
        RandomSource::sistema(),
    );
    assert_eq!(r.avversario.avversario_messaggio_quantistico_ricevuto.len(), 16);
}
