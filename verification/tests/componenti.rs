//! Unit tests of the components: the quantum channel's collapse rule, the
//! public channel's one-shot handoffs, the random sources and the key
//! derivation helpers, plus the forced test-mismatch scenario.

use bb84_simulazione::adversary::Adversary;
use bb84_simulazione::keys::{conta_veri_vec, estrai_sottosequenza_test, rimuovi_bit_test,
    setaccia_fotoni};
use bb84_simulazione::photon::{Photon, Polarization};
use bb84_simulazione::public_channel::PublicChannel;
use bb84_simulazione::quantum_channel::QuantumChannel;
use bb84_simulazione::random_source::RandomSource;
use bb84_simulazione::reader::Reader;
use bb84_simulazione::writer::{EsitoTest, Writer};

fn sorgente(bits: &[u8]) -> RandomSource {
    RandomSource::con_copione(bits.to_vec())
}

#[test]
fn misura_con_base_allineata_non_distrugge() {
    let mut q = QuantumChannel::new(RandomSource::sistema());
    q.spedizione_fotone(Polarization::Rectilinear, 1);
    assert_eq!(q.lettura_fotone(Polarization::Rectilinear), 1);
    // Re-reading in the same basis stays deterministic.
    assert_eq!(q.lettura_fotone(Polarization::Rectilinear), 1);
}

#[test]
fn misura_con_base_diversa_collassa_il_bit() {
    let mut q = QuantumChannel::new(sorgente(&[0]));
    q.spedizione_fotone(Polarization::Rectilinear, 1);
    // Mismatched basis: the bit collapses to the next channel-source bit, the
    // slot keeps its basis but holds the new bit.
    assert_eq!(q.lettura_fotone(Polarization::Diagonal), 0);
    assert_eq!(q.canale_quantistico.polarizzazione, Polarization::Rectilinear);
    assert_eq!(q.canale_quantistico.valore, 0);
    // Only the first mismatched measurement could collapse: the slot was
    // overwritten, so the original basis now reads the collapsed bit.
    assert_eq!(q.lettura_fotone(Polarization::Rectilinear), 0);
}

#[test]
fn flag_fotone_in_e_out() {
    let mut q = QuantumChannel::new(RandomSource::sistema());
    assert!(!q.fotone_in);
    q.set_fotone_in();
    assert!(q.fotone_in);
    q.set_fotone_out();
    assert!(!q.fotone_in);
}

#[test]
fn sorgente_predeterminata_rigioca_il_copione() {
    let mut s = sorgente(&[1, 0, 1]);
    assert_eq!(s.prossimo_bit(), 1);
    assert_eq!(s.prossimo_bit(), 0);
    assert_eq!(s.prossimo_bit(), 1);
    // Exhausted scripts hand out 0.
    assert_eq!(s.prossimo_bit(), 0);
    assert_eq!(s.prossimo_bit(), 0);
}

#[test]
fn sorgente_predeterminata_mappa_bit_su_polarizzazioni() {
    let mut s = sorgente(&[0, 1]);
    assert_eq!(s.prossima_polarizzazione(), Polarization::Rectilinear);
    assert_eq!(s.prossima_polarizzazione(), Polarization::Diagonal);
}

#[test]
fn sorgente_di_sistema_produce_bit() {
    let mut s = RandomSource::sistema();
    for _ in 0..100 {
        let b = s.prossimo_bit();
        assert!(b <= 1);
    }
}

#[test]
fn canale_pubblico_consegna_una_volta_sola() {
    let mut p = PublicChannel::new(2);
    assert!(!p.pubblicazione_pronta);
    p.pubblica_polarizzazioni(vec![Polarization::Diagonal, Polarization::Rectilinear]);
    assert!(p.pubblicazione_pronta);
    let basi = p.leggi_polarizzazioni();
    assert_eq!(basi, vec![Polarization::Diagonal, Polarization::Rectilinear]);
    assert!(!p.pubblicazione_pronta);

    p.invia_sequenza_ricezione(vec![true, false]);
    assert!(p.sequenza_polarizzazioni_pronta);
    assert_eq!(p.leggi_sequenza_ricezione(), vec![true, false]);
    assert!(!p.sequenza_polarizzazioni_pronta);

    p.scrivi_test_avversario(vec![1, 0]);
    assert!(p.test_avversario_pronto);
    assert_eq!(p.leggi_test_avversario(), vec![1, 0]);
    assert!(!p.test_avversario_pronto);

    assert!(!p.fine_lettura);
    p.fine_lettura();
    assert!(p.fine_lettura);
    p.chiave_simmetrica_ok();
    p.processo_terminato();
    assert!(p.chiave_simmetrica_ok);
    assert!(p.processo_terminato);
}

#[test]
fn setaccio_tiene_solo_le_basi_allineate() {
    let fotoni = vec![
        Photon { polarizzazione: Polarization::Rectilinear, valore: 1 },
        Photon { polarizzazione: Polarization::Diagonal, valore: 0 },
        Photon { polarizzazione: Polarization::Rectilinear, valore: 0 },
        Photon { polarizzazione: Polarization::Diagonal, valore: 1 },
    ];
    let esiti = vec![true, false, true, true];
    assert_eq!(setaccia_fotoni(&fotoni, &esiti), vec![1, 0, 1]);
    assert_eq!(conta_veri_vec(&esiti), 3);
    let vuoto: Vec<Photon> = Vec::new();
    let nessun_esito: Vec<bool> = Vec::new();
    assert!(setaccia_fotoni(&vuoto, &nessun_esito).is_empty());
}

#[test]
fn sottosequenza_test_campiona_a_passo_otto() {
    let chiave: Vec<u8> = (0..17).map(|i: usize| (i % 2) as u8).collect();
    // Indices 0, 8 and 16 are sampled; 17 elements give ceil(17/8) = 3.
    assert_eq!(estrai_sottosequenza_test(&chiave), vec![0, 0, 0]);
    let corta: Vec<u8> = vec![1, 0, 1];
    assert_eq!(estrai_sottosequenza_test(&corta), vec![1]);
    let vuota: Vec<u8> = Vec::new();
    assert!(estrai_sottosequenza_test(&vuota).is_empty());
}

#[test]
fn chiave_finale_esclude_gli_indici_campionati() {
    let chiave: Vec<u8> = vec![1, 0, 0, 1, 1, 0, 1, 1, 0, 1];
    // Indices 0 and 8 leave; the other eight bits stay in order.
    assert_eq!(rimuovi_bit_test(&chiave), vec![0, 0, 1, 1, 0, 1, 1, 1]);
    assert_eq!(
        rimuovi_bit_test(&chiave).len() + estrai_sottosequenza_test(&chiave).len(),
        chiave.len()
    );
}

#[test]
fn test_non_pronto_termina_senza_chiave() {
    let mut p = PublicChannel::new(0);
    let mut scrittore = Writer::new(0, RandomSource::sistema());
    let esito = scrittore.selezione_test_e_chiave_finale(&mut p);
    assert_eq!(esito, EsitoTest::TestNonPronto);
    assert!(p.processo_terminato);
    assert!(!p.chiave_simmetrica_ok);
    assert!(scrittore.chiave_simmetrica.is_empty());
}

#[test]
fn bit_di_test_discordante_fa_scartare_la_chiave() {
    // The aligned eight-round run, but the Reader's published test bit 0 is
    // forced to differ from the Writer's.
    let copione_scrittore: [u8; 16] = [0, 1, 1, 0, 0, 1, 1, 1, 0, 0, 1, 0, 0, 1, 1, 0];
    let copione_lettore: [u8; 8] = [0, 1, 0, 1, 0, 1, 0, 1];
    let mut canale_pubblico = PublicChannel::new(8);
    let mut canale_quantistico = QuantumChannel::new(RandomSource::sistema());
    let mut scrittore = Writer::new(8, sorgente(&copione_scrittore));
    let mut lettore = Reader::new(8, sorgente(&copione_lettore));
    let mut avversario = Adversary::new(false, RandomSource::sistema());

    scrittore.inizializzazione();
    for i in 0..8 {
        scrittore.scrivi_su_canale_quantistico(&mut canale_quantistico, i);
        avversario.leggi_fotone_se_attivo(&mut canale_quantistico);
        lettore.leggi_fotone(&mut canale_quantistico);
    }
    lettore.segnala_fine_lettura(&mut canale_pubblico);
    scrittore.pubblicazione_polarizzazione(&mut canale_pubblico);
    let basi = canale_pubblico.leggi_polarizzazioni();
    lettore.elabora_e_invia_esito(&mut canale_pubblico, basi);
    assert!(canale_pubblico.sequenza_polarizzazioni_pronta);
    scrittore.selezione_chiave_grezza(&mut canale_pubblico);

    // Tamper with the handoff: flip the Reader's first test bit.
    let mut test_manomesso = lettore.test_avversario.clone();
    test_manomesso[0] = 1 - test_manomesso[0];
    canale_pubblico.scrivi_test_avversario(test_manomesso);

    let esito = scrittore.selezione_test_e_chiave_finale(&mut canale_pubblico);
    match esito {
        EsitoTest::AvversarioRilevato { bit_confrontati, errori } => {
            assert_eq!(bit_confrontati, 1);
            assert!(errori >= 1);
        }
        altro => panic!("atteso AvversarioRilevato, trovato {:?}", altro),
    }
    assert!(!canale_pubblico.chiave_simmetrica_ok);
    assert!(canale_pubblico.processo_terminato);
    assert!(scrittore.chiave_simmetrica.is_empty());

    lettore.conferma_finale(&canale_pubblico);
    assert!(lettore.chiave_simmetrica.is_empty());
}

#[test]
fn test_di_lunghezza_diversa_conta_come_errore() {
    // The Writer's test holds one bit; the Reader publishes two: the length
    // difference contributes one mismatch even though the compared bit agrees.
    let mut p = PublicChannel::new(0);
    let mut scrittore = Writer::new(0, RandomSource::sistema());
    scrittore.chiave_grezza = vec![1];
    p.scrivi_test_avversario(vec![1, 0]);
    let esito = scrittore.selezione_test_e_chiave_finale(&mut p);
    match esito {
        EsitoTest::AvversarioRilevato { bit_confrontati, errori } => {
            assert_eq!(bit_confrontati, 1);
            assert_eq!(errori, 1);
        }
        altro => panic!("atteso AvversarioRilevato, trovato {:?}", altro),
    }
    assert!(!p.chiave_simmetrica_ok);
    assert!(p.processo_terminato);
}
