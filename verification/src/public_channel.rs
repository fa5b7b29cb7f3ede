//! The classical public channel: shared vectors and status flags with
//! one-shot readiness semantics — each publish overwrites its field and sets
//! the ready flag, each read returns a copy and clears it.

use vstd::prelude::*;
use crate::photon::Polarization;
use crate::vettori::{copia, riempi};

verus! {

/// The public side channel of one simulation run of `lung_msg` rounds. The
/// Writer is sole producer of the basis list and of the terminal flags; the
/// Reader is sole producer of the sifting mask and of its test bits.
#[derive(Debug)]
pub struct PublicChannel {
    pub canale_pubblico: Vec<Polarization>,
    pub sequenza_ricezione: Vec<bool>,
    pub test_avversario: Vec<u8>,
    pub pubblicazione_pronta: bool,
    pub fine_lettura: bool,
    pub sequenza_polarizzazioni_pronta: bool,
    pub test_avversario_pronto: bool,
    pub chiave_simmetrica_ok: bool,
    pub processo_terminato: bool,
    pub lung_msg: usize,
}

impl PublicChannel {
    /// The published basis list and the sifting mask always span the run.
    pub open spec fn wf(self) -> bool {
        &&& self.canale_pubblico@.len() == self.lung_msg
        &&& self.sequenza_ricezione@.len() == self.lung_msg
    }

    /// A fresh channel: default contents, nothing published, no flag set.
    pub fn new(lung_msg: usize) -> (p: Self)
        ensures
            p.wf(),
            p.lung_msg == lung_msg,
            p.test_avversario@.len() == 0,
            !p.pubblicazione_pronta,
            !p.fine_lettura,
            !p.sequenza_polarizzazioni_pronta,
            !p.test_avversario_pronto,
            !p.chiave_simmetrica_ok,
            !p.processo_terminato,
    {
        PublicChannel {
            canale_pubblico: riempi(Polarization::Rectilinear, lung_msg),
            sequenza_ricezione: riempi(false, lung_msg),
            test_avversario: Vec::new(),
            pubblicazione_pronta: false,
            fine_lettura: false,
            sequenza_polarizzazioni_pronta: false,
            test_avversario_pronto: false,
            chiave_simmetrica_ok: false,
            processo_terminato: false,
            lung_msg,
        }
    }

    /// The Writer publishes the bases of the transmitted photons.
    pub fn pubblica_polarizzazioni(&mut self, polarizzazioni: Vec<Polarization>)
        requires
            old(self).wf(),
            polarizzazioni@.len() == old(self).lung_msg,
        ensures
            final(self).wf(),
            *final(self) == (PublicChannel {
                canale_pubblico: final(self).canale_pubblico,
                pubblicazione_pronta: true,
                ..*old(self)
            }),
            final(self).canale_pubblico@ == polarizzazioni@,
    {
        self.canale_pubblico = polarizzazioni;
        self.pubblicazione_pronta = true;
    }

    /// The Reader takes a copy of the published bases and clears the flag.
    pub fn leggi_polarizzazioni(&mut self) -> (r: Vec<Polarization>)
        requires
            old(self).wf(),
        ensures
            final(self).wf(),
            r@ == old(self).canale_pubblico@,
            *final(self) == (PublicChannel { pubblicazione_pronta: false, ..*old(self) }),
    {
        self.pubblicazione_pronta = false;
        copia(&self.canale_pubblico)
    }

    /// The Reader signals that all rounds were read (no payload).
    pub fn fine_lettura(&mut self)
        requires
            old(self).wf(),
        ensures
            final(self).wf(),
            *final(self) == (PublicChannel { fine_lettura: true, ..*old(self) }),
    {
        self.fine_lettura = true;
    }

    /// The Reader publishes the sifting mask.
    pub fn invia_sequenza_ricezione(&mut self, esito: Vec<bool>)
        requires
            old(self).wf(),
            esito@.len() == old(self).lung_msg,
        ensures
            final(self).wf(),
            *final(self) == (PublicChannel {
                sequenza_ricezione: final(self).sequenza_ricezione,
                sequenza_polarizzazioni_pronta: true,
                ..*old(self)
            }),
            final(self).sequenza_ricezione@ == esito@,
    {
        self.sequenza_ricezione = esito;
        self.sequenza_polarizzazioni_pronta = true;
    }

    /// The Writer takes a copy of the sifting mask and clears the flag.
    pub fn leggi_sequenza_ricezione(&mut self) -> (r: Vec<bool>)
        requires
            old(self).wf(),
        ensures
            final(self).wf(),
            r@ == old(self).sequenza_ricezione@,
            *final(self) == (PublicChannel {
                sequenza_polarizzazioni_pronta: false,
                ..*old(self)
            }),
    {
        self.sequenza_polarizzazioni_pronta = false;
        copia(&self.sequenza_ricezione)
    }

    /// The Reader publishes its sacrificed test bits.
    pub fn scrivi_test_avversario(&mut self, test: Vec<u8>)
        requires
            old(self).wf(),
        ensures
            final(self).wf(),
            *final(self) == (PublicChannel {
                test_avversario: final(self).test_avversario,
                test_avversario_pronto: true,
                ..*old(self)
            }),
            final(self).test_avversario@ == test@,
    {
        self.test_avversario = test;
        self.test_avversario_pronto = true;
    }

    /// The Writer takes a copy of the Reader's test bits and clears the flag.
    pub fn leggi_test_avversario(&mut self) -> (r: Vec<u8>)
        requires
            old(self).wf(),
        ensures
            final(self).wf(),
            r@ == old(self).test_avversario@,
            *final(self) == (PublicChannel { test_avversario_pronto: false, ..*old(self) }),
    {
        self.test_avversario_pronto = false;
        copia(&self.test_avversario)
    }

    /// The Writer signals that the symmetric key was agreed.
    pub fn chiave_simmetrica_ok(&mut self)
        requires
            old(self).wf(),
        ensures
            final(self).wf(),
            *final(self) == (PublicChannel { chiave_simmetrica_ok: true, ..*old(self) }),
    {
        self.chiave_simmetrica_ok = true;
    }

    /// The Writer signals that the run is over.
    pub fn processo_terminato(&mut self)
        requires
            old(self).wf(),
        ensures
            final(self).wf(),
            *final(self) == (PublicChannel { processo_terminato: true, ..*old(self) }),
    {
        self.processo_terminato = true;
    }
}

} // verus!
