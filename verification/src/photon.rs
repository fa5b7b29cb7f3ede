//! The classical model of a photon: a polarization basis and a bit value.

use vstd::prelude::*;

verus! {

/// One of the two measurement/encoding bases of the protocol, often written
/// 'Z' and 'X'.
#[derive(Clone, Copy, PartialEq, Eq, Structural, Debug)]
pub enum Polarization {
    Rectilinear,
    Diagonal,
}

/// What a sender encoded or an observer measured: a basis together with a bit.
#[derive(Clone, Copy, PartialEq, Eq, Structural, Debug)]
pub struct Photon {
    pub polarizzazione: Polarization,
    pub valore: u8,
}

impl Photon {
    /// The bit of a photon is always 0 or 1.
    pub open spec fn wf(self) -> bool {
        self.valore <= 1
    }
}

/// Every photon of a sequence carries a bit in {0, 1}.
pub open spec fn fotoni_validi(s: Seq<Photon>) -> bool {
    forall|i: int| 0 <= i < s.len() ==> #[trigger] s[i].wf()
}

/// The basis drawn from one random bit: 0 stands for `Rectilinear`,
/// 1 for `Diagonal`.
pub open spec fn polarizzazione_da_bit(b: u8) -> Polarization {
    if b == 0 {
        Polarization::Rectilinear
    } else {
        Polarization::Diagonal
    }
}

} // verus!
