//! Sifting and key derivation: the raw key kept from basis-matched rounds,
//! the sacrificed test subsequence (every 8th raw-key bit, starting at index
//! 0) and the final key (the raw key with the sacrificed indices removed).

use vstd::prelude::*;
use crate::photon::Photon;

verus! {

/// How many entries of a sifting mask are set.
pub open spec fn conta_veri(esiti: Seq<bool>) -> nat
    decreases esiti.len(),
{
    if esiti.len() == 0 {
        0
    } else {
        conta_veri(esiti.drop_last()) + if esiti.last() {
            1nat
        } else {
            0nat
        }
    }
}

/// The raw key sifted from a photon sequence: the bits at the indices where
/// the mask is set, in index order. Mismatched lengths yield the empty key
/// (the phase ordering of the protocol never produces them).
pub open spec fn setaccia(fotoni: Seq<Photon>, esiti: Seq<bool>) -> Seq<u8>
    decreases esiti.len(),
{
    if esiti.len() == 0 || fotoni.len() != esiti.len() {
        Seq::empty()
    } else if esiti.last() {
        setaccia(fotoni.drop_last(), esiti.drop_last()).push(fotoni.last().valore)
    } else {
        setaccia(fotoni.drop_last(), esiti.drop_last())
    }
}

/// The sacrificed test subsequence of a raw key: the elements at indices
/// 0, 8, 16, ..., hence ceil(len/8) of them.
pub open spec fn sottosequenza_test(chiave: Seq<u8>) -> Seq<u8> {
    Seq::new((chiave.len() + 7) / 8, |j: int| chiave[8 * j])
}

/// The final key: the raw key with every index divisible by 8 removed, the
/// relative order of the rest preserved.
pub open spec fn chiave_ridotta(chiave: Seq<u8>) -> Seq<u8>
    decreases chiave.len(),
{
    if chiave.len() == 0 {
        Seq::empty()
    } else if (chiave.len() - 1) % 8 != 0 {
        chiave_ridotta(chiave.drop_last()).push(chiave.last())
    } else {
        chiave_ridotta(chiave.drop_last())
    }
}

/// How many of the first `n` positions of two test sequences disagree.
pub open spec fn differenze_fino(a: Seq<u8>, b: Seq<u8>, n: int) -> nat
    decreases n,
{
    if n <= 0 {
        0
    } else {
        differenze_fino(a, b, n - 1) + if a[n - 1] != b[n - 1] {
            1nat
        } else {
            0nat
        }
    }
}

pub open spec fn minimo(a: int, b: int) -> int {
    if a <= b {
        a
    } else {
        b
    }
}

/// The positions two test sequences were compared on: up to the shorter
/// length, as a zip walks them.
pub open spec fn conta_differenze(a: Seq<u8>, b: Seq<u8>) -> nat {
    differenze_fino(a, b, minimo(a.len() as int, b.len() as int))
}

/// Law: both actors' raw keys are as long as the number of set entries of the
/// sifting mask, whatever bits they observed.
pub proof fn lemma_lunghezza_setaccio(fotoni: Seq<Photon>, esiti: Seq<bool>)
    requires
        fotoni.len() == esiti.len(),
    ensures
        setaccia(fotoni, esiti).len() == conta_veri(esiti),
    decreases esiti.len(),
{
    if esiti.len() > 0 {
        lemma_lunghezza_setaccio(fotoni.drop_last(), esiti.drop_last());
    }
}

/// Law: two photon sequences that agree on every masked index sift to the
/// same raw key, whatever they hold elsewhere.
pub proof fn lemma_setaccio_concorde(f1: Seq<Photon>, f2: Seq<Photon>, esiti: Seq<bool>)
    requires
        f1.len() == esiti.len(),
        f2.len() == esiti.len(),
        forall|i: int| 0 <= i < esiti.len() && esiti[i] ==> f1[i].valore == f2[i].valore,
    ensures
        setaccia(f1, esiti) == setaccia(f2, esiti),
    decreases esiti.len(),
{
    if esiti.len() > 0 {
        lemma_setaccio_concorde(f1.drop_last(), f2.drop_last(), esiti.drop_last());
    }
}

/// Law: the test subsequence holds ceil(len/8) elements, and its element `j`
/// is raw-key element `8 * j`.
pub proof fn lemma_sottosequenza_test(chiave: Seq<u8>)
    ensures
        sottosequenza_test(chiave).len() == (chiave.len() + 7) / 8,
        forall|j: int|
            0 <= j < sottosequenza_test(chiave).len() ==> #[trigger] sottosequenza_test(chiave)[j]
                == chiave[8 * j],
{
}

/// Law: the final key and the test subsequence split the raw key exactly: the
/// lengths add up, every index divisible by 8 lands in the test subsequence,
/// and every other index lands in the final key, order preserved.
pub proof fn lemma_chiave_finale(chiave: Seq<u8>)
    ensures
        chiave_ridotta(chiave).len() + sottosequenza_test(chiave).len() == chiave.len(),
        forall|i: int|
            0 <= i < chiave.len() && i % 8 == 0 ==> sottosequenza_test(chiave)[i / 8] == chiave[i],
        forall|i: int|
            0 <= i < chiave.len() && i % 8 != 0 ==> 0 <= i - 1 - i / 8
                < chiave_ridotta(chiave).len() && #[trigger] chiave_ridotta(chiave)[i - 1 - i / 8]
                == chiave[i],
    decreases chiave.len(),
{
    if chiave.len() > 0 {
        let prefisso = chiave.drop_last();
        lemma_chiave_finale(prefisso);
        let l = chiave.len() as int;
        assert(sottosequenza_test(prefisso).len() == (l - 1 + 7) / 8);
        assert(sottosequenza_test(chiave).len() == (l + 7) / 8);
        if (l - 1) % 8 != 0 {
            assert((l + 7) / 8 == (l + 6) / 8);
            assert(chiave_ridotta(chiave) == chiave_ridotta(prefisso).push(chiave.last()));
            assert((l - 1) - 1 - (l - 1) / 8 == chiave_ridotta(prefisso).len());
        } else {
            assert((l + 7) / 8 == (l + 6) / 8 + 1);
            assert(chiave_ridotta(chiave) == chiave_ridotta(prefisso));
        }
        assert forall|i: int| 0 <= i < l && i % 8 != 0 implies 0 <= i - 1 - i / 8
            < chiave_ridotta(chiave).len() && #[trigger] chiave_ridotta(chiave)[i - 1 - i / 8]
            == chiave[i] by {
            if i < l - 1 {
                assert(prefisso[i] == chiave[i]);
            }
        }
    }
}

/// Law: two equally long test sequences disagree nowhere exactly when they
/// are the same sequence.
pub proof fn lemma_differenze_zero(a: Seq<u8>, b: Seq<u8>)
    requires
        a.len() == b.len(),
    ensures
        (conta_differenze(a, b) == 0) <==> (a == b),
{
    lemma_differenze_fino_zero(a, b, a.len() as int);
    if conta_differenze(a, b) == 0 {
        assert(a =~= b);
    }
}

proof fn lemma_differenze_fino_zero(a: Seq<u8>, b: Seq<u8>, n: int)
    requires
        n <= a.len(),
        n <= b.len(),
    ensures
        (differenze_fino(a, b, n) == 0) <==> (forall|i: int| 0 <= i < n ==> a[i] == b[i]),
    decreases n,
{
    if n > 0 {
        lemma_differenze_fino_zero(a, b, n - 1);
    }
}

/// Sifts a photon sequence by a mask, as both the Writer and the Reader do.
pub fn setaccia_fotoni(fotoni: &Vec<Photon>, esiti: &Vec<bool>) -> (r: Vec<u8>)
    requires
        fotoni@.len() == esiti@.len(),
    ensures
        r@ == setaccia(fotoni@, esiti@),
{
    let mut r: Vec<u8> = Vec::new();
    let mut i: usize = 0;
    while i < esiti.len()
        invariant
            fotoni@.len() == esiti@.len(),
            i <= esiti@.len(),
            r@ == setaccia(fotoni@.take(i as int), esiti@.take(i as int)),
        decreases esiti@.len() - i,
    {
        if esiti[i] {
            let f = fotoni[i];
            r.push(f.valore);
        }
        proof {
            assert(fotoni@.take(i + 1).drop_last() =~= fotoni@.take(i as int));
            assert(esiti@.take(i + 1).drop_last() =~= esiti@.take(i as int));
        }
        i = i + 1;
    }
    proof {
        assert(fotoni@.take(esiti@.len() as int) =~= fotoni@);
        assert(esiti@.take(esiti@.len() as int) =~= esiti@);
    }
    r
}

/// Takes every 8th bit of a raw key, starting at index 0: the sacrificed test
/// subsequence.
pub fn estrai_sottosequenza_test(chiave: &Vec<u8>) -> (r: Vec<u8>)
    ensures
        r@ == sottosequenza_test(chiave@),
{
    let lunghezza: usize = chiave.len();
    let n_campioni: usize = if lunghezza == 0 {
        0
    } else {
        (lunghezza - 1) / 8 + 1
    };
    assert(n_campioni == (chiave@.len() + 7) / 8);
    let mut r: Vec<u8> = Vec::new();
    let mut k: usize = 0;
    while k < n_campioni
        invariant
            lunghezza == chiave@.len(),
            n_campioni == (chiave@.len() + 7) / 8,
            k <= n_campioni,
            r@.len() == k,
            forall|j: int| 0 <= j < k ==> r@[j] == chiave@[8 * j],
        decreases n_campioni - k,
    {
        assert(8 * k < chiave@.len());
        r.push(chiave[8 * k]);
        k = k + 1;
    }
    proof {
        assert(r@ =~= sottosequenza_test(chiave@));
    }
    r
}

/// Removes every 8th bit of a raw key, starting at index 0: what is left is
/// the final symmetric key.
pub fn rimuovi_bit_test(chiave: &Vec<u8>) -> (r: Vec<u8>)
    ensures
        r@ == chiave_ridotta(chiave@),
{
    let mut r: Vec<u8> = Vec::new();
    let mut i: usize = 0;
    while i < chiave.len()
        invariant
            i <= chiave@.len(),
            r@ == chiave_ridotta(chiave@.take(i as int)),
        decreases chiave@.len() - i,
    {
        if i % 8 != 0 {
            r.push(chiave[i]);
        }
        proof {
            assert(chiave@.take(i + 1).drop_last() =~= chiave@.take(i as int));
        }
        i = i + 1;
    }
    proof {
        assert(chiave@.take(chiave@.len() as int) =~= chiave@);
    }
    r
}

/// Counts the set entries of a sifting mask.
pub fn conta_veri_vec(esiti: &Vec<bool>) -> (c: usize)
    ensures
        c == conta_veri(esiti@),
        c <= esiti@.len(),
{
    let mut c: usize = 0;
    let mut i: usize = 0;
    while i < esiti.len()
        invariant
            i <= esiti@.len(),
            c <= i,
            c == conta_veri(esiti@.take(i as int)),
        decreases esiti@.len() - i,
    {
        if esiti[i] {
            c = c + 1;
        }
        proof {
            assert(esiti@.take(i + 1).drop_last() =~= esiti@.take(i as int));
        }
        i = i + 1;
    }
    proof {
        assert(esiti@.take(esiti@.len() as int) =~= esiti@);
    }
    c
}

} // verus!
