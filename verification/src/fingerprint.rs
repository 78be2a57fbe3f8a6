//! The write-once ISO fingerprint and the known-bad allow-list.
//!
//! A background worker hashes the loaded game image once and resolves
//! the fingerprint; submission is gated on it. A fingerprint on the
//! known-bad list additionally raises one user-visible warning, but
//! reporting goes on normally.

use vstd::prelude::*;

verus! {

/// The fingerprints of game images known to cause desyncs.
pub open spec fn known_desync_hashes() -> Seq<Seq<char>> {
    seq![
        ("23d6baef06bd65989585096915da20f2")@,
        ("27a5668769a54cd3515af47b8d9982f3")@,
        ("5805fa9f1407aedc8804d0472346fc5f")@,
        ("9bb3e275e77bb1a160276f2330f93931")@,
    ]
}

/// Whether a fingerprint is on the known-bad list.
pub open spec fn is_known_desync(h: Seq<char>) -> bool {
    known_desync_hashes().contains(h)
}

/// Returns whether the fingerprint names a game image known to cause
/// desyncs; the caller raises the single user-visible warning.
pub fn is_known_desync_iso(hash: &str) -> (r: bool)
    ensures
        r == is_known_desync(hash@),
{
    let h = hash.to_owned();
    let r = h == "23d6baef06bd65989585096915da20f2".to_owned() || h
        == "27a5668769a54cd3515af47b8d9982f3".to_owned() || h
        == "5805fa9f1407aedc8804d0472346fc5f".to_owned() || h
        == "9bb3e275e77bb1a160276f2330f93931".to_owned();
    proof {
        let ks = known_desync_hashes();
        assert(ks.len() == 4);
        assert(ks[0] == ("23d6baef06bd65989585096915da20f2")@);
        assert(ks[1] == ("27a5668769a54cd3515af47b8d9982f3")@);
        assert(ks[2] == ("5805fa9f1407aedc8804d0472346fc5f")@);
        assert(ks[3] == ("9bb3e275e77bb1a160276f2330f93931")@);
        if r {
            assert(ks.contains(hash@));
        } else {
            assert(forall|i: int| 0 <= i < ks.len() ==> ks[i] != hash@);
        }
    }
    r
}

/// A single write-once cell holding the resolved fingerprint.
#[derive(Debug)]
pub struct FingerprintCell {
    value: Option<String>,
}

impl View for FingerprintCell {
    type V = Option<Seq<char>>;

    closed spec fn view(&self) -> Option<Seq<char>> {
        self.value.deep_view()
    }
}

impl FingerprintCell {
    /// Creates an unresolved cell.
    pub fn new() -> (r: Self)
        ensures
            r@ is None,
    {
        FingerprintCell { value: None }
    }

    /// Writes the fingerprint if the cell is still unresolved; a
    /// second write changes nothing and reports failure.
    pub fn set(&mut self, hash: String) -> (r: bool)
        ensures
            r == (old(self)@ is None),
            final(self)@ == (if old(self)@ is None {
                Some(hash@)
            } else {
                old(self)@
            }),
    {
        match &self.value {
            Some(_) => false,
            None => {
                self.value = Some(hash);
                true
            },
        }
    }

    /// Whether the fingerprint has resolved.
    pub fn is_set(&self) -> (r: bool)
        ensures
            r == (self@ is Some),
    {
        match &self.value {
            Some(_) => true,
            None => false,
        }
    }

    /// Read access to the resolved fingerprint.
    pub fn get(&self) -> (r: Option<&String>)
        ensures
            (match r {
                Some(s) => self@ == Some(s@),
                None => self@ is None,
            }),
    {
        match &self.value {
            Some(s) => Some(s),
            None => None,
        }
    }
}

} // verus!
