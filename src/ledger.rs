//! The engine's own record of authorization nonces it has sent to the
//! chain: an advisory guard against replay, the chain being the authority.
//!
//! A nonce is recorded when its settlement starts, and released only when the
//! submission of that settlement failed; every other outcome keeps it.
use vstd::prelude::*;
use crate::types::{Address, Nonce};

verus! {

/// A nonce consumed by a signer on a network.
#[derive(Clone, Debug)]
pub struct NonceRecord {
    pub signer: Address,
    pub network: String,
    pub nonce: Nonce,
}

/// What identifies a record: signer, network and nonce.
pub open spec fn record_key(r: NonceRecord) -> (Seq<u8>, Seq<char>, Seq<u8>) {
    (r.signer@, r.network@, r.nonce@)
}

/// Nonces handed to settlement and not released.
pub struct NonceLedger {
    records: Vec<NonceRecord>,
}

impl NonceLedger {
    /// The records in the order they were made.
    pub closed spec fn records(self) -> Seq<NonceRecord> {
        self.records@
    }

    /// Whether `nonce` of `signer` on `network` is recorded.
    pub open spec fn used(self, signer: Seq<u8>, network: Seq<char>, nonce: Seq<u8>) -> bool {
        exists|i: int|
            0 <= i < self.records().len() && #[trigger] record_key(self.records()[i]) == (
                signer,
                network,
                nonce,
            )
    }

    /// A ledger with nothing recorded.
    pub fn new() -> (r: NonceLedger)
        ensures
            forall|s: Seq<u8>, w: Seq<char>, n: Seq<u8>| !r.used(s, w, n),
    {
        NonceLedger { records: Vec::new() }
    }

    /// Whether `nonce` of `signer` on `network` is recorded.
    pub fn contains(&self, signer: &Address, network: &String, nonce: &Nonce) -> (r: bool)
        ensures
            r == self.used(signer@, network@, nonce@),
    {
        let mut i: usize = 0;
        while i < self.records.len()
            invariant
                i <= self.records@.len(),
                forall|j: int|
                    0 <= j < i ==> #[trigger] record_key(self.records@[j]) != (
                        signer@,
                        network@,
                        nonce@,
                    ),
            decreases self.records@.len() - i,
        {
            let rec = &self.records[i];
            if rec.signer.same_as(signer) && rec.network == *network && rec.nonce.same_as(nonce) {
                assert(record_key(self.records()[i as int]) == (signer@, network@, nonce@));
                return true;
            }
            i = i + 1;
        }
        false
    }

    /// Records `nonce` of `signer` on `network`; nothing else changes.
    pub fn record(&mut self, signer: &Address, network: &String, nonce: &Nonce)
        ensures
            forall|s: Seq<u8>, w: Seq<char>, n: Seq<u8>|
                #[trigger] final(self).used(s, w, n) == (old(self).used(s, w, n) || (s == signer@
                    && w == network@ && n == nonce@)),
    {
        self.records.push(NonceRecord { signer: *signer, network: network.clone(), nonce: *nonce });
        assert forall|s: Seq<u8>, w: Seq<char>, n: Seq<u8>|
            #[trigger] self.used(s, w, n) == (old(self).used(s, w, n) || (s == signer@ && w
                == network@ && n == nonce@)) by {
            if old(self).used(s, w, n) {
                let i = choose|i: int|
                    0 <= i < old(self).records().len() && #[trigger] record_key(
                        old(self).records()[i],
                    ) == (s, w, n);
                assert(self.records()[i] == old(self).records()[i]);
            }
            if s == signer@ && w == network@ && n == nonce@ {
                let last = self.records().len() - 1;
                assert(record_key(self.records()[last]) == (s, w, n));
            }
            if self.used(s, w, n) {
                let i = choose|i: int|
                    0 <= i < self.records().len() && #[trigger] record_key(self.records()[i]) == (
                        s,
                        w,
                        n,
                    );
                if i < old(self).records().len() {
                    assert(record_key(old(self).records()[i]) == (s, w, n));
                }
            }
        }
    }

    /// Forgets `nonce` of `signer` on `network`; nothing else changes.
    pub fn release(&mut self, signer: &Address, network: &String, nonce: &Nonce)
        ensures
            forall|s: Seq<u8>, w: Seq<char>, n: Seq<u8>|
                #[trigger] final(self).used(s, w, n) == (old(self).used(s, w, n) && !(s == signer@
                    && w == network@ && n == nonce@)),
    {
        let ghost target = (signer@, network@, nonce@);
        let ghost old_records = self.records@;
        let mut kept: Vec<NonceRecord> = Vec::new();
        let ghost mut from: Seq<int> = Seq::empty();
        let ghost mut to: Seq<int> = Seq::empty();
        let mut i: usize = 0;
        while i < self.records.len()
            invariant
                self.records@ == old_records,
                target == (signer@, network@, nonce@),
                i <= old_records.len(),
                from.len() == kept@.len(),
                to.len() == i,
                forall|j: int|
                    0 <= j < kept@.len() ==> 0 <= #[trigger] from[j] < i && record_key(kept@[j])
                        == record_key(old_records[from[j]]) && record_key(kept@[j]) != target,
                forall|k: int|
                    0 <= k < i && #[trigger] record_key(old_records[k]) != target ==> 0 <= to[k]
                        < kept@.len() && record_key(kept@[to[k]]) == record_key(old_records[k]),
            decreases old_records.len() - i,
        {
            let rec = &self.records[i];
            let hit = rec.signer.same_as(signer) && rec.network == *network && rec.nonce.same_as(
                nonce,
            );
            assert(hit == (record_key(old_records[i as int]) == target));
            if hit {
                proof {
                    to = to.push(0);
                }
            } else {
                proof {
                    from = from.push(i as int);
                    to = to.push(kept@.len() as int);
                }
                kept.push(NonceRecord { signer: rec.signer, network: rec.network.clone(), nonce: rec.nonce });
                assert(record_key(kept@[kept@.len() - 1]) == record_key(old_records[i as int]));
            }
            i = i + 1;
        }
        self.records = kept;
        assert forall|s: Seq<u8>, w: Seq<char>, n: Seq<u8>|
            #[trigger] self.used(s, w, n) == (old(self).used(s, w, n) && !(s == signer@ && w
                == network@ && n == nonce@)) by {
            if self.used(s, w, n) {
                let j = choose|j: int|
                    0 <= j < self.records().len() && #[trigger] record_key(self.records()[j]) == (
                        s,
                        w,
                        n,
                    );
                let k = from[j];
                assert(record_key(old(self).records()[k]) == (s, w, n));
            }
            if old(self).used(s, w, n) && !(s == signer@ && w == network@ && n == nonce@) {
                let k = choose|k: int|
                    0 <= k < old(self).records().len() && #[trigger] record_key(
                        old(self).records()[k],
                    ) == (s, w, n);
                assert(record_key(old_records[k]) != target);
                let j = to[k];
                assert(record_key(self.records()[j]) == (s, w, n));
            }
        }
    }
}

} // verus!
