//! The chain state owned by the shell: last committed epoch, height and
//! application hash, the committed key-value entries, and the governance
//! proposal records filed under decimal-rendered storage keys.
//!
//! Proposal lookups go through `iter_prefix`, which matches keys by *byte
//! prefix* exactly as the backing store's ordered prefix iteration does; a
//! scan for epoch 11 therefore also surfaces the keys of epoch 110, and the
//! caller must re-parse each key to weed those out.

use vstd::prelude::*;
use crate::digits::{
    all_dec_digits, dec_digits, is_dec_digit, lemma_dec_digits_are_digits, lemma_dec_round_trip,
    parse_u64, render_u64,
};

verus! {

/// A governance proposal record: its numeric id, filed under a commit epoch.
#[derive(Clone, Copy, PartialEq, Eq, Structural)]
pub struct Proposal {
    pub epoch: u64,
    pub id: u64,
}

/// A committed key-value entry.
pub struct Entry {
    pub key: Vec<u8>,
    pub value: Vec<u8>,
}

/// The storage key under which a proposal is filed: the decimal epoch, a
/// slash, then the decimal id.
pub open spec fn proposal_key_spec(epoch: u64, id: u64) -> Seq<u8> {
    dec_digits(epoch as nat) + seq![47u8] + dec_digits(id as nat)
}

/// The scan prefix for an epoch: its decimal digits, with no terminator.
pub open spec fn epoch_prefix_spec(epoch: u64) -> Seq<u8> {
    dec_digits(epoch as nat)
}

/// Builds the storage key of a proposal.
pub fn proposal_key(epoch: u64, id: u64) -> (k: Vec<u8>)
    ensures
        k@ == proposal_key_spec(epoch, id),
{
    let mut k = render_u64(epoch);
    k.push(47);
    let mut tail = render_u64(id);
    k.append(&mut tail);
    proof {
        assert(k@ =~= proposal_key_spec(epoch, id));
    }
    k
}

/// Builds the scan prefix used to look proposals up by epoch.
pub fn epoch_prefix(epoch: u64) -> (p: Vec<u8>)
    ensures
        p@ == epoch_prefix_spec(epoch),
{
    render_u64(epoch)
}

/// Whether `p` is a byte prefix of `s`.
pub fn is_prefix(p: &[u8], s: &[u8]) -> (r: bool)
    ensures
        r == p@.is_prefix_of(s@),
{
    if p.len() > s.len() {
        return false;
    }
    let mut i: usize = 0;
    while i < p.len()
        invariant
            0 <= i <= p@.len() <= s@.len(),
            forall|j: int| 0 <= j < i ==> p@[j] == s@[j],
        decreases p@.len() - i,
    {
        if p[i] != s[i] {
            assert(!p@.is_prefix_of(s@)) by {
                assert(s@.subrange(0, p@.len() as int)[i as int] == s@[i as int]);
            }
            return false;
        }
        i = i + 1;
    }
    proof {
        assert(p@ =~= s@.subrange(0, p@.len() as int));
    }
    true
}

/// Splits a proposal key back into its epoch and id. Any key that was built
/// by `proposal_key` parses back to exactly the pair it was built from.
pub fn parse_proposal_key(k: &Vec<u8>) -> (r: Option<(u64, u64)>)
    ensures
        forall|e: u64, i: u64| k@ == proposal_key_spec(e, i) ==> r == Some((e, i)),
{
    let mut slash: usize = 0;
    let mut found: bool = false;
    while slash < k.len() && !found
        invariant
            0 <= slash <= k@.len(),
            found ==> slash < k@.len() && k@[slash as int] == 47,
            !found ==> forall|j: int| 0 <= j < slash ==> k@[j] != 47,
        decreases k@.len() - slash + (if found { 0int } else { 1int }),
    {
        if k[slash] == 47 {
            found = true;
        } else {
            slash = slash + 1;
        }
    }
    if !found {
        proof {
            assert forall|e: u64, i: u64| k@ != proposal_key_spec(e, i) by {
                if k@ == proposal_key_spec(e, i) {
                    lemma_dec_digits_are_digits(e as nat);
                    let p = dec_digits(e as nat).len() as int;
                    assert(k@[p] == 47);
                }
            }
        }
        return None;
    }
    let epoch_part = vstd::slice::slice_subrange(k.as_slice(), 0, slash);
    let id_part = vstd::slice::slice_subrange(k.as_slice(), slash + 1, k.len());
    let e = parse_u64(epoch_part);
    let i = parse_u64(id_part);
    proof {
        assert forall|e0: u64, i0: u64| k@ == proposal_key_spec(e0, i0) implies (match (e, i) {
            (Some(ev), Some(iv)) => ev == e0 && iv == i0,
            _ => false,
        }) by {
            lemma_dec_digits_are_digits(e0 as nat);
            lemma_dec_digits_are_digits(i0 as nat);
            lemma_dec_round_trip(e0 as nat);
            lemma_dec_round_trip(i0 as nat);
            let dl = dec_digits(e0 as nat).len() as int;
            // the first slash in the key sits exactly after the epoch digits
            assert(k@[dl] == 47);
            assert(forall|j: int| 0 <= j < dl ==> k@[j] == dec_digits(e0 as nat)[j]
                && is_dec_digit(#[trigger] k@[j]));
            assert(slash as int == dl) by {
                if (slash as int) < dl {
                    assert(is_dec_digit(k@[slash as int]));
                }
                if (slash as int) > dl {
                    assert(k@[dl] != 47);
                }
            }
            assert(epoch_part@ =~= dec_digits(e0 as nat));
            assert(id_part@ =~= dec_digits(i0 as nat));
        }
    }
    match (e, i) {
        (Some(e), Some(i)) => Some((e, i)),
        _ => None,
    }
}

/// The chain state behind the dispatcher: committed fields plus the stored
/// proposal records and key-value entries.
pub struct Storage {
    pub last_epoch: u64,
    pub last_height: u64,
    pub last_app_hash: u64,
    pub proposals: Vec<Proposal>,
    pub entries: Vec<Entry>,
}

impl Storage {
    /// Whether a proposal with this commit epoch and id is stored.
    pub open spec fn has_proposal(self, epoch: u64, id: u64) -> bool {
        exists|t: int|
            0 <= t < self.proposals@.len() && (#[trigger] self.proposals@[t]).epoch == epoch
                && self.proposals@[t].id == id
    }

    pub fn new() -> (s: Storage)
        ensures
            s.last_epoch == 0,
            s.last_height == 0,
            s.last_app_hash == 0,
            s.proposals@ =~= Seq::<Proposal>::empty(),
            s.entries@ =~= Seq::<Entry>::empty(),
    {
        Storage {
            last_epoch: 0,
            last_height: 0,
            last_app_hash: 0,
            proposals: Vec::new(),
            entries: Vec::new(),
        }
    }

    /// Files a proposal record under its commit epoch.
    pub fn write_proposal(&mut self, epoch: u64, id: u64)
        ensures
            final(self).proposals@ == old(self).proposals@.push(Proposal { epoch, id }),
            final(self).last_epoch == old(self).last_epoch,
            final(self).last_height == old(self).last_height,
            final(self).last_app_hash == old(self).last_app_hash,
            final(self).entries == old(self).entries,
    {
        self.proposals.push(Proposal { epoch, id });
    }

    /// Writes one key-value entry; a later write under the same key shadows
    /// an earlier one.
    pub fn write_entry(&mut self, key: Vec<u8>, value: Vec<u8>)
        ensures
            final(self).entries@ == old(self).entries@.push(Entry { key, value }),
            final(self).last_epoch == old(self).last_epoch,
            final(self).last_height == old(self).last_height,
            final(self).last_app_hash == old(self).last_app_hash,
            final(self).proposals == old(self).proposals,
    {
        self.entries.push(Entry { key, value });
    }

    /// Ordered prefix scan over the proposal keys: returns the key of every
    /// stored proposal whose key starts with `prefix`, by byte comparison.
    /// This is where decimal false positives arise: the key of epoch 110
    /// starts with the scan prefix of epoch 11.
    pub fn iter_prefix(&self, prefix: &Vec<u8>) -> (keys: Vec<Vec<u8>>)
        ensures
            // every returned key is the key of some stored proposal, and
            // starts with the prefix
            forall|j: int|
                0 <= j < keys@.len() ==> key_of_some_proposal(
                    self.proposals@,
                    (#[trigger] keys@[j])@,
                ) && prefix@.is_prefix_of((#[trigger] keys@[j])@),
            // the key of every stored proposal matching the prefix is returned
            forall|t: int|
                0 <= t < self.proposals@.len() && prefix@.is_prefix_of(
                    proposal_key_spec(
                        (#[trigger] self.proposals@[t]).epoch,
                        self.proposals@[t].id,
                    ),
                ) ==> key_listed(
                    keys@,
                    proposal_key_spec(self.proposals@[t].epoch, self.proposals@[t].id),
                ),
    {
        let mut keys: Vec<Vec<u8>> = Vec::new();
        let mut t: usize = 0;
        while t < self.proposals.len()
            invariant
                0 <= t <= self.proposals@.len(),
                forall|j: int|
                    0 <= j < keys@.len() ==> key_of_some_proposal(
                        self.proposals@,
                        (#[trigger] keys@[j])@,
                    ) && prefix@.is_prefix_of((#[trigger] keys@[j])@),
                forall|u: int|
                    0 <= u < t && prefix@.is_prefix_of(
                        proposal_key_spec(
                            (#[trigger] self.proposals@[u]).epoch,
                            self.proposals@[u].id,
                        ),
                    ) ==> key_listed(
                        keys@,
                        proposal_key_spec(self.proposals@[u].epoch, self.proposals@[u].id),
                    ),
            decreases self.proposals@.len() - t,
        {
            let rec = self.proposals[t];
            let key = proposal_key(rec.epoch, rec.id);
            let ghost keys_before = keys@;
            let matched = is_prefix(prefix.as_slice(), key.as_slice());
            let ghost key_view = key@;
            if matched {
                keys.push(key);
            }
            proof {
                assert(self.proposals@[t as int] == rec);
                assert forall|j: int| 0 <= j < keys@.len() implies key_of_some_proposal(
                    self.proposals@,
                    (#[trigger] keys@[j])@,
                ) && prefix@.is_prefix_of((#[trigger] keys@[j])@) by {
                    if j < keys_before.len() {
                        assert(keys@[j] == keys_before[j]);
                    } else {
                        assert((keys@[j])@ == key_view);
                        assert(key_view == proposal_key_spec(
                            self.proposals@[t as int].epoch,
                            self.proposals@[t as int].id,
                        ));
                    }
                }
                assert forall|u: int|
                    0 <= u < t + 1 && prefix@.is_prefix_of(
                        proposal_key_spec(
                            (#[trigger] self.proposals@[u]).epoch,
                            self.proposals@[u].id,
                        ),
                    ) implies key_listed(
                    keys@,
                    proposal_key_spec(self.proposals@[u].epoch, self.proposals@[u].id),
                ) by {
                    if u < t {
                        let k = proposal_key_spec(self.proposals@[u].epoch, self.proposals@[u].id);
                        let j0 = choose|j: int| 0 <= j < keys_before.len()
                            && (#[trigger] keys_before[j])@ == k;
                        assert(keys@[j0] == keys_before[j0]);
                    } else {
                        assert(matched);
                        let j0 = keys_before.len() as int;
                        assert((keys@[j0])@ == proposal_key_spec(
                            self.proposals@[u].epoch,
                            self.proposals@[u].id,
                        ));
                    }
                }
            }
            t = t + 1;
        }
        keys
    }
}

/// Whether `k` is the storage key of one of the proposals in `props`.
pub open spec fn key_of_some_proposal(props: Seq<Proposal>, k: Seq<u8>) -> bool {
    exists|t: int|
        0 <= t < props.len() && k == proposal_key_spec((#[trigger] props[t]).epoch, props[t].id)
}

/// Whether the byte string `k` occurs among `keys`.
pub open spec fn key_listed(keys: Seq<Vec<u8>>, k: Seq<u8>) -> bool {
    exists|j: int| 0 <= j < keys.len() && (#[trigger] keys[j])@ == k
}

} // verus!
