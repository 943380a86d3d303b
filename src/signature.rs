//! Signer recovery over a batch of quorum signatures.
//!
//! Every entry keeps its position in the batch, because on-chain verification
//! keys off that position; an entry that cannot be recovered is reported on
//! its own and leaves the others untouched.
use vstd::prelude::*;
use ethers::types::{Signature, H256};
use crate::contracts::Address;

verus! {

/// The signer that `Signature::recover` finds for the raw signature
/// `signature` (r, s and v, 65 bytes) over the prehashed message `hash`, or
/// `None` where recovery fails.
pub uninterp spec fn recovered_signer(signature: Seq<u8>, hash: Seq<u8>) -> Option<Seq<u8>>;

/// Relies on ethers' `Signature::try_from(&[u8])`, which reads exactly 65
/// bytes as r, s and v and refuses any other length, and on
/// `Signature::recover` given a message hash, which returns the signing
/// address or an error; the result depends on the bytes and the hash alone.
#[verifier::external_body]
fn recover_signer(signature: &Vec<u8>, hash: &[u8; 32]) -> (r: Option<Address>)
    ensures
        r is Some <==> recovered_signer(signature@, hash@) is Some,
        r matches Some(a) ==> recovered_signer(signature@, hash@) == Some(a@),
        signature@.len() != 65 ==> r is None,
{
    match Signature::try_from(signature.as_slice()) {
        Ok(sig) => sig.recover(H256(*hash)).ok().map(|a| a.0),
        Err(_) => None,
    }
}

/// The information of a recovered signature.
#[derive(Clone, Debug)]
pub struct RecoveredSignature {
    /// The index of the signature in the batch it came from.
    pub idx: usize,
    /// The raw signature (r, s and v).
    pub signature: Vec<u8>,
    /// The account that signed the message.
    pub signer: Address,
}

/// A recovered entry: its index, its signature bytes and its signer.
pub type RecoveredView = (int, Seq<u8>, Seq<u8>);

impl View for RecoveredSignature {
    type V = RecoveredView;

    open spec fn view(&self) -> RecoveredView {
        (self.idx as int, self.signature@, self.signer@)
    }
}

impl RecoveredSignature {
    pub fn new(idx: usize, signature: Vec<u8>, signer: Address) -> (r: Self)
        ensures
            r.idx == idx,
            r.signature == signature,
            r.signer == signer,
    {
        Self { idx, signature, signer }
    }
}

/// The outcome of recovering a batch: the recovered entries in batch order,
/// and the indices of the entries that could not be recovered.
pub struct RecoveredBatch {
    pub recovered: Vec<RecoveredSignature>,
    pub failed: Vec<usize>,
}

pub open spec fn outcome_view(o: Option<Address>) -> Option<Seq<u8>> {
    match o {
        Some(a) => Some(a@),
        None => None,
    }
}

/// The recovered entries among the first `n` of a batch whose per-entry
/// outcomes are `outs`, in batch order.
pub open spec fn recovered_upto(
    sigs: Seq<Seq<u8>>,
    outs: Seq<Option<Seq<u8>>>,
    n: nat,
) -> Seq<RecoveredView>
    decreases n,
{
    if n == 0 {
        seq![]
    } else {
        let prev = recovered_upto(sigs, outs, (n - 1) as nat);
        match outs[n - 1] {
            Some(a) => prev.push(((n - 1) as int, sigs[n - 1], a)),
            None => prev,
        }
    }
}

/// The indices among the first `n` whose outcome is a failure, in batch order.
pub open spec fn failed_upto(outs: Seq<Option<Seq<u8>>>, n: nat) -> Seq<int>
    decreases n,
{
    if n == 0 {
        seq![]
    } else {
        let prev = failed_upto(outs, (n - 1) as nat);
        match outs[n - 1] {
            Some(_) => prev,
            None => prev.push((n - 1) as int),
        }
    }
}

impl RecoveredBatch {
    /// The batch is what the outcomes `outs` of the signatures `sigs` give.
    pub open spec fn is_outcome_of(&self, sigs: Seq<Seq<u8>>, outs: Seq<Option<Seq<u8>>>) -> bool {
        &&& self.recovered@.map_values(|x: RecoveredSignature| x@) == recovered_upto(
            sigs,
            outs,
            sigs.len(),
        )
        &&& self.failed@.map_values(|k: usize| k as int) == failed_upto(outs, sigs.len())
    }
}

/// Sorts each entry of a batch into the recovered or the failed list by its
/// outcome (`signers[i]`, the signer recovered from `signatures[i]` if any),
/// keeping each entry's index.
pub fn collect_recovered(signatures: &Vec<Vec<u8>>, signers: &Vec<Option<Address>>) -> (r:
    RecoveredBatch)
    requires
        signatures.len() == signers.len(),
    ensures
        r.is_outcome_of(signatures.deep_view(), signers@.map_values(|o: Option<Address>| outcome_view(o))),
{
    let ghost sigs = signatures.deep_view();
    let ghost outs = signers@.map_values(|o: Option<Address>| outcome_view(o));
    let mut recovered: Vec<RecoveredSignature> = Vec::new();
    let mut failed: Vec<usize> = Vec::new();
    let mut i: usize = 0;
    while i < signers.len()
        invariant
            i <= signers.len(),
            signatures.len() == signers.len(),
            sigs == signatures.deep_view(),
            outs == signers@.map_values(|o: Option<Address>| outcome_view(o)),
            recovered@.map_values(|x: RecoveredSignature| x@) == recovered_upto(sigs, outs, i as nat),
            failed@.map_values(|k: usize| k as int) == failed_upto(outs, i as nat),
        decreases signers.len() - i,
    {
        match signers[i] {
            Some(a) => {
                let entry = RecoveredSignature::new(i, signatures[i].clone(), a);
                assert(entry.signature@ =~= sigs[i as int]);
                recovered.push(entry);
                assert(recovered@.map_values(|x: RecoveredSignature| x@) =~= recovered_upto(
                    sigs,
                    outs,
                    (i + 1) as nat,
                ));
            },
            None => {
                failed.push(i);
                assert(failed@.map_values(|k: usize| k as int) =~= failed_upto(outs, (i + 1) as nat));
            },
        }
        i += 1;
    }
    RecoveredBatch { recovered, failed }
}

/// Recovers the signer of every signature in the batch over the message hash
/// `hash`. Each entry is recovered or reported failed on its own, under its
/// index in the batch.
pub fn recover_batch(signatures: &Vec<Vec<u8>>, hash: &[u8; 32]) -> (r: RecoveredBatch)
    ensures
        r.is_outcome_of(
            signatures.deep_view(),
            Seq::new(signatures.len() as nat, |i: int| recovered_signer(signatures[i]@, hash@)),
        ),
{
    let mut signers: Vec<Option<Address>> = Vec::new();
    let mut i: usize = 0;
    while i < signatures.len()
        invariant
            i <= signatures.len(),
            signers.len() == i,
            forall|j: int|
                0 <= j < i ==> outcome_view(#[trigger] signers@[j]) == recovered_signer(
                    signatures[j]@,
                    hash@,
                ),
        decreases signatures.len() - i,
    {
        let s = recover_signer(&signatures[i], hash);
        signers.push(s);
        i += 1;
    }
    assert(signers@.map_values(|o: Option<Address>| outcome_view(o)) =~= Seq::new(
        signatures.len() as nat,
        |i: int| recovered_signer(signatures[i]@, hash@),
    ));
    collect_recovered(signatures, &signers)
}

/// Recovery is scoped to each entry: every recovered entry carries the index,
/// the bytes and the signer of the entry it came from; every failed index is
/// an entry whose recovery failed; every entry is in exactly the list its own
/// outcome selects; and the recovered entries keep batch order.
pub proof fn lemma_recovery_is_scoped(sigs: Seq<Seq<u8>>, outs: Seq<Option<Seq<u8>>>)
    requires
        sigs.len() == outs.len(),
    ensures
        forall|j: int|
            0 <= j < recovered_upto(sigs, outs, sigs.len()).len() ==> {
                let e = #[trigger] recovered_upto(sigs, outs, sigs.len())[j];
                &&& 0 <= e.0 < sigs.len()
                &&& outs[e.0] == Some(e.2)
                &&& e.1 == sigs[e.0]
            },
        forall|j: int|
            0 <= j < failed_upto(outs, sigs.len()).len() ==> {
                let k = #[trigger] failed_upto(outs, sigs.len())[j];
                0 <= k < sigs.len() && outs[k] is None
            },
        forall|k: int|
            0 <= k < sigs.len() && #[trigger] outs[k] is Some ==> recovered_upto(
                sigs,
                outs,
                sigs.len(),
            ).contains((k, sigs[k], outs[k]->0)),
        forall|k: int|
            0 <= k < sigs.len() && #[trigger] outs[k] is None ==> failed_upto(
                outs,
                sigs.len(),
            ).contains(k),
        forall|j1: int, j2: int|
            0 <= j1 < j2 < recovered_upto(sigs, outs, sigs.len()).len() ==> (#[trigger] recovered_upto(
                sigs,
                outs,
                sigs.len(),
            )[j1]).0 < (#[trigger] recovered_upto(sigs, outs, sigs.len())[j2]).0,
{
    lemma_scoped_upto(sigs, outs, sigs.len());
}

proof fn lemma_scoped_upto(sigs: Seq<Seq<u8>>, outs: Seq<Option<Seq<u8>>>, n: nat)
    requires
        sigs.len() == outs.len(),
        n <= sigs.len(),
    ensures
        forall|j: int|
            0 <= j < recovered_upto(sigs, outs, n).len() ==> {
                let e = #[trigger] recovered_upto(sigs, outs, n)[j];
                &&& 0 <= e.0 < n
                &&& outs[e.0] == Some(e.2)
                &&& e.1 == sigs[e.0]
            },
        forall|j: int|
            0 <= j < failed_upto(outs, n).len() ==> {
                let k = #[trigger] failed_upto(outs, n)[j];
                0 <= k < n && outs[k] is None
            },
        forall|k: int|
            0 <= k < n && #[trigger] outs[k] is Some ==> recovered_upto(
                sigs,
                outs,
                n,
            ).contains((k, sigs[k], outs[k]->0)),
        forall|k: int| 0 <= k < n && #[trigger] outs[k] is None ==> failed_upto(outs, n).contains(k),
        forall|j1: int, j2: int|
            0 <= j1 < j2 < recovered_upto(sigs, outs, n).len() ==> (#[trigger] recovered_upto(
                sigs,
                outs,
                n,
            )[j1]).0 < (#[trigger] recovered_upto(sigs, outs, n)[j2]).0,
    decreases n,
{
    if n > 0 {
        let m = (n - 1) as nat;
        lemma_scoped_upto(sigs, outs, m);
        let prev = recovered_upto(sigs, outs, m);
        let fprev = failed_upto(outs, m);
        let rec = recovered_upto(sigs, outs, n);
        let fail = failed_upto(outs, n);
        assert forall|k: int|
            0 <= k < n && #[trigger] outs[k] is Some implies rec.contains(
            (k, sigs[k], outs[k]->0),
        ) by {
            if k < m {
                let j = choose|j: int| 0 <= j < prev.len() && prev[j] == (k, sigs[k], outs[k]->0);
                assert(rec[j] == prev[j]);
            } else {
                assert(rec[rec.len() - 1] == (k, sigs[k], outs[k]->0));
            }
        }
        assert forall|k: int| 0 <= k < n && #[trigger] outs[k] is None implies fail.contains(k) by {
            if k < m {
                let j = choose|j: int| 0 <= j < fprev.len() && fprev[j] == k;
                assert(fail[j] == fprev[j]);
            } else {
                assert(fail[fail.len() - 1] == k);
            }
        }
    }
}

} // verus!
