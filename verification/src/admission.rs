//! The Admission Pipeline: the gates a ballot passes on its way into the
//! tally, each short-circuiting, with the Tally Store mutated only after
//! every gate has passed.
//!
//! The gates run in order: decode the wire ballot and check its shape
//! (option count); ask the Eligibility Oracle about the voter's proof;
//! validate or expand the ciphertexts under the configured policy; and only
//! then accumulate.  The oracle is an outside service, so the pipeline is
//! split around it: `screen_ballot` is everything before the oracle — a
//! ballot it rejects never reaches the oracle or the store — and
//! `admit_screened` is everything after, taking the oracle's verdict as an
//! argument.  A ballot rejected at any gate leaves the tally's counts
//! exactly as they were.

use vstd::prelude::*;

use crate::capability::{
    compact_decodes, decode_compact, he_add, he_le, he_mul, trivial_encrypt, wrap_add, wrap_mul,
    Ciphertext, CompactCiphertext, ProvenCiphertext,
};
use crate::decrypt::Decrypter;
use crate::setup::ServerSetupConfig;
use crate::tally::{plaintexts_of, seq_wrap_add, TallyStore};
use crate::verify::{Verifier, VerifyError};
use crate::VoteData;

verus! {

/// The pipeline's verdict on one ballot.
#[derive(Clone, Copy, Debug, PartialEq, Eq, Structural)]
pub enum AdmissionResult {
    /// Every gate passed and the ballot is in the tally.
    Accepted,
    /// The Eligibility Oracle did not vouch for the voter (it said no, or
    /// could not be reached — the two are not distinguished).
    RejectedIneligible,
    /// The wire ballot had the wrong option count or undecodable bytes.
    RejectedMalformed,
    /// The ballot decoded but failed the configured validation: its proof
    /// did not check out, or its cost exceeded the bound.
    RejectedInvalid,
    /// The capability itself failed — the proof-based policy is configured
    /// but the proof system's parameters are missing.  A setup fault.
    Error,
}

/// How the Ballot Validator decides well-formedness.
#[derive(Clone, Copy, Debug, PartialEq, Eq, Structural)]
pub enum ValidationPolicy {
    /// Expand the compact ciphertexts with no semantic check: the minimal
    /// variant, safe only when eligibility alone is enough.
    TrustingExpansion,
    /// Compute the ballot's quadratic cost homomorphically and compare it
    /// against this bound; the encrypted outcome is decrypted with the
    /// service's own secret key.  The only pre-finalize decryption.
    CostBound(u64),
    /// Check the zero-knowledge proof bound to each ciphertext.
    ZkProof,
}

/// A ballot ready for validation: plain compact ciphertexts come through
/// the decode/shape gate; proof-carrying ones only from in-process
/// `encrypt_and_prove` (this capability version cannot screen them from
/// wire bytes — see `screen_ballot`).
pub enum ScreenedBallot {
    /// Plain compact ciphertexts, one per option.
    Compact(Vec<CompactCiphertext>),
    /// Proof-carrying compact ciphertexts, one per option.
    Proven(Vec<ProvenCiphertext>),
}

impl ScreenedBallot {
    /// The plaintext contribution this ballot stands for, option by option.
    pub open spec fn contributions(self) -> Seq<u64> {
        match self {
            ScreenedBallot::Compact(cs) => Seq::new(cs@.len(), |i: int| cs@[i]@),
            ScreenedBallot::Proven(ps) => Seq::new(ps@.len(), |i: int| ps@[i]@),
        }
    }

    /// Whether this ballot's shape matches the given policy: the proof
    /// policy works on proven ciphertexts, the others on plain ones.
    pub open spec fn matches_policy(self, policy: ValidationPolicy) -> bool {
        policy is ZkProof <==> self is Proven
    }

    /// The validity of each proof this ballot carries; a ballot without
    /// proofs carries none to fail.
    pub open spec fn proof_flags(self) -> Seq<bool> {
        match self {
            ScreenedBallot::Compact(cs) => Seq::new(cs@.len(), |i: int| true),
            ScreenedBallot::Proven(ps) => Seq::new(ps@.len(), |i: int| ps@[i].proof_valid()),
        }
    }

    /// Whether every proof this ballot carries verifies under the
    /// parameter set it was generated under.
    pub open spec fn proofs_valid(self) -> bool {
        forall|i: int| 0 <= i < self.proof_flags().len() ==> self.proof_flags()[i]
    }

    /// Whether every ciphertext this ballot carries conforms to the
    /// service's parameter set.  A plain compact ballot always does (the
    /// decode gate checks it); a proven ballot only as `encrypt_and_prove`
    /// made it.
    pub open spec fn well_formed(self) -> bool {
        match self {
            ScreenedBallot::Compact(_) => true,
            ScreenedBallot::Proven(ps) => forall|i: int|
                0 <= i < ps@.len() ==> (#[trigger] ps@[i]).conformant(),
        }
    }

    /// Whether every proof this ballot carries was generated under the
    /// parameter set with the given identity.
    pub open spec fn proven_under_all(self, pid: int) -> bool {
        match self {
            ScreenedBallot::Compact(_) => true,
            ScreenedBallot::Proven(ps) => forall|i: int|
                0 <= i < ps@.len() ==> (#[trigger] ps@[i]).proven_under() == pid,
        }
    }
}

/// The quadratic-voting cost of a ballot: the sum over options of the
/// contribution squared, in the scheme's wrapping 64-bit arithmetic.
pub open spec fn ballot_cost(contributions: Seq<u64>) -> u64
    decreases contributions.len(),
{
    if contributions.len() == 0 {
        0u64
    } else {
        wrap_add(
            ballot_cost(contributions.drop_last()),
            wrap_mul(contributions.last(), contributions.last()),
        )
    }
}

/// The exact, unwrapped quadratic cost of a ballot: the mathematical sum
/// over options of the contribution squared.
pub open spec fn exact_ballot_cost(contributions: Seq<u64>) -> int
    decreases contributions.len(),
{
    if contributions.len() == 0 {
        0
    } else {
        exact_ballot_cost(contributions.drop_last()) + contributions.last()
            * contributions.last()
    }
}

proof fn lemma_exact_cost_nonneg(contributions: Seq<u64>)
    ensures
        exact_ballot_cost(contributions) >= 0,
    decreases contributions.len(),
{
    if contributions.len() > 0 {
        lemma_exact_cost_nonneg(contributions.drop_last());
        let l = contributions.last();
        assert(l * l >= 0) by (nonlinear_arith);
    }
}

/// Cost-bound enforcement speaks of the cost the scheme computes, which
/// wraps in 64 bits.  Wherever the exact sum of squared contributions does
/// not overflow, the two agree: a ballot whose exact cost exceeds the bound
/// is then rejected, and one exactly at the bound is accepted (the
/// comparison is less-than-or-equal).  With an overflowing cost the wrapped
/// value is what the scheme — like the homomorphic circuit it runs —
/// compares.
pub proof fn lemma_ballot_cost_exact(contributions: Seq<u64>)
    requires
        exact_ballot_cost(contributions) < 0x1_0000_0000_0000_0000,
    ensures
        ballot_cost(contributions) == exact_ballot_cost(contributions),
    decreases contributions.len(),
{
    let m: int = 0x1_0000_0000_0000_0000;
    if contributions.len() > 0 {
        let front = contributions.drop_last();
        let l = contributions.last();
        lemma_exact_cost_nonneg(front);
        assert(l * l >= 0) by (nonlinear_arith);
        lemma_ballot_cost_exact(front);
        vstd::arithmetic::div_mod::lemma_small_mod((l * l) as nat, m as nat);
        vstd::arithmetic::div_mod::lemma_small_mod(exact_ballot_cost(contributions) as nat, m as nat);
    }
}

/// The decode/shape gate, and everything else that precedes the
/// Eligibility Oracle.  A wire ballot whose option count is wrong, or any
/// of whose ciphertexts does not decode to a conformant compact
/// ciphertext, is `RejectedMalformed` here — before the oracle is
/// consulted and before any cryptographic work.  Under the proof-based
/// policy no wire ballot is screened at all: this capability version
/// cannot check a proven ballot's shape before verifying it, so offering
/// the policy over the wire is a configuration fault, reported as `Error`
/// (proven ballots made in-process by `encrypt_and_prove` can still be
/// admitted directly).
pub fn screen_ballot(
    policy: ValidationPolicy,
    num_options: usize,
    data: &VoteData,
) -> (r: Result<ScreenedBallot, AdmissionResult>)
    ensures
        r is Ok <==> !(policy is ZkProof) && data.votes@.len() == num_options && (forall|i: int|
            0 <= i < data.votes@.len() ==> compact_decodes(#[trigger] data.votes@[i]@)),
        data.votes@.len() != num_options ==> (r matches Err(a) && a
            == AdmissionResult::RejectedMalformed),
        policy is ZkProof && data.votes@.len() == num_options ==> (r matches Err(a) && a
            == AdmissionResult::Error),
        r matches Err(a) ==> a == AdmissionResult::RejectedMalformed || a
            == AdmissionResult::Error,
        r matches Ok(b) ==> b.contributions().len() == num_options && b.matches_policy(policy)
            && b.well_formed(),
{
    if data.votes.len() != num_options {
        return Err(AdmissionResult::RejectedMalformed);
    }
    match policy {
        ValidationPolicy::ZkProof => Err(AdmissionResult::Error),
        _ => {
            let mut out: Vec<CompactCiphertext> = Vec::new();
            let mut i: usize = 0;
            while i < data.votes.len()
                invariant
                    !(policy is ZkProof),
                    out@.len() == i,
                    i <= data.votes@.len(),
                    forall|j: int| 0 <= j < i ==> compact_decodes(#[trigger] data.votes@[j]@),
                decreases data.votes@.len() - i,
            {
                match decode_compact(&data.votes[i]) {
                    Some(cipher) => out.push(cipher),
                    None => {
                        return Err(AdmissionResult::RejectedMalformed);
                    },
                }
                i = i + 1;
            }
            Ok(ScreenedBallot::Compact(out))
        },
    }
}

/// The ballot's quadratic cost, computed homomorphically: the encrypted sum
/// of the squares of the contributions.
fn quadratic_cost(server_key: &tfhe::ServerKey, votes: &Vec<Ciphertext>) -> (r: Ciphertext)
    ensures
        r@ == ballot_cost(plaintexts_of(votes@)),
{
    let ghost all = plaintexts_of(votes@);
    let mut acc = trivial_encrypt(server_key, 0);
    let mut i: usize = 0;
    proof {
        assert(all.take(0) =~= Seq::<u64>::empty());
    }
    while i < votes.len()
        invariant
            i <= votes@.len(),
            all == plaintexts_of(votes@),
            acc@ == ballot_cost(all.take(i as int)),
        decreases votes@.len() - i,
    {
        let square = he_mul(server_key, &votes[i], &votes[i]);
        acc = he_add(server_key, &acc, &square);
        proof {
            assert(all.take(i + 1).drop_last() =~= all.take(i as int));
            assert(all.take(i + 1).last() == all[i as int]);
        }
        i = i + 1;
    }
    proof {
        assert(all.take(votes@.len() as int) =~= all);
    }
    acc
}

/// Everything past the Eligibility Oracle: the eligibility verdict is
/// applied, the ballot is validated or expanded under the policy, and only
/// when all of that succeeds is the ballot accumulated.  Any rejection
/// leaves the tally's counts unchanged; acceptance adds exactly the
/// ballot's contributions.  Under the cost-bound policy an eligible ballot
/// is accepted if and only if its quadratic cost is at most the bound
/// (boundary inclusive); under trusting expansion every eligible ballot is
/// accepted; under the proof policy acceptance additionally depends on the
/// proof checking out, and a service without proof parameters reports a
/// capability fault.
pub fn admit_screened(
    config: &ServerSetupConfig,
    policy: ValidationPolicy,
    tally: &mut TallyStore,
    ballot: ScreenedBallot,
    eligible: bool,
) -> (r: AdmissionResult)
    requires
        ballot.contributions().len() == old(tally)@.len(),
        ballot.matches_policy(policy),
        ballot.well_formed(),
        old(tally)@.len() >= 1,
    ensures
        final(tally)@.len() == old(tally)@.len(),
        !eligible ==> r == AdmissionResult::RejectedIneligible,
        r != AdmissionResult::Accepted ==> *final(tally) == *old(tally),
        r != AdmissionResult::Accepted ==> final(tally)@ == old(tally)@,
        r == AdmissionResult::Accepted ==> final(tally)@ == seq_wrap_add(
            old(tally)@,
            ballot.contributions(),
        ),
        eligible ==> (policy matches ValidationPolicy::CostBound(bound) ==> (r
            == AdmissionResult::Accepted <==> ballot_cost(ballot.contributions()) <= bound)),
        eligible ==> r == AdmissionResult::Accepted || r == AdmissionResult::RejectedInvalid || r
            == AdmissionResult::Error,
        eligible && policy is TrustingExpansion ==> r == AdmissionResult::Accepted,
        eligible && policy is ZkProof && config.public_zk_params is None ==> r
            == AdmissionResult::Error,
        eligible ==> (config.public_zk_params matches Some(p) ==> (policy is ZkProof
            && ballot.proven_under_all(p.id()) ==> (r == AdmissionResult::Accepted
            <==> ballot.proofs_valid()))),
        r == AdmissionResult::Error ==> policy is ZkProof && config.public_zk_params is None,
{
    if !eligible {
        return AdmissionResult::RejectedIneligible;
    }

    let ghost contributions = ballot.contributions();
    let ghost flags = ballot.proof_flags();
    let expanded: Vec<Ciphertext>;
    match ballot {
        ScreenedBallot::Compact(compacts) => {
            let mut out: Vec<Ciphertext> = Vec::new();
            let mut i: usize = 0;
            while i < compacts.len()
                invariant
                    i <= compacts@.len(),
                    out@.len() == i,
                    contributions == Seq::new(compacts@.len(), |j: int| compacts@[j]@),
                    forall|j: int| 0 <= j < i ==> out@[j]@ == contributions[j],
                decreases compacts@.len() - i,
            {
                out.push(config.expand(&compacts[i]));
                i = i + 1;
            }
            proof {
                assert(plaintexts_of(out@) =~= contributions);
            }
            if let ValidationPolicy::CostBound(bound) = policy {
                let cost = quadratic_cost(&config.server_key, &out);
                let flag = he_le(&config.server_key, &cost, bound);
                let cost_ok = config.decrypt_bool(&flag);
                if !cost_ok {
                    return AdmissionResult::RejectedInvalid;
                }
            }
            expanded = out;
        },
        ScreenedBallot::Proven(provens) => {
            let ghost under_ok = if config.public_zk_params is Some {
                ballot.proven_under_all(config.public_zk_params->Some_0.id())
            } else {
                false
            };
            let mut rest = provens;
            let total: usize = rest.len();
            let mut out: Vec<Ciphertext> = Vec::new();
            let mut i: usize = 0;
            while rest.len() > 0
                invariant
                    eligible,
                    policy is ZkProof,
                    out@.len() == i,
                    i + rest@.len() == total,
                    total == contributions.len(),
                    total == flags.len(),
                    flags == ballot.proof_flags(),
                    under_ok == (if config.public_zk_params is Some {
                        ballot.proven_under_all(config.public_zk_params->Some_0.id())
                    } else {
                        false
                    }),
                    total >= 1,
                    i > 0 ==> config.public_zk_params is Some,
                    forall|j: int| 0 <= j < rest@.len() ==> rest@[j]@ == contributions[i + j],
                    forall|j: int| 0 <= j < rest@.len() ==> #[trigger] rest@[j].proof_valid()
                        == flags[i + j],
                    forall|j: int| 0 <= j < rest@.len() ==> (#[trigger] rest@[j]).conformant(),
                    under_ok ==> forall|j: int| 0 <= j < rest@.len()
                        ==> (#[trigger] rest@[j]).proven_under()
                        == config.public_zk_params->Some_0.id(),
                    forall|j: int| 0 <= j < i ==> out@[j]@ == contributions[j],
                    under_ok ==> forall|j: int| 0 <= j < i ==> flags[j],
                decreases rest@.len(),
            {
                let ghost before = rest@;
                let cipher = rest.remove(0);
                proof {
                    assert(before[0].proof_valid() == flags[i as int]);
                    assert(before[0].conformant());
                }
                match config.verify_and_expand(cipher) {
                    Ok(operable) => out.push(operable),
                    Err(VerifyError::MissingZkParams) => {
                        return AdmissionResult::Error;
                    },
                    Err(VerifyError::Proof(_)) => {
                        proof {
                            if under_ok {
                                assert(!ballot.proof_flags()[i as int]);
                            }
                        }
                        return AdmissionResult::RejectedInvalid;
                    },
                }
                i = i + 1;
            }
            proof {
                assert(plaintexts_of(out@) =~= contributions);
            }
            expanded = out;
        },
    }

    tally.accumulate(&config.server_key, &expanded);
    AdmissionResult::Accepted
}

} // verus!
