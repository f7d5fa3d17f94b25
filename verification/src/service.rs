//! The service's process-wide state and its three operations: serving the
//! public key, admitting ballots, and finalizing.
//!
//! One `ServerState` lives for the whole vote.  The transport layer around
//! it decides nothing: it decodes requests into `VoteData`, asks the
//! Eligibility Oracle between `screen` and `admit_ballot`, and maps the
//! `AdmissionResult` to a status code.  Shared access is the transport's
//! concern (a readers-writers lock around the state); order does not matter
//! for the final counts — see the order-independence lemmas in the tally
//! module.

use vstd::prelude::*;

use crate::admission::{
    admit_screened, ballot_cost, screen_ballot, AdmissionResult, ScreenedBallot, ValidationPolicy,
};
use crate::capability::{compact_decodes, serialize_public_key};
use crate::decrypt::Decrypter;
use crate::setup::{ServerSetupConfig, SetupError};
use crate::tally::{plaintexts_of, seq_wrap_add, zero_tally, TallyStore};
use crate::VoteData;

verus! {

/// Everything the running service owns: key material and policy, the
/// accumulators, and the public key bytes served to clients.
pub struct ServerState {
    pub config: ServerSetupConfig,
    pub policy: ValidationPolicy,
    pub tally: TallyStore,
    pub pk_bytes: Vec<u8>,
}

impl ServerState {
    /// The plaintext counts standing behind the accumulators.
    pub open spec fn counts(&self) -> Seq<u64> {
        self.tally@
    }

    /// The serialized public key, fixed at initialization.
    pub open spec fn public_key_encoding(&self) -> Seq<u8> {
        self.pk_bytes@
    }

    /// The service tallies at least one option, always.
    pub open spec fn wf(&self) -> bool {
        self.counts().len() >= 1
    }

    /// Initializes the service: accumulators at an encryption of zero for
    /// each of the `num_options` options, and the public key serialized
    /// once — every later retrieval serves these same bytes.
    pub fn new(
        config: ServerSetupConfig,
        policy: ValidationPolicy,
        num_options: usize,
    ) -> (r: Result<ServerState, SetupError>)
        requires
            num_options >= 1,
        ensures
            r is Ok,
            r matches Ok(s) ==> s.wf() && s.counts() == zero_tally(num_options as nat) && s.policy
                == policy && s.config == config,
    {
        let tally = TallyStore::new(&config.server_key, num_options);
        match serialize_public_key(&config.public_key) {
            Ok(pk_bytes) => Ok(ServerState { config, policy, tally, pk_bytes }),
            Err(e) => Err(SetupError::PublicKeyEncoding(e)),
        }
    }

    /// Serves the public key: the same bytes on every call, for the whole
    /// life of the state.
    pub fn get_public_key(&self) -> (r: &Vec<u8>)
        ensures
            r@ == self.public_key_encoding(),
    {
        &self.pk_bytes
    }

    /// The pipeline's first gate, before the Eligibility Oracle is
    /// consulted: decode the wire ballot and check its shape.  A mismatched
    /// option count, or bytes that do not decode to a conformant compact
    /// ciphertext, end here, `RejectedMalformed`, without oracle contact,
    /// cryptographic work, or tally access.  A service configured with the
    /// proof-based policy reports a capability fault for every wire ballot
    /// (see `screen_ballot`).
    pub fn screen(&self, data: &VoteData) -> (r: Result<ScreenedBallot, AdmissionResult>)
        ensures
            r is Ok <==> !(self.policy is ZkProof) && data.votes@.len() == self.counts().len()
                && (forall|i: int| 0 <= i < data.votes@.len()
                ==> compact_decodes(#[trigger] data.votes@[i]@)),
            data.votes@.len() != self.counts().len() ==> (r matches Err(a) && a
                == AdmissionResult::RejectedMalformed),
            r matches Err(a) ==> a == AdmissionResult::RejectedMalformed || a
                == AdmissionResult::Error,
            r matches Ok(b) ==> b.contributions().len() == self.counts().len()
                && b.matches_policy(self.policy) && b.well_formed(),
    {
        screen_ballot(self.policy, self.tally.num_options(), data)
    }

    /// The pipeline's remaining gates, given the Eligibility Oracle's
    /// verdict on the voter's proof: eligibility, validation under the
    /// policy, and — only when all gates pass — the one mutation of the
    /// tally.  The counts change exactly on acceptance, and then by exactly
    /// the ballot's contributions; the served public key never changes.
    pub fn admit_ballot(&mut self, ballot: ScreenedBallot, eligible: bool) -> (r: AdmissionResult)
        requires
            old(self).wf(),
            ballot.contributions().len() == old(self).counts().len(),
            ballot.matches_policy(old(self).policy),
            ballot.well_formed(),
        ensures
            final(self).wf(),
            final(self).policy == old(self).policy,
            final(self).config == old(self).config,
            final(self).public_key_encoding() == old(self).public_key_encoding(),
            final(self).counts().len() == old(self).counts().len(),
            !eligible ==> r == AdmissionResult::RejectedIneligible,
            r != AdmissionResult::Accepted ==> final(self).tally == old(self).tally,
            r != AdmissionResult::Accepted ==> final(self).counts() == old(self).counts(),
            r == AdmissionResult::Accepted ==> final(self).counts() == seq_wrap_add(
                old(self).counts(),
                ballot.contributions(),
            ),
            eligible ==> (old(self).policy matches ValidationPolicy::CostBound(bound) ==> (r
                == AdmissionResult::Accepted <==> ballot_cost(ballot.contributions()) <= bound)),
            eligible ==> r == AdmissionResult::Accepted || r == AdmissionResult::RejectedInvalid
                || r == AdmissionResult::Error,
            eligible && old(self).policy is TrustingExpansion ==> r
                == AdmissionResult::Accepted,
            eligible && old(self).policy is ZkProof && old(self).config.public_zk_params is None
                ==> r == AdmissionResult::Error,
            eligible ==> (old(self).config.public_zk_params matches Some(p) ==> (old(
                self,
            ).policy is ZkProof && ballot.proven_under_all(p.id()) ==> (r
                == AdmissionResult::Accepted <==> ballot.proofs_valid()))),
            r == AdmissionResult::Error ==> old(self).policy is ZkProof
                && old(self).config.public_zk_params is None,
    {
        admit_screened(&self.config, self.policy, &mut self.tally, ballot, eligible)
    }

    /// The Finalizer: decrypts each accumulator and returns the plaintext
    /// counts in option order.  A pure read — idempotent, no tally
    /// mutation — reporting the tally so far.
    pub fn finalize(&self) -> (r: Vec<u64>)
        ensures
            r@ == self.counts(),
    {
        let snapshot = self.tally.read_snapshot();
        let mut out: Vec<u64> = Vec::new();
        let mut i: usize = 0;
        while i < snapshot.len()
            invariant
                out@.len() == i,
                i <= snapshot@.len(),
                plaintexts_of(snapshot@) == self.counts(),
                forall|j: int| 0 <= j < i ==> out@[j] == self.counts()[j],
            decreases snapshot@.len() - i,
        {
            out.push(self.config.decrypt(&snapshot[i]));
            i = i + 1;
        }
        proof {
            assert(out@ =~= self.counts());
        }
        out
    }
}

} // verus!

