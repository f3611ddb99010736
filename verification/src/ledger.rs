//! The attestation verification and trust state machine.

use vstd::prelude::*;
use crate::attestation::decode_attestation;
use crate::attestation::attestation_tag;
use crate::attestation::payload_len;
use crate::attestation::payload_mfr;
use crate::attestation::payload_meas;
use crate::attestation::payload_nonce;
use crate::attestation::payload_sig;
use crate::attestation::spec_tag;
use crate::byteorder::bytes_eq;
use crate::identity::addr_is_zero;
use crate::identity::zero_address;
use crate::identity::Address;
use crate::identity::DeviceId;
use crate::registry::find_manufacturer;
use crate::registry::lemma_registry_record_wf;
use crate::registry::registry_map;
use crate::registry::ManufacturerModel;
use crate::registry::ManufacturerRecord;
use crate::table::Table;

verus! {

/// The abstract state of the ledger: three device-keyed maps, the record of
/// last successful verifications, the global counter, the relayer identity,
/// and the read-only manufacturer registry.
#[verifier::ext_equal]
pub struct StateModel {
    pub relayer: Address,
    pub manufacturers: Map<u32, ManufacturerModel>,
    pub owners: Map<DeviceId, Address>,
    pub scores: Map<DeviceId, u64>,
    pub nonces: Map<DeviceId, u64>,
    pub last_verified: Map<DeviceId, u64>,
    pub total: u64,
}

/// Why a call was rejected as a caller-input defect.  Policy rejections of
/// an attestation are not errors: verification then returns `Ok(false)`.
#[derive(Clone, Copy, PartialEq, Eq, Structural, Debug)]
pub enum ContractError {
    /// A relayer-only operation was called by another identity.
    Unauthorized,
    /// A trust score above 100.
    InvalidScore,
    /// A registration naming the zero address as owner.
    InvalidOwner,
    /// An attestation payload that does not decode.
    MalformedAttestation,
}

/// Whether `d` is registered: it has an owner and that owner is not the
/// zero address.
pub open spec fn registered(s: StateModel, d: DeviceId) -> bool {
    s.owners.contains_key(d) && !addr_is_zero(s.owners[d])
}

/// The owner of `d`; the zero address when unregistered.
pub open spec fn owner_of(s: StateModel, d: DeviceId) -> Address {
    if s.owners.contains_key(d) {
        s.owners[d]
    } else {
        zero_address()
    }
}

/// The trust score of `d`; zero when it was never scored.
pub open spec fn trust_score_of(s: StateModel, d: DeviceId) -> u64 {
    if s.scores.contains_key(d) {
        s.scores[d]
    } else {
        0
    }
}

/// The last committed nonce of `d`; zero before any successful
/// verification.
pub open spec fn nonce_of(s: StateModel, d: DeviceId) -> u64 {
    if s.nonces.contains_key(d) {
        s.nonces[d]
    } else {
        0
    }
}

/// The counter value at `d`'s last successful verification; zero before
/// any.
pub open spec fn last_verified_of(s: StateModel, d: DeviceId) -> u64 {
    if s.last_verified.contains_key(d) {
        s.last_verified[d]
    } else {
        0
    }
}

/// The state invariant: every stored trust score is within [0, 100], no
/// registered owner is the zero address, and every manufacturer entry
/// carries a 32-byte key and measurement.
pub open spec fn state_inv(s: StateModel) -> bool {
    &&& forall|d: DeviceId| #[trigger] s.scores.contains_key(d) ==> s.scores[d] <= 100
    &&& forall|d: DeviceId| #[trigger] s.owners.contains_key(d) ==> !addr_is_zero(s.owners[d])
    &&& forall|id: u32| #[trigger]
        s.manufacturers.contains_key(id) ==> s.manufacturers[id].key.len() == 32
            && s.manufacturers[id].measurement.len() == 32
}

/// The outcome of a registration call.
pub open spec fn spec_register_result(
    s: StateModel,
    caller: Address,
    d: DeviceId,
    owner: Address,
) -> Result<(), ContractError> {
    if caller != s.relayer {
        Err(ContractError::Unauthorized)
    } else if addr_is_zero(owner) {
        Err(ContractError::InvalidOwner)
    } else {
        Ok(())
    }
}

/// The state after a registration call.
pub open spec fn spec_register_post(
    s: StateModel,
    caller: Address,
    d: DeviceId,
    owner: Address,
) -> StateModel {
    if spec_register_result(s, caller, d, owner) is Ok {
        StateModel { owners: s.owners.insert(d, owner), ..s }
    } else {
        s
    }
}

/// The outcome of a score update.
pub open spec fn spec_update_result(
    s: StateModel,
    caller: Address,
    d: DeviceId,
    new_score: u64,
) -> Result<(), ContractError> {
    if caller != s.relayer {
        Err(ContractError::Unauthorized)
    } else if new_score > 100 {
        Err(ContractError::InvalidScore)
    } else {
        Ok(())
    }
}

/// The state after a score update.
pub open spec fn spec_update_post(
    s: StateModel,
    caller: Address,
    d: DeviceId,
    new_score: u64,
) -> StateModel {
    if spec_update_result(s, caller, d, new_score) is Ok {
        StateModel { scores: s.scores.insert(d, new_score), ..s }
    } else {
        s
    }
}

/// Whether the payload's signature equals the authentication tag under the
/// key of the manufacturer the payload names.
pub open spec fn signature_ok(s: StateModel, d: DeviceId, p: Seq<u8>) -> bool {
    &&& s.manufacturers.contains_key(payload_mfr(p))
    &&& payload_sig(p) == spec_tag(
        s.manufacturers[payload_mfr(p)].key,
        d,
        payload_nonce(p),
        payload_meas(p),
    )
}

/// Whether the payload's measurement equals the allow-listed measurement of
/// the manufacturer the payload names.
pub open spec fn measurement_ok(s: StateModel, p: Seq<u8>) -> bool {
    &&& s.manufacturers.contains_key(payload_mfr(p))
    &&& payload_meas(p) == s.manufacturers[payload_mfr(p)].measurement
}

/// The outcome of a verification call: a malformed payload from a
/// registered, trusted device aborts; every policy rejection returns
/// `Ok(false)`; only a fresh, well-signed, allow-listed attestation returns
/// `Ok(true)`.
pub open spec fn spec_verify_result(s: StateModel, d: DeviceId, p: Seq<u8>) -> Result<
    bool,
    ContractError,
> {
    if !(registered(s, d) && trust_score_of(s, d) > 0) {
        Ok(false)
    } else if p.len() != payload_len() {
        Err(ContractError::MalformedAttestation)
    } else if payload_nonce(p) <= nonce_of(s, d) {
        Ok(false)
    } else if !signature_ok(s, d, p) {
        Ok(false)
    } else if !measurement_ok(s, p) {
        Ok(false)
    } else {
        Ok(true)
    }
}

/// The state after a verification call: only a successful one commits, and
/// it updates the device nonce, records the counter value as the device's
/// last verification, and increments the counter, atomically.
pub open spec fn spec_verify_post(s: StateModel, d: DeviceId, p: Seq<u8>) -> StateModel {
    if spec_verify_result(s, d, p) == Ok::<bool, ContractError>(true) {
        StateModel {
            nonces: s.nonces.insert(d, payload_nonce(p)),
            last_verified: s.last_verified.insert(d, (s.total + 1) as u64),
            total: (s.total + 1) as u64,
            ..s
        }
    } else {
        s
    }
}

/// LAW: in any state satisfying the invariant, every device's trust score
/// is within [0, 100], stored or not.
pub proof fn lemma_trust_scores_bounded(s: StateModel)
    requires
        state_inv(s),
    ensures
        forall|d: DeviceId| trust_score_of(s, d) <= 100,
{
    assert forall|d: DeviceId| trust_score_of(s, d) <= 100 by {
        if s.scores.contains_key(d) {
        }
    }
}

/// LAW: a verification call increments the counter by exactly one when it
/// returns `Ok(true)`, and leaves the whole state unchanged on any other
/// outcome.
pub proof fn lemma_counter_tracks_success(s: StateModel, d: DeviceId, p: Seq<u8>)
    requires
        s.total < u64::MAX,
    ensures
        spec_verify_result(s, d, p) == Ok::<bool, ContractError>(true) ==> spec_verify_post(
            s,
            d,
            p,
        ).total == s.total + 1,
        spec_verify_result(s, d, p) != Ok::<bool, ContractError>(true) ==> spec_verify_post(s, d, p)
            == s,
{
}

/// LAW: registrations and score updates never move the counter; only a
/// successful verification does.
pub proof fn lemma_counter_untouched_by_writes(
    s: StateModel,
    caller: Address,
    d: DeviceId,
    owner: Address,
    new_score: u64,
)
    ensures
        spec_register_post(s, caller, d, owner).total == s.total,
        spec_update_post(s, caller, d, new_score).total == s.total,
{
}

/// LAW (replay): after a successful verification, resubmitting the
/// identical payload for the same device is rejected and changes nothing —
/// in particular the counter stays put.
pub proof fn lemma_replay_rejected(s: StateModel, d: DeviceId, p: Seq<u8>)
    requires
        spec_verify_result(s, d, p) == Ok::<bool, ContractError>(true),
    ensures
        spec_verify_result(spec_verify_post(s, d, p), d, p) == Ok::<bool, ContractError>(false),
        spec_verify_post(spec_verify_post(s, d, p), d, p) == spec_verify_post(s, d, p),
{
    let s2 = spec_verify_post(s, d, p);
    assert(nonce_of(s2, d) == payload_nonce(p));
    assert(registered(s2, d) && trust_score_of(s2, d) > 0);
}

/// LAW (idempotent registration): registering a device to an owner twice
/// leaves the state that registering it once leaves.
pub proof fn lemma_register_idempotent(s: StateModel, caller: Address, d: DeviceId, owner: Address)
    ensures
        spec_register_post(spec_register_post(s, caller, d, owner), caller, d, owner)
            == spec_register_post(s, caller, d, owner),
{
    let s1 = spec_register_post(s, caller, d, owner);
    if spec_register_result(s, caller, d, owner) is Ok {
        assert(s1.owners.insert(d, owner) =~= s1.owners);
        assert(spec_register_post(s1, caller, d, owner) =~= s1);
    }
}

/// LAW (authorization): a call from any identity other than the relayer
/// fails with `Unauthorized` and leaves the state untouched.
pub proof fn lemma_non_relayer_rejected(
    s: StateModel,
    caller: Address,
    d: DeviceId,
    owner: Address,
    new_score: u64,
)
    requires
        caller != s.relayer,
    ensures
        spec_register_result(s, caller, d, owner) == Err::<(), ContractError>(
            ContractError::Unauthorized,
        ),
        spec_register_post(s, caller, d, owner) == s,
        spec_update_result(s, caller, d, new_score) == Err::<(), ContractError>(
            ContractError::Unauthorized,
        ),
        spec_update_post(s, caller, d, new_score) == s,
{
}

/// LAW (nonce strictly increasing): a successful verification strictly
/// raises the device's committed nonce.
pub proof fn lemma_nonce_increases(s: StateModel, d: DeviceId, p: Seq<u8>)
    requires
        spec_verify_result(s, d, p) == Ok::<bool, ContractError>(true),
    ensures
        nonce_of(spec_verify_post(s, d, p), d) > nonce_of(s, d),
{
}

/// The attestation verification ledger.
pub struct CertIDVerifier {
    relayer: Address,
    manufacturers: Vec<ManufacturerRecord>,
    owners: Table<Address>,
    scores: Table<u64>,
    nonces: Table<u64>,
    last_verified: Table<u64>,
    total: u64,
}

impl View for CertIDVerifier {
    type V = StateModel;

    closed spec fn view(&self) -> StateModel {
        StateModel {
            relayer: self.relayer,
            manufacturers: registry_map(self.manufacturers@),
            owners: self.owners@,
            scores: self.scores@,
            nonces: self.nonces@,
            last_verified: self.last_verified@,
            total: self.total,
        }
    }
}

impl CertIDVerifier {
    /// Deploys the ledger with the relayer identity and the manufacturer
    /// key registry, both fixed for its lifetime.
    pub fn new(relayer: Address, manufacturers: Vec<ManufacturerRecord>) -> (s: Self)
        requires
            forall|i: int|
                0 <= i < manufacturers@.len() ==> (#[trigger] manufacturers@[i]).wf(),
        ensures
            s@.relayer == relayer,
            s@.manufacturers == registry_map(manufacturers@),
            s@.owners == Map::<DeviceId, Address>::empty(),
            s@.scores == Map::<DeviceId, u64>::empty(),
            s@.nonces == Map::<DeviceId, u64>::empty(),
            s@.last_verified == Map::<DeviceId, u64>::empty(),
            s@.total == 0,
            state_inv(s@),
    {
        let s = CertIDVerifier {
            relayer,
            manufacturers,
            owners: Table::new(),
            scores: Table::new(),
            nonces: Table::new(),
            last_verified: Table::new(),
            total: 0,
        };
        proof {
            assert forall|id: u32| #[trigger]
                s@.manufacturers.contains_key(id) implies s@.manufacturers[id].key.len() == 32
                && s@.manufacturers[id].measurement.len() == 32 by {
                lemma_registry_record_wf(s.manufacturers@, id);
            }
        }
        s
    }

    /// Registers (or re-registers) a device to an owner.  Relayer-only;
    /// idempotent; an already-registered device may be re-owned.
    pub fn register_device(&mut self, caller: Address, device_id: DeviceId, owner: Address) -> (r:
        Result<(), ContractError>)
        requires
            state_inv(old(self)@),
        ensures
            state_inv(final(self)@),
            r == spec_register_result(old(self)@, caller, device_id, owner),
            final(self)@ == spec_register_post(old(self)@, caller, device_id, owner),
            caller != old(self)@.relayer ==> r == Err::<(), ContractError>(
                ContractError::Unauthorized,
            ) && final(self)@ == old(self)@,
            final(self)@.total == old(self)@.total,
    {
        if !(caller == self.relayer) {
            return Err(ContractError::Unauthorized);
        }
        if owner.is_zero() {
            return Err(ContractError::InvalidOwner);
        }
        self.owners.set(device_id, owner);
        Ok(())
    }

    /// Sets the trust score of a device.  Relayer-only; a score above 100
    /// is rejected with no state change; scoring an unregistered device is
    /// permitted and simply creates the row.
    pub fn update_trust_score(&mut self, caller: Address, device_id: DeviceId, new_score: u64) -> (
        r: Result<(), ContractError>)
        requires
            state_inv(old(self)@),
        ensures
            state_inv(final(self)@),
            r == spec_update_result(old(self)@, caller, device_id, new_score),
            final(self)@ == spec_update_post(old(self)@, caller, device_id, new_score),
            caller != old(self)@.relayer ==> r == Err::<(), ContractError>(
                ContractError::Unauthorized,
            ) && final(self)@ == old(self)@,
            r is Err ==> final(self)@ == old(self)@,
            final(self)@.total == old(self)@.total,
    {
        if !(caller == self.relayer) {
            return Err(ContractError::Unauthorized);
        }
        if new_score > 100 {
            return Err(ContractError::InvalidScore);
        }
        self.scores.set(device_id, new_score);
        Ok(())
    }

    /// Verifies a TEE attestation for a device and, only on success,
    /// commits the nonce update and the counter increment in one step.
    pub fn verify_tee_attestation(&mut self, device_id: DeviceId, attestation_data: Vec<u8>) -> (r:
        Result<bool, ContractError>)
        requires
            state_inv(old(self)@),
            old(self)@.total < u64::MAX,
        ensures
            state_inv(final(self)@),
            r == spec_verify_result(old(self)@, device_id, attestation_data@),
            final(self)@ == spec_verify_post(old(self)@, device_id, attestation_data@),
            r == Ok::<bool, ContractError>(true) ==> final(self)@.total == old(self)@.total + 1,
            r != Ok::<bool, ContractError>(true) ==> final(self)@ == old(self)@,
    {
        // Registration and trust gate: all reads, no writes.
        let owner_ok = match self.owners.get(device_id) {
            Some(o) => !o.is_zero(),
            None => false,
        };
        let score = match self.scores.get(device_id) {
            Some(v) => v,
            None => 0,
        };
        if !owner_ok || score == 0 {
            return Ok(false);
        }
        // Payload decoding: a failure is a caller-input defect, not policy.
        let att = match decode_attestation(&attestation_data) {
            Some(a) => a,
            None => {
                return Err(ContractError::MalformedAttestation);
            },
        };
        // Replay protection: the nonce must strictly increase.
        let stored_nonce = match self.nonces.get(device_id) {
            Some(n) => n,
            None => 0,
        };
        if att.nonce <= stored_nonce {
            return Ok(false);
        }
        // Signature and measurement policy under the manufacturer's key.
        let verdict = match find_manufacturer(&self.manufacturers, att.manufacturer_id) {
            Some(rec) => {
                proof {
                    assert(self@.manufacturers.contains_key(att.manufacturer_id));
                }
                let tag = attestation_tag(&rec.key, device_id, att.nonce, &att.measurement);
                let sig_good = bytes_eq(&att.signature, &tag);
                let meas_good = bytes_eq(&att.measurement, &rec.measurement);
                sig_good && meas_good
            },
            None => false,
        };
        if !verdict {
            return Ok(false);
        }
        // Commit: nonce, last-verified mark, and counter move together.
        let new_total = self.total + 1;
        self.nonces.set(device_id, att.nonce);
        self.last_verified.set(device_id, new_total);
        self.total = new_total;
        Ok(true)
    }

    /// The trust score of a device; zero when unknown.
    pub fn get_device_trust(&self, device_id: DeviceId) -> (r: u64)
        ensures
            r == trust_score_of(self@, device_id),
    {
        match self.scores.get(device_id) {
            Some(v) => v,
            None => 0,
        }
    }

    /// The owner of a device; the zero address when unregistered.
    pub fn get_device_owner(&self, device_id: DeviceId) -> (r: Address)
        ensures
            r == owner_of(self@, device_id),
    {
        match self.owners.get(device_id) {
            Some(o) => o,
            None => Address::zero(),
        }
    }

    /// The last committed nonce of a device; zero before any success.
    pub fn get_device_nonce(&self, device_id: DeviceId) -> (r: u64)
        ensures
            r == nonce_of(self@, device_id),
    {
        match self.nonces.get(device_id) {
            Some(n) => n,
            None => 0,
        }
    }

    /// The counter value at the device's last successful verification.
    pub fn get_last_verified_at(&self, device_id: DeviceId) -> (r: u64)
        ensures
            r == last_verified_of(self@, device_id),
    {
        match self.last_verified.get(device_id) {
            Some(n) => n,
            None => 0,
        }
    }

    /// The number of successful verifications since deployment.
    pub fn get_total_verifications(&self) -> (r: u64)
        ensures
            r == self@.total,
    {
        self.total
    }
}

} // verus!

