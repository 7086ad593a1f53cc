use vstd::prelude::*;

use crate::signing::{
    ed25519_accepts, pkcs8_accepted, sign_message, verify_signature, PublicKey, Signature,
    SIGNATURE_LEN,
};
use crate::types::{ConsensusError, ConsensusValue, NodeId, Timestamp};

verus! {

/// The fixed-point unit of intensity: this many units stand for 1.0.
pub const INTENSITY_ONE: u64 = 1_000_000_000_000;

/// Average intensity at which a value is agreed on (0.8).
pub const CONSENSUS_THRESHOLD: u64 = 800_000_000_000;

/// Intensity below which a pheromone is removed (0.01).
pub const MIN_PHEROMONE_INTENSITY: u64 = 10_000_000_000;

/// Intensity of a freshly emitted pheromone (1.0).
pub const INITIAL_PHEROMONE_INTENSITY: u64 = INTENSITY_ONE;

/// A signed, timestamped, decaying marker advocating one consensus value.
#[derive(Debug, Clone)]
pub struct Pheromone {
    pub timestamp: Timestamp,
    /// Fixed-point intensity, `INTENSITY_ONE` being 1.0.
    pub intensity: u64,
    pub source: NodeId,
    pub value: ConsensusValue,
    pub signature: Signature,
}

/// What a pheromone holds, as plain values.
pub struct PheromoneModel {
    pub timestamp: Timestamp,
    pub intensity: u64,
    pub source: NodeId,
    pub digest: Seq<u8>,
    pub signature: Seq<u8>,
}

impl View for Pheromone {
    type V = PheromoneModel;

    open spec fn view(&self) -> PheromoneModel {
        PheromoneModel {
            timestamp: self.timestamp,
            intensity: self.intensity,
            source: self.source,
            digest: self.value.hash@,
            signature: self.signature@,
        }
    }
}

/// The eight big-endian bytes of `x`.
pub open spec fn be_bytes_u64(x: u64) -> Seq<u8> {
    seq![
        (x >> 56u64) as u8,
        (x >> 48u64) as u8,
        (x >> 40u64) as u8,
        (x >> 32u64) as u8,
        (x >> 24u64) as u8,
        (x >> 16u64) as u8,
        (x >> 8u64) as u8,
        x as u8,
    ]
}

/// The four big-endian bytes of `x`.
pub open spec fn be_bytes_u32(x: u32) -> Seq<u8> {
    seq![(x >> 24u32) as u8, (x >> 16u32) as u8, (x >> 8u32) as u8, x as u8]
}

/// The signed message: digest, then big-endian timestamp, then big-endian
/// source, 44 bytes in all.
pub open spec fn canonical_message(digest: Seq<u8>, timestamp: u64, source: u32) -> Seq<u8> {
    digest + be_bytes_u64(timestamp) + be_bytes_u32(source)
}

/// A key made of zero bytes only (the empty key among them) stands for no
/// key: it yields a placeholder signature.
pub open spec fn is_unset_key(key: Seq<u8>) -> bool {
    forall|i: int| 0 <= i < key.len() ==> key[i] == 0
}

/// The intensity after evaporating at `rate`, the rate clamped to [0, 1].
pub open spec fn evaporated(intensity: u64, rate: u64) -> u64 {
    let r = if rate > INTENSITY_ONE { INTENSITY_ONE } else { rate };
    (intensity as int * (INTENSITY_ONE - r) / INTENSITY_ONE as int) as u64
}

/// Relies on `std::time::SystemTime::now` and `duration_since(UNIX_EPOCH)`:
/// whole seconds since the epoch, or nothing when the clock is before it.
#[verifier::external_body]
fn unix_time_now() -> (r: Option<u64>) {
    match std::time::SystemTime::now().duration_since(std::time::UNIX_EPOCH) {
        Ok(elapsed) => Some(elapsed.as_secs()),
        Err(_) => None,
    }
}

fn is_unset(key: &[u8]) -> (r: bool)
    ensures
        r == is_unset_key(key@),
{
    let mut i: usize = 0;
    while i < key.len()
        invariant
            i <= key@.len(),
            forall|j: int| 0 <= j < i ==> key@[j] == 0,
        decreases key@.len() - i,
    {
        if key[i] != 0 {
            return false;
        }
        i = i + 1;
    }
    true
}

impl Pheromone {
    /// Emit a pheromone for `value` from `source`, stamped with the current
    /// time and signed with `private_key`.
    pub fn new(value: ConsensusValue, source: NodeId, private_key: &[u8]) -> (r: Result<
        Self,
        ConsensusError,
    >)
        ensures
            r matches Ok(p) ==> {
                &&& p.value == value
                &&& p.source == source
                &&& p.intensity == INITIAL_PHEROMONE_INTENSITY
                &&& p.signature@.len() == SIGNATURE_LEN
                &&& is_unset_key(private_key@) ==> p.signature@ == Seq::new(
                    SIGNATURE_LEN as nat,
                    |i: int| 0u8,
                )
            },
            r matches Err(ConsensusError::Crypto(_)) <==> !is_unset_key(private_key@)
                && !pkcs8_accepted(private_key@) && !(r matches Err(ConsensusError::Internal(_))),
            r matches Err(e) ==> (e matches ConsensusError::Crypto(_)) || (e matches ConsensusError::Internal(_)),
    {
        match unix_time_now() {
            Some(timestamp) => Self::new_at(value, source, private_key, timestamp),
            None => Err(ConsensusError::Internal("system clock is before the Unix epoch".to_owned())),
        }
    }

    /// Emit a pheromone stamped with `timestamp`.
    pub fn new_at(
        value: ConsensusValue,
        source: NodeId,
        private_key: &[u8],
        timestamp: Timestamp,
    ) -> (r: Result<Self, ConsensusError>)
        ensures
            r is Ok <==> is_unset_key(private_key@) || pkcs8_accepted(private_key@),
            r matches Ok(p) ==> {
                &&& p.value == value
                &&& p.source == source
                &&& p.timestamp == timestamp
                &&& p.intensity == INITIAL_PHEROMONE_INTENSITY
                &&& p.signature@.len() == SIGNATURE_LEN
                &&& is_unset_key(private_key@) ==> p.signature@ == Seq::new(
                    SIGNATURE_LEN as nat,
                    |i: int| 0u8,
                )
            },
            r matches Err(e) ==> e matches ConsensusError::Crypto(_),
    {
        let message = Self::create_message(&value, timestamp, source);
        let signature = if is_unset(private_key) {
            let zeros: Vec<u8> = vec![0u8; SIGNATURE_LEN];
            assert(zeros@ =~= Seq::new(SIGNATURE_LEN as nat, |i: int| 0u8));
            zeros
        } else {
            match sign_message(message.as_slice(), private_key) {
                Ok(s) => s,
                Err(e) => {
                    return Err(ConsensusError::Crypto(e));
                },
            }
        };
        Ok(Pheromone {
            timestamp,
            intensity: INITIAL_PHEROMONE_INTENSITY,
            source,
            value,
            signature,
        })
    }

    /// Whether the signature is valid for this pheromone's canonical message
    /// under `public_key`.
    pub fn verify(&self, public_key: &PublicKey) -> (r: bool)
        ensures
            r == ed25519_accepts(
                public_key.bytes@,
                canonical_message(self.value.hash@, self.timestamp, self.source),
                self.signature@,
            ),
    {
        let message = Self::create_message(&self.value, self.timestamp, self.source);
        match verify_signature(message.as_slice(), &self.signature, public_key) {
            Ok(b) => b,
            Err(_) => false,
        }
    }

    /// Decay the intensity by `rate` (fixed-point, clamped to [0, 1]):
    /// `intensity * (1 - rate)`, rounded down.
    pub fn evaporate(&mut self, rate: u64)
        ensures
            final(self).intensity == evaporated(old(self).intensity, rate),
            final(self).intensity <= old(self).intensity,
            final(self).timestamp == old(self).timestamp,
            final(self).source == old(self).source,
            final(self).value == old(self).value,
            final(self).signature == old(self).signature,
    {
        let r: u64 = if rate > INTENSITY_ONE { INTENSITY_ONE } else { rate };
        let keep: u64 = INTENSITY_ONE - r;
        proof {
            assert(self.intensity as int * keep <= u64::MAX as int * u64::MAX as int) by (nonlinear_arith)
                requires
                    self.intensity <= u64::MAX,
                    keep <= u64::MAX,
            ;
        }
        let product: u128 = (self.intensity as u128) * (keep as u128);
        let next: u128 = product / (INTENSITY_ONE as u128);
        proof {
            assert(product <= self.intensity as int * INTENSITY_ONE) by (nonlinear_arith)
                requires
                    product == self.intensity as int * keep,
                    keep <= INTENSITY_ONE,
            ;
            assert(next <= self.intensity) by (nonlinear_arith)
                requires
                    product <= self.intensity as int * INTENSITY_ONE,
                    next as int == product as int / (INTENSITY_ONE as int),
            ;
        }
        self.intensity = next as u64;
    }

    /// A copy of this pheromone.
    pub fn duplicate(&self) -> (r: Self)
        ensures
            r@ == self@,
            r.value == self.value,
    {
        Pheromone {
            timestamp: self.timestamp,
            intensity: self.intensity,
            source: self.source,
            value: self.value,
            signature: self.signature.clone(),
        }
    }

    /// The current intensity.
    pub fn strength(&self) -> (r: u64)
        ensures
            r == self.intensity,
    {
        self.intensity
    }

    /// Whether the intensity reaches the consensus threshold.
    pub fn is_strong_enough(&self) -> (r: bool)
        ensures
            r == (self.intensity >= CONSENSUS_THRESHOLD),
    {
        self.intensity >= CONSENSUS_THRESHOLD
    }

    /// Whether the intensity has fallen below the removal floor.
    pub fn should_remove(&self) -> (r: bool)
        ensures
            r == (self.intensity < MIN_PHEROMONE_INTENSITY),
    {
        self.intensity < MIN_PHEROMONE_INTENSITY
    }

    /// The canonical message that is signed.
    pub fn create_message(value: &ConsensusValue, timestamp: Timestamp, source: NodeId) -> (r: Vec<
        u8,
    >)
        ensures
            r@ == canonical_message(value.hash@, timestamp, source),
            r@.len() == 44,
    {
        let mut message: Vec<u8> = Vec::new();
        let mut i: usize = 0;
        while i < 32
            invariant
                i <= 32,
                value.hash@.len() == 32,
                message@ == value.hash@.subrange(0, i as int),
            decreases 32 - i,
        {
            message.push(value.hash[i]);
            assert(message@ =~= value.hash@.subrange(0, i + 1));
            i = i + 1;
        }
        assert(value.hash@.subrange(0, 32) =~= value.hash@);
        message.push((timestamp >> 56u64) as u8);
        message.push((timestamp >> 48u64) as u8);
        message.push((timestamp >> 40u64) as u8);
        message.push((timestamp >> 32u64) as u8);
        message.push((timestamp >> 24u64) as u8);
        message.push((timestamp >> 16u64) as u8);
        message.push((timestamp >> 8u64) as u8);
        message.push(timestamp as u8);
        message.push((source >> 24u32) as u8);
        message.push((source >> 16u32) as u8);
        message.push((source >> 8u32) as u8);
        message.push(source as u8);
        assert(message@ =~= canonical_message(value.hash@, timestamp, source));
        message
    }
}

} // verus!
