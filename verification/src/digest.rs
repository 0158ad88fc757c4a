//! Request numbers and payload hashes.

use crate::contract::AnchorKitContract;
use crate::data::{Address, Bytes};
use crate::env::{Env, State};
use crate::types::{RequestId, RequestIdView};
use vstd::arithmetic::div_mod::{lemma_div_basics, lemma_div_denominator};
use vstd::prelude::*;

verus! {

/// The longest message that is hashed, in bytes.
pub const MAX_HASH_INPUT: usize = 1_048_576;

/// The SHA-256 digest of a message.
pub uninterp spec fn sha256_digest(message: Seq<u8>) -> Seq<u8>;

/// Calls `soroban_sdk`'s `Crypto::sha256` in an environment of its own, on a
/// copy of the message made by `Bytes::from_slice`. The claim is that the
/// digest depends on the message alone. A message up to [`MAX_HASH_INPUT`]
/// bytes stays within the budget of a fresh environment.
#[verifier::external_body]
fn sha256(message: &Bytes) -> (r: [u8; 32])
    requires
        message@.len() <= MAX_HASH_INPUT,
    ensures
        r@ == sha256_digest(message@),
{
    let env = soroban_sdk::Env::default();
    let copy = soroban_sdk::Bytes::from_slice(&env, message);
    env.crypto().sha256(&copy).to_array()
}

/// The lowest `width` bytes of a number, the most significant first.
pub open spec fn big_endian(n: nat, width: nat) -> Seq<u8>
    decreases width,
{
    if width == 0 {
        Seq::empty()
    } else {
        big_endian(n / 256, (width - 1) as nat).push((n % 256) as u8)
    }
}

/// The number whose big-endian bytes are given.
pub open spec fn from_big_endian(bytes: Seq<u8>) -> nat
    decreases bytes.len(),
{
    if bytes.len() == 0 {
        0
    } else {
        256 * from_big_endian(bytes.drop_last()) + bytes.last() as nat
    }
}

/// How many numbers fit in `width` bytes.
pub open spec fn byte_capacity(width: nat) -> nat
    decreases width,
{
    if width == 0 {
        1
    } else {
        256 * byte_capacity((width - 1) as nat)
    }
}

/// Reading the big-endian bytes of a number that fits gives the number back.
pub proof fn big_endian_round_trip(n: nat, width: nat)
    requires
        n < byte_capacity(width),
    ensures
        big_endian(n, width).len() == width,
        from_big_endian(big_endian(n, width)) == n,
    decreases width,
{
    if width > 0 {
        big_endian_round_trip(n / 256, (width - 1) as nat);
        assert(big_endian(n, width).drop_last() =~= big_endian(n / 256, (width - 1) as nat));
    }
}

/// What a request number is derived from: the ledger's time in eight bytes
/// and its sequence number in four.
pub open spec fn request_preimage(timestamp: u64, sequence: u32) -> Seq<u8> {
    big_endian(timestamp as nat, 8) + big_endian(sequence as nat, 4)
}

/// The request number made of a digest: its first sixteen bytes.
pub open spec fn request_id_of(digest: Seq<u8>, timestamp: u64) -> RequestIdView {
    RequestIdView { id: digest.take(16), created_at: timestamp }
}

/// Different ledgers derive their request numbers from different bytes.
pub proof fn request_preimages_differ(
    timestamp: u64,
    sequence: u32,
    other_timestamp: u64,
    other_sequence: u32,
)
    requires
        request_preimage(timestamp, sequence) == request_preimage(other_timestamp, other_sequence),
    ensures
        timestamp == other_timestamp,
        sequence == other_sequence,
{
    reveal_with_fuel(byte_capacity, 9);
    big_endian_round_trip(timestamp as nat, 8);
    big_endian_round_trip(sequence as nat, 4);
    big_endian_round_trip(other_timestamp as nat, 8);
    big_endian_round_trip(other_sequence as nat, 4);
    let a = request_preimage(timestamp, sequence);
    let b = request_preimage(other_timestamp, other_sequence);
    assert(a.take(8) =~= big_endian(timestamp as nat, 8));
    assert(b.take(8) =~= big_endian(other_timestamp as nat, 8));
    assert(a.skip(8) =~= big_endian(sequence as nat, 4));
    assert(b.skip(8) =~= big_endian(other_sequence as nat, 4));
}

/// What a payload hash is derived from: the subject, the time in eight bytes,
/// and the data.
pub open spec fn payload_preimage(subject: Seq<u8>, timestamp: u64, data: Seq<u8>) -> Seq<u8> {
    subject + big_endian(timestamp as nat, 8) + data
}

/// For subjects of one length, different payloads are hashed from different
/// bytes.
pub proof fn payload_preimages_differ(
    subject: Seq<u8>,
    timestamp: u64,
    data: Seq<u8>,
    other_subject: Seq<u8>,
    other_timestamp: u64,
    other_data: Seq<u8>,
)
    requires
        subject.len() == other_subject.len(),
        payload_preimage(subject, timestamp, data) == payload_preimage(
            other_subject,
            other_timestamp,
            other_data,
        ),
    ensures
        subject == other_subject,
        timestamp == other_timestamp,
        data == other_data,
{
    reveal_with_fuel(byte_capacity, 9);
    big_endian_round_trip(timestamp as nat, 8);
    big_endian_round_trip(other_timestamp as nat, 8);
    let n = subject.len() as int;
    let a = payload_preimage(subject, timestamp, data);
    let b = payload_preimage(other_subject, other_timestamp, other_data);
    assert(a.take(n) =~= subject);
    assert(b.take(n) =~= other_subject);
    assert(a.subrange(n, n + 8) =~= big_endian(timestamp as nat, 8));
    assert(b.subrange(n, n + 8) =~= big_endian(other_timestamp as nat, 8));
    assert(a.skip(n + 8) =~= data);
    assert(b.skip(n + 8) =~= other_data);
}

impl State {
    /// The request number of the current ledger.
    pub open spec fn request_id(self) -> RequestIdView {
        request_id_of(
            sha256_digest(request_preimage(self.now(), self.ledger.sequence)),
            self.now(),
        )
    }
}

/// Calls in one ledger get one request number, whatever else differs.
pub proof fn request_id_is_deterministic(s: State, t: State)
    requires
        s.ledger == t.ledger,
    ensures
        s.request_id() == t.request_id(),
{
}

/// Appends the lowest `width` bytes of a number, the most significant first.
fn push_big_endian(out: &mut Bytes, n: u64, width: usize)
    ensures
        final(out)@ == old(out)@ + big_endian(n as nat, width as nat),
    decreases width,
{
    if width > 0 {
        push_big_endian(out, n / 256, width - 1);
        let ghost front = out@;
        out.push((n % 256) as u8);
        assert(out@ =~= old(out)@ + big_endian(n as nat, width as nat));
    } else {
        assert(out@ =~= old(out)@ + big_endian(n as nat, width as nat));
    }
}

impl AnchorKitContract {
    /// The bytes from which the request number of a ledger is derived.
    pub fn request_id_preimage(timestamp: u64, sequence: u32) -> (r: Bytes)
        ensures
            r@ == request_preimage(timestamp, sequence),
    {
        let mut input: Bytes = Vec::new();
        push_big_endian(&mut input, timestamp, 8);
        push_big_endian(&mut input, sequence as u64, 4);
        assert(input@ =~= request_preimage(timestamp, sequence));
        input
    }

    /// The request number made of a digest at a time.
    pub fn request_id_from_digest(digest: &[u8; 32], timestamp: u64) -> (r: RequestId)
        ensures
            r@ == request_id_of(digest@, timestamp),
    {
        let mut id: Bytes = Vec::new();
        let mut i: usize = 0;
        while i < 16
            invariant
                i <= 16,
                id@ == digest@.take(i as int),
            decreases 16 - i,
        {
            id.push(digest[i]);
            assert(id@ =~= digest@.take(i + 1));
            i = i + 1;
        }
        RequestId { id, created_at: timestamp }
    }

    /// The request number of the current ledger: the first sixteen bytes of
    /// the SHA-256 digest of its time and sequence number.
    pub fn generate_request_id(env: &Env) -> (r: RequestId)
        ensures
            r@ == env@.request_id(),
            r@.id.len() == 16,
    {
        let timestamp: u64 = env.ledger.timestamp;
        let sequence: u32 = env.ledger.sequence;
        proof {
            reveal_with_fuel(byte_capacity, 9);
            big_endian_round_trip(timestamp as nat, 8);
            big_endian_round_trip(sequence as nat, 4);
        }
        let input = Self::request_id_preimage(timestamp, sequence);
        let digest = sha256(&input);
        Self::request_id_from_digest(&digest, timestamp)
    }

    /// The bytes from which a payload hash is derived.
    pub fn payload_hash_preimage(subject: &Address, timestamp: u64, data: &Bytes) -> (r: Bytes)
        ensures
            r@ == payload_preimage(subject@, timestamp, data@),
    {
        let mut input: Bytes = Vec::new();
        append(&mut input, &subject.strkey);
        push_big_endian(&mut input, timestamp, 8);
        append(&mut input, data);
        assert(input@ =~= payload_preimage(subject@, timestamp, data@));
        input
    }

    /// The SHA-256 digest of an attestation payload: subject, time, data.
    pub fn compute_payload_hash(
        _env: &Env,
        subject: Address,
        timestamp: u64,
        data: Bytes,
    ) -> (r: [u8; 32])
        requires
            subject@.len() + 8 + data@.len() <= MAX_HASH_INPUT,
        ensures
            r@ == sha256_digest(payload_preimage(subject@, timestamp, data@)),
    {
        proof {
            reveal_with_fuel(byte_capacity, 9);
            big_endian_round_trip(timestamp as nat, 8);
        }
        let input = Self::payload_hash_preimage(&subject, timestamp, &data);
        sha256(&input)
    }
}

/// Appends bytes.
fn append(out: &mut Bytes, bytes: &Bytes)
    ensures
        final(out)@ == old(out)@ + bytes@,
{
    out.extend_from_slice(bytes.as_slice());
    assert(out@ =~= old(out)@ + bytes@);
}

/// The big-endian bytes of a number are its digits to the base 256, the highest first.
pub proof fn big_endian_bytes_are_digits(n: nat, width: nat, i: int)
    requires
        0 <= i < width,
    ensures
        big_endian(n, width).len() == width,
        big_endian(n, width)[i] == (n / byte_capacity((width - 1 - i) as nat)) % 256,
        byte_capacity(0) == 1,
        byte_capacity((i + 1) as nat) == 256 * byte_capacity(i as nat),
    decreases width,
{
    let rest = (width - 1) as nat;
    if i < rest {
        big_endian_bytes_are_digits(n / 256, rest, i);
        let k = (rest - 1 - i) as nat;
        capacity_is_positive(k);
        assert((n / 256) / byte_capacity(k) == n / (256 * byte_capacity(k))) by {
            lemma_div_denominator(n as int, 256, byte_capacity(k) as int);
        }
    } else {
        big_endian_has_its_width(n / 256, rest);
        assert(n / 1 == n) by {
            lemma_div_basics(n as int);
        }
    }
}

proof fn big_endian_has_its_width(n: nat, width: nat)
    ensures
        big_endian(n, width).len() == width,
    decreases width,
{
    if width > 0 {
        big_endian_has_its_width(n / 256, (width - 1) as nat);
    }
}

proof fn capacity_is_positive(width: nat)
    ensures
        byte_capacity(width) > 0,
    decreases width,
{
    if width > 0 {
        capacity_is_positive((width - 1) as nat);
    }
}

/// A request number is derived from twelve bytes: the time in the first eight and the
/// sequence number in the last four.
pub proof fn request_preimage_is_exact(timestamp: u64, sequence: u32)
    ensures
        ({
            let bytes = request_preimage(timestamp, sequence);
            &&& bytes.len() == 12
            &&& from_big_endian(bytes.take(8)) == timestamp
            &&& from_big_endian(bytes.skip(8)) == sequence
            &&& bytes.take(8) == big_endian(timestamp as nat, 8)
            &&& bytes.skip(8) == big_endian(sequence as nat, 4)
        }),
{
    reveal_with_fuel(byte_capacity, 9);
    big_endian_round_trip(timestamp as nat, 8);
    big_endian_round_trip(sequence as nat, 4);
    let bytes = request_preimage(timestamp, sequence);
    assert(bytes.take(8) =~= big_endian(timestamp as nat, 8));
    assert(bytes.skip(8) =~= big_endian(sequence as nat, 4));
}

/// A payload hash is derived from the subject, eight bytes of the time, and the data,
/// all of them and in this order.
pub proof fn payload_preimage_is_exact(subject: Seq<u8>, timestamp: u64, data: Seq<u8>)
    ensures
        ({
            let bytes = payload_preimage(subject, timestamp, data);
            let n = subject.len() as int;
            &&& bytes.len() == n + 8 + data.len()
            &&& bytes.take(n) == subject
            &&& from_big_endian(bytes.subrange(n, n + 8)) == timestamp
            &&& bytes.subrange(n, n + 8) == big_endian(timestamp as nat, 8)
            &&& bytes.skip(n + 8) == data
        }),
{
    reveal_with_fuel(byte_capacity, 9);
    big_endian_round_trip(timestamp as nat, 8);
    let bytes = payload_preimage(subject, timestamp, data);
    let n = subject.len() as int;
    assert(bytes.take(n) =~= subject);
    assert(bytes.subrange(n, n + 8) =~= big_endian(timestamp as nat, 8));
    assert(bytes.skip(n + 8) =~= data);
}

/// A request number is the first sixteen bytes of a digest, dated with the time; that
/// of a call is made of the digest of its ledger's time and sequence number.
pub proof fn request_id_is_exact(s: State, digest: Seq<u8>, timestamp: u64)
    requires
        digest.len() >= 16,
    ensures
        ({
            let request = request_id_of(digest, timestamp);
            &&& request.id.len() == 16
            &&& forall|i: int| 0 <= i < 16 ==> #[trigger] request.id[i] == digest[i]
            &&& request.created_at == timestamp
            &&& s.request_id() == request_id_of(
                sha256_digest(request_preimage(s.ledger.timestamp, s.ledger.sequence)),
                s.ledger.timestamp,
            )
        }),
{
}

} // verus!
