//! Key derivation and cipher engine.
//!
//! A dump's protected section is keyed by per-dump material derived from
//! two externally supplied 80-byte retail master keys: an HMAC-SHA256
//! based deterministic byte generator stretches a prepared seed into 48
//! bytes of AES key, AES IV and HMAC key.  The HMAC and AES primitives
//! themselves are outside calls; everything around them is verified.

use vstd::prelude::*;
use crate::rc::CodecError;
use hmac::Mac;
use aes::cipher::KeyIvInit;
use aes::cipher::StreamCipher;
use rand::RngCore;

verus! {

/// The 32-byte HMAC-SHA256 of `msg` under `key`; a function of its
/// arguments alone, computed by an outside crate.
pub uninterp spec fn hmac_sha256_of(key: Seq<u8>, msg: Seq<u8>) -> Seq<u8>;

/// The AES-128-CTR transform of `data` under `key` and `iv` (big-endian
/// block counter); a function of its arguments alone, with the length of
/// `data`.
pub uninterp spec fn aes128_ctr_of(key: Seq<u8>, iv: Seq<u8>, data: Seq<u8>) -> Seq<u8>;

/// Relies on `hmac::Hmac<sha2::Sha256>` (`new_from_slice`, `update`,
/// `finalize`): the 32-byte HMAC-SHA256 tag of `msg` under `key`.
/// HMAC accepts keys of any length, so `new_from_slice` cannot fail.
#[verifier::external_body]
pub(crate) fn hmac_sha256(key: &[u8], msg: &[u8]) -> (r: Vec<u8>)
    ensures
        r@ == hmac_sha256_of(key@, msg@),
        r@.len() == 32,
{
    let mut mac = <hmac::Hmac<sha2::Sha256>>::new_from_slice(key).unwrap();
    mac.update(msg);
    mac.finalize().into_bytes().to_vec()
}

/// Relies on `ctr::Ctr128BE<aes::Aes128>` (`new_from_slices`,
/// `apply_keystream`): XORs `data` with the AES-128-CTR keystream.  The
/// key and IV lengths are checked by the caller, so construction cannot
/// fail, and the output has the length of the input.
#[verifier::external_body]
pub(crate) fn aes128_ctr_crypt(key: &[u8], iv: &[u8], data: &[u8]) -> (r: Vec<u8>)
    requires
        key@.len() == 16,
        iv@.len() == 16,
    ensures
        r@ == aes128_ctr_of(key@, iv@, data@),
        r@.len() == data@.len(),
{
    let mut buf = data.to_vec();
    let mut cipher = <ctr::Ctr128BE<aes::Aes128>>::new_from_slices(key, iv).unwrap();
    cipher.apply_keystream(&mut buf);
    buf
}

/// Relies on `rand::rngs::ThreadRng` through `rand::RngCore::fill_bytes`:
/// fills the first seven bytes of a fresh 10-byte UUID with random data.
/// Nothing holds of those bytes; the last three are always zero.
#[verifier::external_body]
pub fn generate_random_uuid() -> (r: Vec<u8>)
    ensures
        r@.len() == 10,
        r@[7] == 0,
        r@[8] == 0,
        r@[9] == 0,
{
    let mut uuid = vec![0u8; 10];
    rand::thread_rng().fill_bytes(&mut uuid[..7]);
    uuid
}

/// A 16-bit counter as its two big-endian bytes.
pub open spec fn spec_be16(i: u16) -> Seq<u8> {
    seq![(i >> 8) as u8, (i & 0xff) as u8]
}

/// One block of the deterministic byte generator: the HMAC of the
/// big-endian step counter followed by the seed.  Written as a
/// 32-element sequence so that block lengths are known by definition.
pub open spec fn spec_drbg_block(hmac_key: Seq<u8>, seed: Seq<u8>, i: u16) -> Seq<u8> {
    Seq::new(32, |j: int| hmac_sha256_of(hmac_key, spec_be16(i) + seed)[j])
}

/// The concatenation of the first `n` generator blocks.
pub open spec fn spec_drbg_stream(hmac_key: Seq<u8>, seed: Seq<u8>, n: nat) -> Seq<u8>
    decreases n,
{
    if n == 0 {
        Seq::<u8>::empty()
    } else {
        spec_drbg_stream(hmac_key, seed, (n - 1) as nat) + spec_drbg_block(
            hmac_key,
            seed,
            (n - 1) as u16,
        )
    }
}

/// HMAC-SHA256 based deterministic byte generator: each step hashes a
/// big-endian 16-bit counter followed by a fixed seed.
pub struct DrbgContext {
    pub hmac_key: Vec<u8>,
    pub iteration: u16,
    pub seed: Vec<u8>,
}

/// The longest seed the generator accepts.
pub const DRBG_MAX_SEED_SIZE: usize = 480;

impl DrbgContext {
    /// Rejects exactly the seeds longer than `DRBG_MAX_SEED_SIZE`.
    pub fn new(hmac_key: &[u8], seed: &[u8]) -> (r: Result<Self, CodecError>)
        ensures
            r is Ok <==> seed@.len() <= DRBG_MAX_SEED_SIZE,
            r is Ok ==> r.unwrap().hmac_key@ == hmac_key@ && r.unwrap().seed@ == seed@
                && r.unwrap().iteration == 0,
            r is Err ==> r == Result::<Self, CodecError>::Err(CodecError::InvalidSize),
    {
        if seed.len() > DRBG_MAX_SEED_SIZE {
            return Err(CodecError::InvalidSize);
        }
        let mut key_copy: Vec<u8> = Vec::new();
        key_copy.extend_from_slice(hmac_key);
        let mut seed_copy: Vec<u8> = Vec::new();
        seed_copy.extend_from_slice(seed);
        Ok(DrbgContext { hmac_key: key_copy, iteration: 0, seed: seed_copy })
    }

    /// Produces the next 32-byte block and advances the counter.
    pub fn step(&mut self) -> (mac: Vec<u8>)
        requires
            old(self).iteration < 0xffff,
        ensures
            mac@ == spec_drbg_block(old(self).hmac_key@, old(self).seed@, old(self).iteration),
            mac@.len() == 32,
            final(self).hmac_key@ == old(self).hmac_key@,
            final(self).seed@ == old(self).seed@,
            final(self).iteration == old(self).iteration + 1,
    {
        let i = self.iteration;
        let mut msg: Vec<u8> = Vec::new();
        msg.push((i >> 8) as u8);
        msg.push((i & 0xff) as u8);
        msg.extend_from_slice(self.seed.as_slice());
        proof {
            assert(msg@ =~= spec_be16(i) + self.seed@);
        }
        self.iteration = i + 1;
        let mac = hmac_sha256(self.hmac_key.as_slice(), msg.as_slice());
        proof {
            assert(mac@ =~= spec_drbg_block(self.hmac_key@, self.seed@, i));
        }
        mac
    }

    /// Stretches `seed` into `out_len` bytes: whole generator blocks,
    /// truncated to the requested length.
    pub fn gen_bytes(hmac_key: &[u8], seed: &[u8], out_len: usize) -> (r: Vec<u8>)
        requires
            seed@.len() <= DRBG_MAX_SEED_SIZE,
            out_len <= 32 * 0xffff,
        ensures
            r@.len() == out_len,
            r@ == spec_drbg_stream(hmac_key@, seed@, ((out_len + 31) / 32) as nat).take(
                out_len as int,
            ),
    {
        let ctx = Self::new(hmac_key, seed);
        let mut ctx = match ctx {
            Ok(c) => c,
            Err(_) => {
                proof {
                    assert(false);
                }
                DrbgContext { hmac_key: Vec::new(), iteration: 0, seed: Vec::new() }
            },
        };
        let mut out: Vec<u8> = Vec::new();
        while out.len() < out_len
            invariant
                out_len <= 32 * 0xffff,
                ctx.hmac_key@ == hmac_key@,
                ctx.seed@ == seed@,
                out@.len() == 32 * ctx.iteration || (out@.len() == out_len && ctx.iteration * 32
                    >= out_len),
                out@.len() <= out_len,
                32 * ctx.iteration <= out_len + 31,
                out@ == spec_drbg_stream(hmac_key@, seed@, ctx.iteration as nat).take(
                    out@.len() as int,
                ),
            decreases out_len - out.len(),
        {
            let block = ctx.step();
            let remaining = out_len - out.len();
            let step_size = if remaining < 32 {
                remaining
            } else {
                32
            };
            let mut j: usize = 0;
            let ghost out_before = out@;
            while j < step_size
                invariant
                    j <= step_size,
                    step_size <= 32,
                    block@.len() == 32,
                    out@ == out_before + block@.take(j as int),
                decreases step_size - j,
            {
                out.push(block[j]);
                proof {
                    assert(out@ =~= out_before + block@.take(j + 1));
                }
                j = j + 1;
            }
            proof {
                let n_prev = (ctx.iteration - 1) as nat;
                let stream_prev = spec_drbg_stream(hmac_key@, seed@, n_prev);
                let stream_now = spec_drbg_stream(hmac_key@, seed@, ctx.iteration as nat);
                assert(stream_now == stream_prev + block@);
                assert(out_before == stream_prev.take(out_before.len() as int));
                assert(out_before.len() == 32 * n_prev);
                assert(stream_prev.len() >= out_before.len()) by {
                    lemma_drbg_stream_len(hmac_key@, seed@, n_prev);
                }
                assert(stream_prev.len() == 32 * n_prev) by {
                    lemma_drbg_stream_len(hmac_key@, seed@, n_prev);
                }
                assert(out@ =~= stream_now.take(out@.len() as int));
            }
        }
        proof {
            lemma_drbg_stream_len(hmac_key@, seed@, ((out_len + 31) / 32) as nat);
            lemma_drbg_stream_prefix(hmac_key@, seed@, ctx.iteration as nat, ((out_len + 31)
                / 32) as nat);
        }
        out
    }
}

/// One 80-byte retail master-key record, supplied externally.
pub struct RetailKey {
    pub hmac_key: Vec<u8>,
    pub phrase: Vec<u8>,
    pub reserved: u8,
    pub seed_size: u8,
    pub seed: Vec<u8>,
    pub xor_pad: Vec<u8>,
}

impl RetailKey {
    /// Field sizes of the fixed 80-byte layout, and a seed size no
    /// larger than the stored seed.
    pub open spec fn wf(&self) -> bool {
        &&& self.hmac_key@.len() == 16
        &&& self.phrase@.len() == 14
        &&& self.seed_size <= 16
        &&& self.seed@.len() == 16
        &&& self.xor_pad@.len() == 32
    }
}

impl RetailKey {
    /// Decodes one 80-byte record at `off`: HMAC key, 14-byte phrase,
    /// a reserved byte, the seed size, 16 seed bytes and the 32-byte
    /// XOR pad.  Rejects exactly a stored seed size over 16.
    pub fn parse(data: &[u8], off: usize) -> (r: Result<Self, CodecError>)
        requires
            off + 80 <= data@.len(),
        ensures
            r is Ok <==> data@[off + 31] <= 16,
            r is Err ==> r == Result::<Self, CodecError>::Err(CodecError::InvalidSize),
            r is Ok ==> {
                let k = r.unwrap();
                &&& k.wf()
                &&& k.hmac_key@ == data@.subrange(off as int, off + 16)
                &&& k.phrase@ == data@.subrange(off + 16, off + 30)
                &&& k.reserved == data@[off + 30]
                &&& k.seed_size == data@[off + 31]
                &&& k.seed@ == data@.subrange(off + 32, off + 48)
                &&& k.xor_pad@ == data@.subrange(off + 48, off + 80)
            },
    {
        let n: usize = data.len();
        let seed_size = data[off + 31];
        if seed_size > 16 {
            return Err(CodecError::InvalidSize);
        }
        Ok(
            RetailKey {
                hmac_key: crate::endian::read_bytes(data, off, 16),
                phrase: crate::endian::read_bytes(data, off + 16, 14),
                reserved: data[off + 30],
                seed_size,
                seed: crate::endian::read_bytes(data, off + 32, 16),
                xor_pad: crate::endian::read_bytes(data, off + 48, 32),
            },
        )
    }
}

/// The two retail master keys: one for the tag region, one for the data
/// region.
pub struct RetailKeySet {
    pub data_key: RetailKey,
    pub tag_key: RetailKey,
}

impl RetailKeySet {
    pub open spec fn wf(&self) -> bool {
        self.data_key.wf() && self.tag_key.wf()
    }

    /// Decodes the 160-byte key file: the data key record, then the
    /// tag key record.  Fails exactly on a short buffer or a malformed
    /// record.
    pub fn parse(data: &[u8]) -> (r: Result<Self, CodecError>)
        ensures
            r is Ok <==> data@.len() >= 160 && data@[31] <= 16 && data@[111] <= 16,
            r is Ok ==> r.unwrap().wf(),
    {
        if data.len() < 160 {
            return Err(CodecError::TruncatedDump);
        }
        let data_key = match RetailKey::parse(data, 0) {
            Ok(k) => k,
            Err(e) => {
                return Err(e);
            },
        };
        let tag_key = match RetailKey::parse(data, 80) {
            Ok(k) => k,
            Err(e) => {
                return Err(e);
            },
        };
        Ok(RetailKeySet { data_key, tag_key })
    }
}

/// Per-dump key material: AES key, AES IV and HMAC key, 16 bytes each.
pub struct DerivedKey {
    pub aes_key: Vec<u8>,
    pub aes_iv: Vec<u8>,
    pub hmac_key: Vec<u8>,
}

/// The derived keys for both retail keys of a set.
pub struct DerivedKeySet {
    pub data_key: DerivedKey,
    pub tag_key: DerivedKey,
}

/// Byte-wise XOR of two equal-length sequences.
pub open spec fn spec_xor_bytes(a: Seq<u8>, b: Seq<u8>) -> Seq<u8> {
    Seq::new(a.len(), |i: int| a[i] ^ b[i])
}

/// The prepared seed fed to the byte generator: the key's phrase, the
/// leading `16 - seedSize` bytes of the base seed, the key's own
/// `seedSize` seed bytes, bytes 16..32 of the base seed, and bytes
/// 32..64 of the base seed XORed with the key's pad.
pub open spec fn spec_prepared_seed(key: &RetailKey, base_seed: Seq<u8>) -> Seq<u8> {
    key.phrase@ + base_seed.subrange(0, 16 - key.seed_size as int) + key.seed@.subrange(
        0,
        key.seed_size as int,
    ) + base_seed.subrange(16, 32) + spec_xor_bytes(base_seed.subrange(32, 64), key.xor_pad@)
}

/// The 48 bytes of derived key material for one retail key.
pub open spec fn spec_derived_bytes(key: &RetailKey, base_seed: Seq<u8>) -> Seq<u8> {
    spec_drbg_stream(key.hmac_key@, spec_prepared_seed(key, base_seed), 2).take(48)
}

impl DerivedKey {
    /// Derives the per-dump AES key, AES IV and HMAC key from one retail
    /// key and the dump's 64-byte base seed.
    pub fn derive_from(key: &RetailKey, base_seed: &[u8]) -> (r: Self)
        requires
            key.wf(),
            base_seed@.len() == 64,
        ensures
            r.aes_key@ == spec_derived_bytes(key, base_seed@).subrange(0, 16),
            r.aes_iv@ == spec_derived_bytes(key, base_seed@).subrange(16, 32),
            r.hmac_key@ == spec_derived_bytes(key, base_seed@).subrange(32, 48),
            r.aes_key@.len() == 16,
            r.aes_iv@.len() == 16,
            r.hmac_key@.len() == 16,
    {
        let seed_size = key.seed_size as usize;
        let mut prepared: Vec<u8> = Vec::new();
        prepared.extend_from_slice(key.phrase.as_slice());
        prepared.extend_from_slice(&base_seed[0..16 - seed_size]);
        prepared.extend_from_slice(&key.seed.as_slice()[0..seed_size]);
        prepared.extend_from_slice(&base_seed[16..32]);
        let mut i: usize = 0;
        let ghost before_xor = prepared@;
        while i < 32
            invariant
                i <= 32,
                base_seed@.len() == 64,
                key.xor_pad@.len() == 32,
                prepared@ == before_xor + spec_xor_bytes(base_seed@.subrange(32, 64),
                    key.xor_pad@,
                ).take(i as int),
            decreases 32 - i,
        {
            prepared.push(base_seed[32 + i] ^ key.xor_pad[i]);
            proof {
                assert(prepared@ =~= before_xor + spec_xor_bytes(base_seed@.subrange(32, 64),
                    key.xor_pad@,
                ).take(i + 1));
            }
            i = i + 1;
        }
        proof {
            assert(prepared@ =~= spec_prepared_seed(key, base_seed@));
        }
        let stretched = DrbgContext::gen_bytes(key.hmac_key.as_slice(), prepared.as_slice(), 48);
        let mut aes_key: Vec<u8> = Vec::new();
        aes_key.extend_from_slice(&stretched.as_slice()[0..16]);
        let mut aes_iv: Vec<u8> = Vec::new();
        aes_iv.extend_from_slice(&stretched.as_slice()[16..32]);
        let mut hmac_key: Vec<u8> = Vec::new();
        hmac_key.extend_from_slice(&stretched.as_slice()[32..48]);
        proof {
            assert(stretched@ =~= spec_derived_bytes(key, base_seed@));
            assert(aes_key@ =~= spec_derived_bytes(key, base_seed@).subrange(0, 16));
            assert(aes_iv@ =~= spec_derived_bytes(key, base_seed@).subrange(16, 32));
            assert(hmac_key@ =~= spec_derived_bytes(key, base_seed@).subrange(32, 48));
        }
        DerivedKey { aes_key, aes_iv, hmac_key }
    }
}

impl DerivedKeySet {
    /// Runs the derivation once per retail key of the set.
    pub fn derive_from(key_set: &RetailKeySet, base_seed: &[u8]) -> (r: Self)
        requires
            key_set.wf(),
            base_seed@.len() == 64,
        ensures
            r.data_key.aes_key@ == spec_derived_bytes(&key_set.data_key, base_seed@).subrange(
                0,
                16,
            ),
            r.data_key.aes_iv@ == spec_derived_bytes(&key_set.data_key, base_seed@).subrange(
                16,
                32,
            ),
            r.data_key.hmac_key@ == spec_derived_bytes(&key_set.data_key, base_seed@).subrange(
                32,
                48,
            ),
            r.tag_key.aes_key@ == spec_derived_bytes(&key_set.tag_key, base_seed@).subrange(0, 16),
            r.tag_key.aes_iv@ == spec_derived_bytes(&key_set.tag_key, base_seed@).subrange(16, 32),
            r.tag_key.hmac_key@ == spec_derived_bytes(&key_set.tag_key, base_seed@).subrange(
                32,
                48,
            ),
            r.data_key.aes_key@.len() == 16,
            r.data_key.aes_iv@.len() == 16,
            r.data_key.hmac_key@.len() == 16,
            r.tag_key.aes_key@.len() == 16,
            r.tag_key.aes_iv@.len() == 16,
            r.tag_key.hmac_key@.len() == 16,
    {
        DerivedKeySet {
            data_key: DerivedKey::derive_from(&key_set.data_key, base_seed),
            tag_key: DerivedKey::derive_from(&key_set.tag_key, base_seed),
        }
    }
}

/// Key derivation is deterministic: the derived bytes are a function of
/// the retail key and the 64-byte base seed alone, so equal inputs give
/// equal key material.
pub proof fn lemma_key_derivation_deterministic(
    key_a: &RetailKey,
    base_a: Seq<u8>,
    key_b: &RetailKey,
    base_b: Seq<u8>,
)
    requires
        key_a.hmac_key@ == key_b.hmac_key@,
        key_a.phrase@ == key_b.phrase@,
        key_a.seed_size == key_b.seed_size,
        key_a.seed@ == key_b.seed@,
        key_a.xor_pad@ == key_b.xor_pad@,
        base_a == base_b,
    ensures
        spec_derived_bytes(key_a, base_a) == spec_derived_bytes(key_b, base_b),
{
    assert(spec_prepared_seed(key_a, base_a) == spec_prepared_seed(key_b, base_b));
}

/// Each generator block has 32 bytes, so `n` blocks have `32 * n`.
pub proof fn lemma_drbg_stream_len(hmac_key: Seq<u8>, seed: Seq<u8>, n: nat)
    ensures
        spec_drbg_stream(hmac_key, seed, n).len() == 32 * n,
    decreases n,
{
    if n > 0 {
        lemma_drbg_stream_len(hmac_key, seed, (n - 1) as nat);
    }
}

/// A shorter stream is a prefix of a longer one, so equal-length takes agree.
pub proof fn lemma_drbg_stream_prefix(hmac_key: Seq<u8>, seed: Seq<u8>, m: nat, n: nat)
    requires
        m <= n,
    ensures
        forall|k: int|
            0 <= k <= 32 * m ==> spec_drbg_stream(hmac_key, seed, m).take(k)
                =~= spec_drbg_stream(hmac_key, seed, n).take(k),
    decreases n,
{
    lemma_drbg_stream_len(hmac_key, seed, m);
    if m < n {
        lemma_drbg_stream_prefix(hmac_key, seed, m, (n - 1) as nat);
        lemma_drbg_stream_len(hmac_key, seed, (n - 1) as nat);
        assert forall|k: int| 0 <= k <= 32 * m implies spec_drbg_stream(hmac_key, seed, m).take(k)
            =~= spec_drbg_stream(hmac_key, seed, n).take(k) by {
            assert(spec_drbg_stream(hmac_key, seed, m).take(k) =~= spec_drbg_stream(
                hmac_key,
                seed,
                (n - 1) as nat,
            ).take(k));
        }
    }
}

} // verus!
