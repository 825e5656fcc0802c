//! Binary dump codec.
//!
//! A raw hardware dump is 532 bytes in a fixed layout.  Reading one
//! regroups its three ciphertext sections into a single contiguous
//! block (`ConvertedFormat`), which the cipher engine then decrypts
//! into `PlainFormat`.  Every reinterpretation is an explicit, checked
//! decode: malformed input produces a typed error, never undefined
//! behaviour.

use vstd::prelude::*;
use crate::endian::{
    read_bytes,
    read_u16_be,
    read_u16_le,
    read_u32_be,
    read_u64_be,
    push_u16_le,
    push_u16_be,
    push_u32_be,
    push_u64_be,
    spec_u16_be,
    spec_u16_le,
    spec_u32_be,
    spec_u64_be,
};
use crate::ntag;
use crate::fmt;
use crate::date::Date;
use crate::rc::CodecError;
use crate::crypto::{
    aes128_ctr_of,
    aes128_ctr_crypt,
    hmac_sha256,
    hmac_sha256_of,
    spec_derived_bytes,
    DerivedKeySet,
    RetailKeySet,
};

verus! {

/// Size in bytes of a whole raw dump.
pub const RAW_FORMAT_SIZE: usize = 532;

/// Size in bytes of the contiguous ciphertext block.
pub const ENC_DATA_SIZE: usize = 392;

/// Size in bytes of the decrypted settings block.
pub const SETTINGS_SIZE: usize = 176;

/// Size in bytes of one application area.
pub const APP_AREA_SIZE: usize = 216;

/// Settings flag bit: the figurine was initialized by an owner.
pub const FLAG_INITIALIZED: u8 = 0x10;

/// Settings flag bit: an application area is in use.
pub const FLAG_APPLICATION_AREA_USED: u8 = 0x20;

/// The figurine's identity: character, variant, figure type, model and
/// series.
pub struct AmiiboId {
    pub game_character_id: u16,
    pub character_variant: u8,
    pub figure_type: u8,
    pub model_number: u16,
    pub series: u8,
    pub unk_0x2: u8,
}

impl AmiiboId {
    /// The eight bytes of the identity, in layout order.
    pub open spec fn spec_bytes(&self) -> Seq<u8> {
        spec_u16_le(self.game_character_id) + seq![self.character_variant, self.figure_type]
            + spec_u16_le(self.model_number) + seq![self.series, self.unk_0x2]
    }

    pub fn parse(data: &[u8], off: usize) -> (r: Self)
        requires
            off + 8 <= data@.len(),
        ensures
            r.spec_bytes() == data@.subrange(off as int, off + 8),
    {
        let n: usize = data.len();
        let r = AmiiboId {
            game_character_id: read_u16_le(data, off),
            character_variant: data[off + 2],
            figure_type: data[off + 3],
            model_number: read_u16_le(data, off + 4),
            series: data[off + 6],
            unk_0x2: data[off + 7],
        };
        proof {
            assert(r.spec_bytes() =~= data@.subrange(off as int, off + 8));
        }
        r
    }
}

/// The identity block of the dump: the figurine id, four unknown bytes
/// and a stored 32-byte hash.  44 bytes.
pub struct Struct1 {
    pub amiibo_id: AmiiboId,
    pub unk: Vec<u8>,
    pub unk_maybe_hash: Vec<u8>,
}

impl Struct1 {
    pub open spec fn wf(&self) -> bool {
        self.unk@.len() == 4 && self.unk_maybe_hash@.len() == 32
    }

    pub open spec fn spec_bytes(&self) -> Seq<u8> {
        self.amiibo_id.spec_bytes() + self.unk@ + self.unk_maybe_hash@
    }

    pub fn parse(data: &[u8], off: usize) -> (r: Self)
        requires
            off + 44 <= data@.len(),
        ensures
            r.wf(),
            r.spec_bytes() == data@.subrange(off as int, off + 44),
    {
        let n: usize = data.len();
        let r = Struct1 {
            amiibo_id: AmiiboId::parse(data, off),
            unk: read_bytes(data, off + 8, 4),
            unk_maybe_hash: read_bytes(data, off + 12, 32),
        };
        proof {
            assert(r.spec_bytes() =~= data@.subrange(off as int, off + 44));
        }
        r
    }

    /// Appends the block's 44 bytes.
    pub fn append_bytes(&self, out: &mut Vec<u8>)
        requires
            self.wf(),
        ensures
            final(out)@ == old(out)@ + self.spec_bytes(),
    {
        push_u16_le(out, self.amiibo_id.game_character_id);
        out.push(self.amiibo_id.character_variant);
        out.push(self.amiibo_id.figure_type);
        push_u16_le(out, self.amiibo_id.model_number);
        out.push(self.amiibo_id.series);
        out.push(self.amiibo_id.unk_0x2);
        out.extend_from_slice(self.unk.as_slice());
        out.extend_from_slice(self.unk_maybe_hash.as_slice());
        proof {
            assert(final(out)@ =~= old(out)@ + self.spec_bytes());
        }
    }

    /// Copies the block.
    pub fn duplicate(&self) -> (r: Self)
        ensures
            r.amiibo_id == self.amiibo_id,
            r.unk@ == self.unk@,
            r.unk_maybe_hash@ == self.unk_maybe_hash@,
    {
        let mut unk: Vec<u8> = Vec::new();
        unk.extend_from_slice(self.unk.as_slice());
        let mut unk_maybe_hash: Vec<u8> = Vec::new();
        unk_maybe_hash.extend_from_slice(self.unk_maybe_hash.as_slice());
        proof {
            assert(unk@ =~= self.unk@);
            assert(unk_maybe_hash@ =~= self.unk_maybe_hash@);
        }
        Struct1 {
            amiibo_id: AmiiboId { ..self.amiibo_id },
            unk,
            unk_maybe_hash,
        }
    }
}

/// The four-byte status block: a constant, an unknown byte, the raw
/// write counter, and one more unknown byte.
#[derive(Clone, Copy, PartialEq, Eq, Structural, Debug)]
pub struct Struct2 {
    pub unk_0xa5: u8,
    pub unk_1: u8,
    pub write_counter: u8,
    pub unk_2: u8,
}

impl Struct2 {
    pub open spec fn spec_bytes(&self) -> Seq<u8> {
        seq![self.unk_0xa5, self.unk_1, self.write_counter, self.unk_2]
    }

    pub fn parse(data: &[u8], off: usize) -> (r: Self)
        requires
            off + 4 <= data@.len(),
        ensures
            r.spec_bytes() == data@.subrange(off as int, off + 4),
    {
        let n: usize = data.len();
        let r = Struct2 {
            unk_0xa5: data[off],
            unk_1: data[off + 1],
            write_counter: data[off + 2],
            unk_2: data[off + 3],
        };
        proof {
            assert(r.spec_bytes() =~= data@.subrange(off as int, off + 4));
        }
        r
    }
}

/// The literal hardware layout of a 532-byte dump.
pub struct RawFormat {
    pub man_info_1: ntag::Manufacturer1,
    pub man_info_2: ntag::Manufacturer2,
    pub st_2: Struct2,
    pub enc_section_1: Vec<u8>,
    pub tag_sha256_hmac_hash: Vec<u8>,
    pub st_1: Struct1,
    pub data_sha256_hmac_hash: Vec<u8>,
    pub enc_section_2: Vec<u8>,
    pub enc_section_3: Vec<u8>,
    pub dyn_lock: ntag::DynamicLock,
    pub cfg: ntag::Config,
}

impl RawFormat {
    pub open spec fn wf(&self) -> bool {
        &&& self.man_info_1.wf()
        &&& self.man_info_2.wf()
        &&& self.enc_section_1@.len() == 32
        &&& self.tag_sha256_hmac_hash@.len() == 32
        &&& self.st_1.wf()
        &&& self.data_sha256_hmac_hash@.len() == 32
        &&& self.enc_section_2@.len() == 276
        &&& self.enc_section_3@.len() == 84
        &&& self.dyn_lock.wf()
        &&& self.cfg.wf()
    }

    /// Interprets the first 532 bytes of `data` as a raw dump.  Fails
    /// exactly when the buffer is shorter than a whole dump.
    pub fn parse(data: &[u8]) -> (r: Result<Self, CodecError>)
        ensures
            r is Ok <==> data@.len() >= RAW_FORMAT_SIZE,
            r is Err ==> r == Result::<Self, CodecError>::Err(CodecError::TruncatedDump),
            r is Ok ==> {
                let raw = r.unwrap();
                &&& raw.wf()
                &&& raw.man_info_1.spec_bytes() == data@.subrange(0, 8)
                &&& raw.man_info_2.spec_bytes() == data@.subrange(8, 16)
                &&& raw.st_2.spec_bytes() == data@.subrange(16, 20)
                &&& raw.enc_section_1@ == data@.subrange(20, 52)
                &&& raw.tag_sha256_hmac_hash@ == data@.subrange(52, 84)
                &&& raw.st_1.spec_bytes() == data@.subrange(84, 128)
                &&& raw.data_sha256_hmac_hash@ == data@.subrange(128, 160)
                &&& raw.enc_section_2@ == data@.subrange(160, 436)
                &&& raw.enc_section_3@ == data@.subrange(436, 520)
                &&& raw.dyn_lock.spec_bytes() == data@.subrange(520, 524)
                &&& raw.cfg.spec_bytes() == data@.subrange(524, 532)
            },
    {
        if data.len() < RAW_FORMAT_SIZE {
            return Err(CodecError::TruncatedDump);
        }
        Ok(
            RawFormat {
                man_info_1: ntag::Manufacturer1::parse(data, 0),
                man_info_2: ntag::Manufacturer2::parse(data, 8),
                st_2: Struct2::parse(data, 16),
                enc_section_1: read_bytes(data, 20, 32),
                tag_sha256_hmac_hash: read_bytes(data, 52, 32),
                st_1: Struct1::parse(data, 84),
                data_sha256_hmac_hash: read_bytes(data, 128, 32),
                enc_section_2: read_bytes(data, 160, 276),
                enc_section_3: read_bytes(data, 436, 84),
                dyn_lock: ntag::DynamicLock::parse(data, 520),
                cfg: ntag::Config::parse(data, 524),
            },
        )
    }
}

/// The dump with its three ciphertext sections made contiguous, which
/// is the shape the cipher engine works on.
pub struct ConvertedFormat {
    pub man_info_2: ntag::Manufacturer2,
    pub data_sha256_hmac_hash: Vec<u8>,
    pub st_2: Struct2,
    pub enc_data: Vec<u8>,
    pub tag_sha256_hmac_hash: Vec<u8>,
    pub man_info_1: ntag::Manufacturer1,
    pub st_1: Struct1,
}

impl ConvertedFormat {
    pub open spec fn wf(&self) -> bool {
        &&& self.man_info_2.wf()
        &&& self.data_sha256_hmac_hash@.len() == 32
        &&& self.enc_data@.len() == ENC_DATA_SIZE
        &&& self.tag_sha256_hmac_hash@.len() == 32
        &&& self.man_info_1.wf()
        &&& self.st_1.wf()
    }

    /// Pure field relocation: no value changes, the ciphertext sections
    /// are concatenated in order.
    pub fn from_raw(raw: &RawFormat) -> (r: Self)
        requires
            raw.wf(),
        ensures
            r.wf(),
            r.man_info_2.spec_bytes() == raw.man_info_2.spec_bytes(),
            r.data_sha256_hmac_hash@ == raw.data_sha256_hmac_hash@,
            r.st_2 == raw.st_2,
            r.enc_data@ == raw.enc_section_1@ + raw.enc_section_2@ + raw.enc_section_3@,
            r.tag_sha256_hmac_hash@ == raw.tag_sha256_hmac_hash@,
            r.man_info_1.spec_bytes() == raw.man_info_1.spec_bytes(),
            r.st_1.amiibo_id == raw.st_1.amiibo_id,
            r.st_1.unk@ == raw.st_1.unk@,
            r.st_1.unk_maybe_hash@ == raw.st_1.unk_maybe_hash@,
    {
        let mut enc_data: Vec<u8> = Vec::new();
        enc_data.extend_from_slice(raw.enc_section_1.as_slice());
        enc_data.extend_from_slice(raw.enc_section_2.as_slice());
        enc_data.extend_from_slice(raw.enc_section_3.as_slice());
        let mut data_sha256_hmac_hash: Vec<u8> = Vec::new();
        data_sha256_hmac_hash.extend_from_slice(raw.data_sha256_hmac_hash.as_slice());
        let mut tag_sha256_hmac_hash: Vec<u8> = Vec::new();
        tag_sha256_hmac_hash.extend_from_slice(raw.tag_sha256_hmac_hash.as_slice());
        proof {
            assert(enc_data@ =~= raw.enc_section_1@ + raw.enc_section_2@ + raw.enc_section_3@);
            assert(data_sha256_hmac_hash@ =~= raw.data_sha256_hmac_hash@);
            assert(tag_sha256_hmac_hash@ =~= raw.tag_sha256_hmac_hash@);
        }
        ConvertedFormat {
            man_info_2: raw.man_info_2.duplicate(),
            data_sha256_hmac_hash,
            st_2: raw.st_2,
            enc_data,
            tag_sha256_hmac_hash,
            man_info_1: raw.man_info_1.duplicate(),
            st_1: raw.st_1.duplicate(),
        }
    }
}

/// The 64-byte base seed of the key derivation, built from the dump
/// being imported: two status bytes, fourteen zero bytes, the first
/// manufacturer block twice, and the stored 32-byte hash.
pub open spec fn spec_base_seed(conv: &ConvertedFormat) -> Seq<u8> {
    seq![conv.st_2.unk_1, conv.st_2.write_counter] + Seq::new(14, |i: int| 0u8)
        + conv.man_info_1.spec_bytes() + conv.man_info_1.spec_bytes() + conv.st_1.unk_maybe_hash@
}

/// The same 64-byte base seed read straight off the raw dump's bytes:
/// the two status bytes at 17 and 18, fourteen zero bytes, the first
/// manufacturer block twice, and the stored hash at 96..128.
pub open spec fn spec_base_seed_bytes(data: Seq<u8>) -> Seq<u8> {
    seq![data[17], data[18]] + Seq::new(14, |i: int| 0u8) + data.subrange(0, 8) + data.subrange(
        0,
        8,
    ) + data.subrange(96, 128)
}

/// A converted dump whose blocks carry the raw dump's bytes has the
/// base seed those bytes dictate.
pub proof fn lemma_base_seed_from_dump(conv: &ConvertedFormat, data: Seq<u8>)
    requires
        conv.wf(),
        data.len() >= 128,
        conv.man_info_1.spec_bytes() == data.subrange(0, 8),
        conv.st_2.spec_bytes() == data.subrange(16, 20),
        conv.st_1.spec_bytes() == data.subrange(84, 128),
    ensures
        spec_base_seed(conv) =~= spec_base_seed_bytes(data),
{
    assert(conv.st_2.spec_bytes()[1] == data.subrange(16, 20)[1]);
    assert(conv.st_2.spec_bytes()[2] == data.subrange(16, 20)[2]);
    assert forall|i: int| 0 <= i < 32 implies conv.st_1.unk_maybe_hash@[i] == data[96 + i] by {
        assert(conv.st_1.amiibo_id.spec_bytes().len() == 8);
        assert((conv.st_1.amiibo_id.spec_bytes() + conv.st_1.unk@).len() == 12);
        assert(conv.st_1.spec_bytes() == (conv.st_1.amiibo_id.spec_bytes() + conv.st_1.unk@)
            + conv.st_1.unk_maybe_hash@);
        assert(((conv.st_1.amiibo_id.spec_bytes() + conv.st_1.unk@)
            + conv.st_1.unk_maybe_hash@)[12 + i] == conv.st_1.unk_maybe_hash@[i]);
        assert(conv.st_1.spec_bytes()[12 + i] == data.subrange(84, 128)[12 + i]);
    }
}

/// The key-derivation seed as a concrete byte buffer.
pub struct KeyDerivationSeed {
    pub bytes: Vec<u8>,
}

impl KeyDerivationSeed {
    pub fn from_converted(conv: &ConvertedFormat) -> (r: Self)
        requires
            conv.wf(),
        ensures
            r.bytes@ == spec_base_seed(conv),
            r.bytes@.len() == 64,
    {
        let mut bytes: Vec<u8> = Vec::new();
        bytes.push(conv.st_2.unk_1);
        bytes.push(conv.st_2.write_counter);
        let mut i: usize = 0;
        let ghost before_pad = bytes@;
        while i < 14
            invariant
                i <= 14,
                bytes@ == before_pad + Seq::new(i as nat, |j: int| 0u8),
            decreases 14 - i,
        {
            bytes.push(0);
            proof {
                assert(bytes@ =~= before_pad + Seq::new((i + 1) as nat, |j: int| 0u8));
            }
            i = i + 1;
        }
        conv.man_info_1.append_bytes(&mut bytes);
        conv.man_info_1.append_bytes(&mut bytes);
        bytes.extend_from_slice(conv.st_1.unk_maybe_hash.as_slice());
        proof {
            assert(bytes@ =~= spec_base_seed(conv));
        }
        KeyDerivationSeed { bytes }
    }
}

/// A sequence of 16-bit units as its big-endian byte image.
pub open spec fn spec_u16s_be(s: Seq<u16>) -> Seq<u8>
    decreases s.len(),
{
    if s.len() == 0 {
        Seq::<u8>::empty()
    } else {
        spec_u16_be(s[0]) + spec_u16s_be(s.drop_first())
    }
}

/// Appending one unit appends its two bytes.
pub proof fn lemma_u16s_be_push(s: Seq<u16>, u: u16)
    ensures
        spec_u16s_be(s.push(u)) == spec_u16s_be(s) + spec_u16_be(u),
    decreases s.len(),
{
    if s.len() == 0 {
        assert(s.push(u)[0] == u);
        assert(s.push(u).drop_first() =~= Seq::<u16>::empty());
        assert(spec_u16s_be(s) =~= Seq::<u8>::empty());
        assert(spec_u16s_be(s.push(u)) == spec_u16_be(s.push(u)[0]) + spec_u16s_be(
            s.push(u).drop_first(),
        ));
        assert(spec_u16s_be(Seq::<u16>::empty()) =~= Seq::<u8>::empty());
        assert(spec_u16s_be(s.push(u)) =~= spec_u16s_be(s) + spec_u16_be(u));
    } else {
        assert(s.push(u)[0] == s[0]);
        assert(s.push(u).drop_first() =~= s.drop_first().push(u));
        lemma_u16s_be_push(s.drop_first(), u);
        assert(spec_u16s_be(s.push(u)) =~= spec_u16s_be(s) + spec_u16_be(u));
    }
}

/// `n` units occupy `2 * n` bytes.
pub proof fn lemma_u16s_be_len(s: Seq<u16>)
    ensures
        spec_u16s_be(s).len() == 2 * s.len(),
    decreases s.len(),
{
    if s.len() > 0 {
        lemma_u16s_be_len(s.drop_first());
    }
}

/// The two bytes a unit contributes sit at twice its position.
pub proof fn lemma_u16s_be_index(units: Seq<u16>, j: int)
    requires
        0 <= j < units.len(),
    ensures
        spec_u16s_be(units)[2 * j] == (units[j] >> 8) as u8,
        spec_u16s_be(units)[2 * j + 1] == units[j] as u8,
    decreases j,
{
    lemma_u16s_be_len(units);
    lemma_u16s_be_len(units.drop_first());
    if j == 0 {
        assert(spec_u16s_be(units)[0] == spec_u16_be(units[0])[0]);
        assert(spec_u16s_be(units)[1] == spec_u16_be(units[0])[1]);
    } else {
        lemma_u16s_be_index(units.drop_first(), j - 1);
        assert(spec_u16s_be(units)[2 * j] == spec_u16s_be(units.drop_first())[2 * (j - 1)]);
        assert(spec_u16s_be(units)[2 * j + 1] == spec_u16s_be(units.drop_first())[2 * (j - 1)
            + 1]);
    }
}

/// A big-endian 16-bit unit from its two bytes.
pub open spec fn spec_be_unit(b0: u8, b1: u8) -> u16 {
    ((b0 as u16) << 8) | (b1 as u16)
}

/// The ten display-name units a settings block's bytes hold, straight
/// from their fixed offset.
pub open spec fn spec_settings_name_units(block: Seq<u8>) -> Seq<u16> {
    Seq::new(10, |j: int| spec_be_unit(block[12 + 2 * j], block[13 + 2 * j]))
}

/// A decoded settings block's name units are the ones its byte image
/// holds.
pub proof fn lemma_settings_name_units(s: Settings, block: Seq<u8>)
    requires
        s.wf(),
        s.spec_bytes() == block,
    ensures
        s.name_units@ =~= spec_settings_name_units(block),
{
    let units = s.name_units@;
    let ub = spec_u16s_be(units);
    lemma_u16s_be_len(units);
    assert forall|j: int| 0 <= j < 10 implies spec_settings_name_units(block)[j] == units[j] by {
        lemma_u16s_be_index(units, j);
        assert(s.spec_bytes()[12 + 2 * j] == ub[2 * j]);
        assert(s.spec_bytes()[13 + 2 * j] == ub[2 * j + 1]);
        let v = units[j];
        assert(spec_be_unit((v >> 8) as u8, v as u8) == v) by (bit_vector);
    }
}

/// The decrypted 176-byte settings block, decoded field by field with
/// explicit endianness.
pub struct Settings {
    pub flags: u8,
    pub country_code: u8,
    pub crc32_write_counter: u16,
    pub first_write_date: Date,
    pub last_write_date: Date,
    pub crc32: u32,
    pub name_units: Vec<u16>,
    pub mii: Vec<u8>,
    pub program_id: u64,
    pub write_counter: u16,
    pub access_id: u32,
    pub unk: Vec<u8>,
    pub tail_hash: Vec<u8>,
}

/// The packed default date stamped on never-activated figurines.
pub open spec fn spec_default_date_val() -> u16 {
    (14u16 << 9) | (6u16 << 5) | 10u16
}

/// The defaults a never-activated settings block is reset to: no flags,
/// region code 105, both dates at the default date, everything else
/// zero.
pub open spec fn is_default_settings(s: Settings) -> bool {
    &&& s.flags == 0
    &&& s.country_code == 105
    &&& s.crc32_write_counter == 0
    &&& s.first_write_date.val == spec_default_date_val()
    &&& s.last_write_date.val == spec_default_date_val()
    &&& s.crc32 == 0
    &&& s.name_units@ == Seq::new(10, |i: int| 0u16)
    &&& s.mii@ == Seq::new(96, |i: int| 0u8)
    &&& s.program_id == 0
    &&& s.write_counter == 0
    &&& s.access_id == 0
    &&& s.unk@ == Seq::new(2, |i: int| 0u8)
    &&& s.tail_hash@ == Seq::new(32, |i: int| 0u8)
}

impl Settings {
    pub open spec fn wf(&self) -> bool {
        &&& self.name_units@.len() == 10
        &&& self.mii@.len() == 96
        &&& self.unk@.len() == 2
        &&& self.tail_hash@.len() == 32
    }

    /// The 176 bytes of the block, in layout order.
    pub open spec fn spec_bytes(&self) -> Seq<u8> {
        seq![self.flags, self.country_code] + spec_u16_be(self.crc32_write_counter) + spec_u16_be(
            self.first_write_date.val,
        ) + spec_u16_be(self.last_write_date.val) + spec_u32_be(self.crc32) + spec_u16s_be(
            self.name_units@,
        ) + self.mii@ + spec_u64_be(self.program_id) + spec_u16_be(self.write_counter)
            + spec_u32_be(self.access_id) + self.unk@ + self.tail_hash@
    }

    /// Decodes the first 176 bytes of a decrypted buffer.
    pub fn parse(data: &[u8]) -> (r: Self)
        requires
            data@.len() >= SETTINGS_SIZE,
        ensures
            r.wf(),
            r.spec_bytes() == data@.subrange(0, SETTINGS_SIZE as int),
            r.flags == data@[0],
    {
        let n: usize = data.len();
        let mut name_units: Vec<u16> = Vec::new();
        let mut i: usize = 0;
        while i < 10
            invariant
                i <= 10,
                n == data@.len(),
                n >= SETTINGS_SIZE,
                name_units@.len() == i,
                spec_u16s_be(name_units@) == data@.subrange(12, 12 + 2 * i),
            decreases 10 - i,
        {
            let ghost units_before = name_units@;
            let u = read_u16_be(data, 12 + 2 * i);
            name_units.push(u);
            proof {
                lemma_u16s_be_push(units_before, u);
                assert(spec_u16s_be(name_units@) =~= data@.subrange(12, 12 + 2 * (i + 1)));
            }
            i = i + 1;
        }
        let r = Settings {
            flags: data[0],
            country_code: data[1],
            crc32_write_counter: read_u16_be(data, 2),
            first_write_date: Date { val: read_u16_be(data, 4) },
            last_write_date: Date { val: read_u16_be(data, 6) },
            crc32: read_u32_be(data, 8),
            name_units,
            mii: read_bytes(data, 32, 96),
            program_id: read_u64_be(data, 128),
            write_counter: read_u16_be(data, 136),
            access_id: read_u32_be(data, 138),
            unk: read_bytes(data, 142, 2),
            tail_hash: read_bytes(data, 144, 32),
        };
        proof {
            assert(spec_u16_be(r.first_write_date.val) == data@.subrange(4, 6));
            assert(spec_u16_be(r.last_write_date.val) == data@.subrange(6, 8));
            assert(r.spec_bytes() =~= data@.subrange(0, SETTINGS_SIZE as int));
        }
        r
    }

    /// Appends the block's 176 bytes.
    pub fn append_bytes(&self, out: &mut Vec<u8>)
        requires
            self.wf(),
        ensures
            final(out)@ == old(out)@ + self.spec_bytes(),
    {
        out.push(self.flags);
        out.push(self.country_code);
        push_u16_be(out, self.crc32_write_counter);
        push_u16_be(out, self.first_write_date.val);
        push_u16_be(out, self.last_write_date.val);
        push_u32_be(out, self.crc32);
        let mut i: usize = 0;
        let ghost before_units = out@;
        while i < 10
            invariant
                i <= 10,
                self.wf(),
                out@ == before_units + spec_u16s_be(self.name_units@.take(i as int)),
            decreases 10 - i,
        {
            let ghost taken = self.name_units@.take(i as int);
            push_u16_be(out, self.name_units[i]);
            proof {
                lemma_u16s_be_push(taken, self.name_units@[i as int]);
                assert(self.name_units@.take(i + 1) =~= taken.push(self.name_units@[i as int]));
            }
            i = i + 1;
        }
        proof {
            assert(self.name_units@.take(10) =~= self.name_units@);
        }
        out.extend_from_slice(self.mii.as_slice());
        push_u64_be(out, self.program_id);
        push_u16_be(out, self.write_counter);
        push_u32_be(out, self.access_id);
        out.extend_from_slice(self.unk.as_slice());
        out.extend_from_slice(self.tail_hash.as_slice());
        proof {
            assert(final(out)@ =~= old(out)@ + self.spec_bytes());
        }
    }
}

impl Default for Settings {
    /// The reset block for never-activated figurines.
    fn default() -> (r: Self)
        ensures
            r.wf(),
            is_default_settings(r),
    {
        let mut name_units: Vec<u16> = Vec::new();
        let mut i: usize = 0;
        while i < 10
            invariant
                i <= 10,
                name_units@ == Seq::new(i as nat, |j: int| 0u16),
            decreases 10 - i,
        {
            name_units.push(0);
            proof {
                assert(name_units@ =~= Seq::new((i + 1) as nat, |j: int| 0u16));
            }
            i = i + 1;
        }
        let mii = alloc_zero_bytes(96);
        let unk = alloc_zero_bytes(2);
        let tail_hash = alloc_zero_bytes(32);
        Settings {
            flags: 0,
            country_code: 105,
            crc32_write_counter: 0,
            first_write_date: Date::new(2014, 6, 10),
            last_write_date: Date::new(2014, 6, 10),
            crc32: 0,
            name_units,
            mii,
            program_id: 0,
            write_counter: 0,
            access_id: 0,
            unk,
            tail_hash,
        }
    }
}

/// A vector of `len` zero bytes.
pub fn alloc_zero_bytes(len: usize) -> (r: Vec<u8>)
    ensures
        r@ == Seq::new(len as nat, |i: int| 0u8),
{
    let mut out: Vec<u8> = Vec::new();
    let mut i: usize = 0;
    while i < len
        invariant
            i <= len,
            out@ == Seq::new(i as nat, |j: int| 0u8),
        decreases len - i,
    {
        out.push(0);
        proof {
            assert(out@ =~= Seq::new((i + 1) as nat, |j: int| 0u8));
        }
        i = i + 1;
    }
    out
}

/// The decrypted payload: the settings block and one application area.
pub struct DecryptedData {
    pub settings: Settings,
    pub app_area: Vec<u8>,
}

impl DecryptedData {
    pub open spec fn wf(&self) -> bool {
        self.settings.wf() && self.app_area@.len() == APP_AREA_SIZE
    }
}

/// The dump after decryption: the converted layout with the ciphertext
/// replaced by the decoded settings and application area, and the two
/// integrity tags recomputed.
pub struct PlainFormat {
    pub man_info_2: ntag::Manufacturer2,
    pub data_sha256_hmac_hash: Vec<u8>,
    pub st_2: Struct2,
    pub dec_data: DecryptedData,
    pub tag_sha256_hmac_hash: Vec<u8>,
    pub man_info_1: ntag::Manufacturer1,
    pub st_1: Struct1,
}

/// The region covered by the tag integrity tag: the first manufacturer
/// block and the identity block.
pub open spec fn spec_tag_region(p: &PlainFormat) -> Seq<u8> {
    p.man_info_1.spec_bytes() + p.st_1.spec_bytes()
}

/// The region covered by the data integrity tag: the status bytes after
/// the constant, the decoded settings and application area, the
/// recomputed tag integrity tag, and the tag region.
pub open spec fn spec_data_region(p: &PlainFormat) -> Seq<u8> {
    seq![p.st_2.unk_1, p.st_2.write_counter, p.st_2.unk_2] + p.dec_data.settings.spec_bytes()
        + p.dec_data.app_area@ + p.tag_sha256_hmac_hash@ + p.man_info_1.spec_bytes()
        + p.st_1.spec_bytes()
}

impl PlainFormat {
    pub open spec fn wf(&self) -> bool {
        &&& self.man_info_2.wf()
        &&& self.data_sha256_hmac_hash@.len() == 32
        &&& self.dec_data.wf()
        &&& self.tag_sha256_hmac_hash@.len() == 32
        &&& self.man_info_1.wf()
        &&& self.st_1.wf()
    }

    /// The unencrypted fields carried over from the converted dump.
    pub open spec fn carries_over(&self, conv: &ConvertedFormat) -> bool {
        &&& self.man_info_2.spec_bytes() == conv.man_info_2.spec_bytes()
        &&& self.st_2 == conv.st_2
        &&& self.man_info_1.spec_bytes() == conv.man_info_1.spec_bytes()
        &&& self.st_1.amiibo_id == conv.st_1.amiibo_id
        &&& self.st_1.unk@ == conv.st_1.unk@
        &&& self.st_1.unk_maybe_hash@ == conv.st_1.unk_maybe_hash@
    }

    /// Carries over everything outside the encrypted sections; the
    /// settings and application area stay at their defaults and the
    /// stored integrity tags are kept.  This is the whole pipeline when
    /// no retail key set is available.
    pub fn from_converted(conv: &ConvertedFormat) -> (r: Self)
        requires
            conv.wf(),
        ensures
            r.wf(),
            r.carries_over(conv),
            is_default_settings(r.dec_data.settings),
            r.dec_data.app_area@ == Seq::new(APP_AREA_SIZE as nat, |i: int| 0u8),
            r.tag_sha256_hmac_hash@ == conv.tag_sha256_hmac_hash@,
            r.data_sha256_hmac_hash@ == conv.data_sha256_hmac_hash@,
    {
        let mut data_sha256_hmac_hash: Vec<u8> = Vec::new();
        data_sha256_hmac_hash.extend_from_slice(conv.data_sha256_hmac_hash.as_slice());
        let mut tag_sha256_hmac_hash: Vec<u8> = Vec::new();
        tag_sha256_hmac_hash.extend_from_slice(conv.tag_sha256_hmac_hash.as_slice());
        proof {
            assert(data_sha256_hmac_hash@ =~= conv.data_sha256_hmac_hash@);
            assert(tag_sha256_hmac_hash@ =~= conv.tag_sha256_hmac_hash@);
        }
        PlainFormat {
            man_info_2: conv.man_info_2.duplicate(),
            data_sha256_hmac_hash,
            st_2: conv.st_2,
            dec_data: DecryptedData {
                settings: Default::default(),
                app_area: alloc_zero_bytes(APP_AREA_SIZE),
            },
            tag_sha256_hmac_hash,
            man_info_1: conv.man_info_1.duplicate(),
            st_1: conv.st_1.duplicate(),
        }
    }
}

/// Everything `decrypt_from_converted` promises of its result: the
/// unencrypted fields carry over; the payload is the AES-CTR transform
/// of the ciphertext under the derived data key, decoded as settings
/// (reset to defaults when its flags byte is the all-zero sentinel) and
/// application area; and the two integrity tags are recomputed with the
/// derived HMAC keys over their regions.
pub open spec fn decrypt_post(conv: &ConvertedFormat, ks: &RetailKeySet, p: &PlainFormat) -> bool {
    let dkeys = spec_derived_bytes(&ks.data_key, spec_base_seed(conv));
    let tkeys = spec_derived_bytes(&ks.tag_key, spec_base_seed(conv));
    let dec = aes128_ctr_of(dkeys.subrange(0, 16), dkeys.subrange(16, 32), conv.enc_data@);
    &&& p.wf()
    &&& p.carries_over(conv)
    &&& dec.len() == ENC_DATA_SIZE
    &&& p.dec_data.app_area@ == dec.subrange(SETTINGS_SIZE as int, ENC_DATA_SIZE as int)
    &&& (dec[0] != 0 ==> p.dec_data.settings.spec_bytes() == dec.subrange(
        0,
        SETTINGS_SIZE as int,
    ))
    &&& (dec[0] == 0 ==> is_default_settings(p.dec_data.settings))
    &&& p.tag_sha256_hmac_hash@ == hmac_sha256_of(tkeys.subrange(32, 48), spec_tag_region(p))
    &&& p.data_sha256_hmac_hash@ == hmac_sha256_of(dkeys.subrange(32, 48), spec_data_region(p))
}

impl PlainFormat {
    /// The full decryption pipeline: derive both keys from the dump's
    /// base seed, decrypt the contiguous ciphertext, decode the
    /// payload, and recompute both integrity tags.  The recomputed tags
    /// are for the caller to compare against the dump's stored ones;
    /// a mismatch is advisory, not a failure.
    pub fn decrypt_from_converted(conv: &ConvertedFormat, key_set: &RetailKeySet) -> (r: Self)
        requires
            conv.wf(),
            key_set.wf(),
        ensures
            decrypt_post(conv, key_set, &r),
    {
        let seed = KeyDerivationSeed::from_converted(conv);
        let derived_key_set = DerivedKeySet::derive_from(key_set, seed.bytes.as_slice());
        let dec = aes128_ctr_crypt(
            derived_key_set.data_key.aes_key.as_slice(),
            derived_key_set.data_key.aes_iv.as_slice(),
            conv.enc_data.as_slice(),
        );
        let parsed = Settings::parse(dec.as_slice());
        let settings = if parsed.flags == 0 {
            Default::default()
        } else {
            parsed
        };
        let app_area = read_bytes(dec.as_slice(), SETTINGS_SIZE, APP_AREA_SIZE);
        let man_info_1 = conv.man_info_1.duplicate();
        let st_1 = conv.st_1.duplicate();
        let mut tag_region: Vec<u8> = Vec::new();
        man_info_1.append_bytes(&mut tag_region);
        st_1.append_bytes(&mut tag_region);
        let tag_sha256_hmac_hash = hmac_sha256(
            derived_key_set.tag_key.hmac_key.as_slice(),
            tag_region.as_slice(),
        );
        let mut data_region: Vec<u8> = Vec::new();
        data_region.push(conv.st_2.unk_1);
        data_region.push(conv.st_2.write_counter);
        data_region.push(conv.st_2.unk_2);
        settings.append_bytes(&mut data_region);
        data_region.extend_from_slice(app_area.as_slice());
        data_region.extend_from_slice(tag_sha256_hmac_hash.as_slice());
        man_info_1.append_bytes(&mut data_region);
        st_1.append_bytes(&mut data_region);
        let data_sha256_hmac_hash = hmac_sha256(
            derived_key_set.data_key.hmac_key.as_slice(),
            data_region.as_slice(),
        );
        let r = PlainFormat {
            man_info_2: conv.man_info_2.duplicate(),
            data_sha256_hmac_hash,
            st_2: conv.st_2,
            dec_data: DecryptedData { settings, app_area },
            tag_sha256_hmac_hash,
            man_info_1,
            st_1,
        };
        proof {
            assert(tag_region@ =~= spec_tag_region(&r));
            assert(data_region@ =~= spec_data_region(&r));
        }
        r
    }
}

/// The ten UUID bytes a dump's manufacturer blocks carry.
pub open spec fn spec_dump_uuid(man_info_1: &ntag::Manufacturer1, man_info_2: &ntag::Manufacturer2) -> Seq<u8> {
    man_info_1.uid_p1@ + seq![man_info_1.check_byte_1] + man_info_1.uid_p2@ + seq![
        man_info_2.check_byte_2,
        man_info_2.internal,
    ]
}

impl PlainFormat {
    /// Maps a decrypted dump into the live record: dates and counters
    /// from the settings, identity with the model number's bytes
    /// reversed, the UUID assembled from ten manufacturer bytes, and
    /// the display name falling back to the path's file name when the
    /// settings hold none.  At most one application area is directed,
    /// when the settings flag says one is in use.  Fails exactly when
    /// the stored name is not decodable character data.
    pub fn to_virtual_amiibo(&self, path: &str, mii_charinfo_file: &str) -> (r: Result<
        (fmt::VirtualAmiiboInfo, fmt::VirtualAmiiboAreaInfo),
        CodecError,
    >)
        requires
            self.wf(),
        ensures
            r is Ok <==> crate::strutil::spec_units_decodable(
                crate::strutil::spec_until_nul(self.dec_data.settings.name_units@),
            ),
            r is Err ==> r == Result::<
                (fmt::VirtualAmiiboInfo, fmt::VirtualAmiiboAreaInfo),
                CodecError,
            >::Err(CodecError::InvalidNameEncoding),
            r is Ok ==> {
                let info = r.unwrap().0;
                let areas = r.unwrap().1;
                let s = self.dec_data.settings;
                let name_prefix = crate::strutil::spec_until_nul(s.name_units@);
                &&& info.first_write_date.y == crate::date::spec_date_year(s.first_write_date.val)
                &&& info.first_write_date.m == crate::date::spec_date_month(s.first_write_date.val)
                &&& info.first_write_date.d == crate::date::spec_date_day(s.first_write_date.val)
                &&& info.last_write_date.y == crate::date::spec_date_year(s.last_write_date.val)
                &&& info.last_write_date.m == crate::date::spec_date_month(s.last_write_date.val)
                &&& info.last_write_date.d == crate::date::spec_date_day(s.last_write_date.val)
                &&& info.id.game_character_id == self.st_1.amiibo_id.game_character_id
                &&& info.id.character_variant == self.st_1.amiibo_id.character_variant
                &&& info.id.figure_type == self.st_1.amiibo_id.figure_type
                &&& spec_u16_be(info.id.model_number) == spec_u16_le(
                    self.st_1.amiibo_id.model_number,
                )
                &&& info.id.series == self.st_1.amiibo_id.series
                &&& info.mii_charinfo_file@ == mii_charinfo_file@
                &&& (name_prefix.len() == 0 ==> info.name@ == path@.subrange(
                    crate::strutil::spec_after_last_slash(path@),
                    path@.len() as int,
                ))
                &&& (name_prefix.len() > 0 ==> info.name@.len() == name_prefix.len() && (forall|
                    i: int,
                |
                    0 <= i < name_prefix.len() ==> (#[trigger] info.name@[i]) as u32
                        == name_prefix[i]))
                &&& info.uuid@ == spec_dump_uuid(&self.man_info_1, &self.man_info_2)
                &&& info.use_random_uuid == false
                &&& info.version == 0
                &&& info.write_counter == s.write_counter
                &&& (s.flags & FLAG_APPLICATION_AREA_USED != 0 ==> areas.areas@ == seq![
                    fmt::VirtualAmiiboAreaEntry {
                        program_id: s.program_id,
                        access_id: s.access_id,
                    },
                ] && areas.current_area_access_id == s.access_id)
                &&& (s.flags & FLAG_APPLICATION_AREA_USED == 0 ==> areas.areas@.len() == 0
                    && areas.current_area_access_id == 0)
                &&& areas.wf()
            },
    {
        let decoded = crate::strutil::decode_name_units(&self.dec_data.settings.name_units);
        let name = match decoded {
            Option::Some(n) => n,
            Option::None => {
                return Err(CodecError::InvalidNameEncoding);
            },
        };
        let name = if name.as_str().is_empty() {
            crate::strutil::get_path_file_name(path)
        } else {
            name
        };
        let mut uuid: Vec<u8> = Vec::new();
        uuid.extend_from_slice(self.man_info_1.uid_p1.as_slice());
        uuid.push(self.man_info_1.check_byte_1);
        uuid.extend_from_slice(self.man_info_1.uid_p2.as_slice());
        uuid.push(self.man_info_2.check_byte_2);
        uuid.push(self.man_info_2.internal);
        proof {
            assert(uuid@ =~= spec_dump_uuid(&self.man_info_1, &self.man_info_2));
        }
        let info = fmt::VirtualAmiiboInfo {
            first_write_date: fmt::VirtualAmiiboDate {
                y: self.dec_data.settings.first_write_date.get_year(),
                m: self.dec_data.settings.first_write_date.get_month(),
                d: self.dec_data.settings.first_write_date.get_day(),
            },
            id: fmt::VirtualAmiiboId {
                game_character_id: self.st_1.amiibo_id.game_character_id,
                character_variant: self.st_1.amiibo_id.character_variant,
                figure_type: self.st_1.amiibo_id.figure_type,
                model_number: crate::endian::swap_u16(self.st_1.amiibo_id.model_number),
                series: self.st_1.amiibo_id.series,
            },
            last_write_date: fmt::VirtualAmiiboDate {
                y: self.dec_data.settings.last_write_date.get_year(),
                m: self.dec_data.settings.last_write_date.get_month(),
                d: self.dec_data.settings.last_write_date.get_day(),
            },
            mii_charinfo_file: mii_charinfo_file.to_owned(),
            name,
            uuid,
            use_random_uuid: false,
            version: 0,
            write_counter: self.dec_data.settings.write_counter,
        };
        let areas = if self.dec_data.settings.flags & FLAG_APPLICATION_AREA_USED != 0 {
            let entry = fmt::VirtualAmiiboAreaEntry {
                program_id: self.dec_data.settings.program_id,
                access_id: self.dec_data.settings.access_id,
            };
            let mut entries: Vec<fmt::VirtualAmiiboAreaEntry> = Vec::new();
            entries.push(entry);
            let built = fmt::VirtualAmiiboAreaInfo {
                areas: entries,
                current_area_access_id: self.dec_data.settings.access_id,
            };
            proof {
                assert(built.areas@ =~= seq![
                    fmt::VirtualAmiiboAreaEntry {
                        program_id: self.dec_data.settings.program_id,
                        access_id: self.dec_data.settings.access_id,
                    },
                ]);
                assert(built.areas@[0].access_id == built.current_area_access_id);
            }
            built
        } else {
            fmt::VirtualAmiiboAreaInfo::empty()
        };
        Ok((info, areas))
    }
}

/// Decrypt-then-recompute: for a dump whose stored integrity tags were
/// produced by the inverse of this pipeline — each stored tag is the
/// keyed HMAC of the region the pipeline covers — the recomputed tags
/// equal the stored ones.
pub proof fn lemma_decrypt_recomputes_stored_tags(
    conv: &ConvertedFormat,
    ks: &RetailKeySet,
    p: &PlainFormat,
)
    requires
        decrypt_post(conv, ks, p),
        conv.tag_sha256_hmac_hash@ == hmac_sha256_of(
            spec_derived_bytes(&ks.tag_key, spec_base_seed(conv)).subrange(32, 48),
            spec_tag_region(p),
        ),
        conv.data_sha256_hmac_hash@ == hmac_sha256_of(
            spec_derived_bytes(&ks.data_key, spec_base_seed(conv)).subrange(32, 48),
            spec_data_region(p),
        ),
    ensures
        p.tag_sha256_hmac_hash@ == conv.tag_sha256_hmac_hash@,
        p.data_sha256_hmac_hash@ == conv.data_sha256_hmac_hash@,
{
}

} // verus!
