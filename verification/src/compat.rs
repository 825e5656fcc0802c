//! Importing raw dumps and the legacy on-disk figurine formats.
//!
//! A raw hardware dump enters through the codec and cipher engine and
//! becomes a live record, once.  The obsolete record formats that
//! predate the current one are rewritten the same way; their byte-level
//! work is the same dump pipeline, and what is left here is the pure
//! text decoding their records need: hex strings, `YYYY-MM-DD` date
//! strings, and the packed identity.

use vstd::prelude::*;
use crate::area::{hex_digit_val, spec_hex_digit_val};
use crate::fmt::{VirtualAmiiboDate, VirtualAmiiboId, VirtualAmiiboInfo, VirtualAmiiboAreaInfo};
use crate::bin::{
    ConvertedFormat,
    PlainFormat,
    RawFormat,
    decrypt_post,
    lemma_base_seed_from_dump,
    lemma_settings_name_units,
    spec_base_seed,
    spec_base_seed_bytes,
    spec_settings_name_units,
};
use crate::crypto::{aes128_ctr_of, spec_derived_bytes, RetailKeySet};
use crate::strutil::{spec_until_nul, spec_units_decodable};
use crate::rc::CodecError;

verus! {

/// Everything a raw dump yields on import: the regrouped dump, its
/// decrypted image, the live record it maps to, and whether the
/// recomputed integrity tags matched the stored ones.
pub struct ImportedDump {
    pub conv: ConvertedFormat,
    pub plain: PlainFormat,
    pub info: VirtualAmiiboInfo,
    pub areas: VirtualAmiiboAreaInfo,
    pub tag_hash_matched: bool,
    pub data_hash_matched: bool,
}

/// The decrypted payload a dump and a key set determine: the AES-CTR
/// transform of the regrouped ciphertext under the data key derived
/// from the dump's own base seed.
pub open spec fn spec_import_payload(data: Seq<u8>, ks: &RetailKeySet) -> Seq<u8> {
    let dkeys = spec_derived_bytes(&ks.data_key, spec_base_seed_bytes(data));
    aes128_ctr_of(
        dkeys.subrange(0, 16),
        dkeys.subrange(16, 32),
        data.subrange(20, 52) + data.subrange(160, 436) + data.subrange(436, 520),
    )
}

/// Whether the display name an import of this dump finds decodes:
/// always when no key set is at hand or the decrypted flags byte is
/// the zero sentinel (the defaults carry an empty name), and otherwise
/// exactly when the decrypted name units hold no surrogate half.
pub open spec fn spec_import_name_ok(data: Seq<u8>, key_set: Option<&RetailKeySet>) -> bool {
    match key_set {
        Option::Some(ks) => {
            let dec = spec_import_payload(data, ks);
            dec[0] == 0 || spec_units_decodable(spec_until_nul(spec_settings_name_units(dec)))
        },
        Option::None => true,
    }
}

/// The whole import pipeline: interpret the buffer as a raw dump,
/// regroup its ciphertext, decrypt when a retail key set is at hand
/// (otherwise leave the protected fields at their defaults), and map
/// the result into the live record.  Succeeds exactly on a whole dump
/// whose decrypted display name decodes.  The tag-match flags are
/// advisory: the caller surfaces a warning on a mismatch, never a
/// failure.
pub fn import_raw_dump(
    data: &[u8],
    key_set: Option<&RetailKeySet>,
    path: &str,
    mii_charinfo_file: &str,
) -> (r: Result<ImportedDump, CodecError>)
    requires
        key_set is Some ==> key_set.unwrap().wf(),
    ensures
        r is Ok <==> data@.len() >= 532 && spec_import_name_ok(data@, key_set),
        data@.len() < 532 ==> r == Result::<ImportedDump, CodecError>::Err(
            CodecError::TruncatedDump,
        ),
        data@.len() >= 532 && !spec_import_name_ok(data@, key_set) ==> r == Result::<
            ImportedDump,
            CodecError,
        >::Err(CodecError::InvalidNameEncoding),
        r is Ok ==> {
            let imported = r.unwrap();
            &&& imported.conv.wf()
            &&& imported.conv.man_info_1.spec_bytes() == data@.subrange(0, 8)
            &&& imported.conv.man_info_2.spec_bytes() == data@.subrange(8, 16)
            &&& imported.conv.st_2.spec_bytes() == data@.subrange(16, 20)
            &&& imported.conv.enc_data@ == data@.subrange(20, 52) + data@.subrange(160, 436)
                + data@.subrange(436, 520)
            &&& imported.conv.tag_sha256_hmac_hash@ == data@.subrange(52, 84)
            &&& imported.conv.data_sha256_hmac_hash@ == data@.subrange(128, 160)
            &&& imported.conv.st_1.spec_bytes() == data@.subrange(84, 128)
            &&& (key_set is Some ==> decrypt_post(
                &imported.conv,
                key_set.unwrap(),
                &imported.plain,
            ))
            &&& (key_set is None ==> imported.plain.tag_sha256_hmac_hash@
                == imported.conv.tag_sha256_hmac_hash@ && imported.plain.data_sha256_hmac_hash@
                == imported.conv.data_sha256_hmac_hash@)
            &&& imported.tag_hash_matched == (imported.plain.tag_sha256_hmac_hash@
                == imported.conv.tag_sha256_hmac_hash@)
            &&& imported.data_hash_matched == (imported.plain.data_sha256_hmac_hash@
                == imported.conv.data_sha256_hmac_hash@)
            &&& imported.info.uuid@ == data@.subrange(0, 10)
            &&& imported.info.use_random_uuid == false
            &&& imported.info.version == 0
            &&& imported.areas.wf()
        },
{
    let raw = match RawFormat::parse(data) {
        Ok(raw) => raw,
        Err(e) => {
            return Err(e);
        },
    };
    let conv = ConvertedFormat::from_raw(&raw);
    let plain = match key_set {
        Option::Some(ks) => PlainFormat::decrypt_from_converted(&conv, ks),
        Option::None => PlainFormat::from_converted(&conv),
    };
    proof {
        lemma_base_seed_from_dump(&conv, data@);
        assert(conv.enc_data@ =~= data@.subrange(20, 52) + data@.subrange(160, 436)
            + data@.subrange(436, 520));
        if key_set is Some {
            let ks = key_set.unwrap();
            let dec = spec_import_payload(data@, ks);
            assert(aes128_ctr_of(
                spec_derived_bytes(&ks.data_key, spec_base_seed(&conv)).subrange(0, 16),
                spec_derived_bytes(&ks.data_key, spec_base_seed(&conv)).subrange(16, 32),
                conv.enc_data@,
            ) == dec);
            if dec[0] != 0 {
                lemma_settings_name_units(plain.dec_data.settings, dec.subrange(0, 176));
                assert forall|j: int|
                    0 <= j < 10 implies spec_settings_name_units(dec.subrange(0, 176))[j]
                    == spec_settings_name_units(dec)[j] by {
                    assert(dec.subrange(0, 176)[12 + 2 * j] == dec[12 + 2 * j]);
                    assert(dec.subrange(0, 176)[13 + 2 * j] == dec[13 + 2 * j]);
                }
                assert(spec_settings_name_units(dec.subrange(0, 176)) =~= spec_settings_name_units(
                    dec,
                ));
                assert(plain.dec_data.settings.name_units@ == spec_settings_name_units(dec));
            } else {
                assert(plain.dec_data.settings.name_units@ =~= Seq::new(10, |j: int| 0u16));
                assert(spec_until_nul(plain.dec_data.settings.name_units@) =~= Seq::<
                    u16,
                >::empty());
            }
        } else {
            assert(plain.dec_data.settings.name_units@ =~= Seq::new(10, |j: int| 0u16));
            assert(spec_until_nul(plain.dec_data.settings.name_units@) =~= Seq::<u16>::empty());
        }
        assert(spec_units_decodable(
            spec_until_nul(plain.dec_data.settings.name_units@),
        ) == spec_import_name_ok(data@, key_set));
    }
    let (info, areas) = match plain.to_virtual_amiibo(path, mii_charinfo_file) {
        Ok(pair) => pair,
        Err(e) => {
            return Err(e);
        },
    };
    let tag_hash_matched = crate::endian::bytes_eq(
        &plain.tag_sha256_hmac_hash,
        &conv.tag_sha256_hmac_hash,
    );
    let data_hash_matched = crate::endian::bytes_eq(
        &plain.data_sha256_hmac_hash,
        &conv.data_sha256_hmac_hash,
    );
    proof {
        let m1b = plain.man_info_1.spec_bytes();
        let m2b = plain.man_info_2.spec_bytes();
        assert(forall|i: int| 0 <= i < 8 ==> #[trigger] m1b[i] == data@.subrange(0, 8)[i]);
        assert(forall|i: int| 0 <= i < 8 ==> #[trigger] m2b[i] == data@.subrange(8, 16)[i]);
        assert(forall|i: int|
            0 <= i < 3 ==> #[trigger] plain.man_info_1.uid_p1@[i] == m1b[i]);
        assert(plain.man_info_1.check_byte_1 == m1b[3]);
        assert(forall|i: int|
            0 <= i < 4 ==> #[trigger] plain.man_info_1.uid_p2@[i] == m1b[4 + i]);
        assert(plain.man_info_2.check_byte_2 == m2b[0]);
        assert(plain.man_info_2.internal == m2b[1]);
        assert(crate::bin::spec_dump_uuid(&plain.man_info_1, &plain.man_info_2) =~= data@.subrange(
            0,
            10,
        ));
    }
    Ok(ImportedDump { conv, plain, info, areas, tag_hash_matched, data_hash_matched })
}

/// The bytes a hex string denotes, two digits each.
pub open spec fn spec_hex_bytes(s: Seq<char>) -> Option<Seq<u8>>
    decreases s.len(),
{
    if s.len() == 0 {
        Option::Some(Seq::empty())
    } else if s.len() == 1 {
        Option::None
    } else {
        let hi = spec_hex_digit_val(s[0]);
        let lo = spec_hex_digit_val(s[1]);
        let rest = spec_hex_bytes(s.skip(2));
        if hi is Some && lo is Some && rest is Some {
            Option::Some(
                seq![(hi.unwrap() * 16 + lo.unwrap()) as u8] + rest.unwrap(),
            )
        } else {
            Option::None
        }
    }
}

/// Decodes a hex string.  Succeeds exactly on even-length strings of
/// hex digits.
pub fn convert_from_hex(hex: &str) -> (r: Option<Vec<u8>>)
    ensures
        r is Some <==> spec_hex_bytes(hex@) is Some,
        r is Some ==> r.unwrap()@ == spec_hex_bytes(hex@).unwrap(),
{
    let n = hex.unicode_len();
    if n % 2 != 0 {
        proof {
            lemma_hex_bytes_odd(hex@);
        }
        return None;
    }
    let mut out: Vec<u8> = Vec::new();
    let mut i: usize = 0;
    proof {
        assert(hex@.skip(0) =~= hex@);
    }
    while i < n
        invariant
            i <= n,
            i % 2 == 0,
            n % 2 == 0,
            n == hex@.len(),
            spec_hex_bytes(hex@) is Some <==> spec_hex_bytes(hex@.skip(i as int)) is Some,
            spec_hex_bytes(hex@) is Some ==> spec_hex_bytes(hex@).unwrap() == out@
                + spec_hex_bytes(hex@.skip(i as int)).unwrap(),
        decreases n - i,
    {
        let hi = hex_digit_val(hex.get_char(i));
        let lo = hex_digit_val(hex.get_char(i + 1));
        proof {
            assert(hex@.skip(i as int)[0] == hex@[i as int]);
            assert(hex@.skip(i as int)[1] == hex@[i + 1]);
            assert(hex@.skip(i as int).skip(2) =~= hex@.skip(i + 2));
        }
        match (hi, lo) {
            (Option::Some(hi), Option::Some(lo)) => {
                out.push((hi * 16 + lo) as u8);
                proof {
                    if spec_hex_bytes(hex@.skip(i + 2)) is Some {
                        assert(out@ + spec_hex_bytes(hex@.skip(i + 2)).unwrap() =~= out@.drop_last()
                            + spec_hex_bytes(hex@.skip(i as int)).unwrap());
                    }
                }
            },
            _ => {
                return None;
            },
        }
        i = i + 2;
    }
    proof {
        assert(hex@.skip(i as int) =~= Seq::<char>::empty());
        if spec_hex_bytes(hex@) is Some {
            assert(spec_hex_bytes(hex@).unwrap() =~= out@);
        }
    }
    Some(out)
}

/// An odd-length hex string denotes nothing.
proof fn lemma_hex_bytes_odd(s: Seq<char>)
    requires
        s.len() % 2 == 1,
    ensures
        spec_hex_bytes(s) is None,
    decreases s.len(),
{
    if s.len() > 1 {
        assert(s.skip(2).len() % 2 == 1);
        lemma_hex_bytes_odd(s.skip(2));
    }
}

/// The value of a run of decimal digit characters, or nothing when one
/// is not a digit.
pub open spec fn spec_dec_val(s: Seq<char>, from: int, upto: int) -> Option<int>
    decreases upto - from,
{
    if upto <= from {
        Option::Some(0)
    } else {
        let prev = spec_dec_val(s, from, upto - 1);
        let d = spec_hex_digit_val(s[upto - 1]);
        if prev is Some && d is Some && d.unwrap() < 10 {
            Option::Some(prev.unwrap() * 10 + d.unwrap())
        } else {
            Option::None
        }
    }
}

/// Reads at most four decimal digits.
fn parse_dec(s: &str, from: usize, upto: usize) -> (r: Option<u32>)
    requires
        from <= upto,
        upto <= s@.len(),
        upto - from <= 4,
    ensures
        r is Some <==> spec_dec_val(s@, from as int, upto as int) is Some,
        r is Some ==> r.unwrap() == spec_dec_val(s@, from as int, upto as int).unwrap(),
{
    let mut acc: u32 = 0;
    let mut i: usize = from;
    while i < upto
        invariant
            from <= i <= upto,
            upto <= s@.len(),
            upto - from <= 4,
            spec_dec_val(s@, from as int, i as int) == Option::Some(acc as int),
            acc < 10000,
        decreases upto - i,
    {
        let c = s.get_char(i);
        let d = hex_digit_val(c);
        match d {
            Option::Some(v) => {
                if v >= 10 {
                    proof {
                        lemma_dec_val_bad(s@, from as int, upto as int, i as int);
                    }
                    return None;
                }
                proof {
                    lemma_dec_val_bound(s@, from as int, (i + 1) as int);
                }
                acc = 10 * acc + v;
            },
            Option::None => {
                proof {
                    lemma_dec_val_bad(s@, from as int, upto as int, i as int);
                }
                return None;
            },
        }
        i = i + 1;
    }
    Some(acc)
}

/// A non-digit anywhere in the run spoils the value.
proof fn lemma_dec_val_bad(s: Seq<char>, from: int, upto: int, at: int)
    requires
        from <= at < upto,
        !(spec_hex_digit_val(s[at]) is Some && spec_hex_digit_val(s[at]).unwrap() < 10),
    ensures
        spec_dec_val(s, from, upto) is None,
    decreases upto - at,
{
    if at < upto - 1 {
        lemma_dec_val_bad(s, from, upto - 1, at);
    }
}

/// At most four digits stay under ten thousand.
proof fn lemma_dec_val_bound(s: Seq<char>, from: int, upto: int)
    requires
        from <= upto,
        upto - from <= 4,
        spec_dec_val(s, from, upto) is Some,
    ensures
        spec_dec_val(s, from, upto).unwrap() < if upto - from == 0 {
            1int
        } else if upto - from == 1 {
            10int
        } else if upto - from == 2 {
            100int
        } else if upto - from == 3 {
            1000int
        } else {
            10000int
        },
    decreases upto - from,
{
    if upto > from {
        lemma_dec_val_bound(s, from, upto - 1);
    }
}

/// Reads a legacy `YYYY-MM-DD` date string: four, two and two decimal
/// digits at the positions the legacy records used.  Succeeds exactly
/// when those eight positions hold digits.
pub fn convert_date(info_date: &str) -> (r: Option<VirtualAmiiboDate>)
    ensures
        r is Some <==> info_date@.len() >= 10 && spec_dec_val(info_date@, 0, 4) is Some
            && spec_dec_val(info_date@, 5, 7) is Some && spec_dec_val(info_date@, 8, 10) is Some,
        r is Some ==> r.unwrap() == (VirtualAmiiboDate {
            y: spec_dec_val(info_date@, 0, 4).unwrap() as u16,
            m: spec_dec_val(info_date@, 5, 7).unwrap() as u8,
            d: spec_dec_val(info_date@, 8, 10).unwrap() as u8,
        }),
{
    let n = info_date.unicode_len();
    if n < 10 {
        return None;
    }
    let y = parse_dec(info_date, 0, 4);
    let m = parse_dec(info_date, 5, 7);
    let d = parse_dec(info_date, 8, 10);
    match (y, m, d) {
        (Option::Some(y), Option::Some(m), Option::Some(d)) => {
            proof {
                lemma_dec_val_bound(info_date@, 0, 4);
                lemma_dec_val_bound(info_date@, 5, 7);
                lemma_dec_val_bound(info_date@, 8, 10);
            }
            Some(VirtualAmiiboDate { y: y as u16, m: m as u8, d: d as u8 })
        },
        _ => None,
    }
}

/// Reads a legacy packed identity: sixteen hex digits laid out as the
/// dump stores them, little-endian words.
pub fn convert_amiibo_id(info_id: &str) -> (r: Option<VirtualAmiiboId>)
    ensures
        r is Some <==> spec_hex_bytes(info_id@) is Some && spec_hex_bytes(info_id@).unwrap().len()
            >= 8,
        r is Some ==> {
            let b = spec_hex_bytes(info_id@).unwrap();
            r.unwrap() == (VirtualAmiiboId {
                game_character_id: (b[0] + b[1] * 0x100) as u16,
                character_variant: b[2],
                figure_type: b[3],
                model_number: (b[4] + b[5] * 0x100) as u16,
                series: b[6],
            })
        },
{
    let raw = convert_from_hex(info_id);
    match raw {
        Option::Some(b) => {
            if b.len() < 8 {
                return None;
            }
            Some(
                VirtualAmiiboId {
                    game_character_id: (b[0] as u16) + (b[1] as u16) * 0x100,
                    character_variant: b[2],
                    figure_type: b[3],
                    model_number: (b[4] as u16) + (b[5] as u16) * 0x100,
                    series: b[6],
                },
            )
        },
        Option::None => None,
    }
}

/// Reads a legacy UUID hex string.
pub fn convert_uuid(info_uuid: &str) -> (r: Option<Vec<u8>>)
    ensures
        r is Some <==> spec_hex_bytes(info_uuid@) is Some,
        r is Some ==> r.unwrap()@ == spec_hex_bytes(info_uuid@).unwrap(),
{
    convert_from_hex(info_uuid)
}

/// Whether a legacy date string decodes.
pub open spec fn spec_date_str_ok(s: Seq<char>) -> bool {
    &&& s.len() >= 10
    &&& spec_dec_val(s, 0, 4) is Some
    &&& spec_dec_val(s, 5, 7) is Some
    &&& spec_dec_val(s, 8, 10) is Some
}

/// Whether a legacy packed identity decodes.
pub open spec fn spec_amiibo_id_ok(s: Seq<char>) -> bool {
    spec_hex_bytes(s) is Some && spec_hex_bytes(s).unwrap().len() >= 8
}

/// Reads a legacy `[year, month, day]` date triple.
pub fn convert_date_triple(parts: &Vec<u32>) -> (r: Option<VirtualAmiiboDate>)
    ensures
        r is Some <==> parts@.len() >= 3 && parts@[0] <= 0xffff && parts@[1] <= 0xff && parts@[2]
            <= 0xff,
        r is Some ==> r.unwrap() == (VirtualAmiiboDate {
            y: parts@[0] as u16,
            m: parts@[1] as u8,
            d: parts@[2] as u8,
        }),
{
    if parts.len() < 3 {
        return None;
    }
    if parts[0] > 0xffff || parts[1] > 0xff || parts[2] > 0xff {
        return None;
    }
    Some(VirtualAmiiboDate { y: parts[0] as u16, m: parts[1] as u8, d: parts[2] as u8 })
}

/// Assembles the current record from a third-generation legacy record:
/// date strings, a hex identity, an optional hex UUID (a missing one
/// gets a fresh random UUID), the display name and the counters.
/// Fails exactly when a date string, the identity, or a present UUID
/// does not decode.
pub fn convert_v3_record(
    first_write_date: &str,
    last_write_date: &str,
    amiibo_id: &str,
    uuid: Option<&str>,
    name: String,
    mii_charinfo_file: String,
    version: u8,
    write_counter: u16,
) -> (r: Option<VirtualAmiiboInfo>)
    ensures
        r is Some ==> {
            let info = r.unwrap();
            let id_bytes = spec_hex_bytes(amiibo_id@).unwrap();
            &&& info.name == name
            &&& info.mii_charinfo_file == mii_charinfo_file
            &&& info.version == version
            &&& info.write_counter == write_counter
            &&& info.use_random_uuid == false
            &&& info.first_write_date == (VirtualAmiiboDate {
                y: spec_dec_val(first_write_date@, 0, 4).unwrap() as u16,
                m: spec_dec_val(first_write_date@, 5, 7).unwrap() as u8,
                d: spec_dec_val(first_write_date@, 8, 10).unwrap() as u8,
            })
            &&& info.last_write_date == (VirtualAmiiboDate {
                y: spec_dec_val(last_write_date@, 0, 4).unwrap() as u16,
                m: spec_dec_val(last_write_date@, 5, 7).unwrap() as u8,
                d: spec_dec_val(last_write_date@, 8, 10).unwrap() as u8,
            })
            &&& info.id == (VirtualAmiiboId {
                game_character_id: (id_bytes[0] + id_bytes[1] * 0x100) as u16,
                character_variant: id_bytes[2],
                figure_type: id_bytes[3],
                model_number: (id_bytes[4] + id_bytes[5] * 0x100) as u16,
                series: id_bytes[6],
            })
            &&& (uuid is Some ==> spec_hex_bytes(uuid.unwrap()@) is Some && info.uuid@
                == spec_hex_bytes(uuid.unwrap()@).unwrap())
            &&& (uuid is None ==> info.uuid@.len() == 10 && info.uuid@[7] == 0 && info.uuid@[8]
                == 0 && info.uuid@[9] == 0)
        },
        r is None <==> !spec_date_str_ok(first_write_date@) || !spec_date_str_ok(
            last_write_date@,
        ) || !spec_amiibo_id_ok(amiibo_id@) || (uuid is Some && spec_hex_bytes(
            uuid.unwrap()@,
        ) is None),
{
    let fwd = match convert_date(first_write_date) {
        Option::Some(d) => d,
        Option::None => {
            return None;
        },
    };
    let lwd = match convert_date(last_write_date) {
        Option::Some(d) => d,
        Option::None => {
            return None;
        },
    };
    let id = match convert_amiibo_id(amiibo_id) {
        Option::Some(id) => id,
        Option::None => {
            return None;
        },
    };
    let uuid_bytes = match uuid {
        Option::Some(hex) => {
            match convert_uuid(hex) {
                Option::Some(b) => b,
                Option::None => {
                    return None;
                },
            }
        },
        Option::None => crate::crypto::generate_random_uuid(),
    };
    Some(
        VirtualAmiiboInfo {
            first_write_date: fwd,
            id,
            last_write_date: lwd,
            mii_charinfo_file,
            name,
            uuid: uuid_bytes,
            use_random_uuid: false,
            version,
            write_counter,
        },
    )
}

} // verus!
