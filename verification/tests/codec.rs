// Tests of the binary codec, the key derivation and cipher engine, and
// the small text codecs.

use emuiibo::bin::{
    ConvertedFormat, PlainFormat, RawFormat, Settings, APP_AREA_SIZE, ENC_DATA_SIZE,
    KeyDerivationSeed, RAW_FORMAT_SIZE, SETTINGS_SIZE,
};
use emuiibo::crypto::{DerivedKeySet, DrbgContext, RetailKey, RetailKeySet};
use emuiibo::date::Date;
use emuiibo::rc::CodecError;
use emuiibo::area::{format_area_file_name, parse_area_file_name};
use emuiibo::compat::{convert_amiibo_id, convert_date, convert_from_hex};
use emuiibo::strutil::{
    get_path_file_name, get_path_file_name_without_extension, get_path_without_extension,
};

use aes::cipher::{KeyIvInit, StreamCipher};
use hmac::Mac;

fn sample_retail_key(tag: u8) -> RetailKey {
    RetailKey {
        hmac_key: (0..16).map(|i| i as u8 ^ tag).collect(),
        phrase: (0..14).map(|i| 0x40 + i as u8 + tag).collect(),
        reserved: 0,
        seed_size: 14,
        seed: (0..16).map(|i| 0x80 ^ (i as u8) ^ tag).collect(),
        xor_pad: (0..32).map(|i| 0x5a ^ (i as u8) ^ tag).collect(),
    }
}

fn sample_key_set() -> RetailKeySet {
    RetailKeySet {
        data_key: sample_retail_key(0),
        tag_key: sample_retail_key(0x77),
    }
}

fn hmac_ref(key: &[u8], msg: &[u8]) -> Vec<u8> {
    let mut mac = <hmac::Hmac<sha2::Sha256>>::new_from_slice(key).unwrap();
    mac.update(msg);
    mac.finalize().into_bytes().to_vec()
}

#[test]
fn date_bitfields_round_trip() {
    let d = Date::new(2023, 11, 5);
    assert_eq!(d.get_year(), 2023);
    assert_eq!(d.get_month(), 11);
    assert_eq!(d.get_day(), 5);
    // (2023-2000) << 9 | 11 << 5 | 5
    assert_eq!(d.val, (23u16 << 9) | (11 << 5) | 5);
}

#[test]
fn default_settings_easter_egg_date() {
    let s: Settings = Default::default();
    assert_eq!(s.first_write_date.get_year(), 2014);
    assert_eq!(s.first_write_date.get_month(), 6);
    assert_eq!(s.first_write_date.get_day(), 10);
    assert_eq!(s.country_code, 105);
    assert_eq!(s.flags, 0);
}

#[test]
fn raw_parse_rejects_short_buffers() {
    let short = vec![0u8; RAW_FORMAT_SIZE - 1];
    assert!(matches!(RawFormat::parse(&short), Err(CodecError::TruncatedDump)));
    let exact = vec![0u8; RAW_FORMAT_SIZE];
    assert!(RawFormat::parse(&exact).is_ok());
}

#[test]
fn raw_parse_reads_fields_in_layout_order() {
    let mut dump = vec![0u8; RAW_FORMAT_SIZE];
    for (i, b) in dump.iter_mut().enumerate() {
        *b = (i % 251) as u8;
    }
    let raw = RawFormat::parse(&dump).unwrap();
    assert_eq!(raw.man_info_1.uid_p1, dump[0..3].to_vec());
    assert_eq!(raw.man_info_1.check_byte_1, dump[3]);
    assert_eq!(raw.man_info_1.uid_p2, dump[4..8].to_vec());
    assert_eq!(raw.man_info_2.check_byte_2, dump[8]);
    assert_eq!(raw.st_2.unk_0xa5, dump[16]);
    assert_eq!(raw.st_2.write_counter, dump[18]);
    assert_eq!(raw.enc_section_1, dump[20..52].to_vec());
    assert_eq!(raw.tag_sha256_hmac_hash, dump[52..84].to_vec());
    assert_eq!(
        raw.st_1.amiibo_id.game_character_id,
        u16::from_le_bytes([dump[84], dump[85]])
    );
    assert_eq!(raw.data_sha256_hmac_hash, dump[128..160].to_vec());
    assert_eq!(raw.enc_section_2, dump[160..436].to_vec());
    assert_eq!(raw.enc_section_3, dump[436..520].to_vec());
    assert_eq!(raw.dyn_lock.dyn_lock_bytes, dump[520..523].to_vec());
    assert_eq!(raw.cfg.cfg_0, dump[524..528].to_vec());

    let conv = ConvertedFormat::from_raw(&raw);
    let mut expected_enc = dump[20..52].to_vec();
    expected_enc.extend_from_slice(&dump[160..436]);
    expected_enc.extend_from_slice(&dump[436..520]);
    assert_eq!(conv.enc_data, expected_enc);
}

#[test]
fn drbg_matches_reference_hmac_chain() {
    let key = vec![7u8; 16];
    let seed = vec![1u8, 2, 3, 4, 5];
    let out = DrbgContext::gen_bytes(&key, &seed, 48);
    let mut msg0 = vec![0u8, 0];
    msg0.extend_from_slice(&seed);
    let mut msg1 = vec![0u8, 1];
    msg1.extend_from_slice(&seed);
    let mut expected = hmac_ref(&key, &msg0);
    expected.extend_from_slice(&hmac_ref(&key, &msg1));
    expected.truncate(48);
    assert_eq!(out, expected);
}

#[test]
fn drbg_context_steps_increment() {
    let mut ctx = DrbgContext::new(&[1u8; 16], &[9u8; 4]).unwrap();
    assert_eq!(ctx.iteration, 0);
    let b0 = ctx.step();
    assert_eq!(ctx.iteration, 1);
    let b1 = ctx.step();
    assert_eq!(b0.len(), 32);
    assert_ne!(b0, b1);
    let too_long = vec![0u8; 481];
    assert!(DrbgContext::new(&[1u8; 16], &too_long).is_err());
}

#[test]
fn key_derivation_is_deterministic_and_sensitive() {
    let key = sample_retail_key(3);
    let base: Vec<u8> = (0..64).map(|i| i as u8).collect();
    let a = emuiibo::crypto::DerivedKey::derive_from(&key, &base);
    let b = emuiibo::crypto::DerivedKey::derive_from(&key, &base);
    assert_eq!(a.aes_key, b.aes_key);
    assert_eq!(a.aes_iv, b.aes_iv);
    assert_eq!(a.hmac_key, b.hmac_key);
    // Avalanche sanity: one flipped bit changes the derived material.
    let mut base2 = base.clone();
    base2[0] ^= 1;
    let c = emuiibo::crypto::DerivedKey::derive_from(&key, &base2);
    assert_ne!(a.aes_key, c.aes_key);
    assert_ne!(a.aes_iv, c.aes_iv);
    assert_ne!(a.hmac_key, c.hmac_key);
}

#[test]
fn retail_key_set_parse_checks_sizes() {
    let mut file = vec![0u8; 160];
    file[31] = 14;
    file[111] = 14;
    assert!(RetailKeySet::parse(&file).is_ok());
    file[31] = 17;
    assert!(RetailKeySet::parse(&file).is_err());
    assert!(RetailKeySet::parse(&file[..159]).is_err());
}

// Builds a dump by running the inverse of the decryption pipeline, so
// that decrypting it recomputes exactly the stored integrity tags.
fn build_consistent_dump(key_set: &RetailKeySet) -> Vec<u8> {
    let mut dump = vec![0u8; RAW_FORMAT_SIZE];
    for (i, b) in dump.iter_mut().enumerate() {
        *b = (i * 7 % 253) as u8;
    }
    // A settings block with non-zero flags so nothing is reset.
    let mut settings: Settings = Default::default();
    settings.flags = 0x30;
    settings.write_counter = 0x1234;
    settings.access_id = 0x34f80200;
    settings.program_id = 0x0100abcd_0000_0001;
    let mut settings_bytes = Vec::new();
    settings.append_bytes(&mut settings_bytes);
    assert_eq!(settings_bytes.len(), SETTINGS_SIZE);
    let app_area = vec![0xabu8; APP_AREA_SIZE];

    let mut plain_payload = settings_bytes.clone();
    plain_payload.extend_from_slice(&app_area);
    assert_eq!(plain_payload.len(), ENC_DATA_SIZE);

    // Derive the keys from the dump's own base seed.
    let raw = RawFormat::parse(&dump).unwrap();
    let conv = ConvertedFormat::from_raw(&raw);
    let seed = KeyDerivationSeed::from_converted(&conv);
    let keys = DerivedKeySet::derive_from(key_set, &seed.bytes);

    // Encrypt (CTR: same transform as decryption).
    let mut enc = plain_payload.clone();
    let mut cipher =
        <ctr::Ctr128BE<aes::Aes128>>::new_from_slices(&keys.data_key.aes_key, &keys.data_key.aes_iv)
            .unwrap();
    cipher.apply_keystream(&mut enc);
    dump[20..52].copy_from_slice(&enc[0..32]);
    dump[160..436].copy_from_slice(&enc[32..308]);
    dump[436..520].copy_from_slice(&enc[308..392]);

    // Store the tags the pipeline will recompute.
    let tag_region: Vec<u8> = dump[0..8].iter().chain(dump[84..128].iter()).copied().collect();
    let tag_hash = hmac_ref(&key_set_tag_hmac(key_set, &seed.bytes), &tag_region);
    dump[52..84].copy_from_slice(&tag_hash);
    let mut data_region = dump[17..20].to_vec();
    data_region.extend_from_slice(&plain_payload);
    data_region.extend_from_slice(&tag_hash);
    data_region.extend_from_slice(&dump[0..8]);
    data_region.extend_from_slice(&dump[84..128]);
    let data_hash = hmac_ref(&key_set_data_hmac(key_set, &seed.bytes), &data_region);
    dump[128..160].copy_from_slice(&data_hash);
    dump
}

fn key_set_tag_hmac(key_set: &RetailKeySet, base_seed: &[u8]) -> Vec<u8> {
    DerivedKeySet::derive_from(key_set, base_seed).tag_key.hmac_key
}

fn key_set_data_hmac(key_set: &RetailKeySet, base_seed: &[u8]) -> Vec<u8> {
    DerivedKeySet::derive_from(key_set, base_seed).data_key.hmac_key
}

#[test]
fn decrypt_then_recompute_matches_stored_tags() {
    let key_set = sample_key_set();
    let dump = build_consistent_dump(&key_set);
    let raw = RawFormat::parse(&dump).unwrap();
    let conv = ConvertedFormat::from_raw(&raw);
    let plain = PlainFormat::decrypt_from_converted(&conv, &key_set);
    assert_eq!(plain.tag_sha256_hmac_hash, conv.tag_sha256_hmac_hash);
    assert_eq!(plain.data_sha256_hmac_hash, conv.data_sha256_hmac_hash);
    assert_eq!(plain.dec_data.settings.flags, 0x30);
    assert_eq!(plain.dec_data.settings.write_counter, 0x1234);
    assert_eq!(plain.dec_data.settings.access_id, 0x34f80200);
    assert_eq!(plain.dec_data.app_area, vec![0xabu8; APP_AREA_SIZE]);
}

#[test]
fn decrypt_resets_never_activated_settings() {
    let key_set = sample_key_set();
    // All-zero ciphertext decrypting to a zero flags byte is unlikely,
    // so build the dump with a zero-flag settings block explicitly.
    let mut dump = vec![0u8; RAW_FORMAT_SIZE];
    let raw = RawFormat::parse(&dump).unwrap();
    let conv = ConvertedFormat::from_raw(&raw);
    let seed = KeyDerivationSeed::from_converted(&conv);
    let keys = DerivedKeySet::derive_from(&key_set, &seed.bytes);
    let plain_payload = vec![0u8; ENC_DATA_SIZE];
    let mut enc = plain_payload;
    let mut cipher =
        <ctr::Ctr128BE<aes::Aes128>>::new_from_slices(&keys.data_key.aes_key, &keys.data_key.aes_iv)
            .unwrap();
    cipher.apply_keystream(&mut enc);
    dump[20..52].copy_from_slice(&enc[0..32]);
    dump[160..436].copy_from_slice(&enc[32..308]);
    dump[436..520].copy_from_slice(&enc[308..392]);
    let raw = RawFormat::parse(&dump).unwrap();
    let conv = ConvertedFormat::from_raw(&raw);
    let plain = PlainFormat::decrypt_from_converted(&conv, &key_set);
    // The decrypted flags byte is zero, so the block is reset to the
    // defaults: region code 105 and the default dates.
    assert_eq!(plain.dec_data.settings.country_code, 105);
    assert_eq!(plain.dec_data.settings.first_write_date.get_year(), 2014);
}

#[test]
fn to_virtual_amiibo_maps_fields() {
    let key_set = sample_key_set();
    let dump = build_consistent_dump(&key_set);
    let raw = RawFormat::parse(&dump).unwrap();
    let conv = ConvertedFormat::from_raw(&raw);
    let plain = PlainFormat::decrypt_from_converted(&conv, &key_set);
    let (info, areas) = plain
        .to_virtual_amiibo("sdmc:/emuiibo/amiibo/test", "mii-charinfo.bin")
        .unwrap();
    // The UUID is the first ten manufacturer bytes of the dump.
    assert_eq!(info.uuid, dump[0..10].to_vec());
    assert!(!info.use_random_uuid);
    assert_eq!(info.version, 0);
    assert_eq!(info.write_counter, 0x1234);
    // The model number's byte order is reversed on the way out.
    let le = u16::from_le_bytes([dump[88], dump[89]]);
    assert_eq!(info.id.model_number, le.swap_bytes());
    // The default settings name is empty, so the name falls back to
    // the path's file name.
    assert_eq!(info.name, "test");
    // The application-area-used flag is set, so one area is directed.
    assert_eq!(areas.areas.len(), 1);
    assert_eq!(areas.areas[0].access_id, 0x34f80200);
    assert_eq!(areas.current_area_access_id, 0x34f80200);
}

#[test]
fn stored_names_decode_and_surrogates_are_rejected() {
    let mut settings: Settings = Default::default();
    settings.flags = 0x10;
    let mut units = vec![0u16; 10];
    for (i, c) in "Mario".chars().enumerate() {
        units[i] = c as u16;
    }
    settings.name_units = units;
    let plain = plain_with_settings(settings);
    let (info, _areas) = plain.to_virtual_amiibo("a/b", "mii-charinfo.bin").unwrap();
    assert_eq!(info.name, "Mario");
    // A lone surrogate half in the used prefix is invalid name data.
    let mut settings: Settings = Default::default();
    settings.name_units = vec![0xd800u16, 0, 0, 0, 0, 0, 0, 0, 0, 0];
    let plain = plain_with_settings(settings);
    assert!(matches!(
        plain.to_virtual_amiibo("a/b", "m"),
        Err(CodecError::InvalidNameEncoding)
    ));
}

fn plain_with_settings(settings: Settings) -> PlainFormat {
    let dump = vec![0u8; RAW_FORMAT_SIZE];
    let raw = RawFormat::parse(&dump).unwrap();
    let conv = ConvertedFormat::from_raw(&raw);
    let mut plain = PlainFormat::from_converted(&conv);
    plain.dec_data.settings = settings;
    plain
}

#[test]
fn path_helpers_split_names() {
    assert_eq!(get_path_file_name("sdmc:/emuiibo/amiibo/mario"), "mario");
    assert_eq!(get_path_file_name("mario"), "mario");
    assert_eq!(get_path_file_name("a/b/"), "");
    assert_eq!(get_path_without_extension("a/b/dump.bin"), "a/b/dump");
    assert_eq!(get_path_without_extension("a/b/dump"), "a/b/dump");
    assert_eq!(get_path_file_name_without_extension("a/b/dump.bin".to_string().as_str()), "dump");
}

#[test]
fn plain_from_converted_without_keys_keeps_identity() {
    let mut dump = vec![0u8; RAW_FORMAT_SIZE];
    for (i, b) in dump.iter_mut().enumerate() {
        *b = (i % 256) as u8;
    }
    let raw = RawFormat::parse(&dump).unwrap();
    let conv = ConvertedFormat::from_raw(&raw);
    let plain = PlainFormat::from_converted(&conv);
    let (info, areas) = plain
        .to_virtual_amiibo("sdmc:/emuiibo/amiibo/nokeys", "mii-charinfo.bin")
        .unwrap();
    // Identity and UUID live outside the encrypted region and are
    // still recovered; settings-borne fields stay at defaults.
    assert_eq!(info.uuid, dump[0..10].to_vec());
    assert_eq!(info.write_counter, 0);
    assert!(areas.areas.is_empty());
    assert_eq!(plain.tag_sha256_hmac_hash, conv.tag_sha256_hmac_hash);
}

#[test]
fn import_pipeline_reports_advisory_mismatches() {
    let key_set = sample_key_set();
    let dump = build_consistent_dump(&key_set);
    let imported = emuiibo::compat::import_raw_dump(
        &dump,
        Some(&key_set),
        "sdmc:/emuiibo/amiibo/imported",
        "mii-charinfo.bin",
    )
    .unwrap();
    assert!(imported.tag_hash_matched);
    assert!(imported.data_hash_matched);
    assert_eq!(imported.info.uuid, dump[0..10].to_vec());
    // A corrupted stored tag still imports; the mismatch is advisory.
    let mut corrupted = dump.clone();
    corrupted[52] ^= 0xff;
    let imported = emuiibo::compat::import_raw_dump(
        &corrupted,
        Some(&key_set),
        "sdmc:/emuiibo/amiibo/imported",
        "mii-charinfo.bin",
    )
    .unwrap();
    assert!(!imported.tag_hash_matched);
    assert!(imported.data_hash_matched);
    // Without a key set the import still succeeds on the same dump.
    let imported = emuiibo::compat::import_raw_dump(
        &dump,
        None,
        "sdmc:/emuiibo/amiibo/imported",
        "mii-charinfo.bin",
    )
    .unwrap();
    assert!(imported.tag_hash_matched);
    assert_eq!(imported.info.write_counter, 0);
    // A truncated buffer is the one hard failure.
    assert!(matches!(
        emuiibo::compat::import_raw_dump(&dump[..100], None, "p", "m"),
        Err(CodecError::TruncatedDump)
    ));
}

#[test]
fn area_file_names_round_trip() {
    let name = format_area_file_name(0x34f80200);
    assert_eq!(name, "0x34F80200.bin");
    assert_eq!(parse_area_file_name(&name), Some(0x34f80200));
    assert_eq!(parse_area_file_name("0xdeadBEEF.bin"), Some(0xdeadbeef));
    assert_eq!(parse_area_file_name("0x1234.bin"), None);
    assert_eq!(parse_area_file_name("0xGGGGGGGG.bin"), None);
    assert_eq!(parse_area_file_name("1x34F80200.bin"), None);
    assert_eq!(parse_area_file_name("0x34F80200.txt"), None);
}

#[test]
fn hex_and_date_conversions() {
    assert_eq!(
        convert_from_hex("00224466CCDDEEFF").unwrap(),
        vec![0x00, 0x22, 0x44, 0x66, 0xcc, 0xdd, 0xee, 0xff]
    );
    assert_eq!(convert_from_hex("abc"), None);
    assert_eq!(convert_from_hex("zz"), None);
    let id = convert_amiibo_id("01020304050607FF").unwrap();
    assert_eq!(id.game_character_id, 0x0201);
    assert_eq!(id.character_variant, 3);
    assert_eq!(id.figure_type, 4);
    assert_eq!(id.model_number, 0x0605);
    assert_eq!(id.series, 7);
    let triple = emuiibo::compat::convert_date_triple(&vec![2020, 12, 12]).unwrap();
    assert_eq!((triple.y, triple.m, triple.d), (2020, 12, 12));
    assert_eq!(emuiibo::compat::convert_date_triple(&vec![2020, 12]), None);
    assert_eq!(emuiibo::compat::convert_date_triple(&vec![2020, 300, 1]), None);
    let info = emuiibo::compat::convert_v3_record(
        "2020-12-12",
        "2021-01-01",
        "00224466CCDDEEFF",
        Some("001122334455AABBCCDD"),
        "MyCoolAmiibo".to_string(),
        "mii-charinfo.bin".to_string(),
        0,
        1234,
    )
    .unwrap();
    assert_eq!(info.name, "MyCoolAmiibo");
    assert_eq!(info.id.game_character_id, 0x2200);
    assert_eq!(info.uuid, vec![0x00, 0x11, 0x22, 0x33, 0x44, 0x55, 0xaa, 0xbb, 0xcc, 0xdd]);
    assert_eq!(info.write_counter, 1234);
    // A missing legacy UUID gets a fresh random one.
    let info = emuiibo::compat::convert_v3_record(
        "2020-12-12",
        "2021-01-01",
        "00224466CCDDEEFF",
        None,
        "n".to_string(),
        "m".to_string(),
        0,
        0,
    )
    .unwrap();
    assert_eq!(info.uuid.len(), 10);
    assert_eq!(&info.uuid[7..], &[0, 0, 0]);
    assert!(emuiibo::compat::convert_v3_record(
        "2020-1x-12",
        "2021-01-01",
        "00224466CCDDEEFF",
        None,
        "n".to_string(),
        "m".to_string(),
        0,
        0,
    )
    .is_none());
    let date = convert_date("2020-12-31").unwrap();
    assert_eq!((date.y, date.m, date.d), (2020, 12, 31));
    // The separator positions are not inspected, only the digit runs.
    assert_eq!(
        convert_date("2020/12/31"),
        Some(emuiibo::fmt::VirtualAmiiboDate { y: 2020, m: 12, d: 31 })
    );
    assert_eq!(convert_date("2020-AB-31"), None);
    assert_eq!(convert_date("20-1-1"), None);
}
