// Tests of the virtual figurine data model, its JSON value codec, the
// loader, and the shared emulation context.

use emuiibo::area::{push_access_id_cache, AreaStore};
use emuiibo::emu;
use emuiibo::fmt::{
    VirtualAmiibo, VirtualAmiiboAreaEntry, VirtualAmiiboAreaInfo, VirtualAmiiboDate,
    VirtualAmiiboId, VirtualAmiiboInfo, VirtualAmiiboUuidInfo, DEFAULY_EMPTY_AREA_PROGRAM_ID,
};
use emuiibo::json::{
    from_json_areas, from_json_info, to_json_areas, to_json_info, JsonDoc, JsonItem, JsonScalar,
};
use emuiibo::loader::{try_load, try_parse_virtual_amiibo};
use emuiibo::rc::EmuError;
use emuiibo::sf;

fn sample_info() -> VirtualAmiiboInfo {
    VirtualAmiiboInfo {
        first_write_date: VirtualAmiiboDate { y: 2020, m: 12, d: 12 },
        id: VirtualAmiiboId {
            game_character_id: 0x1234,
            character_variant: 2,
            figure_type: 1,
            model_number: 0x0102,
            series: 9,
        },
        last_write_date: VirtualAmiiboDate { y: 2021, m: 1, d: 3 },
        mii_charinfo_file: "mii-charinfo.bin".to_string(),
        name: "MyCoolAmiibo".to_string(),
        uuid: vec![1, 2, 3, 4, 5, 6, 7, 0, 0, 0],
        use_random_uuid: false,
        version: 0,
        write_counter: 7,
    }
}

fn sample_amiibo() -> VirtualAmiibo {
    VirtualAmiibo::new(
        sample_info(),
        vec![0x11; 88],
        VirtualAmiiboAreaInfo::empty(),
        "sdmc:/emuiibo/amiibo/my".to_string(),
    )
}

#[test]
fn record_round_trips_through_json_values() {
    let info = sample_info();
    let doc = to_json_info(&info);
    let back = from_json_info(&doc).unwrap();
    assert_eq!(back.first_write_date, info.first_write_date);
    assert_eq!(back.id, info.id);
    assert_eq!(back.last_write_date, info.last_write_date);
    assert_eq!(back.mii_charinfo_file, info.mii_charinfo_file);
    assert_eq!(back.name, info.name);
    assert_eq!(back.uuid, Some(info.uuid.clone()));
    assert_eq!(back.use_random_uuid, Some(info.use_random_uuid));
    assert_eq!(back.version, info.version);
    assert_eq!(back.write_counter, info.write_counter);
}

#[test]
fn areas_round_trip_through_json_values() {
    let areas = VirtualAmiiboAreaInfo {
        areas: vec![
            VirtualAmiiboAreaEntry { program_id: 0x0100_0000_0000_0001, access_id: 0x10 },
            VirtualAmiiboAreaEntry { program_id: 0x0100_0000_0000_0002, access_id: 0x20 },
        ],
        current_area_access_id: 0x20,
    };
    let doc = to_json_areas(&areas);
    let back = from_json_areas(&doc).unwrap();
    assert_eq!(back.areas.len(), 2);
    assert_eq!(back.areas[0].program_id, 0x0100_0000_0000_0001);
    assert_eq!(back.areas[1].access_id, 0x20);
    assert_eq!(back.current_area_access_id, 0x20);
}

#[test]
fn from_json_rejects_malformed_records() {
    let doc = JsonDoc { fields: vec![] };
    assert!(matches!(from_json_info(&doc), Err(EmuError::InvalidJsonDeserialization)));
    // A record whose version does not fit a byte is rejected.
    let mut doc = to_json_info(&sample_info());
    for field in doc.fields.iter_mut() {
        if field.0 == "version" {
            field.1 = JsonItem::Scalar(JsonScalar::UInt(256));
        }
    }
    assert!(from_json_info(&doc).is_err());
}

#[test]
fn loader_reports_missing_pieces() {
    let ids: Vec<u32> = vec![];
    let r = try_load(false, None, None, &ids, vec![], "p".to_string());
    assert!(matches!(r, Err(EmuError::VirtualAmiiboFlagNotFound)));
    let r = try_load(true, None, None, &ids, vec![], "p".to_string());
    assert!(matches!(r, Err(EmuError::VirtualAmiiboJsonNotFound)));
}

#[test]
fn loader_pins_the_malformed_document_error() {
    let ids: Vec<u32> = vec![];
    // A present but unreadable primary record.
    let empty = JsonDoc { fields: vec![] };
    let r = try_load(true, Some(&empty), None, &ids, vec![], "p".to_string());
    assert!(matches!(r, Err(EmuError::InvalidJsonDeserialization)));
    // A good record next to an unreadable area directory.
    let record = to_json_info(&sample_info());
    let bad_areas = JsonDoc { fields: vec![] };
    let r = try_load(true, Some(&record), Some(&bad_areas), &ids, vec![], "p".to_string());
    assert!(matches!(r, Err(EmuError::InvalidJsonDeserialization)));
}

#[test]
fn try_parse_summarizes_or_rejects() {
    let ids: Vec<u32> = vec![];
    let record = to_json_info(&sample_info());
    let data = try_parse_virtual_amiibo(
        true,
        Some(&record),
        None,
        &ids,
        vec![4; 88],
        "dir/fig".to_string(),
    )
    .unwrap();
    assert_eq!(data.name, "MyCoolAmiibo");
    assert_eq!(data.uuid_info.uuid, sample_info().uuid);
    assert_eq!((data.first_write_date.year, data.first_write_date.month), (2020, 12));
    assert_eq!(data.last_write_date.year, 2021);
    // An empty backing path is not a valid figurine.
    let r = try_parse_virtual_amiibo(true, Some(&record), None, &ids, vec![], "".to_string());
    assert!(matches!(r, Err(EmuError::InvalidLoadedVirtualAmiibo)));
    // A stored UUID shorter than ten bytes is rejected as invalid.
    let mut short = sample_info();
    short.uuid = vec![1, 2, 3];
    let record = to_json_info(&short);
    let r = try_parse_virtual_amiibo(true, Some(&record), None, &ids, vec![], "p".to_string());
    assert!(matches!(r, Err(EmuError::InvalidLoadedVirtualAmiibo)));
    // The loader's own failures pass through.
    let r = try_parse_virtual_amiibo(false, None, None, &ids, vec![], "p".to_string());
    assert!(matches!(r, Err(EmuError::VirtualAmiiboFlagNotFound)));
}

#[test]
fn loader_assigns_uuid_to_legacy_records() {
    // A record JSON with no uuid field at all.
    let mut doc = to_json_info(&sample_info());
    doc.fields.retain(|f| f.0 != "uuid" && f.0 != "use_random_uuid");
    let ids: Vec<u32> = vec![];
    let loaded = try_load(true, Some(&doc), None, &ids, vec![7; 88], "dir/fig".to_string())
        .unwrap();
    assert!(loaded.record_upgraded);
    assert!(loaded.areas_synthesized);
    let uuid = loaded.amiibo.info.uuid.clone();
    assert_eq!(uuid.len(), 10);
    assert_eq!(&uuid[7..], &[0, 0, 0]);
    assert!(loaded.amiibo.info.use_random_uuid);
    // Persisting the upgrade and re-loading yields the same UUID.
    let saved = to_json_info(&loaded.amiibo.info);
    let reloaded = try_load(true, Some(&saved), None, &ids, vec![7; 88], "dir/fig".to_string())
        .unwrap();
    assert!(!reloaded.record_upgraded);
    assert_eq!(reloaded.amiibo.info.uuid, uuid);
}

#[test]
fn loader_clears_missing_use_random_flag() {
    let mut doc = to_json_info(&sample_info());
    doc.fields.retain(|f| f.0 != "use_random_uuid");
    let ids: Vec<u32> = vec![];
    let loaded = try_load(true, Some(&doc), None, &ids, vec![], "p".to_string()).unwrap();
    assert!(loaded.record_upgraded);
    assert!(!loaded.amiibo.info.use_random_uuid);
    assert_eq!(loaded.amiibo.info.uuid, sample_info().uuid);
}

#[test]
fn loader_synthesizes_areas_from_disk() {
    let doc = to_json_info(&sample_info());
    let ids: Vec<u32> = vec![0x34f80200, 0x99];
    let loaded = try_load(true, Some(&doc), None, &ids, vec![], "p".to_string()).unwrap();
    let areas = &loaded.amiibo.areas;
    assert_eq!(areas.areas.len(), 2);
    assert_eq!(areas.areas[0].access_id, 0x34f80200);
    assert_eq!(areas.areas[0].program_id, DEFAULY_EMPTY_AREA_PROGRAM_ID);
    assert_eq!(areas.current_area_access_id, 0x34f80200);
}

#[test]
fn write_counter_saturates() {
    let mut amiibo = sample_amiibo();
    amiibo.info.write_counter = 0xfffe;
    amiibo.notify_written();
    assert_eq!(amiibo.info.write_counter, 0xffff);
    amiibo.notify_written();
    assert_eq!(amiibo.info.write_counter, 0xffff);
    // min(C + N, 0xffff) from a small start.
    let mut amiibo = sample_amiibo();
    amiibo.info.write_counter = 41;
    for _ in 0..5 {
        amiibo.notify_written();
    }
    assert_eq!(amiibo.info.write_counter, 46);
}

fn current_is_zero_or_listed(amiibo: &VirtualAmiibo) -> bool {
    let cur = amiibo.areas.current_area_access_id;
    cur == 0 || amiibo.areas.areas.iter().any(|e| e.access_id == cur)
}

#[test]
fn area_lifecycle_invariant_over_sequences() {
    let mut amiibo = sample_amiibo();
    assert!(current_is_zero_or_listed(&amiibo));
    assert!(amiibo.register_area(0x10, 1));
    assert!(current_is_zero_or_listed(&amiibo));
    assert!(!amiibo.register_area(0x10, 2));
    assert!(amiibo.set_current_area(0x20));
    assert!(current_is_zero_or_listed(&amiibo));
    assert_eq!(amiibo.areas.current_area_access_id, 0x20);
    let deleted = amiibo.delete_current_area();
    assert_eq!(deleted, 0x20);
    assert!(current_is_zero_or_listed(&amiibo));
    assert_eq!(amiibo.areas.current_area_access_id, 0x10);
    amiibo.delete_all_areas();
    assert!(current_is_zero_or_listed(&amiibo));
    assert_eq!(amiibo.areas.current_area_access_id, 0);
    assert!(amiibo.areas.areas.is_empty());
}

#[test]
fn update_area_program_id_rewrites_owner() {
    let mut amiibo = sample_amiibo();
    amiibo.update_area_program_id(0x42, 0xbeef);
    assert_eq!(amiibo.areas.areas.len(), 1);
    assert_eq!(amiibo.areas.areas[0].program_id, 0xbeef);
    assert_eq!(amiibo.get_current_area(), None);
    assert!(amiibo.set_current_area(0x42));
    let cur = amiibo.get_current_area().unwrap();
    assert_eq!(cur.access_id, 0x42);
    assert_eq!(cur.program_id, 0xbeef);
}

#[test]
fn projections_reflect_the_record() {
    let mut amiibo = sample_amiibo();
    let common = amiibo.produce_common_info();
    assert_eq!(common.write_counter, 7);
    assert_eq!(common.application_area_size, 0xd8);
    let model = amiibo.produce_model_info();
    assert_eq!(model.game_character_id, 0x1234);
    assert_eq!(model.model_number, 0x0102);
    let tag = amiibo.produce_tag_info();
    assert_eq!(tag.uuid_length, 10);
    assert_eq!(tag.uuid, sample_info().uuid);
    assert_eq!(tag.protocol, u32::MAX);
    // With the random flag set, every query gets a fresh UUID with the
    // last three bytes zero.
    amiibo.info.use_random_uuid = true;
    let tag = amiibo.produce_tag_info();
    assert_eq!(tag.uuid.len(), 10);
    assert_eq!(&tag.uuid[7..], &[0, 0, 0]);
    // Admin info with no selected area: the sentinel owner, the
    // initialized flag alone, and the Switch console family.
    let admin = amiibo.produce_admin_info();
    assert_eq!(admin.program_id, DEFAULY_EMPTY_AREA_PROGRAM_ID);
    assert_eq!(admin.access_id, 0);
    assert_eq!(admin.flags, sf::ADMIN_FLAG_IS_INITIALIZED);
    assert_eq!(admin.console_family, sf::ConsoleFamily::NintendoSwitch);
    // With a selected 3DS-owned area both flags are set.
    assert!(amiibo.set_current_area(0x77));
    amiibo.update_area_program_id(0x77, 0x0004_0000_0000_0001);
    let admin = amiibo.produce_admin_info();
    assert_eq!(admin.access_id, 0x77);
    assert_eq!(
        admin.flags,
        sf::ADMIN_FLAG_IS_INITIALIZED | sf::ADMIN_FLAG_HAS_APPLICATION_AREA
    );
    assert_eq!(admin.console_family, sf::ConsoleFamily::Nintendo3DS);
    // A long name is clamped to ten characters in register info.
    amiibo.info.name = "ABCDEFGHIJKLMNOP".to_string();
    let reg = amiibo.produce_register_info();
    assert_eq!(reg.name, "ABCDEFGHIJ");
}

#[test]
fn area_store_clamps_reads_and_writes() {
    let mut store = AreaStore::new();
    assert!(!store.contains(5));
    store.create(5, vec![1, 2, 3, 4]);
    assert!(store.contains(5));
    assert_eq!(store.get_size(5), Some(4));
    assert_eq!(store.read_clamped(5, 2), Some(vec![1, 2]));
    assert_eq!(store.read_clamped(5, 100), Some(vec![1, 2, 3, 4]));
    assert_eq!(store.read_clamped(6, 2), None);
    // A long write is clamped to the stored size.
    assert_eq!(store.write_clamped(5, &[9, 9, 9, 9, 9, 9]), Some(4));
    assert_eq!(store.read_clamped(5, 100), Some(vec![9, 9, 9, 9]));
    // A short write shrinks the blob.
    assert_eq!(store.write_clamped(5, &[7]), Some(1));
    assert_eq!(store.get_size(5), Some(1));
    assert_eq!(store.write_clamped(6, &[1]), None);
    store.delete(5);
    assert!(!store.contains(5));
}

#[test]
fn access_id_cache_updates_in_place() {
    let mut cache: Vec<VirtualAmiiboAreaEntry> = vec![];
    push_access_id_cache(&mut cache, 100, 1);
    push_access_id_cache(&mut cache, 200, 2);
    push_access_id_cache(&mut cache, 100, 3);
    assert_eq!(cache.len(), 2);
    assert_eq!(cache[0].program_id, 100);
    assert_eq!(cache[0].access_id, 3);
    assert_eq!(cache[1].access_id, 2);
}

#[test]
fn context_tracks_status_and_interception() {
    let mut ctx = emu::EmuContext::new();
    assert_eq!(emu::get_emulation_status(&ctx), emu::EmulationStatus::Off);
    emu::load_emulation_status(&mut ctx, true);
    assert_eq!(emu::get_emulation_status(&ctx), emu::EmulationStatus::On);
    emu::set_emulation_status(&mut ctx, emu::EmulationStatus::Off);
    assert_eq!(emu::get_emulation_status(&ctx), emu::EmulationStatus::Off);

    assert_eq!(emu::get_active_virtual_amiibo_status(&ctx), emu::VirtualAmiiboStatus::Invalid);
    emu::set_active_virtual_amiibo(&mut ctx, Some(sample_amiibo()));
    assert_eq!(emu::get_active_virtual_amiibo_status(&ctx), emu::VirtualAmiiboStatus::Connected);
    emu::set_active_virtual_amiibo_status(&mut ctx, emu::VirtualAmiiboStatus::Disconnected);
    assert_eq!(
        emu::get_active_virtual_amiibo_status(&ctx),
        emu::VirtualAmiiboStatus::Disconnected
    );
    emu::reset_active_virtual_amiibo(&mut ctx);
    assert_eq!(emu::get_active_virtual_amiibo_status(&ctx), emu::VirtualAmiiboStatus::Invalid);

    emu::register_intercepted_application_id(&mut ctx, 0xaaaa);
    emu::register_intercepted_application_id(&mut ctx, 0xbbbb);
    assert!(emu::is_application_id_intercepted(&ctx, 0xaaaa));
    emu::unregister_intercepted_application_id(&mut ctx, 0xaaaa);
    assert!(!emu::is_application_id_intercepted(&ctx, 0xaaaa));
    assert!(emu::is_application_id_intercepted(&ctx, 0xbbbb));
}

#[test]
fn control_plane_area_selection() {
    let mut ctx = emu::EmuContext::new();
    assert!(matches!(
        emu::set_active_virtual_amiibo_current_area(&mut ctx, 0x10),
        Err(EmuError::InvalidActiveVirtualAmiibo)
    ));
    emu::set_active_virtual_amiibo(&mut ctx, Some(sample_amiibo()));
    assert!(matches!(
        emu::get_active_virtual_amiibo_current_area(&ctx),
        Err(EmuError::InvalidVirtualAmiiboAccessId)
    ));
    emu::set_active_virtual_amiibo_current_area(&mut ctx, 0x10).unwrap();
    assert_eq!(emu::get_active_virtual_amiibo_current_area(&ctx), Ok(0x10));
    let areas = emu::get_active_virtual_amiibo_areas(&ctx, 8).unwrap();
    assert_eq!(areas.len(), 1);
    assert_eq!(areas[0].access_id, 0x10);
    emu::set_active_virtual_amiibo_uuid_info(
        &mut ctx,
        VirtualAmiiboUuidInfo { use_random_uuid: true, uuid: vec![9; 10] },
    )
    .unwrap();
    let data = emu::get_active_virtual_amiibo(&ctx).unwrap();
    assert_eq!(data.uuid_info.uuid, vec![9; 10]);
    assert!(data.uuid_info.use_random_uuid);
    let version = emu::current_version();
    assert_eq!((version.major, version.minor, version.micro), (1, 1, 1));
    assert_eq!(emu::get_virtual_amiibo_directory(), "sdmc:/emuiibo/amiibo");
}
