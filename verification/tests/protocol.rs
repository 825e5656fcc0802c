// Tests of the per-session emulation protocol state machine: the
// command table, the poller transitions, and the two driver-facing
// scenarios.

use emuiibo::area::AreaStore;
use emuiibo::emu::{self, EmuContext, VirtualAmiiboStatus};
use emuiibo::fmt::{
    VirtualAmiibo, VirtualAmiiboAreaInfo, VirtualAmiiboDate, VirtualAmiiboId, VirtualAmiiboInfo,
};
use emuiibo::nfp::{EmulationHandler, PollEvent};
use emuiibo::rc::NfpError;
use emuiibo::sf;

fn handle() -> sf::DeviceHandle {
    sf::DeviceHandle { id: 0 }
}

fn sample_amiibo() -> VirtualAmiibo {
    VirtualAmiibo::new(
        VirtualAmiiboInfo {
            first_write_date: VirtualAmiiboDate { y: 2020, m: 6, d: 1 },
            id: VirtualAmiiboId {
                game_character_id: 1,
                character_variant: 0,
                figure_type: 0,
                model_number: 0,
                series: 0,
            },
            last_write_date: VirtualAmiiboDate { y: 2020, m: 6, d: 2 },
            mii_charinfo_file: "mii-charinfo.bin".to_string(),
            name: "fig".to_string(),
            uuid: vec![1, 2, 3, 4, 5, 6, 7, 0, 0, 0],
            use_random_uuid: false,
            version: 0,
            write_counter: 0,
        },
        vec![0x22; 88],
        VirtualAmiiboAreaInfo::empty(),
        "sdmc:/emuiibo/amiibo/fig".to_string(),
    )
}

fn ready_session() -> (EmulationHandler, EmuContext, AreaStore) {
    let mut handler = EmulationHandler::new(0x0100_0000_dead_beef);
    let mut ctx = EmuContext::new();
    emu::set_active_virtual_amiibo(&mut ctx, Some(sample_amiibo()));
    handler.initialize().unwrap();
    handler.start_detection(handle()).unwrap();
    let ev = handler.handle_virtual_amiibo_status(VirtualAmiiboStatus::Connected);
    assert_eq!(ev, Some(PollEvent::Activate));
    handler.mount(handle(), 0, 0).unwrap();
    (handler, ctx, AreaStore::new())
}

#[test]
fn scenario_detection_and_activation() {
    // Initialize, StartDetection, then a Connected observation flips
    // the device to TagFound and signals the activate event exactly
    // once.
    let mut handler = EmulationHandler::new(1);
    assert_eq!(handler.get_state(), sf::State::NonInitialized);
    assert_eq!(handler.get_device_state(handle()), sf::DeviceState::Unavailable);
    handler.initialize().unwrap();
    assert_eq!(handler.get_state(), sf::State::Initialized);
    assert_eq!(handler.get_device_state(handle()), sf::DeviceState::Initialized);
    handler.start_detection(handle()).unwrap();
    assert_eq!(handler.get_device_state(handle()), sf::DeviceState::SearchingForTag);
    let ev = handler.handle_virtual_amiibo_status(VirtualAmiiboStatus::Connected);
    assert_eq!(ev, Some(PollEvent::Activate));
    assert_eq!(handler.get_device_state(handle()), sf::DeviceState::TagFound);
    // A second identical observation signals nothing more.
    let ev = handler.handle_virtual_amiibo_status(VirtualAmiiboStatus::Connected);
    assert_eq!(ev, None);
    // A Disconnected observation sends the device back to searching.
    let ev = handler.handle_virtual_amiibo_status(VirtualAmiiboStatus::Disconnected);
    assert_eq!(ev, Some(PollEvent::Deactivate));
    assert_eq!(handler.get_device_state(handle()), sf::DeviceState::SearchingForTag);
}

#[test]
fn scenario_application_area_create_and_open() {
    // Mount, create an area of 216 zero bytes, fail to create it a
    // second time, open it, and read the zeros back.
    let (mut handler, mut ctx, mut store) = ready_session();
    let zeros = vec![0u8; 216];
    handler
        .create_application_area(&mut ctx, &mut store, handle(), 0x34f80200, &zeros)
        .unwrap();
    let again =
        handler.create_application_area(&mut ctx, &mut store, handle(), 0x34f80200, &zeros);
    assert_eq!(again, Err(NfpError::AreaNeedsToBeCreated));
    handler.open_application_area(&mut ctx, &store, handle(), 0x34f80200).unwrap();
    let data = handler.get_application_area(&store, handle(), 1024).unwrap();
    assert_eq!(data, zeros);
    assert_eq!(handler.get_application_area_size(&store, handle()), Ok(216));
    // Opening records the caller as the area's owner.
    let amiibo = ctx.active_virtual_amiibo.as_ref().unwrap();
    assert_eq!(amiibo.areas.areas[0].program_id, 0x0100_0000_dead_beef);
    // The create and the open's bookkeeping counted one write.
    assert_eq!(amiibo.info.write_counter, 1);
}

#[test]
fn commands_fail_outside_their_states() {
    let mut handler = EmulationHandler::new(2);
    let mut ctx = EmuContext::new();
    let mut store = AreaStore::new();
    // Nothing but Initialize is accepted while uninitialized.
    assert_eq!(handler.finalize(), Err(NfpError::DeviceNotFound));
    assert_eq!(handler.start_detection(handle()), Err(NfpError::DeviceNotFound));
    assert_eq!(handler.stop_detection(handle()), Err(NfpError::DeviceNotFound));
    assert_eq!(handler.mount(handle(), 0, 0), Err(NfpError::DeviceNotFound));
    assert_eq!(handler.unmount(handle()), Err(NfpError::DeviceNotFound));
    assert_eq!(handler.list_devices(true), Err(NfpError::DeviceNotFound));
    assert_eq!(handler.get_npad_id(handle()), Err(NfpError::DeviceNotFound));
    assert_eq!(handler.flush(handle()), Err(NfpError::DeviceNotFound));
    assert_eq!(
        handler.get_tag_info(&ctx, handle()),
        Err(NfpError::DeviceNotFound)
    );
    // Initialize twice fails the second time.
    handler.initialize().unwrap();
    assert_eq!(handler.initialize(), Err(NfpError::DeviceNotFound));
    // Detection is legal only from Initialized or TagRemoved.
    handler.start_detection(handle()).unwrap();
    assert_eq!(handler.start_detection(handle()), Err(NfpError::DeviceNotFound));
    // Mounting requires a found tag.
    assert_eq!(handler.mount(handle(), 0, 0), Err(NfpError::DeviceNotFound));
    handler.handle_virtual_amiibo_status(VirtualAmiiboStatus::Connected);
    handler.mount(handle(), 0, 0).unwrap();
    // Mounted-tag commands still require an active figurine.
    assert_eq!(
        handler.get_register_info(&ctx, handle()),
        Err(NfpError::DeviceNotFound)
    );
    assert_eq!(
        handler.create_application_area(&mut ctx, &mut store, handle(), 1, &[0]),
        Err(NfpError::DeviceNotFound)
    );
    // Reading an area with none opened reports the ordering error.
    assert_eq!(
        handler.get_application_area(&store, handle(), 16),
        Err(NfpError::AreaNeedsToBeCreated)
    );
    // Unmount returns the tag to found; mounted-only commands now fail.
    handler.unmount(handle()).unwrap();
    assert_eq!(handler.get_device_state(handle()), sf::DeviceState::TagFound);
    emu::set_active_virtual_amiibo(&mut ctx, Some(sample_amiibo()));
    assert_eq!(
        handler.get_common_info(&ctx, handle()),
        Err(NfpError::DeviceNotFound)
    );
    // Tag info is legal already from the found state.
    assert!(handler.get_tag_info(&ctx, handle()).is_ok());
    // Finalize tears the session down.
    handler.finalize().unwrap();
    assert_eq!(handler.get_state(), sf::State::NonInitialized);
    assert_eq!(handler.get_device_state(handle()), sf::DeviceState::Finalized);
}

#[test]
fn command_table_over_random_sequences() {
    // Drive a pseudo-random command sequence and check every
    // success/failure against the allowed-state table.
    let mut handler = EmulationHandler::new(3);
    let mut ctx = EmuContext::new();
    let mut store = AreaStore::new();
    emu::set_active_virtual_amiibo(&mut ctx, Some(sample_amiibo()));
    let mut seed: u64 = 0x1234_5678_9abc_def0;
    for _ in 0..400 {
        seed = seed.wrapping_mul(6364136223846793005).wrapping_add(1442695040888963407);
        let cmd = (seed >> 33) % 10;
        let state = handler.get_state();
        let device = handler.get_device_state(handle());
        let proto_ok = state == sf::State::Initialized;
        match cmd {
            0 => {
                let r = handler.initialize();
                assert_eq!(r.is_ok(), state == sf::State::NonInitialized);
            }
            1 => {
                let r = handler.finalize();
                assert_eq!(r.is_ok(), proto_ok);
            }
            2 => {
                let r = handler.start_detection(handle());
                assert_eq!(
                    r.is_ok(),
                    proto_ok
                        && (device == sf::DeviceState::Initialized
                            || device == sf::DeviceState::TagRemoved)
                );
            }
            3 => {
                let r = handler.stop_detection(handle());
                assert_eq!(r.is_ok(), proto_ok);
            }
            4 => {
                let r = handler.mount(handle(), 0, 0);
                assert_eq!(
                    r.is_ok(),
                    proto_ok
                        && (device == sf::DeviceState::TagFound
                            || device == sf::DeviceState::TagMounted)
                );
            }
            5 => {
                let r = handler.unmount(handle());
                assert_eq!(r.is_ok(), proto_ok && device == sf::DeviceState::TagMounted);
            }
            6 => {
                let r = handler.handle_virtual_amiibo_status(VirtualAmiiboStatus::Connected);
                assert_eq!(r.is_some(), device == sf::DeviceState::SearchingForTag);
            }
            7 => {
                let r = handler.handle_virtual_amiibo_status(VirtualAmiiboStatus::Disconnected);
                assert_eq!(
                    r.is_some(),
                    device == sf::DeviceState::TagFound || device == sf::DeviceState::TagMounted
                );
            }
            8 => {
                let r = handler.get_common_info(&ctx, handle());
                assert_eq!(r.is_ok(), proto_ok && device == sf::DeviceState::TagMounted);
            }
            _ => {
                let r = handler.create_application_area(
                    &mut ctx,
                    &mut store,
                    handle(),
                    (seed % 7) as u32 + 1,
                    &[1, 2, 3],
                );
                let existed = store.contains((seed % 7) as u32 + 1);
                if r.is_ok() {
                    assert!(proto_ok && device == sf::DeviceState::TagMounted);
                } else if proto_ok && device == sf::DeviceState::TagMounted {
                    assert_eq!(r, Err(NfpError::AreaNeedsToBeCreated));
                    assert!(existed);
                }
            }
        }
    }
}

#[test]
fn writes_bump_the_shared_counter() {
    let (mut handler, mut ctx, mut store) = ready_session();
    let payload = vec![5u8; 216];
    handler
        .create_application_area(&mut ctx, &mut store, handle(), 0x42, &payload)
        .unwrap();
    handler.open_application_area(&mut ctx, &store, handle(), 0x42).unwrap();
    let before = ctx.active_virtual_amiibo.as_ref().unwrap().info.write_counter;
    handler
        .set_application_area(&mut ctx, &mut store, handle(), &vec![9u8; 300])
        .unwrap();
    let after = ctx.active_virtual_amiibo.as_ref().unwrap().info.write_counter;
    assert_eq!(after, before + 1);
    // The write was clamped to the stored 216 bytes.
    let read = handler.get_application_area(&store, handle(), 1024).unwrap();
    assert_eq!(read, vec![9u8; 216]);
}

#[test]
fn delete_register_info_keeps_name_and_avatar() {
    let (mut handler, mut ctx, mut store) = ready_session();
    handler
        .create_application_area(&mut ctx, &mut store, handle(), 0x42, &[1, 2, 3])
        .unwrap();
    handler.open_application_area(&mut ctx, &store, handle(), 0x42).unwrap();
    let name_before = ctx.active_virtual_amiibo.as_ref().unwrap().info.name.clone();
    handler.delete_register_info(&mut ctx, &mut store, handle()).unwrap();
    let amiibo = ctx.active_virtual_amiibo.as_ref().unwrap();
    // Every area is gone, but the name and avatar stay in place.
    assert!(amiibo.areas.areas.is_empty());
    assert_eq!(amiibo.areas.current_area_access_id, 0);
    assert_eq!(amiibo.info.name, name_before);
    assert!(!store.contains(0x42));
}

#[test]
fn delete_application_area_reselects() {
    let (mut handler, mut ctx, mut store) = ready_session();
    handler
        .create_application_area(&mut ctx, &mut store, handle(), 0x10, &[1])
        .unwrap();
    handler
        .create_application_area(&mut ctx, &mut store, handle(), 0x20, &[2])
        .unwrap();
    handler.open_application_area(&mut ctx, &store, handle(), 0x10).unwrap();
    handler.open_application_area(&mut ctx, &store, handle(), 0x20).unwrap();
    emu::set_active_virtual_amiibo_current_area(&mut ctx, 0x20).unwrap();
    handler.delete_application_area(&mut ctx, &mut store, handle()).unwrap();
    let amiibo = ctx.active_virtual_amiibo.as_ref().unwrap();
    // The deleted selection re-seats on the first remaining entry.
    assert_eq!(amiibo.areas.current_area_access_id, 0x10);
    assert!(!store.contains(0x20));
    assert!(store.contains(0x10));
}

#[test]
fn registration_info_round_trip() {
    let (handler, mut ctx, _store) = ready_session();
    let new_reg = sf::RegisterInfoPrivate {
        mii_store_data: vec![3; 64],
        first_write_date: sf::Date { year: 2022, month: 2, day: 22 },
        name: "NewName".to_string(),
    };
    handler
        .set_register_info_private(&mut ctx, handle(), &new_reg)
        .unwrap();
    let read = handler.get_register_info_private(&ctx, handle()).unwrap();
    assert_eq!(read.name, "NewName");
    assert_eq!(read.first_write_date.year, 2022);
    assert_eq!(read.mii_store_data, vec![3; 64]);
    let reg = handler.get_register_info(&ctx, handle()).unwrap();
    assert_eq!(reg.name, "NewName");
    assert!(handler.exists_application_area(&ctx, handle()).unwrap() == false);
    let devices = handler.list_devices(false).unwrap();
    assert_eq!(devices.id, 0x20);
    assert_eq!(handler.get_npad_id(sf::DeviceHandle { id: 7 }), Ok(7));
}
