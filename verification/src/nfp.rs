//! Per-session NFC-tag emulation protocol state machine.
//!
//! Every intercepted game connection owns one handler with two state
//! variables: the protocol state (uninitialized or initialized) and
//! the device state.  Commands check the protocol state first, then
//! the device state, then their own preconditions, in that fixed
//! order, and every state violation surfaces as the one shared
//! "device not found" error; only the create/open ordering conflict on
//! application areas has its own error.  A background poller (run by
//! the host) feeds the global figurine status into the device state.

use vstd::prelude::*;
use crate::sf;
use crate::rc::NfpError;
use crate::emu::{EmuContext, VirtualAmiiboStatus};
use crate::area::{AreaStore, spec_store_find};
use crate::fmt::{
    spec_register_area,
    spec_delete_current_area,
    spec_delete_all_areas,
    spec_set_area_pid,
    spec_info_bumped,
    spec_bump_counter,
    spec_admin_info,
    DEFAULY_EMPTY_AREA_PROGRAM_ID,
};

verus! {

/// What the poller must signal after one observation.
#[derive(Clone, Copy, PartialEq, Eq, Structural, Debug)]
pub enum PollEvent {
    Activate,
    Deactivate,
}

/// One game's session with the emulated driver.
pub struct EmulationHandler {
    pub application_id: u64,
    pub state: sf::State,
    pub device_state: sf::DeviceState,
    pub current_opened_area: Option<u32>,
}

/// The context fields a session command never touches.
pub open spec fn ctx_rest_unchanged(a: &EmuContext, b: &EmuContext) -> bool {
    &&& a.emulation_status == b.emulation_status
    &&& a.active_virtual_amiibo_status == b.active_virtual_amiibo_status
    &&& a.intercepted_application_ids == b.intercepted_application_ids
}

impl EmulationHandler {
    /// The protocol-state guard every command checks first.
    pub open spec fn protocol_ready(&self) -> bool {
        self.state == sf::State::Initialized
    }

    /// A fresh handler: protocol uninitialized, device unavailable.
    pub fn new(application_id: u64) -> (r: Self)
        ensures
            r.application_id == application_id,
            r.state == sf::State::NonInitialized,
            r.device_state == sf::DeviceState::Unavailable,
            r.current_opened_area is None,
    {
        EmulationHandler {
            application_id,
            state: sf::State::NonInitialized,
            device_state: sf::DeviceState::Unavailable,
            current_opened_area: None,
        }
    }

    pub fn get_application_id(&self) -> (r: u64)
        ensures
            r == self.application_id,
    {
        self.application_id
    }

    pub fn is_state(&self, state: sf::State) -> (r: bool)
        ensures
            r == (self.state == state),
    {
        self.state == state
    }

    pub fn is_device_state(&self, device_state: sf::DeviceState) -> (r: bool)
        ensures
            r == (self.device_state == device_state),
    {
        self.device_state == device_state
    }

    /// One poller observation of the global figurine status: Connected
    /// turns a searching device into TagFound and signals the activate
    /// event; Disconnected turns a found or mounted tag back into
    /// searching and signals the deactivate event; anything else
    /// changes nothing.
    pub fn handle_virtual_amiibo_status(&mut self, status: VirtualAmiiboStatus) -> (ev: Option<
        PollEvent,
    >)
        ensures
            final(self).application_id == old(self).application_id,
            final(self).state == old(self).state,
            final(self).current_opened_area == old(self).current_opened_area,
            status == VirtualAmiiboStatus::Connected && old(self).device_state
                == sf::DeviceState::SearchingForTag ==> final(self).device_state
                == sf::DeviceState::TagFound && ev == Some(PollEvent::Activate),
            status == VirtualAmiiboStatus::Disconnected && (old(self).device_state
                == sf::DeviceState::TagFound || old(self).device_state
                == sf::DeviceState::TagMounted) ==> final(self).device_state
                == sf::DeviceState::SearchingForTag && ev == Some(PollEvent::Deactivate),
            !(status == VirtualAmiiboStatus::Connected && old(self).device_state
                == sf::DeviceState::SearchingForTag) && !(status
                == VirtualAmiiboStatus::Disconnected && (old(self).device_state
                == sf::DeviceState::TagFound || old(self).device_state
                == sf::DeviceState::TagMounted)) ==> final(self).device_state == old(self).device_state && ev is None,
    {
        match status {
            VirtualAmiiboStatus::Connected => {
                if self.device_state == sf::DeviceState::SearchingForTag {
                    self.device_state = sf::DeviceState::TagFound;
                    Some(PollEvent::Activate)
                } else {
                    None
                }
            },
            VirtualAmiiboStatus::Disconnected => {
                if self.device_state == sf::DeviceState::TagFound || self.device_state
                    == sf::DeviceState::TagMounted {
                    self.device_state = sf::DeviceState::SearchingForTag;
                    Some(PollEvent::Deactivate)
                } else {
                    None
                }
            },
            VirtualAmiiboStatus::Invalid => None,
        }
    }

    /// Brings the session up.  Succeeds exactly from the uninitialized
    /// protocol state; the host then spawns the poller and creates the
    /// three OS events.
    pub fn initialize(&mut self) -> (r: Result<(), NfpError>)
        ensures
            r is Ok <==> old(self).state == sf::State::NonInitialized,
            r is Ok ==> final(self).state == sf::State::Initialized && final(self).device_state
                == sf::DeviceState::Initialized,
            r is Err ==> *final(self) == *old(self) && r == Result::<(), NfpError>::Err(
                NfpError::DeviceNotFound,
            ),
            final(self).application_id == old(self).application_id,
            final(self).current_opened_area == old(self).current_opened_area,
    {
        if !self.is_state(sf::State::NonInitialized) {
            return Err(NfpError::DeviceNotFound);
        }
        self.state = sf::State::Initialized;
        self.device_state = sf::DeviceState::Initialized;
        Ok(())
    }

    /// Tears the session down.  Succeeds exactly from the initialized
    /// protocol state; the host then stops and joins the poller.
    pub fn finalize(&mut self) -> (r: Result<(), NfpError>)
        ensures
            r is Ok <==> old(self).protocol_ready(),
            r is Ok ==> final(self).state == sf::State::NonInitialized && final(self).device_state
                == sf::DeviceState::Finalized,
            r is Err ==> *final(self) == *old(self) && r == Result::<(), NfpError>::Err(
                NfpError::DeviceNotFound,
            ),
            final(self).application_id == old(self).application_id,
            final(self).current_opened_area == old(self).current_opened_area,
    {
        if !self.is_state(sf::State::Initialized) {
            return Err(NfpError::DeviceNotFound);
        }
        self.state = sf::State::NonInitialized;
        self.device_state = sf::DeviceState::Finalized;
        Ok(())
    }

    /// The emulator serves a single fake device: the player-one
    /// controller when one is connected, the handheld unit otherwise.
    pub fn list_devices(&self, player1_connected: bool) -> (r: Result<sf::DeviceHandle, NfpError>)
        ensures
            r is Ok <==> self.protocol_ready(),
            r is Ok ==> r.unwrap().id == if player1_connected {
                0u32
            } else {
                0x20u32
            },
            r is Err ==> r == Result::<sf::DeviceHandle, NfpError>::Err(NfpError::DeviceNotFound),
    {
        if !self.is_state(sf::State::Initialized) {
            return Err(NfpError::DeviceNotFound);
        }
        Ok(sf::DeviceHandle { id: if player1_connected { 0 } else { 0x20 } })
    }

    /// Starts tag detection.  Legal only from the Initialized or
    /// TagRemoved device states.
    pub fn start_detection(&mut self, device_handle: sf::DeviceHandle) -> (r: Result<
        (),
        NfpError,
    >)
        ensures
            r is Ok <==> old(self).protocol_ready() && (old(self).device_state
                == sf::DeviceState::Initialized || old(self).device_state
                == sf::DeviceState::TagRemoved),
            r is Ok ==> final(self).device_state == sf::DeviceState::SearchingForTag,
            r is Err ==> *final(self) == *old(self) && r == Result::<(), NfpError>::Err(
                NfpError::DeviceNotFound,
            ),
            final(self).state == old(self).state,
            final(self).application_id == old(self).application_id,
            final(self).current_opened_area == old(self).current_opened_area,
    {
        if !self.is_state(sf::State::Initialized) {
            return Err(NfpError::DeviceNotFound);
        }
        if !(self.is_device_state(sf::DeviceState::Initialized) || self.is_device_state(
            sf::DeviceState::TagRemoved,
        )) {
            return Err(NfpError::DeviceNotFound);
        }
        self.device_state = sf::DeviceState::SearchingForTag;
        Ok(())
    }

    /// Stops tag detection from any device state.
    pub fn stop_detection(&mut self, device_handle: sf::DeviceHandle) -> (r: Result<(), NfpError>)
        ensures
            r is Ok <==> old(self).protocol_ready(),
            r is Ok ==> final(self).device_state == sf::DeviceState::Initialized,
            r is Err ==> *final(self) == *old(self) && r == Result::<(), NfpError>::Err(
                NfpError::DeviceNotFound,
            ),
            final(self).state == old(self).state,
            final(self).application_id == old(self).application_id,
            final(self).current_opened_area == old(self).current_opened_area,
    {
        if !self.is_state(sf::State::Initialized) {
            return Err(NfpError::DeviceNotFound);
        }
        self.device_state = sf::DeviceState::Initialized;
        Ok(())
    }

    /// Mounts the found tag.  Requires a found or already mounted tag.
    pub fn mount(
        &mut self,
        device_handle: sf::DeviceHandle,
        model_type: u32,
        mount_target: u32,
    ) -> (r: Result<(), NfpError>)
        ensures
            r is Ok <==> old(self).protocol_ready() && (old(self).device_state
                == sf::DeviceState::TagFound || old(self).device_state
                == sf::DeviceState::TagMounted),
            r is Ok ==> final(self).device_state == sf::DeviceState::TagMounted,
            r is Err ==> *final(self) == *old(self) && r == Result::<(), NfpError>::Err(
                NfpError::DeviceNotFound,
            ),
            final(self).state == old(self).state,
            final(self).application_id == old(self).application_id,
            final(self).current_opened_area == old(self).current_opened_area,
    {
        if !self.is_state(sf::State::Initialized) {
            return Err(NfpError::DeviceNotFound);
        }
        if !(self.is_device_state(sf::DeviceState::TagFound) || self.is_device_state(
            sf::DeviceState::TagMounted,
        )) {
            return Err(NfpError::DeviceNotFound);
        }
        self.device_state = sf::DeviceState::TagMounted;
        Ok(())
    }

    /// Unmounts the mounted tag, which stays found.
    pub fn unmount(&mut self, device_handle: sf::DeviceHandle) -> (r: Result<(), NfpError>)
        ensures
            r is Ok <==> old(self).protocol_ready() && old(self).device_state
                == sf::DeviceState::TagMounted,
            r is Ok ==> final(self).device_state == sf::DeviceState::TagFound,
            r is Err ==> *final(self) == *old(self) && r == Result::<(), NfpError>::Err(
                NfpError::DeviceNotFound,
            ),
            final(self).state == old(self).state,
            final(self).application_id == old(self).application_id,
            final(self).current_opened_area == old(self).current_opened_area,
    {
        if !self.is_state(sf::State::Initialized) {
            return Err(NfpError::DeviceNotFound);
        }
        if !self.is_device_state(sf::DeviceState::TagMounted) {
            return Err(NfpError::DeviceNotFound);
        }
        self.device_state = sf::DeviceState::TagFound;
        Ok(())
    }

    pub fn get_state(&self) -> (r: sf::State)
        ensures
            r == self.state,
    {
        self.state
    }

    pub fn get_device_state(&self, device_handle: sf::DeviceHandle) -> (r: sf::DeviceState)
        ensures
            r == self.device_state,
    {
        self.device_state
    }

    /// The fake device's pad identifier is the handle's own id.
    pub fn get_npad_id(&self, device_handle: sf::DeviceHandle) -> (r: Result<u32, NfpError>)
        ensures
            r is Ok <==> self.protocol_ready(),
            r is Ok ==> r.unwrap() == device_handle.id,
            r is Err ==> r == Result::<u32, NfpError>::Err(NfpError::DeviceNotFound),
    {
        if !self.is_state(sf::State::Initialized) {
            return Err(NfpError::DeviceNotFound);
        }
        Ok(device_handle.id)
    }

    /// Flushing is accepted and has nothing to do.
    pub fn flush(&self, device_handle: sf::DeviceHandle) -> (r: Result<(), NfpError>)
        ensures
            r is Ok <==> self.protocol_ready(),
            r is Err ==> r == Result::<(), NfpError>::Err(NfpError::DeviceNotFound),
    {
        if !self.is_state(sf::State::Initialized) {
            return Err(NfpError::DeviceNotFound);
        }
        Ok(())
    }

    /// Restoring is accepted and has nothing to do.
    pub fn restore(&self, device_handle: sf::DeviceHandle) -> (r: Result<(), NfpError>)
        ensures
            r is Ok <==> self.protocol_ready(),
            r is Err ==> r == Result::<(), NfpError>::Err(NfpError::DeviceNotFound),
    {
        if !self.is_state(sf::State::Initialized) {
            return Err(NfpError::DeviceNotFound);
        }
        Ok(())
    }

    /// Formatting is accepted in any state and has nothing to do.
    pub fn format(&self, device_handle: sf::DeviceHandle) -> (r: Result<(), NfpError>)
        ensures
            r is Ok,
    {
        Ok(())
    }

    /// Hands out the activate event; the host owns the OS handle.
    pub fn attach_activate_event(&self, device_handle: sf::DeviceHandle) -> (r: Result<
        (),
        NfpError,
    >)
        ensures
            r is Ok <==> self.protocol_ready(),
            r is Err ==> r == Result::<(), NfpError>::Err(NfpError::DeviceNotFound),
    {
        if !self.is_state(sf::State::Initialized) {
            return Err(NfpError::DeviceNotFound);
        }
        Ok(())
    }

    /// Hands out the deactivate event; the host owns the OS handle.
    pub fn attach_deactivate_event(&self, device_handle: sf::DeviceHandle) -> (r: Result<
        (),
        NfpError,
    >)
        ensures
            r is Ok <==> self.protocol_ready(),
            r is Err ==> r == Result::<(), NfpError>::Err(NfpError::DeviceNotFound),
    {
        if !self.is_state(sf::State::Initialized) {
            return Err(NfpError::DeviceNotFound);
        }
        Ok(())
    }

    /// Hands out the availability-change event; the host owns the OS
    /// handle.
    pub fn attach_availability_change_event(&self) -> (r: Result<(), NfpError>)
        ensures
            r is Ok <==> self.protocol_ready(),
            r is Err ==> r == Result::<(), NfpError>::Err(NfpError::DeviceNotFound),
    {
        if !self.is_state(sf::State::Initialized) {
            return Err(NfpError::DeviceNotFound);
        }
        Ok(())
    }

    /// The guard shared by the commands that read or mutate the
    /// mounted figurine.
    pub open spec fn mounted_with_amiibo(&self, ctx: &EmuContext) -> bool {
        &&& self.protocol_ready()
        &&& self.device_state == sf::DeviceState::TagMounted
        &&& ctx.active_virtual_amiibo is Some
    }

    /// Opens an existing application area and records the caller as
    /// its owner.  The area's blob must already exist; creating it is
    /// a separate command.
    pub fn open_application_area(
        &mut self,
        ctx: &mut EmuContext,
        store: &AreaStore,
        device_handle: sf::DeviceHandle,
        access_id: u32,
    ) -> (r: Result<(), NfpError>)
        ensures
            r is Ok <==> old(self).mounted_with_amiibo(old(ctx)) && spec_store_find(
                store.view_of(),
                access_id,
            ) is Some,
            !old(self).mounted_with_amiibo(old(ctx)) ==> r == Result::<(), NfpError>::Err(
                NfpError::DeviceNotFound,
            ),
            old(self).mounted_with_amiibo(old(ctx)) && spec_store_find(
                store.view_of(),
                access_id,
            ) is None ==> r == Result::<(), NfpError>::Err(NfpError::AreaNeedsToBeCreated),
            r is Err ==> *final(self) == *old(self) && final(ctx).active_virtual_amiibo == old(ctx).active_virtual_amiibo,
            r is Ok ==> {
                let a0 = old(ctx).active_virtual_amiibo.unwrap();
                let a1 = final(ctx).active_virtual_amiibo.unwrap();
                &&& final(ctx).active_virtual_amiibo is Some
                &&& a1.areas.model().entries == spec_set_area_pid(
                    spec_register_area(
                        a0.areas.model(),
                        access_id,
                        DEFAULY_EMPTY_AREA_PROGRAM_ID,
                    ).entries,
                    access_id,
                    old(self).application_id,
                )
                &&& a1.areas.model().current == a0.areas.model().current
                &&& a1.info == a0.info
                &&& a1.mii_charinfo@ == a0.mii_charinfo@
                &&& a1.path@ == a0.path@
                &&& final(self).current_opened_area == Some(access_id)
                &&& final(self).state == old(self).state
                &&& final(self).device_state == old(self).device_state
            },
            final(self).application_id == old(self).application_id,
            ctx_rest_unchanged(final(ctx), old(ctx)),
    {
        if !self.is_state(sf::State::Initialized) {
            return Err(NfpError::DeviceNotFound);
        }
        if !self.is_device_state(sf::DeviceState::TagMounted) {
            return Err(NfpError::DeviceNotFound);
        }
        let active = ctx.active_virtual_amiibo.take();
        match active {
            Option::Some(mut amiibo) => {
                if !store.contains(access_id) {
                    ctx.active_virtual_amiibo = Some(amiibo);
                    return Err(NfpError::AreaNeedsToBeCreated);
                }
                amiibo.update_area_program_id(access_id, self.application_id);
                ctx.active_virtual_amiibo = Some(amiibo);
                self.current_opened_area = Some(access_id);
                Ok(())
            },
            Option::None => {
                ctx.active_virtual_amiibo = None;
                Err(NfpError::DeviceNotFound)
            },
        }
    }

    /// The guard of the commands that work on the opened area.
    pub open spec fn opened_area_ready(&self, store: &AreaStore) -> bool {
        &&& self.current_opened_area is Some
        &&& spec_store_find(store.view_of(), self.current_opened_area.unwrap()) is Some
    }

    /// Reads the opened area, clamped to the smaller of the request
    /// and the stored blob.
    pub fn get_application_area(
        &self,
        store: &AreaStore,
        device_handle: sf::DeviceHandle,
        max_size: usize,
    ) -> (r: Result<Vec<u8>, NfpError>)
        ensures
            r is Ok <==> self.protocol_ready() && self.device_state == sf::DeviceState::TagMounted
                && self.opened_area_ready(store),
            !(self.protocol_ready() && self.device_state == sf::DeviceState::TagMounted) ==> r
                == Result::<Vec<u8>, NfpError>::Err(NfpError::DeviceNotFound),
            self.protocol_ready() && self.device_state == sf::DeviceState::TagMounted && !self.opened_area_ready(
                store,
            ) ==> r == Result::<Vec<u8>, NfpError>::Err(NfpError::AreaNeedsToBeCreated),
            r is Ok ==> {
                let stored = spec_store_find(
                    store.view_of(),
                    self.current_opened_area.unwrap(),
                ).unwrap();
                let n = if stored.len() < max_size {
                    stored.len() as int
                } else {
                    max_size as int
                };
                r.unwrap()@ == stored.take(n)
            },
    {
        if !self.is_state(sf::State::Initialized) {
            return Err(NfpError::DeviceNotFound);
        }
        if !self.is_device_state(sf::DeviceState::TagMounted) {
            return Err(NfpError::DeviceNotFound);
        }
        match self.current_opened_area {
            Option::Some(access_id) => {
                match store.read_clamped(access_id, max_size) {
                    Option::Some(data) => Ok(data),
                    Option::None => Err(NfpError::AreaNeedsToBeCreated),
                }
            },
            Option::None => Err(NfpError::AreaNeedsToBeCreated),
        }
    }

    /// Writes the opened area, clamped to the smaller of the request
    /// and the stored blob, and counts the write on the figurine.
    pub fn set_application_area(
        &self,
        ctx: &mut EmuContext,
        store: &mut AreaStore,
        device_handle: sf::DeviceHandle,
        data: &[u8],
    ) -> (r: Result<(), NfpError>)
        ensures
            r is Ok <==> self.protocol_ready() && self.device_state == sf::DeviceState::TagMounted
                && self.opened_area_ready(old(store)),
            !(self.protocol_ready() && self.device_state == sf::DeviceState::TagMounted) ==> r
                == Result::<(), NfpError>::Err(NfpError::DeviceNotFound),
            self.protocol_ready() && self.device_state == sf::DeviceState::TagMounted
                && !self.opened_area_ready(old(store)) ==> r == Result::<(), NfpError>::Err(
                NfpError::AreaNeedsToBeCreated,
            ),
            r is Err ==> final(store).entries@ == old(store).entries@ && final(ctx).active_virtual_amiibo == old(ctx).active_virtual_amiibo,
            r is Ok ==> {
                let id = self.current_opened_area.unwrap();
                let stored = spec_store_find(old(store).view_of(), id).unwrap();
                let n = if stored.len() < data@.len() {
                    stored.len() as int
                } else {
                    data@.len() as int
                };
                &&& spec_store_find(final(store).view_of(), id) == Option::Some(data@.take(n))
                &&& forall|other: u32|
                    other != id ==> spec_store_find(final(store).view_of(), other)
                        == spec_store_find(old(store).view_of(), other)
                &&& (old(ctx).active_virtual_amiibo is Some ==> {
                    let a0 = old(ctx).active_virtual_amiibo.unwrap();
                    let a1 = final(ctx).active_virtual_amiibo.unwrap();
                    &&& final(ctx).active_virtual_amiibo is Some
                    &&& spec_info_bumped(a0.info, a1.info)
                    &&& a1.areas == a0.areas
                    &&& a1.mii_charinfo@ == a0.mii_charinfo@
                    &&& a1.path@ == a0.path@
                })
                &&& (old(ctx).active_virtual_amiibo is None ==> final(ctx).active_virtual_amiibo is None)
            },
            ctx_rest_unchanged(final(ctx), old(ctx)),
    {
        if !self.is_state(sf::State::Initialized) {
            return Err(NfpError::DeviceNotFound);
        }
        if !self.is_device_state(sf::DeviceState::TagMounted) {
            return Err(NfpError::DeviceNotFound);
        }
        match self.current_opened_area {
            Option::Some(access_id) => {
                match store.write_clamped(access_id, data) {
                    Option::Some(_written) => {
                        let active = ctx.active_virtual_amiibo.take();
                        match active {
                            Option::Some(mut amiibo) => {
                                amiibo.notify_written();
                                ctx.active_virtual_amiibo = Some(amiibo);
                            },
                            Option::None => {
                                ctx.active_virtual_amiibo = None;
                            },
                        }
                        Ok(())
                    },
                    Option::None => Err(NfpError::AreaNeedsToBeCreated),
                }
            },
            Option::None => Err(NfpError::AreaNeedsToBeCreated),
        }
    }

    /// Creates a new application area with the given contents.  Fails
    /// with the area-ordering error when the blob already exists, and
    /// counts the write.
    pub fn create_application_area(
        &self,
        ctx: &mut EmuContext,
        store: &mut AreaStore,
        device_handle: sf::DeviceHandle,
        access_id: u32,
        data: &[u8],
    ) -> (r: Result<(), NfpError>)
        ensures
            r is Ok <==> self.mounted_with_amiibo(old(ctx)) && spec_store_find(
                old(store).view_of(),
                access_id,
            ) is None,
            !self.mounted_with_amiibo(old(ctx)) ==> r == Result::<(), NfpError>::Err(
                NfpError::DeviceNotFound,
            ),
            self.mounted_with_amiibo(old(ctx)) && spec_store_find(
                old(store).view_of(),
                access_id,
            ) is Some ==> r == Result::<(), NfpError>::Err(NfpError::AreaNeedsToBeCreated),
            r is Err ==> final(store).entries@ == old(store).entries@ && final(ctx).active_virtual_amiibo == old(ctx).active_virtual_amiibo,
            r is Ok ==> {
                let a0 = old(ctx).active_virtual_amiibo.unwrap();
                let a1 = final(ctx).active_virtual_amiibo.unwrap();
                &&& spec_store_find(final(store).view_of(), access_id) == Option::Some(data@)
                &&& forall|other: u32|
                    other != access_id ==> spec_store_find(final(store).view_of(), other)
                        == spec_store_find(old(store).view_of(), other)
                &&& final(ctx).active_virtual_amiibo is Some
                &&& spec_info_bumped(a0.info, a1.info)
                &&& a1.areas == a0.areas
                &&& a1.mii_charinfo@ == a0.mii_charinfo@
                &&& a1.path@ == a0.path@
            },
            ctx_rest_unchanged(final(ctx), old(ctx)),
    {
        if !self.is_state(sf::State::Initialized) {
            return Err(NfpError::DeviceNotFound);
        }
        if !self.is_device_state(sf::DeviceState::TagMounted) {
            return Err(NfpError::DeviceNotFound);
        }
        let active = ctx.active_virtual_amiibo.take();
        match active {
            Option::Some(mut amiibo) => {
                if store.contains(access_id) {
                    ctx.active_virtual_amiibo = Some(amiibo);
                    return Err(NfpError::AreaNeedsToBeCreated);
                }
                let mut contents: Vec<u8> = Vec::new();
                contents.extend_from_slice(data);
                store.create(access_id, contents);
                amiibo.notify_written();
                ctx.active_virtual_amiibo = Some(amiibo);
                Ok(())
            },
            Option::None => {
                ctx.active_virtual_amiibo = None;
                Err(NfpError::DeviceNotFound)
            },
        }
    }

    /// Recreates an application area unconditionally, and counts the
    /// write.
    pub fn recreate_application_area(
        &self,
        ctx: &mut EmuContext,
        store: &mut AreaStore,
        device_handle: sf::DeviceHandle,
        access_id: u32,
        data: &[u8],
    ) -> (r: Result<(), NfpError>)
        ensures
            r is Ok <==> self.mounted_with_amiibo(old(ctx)),
            r is Err ==> r == Result::<(), NfpError>::Err(NfpError::DeviceNotFound) && final(store).entries@ == old(store).entries@ && final(ctx).active_virtual_amiibo == old(ctx).active_virtual_amiibo,
            r is Ok ==> {
                let a0 = old(ctx).active_virtual_amiibo.unwrap();
                let a1 = final(ctx).active_virtual_amiibo.unwrap();
                &&& spec_store_find(final(store).view_of(), access_id) == Option::Some(data@)
                &&& forall|other: u32|
                    other != access_id ==> spec_store_find(final(store).view_of(), other)
                        == spec_store_find(old(store).view_of(), other)
                &&& final(ctx).active_virtual_amiibo is Some
                &&& spec_info_bumped(a0.info, a1.info)
                &&& a1.areas == a0.areas
                &&& a1.mii_charinfo@ == a0.mii_charinfo@
                &&& a1.path@ == a0.path@
            },
            ctx_rest_unchanged(final(ctx), old(ctx)),
    {
        if !self.is_state(sf::State::Initialized) {
            return Err(NfpError::DeviceNotFound);
        }
        if !self.is_device_state(sf::DeviceState::TagMounted) {
            return Err(NfpError::DeviceNotFound);
        }
        let active = ctx.active_virtual_amiibo.take();
        match active {
            Option::Some(mut amiibo) => {
                let mut contents: Vec<u8> = Vec::new();
                contents.extend_from_slice(data);
                store.create(access_id, contents);
                amiibo.notify_written();
                ctx.active_virtual_amiibo = Some(amiibo);
                Ok(())
            },
            Option::None => {
                ctx.active_virtual_amiibo = None;
                Err(NfpError::DeviceNotFound)
            },
        }
    }

    /// Deletes the currently selected area: the directory entry, its
    /// backing blob, and the selection re-seats on the first remaining
    /// entry.
    pub fn delete_application_area(
        &self,
        ctx: &mut EmuContext,
        store: &mut AreaStore,
        device_handle: sf::DeviceHandle,
    ) -> (r: Result<(), NfpError>)
        ensures
            r is Ok <==> self.mounted_with_amiibo(old(ctx)),
            r is Err ==> r == Result::<(), NfpError>::Err(NfpError::DeviceNotFound) && final(store).entries@ == old(store).entries@ && final(ctx).active_virtual_amiibo == old(ctx).active_virtual_amiibo,
            r is Ok ==> {
                let a0 = old(ctx).active_virtual_amiibo.unwrap();
                let a1 = final(ctx).active_virtual_amiibo.unwrap();
                let deleted = a0.areas.model().current;
                &&& final(ctx).active_virtual_amiibo is Some
                &&& a1.areas.model() == spec_delete_current_area(a0.areas.model())
                &&& a1.areas.wf()
                &&& spec_info_bumped(a0.info, a1.info)
                &&& a1.mii_charinfo@ == a0.mii_charinfo@
                &&& a1.path@ == a0.path@
                &&& spec_store_find(final(store).view_of(), deleted) is None
                &&& forall|other: u32|
                    other != deleted ==> spec_store_find(final(store).view_of(), other)
                        == spec_store_find(old(store).view_of(), other)
            },
            ctx_rest_unchanged(final(ctx), old(ctx)),
    {
        if !self.is_state(sf::State::Initialized) {
            return Err(NfpError::DeviceNotFound);
        }
        if !self.is_device_state(sf::DeviceState::TagMounted) {
            return Err(NfpError::DeviceNotFound);
        }
        let active = ctx.active_virtual_amiibo.take();
        match active {
            Option::Some(mut amiibo) => {
                let deleted = amiibo.delete_current_area();
                store.delete(deleted);
                ctx.active_virtual_amiibo = Some(amiibo);
                Ok(())
            },
            Option::None => {
                ctx.active_virtual_amiibo = None;
                Err(NfpError::DeviceNotFound)
            },
        }
    }

    /// Deletes the registration's application areas.  The display name
    /// and avatar deliberately stay in place.
    pub fn delete_register_info(
        &self,
        ctx: &mut EmuContext,
        store: &mut AreaStore,
        device_handle: sf::DeviceHandle,
    ) -> (r: Result<(), NfpError>)
        ensures
            r is Ok <==> self.mounted_with_amiibo(old(ctx)),
            r is Err ==> r == Result::<(), NfpError>::Err(NfpError::DeviceNotFound) && final(store).entries@ == old(store).entries@ && final(ctx).active_virtual_amiibo == old(ctx).active_virtual_amiibo,
            r is Ok ==> {
                let a0 = old(ctx).active_virtual_amiibo.unwrap();
                let a1 = final(ctx).active_virtual_amiibo.unwrap();
                &&& final(ctx).active_virtual_amiibo is Some
                &&& a1.areas.model() == spec_delete_all_areas(a0.areas.model())
                &&& spec_info_bumped(a0.info, a1.info)
                &&& a1.mii_charinfo@ == a0.mii_charinfo@
                &&& a1.path@ == a0.path@
                &&& final(store).view_of() =~= Seq::<(u32, Seq<u8>)>::empty()
            },
            ctx_rest_unchanged(final(ctx), old(ctx)),
    {
        if !self.is_state(sf::State::Initialized) {
            return Err(NfpError::DeviceNotFound);
        }
        if !self.is_device_state(sf::DeviceState::TagMounted) {
            return Err(NfpError::DeviceNotFound);
        }
        let active = ctx.active_virtual_amiibo.take();
        match active {
            Option::Some(mut amiibo) => {
                amiibo.delete_all_areas();
                store.clear();
                ctx.active_virtual_amiibo = Some(amiibo);
                Ok(())
            },
            Option::None => {
                ctx.active_virtual_amiibo = None;
                Err(NfpError::DeviceNotFound)
            },
        }
    }

    /// The opened area's stored size.
    pub fn get_application_area_size(
        &self,
        store: &AreaStore,
        device_handle: sf::DeviceHandle,
    ) -> (r: Result<usize, NfpError>)
        ensures
            r is Ok <==> self.protocol_ready() && self.device_state == sf::DeviceState::TagMounted
                && self.opened_area_ready(store),
            !(self.protocol_ready() && self.device_state == sf::DeviceState::TagMounted) ==> r
                == Result::<usize, NfpError>::Err(NfpError::DeviceNotFound),
            self.protocol_ready() && self.device_state == sf::DeviceState::TagMounted && !self.opened_area_ready(
                store,
            ) ==> r == Result::<usize, NfpError>::Err(NfpError::AreaNeedsToBeCreated),
            r is Ok ==> r.unwrap() == spec_store_find(
                store.view_of(),
                self.current_opened_area.unwrap(),
            ).unwrap().len(),
    {
        if !self.is_state(sf::State::Initialized) {
            return Err(NfpError::DeviceNotFound);
        }
        if !self.is_device_state(sf::DeviceState::TagMounted) {
            return Err(NfpError::DeviceNotFound);
        }
        match self.current_opened_area {
            Option::Some(access_id) => {
                match store.get_size(access_id) {
                    Option::Some(size) => Ok(size),
                    Option::None => Err(NfpError::AreaNeedsToBeCreated),
                }
            },
            Option::None => Err(NfpError::AreaNeedsToBeCreated),
        }
    }

    /// The guard of the commands that read the found or mounted tag.
    pub open spec fn tag_present_with_amiibo(&self, ctx: &EmuContext) -> bool {
        &&& self.protocol_ready()
        &&& (self.device_state == sf::DeviceState::TagFound || self.device_state
            == sf::DeviceState::TagMounted)
        &&& ctx.active_virtual_amiibo is Some
    }

    /// The tag identity of the active figurine; legal already from the
    /// found state.
    pub fn get_tag_info(&self, ctx: &EmuContext, device_handle: sf::DeviceHandle) -> (r: Result<
        sf::TagInfo,
        NfpError,
    >)
        ensures
            r is Ok <==> self.tag_present_with_amiibo(ctx),
            r is Err ==> r == Result::<sf::TagInfo, NfpError>::Err(NfpError::DeviceNotFound),
            r is Ok ==> {
                let a = ctx.active_virtual_amiibo.unwrap();
                let info = r.unwrap();
                &&& info.uuid@.len() == 10
                &&& info.protocol == u32::MAX
                &&& info.tag_type == u32::MAX
                &&& (!a.info.use_random_uuid ==> {
                    let n = if a.info.uuid@.len() < 10 {
                        a.info.uuid@.len() as int
                    } else {
                        10
                    };
                    info.uuid@.take(n) == a.info.uuid@.take(n) && info.uuid_length == n
                })
                &&& (a.info.use_random_uuid ==> info.uuid_length == 10 && info.uuid@[7] == 0
                    && info.uuid@[8] == 0 && info.uuid@[9] == 0)
            },
    {
        if !self.is_state(sf::State::Initialized) {
            return Err(NfpError::DeviceNotFound);
        }
        if !(self.is_device_state(sf::DeviceState::TagFound) || self.is_device_state(
            sf::DeviceState::TagMounted,
        )) {
            return Err(NfpError::DeviceNotFound);
        }
        match ctx.active_virtual_amiibo.as_ref() {
            Option::Some(amiibo) => Ok(amiibo.produce_tag_info()),
            Option::None => Err(NfpError::DeviceNotFound),
        }
    }

    /// The registration data of the mounted figurine.
    pub fn get_register_info(&self, ctx: &EmuContext, device_handle: sf::DeviceHandle) -> (r:
        Result<sf::RegisterInfo, NfpError>)
        ensures
            r is Ok <==> self.mounted_with_amiibo(ctx),
            r is Err ==> r == Result::<sf::RegisterInfo, NfpError>::Err(NfpError::DeviceNotFound),
            r is Ok ==> {
                let a = ctx.active_virtual_amiibo.unwrap();
                let info = r.unwrap();
                &&& info.mii_charinfo@ == a.mii_charinfo@
                &&& info.first_write_date == (sf::Date {
                    year: a.info.first_write_date.y,
                    month: a.info.first_write_date.m,
                    day: a.info.first_write_date.d,
                })
                &&& info.name@ == if a.info.name@.len() <= 10 {
                    a.info.name@
                } else {
                    a.info.name@.subrange(0, 10)
                }
                &&& info.font_region == 0
            },
    {
        if !self.is_state(sf::State::Initialized) {
            return Err(NfpError::DeviceNotFound);
        }
        if !self.is_device_state(sf::DeviceState::TagMounted) {
            return Err(NfpError::DeviceNotFound);
        }
        match ctx.active_virtual_amiibo.as_ref() {
            Option::Some(amiibo) => Ok(amiibo.produce_register_info()),
            Option::None => Err(NfpError::DeviceNotFound),
        }
    }

    /// The usage counters of the mounted figurine.
    pub fn get_common_info(&self, ctx: &EmuContext, device_handle: sf::DeviceHandle) -> (r: Result<
        sf::CommonInfo,
        NfpError,
    >)
        ensures
            r is Ok <==> self.mounted_with_amiibo(ctx),
            r is Err ==> r == Result::<sf::CommonInfo, NfpError>::Err(NfpError::DeviceNotFound),
            r is Ok ==> {
                let a = ctx.active_virtual_amiibo.unwrap();
                r.unwrap() == (sf::CommonInfo {
                    last_write_date: sf::Date {
                        year: a.info.last_write_date.y,
                        month: a.info.last_write_date.m,
                        day: a.info.last_write_date.d,
                    },
                    write_counter: a.info.write_counter,
                    version: a.info.version,
                    application_area_size: 0xd8,
                })
            },
    {
        if !self.is_state(sf::State::Initialized) {
            return Err(NfpError::DeviceNotFound);
        }
        if !self.is_device_state(sf::DeviceState::TagMounted) {
            return Err(NfpError::DeviceNotFound);
        }
        match ctx.active_virtual_amiibo.as_ref() {
            Option::Some(amiibo) => Ok(amiibo.produce_common_info()),
            Option::None => Err(NfpError::DeviceNotFound),
        }
    }

    /// The model identity of the mounted figurine.
    pub fn get_model_info(&self, ctx: &EmuContext, device_handle: sf::DeviceHandle) -> (r: Result<
        sf::ModelInfo,
        NfpError,
    >)
        ensures
            r is Ok <==> self.mounted_with_amiibo(ctx),
            r is Err ==> r == Result::<sf::ModelInfo, NfpError>::Err(NfpError::DeviceNotFound),
            r is Ok ==> {
                let a = ctx.active_virtual_amiibo.unwrap();
                r.unwrap() == (sf::ModelInfo {
                    game_character_id: a.info.id.game_character_id,
                    character_variant: a.info.id.character_variant,
                    series: a.info.id.series,
                    model_number: a.info.id.model_number,
                    figure_type: a.info.id.figure_type,
                })
            },
    {
        if !self.is_state(sf::State::Initialized) {
            return Err(NfpError::DeviceNotFound);
        }
        if !self.is_device_state(sf::DeviceState::TagMounted) {
            return Err(NfpError::DeviceNotFound);
        }
        match ctx.active_virtual_amiibo.as_ref() {
            Option::Some(amiibo) => Ok(amiibo.produce_model_info()),
            Option::None => Err(NfpError::DeviceNotFound),
        }
    }

    /// The administrative view of the mounted figurine.
    pub fn get_admin_info(&self, ctx: &EmuContext, device_handle: sf::DeviceHandle) -> (r: Result<
        sf::AdminInfo,
        NfpError,
    >)
        ensures
            r is Ok <==> self.mounted_with_amiibo(ctx),
            r is Err ==> r == Result::<sf::AdminInfo, NfpError>::Err(NfpError::DeviceNotFound),
            r is Ok ==> r.unwrap() == spec_admin_info(&ctx.active_virtual_amiibo.unwrap()),
    {
        if !self.is_state(sf::State::Initialized) {
            return Err(NfpError::DeviceNotFound);
        }
        if !self.is_device_state(sf::DeviceState::TagMounted) {
            return Err(NfpError::DeviceNotFound);
        }
        match ctx.active_virtual_amiibo.as_ref() {
            Option::Some(amiibo) => Ok(amiibo.produce_admin_info()),
            Option::None => Err(NfpError::DeviceNotFound),
        }
    }

    /// The registration data in the driver's private shape.
    pub fn get_register_info_private(
        &self,
        ctx: &EmuContext,
        device_handle: sf::DeviceHandle,
    ) -> (r: Result<sf::RegisterInfoPrivate, NfpError>)
        ensures
            r is Ok <==> self.mounted_with_amiibo(ctx),
            r is Err ==> r == Result::<sf::RegisterInfoPrivate, NfpError>::Err(
                NfpError::DeviceNotFound,
            ),
            r is Ok ==> {
                let a = ctx.active_virtual_amiibo.unwrap();
                let info = r.unwrap();
                &&& info.mii_store_data@ == a.mii_charinfo@
                &&& info.first_write_date == (sf::Date {
                    year: a.info.first_write_date.y,
                    month: a.info.first_write_date.m,
                    day: a.info.first_write_date.d,
                })
                &&& info.name@ == if a.info.name@.len() <= 10 {
                    a.info.name@
                } else {
                    a.info.name@.subrange(0, 10)
                }
            },
    {
        if !self.is_state(sf::State::Initialized) {
            return Err(NfpError::DeviceNotFound);
        }
        if !self.is_device_state(sf::DeviceState::TagMounted) {
            return Err(NfpError::DeviceNotFound);
        }
        match ctx.active_virtual_amiibo.as_ref() {
            Option::Some(amiibo) => Ok(amiibo.produce_register_info_private()),
            Option::None => Err(NfpError::DeviceNotFound),
        }
    }

    /// Writes registration data back into the mounted figurine and
    /// counts the write.
    pub fn set_register_info_private(
        &self,
        ctx: &mut EmuContext,
        device_handle: sf::DeviceHandle,
        register_info: &sf::RegisterInfoPrivate,
    ) -> (r: Result<(), NfpError>)
        ensures
            r is Ok <==> self.mounted_with_amiibo(old(ctx)),
            r is Err ==> r == Result::<(), NfpError>::Err(NfpError::DeviceNotFound) && final(ctx).active_virtual_amiibo == old(ctx).active_virtual_amiibo,
            r is Ok ==> {
                let a0 = old(ctx).active_virtual_amiibo.unwrap();
                let a1 = final(ctx).active_virtual_amiibo.unwrap();
                &&& final(ctx).active_virtual_amiibo is Some
                &&& a1.mii_charinfo@ == register_info.mii_store_data@
                &&& a1.info.first_write_date.y == register_info.first_write_date.year
                &&& a1.info.first_write_date.m == register_info.first_write_date.month
                &&& a1.info.first_write_date.d == register_info.first_write_date.day
                &&& a1.info.name == register_info.name
                &&& a1.info.write_counter == spec_bump_counter(a0.info.write_counter)
                &&& a1.info.uuid == a0.info.uuid
                &&& a1.info.last_write_date == a0.info.last_write_date
                &&& a1.info.id == a0.info.id
                &&& a1.areas == a0.areas
                &&& a1.path@ == a0.path@
            },
            ctx_rest_unchanged(final(ctx), old(ctx)),
    {
        if !self.is_state(sf::State::Initialized) {
            return Err(NfpError::DeviceNotFound);
        }
        if !self.is_device_state(sf::DeviceState::TagMounted) {
            return Err(NfpError::DeviceNotFound);
        }
        let active = ctx.active_virtual_amiibo.take();
        match active {
            Option::Some(mut amiibo) => {
                amiibo.update_from_register_info_private(register_info);
                ctx.active_virtual_amiibo = Some(amiibo);
                Ok(())
            },
            Option::None => {
                ctx.active_virtual_amiibo = None;
                Err(NfpError::DeviceNotFound)
            },
        }
    }

    /// Whether the mounted figurine has any application area at all.
    pub fn exists_application_area(&self, ctx: &EmuContext, device_handle: sf::DeviceHandle) -> (r:
        Result<bool, NfpError>)
        ensures
            r is Ok <==> self.mounted_with_amiibo(ctx),
            r is Err ==> r == Result::<bool, NfpError>::Err(NfpError::DeviceNotFound),
            r is Ok ==> r.unwrap() == (ctx.active_virtual_amiibo.unwrap().areas.areas@.len() > 0),
    {
        if !self.is_state(sf::State::Initialized) {
            return Err(NfpError::DeviceNotFound);
        }
        if !self.is_device_state(sf::DeviceState::TagMounted) {
            return Err(NfpError::DeviceNotFound);
        }
        match ctx.active_virtual_amiibo.as_ref() {
            Option::Some(amiibo) => Ok(amiibo.has_any_application_areas()),
            Option::None => Err(NfpError::DeviceNotFound),
        }
    }
}

} // verus!
