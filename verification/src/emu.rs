//! Process-wide emulation state.
//!
//! One figurine at a time is "on the reader", shared by every session;
//! a tri-state status signal is the only channel from the control
//! plane to the sessions' device-state machines; an on/off flag gates
//! interception.  The whole of it is an explicit context object that
//! callers pass by reference, guarding it with one lock.

use vstd::prelude::*;
use crate::fmt::VirtualAmiibo;

verus! {

/// Program version triple with the development-build marker.
#[derive(Clone, Copy, PartialEq, Eq, Structural, Debug)]
pub struct Version {
    pub major: u8,
    pub minor: u8,
    pub micro: u8,
    pub is_dev_build: bool,
}

impl Version {
    pub fn from(major: u8, minor: u8, micro: u8, is_dev_build: bool) -> (r: Self)
        ensures
            r == (Version { major, minor, micro, is_dev_build }),
    {
        Version { major, minor, micro, is_dev_build }
    }
}

/// The version of this library.
pub fn current_version() -> (r: Version)
    ensures
        r == (Version { major: 1, minor: 1, micro: 1, is_dev_build: false }),
{
    Version::from(1, 1, 1, false)
}

/// Whether interception is switched on.
#[derive(Clone, Copy, PartialEq, Eq, Structural, Debug)]
pub enum EmulationStatus {
    On,
    Off,
}

/// The tri-state signal every session's poller observes.
#[derive(Clone, Copy, PartialEq, Eq, Structural, Debug)]
pub enum VirtualAmiiboStatus {
    Invalid,
    Connected,
    Disconnected,
}

/// The shared application context: on/off flag, active figurine, its
/// status signal, and the set of game identities holding a session.
pub struct EmuContext {
    pub emulation_status: EmulationStatus,
    pub active_virtual_amiibo_status: VirtualAmiiboStatus,
    pub active_virtual_amiibo: Option<VirtualAmiibo>,
    pub intercepted_application_ids: Vec<u64>,
}

impl EmuContext {
    /// A fresh context: emulation off, no figurine, status invalid.
    pub fn new() -> (r: Self)
        ensures
            r.emulation_status == EmulationStatus::Off,
            r.active_virtual_amiibo_status == VirtualAmiiboStatus::Invalid,
            r.active_virtual_amiibo is None,
            r.intercepted_application_ids@.len() == 0,
    {
        EmuContext {
            emulation_status: EmulationStatus::Off,
            active_virtual_amiibo_status: VirtualAmiiboStatus::Invalid,
            active_virtual_amiibo: None,
            intercepted_application_ids: Vec::new(),
        }
    }
}

pub fn get_emulation_status(ctx: &EmuContext) -> (r: EmulationStatus)
    ensures
        r == ctx.emulation_status,
{
    ctx.emulation_status
}

/// Adopts the persisted on/off flag the host read from storage.
pub fn load_emulation_status(ctx: &mut EmuContext, has_status_flag: bool)
    ensures
        final(ctx).emulation_status == if has_status_flag {
            EmulationStatus::On
        } else {
            EmulationStatus::Off
        },
        final(ctx).active_virtual_amiibo_status == old(ctx).active_virtual_amiibo_status,
        final(ctx).active_virtual_amiibo == old(ctx).active_virtual_amiibo,
        final(ctx).intercepted_application_ids == old(ctx).intercepted_application_ids,
{
    ctx.emulation_status = if has_status_flag {
        EmulationStatus::On
    } else {
        EmulationStatus::Off
    };
}

/// Switches emulation on or off; the host persists the flag to match.
pub fn set_emulation_status(ctx: &mut EmuContext, status: EmulationStatus)
    ensures
        final(ctx).emulation_status == status,
        final(ctx).active_virtual_amiibo_status == old(ctx).active_virtual_amiibo_status,
        final(ctx).active_virtual_amiibo == old(ctx).active_virtual_amiibo,
        final(ctx).intercepted_application_ids == old(ctx).intercepted_application_ids,
{
    ctx.emulation_status = status;
}

pub fn get_active_virtual_amiibo_status(ctx: &EmuContext) -> (r: VirtualAmiiboStatus)
    ensures
        r == ctx.active_virtual_amiibo_status,
{
    ctx.active_virtual_amiibo_status
}

pub fn set_active_virtual_amiibo_status(ctx: &mut EmuContext, status: VirtualAmiiboStatus)
    ensures
        final(ctx).active_virtual_amiibo_status == status,
        final(ctx).emulation_status == old(ctx).emulation_status,
        final(ctx).active_virtual_amiibo == old(ctx).active_virtual_amiibo,
        final(ctx).intercepted_application_ids == old(ctx).intercepted_application_ids,
{
    ctx.active_virtual_amiibo_status = status;
}

/// Swaps the figurine on the reader: the status signal becomes
/// Connected when one arrives and Invalid when the reader empties.
pub fn set_active_virtual_amiibo(ctx: &mut EmuContext, virtual_amiibo: Option<VirtualAmiibo>)
    ensures
        final(ctx).active_virtual_amiibo == virtual_amiibo,
        final(ctx).active_virtual_amiibo_status == if virtual_amiibo is Some {
            VirtualAmiiboStatus::Connected
        } else {
            VirtualAmiiboStatus::Invalid
        },
        final(ctx).emulation_status == old(ctx).emulation_status,
        final(ctx).intercepted_application_ids == old(ctx).intercepted_application_ids,
{
    ctx.active_virtual_amiibo_status = if virtual_amiibo.is_some() {
        VirtualAmiiboStatus::Connected
    } else {
        VirtualAmiiboStatus::Invalid
    };
    ctx.active_virtual_amiibo = virtual_amiibo;
}

/// Notes that a game opened a session.
pub fn register_intercepted_application_id(ctx: &mut EmuContext, application_id: u64)
    ensures
        final(ctx).intercepted_application_ids@ == old(ctx).intercepted_application_ids@.push(
            application_id,
        ),
        final(ctx).emulation_status == old(ctx).emulation_status,
        final(ctx).active_virtual_amiibo_status == old(ctx).active_virtual_amiibo_status,
        final(ctx).active_virtual_amiibo == old(ctx).active_virtual_amiibo,
{
    ctx.intercepted_application_ids.push(application_id);
}

/// Forgets a game whose session closed.
pub fn unregister_intercepted_application_id(ctx: &mut EmuContext, application_id: u64)
    ensures
        final(ctx).intercepted_application_ids@ == old(
            ctx,
        ).intercepted_application_ids@.filter(|id: u64| id != application_id),
        final(ctx).emulation_status == old(ctx).emulation_status,
        final(ctx).active_virtual_amiibo_status == old(ctx).active_virtual_amiibo_status,
        final(ctx).active_virtual_amiibo == old(ctx).active_virtual_amiibo,
{
    let ghost pred = |id: u64| id != application_id;
    let mut kept: Vec<u64> = Vec::new();
    let mut i: usize = 0;
    while i < ctx.intercepted_application_ids.len()
        invariant
            i <= ctx.intercepted_application_ids@.len(),
            ctx.intercepted_application_ids@ == old(ctx).intercepted_application_ids@,
            ctx.emulation_status == old(ctx).emulation_status,
            ctx.active_virtual_amiibo_status == old(ctx).active_virtual_amiibo_status,
            ctx.active_virtual_amiibo == old(ctx).active_virtual_amiibo,
            kept@ == ctx.intercepted_application_ids@.take(i as int).filter(pred),
            pred == (|id: u64| id != application_id),
        decreases ctx.intercepted_application_ids@.len() - i,
    {
        let ghost taken = ctx.intercepted_application_ids@.take(i as int);
        proof {
            reveal_with_fuel(Seq::filter, 2);
            assert(ctx.intercepted_application_ids@.take(i + 1).drop_last() =~= taken);
            assert(ctx.intercepted_application_ids@.take(i + 1).last()
                == ctx.intercepted_application_ids@[i as int]);
        }
        if ctx.intercepted_application_ids[i] != application_id {
            kept.push(ctx.intercepted_application_ids[i]);
        }
        proof {
            assert(kept@ =~= ctx.intercepted_application_ids@.take(i + 1).filter(pred));
        }
        i = i + 1;
    }
    proof {
        assert(ctx.intercepted_application_ids@.take(
            ctx.intercepted_application_ids@.len() as int,
        ) =~= ctx.intercepted_application_ids@);
    }
    ctx.intercepted_application_ids = kept;
}

/// Where the figurine directories live on removable storage.
pub fn get_virtual_amiibo_directory() -> (r: String)
    ensures
        r@ == "sdmc:/emuiibo/amiibo"@,
{
    <String as vstd::string::StringExecFns>::from_str("sdmc:/emuiibo/amiibo")
}

/// Clears the reader: no figurine, status invalid.
pub fn reset_active_virtual_amiibo(ctx: &mut EmuContext)
    ensures
        final(ctx).active_virtual_amiibo is None,
        final(ctx).active_virtual_amiibo_status == VirtualAmiiboStatus::Invalid,
        final(ctx).emulation_status == old(ctx).emulation_status,
        final(ctx).intercepted_application_ids == old(ctx).intercepted_application_ids,
{
    set_active_virtual_amiibo(ctx, None);
}

/// The control-plane summary of the active figurine.  Fails exactly
/// when none is active.
pub fn get_active_virtual_amiibo(ctx: &EmuContext) -> (r: Result<
    crate::fmt::VirtualAmiiboData,
    crate::rc::EmuError,
>)
    requires
        ctx.active_virtual_amiibo is Some ==> ctx.active_virtual_amiibo.unwrap().info.uuid@.len()
            >= 10,
    ensures
        r is Ok <==> ctx.active_virtual_amiibo is Some,
        r is Err ==> r == Result::<crate::fmt::VirtualAmiiboData, crate::rc::EmuError>::Err(
            crate::rc::EmuError::InvalidActiveVirtualAmiibo,
        ),
        r is Ok ==> {
            let a = ctx.active_virtual_amiibo.unwrap();
            let data = r.unwrap();
            &&& data.uuid_info.uuid@ == a.info.uuid@.take(10)
            &&& data.uuid_info.use_random_uuid == a.info.use_random_uuid
            &&& data.name == a.info.name
            &&& data.first_write_date == (crate::sf::Date {
                year: a.info.first_write_date.y,
                month: a.info.first_write_date.m,
                day: a.info.first_write_date.d,
            })
            &&& data.last_write_date == (crate::sf::Date {
                year: a.info.last_write_date.y,
                month: a.info.last_write_date.m,
                day: a.info.last_write_date.d,
            })
            &&& data.mii_charinfo@ == a.mii_charinfo@
        },
{
    match ctx.active_virtual_amiibo.as_ref() {
        Option::Some(amiibo) => Ok(amiibo.produce_data()),
        Option::None => Err(crate::rc::EmuError::InvalidActiveVirtualAmiibo),
    }
}

/// The first `max_count` area entries of the active figurine.  Fails
/// exactly when none is active.
pub fn get_active_virtual_amiibo_areas(ctx: &EmuContext, max_count: usize) -> (r: Result<
    Vec<crate::fmt::VirtualAmiiboAreaEntry>,
    crate::rc::EmuError,
>)
    ensures
        r is Ok <==> ctx.active_virtual_amiibo is Some,
        r is Err ==> r == Result::<
            Vec<crate::fmt::VirtualAmiiboAreaEntry>,
            crate::rc::EmuError,
        >::Err(crate::rc::EmuError::InvalidActiveVirtualAmiibo),
        r is Ok ==> {
            let entries = ctx.active_virtual_amiibo.unwrap().areas.areas@;
            let n = if entries.len() < max_count {
                entries.len() as int
            } else {
                max_count as int
            };
            r.unwrap()@ == entries.take(n)
        },
{
    match ctx.active_virtual_amiibo.as_ref() {
        Option::Some(amiibo) => {
            let n = if amiibo.areas.areas.len() < max_count {
                amiibo.areas.areas.len()
            } else {
                max_count
            };
            let mut out: Vec<crate::fmt::VirtualAmiiboAreaEntry> = Vec::new();
            let mut i: usize = 0;
            while i < n
                invariant
                    i <= n,
                    n <= amiibo.areas.areas@.len(),
                    out@ == amiibo.areas.areas@.take(i as int),
                decreases n - i,
            {
                out.push(amiibo.areas.areas[i]);
                proof {
                    assert(out@ =~= amiibo.areas.areas@.take(i + 1));
                }
                i = i + 1;
            }
            Ok(out)
        },
        Option::None => Err(crate::rc::EmuError::InvalidActiveVirtualAmiibo),
    }
}

/// The selected data-id of the active figurine.  Fails when none is
/// active, or when nothing is selected.
pub fn get_active_virtual_amiibo_current_area(ctx: &EmuContext) -> (r: Result<
    u32,
    crate::rc::EmuError,
>)
    ensures
        ctx.active_virtual_amiibo is None ==> r == Result::<u32, crate::rc::EmuError>::Err(
            crate::rc::EmuError::InvalidActiveVirtualAmiibo,
        ),
        ctx.active_virtual_amiibo is Some ==> {
            let a = ctx.active_virtual_amiibo.unwrap();
            let cur = crate::fmt::spec_find_area(a.areas.areas@, a.areas.current_area_access_id);
            &&& (cur is Some ==> r == Result::<u32, crate::rc::EmuError>::Ok(
                cur.unwrap().access_id,
            ))
            &&& (cur is None ==> r == Result::<u32, crate::rc::EmuError>::Err(
                crate::rc::EmuError::InvalidVirtualAmiiboAccessId,
            ))
        },
{
    match ctx.active_virtual_amiibo.as_ref() {
        Option::Some(amiibo) => {
            match amiibo.get_current_area() {
                Option::Some(entry) => Ok(entry.access_id),
                Option::None => Err(crate::rc::EmuError::InvalidVirtualAmiiboAccessId),
            }
        },
        Option::None => Err(crate::rc::EmuError::InvalidActiveVirtualAmiibo),
    }
}

/// Selects (auto-registering if needed) a data-id on the active
/// figurine.  Fails exactly when none is active.
pub fn set_active_virtual_amiibo_current_area(ctx: &mut EmuContext, access_id: u32) -> (r: Result<
    (),
    crate::rc::EmuError,
>)
    ensures
        r is Ok <==> old(ctx).active_virtual_amiibo is Some,
        r is Err ==> r == Result::<(), crate::rc::EmuError>::Err(
            crate::rc::EmuError::InvalidActiveVirtualAmiibo,
        ) && final(ctx).active_virtual_amiibo == old(ctx).active_virtual_amiibo,
        r is Ok ==> {
            let a0 = old(ctx).active_virtual_amiibo.unwrap();
            let a1 = final(ctx).active_virtual_amiibo.unwrap();
            &&& final(ctx).active_virtual_amiibo is Some
            &&& a1.areas.model() == crate::fmt::spec_select_area(a0.areas.model(), access_id)
            &&& a1.areas.wf()
            &&& a1.info == a0.info
            &&& a1.mii_charinfo@ == a0.mii_charinfo@
            &&& a1.path@ == a0.path@
        },
        final(ctx).emulation_status == old(ctx).emulation_status,
        final(ctx).active_virtual_amiibo_status == old(ctx).active_virtual_amiibo_status,
        final(ctx).intercepted_application_ids == old(ctx).intercepted_application_ids,
{
    let active = ctx.active_virtual_amiibo.take();
    match active {
        Option::Some(mut amiibo) => {
            let _ = amiibo.set_current_area(access_id);
            ctx.active_virtual_amiibo = Some(amiibo);
            Ok(())
        },
        Option::None => {
            ctx.active_virtual_amiibo = None;
            Err(crate::rc::EmuError::InvalidActiveVirtualAmiibo)
        },
    }
}

/// Overwrites the active figurine's UUID fields.  Fails exactly when
/// none is active.
pub fn set_active_virtual_amiibo_uuid_info(
    ctx: &mut EmuContext,
    uuid_info: crate::fmt::VirtualAmiiboUuidInfo,
) -> (r: Result<(), crate::rc::EmuError>)
    ensures
        r is Ok <==> old(ctx).active_virtual_amiibo is Some,
        r is Err ==> r == Result::<(), crate::rc::EmuError>::Err(
            crate::rc::EmuError::InvalidActiveVirtualAmiibo,
        ) && final(ctx).active_virtual_amiibo == old(ctx).active_virtual_amiibo,
        r is Ok ==> {
            let a0 = old(ctx).active_virtual_amiibo.unwrap();
            let a1 = final(ctx).active_virtual_amiibo.unwrap();
            &&& final(ctx).active_virtual_amiibo is Some
            &&& a1.info.uuid@ == uuid_info.uuid@
            &&& a1.info.use_random_uuid == uuid_info.use_random_uuid
            &&& a1.info.name == a0.info.name
            &&& a1.info.write_counter == a0.info.write_counter
            &&& a1.areas == a0.areas
            &&& a1.mii_charinfo@ == a0.mii_charinfo@
            &&& a1.path@ == a0.path@
        },
        final(ctx).emulation_status == old(ctx).emulation_status,
        final(ctx).active_virtual_amiibo_status == old(ctx).active_virtual_amiibo_status,
        final(ctx).intercepted_application_ids == old(ctx).intercepted_application_ids,
{
    let active = ctx.active_virtual_amiibo.take();
    match active {
        Option::Some(mut amiibo) => {
            amiibo.set_uuid_info(uuid_info);
            ctx.active_virtual_amiibo = Some(amiibo);
            Ok(())
        },
        Option::None => {
            ctx.active_virtual_amiibo = None;
            Err(crate::rc::EmuError::InvalidActiveVirtualAmiibo)
        },
    }
}

/// Whether a game currently holds a session.
pub fn is_application_id_intercepted(ctx: &EmuContext, application_id: u64) -> (r: bool)
    ensures
        r == ctx.intercepted_application_ids@.contains(application_id),
{
    let mut i: usize = 0;
    while i < ctx.intercepted_application_ids.len()
        invariant
            i <= ctx.intercepted_application_ids@.len(),
            forall|j: int|
                0 <= j < i ==> ctx.intercepted_application_ids@[j] != application_id,
        decreases ctx.intercepted_application_ids@.len() - i,
    {
        if ctx.intercepted_application_ids[i] == application_id {
            return true;
        }
        i = i + 1;
    }
    false
}

} // verus!
