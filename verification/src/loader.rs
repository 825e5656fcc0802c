//! Loading a figurine from its directory.
//!
//! The host probes the presence flag, reads the two record documents
//! and the avatar blob, and scans the area blob directory; the logic
//! here decides what the loaded figurine is.  Legacy records missing
//! the UUID fields are upgraded on the spot: a fresh random UUID with
//! its use-random flag, to be persisted immediately.

use vstd::prelude::*;
use crate::fmt::{VirtualAmiibo, VirtualAmiiboAreaInfo};
use crate::json::{
    JsonDoc,
    from_json_info,
    from_json_areas,
    spec_info_from_doc,
    spec_areas_from_doc,
    spec_model_of_areas,
};
use crate::area::build_areas_from_ids;
use crate::crypto::generate_random_uuid;
use crate::rc::EmuError;
use crate::fmt::DEFAULY_EMPTY_AREA_PROGRAM_ID;
use crate::fmt::VirtualAmiiboAreaEntry;

verus! {

/// A freshly loaded figurine, with what the host still has to persist.
pub struct LoadedVirtualAmiibo {
    pub amiibo: VirtualAmiibo,
    pub record_upgraded: bool,
    pub areas_synthesized: bool,
}

/// Loads a figurine from what the host found in its directory.
///
/// Fails with `VirtualAmiiboFlagNotFound` exactly when the presence
/// flag is missing, with `VirtualAmiiboJsonNotFound` exactly when the
/// primary record is, and with `InvalidJsonDeserialization` exactly
/// when a present document does not read back.  A record without the
/// UUID fields is upgraded: a fresh random 10-byte UUID whose last
/// three bytes are zero, with the use-random flag set; a record with a
/// UUID but no use-random flag gets the flag cleared.  A missing area
/// directory is synthesized from the blob files found on disk.
pub fn try_load(
    flag_exists: bool,
    record: Option<&JsonDoc>,
    areas_doc: Option<&JsonDoc>,
    disk_area_ids: &Vec<u32>,
    mii_charinfo: Vec<u8>,
    path: String,
) -> (r: Result<LoadedVirtualAmiibo, EmuError>)
    ensures
        !flag_exists <==> r == Result::<LoadedVirtualAmiibo, EmuError>::Err(
            EmuError::VirtualAmiiboFlagNotFound,
        ),
        flag_exists && record is None ==> r == Result::<LoadedVirtualAmiibo, EmuError>::Err(
            EmuError::VirtualAmiiboJsonNotFound,
        ),
        flag_exists && record is Some && spec_info_from_doc(*record.unwrap()) is None ==> r
            == Result::<LoadedVirtualAmiibo, EmuError>::Err(EmuError::InvalidJsonDeserialization),
        flag_exists && record is Some && spec_info_from_doc(*record.unwrap()) is Some
            && areas_doc is Some && spec_areas_from_doc(*areas_doc.unwrap()) is None ==> r
            == Result::<LoadedVirtualAmiibo, EmuError>::Err(EmuError::InvalidJsonDeserialization),
        r is Ok <==> flag_exists && record is Some && spec_info_from_doc(*record.unwrap()) is Some
            && (areas_doc is Some ==> spec_areas_from_doc(*areas_doc.unwrap()) is Some),
        r is Ok ==> {
            let m = spec_info_from_doc(*record.unwrap()).unwrap();
            let loaded = r.unwrap();
            let info = loaded.amiibo.info;
            &&& info.first_write_date == m.first_write_date
            &&& info.id == m.id
            &&& info.last_write_date == m.last_write_date
            &&& info.mii_charinfo_file@ == m.mii_charinfo_file
            &&& info.name@ == m.name
            &&& info.version == m.version
            &&& info.write_counter == m.write_counter
            &&& (m.uuid is Some ==> info.uuid@ == m.uuid.unwrap())
            &&& (m.uuid is None ==> info.uuid@.len() == 10 && info.uuid@[7] == 0 && info.uuid@[8]
                == 0 && info.uuid@[9] == 0 && info.use_random_uuid == true)
            &&& (m.uuid is Some && m.use_random_uuid is Some ==> info.use_random_uuid
                == m.use_random_uuid.unwrap())
            &&& (m.uuid is Some && m.use_random_uuid is None ==> info.use_random_uuid == false)
            &&& loaded.record_upgraded == (m.uuid is None || m.use_random_uuid is None)
            &&& (areas_doc is Some ==> spec_model_of_areas(loaded.amiibo.areas)
                == spec_areas_from_doc(*areas_doc.unwrap()).unwrap())
            &&& loaded.areas_synthesized == (areas_doc is None)
            &&& (areas_doc is None ==> loaded.amiibo.areas.areas@.len() == disk_area_ids@.len()
                && loaded.amiibo.areas.wf())
            &&& loaded.amiibo.mii_charinfo@ == mii_charinfo@
            &&& loaded.amiibo.path@ == path@
        },
{
    if !flag_exists {
        return Err(EmuError::VirtualAmiiboFlagNotFound);
    }
    let record_doc = match record {
        Option::Some(doc) => doc,
        Option::None => {
            return Err(EmuError::VirtualAmiiboJsonNotFound);
        },
    };
    let mut info_opt = match from_json_info(record_doc) {
        Ok(info_opt) => info_opt,
        Err(e) => {
            return Err(e);
        },
    };
    let mut record_upgraded = false;
    if info_opt.uuid.is_none() {
        info_opt.uuid = Some(generate_random_uuid());
        info_opt.use_random_uuid = Some(true);
        record_upgraded = true;
    }
    if info_opt.use_random_uuid.is_none() {
        info_opt.use_random_uuid = Some(false);
        record_upgraded = true;
    }
    let (areas, areas_synthesized) = match areas_doc {
        Option::Some(doc) => {
            match from_json_areas(doc) {
                Ok(areas) => (areas, false),
                Err(e) => {
                    return Err(e);
                },
            }
        },
        Option::None => (build_areas_from_ids(disk_area_ids), true),
    };
    let info = info_opt.convert_to_info();
    let amiibo = VirtualAmiibo::new(info, mii_charinfo, areas, path);
    Ok(LoadedVirtualAmiibo { amiibo, record_upgraded, areas_synthesized })
}

/// Whether a load outcome qualifies for a summary: the loader's own
/// success conditions, a non-empty backing path, and a stored UUID of
/// at least ten bytes (a freshly assigned one always qualifies).
pub open spec fn spec_parse_ok(
    flag_exists: bool,
    record: Option<&JsonDoc>,
    areas_doc: Option<&JsonDoc>,
    path: Seq<char>,
) -> bool {
    &&& flag_exists
    &&& record is Some
    &&& spec_info_from_doc(*record.unwrap()) is Some
    &&& (areas_doc is Some ==> spec_areas_from_doc(*areas_doc.unwrap()) is Some)
    &&& path.len() > 0
    &&& {
        let m = spec_info_from_doc(*record.unwrap()).unwrap();
        m.uuid is Some ==> m.uuid.unwrap().len() >= 10
    }
}

/// Loads a figurine and summarizes it without activating it.  On top
/// of the loader's own failures, a figurine without a backing path or
/// whose UUID is shorter than ten bytes is rejected as invalid.
pub fn try_parse_virtual_amiibo(
    flag_exists: bool,
    record: Option<&JsonDoc>,
    areas_doc: Option<&JsonDoc>,
    disk_area_ids: &Vec<u32>,
    mii_charinfo: Vec<u8>,
    path: String,
) -> (r: Result<crate::fmt::VirtualAmiiboData, EmuError>)
    ensures
        r is Ok <==> spec_parse_ok(flag_exists, record, areas_doc, path@),
        !flag_exists <==> r == Result::<crate::fmt::VirtualAmiiboData, EmuError>::Err(
            EmuError::VirtualAmiiboFlagNotFound,
        ),
        flag_exists && record is None ==> r == Result::<crate::fmt::VirtualAmiiboData,
            EmuError>::Err(EmuError::VirtualAmiiboJsonNotFound),
        flag_exists && record is Some && spec_info_from_doc(*record.unwrap()) is None ==> r
            == Result::<crate::fmt::VirtualAmiiboData, EmuError>::Err(
            EmuError::InvalidJsonDeserialization,
        ),
        flag_exists && record is Some && spec_info_from_doc(*record.unwrap()) is Some
            && areas_doc is Some && spec_areas_from_doc(*areas_doc.unwrap()) is None ==> r
            == Result::<crate::fmt::VirtualAmiiboData, EmuError>::Err(
            EmuError::InvalidJsonDeserialization,
        ),
        flag_exists && record is Some && spec_info_from_doc(*record.unwrap()) is Some
            && (areas_doc is Some ==> spec_areas_from_doc(*areas_doc.unwrap()) is Some)
            && !spec_parse_ok(flag_exists, record, areas_doc, path@) ==> r == Result::<
            crate::fmt::VirtualAmiiboData,
            EmuError,
        >::Err(EmuError::InvalidLoadedVirtualAmiibo),
        r is Ok ==> {
            let m = spec_info_from_doc(*record.unwrap()).unwrap();
            let data = r.unwrap();
            &&& data.name@ == m.name
            &&& data.mii_charinfo@ == mii_charinfo@
            &&& data.first_write_date == (crate::sf::Date {
                year: m.first_write_date.y,
                month: m.first_write_date.m,
                day: m.first_write_date.d,
            })
            &&& data.last_write_date == (crate::sf::Date {
                year: m.last_write_date.y,
                month: m.last_write_date.m,
                day: m.last_write_date.d,
            })
            &&& (m.uuid is Some ==> data.uuid_info.uuid@ == m.uuid.unwrap().take(10))
            &&& (m.uuid is None ==> data.uuid_info.uuid@.len() == 10
                && data.uuid_info.use_random_uuid == true)
            &&& (m.uuid is Some && m.use_random_uuid is Some ==> data.uuid_info.use_random_uuid
                == m.use_random_uuid.unwrap())
            &&& (m.uuid is Some && m.use_random_uuid is None ==> data.uuid_info.use_random_uuid
                == false)
        },
{
    let loaded = match try_load(flag_exists, record, areas_doc, disk_area_ids, mii_charinfo, path) {
        Ok(loaded) => loaded,
        Err(e) => {
            return Err(e);
        },
    };
    if !loaded.amiibo.is_valid() {
        return Err(EmuError::InvalidLoadedVirtualAmiibo);
    }
    if loaded.amiibo.info.uuid.len() < 10 {
        return Err(EmuError::InvalidLoadedVirtualAmiibo);
    }
    Ok(loaded.amiibo.produce_data())
}

} // verus!
