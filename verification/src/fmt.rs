//! The live virtual-figurine record and its area directory.
//!
//! A figurine is identity fields, two write dates, a display name, an
//! avatar blob reference, a 10-byte UUID (or a use-random-UUID flag), a
//! format version byte and a saturating write counter, together with an
//! ordered list of (owning game, data-id) area entries and the
//! currently selected data-id.  The selected data-id, when non-zero, is
//! always present in the entry list, and every mutation here preserves
//! that.

use vstd::prelude::*;
use crate::sf;
use crate::crypto::generate_random_uuid;

verus! {

/// A UUID together with the use-random flag, as the control plane sets
/// it.
pub struct VirtualAmiiboUuidInfo {
    pub use_random_uuid: bool,
    pub uuid: Vec<u8>,
}

/// The control-plane summary of a figurine.
pub struct VirtualAmiiboData {
    pub uuid_info: VirtualAmiiboUuidInfo,
    pub name: String,
    pub first_write_date: sf::Date,
    pub last_write_date: sf::Date,
    pub mii_charinfo: Vec<u8>,
}

/// The figurine's identity fields.
#[derive(Clone, Copy, PartialEq, Eq, Structural, Debug)]
pub struct VirtualAmiiboId {
    pub game_character_id: u16,
    pub character_variant: u8,
    pub figure_type: u8,
    pub model_number: u16,
    pub series: u8,
}

impl VirtualAmiiboId {
    pub fn empty() -> (r: Self)
        ensures
            r == (VirtualAmiiboId {
                game_character_id: 0,
                character_variant: 0,
                figure_type: 0,
                model_number: 0,
                series: 0,
            }),
    {
        VirtualAmiiboId {
            game_character_id: 0,
            character_variant: 0,
            figure_type: 0,
            model_number: 0,
            series: 0,
        }
    }
}

/// A date as the record stores it: plain year, month, day.
#[derive(Clone, Copy, PartialEq, Eq, Structural, Debug)]
pub struct VirtualAmiiboDate {
    pub y: u16,
    pub m: u8,
    pub d: u8,
}

impl VirtualAmiiboDate {
    pub fn empty() -> (r: Self)
        ensures
            r == (VirtualAmiiboDate { y: 0, m: 0, d: 0 }),
    {
        VirtualAmiiboDate { y: 0, m: 0, d: 0 }
    }

    pub fn from_date(date: sf::Date) -> (r: Self)
        ensures
            r.y == date.year,
            r.m == date.month,
            r.d == date.day,
    {
        VirtualAmiiboDate { y: date.year, m: date.month, d: date.day }
    }

    pub fn to_date(&self) -> (r: sf::Date)
        ensures
            r.year == self.y,
            r.month == self.m,
            r.day == self.d,
    {
        sf::Date { year: self.y, month: self.m, day: self.d }
    }
}

/// The primary record of one figurine.
pub struct VirtualAmiiboInfo {
    pub first_write_date: VirtualAmiiboDate,
    pub id: VirtualAmiiboId,
    pub last_write_date: VirtualAmiiboDate,
    pub mii_charinfo_file: String,
    pub name: String,
    pub uuid: Vec<u8>,
    pub use_random_uuid: bool,
    pub version: u8,
    pub write_counter: u16,
}

/// The record as read from storage: legacy records may lack the UUID
/// fields, which the loader upgrades.
pub struct VirtualAmiiboInfoOptional {
    pub first_write_date: VirtualAmiiboDate,
    pub id: VirtualAmiiboId,
    pub last_write_date: VirtualAmiiboDate,
    pub mii_charinfo_file: String,
    pub name: String,
    pub uuid: Option<Vec<u8>>,
    pub use_random_uuid: Option<bool>,
    pub version: u8,
    pub write_counter: u16,
}

impl VirtualAmiiboInfoOptional {
    /// Both optional fields must have been settled before conversion.
    pub fn convert_to_info(self) -> (r: VirtualAmiiboInfo)
        requires
            self.uuid is Some,
            self.use_random_uuid is Some,
        ensures
            r.first_write_date == self.first_write_date,
            r.id == self.id,
            r.last_write_date == self.last_write_date,
            r.mii_charinfo_file == self.mii_charinfo_file,
            r.name == self.name,
            r.uuid == self.uuid.unwrap(),
            r.use_random_uuid == self.use_random_uuid.unwrap(),
            r.version == self.version,
            r.write_counter == self.write_counter,
    {
        VirtualAmiiboInfo {
            first_write_date: self.first_write_date,
            id: self.id,
            last_write_date: self.last_write_date,
            mii_charinfo_file: self.mii_charinfo_file,
            name: self.name,
            uuid: self.uuid.unwrap(),
            use_random_uuid: self.use_random_uuid.unwrap(),
            version: self.version,
            write_counter: self.write_counter,
        }
    }
}

/// One area directory entry: the owning game and the area's data-id.
#[derive(Clone, Copy, PartialEq, Eq, Structural, Debug)]
pub struct VirtualAmiiboAreaEntry {
    pub program_id: u64,
    pub access_id: u32,
}

/// The sentinel owning-game identity given to areas registered before
/// any game wrote to them.
pub const DEFAULY_EMPTY_AREA_PROGRAM_ID: u64 = 0x0100069000078000;

/// The area directory: an ordered entry list and the currently
/// selected data-id.
pub struct VirtualAmiiboAreaInfo {
    pub areas: Vec<VirtualAmiiboAreaEntry>,
    pub current_area_access_id: u32,
}

/// The mathematical model of an area directory.
pub struct AreasModel {
    pub entries: Seq<VirtualAmiiboAreaEntry>,
    pub current: u32,
}

/// Whether some entry carries the given data-id.
pub open spec fn spec_contains_area(entries: Seq<VirtualAmiiboAreaEntry>, access_id: u32) -> bool {
    exists|i: int| 0 <= i < entries.len() && entries[i].access_id == access_id
}

/// The first entry carrying the given data-id, if any.
pub open spec fn spec_find_area(entries: Seq<VirtualAmiiboAreaEntry>, access_id: u32) -> Option<
    VirtualAmiiboAreaEntry,
>
    decreases entries.len(),
{
    if entries.len() == 0 {
        Option::None
    } else if entries[0].access_id == access_id {
        Option::Some(entries[0])
    } else {
        spec_find_area(entries.drop_first(), access_id)
    }
}

/// The area lifecycle invariant: the selected data-id is either zero or
/// present in the entry list.
pub open spec fn spec_areas_wf(m: AreasModel) -> bool {
    m.current == 0 || spec_contains_area(m.entries, m.current)
}

/// One Register/Select/Delete operation on the area directory.
pub enum AreaOp {
    Register { access_id: u32, program_id: u64 },
    Select { access_id: u32 },
    DeleteCurrent,
    DeleteAll,
}

/// Registration appends an entry unless the data-id is already present.
pub open spec fn spec_register_area(m: AreasModel, access_id: u32, program_id: u64) -> AreasModel {
    if spec_contains_area(m.entries, access_id) {
        m
    } else {
        AreasModel {
            entries: m.entries.push(VirtualAmiiboAreaEntry { program_id, access_id }),
            current: m.current,
        }
    }
}

/// Selection auto-registers under the sentinel owner, then selects.
pub open spec fn spec_select_area(m: AreasModel, access_id: u32) -> AreasModel {
    let m1 = spec_register_area(m, access_id, DEFAULY_EMPTY_AREA_PROGRAM_ID);
    AreasModel { entries: m1.entries, current: access_id }
}

/// Deleting the current area removes its entries and re-selects the
/// first remaining entry, or none.
pub open spec fn spec_delete_current_area(m: AreasModel) -> AreasModel {
    let remaining = m.entries.filter(|e: VirtualAmiiboAreaEntry| e.access_id != m.current);
    AreasModel {
        entries: remaining,
        current: if remaining.len() == 0 {
            0
        } else {
            remaining[0].access_id
        },
    }
}

/// Deleting everything empties the list and clears the selection.
pub open spec fn spec_delete_all_areas(m: AreasModel) -> AreasModel {
    AreasModel { entries: Seq::empty(), current: 0 }
}

/// The model transition of one operation.
pub open spec fn spec_apply_area_op(m: AreasModel, op: AreaOp) -> AreasModel {
    match op {
        AreaOp::Register { access_id, program_id } => spec_register_area(m, access_id, program_id),
        AreaOp::Select { access_id } => spec_select_area(m, access_id),
        AreaOp::DeleteCurrent => spec_delete_current_area(m),
        AreaOp::DeleteAll => spec_delete_all_areas(m),
    }
}

/// The model after a whole sequence of operations.
pub open spec fn spec_apply_area_ops(m: AreasModel, ops: Seq<AreaOp>) -> AreasModel
    decreases ops.len(),
{
    if ops.len() == 0 {
        m
    } else {
        spec_apply_area_ops(spec_apply_area_op(m, ops[0]), ops.drop_first())
    }
}

/// Every single operation preserves the area lifecycle invariant.
pub proof fn lemma_area_op_preserves_wf(m: AreasModel, op: AreaOp)
    requires
        spec_areas_wf(m),
    ensures
        spec_areas_wf(spec_apply_area_op(m, op)),
{
    match op {
        AreaOp::Register { access_id, program_id } => {
            if m.current != 0 {
                let i = choose|i: int|
                    0 <= i < m.entries.len() && m.entries[i].access_id == m.current;
                let m1 = spec_apply_area_op(m, op);
                assert(m1.entries[i].access_id == m.current);
            }
        },
        AreaOp::Select { access_id } => {
            let m1 = spec_register_area(m, access_id, DEFAULY_EMPTY_AREA_PROGRAM_ID);
            if spec_contains_area(m.entries, access_id) {
                assert(spec_contains_area(m1.entries, access_id));
            } else {
                let last = m1.entries.len() - 1;
                assert(m1.entries[last].access_id == access_id);
            }
        },
        AreaOp::DeleteCurrent => {
            let m1 = spec_apply_area_op(m, op);
            if m1.entries.len() > 0 {
                assert(m1.entries[0].access_id == m1.current);
            }
        },
        AreaOp::DeleteAll => {
        },
    }
}

/// Area lifecycle invariant: after any sequence of Register, Select and
/// Delete operations on a well-formed directory, the selected data-id
/// is still either zero or present in the entry list.
pub proof fn lemma_area_lifecycle_invariant(m: AreasModel, ops: Seq<AreaOp>)
    requires
        spec_areas_wf(m),
    ensures
        spec_areas_wf(spec_apply_area_ops(m, ops)),
    decreases ops.len(),
{
    if ops.len() > 0 {
        lemma_area_op_preserves_wf(m, ops[0]);
        lemma_area_lifecycle_invariant(spec_apply_area_op(m, ops[0]), ops.drop_first());
    }
}

impl VirtualAmiiboAreaInfo {
    /// The directory as its model.
    pub open spec fn model(&self) -> AreasModel {
        AreasModel { entries: self.areas@, current: self.current_area_access_id }
    }

    pub open spec fn wf(&self) -> bool {
        spec_areas_wf(self.model())
    }

    pub fn empty() -> (r: Self)
        ensures
            r.areas@ =~= Seq::<VirtualAmiiboAreaEntry>::empty(),
            r.current_area_access_id == 0,
            r.wf(),
    {
        VirtualAmiiboAreaInfo { areas: Vec::new(), current_area_access_id: 0 }
    }
}

/// The entry list with the owning game of the first entry carrying
/// `access_id` replaced by `program_id`.
pub open spec fn spec_set_area_pid(
    entries: Seq<VirtualAmiiboAreaEntry>,
    access_id: u32,
    program_id: u64,
) -> Seq<VirtualAmiiboAreaEntry>
    decreases entries.len(),
{
    if entries.len() == 0 {
        entries
    } else if entries[0].access_id == access_id {
        seq![VirtualAmiiboAreaEntry { program_id, access_id }] + entries.drop_first()
    } else {
        seq![entries[0]] + spec_set_area_pid(entries.drop_first(), access_id, program_id)
    }
}

/// The in-memory aggregate of one figurine: record, avatar blob, area
/// directory and backing directory path.  The path doubles as identity.
pub struct VirtualAmiibo {
    pub info: VirtualAmiiboInfo,
    pub mii_charinfo: Vec<u8>,
    pub areas: VirtualAmiiboAreaInfo,
    pub path: String,
}

impl VirtualAmiibo {
    /// Everything but the record and the directory stays put.
    pub open spec fn same_identity(&self, other: &Self) -> bool {
        &&& self.mii_charinfo@ == other.mii_charinfo@
        &&& self.path@ == other.path@
    }

    /// Everything but the directory stays put.
    pub open spec fn same_but_areas(&self, other: &Self) -> bool {
        &&& self.info == other.info
        &&& self.same_identity(other)
    }

    pub fn new(info: VirtualAmiiboInfo, mii_charinfo: Vec<u8>, areas: VirtualAmiiboAreaInfo, path: String) -> (r: Self)
        ensures
            r.info == info,
            r.mii_charinfo == mii_charinfo,
            r.areas == areas,
            r.path == path,
    {
        VirtualAmiibo { info, mii_charinfo, areas, path }
    }

    /// A figurine is valid exactly when it has a backing path.
    pub fn is_valid(&self) -> (r: bool)
        ensures
            r == (self.path@.len() > 0),
    {
        !self.path.as_str().is_empty()
    }

    pub fn has_any_application_areas(&self) -> (r: bool)
        ensures
            r == (self.areas.areas@.len() > 0),
    {
        self.areas.areas.len() > 0
    }

    pub fn has_application_area(&self, access_id: u32) -> (r: bool)
        ensures
            r == spec_contains_area(self.areas.areas@, access_id),
    {
        let mut i: usize = 0;
        while i < self.areas.areas.len()
            invariant
                i <= self.areas.areas@.len(),
                forall|j: int| 0 <= j < i ==> self.areas.areas@[j].access_id != access_id,
            decreases self.areas.areas@.len() - i,
        {
            if self.areas.areas[i].access_id == access_id {
                return true;
            }
            i = i + 1;
        }
        false
    }

    /// Appends an entry unless the data-id is already registered;
    /// reports whether it appended.
    pub fn register_area(&mut self, access_id: u32, program_id: u64) -> (r: bool)
        ensures
            final(self).areas.model() == spec_register_area(
                old(self).areas.model(),
                access_id,
                program_id,
            ),
            r == !spec_contains_area(old(self).areas.areas@, access_id),
            final(self).same_but_areas(old(self)),
    {
        if self.has_application_area(access_id) {
            false
        } else {
            self.areas.areas.push(VirtualAmiiboAreaEntry { program_id, access_id });
            true
        }
    }

    pub fn ensure_area_registered(&mut self, access_id: u32, program_id: u64)
        ensures
            final(self).areas.model() == spec_register_area(
                old(self).areas.model(),
                access_id,
                program_id,
            ),
            final(self).same_but_areas(old(self)),
    {
        let _ = self.register_area(access_id, program_id);
    }

    /// Auto-registers the data-id under the sentinel owner, then
    /// selects it; selection always lands on a registered entry.
    pub fn set_current_area(&mut self, access_id: u32) -> (r: bool)
        ensures
            final(self).areas.model() == spec_select_area(old(self).areas.model(), access_id),
            r == true,
            final(self).same_but_areas(old(self)),
            final(self).areas.wf(),
    {
        self.ensure_area_registered(access_id, DEFAULY_EMPTY_AREA_PROGRAM_ID);
        let found = self.has_application_area(access_id);
        proof {
            let m1 = spec_register_area(old(self).areas.model(), access_id, DEFAULY_EMPTY_AREA_PROGRAM_ID);
            if !spec_contains_area(old(self).areas.areas@, access_id) {
                let last = m1.entries.len() - 1;
                assert(m1.entries[last].access_id == access_id);
            }
            assert(spec_contains_area(self.areas.areas@, access_id));
        }
        self.areas.current_area_access_id = access_id;
        true
    }

    /// The first entry carrying the selected data-id, if any.
    pub fn get_current_area(&self) -> (r: Option<VirtualAmiiboAreaEntry>)
        ensures
            r == spec_find_area(self.areas.areas@, self.areas.current_area_access_id),
    {
        let target = self.areas.current_area_access_id;
        let mut i: usize = 0;
        proof {
            assert(self.areas.areas@.skip(0) =~= self.areas.areas@);
        }
        while i < self.areas.areas.len()
            invariant
                i <= self.areas.areas@.len(),
                target == self.areas.current_area_access_id,
                spec_find_area(self.areas.areas@, target) == spec_find_area(
                    self.areas.areas@.skip(i as int),
                    target,
                ),
            decreases self.areas.areas@.len() - i,
        {
            let entry = self.areas.areas[i];
            proof {
                assert(self.areas.areas@.skip(i as int)[0] == self.areas.areas@[i as int]);
                assert(self.areas.areas@.skip(i as int).drop_first() =~= self.areas.areas@.skip(
                    i + 1,
                ));
            }
            if entry.access_id == target {
                return Some(entry);
            }
            i = i + 1;
        }
        proof {
            assert(self.areas.areas@.skip(i as int) =~= Seq::<VirtualAmiiboAreaEntry>::empty());
        }
        None
    }

    /// Removes the selected entry, re-selects the first remaining entry
    /// or none, and counts the write.  Returns the data-id whose
    /// backing blob the caller must delete.
    pub fn delete_current_area(&mut self) -> (deleted: u32)
        ensures
            final(self).areas.model() == spec_delete_current_area(old(self).areas.model()),
            deleted == old(self).areas.current_area_access_id,
            spec_info_bumped(old(self).info, final(self).info),
            final(self).same_identity(old(self)),
            final(self).areas.wf(),
    {
        let target = self.areas.current_area_access_id;
        let ghost pred = |e: VirtualAmiiboAreaEntry| e.access_id != target;
        let mut remaining: Vec<VirtualAmiiboAreaEntry> = Vec::new();
        let mut i: usize = 0;
        while i < self.areas.areas.len()
            invariant
                i <= self.areas.areas@.len(),
                remaining@ == self.areas.areas@.take(i as int).filter(pred),
                pred == (|e: VirtualAmiiboAreaEntry| e.access_id != target),
            decreases self.areas.areas@.len() - i,
        {
            let entry = self.areas.areas[i];
            let ghost taken = self.areas.areas@.take(i as int);
            proof {
                reveal_with_fuel(Seq::filter, 2);
                assert(self.areas.areas@.take(i + 1).drop_last() =~= taken);
                assert(self.areas.areas@.take(i + 1).last() == self.areas.areas@[i as int]);
            }
            if entry.access_id != target {
                remaining.push(entry);
            }
            proof {
                assert(remaining@ == self.areas.areas@.take(i + 1).filter(pred));
            }
            i = i + 1;
        }
        proof {
            assert(self.areas.areas@.take(self.areas.areas@.len() as int) =~= self.areas.areas@);
        }
        let new_current = if remaining.len() == 0 {
            0
        } else {
            remaining[0].access_id
        };
        self.areas.areas = remaining;
        self.areas.current_area_access_id = new_current;
        self.notify_written();
        target
    }

    /// Clears the whole directory and counts the write.  The caller
    /// deletes every backing blob.
    pub fn delete_all_areas(&mut self)
        ensures
            final(self).areas.model() == spec_delete_all_areas(old(self).areas.model()),
            spec_info_bumped(old(self).info, final(self).info),
            final(self).same_identity(old(self)),
            final(self).areas.wf(),
    {
        self.areas.areas = Vec::new();
        self.areas.current_area_access_id = 0;
        self.notify_written();
        proof {
            assert(self.areas.model().entries =~= spec_delete_all_areas(
                old(self).areas.model(),
            ).entries);
        }
    }

    /// Records which game owns an area: auto-registers the data-id,
    /// then rewrites the first matching entry's owner.
    pub fn update_area_program_id(&mut self, access_id: u32, program_id: u64)
        ensures
            final(self).areas.model().entries == spec_set_area_pid(
                spec_register_area(
                    old(self).areas.model(),
                    access_id,
                    DEFAULY_EMPTY_AREA_PROGRAM_ID,
                ).entries,
                access_id,
                program_id,
            ),
            final(self).areas.model().current == old(self).areas.model().current,
            final(self).same_but_areas(old(self)),
    {
        self.ensure_area_registered(access_id, DEFAULY_EMPTY_AREA_PROGRAM_ID);
        let ghost registered = self.areas.areas@;
        let ghost current_after = self.areas.current_area_access_id;
        let mut i: usize = 0;
        while i < self.areas.areas.len()
            invariant
                i <= self.areas.areas@.len(),
                self.areas.areas@ == registered,
                registered == spec_register_area(
                    old(self).areas.model(),
                    access_id,
                    DEFAULY_EMPTY_AREA_PROGRAM_ID,
                ).entries,
                self.areas.current_area_access_id == current_after,
                current_after == old(self).areas.model().current,
                self.info == old(self).info,
                self.mii_charinfo@ == old(self).mii_charinfo@,
                self.path@ == old(self).path@,
                forall|j: int| 0 <= j < i ==> registered[j].access_id != access_id,
            decreases self.areas.areas@.len() - i,
        {
            if self.areas.areas[i].access_id == access_id {
                let entry = VirtualAmiiboAreaEntry { program_id, access_id };
                self.areas.areas[i] = entry;
                proof {
                    lemma_set_area_pid_at(registered, access_id, program_id, i as int);
                    assert(self.areas.areas@ =~= spec_set_area_pid(
                        registered,
                        access_id,
                        program_id,
                    ));
                }
                return ;
            }
            i = i + 1;
        }
        proof {
            lemma_set_area_pid_absent(registered, access_id, program_id);
        }
    }

    /// Overwrites the UUID fields from the control plane.
    pub fn set_uuid_info(&mut self, uuid_info: VirtualAmiiboUuidInfo)
        ensures
            final(self).info.uuid@ == uuid_info.uuid@,
            final(self).info.use_random_uuid == uuid_info.use_random_uuid,
            final(self).info.name == old(self).info.name,
            final(self).info.write_counter == old(self).info.write_counter,
            final(self).areas == old(self).areas,
            final(self).same_identity(old(self)),
    {
        self.info.uuid = uuid_info.uuid;
        self.info.use_random_uuid = uuid_info.use_random_uuid;
    }

    /// Counts one write: the counter saturates at 0xffff and never
    /// wraps.
    pub fn notify_written(&mut self)
        ensures
            spec_info_bumped(old(self).info, final(self).info),
            final(self).areas == old(self).areas,
            final(self).same_identity(old(self)),
    {
        if self.info.write_counter < 0xffff {
            self.info.write_counter = self.info.write_counter + 1;
        }
    }
}

/// The administrative view the record projects: the selected area's
/// owner and data-id, or the sentinel owner and no data-id when none is
/// selected, with the console family read from the owner's top 16 bits.
pub open spec fn spec_admin_info(a: &VirtualAmiibo) -> sf::AdminInfo {
    let cur = spec_find_area(a.areas.areas@, a.areas.current_area_access_id);
    let program_id = match cur {
        Option::Some(e) => e.program_id,
        Option::None => DEFAULY_EMPTY_AREA_PROGRAM_ID,
    };
    sf::AdminInfo {
        program_id,
        access_id: match cur {
            Option::Some(e) => e.access_id,
            Option::None => 0,
        },
        crc32_change_counter: 0,
        flags: match cur {
            Option::Some(e) => sf::ADMIN_FLAG_IS_INITIALIZED | sf::ADMIN_FLAG_HAS_APPLICATION_AREA,
            Option::None => sf::ADMIN_FLAG_IS_INITIALIZED,
        },
        tag_type: 2,
        console_family: if program_id >> 48 == 0x0100 {
            sf::ConsoleFamily::NintendoSwitch
        } else if program_id >> 48 == 0x0004 {
            sf::ConsoleFamily::Nintendo3DS
        } else if program_id >> 48 == 0x0005 {
            sf::ConsoleFamily::NintendoWiiU
        } else {
            sf::ConsoleFamily::Default
        },
    }
}

impl VirtualAmiibo {
    /// The control-plane summary of the record: UUID fields, name,
    /// dates and the avatar blob.
    pub fn produce_data(&self) -> (r: VirtualAmiiboData)
        requires
            self.info.uuid@.len() >= 10,
        ensures
            r.uuid_info.uuid@ == self.info.uuid@.take(10),
            r.uuid_info.use_random_uuid == self.info.use_random_uuid,
            r.name == self.info.name,
            r.first_write_date == (sf::Date {
                year: self.info.first_write_date.y,
                month: self.info.first_write_date.m,
                day: self.info.first_write_date.d,
            }),
            r.last_write_date == (sf::Date {
                year: self.info.last_write_date.y,
                month: self.info.last_write_date.m,
                day: self.info.last_write_date.d,
            }),
            r.mii_charinfo@ == self.mii_charinfo@,
    {
        let mut uuid: Vec<u8> = Vec::new();
        uuid.extend_from_slice(&self.info.uuid.as_slice()[0..10]);
        let mut mii_charinfo: Vec<u8> = Vec::new();
        mii_charinfo.extend_from_slice(self.mii_charinfo.as_slice());
        proof {
            assert(uuid@ =~= self.info.uuid@.take(10));
            assert(mii_charinfo@ =~= self.mii_charinfo@);
        }
        VirtualAmiiboData {
            uuid_info: VirtualAmiiboUuidInfo {
                use_random_uuid: self.info.use_random_uuid,
                uuid,
            },
            name: self.info.name.clone(),
            first_write_date: self.info.first_write_date.to_date(),
            last_write_date: self.info.last_write_date.to_date(),
            mii_charinfo,
        }
    }

    /// The tag identity a game reads: the stored UUID (zero-padded to
    /// ten bytes), or a fresh random UUID on every query when the
    /// use-random flag is set.
    pub fn produce_tag_info(&self) -> (r: sf::TagInfo)
        ensures
            r.uuid@.len() == 10,
            r.protocol == u32::MAX,
            r.tag_type == u32::MAX,
            !self.info.use_random_uuid ==> {
                let n = if self.info.uuid@.len() < 10 {
                    self.info.uuid@.len() as int
                } else {
                    10
                };
                &&& r.uuid@.take(n) == self.info.uuid@.take(n)
                &&& forall|j: int| n <= j < 10 ==> r.uuid@[j] == 0
                &&& r.uuid_length == n
            },
            self.info.use_random_uuid ==> r.uuid_length == 10 && r.uuid@[7] == 0 && r.uuid@[8] == 0
                && r.uuid@[9] == 0,
    {
        if self.info.use_random_uuid {
            let uuid = generate_random_uuid();
            sf::TagInfo { uuid, uuid_length: 10, protocol: u32::MAX, tag_type: u32::MAX }
        } else {
            let n = if self.info.uuid.len() < 10 {
                self.info.uuid.len()
            } else {
                10
            };
            let mut uuid: Vec<u8> = Vec::new();
            uuid.extend_from_slice(&self.info.uuid.as_slice()[0..n]);
            let mut j: usize = n;
            while j < 10
                invariant
                    n <= j <= 10,
                    uuid@.len() == j,
                    uuid@.take(n as int) == self.info.uuid@.take(n as int),
                    forall|k: int| n <= k < j ==> uuid@[k] == 0,
                decreases 10 - j,
            {
                uuid.push(0);
                proof {
                    assert(uuid@.take(n as int) =~= self.info.uuid@.take(n as int));
                }
                j = j + 1;
            }
            sf::TagInfo { uuid, uuid_length: n as u8, protocol: u32::MAX, tag_type: u32::MAX }
        }
    }

    /// Registration data: the avatar blob, the first-write date, and
    /// the display name clamped to ten characters.
    pub fn produce_register_info(&self) -> (r: sf::RegisterInfo)
        ensures
            r.mii_charinfo@ == self.mii_charinfo@,
            r.first_write_date == (sf::Date {
                year: self.info.first_write_date.y,
                month: self.info.first_write_date.m,
                day: self.info.first_write_date.d,
            }),
            r.name@ == if self.info.name@.len() <= 10 {
                self.info.name@
            } else {
                self.info.name@.subrange(0, 10)
            },
            r.font_region == 0,
    {
        let mut mii_charinfo: Vec<u8> = Vec::new();
        mii_charinfo.extend_from_slice(self.mii_charinfo.as_slice());
        proof {
            assert(mii_charinfo@ =~= self.mii_charinfo@);
        }
        let name_len = self.info.name.as_str().unicode_len();
        let name = if name_len <= 10 {
            self.info.name.clone()
        } else {
            self.info.name.as_str().substring_char(0, 10).to_owned()
        };
        sf::RegisterInfo {
            mii_charinfo,
            first_write_date: self.info.first_write_date.to_date(),
            name,
            font_region: 0,
        }
    }

    /// Usage counters: last-write date, write counter, version, and the
    /// fixed application-area size.
    pub fn produce_common_info(&self) -> (r: sf::CommonInfo)
        ensures
            r == (sf::CommonInfo {
                last_write_date: sf::Date {
                    year: self.info.last_write_date.y,
                    month: self.info.last_write_date.m,
                    day: self.info.last_write_date.d,
                },
                write_counter: self.info.write_counter,
                version: self.info.version,
                application_area_size: 0xd8,
            }),
    {
        sf::CommonInfo {
            last_write_date: self.info.last_write_date.to_date(),
            write_counter: self.info.write_counter,
            version: self.info.version,
            application_area_size: 0xd8,
        }
    }

    /// The figurine's model identity, field for field.
    pub fn produce_model_info(&self) -> (r: sf::ModelInfo)
        ensures
            r == (sf::ModelInfo {
                game_character_id: self.info.id.game_character_id,
                character_variant: self.info.id.character_variant,
                series: self.info.id.series,
                model_number: self.info.id.model_number,
                figure_type: self.info.id.figure_type,
            }),
    {
        sf::ModelInfo {
            game_character_id: self.info.id.game_character_id,
            character_variant: self.info.id.character_variant,
            series: self.info.id.series,
            model_number: self.info.id.model_number,
            figure_type: self.info.id.figure_type,
        }
    }

    /// The administrative view of the selected area.
    pub fn produce_admin_info(&self) -> (r: sf::AdminInfo)
        ensures
            r == spec_admin_info(self),
    {
        let cur = self.get_current_area();
        let program_id: u64 = match cur {
            Option::Some(entry) => entry.program_id,
            Option::None => DEFAULY_EMPTY_AREA_PROGRAM_ID,
        };
        let access_id: u32 = match cur {
            Option::Some(entry) => entry.access_id,
            Option::None => 0,
        };
        let flags: u8 = match cur {
            Option::Some(_) => sf::ADMIN_FLAG_IS_INITIALIZED | sf::ADMIN_FLAG_HAS_APPLICATION_AREA,
            Option::None => sf::ADMIN_FLAG_IS_INITIALIZED,
        };
        let family_word = program_id >> 48;
        let console_family = if family_word == 0x0100 {
            sf::ConsoleFamily::NintendoSwitch
        } else if family_word == 0x0004 {
            sf::ConsoleFamily::Nintendo3DS
        } else if family_word == 0x0005 {
            sf::ConsoleFamily::NintendoWiiU
        } else {
            sf::ConsoleFamily::Default
        };
        sf::AdminInfo {
            program_id,
            access_id,
            crc32_change_counter: 0,
            flags,
            tag_type: 2,
            console_family,
        }
    }

    /// Registration data in the driver's private shape; the avatar blob
    /// passes through opaquely.
    pub fn produce_register_info_private(&self) -> (r: sf::RegisterInfoPrivate)
        ensures
            r.mii_store_data@ == self.mii_charinfo@,
            r.first_write_date == (sf::Date {
                year: self.info.first_write_date.y,
                month: self.info.first_write_date.m,
                day: self.info.first_write_date.d,
            }),
            r.name@ == if self.info.name@.len() <= 10 {
                self.info.name@
            } else {
                self.info.name@.subrange(0, 10)
            },
    {
        let mut mii_store_data: Vec<u8> = Vec::new();
        mii_store_data.extend_from_slice(self.mii_charinfo.as_slice());
        proof {
            assert(mii_store_data@ =~= self.mii_charinfo@);
        }
        let name_len = self.info.name.as_str().unicode_len();
        let name = if name_len <= 10 {
            self.info.name.clone()
        } else {
            self.info.name.as_str().substring_char(0, 10).to_owned()
        };
        sf::RegisterInfoPrivate {
            mii_store_data,
            first_write_date: self.info.first_write_date.to_date(),
            name,
        }
    }

    /// Writes registration data back: avatar blob, first-write date and
    /// name, and counts the write.
    pub fn update_from_register_info_private(&mut self, register_info: &sf::RegisterInfoPrivate)
        ensures
            final(self).mii_charinfo@ == register_info.mii_store_data@,
            final(self).info.first_write_date == (VirtualAmiiboDate {
                y: register_info.first_write_date.year,
                m: register_info.first_write_date.month,
                d: register_info.first_write_date.day,
            }),
            final(self).info.name == register_info.name,
            final(self).info.write_counter == spec_bump_counter(old(self).info.write_counter),
            final(self).info.uuid == old(self).info.uuid,
            final(self).info.use_random_uuid == old(self).info.use_random_uuid,
            final(self).info.last_write_date == old(self).info.last_write_date,
            final(self).info.id == old(self).info.id,
            final(self).info.version == old(self).info.version,
            final(self).areas == old(self).areas,
            final(self).path@ == old(self).path@,
    {
        let mut mii_charinfo: Vec<u8> = Vec::new();
        mii_charinfo.extend_from_slice(register_info.mii_store_data.as_slice());
        proof {
            assert(mii_charinfo@ =~= register_info.mii_store_data@);
        }
        self.mii_charinfo = mii_charinfo;
        self.info.first_write_date = VirtualAmiiboDate::from_date(register_info.first_write_date);
        self.info.name = register_info.name.clone();
        self.notify_written();
    }
}

/// Rewriting the owner of the first match equals the recursive
/// description when the match sits at index `i` and nothing before
/// matches.
proof fn lemma_set_area_pid_at(
    entries: Seq<VirtualAmiiboAreaEntry>,
    access_id: u32,
    program_id: u64,
    i: int,
)
    requires
        0 <= i < entries.len(),
        entries[i].access_id == access_id,
        forall|j: int| 0 <= j < i ==> entries[j].access_id != access_id,
    ensures
        spec_set_area_pid(entries, access_id, program_id) =~= entries.update(
            i,
            VirtualAmiiboAreaEntry { program_id, access_id },
        ),
    decreases i,
{
    if i == 0 {
        assert(spec_set_area_pid(entries, access_id, program_id) =~= entries.update(
            0,
            VirtualAmiiboAreaEntry { program_id, access_id },
        ));
    } else {
        lemma_set_area_pid_at(entries.drop_first(), access_id, program_id, i - 1);
        assert(spec_set_area_pid(entries, access_id, program_id) =~= entries.update(
            i,
            VirtualAmiiboAreaEntry { program_id, access_id },
        ));
    }
}

/// When no entry matches, rewriting the owner changes nothing.
proof fn lemma_set_area_pid_absent(
    entries: Seq<VirtualAmiiboAreaEntry>,
    access_id: u32,
    program_id: u64,
)
    requires
        forall|j: int| 0 <= j < entries.len() ==> entries[j].access_id != access_id,
    ensures
        spec_set_area_pid(entries, access_id, program_id) =~= entries,
    decreases entries.len(),
{
    if entries.len() > 0 {
        lemma_set_area_pid_absent(entries.drop_first(), access_id, program_id);
        assert(spec_set_area_pid(entries, access_id, program_id) =~= entries);
    }
}

/// The record after one counted write: the counter bumped, everything
/// else untouched.
pub open spec fn spec_info_bumped(a: VirtualAmiiboInfo, b: VirtualAmiiboInfo) -> bool {
    &&& b.write_counter == spec_bump_counter(a.write_counter)
    &&& b.first_write_date == a.first_write_date
    &&& b.id == a.id
    &&& b.last_write_date == a.last_write_date
    &&& b.mii_charinfo_file == a.mii_charinfo_file
    &&& b.name == a.name
    &&& b.uuid == a.uuid
    &&& b.use_random_uuid == a.use_random_uuid
    &&& b.version == a.version
}

/// How one saturating write bumps the counter: it gains one until it
/// pins at the maximum, and never wraps.
pub open spec fn spec_bump_counter(c: u16) -> u16 {
    if c < 0xffff {
        (c + 1) as u16
    } else {
        c
    }
}

/// The counter after `n` bumps.
pub open spec fn spec_counter_after(c: u16, n: nat) -> u16
    decreases n,
{
    if n == 0 {
        c
    } else {
        spec_bump_counter(spec_counter_after(c, (n - 1) as nat))
    }
}

/// Write-counter monotonicity: starting from `c`, any `n` writes leave
/// the counter at the smaller of `c + n` and the 0xffff cap, so it
/// never decreases and never wraps.
pub proof fn lemma_write_counter_monotonic(c: u16, n: nat)
    ensures
        spec_counter_after(c, n) == if c + n < 0xffff {
            (c + n) as u16
        } else {
            0xffffu16
        },
        spec_counter_after(c, n) >= c,
    decreases n,
{
    if n > 0 {
        lemma_write_counter_monotonic(c, (n - 1) as nat);
    }
}

} // verus!
