//! Application-area blobs and their directory bookkeeping.
//!
//! Each registered data-id owns one small byte blob, stored by the
//! host as a file named from the data-id's hex value.  The store here
//! is the in-memory image of those blobs; the host mirrors it to disk.
//! A cross-session cache maps a game's identity to the data-id it
//! uses.

use vstd::prelude::*;
use crate::fmt::{VirtualAmiiboAreaEntry, VirtualAmiiboAreaInfo, DEFAULY_EMPTY_AREA_PROGRAM_ID};
use crate::strutil::push_char;

verus! {

/// One stored application-area blob.
pub struct AreaContent {
    pub access_id: u32,
    pub data: Vec<u8>,
}

/// The abstract image of the store: data-id and blob bytes per entry.
pub open spec fn spec_store_view(entries: Seq<AreaContent>) -> Seq<(u32, Seq<u8>)> {
    Seq::new(entries.len(), |i: int| (entries[i].access_id, entries[i].data@))
}

/// The blob stored under a data-id, scanning entries from the back so
/// that later writes win.
pub open spec fn spec_store_find(entries: Seq<(u32, Seq<u8>)>, access_id: u32) -> Option<Seq<u8>>
    decreases entries.len(),
{
    if entries.len() == 0 {
        Option::None
    } else if entries.last().0 == access_id {
        Option::Some(entries.last().1)
    } else {
        spec_store_find(entries.drop_last(), access_id)
    }
}

/// Removing one data-id leaves every other blob where it was.
proof fn lemma_store_find_after_remove(entries: Seq<(u32, Seq<u8>)>, access_id: u32, other: u32)
    ensures
        spec_store_find(
            entries.filter(|e: (u32, Seq<u8>)| e.0 != access_id),
            other,
        ) == if other == access_id {
            Option::<Seq<u8>>::None
        } else {
            spec_store_find(entries, other)
        },
    decreases entries.len(),
{
    reveal_with_fuel(Seq::filter, 1);
    let pred = |e: (u32, Seq<u8>)| e.0 != access_id;
    if entries.len() == 0 {
        assert(entries.filter(pred) =~= Seq::<(u32, Seq<u8>)>::empty());
    } else {
        lemma_store_find_after_remove(entries.drop_last(), access_id, other);
        if pred(entries.last()) {
            assert(entries.filter(pred) == entries.drop_last().filter(pred).push(entries.last()));
            assert(entries.filter(pred).drop_last() =~= entries.drop_last().filter(pred));
            assert(entries.filter(pred).last() == entries.last());
        } else {
            assert(entries.filter(pred) == entries.drop_last().filter(pred));
        }
    }
}

/// The in-memory store of every application-area blob of one figurine.
pub struct AreaStore {
    pub entries: Vec<AreaContent>,
}

impl AreaStore {
    /// The store's abstract image.
    pub open spec fn view_of(&self) -> Seq<(u32, Seq<u8>)> {
        spec_store_view(self.entries@)
    }

    pub fn new() -> (r: Self)
        ensures
            r.view_of() =~= Seq::<(u32, Seq<u8>)>::empty(),
    {
        AreaStore { entries: Vec::new() }
    }

    /// Whether a blob is stored under the data-id.
    pub fn contains(&self, access_id: u32) -> (r: bool)
        ensures
            r == (spec_store_find(self.view_of(), access_id) is Some),
    {
        let mut i: usize = self.entries.len();
        proof {
            assert(self.view_of().take(i as int) =~= self.view_of());
        }
        while i > 0
            invariant
                i <= self.entries@.len(),
                spec_store_find(self.view_of(), access_id) == spec_store_find(
                    self.view_of().take(i as int),
                    access_id,
                ),
            decreases i,
        {
            proof {
                assert(self.view_of().take(i as int).drop_last() =~= self.view_of().take(i - 1));
                assert(self.view_of().take(i as int).last() == self.view_of()[i - 1]);
            }
            if self.entries[i - 1].access_id == access_id {
                return true;
            }
            i = i - 1;
        }
        false
    }

    /// The stored blob's size, when one exists.
    pub fn get_size(&self, access_id: u32) -> (r: Option<usize>)
        ensures
            r is Some <==> spec_store_find(self.view_of(), access_id) is Some,
            r is Some ==> r.unwrap() == spec_store_find(self.view_of(), access_id).unwrap().len(),
    {
        let mut i: usize = self.entries.len();
        proof {
            assert(self.view_of().take(i as int) =~= self.view_of());
        }
        while i > 0
            invariant
                i <= self.entries@.len(),
                spec_store_find(self.view_of(), access_id) == spec_store_find(
                    self.view_of().take(i as int),
                    access_id,
                ),
            decreases i,
        {
            proof {
                assert(self.view_of().take(i as int).drop_last() =~= self.view_of().take(i - 1));
                assert(self.view_of().take(i as int).last() == self.view_of()[i - 1]);
            }
            if self.entries[i - 1].access_id == access_id {
                return Some(self.entries[i - 1].data.len());
            }
            i = i - 1;
        }
        None
    }

    /// Reads at most `max` bytes of the blob: the smaller of the
    /// request and the stored size wins.
    pub fn read_clamped(&self, access_id: u32, max: usize) -> (r: Option<Vec<u8>>)
        ensures
            r is Some <==> spec_store_find(self.view_of(), access_id) is Some,
            r is Some ==> {
                let stored = spec_store_find(self.view_of(), access_id).unwrap();
                let n = if stored.len() < max {
                    stored.len() as int
                } else {
                    max as int
                };
                r.unwrap()@ == stored.take(n)
            },
    {
        let mut i: usize = self.entries.len();
        proof {
            assert(self.view_of().take(i as int) =~= self.view_of());
        }
        while i > 0
            invariant
                i <= self.entries@.len(),
                spec_store_find(self.view_of(), access_id) == spec_store_find(
                    self.view_of().take(i as int),
                    access_id,
                ),
            decreases i,
        {
            proof {
                assert(self.view_of().take(i as int).drop_last() =~= self.view_of().take(i - 1));
                assert(self.view_of().take(i as int).last() == self.view_of()[i - 1]);
            }
            if self.entries[i - 1].access_id == access_id {
                let stored = &self.entries[i - 1].data;
                let n = if stored.len() < max {
                    stored.len()
                } else {
                    max
                };
                let mut out: Vec<u8> = Vec::new();
                out.extend_from_slice(&stored.as_slice()[0..n]);
                proof {
                    assert(out@ =~= stored@.take(n as int));
                }
                return Some(out);
            }
            i = i - 1;
        }
        None
    }

    /// Removes the blob stored under the data-id, if any.
    pub fn delete(&mut self, access_id: u32)
        ensures
            spec_store_find(final(self).view_of(), access_id) is None,
            forall|other: u32|
                other != access_id ==> spec_store_find(final(self).view_of(), other)
                    == spec_store_find(old(self).view_of(), other),
    {
        let ghost pred = |e: (u32, Seq<u8>)| e.0 != access_id;
        let mut kept: Vec<AreaContent> = Vec::new();
        let mut i: usize = 0;
        while i < self.entries.len()
            invariant
                i <= self.entries@.len(),
                self.entries@ == old(self).entries@,
                spec_store_view(kept@) == self.view_of().take(i as int).filter(pred),
                pred == (|e: (u32, Seq<u8>)| e.0 != access_id),
            decreases self.entries@.len() - i,
        {
            let ghost taken = self.view_of().take(i as int);
            proof {
                reveal_with_fuel(Seq::filter, 2);
                assert(self.view_of().take(i + 1).drop_last() =~= taken);
                assert(self.view_of().take(i + 1).last() == self.view_of()[i as int]);
            }
            if self.entries[i].access_id != access_id {
                let mut data: Vec<u8> = Vec::new();
                data.extend_from_slice(self.entries[i].data.as_slice());
                proof {
                    assert(data@ =~= self.entries@[i as int].data@);
                }
                let entry = AreaContent { access_id: self.entries[i].access_id, data };
                kept.push(entry);
                proof {
                    assert(spec_store_view(kept@) =~= self.view_of().take(i + 1).filter(pred));
                }
            } else {
                proof {
                    assert(spec_store_view(kept@) =~= self.view_of().take(i + 1).filter(pred));
                }
            }
            i = i + 1;
        }
        proof {
            assert(self.view_of().take(self.entries@.len() as int) =~= self.view_of());
            lemma_store_find_after_remove(self.view_of(), access_id, access_id);
            assert forall|other: u32| other != access_id implies spec_store_find(
                self.view_of().filter(pred),
                other,
            ) == spec_store_find(self.view_of(), other) by {
                lemma_store_find_after_remove(self.view_of(), access_id, other);
            }
        }
        self.entries = kept;
    }

    /// Stores a blob under the data-id, replacing any previous one.
    pub fn create(&mut self, access_id: u32, data: Vec<u8>)
        ensures
            spec_store_find(final(self).view_of(), access_id) == Option::Some(data@),
            forall|other: u32|
                other != access_id ==> spec_store_find(final(self).view_of(), other)
                    == spec_store_find(old(self).view_of(), other),
    {
        self.delete(access_id);
        let ghost after_delete = self.view_of();
        let ghost data_view = data@;
        self.entries.push(AreaContent { access_id, data });
        proof {
            assert(self.view_of().drop_last() =~= after_delete);
            assert(self.view_of().last() == (access_id, data_view));
        }
    }

    /// Removes every stored blob.
    pub fn clear(&mut self)
        ensures
            final(self).view_of() =~= Seq::<(u32, Seq<u8>)>::empty(),
    {
        self.entries = Vec::new();
    }

    /// Overwrites the blob with the request, clamped to the smaller of
    /// the request and the stored size; reports how many bytes stuck,
    /// or nothing when no blob exists.
    pub fn write_clamped(&mut self, access_id: u32, data: &[u8]) -> (r: Option<usize>)
        ensures
            r is Some <==> spec_store_find(old(self).view_of(), access_id) is Some,
            r is None ==> final(self).entries@ == old(self).entries@,
            r is Some ==> {
                let stored = spec_store_find(old(self).view_of(), access_id).unwrap();
                let n = if stored.len() < data@.len() {
                    stored.len() as int
                } else {
                    data@.len() as int
                };
                &&& r.unwrap() == n
                &&& spec_store_find(final(self).view_of(), access_id) == Option::Some(
                    data@.take(n),
                )
                &&& forall|other: u32|
                    other != access_id ==> spec_store_find(final(self).view_of(), other)
                        == spec_store_find(old(self).view_of(), other)
            },
    {
        let size = self.get_size(access_id);
        match size {
            Option::Some(stored_len) => {
                let n = if stored_len < data.len() {
                    stored_len
                } else {
                    data.len()
                };
                let mut clamped: Vec<u8> = Vec::new();
                clamped.extend_from_slice(&data[0..n]);
                proof {
                    assert(clamped@ =~= data@.take(n as int));
                }
                self.create(access_id, clamped);
                Some(n)
            },
            Option::None => None,
        }
    }
}

/// The hex digit characters, upper case.
pub open spec fn spec_hex_char_upper(n: u8) -> char {
    if n == 0 {
        '0'
    } else if n == 1 {
        '1'
    } else if n == 2 {
        '2'
    } else if n == 3 {
        '3'
    } else if n == 4 {
        '4'
    } else if n == 5 {
        '5'
    } else if n == 6 {
        '6'
    } else if n == 7 {
        '7'
    } else if n == 8 {
        '8'
    } else if n == 9 {
        '9'
    } else if n == 10 {
        'A'
    } else if n == 11 {
        'B'
    } else if n == 12 {
        'C'
    } else if n == 13 {
        'D'
    } else if n == 14 {
        'E'
    } else {
        'F'
    }
}

/// The value of a hex digit character, upper or lower case.
pub open spec fn spec_hex_digit_val(c: char) -> Option<u32> {
    if c == '0' {
        Option::Some(0)
    } else if c == '1' {
        Option::Some(1)
    } else if c == '2' {
        Option::Some(2)
    } else if c == '3' {
        Option::Some(3)
    } else if c == '4' {
        Option::Some(4)
    } else if c == '5' {
        Option::Some(5)
    } else if c == '6' {
        Option::Some(6)
    } else if c == '7' {
        Option::Some(7)
    } else if c == '8' {
        Option::Some(8)
    } else if c == '9' {
        Option::Some(9)
    } else if c == 'A' || c == 'a' {
        Option::Some(10)
    } else if c == 'B' || c == 'b' {
        Option::Some(11)
    } else if c == 'C' || c == 'c' {
        Option::Some(12)
    } else if c == 'D' || c == 'd' {
        Option::Some(13)
    } else if c == 'E' || c == 'e' {
        Option::Some(14)
    } else if c == 'F' || c == 'f' {
        Option::Some(15)
    } else {
        Option::None
    }
}

/// Reads one hex digit character.
pub fn hex_digit_val(c: char) -> (r: Option<u32>)
    ensures
        r == spec_hex_digit_val(c),
{
    if c >= '0' && c <= '9' {
        Some(c as u32 - '0' as u32)
    } else if c >= 'A' && c <= 'F' {
        Some(c as u32 - 'A' as u32 + 10)
    } else if c >= 'a' && c <= 'f' {
        Some(c as u32 - 'a' as u32 + 10)
    } else {
        None
    }
}

/// One nibble of a data-id.
pub open spec fn spec_nibble(access_id: u32, shift: u32) -> u8 {
    ((access_id >> shift) & 0xf) as u8
}

/// The file name an area blob is stored under: the data-id as eight
/// upper-case hex digits between a `0x` prefix and a `.bin` suffix.
pub open spec fn spec_area_file_name(access_id: u32) -> Seq<char> {
    seq![
        '0',
        'x',
        spec_hex_char_upper(spec_nibble(access_id, 28)),
        spec_hex_char_upper(spec_nibble(access_id, 24)),
        spec_hex_char_upper(spec_nibble(access_id, 20)),
        spec_hex_char_upper(spec_nibble(access_id, 16)),
        spec_hex_char_upper(spec_nibble(access_id, 12)),
        spec_hex_char_upper(spec_nibble(access_id, 8)),
        spec_hex_char_upper(spec_nibble(access_id, 4)),
        spec_hex_char_upper(spec_nibble(access_id, 0)),
        '.',
        'b',
        'i',
        'n',
    ]
}

/// One upper-case hex digit character of a nibble.
fn hex_char_upper(n: u8) -> (r: char)
    requires
        n < 16,
    ensures
        r == spec_hex_char_upper(n),
{
    if n == 0 {
        '0'
    } else if n == 1 {
        '1'
    } else if n == 2 {
        '2'
    } else if n == 3 {
        '3'
    } else if n == 4 {
        '4'
    } else if n == 5 {
        '5'
    } else if n == 6 {
        '6'
    } else if n == 7 {
        '7'
    } else if n == 8 {
        '8'
    } else if n == 9 {
        '9'
    } else if n == 10 {
        'A'
    } else if n == 11 {
        'B'
    } else if n == 12 {
        'C'
    } else if n == 13 {
        'D'
    } else if n == 14 {
        'E'
    } else {
        'F'
    }
}

/// Renders the file name of an area blob.
pub fn format_area_file_name(access_id: u32) -> (r: String)
    ensures
        r@ == spec_area_file_name(access_id),
{
    let mut s = String::new();
    push_char(&mut s, '0');
    push_char(&mut s, 'x');
    proof {
        assert((access_id >> 28u32) & 0xf < 16 && (access_id >> 24u32) & 0xf < 16 && (access_id
            >> 20u32) & 0xf < 16 && (access_id >> 16u32) & 0xf < 16 && (access_id >> 12u32) & 0xf
            < 16 && (access_id >> 8u32) & 0xf < 16 && (access_id >> 4u32) & 0xf < 16 && (access_id
            >> 0u32) & 0xf < 16) by (bit_vector);
    }
    push_char(&mut s, hex_char_upper(((access_id >> 28u32) & 0xf) as u8));
    push_char(&mut s, hex_char_upper(((access_id >> 24u32) & 0xf) as u8));
    push_char(&mut s, hex_char_upper(((access_id >> 20u32) & 0xf) as u8));
    push_char(&mut s, hex_char_upper(((access_id >> 16u32) & 0xf) as u8));
    push_char(&mut s, hex_char_upper(((access_id >> 12u32) & 0xf) as u8));
    push_char(&mut s, hex_char_upper(((access_id >> 8u32) & 0xf) as u8));
    push_char(&mut s, hex_char_upper(((access_id >> 4u32) & 0xf) as u8));
    push_char(&mut s, hex_char_upper(((access_id >> 0u32) & 0xf) as u8));
    push_char(&mut s, '.');
    push_char(&mut s, 'b');
    push_char(&mut s, 'i');
    push_char(&mut s, 'n');
    proof {
        assert(s@ =~= spec_area_file_name(access_id));
    }
    s
}

/// Whether a file name has the shape of an area blob name.
pub open spec fn spec_area_name_wf(s: Seq<char>) -> bool {
    &&& s.len() == 14
    &&& s[0] == '0'
    &&& s[1] == 'x'
    &&& (forall|j: int| 2 <= j < 10 ==> spec_hex_digit_val(#[trigger] s[j]) is Some)
    &&& s[10] == '.'
    &&& s[11] == 'b'
    &&& s[12] == 'i'
    &&& s[13] == 'n'
}

/// Spec helper: a fold step stays inside `u32` because only eight
/// digits are ever folded.
pub open spec fn mul_u32_16(v: u32) -> u32 {
    (16 * (v & 0x0fffffff)) as u32
}

/// Spec helper: the digit's value, or zero off the hex range.
pub open spec fn val_or_zero(c: char) -> u32 {
    match spec_hex_digit_val(c) {
        Option::Some(v) => v,
        Option::None => 0,
    }
}

/// The value of the hex digits at positions 2 up to `upto`, folded
/// left to right.
pub open spec fn spec_area_name_val(s: Seq<char>, upto: int) -> u32
    decreases upto,
{
    if upto <= 2 {
        0
    } else {
        (mul_u32_16(spec_area_name_val(s, upto - 1)) + val_or_zero(s[upto - 1])) as u32
    }
}

/// An upper bound of the fold after each digit.
pub open spec fn spec_val_bound(upto: int) -> int {
    if upto <= 2 {
        1
    } else if upto == 3 {
        0x10
    } else if upto == 4 {
        0x100
    } else if upto == 5 {
        0x1000
    } else if upto == 6 {
        0x10000
    } else if upto == 7 {
        0x100000
    } else if upto == 8 {
        0x1000000
    } else if upto == 9 {
        0x10000000
    } else {
        0x100000000
    }
}

/// The fold of the first digits stays under its bound.
proof fn lemma_area_name_val_bound(s: Seq<char>, upto: int)
    requires
        2 <= upto <= 10,
    ensures
        spec_area_name_val(s, upto) < spec_val_bound(upto),
    decreases upto,
{
    if upto > 2 {
        lemma_area_name_val_bound(s, upto - 1);
        let prev = spec_area_name_val(s, upto - 1);
        assert(prev <= 0x0fffffff);
        assert(prev & 0x0fffffff == prev) by (bit_vector)
            requires
                prev <= 0x0fffffff,
        ;
        assert(val_or_zero(s[upto - 1]) < 16);
    }
}

/// Reads a data-id back from an area blob file name.  Succeeds exactly
/// on well-formed names.
pub fn parse_area_file_name(name: &str) -> (r: Option<u32>)
    ensures
        r is Some <==> spec_area_name_wf(name@),
        r is Some ==> r.unwrap() == spec_area_name_val(name@, 10),
{
    let n = name.unicode_len();
    if n != 14 {
        return None;
    }
    if name.get_char(0) != '0' || name.get_char(1) != 'x' {
        return None;
    }
    if name.get_char(10) != '.' || name.get_char(11) != 'b' || name.get_char(12) != 'i'
        || name.get_char(13) != 'n' {
        return None;
    }
    let mut acc: u32 = 0;
    let mut i: usize = 2;
    while i < 10
        invariant
            2 <= i <= 10,
            name@.len() == 14,
            acc == spec_area_name_val(name@, i as int),
            acc < spec_val_bound(i as int),
            forall|j: int| 2 <= j < i ==> spec_hex_digit_val(#[trigger] name@[j]) is Some,
        decreases 10 - i,
    {
        let c = name.get_char(i);
        let d = hex_digit_val(c);
        match d {
            Option::Some(v) => {
                proof {
                    assert(acc & 0x0fffffff == acc) by (bit_vector)
                        requires
                            acc <= 0x0fffffff,
                    ;
                }
                acc = 16 * acc + v;
                proof {
                    lemma_area_name_val_bound(name@, (i + 1) as int);
                }
            },
            Option::None => {
                return None;
            },
        }
        i = i + 1;
    }
    Some(acc)
}

/// The area directory synthesized from the blob files found on disk:
/// one entry per data-id under the sentinel owner, the first data-id
/// selected.
pub fn build_areas_from_ids(access_ids: &Vec<u32>) -> (r: VirtualAmiiboAreaInfo)
    ensures
        r.areas@.len() == access_ids@.len(),
        forall|j: int|
            0 <= j < access_ids@.len() ==> r.areas@[j] == (VirtualAmiiboAreaEntry {
                program_id: DEFAULY_EMPTY_AREA_PROGRAM_ID,
                access_id: access_ids@[j],
            }),
        r.current_area_access_id == if access_ids@.len() > 0 {
            access_ids@[0]
        } else {
            0u32
        },
        r.wf(),
{
    let mut areas: Vec<VirtualAmiiboAreaEntry> = Vec::new();
    let mut i: usize = 0;
    while i < access_ids.len()
        invariant
            i <= access_ids@.len(),
            areas@.len() == i,
            forall|j: int|
                0 <= j < i ==> areas@[j] == (VirtualAmiiboAreaEntry {
                    program_id: DEFAULY_EMPTY_AREA_PROGRAM_ID,
                    access_id: access_ids@[j],
                }),
        decreases access_ids@.len() - i,
    {
        areas.push(
            VirtualAmiiboAreaEntry {
                program_id: DEFAULY_EMPTY_AREA_PROGRAM_ID,
                access_id: access_ids[i],
            },
        );
        i = i + 1;
    }
    let current_area_access_id = if access_ids.len() > 0 {
        access_ids[0]
    } else {
        0
    };
    let r = VirtualAmiiboAreaInfo { areas, current_area_access_id };
    proof {
        if access_ids@.len() > 0 {
            assert(r.areas@[0].access_id == r.current_area_access_id);
        }
    }
    r
}

/// The access-id cache after noting that a game uses a data-id: the
/// first entry of the game is rewritten, or a new entry appended.
pub open spec fn spec_cache_update(
    cache: Seq<VirtualAmiiboAreaEntry>,
    program_id: u64,
    access_id: u32,
) -> Seq<VirtualAmiiboAreaEntry>
    decreases cache.len(),
{
    if cache.len() == 0 {
        seq![VirtualAmiiboAreaEntry { program_id, access_id }]
    } else if cache[0].program_id == program_id {
        seq![VirtualAmiiboAreaEntry { program_id, access_id }] + cache.drop_first()
    } else {
        seq![cache[0]] + spec_cache_update(cache.drop_first(), program_id, access_id)
    }
}

/// Notes which data-id a game uses, rewriting the game's entry or
/// appending one.
pub fn push_access_id_cache(
    cache: &mut Vec<VirtualAmiiboAreaEntry>,
    program_id: u64,
    access_id: u32,
)
    ensures
        final(cache)@ == spec_cache_update(old(cache)@, program_id, access_id),
{
    let mut i: usize = 0;
    while i < cache.len()
        invariant
            i <= cache@.len(),
            cache@ == old(cache)@,
            forall|j: int| 0 <= j < i ==> old(cache)@[j].program_id != program_id,
        decreases cache@.len() - i,
    {
        if cache[i].program_id == program_id {
            let entry = VirtualAmiiboAreaEntry { program_id, access_id };
            cache[i] = entry;
            proof {
                lemma_cache_update_at(old(cache)@, program_id, access_id, i as int);
            }
            return ;
        }
        i = i + 1;
    }
    cache.push(VirtualAmiiboAreaEntry { program_id, access_id });
    proof {
        lemma_cache_update_absent(old(cache)@, program_id, access_id);
        assert(cache@ =~= spec_cache_update(old(cache)@, program_id, access_id));
    }
}

/// Rewriting the first match equals the recursive description when the
/// match sits at `i` and nothing before matches.
proof fn lemma_cache_update_at(
    cache: Seq<VirtualAmiiboAreaEntry>,
    program_id: u64,
    access_id: u32,
    i: int,
)
    requires
        0 <= i < cache.len(),
        cache[i].program_id == program_id,
        forall|j: int| 0 <= j < i ==> cache[j].program_id != program_id,
    ensures
        spec_cache_update(cache, program_id, access_id) =~= cache.update(
            i,
            VirtualAmiiboAreaEntry { program_id, access_id },
        ),
    decreases i,
{
    if i == 0 {
        assert(spec_cache_update(cache, program_id, access_id) =~= cache.update(
            0,
            VirtualAmiiboAreaEntry { program_id, access_id },
        ));
    } else {
        lemma_cache_update_at(cache.drop_first(), program_id, access_id, i - 1);
        assert(spec_cache_update(cache, program_id, access_id) =~= cache.update(
            i,
            VirtualAmiiboAreaEntry { program_id, access_id },
        ));
    }
}

/// With no match, the update is an append.
proof fn lemma_cache_update_absent(
    cache: Seq<VirtualAmiiboAreaEntry>,
    program_id: u64,
    access_id: u32,
)
    requires
        forall|j: int| 0 <= j < cache.len() ==> cache[j].program_id != program_id,
    ensures
        spec_cache_update(cache, program_id, access_id) =~= cache.push(
            VirtualAmiiboAreaEntry { program_id, access_id },
        ),
    decreases cache.len(),
{
    if cache.len() > 0 {
        lemma_cache_update_absent(cache.drop_first(), program_id, access_id);
        assert(spec_cache_update(cache, program_id, access_id) =~= cache.push(
            VirtualAmiiboAreaEntry { program_id, access_id },
        ));
    }
}

} // verus!
