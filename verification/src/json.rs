//! The on-disk records at the JSON value level.
//!
//! Generic JSON text handling belongs to the host and its trusted
//! library; what the library itself fixes is the shape of the two
//! record documents.  Both are flat: an object whose fields are
//! scalars, small objects of scalars, an array of scalars, or an array
//! of such objects.  Rendering a record and reading one back are exact
//! inverses, stated by `spec_info_from_doc` and `spec_areas_from_doc`.

use vstd::prelude::*;
use crate::fmt::{
    VirtualAmiiboInfo,
    VirtualAmiiboInfoOptional,
    VirtualAmiiboAreaEntry,
    VirtualAmiiboAreaInfo,
    VirtualAmiiboId,
    VirtualAmiiboDate,
};
use crate::rc::EmuError;
use vstd::string::StringExecFns;

verus! {

/// A JSON scalar.
pub enum JsonScalar {
    Null,
    Bool(bool),
    UInt(u64),
    Str(String),
}

/// One field value of a record document.
pub enum JsonItem {
    Scalar(JsonScalar),
    Array(Vec<JsonScalar>),
    Object(Vec<(String, JsonScalar)>),
    ObjectArray(Vec<Vec<(String, JsonScalar)>>),
}

/// A whole record document.
pub struct JsonDoc {
    pub fields: Vec<(String, JsonItem)>,
}

/// The first value stored under a key.
pub open spec fn spec_assoc<T>(pairs: Seq<(String, T)>, key: Seq<char>) -> Option<T>
    decreases pairs.len(),
{
    if pairs.len() == 0 {
        Option::None
    } else if pairs[0].0@ == key {
        Option::Some(pairs[0].1)
    } else {
        spec_assoc(pairs.drop_first(), key)
    }
}

/// The lookup lands on position `i` when its key sits there and no
/// earlier pair carries it.
pub proof fn lemma_assoc_at<T>(pairs: Seq<(String, T)>, key: Seq<char>, i: int)
    requires
        0 <= i < pairs.len(),
        pairs[i].0@ == key,
        forall|j: int| 0 <= j < i ==> (#[trigger] pairs[j]).0@ != key,
    ensures
        spec_assoc(pairs, key) == Option::Some(pairs[i].1),
    decreases i,
{
    if i > 0 {
        lemma_assoc_at(pairs.drop_first(), key, i - 1);
    }
}

/// Two character sequences differing at one position differ.
pub proof fn lemma_strlit_ne(a: Seq<char>, b: Seq<char>, i: int)
    requires
        0 <= i < a.len(),
        i < b.len(),
        a[i] != b[i],
    ensures
        a != b,
{
}

/// A scalar as an unsigned value within a bound.
pub open spec fn spec_scalar_uint(s: JsonScalar, max: u64) -> Option<u64> {
    match s {
        JsonScalar::UInt(v) => if v <= max {
            Option::Some(v)
        } else {
            Option::None
        },
        _ => Option::None,
    }
}

/// A scalar as a string.
pub open spec fn spec_scalar_str(s: JsonScalar) -> Option<Seq<char>> {
    match s {
        JsonScalar::Str(v) => Option::Some(v@),
        _ => Option::None,
    }
}

/// A scalar as a boolean.
pub open spec fn spec_scalar_bool(s: JsonScalar) -> Option<bool> {
    match s {
        JsonScalar::Bool(v) => Option::Some(v),
        _ => Option::None,
    }
}

/// An unsigned field of a scalar object.
pub open spec fn spec_obj_uint(
    pairs: Seq<(String, JsonScalar)>,
    key: Seq<char>,
    max: u64,
) -> Option<u64> {
    match spec_assoc(pairs, key) {
        Option::Some(s) => spec_scalar_uint(s, max),
        Option::None => Option::None,
    }
}

/// A date object: `y`, `m`, `d`.
pub open spec fn spec_date_from_obj(pairs: Seq<(String, JsonScalar)>) -> Option<VirtualAmiiboDate> {
    let y = spec_obj_uint(pairs, "y"@, 0xffff);
    let m = spec_obj_uint(pairs, "m"@, 0xff);
    let d = spec_obj_uint(pairs, "d"@, 0xff);
    if y is Some && m is Some && d is Some {
        Option::Some(
            VirtualAmiiboDate {
                y: y.unwrap() as u16,
                m: m.unwrap() as u8,
                d: d.unwrap() as u8,
            },
        )
    } else {
        Option::None
    }
}

/// An identity object: the five figurine id fields.
pub open spec fn spec_id_from_obj(pairs: Seq<(String, JsonScalar)>) -> Option<VirtualAmiiboId> {
    let gcid = spec_obj_uint(pairs, "game_character_id"@, 0xffff);
    let cv = spec_obj_uint(pairs, "character_variant"@, 0xff);
    let ft = spec_obj_uint(pairs, "figure_type"@, 0xff);
    let mn = spec_obj_uint(pairs, "model_number"@, 0xffff);
    let sr = spec_obj_uint(pairs, "series"@, 0xff);
    if gcid is Some && cv is Some && ft is Some && mn is Some && sr is Some {
        Option::Some(
            VirtualAmiiboId {
                game_character_id: gcid.unwrap() as u16,
                character_variant: cv.unwrap() as u8,
                figure_type: ft.unwrap() as u8,
                model_number: mn.unwrap() as u16,
                series: sr.unwrap() as u8,
            },
        )
    } else {
        Option::None
    }
}

/// Whether a scalar is a byte value.
pub open spec fn spec_scalar_is_byte(s: JsonScalar) -> bool {
    match s {
        JsonScalar::UInt(v) => v <= 0xff,
        _ => false,
    }
}

/// The byte a scalar holds.
pub open spec fn spec_scalar_byte(s: JsonScalar) -> u8 {
    match s {
        JsonScalar::UInt(v) => v as u8,
        _ => 0,
    }
}

/// An array of scalars as bytes, when every element is one.
pub open spec fn spec_bytes_from_arr(items: Seq<JsonScalar>) -> Option<Seq<u8>> {
    if forall|i: int| 0 <= i < items.len() ==> spec_scalar_is_byte(#[trigger] items[i]) {
        Option::Some(Seq::new(items.len(), |i: int| spec_scalar_byte(items[i])))
    } else {
        Option::None
    }
}

/// What the loader sees of one primary record document.  The UUID
/// fields may be absent or null; everything else is required.  This is
/// the exact reading discipline `from_json_info` implements and the
/// one `to_json_info`'s output round-trips through.
pub open spec fn spec_info_from_doc(doc: JsonDoc) -> Option<VirtualAmiiboInfoModel> {
    let f = doc.fields@;
    let fwd = match spec_assoc(f, "first_write_date"@) {
        Option::Some(JsonItem::Object(p)) => spec_date_from_obj(p@),
        _ => Option::None,
    };
    let id = match spec_assoc(f, "id"@) {
        Option::Some(JsonItem::Object(p)) => spec_id_from_obj(p@),
        _ => Option::None,
    };
    let lwd = match spec_assoc(f, "last_write_date"@) {
        Option::Some(JsonItem::Object(p)) => spec_date_from_obj(p@),
        _ => Option::None,
    };
    let mii_file = match spec_assoc(f, "mii_charinfo_file"@) {
        Option::Some(JsonItem::Scalar(s)) => spec_scalar_str(s),
        _ => Option::None,
    };
    let name = match spec_assoc(f, "name"@) {
        Option::Some(JsonItem::Scalar(s)) => spec_scalar_str(s),
        _ => Option::None,
    };
    let uuid = match spec_assoc(f, "uuid"@) {
        Option::None => Option::Some(Option::<Seq<u8>>::None),
        Option::Some(JsonItem::Scalar(JsonScalar::Null)) => Option::Some(Option::<Seq<u8>>::None),
        Option::Some(JsonItem::Array(items)) => match spec_bytes_from_arr(items@) {
            Option::Some(b) => Option::Some(Option::Some(b)),
            Option::None => Option::None,
        },
        _ => Option::None,
    };
    let use_random = match spec_assoc(f, "use_random_uuid"@) {
        Option::None => Option::Some(Option::<bool>::None),
        Option::Some(JsonItem::Scalar(JsonScalar::Null)) => Option::Some(Option::<bool>::None),
        Option::Some(JsonItem::Scalar(s)) => match spec_scalar_bool(s) {
            Option::Some(b) => Option::Some(Option::Some(b)),
            Option::None => Option::None,
        },
        _ => Option::None,
    };
    let version = match spec_assoc(f, "version"@) {
        Option::Some(JsonItem::Scalar(s)) => spec_scalar_uint(s, 0xff),
        _ => Option::None,
    };
    let write_counter = match spec_assoc(f, "write_counter"@) {
        Option::Some(JsonItem::Scalar(s)) => spec_scalar_uint(s, 0xffff),
        _ => Option::None,
    };
    if fwd is Some && id is Some && lwd is Some && mii_file is Some && name is Some
        && uuid is Some && use_random is Some && version is Some && write_counter is Some {
        Option::Some(
            VirtualAmiiboInfoModel {
                first_write_date: fwd.unwrap(),
                id: id.unwrap(),
                last_write_date: lwd.unwrap(),
                mii_charinfo_file: mii_file.unwrap(),
                name: name.unwrap(),
                uuid: uuid.unwrap(),
                use_random_uuid: use_random.unwrap(),
                version: version.unwrap() as u8,
                write_counter: write_counter.unwrap() as u16,
            },
        )
    } else {
        Option::None
    }
}

/// The abstract content of a primary record document.
pub struct VirtualAmiiboInfoModel {
    pub first_write_date: VirtualAmiiboDate,
    pub id: VirtualAmiiboId,
    pub last_write_date: VirtualAmiiboDate,
    pub mii_charinfo_file: Seq<char>,
    pub name: Seq<char>,
    pub uuid: Option<Seq<u8>>,
    pub use_random_uuid: Option<bool>,
    pub version: u8,
    pub write_counter: u16,
}

/// The abstract content a loaded optional record carries.
pub open spec fn spec_model_of_info_opt(info: VirtualAmiiboInfoOptional) -> VirtualAmiiboInfoModel {
    VirtualAmiiboInfoModel {
        first_write_date: info.first_write_date,
        id: info.id,
        last_write_date: info.last_write_date,
        mii_charinfo_file: info.mii_charinfo_file@,
        name: info.name@,
        uuid: match info.uuid {
            Option::Some(u) => Option::Some(u@),
            Option::None => Option::None,
        },
        use_random_uuid: info.use_random_uuid,
        version: info.version,
        write_counter: info.write_counter,
    }
}

/// The abstract content of a settled record.
pub open spec fn spec_model_of_info(info: VirtualAmiiboInfo) -> VirtualAmiiboInfoModel {
    VirtualAmiiboInfoModel {
        first_write_date: info.first_write_date,
        id: info.id,
        last_write_date: info.last_write_date,
        mii_charinfo_file: info.mii_charinfo_file@,
        name: info.name@,
        uuid: Option::Some(info.uuid@),
        use_random_uuid: Option::Some(info.use_random_uuid),
        version: info.version,
        write_counter: info.write_counter,
    }
}

/// Builds one `y`/`m`/`d` date object.
fn date_to_obj(date: &VirtualAmiiboDate) -> (r: Vec<(String, JsonScalar)>)
    ensures
        spec_date_from_obj(r@) == Option::Some(*date),
{
    let mut pairs: Vec<(String, JsonScalar)> = Vec::new();
    pairs.push((<String as StringExecFns>::from_str("y"), JsonScalar::UInt(date.y as u64)));
    pairs.push((<String as StringExecFns>::from_str("m"), JsonScalar::UInt(date.m as u64)));
    pairs.push((<String as StringExecFns>::from_str("d"), JsonScalar::UInt(date.d as u64)));
    proof {
        reveal_strlit("y");
        reveal_strlit("m");
        reveal_strlit("d");
        assert("y"@[0] == 'y');
        assert("m"@[0] == 'm');
        assert("d"@[0] == 'd');
        lemma_strlit_ne("y"@, "m"@, 0);
        lemma_strlit_ne("y"@, "d"@, 0);
        lemma_strlit_ne("m"@, "d"@, 0);
        lemma_assoc_at::<JsonScalar>(pairs@, "y"@, 0);
        lemma_assoc_at::<JsonScalar>(pairs@, "m"@, 1);
        lemma_assoc_at::<JsonScalar>(pairs@, "d"@, 2);
        assert(spec_date_from_obj(pairs@) == Option::Some(*date));
    }
    pairs
}

/// Builds the identity object.
fn id_to_obj(id: &VirtualAmiiboId) -> (r: Vec<(String, JsonScalar)>)
    ensures
        spec_id_from_obj(r@) == Option::Some(*id),
{
    let mut pairs: Vec<(String, JsonScalar)> = Vec::new();
    pairs.push(
        (
            <String as StringExecFns>::from_str("game_character_id"),
            JsonScalar::UInt(id.game_character_id as u64),
        ),
    );
    pairs.push(
        (
            <String as StringExecFns>::from_str("character_variant"),
            JsonScalar::UInt(id.character_variant as u64),
        ),
    );
    pairs.push(
        (
            <String as StringExecFns>::from_str("figure_type"),
            JsonScalar::UInt(id.figure_type as u64),
        ),
    );
    pairs.push(
        (
            <String as StringExecFns>::from_str("model_number"),
            JsonScalar::UInt(id.model_number as u64),
        ),
    );
    pairs.push(
        (<String as StringExecFns>::from_str("series"), JsonScalar::UInt(id.series as u64)),
    );
    proof {
        reveal_strlit("game_character_id");
        reveal_strlit("character_variant");
        reveal_strlit("figure_type");
        reveal_strlit("model_number");
        reveal_strlit("series");
        assert("game_character_id"@[0] == 'g');
        assert("character_variant"@[0] == 'c');
        assert("figure_type"@[0] == 'f');
        assert("model_number"@[0] == 'm');
        assert("series"@[0] == 's');
        lemma_strlit_ne("game_character_id"@, "character_variant"@, 0);
        lemma_strlit_ne("game_character_id"@, "figure_type"@, 0);
        lemma_strlit_ne("game_character_id"@, "model_number"@, 0);
        lemma_strlit_ne("game_character_id"@, "series"@, 0);
        lemma_strlit_ne("character_variant"@, "figure_type"@, 0);
        lemma_strlit_ne("character_variant"@, "model_number"@, 0);
        lemma_strlit_ne("character_variant"@, "series"@, 0);
        lemma_strlit_ne("figure_type"@, "model_number"@, 0);
        lemma_strlit_ne("figure_type"@, "series"@, 0);
        lemma_strlit_ne("model_number"@, "series"@, 0);
        lemma_assoc_at::<JsonScalar>(pairs@, "game_character_id"@, 0);
        lemma_assoc_at::<JsonScalar>(pairs@, "character_variant"@, 1);
        lemma_assoc_at::<JsonScalar>(pairs@, "figure_type"@, 2);
        lemma_assoc_at::<JsonScalar>(pairs@, "model_number"@, 3);
        lemma_assoc_at::<JsonScalar>(pairs@, "series"@, 4);
        assert(spec_id_from_obj(pairs@) == Option::Some(*id));
    }
    pairs
}

/// Renders the primary record.  Reading the document back yields
/// exactly the record's content: rendering loses nothing.
pub fn to_json_info(info: &VirtualAmiiboInfo) -> (r: JsonDoc)
    ensures
        spec_info_from_doc(r) == Option::Some(spec_model_of_info(*info)),
{
    let mut uuid_items: Vec<JsonScalar> = Vec::new();
    let mut i: usize = 0;
    while i < info.uuid.len()
        invariant
            i <= info.uuid@.len(),
            uuid_items@.len() == i,
            forall|j: int|
                0 <= j < i ==> (#[trigger] uuid_items@[j]) == JsonScalar::UInt(
                    info.uuid@[j] as u64,
                ),
        decreases info.uuid@.len() - i,
    {
        uuid_items.push(JsonScalar::UInt(info.uuid[i] as u64));
        i = i + 1;
    }
    proof {
        assert forall|j: int| 0 <= j < uuid_items@.len() implies spec_scalar_is_byte(
            #[trigger] uuid_items@[j],
        ) by {}
        assert(spec_bytes_from_arr(uuid_items@) == Option::Some(info.uuid@)) by {
            assert(Seq::new(uuid_items@.len(), |j: int| spec_scalar_byte(uuid_items@[j])) =~= info.uuid@);
        }
    }
    let fwd_obj = date_to_obj(&info.first_write_date);
    let id_obj = id_to_obj(&info.id);
    let lwd_obj = date_to_obj(&info.last_write_date);
    let mut fields: Vec<(String, JsonItem)> = Vec::new();
    fields.push(
        (<String as StringExecFns>::from_str("first_write_date"), JsonItem::Object(fwd_obj)),
    );
    fields.push((<String as StringExecFns>::from_str("id"), JsonItem::Object(id_obj)));
    fields.push(
        (<String as StringExecFns>::from_str("last_write_date"), JsonItem::Object(lwd_obj)),
    );
    fields.push(
        (
            <String as StringExecFns>::from_str("mii_charinfo_file"),
            JsonItem::Scalar(JsonScalar::Str(info.mii_charinfo_file.clone())),
        ),
    );
    fields.push(
        (
            <String as StringExecFns>::from_str("name"),
            JsonItem::Scalar(JsonScalar::Str(info.name.clone())),
        ),
    );
    fields.push((<String as StringExecFns>::from_str("uuid"), JsonItem::Array(uuid_items)));
    fields.push(
        (
            <String as StringExecFns>::from_str("use_random_uuid"),
            JsonItem::Scalar(JsonScalar::Bool(info.use_random_uuid)),
        ),
    );
    fields.push(
        (
            <String as StringExecFns>::from_str("version"),
            JsonItem::Scalar(JsonScalar::UInt(info.version as u64)),
        ),
    );
    fields.push(
        (
            <String as StringExecFns>::from_str("write_counter"),
            JsonItem::Scalar(JsonScalar::UInt(info.write_counter as u64)),
        ),
    );
    let doc = JsonDoc { fields };
    proof {
        reveal_strlit("first_write_date");
        reveal_strlit("id");
        reveal_strlit("last_write_date");
        reveal_strlit("mii_charinfo_file");
        reveal_strlit("name");
        reveal_strlit("uuid");
        reveal_strlit("use_random_uuid");
        reveal_strlit("version");
        reveal_strlit("write_counter");
        let f = doc.fields@;
        assert("first_write_date"@[0] == 'f');
        assert("id"@[0] == 'i');
        assert("last_write_date"@[0] == 'l');
        assert("mii_charinfo_file"@[0] == 'm');
        assert("name"@[0] == 'n');
        assert("uuid"@[0] == 'u');
        assert("use_random_uuid"@[0] == 'u');
        assert("uuid"@[1] == 'u');
        assert("use_random_uuid"@[1] == 's');
        assert("version"@[0] == 'v');
        assert("write_counter"@[0] == 'w');
        lemma_strlit_ne("first_write_date"@, "id"@, 0);
        lemma_strlit_ne("first_write_date"@, "last_write_date"@, 0);
        lemma_strlit_ne("first_write_date"@, "mii_charinfo_file"@, 0);
        lemma_strlit_ne("first_write_date"@, "name"@, 0);
        lemma_strlit_ne("first_write_date"@, "uuid"@, 0);
        lemma_strlit_ne("first_write_date"@, "use_random_uuid"@, 0);
        lemma_strlit_ne("first_write_date"@, "version"@, 0);
        lemma_strlit_ne("first_write_date"@, "write_counter"@, 0);
        lemma_strlit_ne("id"@, "last_write_date"@, 0);
        lemma_strlit_ne("id"@, "mii_charinfo_file"@, 0);
        lemma_strlit_ne("id"@, "name"@, 0);
        lemma_strlit_ne("id"@, "uuid"@, 0);
        lemma_strlit_ne("id"@, "use_random_uuid"@, 0);
        lemma_strlit_ne("id"@, "version"@, 0);
        lemma_strlit_ne("id"@, "write_counter"@, 0);
        lemma_strlit_ne("last_write_date"@, "mii_charinfo_file"@, 0);
        lemma_strlit_ne("last_write_date"@, "name"@, 0);
        lemma_strlit_ne("last_write_date"@, "uuid"@, 0);
        lemma_strlit_ne("last_write_date"@, "use_random_uuid"@, 0);
        lemma_strlit_ne("last_write_date"@, "version"@, 0);
        lemma_strlit_ne("last_write_date"@, "write_counter"@, 0);
        lemma_strlit_ne("mii_charinfo_file"@, "name"@, 0);
        lemma_strlit_ne("mii_charinfo_file"@, "uuid"@, 0);
        lemma_strlit_ne("mii_charinfo_file"@, "use_random_uuid"@, 0);
        lemma_strlit_ne("mii_charinfo_file"@, "version"@, 0);
        lemma_strlit_ne("mii_charinfo_file"@, "write_counter"@, 0);
        lemma_strlit_ne("name"@, "uuid"@, 0);
        lemma_strlit_ne("name"@, "use_random_uuid"@, 0);
        lemma_strlit_ne("name"@, "version"@, 0);
        lemma_strlit_ne("name"@, "write_counter"@, 0);
        lemma_strlit_ne("uuid"@, "use_random_uuid"@, 1);
        lemma_strlit_ne("uuid"@, "version"@, 0);
        lemma_strlit_ne("uuid"@, "write_counter"@, 0);
        lemma_strlit_ne("use_random_uuid"@, "version"@, 0);
        lemma_strlit_ne("use_random_uuid"@, "write_counter"@, 0);
        lemma_strlit_ne("version"@, "write_counter"@, 0);
        lemma_assoc_at::<JsonItem>(f, "first_write_date"@, 0);
        lemma_assoc_at::<JsonItem>(f, "id"@, 1);
        lemma_assoc_at::<JsonItem>(f, "last_write_date"@, 2);
        lemma_assoc_at::<JsonItem>(f, "mii_charinfo_file"@, 3);
        lemma_assoc_at::<JsonItem>(f, "name"@, 4);
        lemma_assoc_at::<JsonItem>(f, "uuid"@, 5);
        lemma_assoc_at::<JsonItem>(f, "use_random_uuid"@, 6);
        lemma_assoc_at::<JsonItem>(f, "version"@, 7);
        lemma_assoc_at::<JsonItem>(f, "write_counter"@, 8);
        assert(spec_info_from_doc(doc) == Option::Some(spec_model_of_info(*info)));
    }
    doc
}

/// Looks a field up in a document.
fn doc_get<'a>(fields: &'a Vec<(String, JsonItem)>, key: &str) -> (r: Option<&'a JsonItem>)
    ensures
        r is Some <==> spec_assoc(fields@, key@) is Some,
        r is Some ==> *r.unwrap() == spec_assoc(fields@, key@).unwrap(),
{
    let mut i: usize = 0;
    proof {
        assert(fields@.skip(0) =~= fields@);
    }
    while i < fields.len()
        invariant
            i <= fields@.len(),
            spec_assoc(fields@, key@) == spec_assoc(fields@.skip(i as int), key@),
        decreases fields@.len() - i,
    {
        proof {
            assert(fields@.skip(i as int)[0] == fields@[i as int]);
            assert(fields@.skip(i as int).drop_first() =~= fields@.skip(i + 1));
        }
        if fields[i].0 == <String as StringExecFns>::from_str(key) {
            return Some(&fields[i].1);
        }
        i = i + 1;
    }
    proof {
        assert(fields@.skip(i as int) =~= Seq::<(String, JsonItem)>::empty());
    }
    None
}

/// Looks a scalar field up in a scalar object.
fn obj_get<'a>(pairs: &'a Vec<(String, JsonScalar)>, key: &str) -> (r: Option<&'a JsonScalar>)
    ensures
        r is Some <==> spec_assoc(pairs@, key@) is Some,
        r is Some ==> *r.unwrap() == spec_assoc(pairs@, key@).unwrap(),
{
    let mut i: usize = 0;
    proof {
        assert(pairs@.skip(0) =~= pairs@);
    }
    while i < pairs.len()
        invariant
            i <= pairs@.len(),
            spec_assoc(pairs@, key@) == spec_assoc(pairs@.skip(i as int), key@),
        decreases pairs@.len() - i,
    {
        proof {
            assert(pairs@.skip(i as int)[0] == pairs@[i as int]);
            assert(pairs@.skip(i as int).drop_first() =~= pairs@.skip(i + 1));
        }
        if pairs[i].0 == <String as StringExecFns>::from_str(key) {
            return Some(&pairs[i].1);
        }
        i = i + 1;
    }
    proof {
        assert(pairs@.skip(i as int) =~= Seq::<(String, JsonScalar)>::empty());
    }
    None
}

/// Reads a bounded unsigned field of a scalar object.
fn obj_uint(pairs: &Vec<(String, JsonScalar)>, key: &str, max: u64) -> (r: Option<u64>)
    ensures
        r == spec_obj_uint(pairs@, key@, max),
{
    match obj_get(pairs, key) {
        Option::Some(s) => {
            match s {
                JsonScalar::UInt(v) => {
                    if *v <= max {
                        Some(*v)
                    } else {
                        None
                    }
                },
                _ => None,
            }
        },
        Option::None => None,
    }
}

/// Reads a date object back.
fn date_from_obj(pairs: &Vec<(String, JsonScalar)>) -> (r: Option<VirtualAmiiboDate>)
    ensures
        r == spec_date_from_obj(pairs@),
{
    let y = obj_uint(pairs, "y", 0xffff);
    let m = obj_uint(pairs, "m", 0xff);
    let d = obj_uint(pairs, "d", 0xff);
    match (y, m, d) {
        (Option::Some(y), Option::Some(m), Option::Some(d)) => Some(
            VirtualAmiiboDate { y: y as u16, m: m as u8, d: d as u8 },
        ),
        _ => None,
    }
}

/// Reads the identity object back.
fn id_from_obj(pairs: &Vec<(String, JsonScalar)>) -> (r: Option<VirtualAmiiboId>)
    ensures
        r == spec_id_from_obj(pairs@),
{
    let gcid = obj_uint(pairs, "game_character_id", 0xffff);
    let cv = obj_uint(pairs, "character_variant", 0xff);
    let ft = obj_uint(pairs, "figure_type", 0xff);
    let mn = obj_uint(pairs, "model_number", 0xffff);
    let sr = obj_uint(pairs, "series", 0xff);
    match (gcid, cv, ft, mn, sr) {
        (
            Option::Some(gcid),
            Option::Some(cv),
            Option::Some(ft),
            Option::Some(mn),
            Option::Some(sr),
        ) => Some(
            VirtualAmiiboId {
                game_character_id: gcid as u16,
                character_variant: cv as u8,
                figure_type: ft as u8,
                model_number: mn as u16,
                series: sr as u8,
            },
        ),
        _ => None,
    }
}

/// Reads an array of byte scalars back.
fn bytes_from_arr(items: &Vec<JsonScalar>) -> (r: Option<Vec<u8>>)
    ensures
        r is Some <==> spec_bytes_from_arr(items@) is Some,
        r is Some ==> r.unwrap()@ == spec_bytes_from_arr(items@).unwrap(),
{
    let mut out: Vec<u8> = Vec::new();
    let mut i: usize = 0;
    while i < items.len()
        invariant
            i <= items@.len(),
            out@.len() == i,
            forall|j: int| 0 <= j < i ==> spec_scalar_is_byte(#[trigger] items@[j]),
            forall|j: int| 0 <= j < i ==> out@[j] == spec_scalar_byte(items@[j]),
        decreases items@.len() - i,
    {
        match &items[i] {
            JsonScalar::UInt(v) => {
                if *v > 0xff {
                    proof {
                        assert(!spec_scalar_is_byte(items@[i as int]));
                    }
                    return None;
                }
                out.push(*v as u8);
            },
            _ => {
                proof {
                    assert(!spec_scalar_is_byte(items@[i as int]));
                }
                return None;
            },
        }
        i = i + 1;
    }
    proof {
        assert(out@ =~= Seq::new(items@.len(), |j: int| spec_scalar_byte(items@[j])));
    }
    Some(out)
}

/// Reads one primary record document.  Succeeds exactly on documents
/// `spec_info_from_doc` accepts, and yields exactly its content.
pub fn from_json_info(doc: &JsonDoc) -> (r: Result<VirtualAmiiboInfoOptional, EmuError>)
    ensures
        r is Ok <==> spec_info_from_doc(*doc) is Some,
        r is Err ==> r == Result::<VirtualAmiiboInfoOptional, EmuError>::Err(
            EmuError::InvalidJsonDeserialization,
        ),
        r is Ok ==> spec_model_of_info_opt(r.unwrap()) == spec_info_from_doc(*doc).unwrap(),
{
    let fwd = match doc_get(&doc.fields, "first_write_date") {
        Option::Some(JsonItem::Object(p)) => date_from_obj(p),
        _ => None,
    };
    let id = match doc_get(&doc.fields, "id") {
        Option::Some(JsonItem::Object(p)) => id_from_obj(p),
        _ => None,
    };
    let lwd = match doc_get(&doc.fields, "last_write_date") {
        Option::Some(JsonItem::Object(p)) => date_from_obj(p),
        _ => None,
    };
    let mii_file = match doc_get(&doc.fields, "mii_charinfo_file") {
        Option::Some(JsonItem::Scalar(JsonScalar::Str(s))) => Some(s.clone()),
        _ => None,
    };
    let name = match doc_get(&doc.fields, "name") {
        Option::Some(JsonItem::Scalar(JsonScalar::Str(s))) => Some(s.clone()),
        _ => None,
    };
    let uuid: Option<Option<Vec<u8>>> = match doc_get(&doc.fields, "uuid") {
        Option::None => Some(None),
        Option::Some(JsonItem::Scalar(JsonScalar::Null)) => Some(None),
        Option::Some(JsonItem::Array(items)) => {
            match bytes_from_arr(items) {
                Option::Some(b) => Some(Some(b)),
                Option::None => None,
            }
        },
        _ => None,
    };
    let use_random: Option<Option<bool>> = match doc_get(&doc.fields, "use_random_uuid") {
        Option::None => Some(None),
        Option::Some(JsonItem::Scalar(JsonScalar::Null)) => Some(None),
        Option::Some(JsonItem::Scalar(JsonScalar::Bool(b))) => Some(Some(*b)),
        _ => None,
    };
    let version = match doc_get(&doc.fields, "version") {
        Option::Some(JsonItem::Scalar(JsonScalar::UInt(v))) => if *v <= 0xff {
            Some(*v)
        } else {
            None
        },
        _ => None,
    };
    let write_counter = match doc_get(&doc.fields, "write_counter") {
        Option::Some(JsonItem::Scalar(JsonScalar::UInt(v))) => if *v <= 0xffff {
            Some(*v)
        } else {
            None
        },
        _ => None,
    };
    match (fwd, id, lwd, mii_file, name, uuid, use_random, version, write_counter) {
        (
            Option::Some(fwd),
            Option::Some(id),
            Option::Some(lwd),
            Option::Some(mii_file),
            Option::Some(name),
            Option::Some(uuid),
            Option::Some(use_random),
            Option::Some(version),
            Option::Some(write_counter),
        ) => Ok(
            VirtualAmiiboInfoOptional {
                first_write_date: fwd,
                id,
                last_write_date: lwd,
                mii_charinfo_file: mii_file,
                name,
                uuid,
                use_random_uuid: use_random,
                version: version as u8,
                write_counter: write_counter as u16,
            },
        ),
        _ => Err(EmuError::InvalidJsonDeserialization),
    }
}

/// What the loader sees of one area directory document.
pub open spec fn spec_areas_from_doc(doc: JsonDoc) -> Option<(Seq<(u64, u32)>, u32)> {
    let f = doc.fields@;
    let entries = match spec_assoc(f, "areas"@) {
        Option::Some(JsonItem::ObjectArray(objs)) => spec_area_entries_from_objs(objs@),
        _ => Option::None,
    };
    let current = match spec_assoc(f, "current_area_access_id"@) {
        Option::Some(JsonItem::Scalar(s)) => spec_scalar_uint(s, 0xffffffff),
        _ => Option::None,
    };
    if entries is Some && current is Some {
        Option::Some((entries.unwrap(), current.unwrap() as u32))
    } else {
        Option::None
    }
}

/// One area entry object.
pub open spec fn spec_area_entry_from_obj(pairs: Seq<(String, JsonScalar)>) -> Option<(u64, u32)> {
    let pid = spec_obj_uint(pairs, "program_id"@, 0xffffffffffffffff);
    let aid = spec_obj_uint(pairs, "access_id"@, 0xffffffff);
    if pid is Some && aid is Some {
        Option::Some((pid.unwrap(), aid.unwrap() as u32))
    } else {
        Option::None
    }
}

/// Every entry object of the array, in order.
pub open spec fn spec_area_entries_from_objs(objs: Seq<Vec<(String, JsonScalar)>>) -> Option<
    Seq<(u64, u32)>,
>
    decreases objs.len(),
{
    if objs.len() == 0 {
        Option::Some(Seq::empty())
    } else {
        let head = spec_area_entry_from_obj(objs[0]@);
        let tail = spec_area_entries_from_objs(objs.drop_first());
        if head is Some && tail is Some {
            Option::Some(seq![head.unwrap()] + tail.unwrap())
        } else {
            Option::None
        }
    }
}

/// The abstract content of an area directory.
pub open spec fn spec_model_of_areas(areas: VirtualAmiiboAreaInfo) -> (Seq<(u64, u32)>, u32) {
    (
        Seq::new(areas.areas@.len(), |i: int| (areas.areas@[i].program_id, areas.areas@[i].access_id)),
        areas.current_area_access_id,
    )
}

/// Renders the area directory.  Reading the document back yields
/// exactly its content.
pub fn to_json_areas(areas: &VirtualAmiiboAreaInfo) -> (r: JsonDoc)
    ensures
        spec_areas_from_doc(r) == Option::Some(spec_model_of_areas(*areas)),
{
    let mut objs: Vec<Vec<(String, JsonScalar)>> = Vec::new();
    let mut i: usize = 0;
    while i < areas.areas.len()
        invariant
            i <= areas.areas@.len(),
            objs@.len() == i,
            forall|j: int|
                0 <= j < i ==> spec_area_entry_from_obj((#[trigger] objs@[j])@) == Option::Some(
                    (areas.areas@[j].program_id, areas.areas@[j].access_id),
                ),
        decreases areas.areas@.len() - i,
    {
        let mut pairs: Vec<(String, JsonScalar)> = Vec::new();
        pairs.push(
            (
                <String as StringExecFns>::from_str("program_id"),
                JsonScalar::UInt(areas.areas[i].program_id),
            ),
        );
        pairs.push(
            (
                <String as StringExecFns>::from_str("access_id"),
                JsonScalar::UInt(areas.areas[i].access_id as u64),
            ),
        );
        proof {
            reveal_strlit("program_id");
            reveal_strlit("access_id");
            assert("program_id"@[0] == 'p');
            assert("access_id"@[0] == 'a');
            lemma_strlit_ne("program_id"@, "access_id"@, 0);
            lemma_assoc_at::<JsonScalar>(pairs@, "program_id"@, 0);
            lemma_assoc_at::<JsonScalar>(pairs@, "access_id"@, 1);
            assert(spec_area_entry_from_obj(pairs@) == Option::Some(
                (areas.areas@[i as int].program_id, areas.areas@[i as int].access_id),
            ));
        }
        objs.push(pairs);
        i = i + 1;
    }
    proof {
        lemma_area_entries_all(objs@, areas.areas@);
    }
    let mut fields: Vec<(String, JsonItem)> = Vec::new();
    fields.push((<String as StringExecFns>::from_str("areas"), JsonItem::ObjectArray(objs)));
    fields.push(
        (
            <String as StringExecFns>::from_str("current_area_access_id"),
            JsonItem::Scalar(JsonScalar::UInt(areas.current_area_access_id as u64)),
        ),
    );
    let doc = JsonDoc { fields };
    proof {
        reveal_strlit("areas");
        reveal_strlit("current_area_access_id");
        let f = doc.fields@;
        assert("areas"@[0] == 'a');
        assert("current_area_access_id"@[0] == 'c');
        lemma_strlit_ne("areas"@, "current_area_access_id"@, 0);
        lemma_assoc_at::<JsonItem>(f, "areas"@, 0);
        lemma_assoc_at::<JsonItem>(f, "current_area_access_id"@, 1);
        assert(spec_areas_from_doc(doc).unwrap().0 =~= spec_model_of_areas(*areas).0);
        assert(spec_areas_from_doc(doc) == Option::Some(spec_model_of_areas(*areas)));
    }
    doc
}

/// When every rendered entry object reads back as its source entry,
/// the whole array does.
proof fn lemma_area_entries_all(
    objs: Seq<Vec<(String, JsonScalar)>>,
    entries: Seq<VirtualAmiiboAreaEntry>,
)
    requires
        objs.len() == entries.len(),
        forall|j: int|
            0 <= j < objs.len() ==> spec_area_entry_from_obj((#[trigger] objs[j])@)
                == Option::Some((entries[j].program_id, entries[j].access_id)),
    ensures
        spec_area_entries_from_objs(objs) is Some,
        spec_area_entries_from_objs(objs).unwrap() =~= Seq::new(
            entries.len(),
            |i: int| (entries[i].program_id, entries[i].access_id),
        ),
    decreases objs.len(),
{
    if objs.len() > 0 {
        lemma_area_entries_all(objs.drop_first(), entries.drop_first());
    }
}

/// Reads one area directory document.  Succeeds exactly on documents
/// `spec_areas_from_doc` accepts, and yields exactly its content.
pub fn from_json_areas(doc: &JsonDoc) -> (r: Result<VirtualAmiiboAreaInfo, EmuError>)
    ensures
        r is Ok <==> spec_areas_from_doc(*doc) is Some,
        r is Err ==> r == Result::<VirtualAmiiboAreaInfo, EmuError>::Err(
            EmuError::InvalidJsonDeserialization,
        ),
        r is Ok ==> spec_model_of_areas(r.unwrap()) == spec_areas_from_doc(*doc).unwrap(),
{
    let entries: Option<Vec<VirtualAmiiboAreaEntry>> = match doc_get(&doc.fields, "areas") {
        Option::Some(JsonItem::ObjectArray(objs)) => area_entries_from_objs(objs),
        _ => None,
    };
    let current: Option<u64> = match doc_get(&doc.fields, "current_area_access_id") {
        Option::Some(JsonItem::Scalar(JsonScalar::UInt(v))) => if *v <= 0xffffffff {
            Some(*v)
        } else {
            None
        },
        _ => None,
    };
    match (entries, current) {
        (Option::Some(entries), Option::Some(current)) => {
            let r = VirtualAmiiboAreaInfo { areas: entries, current_area_access_id: current as u32 };
            proof {
                assert(spec_model_of_areas(r).0 =~= spec_areas_from_doc(*doc).unwrap().0);
            }
            Ok(r)
        },
        _ => Err(EmuError::InvalidJsonDeserialization),
    }
}

/// Reads the entry array back.
fn area_entries_from_objs(objs: &Vec<Vec<(String, JsonScalar)>>) -> (r: Option<
    Vec<VirtualAmiiboAreaEntry>,
>)
    ensures
        r is Some <==> spec_area_entries_from_objs(objs@) is Some,
        r is Some ==> Seq::new(
            r.unwrap()@.len(),
            |i: int| (r.unwrap()@[i].program_id, r.unwrap()@[i].access_id),
        ) == spec_area_entries_from_objs(objs@).unwrap(),
{
    let mut out: Vec<VirtualAmiiboAreaEntry> = Vec::new();
    let mut i: usize = 0;
    while i < objs.len()
        invariant
            i <= objs@.len(),
            out@.len() == i,
            forall|j: int|
                0 <= j < i ==> spec_area_entry_from_obj((#[trigger] objs@[j])@) == Option::Some(
                    (out@[j].program_id, out@[j].access_id),
                ),
        decreases objs@.len() - i,
    {
        let pid = obj_uint(&objs[i], "program_id", 0xffffffffffffffff);
        let aid = obj_uint(&objs[i], "access_id", 0xffffffff);
        match (pid, aid) {
            (Option::Some(pid), Option::Some(aid)) => {
                out.push(VirtualAmiiboAreaEntry { program_id: pid, access_id: aid as u32 });
            },
            _ => {
                proof {
                    lemma_area_entries_bad_at(objs@, i as int);
                }
                return None;
            },
        }
        i = i + 1;
    }
    proof {
        lemma_area_entries_good(objs@, out@);
    }
    Some(out)
}

/// One unreadable entry object spoils the whole array.
proof fn lemma_area_entries_bad_at(objs: Seq<Vec<(String, JsonScalar)>>, at: int)
    requires
        0 <= at < objs.len(),
        spec_area_entry_from_obj(objs[at]@) is None,
    ensures
        spec_area_entries_from_objs(objs) is None,
    decreases at,
{
    if at > 0 {
        lemma_area_entries_bad_at(objs.drop_first(), at - 1);
    }
}

/// When every entry object reads back, the array reads back to their
/// sequence.
proof fn lemma_area_entries_good(
    objs: Seq<Vec<(String, JsonScalar)>>,
    out: Seq<VirtualAmiiboAreaEntry>,
)
    requires
        objs.len() == out.len(),
        forall|j: int|
            0 <= j < objs.len() ==> spec_area_entry_from_obj((#[trigger] objs[j])@)
                == Option::Some((out[j].program_id, out[j].access_id)),
    ensures
        spec_area_entries_from_objs(objs) is Some,
        spec_area_entries_from_objs(objs).unwrap() =~= Seq::new(
            out.len(),
            |i: int| (out[i].program_id, out[i].access_id),
        ),
    decreases objs.len(),
{
    if objs.len() > 0 {
        lemma_area_entries_good(objs.drop_first(), out.drop_first());
    }
}

} // verus!
