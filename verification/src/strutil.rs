//! Small verified string helpers: path-name extraction and one trusted
//! character append.

use vstd::prelude::*;

verus! {

/// Relies on `String::push` of std: appends one character to the
/// string.
#[verifier::external_body]
pub fn push_char(s: &mut String, c: char)
    ensures
        final(s)@ == old(s)@ + seq![c],
{
    s.push(c);
}

/// Relies on `char::from_u32` of std: yields a character exactly for
/// scalar values (below the surrogate range, or past it up to the
/// highest code point), and that character carries the given value.
#[verifier::external_body]
pub fn char_from_u32(v: u32) -> (r: Option<char>)
    ensures
        r is Some <==> (v < 0xd800 || (0xe000 <= v && v <= 0x10ffff)),
        r is Some ==> r.unwrap() as u32 == v,
{
    char::from_u32(v)
}

/// The 16-bit units before the first NUL.
pub open spec fn spec_until_nul(units: Seq<u16>) -> Seq<u16>
    decreases units.len(),
{
    if units.len() == 0 {
        Seq::empty()
    } else if units[0] == 0 {
        Seq::empty()
    } else {
        seq![units[0]] + spec_until_nul(units.drop_first())
    }
}

/// Whether every unit is a scalar value the basic plane can hold.
pub open spec fn spec_units_decodable(units: Seq<u16>) -> bool {
    forall|i: int| 0 <= i < units.len() ==> (units[i] < 0xd800 || units[i] >= 0xe000)
}

/// Decodes a NUL-terminated sequence of 16-bit units into a string,
/// one character per unit.  Fails exactly when a unit in the used
/// prefix is a surrogate half: pairs are not combined, so a display
/// name is restricted to the basic multilingual plane.
pub fn decode_name_units(units: &Vec<u16>) -> (r: Option<String>)
    ensures
        r is Some <==> spec_units_decodable(spec_until_nul(units@)),
        r is Some ==> {
            let prefix = spec_until_nul(units@);
            &&& r.unwrap()@.len() == prefix.len()
            &&& forall|i: int|
                0 <= i < prefix.len() ==> (#[trigger] r.unwrap()@[i]) as u32 == prefix[i]
        },
{
    let mut out = String::new();
    let mut i: usize = 0;
    proof {
        assert(units@.skip(0) =~= units@);
    }
    while i < units.len()
        invariant
            i <= units@.len(),
            spec_until_nul(units@) == units@.take(i as int) + spec_until_nul(
                units@.skip(i as int),
            ),
            forall|j: int| 0 <= j < i ==> units@[j] != 0,
            out@.len() == i,
            forall|j: int| 0 <= j < i ==> (#[trigger] out@[j]) as u32 == units@[j],
            forall|j: int| 0 <= j < i ==> (units@[j] < 0xd800 || units@[j] >= 0xe000),
        decreases units@.len() - i,
    {
        let u = units[i];
        proof {
            assert(units@.skip(i as int)[0] == units@[i as int]);
            assert(units@.skip(i as int).drop_first() =~= units@.skip(i + 1));
        }
        if u == 0 {
            proof {
                assert(spec_until_nul(units@.skip(i as int)) =~= Seq::<u16>::empty());
                lemma_prefix_is_until_nul(units@, i as int);
            }
            return Some(out);
        }
        let c = char_from_u32(u as u32);
        match c {
            Option::Some(ch) => {
                push_char(&mut out, ch);
                proof {
                    assert(units@.take(i + 1) =~= units@.take(i as int) + seq![units@[i as int]]);
                    assert(units@.take(i as int) + spec_until_nul(units@.skip(i as int))
                        =~= units@.take(i + 1) + spec_until_nul(units@.skip(i + 1)));
                }
            },
            Option::None => {
                proof {
                    lemma_until_nul_contains(units@, i as int);
                }
                return None;
            },
        }
        i = i + 1;
    }
    proof {
        assert(units@.skip(i as int) =~= Seq::<u16>::empty());
        assert(spec_until_nul(units@.skip(i as int)) =~= Seq::<u16>::empty());
        lemma_prefix_is_until_nul(units@, i as int);
    }
    Some(out)
}

/// When no NUL sits before `upto`, the decoded prefix is exactly the
/// taken units followed by the rest of the scan.
proof fn lemma_prefix_is_until_nul(units: Seq<u16>, upto: int)
    requires
        0 <= upto <= units.len(),
        forall|j: int| 0 <= j < upto ==> units[j] != 0,
        upto < units.len() ==> units[upto] == 0,
    ensures
        spec_until_nul(units) == units.take(upto),
    decreases upto,
{
    if upto == 0 {
        assert(units.take(0) =~= Seq::<u16>::empty());
        if units.len() > 0 {
            assert(units[0] == 0);
        }
    } else {
        assert(units[0] != 0);
        lemma_prefix_is_until_nul(units.drop_first(), upto - 1);
        assert(units.drop_first().take(upto - 1) =~= units.take(upto).drop_first());
        assert(spec_until_nul(units) =~= units.take(upto));
    }
}

/// A unit before any NUL belongs to the scanned prefix.
proof fn lemma_until_nul_contains(units: Seq<u16>, at: int)
    requires
        0 <= at < units.len(),
        forall|j: int| 0 <= j <= at ==> units[j] != 0,
    ensures
        spec_until_nul(units).len() > at,
        spec_until_nul(units)[at] == units[at],
    decreases at,
{
    if at == 0 {
        assert(spec_until_nul(units)[0] == units[0]);
    } else {
        lemma_until_nul_contains(units.drop_first(), at - 1);
    }
}

/// The index right after the last `/`, or 0 when there is none.
pub open spec fn spec_after_last_slash(s: Seq<char>) -> int
    decreases s.len(),
{
    if s.len() == 0 {
        0
    } else if s.last() == '/' {
        s.len() as int
    } else {
        spec_after_last_slash(s.drop_last())
    }
}

/// The index of the last `.`, or -1 when there is none.
pub open spec fn spec_last_dot_pos(s: Seq<char>) -> int
    decreases s.len(),
{
    if s.len() == 0 {
        -1
    } else if s.last() == '.' {
        s.len() - 1
    } else {
        spec_last_dot_pos(s.drop_last())
    }
}

/// The final path segment: everything after the last `/`, or the whole
/// path when it has none.
pub fn get_path_file_name(path: &str) -> (r: String)
    ensures
        r@ == path@.subrange(spec_after_last_slash(path@), path@.len() as int),
{
    let n = path.unicode_len();
    let mut cut: usize = 0;
    let mut i: usize = 0;
    proof {
        assert(path@.take(0) =~= Seq::<char>::empty());
    }
    while i < n
        invariant
            i <= n,
            n == path@.len(),
            cut == spec_after_last_slash(path@.take(i as int)),
            cut <= i,
        decreases n - i,
    {
        let c = path.get_char(i);
        proof {
            assert(path@.take(i + 1).drop_last() =~= path@.take(i as int));
            assert(path@.take(i + 1).last() == path@[i as int]);
        }
        if c == '/' {
            cut = i + 1;
        }
        i = i + 1;
    }
    proof {
        assert(path@.take(n as int) =~= path@);
    }
    path.substring_char(cut, n).to_owned()
}

/// The path with its extension cut off: everything before the last
/// `.`, or the whole path when it has none.
pub fn get_path_without_extension(path: &str) -> (r: String)
    ensures
        r@ == if spec_last_dot_pos(path@) < 0 {
            path@
        } else {
            path@.subrange(0, spec_last_dot_pos(path@))
        },
{
    let n = path.unicode_len();
    let mut dot: usize = 0;
    let mut have_dot: bool = false;
    let mut i: usize = 0;
    proof {
        assert(path@.take(0) =~= Seq::<char>::empty());
    }
    while i < n
        invariant
            i <= n,
            n == path@.len(),
            have_dot == (spec_last_dot_pos(path@.take(i as int)) >= 0),
            have_dot ==> dot == spec_last_dot_pos(path@.take(i as int)),
            dot <= i,
        decreases n - i,
    {
        let c = path.get_char(i);
        proof {
            assert(path@.take(i + 1).drop_last() =~= path@.take(i as int));
            assert(path@.take(i + 1).last() == path@[i as int]);
        }
        if c == '.' {
            dot = i;
            have_dot = true;
        }
        i = i + 1;
    }
    proof {
        assert(path@.take(n as int) =~= path@);
    }
    if have_dot {
        path.substring_char(0, dot).to_owned()
    } else {
        path.substring_char(0, n).to_owned()
    }
}

/// The final path segment with its extension cut off.
pub fn get_path_file_name_without_extension(path: &str) -> (r: String)
    ensures
        ({
            let stem = if spec_last_dot_pos(path@) < 0 {
                path@
            } else {
                path@.subrange(0, spec_last_dot_pos(path@))
            };
            r@ == stem.subrange(spec_after_last_slash(stem), stem.len() as int)
        }),
{
    let stem = get_path_without_extension(path);
    get_path_file_name(stem.as_str())
}

} // verus!
