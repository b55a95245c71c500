//! Choosing audio devices and checking what they support.
use vstd::prelude::*;
use crate::text::chars_of;

verus! {

/// One supported stream configuration range a device advertises.
#[derive(Debug, Clone, Copy, PartialEq, Eq)]
pub struct SupportedRange {
    pub channels: u16,
    /// The sample format is 32-bit float.
    pub is_f32: bool,
    pub min_rate: u32,
    pub max_rate: u32,
}

/// A range covers a stream of `channels` float channels at `rate`.
pub open spec fn covers(r: SupportedRange, channels: u16, rate: u32) -> bool {
    r.channels == channels && r.is_f32 && r.min_rate <= rate && rate <= r.max_rate
}

/// Whether any advertised range covers a float stream of `channels` channels at `rate`.
pub fn supports(ranges: &Vec<SupportedRange>, channels: u16, rate: u32) -> (r: bool)
    ensures
        r == exists|i: int| 0 <= i < ranges@.len() && covers(#[trigger] ranges@[i], channels, rate),
{
    let mut i: usize = 0;
    while i < ranges.len()
        invariant
            i <= ranges@.len(),
            forall|k: int| 0 <= k < i ==> !covers(#[trigger] ranges@[k], channels, rate),
        decreases ranges@.len() - i,
    {
        let g = ranges[i];
        if g.channels == channels && g.is_f32 && g.min_rate <= rate && rate <= g.max_rate {
            assert(covers(ranges@[i as int], channels, rate));
            return true;
        }
        i = i + 1;
    }
    false
}

fn same_text(a: &str, b: &str) -> (r: bool)
    ensures
        r == (a@ == b@),
{
    let x = chars_of(a);
    let y = chars_of(b);
    if x.len() != y.len() {
        return false;
    }
    let mut i: usize = 0;
    while i < x.len()
        invariant
            i <= x@.len() == y@.len(),
            x@ == a@,
            y@ == b@,
            forall|k: int| 0 <= k < i ==> x@[k] == y@[k],
        decreases x@.len() - i,
    {
        if x[i] != y[i] {
            assert(x@[i as int] != y@[i as int]);
            return false;
        }
        i = i + 1;
    }
    assert(x@ =~= y@);
    true
}

/// A device name that was read and equals `wanted`.
pub open spec fn name_is(o: Option<String>, wanted: Seq<char>) -> bool {
    match o {
        Some(m) => m@ == wanted,
        None => false,
    }
}

/// The first device whose name is exactly `wanted` (names that could not be
/// read are `None`).
pub fn find_exact(names: &Vec<Option<String>>, wanted: &str) -> (r: Option<usize>)
    ensures
        match r {
            Some(i) => i < names@.len() && name_is(names@[i as int], wanted@)
                && forall|k: int| 0 <= k < i ==> !name_is(#[trigger] names@[k], wanted@),
            None => forall|k: int| 0 <= k < names@.len() ==> !name_is(#[trigger] names@[k], wanted@),
        },
{
    let mut i: usize = 0;
    while i < names.len()
        invariant
            i <= names@.len(),
            forall|k: int| 0 <= k < i ==> !name_is(#[trigger] names@[k], wanted@),
        decreases names@.len() - i,
    {
        match &names[i] {
            Some(n) => {
                if same_text(n.as_str(), wanted) {
                    return Some(i);
                }
            },
            None => {},
        }
        i = i + 1;
    }
    None
}

/// `s` lower-cased as `str::to_lowercase` does (Unicode case mapping).
pub uninterp spec fn lowercase(s: Seq<char>) -> Seq<char>;

/// Lower-cases `s` (`str::to_lowercase`).
#[verifier::external_body]
fn to_lowercase(s: &str) -> (r: String)
    ensures
        r@ == lowercase(s@),
{
    s.to_lowercase()
}

/// Whether `needle` occurs in `hay` as a run of consecutive characters.
pub open spec fn contains_run(hay: Seq<char>, needle: Seq<char>) -> bool {
    exists|i: int| 0 <= i && i + needle.len() <= hay.len() && #[trigger] hay.subrange(i, i + needle.len()) == needle
}

fn occurs_at(hay: &Vec<char>, needle: &Vec<char>, at: usize) -> (r: bool)
    requires
        at + needle@.len() <= hay@.len(),
    ensures
        r == (hay@.subrange(at as int, at + needle@.len()) == needle@),
{
    let hl = hay.len();
    let mut j: usize = 0;
    while j < needle.len()
        invariant
            hl == hay@.len(),
            j <= needle@.len(),
            at + needle@.len() <= hay@.len(),
            forall|k: int| 0 <= k < j ==> hay@[at + k] == needle@[k],
        decreases needle@.len() - j,
    {
        if hay[at + j] != needle[j] {
            assert(hay@.subrange(at as int, at + needle@.len())[j as int] != needle@[j as int]);
            return false;
        }
        j = j + 1;
    }
    assert(hay@.subrange(at as int, at + needle@.len()) =~= needle@);
    true
}

/// Whether `needle` occurs in `hay`.
pub fn contains_text(hay: &Vec<char>, needle: &Vec<char>) -> (r: bool)
    ensures
        r == contains_run(hay@, needle@),
{
    if needle.len() == 0 {
        assert(hay@.subrange(0int, 0int + needle@.len()) =~= needle@);
        return true;
    }
    if needle.len() > hay.len() {
        return false;
    }
    let hl = hay.len();
    let last = hl - needle.len();
    let mut i: usize = 0;
    while i <= last
        invariant
            needle@.len() > 0,
            last + needle@.len() <= usize::MAX,
            i <= last + 1,
            last + needle@.len() == hay@.len(),
            forall|k: int| 0 <= k < i ==> #[trigger] hay@.subrange(k, k + needle@.len()) != needle@,
        decreases last + 1 - i,
    {
        if occurs_at(hay, needle, i) {
            return true;
        }
        i = i + 1;
    }
    false
}

/// The first device whose lower-cased name contains the lower-cased `wanted`.
pub fn find_containing(names: &Vec<String>, wanted: &str) -> (r: Option<usize>)
    ensures
        match r {
            Some(i) => i < names@.len() && contains_run(lowercase(names@[i as int]@), lowercase(wanted@))
                && forall|k: int| 0 <= k < i ==> !contains_run(lowercase(#[trigger] names@[k]@), lowercase(wanted@)),
            None => forall|k: int| 0 <= k < names@.len() ==> !contains_run(lowercase(#[trigger] names@[k]@), lowercase(wanted@)),
        },
{
    let w = to_lowercase(wanted);
    let wv = chars_of(w.as_str());
    let mut i: usize = 0;
    while i < names.len()
        invariant
            i <= names@.len(),
            wv@ == lowercase(wanted@),
            forall|k: int| 0 <= k < i ==> !contains_run(lowercase(#[trigger] names@[k]@), lowercase(wanted@)),
        decreases names@.len() - i,
    {
        let n = to_lowercase(names[i].as_str());
        let nv = chars_of(n.as_str());
        if contains_text(&nv, &wv) {
            return Some(i);
        }
        i = i + 1;
    }
    None
}

} // verus!
