//! What a disassembler is asked to map: segments (address range, file range,
//! permissions) and named sections.

use vstd::prelude::*;

use std::ops::Range;

use crate::text::{append_digits, digits};

verus! {

/// The permission and content flags of a segment.
#[derive(Debug, Clone, Copy, PartialEq, Eq, Structural)]
pub struct SegmentFlags {
    pub readable: bool,
    pub writable: bool,
    pub executable: bool,
    pub contains_data: bool,
    pub contains_code: bool,
    pub deny_write: bool,
    pub deny_execute: bool,
}

/// A segment: the addresses it is mapped at, its flags, and the file bytes
/// that back it.
pub struct SegmentMappingData {
    pub mapped_addr_range: Range<u64>,
    pub mapped_segment_flags: SegmentFlags,
    pub file_backing: Range<u64>,
}

impl SegmentMappingData {
    pub fn new(
        mapped_addr_range: Range<u64>,
        file_backing: Range<u64>,
        mapped_segment_flags: SegmentFlags,
    ) -> (r: Self)
        ensures
            r.mapped_addr_range == mapped_addr_range,
            r.file_backing == file_backing,
            r.mapped_segment_flags == mapped_segment_flags,
    {
        SegmentMappingData { mapped_addr_range, file_backing, mapped_segment_flags }
    }
}

impl Clone for SegmentMappingData {
    fn clone(&self) -> (r: Self)
        ensures
            r == *self,
    {
        SegmentMappingData {
            mapped_addr_range: Range {
                start: self.mapped_addr_range.start,
                end: self.mapped_addr_range.end,
            },
            mapped_segment_flags: self.mapped_segment_flags,
            file_backing: Range { start: self.file_backing.start, end: self.file_backing.end },
        }
    }
}

/// A named section and the addresses it covers.
pub struct SectionData {
    pub name: String,
    pub mapped_addr_range: Range<u64>,
}

impl SectionData {
    pub fn new(name: &str, mapped_addr_range: Range<u64>) -> (r: Self)
        ensures
            r.name@ == name@,
            r.mapped_addr_range == mapped_addr_range,
    {
        SectionData { name: name.to_owned(), mapped_addr_range }
    }
}

impl Clone for SectionData {
    fn clone(&self) -> (r: Self)
        ensures
            r == *self,
    {
        SectionData {
            name: self.name.clone(),
            mapped_addr_range: Range {
                start: self.mapped_addr_range.start,
                end: self.mapped_addr_range.end,
            },
        }
    }
}

/// The entry `e` is the segment `name` mapped at `[map_start, map_end)`,
/// backed by the file bytes `[fb_start, fb_end)`, with `flags`.
pub open spec fn segment_is(
    e: (String, SegmentMappingData),
    name: Seq<char>,
    map_start: int,
    map_end: int,
    fb_start: int,
    fb_end: int,
    flags: SegmentFlags,
) -> bool {
    &&& e.0@ == name
    &&& e.1.mapped_addr_range.start == map_start
    &&& e.1.mapped_addr_range.end == map_end
    &&& e.1.file_backing.start == fb_start
    &&& e.1.file_backing.end == fb_end
    &&& e.1.mapped_segment_flags == flags
}

/// The entry `e` is the section `name` covering `[map_start, map_end)`.
pub open spec fn section_is(
    e: (String, SectionData),
    name: Seq<char>,
    map_start: int,
    map_end: int,
) -> bool {
    &&& e.0@ == name
    &&& e.1.name@ == name
    &&& e.1.mapped_addr_range.start == map_start
    &&& e.1.mapped_addr_range.end == map_end
}

/// The segment entries `a` and `b` agree: same name, addresses, file bytes
/// and flags.
pub open spec fn same_segment(a: (String, SegmentMappingData), b: (String, SegmentMappingData)) -> bool {
    &&& a.0@ == b.0@
    &&& a.1.mapped_addr_range == b.1.mapped_addr_range
    &&& a.1.file_backing == b.1.file_backing
    &&& a.1.mapped_segment_flags == b.1.mapped_segment_flags
}

/// The section entries `a` and `b` agree: same names and addresses.
pub open spec fn same_section(a: (String, SectionData), b: (String, SectionData)) -> bool {
    &&& a.0@ == b.0@
    &&& a.1.name@ == b.1.name@
    &&& a.1.mapped_addr_range == b.1.mapped_addr_range
}

/// No two entries share a name.
pub open spec fn names_unique<T>(entries: Seq<(String, T)>) -> bool {
    forall|i: int, j: int|
        0 <= i < entries.len() && 0 <= j < entries.len() && i != j ==> entries[i].0@
            != entries[j].0@
}

/// A copy of a list of named segments.
pub fn clone_segments(v: &Vec<(String, SegmentMappingData)>) -> (r: Vec<(String, SegmentMappingData)>)
    ensures
        r@ == v@,
{
    let mut r: Vec<(String, SegmentMappingData)> = Vec::new();
    let mut i: usize = 0;
    while i < v.len()
        invariant
            i <= v@.len(),
            r@ == v@.subrange(0, i as int),
        decreases v@.len() - i,
    {
        let e = &v[i];
        r.push((e.0.clone(), e.1.clone()));
        i = i + 1;
        assert(r@ =~= v@.subrange(0, i as int));
    }
    assert(v@.subrange(0, v@.len() as int) =~= v@);
    r
}

/// A copy of a list of named sections.
pub fn clone_sections(v: &Vec<(String, SectionData)>) -> (r: Vec<(String, SectionData)>)
    ensures
        r@ == v@,
{
    let mut r: Vec<(String, SectionData)> = Vec::new();
    let mut i: usize = 0;
    while i < v.len()
        invariant
            i <= v@.len(),
            r@ == v@.subrange(0, i as int),
        decreases v@.len() - i,
    {
        let e = &v[i];
        r.push((e.0.clone(), e.1.clone()));
        i = i + 1;
        assert(r@ =~= v@.subrange(0, i as int));
    }
    assert(v@.subrange(0, v@.len() as int) =~= v@);
    r
}

/// The index of the first entry named `name`, at or after `i`.
pub open spec fn named_index_from<T>(entries: Seq<(String, T)>, name: Seq<char>, i: int) -> Option<
    int,
>
    decreases entries.len() - i,
{
    if i < 0 || i >= entries.len() {
        None
    } else if entries[i].0@ == name {
        Some(i)
    } else {
        named_index_from(entries, name, i + 1)
    }
}

/// A found index points at an entry with that name.
pub proof fn lemma_named_index_from<T>(entries: Seq<(String, T)>, name: Seq<char>, i: int)
    ensures
        named_index_from(entries, name, i) matches Some(k) ==> i <= k < entries.len()
            && entries[k].0@ == name,
    decreases entries.len() - i,
{
    if 0 <= i < entries.len() && entries[i].0@ != name {
        lemma_named_index_from(entries, name, i + 1);
    }
}

/// The index of the first entry named `name`.
pub open spec fn named_index<T>(entries: Seq<(String, T)>, name: Seq<char>) -> Option<int> {
    named_index_from(entries, name, 0)
}

/// One line `<tag> <name> -> 0x<start> - 0x<end>`, the bounds in upper-case
/// hexadecimal.
pub open spec fn range_line(tag: Seq<char>, name: Seq<char>, start: u64, end: u64) -> Seq<char> {
    tag + name + " -> 0x"@ + digits(start as nat, 16) + " - 0x"@ + digits(end as nat, 16) + "\n"@
}

/// The mapped (`m`) and file (`f`) lines of the segment named `name`, or
/// nothing when there is no such segment.
pub open spec fn segment_lines(entries: Seq<(String, SegmentMappingData)>, name: Seq<char>) -> Seq<
    char,
> {
    match named_index(entries, name) {
        Some(k) => {
            let seg = entries[k].1;
            range_line("m "@, name, seg.mapped_addr_range.start, seg.mapped_addr_range.end)
                + range_line("f "@, name, seg.file_backing.start, seg.file_backing.end)
        },
        None => Seq::empty(),
    }
}

/// The index of the first entry named `name`.
pub fn find_named_segment(entries: &Vec<(String, SegmentMappingData)>, name: &str) -> (r: Option<
    usize,
>)
    ensures
        match r {
            Some(k) => named_index(entries@, name@) == Some(k as int),
            None => named_index(entries@, name@) is None,
        },
{
    let key: String = name.to_owned();
    let mut i: usize = 0;
    while i < entries.len()
        invariant
            i <= entries@.len(),
            key@ == name@,
            named_index_from(entries@, name@, i as int) == named_index(entries@, name@),
        decreases entries@.len() - i,
    {
        if entries[i].0 == key {
            return Some(i);
        }
        i = i + 1;
    }
    None
}

/// Appends `<tag> <name> -> 0x<start> - 0x<end>` and a newline to `s`.
fn append_range_line(s: &mut String, tag: &str, name: &str, start: u64, end: u64)
    ensures
        final(s)@ == old(s)@ + range_line(tag@, name@, start, end),
{
    s.append(tag);
    s.append(name);
    s.append(" -> 0x");
    append_digits(s, start, 16);
    s.append(" - 0x");
    append_digits(s, end, 16);
    s.append("\n");
    assert(final(s)@ =~= old(s)@ + range_line(tag@, name@, start, end));
}

/// Appends the mapped and file lines of the segment named `name`, if any.
pub fn append_segment_lines(s: &mut String, entries: &Vec<(String, SegmentMappingData)>, name: &str)
    ensures
        final(s)@ == old(s)@ + segment_lines(entries@, name@),
{
    match find_named_segment(entries, name) {
        Some(k) => {
            proof {
                lemma_named_index_from(entries@, name@, 0);
            }
            let seg = &entries[k].1;
            append_range_line(s, "m ", name, seg.mapped_addr_range.start, seg.mapped_addr_range.end);
            append_range_line(s, "f ", name, seg.file_backing.start, seg.file_backing.end);
            assert(final(s)@ =~= old(s)@ + segment_lines(entries@, name@));
        },
        None => {
            assert(final(s)@ =~= old(s)@ + segment_lines(entries@, name@));
        },
    }
}

} // verus!
