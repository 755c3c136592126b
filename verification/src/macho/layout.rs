//! Where a Mach-O binary keeps its code signature. The load commands of an
//! architecture name a range of the file for the signature and a
//! range for the `__LINKEDIT` segment, and the signature begins with a table
//! of the blobs in it. A signature can only be read where the first range
//! lies inside the second and every blob of the table lies inside the
//! signature. The address at which a binary is entered has to be a number
//! too: it is the entry's place in the file, moved to where the `__TEXT`
//! segment lies in memory.

use vstd::prelude::*;
use vstd::slice::slice_subrange;
use crate::error::Error;
use crate::error::ErrorModel;

verus! {

/// The number that the four bytes from `at` on spell, in the byte order
/// given.
pub open spec fn word(data: Seq<u8>, at: int, little: bool) -> int {
    if little {
        data[at] as int + 0x100 * (data[at + 1] as int) + 0x1_0000 * (data[at + 2] as int)
            + 0x100_0000 * (data[at + 3] as int)
    } else {
        data[at + 3] as int + 0x100 * (data[at + 2] as int) + 0x1_0000 * (data[at + 1] as int)
            + 0x100_0000 * (data[at] as int)
    }
}

/// The number that the eight bytes from `at` on spell, in the byte order
/// given.
pub open spec fn long(data: Seq<u8>, at: int, little: bool) -> int {
    if little {
        word(data, at, true) + 0x1_0000_0000 * word(data, at + 4, true)
    } else {
        word(data, at + 4, false) + 0x1_0000_0000 * word(data, at, false)
    }
}

/// Whether the segment name that begins at `at` is `__LINKEDIT`: those ten
/// letters and then the byte that ends a name.
pub open spec fn names_linkedit(data: Seq<u8>, at: int) -> bool {
    data[at] == 0x5f && data[at + 1] == 0x5f && data[at + 2] == 0x4c && data[at + 3] == 0x49
        && data[at + 4] == 0x4e && data[at + 5] == 0x4b && data[at + 6] == 0x45 && data[at + 7]
        == 0x44 && data[at + 8] == 0x49 && data[at + 9] == 0x54 && data[at + 10] == 0
}

/// Whether the segment name that begins at `at` starts with `__TEXT` and
/// the byte that ends a name.
pub open spec fn names_text(data: Seq<u8>, at: int) -> bool {
    data[at] == 0x5f && data[at + 1] == 0x5f && data[at + 2] == 0x54 && data[at + 3] == 0x45
        && data[at + 4] == 0x58 && data[at + 5] == 0x54 && data[at + 6] == 0
}

/// A range of a file: where it starts and how long it is.
#[derive(Debug)]
pub struct Span {
    pub start: u64,
    pub len: u64,
}

/// Where a segment lies: its address in memory and its place in the file.
#[derive(Debug)]
pub struct Placement {
    pub address: u64,
    pub offset: u64,
}

/// What the load commands say of the signature, of the `__LINKEDIT` segment,
/// of the entry and of the `__TEXT` segment: for each what the first
/// command of its kind names.
#[derive(Debug)]
pub struct Seen {
    pub signature: Option<Span>,
    pub linkedit: Option<Span>,
    pub entry: Option<u64>,
    pub text: Option<Placement>,
}

/// Nothing seen yet.
pub open spec fn nothing_seen() -> Seen {
    Seen { signature: None, linkedit: None, entry: None, text: None }
}

/// What is seen after a segment command with the name at `name`, the
/// address and the range given. A segment named `__LINKEDIT` is noted by
/// its range and one named `__TEXT` by its place, each only the first time.
pub open spec fn after_segment(
    data: Seq<u8>,
    name: int,
    address: int,
    start: int,
    len: int,
    seen: Seen,
) -> Seen {
    Seen {
        signature: seen.signature,
        linkedit: if seen.linkedit is None && names_linkedit(data, name) {
            Some(Span { start: start as u64, len: len as u64 })
        } else {
            seen.linkedit
        },
        entry: seen.entry,
        text: if seen.text is None && names_text(data, name) {
            Some(Placement { address: address as u64, offset: start as u64 })
        } else {
            seen.text
        },
    }
}

/// What is seen after the load command at `at`. A code signature command
/// names its range in its third and fourth word, and an entry command the
/// entry's place in the file after its first two words. A segment command,
/// of either width, holds the segment's name and then its address and size
/// in memory and its range in the file. Only the first command of each kind
/// counts.
pub open spec fn after_command(data: Seq<u8>, little: bool, at: int, seen: Seen) -> Seen {
    let command = word(data, at, little);
    if command == 0x1d && at + 16 <= data.len() {
        Seen {
            signature: if seen.signature is None {
                Some(
                    Span {
                        start: word(data, at + 8, little) as u64,
                        len: word(data, at + 12, little) as u64,
                    },
                )
            } else {
                seen.signature
            },
            linkedit: seen.linkedit,
            entry: seen.entry,
            text: seen.text,
        }
    } else if command == 0x8000_0028 && at + 16 <= data.len() {
        Seen {
            signature: seen.signature,
            linkedit: seen.linkedit,
            entry: if seen.entry is None {
                Some(long(data, at + 8, little) as u64)
            } else {
                seen.entry
            },
            text: seen.text,
        }
    } else if command == 0x1 && at + 40 <= data.len() {
        after_segment(
            data,
            at + 8,
            word(data, at + 24, little),
            word(data, at + 32, little),
            word(data, at + 36, little),
            seen,
        )
    } else if command == 0x19 && at + 56 <= data.len() {
        after_segment(
            data,
            at + 8,
            long(data, at + 24, little),
            long(data, at + 40, little),
            long(data, at + 48, little),
            seen,
        )
    } else {
        seen
    }
}

/// What is seen after `left` load commands from `at` on. Each command
/// begins with its kind and its size, and the next begins that many bytes
/// further on. The walk ends early where a command does not fit into the
/// bytes that are left.
pub open spec fn walked(data: Seq<u8>, little: bool, at: int, left: int, seen: Seen) -> Seen
    decreases left,
{
    if left <= 0 || at + 8 > data.len() {
        seen
    } else {
        let size = word(data, at + 4, little);
        if size > data.len() - at {
            seen
        } else {
            walked(data, little, at + size, left - 1, after_command(data, little, at, seen))
        }
    }
}

/// Whether the signature can be read: there is no signature command, or no
/// `__LINKEDIT` segment, or the signature's range lies inside the segment's.
pub open spec fn in_reach(seen: Seen) -> bool {
    match (seen.signature, seen.linkedit) {
        (Some(s), Some(l)) => l.start <= s.start && s.start - l.start + s.len <= l.len,
        _ => true,
    }
}

/// Whether the address of the entry is a number of 64 bits: there is no
/// entry command, or no `__TEXT` segment, or the segment lies no further on
/// in the file than in memory and the entry, moved by the difference, stays
/// in range.
pub open spec fn entry_in_reach(seen: Seen) -> bool {
    match (seen.entry, seen.text) {
        (Some(e), Some(t)) => t.offset <= t.address && t.address - t.offset + e <= u64::MAX,
        _ => true,
    }
}

/// The bytes of the signature: the range that the signature command names,
/// where there is such a command and a `__LINKEDIT` segment and the range
/// lies in the file; else nothing.
pub open spec fn signature_of(slice: Seq<u8>, seen: Seen) -> Seq<u8> {
    match (seen.signature, seen.linkedit) {
        (Some(s), Some(_)) => if s.start + s.len <= slice.len() {
            slice.subrange(s.start as int, s.start + s.len)
        } else {
            Seq::empty()
        },
        _ => Seq::empty(),
    }
}

/// Where the blob of entry `index` begins: the second word of the entry.
/// The table begins after three words and has two words for each entry.
pub open spec fn blob_start(sig: Seq<u8>, index: int) -> int {
    word(sig, 16 + 8 * index, false)
}

/// Where the blob of entry `index` ends at the latest: where the next
/// begins, or with the signature.
pub open spec fn blob_end(sig: Seq<u8>, index: int, count: int) -> int {
    if index == count - 1 {
        sig.len() as int
    } else {
        blob_start(sig, index + 1)
    }
}

/// Whether the blob of entry `index` can be cut out of the signature and
/// read: it has room for the two words that every blob begins with, it ends
/// inside the signature, and where the entry is of the kind for
/// entitlements, the blob begins with the mark of an entitlements blob.
pub open spec fn blob_fits(sig: Seq<u8>, index: int, count: int) -> bool {
    blob_start(sig, index) + 8 <= blob_end(sig, index, count) && blob_end(sig, index, count)
        <= sig.len() && (word(sig, 12 + 8 * index, false) == 5 ==> word(
        sig,
        blob_start(sig, index),
        false,
    ) == 0xfade_7171)
}

/// Whether a signature can be read. Bytes that do not begin with the mark
/// of a signature and two more words are refused with an error before
/// anything is cut out of them. The third word is the number of entries in
/// the table; the table has to lie inside the signature, and every blob
/// that it names has to fit.
pub open spec fn signature_readable(sig: Seq<u8>) -> bool {
    if sig.len() < 12 || word(sig, 0, false) != 0xfade_0cc0 {
        true
    } else {
        let count = word(sig, 8, false);
        12 + 8 * count <= sig.len() && forall|i: int|
            0 <= i < count ==> #[trigger] blob_fits(sig, i, count)
    }
}

/// Whether the bytes begin with one of the four numbers that mark a Mach-O
/// binary of one architecture.
pub open spec fn is_binary(slice: Seq<u8>) -> bool {
    slice.len() >= 4 && (word(slice, 0, false) == 0xfeed_face || word(slice, 0, false)
        == 0xcefa_edfe || word(slice, 0, false) == 0xfeed_facf || word(slice, 0, false)
        == 0xcffa_edfe)
}

/// What the load commands of a binary of one architecture say. The mark at
/// the start gives the byte order and the width, and with the width the
/// size of the header; the header's fifth and sixth word give the number of
/// load commands and their size in all. Bytes that are no such binary, or
/// whose header is cut short or cannot be true, say nothing.
pub open spec fn layout_of(slice: Seq<u8>) -> Option<Seen> {
    if !is_binary(slice) {
        None
    } else {
        let mark = word(slice, 0, false);
        let little = mark == 0xcefa_edfe || mark == 0xcffa_edfe;
        let header: int = if mark == 0xfeed_facf || mark == 0xcffa_edfe {
            32
        } else {
            28
        };
        if slice.len() < header {
            None
        } else {
            let count = word(slice, 16, little);
            let room = word(slice, 20, little);
            if count > room / 8 || room > slice.len() {
                None
            } else {
                Some(walked(slice, little, header, count, nothing_seen()))
            }
        }
    }
}

/// Whether the signature of a binary of one architecture can be read: the
/// binary can be taken apart, the signature lies in its segment, and its
/// blobs lie in it.
pub open spec fn binary_readable(slice: Seq<u8>) -> bool {
    match layout_of(slice) {
        Some(seen) => entry_in_reach(seen) && in_reach(seen) && signature_readable(
            signature_of(slice, seen),
        ),
        None => true,
    }
}

/// The part of a file for one architecture; empty where the range named
/// does not lie in the file.
pub open spec fn arch_slice(data: Seq<u8>, offset: int, size: int) -> Seq<u8> {
    if offset + size <= data.len() {
        data.subrange(offset, offset + size)
    } else {
        Seq::empty()
    }
}

/// Whether every architecture from `index` on is a binary whose signature
/// can be read. The table of architectures begins after two words, with
/// five words for each; the third and fourth of them name the
/// architecture's part of the file. A part that does not begin with the
/// mark of a binary, an archive for one, is refused.
pub open spec fn arches_readable(data: Seq<u8>, index: int, count: int) -> bool
    decreases count - index,
{
    if index < 0 || index >= count || 20 * index + 28 > data.len() {
        true
    } else {
        let at = 8 + 20 * index;
        let slice = arch_slice(data, word(data, at + 8, false), word(data, at + 12, false));
        is_binary(slice) && binary_readable(slice) && arches_readable(data, index + 1, count)
    }
}

/// Whether the code signature of a file can be read: where the file names
/// a range for it and holds a `__LINKEDIT` segment, the range lies inside
/// the segment, and the blobs of the signature lie inside the signature. A
/// file of several architectures begins with a mark of its own and their
/// number, and all of this is asked of each of them.
pub open spec fn signature_in_reach(data: Seq<u8>) -> bool {
    if data.len() < 8 {
        binary_readable(data)
    } else if word(data, 0, false) == 0xcafe_babe {
        let count = word(data, 4, false);
        if count > data.len() / 20 {
            true
        } else {
            arches_readable(data, 0, count)
        }
    } else {
        binary_readable(data)
    }
}

/// What is said of a binary that cannot be taken apart or whose signature
/// cannot be read.
pub open spec fn malformed_text() -> Seq<char> {
    "malformed Mach-O binary or code signature"@
}

fn read_word(data: &[u8], at: usize, little: bool) -> (r: u32)
    requires
        at + 4 <= data.len(),
    ensures
        r == word(data@, at as int, little),
{
    let a: u32 = data[at] as u32;
    let b: u32 = data[at + 1] as u32;
    let c: u32 = data[at + 2] as u32;
    let d: u32 = data[at + 3] as u32;
    if little {
        a + 0x100 * b + 0x1_0000 * c + 0x100_0000 * d
    } else {
        d + 0x100 * c + 0x1_0000 * b + 0x100_0000 * a
    }
}

fn read_long(data: &[u8], at: usize, little: bool) -> (r: u64)
    requires
        at + 8 <= data.len(),
    ensures
        r == long(data@, at as int, little),
{
    let first: u64 = read_word(data, at, little) as u64;
    let second: u64 = read_word(data, at + 4, little) as u64;
    if little {
        first + 0x1_0000_0000 * second
    } else {
        second + 0x1_0000_0000 * first
    }
}

fn is_linkedit_name(data: &[u8], at: usize) -> (r: bool)
    requires
        at + 16 <= data.len(),
    ensures
        r == names_linkedit(data@, at as int),
{
    data[at] == 0x5f && data[at + 1] == 0x5f && data[at + 2] == 0x4c && data[at + 3] == 0x49
        && data[at + 4] == 0x4e && data[at + 5] == 0x4b && data[at + 6] == 0x45 && data[at + 7]
        == 0x44 && data[at + 8] == 0x49 && data[at + 9] == 0x54 && data[at + 10] == 0
}

fn is_text_name(data: &[u8], at: usize) -> (r: bool)
    requires
        at + 16 <= data.len(),
    ensures
        r == names_text(data@, at as int),
{
    data[at] == 0x5f && data[at + 1] == 0x5f && data[at + 2] == 0x54 && data[at + 3] == 0x45
        && data[at + 4] == 0x58 && data[at + 5] == 0x54 && data[at + 6] == 0
}

fn note_segment(data: &[u8], name: usize, address: u64, start: u64, len: u64, seen: Seen) -> (r:
    Seen)
    requires
        name + 16 <= data.len(),
    ensures
        r == after_segment(data@, name as int, address as int, start as int, len as int, seen),
{
    let linkedit = if seen.linkedit.is_none() && is_linkedit_name(data, name) {
        Some(Span { start, len })
    } else {
        seen.linkedit
    };
    let text = if seen.text.is_none() && is_text_name(data, name) {
        Some(Placement { address, offset: start })
    } else {
        seen.text
    };
    Seen { signature: seen.signature, linkedit, entry: seen.entry, text }
}

fn note_command(data: &[u8], little: bool, at: usize, seen: Seen) -> (r: Seen)
    requires
        at + 8 <= data.len(),
    ensures
        r == after_command(data@, little, at as int, seen),
{
    let command: u32 = read_word(data, at, little);
    let room: usize = data.len() - at;
    if command == 0x1d && room >= 16 {
        let signature = if seen.signature.is_none() {
            let start: u64 = read_word(data, at + 8, little) as u64;
            let len: u64 = read_word(data, at + 12, little) as u64;
            Some(Span { start, len })
        } else {
            seen.signature
        };
        Seen { signature, linkedit: seen.linkedit, entry: seen.entry, text: seen.text }
    } else if command == 0x8000_0028 && room >= 16 {
        let entry = if seen.entry.is_none() {
            Some(read_long(data, at + 8, little))
        } else {
            seen.entry
        };
        Seen { signature: seen.signature, linkedit: seen.linkedit, entry, text: seen.text }
    } else if command == 0x1 && room >= 40 {
        let address: u64 = read_word(data, at + 24, little) as u64;
        let start: u64 = read_word(data, at + 32, little) as u64;
        let len: u64 = read_word(data, at + 36, little) as u64;
        note_segment(data, at + 8, address, start, len, seen)
    } else if command == 0x19 && room >= 56 {
        let address: u64 = read_long(data, at + 24, little);
        let start: u64 = read_long(data, at + 40, little);
        let len: u64 = read_long(data, at + 48, little);
        note_segment(data, at + 8, address, start, len, seen)
    } else {
        seen
    }
}

fn walk(data: &[u8], little: bool, start: usize, count: u32) -> (r: Seen)
    requires
        start <= data.len(),
    ensures
        r == walked(data@, little, start as int, count as int, nothing_seen()),
{
    let mut at: usize = start;
    let mut left: u32 = count;
    let mut seen = Seen { signature: None, linkedit: None, entry: None, text: None };
    while left > 0 && data.len() - at >= 8
        invariant
            at <= data.len(),
            walked(data@, little, start as int, count as int, nothing_seen()) == walked(
                data@,
                little,
                at as int,
                left as int,
                seen,
            ),
        decreases left,
    {
        let size: u32 = read_word(data, at + 4, little);
        if size as usize > data.len() - at {
            return seen;
        }
        seen = note_command(data, little, at, seen);
        at = at + size as usize;
        left = left - 1;
    }
    seen
}

fn fits(seen: &Seen) -> (r: bool)
    ensures
        r == in_reach(*seen),
{
    match (&seen.signature, &seen.linkedit) {
        (Some(s), Some(l)) => l.start <= s.start && s.len <= l.len && s.start - l.start <= l.len
            - s.len,
        _ => true,
    }
}

fn signature_part<'a>(slice: &'a [u8], seen: &Seen) -> (r: &'a [u8])
    ensures
        r@ == signature_of(slice@, *seen),
{
    match (&seen.signature, &seen.linkedit) {
        (Some(s), Some(_)) => {
            let len: u64 = slice.len() as u64;
            if s.start <= len && s.len <= len - s.start {
                let r = slice_subrange(slice, s.start as usize, (s.start + s.len) as usize);
                r
            } else {
                slice_subrange(slice, 0, 0)
            }
        },
        _ => slice_subrange(slice, 0, 0),
    }
}

fn blobs_fit(sig: &[u8], count: u32) -> (r: bool)
    requires
        12 + 8 * count <= sig.len(),
    ensures
        r == forall|i: int| 0 <= i < count ==> #[trigger] blob_fits(sig@, i, count as int),
{
    let mut index: u32 = 0;
    while index < count
        invariant
            index <= count,
            12 + 8 * count <= sig.len(),
            forall|i: int| 0 <= i < index ==> #[trigger] blob_fits(sig@, i, count as int),
        decreases count - index,
    {
        let at: usize = 12 + 8 * (index as usize);
        let kind: u32 = read_word(sig, at, false);
        let start: usize = read_word(sig, at + 4, false) as usize;
        let end: usize = if index == count - 1 {
            sig.len()
        } else {
            read_word(sig, at + 12, false) as usize
        };
        assert(start == blob_start(sig@, index as int));
        assert(end == blob_end(sig@, index as int, count as int));
        if end > sig.len() || start > end || end - start < 8 {
            assert(!blob_fits(sig@, index as int, count as int));
            return false;
        }
        if kind == 5 && read_word(sig, start, false) != 0xfade_7171 {
            assert(!blob_fits(sig@, index as int, count as int));
            return false;
        }
        assert(blob_fits(sig@, index as int, count as int));
        index = index + 1;
    }
    true
}

fn signature_reads(sig: &[u8]) -> (r: bool)
    ensures
        r == signature_readable(sig@),
{
    if sig.len() < 12 {
        return true;
    }
    let mark: u32 = read_word(sig, 0, false);
    if mark != 0xfade_0cc0 {
        return true;
    }
    let count: u32 = read_word(sig, 8, false);
    if 12 + 8 * (count as u64) > sig.len() as u64 {
        return false;
    }
    blobs_fit(sig, count)
}

fn entry_fits(seen: &Seen) -> (r: bool)
    ensures
        r == entry_in_reach(*seen),
{
    match (&seen.entry, &seen.text) {
        (Some(e), Some(t)) => t.offset <= t.address && *e <= u64::MAX - (t.address - t.offset),
        _ => true,
    }
}

fn read_layout(slice: &[u8]) -> (r: Option<Seen>)
    ensures
        r == layout_of(slice@),
{
    if !is_binary_mark(slice) {
        return None;
    }
    let mark: u32 = read_word(slice, 0, false);
    let little = mark == 0xcefa_edfe || mark == 0xcffa_edfe;
    let header: usize = if mark == 0xfeed_facf || mark == 0xcffa_edfe {
        32
    } else {
        28
    };
    if slice.len() < header {
        return None;
    }
    let count: u32 = read_word(slice, 16, little);
    let room: u32 = read_word(slice, 20, little);
    if count > room / 8 || room as usize > slice.len() {
        return None;
    }
    Some(walk(slice, little, header, count))
}

fn binary_fits(slice: &[u8]) -> (r: bool)
    ensures
        r == binary_readable(slice@),
{
    match read_layout(slice) {
        None => true,
        Some(seen) => entry_fits(&seen) && fits(&seen) && signature_reads(
            signature_part(slice, &seen),
        ),
    }
}

fn arches_fit(data: &[u8], count: u32) -> (r: bool)
    requires
        count <= data.len() / 20,
    ensures
        r == arches_readable(data@, 0, count as int),
{
    let mut index: u32 = 0;
    while index < count
        invariant
            index <= count <= data.len() / 20,
            arches_readable(data@, 0, count as int) == arches_readable(
                data@,
                index as int,
                count as int,
            ),
        decreases count - index,
    {
        if data.len() < 28 || 20 * (index as usize) > data.len() - 28 {
            return true;
        }
        let at: usize = 8 + 20 * (index as usize);
        let offset: u32 = read_word(data, at + 8, false);
        let size: u32 = read_word(data, at + 12, false);
        let slice = if offset as u64 + size as u64 <= data.len() as u64 {
            slice_subrange(data, offset as usize, offset as usize + size as usize)
        } else {
            slice_subrange(data, 0, 0)
        };
        assert(slice@ =~= arch_slice(
            data@,
            word(data@, at + 8, false),
            word(data@, at + 12, false),
        ));
        if !is_binary_mark(slice) || !binary_fits(slice) {
            return false;
        }
        index = index + 1;
    }
    true
}

fn is_binary_mark(slice: &[u8]) -> (r: bool)
    ensures
        r == is_binary(slice@),
{
    if slice.len() < 4 {
        return false;
    }
    let mark: u32 = read_word(slice, 0, false);
    mark == 0xfeed_face || mark == 0xcefa_edfe || mark == 0xfeed_facf || mark == 0xcffa_edfe
}

/// Whether the code signature of a file can be read.
pub fn signature_fits(data: &[u8]) -> (r: bool)
    ensures
        r == signature_in_reach(data@),
{
    if data.len() < 8 {
        return binary_fits(data);
    }
    let mark: u32 = read_word(data, 0, false);
    if mark == 0xcafe_babe {
        let count: u32 = read_word(data, 4, false);
        if count as usize > data.len() / 20 {
            return true;
        }
        arches_fit(data, count)
    } else {
        binary_fits(data)
    }
}

/// Tests, before a signature is read, that it lies where it can be read.
pub fn check_signature_range(data: &[u8]) -> (r: Result<(), Error>)
    ensures
        r is Ok <==> signature_in_reach(data@),
        r matches Err(e) ==> e@ == ErrorModel::Codesign(malformed_text()),
{
    if signature_fits(data) {
        Ok(())
    } else {
        Err(Error::Codesign("malformed Mach-O binary or code signature".to_owned()))
    }
}

} // verus!
