//! The outer container of a package: an `ar` archive of three members. The
//! `ar` format itself is the `ar` crate's.
use crate::fields::{number_field, read_number};
use std::io::Read;
use vstd::prelude::*;

verus! {

/// What a member of a container holds, as mathematical values.
pub struct MemberView {
    /// The name of the member.
    pub identifier: Seq<u8>,
    /// The mode in the member's header.
    pub mode: u32,
    /// The bytes of the member.
    pub data: Seq<u8>,
}

/// A member of a container as it was read: its name and its bytes.
#[derive(Debug)]
pub struct ArMember {
    pub identifier: Vec<u8>,
    pub data: Vec<u8>,
}

/// A container that is being written, in memory.
#[verifier::external_body]
pub struct ArWriter {
    inner: ar::Builder<Vec<u8>>,
}

/// A container that is being read from bytes in memory.
#[verifier::external_body]
pub struct ArReader<'a> {
    inner: ar::Archive<&'a [u8]>,
}

/// The members that have been appended to a container so far, in order.
pub uninterp spec fn ar_members(writer: ArWriter) -> Seq<MemberView>;

/// The bytes of the container that holds the given members, in order, each
/// with modification time, owner and group 0.
pub uninterp spec fn ar_encoding(members: Seq<MemberView>) -> Seq<u8>;

/// The members that a reader has still to yield, in order, each as its name
/// and its bytes; a member that cannot be read is `None`.
pub uninterp spec fn ar_left(reader: ArReader) -> Seq<Option<(Seq<u8>, Seq<u8>)>>;

/// The members that reading the given bytes as a container yields, in order,
/// each as its name and its bytes; a member that cannot be read is `None`.
pub uninterp spec fn ar_listing(bytes: Seq<u8>) -> Seq<Option<(Seq<u8>, Seq<u8>)>>;

/// The bytes that a reader reads from.
pub uninterp spec fn ar_source(reader: ArReader) -> Seq<u8>;

/// How many members a reader has yielded so far.
pub uninterp spec fn ar_taken(reader: ArReader) -> nat;

/// Whether a plain member header stands at the given offset: a whole header of
/// 60 bytes, whose name begins neither with a separator nor with `#1/`, the
/// two marks of names that are stored elsewhere, and whose size field holds a
/// number.
pub open spec fn is_plain_header(bytes: Seq<u8>, offset: int) -> bool {
    &&& 0 <= offset
    &&& offset + 60 <= bytes.len()
    &&& bytes[offset] != 0x2f
    &&& !(bytes[offset] == 0x23 && bytes[offset + 1] == 0x31 && bytes[offset + 2] == 0x2f)
    &&& number_field(bytes.subrange(offset + 48, offset + 58), 10) is Some
}

/// Where the next header begins behind the member whose plain header stands at
/// the given offset: behind the header, the data and, where the size is odd,
/// one byte of padding.
pub open spec fn next_header(bytes: Seq<u8>, offset: int) -> int {
    let size = number_field(bytes.subrange(offset + 48, offset + 58), 10)->Some_0;
    offset + 60 + size + size % 2
}

/// Where the header of the member of the given index begins: the first behind
/// the eight bytes that begin a container, each other behind a member with a
/// plain header. `None` where a member before it has no plain header.
pub open spec fn header_offset(bytes: Seq<u8>, index: nat) -> Option<int>
    decreases index,
{
    if index == 0 {
        Some(8)
    } else {
        match header_offset(bytes, (index - 1) as nat) {
            Some(offset) => if is_plain_header(bytes, offset) {
                Some(next_header(bytes, offset))
            } else {
                None
            },
            None => None,
        }
    }
}

/// Whether the member of the given index can be read: every member before it
/// has a plain header, and its own header is plain or is not there in full.
pub open spec fn is_plain_member(bytes: Seq<u8>, index: nat) -> bool {
    match header_offset(bytes, index) {
        Some(offset) => offset + 60 > bytes.len() || is_plain_header(bytes, offset),
        None => false,
    }
}

/// Whether the first three members of a container can be read.
pub open spec fn is_plain_container(bytes: Seq<u8>) -> bool {
    is_plain_member(bytes, 0) && is_plain_member(bytes, 1) && is_plain_member(bytes, 2)
}

/// Whether the first three members of a container can be read.
pub fn check_container(bytes: &[u8]) -> (plain: bool)
    ensures
        plain == is_plain_container(bytes@),
{
    let mut offset: usize = 8;
    let mut index: usize = 0;
    proof {
        reveal_with_fuel(header_offset, 4);
    }
    while index < 3
        invariant
            index <= 3,
            header_offset(bytes@, index as nat) == Some(offset as int),
            forall|k: nat| k < index ==> is_plain_member(bytes@, k),
        decreases 3 - index,
    {
        proof {
            reveal_with_fuel(header_offset, 4);
        }
        if bytes.len() < 60 || offset > bytes.len() - 60 {
            // No whole header is left: this member can be read, the next cannot.
            return index == 2;
        }
        if bytes[offset] == 0x2f || (bytes[offset] == 0x23 && bytes[offset + 1] == 0x31
            && bytes[offset + 2] == 0x2f) {
            return false;
        }
        let size = match read_number(bytes, offset + 48, offset + 58, 10) {
            Some(size) => size,
            None => {
                return false;
            },
        };
        let span: u64 = 60 + size + size % 2;
        if span > (bytes.len() - offset) as u64 {
            // The next header would begin behind the end.
            return index >= 1;
        }
        offset = offset + span as usize;
        index += 1;
    }
    true
}

/// `ar::Builder::new` on an empty vector: no member is appended yet.
#[verifier::external_body]
pub(crate) fn ar_writer_new() -> (writer: ArWriter)
    ensures
        ar_members(writer) == Seq::<MemberView>::empty(),
{
    ArWriter { inner: ar::Builder::new(Vec::new()) }
}

/// `ar::Builder::append`, with a header that `ar::Header::new` made from the
/// name and the length of the data, and that was given the mode: the member is
/// appended. The size in the header is the length of the data, and writing
/// into a vector does not fail, so the call succeeds.
#[verifier::external_body]
pub(crate) fn ar_append(writer: &mut ArWriter, identifier: &[u8], mode: u32, data: &[u8]) -> (r:
    Result<(), std::io::Error>)
    ensures
        r is Ok,
        ar_members(*final(writer)) == ar_members(*old(writer)).push(
            MemberView { identifier: identifier@, mode: mode, data: data@ },
        ),
{
    let mut header = ar::Header::new(identifier.to_vec(), data.len() as u64);
    header.set_mode(mode);
    writer.inner.append(&header, data)
}

/// `ar::Builder::into_inner`: the bytes of the container that holds the
/// members that were appended. It does not fail.
#[verifier::external_body]
pub(crate) fn ar_finish(writer: ArWriter) -> (r: Result<Vec<u8>, std::io::Error>)
    ensures
        r is Ok,
        r matches Ok(bytes) ==> bytes@ == ar_encoding(ar_members(writer)),
{
    writer.inner.into_inner()
}

/// `ar::Archive::new` on the given bytes: every member is still to come.
#[verifier::external_body]
pub(crate) fn ar_open<'a>(bytes: &'a [u8]) -> (reader: ArReader<'a>)
    ensures
        ar_left(reader) == ar_listing(bytes@),
        ar_source(reader) == bytes@,
        ar_taken(reader) == 0,
{
    ArReader { inner: ar::Archive::new(bytes) }
}

/// `ar::Archive::next_entry`: the next member, with its name and with its
/// data read to the end; `None` where no member is left.
///
/// The member has to be one that can be read: for a name that begins with a
/// separator the call looks the name up in a table that the container may not
/// hold.
#[verifier::external_body]
pub(crate) fn ar_next<'a>(reader: &mut ArReader<'a>) -> (r: Option<
    Result<ArMember, std::io::Error>,
>)
    requires
        is_plain_member(ar_source(*old(reader)), ar_taken(*old(reader))),
    ensures
        ar_source(*final(reader)) == ar_source(*old(reader)),
        r is Some ==> ar_taken(*final(reader)) == ar_taken(*old(reader)) + 1,
        r is None == (ar_left(*old(reader)).len() == 0),
        r is Some ==> ar_left(*final(reader)) == ar_left(*old(reader)).drop_first(),
        r matches Some(Ok(member)) ==> ar_left(*old(reader))[0] == Some(
            (member.identifier@, member.data@),
        ),
        r matches Some(Err(_)) ==> ar_left(*old(reader))[0] is None,
{
    let mut entry = match reader.inner.next_entry()? {
        Ok(entry) => entry,
        Err(e) => return Some(Err(e)),
    };
    let mut data = Vec::new();
    match entry.read_to_end(&mut data) {
        Ok(_) => Some(Ok(ArMember { identifier: entry.header().identifier().to_vec(), data })),
        Err(e) => Some(Err(e)),
    }
}

} // verus!
