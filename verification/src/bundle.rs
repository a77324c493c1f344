//! The inner archives of a package: the control bundle and the data bundle.
//! Both are tar streams; the tar format itself is the `tar` crate's.
use crate::error::DebError;
use crate::fields::{number_field, read_number};
use crate::shared::{DebFile, FileView};
use std::io::Read;
use vstd::prelude::*;

verus! {

/// What one entry of an inner archive holds, as it was read. A part that could
/// not be read is `None`.
#[derive(Debug)]
pub struct TarItem {
    /// The path of the entry, as text.
    pub path: Option<String>,
    /// The mode in the entry's header.
    pub mode: Option<u32>,
    /// The bytes of the entry.
    pub contents: Option<Vec<u8>>,
}

/// What a [`TarItem`] holds, as mathematical values.
pub struct ItemView {
    pub path: Option<Seq<char>>,
    pub mode: Option<u32>,
    pub contents: Option<Seq<u8>>,
}

impl View for TarItem {
    type V = ItemView;

    open spec fn view(&self) -> ItemView {
        ItemView {
            path: match self.path {
                Some(path) => Some(path@),
                None => None,
            },
            mode: self.mode,
            contents: match self.contents {
                Some(contents) => Some(contents@),
                None => None,
            },
        }
    }
}

/// What an entry holds; an entry that could not be read is `None`.
pub open spec fn item_view(item: Option<TarItem>) -> Option<ItemView> {
    match item {
        Some(item) => Some(item@),
        None => None,
    }
}

/// What a list of entries holds.
pub open spec fn items_view(items: Seq<Option<TarItem>>) -> Seq<Option<ItemView>> {
    Seq::new(items.len(), |i: int| item_view(items[i]))
}

/// A tar stream that is being written, in memory.
#[verifier::external_body]
pub struct TarWriter {
    inner: tar::Builder<Vec<u8>>,
}

/// A tar stream that is to be read from bytes in memory.
#[verifier::external_body]
pub struct TarArchive<'a> {
    inner: tar::Archive<&'a [u8]>,
}

/// The entries of a tar stream that is being read.
#[verifier::external_body]
pub struct TarEntries<'b, 'a> {
    inner: tar::Entries<'b, &'a [u8]>,
}

/// The bytes that have been written to a tar stream so far.
pub uninterp spec fn tar_written(writer: TarWriter) -> Seq<u8>;

/// The header block of an entry in GNU format with the given path, mode and
/// size and a checksum, every other field left blank; `None` where the path
/// cannot be represented.
pub uninterp spec fn tar_gnu_header(path: Seq<char>, mode: u32, size: u64) -> Option<Seq<u8>>;

/// The entries that reading a tar stream from its start yields, in order; an
/// entry that cannot be read is `None`.
pub uninterp spec fn tar_listing(bytes: Seq<u8>) -> Seq<Option<ItemView>>;

/// The bytes that a tar stream is to be read from.
pub uninterp spec fn tar_source(archive: TarArchive) -> Seq<u8>;

/// Whether nothing has been read from a tar stream yet.
pub uninterp spec fn tar_fresh(archive: TarArchive) -> bool;

/// The entries that are still to come, in order; an entry that cannot be read
/// is `None`.
pub uninterp spec fn tar_left(entries: TarEntries) -> Seq<Option<ItemView>>;

/// The bytes that the entries of a tar stream are read from.
pub uninterp spec fn tar_entries_source(entries: TarEntries) -> Seq<u8>;

/// Whether the block of 512 bytes at the given offset holds zero bytes only,
/// which ends a tar stream.
pub open spec fn is_zero_block(bytes: Seq<u8>, offset: int) -> bool {
    forall|i: int| offset <= i < offset + 512 ==> bytes[i] == 0
}

/// Whether the header block at the given offset is one that can be read: its
/// entry is no sparse file and no extended header that can change a size, and
/// its size field holds a number in octal digits, not in binary form.
pub open spec fn is_tame_header(bytes: Seq<u8>, offset: int) -> bool {
    &&& bytes[offset + 156] != 0x53
    &&& bytes[offset + 156] != 0x78
    &&& bytes[offset + 124] < 0x80
    &&& number_field(bytes.subrange(offset + 124, offset + 136), 8) is Some
}

/// How many bytes an entry of the given size takes: its header block, and its
/// contents filled up to whole blocks.
pub open spec fn entry_span(size: nat) -> int {
    512 + 512 * ((size as int + 511) / 512)
}

/// Whether every header block from the given offset on can be read. The
/// blocks are walked from header to header, up to a block of zero bytes or to
/// where no whole block is left.
pub open spec fn is_tame_from(bytes: Seq<u8>, offset: int) -> bool
    decreases bytes.len() - offset,
{
    if offset < 0 || offset + 512 > bytes.len() {
        true
    } else if is_zero_block(bytes, offset) {
        true
    } else {
        let size = number_field(bytes.subrange(offset + 124, offset + 136), 8)->Some_0;
        if !is_tame_header(bytes, offset) {
            false
        } else if 0 < entry_span(size) <= bytes.len() - offset {
            is_tame_from(bytes, offset + entry_span(size))
        } else {
            true
        }
    }
}

/// Whether every header block of a tar stream can be read.
pub open spec fn is_tame_stream(bytes: Seq<u8>) -> bool {
    is_tame_from(bytes, 0)
}

/// The entries of a tar stream, in order; one unreadable entry where a
/// header block of the stream cannot be read.
pub open spec fn unpacked_items(bytes: Seq<u8>) -> Seq<Option<ItemView>> {
    if is_tame_stream(bytes) {
        tar_listing(bytes)
    } else {
        seq![None]
    }
}

/// Whether the block at the given offset holds zero bytes only.
fn block_is_zero(bytes: &[u8], offset: usize) -> (zero: bool)
    requires
        offset + 512 <= bytes.len(),
    ensures
        zero == is_zero_block(bytes@, offset as int),
{
    let mut i: usize = 0;
    while i < 512
        invariant
            i <= 512,
            offset + 512 <= bytes.len(),
            forall|k: int| offset <= k < offset + i ==> bytes@[k] == 0,
        decreases 512 - i,
    {
        if bytes[offset + i] != 0 {
            return false;
        }
        i += 1;
    }
    true
}

/// Whether every header block of a tar stream can be read.
pub fn check_stream(bytes: &[u8]) -> (tame: bool)
    ensures
        tame == is_tame_stream(bytes@),
{
    let mut offset: usize = 0;
    loop
        invariant
            offset <= bytes.len(),
            is_tame_stream(bytes@) == is_tame_from(bytes@, offset as int),
        decreases bytes.len() - offset,
    {
        if bytes.len() < 512 || offset > bytes.len() - 512 {
            return true;
        }
        if block_is_zero(bytes, offset) {
            return true;
        }
        let kind = bytes[offset + 156];
        if kind == 0x53 || kind == 0x78 || bytes[offset + 124] >= 0x80 {
            return false;
        }
        let size = match read_number(bytes, offset + 124, offset + 136, 8) {
            Some(size) => size,
            None => {
                return false;
            },
        };
        let span: u64 = 512 + 512 * ((size + 511) / 512);
        let ghost next = offset + entry_span(size as nat);
        assert(next == offset + span);
        if span > (bytes.len() - offset) as u64 {
            // The next header would begin behind the end.
            return true;
        }
        offset = offset + span as usize;
    }
}

/// `n` zero bytes.
pub open spec fn zeros(n: int) -> Seq<u8> {
    Seq::new(n as nat, |i: int| 0u8)
}

/// How many zero bytes follow contents of the given length, to fill the last
/// block of 512 bytes.
pub open spec fn tar_padding(len: int) -> int {
    (512 - len % 512) % 512
}

/// `tar::Builder::new` on an empty vector: nothing is written yet.
#[verifier::external_body]
fn writer_new() -> (writer: TarWriter)
    ensures
        tar_written(writer) == Seq::<u8>::empty(),
{
    TarWriter { inner: tar::Builder::new(Vec::new()) }
}

/// `tar::Builder::append`, with a header that `tar::Header::new_gnu` made and
/// that was given the path, the length of the contents as its size, the mode
/// and its checksum. It writes the header block, the contents, and zero bytes
/// up to the end of the block. It fails exactly where the path cannot be
/// represented: writing into a vector does not fail.
#[verifier::external_body]
fn writer_append(writer: &mut TarWriter, path: &str, mode: u32, contents: &[u8]) -> (r: Result<
    (),
    std::io::Error,
>)
    ensures
        r is Ok == tar_gnu_header(path@, mode, contents@.len() as u64) is Some,
        r is Ok ==> (tar_gnu_header(path@, mode, contents@.len() as u64) matches Some(header)
            && tar_written(*final(writer)) == tar_written(*old(writer)) + header + contents@
            + zeros(tar_padding(contents@.len() as int))),
{
    let mut header = tar::Header::new_gnu();
    header.set_path(path)?;
    header.set_size(contents.len() as u64);
    header.set_mode(mode);
    header.set_cksum();
    writer.inner.append(&header, contents)
}

/// `tar::Builder::into_inner`: ends the stream with two blocks of zero bytes
/// and returns all that was written. Writing into a vector does not fail.
#[verifier::external_body]
fn writer_finish(writer: TarWriter) -> (r: Result<Vec<u8>, std::io::Error>)
    ensures
        r is Ok,
        r matches Ok(bytes) ==> bytes@ == tar_written(writer) + zeros(1024),
{
    writer.inner.into_inner()
}

/// `tar::Archive::new` on the given bytes: nothing is read yet.
#[verifier::external_body]
fn tar_open<'a>(bytes: &'a [u8]) -> (archive: TarArchive<'a>)
    ensures
        tar_source(archive) == bytes@,
        tar_fresh(archive),
{
    TarArchive { inner: tar::Archive::new(bytes) }
}

/// `tar::Archive::entries`, on a stream from which nothing has been read: the
/// entries of the stream, from its start. It fails only where something has
/// been read before.
#[verifier::external_body]
fn tar_read<'b, 'a>(archive: &'b mut TarArchive<'a>) -> (r: Result<
    TarEntries<'b, 'a>,
    std::io::Error,
>)
    requires
        tar_fresh(*old(archive)),
    ensures
        r is Ok,
        r matches Ok(entries) ==> tar_left(entries) == tar_listing(tar_source(*old(archive))),
        r matches Ok(entries) ==> tar_entries_source(entries) == tar_source(*old(archive)),
{
    Ok(TarEntries { inner: archive.inner.entries()? })
}

/// The next entry of `tar::Entries`, with its contents read to their end, its
/// path as text and the mode of its header; `None` where no entry is left.
///
/// Every header block of the stream has to be one that can be read: for a
/// sparse file whose size field is in binary form the call can add past the
/// largest offset.
#[verifier::external_body]
fn tar_next<'b, 'a>(entries: &mut TarEntries<'b, 'a>) -> (r: Option<
    Result<TarItem, std::io::Error>,
>)
    requires
        is_tame_stream(tar_entries_source(*old(entries))),
    ensures
        tar_entries_source(*final(entries)) == tar_entries_source(*old(entries)),
        r is None == (tar_left(*old(entries)).len() == 0),
        r is Some ==> tar_left(*final(entries)) == tar_left(*old(entries)).drop_first(),
        r matches Some(Ok(item)) ==> tar_left(*old(entries))[0] == Some(item@),
        r matches Some(Err(_)) ==> tar_left(*old(entries))[0] is None,
{
    let mut entry = match entries.inner.next()? {
        Ok(entry) => entry,
        Err(e) => return Some(Err(e)),
    };
    let mut contents = Vec::new();
    Some(Ok(TarItem {
        contents: entry.read_to_end(&mut contents).ok().map(|_| contents),
        path: entry.path().ok().map(|path| path.display().to_string()),
        mode: entry.header().mode().ok(),
    }))
}

/// The bytes of one entry in a tar stream: its header block, its contents,
/// and the padding; `None` where the path cannot be represented.
pub open spec fn tar_entry(file: FileView) -> Option<Seq<u8>> {
    match tar_gnu_header(file.path, file.mode, file.contents.len() as u64) {
        Some(header) => Some(
            header + file.contents + zeros(tar_padding(file.contents.len() as int)),
        ),
        None => None,
    }
}

/// The bytes of the entries of the given files, in order; `None` where a path
/// cannot be represented.
pub open spec fn tar_entries(files: Seq<FileView>) -> Option<Seq<u8>>
    decreases files.len(),
{
    if files.len() == 0 {
        Some(Seq::empty())
    } else {
        match (tar_entries(files.drop_last()), tar_entry(files.last())) {
            (Some(before), Some(entry)) => Some(before + entry),
            _ => None,
        }
    }
}

/// The tar stream that holds the given files, in order: their entries, then
/// two blocks of zero bytes; `None` where a path cannot be represented.
pub open spec fn tar_stream(files: Seq<FileView>) -> Option<Seq<u8>> {
    match tar_entries(files) {
        Some(entries) => Some(entries + zeros(1024)),
        None => None,
    }
}

/// Once the first files of a list have no entries, the whole list has none.
pub proof fn lemma_tar_entries_stay_none(files: Seq<FileView>, n: int)
    requires
        0 <= n <= files.len(),
        tar_entries(files.take(n)) is None,
    ensures
        tar_entries(files) is None,
    decreases files.len() - n,
{
    if n < files.len() {
        assert(files.take(n + 1).drop_last() == files.take(n));
        lemma_tar_entries_stay_none(files, n + 1);
    } else {
        assert(files.take(n) == files);
    }
}

/// The views of the files in a vector.
pub open spec fn file_views(files: Seq<DebFile>) -> Seq<FileView> {
    Seq::new(files.len(), |i: int| files[i]@)
}

/// Packs files into a tar stream, in order.
///
/// Each file is written under its path, with its mode and the length of its
/// contents as its size. What comes out is the tar stream of the files. The
/// call fails, with `MalformedInnerArchive`, exactly where a path cannot be
/// represented.
pub fn pack(files: &Vec<DebFile>) -> (r: Result<Vec<u8>, DebError>)
    ensures
        match tar_stream(file_views(files@)) {
            Some(bytes) => r is Ok && r->Ok_0@ == bytes,
            None => r == Err::<Vec<u8>, DebError>(DebError::MalformedInnerArchive),
        },
{
    let mut writer = writer_new();
    let mut i: usize = 0;
    while i < files.len()
        invariant
            i <= files.len(),
            tar_entries(file_views(files@).take(i as int)) == Some(tar_written(writer)),
        decreases files.len() - i,
    {
        let file = &files[i];
        proof {
            let next = file_views(files@).take(i + 1);
            assert(next.drop_last() == file_views(files@).take(i as int));
            assert(next.last() == file@);
        }
        match writer_append(
            &mut writer,
            file.path().as_str(),
            *file.mode(),
            file.contents().as_slice(),
        ) {
            Ok(()) => {},
            Err(_) => {
                proof {
                    lemma_tar_entries_stay_none(file_views(files@), i + 1);
                }
                return Err(DebError::MalformedInnerArchive);
            },
        }
        i += 1;
    }
    proof {
        assert(file_views(files@).take(i as int) == file_views(files@));
    }
    match writer_finish(writer) {
        Ok(bytes) => Ok(bytes),
        Err(_) => unreached(),
    }
}

/// Reads the entries of a tar stream, in order. An entry that cannot be read
/// is `None` in the list.
///
/// The header blocks of the stream are looked through first. Where one of
/// them is of a sparse file or of an extended header, or holds its size in
/// another form than octal digits, nothing is read, and the list is one
/// unreadable entry.
pub fn unpack(bytes: &[u8]) -> (items: Vec<Option<TarItem>>)
    ensures
        items_view(items@) == unpacked_items(bytes@),
{
    let mut items: Vec<Option<TarItem>> = Vec::new();
    if !check_stream(bytes) {
        items.push(None);
        assert(items_view(items@) == seq![None::<ItemView>]);
        return items;
    }
    let mut archive = tar_open(bytes);
    let mut entries = match tar_read(&mut archive) {
        Ok(entries) => entries,
        Err(_) => unreached(),
    };
    assert(items_view(items@) + tar_left(entries) == tar_left(entries));
    loop
        invariant
            is_tame_stream(bytes@),
            tar_entries_source(entries) == bytes@,
            tar_listing(bytes@) == items_view(items@) + tar_left(entries),
        decreases tar_left(entries).len(),
    {
        let ghost read = items_view(items@);
        let ghost left = tar_left(entries);
        match tar_next(&mut entries) {
            Some(Ok(item)) => {
                items.push(Some(item));
            },
            Some(Err(_)) => {
                items.push(None);
            },
            None => {
                assert(read + left == read);
                return items;
            },
        }
        assert(items_view(items@) == read.push(left[0]));
        assert(read.push(left[0]) + left.drop_first() == read + left);
    }
}

} // verus!
