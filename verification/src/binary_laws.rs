//! What holds of building a package and reading it back.
use crate::binary::{
    blank_package, built_archive, control_files, data_files, envelope, file_name,
    has_standard_scripts, is_standard_slot, is_xz_name, member_names, read_container, trimmed_name,
    read_control_item, read_control_items, read_data_item, read_data_items, read_package,
    relative_path, script_file, slot_files, unpacked_package, ArchiveView, PackageView,
};
use crate::bundle::{tar_stream, unpacked_items, ItemView};
use crate::compress::decompressed;
use crate::container::MemberView;
use crate::control::control_bytes;
use crate::control_laws::{
    lemma_control_round_trip_of_written_part, survives_writing, written_part,
};
use crate::error::DebError;
use crate::shared::{DebCompression, FileView, MODE_REGULAR};
use crate::text::{leading_run, lemma_last_index_of_is};
use vstd::prelude::*;

verus! {

/// The container of a built package has exactly three members, and the first
/// holds the four bytes of the text `2.0` and a newline. The second holds the
/// control bundle and the third the data bundle.
pub proof fn lemma_envelope(a: ArchiveView)
    ensures
        envelope(a).len() == 3,
        envelope(a)[0].data == seq![0x32u8, 0x2eu8, 0x30u8, 0x0au8],
        envelope(a)[1].data == a.control,
        envelope(a)[2].data == a.data,
        forall|i: int| 0 <= i < 3 ==> envelope(a)[i].mode == MODE_REGULAR,
{
    reveal_strlit("2.0\n");
    let text = "2.0\n"@;
    assert(vstd::utf8::is_ascii_chars(text)) by {
        assert forall|i: int| 0 <= i < text.len() implies (text[i] as nat) < 128 by {
            if i == 0 {
            } else if i == 1 {
            } else if i == 2 {
            } else {
            }
        }
    }
    vstd::utf8::is_ascii_chars_encode_utf8(text);
    assert(vstd::utf8::encode_utf8(text) =~= seq![0x32u8, 0x2eu8, 0x30u8, 0x0au8]);
}

/// The members that reading a container yields for the members that it holds,
/// where it hands back what it was given: the name and the bytes of each.
pub open spec fn stored_members(members: Seq<MemberView>) -> Seq<Option<(Seq<u8>, Seq<u8>)>> {
    Seq::new(members.len(), |i: int| Some((members[i].identifier, members[i].data)))
}

/// The name of the data bundle says which codec the bundles were compressed
/// with.
pub proof fn lemma_member_names(compression: DebCompression)
    ensures
        is_xz_name(member_names(compression).1) == (compression == DebCompression::Xz),
{
    reveal_strlit("data.tar.xz");
    reveal_strlit("data.tar.zst");
    reveal_strlit(".xz");
    let name = member_names(compression).1;
    assert(trimmed_name(name) == name);
    lemma_last_index_of_is(name, '/', -1);
    assert(file_name(name) == name);
    match compression {
        DebCompression::Xz => {
            assert(name.skip(name.len() - 3) =~= ".xz"@);
        },
        DebCompression::Zstd => {
            assert(name.skip(name.len() - 3)[0] == 'z');
        },
    }
}

/// The members of the container of a built package, where the container
/// hands back what it was given, are read as the package that was written.
pub proof fn lemma_container_round_trip(a: ArchiveView)
    ensures
        read_container(stored_members(envelope(a))) == Ok::<ArchiveView, DebError>(a),
{
    let name = member_names(a.compression).1;
    lemma_member_names(a.compression);
    vstd::utf8::encode_utf8_valid_utf8(name);
    vstd::utf8::encode_utf8_decode_utf8(name);
}

/// The entry that an inner archive yields for a file that it holds, where it
/// hands back what it was given: the path, the mode and the contents of the
/// file, all of them readable.
pub open spec fn stored_item(file: FileView) -> Option<ItemView> {
    Some(ItemView { path: Some(file.path), mode: Some(file.mode), contents: Some(file.contents) })
}

/// The entries that an inner archive yields for the files that it holds,
/// where it hands back what it was given.
pub open spec fn stored_items(files: Seq<FileView>) -> Seq<Option<ItemView>> {
    Seq::new(files.len(), |i: int| stored_item(files[i]))
}

/// The packages that are read back as they were built, but for what is never
/// written: what is written of the control record survives writing, every
/// script is as the setters make it, and the path of every content file
/// begins with exactly one separator.
pub open spec fn survives_packing(p: PackageView) -> bool {
    &&& survives_writing(written_part(p.control))
    &&& has_standard_scripts(p)
    &&& forall|i: int| 0 <= i < p.data.len() ==> leading_run((#[trigger] p.data[i]).path, '/') == 1
}

/// A package without what is never written.
pub open spec fn packed_part(p: PackageView) -> PackageView {
    PackageView { control: written_part(p.control), ..p }
}

/// Reading entries one list after another is reading both lists in a row.
pub proof fn lemma_read_control_items_concat(
    p: PackageView,
    seen: bool,
    a: Seq<Option<ItemView>>,
    b: Seq<Option<ItemView>>,
)
    ensures
        read_control_items(p, seen, a + b) == (match read_control_items(p, seen, a) {
            Ok((q, s)) => read_control_items(q, s, b),
            Err(e) => Err(e),
        }),
    decreases b.len(),
{
    if b.len() == 0 {
        assert(a + b == a);
    } else {
        assert((a + b).drop_last() == a + b.drop_last());
        assert((a + b).last() == b.last());
        lemma_read_control_items_concat(p, seen, a, b.drop_last());
    }
}

/// Reading a list of one entry is reading that entry.
proof fn lemma_read_one_control_item(p: PackageView, seen: bool, item: Option<ItemView>)
    ensures
        read_control_items(p, seen, seq![item]) == read_control_item(p, seen, item),
{
    assert(seq![item].drop_last() == Seq::<Option<ItemView>>::empty());
    assert(read_control_items(p, seen, Seq::<Option<ItemView>>::empty()) == Ok::<
        (PackageView, bool),
        DebError,
    >((p, seen)));
}

/// The characters of the names of the entries of a control bundle.
proof fn lemma_entry_names()
    ensures
        "control"@.len() == 7,
        "config"@.len() == 6,
        "preinst"@.len() == 7,
        "postinst"@.len() == 8,
        "prerm"@.len() == 5,
        "postrm"@.len() == 6,
        "control"@[2] == 'n',
        "config"@[2] == 'n',
        "control"@[1] == 'o',
        "preinst"@[1] == 'r',
        "prerm"@[1] == 'r',
        "postrm"@[1] == 'o',
        "postinst"@[1] == 'o',
        "config"@[0] == 'c',
        "postrm"@[0] == 'p',
        "preinst"@[0] == 'p',
        "control"@[0] == 'c',
{
    reveal_strlit("control");
    reveal_strlit("config");
    reveal_strlit("preinst");
    reveal_strlit("postinst");
    reveal_strlit("prerm");
    reveal_strlit("postrm");
}

/// Reading the entry of a script slot after the entries before it.
proof fn lemma_read_slot(
    p: PackageView,
    seen: bool,
    before: Seq<Option<ItemView>>,
    q: PackageView,
    slot: Option<FileView>,
    name: Seq<char>,
    next: PackageView,
)
    requires
        read_control_items(p, seen, before) == Ok::<(PackageView, bool), DebError>((q, true)),
        is_standard_slot(slot, name),
        slot is None ==> next == q,
        slot matches Some(file) ==> read_control_item(q, true, stored_item(file)) == Ok::<
            (PackageView, bool),
            DebError,
        >((next, true)),
    ensures
        read_control_items(p, seen, before + stored_items(slot_files(slot))) == Ok::<
            (PackageView, bool),
            DebError,
        >((next, true)),
{
    let items = stored_items(slot_files(slot));
    lemma_read_control_items_concat(p, seen, before, items);
    match slot {
        Some(file) => {
            assert(items == seq![stored_item(file)]);
            lemma_read_one_control_item(q, true, stored_item(file));
        },
        None => {
            assert(items == Seq::<Option<ItemView>>::empty());
        },
    }
}

/// The entries of the files of a control bundle, slot by slot.
proof fn lemma_control_items(p: PackageView)
    ensures
        stored_items(control_files(p)) == seq![
            stored_item(
                FileView {
                    contents: control_bytes(p.control),
                    mode: MODE_REGULAR,
                    path: "control"@,
                },
            ),
        ] + stored_items(slot_files(p.config)) + stored_items(slot_files(p.preinst))
            + stored_items(slot_files(p.postinst)) + stored_items(slot_files(p.prerm))
            + stored_items(slot_files(p.postrm)),
{
}

/// The entries of a control bundle, where the inner archive hands back what
/// it was given, are read as the control record and the scripts that were
/// written.
pub proof fn lemma_control_entries_round_trip(p: PackageView)
    requires
        survives_packing(p),
    ensures
        read_control_items(
            blank_package(Seq::empty(), p.compression),
            false,
            stored_items(control_files(p)),
        ) == Ok::<(PackageView, bool), DebError>(
            ((PackageView { data: Seq::empty(), ..packed_part(p) }), true),
        ),
{
    lemma_entry_names();
    lemma_control_items(p);
    lemma_control_round_trip_of_written_part(p.control);
    let start = blank_package(Seq::empty(), p.compression);
    let control_file = FileView {
        contents: control_bytes(p.control),
        mode: MODE_REGULAR,
        path: "control"@,
    };
    let items0 = seq![stored_item(control_file)];
    let read0 = PackageView { control: written_part(p.control), ..start };
    lemma_read_one_control_item(start, false, stored_item(control_file));
    let items1 = items0 + stored_items(slot_files(p.config));
    let read1 = PackageView { config: p.config, ..read0 };
    lemma_read_slot(start, false, items0, read0, p.config, "config"@, read1);
    let items2 = items1 + stored_items(slot_files(p.preinst));
    let read2 = PackageView { preinst: p.preinst, ..read1 };
    lemma_read_slot(start, false, items1, read1, p.preinst, "preinst"@, read2);
    let items3 = items2 + stored_items(slot_files(p.postinst));
    let read3 = PackageView { postinst: p.postinst, ..read2 };
    lemma_read_slot(start, false, items2, read2, p.postinst, "postinst"@, read3);
    let items4 = items3 + stored_items(slot_files(p.prerm));
    let read4 = PackageView { prerm: p.prerm, ..read3 };
    lemma_read_slot(start, false, items3, read3, p.prerm, "prerm"@, read4);
    let items5 = items4 + stored_items(slot_files(p.postrm));
    let read5 = PackageView { postrm: p.postrm, ..read4 };
    lemma_read_slot(start, false, items4, read4, p.postrm, "postrm"@, read5);
    assert(read5 == (PackageView { data: Seq::empty(), ..packed_part(p) }));
}

/// The entries of a data bundle, where the inner archive hands back what it
/// was given, are read as the files that were written, each under its path
/// with the separator before it.
pub proof fn lemma_data_entries(files: Seq<FileView>)
    ensures
        read_data_items(stored_items(files)) == Ok::<Seq<FileView>, DebError>(
            Seq::new(
                files.len(),
                |i: int| FileView { path: seq!['/'] + files[i].path, ..files[i] },
            ),
        ),
    decreases files.len(),
{
    let read = Seq::new(
        files.len(),
        |i: int| FileView { path: seq!['/'] + files[i].path, ..files[i] },
    );
    if files.len() == 0 {
        assert(read == Seq::<FileView>::empty());
    } else {
        let front = files.drop_last();
        lemma_data_entries(front);
        assert(stored_items(files).drop_last() == stored_items(front));
        assert(stored_items(files).last() == stored_item(files.last()));
        let read_front = Seq::new(
            front.len(),
            |i: int| FileView { path: seq!['/'] + front[i].path, ..front[i] },
        );
        assert(read == read_front.push(
            FileView { path: seq!['/'] + files.last().path, ..files.last() },
        ));
    }
}

/// The entries of the two bundles of a package, where the inner archives hand
/// back what they were given, are read as the package that was built, but for
/// what is never written.
pub proof fn lemma_entries_round_trip(p: PackageView)
    requires
        survives_packing(p),
    ensures
        read_package(
            p.compression,
            stored_items(control_files(p)),
            stored_items(data_files(p)),
        ) == Ok::<PackageView, DebError>(packed_part(p)),
{
    lemma_control_entries_round_trip(p);
    lemma_data_entries(data_files(p));
    let read = Seq::new(
        data_files(p).len(),
        |i: int| FileView { path: seq!['/'] + data_files(p)[i].path, ..data_files(p)[i] },
    );
    assert(read =~= p.data) by {
        assert forall|i: int| 0 <= i < p.data.len() implies read[i] == p.data[i] by {
            let path = p.data[i].path;
            assert(leading_run(path, '/') == 1);
            assert(path.len() > 0 && path[0] == '/');
            assert(relative_path(path) == path.skip(1));
            assert(seq!['/'] + path.skip(1) =~= path);
        }
    }
}

/// Building a package and reading it back gives the package that was built,
/// but for what is never written.
///
/// `a` is the archive that `build` returns for `p`, with what `build` says of
/// it: each bundle decompresses to the tar stream of its files. That
/// unpacking those tar streams yields the entries that were written to them
/// is taken from the tar format, and asked for here.
pub proof fn lemma_package_round_trip(p: PackageView, a: ArchiveView)
    requires
        survives_packing(p),
        built_archive(p) == Some(a),
        decompressed(a.compression, a.control) == tar_stream(control_files(p)),
        decompressed(a.compression, a.data) == tar_stream(data_files(p)),
        unpacked_items(tar_stream(control_files(p))->Some_0) == stored_items(control_files(p)),
        unpacked_items(tar_stream(data_files(p))->Some_0) == stored_items(data_files(p)),
    ensures
        unpacked_package(a) == Ok::<PackageView, DebError>(packed_part(p)),
{
    lemma_entries_round_trip(p);
}

} // verus!
