//! Build and read binary Deb packages.
//!
//! Binary packages contain executable programs, documentation for said executables,
//! configuration files, libraries, etc. Basically, anything that's not source code.
use crate::bundle::{
    file_views, item_view, items_view, pack, tar_stream, unpack, unpacked_items, ItemView,
    TarItem,
};
use crate::compress::{compress, compressed, decompress, decompressed};
use crate::container::{
    ar_append, ar_encoding, ar_finish, ar_listing, ar_next, ar_open, ar_writer_new,
    check_container, is_plain_container, ArMember, MemberView,
};
use crate::control::{
    blank_record, control_bytes, parse_control_bytes, string_from_utf8, text_pairs, texts,
    ControlView, DebControl,
};
use crate::error::DebError;
use crate::shared::{
    str_is, DebArchitecture, DebCompression, DebFile, DebPriority, FileView, MODE_EXECUTABLE,
    MODE_REGULAR,
};
use crate::text::{after_last_char, chars_of, count_leading, last_index_of, leading_run};
use vstd::prelude::*;
use vstd::string::{StrSliceExecFns, StringExecFns};

verus! {

/// What a package holds, as mathematical values.
pub struct PackageView {
    /// The package's metadata.
    pub control: ControlView,
    /// The package's contents, in order.
    pub data: Seq<FileView>,
    /// The package's config script.
    pub config: Option<FileView>,
    /// The package's preinstall script.
    pub preinst: Option<FileView>,
    /// The package's postinstall script.
    pub postinst: Option<FileView>,
    /// The package's preuninstall script.
    pub prerm: Option<FileView>,
    /// The package's postuninstall script.
    pub postrm: Option<FileView>,
    /// The package's compression standard.
    pub compression: DebCompression,
}

/// What a built package holds, as mathematical values.
pub struct ArchiveView {
    /// The compressed control bundle.
    pub control: Seq<u8>,
    /// The compressed data bundle.
    pub data: Seq<u8>,
    /// The codec that both were compressed with.
    pub compression: DebCompression,
}

/// A high-level structure representing a Deb package.
///
/// For binary package's, it may be helpful to read
/// [Debian's documentation on binary packages' metadata][1].
///
/// As well, you can read Debian's definition for the package's
/// [maintainer scripts][2].
///
/// [1]: https://www.debian.org/doc/debian-policy/ch-controlfields.html#binary-package-control-files-debian-control
/// [2]: https://www.debian.org/doc/debian-policy/ch-binary.html#maintainer-scripts
#[derive(Debug)]
pub struct DebPackage {
    control: DebControl,  // Package's metadata
    data: Vec<DebFile>,  // Package's contents
    config: Option<DebFile>,  // Package's config script
    preinst: Option<DebFile>,  // Package's preinstall script
    postinst: Option<DebFile>,  // Package's postinstall script
    prerm: Option<DebFile>,  // Package's preuninstall script
    postrm: Option<DebFile>,  // Package's postuninstall script
    compression: DebCompression,  // Configures the package's compression standard
}

/// An intermediary layer between the DebPackage struct and an actual .deb file.
///
/// The contents of a DebArchive cannot be directly manipulated. To modify a DebArchive,
/// you must first convert it to a DebPackage with the `to_package()` method, or read
/// the file's bytes using DebPackage's `from()` function.
#[derive(Debug)]
pub struct DebArchive {
    control: Vec<u8>,  // Compressed tar archive containing package's metadata
    data: Vec<u8>,  // Compressed tar archive containing the package's contents
    compression: DebCompression,  // Configuration for the package's compression standard
}

/// The view of a script slot.
pub open spec fn slot_view(slot: Option<DebFile>) -> Option<FileView> {
    match slot {
        Some(file) => Some(file@),
        None => None,
    }
}

impl View for DebPackage {
    type V = PackageView;

    closed spec fn view(&self) -> PackageView {
        PackageView {
            control: self.control@,
            data: file_views(self.data@),
            config: slot_view(self.config),
            preinst: slot_view(self.preinst),
            postinst: slot_view(self.postinst),
            prerm: slot_view(self.prerm),
            postrm: slot_view(self.postrm),
            compression: self.compression,
        }
    }
}

impl View for DebArchive {
    type V = ArchiveView;

    closed spec fn view(&self) -> ArchiveView {
        ArchiveView { control: self.control@, data: self.data@, compression: self.compression }
    }
}

/// The texts that a vector of string slices holds.
pub open spec fn strs(v: Seq<&str>) -> Seq<Seq<char>> {
    Seq::new(v.len(), |i: int| v[i]@)
}

/// A maintainer script: the given bytes under the given name, executable.
pub open spec fn script_file(contents: Seq<u8>, name: Seq<char>) -> FileView {
    FileView { contents: contents, mode: MODE_EXECUTABLE, path: name }
}

/// Whether a script slot is empty or holds a script as the setters make it:
/// under its fixed name, executable.
pub open spec fn is_standard_slot(slot: Option<FileView>, name: Seq<char>) -> bool {
    slot matches Some(file) ==> file == script_file(file.contents, name)
}

/// Whether every script of a package is as the setters make it. This holds of
/// every [`DebPackage`].
pub open spec fn has_standard_scripts(p: PackageView) -> bool {
    &&& is_standard_slot(p.config, "config"@)
    &&& is_standard_slot(p.preinst, "preinst"@)
    &&& is_standard_slot(p.postinst, "postinst"@)
    &&& is_standard_slot(p.prerm, "prerm"@)
    &&& is_standard_slot(p.postrm, "postrm"@)
}

/// A package of the given name and codec with nothing else set.
pub open spec fn blank_package(name: Seq<char>, compression: DebCompression) -> PackageView {
    PackageView {
        control: blank_record(name),
        data: Seq::empty(),
        config: None,
        preinst: None,
        postinst: None,
        prerm: None,
        postrm: None,
        compression: compression,
    }
}

/// The file of a script slot, if there is one.
pub open spec fn slot_files(slot: Option<FileView>) -> Seq<FileView> {
    match slot {
        Some(file) => seq![file],
        None => Seq::empty(),
    }
}

/// The files of the control bundle, in order: the control record as the file
/// `control`, then each maintainer script that the package has.
pub open spec fn control_files(p: PackageView) -> Seq<FileView> {
    seq![FileView { contents: control_bytes(p.control), mode: MODE_REGULAR, path: "control"@ }]
        + slot_files(p.config) + slot_files(p.preinst) + slot_files(p.postinst) + slot_files(
        p.prerm,
    ) + slot_files(p.postrm)
}

/// The path under which a file is stored in the data bundle: its destination
/// without the separators that it begins with.
pub open spec fn relative_path(path: Seq<char>) -> Seq<char> {
    path.skip(leading_run(path, '/'))
}

/// The files of the data bundle, in order: every content file, under its
/// relative path, with its mode and contents as they are.
pub open spec fn data_files(p: PackageView) -> Seq<FileView> {
    Seq::new(
        p.data.len(),
        |i: int| FileView { path: relative_path(p.data[i].path), ..p.data[i] },
    )
}

/// The package after one entry of the control bundle, and whether a control
/// record has been read. The entry has to be readable. The entry `control`
/// gives the control record, an entry named after a maintainer script gives
/// that script, and any other entry is passed over.
pub open spec fn read_control_item(p: PackageView, seen: bool, item: Option<ItemView>) -> Result<
    (PackageView, bool),
    DebError,
> {
    match item {
        Some(ItemView { path: Some(path), mode: _, contents: Some(contents) }) => {
            if path == "control"@ {
                match parse_control_bytes(contents) {
                    Ok(control) => Ok((PackageView { control: control, ..p }, true)),
                    Err(e) => Err(e),
                }
            } else if path == "config"@ {
                Ok((PackageView { config: Some(script_file(contents, "config"@)), ..p }, seen))
            } else if path == "preinst"@ {
                Ok((PackageView { preinst: Some(script_file(contents, "preinst"@)), ..p }, seen))
            } else if path == "postinst"@ {
                Ok((PackageView { postinst: Some(script_file(contents, "postinst"@)), ..p }, seen))
            } else if path == "prerm"@ {
                Ok((PackageView { prerm: Some(script_file(contents, "prerm"@)), ..p }, seen))
            } else if path == "postrm"@ {
                Ok((PackageView { postrm: Some(script_file(contents, "postrm"@)), ..p }, seen))
            } else {
                Ok((p, seen))
            }
        },
        _ => Err(DebError::MalformedInnerArchive),
    }
}

/// The package after the entries of the control bundle, taken in order, and
/// whether a control record has been read. The first entry that fails decides
/// the error.
pub open spec fn read_control_items(
    p: PackageView,
    seen: bool,
    items: Seq<Option<ItemView>>,
) -> Result<(PackageView, bool), DebError>
    decreases items.len(),
{
    if items.len() == 0 {
        Ok((p, seen))
    } else {
        match read_control_items(p, seen, items.drop_last()) {
            Ok((q, s)) => read_control_item(q, s, items.last()),
            Err(e) => Err(e),
        }
    }
}

/// The content file that an entry of the data bundle stands for: its
/// contents and mode, and its path with the separator put before it. The entry
/// has to be readable.
pub open spec fn read_data_item(item: Option<ItemView>) -> Result<FileView, DebError> {
    match item {
        Some(ItemView { path: Some(path), mode: Some(mode), contents: Some(contents) }) => Ok(
            FileView { contents: contents, mode: mode, path: seq!['/'] + path },
        ),
        _ => Err(DebError::MalformedInnerArchive),
    }
}

/// The content files that the entries of the data bundle stand for, in order.
/// The first entry that fails decides the error.
pub open spec fn read_data_items(items: Seq<Option<ItemView>>) -> Result<Seq<FileView>, DebError>
    decreases items.len(),
{
    if items.len() == 0 {
        Ok(Seq::empty())
    } else {
        match read_data_items(items.drop_last()) {
            Ok(files) => match read_data_item(items.last()) {
                Ok(file) => Ok(files.push(file)),
                Err(e) => Err(e),
            },
            Err(e) => Err(e),
        }
    }
}

/// The package that the entries of the two bundles stand for. The control
/// bundle is read first and has to hold a control record; without one the
/// error is `MalformedInnerArchive`.
pub open spec fn read_package(
    compression: DebCompression,
    control_items: Seq<Option<ItemView>>,
    data_items: Seq<Option<ItemView>>,
) -> Result<PackageView, DebError> {
    match read_control_items(blank_package(Seq::empty(), compression), false, control_items) {
        Ok((p, seen)) => {
            if !seen {
                Err(DebError::MalformedInnerArchive)
            } else {
                match read_data_items(data_items) {
                    Ok(files) => Ok(PackageView { data: files, ..p }),
                    Err(e) => Err(e),
                }
            }
        },
        Err(e) => Err(e),
    }
}

/// The package that a built package stands for. Both bundles are decompressed
/// first, with `CorruptCompressedStream` where one cannot be; then both are
/// unpacked as tar streams, and their entries are read.
pub open spec fn unpacked_package(a: ArchiveView) -> Result<PackageView, DebError> {
    match (decompressed(a.compression, a.control), decompressed(a.compression, a.data)) {
        (Some(control), Some(data)) => read_package(
            a.compression,
            unpacked_items(control),
            unpacked_items(data),
        ),
        _ => Err(DebError::CorruptCompressedStream),
    }
}

/// The built package of a package: its two bundles as tar streams, each
/// compressed with the package's codec. There is none where a path cannot be
/// represented in a bundle.
pub open spec fn built_archive(p: PackageView) -> Option<ArchiveView> {
    match (tar_stream(control_files(p)), tar_stream(data_files(p))) {
        (Some(control), Some(data)) => Some(
            ArchiveView {
                control: compressed(p.compression, control),
                data: compressed(p.compression, data),
                compression: p.compression,
            },
        ),
        _ => None,
    }
}

/// Once the first entries of a control bundle fail, the whole bundle fails
/// in the same way.
pub proof fn lemma_read_control_items_stay_err(
    p: PackageView,
    seen: bool,
    items: Seq<Option<ItemView>>,
    n: int,
)
    requires
        0 <= n <= items.len(),
        read_control_items(p, seen, items.take(n)) is Err,
    ensures
        read_control_items(p, seen, items) == read_control_items(p, seen, items.take(n)),
    decreases items.len() - n,
{
    if n < items.len() {
        assert(items.take(n + 1).drop_last() == items.take(n));
        lemma_read_control_items_stay_err(p, seen, items, n + 1);
    } else {
        assert(items.take(n) == items);
    }
}

/// Once the first entries of a data bundle fail, the whole bundle fails in the
/// same way.
pub proof fn lemma_read_data_items_stay_err(items: Seq<Option<ItemView>>, n: int)
    requires
        0 <= n <= items.len(),
        read_data_items(items.take(n)) is Err,
    ensures
        read_data_items(items) == read_data_items(items.take(n)),
    decreases items.len() - n,
{
    if n < items.len() {
        assert(items.take(n + 1).drop_last() == items.take(n));
        lemma_read_data_items_stay_err(items, n + 1);
    } else {
        assert(items.take(n) == items);
    }
}

/// Appends a text to a list of strings.
fn push_text(list: &mut Vec<String>, item: &str)
    ensures
        texts(final(list)@) == texts(old(list)@).push(item@),
{
    list.push(String::from_str(item));
    assert(texts(list@) =~= texts(old(list)@).push(item@));
}

/// Appends texts to a list of strings, in order.
fn extend_texts(list: &mut Vec<String>, items: &Vec<&str>)
    ensures
        texts(final(list)@) == texts(old(list)@) + strs(items@),
{
    let mut i: usize = 0;
    assert(texts(list@) =~= texts(old(list)@) + strs(items@).take(0));
    while i < items.len()
        invariant
            i <= items.len(),
            texts(list@) == texts(old(list)@) + strs(items@).take(i as int),
        decreases items.len() - i,
    {
        let ghost before = texts(list@);
        list.push(String::from_str(items[i]));
        assert(texts(list@) =~= before.push(items@[i as int]@));
        assert(strs(items@).take(i + 1) =~= strs(items@).take(i as int).push(items@[i as int]@));
        i += 1;
    }
    assert(strs(items@).take(i as int) =~= strs(items@));
}

impl DebPackage {
    /// Every script is stored under its fixed name and is executable.
    #[verifier::type_invariant]
    spec fn scripts_are_standard(self) -> bool {
        &&& is_standard_slot(slot_view(self.config), "config"@)
        &&& is_standard_slot(slot_view(self.preinst), "preinst"@)
        &&& is_standard_slot(slot_view(self.postinst), "postinst"@)
        &&& is_standard_slot(slot_view(self.prerm), "prerm"@)
        &&& is_standard_slot(slot_view(self.postrm), "postrm"@)
    }

    /// Creates a new DebPackage with `name` as it's name.
    pub fn new(name: &str) -> (package: Self)
        ensures
            package@ == blank_package(name@, DebCompression::Zstd),
    {
        let package = Self {
            control: DebControl::new(name),
            data: Vec::new(),
            config: None,
            preinst: None,
            postinst: None,
            prerm: None,
            postrm: None,
            compression: DebCompression::Zstd,
        };
        assert(package@.data =~= Seq::<FileView>::empty());
        package
    }

    /// Sets the package's name.
    pub fn set_name(self, name: &str) -> (package: Self)
        ensures
            package@ == (PackageView {
                control: (ControlView {
                    name: name@,
                    ..self@.control
                }),
                ..self@
            }),
    {
        proof {
            use_type_invariant(&self);
        }
        let DebPackage { control, data, config, preinst, postinst, prerm, postrm, compression } =
            self;
        let mut control = control;
        control.name = String::from_str(name);
        DebPackage { control, data, config, preinst, postinst, prerm, postrm, compression }
    }

    /// Sets the package's version.
    pub fn set_version(self, version: &str) -> (package: Self)
        ensures
            package@ == (PackageView {
                control: (ControlView {
                    version: version@,
                    ..self@.control
                }),
                ..self@
            }),
    {
        proof {
            use_type_invariant(&self);
        }
        let DebPackage { control, data, config, preinst, postinst, prerm, postrm, compression } =
            self;
        let mut control = control;
        control.version = String::from_str(version);
        DebPackage { control, data, config, preinst, postinst, prerm, postrm, compression }
    }

    /// Sets the package's priority.
    pub fn set_priority(self, priority: DebPriority) -> (package: Self)
        ensures
            package@ == (PackageView {
                control: (ControlView {
                    priority: priority,
                    ..self@.control
                }),
                ..self@
            }),
    {
        proof {
            use_type_invariant(&self);
        }
        let DebPackage { control, data, config, preinst, postinst, prerm, postrm, compression } =
            self;
        let mut control = control;
        control.priority = priority;
        DebPackage { control, data, config, preinst, postinst, prerm, postrm, compression }
    }

    /// Sets the package's architecture.
    pub fn set_architecture(self, architecture: DebArchitecture) -> (package: Self)
        ensures
            package@ == (PackageView {
                control: (ControlView {
                    architecture: architecture,
                    ..self@.control
                }),
                ..self@
            }),
    {
        proof {
            use_type_invariant(&self);
        }
        let DebPackage { control, data, config, preinst, postinst, prerm, postrm, compression } =
            self;
        let mut control = control;
        control.architecture = architecture;
        DebPackage { control, data, config, preinst, postinst, prerm, postrm, compression }
    }

    /// Sets whether the package is essential.
    pub fn set_essential(self, essential: bool) -> (package: Self)
        ensures
            package@ == (PackageView {
                control: (ControlView {
                    essential: essential,
                    ..self@.control
                }),
                ..self@
            }),
    {
        proof {
            use_type_invariant(&self);
        }
        let DebPackage { control, data, config, preinst, postinst, prerm, postrm, compression } =
            self;
        let mut control = control;
        control.essential = essential;
        DebPackage { control, data, config, preinst, postinst, prerm, postrm, compression }
    }

    /// Adds a single dependency from &str.
    pub fn with_depend(self, item: &str) -> (package: Self)
        ensures
            package@ == (PackageView {
                control: (ControlView {
                    depends: self@.control.depends.push(item@),
                    ..self@.control
                }),
                ..self@
            }),
    {
        proof {
            use_type_invariant(&self);
        }
        let DebPackage { control, data, config, preinst, postinst, prerm, postrm, compression } =
            self;
        let mut control = control;
        push_text(&mut control.depends, item);
        DebPackage { control, data, config, preinst, postinst, prerm, postrm, compression }
    }

    /// Adds a number of dependencies from Vec<&str>.
    pub fn with_depends(self, items: Vec<&str>) -> (package: Self)
        ensures
            package@ == (PackageView {
                control: (ControlView {
                    depends: self@.control.depends + strs(items@),
                    ..self@.control
                }),
                ..self@
            }),
    {
        proof {
            use_type_invariant(&self);
        }
        let DebPackage { control, data, config, preinst, postinst, prerm, postrm, compression } =
            self;
        let mut control = control;
        extend_texts(&mut control.depends, &items);
        DebPackage { control, data, config, preinst, postinst, prerm, postrm, compression }
    }

    /// Resets dependencies.
    pub fn no_depends(self) -> (package: Self)
        ensures
            package@ == (PackageView {
                control: (ControlView { depends: Seq::empty(), ..self@.control }),
                ..self@
            }),
    {
        proof {
            use_type_invariant(&self);
        }
        let DebPackage { control, data, config, preinst, postinst, prerm, postrm, compression } =
            self;
        let mut control = control;
        control.depends = Vec::new();
        assert(texts(control.depends@) =~= Seq::<Seq<char>>::empty());
        DebPackage { control, data, config, preinst, postinst, prerm, postrm, compression }
    }

    /// Adds a single pre-dependency from &str.
    pub fn with_pre_depend(self, item: &str) -> (package: Self)
        ensures
            package@ == (PackageView {
                control: (ControlView {
                    pre_depends: self@.control.pre_depends.push(item@),
                    ..self@.control
                }),
                ..self@
            }),
    {
        proof {
            use_type_invariant(&self);
        }
        let DebPackage { control, data, config, preinst, postinst, prerm, postrm, compression } =
            self;
        let mut control = control;
        push_text(&mut control.pre_depends, item);
        DebPackage { control, data, config, preinst, postinst, prerm, postrm, compression }
    }

    /// Adds a number of pre-dependencies from Vec<&str>.
    pub fn with_pre_depends(self, items: Vec<&str>) -> (package: Self)
        ensures
            package@ == (PackageView {
                control: (ControlView {
                    pre_depends: self@.control.pre_depends + strs(items@),
                    ..self@.control
                }),
                ..self@
            }),
    {
        proof {
            use_type_invariant(&self);
        }
        let DebPackage { control, data, config, preinst, postinst, prerm, postrm, compression } =
            self;
        let mut control = control;
        extend_texts(&mut control.pre_depends, &items);
        DebPackage { control, data, config, preinst, postinst, prerm, postrm, compression }
    }

    /// Resets pre-dependencies.
    pub fn no_pre_depends(self) -> (package: Self)
        ensures
            package@ == (PackageView {
                control: (ControlView { pre_depends: Seq::empty(), ..self@.control }),
                ..self@
            }),
    {
        proof {
            use_type_invariant(&self);
        }
        let DebPackage { control, data, config, preinst, postinst, prerm, postrm, compression } =
            self;
        let mut control = control;
        control.pre_depends = Vec::new();
        assert(texts(control.pre_depends@) =~= Seq::<Seq<char>>::empty());
        DebPackage { control, data, config, preinst, postinst, prerm, postrm, compression }
    }

    /// Adds a single recommend from &str.
    pub fn with_recommend(self, item: &str) -> (package: Self)
        ensures
            package@ == (PackageView {
                control: (ControlView {
                    recommends: self@.control.recommends.push(item@),
                    ..self@.control
                }),
                ..self@
            }),
    {
        proof {
            use_type_invariant(&self);
        }
        let DebPackage { control, data, config, preinst, postinst, prerm, postrm, compression } =
            self;
        let mut control = control;
        push_text(&mut control.recommends, item);
        DebPackage { control, data, config, preinst, postinst, prerm, postrm, compression }
    }

    /// Adds a number of recommends from Vec<&str>.
    pub fn with_recommends(self, items: Vec<&str>) -> (package: Self)
        ensures
            package@ == (PackageView {
                control: (ControlView {
                    recommends: self@.control.recommends + strs(items@),
                    ..self@.control
                }),
                ..self@
            }),
    {
        proof {
            use_type_invariant(&self);
        }
        let DebPackage { control, data, config, preinst, postinst, prerm, postrm, compression } =
            self;
        let mut control = control;
        extend_texts(&mut control.recommends, &items);
        DebPackage { control, data, config, preinst, postinst, prerm, postrm, compression }
    }

    /// Resets recommends.
    pub fn no_recommends(self) -> (package: Self)
        ensures
            package@ == (PackageView {
                control: (ControlView { recommends: Seq::empty(), ..self@.control }),
                ..self@
            }),
    {
        proof {
            use_type_invariant(&self);
        }
        let DebPackage { control, data, config, preinst, postinst, prerm, postrm, compression } =
            self;
        let mut control = control;
        control.recommends = Vec::new();
        assert(texts(control.recommends@) =~= Seq::<Seq<char>>::empty());
        DebPackage { control, data, config, preinst, postinst, prerm, postrm, compression }
    }

    /// Adds a single suggest from &str.
    pub fn with_suggest(self, item: &str) -> (package: Self)
        ensures
            package@ == (PackageView {
                control: (ControlView {
                    suggests: self@.control.suggests.push(item@),
                    ..self@.control
                }),
                ..self@
            }),
    {
        proof {
            use_type_invariant(&self);
        }
        let DebPackage { control, data, config, preinst, postinst, prerm, postrm, compression } =
            self;
        let mut control = control;
        push_text(&mut control.suggests, item);
        DebPackage { control, data, config, preinst, postinst, prerm, postrm, compression }
    }

    /// Adds a number of suggests from Vec<&str>.
    pub fn with_suggests(self, items: Vec<&str>) -> (package: Self)
        ensures
            package@ == (PackageView {
                control: (ControlView {
                    suggests: self@.control.suggests + strs(items@),
                    ..self@.control
                }),
                ..self@
            }),
    {
        proof {
            use_type_invariant(&self);
        }
        let DebPackage { control, data, config, preinst, postinst, prerm, postrm, compression } =
            self;
        let mut control = control;
        extend_texts(&mut control.suggests, &items);
        DebPackage { control, data, config, preinst, postinst, prerm, postrm, compression }
    }

    /// Resets suggests.
    pub fn no_suggests(self) -> (package: Self)
        ensures
            package@ == (PackageView {
                control: (ControlView { suggests: Seq::empty(), ..self@.control }),
                ..self@
            }),
    {
        proof {
            use_type_invariant(&self);
        }
        let DebPackage { control, data, config, preinst, postinst, prerm, postrm, compression } =
            self;
        let mut control = control;
        control.suggests = Vec::new();
        assert(texts(control.suggests@) =~= Seq::<Seq<char>>::empty());
        DebPackage { control, data, config, preinst, postinst, prerm, postrm, compression }
    }

    /// Adds a single break from &str.
    pub fn with_break(self, item: &str) -> (package: Self)
        ensures
            package@ == (PackageView {
                control: (ControlView {
                    breaks: self@.control.breaks.push(item@),
                    ..self@.control
                }),
                ..self@
            }),
    {
        proof {
            use_type_invariant(&self);
        }
        let DebPackage { control, data, config, preinst, postinst, prerm, postrm, compression } =
            self;
        let mut control = control;
        push_text(&mut control.breaks, item);
        DebPackage { control, data, config, preinst, postinst, prerm, postrm, compression }
    }

    /// Adds a number of breaks from Vec<&str>.
    pub fn with_breaks(self, items: Vec<&str>) -> (package: Self)
        ensures
            package@ == (PackageView {
                control: (ControlView {
                    breaks: self@.control.breaks + strs(items@),
                    ..self@.control
                }),
                ..self@
            }),
    {
        proof {
            use_type_invariant(&self);
        }
        let DebPackage { control, data, config, preinst, postinst, prerm, postrm, compression } =
            self;
        let mut control = control;
        extend_texts(&mut control.breaks, &items);
        DebPackage { control, data, config, preinst, postinst, prerm, postrm, compression }
    }

    /// Resets breaks.
    pub fn no_breaks(self) -> (package: Self)
        ensures
            package@ == (PackageView {
                control: (ControlView { breaks: Seq::empty(), ..self@.control }),
                ..self@
            }),
    {
        proof {
            use_type_invariant(&self);
        }
        let DebPackage { control, data, config, preinst, postinst, prerm, postrm, compression } =
            self;
        let mut control = control;
        control.breaks = Vec::new();
        assert(texts(control.breaks@) =~= Seq::<Seq<char>>::empty());
        DebPackage { control, data, config, preinst, postinst, prerm, postrm, compression }
    }

    /// Adds a single conflict from &str.
    pub fn with_conflict(self, item: &str) -> (package: Self)
        ensures
            package@ == (PackageView {
                control: (ControlView {
                    conflicts: self@.control.conflicts.push(item@),
                    ..self@.control
                }),
                ..self@
            }),
    {
        proof {
            use_type_invariant(&self);
        }
        let DebPackage { control, data, config, preinst, postinst, prerm, postrm, compression } =
            self;
        let mut control = control;
        push_text(&mut control.conflicts, item);
        DebPackage { control, data, config, preinst, postinst, prerm, postrm, compression }
    }

    /// Adds a number of conflicts from Vec<&str>.
    pub fn with_conflicts(self, items: Vec<&str>) -> (package: Self)
        ensures
            package@ == (PackageView {
                control: (ControlView {
                    conflicts: self@.control.conflicts + strs(items@),
                    ..self@.control
                }),
                ..self@
            }),
    {
        proof {
            use_type_invariant(&self);
        }
        let DebPackage { control, data, config, preinst, postinst, prerm, postrm, compression } =
            self;
        let mut control = control;
        extend_texts(&mut control.conflicts, &items);
        DebPackage { control, data, config, preinst, postinst, prerm, postrm, compression }
    }

    /// Resets conflicts.
    pub fn no_conflicts(self) -> (package: Self)
        ensures
            package@ == (PackageView {
                control: (ControlView { conflicts: Seq::empty(), ..self@.control }),
                ..self@
            }),
    {
        proof {
            use_type_invariant(&self);
        }
        let DebPackage { control, data, config, preinst, postinst, prerm, postrm, compression } =
            self;
        let mut control = control;
        control.conflicts = Vec::new();
        assert(texts(control.conflicts@) =~= Seq::<Seq<char>>::empty());
        DebPackage { control, data, config, preinst, postinst, prerm, postrm, compression }
    }

    /// Adds a single provide from &str.
    pub fn with_provide(self, item: &str) -> (package: Self)
        ensures
            package@ == (PackageView {
                control: (ControlView {
                    provides: self@.control.provides.push(item@),
                    ..self@.control
                }),
                ..self@
            }),
    {
        proof {
            use_type_invariant(&self);
        }
        let DebPackage { control, data, config, preinst, postinst, prerm, postrm, compression } =
            self;
        let mut control = control;
        push_text(&mut control.provides, item);
        DebPackage { control, data, config, preinst, postinst, prerm, postrm, compression }
    }

    /// Adds a number of provides from Vec<&str>.
    pub fn with_provides(self, items: Vec<&str>) -> (package: Self)
        ensures
            package@ == (PackageView {
                control: (ControlView {
                    provides: self@.control.provides + strs(items@),
                    ..self@.control
                }),
                ..self@
            }),
    {
        proof {
            use_type_invariant(&self);
        }
        let DebPackage { control, data, config, preinst, postinst, prerm, postrm, compression } =
            self;
        let mut control = control;
        extend_texts(&mut control.provides, &items);
        DebPackage { control, data, config, preinst, postinst, prerm, postrm, compression }
    }

    /// Resets provides.
    pub fn no_provides(self) -> (package: Self)
        ensures
            package@ == (PackageView {
                control: (ControlView { provides: Seq::empty(), ..self@.control }),
                ..self@
            }),
    {
        proof {
            use_type_invariant(&self);
        }
        let DebPackage { control, data, config, preinst, postinst, prerm, postrm, compression } =
            self;
        let mut control = control;
        control.provides = Vec::new();
        assert(texts(control.provides@) =~= Seq::<Seq<char>>::empty());
        DebPackage { control, data, config, preinst, postinst, prerm, postrm, compression }
    }

    /// Adds a single replace from &str.
    pub fn with_replace(self, item: &str) -> (package: Self)
        ensures
            package@ == (PackageView {
                control: (ControlView {
                    replaces: self@.control.replaces.push(item@),
                    ..self@.control
                }),
                ..self@
            }),
    {
        proof {
            use_type_invariant(&self);
        }
        let DebPackage { control, data, config, preinst, postinst, prerm, postrm, compression } =
            self;
        let mut control = control;
        push_text(&mut control.replaces, item);
        DebPackage { control, data, config, preinst, postinst, prerm, postrm, compression }
    }

    /// Adds a number of replaces from Vec<&str>.
    pub fn with_replaces(self, items: Vec<&str>) -> (package: Self)
        ensures
            package@ == (PackageView {
                control: (ControlView {
                    replaces: self@.control.replaces + strs(items@),
                    ..self@.control
                }),
                ..self@
            }),
    {
        proof {
            use_type_invariant(&self);
        }
        let DebPackage { control, data, config, preinst, postinst, prerm, postrm, compression } =
            self;
        let mut control = control;
        extend_texts(&mut control.replaces, &items);
        DebPackage { control, data, config, preinst, postinst, prerm, postrm, compression }
    }

    /// Resets replaces.
    pub fn no_replaces(self) -> (package: Self)
        ensures
            package@ == (PackageView {
                control: (ControlView { replaces: Seq::empty(), ..self@.control }),
                ..self@
            }),
    {
        proof {
            use_type_invariant(&self);
        }
        let DebPackage { control, data, config, preinst, postinst, prerm, postrm, compression } =
            self;
        let mut control = control;
        control.replaces = Vec::new();
        assert(texts(control.replaces@) =~= Seq::<Seq<char>>::empty());
        DebPackage { control, data, config, preinst, postinst, prerm, postrm, compression }
    }

    /// Adds a single enhance from &str.
    pub fn with_enhance(self, item: &str) -> (package: Self)
        ensures
            package@ == (PackageView {
                control: (ControlView {
                    enhances: self@.control.enhances.push(item@),
                    ..self@.control
                }),
                ..self@
            }),
    {
        proof {
            use_type_invariant(&self);
        }
        let DebPackage { control, data, config, preinst, postinst, prerm, postrm, compression } =
            self;
        let mut control = control;
        push_text(&mut control.enhances, item);
        DebPackage { control, data, config, preinst, postinst, prerm, postrm, compression }
    }

    /// Adds a number of enhances from Vec<&str>.
    pub fn with_enhances(self, items: Vec<&str>) -> (package: Self)
        ensures
            package@ == (PackageView {
                control: (ControlView {
                    enhances: self@.control.enhances + strs(items@),
                    ..self@.control
                }),
                ..self@
            }),
    {
        proof {
            use_type_invariant(&self);
        }
        let DebPackage { control, data, config, preinst, postinst, prerm, postrm, compression } =
            self;
        let mut control = control;
        extend_texts(&mut control.enhances, &items);
        DebPackage { control, data, config, preinst, postinst, prerm, postrm, compression }
    }

    /// Resets enhances.
    pub fn no_enhances(self) -> (package: Self)
        ensures
            package@ == (PackageView {
                control: (ControlView { enhances: Seq::empty(), ..self@.control }),
                ..self@
            }),
    {
        proof {
            use_type_invariant(&self);
        }
        let DebPackage { control, data, config, preinst, postinst, prerm, postrm, compression } =
            self;
        let mut control = control;
        control.enhances = Vec::new();
        assert(texts(control.enhances@) =~= Seq::<Seq<char>>::empty());
        DebPackage { control, data, config, preinst, postinst, prerm, postrm, compression }
    }

    /// Sets the package's maintainer.
    pub fn set_maintainer(self, maintainer: &str) -> (package: Self)
        ensures
            package@ == (PackageView {
                control: (ControlView {
                    maintainer: maintainer@,
                    ..self@.control
                }),
                ..self@
            }),
    {
        proof {
            use_type_invariant(&self);
        }
        let DebPackage { control, data, config, preinst, postinst, prerm, postrm, compression } =
            self;
        let mut control = control;
        control.maintainer = String::from_str(maintainer);
        DebPackage { control, data, config, preinst, postinst, prerm, postrm, compression }
    }

    /// Sets the package's description.
    pub fn set_description(self, description: &str) -> (package: Self)
        ensures
            package@ == (PackageView {
                control: (ControlView {
                    description: description@,
                    ..self@.control
                }),
                ..self@
            }),
    {
        proof {
            use_type_invariant(&self);
        }
        let DebPackage { control, data, config, preinst, postinst, prerm, postrm, compression } =
            self;
        let mut control = control;
        control.description = String::from_str(description);
        DebPackage { control, data, config, preinst, postinst, prerm, postrm, compression }
    }

    /// Sets the package's homepage.
    pub fn set_homepage(self, homepage: &str) -> (package: Self)
        ensures
            package@ == (PackageView {
                control: (ControlView {
                    homepage: homepage@,
                    ..self@.control
                }),
                ..self@
            }),
    {
        proof {
            use_type_invariant(&self);
        }
        let DebPackage { control, data, config, preinst, postinst, prerm, postrm, compression } =
            self;
        let mut control = control;
        control.homepage = String::from_str(homepage);
        DebPackage { control, data, config, preinst, postinst, prerm, postrm, compression }
    }

    /// Adds a "built using" package.
    pub fn with_built_using(self, using: &str, version: &str) -> (package: Self)
        ensures
            package@ == (PackageView {
                control: (ControlView {
                    built_using: self@.control.built_using.push((using@, version@)),
                    ..self@.control
                }),
                ..self@
            }),
    {
        proof {
            use_type_invariant(&self);
        }
        let DebPackage { control, data, config, preinst, postinst, prerm, postrm, compression } =
            self;
        let mut control = control;
        control.built_using.push([String::from_str(using), String::from_str(version)]);
        assert(text_pairs(control.built_using@) =~= text_pairs(
            self.control.built_using@,
        ).push((using@, version@)));
        DebPackage { control, data, config, preinst, postinst, prerm, postrm, compression }
    }

    /// Resets built-using.
    pub fn no_built_using(self) -> (package: Self)
        ensures
            package@ == (PackageView {
                control: (ControlView { built_using: Seq::empty(), ..self@.control }),
                ..self@
            }),
    {
        proof {
            use_type_invariant(&self);
        }
        let DebPackage { control, data, config, preinst, postinst, prerm, postrm, compression } =
            self;
        let mut control = control;
        control.built_using = Vec::new();
        assert(text_pairs(control.built_using@) =~= Seq::<(Seq<char>, Seq<char>)>::empty());
        DebPackage { control, data, config, preinst, postinst, prerm, postrm, compression }
    }

    /// Adds a file to the package.
    pub fn with_file(self, file: DebFile) -> (package: Self)
        ensures
            package@ == (PackageView { data: self@.data.push(file@), ..self@ }),
    {
        proof {
            use_type_invariant(&self);
        }
        let DebPackage { control, data, config, preinst, postinst, prerm, postrm, compression } =
            self;
        let mut data = data;
        data.push(file);
        assert(file_views(data@) =~= file_views(self.data@).push(file@));
        DebPackage { control, data, config, preinst, postinst, prerm, postrm, compression }
    }

    /// Removes all file's from the package.
    pub fn clear_files(self) -> (package: Self)
        ensures
            package@ == (PackageView { data: Seq::empty(), ..self@ }),
    {
        proof {
            use_type_invariant(&self);
        }
        let DebPackage { control, data, config, preinst, postinst, prerm, postrm, compression } =
            self;
        let data: Vec<DebFile> = Vec::new();
        assert(file_views(data@) =~= Seq::<FileView>::empty());
        DebPackage { control, data, config, preinst, postinst, prerm, postrm, compression }
    }

    /// Puts a control record in the place of the package's own.
    fn with_control(self, record: DebControl) -> (package: Self)
        ensures
            package@ == (PackageView { control: record@, ..self@ }),
    {
        proof {
            use_type_invariant(&self);
        }
        let DebPackage { control, data, config, preinst, postinst, prerm, postrm, compression } =
            self;
        let control = record;
        DebPackage { control, data, config, preinst, postinst, prerm, postrm, compression }
    }

    /// Sets config script from &str.
    pub fn config_from_str(self, script: &str) -> (package: Self)
        ensures
            package@ == (PackageView {
                config: Some(script_file(vstd::utf8::encode_utf8(script@), "config"@)),
                ..self@
            }),
    {
        proof {
            use_type_invariant(&self);
        }
        let DebPackage { control, data, config, preinst, postinst, prerm, postrm, compression } =
            self;
        let config = Some(DebFile::from_buf(script.as_bytes_vec(), "config").is_exec());
        DebPackage { control, data, config, preinst, postinst, prerm, postrm, compression }
    }

    /// Sets config script from Vec<u8>.
    pub fn config_from_buf(self, script: Vec<u8>) -> (package: Self)
        ensures
            package@ == (PackageView {
                config: Some(script_file(script@, "config"@)),
                ..self@
            }),
    {
        proof {
            use_type_invariant(&self);
        }
        let DebPackage { control, data, config, preinst, postinst, prerm, postrm, compression } =
            self;
        let config = Some(DebFile::from_buf(script, "config").is_exec());
        DebPackage { control, data, config, preinst, postinst, prerm, postrm, compression }
    }

    /// Resets config script.
    pub fn no_config(self) -> (package: Self)
        ensures
            package@ == (PackageView { config: None, ..self@ }),
    {
        proof {
            use_type_invariant(&self);
        }
        let DebPackage { control, data, config, preinst, postinst, prerm, postrm, compression } =
            self;
        let config: Option<DebFile> = None;
        DebPackage { control, data, config, preinst, postinst, prerm, postrm, compression }
    }

    /// Sets preinst script from &str.
    pub fn preinst_from_str(self, script: &str) -> (package: Self)
        ensures
            package@ == (PackageView {
                preinst: Some(script_file(vstd::utf8::encode_utf8(script@), "preinst"@)),
                ..self@
            }),
    {
        proof {
            use_type_invariant(&self);
        }
        let DebPackage { control, data, config, preinst, postinst, prerm, postrm, compression } =
            self;
        let preinst = Some(DebFile::from_buf(script.as_bytes_vec(), "preinst").is_exec());
        DebPackage { control, data, config, preinst, postinst, prerm, postrm, compression }
    }

    /// Sets preinst script from Vec<u8>.
    pub fn preinst_from_buf(self, script: Vec<u8>) -> (package: Self)
        ensures
            package@ == (PackageView {
                preinst: Some(script_file(script@, "preinst"@)),
                ..self@
            }),
    {
        proof {
            use_type_invariant(&self);
        }
        let DebPackage { control, data, config, preinst, postinst, prerm, postrm, compression } =
            self;
        let preinst = Some(DebFile::from_buf(script, "preinst").is_exec());
        DebPackage { control, data, config, preinst, postinst, prerm, postrm, compression }
    }

    /// Resets preinst script.
    pub fn no_preinst(self) -> (package: Self)
        ensures
            package@ == (PackageView { preinst: None, ..self@ }),
    {
        proof {
            use_type_invariant(&self);
        }
        let DebPackage { control, data, config, preinst, postinst, prerm, postrm, compression } =
            self;
        let preinst: Option<DebFile> = None;
        DebPackage { control, data, config, preinst, postinst, prerm, postrm, compression }
    }

    /// Sets postinst script from &str.
    pub fn postinst_from_str(self, script: &str) -> (package: Self)
        ensures
            package@ == (PackageView {
                postinst: Some(script_file(vstd::utf8::encode_utf8(script@), "postinst"@)),
                ..self@
            }),
    {
        proof {
            use_type_invariant(&self);
        }
        let DebPackage { control, data, config, preinst, postinst, prerm, postrm, compression } =
            self;
        let postinst = Some(DebFile::from_buf(script.as_bytes_vec(), "postinst").is_exec());
        DebPackage { control, data, config, preinst, postinst, prerm, postrm, compression }
    }

    /// Sets postinst script from Vec<u8>.
    pub fn postinst_from_buf(self, script: Vec<u8>) -> (package: Self)
        ensures
            package@ == (PackageView {
                postinst: Some(script_file(script@, "postinst"@)),
                ..self@
            }),
    {
        proof {
            use_type_invariant(&self);
        }
        let DebPackage { control, data, config, preinst, postinst, prerm, postrm, compression } =
            self;
        let postinst = Some(DebFile::from_buf(script, "postinst").is_exec());
        DebPackage { control, data, config, preinst, postinst, prerm, postrm, compression }
    }

    /// Resets postinst script.
    pub fn no_postinst(self) -> (package: Self)
        ensures
            package@ == (PackageView { postinst: None, ..self@ }),
    {
        proof {
            use_type_invariant(&self);
        }
        let DebPackage { control, data, config, preinst, postinst, prerm, postrm, compression } =
            self;
        let postinst: Option<DebFile> = None;
        DebPackage { control, data, config, preinst, postinst, prerm, postrm, compression }
    }

    /// Sets prerm script from &str.
    pub fn prerm_from_str(self, script: &str) -> (package: Self)
        ensures
            package@ == (PackageView {
                prerm: Some(script_file(vstd::utf8::encode_utf8(script@), "prerm"@)),
                ..self@
            }),
    {
        proof {
            use_type_invariant(&self);
        }
        let DebPackage { control, data, config, preinst, postinst, prerm, postrm, compression } =
            self;
        let prerm = Some(DebFile::from_buf(script.as_bytes_vec(), "prerm").is_exec());
        DebPackage { control, data, config, preinst, postinst, prerm, postrm, compression }
    }

    /// Sets prerm script from Vec<u8>.
    pub fn prerm_from_buf(self, script: Vec<u8>) -> (package: Self)
        ensures
            package@ == (PackageView {
                prerm: Some(script_file(script@, "prerm"@)),
                ..self@
            }),
    {
        proof {
            use_type_invariant(&self);
        }
        let DebPackage { control, data, config, preinst, postinst, prerm, postrm, compression } =
            self;
        let prerm = Some(DebFile::from_buf(script, "prerm").is_exec());
        DebPackage { control, data, config, preinst, postinst, prerm, postrm, compression }
    }

    /// Resets prerm script.
    pub fn no_prerm(self) -> (package: Self)
        ensures
            package@ == (PackageView { prerm: None, ..self@ }),
    {
        proof {
            use_type_invariant(&self);
        }
        let DebPackage { control, data, config, preinst, postinst, prerm, postrm, compression } =
            self;
        let prerm: Option<DebFile> = None;
        DebPackage { control, data, config, preinst, postinst, prerm, postrm, compression }
    }

    /// Sets postrm script from &str.
    pub fn postrm_from_str(self, script: &str) -> (package: Self)
        ensures
            package@ == (PackageView {
                postrm: Some(script_file(vstd::utf8::encode_utf8(script@), "postrm"@)),
                ..self@
            }),
    {
        proof {
            use_type_invariant(&self);
        }
        let DebPackage { control, data, config, preinst, postinst, prerm, postrm, compression } =
            self;
        let postrm = Some(DebFile::from_buf(script.as_bytes_vec(), "postrm").is_exec());
        DebPackage { control, data, config, preinst, postinst, prerm, postrm, compression }
    }

    /// Sets postrm script from Vec<u8>.
    pub fn postrm_from_buf(self, script: Vec<u8>) -> (package: Self)
        ensures
            package@ == (PackageView {
                postrm: Some(script_file(script@, "postrm"@)),
                ..self@
            }),
    {
        proof {
            use_type_invariant(&self);
        }
        let DebPackage { control, data, config, preinst, postinst, prerm, postrm, compression } =
            self;
        let postrm = Some(DebFile::from_buf(script, "postrm").is_exec());
        DebPackage { control, data, config, preinst, postinst, prerm, postrm, compression }
    }

    /// Resets postrm script.
    pub fn no_postrm(self) -> (package: Self)
        ensures
            package@ == (PackageView { postrm: None, ..self@ }),
    {
        proof {
            use_type_invariant(&self);
        }
        let DebPackage { control, data, config, preinst, postinst, prerm, postrm, compression } =
            self;
        let postrm: Option<DebFile> = None;
        DebPackage { control, data, config, preinst, postinst, prerm, postrm, compression }
    }

    /// Sets the package's compression standard.
    pub fn set_compression(self, compression: DebCompression) -> (package: Self)
        ensures
            package@ == (PackageView { compression: compression, ..self@ }),
    {
        let codec = compression;
        proof {
            use_type_invariant(&self);
        }
        let DebPackage { control, data, config, preinst, postinst, prerm, postrm, compression } =
            self;
        let compression = codec;
        DebPackage { control, data, config, preinst, postinst, prerm, postrm, compression }
    }

    /// Returns the package's control record.
    pub fn control(&self) -> (control: &DebControl)
        ensures
            control@ == self@.control,
    {
        &self.control
    }

    /// Returns the package's name.
    pub fn name(&self) -> (r: &str)
        ensures
            r@ == self@.control.name,
    {
        self.control.name.as_str()
    }

    /// Returns the package's version.
    pub fn version(&self) -> (r: &str)
        ensures
            r@ == self@.control.version,
    {
        self.control.version.as_str()
    }

    /// Returns the package's priority.
    pub fn priority(&self) -> (r: &DebPriority)
        ensures
            *r == self@.control.priority,
    {
        &self.control.priority
    }

    /// Returns the package's architecture.
    pub fn architecture(&self) -> (r: &DebArchitecture)
        ensures
            *r == self@.control.architecture,
    {
        &self.control.architecture
    }

    /// Returns whether the package is essential.
    pub fn essential(&self) -> (r: bool)
        ensures
            r == self@.control.essential,
    {
        self.control.essential
    }

    /// Returns the package's dependencies.
    pub fn depends(&self) -> (r: &Vec<String>)
        ensures
            texts(r@) == self@.control.depends,
    {
        &self.control.depends
    }

    /// Returns the package's pre-dependencies.
    pub fn pre_depends(&self) -> (r: &Vec<String>)
        ensures
            texts(r@) == self@.control.pre_depends,
    {
        &self.control.pre_depends
    }

    /// Returns the package's recommends.
    pub fn recommendations(&self) -> (r: &Vec<String>)
        ensures
            texts(r@) == self@.control.recommends,
    {
        &self.control.recommends
    }

    /// Returns the package's suggests.
    pub fn suggests(&self) -> (r: &Vec<String>)
        ensures
            texts(r@) == self@.control.suggests,
    {
        &self.control.suggests
    }

    /// Returns the package's breaks.
    pub fn breaks(&self) -> (r: &Vec<String>)
        ensures
            texts(r@) == self@.control.breaks,
    {
        &self.control.breaks
    }

    /// Returns the package's conflicts.
    pub fn conflicts(&self) -> (r: &Vec<String>)
        ensures
            texts(r@) == self@.control.conflicts,
    {
        &self.control.conflicts
    }

    /// Returns the package's provides.
    pub fn provides(&self) -> (r: &Vec<String>)
        ensures
            texts(r@) == self@.control.provides,
    {
        &self.control.provides
    }

    /// Returns the package's replaces.
    pub fn replaces(&self) -> (r: &Vec<String>)
        ensures
            texts(r@) == self@.control.replaces,
    {
        &self.control.replaces
    }

    /// Returns the package's enhances.
    pub fn enhances(&self) -> (r: &Vec<String>)
        ensures
            texts(r@) == self@.control.enhances,
    {
        &self.control.enhances
    }

    /// Returns the package's maintainer.
    pub fn maintainer(&self) -> (r: &str)
        ensures
            r@ == self@.control.maintainer,
    {
        self.control.maintainer.as_str()
    }

    /// Returns the package's description.
    pub fn description(&self) -> (r: &str)
        ensures
            r@ == self@.control.description,
    {
        self.control.description.as_str()
    }

    /// Returns the package's homepage.
    pub fn homepage(&self) -> (r: &str)
        ensures
            r@ == self@.control.homepage,
    {
        self.control.homepage.as_str()
    }

    /// Returns the packages this package was built with.
    pub fn built_using(&self) -> (r: &Vec<[String; 2]>)
        ensures
            text_pairs(r@) == self@.control.built_using,
    {
        &self.control.built_using
    }

    /// Returns a vector of the packages files.
    pub fn files(&self) -> (r: &Vec<DebFile>)
        ensures
            file_views(r@) == self@.data,
    {
        &self.data
    }

    /// Returns the package's config script.
    pub fn config(&self) -> (r: Option<&Vec<u8>>)
        ensures
            match r {
                Some(script) => self@.config is Some && script@ == self@.config->Some_0.contents,
                None => self@.config is None,
            },
    {
        match &self.config {
            Some(file) => Some(file.contents()),
            None => None,
        }
    }

    /// Returns the package's preinst script.
    pub fn preinst(&self) -> (r: Option<&Vec<u8>>)
        ensures
            match r {
                Some(script) => self@.preinst is Some && script@ == self@.preinst->Some_0.contents,
                None => self@.preinst is None,
            },
    {
        match &self.preinst {
            Some(file) => Some(file.contents()),
            None => None,
        }
    }

    /// Returns the package's postinst script.
    pub fn postinst(&self) -> (r: Option<&Vec<u8>>)
        ensures
            match r {
                Some(script) => self@.postinst is Some && script@ == self@.postinst->Some_0.contents,
                None => self@.postinst is None,
            },
    {
        match &self.postinst {
            Some(file) => Some(file.contents()),
            None => None,
        }
    }

    /// Returns the package's prerm script.
    pub fn prerm(&self) -> (r: Option<&Vec<u8>>)
        ensures
            match r {
                Some(script) => self@.prerm is Some && script@ == self@.prerm->Some_0.contents,
                None => self@.prerm is None,
            },
    {
        match &self.prerm {
            Some(file) => Some(file.contents()),
            None => None,
        }
    }

    /// Returns the package's postrm script.
    pub fn postrm(&self) -> (r: Option<&Vec<u8>>)
        ensures
            match r {
                Some(script) => self@.postrm is Some && script@ == self@.postrm->Some_0.contents,
                None => self@.postrm is None,
            },
    {
        match &self.postrm {
            Some(file) => Some(file.contents()),
            None => None,
        }
    }

    /// Returns the package's compression standard.
    pub fn compression(&self) -> (r: &DebCompression)
        ensures
            *r == self@.compression,
    {
        &self.compression
    }

    /// Builds the package into a DebArchive struct.
    ///
    /// The control bundle holds the control record as the file `control`,
    /// then each maintainer script that the package has; the data bundle holds
    /// every content file, without the leading separator of its path. Both are
    /// written as tar streams and compressed with the package's codec, and
    /// each bundle of the archive decompresses to its tar stream.
    ///
    /// The call fails, with `MalformedInnerArchive`, exactly where a path
    /// cannot be represented in a bundle.
    pub fn build(&self) -> (r: Result<DebArchive, DebError>)
        ensures
            match built_archive(self@) {
                Some(archive) => {
                    &&& r is Ok
                    &&& r->Ok_0@ == archive
                    &&& decompressed(archive.compression, archive.control) == tar_stream(
                        control_files(self@),
                    )
                    &&& decompressed(archive.compression, archive.data) == tar_stream(
                        data_files(self@),
                    )
                },
                None => r == Err::<DebArchive, DebError>(DebError::MalformedInnerArchive),
            },
            has_standard_scripts(self@),
    {
        proof {
            use_type_invariant(self);
        }
        // Creating DebFile's from control and scripts
        let mut control_list: Vec<DebFile> = Vec::new();
        control_list.push(DebFile::from_buf(self.control.serialize(), "control"));
        assert(file_views(control_list@) =~= seq![
            FileView {
                contents: control_bytes(self@.control),
                mode: MODE_REGULAR,
                path: "control"@,
            },
        ]);
        push_slot(&mut control_list, &self.config);
        push_slot(&mut control_list, &self.preinst);
        push_slot(&mut control_list, &self.postinst);
        push_slot(&mut control_list, &self.prerm);
        push_slot(&mut control_list, &self.postrm);
        assert(file_views(control_list@) == control_files(self@));

        // Creating tar archives
        let control_tar = match pack(&control_list) {
            Ok(bytes) => bytes,
            Err(e) => {
                return Err(e);
            },
        };
        let data_list = relative_files(&self.data);
        assert(file_views(data_list@) =~= data_files(self@));
        let data_tar = match pack(&data_list) {
            Ok(bytes) => bytes,
            Err(e) => {
                return Err(e);
            },
        };

        // Compressing tar archives to DebArchive struct
        let control = compress(self.compression, control_tar.as_slice());
        let data = compress(self.compression, data_tar.as_slice());
        Ok(DebArchive { control, data, compression: self.compression })
    }

    /// Makes a package from the entries of its two bundles.
    ///
    /// The control bundle is read first. Every entry has to be readable, with
    /// its path and its contents. The entry named exactly `control` gives the
    /// control record; entries named exactly `config`, `preinst`, `postinst`,
    /// `prerm` and `postrm` give the scripts; other entries are passed over.
    /// A bundle without a control record is malformed. Every entry of the data
    /// bundle becomes a content file, with the separator put before its path
    /// and with the mode of its header.
    pub fn from_entries(
        compression: DebCompression,
        control_items: &Vec<Option<TarItem>>,
        data_items: &Vec<Option<TarItem>>,
    ) -> (r: Result<Self, DebError>)
        ensures
            match read_package(compression, items_view(control_items@), items_view(data_items@)) {
                Ok(package) => r is Ok && r->Ok_0@ == package,
                Err(e) => r is Err && r->Err_0 == e,
            },
    {
        let mut package = DebPackage::new("").set_compression(compression);
        let mut seen = false;
        let ghost start = blank_package(Seq::empty(), compression);
        let ghost control_views = items_view(control_items@);
        let ghost data_views = items_view(data_items@);
        proof {
            reveal_strlit("");
            assert(""@ =~= Seq::<char>::empty());
            assert(control_views.take(0) =~= Seq::empty());
        }
        let mut i: usize = 0;
        while i < control_items.len()
            invariant
                i <= control_items.len(),
                control_views == items_view(control_items@),
                start == blank_package(Seq::empty(), compression),
                package@.data == Seq::<FileView>::empty(),
                package@.compression == compression,
                read_control_items(start, false, control_views.take(i as int)) == Ok::<
                    (PackageView, bool),
                    DebError,
                >((package@, seen)),
            decreases control_items.len() - i,
        {
            proof {
                assert(control_views.take(i + 1).drop_last() == control_views.take(i as int));
                assert(control_views.take(i + 1).last() == control_views[i as int]);
            }
            match read_control_entry(package, &control_items[i]) {
                Ok((next, found)) => {
                    package = next;
                    seen = seen || found;
                },
                Err(e) => {
                    proof {
                        lemma_read_control_items_stay_err(start, false, control_views, i + 1);
                    }
                    return Err(e);
                },
            }
            i += 1;
        }
        proof {
            assert(control_views.take(i as int) == control_views);
            assert(data_views.take(0) =~= Seq::empty());
        }
        if !seen {
            return Err(DebError::MalformedInnerArchive);
        }
        let mut k: usize = 0;
        while k < data_items.len()
            invariant
                k <= data_items.len(),
                data_views == items_view(data_items@),
                read_data_items(data_views.take(k as int)) == Ok::<Seq<FileView>, DebError>(
                    package@.data,
                ),
                control_views == items_view(control_items@),
                start == blank_package(Seq::empty(), compression),
                read_control_items(start, false, control_views) == Ok::<
                    (PackageView, bool),
                    DebError,
                >(((PackageView { data: Seq::empty(), ..package@ }), true)),
            decreases data_items.len() - k,
        {
            proof {
                assert(data_views.take(k + 1).drop_last() == data_views.take(k as int));
                assert(data_views.take(k + 1).last() == data_views[k as int]);
            }
            match read_data_entry(&data_items[k]) {
                Ok(file) => {
                    package = package.with_file(file);
                },
                Err(e) => {
                    proof {
                        lemma_read_data_items_stay_err(data_views, k + 1);
                    }
                    return Err(e);
                },
            }
            k += 1;
        }
        proof {
            assert(data_views.take(k as int) == data_views);
        }
        Ok(package)
    }

    /// Reads a DebPackage from the bytes of a `.deb` file.
    ///
    /// The container is read first, then the package from what it holds.
    pub fn from(input: &[u8]) -> (r: Result<Self, DebError>)
        ensures
            match read_bytes(input@) {
                Ok(archive) => match unpacked_package(archive) {
                    Ok(package) => r is Ok && r->Ok_0@ == package,
                    Err(e) => r is Err && r->Err_0 == e,
                },
                Err(e) => r is Err && r->Err_0 == e,
            },
    {
        match DebArchive::read(input) {
            Ok(archive) => archive.to_package(),
            Err(e) => Err(e),
        }
    }
}

/// How many characters of a member's name are left when what ends it and names
/// nothing is taken away.
fn trimmed_length(chars: &Vec<char>) -> (n: usize)
    ensures
        n <= chars.len(),
        chars@.take(n as int) == trimmed_name(chars@),
{
    let mut n: usize = chars.len();
    assert(chars@.take(n as int) == chars@);
    loop
        invariant
            n <= chars.len(),
            trimmed_name(chars@.take(n as int)) == trimmed_name(chars@),
        decreases n,
    {
        let ghost name = chars@.take(n as int);
        if n > 0 && (chars[n - 1] == '/' || (chars[n - 1] == '.' && (n == 1 || chars[n - 2]
            == '/'))) {
            assert(name.drop_last() == chars@.take(n - 1));
            n -= 1;
        } else {
            return n;
        }
    }
}

/// Appends the file of a script slot, if there is one.
fn push_slot(list: &mut Vec<DebFile>, slot: &Option<DebFile>)
    ensures
        file_views(final(list)@) == file_views(old(list)@) + slot_files(slot_view(*slot)),
{
    match slot {
        Some(file) => {
            list.push(file.duplicate());
            assert(file_views(list@) =~= file_views(old(list)@) + seq![file@]);
        },
        None => {
            assert(file_views(list@) =~= file_views(old(list)@) + Seq::<FileView>::empty());
        },
    }
}

/// The files as they are stored in the data bundle: each under its relative
/// path.
fn relative_files(files: &Vec<DebFile>) -> (out: Vec<DebFile>)
    ensures
        out.len() == files.len(),
        forall|i: int|
            0 <= i < files.len() ==> out@[i]@ == (FileView {
                path: relative_path(files@[i]@.path),
                ..files@[i]@
            }),
{
    let mut out: Vec<DebFile> = Vec::new();
    let mut i: usize = 0;
    while i < files.len()
        invariant
            i <= files.len(),
            out.len() == i,
            forall|k: int|
                0 <= k < i ==> out@[k]@ == (FileView {
                    path: relative_path(files@[k]@.path),
                    ..files@[k]@
                }),
        decreases files.len() - i,
    {
        let file = files[i].duplicate();
        // We have to strip the root directory if the path is absolute
        // as the tar library doesn't allow absolute paths
        let path = files[i].path().as_str();
        let chars = chars_of(path);
        let separators = count_leading(&chars, '/');
        let stripped = path.substring_char(separators, chars.len());
        assert(stripped@ == path@.skip(separators as int));
        out.push(file.set_path(stripped));
        i += 1;
    }
    out
}

/// Reads one entry of the control bundle into the package; returns the
/// package and whether the entry was the control record.
fn read_control_entry(package: DebPackage, item: &Option<TarItem>) -> (r: Result<
    (DebPackage, bool),
    DebError,
>)
    ensures
        forall|seen: bool|
            match #[trigger] read_control_item(package@, seen, item_view(*item)) {
                Ok((next, now)) => r is Ok && r->Ok_0.0@ == next && now == (seen || r->Ok_0.1),
                Err(e) => r is Err && r->Err_0 == e,
            },
{
    let item = match item {
        Some(item) => item,
        None => {
            return Err(DebError::MalformedInnerArchive);
        },
    };
    let contents = match &item.contents {
        Some(contents) => contents.clone(),
        None => {
            return Err(DebError::MalformedInnerArchive);
        },
    };
    let path = match &item.path {
        Some(path) => path.as_str(),
        None => {
            return Err(DebError::MalformedInnerArchive);
        },
    };
    assert(contents@ =~= item@.contents->Some_0);
    if str_is(path, "control") {
        // Converting control file into DebControl struct
        match DebControl::deserialize(contents) {
            Ok(control) => Ok((package.with_control(control), true)),
            Err(e) => Err(e),
        }
    } else if str_is(path, "config") {
        Ok((package.config_from_buf(contents), false))
    } else if str_is(path, "preinst") {
        Ok((package.preinst_from_buf(contents), false))
    } else if str_is(path, "postinst") {
        Ok((package.postinst_from_buf(contents), false))
    } else if str_is(path, "prerm") {
        Ok((package.prerm_from_buf(contents), false))
    } else if str_is(path, "postrm") {
        Ok((package.postrm_from_buf(contents), false))
    } else {
        Ok((package, false))
    }
}

/// The content file that an entry of the data bundle stands for.
fn read_data_entry(item: &Option<TarItem>) -> (r: Result<DebFile, DebError>)
    ensures
        match read_data_item(item_view(*item)) {
            Ok(file) => r is Ok && r->Ok_0@ == file,
            Err(e) => r is Err && r->Err_0 == e,
        },
{
    let item = match item {
        Some(item) => item,
        None => {
            return Err(DebError::MalformedInnerArchive);
        },
    };
    let contents = match &item.contents {
        Some(contents) => contents.clone(),
        None => {
            return Err(DebError::MalformedInnerArchive);
        },
    };
    let path = match &item.path {
        Some(path) => path.as_str(),
        None => {
            return Err(DebError::MalformedInnerArchive);
        },
    };
    let mode = match item.mode {
        Some(mode) => mode,
        None => {
            return Err(DebError::MalformedInnerArchive);
        },
    };
    assert(contents@ =~= item@.contents->Some_0);
    let mut absolute = String::from_str("/");
    absolute.append(path);
    proof {
        reveal_strlit("/");
        assert(absolute@ =~= seq!['/'] + path@);
    }
    Ok(DebFile::from_buf(contents, absolute.as_str()).set_mode(mode))
}

/// The names of the second and the third member of a container whose bundles
/// were compressed with the given codec.
pub open spec fn member_names(compression: DebCompression) -> (Seq<char>, Seq<char>) {
    match compression {
        DebCompression::Xz => ("control.tar.xz"@, "data.tar.xz"@),
        DebCompression::Zstd => ("control.tar.zst"@, "data.tar.zst"@),
    }
}

/// The three members of the container of a built package, in order:
/// `debian-binary`, which holds the text `2.0` and a newline, then the
/// control bundle and the data bundle; each with the mode of a regular file.
pub open spec fn envelope(a: ArchiveView) -> Seq<MemberView> {
    seq![
        MemberView {
            identifier: vstd::utf8::encode_utf8("debian-binary"@),
            mode: MODE_REGULAR,
            data: vstd::utf8::encode_utf8("2.0\n"@),
        },
        MemberView {
            identifier: vstd::utf8::encode_utf8(member_names(a.compression).0),
            mode: MODE_REGULAR,
            data: a.control,
        },
        MemberView {
            identifier: vstd::utf8::encode_utf8(member_names(a.compression).1),
            mode: MODE_REGULAR,
            data: a.data,
        },
    ]
}

/// The name of a member without what ends it and names nothing: separators,
/// and a dot that stands for the directory itself.
pub open spec fn trimmed_name(name: Seq<char>) -> Seq<char>
    decreases name.len(),
{
    if name.len() > 0 && name.last() == '/' {
        trimmed_name(name.drop_last())
    } else if name.len() > 0 && name.last() == '.' && (name.len() == 1 || name[name.len() - 2]
        == '/') {
        trimmed_name(name.drop_last())
    } else {
        name
    }
}

/// The file name in the name of a member: its last component that is not
/// empty, which is what follows the last separator of the trimmed name.
pub open spec fn file_name(name: Seq<char>) -> Seq<char> {
    let trimmed = trimmed_name(name);
    trimmed.skip(last_index_of(trimmed, '/') + 1)
}

/// Whether the name of a member says that it was compressed with XZ: the
/// extension of its file name is `xz`, which is to say that the file name ends
/// with `.xz`, after at least one other character.
pub open spec fn is_xz_name(name: Seq<char>) -> bool {
    let file = file_name(name);
    file.len() > 3 && file.skip(file.len() - 3) == ".xz"@
}

/// The built package that is made of the two bundles of a container. The
/// codec of both is read from the name of the data bundle, which has to be
/// UTF-8: XZ where the name says so, and Zstandard else.
pub open spec fn archive_of_members(
    control: Seq<u8>,
    data: Seq<u8>,
    data_identifier: Seq<u8>,
) -> Result<ArchiveView, DebError> {
    if vstd::utf8::valid_utf8(data_identifier) {
        Ok(
            ArchiveView {
                control: control,
                data: data,
                compression: if is_xz_name(vstd::utf8::decode_utf8(data_identifier)) {
                    DebCompression::Xz
                } else {
                    DebCompression::Zstd
                },
            },
        )
    } else {
        Err(DebError::EncodingError)
    }
}

/// The built package that the bytes of a container stand for. Where one of
/// the first three members cannot be read, because a member before it or the
/// member itself has no plain header, the error is `MissingContainerMember`.
pub open spec fn read_bytes(bytes: Seq<u8>) -> Result<ArchiveView, DebError> {
    if is_plain_container(bytes) {
        read_container(ar_listing(bytes))
    } else {
        Err(DebError::MissingContainerMember)
    }
}

/// The built package that the members of a container stand for. The first
/// three members have to be there and to be readable. The first is passed
/// over, the second is the control bundle, the third the data bundle; what
/// follows them is not looked at.
pub open spec fn read_container(members: Seq<Option<(Seq<u8>, Seq<u8>)>>) -> Result<
    ArchiveView,
    DebError,
> {
    if members.len() >= 3 && members[0] is Some && members[1] is Some && members[2] is Some {
        archive_of_members(members[1]->Some_0.1, members[2]->Some_0.1, members[2]->Some_0.0)
    } else {
        Err(DebError::MissingContainerMember)
    }
}

impl DebArchive {
    /// Writes the package: returns the bytes of the `.deb` file.
    ///
    /// The file is a container of exactly three members.
    pub fn write(&self) -> (bytes: Vec<u8>)
        ensures
            bytes@ == ar_encoding(envelope(self@)),
    {
        // Parsing the name of the control and data archives
        let (control_name, data_name) = match self.compression {
            DebCompression::Xz => ("control.tar.xz", "data.tar.xz"),
            DebCompression::Zstd => ("control.tar.zst", "data.tar.zst"),
        };

        // Creating final archive
        let mut archive = ar_writer_new();
        match ar_append(
            &mut archive,
            "debian-binary".as_bytes(),
            MODE_REGULAR,
            "2.0\n".as_bytes(),
        ) {
            Ok(()) => {},
            Err(_) => unreached(),
        }

        // Adding control to archive
        match ar_append(
            &mut archive,
            control_name.as_bytes(),
            MODE_REGULAR,
            self.control.as_slice(),
        ) {
            Ok(()) => {},
            Err(_) => unreached(),
        }

        // Adding data to archive
        match ar_append(&mut archive, data_name.as_bytes(), MODE_REGULAR, self.data.as_slice()) {
            Ok(()) => {},
            Err(_) => unreached(),
        }
        assert(crate::container::ar_members(archive) =~= envelope(self@));
        match ar_finish(archive) {
            Ok(bytes) => bytes,
            Err(_) => unreached(),
        }
    }

    /// Makes a built package of the two bundles of a container and the name
    /// of the data bundle, from which the codec is read.
    ///
    /// Fails with `EncodingError` exactly where the name is not UTF-8.
    pub fn from_members(control: Vec<u8>, data: Vec<u8>, data_identifier: Vec<u8>) -> (r: Result<
        Self,
        DebError,
    >)
        ensures
            match archive_of_members(control@, data@, data_identifier@) {
                Ok(archive) => r is Ok && r->Ok_0@ == archive,
                Err(e) => r is Err && r->Err_0 == e,
            },
    {
        // Reading data header to parse compression
        let name = match string_from_utf8(data_identifier) {
            Ok(name) => name,
            Err(_) => {
                return Err(DebError::EncodingError);
            },
        };
        let chars = chars_of(name.as_str());
        let n = trimmed_length(&chars);
        let start = after_last_char(&chars, n, '/');
        let mut compression = DebCompression::Zstd;
        proof {
            reveal_strlit(".xz");
        }
        let ghost file = file_name(name@);
        assert(file == chars@.subrange(start as int, n as int));
        if n - start > 3 {
            assert(file.skip(file.len() - 3) =~= chars@.subrange(n - 3, n as int));
            if chars[n - 3] == '.' && chars[n - 2] == 'x' && chars[n - 1] == 'z' {
                assert(chars@.subrange(n - 3, n as int) =~= ".xz"@);
                compression = DebCompression::Xz;
            } else {
                assert(chars@.subrange(n - 3, n as int)[0] == chars@[n - 3]);
                assert(chars@.subrange(n - 3, n as int)[1] == chars@[n - 2]);
                assert(chars@.subrange(n - 3, n as int)[2] == chars@[n - 1]);
            }
        }
        Ok(DebArchive { control, data, compression })
    }

    /// Reads a package from the bytes of a `.deb` file.
    ///
    /// The headers of the first three members are looked through first: the
    /// name of a member may not begin with a separator or with `#1/`, and its
    /// size has to be a number. Fails with `MissingContainerMember` where one
    /// of the first three members is absent or cannot be read, and with
    /// `EncodingError` where the name of the third is not UTF-8.
    pub fn read(input: &[u8]) -> (r: Result<Self, DebError>)
        ensures
            match read_bytes(input@) {
                Ok(archive) => r is Ok && r->Ok_0@ == archive,
                Err(e) => r is Err && r->Err_0 == e,
            },
    {
        if !check_container(input) {
            return Err(DebError::MissingContainerMember);
        }
        // Creating Archive reader
        let mut archive = ar_open(input);
        let ghost members = ar_listing(input@);

        // Skipping `debian-binary` file
        match ar_next(&mut archive) {
            Some(Ok(_)) => {},
            _ => {
                return Err(DebError::MissingContainerMember);
            },
        }

        // Reading control archive
        let control = match ar_next(&mut archive) {
            Some(Ok(member)) => member,
            _ => {
                return Err(DebError::MissingContainerMember);
            },
        };

        // Reading data archive
        let data = match ar_next(&mut archive) {
            Some(Ok(member)) => member,
            _ => {
                return Err(DebError::MissingContainerMember);
            },
        };
        proof {
            assert(members.drop_first()[0] == members[1]);
            assert(members.drop_first().drop_first()[0] == members[2]);
        }
        DebArchive::from_members(control.data, data.data, data.identifier)
    }

    /// Converts DebArchive to DebPackage.
    ///
    /// # Errors
    ///
    /// `CorruptCompressedStream` where a bundle cannot be decompressed;
    /// `MalformedInnerArchive` where an entry of a bundle cannot be read, or
    /// the control bundle holds no control record; and the error of the
    /// control record where that cannot be parsed.
    pub fn to_package(&self) -> (r: Result<DebPackage, DebError>)
        ensures
            match unpacked_package(self@) {
                Ok(package) => r is Ok && r->Ok_0@ == package,
                Err(e) => r is Err && r->Err_0 == e,
            },
    {
        // Decompressing control and data archives
        let control_buf = match decompress(self.compression, self.control.as_slice()) {
            Ok(bytes) => bytes,
            Err(e) => {
                return Err(e);
            },
        };
        let data_buf = match decompress(self.compression, self.data.as_slice()) {
            Ok(bytes) => bytes,
            Err(e) => {
                return Err(e);
            },
        };
        let control_items = unpack(control_buf.as_slice());
        let data_items = unpack(data_buf.as_slice());
        DebPackage::from_entries(self.compression, &control_items, &data_items)
    }
}

} // verus!
