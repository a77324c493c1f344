use deb_rust::binary::{DebArchive, DebPackage};
use deb_rust::bundle::{pack, unpack, TarItem};
use deb_rust::compress::{compress, decompress};
use deb_rust::{DebArchitecture, DebCompression, DebError, DebFile, DebPriority};
use std::io::Read;

fn simple_package() -> DebPackage {
    DebPackage::new("test")
        .set_version("0.1.0")
        .set_architecture(DebArchitecture::Amd64)
        .with_depend("bash")
        .set_maintainer("NotSludgeBomb <notsludgebomb@protonmail.com>")
        .set_description("test package for deb-rust")
        .with_file(DebFile::from_buf(
            "#!/usr/bin/bash\necho hello world!".to_string().as_bytes().to_vec(),
            "/usr/bin/hello",
        ))
}

fn members(bytes: &[u8]) -> Vec<(String, u32, Vec<u8>)> {
    let mut archive = ar::Archive::new(bytes);
    let mut out = Vec::new();
    while let Some(entry) = archive.next_entry() {
        let mut entry = entry.unwrap();
        let mut data = Vec::new();
        entry.read_to_end(&mut data).unwrap();
        let name = String::from_utf8(entry.header().identifier().to_vec()).unwrap();
        out.push((name, entry.header().mode(), data));
    }
    out
}

fn container(parts: &[(&str, &[u8])]) -> Vec<u8> {
    let mut builder = ar::Builder::new(Vec::new());
    for (name, data) in parts {
        let mut header = ar::Header::new(name.as_bytes().to_vec(), data.len() as u64);
        header.set_mode(33188);
        builder.append(&header, *data).unwrap();
    }
    builder.into_inner().unwrap()
}

fn item(path: &str, mode: u32, contents: &[u8]) -> Option<TarItem> {
    Some(TarItem {
        path: Some(path.to_string()),
        mode: Some(mode),
        contents: Some(contents.to_vec()),
    })
}

#[test]
fn build_simple_package() {
    let bytes = simple_package().build().unwrap().write();
    assert_eq!(&bytes[..8], b"!<arch>\n");
}

#[test]
fn read_simple_package() {
    let bytes = simple_package().build().unwrap().write();
    let reader = DebPackage::from(&bytes).unwrap();
    assert_eq!(reader.name(), "test");
    assert_eq!(reader.version(), "0.1.0");
    assert_eq!(reader.priority(), &DebPriority::Optional);
    assert_eq!(reader.architecture(), &DebArchitecture::Amd64);
    assert_eq!(reader.essential(), false);
    assert_eq!(reader.depends(), &vec!["bash".to_string()]);
    assert_eq!(reader.maintainer(), "NotSludgeBomb <notsludgebomb@protonmail.com>");
    assert_eq!(reader.description(), "test package for deb-rust");
}

#[test]
fn built_container_has_three_members_and_the_first_is_the_version() {
    let bytes = simple_package().build().unwrap().write();
    let members = members(&bytes);
    assert_eq!(members.len(), 3);
    assert_eq!(members[0].0, "debian-binary");
    assert_eq!(members[0].2, b"2.0\n");
    assert_eq!(members[1].0, "control.tar.zst");
    assert_eq!(members[2].0, "data.tar.zst");
    for member in &members {
        assert_eq!(member.1, 0o100644);
        assert_eq!(member.1, 33188);
    }
}

#[test]
fn legacy_codec_names_its_members_xz() {
    let package = simple_package().set_compression(DebCompression::Xz);
    let bytes = package.build().unwrap().write();
    let members = members(&bytes);
    assert_eq!(members.len(), 3);
    assert_eq!(members[0].2, b"2.0\n");
    assert_eq!(members[1].0, "control.tar.xz");
    assert_eq!(members[2].0, "data.tar.xz");
    assert_eq!(&members[1].2[..6], &[0xfd, b'7', b'z', b'X', b'Z', 0x00]);
    let reader = DebPackage::from(&bytes).unwrap();
    assert_eq!(reader.compression(), &DebCompression::Xz);
    assert_eq!(reader.name(), "test");
}

#[test]
fn members_hold_the_compressed_bundles() {
    let bytes = simple_package().build().unwrap().write();
    let members = members(&bytes);
    let control = decompress(DebCompression::Zstd, &members[1].2).unwrap();
    let control_items = unpack(&control);
    assert_eq!(control_items.len(), 1);
    let control_item = control_items[0].as_ref().unwrap();
    assert_eq!(control_item.path.as_deref(), Some("control"));
    assert_eq!(control_item.mode, Some(33188));
    assert_eq!(
        control_item.contents.as_deref(),
        Some(simple_package().control().serialize().as_slice())
    );
    let data = decompress(DebCompression::Zstd, &members[2].2).unwrap();
    let data_items = unpack(&data);
    assert_eq!(data_items.len(), 1);
    let data_item = data_items[0].as_ref().unwrap();
    assert_eq!(data_item.path.as_deref(), Some("usr/bin/hello"));
    assert_eq!(data_item.mode, Some(33188));
    assert_eq!(
        data_item.contents.as_deref(),
        Some("#!/usr/bin/bash\necho hello world!".as_bytes())
    );
}

#[test]
fn container_with_two_members_is_missing_one() {
    let bytes = container(&[("debian-binary", b"2.0\n"), ("control.tar.zst", b"abc")]);
    assert_eq!(DebArchive::read(&bytes).unwrap_err(), DebError::MissingContainerMember);
    assert_eq!(DebPackage::from(&bytes).unwrap_err(), DebError::MissingContainerMember);
}

#[test]
fn container_with_fewer_members_is_missing_one() {
    assert_eq!(DebArchive::read(&[]).unwrap_err(), DebError::MissingContainerMember);
    assert_eq!(
        DebArchive::read(&container(&[("debian-binary", b"2.0\n")])).unwrap_err(),
        DebError::MissingContainerMember
    );
    assert_eq!(DebArchive::read(b"no container").unwrap_err(), DebError::MissingContainerMember);
}

#[test]
fn first_member_is_not_validated_and_later_members_are_not_read() {
    let package = simple_package();
    let built = members(&package.build().unwrap().write());
    let bytes = container(&[
        ("anything", b"9.9"),
        ("control.tar.zst", &built[1].2),
        ("data.tar.zst", &built[2].2),
        ("extra", b"x"),
    ]);
    let reader = DebPackage::from(&bytes).unwrap();
    assert_eq!(reader.name(), "test");
    assert_eq!(reader.files().len(), 1);
}

#[test]
fn codec_is_read_from_the_name_of_the_third_member() {
    let xz = DebArchive::from_members(vec![1], vec![2], b"data.tar.xz".to_vec()).unwrap();
    let zst = DebArchive::from_members(vec![1], vec![2], b"data.tar.zst".to_vec()).unwrap();
    let other = DebArchive::from_members(vec![1], vec![2], b"data.tar".to_vec()).unwrap();
    let bare = DebArchive::from_members(vec![1], vec![2], b".xz".to_vec()).unwrap();
    let hidden = DebArchive::from_members(vec![1], vec![2], b"dir/.xz".to_vec()).unwrap();
    let nested = DebArchive::from_members(vec![1], vec![2], b"dir/data.tar.xz".to_vec()).unwrap();
    let parent = DebArchive::from_members(vec![1], vec![2], b"a.xz/data".to_vec()).unwrap();
    let slash = DebArchive::from_members(vec![1], vec![2], b"data.tar.xz/".to_vec()).unwrap();
    let dot = DebArchive::from_members(vec![1], vec![2], b"data.tar.xz//./".to_vec()).unwrap();
    let up = DebArchive::from_members(vec![1], vec![2], b"data.tar.xz/..".to_vec()).unwrap();
    let names = |archive: &DebArchive| {
        members(&archive.write()).into_iter().map(|m| m.0).collect::<Vec<String>>()
    };
    assert_eq!(names(&xz), vec!["debian-binary", "control.tar.xz", "data.tar.xz"]);
    assert_eq!(names(&zst), vec!["debian-binary", "control.tar.zst", "data.tar.zst"]);
    assert_eq!(names(&other), vec!["debian-binary", "control.tar.zst", "data.tar.zst"]);
    assert_eq!(names(&bare), vec!["debian-binary", "control.tar.zst", "data.tar.zst"]);
    assert_eq!(names(&hidden), vec!["debian-binary", "control.tar.zst", "data.tar.zst"]);
    assert_eq!(names(&nested), vec!["debian-binary", "control.tar.xz", "data.tar.xz"]);
    assert_eq!(names(&parent), vec!["debian-binary", "control.tar.zst", "data.tar.zst"]);
    assert_eq!(names(&slash), vec!["debian-binary", "control.tar.xz", "data.tar.xz"]);
    assert_eq!(names(&dot), vec!["debian-binary", "control.tar.xz", "data.tar.xz"]);
    assert_eq!(names(&up), vec!["debian-binary", "control.tar.zst", "data.tar.zst"]);
    assert_eq!(
        DebArchive::from_members(vec![1], vec![2], vec![0xff, b'.', b'x', b'z']).unwrap_err(),
        DebError::EncodingError
    );
}

#[test]
fn written_archive_keeps_its_bundles() {
    let archive = DebArchive::from_members(vec![1, 2, 3], vec![4, 5], b"data.tar.xz".to_vec())
        .unwrap();
    let members = members(&archive.write());
    assert_eq!(members[1].2, vec![1, 2, 3]);
    assert_eq!(members[2].2, vec![4, 5]);
    let again = DebArchive::read(&archive.write()).unwrap();
    assert_eq!(again.write(), archive.write());
}

#[test]
fn data_entry_path_round_trips() {
    let package = DebPackage::new("app")
        .with_file(DebFile::from_buf(b"key = value\n".to_vec(), "/etc/app.conf"));
    let bytes = package.build().unwrap().write();
    let data = decompress(DebCompression::Zstd, &members(&bytes)[2].2).unwrap();
    let stored = unpack(&data);
    assert_eq!(stored[0].as_ref().unwrap().path.as_deref(), Some("etc/app.conf"));
    let reader = DebPackage::from(&bytes).unwrap();
    assert_eq!(reader.files().len(), 1);
    assert_eq!(reader.files()[0].path(), "/etc/app.conf");
    assert_eq!(reader.files()[0].contents(), &b"key = value\n".to_vec());
    assert_eq!(*reader.files()[0].mode(), 33188);
}

#[test]
fn relative_path_is_read_back_as_absolute() {
    let package = DebPackage::new("app").with_file(DebFile::from_buf(vec![1], "opt/app"));
    let reader = DebPackage::from(&package.build().unwrap().write()).unwrap();
    assert_eq!(reader.files()[0].path(), "/opt/app");
}

fn full_package(compression: DebCompression) -> DebPackage {
    DebPackage::new("full")
        .set_version("1.2-3")
        .set_priority(DebPriority::Important)
        .set_architecture(DebArchitecture::Riscv64)
        .set_essential(true)
        .with_depends(vec!["libc6 (>= 2.36)", "bash"])
        .with_pre_depend("dpkg")
        .with_recommends(vec!["a", "b", "c"])
        .with_suggest("d")
        .with_break("e")
        .with_conflict("f")
        .with_enhance("g")
        .set_maintainer("M <m@example.com>")
        .set_description("everything set")
        .set_homepage("https://example.com")
        .with_file(DebFile::from_buf(vec![0; 1000], "/usr/lib/full/data.bin"))
        .with_file(DebFile::from_buf(b"#!/bin/sh\n".to_vec(), "/usr/bin/full").is_exec())
        .with_file(DebFile::from_buf(Vec::new(), "/etc/full.conf").set_mode(0o100600))
        .config_from_str("#!/bin/sh\necho config\n")
        .preinst_from_buf(b"#!/bin/sh\necho preinst\n".to_vec())
        .postinst_from_str("#!/bin/sh\necho postinst\n")
        .prerm_from_str("#!/bin/sh\necho prerm\n")
        .postrm_from_buf(b"#!/bin/sh\necho postrm\n".to_vec())
        .set_compression(compression)
}

fn assert_same(a: &DebPackage, b: &DebPackage) {
    assert_eq!(a.name(), b.name());
    assert_eq!(a.version(), b.version());
    assert_eq!(a.priority(), b.priority());
    assert_eq!(a.architecture(), b.architecture());
    assert_eq!(a.essential(), b.essential());
    assert_eq!(a.depends(), b.depends());
    assert_eq!(a.pre_depends(), b.pre_depends());
    assert_eq!(a.recommendations(), b.recommendations());
    assert_eq!(a.suggests(), b.suggests());
    assert_eq!(a.breaks(), b.breaks());
    assert_eq!(a.conflicts(), b.conflicts());
    assert_eq!(a.replaces(), b.replaces());
    assert_eq!(a.enhances(), b.enhances());
    assert_eq!(a.maintainer(), b.maintainer());
    assert_eq!(a.description(), b.description());
    assert_eq!(a.homepage(), b.homepage());
    assert_eq!(a.built_using(), b.built_using());
    assert_eq!(a.config(), b.config());
    assert_eq!(a.preinst(), b.preinst());
    assert_eq!(a.postinst(), b.postinst());
    assert_eq!(a.prerm(), b.prerm());
    assert_eq!(a.postrm(), b.postrm());
    assert_eq!(a.compression(), b.compression());
    assert_eq!(a.files().len(), b.files().len());
    for (x, y) in a.files().iter().zip(b.files().iter()) {
        assert_eq!(x.path(), y.path());
        assert_eq!(x.mode(), y.mode());
        assert_eq!(x.contents(), y.contents());
    }
}

#[test]
fn package_round_trips_with_the_modern_codec() {
    let package = full_package(DebCompression::Zstd);
    let reader = package.build().unwrap().to_package().unwrap();
    assert_same(&package, &reader);
    assert_eq!(reader.provides(), &Vec::<String>::new());
    assert_eq!(reader.recommendations(), &vec!["a".to_string(), "b".to_string(), "c".to_string()]);
    assert_eq!(reader.config(), Some(&b"#!/bin/sh\necho config\n".to_vec()));
    assert_eq!(*reader.files()[1].mode(), 33261);
    assert_eq!(*reader.files()[2].mode(), 0o100600);
}

#[test]
fn package_round_trips_with_the_legacy_codec() {
    let package = full_package(DebCompression::Xz);
    let reader = DebPackage::from(&package.build().unwrap().write()).unwrap();
    assert_same(&package, &reader);
}

#[test]
fn provides_does_not_survive_the_round_trip() {
    let package = simple_package().with_provide("virtual");
    let reader = package.build().unwrap().to_package().unwrap();
    assert_eq!(package.provides(), &vec!["virtual".to_string()]);
    assert!(reader.provides().is_empty());
}

#[test]
fn control_bundle_holds_the_scripts_in_order() {
    let package = full_package(DebCompression::Zstd);
    let bytes = package.build().unwrap().write();
    let control = decompress(DebCompression::Zstd, &members(&bytes)[1].2).unwrap();
    let items = unpack(&control);
    let names: Vec<String> =
        items.iter().map(|i| i.as_ref().unwrap().path.clone().unwrap()).collect();
    assert_eq!(names, vec!["control", "config", "preinst", "postinst", "prerm", "postrm"]);
    assert_eq!(items[0].as_ref().unwrap().mode, Some(33188));
    for script in &items[1..] {
        assert_eq!(script.as_ref().unwrap().mode, Some(33261));
    }
}

#[test]
fn path_that_the_bundle_cannot_hold_fails_the_build() {
    let package = simple_package().with_file(DebFile::from_buf(vec![1], "/usr/../etc/passwd"));
    assert_eq!(package.build().unwrap_err(), DebError::MalformedInnerArchive);
    let package = simple_package().with_file(DebFile::from_buf(vec![1], ""));
    assert_eq!(package.build().unwrap_err(), DebError::MalformedInnerArchive);
    let package = simple_package().with_file(DebFile::from_buf(vec![1], "/"));
    assert_eq!(package.build().unwrap_err(), DebError::MalformedInnerArchive);
}

#[test]
fn every_leading_separator_is_stripped() {
    let package = DebPackage::new("app").with_file(DebFile::from_buf(vec![1], "//etc///x"));
    let bytes = package.build().unwrap().write();
    let data = decompress(DebCompression::Zstd, &members(&bytes)[2].2).unwrap();
    assert_eq!(unpack(&data)[0].as_ref().unwrap().path.as_deref(), Some("etc/x"));
    let reader = DebPackage::from(&bytes).unwrap();
    assert_eq!(reader.files()[0].path(), "/etc/x");
}

#[test]
fn pack_writes_blocks_and_unpack_reads_them_back() {
    let files = vec![
        DebFile::from_buf(b"hello".to_vec(), "a/b.txt"),
        DebFile::from_buf(vec![7; 512], "c").is_exec(),
        DebFile::from_buf(Vec::new(), "empty"),
    ];
    let stream = pack(&files).unwrap();
    assert_eq!(stream.len(), 512 + 512 + 512 + 512 + 512 + 1024);
    assert_eq!(&stream[..7], b"a/b.txt");
    assert_eq!(&stream[512..517], b"hello");
    assert!(stream[517..1024].iter().all(|b| *b == 0));
    assert!(stream[stream.len() - 1024..].iter().all(|b| *b == 0));
    let items = unpack(&stream);
    assert_eq!(items.len(), 3);
    for (item, file) in items.iter().zip(files.iter()) {
        let item = item.as_ref().unwrap();
        assert_eq!(item.path.as_ref(), Some(file.path()));
        assert_eq!(item.mode.as_ref(), Some(file.mode()));
        assert_eq!(item.contents.as_ref(), Some(file.contents()));
    }
}

#[test]
fn pack_of_nothing_is_the_end_marker() {
    let stream = pack(&Vec::new()).unwrap();
    assert_eq!(stream, vec![0; 1024]);
    assert!(unpack(&stream).is_empty());
}

#[test]
fn unpack_marks_an_entry_that_cannot_be_read() {
    let mut stream = pack(&vec![DebFile::from_buf(b"hello".to_vec(), "a")]).unwrap();
    stream[0] = b'b';
    let items = unpack(&stream);
    assert_eq!(items.len(), 1);
    assert!(items[0].is_none());
    let archive = DebArchive::from_members(
        compress(DebCompression::Zstd, &stream),
        compress(DebCompression::Zstd, &pack(&Vec::new()).unwrap()),
        b"data.tar.zst".to_vec(),
    )
    .unwrap();
    assert_eq!(archive.to_package().unwrap_err(), DebError::MalformedInnerArchive);
}

#[test]
fn unpack_of_bytes_that_are_no_stream_is_one_unreadable_entry() {
    let items = unpack(&[7; 600]);
    assert_eq!(items.len(), 1);
    assert!(items[0].is_none());
    assert!(unpack(&[]).is_empty());
}

#[test]
fn bundle_that_is_not_compressed_is_corrupt() {
    let archive =
        DebArchive::from_members(b"plain".to_vec(), b"plain".to_vec(), b"data.tar.zst".to_vec())
            .unwrap();
    assert_eq!(archive.to_package().unwrap_err(), DebError::CorruptCompressedStream);
    let good = compress(DebCompression::Xz, &pack(&Vec::new()).unwrap());
    let archive =
        DebArchive::from_members(good, b"plain".to_vec(), b"data.tar.xz".to_vec()).unwrap();
    assert_eq!(archive.to_package().unwrap_err(), DebError::CorruptCompressedStream);
}

#[test]
fn control_bundle_without_a_control_record_is_malformed() {
    let scripts = pack(&vec![DebFile::from_buf(b"#!/bin/sh\n".to_vec(), "postinst")]).unwrap();
    let archive = DebArchive::from_members(
        compress(DebCompression::Zstd, &scripts),
        compress(DebCompression::Zstd, &pack(&Vec::new()).unwrap()),
        b"data.tar.zst".to_vec(),
    )
    .unwrap();
    assert_eq!(archive.to_package().unwrap_err(), DebError::MalformedInnerArchive);
    assert_eq!(
        DebPackage::from_entries(DebCompression::Zstd, &Vec::new(), &Vec::new()).unwrap_err(),
        DebError::MalformedInnerArchive
    );
}

#[test]
fn control_record_that_cannot_be_parsed_fails_with_its_error() {
    let control = vec![item("control", 33188, b"Essential: maybe\n")];
    assert_eq!(
        DebPackage::from_entries(DebCompression::Zstd, &control, &Vec::new()).unwrap_err(),
        DebError::InvalidControlSyntax
    );
    let control = vec![item("control", 33188, b"Architecture: z80\n")];
    assert_eq!(
        DebPackage::from_entries(DebCompression::Zstd, &control, &Vec::new()).unwrap_err(),
        DebError::UnsupportedToken
    );
    let control = vec![item("control", 33188, &[0xff])];
    assert_eq!(
        DebPackage::from_entries(DebCompression::Zstd, &control, &Vec::new()).unwrap_err(),
        DebError::EncodingError
    );
}

#[test]
fn entries_are_matched_by_their_exact_names() {
    let control = vec![
        item("./control", 33188, b"Package: wrong\n"),
        item("control", 33188, b"Package: right\n"),
        item("Postinst", 33261, b"no"),
        item("postrm", 0, b"yes"),
        item("md5sums", 33188, b"ignored"),
    ];
    let data = vec![item("usr/bin/x", 33261, b"x"), item("./etc/y", 0o100600, b"y")];
    let package = DebPackage::from_entries(DebCompression::Xz, &control, &data).unwrap();
    assert_eq!(package.name(), "right");
    assert_eq!(package.postinst(), None);
    assert_eq!(package.postrm(), Some(&b"yes".to_vec()));
    assert_eq!(package.config(), None);
    assert_eq!(package.compression(), &DebCompression::Xz);
    assert_eq!(package.files().len(), 2);
    assert_eq!(package.files()[0].path(), "/usr/bin/x");
    assert_eq!(*package.files()[0].mode(), 33261);
    assert_eq!(package.files()[1].path(), "/./etc/y");
    assert_eq!(*package.files()[1].mode(), 0o100600);
    assert_eq!(package.files()[1].contents(), &b"y".to_vec());
}

#[test]
fn entry_with_an_unreadable_part_is_malformed() {
    let good = vec![item("control", 33188, b"Package: a\n")];
    let no_path = vec![Some(TarItem { path: None, mode: Some(1), contents: Some(vec![]) })];
    let no_mode =
        vec![Some(TarItem { path: Some("a".to_string()), mode: None, contents: Some(vec![]) })];
    let no_contents =
        vec![Some(TarItem { path: Some("a".to_string()), mode: Some(1), contents: None })];
    let unreadable: Vec<Option<TarItem>> = vec![None];
    for data in [&no_path, &no_mode, &no_contents, &unreadable] {
        assert_eq!(
            DebPackage::from_entries(DebCompression::Zstd, &good, data).unwrap_err(),
            DebError::MalformedInnerArchive
        );
    }
    for control in [&no_path, &no_contents, &unreadable] {
        assert_eq!(
            DebPackage::from_entries(DebCompression::Zstd, control, &Vec::new()).unwrap_err(),
            DebError::MalformedInnerArchive
        );
    }
    let mut control = vec![item("control", 33188, b"Package: a\n")];
    control.push(Some(TarItem { path: Some("x".to_string()), mode: None, contents: Some(vec![]) }));
    assert!(DebPackage::from_entries(DebCompression::Zstd, &control, &Vec::new()).is_ok());
}

#[test]
fn new_package_has_the_defaults() {
    let package = DebPackage::new("example");
    assert_eq!(package.name(), "example");
    assert_eq!(package.version(), "");
    assert_eq!(package.priority(), &DebPriority::Optional);
    assert_eq!(package.architecture(), &DebArchitecture::All);
    assert!(!package.essential());
    assert!(package.depends().is_empty());
    assert!(package.built_using().is_empty());
    assert!(package.files().is_empty());
    assert_eq!(package.config(), None);
    assert_eq!(package.postrm(), None);
    assert_eq!(package.compression(), &DebCompression::Zstd);
}

#[test]
fn lists_keep_the_order_in_which_items_were_added() {
    let package = DebPackage::new("a")
        .with_depend("x")
        .with_depends(vec!["y", "z"])
        .with_depend("w")
        .with_built_using("gcc", "12")
        .with_built_using("ld", "2");
    assert_eq!(package.depends(), &vec!["x", "y", "z", "w"]);
    assert_eq!(
        package.built_using(),
        &vec![["gcc".to_string(), "12".to_string()], ["ld".to_string(), "2".to_string()]]
    );
    let package = package.no_depends().no_built_using().with_depend("v");
    assert_eq!(package.depends(), &vec!["v"]);
    assert!(package.built_using().is_empty());
}

#[test]
fn every_list_has_its_own_setters() {
    let package = DebPackage::new("a")
        .with_pre_depend("1")
        .with_pre_depends(vec!["2"])
        .with_recommend("3")
        .with_recommends(vec!["4"])
        .with_suggest("5")
        .with_suggests(vec!["6"])
        .with_break("7")
        .with_breaks(vec!["8"])
        .with_conflict("9")
        .with_conflicts(vec!["10"])
        .with_provide("11")
        .with_provides(vec!["12"])
        .with_replace("13")
        .with_replaces(vec!["14"])
        .with_enhance("15")
        .with_enhances(vec!["16"]);
    assert_eq!(package.pre_depends(), &vec!["1", "2"]);
    assert_eq!(package.recommendations(), &vec!["3", "4"]);
    assert_eq!(package.suggests(), &vec!["5", "6"]);
    assert_eq!(package.breaks(), &vec!["7", "8"]);
    assert_eq!(package.conflicts(), &vec!["9", "10"]);
    assert_eq!(package.provides(), &vec!["11", "12"]);
    assert_eq!(package.replaces(), &vec!["13", "14"]);
    assert_eq!(package.enhances(), &vec!["15", "16"]);
    assert!(package.depends().is_empty());
    let package = package
        .no_pre_depends()
        .no_recommends()
        .no_suggests()
        .no_breaks()
        .no_conflicts()
        .no_provides()
        .no_replaces()
        .no_enhances();
    assert!(package.pre_depends().is_empty());
    assert!(package.recommendations().is_empty());
    assert!(package.suggests().is_empty());
    assert!(package.breaks().is_empty());
    assert!(package.conflicts().is_empty());
    assert!(package.provides().is_empty());
    assert!(package.replaces().is_empty());
    assert!(package.enhances().is_empty());
}

#[test]
fn text_setters_replace_the_value() {
    let package = DebPackage::new("a")
        .set_name("b")
        .set_version("1")
        .set_version("2")
        .set_priority(DebPriority::Standard)
        .set_architecture(DebArchitecture::Mips)
        .set_essential(true)
        .set_maintainer("m")
        .set_description("d")
        .set_homepage("h")
        .set_compression(DebCompression::Xz);
    assert_eq!(package.name(), "b");
    assert_eq!(package.version(), "2");
    assert_eq!(package.priority(), &DebPriority::Standard);
    assert_eq!(package.architecture(), &DebArchitecture::Mips);
    assert!(package.essential());
    assert_eq!(package.maintainer(), "m");
    assert_eq!(package.description(), "d");
    assert_eq!(package.homepage(), "h");
    assert_eq!(package.compression(), &DebCompression::Xz);
}

#[test]
fn scripts_are_set_and_reset() {
    let package = DebPackage::new("a")
        .config_from_str("c")
        .preinst_from_str("pre")
        .postinst_from_buf(vec![1, 2])
        .prerm_from_buf(vec![3])
        .postrm_from_str("post");
    assert_eq!(package.config(), Some(&b"c".to_vec()));
    assert_eq!(package.preinst(), Some(&b"pre".to_vec()));
    assert_eq!(package.postinst(), Some(&vec![1, 2]));
    assert_eq!(package.prerm(), Some(&vec![3]));
    assert_eq!(package.postrm(), Some(&b"post".to_vec()));
    let package = package.no_config().no_preinst().no_postinst().no_prerm().no_postrm();
    assert_eq!(package.config(), None);
    assert_eq!(package.preinst(), None);
    assert_eq!(package.postinst(), None);
    assert_eq!(package.prerm(), None);
    assert_eq!(package.postrm(), None);
    let package = package
        .config_from_buf(vec![9])
        .preinst_from_buf(vec![8])
        .postinst_from_str("s")
        .prerm_from_str("t")
        .postrm_from_buf(vec![7]);
    assert_eq!(package.config(), Some(&vec![9]));
    assert_eq!(package.preinst(), Some(&vec![8]));
    assert_eq!(package.postinst(), Some(&b"s".to_vec()));
    assert_eq!(package.prerm(), Some(&b"t".to_vec()));
    assert_eq!(package.postrm(), Some(&vec![7]));
}

#[test]
fn files_are_added_and_cleared() {
    let package = DebPackage::new("a")
        .with_file(DebFile::from_buf(vec![1], "/x"))
        .with_file(DebFile::from_buf(vec![2], "/y"));
    assert_eq!(package.files().len(), 2);
    assert_eq!(package.files()[0].path(), "/x");
    assert_eq!(package.files()[1].path(), "/y");
    assert!(package.clear_files().files().is_empty());
}

fn ar_header(name: &str, size: &str) -> Vec<u8> {
    let mut header = format!("{:<16}{:<12}{:<6}{:<6}{:<8}{:<10}", name, "0", "0", "0", "100644", size)
        .into_bytes();
    header.extend_from_slice(b"`\n");
    assert_eq!(header.len(), 60);
    header
}

#[test]
fn member_name_that_points_into_a_name_table_is_refused() {
    let mut bytes = b"!<arch>\n".to_vec();
    bytes.extend(ar_header("/5", "0"));
    assert_eq!(DebArchive::read(&bytes).unwrap_err(), DebError::MissingContainerMember);
    assert_eq!(DebPackage::from(&bytes).unwrap_err(), DebError::MissingContainerMember);
    let mut later = container(&[("debian-binary", b"2.0\n"), ("control.tar.zst", b"abc")]);
    later.extend(ar_header("/0", "0"));
    assert_eq!(DebArchive::read(&later).unwrap_err(), DebError::MissingContainerMember);
    let mut table = b"!<arch>\n".to_vec();
    table.extend(ar_header("//", "4"));
    table.extend_from_slice(b"ab/\n");
    table.extend(ar_header("a", "0"));
    table.extend(ar_header("b", "0"));
    table.extend(ar_header("c", "0"));
    assert_eq!(DebArchive::read(&table).unwrap_err(), DebError::MissingContainerMember);
}

#[test]
fn member_with_a_long_name_or_a_size_that_is_no_number_is_refused() {
    let long = container(&[
        ("debian-binary", b"2.0\n"),
        ("control.tar.zst-with-a-long-name", b"abc"),
        ("data.tar.zst", b"abc"),
    ]);
    assert_eq!(DebArchive::read(&long).unwrap_err(), DebError::MissingContainerMember);
    let mut signed = b"!<arch>\n".to_vec();
    signed.extend(ar_header("debian-binary", "+4"));
    signed.extend_from_slice(b"2.0\n");
    signed.extend(ar_header("control.tar.zst", "0"));
    signed.extend(ar_header("data.tar.zst", "0"));
    assert_eq!(DebArchive::read(&signed).unwrap_err(), DebError::MissingContainerMember);
}

#[test]
fn plain_container_is_read_member_by_member() {
    let mut bytes = b"!<arch>\n".to_vec();
    bytes.extend(ar_header("debian-binary", "3"));
    bytes.extend_from_slice(b"2.0\n");
    bytes.extend(ar_header("control.tar.xz/", "2"));
    bytes.extend_from_slice(b"ab");
    bytes.extend(ar_header("data.tar.xz/", "1"));
    bytes.extend_from_slice(b"c\n");
    bytes.extend(ar_header("/9", "0"));
    let archive = DebArchive::read(&bytes).unwrap();
    let written = members(&archive.write());
    assert_eq!(written[1].0, "control.tar.xz");
    assert_eq!(written[1].2, b"ab");
    assert_eq!(written[2].2, b"c");
}

fn tar_header(name: &str, kind: u8, size: [u8; 12]) -> Vec<u8> {
    let mut block = vec![0u8; 512];
    block[..name.len()].copy_from_slice(name.as_bytes());
    block[100..108].copy_from_slice(b"0100644\0");
    block[124..136].copy_from_slice(&size);
    block[136..148].copy_from_slice(b"00000000000\0");
    block[156] = kind;
    block[257..265].copy_from_slice(b"ustar  \0");
    for b in &mut block[148..156] {
        *b = b' ';
    }
    let sum: u32 = block.iter().map(|b| *b as u32).sum();
    block[148..156].copy_from_slice(format!("{:06o}\0 ", sum).as_bytes());
    block
}

#[test]
fn sparse_entry_with_a_binary_size_is_refused() {
    let mut size = [0u8; 12];
    size[0] = 0x80;
    size[4..].copy_from_slice(&(u64::MAX - 1023).to_be_bytes());
    let mut stream = tar_header("a", b'S', size);
    stream[482] = 1;
    for b in &mut stream[148..156] {
        *b = b' ';
    }
    let sum: u32 = stream.iter().map(|b| *b as u32).sum();
    stream[148..156].copy_from_slice(format!("{:06o}\0 ", sum).as_bytes());
    stream.extend(vec![0u8; 512]);
    assert_eq!(stream.len(), 1024);
    let items = unpack(&stream);
    assert_eq!(items.len(), 1);
    assert!(items[0].is_none());
    let archive = DebArchive::from_members(
        compress(DebCompression::Zstd, &pack(&Vec::new()).unwrap()),
        compress(DebCompression::Zstd, &stream),
        b"data.tar.zst".to_vec(),
    )
    .unwrap();
    assert_eq!(archive.to_package().unwrap_err(), DebError::MalformedInnerArchive);
}

#[test]
fn stream_with_a_header_that_cannot_be_read_is_one_unreadable_entry() {
    let good = pack(&vec![DebFile::from_buf(b"hello".to_vec(), "a")]).unwrap();
    for kind in [b'S', b'x'] {
        let mut stream = good[..1024].to_vec();
        stream.extend(tar_header("b", kind, *b"00000000000\0"));
        stream.extend(vec![0u8; 1024]);
        let items = unpack(&stream);
        assert_eq!(items.len(), 1);
        assert!(items[0].is_none());
    }
    let mut binary = [0u8; 12];
    binary[0] = 0x80;
    binary[11] = 1;
    let mut stream = tar_header("b", b'0', binary);
    stream.extend(vec![0u8; 1536]);
    assert_eq!(unpack(&stream).len(), 1);
    assert!(unpack(&stream)[0].is_none());
    let mut stream = tar_header("b", b'0', *b"+0000000005\0");
    stream.extend(vec![0u8; 1536]);
    assert!(unpack(&stream)[0].is_none());
}

#[test]
fn stream_with_other_kinds_of_entries_is_read() {
    let mut stream = tar_header("dir/", b'5', *b"00000000000\0");
    stream.extend(tar_header("dir/file", b'0', *b"        3 \0\0"));
    stream.extend_from_slice(b"abc");
    stream.extend(vec![0u8; 509]);
    stream.extend(tar_header("link", b'2', *b"00000000000 "));
    stream.extend(vec![0u8; 1024]);
    stream.extend(tar_header("behind-the-end", b'S', *b"00000000000\0"));
    let items = unpack(&stream);
    assert_eq!(items.len(), 3);
    assert_eq!(items[0].as_ref().unwrap().path.as_deref(), Some("dir/"));
    assert_eq!(items[1].as_ref().unwrap().path.as_deref(), Some("dir/file"));
    assert_eq!(items[1].as_ref().unwrap().contents.as_deref(), Some(b"abc".as_slice()));
    assert_eq!(items[2].as_ref().unwrap().path.as_deref(), Some("link"));
}
