use deb_rust::{DebArchitecture, DebError, DebFile, DebPriority};

const ARCHITECTURES: [(DebArchitecture, &str); 24] = [
    (DebArchitecture::All, "all"),
    (DebArchitecture::Alpha, "Alpha"),
    (DebArchitecture::Armel, "Armel"),
    (DebArchitecture::Armhf, "armhf"),
    (DebArchitecture::Arm64, "arm64"),
    (DebArchitecture::Hppa, "hppa"),
    (DebArchitecture::I386, "i386"),
    (DebArchitecture::Amd64, "amd64"),
    (DebArchitecture::Ia64, "ia64"),
    (DebArchitecture::M68k, "m68k"),
    (DebArchitecture::Mips, "mips"),
    (DebArchitecture::Mipsel, "mipsel"),
    (DebArchitecture::Mips64el, "mips64el"),
    (DebArchitecture::PowerPC, "PowerPC"),
    (DebArchitecture::Ppc64, "PPC64"),
    (DebArchitecture::Ppc64el, "ppc64el"),
    (DebArchitecture::Riscv64, "riscv64"),
    (DebArchitecture::S390x, "s390x"),
    (DebArchitecture::Sh4, "SH4"),
    (DebArchitecture::Sparc4, "sparc4"),
    (DebArchitecture::X32, "x32"),
    (DebArchitecture::HurdI386, "hurd-i386"),
    (DebArchitecture::KFreebsdI386, "kfreebsd-i386"),
    (DebArchitecture::KFreebsdAmd64, "kfreebsd-amd64"),
];

const PRIORITIES: [(DebPriority, &str); 5] = [
    (DebPriority::Required, "required"),
    (DebPriority::Important, "important"),
    (DebPriority::Standard, "standard"),
    (DebPriority::Optional, "optional"),
    (DebPriority::Extra, "extra"),
];

#[test]
fn architecture_table_maps_both_ways() {
    for (architecture, token) in ARCHITECTURES {
        assert_eq!(architecture.as_str(), token);
        assert_eq!(DebArchitecture::from(token), Ok(architecture));
    }
}

#[test]
fn priority_table_maps_both_ways() {
    for (priority, token) in PRIORITIES {
        assert_eq!(priority.as_str(), token);
        assert_eq!(DebPriority::from(token), Ok(priority));
    }
}

#[test]
fn tokens_are_matched_exactly() {
    assert_eq!(DebArchitecture::from("AMD64"), Err(DebError::UnsupportedToken));
    assert_eq!(DebArchitecture::from("ppc64"), Err(DebError::UnsupportedToken));
    assert_eq!(DebArchitecture::from(""), Err(DebError::UnsupportedToken));
    assert_eq!(DebArchitecture::from(" all"), Err(DebError::UnsupportedToken));
    assert_eq!(DebPriority::from("Optional"), Err(DebError::UnsupportedToken));
    assert_eq!(DebPriority::from("optional "), Err(DebError::UnsupportedToken));
}

#[test]
fn file_from_buf_is_a_regular_file() {
    let file = DebFile::from_buf(vec![1, 2, 3], "/usr/share/doc/a");
    assert_eq!(file.contents(), &vec![1, 2, 3]);
    assert_eq!(*file.mode(), 33188);
    assert_eq!(file.path(), "/usr/share/doc/a");
}

#[test]
fn file_setters_change_one_thing_each() {
    let file = DebFile::from_buf(vec![1], "/a").is_exec();
    assert_eq!(*file.mode(), 33261);
    assert_eq!(file.contents(), &vec![1]);
    assert_eq!(file.path(), "/a");
    let file = file.is_conf();
    assert_eq!(*file.mode(), 33188);
    let file = file.set_mode(0o100600);
    assert_eq!(*file.mode(), 0o100600);
    let file = file.set_contents(vec![7, 8]);
    assert_eq!(file.contents(), &vec![7, 8]);
    assert_eq!(*file.mode(), 0o100600);
    let file = file.set_path("/b");
    assert_eq!(file.path(), "/b");
    assert_eq!(file.contents(), &vec![7, 8]);
}

#[test]
fn error_messages_differ() {
    let all = [
        DebError::InvalidControlSyntax,
        DebError::UnsupportedToken,
        DebError::MissingContainerMember,
        DebError::CorruptCompressedStream,
        DebError::MalformedInnerArchive,
        DebError::EncodingError,
    ];
    for a in all {
        for b in all {
            assert_eq!(a == b, a.message() == b.message());
        }
    }
}
