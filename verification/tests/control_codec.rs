use deb_rust::binary::DebPackage;
use deb_rust::control::DebControl;
use deb_rust::{DebArchitecture, DebError, DebFile, DebPriority};

fn text(bytes: Vec<u8>) -> String {
    String::from_utf8(bytes).unwrap()
}

#[test]
fn serialize_writes_populated_fields_in_order() {
    let package = DebPackage::new("test")
        .set_version("0.1.0")
        .set_architecture(DebArchitecture::Amd64)
        .with_depend("bash")
        .set_maintainer("A <a@example.com>")
        .set_description("demo")
        .with_file(DebFile::from_buf(b"#!/bin/sh\n".to_vec(), "/usr/bin/hello"));
    assert_eq!(
        text(package.control().serialize()),
        "Package: test\nVersion: 0.1.0\nArchitecture: amd64\nDepends: bash\nMaintainer: A <a@example.com>\nDescription: demo\n"
    );
}

#[test]
fn serialize_writes_every_field_when_all_are_set() {
    let package = DebPackage::new("full")
        .set_version("1.2")
        .set_priority(DebPriority::Required)
        .set_architecture(DebArchitecture::Arm64)
        .set_essential(true)
        .with_depends(vec!["a", "b"])
        .with_pre_depend("c")
        .with_recommend("d")
        .with_suggest("e")
        .with_break("f")
        .with_conflict("g")
        .with_provide("h")
        .with_replace("i")
        .with_enhance("j")
        .set_maintainer("M")
        .set_description("D")
        .set_homepage("https://example.com")
        .with_built_using("gcc", "12")
        .with_built_using("libc", "2.36");
    assert_eq!(
        text(package.control().serialize()),
        "Package: full\nVersion: 1.2\nPriority: required\nArchitecture: arm64\nEssential: yes\n\
         Depends: a, b\nPre-Depends: c\nRecommends: d\nSuggests: e\nBreaks: f\nConflicts: g\n\
         Enhances: j\nMaintainer: M\nDescription: D\nHomepage: https://example.com\n\
         Built-Using: gcc (= 12), libc (= 2.36)\n"
    );
}

#[test]
fn serialize_of_a_blank_record_writes_only_the_architecture() {
    assert_eq!(text(DebControl::new("").serialize()), "Architecture: all\n");
}

#[test]
fn deserialize_reads_back_what_serialize_wrote() {
    let package = DebPackage::new("test")
        .set_version("0.1.0")
        .set_priority(DebPriority::Extra)
        .set_architecture(DebArchitecture::KFreebsdAmd64)
        .set_essential(true)
        .with_depends(vec!["bash", "", "libc6 (>= 2.36)"])
        .with_suggest("vim")
        .set_maintainer("A <a@example.com>")
        .set_description("demo")
        .set_homepage("https://example.com/a:b");
    let record = DebControl::deserialize(package.control().serialize()).unwrap();
    assert_eq!(record.name, "test");
    assert_eq!(record.version, "0.1.0");
    assert_eq!(record.priority, DebPriority::Extra);
    assert_eq!(record.architecture, DebArchitecture::KFreebsdAmd64);
    assert!(record.essential);
    assert_eq!(record.depends, vec!["bash", "", "libc6 (>= 2.36)"]);
    assert!(record.pre_depends.is_empty());
    assert!(record.recommends.is_empty());
    assert_eq!(record.suggests, vec!["vim"]);
    assert!(record.breaks.is_empty());
    assert!(record.conflicts.is_empty());
    assert!(record.provides.is_empty());
    assert!(record.replaces.is_empty());
    assert!(record.enhances.is_empty());
    assert_eq!(record.maintainer, "A <a@example.com>");
    assert_eq!(record.description, "demo");
    assert_eq!(record.homepage, "https://example.com/a:b");
    assert!(record.built_using.is_empty());
}

#[test]
fn provides_and_replaces_are_read_but_not_written() {
    let record = DebControl::deserialize(b"Provides: a, b\nReplaces: c\n".to_vec()).unwrap();
    assert_eq!(record.provides, vec!["a", "b"]);
    assert_eq!(record.replaces, vec!["c"]);
    assert_eq!(text(record.serialize()), "Architecture: all\n");
}

#[test]
fn deserialize_of_empty_input_is_a_blank_record() {
    let record = DebControl::deserialize(Vec::new()).unwrap();
    assert_eq!(record.name, "");
    assert_eq!(record.priority, DebPriority::Optional);
    assert_eq!(record.architecture, DebArchitecture::All);
    assert!(!record.essential);
    assert!(record.depends.is_empty());
}

#[test]
fn deserialize_trims_keys_and_values() {
    let record =
        DebControl::deserialize(b"  Package :   hello  \nDepends:a ,  b,c\nEssential: no".to_vec())
            .unwrap();
    assert_eq!(record.name, "hello");
    assert_eq!(record.depends, vec!["a", "b", "c"]);
    assert!(!record.essential);
}

#[test]
fn deserialize_keeps_the_brackets_of_a_built_using_version() {
    let record =
        DebControl::deserialize(b"Built-Using: gcc (= 12), libc (= 2.36)\n".to_vec()).unwrap();
    assert_eq!(record.built_using.len(), 2);
    assert_eq!(record.built_using[0], ["gcc".to_string(), "(= 12)".to_string()]);
    assert_eq!(record.built_using[1], ["libc".to_string(), "(= 2.36)".to_string()]);
}

#[test]
fn built_using_without_a_version_is_invalid() {
    assert_eq!(
        DebControl::deserialize(b"Built-Using: gcc\n".to_vec()).unwrap_err(),
        DebError::InvalidControlSyntax
    );
    assert_eq!(
        DebControl::deserialize(b"Built-Using: gcc (= 1), libc\n".to_vec()).unwrap_err(),
        DebError::InvalidControlSyntax
    );
    assert_eq!(
        DebControl::deserialize(b"Built-Using: gcc (= (1))\n".to_vec()).unwrap_err(),
        DebError::InvalidControlSyntax
    );
}

#[test]
fn essential_maybe_is_invalid() {
    assert_eq!(
        DebControl::deserialize(b"Essential: maybe\n".to_vec()).unwrap_err(),
        DebError::InvalidControlSyntax
    );
}

#[test]
fn unknown_field_is_invalid() {
    assert_eq!(
        DebControl::deserialize(b"Package: a\nColour: blue\n".to_vec()).unwrap_err(),
        DebError::InvalidControlSyntax
    );
    assert_eq!(
        DebControl::deserialize(b"package: a\n".to_vec()).unwrap_err(),
        DebError::InvalidControlSyntax
    );
}

#[test]
fn line_without_colon_is_invalid_unless_it_is_the_empty_last_line() {
    assert!(DebControl::deserialize(b"Package: a\n".to_vec()).is_ok());
    assert!(DebControl::deserialize(b"Package: a".to_vec()).is_ok());
    assert_eq!(
        DebControl::deserialize(b"Package: a\n\n".to_vec()).unwrap_err(),
        DebError::InvalidControlSyntax
    );
    assert_eq!(
        DebControl::deserialize(b"Package: a\ngarbage\n".to_vec()).unwrap_err(),
        DebError::InvalidControlSyntax
    );
    assert_eq!(
        DebControl::deserialize(b"Package: a\n ".to_vec()).unwrap_err(),
        DebError::InvalidControlSyntax
    );
}

#[test]
fn unknown_priority_or_architecture_is_unsupported() {
    assert_eq!(
        DebControl::deserialize(b"Priority: urgent\n".to_vec()).unwrap_err(),
        DebError::UnsupportedToken
    );
    assert_eq!(
        DebControl::deserialize(b"Architecture: z80\n".to_vec()).unwrap_err(),
        DebError::UnsupportedToken
    );
}

#[test]
fn bytes_that_are_not_utf8_are_an_encoding_error() {
    assert_eq!(
        DebControl::deserialize(vec![b'P', 0xff, b':', b'a']).unwrap_err(),
        DebError::EncodingError
    );
}

#[test]
fn the_first_invalid_line_decides_the_error() {
    assert_eq!(
        DebControl::deserialize(b"Priority: urgent\nEssential: maybe\n".to_vec()).unwrap_err(),
        DebError::UnsupportedToken
    );
    assert_eq!(
        DebControl::deserialize(b"Essential: maybe\nPriority: urgent\n".to_vec()).unwrap_err(),
        DebError::InvalidControlSyntax
    );
}

#[test]
fn deserialize_trims_unicode_white_space_and_keeps_other_characters() {
    let input = "Package:\u{a0}n\u{e9}\u{3000}\t\nDescription: \u{2003}caf\u{e9} \u{2014} ok\u{85}\n";
    let record = DebControl::deserialize(input.as_bytes().to_vec()).unwrap();
    assert_eq!(record.name, "n\u{e9}");
    assert_eq!(record.description, "caf\u{e9} \u{2014} ok");
    assert_eq!(
        text(record.serialize()),
        "Package: n\u{e9}\nArchitecture: all\nDescription: caf\u{e9} \u{2014} ok\n"
    );
}

#[test]
fn zero_width_space_is_not_trimmed() {
    let record = DebControl::deserialize("Package: \u{200b}a".as_bytes().to_vec()).unwrap();
    assert_eq!(record.name, "\u{200b}a");
    assert_eq!("\u{200b}a".trim(), "\u{200b}a");
}
