//! What holds of writing a control record and reading it back.
use crate::control::{
    blank_record, built_using_items, control_bytes, control_text, essential_text, field_text,
    parse_control_bytes, parse_control_text, priority_text, with_field, with_line, with_lines,
    ControlView,
};
use crate::error::DebError;
use crate::shared::{DebArchitecture, DebPriority};
use crate::text::{
    index_of, is_trimmed, join, lemma_index_of_concat, lemma_join_lacks, lemma_split_join,
    lemma_trim_after_space, lemma_trim_trimmed, split_trimmed, trim,
};
use vstd::prelude::*;

verus! {

/// A text that is written and read back unchanged as the value of a field: it
/// neither begins nor ends with white space and holds no newline.
pub open spec fn is_plain(s: Seq<char>) -> bool {
    is_trimmed(s) && !s.contains('\n')
}

/// A list that is written and read back unchanged as the value of a field:
/// each item is plain and holds no comma, and the list is not the single
/// empty item, for which nothing would be written.
pub open spec fn is_plain_list(items: Seq<Seq<char>>) -> bool {
    &&& forall|i: int|
        0 <= i < items.len() ==> is_plain(#[trigger] items[i]) && !items[i].contains(',')
    &&& !(items.len() == 1 && items[0].len() == 0)
}

/// The records that are read back as they were written: every text and every
/// written list is plain, and the three fields that are not written, or not
/// read back as they were written, are empty.
pub open spec fn survives_writing(r: ControlView) -> bool {
    &&& is_plain(r.name)
    &&& is_plain(r.version)
    &&& is_plain(r.maintainer)
    &&& is_plain(r.description)
    &&& is_plain(r.homepage)
    &&& is_plain_list(r.depends)
    &&& is_plain_list(r.pre_depends)
    &&& is_plain_list(r.recommends)
    &&& is_plain_list(r.suggests)
    &&& is_plain_list(r.breaks)
    &&& is_plain_list(r.conflicts)
    &&& is_plain_list(r.enhances)
    &&& r.provides.len() == 0
    &&& r.replaces.len() == 0
    &&& r.built_using.len() == 0
}

/// What can stand as the key of a field line: a text that is not empty,
/// neither begins nor ends with white space, and holds no colon or newline.
pub open spec fn is_key(key: Seq<char>) -> bool {
    &&& key.len() > 0
    &&& is_trimmed(key)
    &&& !key.contains(':')
    &&& !key.contains('\n')
}

/// The characters of field names and tokens: letters, digits and the hyphen.
pub open spec fn is_key_char(c: char) -> bool {
    ('a' <= c && c <= 'z') || ('A' <= c && c <= 'Z') || ('0' <= c && c <= '9') || c == '-'
}

/// The characters of every field name.
pub proof fn lemma_keys_known()
    ensures
        "Package"@.len() == 7,
        "Package"@[0] == 'P',
        "Package"@[1] == 'a',
        "Package"@[2] == 'c',
        "Package"@[3] == 'k',
        "Package"@[4] == 'a',
        "Package"@[5] == 'g',
        "Package"@[6] == 'e',
        "Version"@.len() == 7,
        "Version"@[0] == 'V',
        "Version"@[1] == 'e',
        "Version"@[2] == 'r',
        "Version"@[3] == 's',
        "Version"@[4] == 'i',
        "Version"@[5] == 'o',
        "Version"@[6] == 'n',
        "Priority"@.len() == 8,
        "Priority"@[0] == 'P',
        "Priority"@[1] == 'r',
        "Priority"@[2] == 'i',
        "Priority"@[3] == 'o',
        "Priority"@[4] == 'r',
        "Priority"@[5] == 'i',
        "Priority"@[6] == 't',
        "Priority"@[7] == 'y',
        "Architecture"@.len() == 12,
        "Architecture"@[0] == 'A',
        "Architecture"@[1] == 'r',
        "Architecture"@[2] == 'c',
        "Architecture"@[3] == 'h',
        "Architecture"@[4] == 'i',
        "Architecture"@[5] == 't',
        "Architecture"@[6] == 'e',
        "Architecture"@[7] == 'c',
        "Architecture"@[8] == 't',
        "Architecture"@[9] == 'u',
        "Architecture"@[10] == 'r',
        "Architecture"@[11] == 'e',
        "Essential"@.len() == 9,
        "Essential"@[0] == 'E',
        "Essential"@[1] == 's',
        "Essential"@[2] == 's',
        "Essential"@[3] == 'e',
        "Essential"@[4] == 'n',
        "Essential"@[5] == 't',
        "Essential"@[6] == 'i',
        "Essential"@[7] == 'a',
        "Essential"@[8] == 'l',
        "Depends"@.len() == 7,
        "Depends"@[0] == 'D',
        "Depends"@[1] == 'e',
        "Depends"@[2] == 'p',
        "Depends"@[3] == 'e',
        "Depends"@[4] == 'n',
        "Depends"@[5] == 'd',
        "Depends"@[6] == 's',
        "Pre-Depends"@.len() == 11,
        "Pre-Depends"@[0] == 'P',
        "Pre-Depends"@[1] == 'r',
        "Pre-Depends"@[2] == 'e',
        "Pre-Depends"@[3] == '-',
        "Pre-Depends"@[4] == 'D',
        "Pre-Depends"@[5] == 'e',
        "Pre-Depends"@[6] == 'p',
        "Pre-Depends"@[7] == 'e',
        "Pre-Depends"@[8] == 'n',
        "Pre-Depends"@[9] == 'd',
        "Pre-Depends"@[10] == 's',
        "Recommends"@.len() == 10,
        "Recommends"@[0] == 'R',
        "Recommends"@[1] == 'e',
        "Recommends"@[2] == 'c',
        "Recommends"@[3] == 'o',
        "Recommends"@[4] == 'm',
        "Recommends"@[5] == 'm',
        "Recommends"@[6] == 'e',
        "Recommends"@[7] == 'n',
        "Recommends"@[8] == 'd',
        "Recommends"@[9] == 's',
        "Suggests"@.len() == 8,
        "Suggests"@[0] == 'S',
        "Suggests"@[1] == 'u',
        "Suggests"@[2] == 'g',
        "Suggests"@[3] == 'g',
        "Suggests"@[4] == 'e',
        "Suggests"@[5] == 's',
        "Suggests"@[6] == 't',
        "Suggests"@[7] == 's',
        "Breaks"@.len() == 6,
        "Breaks"@[0] == 'B',
        "Breaks"@[1] == 'r',
        "Breaks"@[2] == 'e',
        "Breaks"@[3] == 'a',
        "Breaks"@[4] == 'k',
        "Breaks"@[5] == 's',
        "Conflicts"@.len() == 9,
        "Conflicts"@[0] == 'C',
        "Conflicts"@[1] == 'o',
        "Conflicts"@[2] == 'n',
        "Conflicts"@[3] == 'f',
        "Conflicts"@[4] == 'l',
        "Conflicts"@[5] == 'i',
        "Conflicts"@[6] == 'c',
        "Conflicts"@[7] == 't',
        "Conflicts"@[8] == 's',
        "Provides"@.len() == 8,
        "Provides"@[0] == 'P',
        "Provides"@[1] == 'r',
        "Provides"@[2] == 'o',
        "Provides"@[3] == 'v',
        "Provides"@[4] == 'i',
        "Provides"@[5] == 'd',
        "Provides"@[6] == 'e',
        "Provides"@[7] == 's',
        "Replaces"@.len() == 8,
        "Replaces"@[0] == 'R',
        "Replaces"@[1] == 'e',
        "Replaces"@[2] == 'p',
        "Replaces"@[3] == 'l',
        "Replaces"@[4] == 'a',
        "Replaces"@[5] == 'c',
        "Replaces"@[6] == 'e',
        "Replaces"@[7] == 's',
        "Enhances"@.len() == 8,
        "Enhances"@[0] == 'E',
        "Enhances"@[1] == 'n',
        "Enhances"@[2] == 'h',
        "Enhances"@[3] == 'a',
        "Enhances"@[4] == 'n',
        "Enhances"@[5] == 'c',
        "Enhances"@[6] == 'e',
        "Enhances"@[7] == 's',
        "Maintainer"@.len() == 10,
        "Maintainer"@[0] == 'M',
        "Maintainer"@[1] == 'a',
        "Maintainer"@[2] == 'i',
        "Maintainer"@[3] == 'n',
        "Maintainer"@[4] == 't',
        "Maintainer"@[5] == 'a',
        "Maintainer"@[6] == 'i',
        "Maintainer"@[7] == 'n',
        "Maintainer"@[8] == 'e',
        "Maintainer"@[9] == 'r',
        "Description"@.len() == 11,
        "Description"@[0] == 'D',
        "Description"@[1] == 'e',
        "Description"@[2] == 's',
        "Description"@[3] == 'c',
        "Description"@[4] == 'r',
        "Description"@[5] == 'i',
        "Description"@[6] == 'p',
        "Description"@[7] == 't',
        "Description"@[8] == 'i',
        "Description"@[9] == 'o',
        "Description"@[10] == 'n',
        "Homepage"@.len() == 8,
        "Homepage"@[0] == 'H',
        "Homepage"@[1] == 'o',
        "Homepage"@[2] == 'm',
        "Homepage"@[3] == 'e',
        "Homepage"@[4] == 'p',
        "Homepage"@[5] == 'a',
        "Homepage"@[6] == 'g',
        "Homepage"@[7] == 'e',
        "Built-Using"@.len() == 11,
        "Built-Using"@[0] == 'B',
        "Built-Using"@[1] == 'u',
        "Built-Using"@[2] == 'i',
        "Built-Using"@[3] == 'l',
        "Built-Using"@[4] == 't',
        "Built-Using"@[5] == '-',
        "Built-Using"@[6] == 'U',
        "Built-Using"@[7] == 's',
        "Built-Using"@[8] == 'i',
        "Built-Using"@[9] == 'n',
        "Built-Using"@[10] == 'g',
{
    reveal_strlit("Package");
    reveal_strlit("Version");
    reveal_strlit("Priority");
    reveal_strlit("Architecture");
    reveal_strlit("Essential");
    reveal_strlit("Depends");
    reveal_strlit("Pre-Depends");
    reveal_strlit("Recommends");
    reveal_strlit("Suggests");
    reveal_strlit("Breaks");
    reveal_strlit("Conflicts");
    reveal_strlit("Provides");
    reveal_strlit("Replaces");
    reveal_strlit("Enhances");
    reveal_strlit("Maintainer");
    reveal_strlit("Description");
    reveal_strlit("Homepage");
    reveal_strlit("Built-Using");
}

/// Every field name can stand as the key of a field line.
pub proof fn lemma_keys_are_keys()
    ensures
        is_key("Package"@),
        is_key("Version"@),
        is_key("Priority"@),
        is_key("Architecture"@),
        is_key("Essential"@),
        is_key("Depends"@),
        is_key("Pre-Depends"@),
        is_key("Recommends"@),
        is_key("Suggests"@),
        is_key("Breaks"@),
        is_key("Conflicts"@),
        is_key("Provides"@),
        is_key("Replaces"@),
        is_key("Enhances"@),
        is_key("Maintainer"@),
        is_key("Description"@),
        is_key("Homepage"@),
        is_key("Built-Using"@),
{
    lemma_keys_known();
    lemma_is_key("Package"@);
    lemma_is_key("Version"@);
    lemma_is_key("Priority"@);
    lemma_is_key("Architecture"@);
    lemma_is_key("Essential"@);
    lemma_is_key("Depends"@);
    lemma_is_key("Pre-Depends"@);
    lemma_is_key("Recommends"@);
    lemma_is_key("Suggests"@);
    lemma_is_key("Breaks"@);
    lemma_is_key("Conflicts"@);
    lemma_is_key("Provides"@);
    lemma_is_key("Replaces"@);
    lemma_is_key("Enhances"@);
    lemma_is_key("Maintainer"@);
    lemma_is_key("Description"@);
    lemma_is_key("Homepage"@);
    lemma_is_key("Built-Using"@);
}

/// A text of letters, digits and hyphens can stand as a key.
pub proof fn lemma_is_key(key: Seq<char>)
    requires
        key.len() > 0,
        forall|i: int| 0 <= i < key.len() ==> is_key_char(#[trigger] key[i]),
    ensures
        is_key(key),
{
    if key.contains(':') {
        let k = choose|k: int| 0 <= k < key.len() && key[k] == ':';
        assert(is_key_char(key[k]));
    }
    if key.contains('\n') {
        let k = choose|k: int| 0 <= k < key.len() && key[k] == '\n';
        assert(is_key_char(key[k]));
    }
    assert(is_key_char(key[0]));
    assert(is_key_char(key[key.len() - 1]));
}

/// The token of a priority can stand as a value: it is plain and not empty.
pub proof fn lemma_priority_token_plain(priority: DebPriority)
    ensures
        is_plain(priority.token()),
        priority.token().len() > 0,
{
    DebPriority::lemma_tokens_known();
    lemma_is_key(priority.token());
}

/// The token of an architecture can stand as a value: it is plain and not
/// empty.
pub proof fn lemma_architecture_token_plain(architecture: DebArchitecture)
    ensures
        is_plain(architecture.token()),
        architecture.token().len() > 0,
{
    DebArchitecture::lemma_tokens_known();
    lemma_is_key(architecture.token());
}

/// Reading a text that begins with the line of a field: the field is read
/// from what follows the colon, and reading goes on behind the newline. Where
/// the value is empty there is no line, and nothing is read.
pub proof fn lemma_field_line(rec: ControlView, key: Seq<char>, value: Seq<char>, rest: Seq<char>)
    requires
        is_key(key),
        !value.contains('\n'),
    ensures
        with_lines(rec, field_text(key, value) + rest) == (if value.len() == 0 {
            with_lines(rec, rest)
        } else {
            match with_field(rec, key, seq![' '] + value) {
                Ok(next) => with_lines(next, rest),
                Err(e) => Err(e),
            }
        }),
{
    reveal_strlit(": ");
    reveal_strlit("\n");
    if value.len() == 0 {
        assert(field_text(key, value) + rest == rest);
    } else {
        let line = key + seq![':', ' '] + value;
        let text = field_text(key, value) + rest;
        assert(": "@ == seq![':', ' ']);
        assert("\n"@ == seq!['\n']);
        assert(text == line + (seq!['\n'] + rest));
        assert(!line.contains('\n')) by {
            if line.contains('\n') {
                let k = choose|k: int| 0 <= k < line.len() && line[k] == '\n';
                if k < key.len() {
                    assert(key.contains(key[k]));
                } else if k >= key.len() + 2 {
                    assert(value.contains(value[k - key.len() - 2]));
                }
            }
        }
        lemma_index_of_concat(line, seq!['\n'] + rest, '\n');
        assert(index_of(seq!['\n'] + rest, '\n') == 0);
        assert(index_of(text, '\n') == line.len());
        assert(text.take(line.len() as int) == line);
        assert(text.skip(line.len() as int + 1) == rest);
        assert(line == key + (seq![':', ' '] + value));
        lemma_index_of_concat(key, seq![':', ' '] + value, ':');
        assert(index_of(seq![':', ' '] + value, ':') == 0);
        assert(index_of(line, ':') == key.len());
        assert(line.take(key.len() as int) == key);
        assert(line.skip(key.len() as int + 1) == seq![' '] + value);
        lemma_trim_trimmed(key);
        assert(with_line(rec, line) == with_field(rec, key, seq![' '] + value));
    }
}

/// What each written field does to a record when it is read.
pub proof fn lemma_with_field(rec: ControlView, raw: Seq<char>)
    ensures
        with_field(rec, "Package"@, raw) == Ok::<ControlView, DebError>(
            ControlView { name: trim(raw), ..rec },
        ),
        with_field(rec, "Version"@, raw) == Ok::<ControlView, DebError>(
            ControlView { version: trim(raw), ..rec },
        ),
        with_field(rec, "Maintainer"@, raw) == Ok::<ControlView, DebError>(
            ControlView { maintainer: trim(raw), ..rec },
        ),
        with_field(rec, "Description"@, raw) == Ok::<ControlView, DebError>(
            ControlView { description: trim(raw), ..rec },
        ),
        with_field(rec, "Homepage"@, raw) == Ok::<ControlView, DebError>(
            ControlView { homepage: trim(raw), ..rec },
        ),
        with_field(rec, "Depends"@, raw) == Ok::<ControlView, DebError>(
            ControlView { depends: split_trimmed(raw, ','), ..rec },
        ),
        with_field(rec, "Pre-Depends"@, raw) == Ok::<ControlView, DebError>(
            ControlView { pre_depends: split_trimmed(raw, ','), ..rec },
        ),
        with_field(rec, "Recommends"@, raw) == Ok::<ControlView, DebError>(
            ControlView { recommends: split_trimmed(raw, ','), ..rec },
        ),
        with_field(rec, "Suggests"@, raw) == Ok::<ControlView, DebError>(
            ControlView { suggests: split_trimmed(raw, ','), ..rec },
        ),
        with_field(rec, "Breaks"@, raw) == Ok::<ControlView, DebError>(
            ControlView { breaks: split_trimmed(raw, ','), ..rec },
        ),
        with_field(rec, "Conflicts"@, raw) == Ok::<ControlView, DebError>(
            ControlView { conflicts: split_trimmed(raw, ','), ..rec },
        ),
        with_field(rec, "Enhances"@, raw) == Ok::<ControlView, DebError>(
            ControlView { enhances: split_trimmed(raw, ','), ..rec },
        ),
        DebPriority::parse(trim(raw)) matches Some(priority) ==> with_field(rec, "Priority"@, raw)
            == Ok::<ControlView, DebError>(ControlView { priority: priority, ..rec }),
        DebArchitecture::parse(trim(raw)) matches Some(architecture) ==> with_field(
            rec,
            "Architecture"@,
            raw,
        ) == Ok::<ControlView, DebError>(ControlView { architecture: architecture, ..rec }),
        trim(raw) == "yes"@ ==> with_field(rec, "Essential"@, raw) == Ok::<ControlView, DebError>(
            ControlView { essential: true, ..rec },
        ),
{
    lemma_keys_known();
}

/// Writing a plain text as the value of a field and reading it back.
proof fn lemma_text_value(value: Seq<char>)
    requires
        is_plain(value),
    ensures
        trim(seq![' '] + value) == value,
{
    lemma_trim_after_space(value);
}

/// Writing a plain list as the value of a field and reading it back.
proof fn lemma_list_value(items: Seq<Seq<char>>)
    requires
        is_plain_list(items),
    ensures
        !join(items, ", "@).contains('\n'),
        join(items, ", "@).len() > 0 ==> split_trimmed(seq![' '] + join(items, ", "@), ',')
            == items,
        join(items, ", "@).len() == 0 ==> items.len() == 0,
{
    reveal_strlit(", ");
    let sep = seq![',', ' '];
    assert(", "@ == sep);
    lemma_join_lacks(items, sep, '\n');
    if items.len() >= 1 {
        lemma_split_join(items);
        if items.len() >= 2 {
            assert(join(items, sep) == join(items.drop_last(), sep) + sep + items.last());
        }
    }
}

/// Reading the line that was written for the field `Package`.
proof fn lemma_read_name(prev: ControlView, value: Seq<char>, rest: Seq<char>)
    requires
        is_plain(value),
        value.len() == 0 ==> prev.name.len() == 0,
    ensures
        with_lines(prev, field_text("Package"@, value) + rest) == with_lines(
            ControlView { name: value, ..prev },
            rest,
        ),
{
    lemma_keys_are_keys();
    lemma_text_value(value);
    lemma_field_line(prev, "Package"@, value, rest);
    lemma_with_field(prev, seq![' '] + value);
    if value.len() == 0 {
        assert(prev.name == value);
    }
}

/// Reading the line that was written for the field `Version`.
proof fn lemma_read_version(prev: ControlView, value: Seq<char>, rest: Seq<char>)
    requires
        is_plain(value),
        value.len() == 0 ==> prev.version.len() == 0,
    ensures
        with_lines(prev, field_text("Version"@, value) + rest) == with_lines(
            ControlView { version: value, ..prev },
            rest,
        ),
{
    lemma_keys_are_keys();
    lemma_text_value(value);
    lemma_field_line(prev, "Version"@, value, rest);
    lemma_with_field(prev, seq![' '] + value);
    if value.len() == 0 {
        assert(prev.version == value);
    }
}

/// Reading the line that was written for the field `Priority`.
proof fn lemma_read_priority(prev: ControlView, priority: DebPriority, rest: Seq<char>)
    requires
        prev.priority == DebPriority::Optional,
    ensures
        with_lines(prev, field_text("Priority"@, priority_text(priority)) + rest) == with_lines(
            ControlView { priority: priority, ..prev },
            rest,
        ),
{
    lemma_keys_are_keys();
    lemma_priority_token_plain(priority);
    if priority != DebPriority::Optional {
        lemma_text_value(priority.token());
        priority.lemma_parse_token();
        lemma_field_line(prev, "Priority"@, priority.token(), rest);
        lemma_with_field(prev, seq![' '] + priority.token());
    } else {
        lemma_field_line(prev, "Priority"@, Seq::empty(), rest);
    }
}

/// Reading the line that was written for the field `Architecture`.
proof fn lemma_read_architecture(prev: ControlView, architecture: DebArchitecture, rest: Seq<char>)
    ensures
        with_lines(prev, field_text("Architecture"@, architecture.token()) + rest) == with_lines(
            ControlView { architecture: architecture, ..prev },
            rest,
        ),
{
    lemma_keys_are_keys();
    lemma_architecture_token_plain(architecture);
    lemma_text_value(architecture.token());
    architecture.lemma_parse_token();
    lemma_field_line(prev, "Architecture"@, architecture.token(), rest);
    lemma_with_field(prev, seq![' '] + architecture.token());
}

/// Reading the line that was written for the field `Essential`.
proof fn lemma_read_essential(prev: ControlView, essential: bool, rest: Seq<char>)
    requires
        !prev.essential,
    ensures
        with_lines(prev, field_text("Essential"@, essential_text(essential)) + rest) == with_lines(
            ControlView { essential: essential, ..prev },
            rest,
        ),
{
    lemma_keys_are_keys();
    reveal_strlit("yes");
    if essential {
        lemma_is_key("yes"@);
        lemma_text_value("yes"@);
        lemma_field_line(prev, "Essential"@, "yes"@, rest);
        lemma_with_field(prev, seq![' '] + "yes"@);
    } else {
        lemma_field_line(prev, "Essential"@, Seq::empty(), rest);
    }
}

/// Reading the line that was written for the field `Depends`.
proof fn lemma_read_depends(prev: ControlView, items: Seq<Seq<char>>, rest: Seq<char>)
    requires
        is_plain_list(items),
        prev.depends.len() == 0,
    ensures
        with_lines(prev, field_text("Depends"@, join(items, ", "@)) + rest) == with_lines(
            ControlView { depends: items, ..prev },
            rest,
        ),
{
    lemma_keys_are_keys();
    lemma_list_value(items);
    lemma_field_line(prev, "Depends"@, join(items, ", "@), rest);
    lemma_with_field(prev, seq![' '] + join(items, ", "@));
    if join(items, ", "@).len() == 0 {
        assert(prev.depends == items);
    }
}

/// Reading the line that was written for the field `Pre-Depends`.
proof fn lemma_read_pre_depends(prev: ControlView, items: Seq<Seq<char>>, rest: Seq<char>)
    requires
        is_plain_list(items),
        prev.pre_depends.len() == 0,
    ensures
        with_lines(prev, field_text("Pre-Depends"@, join(items, ", "@)) + rest) == with_lines(
            ControlView { pre_depends: items, ..prev },
            rest,
        ),
{
    lemma_keys_are_keys();
    lemma_list_value(items);
    lemma_field_line(prev, "Pre-Depends"@, join(items, ", "@), rest);
    lemma_with_field(prev, seq![' '] + join(items, ", "@));
    if join(items, ", "@).len() == 0 {
        assert(prev.pre_depends == items);
    }
}

/// Reading the line that was written for the field `Recommends`.
proof fn lemma_read_recommends(prev: ControlView, items: Seq<Seq<char>>, rest: Seq<char>)
    requires
        is_plain_list(items),
        prev.recommends.len() == 0,
    ensures
        with_lines(prev, field_text("Recommends"@, join(items, ", "@)) + rest) == with_lines(
            ControlView { recommends: items, ..prev },
            rest,
        ),
{
    lemma_keys_are_keys();
    lemma_list_value(items);
    lemma_field_line(prev, "Recommends"@, join(items, ", "@), rest);
    lemma_with_field(prev, seq![' '] + join(items, ", "@));
    if join(items, ", "@).len() == 0 {
        assert(prev.recommends == items);
    }
}

/// Reading the line that was written for the field `Suggests`.
proof fn lemma_read_suggests(prev: ControlView, items: Seq<Seq<char>>, rest: Seq<char>)
    requires
        is_plain_list(items),
        prev.suggests.len() == 0,
    ensures
        with_lines(prev, field_text("Suggests"@, join(items, ", "@)) + rest) == with_lines(
            ControlView { suggests: items, ..prev },
            rest,
        ),
{
    lemma_keys_are_keys();
    lemma_list_value(items);
    lemma_field_line(prev, "Suggests"@, join(items, ", "@), rest);
    lemma_with_field(prev, seq![' '] + join(items, ", "@));
    if join(items, ", "@).len() == 0 {
        assert(prev.suggests == items);
    }
}

/// Reading the line that was written for the field `Breaks`.
proof fn lemma_read_breaks(prev: ControlView, items: Seq<Seq<char>>, rest: Seq<char>)
    requires
        is_plain_list(items),
        prev.breaks.len() == 0,
    ensures
        with_lines(prev, field_text("Breaks"@, join(items, ", "@)) + rest) == with_lines(
            ControlView { breaks: items, ..prev },
            rest,
        ),
{
    lemma_keys_are_keys();
    lemma_list_value(items);
    lemma_field_line(prev, "Breaks"@, join(items, ", "@), rest);
    lemma_with_field(prev, seq![' '] + join(items, ", "@));
    if join(items, ", "@).len() == 0 {
        assert(prev.breaks == items);
    }
}

/// Reading the line that was written for the field `Conflicts`.
proof fn lemma_read_conflicts(prev: ControlView, items: Seq<Seq<char>>, rest: Seq<char>)
    requires
        is_plain_list(items),
        prev.conflicts.len() == 0,
    ensures
        with_lines(prev, field_text("Conflicts"@, join(items, ", "@)) + rest) == with_lines(
            ControlView { conflicts: items, ..prev },
            rest,
        ),
{
    lemma_keys_are_keys();
    lemma_list_value(items);
    lemma_field_line(prev, "Conflicts"@, join(items, ", "@), rest);
    lemma_with_field(prev, seq![' '] + join(items, ", "@));
    if join(items, ", "@).len() == 0 {
        assert(prev.conflicts == items);
    }
}

/// Reading the line that was written for the field `Enhances`.
proof fn lemma_read_enhances(prev: ControlView, items: Seq<Seq<char>>, rest: Seq<char>)
    requires
        is_plain_list(items),
        prev.enhances.len() == 0,
    ensures
        with_lines(prev, field_text("Enhances"@, join(items, ", "@)) + rest) == with_lines(
            ControlView { enhances: items, ..prev },
            rest,
        ),
{
    lemma_keys_are_keys();
    lemma_list_value(items);
    lemma_field_line(prev, "Enhances"@, join(items, ", "@), rest);
    lemma_with_field(prev, seq![' '] + join(items, ", "@));
    if join(items, ", "@).len() == 0 {
        assert(prev.enhances == items);
    }
}

/// Reading the line that was written for the field `Maintainer`.
proof fn lemma_read_maintainer(prev: ControlView, value: Seq<char>, rest: Seq<char>)
    requires
        is_plain(value),
        value.len() == 0 ==> prev.maintainer.len() == 0,
    ensures
        with_lines(prev, field_text("Maintainer"@, value) + rest) == with_lines(
            ControlView { maintainer: value, ..prev },
            rest,
        ),
{
    lemma_keys_are_keys();
    lemma_text_value(value);
    lemma_field_line(prev, "Maintainer"@, value, rest);
    lemma_with_field(prev, seq![' '] + value);
    if value.len() == 0 {
        assert(prev.maintainer == value);
    }
}

/// Reading the line that was written for the field `Description`.
proof fn lemma_read_description(prev: ControlView, value: Seq<char>, rest: Seq<char>)
    requires
        is_plain(value),
        value.len() == 0 ==> prev.description.len() == 0,
    ensures
        with_lines(prev, field_text("Description"@, value) + rest) == with_lines(
            ControlView { description: value, ..prev },
            rest,
        ),
{
    lemma_keys_are_keys();
    lemma_text_value(value);
    lemma_field_line(prev, "Description"@, value, rest);
    lemma_with_field(prev, seq![' '] + value);
    if value.len() == 0 {
        assert(prev.description == value);
    }
}

/// Reading the line that was written for the field `Homepage`.
proof fn lemma_read_homepage(prev: ControlView, value: Seq<char>, rest: Seq<char>)
    requires
        is_plain(value),
        value.len() == 0 ==> prev.homepage.len() == 0,
    ensures
        with_lines(prev, field_text("Homepage"@, value) + rest) == with_lines(
            ControlView { homepage: value, ..prev },
            rest,
        ),
{
    lemma_keys_are_keys();
    lemma_text_value(value);
    lemma_field_line(prev, "Homepage"@, value, rest);
    lemma_with_field(prev, seq![' '] + value);
    if value.len() == 0 {
        assert(prev.homepage == value);
    }
}

/// The line of the `k`-th written field of a record, counted from 0;
/// `Built-Using`, the last, is left out.
pub open spec fn line_of(r: ControlView, k: int) -> Seq<char> {
    if k == 0 {
        field_text("Package"@, r.name)
    } else if k == 1 {
        field_text("Version"@, r.version)
    } else if k == 2 {
        field_text("Priority"@, priority_text(r.priority))
    } else if k == 3 {
        field_text("Architecture"@, r.architecture.token())
    } else if k == 4 {
        field_text("Essential"@, essential_text(r.essential))
    } else if k == 5 {
        field_text("Depends"@, join(r.depends, ", "@))
    } else if k == 6 {
        field_text("Pre-Depends"@, join(r.pre_depends, ", "@))
    } else if k == 7 {
        field_text("Recommends"@, join(r.recommends, ", "@))
    } else if k == 8 {
        field_text("Suggests"@, join(r.suggests, ", "@))
    } else if k == 9 {
        field_text("Breaks"@, join(r.breaks, ", "@))
    } else if k == 10 {
        field_text("Conflicts"@, join(r.conflicts, ", "@))
    } else if k == 11 {
        field_text("Enhances"@, join(r.enhances, ", "@))
    } else if k == 12 {
        field_text("Maintainer"@, r.maintainer)
    } else if k == 13 {
        field_text("Description"@, r.description)
    } else {
        field_text("Homepage"@, r.homepage)
    }
}

/// The lines of a record from the `k`-th written field on, `Built-Using`
/// left out.
pub open spec fn lines_from(r: ControlView, k: int) -> Seq<char>
    decreases 15 - k,
{
    if k < 0 || k >= 15 {
        Seq::empty()
    } else {
        line_of(r, k) + lines_from(r, k + 1)
    }
}

/// The lines of a record before the `k`-th written field.
pub open spec fn lines_before(r: ControlView, k: int) -> Seq<char>
    decreases k,
{
    if k <= 0 {
        Seq::empty()
    } else {
        lines_before(r, k - 1) + line_of(r, k - 1)
    }
}

/// The lines before a field and those from it on are all the lines.
proof fn lemma_lines_split(r: ControlView, k: int)
    requires
        0 <= k <= 15,
    ensures
        lines_before(r, k) + lines_from(r, k) == lines_from(r, 0),
    decreases k,
{
    if k > 0 {
        lemma_lines_split(r, k - 1);
        assert(lines_from(r, k - 1) == line_of(r, k - 1) + lines_from(r, k));
        assert(lines_before(r, k) + lines_from(r, k) == lines_before(r, k - 1) + lines_from(
            r,
            k - 1,
        ));
    } else {
        assert(lines_before(r, 0) + lines_from(r, 0) == lines_from(r, 0));
    }
}

/// The text of a record without `Built-Using` items is its lines in order.
proof fn lemma_control_text_lines(r: ControlView)
    requires
        r.built_using.len() == 0,
    ensures
        control_text(r) == lines_from(r, 0),
{
    assert(built_using_items(r.built_using) == Seq::<Seq<char>>::empty());
    assert(field_text("Built-Using"@, join(built_using_items(r.built_using), ", "@))
        == Seq::<char>::empty());
    reveal_with_fuel(lines_before, 16);
    assert(control_text(r) == lines_before(r, 15));
    lemma_lines_split(r, 15);
    assert(lines_from(r, 15) == Seq::<char>::empty());
    assert(lines_before(r, 15) + lines_from(r, 15) == lines_before(r, 15));
}

/// A record that survives writing is read back from its text as it was
/// written.
pub proof fn lemma_control_text_round_trip(r: ControlView)
    requires
        survives_writing(r),
    ensures
        parse_control_text(control_text(r)) == Ok::<ControlView, DebError>(r),
{
    lemma_control_text_lines(r);
    let rec0 = blank_record(Seq::empty());
    let rec1 = ControlView { name: r.name, ..rec0 };
    assert(with_lines(rec0, lines_from(r, 0)) == with_lines(rec1, lines_from(r, 1))) by {
        assert(lines_from(r, 0) == line_of(r, 0) + lines_from(r, 1));
        lemma_read_name(rec0, r.name, lines_from(r, 1));
    }
    let rec2 = ControlView { version: r.version, ..rec1 };
    assert(with_lines(rec1, lines_from(r, 1)) == with_lines(rec2, lines_from(r, 2))) by {
        assert(lines_from(r, 1) == line_of(r, 1) + lines_from(r, 2));
        lemma_read_version(rec1, r.version, lines_from(r, 2));
    }
    let rec3 = ControlView { priority: r.priority, ..rec2 };
    assert(with_lines(rec2, lines_from(r, 2)) == with_lines(rec3, lines_from(r, 3))) by {
        assert(lines_from(r, 2) == line_of(r, 2) + lines_from(r, 3));
        lemma_read_priority(rec2, r.priority, lines_from(r, 3));
    }
    let rec4 = ControlView { architecture: r.architecture, ..rec3 };
    assert(with_lines(rec3, lines_from(r, 3)) == with_lines(rec4, lines_from(r, 4))) by {
        assert(lines_from(r, 3) == line_of(r, 3) + lines_from(r, 4));
        lemma_read_architecture(rec3, r.architecture, lines_from(r, 4));
    }
    let rec5 = ControlView { essential: r.essential, ..rec4 };
    assert(with_lines(rec4, lines_from(r, 4)) == with_lines(rec5, lines_from(r, 5))) by {
        assert(lines_from(r, 4) == line_of(r, 4) + lines_from(r, 5));
        lemma_read_essential(rec4, r.essential, lines_from(r, 5));
    }
    let rec6 = ControlView { depends: r.depends, ..rec5 };
    assert(with_lines(rec5, lines_from(r, 5)) == with_lines(rec6, lines_from(r, 6))) by {
        assert(lines_from(r, 5) == line_of(r, 5) + lines_from(r, 6));
        lemma_read_depends(rec5, r.depends, lines_from(r, 6));
    }
    let rec7 = ControlView { pre_depends: r.pre_depends, ..rec6 };
    assert(with_lines(rec6, lines_from(r, 6)) == with_lines(rec7, lines_from(r, 7))) by {
        assert(lines_from(r, 6) == line_of(r, 6) + lines_from(r, 7));
        lemma_read_pre_depends(rec6, r.pre_depends, lines_from(r, 7));
    }
    let rec8 = ControlView { recommends: r.recommends, ..rec7 };
    assert(with_lines(rec7, lines_from(r, 7)) == with_lines(rec8, lines_from(r, 8))) by {
        assert(lines_from(r, 7) == line_of(r, 7) + lines_from(r, 8));
        lemma_read_recommends(rec7, r.recommends, lines_from(r, 8));
    }
    let rec9 = ControlView { suggests: r.suggests, ..rec8 };
    assert(with_lines(rec8, lines_from(r, 8)) == with_lines(rec9, lines_from(r, 9))) by {
        assert(lines_from(r, 8) == line_of(r, 8) + lines_from(r, 9));
        lemma_read_suggests(rec8, r.suggests, lines_from(r, 9));
    }
    let rec10 = ControlView { breaks: r.breaks, ..rec9 };
    assert(with_lines(rec9, lines_from(r, 9)) == with_lines(rec10, lines_from(r, 10))) by {
        assert(lines_from(r, 9) == line_of(r, 9) + lines_from(r, 10));
        lemma_read_breaks(rec9, r.breaks, lines_from(r, 10));
    }
    let rec11 = ControlView { conflicts: r.conflicts, ..rec10 };
    assert(with_lines(rec10, lines_from(r, 10)) == with_lines(rec11, lines_from(r, 11))) by {
        assert(lines_from(r, 10) == line_of(r, 10) + lines_from(r, 11));
        lemma_read_conflicts(rec10, r.conflicts, lines_from(r, 11));
    }
    let rec12 = ControlView { enhances: r.enhances, ..rec11 };
    assert(with_lines(rec11, lines_from(r, 11)) == with_lines(rec12, lines_from(r, 12))) by {
        assert(lines_from(r, 11) == line_of(r, 11) + lines_from(r, 12));
        lemma_read_enhances(rec11, r.enhances, lines_from(r, 12));
    }
    let rec13 = ControlView { maintainer: r.maintainer, ..rec12 };
    assert(with_lines(rec12, lines_from(r, 12)) == with_lines(rec13, lines_from(r, 13))) by {
        assert(lines_from(r, 12) == line_of(r, 12) + lines_from(r, 13));
        lemma_read_maintainer(rec12, r.maintainer, lines_from(r, 13));
    }
    let rec14 = ControlView { description: r.description, ..rec13 };
    assert(with_lines(rec13, lines_from(r, 13)) == with_lines(rec14, lines_from(r, 14))) by {
        assert(lines_from(r, 13) == line_of(r, 13) + lines_from(r, 14));
        lemma_read_description(rec13, r.description, lines_from(r, 14));
    }
    let rec15 = ControlView { homepage: r.homepage, ..rec14 };
    assert(with_lines(rec14, lines_from(r, 14)) == with_lines(rec15, lines_from(r, 15))) by {
        assert(lines_from(r, 14) == line_of(r, 14) + lines_from(r, 15));
        lemma_read_homepage(rec14, r.homepage, lines_from(r, 15));
    }
    assert(rec15 == r) by {
        assert(r.provides == Seq::<Seq<char>>::empty());
        assert(r.replaces == Seq::<Seq<char>>::empty());
        assert(r.built_using == Seq::<(Seq<char>, Seq<char>)>::empty());
    }
    assert(lines_from(r, 15) == Seq::<char>::empty());
    assert(with_lines(rec15, lines_from(r, 15)) == Ok::<ControlView, DebError>(rec15));
}

/// Writing a control record and reading it back gives the record that was
/// written, for every record that survives writing: `deserialize` undoes
/// `serialize`.
pub proof fn lemma_control_round_trip(r: ControlView)
    requires
        survives_writing(r),
    ensures
        parse_control_bytes(control_bytes(r)) == Ok::<ControlView, DebError>(r),
{
    lemma_control_text_round_trip(r);
    vstd::utf8::encode_utf8_valid_utf8(control_text(r));
    vstd::utf8::encode_utf8_decode_utf8(control_text(r));
}


/// A record without what is never written: its `Provides` and `Replaces`
/// lists emptied.
pub open spec fn written_part(r: ControlView) -> ControlView {
    ControlView { provides: Seq::empty(), replaces: Seq::empty(), ..r }
}

/// Writing a control record and reading it back gives the record without
/// what is never written, wherever that part survives writing.
pub proof fn lemma_control_round_trip_of_written_part(r: ControlView)
    requires
        survives_writing(written_part(r)),
    ensures
        parse_control_bytes(control_bytes(r)) == Ok::<ControlView, DebError>(written_part(r)),
{
    assert(control_text(r) == control_text(written_part(r)));
    lemma_control_round_trip(written_part(r));
}

} // verus!
