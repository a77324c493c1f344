//! The control record of a package and its line-oriented text form.
use crate::error::DebError;
use crate::shared::{str_is, DebArchitecture, DebPriority};
use crate::text::{
    chars_of, find_char, index_of, join, split_trimmed, trim, trim_range,
};
use vstd::prelude::*;
use vstd::string::{StrSliceExecFns, StringExecFns};

verus! {

/// What a control record holds, as mathematical values.
pub struct ControlView {
    pub name: Seq<char>,
    pub version: Seq<char>,
    pub priority: DebPriority,
    pub architecture: DebArchitecture,
    pub essential: bool,
    pub depends: Seq<Seq<char>>,
    pub pre_depends: Seq<Seq<char>>,
    pub recommends: Seq<Seq<char>>,
    pub suggests: Seq<Seq<char>>,
    pub breaks: Seq<Seq<char>>,
    pub conflicts: Seq<Seq<char>>,
    pub provides: Seq<Seq<char>>,
    pub replaces: Seq<Seq<char>>,
    pub enhances: Seq<Seq<char>>,
    pub maintainer: Seq<char>,
    pub description: Seq<char>,
    pub homepage: Seq<char>,
    /// Pairs of a package's name and its version.
    pub built_using: Seq<(Seq<char>, Seq<char>)>,
}

/// Used in DebPackage to store a package's metadata.
///
/// More about these fields here:
/// https://www.debian.org/doc/debian-policy/ch-controlfields.html#binary-package-control-files-debian-control
///
/// Every list keeps the order in which its items were added; that order is
/// the order in which they are written.
#[derive(Debug)]
pub struct DebControl {
    pub name: String,
    pub version: String,
    pub priority: DebPriority,
    pub architecture: DebArchitecture,
    pub essential: bool,
    pub depends: Vec<String>,
    pub pre_depends: Vec<String>,
    pub recommends: Vec<String>,
    pub suggests: Vec<String>,
    pub breaks: Vec<String>,
    pub conflicts: Vec<String>,
    pub provides: Vec<String>,
    pub replaces: Vec<String>,
    pub enhances: Vec<String>,
    pub maintainer: String,
    pub description: String,
    pub homepage: String,
    pub built_using: Vec<[String; 2]>,
}

/// The texts that a vector of strings holds.
pub open spec fn texts(v: Seq<String>) -> Seq<Seq<char>> {
    Seq::new(v.len(), |i: int| v[i]@)
}

/// The pairs of texts that a vector of two-string arrays holds.
pub open spec fn text_pairs(v: Seq<[String; 2]>) -> Seq<(Seq<char>, Seq<char>)> {
    Seq::new(v.len(), |i: int| (v[i][0]@, v[i][1]@))
}

impl View for DebControl {
    type V = ControlView;

    open spec fn view(&self) -> ControlView {
        ControlView {
            name: self.name@,
            version: self.version@,
            priority: self.priority,
            architecture: self.architecture,
            essential: self.essential,
            depends: texts(self.depends@),
            pre_depends: texts(self.pre_depends@),
            recommends: texts(self.recommends@),
            suggests: texts(self.suggests@),
            breaks: texts(self.breaks@),
            conflicts: texts(self.conflicts@),
            provides: texts(self.provides@),
            replaces: texts(self.replaces@),
            enhances: texts(self.enhances@),
            maintainer: self.maintainer@,
            description: self.description@,
            homepage: self.homepage@,
            built_using: text_pairs(self.built_using@),
        }
    }
}

/// The record of a package of the given name, with nothing else set:
/// priority `optional`, architecture `all`, not essential, every text and list
/// empty.
pub open spec fn blank_record(name: Seq<char>) -> ControlView {
    ControlView {
        name: name,
        version: Seq::empty(),
        priority: DebPriority::Optional,
        architecture: DebArchitecture::All,
        essential: false,
        depends: Seq::empty(),
        pre_depends: Seq::empty(),
        recommends: Seq::empty(),
        suggests: Seq::empty(),
        breaks: Seq::empty(),
        conflicts: Seq::empty(),
        provides: Seq::empty(),
        replaces: Seq::empty(),
        enhances: Seq::empty(),
        maintainer: Seq::empty(),
        description: Seq::empty(),
        homepage: Seq::empty(),
        built_using: Seq::empty(),
    }
}

/// The line of a field: its key, a colon and a space, its value and a
/// newline. A field whose value is empty has no line.
pub open spec fn field_text(key: Seq<char>, value: Seq<char>) -> Seq<char> {
    if value.len() == 0 {
        Seq::empty()
    } else {
        key + ": "@ + value + "\n"@
    }
}

/// What is written for a priority: nothing for `optional`, which a record has
/// unless told otherwise, and else its token.
pub open spec fn priority_text(priority: DebPriority) -> Seq<char> {
    if priority == DebPriority::Optional {
        Seq::empty()
    } else {
        priority.token()
    }
}

/// What is written for the essential flag: `yes` where it is set, and nothing
/// where it is not.
pub open spec fn essential_text(essential: bool) -> Seq<char> {
    if essential {
        "yes"@
    } else {
        Seq::empty()
    }
}

/// One `Built-Using` item: the name, then the version as `(= version)`.
pub open spec fn built_using_item(pair: (Seq<char>, Seq<char>)) -> Seq<char> {
    pair.0 + " (= "@ + pair.1 + ")"@
}

/// The `Built-Using` items of a list of pairs.
pub open spec fn built_using_items(pairs: Seq<(Seq<char>, Seq<char>)>) -> Seq<Seq<char>> {
    Seq::new(pairs.len(), |i: int| built_using_item(pairs[i]))
}

/// The text form of a record: one line for each populated field, in this
/// order. `Provides` and `Replaces` are never written.
pub open spec fn control_text(r: ControlView) -> Seq<char> {
    field_text("Package"@, r.name) + field_text("Version"@, r.version) + field_text(
        "Priority"@,
        priority_text(r.priority),
    ) + field_text("Architecture"@, r.architecture.token()) + field_text(
        "Essential"@,
        essential_text(r.essential),
    ) + field_text("Depends"@, join(r.depends, ", "@)) + field_text(
        "Pre-Depends"@,
        join(r.pre_depends, ", "@),
    ) + field_text("Recommends"@, join(r.recommends, ", "@)) + field_text(
        "Suggests"@,
        join(r.suggests, ", "@),
    ) + field_text("Breaks"@, join(r.breaks, ", "@)) + field_text(
        "Conflicts"@,
        join(r.conflicts, ", "@),
    ) + field_text("Enhances"@, join(r.enhances, ", "@)) + field_text(
        "Maintainer"@,
        r.maintainer,
    ) + field_text("Description"@, r.description) + field_text("Homepage"@, r.homepage)
        + field_text("Built-Using"@, join(built_using_items(r.built_using), ", "@))
}

/// The bytes of the text form of a record: its text in UTF-8.
pub open spec fn control_bytes(r: ControlView) -> Seq<u8> {
    vstd::utf8::encode_utf8(control_text(r))
}

/// Whether a `(= version)` part begins at index `p` of `s` and ends `s`: an
/// opening bracket, an equals sign and a space, then characters that are no
/// brackets, then a closing bracket that is the last character of `s`.
pub open spec fn is_version_at(s: Seq<char>, p: int) -> bool {
    &&& 0 <= p
    &&& p + 4 <= s.len()
    &&& s[p] == '('
    &&& s[p + 1] == '='
    &&& s[p + 2] == ' '
    &&& s.last() == ')'
    &&& forall|k: int| p + 3 <= k < s.len() - 1 ==> s[k] != '(' && s[k] != ')'
}

/// The `(= version)` part that ends `s`, brackets included, if `s` ends with
/// one.
pub open spec fn version_part(s: Seq<char>) -> Option<Seq<char>> {
    if exists|p: int| is_version_at(s, p) {
        Some(s.skip(choose|p: int| is_version_at(s, p)))
    } else {
        None
    }
}

/// The regular expression that finds the `(= version)` part.
pub open spec fn version_pattern() -> Seq<char> {
    "\\(= ([^()]*)\\)$"@
}

/// What stands before the first space of `s`.
pub open spec fn first_word(s: Seq<char>) -> Seq<char> {
    s.take(index_of(s, ' '))
}

/// The pairs that `Built-Using` items stand for: of each item its first word
/// and its `(= version)` part, which is kept with its brackets. There are none
/// where an item has no such part.
pub open spec fn built_using_pairs(items: Seq<Seq<char>>) -> Option<Seq<(Seq<char>, Seq<char>)>>
    decreases items.len(),
{
    if items.len() == 0 {
        Some(Seq::empty())
    } else {
        match (built_using_pairs(items.drop_last()), version_part(items.last())) {
            (Some(pairs), Some(version)) => Some(pairs.push((first_word(items.last()), version))),
            _ => None,
        }
    }
}

/// The record `r` after a field line with the given key, whose text after the
/// colon is `raw`. Keys are matched exactly. A text field takes the trimmed
/// value, a list field its comma-separated items, each trimmed.
pub open spec fn with_field(r: ControlView, key: Seq<char>, raw: Seq<char>) -> Result<
    ControlView,
    DebError,
> {
    let value = trim(raw);
    let items = split_trimmed(raw, ',');
    if key == "Package"@ {
        Ok(ControlView { name: value, ..r })
    } else if key == "Version"@ {
        Ok(ControlView { version: value, ..r })
    } else if key == "Priority"@ {
        match DebPriority::parse(value) {
            Some(priority) => Ok(ControlView { priority: priority, ..r }),
            None => Err(DebError::UnsupportedToken),
        }
    } else if key == "Architecture"@ {
        match DebArchitecture::parse(value) {
            Some(architecture) => Ok(ControlView { architecture: architecture, ..r }),
            None => Err(DebError::UnsupportedToken),
        }
    } else if key == "Essential"@ {
        if value == "yes"@ {
            Ok(ControlView { essential: true, ..r })
        } else if value == "no"@ {
            Ok(ControlView { essential: false, ..r })
        } else {
            Err(DebError::InvalidControlSyntax)
        }
    } else if key == "Depends"@ {
        Ok(ControlView { depends: items, ..r })
    } else if key == "Pre-Depends"@ {
        Ok(ControlView { pre_depends: items, ..r })
    } else if key == "Recommends"@ {
        Ok(ControlView { recommends: items, ..r })
    } else if key == "Suggests"@ {
        Ok(ControlView { suggests: items, ..r })
    } else if key == "Breaks"@ {
        Ok(ControlView { breaks: items, ..r })
    } else if key == "Conflicts"@ {
        Ok(ControlView { conflicts: items, ..r })
    } else if key == "Provides"@ {
        Ok(ControlView { provides: items, ..r })
    } else if key == "Replaces"@ {
        Ok(ControlView { replaces: items, ..r })
    } else if key == "Enhances"@ {
        Ok(ControlView { enhances: items, ..r })
    } else if key == "Maintainer"@ {
        Ok(ControlView { maintainer: value, ..r })
    } else if key == "Description"@ {
        Ok(ControlView { description: value, ..r })
    } else if key == "Homepage"@ {
        Ok(ControlView { homepage: value, ..r })
    } else if key == "Built-Using"@ {
        match built_using_pairs(items) {
            Some(pairs) => Ok(ControlView { built_using: pairs, ..r }),
            None => Err(DebError::InvalidControlSyntax),
        }
    } else {
        Err(DebError::InvalidControlSyntax)
    }
}

/// The record `r` after one line. The line is split at its first colon: what
/// stands before it, trimmed, is the key. A line without a colon is invalid.
pub open spec fn with_line(r: ControlView, line: Seq<char>) -> Result<ControlView, DebError> {
    let i = index_of(line, ':');
    if 0 <= i < line.len() {
        with_field(r, trim(line.take(i)), line.skip(i + 1))
    } else {
        Err(DebError::InvalidControlSyntax)
    }
}

/// The record `r` after the lines of `text`, taken in order. Lines end at a
/// newline. What follows the last newline is a line too, unless it is empty.
/// The first line that is invalid decides the error.
pub open spec fn with_lines(r: ControlView, text: Seq<char>) -> Result<ControlView, DebError>
    decreases text.len(),
{
    let i = index_of(text, '\n');
    if 0 <= i < text.len() {
        match with_line(r, text.take(i)) {
            Ok(next) => with_lines(next, text.skip(i + 1)),
            Err(e) => Err(e),
        }
    } else if text.len() == 0 {
        Ok(r)
    } else {
        with_line(r, text)
    }
}

/// The record that a control text stands for, or why it stands for none.
/// Fields that the text does not name are as in a blank record without a name.
pub open spec fn parse_control_text(text: Seq<char>) -> Result<ControlView, DebError> {
    with_lines(blank_record(Seq::empty()), text)
}

/// The record that the bytes of a control file stand for, or why they stand
/// for none. Bytes that are not UTF-8 are an `EncodingError`.
pub open spec fn parse_control_bytes(bytes: Seq<u8>) -> Result<ControlView, DebError> {
    if vstd::utf8::valid_utf8(bytes) {
        parse_control_text(vstd::utf8::decode_utf8(bytes))
    } else {
        Err(DebError::EncodingError)
    }
}

#[verifier::external_type_specification]
#[verifier::external_body]
pub struct ExFromUtf8Error(std::string::FromUtf8Error);

#[verifier::external_type_specification]
#[verifier::external_body]
pub struct ExRegexError(regex::Error);

/// `String::from_utf8`: the string that the bytes encode in UTF-8, and an
/// error exactly where they are not UTF-8.
#[verifier::external_body]
pub(crate) fn string_from_utf8(bytes: Vec<u8>) -> (r: Result<String, std::string::FromUtf8Error>)
    ensures
        r is Ok == vstd::utf8::valid_utf8(bytes@),
        r matches Ok(text) ==> text@ == vstd::utf8::decode_utf8(bytes@),
{
    String::from_utf8(bytes)
}

/// `regex::Regex::find`, on the expression that `regex::Regex::new` compiles
/// from `pattern`: the leftmost match in `text`, as a string of its own.
///
/// The contract speaks of the version pattern only. That pattern is a valid
/// expression, so it compiles. It matches an opening bracket, an equals sign
/// and a space, any run of characters other than brackets, and a closing
/// bracket, at the very end of the text.
#[verifier::external_body]
fn find_pattern(pattern: &str, text: &str) -> (r: Result<Option<String>, regex::Error>)
    ensures
        pattern@ == version_pattern() ==> r is Ok,
        pattern@ == version_pattern() ==> (r matches Ok(Some(found)) ==> exists|p: int|
            is_version_at(text@, p) && found@ == text@.skip(p)),
        pattern@ == version_pattern() ==> (r matches Ok(None) ==> forall|p: int|
            !is_version_at(text@, p)),
{
    Ok(regex::Regex::new(pattern)?.find(text).map(|found| found.as_str().to_string()))
}

/// A text has at most one place where a `(= version)` part begins and ends it.
pub proof fn lemma_version_at_unique(s: Seq<char>, p: int, q: int)
    requires
        is_version_at(s, p),
        is_version_at(s, q),
    ensures
        p == q,
{
    if p < q {
        assert(s[q] == '(');
    } else if q < p {
        assert(s[p] == '(');
    }
}

/// The `(= version)` part that ends a text, if it ends with one.
fn find_version(text: &str) -> (r: Option<String>)
    ensures
        r is Some == version_part(text@) is Some,
        r matches Some(found) ==> version_part(text@) == Some(found@),
{
    match find_pattern("\\(= ([^()]*)\\)$", text) {
        Ok(Some(found)) => {
            proof {
                let p = choose|p: int| is_version_at(text@, p) && found@ == text@.skip(p);
                let q = choose|q: int| is_version_at(text@, q);
                lemma_version_at_unique(text@, p, q);
            }
            Some(found)
        },
        Ok(None) => None,
        Err(_) => None,
    }
}

/// The comma-separated items of a range of a text, each trimmed.
fn split_list(text: &str, chars: &Vec<char>, from: usize, to: usize) -> (items: Vec<String>)
    requires
        chars@ == text@,
        from <= to <= chars.len(),
    ensures
        texts(items@) == split_trimmed(chars@.subrange(from as int, to as int), ','),
{
    let mut items: Vec<String> = Vec::new();
    let mut start: usize = from;
    loop
        invariant
            chars@ == text@,
            from <= start <= to <= chars.len(),
            texts(items@) + split_trimmed(chars@.subrange(start as int, to as int), ',')
                == split_trimmed(chars@.subrange(from as int, to as int), ','),
        decreases to - start,
    {
        let comma = find_char(chars, start, to, ',');
        let ghost rest = chars@.subrange(start as int, to as int);
        let ghost before = texts(items@);
        if comma < to {
            let (a, b) = trim_range(chars, start, comma);
            items.push(String::from_str(text.substring_char(a, b)));
            proof {
                assert(rest.take(comma - start) == chars@.subrange(start as int, comma as int));
                assert(rest.skip(comma - start + 1) == chars@.subrange(comma + 1, to as int));
                assert(texts(items@) == before + seq![trim(rest.take(comma - start))]);
            }
            start = comma + 1;
        } else {
            let (a, b) = trim_range(chars, start, to);
            items.push(String::from_str(text.substring_char(a, b)));
            proof {
                assert(texts(items@) == before + seq![trim(rest)]);
            }
            return items;
        }
    }
}

/// The pairs that `Built-Using` items stand for, if each item has a version.
fn read_built_using(items: &Vec<String>) -> (r: Option<Vec<[String; 2]>>)
    ensures
        r is Some == built_using_pairs(texts(items@)) is Some,
        r matches Some(pairs) ==> built_using_pairs(texts(items@)) == Some(text_pairs(pairs@)),
{
    let mut pairs: Vec<[String; 2]> = Vec::new();
    let mut i: usize = 0;
    while i < items.len()
        invariant
            i <= items.len(),
            built_using_pairs(texts(items@).take(i as int)) == Some(text_pairs(pairs@)),
        decreases items.len() - i,
    {
        let entry = items[i].as_str();
        let ghost next = texts(items@).take(i + 1);
        proof {
            assert(next.drop_last() == texts(items@).take(i as int));
            assert(next.last() == entry@);
        }
        match find_version(entry) {
            Some(version) => {
                let entry_chars = chars_of(entry);
                let space = find_char(&entry_chars, 0, entry_chars.len(), ' ');
                let name = String::from_str(entry.substring_char(0, space));
                let ghost before = text_pairs(pairs@);
                proof {
                    assert(entry_chars@.subrange(0, entry_chars.len() as int) == entry@);
                    assert(name@ == first_word(entry@));
                }
                pairs.push([name, version]);
                proof {
                    assert(text_pairs(pairs@) == before.push((first_word(entry@), version@)));
                }
            },
            None => {
                proof {
                    lemma_built_using_stays_none(texts(items@), i + 1);
                }
                return None;
            },
        }
        i += 1;
    }
    assert(texts(items@).take(i as int) == texts(items@));
    Some(pairs)
}

/// Once the first items of a list stand for no pairs, no longer list does.
pub proof fn lemma_built_using_stays_none(items: Seq<Seq<char>>, n: int)
    requires
        0 <= n <= items.len(),
        built_using_pairs(items.take(n)) is None,
    ensures
        built_using_pairs(items) is None,
    decreases items.len() - n,
{
    if n < items.len() {
        assert(items.take(n + 1).drop_last() == items.take(n));
        lemma_built_using_stays_none(items, n + 1);
    } else {
        assert(items.take(n) == items);
    }
}

/// Appends the line of a field, if it has one.
fn put_field(out: &mut String, key: &str, value: &str)
    ensures
        final(out)@ == old(out)@ + field_text(key@, value@),
{
    if !value.is_empty() {
        out.append(key);
        out.append(": ");
        out.append(value);
        out.append("\n");
        assert(out@ == old(out)@ + (key@ + ": "@ + value@ + "\n"@));
    } else {
        assert(out@ == old(out)@ + Seq::<char>::empty());
    }
}

/// Joins the strings with `sep` between them.
fn join_strings(items: &Vec<String>, sep: &str) -> (out: String)
    ensures
        out@ == join(texts(items@), sep@),
{
    let mut out = String::new();
    let mut i: usize = 0;
    while i < items.len()
        invariant
            i <= items.len(),
            out@ == join(texts(items@).take(i as int), sep@),
        decreases items.len() - i,
    {
        proof {
            let before = texts(items@).take(i as int);
            let after = texts(items@).take(i + 1);
            assert(after.drop_last() == before);
            assert(after.last() == items@[i as int]@);
        }
        if i > 0 {
            out.append(sep);
        }
        out.append(items[i].as_str());
        i += 1;
    }
    assert(texts(items@).take(i as int) == texts(items@));
    out
}

/// Writes each pair as a `Built-Using` item.
fn built_using_strings(pairs: &Vec<[String; 2]>) -> (out: Vec<String>)
    ensures
        texts(out@) == built_using_items(text_pairs(pairs@)),
{
    let mut out: Vec<String> = Vec::new();
    let mut i: usize = 0;
    while i < pairs.len()
        invariant
            i <= pairs.len(),
            out.len() == i,
            forall|k: int| 0 <= k < i ==> out@[k]@ == built_using_item(text_pairs(pairs@)[k]),
        decreases pairs.len() - i,
    {
        let mut item = String::new();
        item.append(pairs[i][0].as_str());
        item.append(" (= ");
        item.append(pairs[i][1].as_str());
        item.append(")");
        assert(item@ == built_using_item(text_pairs(pairs@)[i as int]));
        out.push(item);
        i += 1;
    }
    assert(texts(out@) =~= built_using_items(text_pairs(pairs@)));
    out
}

impl DebControl {
    /// A record of the given name with nothing else set.
    pub fn new(name: &str) -> (r: Self)
        ensures
            r@ == blank_record(name@),
    {
        let r = Self {
            name: String::from_str(name),
            version: String::new(),
            priority: DebPriority::Optional,
            architecture: DebArchitecture::All,
            essential: false,
            depends: Vec::new(),
            pre_depends: Vec::new(),
            recommends: Vec::new(),
            suggests: Vec::new(),
            breaks: Vec::new(),
            conflicts: Vec::new(),
            provides: Vec::new(),
            replaces: Vec::new(),
            enhances: Vec::new(),
            maintainer: String::new(),
            description: String::new(),
            homepage: String::new(),
            built_using: Vec::new(),
        };
        assert(r@.depends =~= Seq::<Seq<char>>::empty());
        assert(r@.built_using =~= Seq::<(Seq<char>, Seq<char>)>::empty());
        assert(r@ =~= blank_record(name@));
        r
    }

    /// Converts DebControl into a dpkg-readable control file.
    ///
    /// One line is written for each populated field, in a fixed order. A text
    /// or a list is populated when what would be written for it is not empty,
    /// the priority when it is not `optional`, the essential flag when it is
    /// set; the architecture always is. `Provides` and `Replaces` are kept in
    /// the record but not written.
    pub fn serialize(&self) -> (bytes: Vec<u8>)
        ensures
            bytes@ == control_bytes(self@),
    {
        let mut out = String::new();
        let depends_line = join_strings(&self.depends, ", ");
        let pre_depends_line = join_strings(&self.pre_depends, ", ");
        let recommends_line = join_strings(&self.recommends, ", ");
        let suggests_line = join_strings(&self.suggests, ", ");
        let breaks_line = join_strings(&self.breaks, ", ");
        let conflicts_line = join_strings(&self.conflicts, ", ");
        let enhances_line = join_strings(&self.enhances, ", ");
        let built_using_line = join_strings(&built_using_strings(&self.built_using), ", ");
        put_field(&mut out, "Package", self.name.as_str());
        put_field(&mut out, "Version", self.version.as_str());
        put_field(
            &mut out,
            "Priority",
            match self.priority {
                DebPriority::Optional => "",
                _ => self.priority.as_str(),
            },
        );
        put_field(&mut out, "Architecture", self.architecture.as_str());
        put_field(
            &mut out,
            "Essential",
            match self.essential {
                true => "yes",
                false => "",
            },
        );
        put_field(&mut out, "Depends", depends_line.as_str());
        put_field(&mut out, "Pre-Depends", pre_depends_line.as_str());
        put_field(&mut out, "Recommends", recommends_line.as_str());
        put_field(&mut out, "Suggests", suggests_line.as_str());
        put_field(&mut out, "Breaks", breaks_line.as_str());
        put_field(&mut out, "Conflicts", conflicts_line.as_str());
        put_field(&mut out, "Enhances", enhances_line.as_str());
        put_field(&mut out, "Maintainer", self.maintainer.as_str());
        put_field(&mut out, "Description", self.description.as_str());
        put_field(&mut out, "Homepage", self.homepage.as_str());
        put_field(&mut out, "Built-Using", built_using_line.as_str());
        proof {
            reveal_strlit("");
            assert(out@ =~= control_text(self@));
        }
        out.as_str().as_bytes_vec()
    }

    /// Reads one field line, the characters from `start` to `end`, into the
    /// record.
    fn read_line(&mut self, text: &str, chars: &Vec<char>, start: usize, end: usize) -> (r: Result<
        (),
        DebError,
    >)
        requires
            chars@ == text@,
            start <= end <= chars.len(),
        ensures
            match with_line(old(self)@, chars@.subrange(start as int, end as int)) {
                Ok(next) => r is Ok && final(self)@ == next,
                Err(e) => r == Err::<(), DebError>(e),
            },
    {
        let colon = find_char(chars, start, end, ':');
        if colon == end {
            return Err(DebError::InvalidControlSyntax);
        }
        let (key_from, key_to) = trim_range(chars, start, colon);
        let key = text.substring_char(key_from, key_to);
        let (value_from, value_to) = trim_range(chars, colon + 1, end);
        let value = text.substring_char(value_from, value_to);
        proof {
            let line = chars@.subrange(start as int, end as int);
            assert(line.take(colon - start) == chars@.subrange(start as int, colon as int));
            assert(line.skip(colon - start + 1) == chars@.subrange(colon + 1, end as int));
        }

        if str_is(key, "Package") {
            self.name = String::from_str(value);
        } else if str_is(key, "Version") {
            self.version = String::from_str(value);
        } else if str_is(key, "Priority") {
            match DebPriority::from(value) {
                Ok(priority) => {
                    self.priority = priority;
                },
                Err(e) => {
                    return Err(e);
                },
            }
        } else if str_is(key, "Architecture") {
            match DebArchitecture::from(value) {
                Ok(architecture) => {
                    self.architecture = architecture;
                },
                Err(e) => {
                    return Err(e);
                },
            }
        } else if str_is(key, "Essential") {
            if str_is(value, "yes") {
                self.essential = true;
            } else if str_is(value, "no") {
                self.essential = false;
            } else {
                return Err(DebError::InvalidControlSyntax);
            }
        } else if str_is(key, "Depends") {
            self.depends = split_list(text, chars, colon + 1, end);
        } else if str_is(key, "Pre-Depends") {
            self.pre_depends = split_list(text, chars, colon + 1, end);
        } else if str_is(key, "Recommends") {
            self.recommends = split_list(text, chars, colon + 1, end);
        } else if str_is(key, "Suggests") {
            self.suggests = split_list(text, chars, colon + 1, end);
        } else if str_is(key, "Breaks") {
            self.breaks = split_list(text, chars, colon + 1, end);
        } else if str_is(key, "Conflicts") {
            self.conflicts = split_list(text, chars, colon + 1, end);
        } else if str_is(key, "Provides") {
            self.provides = split_list(text, chars, colon + 1, end);
        } else if str_is(key, "Replaces") {
            self.replaces = split_list(text, chars, colon + 1, end);
        } else if str_is(key, "Enhances") {
            self.enhances = split_list(text, chars, colon + 1, end);
        } else if str_is(key, "Maintainer") {
            self.maintainer = String::from_str(value);
        } else if str_is(key, "Description") {
            self.description = String::from_str(value);
        } else if str_is(key, "Homepage") {
            self.homepage = String::from_str(value);
        } else if str_is(key, "Built-Using") {
            let items = split_list(text, chars, colon + 1, end);
            match read_built_using(&items) {
                Some(pairs) => {
                    self.built_using = pairs;
                },
                None => {
                    return Err(DebError::InvalidControlSyntax);
                },
            }
        } else {
            return Err(DebError::InvalidControlSyntax);
        }
        Ok(())
    }

    /// Converts a dpkg-readable control file into DebControl.
    ///
    /// The bytes have to be UTF-8. Each line is split at its first colon into
    /// a key and a value, both trimmed; the key has to be one of the field
    /// names, matched exactly. What follows the last newline is ignored where
    /// it is empty; every other line without a colon is invalid. `Essential`
    /// takes `yes` or `no` only. In a `Built-Using` item the version is kept
    /// as it is written, with `(= ` before it and `)` after it.
    pub fn deserialize(control: Vec<u8>) -> (r: Result<Self, DebError>)
        ensures
            match parse_control_bytes(control@) {
                Ok(record) => r is Ok && r->Ok_0@ == record,
                Err(e) => r is Err && r->Err_0 == e,
            },
    {
        let text = match string_from_utf8(control) {
            Ok(text) => text,
            Err(_) => {
                return Err(DebError::EncodingError);
            },
        };
        let chars = chars_of(text.as_str());
        let n = chars.len();
        let mut record = DebControl::new("");
        let mut start: usize = 0;
        proof {
            reveal_strlit("");
            assert(""@ =~= Seq::<char>::empty());
            assert(chars@.skip(0) == chars@);
        }
        loop
            invariant
                chars@ == text@,
                n == chars.len(),
                start <= n,
                with_lines(record@, chars@.skip(start as int)) == parse_control_text(chars@),
                parse_control_bytes(control@) == parse_control_text(chars@),
            decreases n - start,
        {
            let end = find_char(&chars, start, n, '\n');
            proof {
                let rest = chars@.skip(start as int);
                assert(rest == chars@.subrange(start as int, n as int));
                assert(rest.take(end - start) == chars@.subrange(start as int, end as int));
                if end < n {
                    assert(rest.skip(end - start + 1) == chars@.skip(end + 1));
                }
            }
            if end < n {
                match record.read_line(text.as_str(), &chars, start, end) {
                    Ok(()) => {},
                    Err(e) => {
                        return Err(e);
                    },
                }
                start = end + 1;
            } else {
                if start < n {
                    match record.read_line(text.as_str(), &chars, start, end) {
                        Ok(()) => {},
                        Err(e) => {
                            return Err(e);
                        },
                    }
                }
                return Ok(record);
            }
        }
    }
}

} // verus!
