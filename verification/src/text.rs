//! Text as sequences of characters: searching, trimming, splitting and joining,
//! with the executable functions that search and trim a range of a vector.
use vstd::prelude::*;

verus! {

/// Whether a character is white space, as Unicode's `White_Space` property
/// has it.
pub open spec fn is_space(c: char) -> bool {
    let n = c as u32;
    ||| 0x09 <= n <= 0x0D
    ||| n == 0x20
    ||| n == 0x85
    ||| n == 0xA0
    ||| n == 0x1680
    ||| 0x2000 <= n <= 0x200A
    ||| n == 0x2028
    ||| n == 0x2029
    ||| n == 0x202F
    ||| n == 0x205F
    ||| n == 0x3000
}

/// The index of the first `c` in `s`, or the length of `s` where it has none.
pub open spec fn index_of(s: Seq<char>, c: char) -> int
    decreases s.len(),
{
    if s.len() == 0 || s[0] == c {
        0
    } else {
        1 + index_of(s.drop_first(), c)
    }
}

/// The index of the last `c` in `s`, or -1 where it has none.
pub open spec fn last_index_of(s: Seq<char>, c: char) -> int
    decreases s.len(),
{
    if s.len() == 0 {
        -1
    } else if s.last() == c {
        s.len() - 1
    } else {
        last_index_of(s.drop_last(), c)
    }
}

/// How many times `c` stands at the start of `s`.
pub open spec fn leading_run(s: Seq<char>, c: char) -> int
    decreases s.len(),
{
    if s.len() > 0 && s[0] == c {
        1 + leading_run(s.drop_first(), c)
    } else {
        0
    }
}

/// How many white-space characters `s` begins with.
pub open spec fn leading_spaces(s: Seq<char>) -> int
    decreases s.len(),
{
    if s.len() > 0 && is_space(s[0]) {
        1 + leading_spaces(s.drop_first())
    } else {
        0
    }
}

/// How many white-space characters `s` ends with.
pub open spec fn trailing_spaces(s: Seq<char>) -> int
    decreases s.len(),
{
    if s.len() > 0 && is_space(s.last()) {
        1 + trailing_spaces(s.drop_last())
    } else {
        0
    }
}

/// `s` without the white space at its start.
pub open spec fn trim_start(s: Seq<char>) -> Seq<char> {
    s.skip(leading_spaces(s))
}

/// `s` without the white space at its end.
pub open spec fn trim_end(s: Seq<char>) -> Seq<char> {
    s.take(s.len() - trailing_spaces(s))
}

/// `s` without the white space at its start and at its end.
pub open spec fn trim(s: Seq<char>) -> Seq<char> {
    trim_end(trim_start(s))
}

/// Whether `s` neither begins nor ends with white space.
pub open spec fn is_trimmed(s: Seq<char>) -> bool {
    s.len() > 0 ==> !is_space(s[0]) && !is_space(s.last())
}

/// The pieces of `s` between the occurrences of `sep`, each of them trimmed.
/// There is always at least one piece, and a piece may be empty.
pub open spec fn split_trimmed(s: Seq<char>, sep: char) -> Seq<Seq<char>>
    decreases s.len(),
{
    let i = index_of(s, sep);
    if 0 <= i < s.len() {
        seq![trim(s.take(i))] + split_trimmed(s.skip(i + 1), sep)
    } else {
        seq![trim(s)]
    }
}

/// The items in order, with `sep` between each two neighbours.
pub open spec fn join(items: Seq<Seq<char>>, sep: Seq<char>) -> Seq<char>
    decreases items.len(),
{
    if items.len() == 0 {
        Seq::empty()
    } else if items.len() == 1 {
        items[0]
    } else {
        join(items.drop_last(), sep) + sep + items.last()
    }
}

/// Where the first `c` of a text stands.
pub proof fn lemma_index_of(s: Seq<char>, c: char)
    ensures
        0 <= index_of(s, c) <= s.len(),
        forall|k: int| 0 <= k < index_of(s, c) ==> s[k] != c,
        index_of(s, c) < s.len() ==> s[index_of(s, c)] == c,
    decreases s.len(),
{
    if s.len() == 0 || s[0] == c {
    } else {
        let rest = s.drop_first();
        lemma_index_of(rest, c);
        assert forall|k: int| 0 <= k < index_of(s, c) implies s[k] != c by {
            if k > 0 {
                assert(s[k] == rest[k - 1]);
            }
        }
    }
}

/// An index before which `c` does not occur, and at which the text ends or
/// `c` stands, is the index of the first `c`.
pub proof fn lemma_index_of_is(s: Seq<char>, c: char, i: int)
    requires
        0 <= i <= s.len(),
        forall|k: int| 0 <= k < i ==> s[k] != c,
        i < s.len() ==> s[i] == c,
    ensures
        index_of(s, c) == i,
{
    lemma_index_of(s, c);
    let j = index_of(s, c);
    if j < i {
        assert(s[j] == c);
    } else if i < j {
        assert(s[i] == c);
    }
}

/// What white space a text begins with.
pub proof fn lemma_leading_spaces(s: Seq<char>)
    ensures
        0 <= leading_spaces(s) <= s.len(),
        forall|k: int| 0 <= k < leading_spaces(s) ==> is_space(s[k]),
        leading_spaces(s) < s.len() ==> !is_space(s[leading_spaces(s)]),
    decreases s.len(),
{
    if s.len() > 0 && is_space(s[0]) {
        let rest = s.drop_first();
        lemma_leading_spaces(rest);
        assert forall|k: int| 0 <= k < leading_spaces(s) implies is_space(s[k]) by {
            if k > 0 {
                assert(s[k] == rest[k - 1]);
            }
        }
    }
}

/// What white space a text ends with.
pub proof fn lemma_trailing_spaces(s: Seq<char>)
    ensures
        0 <= trailing_spaces(s) <= s.len(),
        forall|k: int| s.len() - trailing_spaces(s) <= k < s.len() ==> is_space(s[k]),
        trailing_spaces(s) < s.len() ==> !is_space(s[s.len() - trailing_spaces(s) - 1]),
    decreases s.len(),
{
    if s.len() > 0 && is_space(s.last()) {
        let rest = s.drop_last();
        lemma_trailing_spaces(rest);
        assert forall|k: int| s.len() - trailing_spaces(s) <= k < s.len() implies is_space(
            s[k],
        ) by {
            if k < s.len() - 1 {
                assert(s[k] == rest[k]);
            }
        }
    }
}

/// A text that neither begins nor ends with white space is its own trimming.
pub proof fn lemma_trim_trimmed(s: Seq<char>)
    requires
        is_trimmed(s),
    ensures
        trim(s) == s,
{
    assert(leading_spaces(s) == 0);
    assert(s.skip(0) == s);
    assert(trailing_spaces(s) == 0);
    assert(s.take(s.len() as int) == s);
}

/// A count of white-space characters at the start of a text, after which the
/// text ends or another character stands, is the count of its leading spaces.
pub proof fn lemma_leading_spaces_is(s: Seq<char>, n: int)
    requires
        0 <= n <= s.len(),
        forall|k: int| 0 <= k < n ==> is_space(s[k]),
        n < s.len() ==> !is_space(s[n]),
    ensures
        leading_spaces(s) == n,
{
    lemma_leading_spaces(s);
    let m = leading_spaces(s);
    if m < n {
        assert(is_space(s[m]));
    } else if n < m {
        assert(is_space(s[n]));
    }
}

/// A count of white-space characters at the end of a text, before which the
/// text begins or another character stands, is the count of its trailing spaces.
pub proof fn lemma_trailing_spaces_is(s: Seq<char>, n: int)
    requires
        0 <= n <= s.len(),
        forall|k: int| s.len() - n <= k < s.len() ==> is_space(s[k]),
        n < s.len() ==> !is_space(s[s.len() - n - 1]),
    ensures
        trailing_spaces(s) == n,
{
    lemma_trailing_spaces(s);
    let m = trailing_spaces(s);
    if m < n {
        assert(is_space(s[s.len() - m - 1]));
    } else if n < m {
        assert(is_space(s[s.len() - n - 1]));
    }
}

/// The first `c` of a text stands before its end exactly where the text
/// contains `c`.
pub proof fn lemma_index_of_contains(s: Seq<char>, c: char)
    ensures
        index_of(s, c) < s.len() <==> s.contains(c),
        0 <= index_of(s, c) <= s.len(),
{
    lemma_index_of(s, c);
    if s.contains(c) {
        let k = choose|k: int| 0 <= k < s.len() && s[k] == c;
        if index_of(s, c) >= s.len() {
            assert(s[k] != c);
        }
    } else if index_of(s, c) < s.len() {
        assert(s.contains(s[index_of(s, c)]));
    }
}

/// Where the first `c` of two texts in a row stands: in the first text where
/// that contains `c`, else in the second.
pub proof fn lemma_index_of_concat(a: Seq<char>, b: Seq<char>, c: char)
    ensures
        index_of(a + b, c) == if a.contains(c) {
            index_of(a, c)
        } else {
            a.len() + index_of(b, c)
        },
{
    lemma_index_of_contains(a, c);
    lemma_index_of(a, c);
    lemma_index_of(b, c);
    if a.contains(c) {
        lemma_index_of_is(a + b, c, index_of(a, c));
    } else {
        let i = a.len() + index_of(b, c);
        assert forall|k: int| 0 <= k < i implies (a + b)[k] != c by {
            if k < a.len() {
                assert(a[k] != c);
            } else {
                assert((a + b)[k] == b[k - a.len()]);
            }
        }
        lemma_index_of_is(a + b, c, i);
    }
}

/// A single space before a text that neither begins nor ends with white space
/// is trimmed away, and nothing else is.
pub proof fn lemma_trim_after_space(v: Seq<char>)
    requires
        is_trimmed(v),
    ensures
        trim(seq![' '] + v) == v,
{
    let s = seq![' '] + v;
    assert(is_space(' '));
    lemma_leading_spaces_is(s, 1);
    assert(trim_start(s) == v);
    lemma_trim_trimmed(v);
    assert(trim_start(v) == v) by {
        assert(leading_spaces(v) == 0);
        assert(v.skip(0) == v);
    }
    assert(trim_end(v) == v) by {
        assert(trailing_spaces(v) == 0);
        assert(v.take(v.len() as int) == v);
    }
}

/// A text without the separator is one piece.
pub proof fn lemma_split_trimmed_single(s: Seq<char>, sep: char)
    requires
        !s.contains(sep),
    ensures
        split_trimmed(s, sep) == seq![trim(s)],
{
    lemma_index_of_contains(s, sep);
}

/// The pieces of two texts with the separator between them are the pieces of
/// the first, then the pieces of the second.
pub proof fn lemma_split_trimmed_concat(a: Seq<char>, b: Seq<char>, sep: char)
    ensures
        split_trimmed(a + seq![sep] + b, sep) == split_trimmed(a, sep) + split_trimmed(b, sep),
    decreases a.len(),
{
    let whole = a + seq![sep] + b;
    lemma_index_of_contains(a, sep);
    lemma_index_of(a, sep);
    lemma_index_of_concat(a, seq![sep] + b, sep);
    assert(whole == a + (seq![sep] + b));
    let i = index_of(a, sep);
    if a.contains(sep) {
        assert(index_of(whole, sep) == i);
        assert(whole.take(i) == a.take(i));
        assert(whole.skip(i + 1) == a.skip(i + 1) + seq![sep] + b);
        lemma_split_trimmed_concat(a.skip(i + 1), b, sep);
    } else {
        assert(index_of(seq![sep] + b, sep) == 0);
        assert(index_of(whole, sep) == a.len());
        assert(whole.take(a.len() as int) == a);
        assert(whole.skip(a.len() as int + 1) == b);
    }
}

/// A joined list contains a character only where an item or the separator
/// does.
pub proof fn lemma_join_lacks(items: Seq<Seq<char>>, sep: Seq<char>, c: char)
    requires
        forall|i: int| 0 <= i < items.len() ==> !items[i].contains(c),
        !sep.contains(c),
    ensures
        !join(items, sep).contains(c),
    decreases items.len(),
{
    if items.len() >= 2 {
        lemma_join_lacks(items.drop_last(), sep, c);
        let front = join(items.drop_last(), sep);
        let whole = front + sep + items.last();
        assert forall|k: int| 0 <= k < whole.len() implies whole[k] != c by {
            if k < front.len() {
                assert(front.contains(whole[k]));
            } else if k < front.len() + sep.len() {
                assert(sep.contains(sep[k - front.len()]));
            } else {
                assert(items.last().contains(items.last()[k - front.len() - sep.len()]));
            }
        }
    } else if items.len() == 1 {
    } else {
    }
    if join(items, sep).contains(c) {
        let k = choose|k: int| 0 <= k < join(items, sep).len() && join(items, sep)[k] == c;
        if items.len() == 1 {
            assert(items[0].contains(c));
        }
    }
}

/// Items that are trimmed and hold no comma are read back from their list,
/// joined with a comma and a space, whatever single space stands before it.
pub proof fn lemma_split_join(items: Seq<Seq<char>>)
    requires
        items.len() >= 1,
        forall|i: int| 0 <= i < items.len() ==> is_trimmed(items[i]) && !items[i].contains(','),
    ensures
        split_trimmed(seq![' '] + join(items, seq![',', ' ']), ',') == items,
    decreases items.len(),
{
    let sep = seq![',', ' '];
    let last = items.last();
    let padded_last = seq![' '] + last;
    lemma_trim_after_space(last);
    assert(!padded_last.contains(',')) by {
        if padded_last.contains(',') {
            let k = choose|k: int| 0 <= k < padded_last.len() && padded_last[k] == ',';
            assert(last.contains(last[k - 1]));
        }
    }
    lemma_split_trimmed_single(padded_last, ',');
    if items.len() == 1 {
        assert(items == seq![last]);
    } else {
        let front = items.drop_last();
        lemma_split_join(front);
        let a = seq![' '] + join(front, sep);
        assert(seq![' '] + join(items, sep) == a + seq![','] + padded_last);
        lemma_split_trimmed_concat(a, padded_last, ',');
        assert(front + seq![last] == items);
    }
}

/// An index after which `c` does not occur, and which is -1 or the index of
/// a `c`, is the index of the last `c`.
pub proof fn lemma_last_index_of_is(s: Seq<char>, c: char, i: int)
    requires
        -1 <= i < s.len(),
        forall|k: int| i < k < s.len() ==> s[k] != c,
        i >= 0 ==> s[i] == c,
    ensures
        last_index_of(s, c) == i,
    decreases s.len(),
{
    if s.len() > 0 && s.last() != c {
        lemma_last_index_of_is(s.drop_last(), c, i);
    }
}

/// Whether a character is white space.
pub fn char_is_space(c: char) -> (b: bool)
    ensures
        b == is_space(c),
{
    let n: u32 = c as u32;
    (0x09 <= n && n <= 0x0D) || n == 0x20 || n == 0x85 || n == 0xA0 || n == 0x1680 || (0x2000 <= n
        && n <= 0x200A) || n == 0x2028 || n == 0x2029 || n == 0x202F || n == 0x205F || n == 0x3000
}

/// The characters of a string, in a vector.
pub fn chars_of(s: &str) -> (v: Vec<char>)
    ensures
        v@ == s@,
{
    let mut v: Vec<char> = Vec::new();
    for c in it: s.chars()
        invariant
            v@ == it.seq().take(it.index()),
    {
        v.push(c);
    }
    v
}

/// Finds the first `c` at or after `from` and before `to`; returns `to` where
/// there is none.
pub(crate) fn find_char(chars: &Vec<char>, from: usize, to: usize, c: char) -> (i: usize)
    requires
        from <= to <= chars.len(),
    ensures
        from <= i <= to,
        i - from == index_of(chars@.subrange(from as int, to as int), c),
{
    let mut i: usize = from;
    while i < to && chars[i] != c
        invariant
            from <= i <= to <= chars.len(),
            forall|k: int| from <= k < i ==> chars@[k] != c,
        decreases to - i,
    {
        i += 1;
    }
    proof {
        lemma_index_of_is(chars@.subrange(from as int, to as int), c, i - from);
    }
    i
}

/// Finds where the part after the last `c` begins in the first `to`
/// characters: behind the last `c`, or at the start where there is none.
pub(crate) fn after_last_char(chars: &Vec<char>, to: usize, c: char) -> (start: usize)
    requires
        to <= chars.len(),
    ensures
        start == last_index_of(chars@.take(to as int), c) + 1,
        start <= to,
{
    let mut i: usize = to;
    while i > 0 && chars[i - 1] != c
        invariant
            i <= to <= chars.len(),
            forall|k: int| i <= k < to ==> chars@[k] != c,
        decreases i,
    {
        i -= 1;
    }
    proof {
        lemma_last_index_of_is(chars@.take(to as int), c, i - 1);
    }
    i
}

/// A count of `c` at the start of a text, after which the text ends or
/// another character stands, is the length of its leading run of `c`.
pub proof fn lemma_leading_run_is(s: Seq<char>, c: char, n: int)
    requires
        0 <= n <= s.len(),
        forall|k: int| 0 <= k < n ==> s[k] == c,
        n < s.len() ==> s[n] != c,
    ensures
        leading_run(s, c) == n,
    decreases n,
{
    if n > 0 {
        let rest = s.drop_first();
        assert forall|k: int| 0 <= k < n - 1 implies rest[k] == c by {
            assert(rest[k] == s[k + 1]);
        }
        lemma_leading_run_is(rest, c, n - 1);
    }
}

/// Counts how many times `c` stands at the start of the text.
pub(crate) fn count_leading(chars: &Vec<char>, c: char) -> (n: usize)
    ensures
        n == leading_run(chars@, c),
        n <= chars.len(),
{
    let mut n: usize = 0;
    while n < chars.len() && chars[n] == c
        invariant
            n <= chars.len(),
            forall|k: int| 0 <= k < n ==> chars@[k] == c,
        decreases chars.len() - n,
    {
        n += 1;
    }
    proof {
        lemma_leading_run_is(chars@, c, n as int);
    }
    n
}

/// Trims the range from `from` to `to`: returns the bounds of what is left.
pub(crate) fn trim_range(chars: &Vec<char>, from: usize, to: usize) -> (r: (usize, usize))
    requires
        from <= to <= chars.len(),
    ensures
        from <= r.0 <= r.1 <= to,
        chars@.subrange(r.0 as int, r.1 as int) == trim(chars@.subrange(from as int, to as int)),
{
    let mut a: usize = from;
    while a < to && char_is_space(chars[a])
        invariant
            from <= a <= to <= chars.len(),
            forall|k: int| from <= k < a ==> is_space(chars@[k]),
        decreases to - a,
    {
        a += 1;
    }
    let mut b: usize = to;
    while a < b && char_is_space(chars[b - 1])
        invariant
            a <= b <= to <= chars.len(),
            forall|k: int| b <= k < to ==> is_space(chars@[k]),
        decreases b,
    {
        b -= 1;
    }
    proof {
        let s = chars@.subrange(from as int, to as int);
        lemma_leading_spaces_is(s, a - from);
        let t = trim_start(s);
        assert(t == chars@.subrange(a as int, to as int));
        lemma_trailing_spaces_is(t, to - b);
        assert(trim(s) == chars@.subrange(a as int, b as int));
    }
    (a, b)
}

} // verus!
