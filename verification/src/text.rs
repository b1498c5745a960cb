//! Character-level helpers shared by the rest of the library.
//!
//! Every string is reasoned about through its view, a `Seq<char>`. Executable
//! code works on `Vec<char>` so that indexing is constant time.

use vstd::prelude::*;

verus! {

/// What `str::to_lowercase` returns for a string with the given characters.
pub uninterp spec fn lowercase_of(s: Seq<char>) -> Seq<char>;

/// `needle` occurs in `hay` starting at position `at`.
pub open spec fn occurs_at(hay: Seq<char>, needle: Seq<char>, at: int) -> bool {
    &&& 0 <= at
    &&& at + needle.len() <= hay.len()
    &&& hay.subrange(at, at + needle.len()) == needle
}

/// `needle` occurs somewhere in `hay`.
pub open spec fn occurs_in(hay: Seq<char>, needle: Seq<char>) -> bool {
    exists|at: int| occurs_at(hay, needle, at)
}

/// `at` is the leftmost position at which `needle` occurs in `hay`.
pub open spec fn first_occurrence(hay: Seq<char>, needle: Seq<char>, at: int) -> bool {
    &&& occurs_at(hay, needle, at)
    &&& forall|k: int| 0 <= k < at ==> !occurs_at(hay, needle, k)
}

/// The part of `s` after its last `sep`, or all of `s` when it holds no `sep`.
pub open spec fn last_segment(s: Seq<char>, sep: char) -> Seq<char>
    decreases s.len(),
{
    if s.len() == 0 {
        s
    } else if s.last() == sep {
        Seq::empty()
    } else {
        last_segment(s.drop_last(), sep).push(s.last())
    }
}

/// The decimal digit for `d`, for `d` below ten.
pub open spec fn digit_char(d: nat) -> char {
    seq!['0', '1', '2', '3', '4', '5', '6', '7', '8', '9'][d as int]
}

/// The decimal representation of `n`, without leading zeros.
pub open spec fn decimal_digits(n: nat) -> Seq<char>
    decreases n,
{
    if n < 10 {
        seq![digit_char(n)]
    } else {
        decimal_digits(n / 10).push(digit_char(n % 10))
    }
}

/// Position of the first `c` in `s`, or the length of `s` when it holds
/// none.
pub open spec fn first_index_of(s: Seq<char>, c: char) -> int
    decreases s.len(),
{
    if s.len() == 0 {
        0
    } else if s[0] == c {
        0
    } else {
        1 + first_index_of(s.drop_first(), c)
    }
}

/// `line` without the carriage return at its end, if it has one there.
pub open spec fn without_carriage_return(line: Seq<char>) -> Seq<char> {
    if line.len() > 0 && line.last() == '\r' {
        line.drop_last()
    } else {
        line
    }
}

/// The lines of a text. A line ends at a line feed; the line feed, and a
/// carriage return just before it, are not part of the line. What stands
/// after the last line feed is a line too, unless it is empty.
pub open spec fn lines_of(s: Seq<char>) -> Seq<Seq<char>>
    decreases s.len(),
{
    if s.len() == 0 {
        Seq::empty()
    } else {
        let end = first_index_of(s, '\n');
        if end < 0 || end >= s.len() {
            seq![s]
        } else {
            seq![without_carriage_return(s.take(end))] + lines_of(s.skip(end + 1))
        }
    }
}

/// The parts of `s` before and after the leftmost `sep` in it, if it
/// holds one.
pub open spec fn split_at_first(s: Seq<char>, sep: Seq<char>) -> Option<(Seq<char>, Seq<char>)> {
    if occurs_in(s, sep) {
        let at = choose|at: int| first_occurrence(s, sep, at);
        Some((s.take(at), s.skip(at + sep.len())))
    } else {
        None
    }
}

/// `c` is white space: one of the twenty-five characters that Unicode
/// gives the property `White_Space`.
pub open spec fn is_white_space(c: char) -> bool {
    let code = c as u32;
    ||| 0x09 <= code <= 0x0D
    ||| code == 0x20
    ||| code == 0x85
    ||| code == 0xA0
    ||| code == 0x1680
    ||| 0x2000 <= code <= 0x200A
    ||| code == 0x2028
    ||| code == 0x2029
    ||| code == 0x202F
    ||| code == 0x205F
    ||| code == 0x3000
}

/// `s` without the white space at its beginning.
pub open spec fn trim_start_of(s: Seq<char>) -> Seq<char>
    decreases s.len(),
{
    if s.len() > 0 && is_white_space(s[0]) {
        trim_start_of(s.drop_first())
    } else {
        s
    }
}

/// `s` without the white space at its end.
pub open spec fn trim_end_of(s: Seq<char>) -> Seq<char>
    decreases s.len(),
{
    if s.len() > 0 && is_white_space(s.last()) {
        trim_end_of(s.drop_last())
    } else {
        s
    }
}

/// `s` without the white space at both ends.
pub open spec fn trimmed_of(s: Seq<char>) -> Seq<char> {
    trim_end_of(trim_start_of(s))
}

/// `c` is one of the ten decimal digits.
pub open spec fn is_digit(c: char) -> bool {
    48 <= c as u32 <= 57
}

/// The number that a string of decimal digits stands for.
pub open spec fn digits_value(digits: Seq<char>) -> nat
    decreases digits.len(),
{
    if digits.len() == 0 {
        0
    } else {
        digits_value(digits.drop_last()) * 10 + (digits.last() as u32 - 48) as nat
    }
}

/// Every character of `s` is a decimal digit.
pub open spec fn all_digits(s: Seq<char>) -> bool {
    forall|i: int| 0 <= i < s.len() ==> is_digit(#[trigger] s[i])
}

/// The number that `s` is read as: an optional `+`, then one or more
/// decimal digits, the whole not above `usize::MAX`. Anything else is no
/// number.
pub open spec fn parsed_usize(s: Seq<char>) -> Option<usize> {
    let digits = if s.len() > 0 && s[0] == '+' {
        s.skip(1)
    } else {
        s
    };
    if digits.len() > 0 && all_digits(digits) && digits_value(digits) <= usize::MAX {
        Some(digits_value(digits) as usize)
    } else {
        None
    }
}

/// The views of a sequence of strings.
pub open spec fn views(strings: Seq<String>) -> Seq<Seq<char>> {
    strings.map_values(|s: String| s@)
}

/// The views of a sequence of character vectors.
pub open spec fn vec_views(items: Seq<Vec<char>>) -> Seq<Seq<char>> {
    items.map_values(|v: Vec<char>| v@)
}

/// The characters of `s`, in order.
pub fn chars_of(s: &str) -> (v: Vec<char>)
    ensures
        v@ == s@,
{
    let mut v: Vec<char> = Vec::new();
    for c in it: s.chars()
        invariant
            v@ == it.seq().take(it.index()),
            it.seq() == s@,
    {
        v.push(c);
    }
    v
}

/// Collects characters into a `String` with `Iterator::collect`: the string
/// holds exactly the given characters, in order.
#[verifier::external_body]
pub(crate) fn string_from_chars(chars: &Vec<char>) -> (s: String)
    ensures
        s@ == chars@,
{
    chars.iter().collect()
}

/// Calls `str::to_lowercase`. Nothing is claimed of the result beyond its
/// being the lowercase form that std computes for these characters.
#[verifier::external_body]
pub(crate) fn to_lowercase(s: &str) -> (lowered: String)
    ensures
        lowered@ == lowercase_of(s@),
{
    s.to_lowercase()
}

/// Appends the characters of `src` to `dst`.
pub fn push_all(dst: &mut Vec<char>, src: &Vec<char>)
    ensures
        final(dst)@ == old(dst)@ + src@,
{
    let mut i: usize = 0;
    while i < src.len()
        invariant
            i <= src.len(),
            dst@ == old(dst)@ + src@.take(i as int),
        decreases src.len() - i,
    {
        dst.push(src[i]);
        i += 1;
    }
    assert(src@.take(src@.len() as int) == src@);
}

/// The characters of `v` from `from` up to, not including, `to`.
pub fn slice_chars(v: &Vec<char>, from: usize, to: usize) -> (part: Vec<char>)
    requires
        from <= to <= v.len(),
    ensures
        part@ == v@.subrange(from as int, to as int),
{
    let mut part: Vec<char> = Vec::new();
    let mut i: usize = from;
    while i < to
        invariant
            from <= i <= to <= v.len(),
            part@ == v@.subrange(from as int, i as int),
        decreases to - i,
    {
        part.push(v[i]);
        i += 1;
    }
    part
}

/// Whether two character vectors hold the same characters.
pub fn same_chars(a: &Vec<char>, b: &Vec<char>) -> (same: bool)
    ensures
        same == (a@ == b@),
{
    if a.len() != b.len() {
        return false;
    }
    let mut i: usize = 0;
    while i < a.len()
        invariant
            i <= a.len(),
            a.len() == b.len(),
            forall|k: int| 0 <= k < i ==> a@[k] == b@[k],
        decreases a.len() - i,
    {
        if a[i] != b[i] {
            return false;
        }
        i += 1;
    }
    assert(a@ =~= b@);
    true
}

/// Whether `needle` occurs in `hay` at position `at`.
pub fn matches_at(hay: &Vec<char>, needle: &Vec<char>, at: usize) -> (found: bool)
    ensures
        found == occurs_at(hay@, needle@, at as int),
{
    if needle.len() > hay.len() || at > hay.len() - needle.len() {
        return false;
    }
    let ghost window = hay@.subrange(at as int, at + needle.len());
    let mut j: usize = 0;
    while j < needle.len()
        invariant
            j <= needle.len(),
            at + needle.len() <= hay.len(),
            window == hay@.subrange(at as int, at + needle.len()),
            forall|k: int| 0 <= k < j ==> window[k] == needle@[k],
        decreases needle.len() - j,
    {
        if hay[at + j] != needle[j] {
            assert(window[j as int] != needle@[j as int]);
            return false;
        }
        j += 1;
    }
    assert(window =~= needle@);
    true
}

/// The leftmost position at which `needle` occurs in `hay`, if it occurs.
pub fn find(hay: &Vec<char>, needle: &Vec<char>) -> (at: Option<usize>)
    ensures
        match at {
            Some(at) => first_occurrence(hay@, needle@, at as int),
            None => !occurs_in(hay@, needle@),
        },
{
    if needle.len() > hay.len() {
        return None;
    }
    let last: usize = hay.len() - needle.len();
    let mut at: usize = 0;
    loop
        invariant
            at <= last,
            last == hay.len() - needle.len(),
            forall|k: int| 0 <= k < at ==> !occurs_at(hay@, needle@, k),
        decreases last - at,
    {
        if matches_at(hay, needle, at) {
            return Some(at);
        }
        if at == last {
            return None;
        }
        at += 1;
    }
}

/// Whether `needle` occurs anywhere in `hay`.
pub fn contains(hay: &Vec<char>, needle: &Vec<char>) -> (found: bool)
    ensures
        found == occurs_in(hay@, needle@),
{
    find(hay, needle).is_some()
}

/// The position of the last `sep` in `s`, if it holds one.
pub fn rfind_char(s: &Vec<char>, sep: char) -> (at: Option<usize>)
    ensures
        match at {
            Some(at) => at < s.len() && s@[at as int] == sep && forall|k: int|
                at < k < s.len() ==> s@[k] != sep,
            None => forall|k: int| 0 <= k < s.len() ==> s@[k] != sep,
        },
{
    let mut i: usize = s.len();
    while i > 0
        invariant
            i <= s.len(),
            forall|k: int| i <= k < s.len() ==> s@[k] != sep,
        decreases i,
    {
        i -= 1;
        if s[i] == sep {
            return Some(i);
        }
    }
    None
}

/// A string whose tail after position `at` holds no `sep`, and which has
/// `sep` at `at`, has that tail as its last segment.
pub proof fn lemma_last_segment_after(s: Seq<char>, sep: char, at: int)
    requires
        0 <= at < s.len(),
        s[at] == sep,
        forall|k: int| at < k < s.len() ==> s[k] != sep,
    ensures
        last_segment(s, sep) == s.subrange(at + 1, s.len() as int),
    decreases s.len(),
{
    if s.last() == sep {
        assert(at == s.len() - 1);
        assert(s.subrange(at + 1, s.len() as int) =~= Seq::<char>::empty());
    } else {
        let shorter = s.drop_last();
        lemma_last_segment_after(shorter, sep, at);
        assert(shorter.subrange(at + 1, shorter.len() as int).push(s.last()) =~= s.subrange(
            at + 1,
            s.len() as int,
        ));
    }
}

/// A string that holds no `sep` is its own last segment.
pub proof fn lemma_last_segment_whole(s: Seq<char>, sep: char)
    requires
        forall|k: int| 0 <= k < s.len() ==> s[k] != sep,
    ensures
        last_segment(s, sep) == s,
    decreases s.len(),
{
    if s.len() > 0 {
        let shorter = s.drop_last();
        lemma_last_segment_whole(shorter, sep);
        assert(shorter.push(s.last()) =~= s);
    }
}

/// The last segment of a string holds no separator.
pub proof fn lemma_last_segment_has_no_separator(s: Seq<char>, sep: char)
    ensures
        !last_segment(s, sep).contains(sep),
        last_segment(s, sep).len() <= s.len(),
    decreases s.len(),
{
    if s.len() > 0 && s.last() != sep {
        lemma_last_segment_has_no_separator(s.drop_last(), sep);
        let inner = last_segment(s.drop_last(), sep);
        assert forall|k: int| 0 <= k < inner.push(s.last()).len() implies inner.push(s.last())[k]
            != sep by {
            if k < inner.len() {
                assert(inner.contains(inner[k]));
            }
        }
    }
}

/// The part of `s` after its last `sep`, or all of `s` when it holds none.
pub fn last_segment_of(s: &Vec<char>, sep: char) -> (segment: Vec<char>)
    ensures
        segment@ == last_segment(s@, sep),
{
    match rfind_char(s, sep) {
        Some(at) => {
            proof {
                lemma_last_segment_after(s@, sep, at as int);
            }
            slice_chars(s, at + 1, s.len())
        },
        None => {
            proof {
                lemma_last_segment_whole(s@, sep);
                assert(s@.subrange(0, s@.len() as int) =~= s@);
            }
            slice_chars(s, 0, s.len())
        },
    }
}

/// The decimal digit for `d`.
pub fn digit_of(d: usize) -> (c: char)
    requires
        d < 10,
    ensures
        c == digit_char(d as nat),
{
    if d == 0 {
        '0'
    } else if d == 1 {
        '1'
    } else if d == 2 {
        '2'
    } else if d == 3 {
        '3'
    } else if d == 4 {
        '4'
    } else if d == 5 {
        '5'
    } else if d == 6 {
        '6'
    } else if d == 7 {
        '7'
    } else if d == 8 {
        '8'
    } else {
        '9'
    }
}

/// The decimal representation of `n`, without leading zeros.
pub fn decimal_of(n: usize) -> (digits: Vec<char>)
    ensures
        digits@ == decimal_digits(n as nat),
    decreases n,
{
    if n < 10 {
        let mut digits: Vec<char> = Vec::new();
        digits.push(digit_of(n));
        digits
    } else {
        let mut digits = decimal_of(n / 10);
        digits.push(digit_of(n % 10));
        digits
    }
}

/// Where the first `at` characters differ from `c`, and the one at `at`
/// is `c` or the string ends there, the first `c` is at `at`.
pub proof fn lemma_first_index_of(s: Seq<char>, c: char, at: int)
    requires
        0 <= at <= s.len(),
        forall|k: int| 0 <= k < at ==> s[k] != c,
        at < s.len() ==> s[at] == c,
    ensures
        first_index_of(s, c) == at,
    decreases at,
{
    if at > 0 {
        let rest = s.drop_first();
        assert forall|k: int| 0 <= k < at - 1 implies rest[k] != c by {
            assert(rest[k] == s[k + 1]);
        }
        lemma_first_index_of(rest, c, at - 1);
    }
}

/// The parts of `s` before and after the leftmost `sep` in it.
pub fn split_once(s: &Vec<char>, sep: &Vec<char>) -> (parts: Option<(Vec<char>, Vec<char>)>)
    ensures
        match parts {
            Some((before, after)) => split_at_first(s@, sep@) == Some((before@, after@)),
            None => split_at_first(s@, sep@) is None,
        },
{
    match find(s, sep) {
        None => None,
        Some(at) => {
            proof {
                assert(occurs_at(s@, sep@, at as int));
                let chosen = choose|other: int| first_occurrence(s@, sep@, other);
                assert(first_occurrence(s@, sep@, chosen));
                assert(chosen == at);
                assert(s@.subrange(0, at as int) =~= s@.take(at as int));
                assert(s@.subrange(at + sep.len(), s.len() as int) =~= s@.skip(at + sep.len()));
            }
            let before = slice_chars(s, 0, at);
            let after = slice_chars(s, at + sep.len(), s.len());
            Some((before, after))
        },
    }
}

/// The lines of a text.
pub fn lines(s: &Vec<char>) -> (all: Vec<Vec<char>>)
    ensures
        vec_views(all@) == lines_of(s@),
{
    let mut all: Vec<Vec<char>> = Vec::new();
    let mut start: usize = 0;
    proof {
        assert(s@.skip(0) =~= s@);
        assert(vec_views(all@) + lines_of(s@) =~= lines_of(s@));
    }
    while start < s.len()
        invariant
            start <= s.len(),
            lines_of(s@) == vec_views(all@) + lines_of(s@.skip(start as int)),
        decreases s.len() - start,
    {
        let ghost rest = s@.skip(start as int);
        let ghost done = vec_views(all@);
        let mut end: usize = start;
        while end < s.len() && s[end] != '\n'
            invariant
                start <= end <= s.len(),
                forall|k: int| start <= k < end ==> s@[k] != '\n',
            decreases s.len() - end,
        {
            end += 1;
        }
        proof {
            assert forall|k: int| 0 <= k < end - start implies rest[k] != '\n' by {
                assert(rest[k] == s@[start + k]);
            }
            lemma_first_index_of(rest, '\n', end - start);
        }
        if end == s.len() {
            let line = slice_chars(s, start, end);
            proof {
                assert(line@ =~= rest);
                assert(lines_of(rest) == seq![rest]);
                assert(s@.skip(end as int).len() == 0);
                assert(lines_of(s@.skip(end as int)) =~= Seq::<Seq<char>>::empty());
            }
            all.push(line);
            proof {
                assert(vec_views(all@) =~= done.push(line@));
                assert(done + seq![rest] =~= done.push(rest));
                assert(vec_views(all@) + lines_of(s@.skip(end as int)) =~= vec_views(all@));
            }
            start = end;
        } else {
            let stop = if end > start && s[end - 1] == '\r' {
                end - 1
            } else {
                end
            };
            let line = slice_chars(s, start, stop);
            proof {
                assert(rest.take(end - start) =~= s@.subrange(start as int, end as int));
                assert(line@ =~= without_carriage_return(rest.take(end - start)));
                assert(rest.skip(end - start + 1) =~= s@.skip(end + 1));
                assert(lines_of(rest) == seq![line@] + lines_of(s@.skip(end + 1)));
            }
            all.push(line);
            proof {
                assert(vec_views(all@) =~= done.push(line@));
                assert(done + (seq![line@] + lines_of(s@.skip(end + 1))) =~= done.push(line@)
                    + lines_of(s@.skip(end + 1)));
            }
            start = end + 1;
        }
    }
    proof {
        assert(lines_of(s@.skip(start as int)) =~= Seq::<Seq<char>>::empty());
        assert(vec_views(all@) + Seq::<Seq<char>>::empty() =~= vec_views(all@));
    }
    all
}

/// Where the first `from` characters are white space, and the one at
/// `from` is not or the string ends there, the string without the white
/// space at its beginning starts at `from`.
pub proof fn lemma_trim_start(s: Seq<char>, from: int)
    requires
        0 <= from <= s.len(),
        forall|k: int| 0 <= k < from ==> is_white_space(#[trigger] s[k]),
        from < s.len() ==> !is_white_space(s[from]),
    ensures
        trim_start_of(s) == s.skip(from),
    decreases from,
{
    if from == 0 {
        assert(s.skip(0) =~= s);
    } else {
        let rest = s.drop_first();
        assert(is_white_space(s[0]));
        assert forall|k: int| 0 <= k < from - 1 implies is_white_space(#[trigger] rest[k]) by {
            assert(rest[k] == s[k + 1]);
        }
        lemma_trim_start(rest, from - 1);
        assert(rest.skip(from - 1) =~= s.skip(from));
    }
}

/// Where the characters from `to` on are white space, and the one before
/// `to` is not or there is none, the string without the white space at
/// its end stops at `to`.
pub proof fn lemma_trim_end(s: Seq<char>, to: int)
    requires
        0 <= to <= s.len(),
        forall|k: int| to <= k < s.len() ==> is_white_space(#[trigger] s[k]),
        to > 0 ==> !is_white_space(s[to - 1]),
    ensures
        trim_end_of(s) == s.take(to),
    decreases s.len() - to,
{
    if to == s.len() {
        assert(s.take(to) =~= s);
    } else {
        let rest = s.drop_last();
        assert(is_white_space(s[s.len() - 1]));
        lemma_trim_end(rest, to);
        assert(rest.take(to) =~= s.take(to));
    }
}

/// Whether `c` is white space.
pub fn is_space(c: char) -> (space: bool)
    ensures
        space == is_white_space(c),
{
    let code = c as u32;
    (0x09 <= code && code <= 0x0D) || code == 0x20 || code == 0x85 || code == 0xA0 || code
        == 0x1680 || (0x2000 <= code && code <= 0x200A) || code == 0x2028 || code == 0x2029
        || code == 0x202F || code == 0x205F || code == 0x3000
}

/// `s` without the white space at both ends.
pub fn trim(s: &Vec<char>) -> (trimmed: Vec<char>)
    ensures
        trimmed@ == trimmed_of(s@),
{
    let mut from: usize = 0;
    while from < s.len() && is_space(s[from])
        invariant
            from <= s.len(),
            forall|k: int| 0 <= k < from ==> is_white_space(#[trigger] s@[k]),
        decreases s.len() - from,
    {
        from += 1;
    }
    let mut to: usize = s.len();
    while to > from && is_space(s[to - 1])
        invariant
            from <= to <= s.len(),
            forall|k: int| to <= k < s.len() ==> is_white_space(#[trigger] s@[k]),
        decreases to,
    {
        to -= 1;
    }
    proof {
        lemma_trim_start(s@, from as int);
        let started = s@.skip(from as int);
        assert forall|k: int| to - from <= k < started.len() implies is_white_space(
            #[trigger] started[k],
        ) by {
            assert(started[k] == s@[from + k]);
        }
        if to > from {
            assert(started[to - from - 1] == s@[to - 1]);
        }
        lemma_trim_end(started, to - from);
        assert(started.take(to - from) =~= s@.subrange(from as int, to as int));
    }
    slice_chars(s, from, to)
}

/// A string of digits stands for no less than any of its prefixes.
pub proof fn lemma_digits_value_grows(digits: Seq<char>, shorter: int)
    requires
        0 <= shorter <= digits.len(),
    ensures
        digits_value(digits.take(shorter)) <= digits_value(digits),
    decreases digits.len(),
{
    if shorter == digits.len() {
        assert(digits.take(shorter) =~= digits);
    } else {
        lemma_digits_value_grows(digits.drop_last(), shorter);
        assert(digits.drop_last().take(shorter) =~= digits.take(shorter));
    }
}

/// The number that the characters from `from` on are read as, when they
/// are decimal digits and their value fits.
fn parse_digits(s: &Vec<char>, from: usize) -> (value: Option<usize>)
    requires
        from <= s.len(),
    ensures
        value == ({
            let digits = s@.skip(from as int);
            if digits.len() > 0 && all_digits(digits) && digits_value(digits) <= usize::MAX {
                Some(digits_value(digits) as usize)
            } else {
                None
            }
        }),
{
    let ghost digits = s@.skip(from as int);
    if from == s.len() {
        return None;
    }
    let mut value: usize = 0;
    let mut i: usize = from;
    while i < s.len()
        invariant
            from <= i <= s.len(),
            digits == s@.skip(from as int),
            all_digits(digits.take(i - from)),
            value == digits_value(digits.take(i - from)),
        decreases s.len() - i,
    {
        let code = s[i] as u32;
        if code < 48 || code > 57 {
            assert(!is_digit(digits[i - from]));
            return None;
        }
        let digit = (code - 48) as usize;
        assert(digits.take(i - from + 1).drop_last() =~= digits.take(i - from));
        if value > (usize::MAX - digit) / 10 {
            proof {
                lemma_digits_value_grows(digits, i - from + 1);
            }
            return None;
        }
        value = value * 10 + digit;
        i += 1;
    }
    assert(digits.take(digits.len() as int) =~= digits);
    Some(value)
}

/// Reads `s` as a number: an optional `+`, then decimal digits.
pub fn parse_usize(s: &Vec<char>) -> (value: Option<usize>)
    ensures
        value == parsed_usize(s@),
{
    if s.len() > 0 && s[0] == '+' {
        parse_digits(s, 1)
    } else {
        assert(s@.skip(0) =~= s@);
        parse_digits(s, 0)
    }
}

} // verus!
