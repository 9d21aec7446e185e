//! Text helpers over `&str`, specified on the character sequence of a string.

use vstd::prelude::*;
use vstd::utf8::char_u32_cast;

verus! {

/// `p` stands in `s` at position `i`.
pub open spec fn occurs_at(p: Seq<char>, s: Seq<char>, i: int) -> bool {
    0 <= i && i + p.len() <= s.len() && s.subrange(i, i + p.len()) == p
}

/// `p` is a contiguous part of `s`.
pub open spec fn occurs(p: Seq<char>, s: Seq<char>) -> bool {
    exists|i: int| occurs_at(p, s, i)
}

/// `s` begins with `p`.
pub open spec fn is_prefix(p: Seq<char>, s: Seq<char>) -> bool {
    occurs_at(p, s, 0)
}

/// `s` with every occurrence of `p` replaced by `w`, the occurrences taken
/// from the left and not overlapping. An empty `p` occurs nowhere.
pub open spec fn replaced(s: Seq<char>, p: Seq<char>, w: Seq<char>) -> Seq<char>
    decreases s.len(),
{
    if p.len() == 0 || s.len() < p.len() {
        s
    } else if is_prefix(p, s) {
        w + replaced(s.subrange(p.len() as int, s.len() as int), p, w)
    } else {
        seq![s[0]] + replaced(s.subrange(1, s.len() as int), p, w)
    }
}

/// The text of an optional string.
pub open spec fn text_of(value: Option<String>) -> Option<Seq<char>> {
    match value {
        Some(text) => Some(text@),
        None => None,
    }
}

/// The text of an optional string slice.
pub open spec fn str_of(value: Option<&str>) -> Option<Seq<char>> {
    match value {
        Some(text) => Some(text@),
        None => None,
    }
}

/// The characters of a string, in order.
pub(crate) fn chars_of(s: &str) -> (v: Vec<char>)
    ensures
        v@ == s@,
{
    let mut v: Vec<char> = Vec::new();
    for c in it: s.chars()
        invariant
            v@ == it.seq().take(it.index() as int),
    {
        v.push(c);
    }
    v
}

/// Whether two strings hold the same characters.
pub fn same(a: &str, b: &str) -> (equal: bool)
    ensures
        equal == (a@ == b@),
{
    let x = a.to_owned();
    let y = b.to_owned();
    x == y
}

/// Whether `p` stands in `s` at position `i`.
pub(crate) fn matches_at(s: &Vec<char>, p: &Vec<char>, i: usize) -> (found: bool)
    ensures
        found == occurs_at(p@, s@, i as int),
{
    if p.len() > s.len() || i > s.len() - p.len() {
        return false;
    }
    let mut k: usize = 0;
    while k < p.len()
        invariant
            k <= p.len(),
            i + p.len() <= s.len(),
            forall|j: int| 0 <= j < k ==> s@[i + j] == p@[j],
        decreases p.len() - k,
    {
        if s[i + k] != p[k] {
            assert(s@.subrange(i as int, i + p.len())[k as int] != p@[k as int]);
            return false;
        }
        k += 1;
    }
    assert(s@.subrange(i as int, i + p.len()) =~= p@);
    true
}

/// The first position at or after `from` where `p` stands in `s`.
fn find_from(s: &Vec<char>, p: &Vec<char>, from: usize) -> (at: Option<usize>)
    ensures
        match at {
            Some(i) => from <= i && occurs_at(p@, s@, i as int) && forall|j: int|
                from <= j < i ==> !occurs_at(p@, s@, j),
            None => forall|j: int| from <= j ==> !occurs_at(p@, s@, j),
        },
{
    if p.len() > s.len() {
        return None;
    }
    let last: usize = s.len() - p.len();
    if from > last {
        return None;
    }
    let mut i: usize = from;
    loop
        invariant
            from <= i <= last,
            last == s.len() - p.len(),
            forall|j: int| from <= j < i ==> !occurs_at(p@, s@, j),
        decreases last - i,
    {
        if matches_at(s, p, i) {
            return Some(i);
        }
        if i == last {
            return None;
        }
        i += 1;
    }
}

/// Whether `p` is a contiguous part of `s`.
pub fn contains(s: &str, p: &str) -> (found: bool)
    ensures
        found == occurs(p@, s@),
{
    let sv = chars_of(s);
    let pv = chars_of(p);
    find_from(&sv, &pv, 0).is_some()
}

/// Whether `s` begins with `p`.
pub fn starts_with(s: &str, p: &str) -> (found: bool)
    ensures
        found == is_prefix(p@, s@),
{
    let sv = chars_of(s);
    let pv = chars_of(p);
    matches_at(&sv, &pv, 0)
}

/// The text of `s` with every occurrence of `p` replaced by `w`.
pub fn replace(s: &str, p: &str, w: &str) -> (out: String)
    ensures
        out@ == replaced(s@, p@, w@),
{
    let sv = chars_of(s);
    let pv = chars_of(p);
    let n = sv.len();
    let m = pv.len();
    if m == 0 || n < m {
        return s.to_owned();
    }
    let mut out = String::new();
    let mut seg: usize = 0;
    let mut i: usize = 0;
    assert(s@.subrange(0, n as int) =~= s@);
    assert(out@ + s@.subrange(0, 0) + replaced(s@, p@, w@) =~= replaced(s@, p@, w@));
    while i <= n - m
        invariant
            sv@ == s@,
            pv@ == p@,
            n == sv.len(),
            m == pv.len(),
            0 < m <= n,
            seg <= i <= n,
            out@ + s@.subrange(seg as int, i as int) + replaced(
                s@.subrange(i as int, n as int),
                p@,
                w@,
            ) == replaced(s@, p@, w@),
        decreases n - i,
    {
        let ghost rest = s@.subrange(i as int, n as int);
        assert(rest.subrange(0, m as int) =~= s@.subrange(i as int, i + m));
        if matches_at(&sv, &pv, i) {
            assert(rest.subrange(m as int, rest.len() as int) =~= s@.subrange(i + m, n as int));
            out.append(s.substring_char(seg, i));
            out.append(w);
            i += m;
            seg = i;
            assert(s@.subrange(seg as int, i as int) =~= Seq::<char>::empty());
            assert(out@ + s@.subrange(seg as int, i as int) =~= out@);
        } else {
            assert(rest.subrange(1, rest.len() as int) =~= s@.subrange(i + 1, n as int));
            assert(s@.subrange(seg as int, i as int) + seq![rest[0]] =~= s@.subrange(
                seg as int,
                i + 1,
            ));
            assert(out@ + s@.subrange(seg as int, i as int) + (seq![rest[0]] + replaced(
                s@.subrange(i + 1, n as int),
                p@,
                w@,
            )) =~= out@ + s@.subrange(seg as int, i + 1) + replaced(
                s@.subrange(i + 1, n as int),
                p@,
                w@,
            ));
            i += 1;
        }
    }
    assert(s@.subrange(seg as int, i as int) + s@.subrange(i as int, n as int) =~= s@.subrange(
        seg as int,
        n as int,
    ));
    assert(out@ + s@.subrange(seg as int, i as int) + s@.subrange(i as int, n as int) =~= out@
        + s@.subrange(seg as int, n as int));
    out.append(s.substring_char(seg, n));
    out
}

/// White space, as Unicode's `White_Space` property has it.
pub open spec fn is_space(c: char) -> bool {
    let n = c as u32;
    ||| 0x09 <= n <= 0x0D
    ||| n == 0x20
    ||| n == 0x85
    ||| n == 0xA0
    ||| n == 0x1680
    ||| 0x2000 <= n <= 0x200A
    ||| n == 0x2028
    ||| n == 0x2029
    ||| n == 0x202F
    ||| n == 0x205F
    ||| n == 0x3000
}

/// Whether a character is white space.
pub fn is_space_char(c: char) -> (space: bool)
    ensures
        space == is_space(c),
{
    let n: u32 = c as u32;
    (0x09 <= n && n <= 0x0D) || n == 0x20 || n == 0x85 || n == 0xA0 || n == 0x1680 || (0x2000 <= n
        && n <= 0x200A) || n == 0x2028 || n == 0x2029 || n == 0x202F || n == 0x205F || n == 0x3000
}

/// The first position at or after `i` that holds no white space; the length
/// of `s` where there is none.
pub open spec fn skip_spaces(s: Seq<char>, i: int) -> int
    decreases s.len() - i,
{
    if 0 <= i < s.len() && is_space(s[i]) {
        skip_spaces(s, i + 1)
    } else {
        i
    }
}

/// The end of `s` before its trailing white space, not going below `start`.
pub open spec fn drop_spaces(s: Seq<char>, start: int, end: int) -> int
    decreases end - start,
{
    if start < end <= s.len() && is_space(s[end - 1]) {
        drop_spaces(s, start, end - 1)
    } else {
        end
    }
}

/// `s` without the white space at its start and at its end.
pub open spec fn trimmed(s: Seq<char>) -> Seq<char> {
    let start = skip_spaces(s, 0);
    s.subrange(start, drop_spaces(s, start, s.len() as int))
}

/// The first position at or after `i` that holds `c`; the length of `s`
/// where there is none.
pub open spec fn next_char(s: Seq<char>, c: char, i: int) -> int
    decreases s.len() - i,
{
    if 0 <= i < s.len() && s[i] != c {
        next_char(s, c, i + 1)
    } else {
        i
    }
}

/// A line without the carriage return that may end it.
pub open spec fn without_return(line: Seq<char>) -> Seq<char> {
    if line.len() > 0 && line.last() == '\r' {
        line.drop_last()
    } else {
        line
    }
}

/// The lines of `s` from position `i` on. A line ends with a line feed, or
/// with a carriage return and a line feed; neither belongs to the line. The
/// last line needs no line feed, and an empty rest is no line.
pub open spec fn lines_from(s: Seq<char>, i: int) -> Seq<Seq<char>>
    decreases s.len() - i,
{
    if 0 <= i < s.len() {
        let end = next_char(s, '\n', i);
        if i <= end < s.len() {
            seq![without_return(s.subrange(i, end))] + lines_from(s, end + 1)
        } else {
            seq![s.subrange(i, s.len() as int)]
        }
    } else {
        Seq::empty()
    }
}

/// The lines of `s`.
pub open spec fn lines_of(s: Seq<char>) -> Seq<Seq<char>> {
    lines_from(s, 0)
}

/// The first position at or after `i` that holds white space; the length of
/// `s` where there is none.
pub open spec fn next_space(s: Seq<char>, i: int) -> int
    decreases s.len() - i,
{
    if 0 <= i < s.len() && !is_space(s[i]) {
        next_space(s, i + 1)
    } else {
        i
    }
}

/// The words of `s` from position `i` on: the longest runs of characters
/// that are no white space.
pub open spec fn words_from(s: Seq<char>, i: int) -> Seq<Seq<char>>
    decreases s.len() - i,
{
    let start = skip_spaces(s, i);
    if 0 <= i <= start < s.len() {
        let found = next_space(s, start + 1);
        let end = if start < found <= s.len() {
            found
        } else {
            start + 1
        };
        seq![s.subrange(start, end)] + words_from(s, end)
    } else {
        Seq::empty()
    }
}

/// The words of `s`.
pub open spec fn words_of(s: Seq<char>) -> Seq<Seq<char>> {
    words_from(s, 0)
}

/// The first position at or after `from` that holds no white space.
fn first_non_space(s: &Vec<char>, from: usize) -> (at: usize)
    requires
        from <= s.len(),
    ensures
        at == skip_spaces(s@, from as int),
        from <= at <= s.len(),
{
    let mut i: usize = from;
    while i < s.len() && is_space_char(s[i])
        invariant
            from <= i <= s.len(),
            skip_spaces(s@, i as int) == skip_spaces(s@, from as int),
        decreases s.len() - i,
    {
        i += 1;
    }
    i
}

/// The first position at or after `from` that holds white space.
fn first_space(s: &Vec<char>, from: usize) -> (at: usize)
    requires
        from <= s.len(),
    ensures
        at == next_space(s@, from as int),
        from <= at <= s.len(),
{
    let mut i: usize = from;
    while i < s.len() && !is_space_char(s[i])
        invariant
            from <= i <= s.len(),
            next_space(s@, i as int) == next_space(s@, from as int),
        decreases s.len() - i,
    {
        i += 1;
    }
    i
}

/// The first position at or after `from` that holds `c`.
fn first_char(s: &Vec<char>, c: char, from: usize) -> (at: usize)
    requires
        from <= s.len(),
    ensures
        at == next_char(s@, c, from as int),
        from <= at <= s.len(),
{
    let mut i: usize = from;
    while i < s.len() && s[i] != c
        invariant
            from <= i <= s.len(),
            next_char(s@, c, i as int) == next_char(s@, c, from as int),
        decreases s.len() - i,
    {
        i += 1;
    }
    i
}

/// The end of `s` before its trailing white space, not going below `start`.
fn last_non_space(s: &Vec<char>, start: usize) -> (end: usize)
    requires
        start <= s.len(),
    ensures
        end == drop_spaces(s@, start as int, s.len() as int),
        start <= end <= s.len(),
{
    let mut j: usize = s.len();
    while j > start && is_space_char(s[j - 1])
        invariant
            start <= j <= s.len(),
            drop_spaces(s@, start as int, j as int) == drop_spaces(
                s@,
                start as int,
                s.len() as int,
            ),
        decreases j - start,
    {
        j -= 1;
    }
    j
}

/// `s` without the white space at its start and at its end.
pub fn trim(s: &str) -> (inner: &str)
    ensures
        inner@ == trimmed(s@),
{
    let cs = chars_of(s);
    let start = first_non_space(&cs, 0);
    let end = last_non_space(&cs, start);
    s.substring_char(start, end)
}

/// The lines of `s`, without their line ends.
pub fn lines(s: &str) -> (out: Vec<String>)
    ensures
        out.deep_view() == lines_of(s@),
{
    let cs = chars_of(s);
    let n = cs.len();
    let mut out: Vec<String> = Vec::new();
    let mut i: usize = 0;
    assert(out.deep_view() =~= Seq::<Seq<char>>::empty());
    while i < n
        invariant
            cs@ == s@,
            n == cs.len(),
            i <= n,
            out.deep_view() + lines_from(s@, i as int) == lines_of(s@),
        decreases n - i,
    {
        let end = first_char(&cs, '\n', i);
        let ghost before = out.deep_view();
        if end < n {
            let stop = if end > i && cs[end - 1] == '\r' {
                end - 1
            } else {
                end
            };
            let ghost raw = s@.subrange(i as int, end as int);
            assert(without_return(raw) =~= s@.subrange(i as int, stop as int));
            let line = s.substring_char(i, stop).to_owned();
            out.push(line);
            assert(out.deep_view() =~= before.push(line@));
            assert(before.push(line@) + lines_from(s@, end + 1) =~= before + (seq![line@]
                + lines_from(s@, end + 1)));
            i = end + 1;
        } else {
            let line = s.substring_char(i, n).to_owned();
            out.push(line);
            assert(out.deep_view() =~= before.push(line@));
            assert(before.push(line@) + lines_from(s@, n as int) =~= before + seq![line@]);
            i = n;
        }
    }
    assert(out.deep_view() + lines_from(s@, i as int) =~= out.deep_view());
    out
}

/// The words of `s`: its longest runs of characters that are no white space.
pub fn words(s: &str) -> (out: Vec<String>)
    ensures
        out.deep_view() == words_of(s@),
{
    let cs = chars_of(s);
    let n = cs.len();
    let mut out: Vec<String> = Vec::new();
    let mut i: usize = 0;
    assert(out.deep_view() =~= Seq::<Seq<char>>::empty());
    loop
        invariant
            cs@ == s@,
            n == cs.len(),
            i <= n,
            out.deep_view() + words_from(s@, i as int) == words_of(s@),
        decreases n - i,
    {
        let start = first_non_space(&cs, i);
        if start >= n {
            assert(out.deep_view() + words_from(s@, i as int) =~= out.deep_view());
            return out;
        }
        let end = first_space(&cs, start + 1);
        let ghost before = out.deep_view();
        let word = s.substring_char(start, end).to_owned();
        out.push(word);
        assert(out.deep_view() =~= before.push(word@));
        assert(before.push(word@) + words_from(s@, end as int) =~= before + (seq![word@]
            + words_from(s@, end as int)));
        i = end;
    }
}

/// The position after the last `c` before `end`; zero where there is none.
pub open spec fn tail_start(s: Seq<char>, c: char, end: int) -> int
    decreases end,
{
    if 0 < end <= s.len() && s[end - 1] != c {
        tail_start(s, c, end - 1)
    } else {
        end
    }
}

/// The part of `s` after its last `c`; all of `s` where `c` is not in it.
pub open spec fn after_last(s: Seq<char>, c: char) -> Seq<char> {
    s.subrange(tail_start(s, c, s.len() as int), s.len() as int)
}

/// The part of `s` after its last `c`; all of `s` where `c` is not in it.
pub fn tail_after(s: &str, c: char) -> (tail: &str)
    ensures
        tail@ == after_last(s@, c),
{
    let cs = chars_of(s);
    let mut j: usize = cs.len();
    while j > 0 && cs[j - 1] != c
        invariant
            j <= cs.len(),
            tail_start(cs@, c, j as int) == tail_start(cs@, c, cs.len() as int),
        decreases j,
    {
        j -= 1;
    }
    s.substring_char(j, cs.len())
}

/// The parts, with `sep` between each two of them.
pub open spec fn joined(parts: Seq<Seq<char>>, sep: Seq<char>) -> Seq<char>
    decreases parts.len(),
{
    if parts.len() == 0 {
        Seq::empty()
    } else if parts.len() == 1 {
        parts[0]
    } else {
        joined(parts.drop_last(), sep) + sep + parts.last()
    }
}

/// The parts, with `sep` between each two of them.
pub fn join(parts: &Vec<String>, sep: &str) -> (out: String)
    ensures
        out@ == joined(parts.deep_view(), sep@),
{
    let mut out = String::new();
    let ghost all = parts.deep_view();
    let mut i: usize = 0;
    assert(all.take(0) =~= Seq::<Seq<char>>::empty());
    while i < parts.len()
        invariant
            i <= parts.len(),
            all == parts.deep_view(),
            out@ == joined(all.take(i as int), sep@),
        decreases parts.len() - i,
    {
        let ghost next = all.take(i + 1);
        assert(next.drop_last() =~= all.take(i as int));
        assert(next.last() == parts[i as int]@);
        if i > 0 {
            out.append(sep);
        } else {
            assert(out@ + parts[i as int]@ =~= parts[i as int]@);
        }
        out.append(parts[i].as_str());
        i += 1;
    }
    assert(all.take(parts.len() as int) =~= all);
    out
}

/// `a` comes before `b` in the order of a dictionary: at the first place
/// where they differ `a` has the smaller character, or `a` ends there and
/// `b` goes on. This is the order in which strings sort.
pub open spec fn precedes(a: Seq<char>, b: Seq<char>) -> bool
    decreases a.len(),
{
    if b.len() == 0 {
        false
    } else if a.len() == 0 {
        true
    } else if a[0] != b[0] {
        (a[0] as u32) < (b[0] as u32)
    } else {
        precedes(a.drop_first(), b.drop_first())
    }
}

/// Nothing comes before itself.
pub proof fn lemma_precedes_irreflexive(a: Seq<char>)
    ensures
        !precedes(a, a),
    decreases a.len(),
{
    if a.len() > 0 {
        lemma_precedes_irreflexive(a.drop_first());
    }
}

/// What comes before something that comes before a third comes before the
/// third.
pub proof fn lemma_precedes_transitive(a: Seq<char>, b: Seq<char>, c: Seq<char>)
    requires
        precedes(a, b),
        precedes(b, c),
    ensures
        precedes(a, c),
    decreases a.len(),
{
    if a.len() > 0 && a[0] == b[0] && b[0] == c[0] {
        lemma_precedes_transitive(a.drop_first(), b.drop_first(), c.drop_first());
    }
}

/// Each item comes before every later one.
pub open spec fn strictly_increasing(items: Seq<Seq<char>>) -> bool {
    forall|i: int, j: int| 0 <= i < j < items.len() ==> precedes(items[i], items[j])
}

/// `out` holds the items of `items`, each once, in the order of a
/// dictionary.
pub open spec fn is_sorted_set_of(out: Seq<Seq<char>>, items: Seq<Seq<char>>) -> bool {
    &&& strictly_increasing(out)
    &&& forall|x: Seq<char>| out.contains(x) <==> items.contains(x)
}

/// The items of `items`, each once, in the order of a dictionary.
pub open spec fn sorted_set(items: Seq<Seq<char>>) -> Seq<Seq<char>> {
    choose|out: Seq<Seq<char>>| is_sorted_set_of(out, items)
}

/// Two sequences that hold the same items, each in the order of a
/// dictionary without repeats, are the same sequence.
pub proof fn lemma_sorted_set_is_unique(a: Seq<Seq<char>>, b: Seq<Seq<char>>)
    requires
        strictly_increasing(a),
        strictly_increasing(b),
        forall|x: Seq<char>| a.contains(x) <==> b.contains(x),
    ensures
        a == b,
    decreases a.len(),
{
    if a.len() == 0 {
        if b.len() > 0 {
            assert(b.contains(b[0]));
        }
        assert(a =~= b);
    } else {
        assert(a.contains(a[0]));
        assert(b.contains(a[0]));
        let k = choose|k: int| 0 <= k < b.len() && b[k] == a[0];
        assert(b.contains(b[0]));
        assert(a.contains(b[0]));
        let j = choose|j: int| 0 <= j < a.len() && a[j] == b[0];
        if k != 0 && j != 0 {
            lemma_precedes_transitive(a[0], b[0], a[0]);
            lemma_precedes_irreflexive(a[0]);
        }
        if k != 0 {
            lemma_precedes_irreflexive(a[0]);
        }
        if j != 0 {
            lemma_precedes_irreflexive(b[0]);
        }
        assert(a[0] == b[0]);
        let ra = a.drop_first();
        let rb = b.drop_first();
        assert forall|x: Seq<char>| ra.contains(x) <==> rb.contains(x) by {
            if ra.contains(x) {
                let i = choose|i: int| 0 <= i < ra.len() && ra[i] == x;
                assert(a[i + 1] == x);
                assert(precedes(a[0], x));
                lemma_precedes_irreflexive(x);
                assert(a.contains(x));
                let m = choose|m: int| 0 <= m < b.len() && b[m] == x;
                assert(m != 0);
                assert(rb[m - 1] == x);
            }
            if rb.contains(x) {
                let i = choose|i: int| 0 <= i < rb.len() && rb[i] == x;
                assert(b[i + 1] == x);
                assert(precedes(b[0], x));
                lemma_precedes_irreflexive(x);
                assert(b.contains(x));
                let m = choose|m: int| 0 <= m < a.len() && a[m] == x;
                assert(m != 0);
                assert(ra[m - 1] == x);
            }
        }
        assert forall|i: int, j: int| 0 <= i < j < ra.len() implies precedes(ra[i], ra[j]) by {
            assert(precedes(a[i + 1], a[j + 1]));
        }
        assert forall|i: int, j: int| 0 <= i < j < rb.len() implies precedes(rb[i], rb[j]) by {
            assert(precedes(b[i + 1], b[j + 1]));
        }
        lemma_sorted_set_is_unique(ra, rb);
        assert(a =~= seq![a[0]] + ra);
        assert(b =~= seq![b[0]] + rb);
    }
}

/// How one string stands to another in the order of a dictionary.
#[derive(Clone, Copy, Debug, PartialEq, Eq, Structural)]
enum Rank {
    Before,
    Same,
    After,
}

/// How `a` stands to `b` in the order of a dictionary.
fn rank(a: &Vec<char>, b: &Vec<char>) -> (r: Rank)
    ensures
        match r {
            Rank::Before => precedes(a@, b@),
            Rank::Same => a@ == b@,
            Rank::After => precedes(b@, a@),
        },
{
    let mut i: usize = 0;
    assert(a@.skip(0) =~= a@);
    assert(b@.skip(0) =~= b@);
    while i < a.len() && i < b.len()
        invariant
            i <= a.len(),
            i <= b.len(),
            a@.take(i as int) == b@.take(i as int),
            precedes(a@, b@) == precedes(a@.skip(i as int), b@.skip(i as int)),
            precedes(b@, a@) == precedes(b@.skip(i as int), a@.skip(i as int)),
        decreases a.len() - i,
    {
        let x = a[i];
        let y = b[i];
        assert(a@.skip(i as int)[0] == x);
        assert(b@.skip(i as int)[0] == y);
        if x != y {
            proof {
                char_u32_cast(x, x as u32);
                char_u32_cast(y, y as u32);
            }
            if (x as u32) < (y as u32) {
                return Rank::Before;
            } else {
                return Rank::After;
            }
        }
        assert(a@.skip(i as int).drop_first() =~= a@.skip(i + 1));
        assert(b@.skip(i as int).drop_first() =~= b@.skip(i + 1));
        assert(a@.take(i + 1) =~= a@.take(i as int).push(x));
        assert(b@.take(i + 1) =~= b@.take(i as int).push(y));
        i += 1;
    }
    if i < b.len() {
        Rank::Before
    } else if i < a.len() {
        Rank::After
    } else {
        assert(a@ =~= a@.take(i as int));
        assert(b@ =~= b@.take(i as int));
        Rank::Same
    }
}

/// The items, each once, in the order of a dictionary.
pub fn sort_unique(items: &Vec<String>) -> (out: Vec<String>)
    ensures
        is_sorted_set_of(out.deep_view(), items.deep_view()),
        out.deep_view() == sorted_set(items.deep_view()),
{
    let ghost all = items.deep_view();
    let mut out: Vec<String> = Vec::new();
    let mut i: usize = 0;
    assert(out.deep_view() =~= Seq::<Seq<char>>::empty());
    while i < items.len()
        invariant
            i <= items.len(),
            all == items.deep_view(),
            is_sorted_set_of(out.deep_view(), all.take(i as int)),
        decreases items.len() - i,
    {
        let item = &items[i];
        let xs = chars_of(item.as_str());
        let ghost sorted = out.deep_view();
        let ghost seen = all.take(i as int);
        let ghost next = all.take(i + 1);
        assert(next =~= seen.push(item@));
        assert forall|x: Seq<char>| next.contains(x) <==> (seen.contains(x) || x == item@) by {
            if next.contains(x) {
                let m = choose|m: int| 0 <= m < next.len() && next[m] == x;
                if m < seen.len() {
                    assert(seen[m] == x);
                }
            }
            if seen.contains(x) {
                let m = choose|m: int| 0 <= m < seen.len() && seen[m] == x;
                assert(next[m] == x);
            }
            assert(next[seen.len() as int] == item@);
        }
        let mut k: usize = 0;
        let mut present = false;
        while k < out.len()
            invariant_except_break
                !present,
            invariant
                k <= out.len(),
                xs@ == item@,
                sorted == out.deep_view(),
                forall|j: int| 0 <= j < k ==> precedes(sorted[j], item@),
            ensures
                k <= out.len(),
                forall|j: int| 0 <= j < k ==> precedes(sorted[j], item@),
                present ==> k < out.len() && sorted[k as int] == item@,
                !present && k < out.len() ==> precedes(item@, sorted[k as int]),
            decreases out.len() - k,
        {
            let ys = chars_of(out[k].as_str());
            assert(sorted[k as int] == out[k as int]@);
            match rank(&ys, &xs) {
                Rank::Before => {
                    k += 1;
                },
                Rank::Same => {
                    present = true;
                    break ;
                },
                Rank::After => {
                    break ;
                },
            }
        }
        if present {
            assert(sorted.contains(item@));
        } else {
            let copy = item.clone();
            out.insert(k, copy);
            let ghost grown = out.deep_view();
            assert(grown =~= sorted.insert(k as int, item@));
            assert forall|a: int, b: int| 0 <= a < b < grown.len() implies precedes(
                grown[a],
                grown[b],
            ) by {
                if b < k {
                    assert(grown[a] == sorted[a] && grown[b] == sorted[b]);
                } else if b == k {
                    assert(grown[a] == sorted[a]);
                } else if a == k {
                    assert(grown[b] == sorted[b - 1]);
                    if b - 1 > k {
                        lemma_precedes_transitive(item@, sorted[k as int], sorted[b - 1]);
                    }
                } else if a < k {
                    assert(grown[a] == sorted[a] && grown[b] == sorted[b - 1]);
                } else {
                    assert(grown[a] == sorted[a - 1] && grown[b] == sorted[b - 1]);
                }
            }
            assert forall|x: Seq<char>| grown.contains(x) <==> (sorted.contains(x) || x
                == item@) by {
                if grown.contains(x) {
                    let m = choose|m: int| 0 <= m < grown.len() && grown[m] == x;
                    if m < k {
                        assert(sorted[m] == x);
                    } else if m > k {
                        assert(sorted[m - 1] == x);
                    }
                }
                if sorted.contains(x) {
                    let m = choose|m: int| 0 <= m < sorted.len() && sorted[m] == x;
                    if m < k {
                        assert(grown[m] == x);
                    } else {
                        assert(grown[m + 1] == x);
                    }
                }
                assert(grown[k as int] == item@);
            }
        }
        i += 1;
    }
    assert(all.take(items.len() as int) =~= all);
    proof {
        let chosen = sorted_set(all);
        assert(is_sorted_set_of(out.deep_view(), all));
        assert(is_sorted_set_of(chosen, all));
        lemma_sorted_set_is_unique(out.deep_view(), chosen);
    }
    out
}

/// The first position at or after `from` where `p` stands in `s`.
pub open spec fn first_occurrence(p: Seq<char>, s: Seq<char>, from: int) -> Option<int> {
    if exists|i: int| from <= i && occurs_at(p, s, i) {
        Some(
            choose|i: int|
                from <= i && occurs_at(p, s, i) && forall|j: int|
                    from <= j < i ==> !occurs_at(p, s, j),
        )
    } else {
        None
    }
}

/// A position at which `p` stands, with none between `from` and it, is the
/// first occurrence.
pub proof fn lemma_first_occurrence(p: Seq<char>, s: Seq<char>, from: int, at: int)
    requires
        from <= at,
        occurs_at(p, s, at),
        forall|j: int| from <= j < at ==> !occurs_at(p, s, j),
    ensures
        first_occurrence(p, s, from) == Some(at),
{
    let chosen = choose|i: int|
        from <= i && occurs_at(p, s, i) && forall|j: int| from <= j < i ==> !occurs_at(p, s, j);
    assert(chosen == at);
}

/// The part of `s` before the first `p` in it; all of `s` where `p` is not
/// in it.
pub open spec fn before_first(s: Seq<char>, p: Seq<char>) -> Seq<char> {
    match first_occurrence(p, s, 0) {
        Some(at) => s.subrange(0, at),
        None => s,
    }
}

/// The part of `s` after the first `p` in it, where `p` is in it.
pub open spec fn after_first(s: Seq<char>, p: Seq<char>) -> Option<Seq<char>> {
    match first_occurrence(p, s, 0) {
        Some(at) => Some(s.subrange(at + p.len(), s.len() as int)),
        None => None,
    }
}

/// The first position where `p` stands in `s`.
fn find(s: &Vec<char>, p: &Vec<char>) -> (at: Option<usize>)
    ensures
        match at {
            Some(i) => first_occurrence(p@, s@, 0) == Some(i as int) && i + p.len() <= s.len(),
            None => first_occurrence(p@, s@, 0) is None,
        },
{
    let at = find_from(s, p, 0);
    proof {
        match at {
            Some(i) => {
                lemma_first_occurrence(p@, s@, 0, i as int);
            },
            None => {
                assert forall|j: int| !(0 <= j && occurs_at(p@, s@, j)) by {}
            },
        }
    }
    at
}

/// The part of `s` before the first `p` in it; all of `s` where `p` is not
/// in it.
pub fn head_before<'a>(s: &'a str, p: &str) -> (head: &'a str)
    ensures
        head@ == before_first(s@, p@),
{
    let sv = chars_of(s);
    let pv = chars_of(p);
    match find(&sv, &pv) {
        Some(at) => s.substring_char(0, at),
        None => s,
    }
}

/// The part of `s` after the first `p` in it, where `p` is in it.
pub fn rest_after<'a>(s: &'a str, p: &str) -> (rest: Option<&'a str>)
    ensures
        match rest {
            Some(r) => after_first(s@, p@) == Some(r@),
            None => after_first(s@, p@) is None,
        },
{
    let sv = chars_of(s);
    let pv = chars_of(p);
    match find(&sv, &pv) {
        Some(at) => Some(s.substring_char(at + pv.len(), sv.len())),
        None => None,
    }
}

/// The first word of `s`, where it has one.
pub fn first_word(s: &str) -> (word: Option<&str>)
    ensures
        match word {
            Some(w) => words_of(s@).len() > 0 && words_of(s@)[0] == w@,
            None => words_of(s@).len() == 0,
        },
{
    let cs = chars_of(s);
    let start = first_non_space(&cs, 0);
    if start >= cs.len() {
        return None;
    }
    let end = first_space(&cs, start + 1);
    Some(s.substring_char(start, end))
}

/// The first position at or after `i` that does not hold `c`; the length of
/// `s` where there is none.
pub open spec fn skip_char(s: Seq<char>, c: char, i: int) -> int
    decreases s.len() - i,
{
    if 0 <= i < s.len() && s[i] == c {
        skip_char(s, c, i + 1)
    } else {
        i
    }
}

/// `s` without the `c`s at its start.
pub open spec fn without_leading(s: Seq<char>, c: char) -> Seq<char> {
    s.subrange(skip_char(s, c, 0), s.len() as int)
}

/// `s` without the `c`s at its start.
pub fn strip_leading(s: &str, c: char) -> (rest: &str)
    ensures
        rest@ == without_leading(s@, c),
{
    let cs = chars_of(s);
    let mut i: usize = 0;
    while i < cs.len() && cs[i] == c
        invariant
            i <= cs.len(),
            skip_char(cs@, c, i as int) == skip_char(cs@, c, 0),
        decreases cs.len() - i,
    {
        i += 1;
    }
    s.substring_char(i, cs.len())
}

/// The first `n` characters of `s`; all of `s` where it has fewer.
pub open spec fn leading(s: Seq<char>, n: nat) -> Seq<char> {
    if s.len() <= n {
        s
    } else {
        s.take(n as int)
    }
}

/// The first `n` characters of `s`; all of `s` where it has fewer.
pub fn take_chars(s: &str, n: usize) -> (head: &str)
    ensures
        head@ == leading(s@, n as nat),
{
    let len = s.unicode_len();
    if len <= n {
        s
    } else {
        s.substring_char(0, n)
    }
}

/// The digit `d` as text.
pub open spec fn digit(d: nat) -> Seq<char> {
    "0123456789"@.subrange(d as int, d as int + 1)
}

/// The number `n` written in decimal.
pub open spec fn decimal(n: nat) -> Seq<char>
    decreases n,
{
    if n < 10 {
        digit(n)
    } else {
        decimal(n / 10) + digit(n % 10)
    }
}

/// The number `n` written in decimal.
pub fn to_decimal(n: u64) -> (out: String)
    ensures
        out@ == decimal(n as nat),
    decreases n,
{
    proof {
        reveal_strlit("0123456789");
    }
    if n < 10 {
        "0123456789".substring_char(n as usize, n as usize + 1).to_owned()
    } else {
        let mut out = to_decimal(n / 10);
        let last = (n % 10) as usize;
        out.append("0123456789".substring_char(last, last + 1));
        out
    }
}

/// The value of a decimal digit.
pub open spec fn digit_value(c: char) -> Option<nat> {
    if '0' <= c <= '9' {
        Some((c as nat - '0' as nat) as nat)
    } else {
        None
    }
}

/// The value of a run of decimal digits; `None` where a character of it is
/// no digit. The empty run has the value zero.
pub open spec fn digits_value(s: Seq<char>) -> Option<nat>
    decreases s.len(),
{
    if s.len() == 0 {
        Some(0)
    } else {
        match (digits_value(s.drop_last()), digit_value(s.last())) {
            (Some(value), Some(d)) => Some(value * 10 + d),
            _ => None,
        }
    }
}

/// The number that `s` writes in decimal: digits, at least one, after at
/// most one `+`, with a value that fits 32 bits.
pub open spec fn number_of(s: Seq<char>) -> Option<u32> {
    let body = if s.len() > 0 && s[0] == '+' {
        s.drop_first()
    } else {
        s
    };
    if body.len() == 0 {
        None
    } else {
        match digits_value(body) {
            Some(value) => if value <= u32::MAX {
                Some(value as u32)
            } else {
                None
            },
            None => None,
        }
    }
}

/// A run of digits that goes on from a value does not get smaller.
pub proof fn lemma_digits_value_grows(s: Seq<char>, k: int)
    requires
        0 <= k <= s.len(),
        digits_value(s) is Some,
    ensures
        digits_value(s.take(k)) is Some,
        digits_value(s.take(k))->0 <= digits_value(s)->0,
    decreases s.len() - k,
{
    if k == s.len() {
        assert(s.take(k) =~= s);
    } else {
        assert(s.drop_last().take(k) =~= s.take(k));
        lemma_digits_value_grows(s.drop_last(), k);
    }
}

/// Reads a number written in decimal.
pub fn parse_u32(s: &str) -> (number: Option<u32>)
    ensures
        number == number_of(s@),
{
    let cs = chars_of(s);
    let start: usize = if cs.len() > 0 && cs[0] == '+' {
        1
    } else {
        0
    };
    if start >= cs.len() {
        return None;
    }
    let ghost body = cs@.subrange(start as int, cs.len() as int);
    assert(start == 1 ==> body =~= cs@.drop_first());
    assert(start == 0 ==> body =~= cs@);
    let mut value: u64 = 0;
    let mut i: usize = start;
    assert(body.take(0) =~= Seq::<char>::empty());
    while i < cs.len()
        invariant
            start <= i <= cs.len(),
            cs@ == s@,
            body.len() == cs.len() - start,
            body.len() > 0,
            body == cs@.subrange(start as int, cs.len() as int),
            body == if s@.len() > 0 && s@[0] == '+' {
                s@.drop_first()
            } else {
                s@
            },
            digits_value(body.take(i - start)) == Some(value as nat),
            value <= u32::MAX,
        decreases cs.len() - i,
    {
        let c = cs[i];
        let ghost next = body.take(i - start + 1);
        assert(next.drop_last() =~= body.take(i - start));
        assert(next.last() == c);
        if c < '0' || c > '9' {
            proof {
                if digits_value(body) is Some {
                    lemma_digits_value_grows(body, i - start + 1);
                }
            }
            return None;
        }
        let d: u64 = (c as u32 - '0' as u32) as u64;
        value = value * 10 + d;
        if value > 0xFFFF_FFFF {
            proof {
                if digits_value(body) is Some {
                    lemma_digits_value_grows(body, i - start + 1);
                }
            }
            return None;
        }
        i += 1;
    }
    assert(body.take(cs.len() - start) =~= body);
    Some(value as u32)
}

} // verus!
