//! Text: comparing, trimming, splitting, joining and padding strings.
use vstd::prelude::*;

verus! {

// ── What the operations mean ──────────────────────────────────────────────────

/// The characters with the Unicode property `White_Space`.
pub open spec fn white_space(c: char) -> bool {
    ||| 0x9 <= c as int <= 0xd
    ||| c as int == 0x20
    ||| c as int == 0x85
    ||| c as int == 0xa0
    ||| c as int == 0x1680
    ||| 0x2000 <= c as int <= 0x200a
    ||| c as int == 0x2028
    ||| c as int == 0x2029
    ||| c as int == 0x202f
    ||| c as int == 0x205f
    ||| c as int == 0x3000
}

/// `s` without the white space that it starts with.
pub open spec fn trim_start(s: Seq<char>) -> Seq<char>
    decreases s.len(),
{
    if s.len() > 0 && white_space(s[0]) {
        trim_start(s.drop_first())
    } else {
        s
    }
}

/// `s` without the white space that it ends with.
pub open spec fn trim_end(s: Seq<char>) -> Seq<char>
    decreases s.len(),
{
    if s.len() > 0 && white_space(s.last()) {
        trim_end(s.drop_last())
    } else {
        s
    }
}

/// `s` without the white space around it.
pub open spec fn trim(s: Seq<char>) -> Seq<char> {
    trim_end(trim_start(s))
}

/// The position of the first `c` in `s`, or the length of `s` where there is none.
pub open spec fn find(s: Seq<char>, c: char) -> int
    decreases s.len(),
{
    if s.len() == 0 || s[0] == c {
        0
    } else {
        1 + find(s.drop_first(), c)
    }
}

/// A line without the carriage return in front of its line feed.
pub open spec fn without_cr(line: Seq<char>) -> Seq<char> {
    if line.len() > 0 && line.last() == '\r' {
        line.drop_last()
    } else {
        line
    }
}

/// The lines of `s`. A line ends at a line feed, or at a carriage return and a line feed; the
/// last line needs no ending.
pub open spec fn lines(s: Seq<char>) -> Seq<Seq<char>>
    decreases s.len(),
{
    let i = find(s, '\n');
    if s.len() == 0 {
        Seq::empty()
    } else if i == s.len() {
        seq![s]
    } else {
        proof {
            lemma_find(s, '\n');
        }
        seq![without_cr(s.take(i))] + lines(s.skip(i + 1))
    }
}

/// The lines `all`, each with a line feed behind it.
pub open spec fn written(all: Seq<Seq<char>>) -> Seq<char>
    decreases all.len(),
{
    if all.len() == 0 {
        Seq::empty()
    } else {
        all[0] + seq!['\n'] + written(all.drop_first())
    }
}

/// `parts` in a row, with `sep` between each two.
pub open spec fn join(parts: Seq<Seq<char>>, sep: Seq<char>) -> Seq<char>
    decreases parts.len(),
{
    if parts.len() == 0 {
        Seq::empty()
    } else if parts.len() == 1 {
        parts[0]
    } else {
        join(parts.drop_last(), sep) + sep + parts.last()
    }
}

/// `n` times the character `c`.
pub open spec fn repeated(c: char, n: nat) -> Seq<char> {
    Seq::new(n, |i: int| c)
}

/// `s` filled up with spaces to `width` characters.
pub open spec fn padded(s: Seq<char>, width: nat) -> Seq<char> {
    if s.len() < width {
        s + repeated(' ', (width - s.len()) as nat)
    } else {
        s
    }
}

// ── Facts about them ──────────────────────────────────────────────────────────

/// What `find` returns is a position of `c`, and no earlier position holds `c`.
pub proof fn lemma_find(s: Seq<char>, c: char)
    ensures
        0 <= find(s, c) <= s.len(),
        find(s, c) < s.len() ==> s[find(s, c)] == c,
        forall|i: int| 0 <= i < find(s, c) ==> s[i] != c,
    decreases s.len(),
{
    if s.len() > 0 && s[0] != c {
        let t = s.drop_first();
        lemma_find(t, c);
        assert forall|i: int| 0 <= i < find(s, c) implies s[i] != c by {
            if i > 0 {
                assert(t[i - 1] == s[i]);
            }
        }
    }
}

/// The first position that holds `c` is what `find` returns.
pub proof fn lemma_find_is(s: Seq<char>, c: char, n: int)
    requires
        0 <= n <= s.len(),
        n < s.len() ==> s[n] == c,
        forall|i: int| 0 <= i < n ==> s[i] != c,
    ensures
        find(s, c) == n,
{
    lemma_find(s, c);
    if find(s, c) < n {
        assert(s[find(s, c)] != c);
    }
    if n < find(s, c) {
        assert(s[n] != c);
    }
}

/// Reading lines back: lines that were written, each with a line feed behind it, are read as they
/// were, but for a carriage return at the end of a line, which counts to its ending.
pub proof fn law_lines_are_read_back(all: Seq<Seq<char>>)
    requires
        forall|i: int| 0 <= i < all.len() ==> !(#[trigger] all[i]).contains('\n'),
    ensures
        lines(written(all)) == all.map_values(|line: Seq<char>| without_cr(line)),
    decreases all.len(),
{
    let read = all.map_values(|line: Seq<char>| without_cr(line));
    if all.len() > 0 {
        let line = all[0];
        let rest = all.drop_first();
        let s = written(all);
        assert forall|i: int| 0 <= i < rest.len() implies !(#[trigger] rest[i]).contains('\n') by {
            assert(rest[i] == all[i + 1]);
        }
        law_lines_are_read_back(rest);
        assert forall|i: int| 0 <= i < line.len() implies s[i] != '\n' by {
            assert(line.contains(line[i]));
        }
        lemma_find_is(s, '\n', line.len() as int);
        assert(s.take(line.len() as int) =~= line);
        assert(s.skip(line.len() as int + 1) =~= written(rest));
        assert(seq![without_cr(line)] + rest.map_values(|line: Seq<char>| without_cr(line))
            =~= read);
    } else {
        assert(read =~= Seq::empty());
    }
}

/// White space at the end of a text is trimmed off in any case.
pub proof fn lemma_trim_drops_last(s: Seq<char>)
    requires
        s.len() > 0,
        white_space(s.last()),
    ensures
        trim(s.drop_last()) == trim(s),
    decreases s.len(),
{
    if white_space(s[0]) {
        if s.len() > 1 {
            lemma_trim_drops_last(s.drop_first());
            assert(s.drop_first().drop_last() =~= s.drop_last().drop_first());
        } else {
            assert(s.drop_last() =~= Seq::empty());
            assert(s.drop_first() =~= Seq::empty());
        }
    }
}

/// Trimming twice is trimming once.
pub proof fn law_trim_is_done_once(s: Seq<char>)
    ensures
        trim(trim(s)) == trim(s),
        trim(s).len() > 0 ==> !white_space(trim(s)[0]) && !white_space(trim(s).last()),
{
    lemma_trim_start(s);
    lemma_trim_end(trim_start(s));
}

proof fn lemma_trim_start(s: Seq<char>)
    ensures
        trim_start(s).len() > 0 ==> !white_space(trim_start(s)[0]),
    decreases s.len(),
{
    if s.len() > 0 && white_space(s[0]) {
        lemma_trim_start(s.drop_first());
    }
}

proof fn lemma_trim_end(s: Seq<char>)
    ensures
        trim_end(s).len() <= s.len(),
        trim_end(s).len() > 0 ==> !white_space(trim_end(s).last()) && trim_end(s)[0] == s[0],
    decreases s.len(),
{
    if s.len() > 0 && white_space(s.last()) {
        lemma_trim_end(s.drop_last());
    }
}

/// Every part stands in what is joined.
pub proof fn lemma_join_holds(parts: Seq<Seq<char>>, sep: Seq<char>, i: int) -> (around: (
    Seq<char>,
    Seq<char>,
))
    requires
        0 <= i < parts.len(),
    ensures
        join(parts, sep) == around.0 + parts[i] + around.1,
    decreases parts.len(),
{
    if parts.len() == 1 {
        assert(join(parts, sep) =~= Seq::<char>::empty() + parts[i] + Seq::<char>::empty());
        (Seq::empty(), Seq::empty())
    } else if i == parts.len() - 1 {
        let head = join(parts.drop_last(), sep) + sep;
        assert(join(parts, sep) =~= head + parts[i] + Seq::<char>::empty());
        (head, Seq::empty())
    } else {
        let (head, tail) = lemma_join_holds(parts.drop_last(), sep, i);
        assert(join(parts, sep) =~= head + parts[i] + (tail + sep + parts.last()));
        (head, tail + sep + parts.last())
    }
}

// ── Comparing ─────────────────────────────────────────────────────────────────

/// Whether two strings hold the same characters.
pub fn same_text(a: &str, b: &str) -> (r: bool)
    ensures
        r == (a@ == b@),
{
    a.to_owned() == b.to_owned()
}

/// The characters of a string.
pub fn chars_of(s: &str) -> (v: Vec<char>)
    ensures
        v@ == s@,
{
    let mut v: Vec<char> = Vec::new();
    for c in it: s.chars()
        invariant
            v@ == s@.take(it.index()),
            it.seq() == s@,
    {
        v.push(c);
    }
    assert(s@.take(s@.len() as int) =~= s@);
    v
}

/// The part of `s` from the character `from` up to the character `to`.
pub fn part(s: &str, from: usize, to: usize) -> (r: String)
    requires
        from <= to <= s@.len(),
    ensures
        r@ == s@.subrange(from as int, to as int),
{
    s.substring_char(from, to).to_owned()
}

/// What follows `prefix` in `s`, if `s` starts with it.
pub fn strip_prefix(s: &str, prefix: &str) -> (r: Option<String>)
    ensures
        r is Some <==> prefix@.is_prefix_of(s@),
        r matches Some(t) ==> t@ == s@.skip(prefix@.len() as int),
{
    let n: usize = prefix.unicode_len();
    let len: usize = s.unicode_len();
    if n > len {
        return None;
    }
    let head = part(s, 0, n);
    if same_text(head.as_str(), prefix) {
        assert(s@.subrange(0, n as int) =~= s@.take(n as int));
        assert(s@.subrange(n as int, len as int) =~= s@.skip(n as int));
        Some(part(s, n, len))
    } else {
        assert(prefix@.is_prefix_of(s@) ==> s@.subrange(0, n as int) =~= prefix@);
        None
    }
}

/// What stands in front of the first `c` in `s`, and what follows it, if there is a `c`.
pub fn split_once(s: &str, c: char) -> (r: Option<(String, String)>)
    ensures
        r is Some <==> find(s@, c) < s@.len(),
        r matches Some((head, tail)) ==> {
            &&& head@ == s@.take(find(s@, c))
            &&& tail@ == s@.skip(find(s@, c) + 1)
        },
{
    let v = chars_of(s);
    let n: usize = position(&v, 0, c);
    assert(s@.skip(0) =~= s@);
    if n < v.len() {
        let len: usize = v.len();
        assert(s@.subrange(0, n as int) =~= s@.take(n as int));
        assert(s@.subrange(n as int + 1, len as int) =~= s@.skip(n as int + 1));
        Some((part(s, 0, n), part(s, n + 1, len)))
    } else {
        None
    }
}

/// The position of the first `c` at or behind `from`, or the length of `v`.
fn position(v: &Vec<char>, from: usize, c: char) -> (n: usize)
    requires
        from <= v@.len(),
    ensures
        from <= n <= v@.len(),
        n == from + find(v@.skip(from as int), c),
{
    let mut n: usize = from;
    while n < v.len() && v[n] != c
        invariant
            from <= n <= v@.len(),
            forall|i: int| from <= i < n ==> v@[i] != c,
        decreases v@.len() - n,
    {
        n = n + 1;
    }
    proof {
        lemma_find_is(v@.skip(from as int), c, n - from);
    }
    n
}

// ── Trimming ──────────────────────────────────────────────────────────────────

/// Whether `c` is white space.
pub fn is_white_space(c: char) -> (r: bool)
    ensures
        r == white_space(c),
{
    let u: u32 = c as u32;
    (0x9 <= u && u <= 0xd) || u == 0x20 || u == 0x85 || u == 0xa0 || u == 0x1680 || (0x2000 <= u
        && u <= 0x200a) || u == 0x2028 || u == 0x2029 || u == 0x202f || u == 0x205f || u == 0x3000
}

/// `s` without the white space around it.
pub fn trimmed(s: &str) -> (r: String)
    ensures
        r@ == trim(s@),
{
    let v = chars_of(s);
    let mut from: usize = 0;
    assert(s@.skip(0) =~= s@);
    while from < v.len() && is_white_space(v[from])
        invariant
            from <= v@.len(),
            v@ == s@,
            trim_start(s@) == trim_start(s@.skip(from as int)),
        decreases v@.len() - from,
    {
        assert(s@.skip(from as int).drop_first() =~= s@.skip(from as int + 1));
        from = from + 1;
    }
    let mut to: usize = v.len();
    assert(trim_start(s@) == s@.skip(from as int));
    assert(s@.skip(from as int) =~= s@.subrange(from as int, to as int));
    while from < to && is_white_space(v[to - 1])
        invariant
            from <= to <= v@.len(),
            v@ == s@,
            trim(s@) == trim_end(s@.subrange(from as int, to as int)),
        decreases to,
    {
        assert(s@.subrange(from as int, to as int).drop_last() =~= s@.subrange(
            from as int,
            to as int - 1,
        ));
        to = to - 1;
    }
    part(s, from, to)
}

// ── Lines ─────────────────────────────────────────────────────────────────────

/// The lines of `s`.
pub fn lines_of(s: &str) -> (r: Vec<String>)
    ensures
        r.deep_view() == lines(s@),
{
    let v = chars_of(s);
    let mut r: Vec<String> = Vec::new();
    let mut from: usize = 0;
    assert(s@.skip(0) =~= s@);
    assert(r.deep_view() =~= Seq::empty());
    while from < v.len()
        invariant
            from <= v@.len(),
            v@ == s@,
            lines(s@) =~= r.deep_view() + lines(s@.skip(from as int)),
        decreases v@.len() - from,
    {
        let ghost rest = s@.skip(from as int);
        let ghost done = r.deep_view();
        let n: usize = position(&v, from, '\n');
        if n == v.len() {
            assert(s@.subrange(from as int, n as int) =~= rest);
            r.push(part(s, from, n));
            assert(r.deep_view() =~= done.push(rest));
            from = n;
            assert(s@.skip(from as int) =~= Seq::<char>::empty());
        } else {
            let ghost line = rest.take(n - from);
            let mut to: usize = n;
            if from < n && v[n - 1] == '\r' {
                to = n - 1;
            }
            assert(s@.subrange(from as int, to as int) =~= without_cr(line));
            r.push(part(s, from, to));
            assert(r.deep_view() =~= done.push(without_cr(line)));
            assert(rest.skip(n - from + 1) =~= s@.skip(n as int + 1));
            from = n + 1;
        }
    }
    assert(s@.skip(from as int) =~= Seq::<char>::empty());
    r
}

// ── Joining and padding ───────────────────────────────────────────────────────

/// `parts` in a row, with `sep` between each two.
pub fn joined(parts: &Vec<String>, sep: &str) -> (r: String)
    ensures
        r@ == join(parts.deep_view(), sep@),
{
    let mut r = String::new();
    let mut i: usize = 0;
    let ghost all = parts.deep_view();
    assert(all.take(0) =~= Seq::empty());
    while i < parts.len()
        invariant
            i <= parts@.len(),
            all == parts.deep_view(),
            r@ == join(all.take(i as int), sep@),
        decreases parts@.len() - i,
    {
        assert(all.take(i as int + 1).drop_last() =~= all.take(i as int));
        if i > 0 {
            r.append(sep);
        }
        r.append(parts[i].as_str());
        i = i + 1;
        assert(r@ =~= join(all.take(i as int), sep@));
    }
    assert(all.take(i as int) =~= all);
    r
}

/// `n` times the one character that `unit` holds.
pub fn repeat_char(unit: &str, n: usize) -> (r: String)
    requires
        unit@.len() == 1,
    ensures
        r@ == repeated(unit@[0], n as nat),
{
    let mut r = String::new();
    let mut i: usize = 0;
    while i < n
        invariant
            i <= n,
            unit@.len() == 1,
            r@ =~= repeated(unit@[0], i as nat),
        decreases n - i,
    {
        r.append(unit);
        i = i + 1;
    }
    r
}

/// `s` filled up with spaces to `width` characters.
pub fn pad_right(s: &str, width: usize) -> (r: String)
    ensures
        r@ == padded(s@, width as nat),
{
    let len: usize = s.unicode_len();
    let mut r = s.to_owned();
    if len < width {
        proof {
            reveal_strlit(" ");
        }
        let fill = repeat_char(" ", width - len);
        r.append(fill.as_str());
    }
    r
}

// ── Laws ──────────────────────────────────────────────────────────────────────

proof fn lemma_trim_start_of(a: Seq<char>, t: Seq<char>)
    requires
        forall|i: int| 0 <= i < a.len() ==> white_space(#[trigger] a[i]),
    ensures
        trim_start(a + t) == trim_start(t),
    decreases a.len(),
{
    if a.len() == 0 {
        assert(a + t =~= t);
    } else {
        assert((a + t)[0] == a[0]);
        assert((a + t).drop_first() =~= a.drop_first() + t);
        lemma_trim_start_of(a.drop_first(), t);
    }
}

proof fn lemma_trim_end_of(t: Seq<char>, b: Seq<char>)
    requires
        forall|i: int| 0 <= i < b.len() ==> white_space(#[trigger] b[i]),
    ensures
        trim_end(t + b) == trim_end(t),
    decreases b.len(),
{
    if b.len() == 0 {
        assert(t + b =~= t);
    } else {
        assert((t + b).last() == b[b.len() - 1]);
        assert((t + b).drop_last() =~= t + b.drop_last());
        lemma_trim_end_of(t, b.drop_last());
    }
}

/// White space around a text comes off, and nothing else does: what is left of any text between
/// white space is that text, if it neither starts nor ends with white space itself.
pub proof fn law_trim_takes_what_surrounds(a: Seq<char>, core: Seq<char>, b: Seq<char>)
    requires
        forall|i: int| 0 <= i < a.len() ==> white_space(#[trigger] a[i]),
        forall|i: int| 0 <= i < b.len() ==> white_space(#[trigger] b[i]),
        core.len() > 0 ==> !white_space(core[0]) && !white_space(core[core.len() - 1]),
    ensures
        trim(a + core + b) == core,
{
    assert(a + core + b =~= a + (core + b));
    lemma_trim_start_of(a, core + b);
    if core.len() > 0 {
        assert((core + b)[0] == core[0]);
        lemma_trim_end_of(core, b);
    } else {
        assert(core + b =~= b + core);
        lemma_trim_start_of(b, core);
        assert(trim_start(core) =~= core);
    }
}

/// Lines come off a text one by one: a line feed ends a line, and so do a carriage return and a
/// line feed; what stands behind the last line feed is the last line, if there is anything.
pub proof fn law_lines_come_one_by_one(line: Seq<char>, rest: Seq<char>)
    requires
        !line.contains('\n'),
    ensures
        lines(Seq::empty()) == Seq::<Seq<char>>::empty(),
        line.len() > 0 ==> lines(line) == seq![line],
        line.len() == 0 || line[line.len() - 1] != '\r' ==> lines(line + seq!['\n'] + rest)
            == seq![line] + lines(rest),
        lines(line + seq!['\r', '\n'] + rest) == seq![line] + lines(rest),
{
    assert forall|i: int| 0 <= i < line.len() implies line[i] != '\n' by {
        assert(line.contains(line[i]));
    }
    let n = line.len() as int;
    lemma_find_is(line, '\n', n);
    let unix = line + seq!['\n'] + rest;
    lemma_find_is(unix, '\n', n);
    assert(unix.take(n) =~= line);
    assert(unix.skip(n + 1) =~= rest);
    let dos = line + seq!['\r', '\n'] + rest;
    lemma_find_is(dos, '\n', n + 1);
    assert(dos.take(n + 1) =~= line.push('\r'));
    assert(dos.take(n + 1).drop_last() =~= line);
    assert(dos.skip(n + 2) =~= rest);
}

/// Joining two lists is joining each and putting the separator between the two results.
pub proof fn law_join_of_two_lists(a: Seq<Seq<char>>, b: Seq<Seq<char>>, sep: Seq<char>)
    requires
        a.len() > 0,
        b.len() > 0,
    ensures
        join(a + b, sep) == join(a, sep) + sep + join(b, sep),
        join(seq![a[0]], sep) == a[0],
        join(Seq::empty(), sep) == Seq::<char>::empty(),
    decreases b.len(),
{
    assert((a + b).last() == b[b.len() - 1]);
    assert((a + b).drop_last() =~= a + b.drop_last());
    if b.len() == 1 {
        assert(a + b.drop_last() =~= a);
    } else {
        law_join_of_two_lists(a, b.drop_last(), sep);
        assert(join(a, sep) + sep + join(b.drop_last(), sep) + sep + b.last() =~= join(a, sep) + sep
            + (join(b.drop_last(), sep) + sep + b.last()));
    }
}

/// A padded text starts with the text, is as wide as it was asked to be or as the text, whichever
/// is more, and holds spaces behind the text.
pub proof fn law_padding_is_spaces(s: Seq<char>, width: nat)
    ensures
        padded(s, width).len() == if s.len() >= width {
            s.len()
        } else {
            width
        },
        padded(s, width).take(s.len() as int) == s,
        forall|i: int| s.len() <= i < width ==> #[trigger] padded(s, width)[i] == ' ',
{
    assert(padded(s, width).take(s.len() as int) =~= s);
}

/// A repeated character is repeated as often as it was asked to be.
pub proof fn law_repeated_is_one_character(c: char, n: nat)
    ensures
        repeated(c, n).len() == n,
        forall|i: int| 0 <= i < n ==> #[trigger] repeated(c, n)[i] == c,
{
}

/// The white space, character by character.
pub proof fn law_white_space_in_full(c: char)
    ensures
        white_space(c) <==> {
            ||| c == '\t' || c == '\n' || c == '\x0b' || c == '\x0c' || c == '\r' || c == ' '
            ||| c == '\u{85}' || c == '\u{a0}' || c == '\u{1680}' || c == '\u{2000}'
            ||| c == '\u{2001}' || c == '\u{2002}' || c == '\u{2003}' || c == '\u{2004}'
            ||| c == '\u{2005}' || c == '\u{2006}' || c == '\u{2007}' || c == '\u{2008}'
            ||| c == '\u{2009}' || c == '\u{200a}' || c == '\u{2028}' || c == '\u{2029}'
            ||| c == '\u{202f}' || c == '\u{205f}' || c == '\u{3000}'
        },
{
}

/// The lines of two texts in a row are the lines of the first and then those of the second, if the
/// first ends with a line feed.
pub proof fn law_lines_of_two_texts(a: Seq<char>, b: Seq<char>)
    requires
        a.len() == 0 || a.last() == '\n',
    ensures
        lines(a + b) == lines(a) + lines(b),
    decreases a.len(),
{
    if a.len() == 0 {
        assert(a + b =~= b);
        assert(lines(a) + lines(b) =~= lines(b));
    } else {
        lemma_find(a, '\n');
        assert(a[a.len() - 1] == '\n');
        let n = find(a, '\n');
        assert(n < a.len());
        lemma_find_is(a + b, '\n', n);
        let rest = a.skip(n + 1);
        assert((a + b).take(n) =~= a.take(n));
        assert((a + b).skip(n + 1) =~= rest + b);
        law_lines_of_two_texts(rest, b);
        assert(lines(a + b) =~= lines(a) + lines(b));
    }
}

/// A text is cut in two at the first of a character: what stands in front of it holds none.
pub proof fn law_texts_are_cut_at_the_first(
    s: &str,
    c: char,
    head: Seq<char>,
    tail: Seq<char>,
    cut: Option<(String, String)>,
)
    requires
        call_ensures(split_once, (s, c), cut),
        !head.contains(c),
    ensures
        s@ == head + seq![c] + tail ==> cut is Some && (cut->0).0@ == head && (cut->0).1@ == tail,
        s@ == head ==> cut is None,
{
    assert forall|i: int| 0 <= i < head.len() implies head[i] != c by {
        assert(head.contains(head[i]));
    }
    let n = head.len() as int;
    if s@ == head + seq![c] + tail {
        lemma_find_is(s@, c, n);
        assert(s@.take(n) =~= head);
        assert(s@.skip(n + 1) =~= tail);
    }
    if s@ == head {
        lemma_find_is(head, c, n);
    }
}

/// A prefix comes off exactly the texts that start with it, and leaves what follows it.
pub proof fn law_prefixes_come_off(
    s: &str,
    prefix: &str,
    tail: Seq<char>,
    rest: Option<String>,
)
    requires
        call_ensures(strip_prefix, (s, prefix), rest),
    ensures
        s@ == prefix@ + tail <==> rest is Some && rest->0@ == tail,
        rest is Some ==> prefix@ + rest->0@ == s@,
{
    let n = prefix@.len() as int;
    if s@ == prefix@ + tail {
        assert(s@.subrange(0, n) =~= prefix@);
        assert(s@.skip(n) =~= tail);
    }
    if rest is Some {
        assert(prefix@ + s@.skip(n) =~= s@);
    }
}

/// What the operations on whole texts return.
pub proof fn law_texts_in_full(
    a: &str,
    b: &str,
    same: bool,
    chars: Vec<char>,
    white: bool,
    c: char,
    without: String,
    all: Vec<String>,
    width: usize,
    wide: String,
)
    requires
        call_ensures(same_text, (a, b), same),
        call_ensures(chars_of, (a,), chars),
        call_ensures(is_white_space, (c,), white),
        call_ensures(trimmed, (a,), without),
        call_ensures(lines_of, (a,), all),
        call_ensures(pad_right, (a, width), wide),
    ensures
        same <==> a@ == b@,
        chars@ == a@,
        white <==> white_space(c),
        without@ == trim(a@),
        all.deep_view() == lines(a@),
        wide@.take(a@.len() as int) == a@,
        wide@.len() >= width,
        wide@.len() == width || wide@ == a@,
        forall|i: int| a@.len() <= i < wide@.len() ==> #[trigger] wide@[i] == ' ',
{
    law_padding_is_spaces(a@, width as nat);
    if a@.len() >= width {
        assert(wide@ =~= a@);
    }
}

/// What the operations that put texts together return.
pub proof fn law_made_texts_in_full(
    parts: Vec<String>,
    sep: &str,
    row: String,
    unit: &str,
    n: usize,
    line: String,
    s: &str,
    from: usize,
    to: usize,
    piece: String,
    i: int,
)
    requires
        call_ensures(joined, (&parts, sep), row),
        call_ensures(repeat_char, (unit, n), line),
        call_ensures(part, (s, from, to), piece),
        unit@.len() == 1,
        from <= to <= s@.len(),
        0 <= i,
    ensures
        row@ == join(parts.deep_view(), sep@),
        line@.len() == n,
        i < n ==> line@[i] == unit@[0],
        piece@.len() == to - from,
        i < to - from ==> piece@[i] == s@[from + i],
{
}

} // verus!
