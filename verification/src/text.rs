//! Character and string primitives, specified over `Seq<char>`.
//!
//! Everything the rest of the crate does with text goes through these
//! functions: splitting command output into lines and fields, trimming,
//! prefix handling and rendering of numbers.

use vstd::prelude::*;

verus! {

broadcast use vstd::string::group_string_axioms;

/// The characters with the Unicode `White_Space` property.
pub open spec fn is_space(c: char) -> bool {
    let n = c as u32;
    ||| 0x0009 <= n <= 0x000d
    ||| n == 0x0020
    ||| n == 0x0085
    ||| n == 0x00a0
    ||| n == 0x1680
    ||| 0x2000 <= n <= 0x200a
    ||| n == 0x2028
    ||| n == 0x2029
    ||| n == 0x202f
    ||| n == 0x205f
    ||| n == 0x3000
}

/// The views of a sequence of strings, in order.
pub open spec fn views(v: Seq<String>) -> Seq<Seq<char>> {
    Seq::new(v.len(), |i: int| v[i]@)
}

/// The view of an optional string.
pub open spec fn opt_view(o: Option<String>) -> Option<Seq<char>> {
    match o {
        Some(s) => Some(s@),
        None => None,
    }
}

/// Index of the first occurrence of `c` in `s`, or `s.len()` when there is none.
pub open spec fn find(s: Seq<char>, c: char) -> int
    decreases s.len(),
{
    if s.len() == 0 || s[0] == c {
        0
    } else {
        1 + find(s.drop_first(), c)
    }
}

/// The pieces of `s` between occurrences of `sep`. There is always at least
/// one piece; `n` separators give `n + 1` pieces, some of which may be empty.
pub open spec fn pieces(s: Seq<char>, sep: char) -> Seq<Seq<char>>
    decreases s.len(),
{
    let k = find(s, sep);
    if 0 <= k < s.len() {
        seq![s.take(k)] + pieces(s.skip(k + 1), sep)
    } else {
        seq![s]
    }
}

/// `s` without one trailing carriage return.
pub open spec fn without_cr(s: Seq<char>) -> Seq<char> {
    if s.len() > 0 && s.last() == '\r' {
        s.drop_last()
    } else {
        s
    }
}

/// The lines of `s`. A line ends at `\n` or `\r\n`, the terminator is not
/// part of the line, and the last line needs no terminator. A carriage
/// return that is not followed by `\n` stays in its line.
pub open spec fn lines_of(s: Seq<char>) -> Seq<Seq<char>>
    decreases s.len(),
{
    let k = find(s, '\n');
    if s.len() == 0 {
        Seq::empty()
    } else if 0 <= k < s.len() {
        seq![without_cr(s.take(k))] + lines_of(s.skip(k + 1))
    } else {
        seq![s]
    }
}

/// Number of leading characters of `s` that are white space.
pub open spec fn leading_space(s: Seq<char>) -> int
    decreases s.len(),
{
    if s.len() > 0 && is_space(s[0]) {
        1 + leading_space(s.drop_first())
    } else {
        0
    }
}

/// Number of trailing characters of `s` that are white space.
pub open spec fn trailing_space(s: Seq<char>) -> int
    decreases s.len(),
{
    if s.len() > 0 && is_space(s.last()) {
        1 + trailing_space(s.drop_last())
    } else {
        0
    }
}

/// Number of leading characters of `s` that are not white space.
pub open spec fn leading_word_len(s: Seq<char>) -> int
    decreases s.len(),
{
    if s.len() > 0 && !is_space(s[0]) {
        1 + leading_word_len(s.drop_first())
    } else {
        0
    }
}

/// `s` without its leading white space.
pub open spec fn trimmed_start(s: Seq<char>) -> Seq<char> {
    s.skip(leading_space(s))
}

/// `s` without its leading and trailing white space.
pub open spec fn trimmed(s: Seq<char>) -> Seq<char> {
    let t = trimmed_start(s);
    t.take(t.len() - trailing_space(t))
}

/// The first maximal run of characters of `s` that are not white space,
/// if `s` has any such character.
pub open spec fn leading_word(s: Seq<char>) -> Option<Seq<char>> {
    let t = trimmed_start(s);
    if t.len() == 0 {
        None
    } else {
        Some(t.take(leading_word_len(t)))
    }
}

/// What follows `prefix` in `s`, when `s` begins with `prefix`.
pub open spec fn without_prefix(s: Seq<char>, prefix: Seq<char>) -> Option<Seq<char>> {
    if prefix.is_prefix_of(s) {
        Some(s.skip(prefix.len() as int))
    } else {
        None
    }
}

/// The decimal digit for `d`, where `d < 10`.
pub open spec fn digit(d: nat) -> char {
    if d == 0 {
        '0'
    } else if d == 1 {
        '1'
    } else if d == 2 {
        '2'
    } else if d == 3 {
        '3'
    } else if d == 4 {
        '4'
    } else if d == 5 {
        '5'
    } else if d == 6 {
        '6'
    } else if d == 7 {
        '7'
    } else if d == 8 {
        '8'
    } else {
        '9'
    }
}

/// `n` written in base ten, without leading zeros.
pub open spec fn decimal_digits(n: nat) -> Seq<char>
    decreases n,
{
    if n < 10 {
        seq![digit(n)]
    } else {
        decimal_digits(n / 10).push(digit(n % 10))
    }
}

/// `find` is the only index that has no `c` before it and either holds `c`
/// or is the end of `s`.
pub proof fn lemma_find(s: Seq<char>, c: char, k: int)
    requires
        0 <= k <= s.len(),
        forall|j: int| 0 <= j < k ==> s[j] != c,
        k < s.len() ==> s[k] == c,
    ensures
        find(s, c) == k,
    decreases s.len(),
{
    if s.len() == 0 || s[0] == c {
    } else {
        let t = s.drop_first();
        assert forall|j: int| 0 <= j < k - 1 implies t[j] != c by {
            assert(t[j] == s[j + 1]);
        }
        lemma_find(t, c, k - 1);
    }
}

/// There is always at least one piece.
pub proof fn lemma_pieces_nonempty(s: Seq<char>, sep: char)
    ensures
        pieces(s, sep).len() >= 1,
    decreases s.len(),
{
    let k = find(s, sep);
    if 0 <= k < s.len() {
        lemma_pieces_nonempty(s.skip(k + 1), sep);
    }
}

/// `leading_space` is the only index that has white space alone before it
/// and either holds another character or is the end of `s`.
pub proof fn lemma_leading_space(s: Seq<char>, k: int)
    requires
        0 <= k <= s.len(),
        forall|j: int| 0 <= j < k ==> is_space(s[j]),
        k < s.len() ==> !is_space(s[k]),
    ensures
        leading_space(s) == k,
    decreases s.len(),
{
    if s.len() > 0 && is_space(s[0]) {
        let t = s.drop_first();
        assert forall|j: int| 0 <= j < k - 1 implies is_space(t[j]) by {
            assert(t[j] == s[j + 1]);
        }
        lemma_leading_space(t, k - 1);
    }
}

/// `leading_word_len` is the only index that has no white space before it
/// and either holds white space or is the end of `s`.
pub proof fn lemma_leading_word_len(s: Seq<char>, k: int)
    requires
        0 <= k <= s.len(),
        forall|j: int| 0 <= j < k ==> !is_space(s[j]),
        k < s.len() ==> is_space(s[k]),
    ensures
        leading_word_len(s) == k,
    decreases s.len(),
{
    if s.len() > 0 && !is_space(s[0]) {
        let t = s.drop_first();
        assert forall|j: int| 0 <= j < k - 1 implies !is_space(t[j]) by {
            assert(t[j] == s[j + 1]);
        }
        lemma_leading_word_len(t, k - 1);
    }
}

/// `trailing_space` counts exactly the white space after the last other
/// character.
pub proof fn lemma_trailing_space(s: Seq<char>, k: int)
    requires
        0 <= k <= s.len(),
        forall|j: int| s.len() - k <= j < s.len() ==> is_space(s[j]),
        k < s.len() ==> !is_space(s[s.len() - k - 1]),
    ensures
        trailing_space(s) == k,
    decreases s.len(),
{
    if s.len() > 0 && is_space(s.last()) {
        let t = s.drop_last();
        assert forall|j: int| t.len() - (k - 1) <= j < t.len() implies is_space(t[j]) by {
            assert(t[j] == s[j]);
        }
        lemma_trailing_space(t, k - 1);
    }
}

/// Two lines that are each ended by a line feed are read back as they
/// are.
pub proof fn lemma_lines_of_two(a: Seq<char>, b: Seq<char>)
    requires
        !a.contains('\n'),
        !b.contains('\n'),
        a.len() > 0 ==> a.last() != '\r',
        b.len() > 0 ==> b.last() != '\r',
    ensures
        lines_of(a + seq!['\n'] + b + seq!['\n']) == seq![a, b],
{
    let s = a + seq!['\n'] + b + seq!['\n'];
    let t = b + seq!['\n'];
    assert forall|j: int| 0 <= j < a.len() implies s[j] != '\n' by {
        assert(s[j] == a[j]);
        assert(a.contains(a[j]));
    }
    lemma_find(s, '\n', a.len() as int);
    assert(s.take(a.len() as int) =~= a);
    assert(s.skip(a.len() as int + 1) =~= t);
    assert forall|j: int| 0 <= j < b.len() implies t[j] != '\n' by {
        assert(t[j] == b[j]);
        assert(b.contains(b[j]));
    }
    lemma_find(t, '\n', b.len() as int);
    assert(t.take(b.len() as int) =~= b);
    assert(t.skip(b.len() as int + 1) =~= Seq::<char>::empty());
    assert(lines_of(Seq::<char>::empty()) =~= Seq::<Seq<char>>::empty());
    assert(lines_of(t) =~= seq![b] + lines_of(t.skip(b.len() as int + 1)));
    assert(lines_of(t) =~= seq![b]);
    assert(lines_of(s) =~= seq![a, b]);
}

/// A line that neither begins nor ends with white space is what is left
/// of it and its line feed after trimming.
pub proof fn lemma_trimmed_line(s: Seq<char>)
    requires
        s.len() > 0,
        !is_space(s[0]),
        !is_space(s.last()),
    ensures
        trimmed(s + seq!['\n']) == s,
{
    let t = s + seq!['\n'];
    lemma_leading_space(t, 0);
    assert(trimmed_start(t) =~= t);
    lemma_trailing_space(t, 1);
    assert(t.take(t.len() - 1) =~= s);
}

/// Whether `c` has the Unicode `White_Space` property.
pub fn is_whitespace(c: char) -> (b: bool)
    ensures
        b == is_space(c),
{
    let n: u32 = c as u32;
    (0x0009 <= n && n <= 0x000d)
        || n == 0x0020
        || n == 0x0085
        || n == 0x00a0
        || n == 0x1680
        || (0x2000 <= n && n <= 0x200a)
        || n == 0x2028
        || n == 0x2029
        || n == 0x202f
        || n == 0x205f
        || n == 0x3000
}

/// The characters of `s`, in order.
pub fn chars_of(s: &str) -> (v: Vec<char>)
    ensures
        v@ == s@,
{
    let mut v: Vec<char> = Vec::new();
    for c in it: s.chars()
        invariant
            it.seq() == s@,
            v@ == s@.take(it.index() as int),
    {
        v.push(c);
    }
    v
}

/// The characters of `s` from index `from` up to, not including, index `to`.
/// `ascii` tells whether `s` is known to hold ASCII characters only; the
/// characters are then found without reading `s` from its start.
fn slice(s: &str, ascii: bool, from: usize, to: usize) -> (r: String)
    requires
        from <= to <= s@.len(),
        ascii ==> s.is_ascii(),
    ensures
        r@ == s@.subrange(from as int, to as int),
{
    if ascii {
        s.substring_ascii(from, to).to_owned()
    } else {
        s.substring_char(from, to).to_owned()
    }
}

/// `a` followed by `b`.
pub fn append(a: &str, b: &str) -> (r: String)
    ensures
        r@ == a@ + b@,
{
    let mut r = a.to_owned();
    r.append(b);
    r
}

/// Whether `a` and `b` hold the same characters.
pub fn same(a: &str, b: &str) -> (r: bool)
    ensures
        r == (a@ == b@),
{
    let x = chars_of(a);
    let y = chars_of(b);
    if x.len() != y.len() {
        return false;
    }
    let mut i: usize = 0;
    while i < x.len()
        invariant
            x@ == a@,
            y@ == b@,
            x.len() == y.len(),
            i <= x.len(),
            forall|j: int| 0 <= j < i ==> x@[j] == y@[j],
        decreases x.len() - i,
    {
        if x[i] != y[i] {
            return false;
        }
        i += 1;
    }
    assert(a@ =~= b@);
    true
}

/// Splits `s` at every occurrence of `sep`.
pub fn split(s: &str, sep: char) -> (r: Vec<String>)
    ensures
        views(r@) == pieces(s@, sep),
{
    let cs = chars_of(s);
    let ascii = s.is_ascii();
    let n: usize = cs.len();
    let mut out: Vec<String> = Vec::new();
    let mut start: usize = 0;
    let mut i: usize = 0;
    assert(s@.skip(0) =~= s@);
    assert(views(out@) + pieces(s@, sep) =~= pieces(s@, sep));
    while i < n
        invariant
            cs@ == s@,
            ascii ==> s.is_ascii(),
            n == cs.len(),
            start <= i <= n,
            forall|j: int| start <= j < i ==> cs@[j] != sep,
            pieces(s@, sep) == views(out@) + pieces(s@.skip(start as int), sep),
        decreases n - i,
    {
        if cs[i] == sep {
            let piece = slice(s, ascii, start, i);
            proof {
                let rest = s@.skip(start as int);
                lemma_find(rest, sep, i - start);
                assert(rest.take(i - start) =~= s@.subrange(start as int, i as int));
                assert(rest.skip(i - start + 1) =~= s@.skip(i + 1));
                assert(views(out@.push(piece)) =~= views(out@).push(piece@));
                assert(views(out@).push(piece@) + pieces(s@.skip(i + 1), sep) =~= views(out@) + (
                seq![piece@] + pieces(s@.skip(i + 1), sep)));
            }
            out.push(piece);
            start = i + 1;
        }
        i += 1;
    }
    let piece = slice(s, ascii, start, n);
    proof {
        let rest = s@.skip(start as int);
        lemma_find(rest, sep, n - start);
        assert(rest =~= s@.subrange(start as int, n as int));
        assert(views(out@.push(piece)) =~= views(out@).push(piece@));
        assert(views(out@).push(piece@) =~= views(out@) + seq![piece@]);
    }
    out.push(piece);
    out
}

/// Splits `s` into its lines.
pub fn lines(s: &str) -> (r: Vec<String>)
    ensures
        views(r@) == lines_of(s@),
{
    let cs = chars_of(s);
    let ascii = s.is_ascii();
    let n: usize = cs.len();
    let mut out: Vec<String> = Vec::new();
    let mut start: usize = 0;
    let mut i: usize = 0;
    assert(s@.skip(0) =~= s@);
    assert(views(out@) + lines_of(s@) =~= lines_of(s@));
    while i < n
        invariant
            cs@ == s@,
            ascii ==> s.is_ascii(),
            n == cs.len(),
            start <= i <= n,
            forall|j: int| start <= j < i ==> cs@[j] != '\n',
            lines_of(s@) == views(out@) + lines_of(s@.skip(start as int)),
        decreases n - i,
    {
        if cs[i] == '\n' {
            let end: usize = if start < i && cs[i - 1] == '\r' {
                i - 1
            } else {
                i
            };
            let line = slice(s, ascii, start, end);
            proof {
                let rest = s@.skip(start as int);
                lemma_find(rest, '\n', i - start);
                assert(rest.take(i - start) =~= s@.subrange(start as int, i as int));
                assert(without_cr(s@.subrange(start as int, i as int)) =~= line@);
                assert(rest.skip(i - start + 1) =~= s@.skip(i + 1));
                assert(views(out@.push(line)) =~= views(out@).push(line@));
                assert(views(out@).push(line@) + lines_of(s@.skip(i + 1)) =~= views(out@) + (
                seq![line@] + lines_of(s@.skip(i + 1))));
            }
            out.push(line);
            start = i + 1;
        }
        i += 1;
    }
    if start < n {
        let line = slice(s, ascii, start, n);
        proof {
            let rest = s@.skip(start as int);
            lemma_find(rest, '\n', n - start);
            assert(rest =~= s@.subrange(start as int, n as int));
            assert(views(out@.push(line)) =~= views(out@).push(line@));
            assert(views(out@).push(line@) =~= views(out@) + seq![line@]);
        }
        out.push(line);
    } else {
        assert(views(out@) + Seq::<Seq<char>>::empty() =~= views(out@));
    }
    out
}

/// `s` without its leading and trailing white space.
pub fn trim(s: &str) -> (r: String)
    ensures
        r@ == trimmed(s@),
{
    let cs = chars_of(s);
    let n: usize = cs.len();
    let mut from: usize = 0;
    while from < n && is_whitespace(cs[from])
        invariant
            cs@ == s@,
            n == cs.len(),
            from <= n,
            forall|j: int| 0 <= j < from ==> is_space(cs@[j]),
        decreases n - from,
    {
        from += 1;
    }
    let mut to: usize = n;
    while to > from && is_whitespace(cs[to - 1])
        invariant
            cs@ == s@,
            n == cs.len(),
            from <= to <= n,
            forall|j: int| to <= j < n ==> is_space(cs@[j]),
        decreases to,
    {
        to -= 1;
    }
    proof {
        lemma_leading_space(s@, from as int);
        let t = trimmed_start(s@);
        lemma_trailing_space(t, n - to);
        assert(t.take(t.len() - (n - to)) =~= s@.subrange(from as int, to as int));
    }
    slice(s, s.is_ascii(), from, to)
}

/// The first run of characters of `s` that are not white space.
pub fn first_word(s: &str) -> (r: Option<String>)
    ensures
        opt_view(r) == leading_word(s@),
{
    let cs = chars_of(s);
    let n: usize = cs.len();
    let mut from: usize = 0;
    while from < n && is_whitespace(cs[from])
        invariant
            cs@ == s@,
            n == cs.len(),
            from <= n,
            forall|j: int| 0 <= j < from ==> is_space(cs@[j]),
        decreases n - from,
    {
        from += 1;
    }
    proof {
        lemma_leading_space(s@, from as int);
    }
    if from == n {
        return None;
    }
    let mut to: usize = from;
    while to < n && !is_whitespace(cs[to])
        invariant
            cs@ == s@,
            n == cs.len(),
            from <= to <= n,
            forall|j: int| from <= j < to ==> !is_space(cs@[j]),
        decreases n - to,
    {
        to += 1;
    }
    proof {
        let t = trimmed_start(s@);
        lemma_leading_word_len(t, to - from);
        assert(t.take(to - from) =~= s@.subrange(from as int, to as int));
    }
    Some(slice(s, s.is_ascii(), from, to))
}

/// What follows `prefix` in `s`, or `None` when `s` does not begin with it.
pub fn strip_prefix(s: &str, prefix: &str) -> (r: Option<String>)
    ensures
        opt_view(r) == without_prefix(s@, prefix@),
{
    let cs = chars_of(s);
    let ps = chars_of(prefix);
    if ps.len() > cs.len() {
        return None;
    }
    let mut i: usize = 0;
    while i < ps.len()
        invariant
            cs@ == s@,
            ps@ == prefix@,
            i <= ps.len() <= cs.len(),
            forall|j: int| 0 <= j < i ==> cs@[j] == ps@[j],
        decreases ps.len() - i,
    {
        if cs[i] != ps[i] {
            assert(s@.subrange(0, prefix@.len() as int)[i as int] != prefix@[i as int]);
            return None;
        }
        i += 1;
    }
    assert(s@.subrange(0, prefix@.len() as int) =~= prefix@);
    Some(slice(s, s.is_ascii(), ps.len(), cs.len()))
}

/// The first `n` characters of `s`, or all of `s` when it has fewer.
pub fn prefix(s: &str, n: usize) -> (r: String)
    ensures
        r@ == s@.take(if n <= s@.len() { n as int } else { s@.len() as int }),
{
    let len: usize = s.unicode_len();
    let k: usize = if n <= len {
        n
    } else {
        len
    };
    slice(s, s.is_ascii(), 0, k)
}

/// The one-character string for the decimal digit `d`.
fn digit_str(d: usize) -> (r: &'static str)
    requires
        d < 10,
    ensures
        r@ == seq![digit(d as nat)],
{
    proof {
        reveal_strlit("0");
        reveal_strlit("1");
        reveal_strlit("2");
        reveal_strlit("3");
        reveal_strlit("4");
        reveal_strlit("5");
        reveal_strlit("6");
        reveal_strlit("7");
        reveal_strlit("8");
        reveal_strlit("9");
    }
    let r = if d == 0 {
        "0"
    } else if d == 1 {
        "1"
    } else if d == 2 {
        "2"
    } else if d == 3 {
        "3"
    } else if d == 4 {
        "4"
    } else if d == 5 {
        "5"
    } else if d == 6 {
        "6"
    } else if d == 7 {
        "7"
    } else if d == 8 {
        "8"
    } else {
        "9"
    };
    assert(r@ =~= seq![digit(d as nat)]);
    r
}

/// `n` written in base ten.
pub fn decimal(n: usize) -> (r: String)
    ensures
        r@ == decimal_digits(n as nat),
    decreases n,
{
    if n < 10 {
        digit_str(n).to_owned()
    } else {
        let head = decimal(n / 10);
        let r = append(head.as_str(), digit_str(n % 10));
        assert(r@ =~= decimal_digits(n as nat));
        r
    }
}

} // verus!
