//! Text as sequences of characters: the small vocabulary in which the rest of
//! the library states what a command, a script or a configuration file says.
use vstd::prelude::*;

verus! {

/// `String::push` of the standard library: the character is appended.
pub assume_specification[ String::push ](s: &mut String, c: char)
    ensures
        final(s)@ == old(s)@.push(c),
;

/// `String::push_str` of the standard library: the text is appended.
pub assume_specification[ String::push_str ](s: &mut String, t: &str)
    ensures
        final(s)@ == old(s)@ + t@,
;

/// A piece of text.
pub type Text = Seq<char>;

// ---------------------------------------------------------------- characters
/// The code points with the Unicode property `White_Space`.
pub open spec fn white(c: char) -> bool {
    let u = c as u32;
    ||| 0x09 <= u <= 0x0d
    ||| u == 0x20
    ||| u == 0x85
    ||| u == 0xa0
    ||| u == 0x1680
    ||| 0x2000 <= u <= 0x200a
    ||| u == 0x2028
    ||| u == 0x2029
    ||| u == 0x202f
    ||| u == 0x205f
    ||| u == 0x3000
}

pub fn is_white(c: char) -> (r: bool)
    ensures
        r == white(c),
{
    let u: u32 = c as u32;
    (0x09 <= u && u <= 0x0d) || u == 0x20 || u == 0x85 || u == 0xa0 || u == 0x1680 || (0x2000 <= u
        && u <= 0x200a) || u == 0x2028 || u == 0x2029 || u == 0x202f || u == 0x205f || u == 0x3000
}

pub open spec fn digit(c: char) -> bool {
    '0' <= c && c <= '9'
}

/// The ASCII lower case of a character; other characters stay.
pub open spec fn lower_char(c: char) -> char {
    if 'A' <= c && c <= 'Z' {
        ((c as u32 + 32) as u32) as char
    } else {
        c
    }
}

/// The ASCII upper case of a character; other characters stay.
pub open spec fn upper_char(c: char) -> char {
    if 'a' <= c && c <= 'z' {
        ((c as u32 - 32) as u32) as char
    } else {
        c
    }
}

pub fn to_lower_char(c: char) -> (r: char)
    ensures
        r == lower_char(c),
{
    if 'A' <= c && c <= 'Z' {
        let u: u8 = c as u8 + 32u8;
        u as char
    } else {
        c
    }
}

pub fn to_upper_char(c: char) -> (r: char)
    ensures
        r == upper_char(c),
{
    if 'a' <= c && c <= 'z' {
        let u: u8 = c as u8 - 32u8;
        u as char
    } else {
        c
    }
}

// ---------------------------------------------------------- strings and vectors
/// The characters of a string.
pub fn chars_of(s: &str) -> (r: Vec<char>)
    ensures
        r@ == s@,
{
    let mut v: Vec<char> = Vec::new();
    for c in it: s.chars()
        invariant
            v@ == it.seq().take(it.index() as int),
            it.seq() == s@,
    {
        v.push(c);
    }
    v
}

/// The string made of the characters from `from` up to `to`.
pub fn slice_text(v: &Vec<char>, from: usize, to: usize) -> (r: String)
    requires
        from <= to <= v@.len(),
    ensures
        r@ == v@.subrange(from as int, to as int),
{
    let mut s = String::new();
    let mut i: usize = from;
    while i < to
        invariant
            from <= i <= to <= v@.len(),
            s@ == v@.subrange(from as int, i as int),
        decreases to - i,
    {
        s.push(v[i]);
        i += 1;
    }
    s
}

/// Whether two strings hold the same characters.
pub fn same(a: &str, b: &str) -> (r: bool)
    ensures
        r == (a@ == b@),
{
    let x = chars_of(a);
    let y = chars_of(b);
    if x.len() != y.len() {
        return false;
    }
    let mut i: usize = 0;
    while i < x.len()
        invariant
            i <= x@.len(),
            x@.len() == y@.len(),
            x@ == a@,
            y@ == b@,
            forall|j: int| 0 <= j < i ==> x@[j] == y@[j],
        decreases x.len() - i,
    {
        if x[i] != y[i] {
            return false;
        }
        i += 1;
    }
    assert(x@ =~= y@);
    true
}

/// One text after another.
pub fn concat(a: &str, b: &str) -> (r: String)
    ensures
        r@ == a@ + b@,
{
    let mut s = a.to_owned();
    s.push_str(b);
    s
}

/// Three texts one after another.
pub fn concat3(a: &str, b: &str, c: &str) -> (r: String)
    ensures
        r@ == a@ + b@ + c@,
{
    let mut s = a.to_owned();
    s.push_str(b);
    s.push_str(c);
    s
}

/// Appends a copy of a text to a list of texts.
pub fn push_text(v: &mut Vec<String>, s: &str)
    ensures
        final(v).deep_view() == old(v).deep_view().push(s@),
        final(v)@.len() == old(v)@.len() + 1,
{
    v.push(s.to_owned());
    assert(v.deep_view() =~= old(v).deep_view().push(s@));
}

/// A copy of a list.
pub fn copy_all(v: &Vec<String>) -> (r: Vec<String>)
    ensures
        r.deep_view() == v.deep_view(),
{
    let mut r: Vec<String> = Vec::new();
    for i in 0..v.len()
        invariant
            r.deep_view() == v.deep_view().take(i as int),
    {
        let s = v[i].clone();
        let ghost before = r.deep_view();
        r.push(s);
        assert(r.deep_view() =~= before.push(v@[i as int]@));
        assert(r.deep_view() =~= v.deep_view().take(i + 1));
    }
    assert(v.deep_view().take(v@.len() as int) =~= v.deep_view());
    r
}

// ------------------------------------------------------------------- searching
/// `p` stands at position `i` of `s`.
pub open spec fn at(s: Text, i: int, p: Text) -> bool {
    0 <= i && i + p.len() <= s.len() && s.subrange(i, i + p.len()) == p
}

pub open spec fn begins(s: Text, p: Text) -> bool {
    at(s, 0, p)
}

pub open spec fn ends(s: Text, p: Text) -> bool {
    at(s, s.len() - p.len(), p)
}

/// `p` stands somewhere in `s`.
pub open spec fn holds(s: Text, p: Text) -> bool {
    exists|i: int| at(s, i, p)
}

/// Whether `p` stands at position `i`.
pub fn is_at(s: &Vec<char>, i: usize, p: &Vec<char>) -> (r: bool)
    requires
        i <= s@.len(),
    ensures
        r == at(s@, i as int, p@),
{
    let n: usize = s.len();
    if p.len() > n - i {
        return false;
    }
    let mut j: usize = 0;
    while j < p.len()
        invariant
            j <= p@.len(),
            i + p@.len() <= s@.len(),
            n == s@.len(),
            forall|k: int| 0 <= k < j ==> s@[i + k] == p@[k],
        decreases p.len() - j,
    {
        if s[i + j] != p[j] {
            assert(s@.subrange(i as int, i + p@.len())[j as int] != p@[j as int]);
            return false;
        }
        j += 1;
    }
    assert(s@.subrange(i as int, i + p@.len()) =~= p@);
    true
}

pub fn starts_with(s: &str, p: &str) -> (r: bool)
    ensures
        r == begins(s@, p@),
{
    is_at(&chars_of(s), 0, &chars_of(p))
}

pub fn ends_with(s: &str, p: &str) -> (r: bool)
    ensures
        r == ends(s@, p@),
{
    let v = chars_of(s);
    let w = chars_of(p);
    if w.len() > v.len() {
        return false;
    }
    is_at(&v, v.len() - w.len(), &w)
}

pub fn contains(s: &str, p: &str) -> (r: bool)
    ensures
        r == holds(s@, p@),
{
    let v = chars_of(s);
    let w = chars_of(p);
    if w.len() > v.len() {
        return false;
    }
    let last: usize = v.len() - w.len();
    let mut i: usize = 0;
    while i <= last
        invariant
            v@ == s@,
            w@ == p@,
            last == v@.len() - w@.len(),
            i <= last + 1,
            v@.len() <= usize::MAX,
            forall|k: int| 0 <= k < i ==> !at(s@, k, p@),
        decreases last + 1 - i,
    {
        if is_at(&v, i, &w) {
            return true;
        }
        if i == last {
            return false;
        }
        i += 1;
    }
    false
}

/// Whether the character occurs.
pub fn has_char(s: &str, c: char) -> (r: bool)
    ensures
        r == s@.contains(c),
{
    let v = chars_of(s);
    let i: usize = find_from(&v, 0, c);
    i < v.len()
}

/// The length in bytes.
pub fn byte_count(s: &str) -> (r: usize)
    ensures
        r == vstd::utf8::encode_utf8(s@).len(),
{
    s.as_bytes().len()
}

/// The text without the prefix `p`, where it has it.
pub open spec fn without_prefix(s: Text, p: Text) -> Option<Text> {
    if begins(s, p) {
        Some(s.skip(p.len() as int))
    } else {
        None
    }
}

pub fn strip_prefix(s: &str, p: &str) -> (r: Option<String>)
    ensures
        r is Some <==> begins(s@, p@),
        r matches Some(t) ==> t@ == s@.skip(p@.len() as int),
{
    let v = chars_of(s);
    let w = chars_of(p);
    if is_at(&v, 0, &w) {
        let t = slice_text(&v, w.len(), v.len());
        assert(t@ =~= s@.skip(p@.len() as int));
        Some(t)
    } else {
        None
    }
}

/// The position of the first `c` in `s`, or the length of `s`.
pub open spec fn find(s: Text, c: char) -> int
    decreases s.len(),
{
    if s.len() == 0 || s[0] == c {
        0
    } else {
        1 + find(s.drop_first(), c)
    }
}

pub proof fn lemma_find(s: Text, c: char)
    ensures
        0 <= find(s, c) <= s.len(),
        find(s, c) < s.len() ==> s[find(s, c)] == c,
        forall|j: int| 0 <= j < find(s, c) ==> s[j] != c,
    decreases s.len(),
{
    if s.len() == 0 || s[0] == c {
    } else {
        let t = s.drop_first();
        lemma_find(t, c);
        assert forall|j: int| 0 <= j < find(s, c) implies s[j] != c by {
            if j > 0 {
                assert(t[j - 1] == s[j]);
            }
        }
    }
}

/// A position with the properties of `find` is the one that `find` gives.
pub proof fn lemma_find_unique(s: Text, c: char, k: int)
    requires
        0 <= k <= s.len(),
        k < s.len() ==> s[k] == c,
        forall|j: int| 0 <= j < k ==> s[j] != c,
    ensures
        find(s, c) == k,
{
    lemma_find(s, c);
}

/// The position of the first `c` at or after `from`, or the length.
pub fn find_from(v: &Vec<char>, from: usize, c: char) -> (r: usize)
    requires
        from <= v@.len(),
    ensures
        from <= r <= v@.len(),
        r == from + find(v@.skip(from as int), c),
        r < v@.len() ==> v@[r as int] == c,
        forall|j: int| from <= j < r ==> v@[j] != c,
{
    let mut i: usize = from;
    while i < v.len() && v[i] != c
        invariant
            from <= i <= v@.len(),
            forall|j: int| from <= j < i ==> v@[j] != c,
        decreases v.len() - i,
    {
        i += 1;
    }
    proof {
        let t = v@.skip(from as int);
        assert forall|j: int| 0 <= j < i - from implies t[j] != c by {
            assert(t[j] == v@[from + j]);
        }
        lemma_find_unique(t, c, i - from);
    }
    i
}

// --------------------------------------------------------------------- trimming
pub open spec fn trimmed_start(s: Text) -> Text
    decreases s.len(),
{
    if s.len() > 0 && white(s[0]) {
        trimmed_start(s.drop_first())
    } else {
        s
    }
}

pub open spec fn trimmed_end(s: Text) -> Text
    decreases s.len(),
{
    if s.len() > 0 && white(s.last()) {
        trimmed_end(s.drop_last())
    } else {
        s
    }
}

/// The text without white space at its two ends.
pub open spec fn trimmed(s: Text) -> Text {
    trimmed_end(trimmed_start(s))
}

fn skip_white(v: &Vec<char>, from: usize) -> (r: usize)
    requires
        from <= v@.len(),
    ensures
        from <= r <= v@.len(),
        v@.skip(r as int) == trimmed_start(v@.skip(from as int)),
        r < v@.len() ==> !white(v@[r as int]),
        forall|j: int| from <= j < r ==> white(v@[j]),
{
    let mut i: usize = from;
    while i < v.len() && is_white(v[i])
        invariant
            from <= i <= v@.len(),
            forall|j: int| from <= j < i ==> white(v@[j]),
            trimmed_start(v@.skip(from as int)) == trimmed_start(v@.skip(i as int)),
        decreases v.len() - i,
    {
        assert(v@.skip(i as int).drop_first() =~= v@.skip(i + 1));
        i += 1;
    }
    i
}

pub fn trim_start(s: &str) -> (r: String)
    ensures
        r@ == trimmed_start(s@),
{
    let v = chars_of(s);
    let a: usize = skip_white(&v, 0);
    assert(v@.skip(0) =~= v@);
    let t = slice_text(&v, a, v.len());
    assert(t@ =~= v@.skip(a as int));
    t
}

pub fn trim_end(s: &str) -> (r: String)
    ensures
        r@ == trimmed_end(s@),
{
    let v = chars_of(s);
    let mut b: usize = v.len();
    assert(v@.take(b as int) =~= v@);
    while b > 0 && is_white(v[b - 1])
        invariant
            b <= v@.len(),
            trimmed_end(v@) == trimmed_end(v@.take(b as int)),
        decreases b,
    {
        assert(v@.take(b as int).drop_last() =~= v@.take(b - 1));
        b -= 1;
    }
    let t = slice_text(&v, 0, b);
    assert(t@ =~= v@.take(b as int));
    t
}

pub fn trim(s: &str) -> (r: String)
    ensures
        r@ == trimmed(s@),
{
    let t = trim_start(s);
    trim_end(t.as_str())
}

// -------------------------------------------------------------------- splitting
/// The pieces of `s` between the separators `c`; always one piece at least.
pub open spec fn pieces(s: Text, c: char) -> Seq<Text>
    decreases s.len(),
{
    let k = find(s, c);
    if k < s.len() {
        proof {
            lemma_find(s, c);
        }
        seq![s.take(k)] + pieces(s.skip(k + 1), c)
    } else {
        seq![s]
    }
}

/// `s.split(c)`, collected.
pub fn split(s: &str, c: char) -> (r: Vec<String>)
    ensures
        r.deep_view() == pieces(s@, c),
        r@.len() >= 1,
{
    let v = chars_of(s);
    let n: usize = v.len();
    let mut out: Vec<String> = Vec::new();
    let mut i: usize = 0;
    assert(v@.skip(0) =~= v@);
    assert(out.deep_view() + pieces(v@, c) =~= pieces(v@, c));
    loop
        invariant_except_break
            n == v@.len(),
            i <= n,
            out.deep_view() + pieces(v@.skip(i as int), c) == pieces(v@, c),
        ensures
            out.deep_view() == pieces(v@, c),
            out@.len() >= 1,
        decreases n - i,
    {
        let k: usize = find_from(&v, i, c);
        let piece = slice_text(&v, i, k);
        let ghost rest = v@.skip(i as int);
        proof {
            lemma_find(rest, c);
            assert(piece@ =~= rest.take(k - i));
        }
        let ghost before = out.deep_view();
        push_text(&mut out, piece.as_str());
        if k == n {
            proof {
                assert(rest.take(k - i) =~= rest);
                assert(out.deep_view() =~= before + pieces(rest, c));
            }
            break;
        }
        proof {
            assert(rest.skip(k - i + 1) =~= v@.skip(k + 1));
            assert(out.deep_view() + pieces(v@.skip(k + 1), c) =~= before + pieces(rest, c));
        }
        i = k + 1;
    }
    out
}

/// The text without a final carriage return.
pub open spec fn without_cr(s: Text) -> Text {
    if s.len() > 0 && s.last() == '\r' {
        s.drop_last()
    } else {
        s
    }
}

/// The lines of a text: each ends at a line feed, which is no part of it, nor
/// is a carriage return before that line feed. What follows the last line
/// feed is a line where it is not empty.
pub open spec fn lines_of(s: Text) -> Seq<Text>
    decreases s.len(),
{
    if s.len() == 0 {
        seq![]
    } else {
        let k = find(s, '\n');
        if k < s.len() {
            proof {
                lemma_find(s, '\n');
            }
            seq![without_cr(s.take(k))] + lines_of(s.skip(k + 1))
        } else {
            seq![s]
        }
    }
}

/// `s.lines()`, collected.
pub fn lines(s: &str) -> (r: Vec<String>)
    ensures
        r.deep_view() == lines_of(s@),
{
    let v = chars_of(s);
    let n: usize = v.len();
    let mut out: Vec<String> = Vec::new();
    let mut i: usize = 0;
    assert(v@.skip(0) =~= v@);
    assert(out.deep_view() + lines_of(v@) =~= lines_of(v@));
    while i < n
        invariant
            n == v@.len(),
            i <= n,
            out.deep_view() + lines_of(v@.skip(i as int)) == lines_of(v@),
        decreases n - i,
    {
        let k: usize = find_from(&v, i, '\n');
        let ghost rest = v@.skip(i as int);
        let ghost before = out.deep_view();
        proof {
            lemma_find(rest, '\n');
        }
        if k == n {
            let piece = slice_text(&v, i, n);
            push_text(&mut out, piece.as_str());
            proof {
                assert(piece@ =~= rest);
                assert(v@.skip(n as int) =~= Seq::<char>::empty());
                assert(out.deep_view() + lines_of(v@.skip(n as int)) =~= before + lines_of(rest));
            }
            i = n;
        } else {
            let stop: usize = if k > i && v[k - 1] == '\r' {
                k - 1
            } else {
                k
            };
            let piece = slice_text(&v, i, stop);
            push_text(&mut out, piece.as_str());
            proof {
                assert(piece@ =~= without_cr(rest.take(k - i)));
                assert(rest.skip(k - i + 1) =~= v@.skip(k + 1));
                assert(out.deep_view() + lines_of(v@.skip(k + 1)) =~= before + lines_of(rest));
            }
            i = k + 1;
        }
    }
    proof {
        assert(v@.skip(n as int) =~= Seq::<char>::empty());
        assert(out.deep_view() + lines_of(v@.skip(n as int)) =~= out.deep_view());
    }
    out
}

/// No line ends in a carriage return. Such a line loses it when it is written before a
/// line feed and read again.
pub open spec fn without_returns(lines: Seq<Text>) -> bool {
    forall|i: int|
        0 <= i < lines.len() ==> !((#[trigger] lines[i]).len() > 0 && lines[i].last() == '\r')
}

/// A line holds no line feed.
pub proof fn lemma_lines_unbroken(s: Text)
    ensures
        forall|i: int|
            0 <= i < lines_of(s).len() ==> !(#[trigger] lines_of(s)[i]).contains('\n'),
    decreases s.len(),
{
    if s.len() > 0 {
        let k = find(s, '\n');
        lemma_find(s, '\n');
        let all = lines_of(s);
        if k < s.len() {
            let others = lines_of(s.skip(k + 1));
            lemma_lines_unbroken(s.skip(k + 1));
            assert forall|i: int| 0 <= i < all.len() implies !(#[trigger] all[i]).contains(
                '\n',
            ) by {
                if i > 0 {
                    assert(all[i] == others[i - 1]);
                } else {
                    let first = without_cr(s.take(k));
                    assert(all[0] == first);
                    assert forall|j: int| 0 <= j < first.len() implies first[j] != '\n' by {
                        assert(first[j] == s[j]);
                    }
                }
            }
        } else {
            assert forall|j: int| 0 <= j < s.len() implies s[j] != '\n' by {}
            assert(all =~= seq![s]);
        }
    }
}

/// A line stands in the text.
pub proof fn lemma_line_holds(s: Text, i: int)
    requires
        0 <= i < lines_of(s).len(),
    ensures
        holds(s, lines_of(s)[i]),
    decreases s.len(),
{
    let k = find(s, '\n');
    lemma_find(s, '\n');
    if k < s.len() {
        let rest = s.skip(k + 1);
        if i == 0 {
            let first = without_cr(s.take(k));
            assert(s.subrange(0, first.len() as int) =~= first);
            assert(at(s, 0, first));
        } else {
            lemma_line_holds(rest, i - 1);
            assert(s.subrange(k + 1, k + 1 + rest.len()) =~= rest);
            assert(at(s, k + 1, rest));
            lemma_part_holds(s, rest, lines_of(rest)[i - 1]);
            assert(lines_of(s)[i] == lines_of(rest)[i - 1]);
        }
    } else {
        lemma_whole_holds(s);
    }
}

/// A line that is written at the end of a text becomes its last one.
pub proof fn lemma_line_added(s: Text, line: Text)
    requires
        s.len() == 0 || s.last() == '\n',
        !line.contains('\n'),
    ensures
        lines_of(s + line + seq!['\n']) == lines_of(s).push(without_cr(line)),
    decreases s.len(),
{
    let whole = s + line + seq!['\n'];
    if s.len() == 0 {
        assert forall|j: int| 0 <= j < line.len() implies whole[j] != '\n' by {
            assert(line[j] == whole[j]);
        }
        lemma_find_unique(whole, '\n', line.len() as int);
        assert(whole.take(line.len() as int) =~= line);
        let rest = whole.skip(line.len() as int + 1);
        assert(rest.len() == 0);
        assert(lines_of(rest).len() == 0);
        assert(lines_of(s).len() == 0);
        assert(whole.len() > 0);
        assert(lines_of(whole) == seq![without_cr(whole.take(line.len() as int))] + lines_of(rest));
        assert(lines_of(whole) =~= lines_of(s).push(without_cr(line)));
    } else {
        let k = find(s, '\n');
        lemma_find(s, '\n');
        if k == s.len() {
            assert(s[s.len() - 1] == '\n');
        }
        assert forall|j: int| 0 <= j < k implies whole[j] != '\n' by {
            assert(whole[j] == s[j]);
        }
        lemma_find_unique(whole, '\n', k);
        let rest = s.skip(k + 1);
        assert(whole.take(k) =~= s.take(k));
        assert(whole.skip(k + 1) =~= rest + line + seq!['\n']);
        lemma_line_added(rest, line);
        assert(lines_of(whole) =~= lines_of(s).push(without_cr(line)));
    }
}

/// Lines that are written one below the other are read again as they were.
pub proof fn lemma_lines_of_joined(lines: Seq<Text>)
    requires
        lines.len() > 0,
        forall|i: int| 0 <= i < lines.len() ==> !(#[trigger] lines[i]).contains('\n'),
        without_returns(lines),
    ensures
        lines_of(joined(lines, "\n"@) + "\n"@) == lines,
    decreases lines.len(),
{
    reveal_strlit("\n");
    assert("\n"@ =~= seq!['\n']);
    let last = lines.last();
    assert(last == lines[lines.len() - 1]);
    let whole = joined(lines, "\n"@) + "\n"@;
    if lines.len() == 1 {
        let none = Seq::<char>::empty();
        lemma_line_added(none, last);
        assert(none + last + seq!['\n'] =~= whole);
        assert(lines_of(none) =~= seq![]);
        assert(lines_of(none).push(last) =~= lines);
    } else {
        let init = lines.drop_last();
        assert forall|i: int| 0 <= i < init.len() implies !(#[trigger] init[i]).contains('\n')
            && !(init[i].len() > 0 && init[i].last() == '\r') by {
            assert(init[i] == lines[i]);
        }
        lemma_lines_of_joined(init);
        let before = joined(init, "\n"@) + "\n"@;
        assert(before.last() == '\n');
        lemma_line_added(before, last);
        assert(before + last + seq!['\n'] =~= whole);
        assert(init.push(last) =~= lines);
    }
}

/// Lines that are each written with a line feed are read again, but for a carriage return
/// before it.
pub proof fn lemma_lines_of_terminated(lines: Seq<Text>)
    requires
        forall|i: int| 0 <= i < lines.len() ==> !(#[trigger] lines[i]).contains('\n'),
    ensures
        lines_of(terminated(lines)) == lines.map_values(|l: Text| without_cr(l)),
        lines.len() > 0 ==> terminated(lines).last() == '\n',
        lines.len() == 0 ==> terminated(lines).len() == 0,
    decreases lines.len(),
{
    reveal_strlit("\n");
    assert("\n"@ =~= seq!['\n']);
    if lines.len() > 0 {
        let init = lines.drop_last();
        let last = lines.last();
        assert(last == lines[lines.len() - 1]);
        assert forall|i: int| 0 <= i < init.len() implies !(#[trigger] init[i]).contains(
            '\n',
        ) by {
            assert(init[i] == lines[i]);
        }
        lemma_lines_of_terminated(init);
        lemma_line_added(terminated(init), last);
        assert(lines_of(terminated(lines)) =~= lines.map_values(|l: Text| without_cr(l)));
    } else {
        assert(lines_of(terminated(lines)) =~= lines.map_values(|l: Text| without_cr(l)));
    }
}

/// A carriage return at the end of a line is white space.
pub proof fn lemma_trimmed_return(s: Text)
    ensures
        trimmed(without_cr(s)) == trimmed(s),
    decreases s.len(),
{
    if s.len() > 0 && s.last() == '\r' {
        let t = s.drop_last();
        if white(s[0]) {
            if s.len() == 1 {
                assert(t =~= s.drop_first());
            } else {
                let u = s.drop_first();
                assert(u.last() == '\r');
                lemma_trimmed_return(u);
                assert(t.drop_first() =~= u.drop_last());
                assert(t[0] == s[0]);
            }
        } else {
            assert(white('\r'));
            assert(t[0] == s[0]);
        }
    }
}

/// A line between two line feeds is one of the lines.
pub proof fn lemma_line_between(before: Text, line: Text, after: Text)
    requires
        !line.contains('\n'),
        line.len() > 0,
        line.last() != '\r',
    ensures
        lines_of(before + seq!['\n'] + line + seq!['\n'] + after).contains(line),
    decreases before.len(),
{
    let whole = before + seq!['\n'] + line + seq!['\n'] + after;
    let k = find(whole, '\n');
    lemma_find(whole, '\n');
    let rest = whole.skip(k + 1);
    assert(whole[before.len() as int] == '\n');
    let all = lines_of(whole);
    let others = lines_of(rest);
    if k < before.len() {
        let less = before.skip(k + 1);
        assert(rest =~= less + seq!['\n'] + line + seq!['\n'] + after);
        lemma_line_between(less, line, after);
        let i = choose|i: int| 0 <= i < others.len() && others[i] == line;
        assert(all[i + 1] == line);
    } else {
        assert(k == before.len());
        assert(rest =~= line + seq!['\n'] + after);
        assert forall|j: int| 0 <= j < line.len() implies rest[j] != '\n' by {
            assert(line[j] == rest[j]);
        }
        assert(rest[line.len() as int] == '\n');
        lemma_find_unique(rest, '\n', line.len() as int);
        assert(rest.take(line.len() as int) =~= line);
        assert(others[0] == line);
        assert(all[1] == line);
    }
}

/// The length of the run of characters at the start that are not white space.
pub open spec fn word_len(s: Text) -> int
    decreases s.len(),
{
    if s.len() == 0 || white(s[0]) {
        0
    } else {
        1 + word_len(s.drop_first())
    }
}

pub proof fn lemma_word_len(s: Text)
    ensures
        0 <= word_len(s) <= s.len(),
        forall|j: int| 0 <= j < word_len(s) ==> !white(s[j]),
        word_len(s) < s.len() ==> white(s[word_len(s)]),
    decreases s.len(),
{
    if s.len() == 0 || white(s[0]) {
    } else {
        let t = s.drop_first();
        lemma_word_len(t);
        assert forall|j: int| 0 <= j < word_len(s) implies !white(s[j]) by {
            if j > 0 {
                assert(t[j - 1] == s[j]);
            }
        }
    }
}

pub proof fn lemma_trimmed_start_len(s: Text)
    ensures
        trimmed_start(s).len() <= s.len(),
        trimmed_start(s).len() > 0 ==> !white(trimmed_start(s)[0]),
    decreases s.len(),
{
    if s.len() > 0 && white(s[0]) {
        lemma_trimmed_start_len(s.drop_first());
    }
}

/// The words of a text: its longest runs without white space.
pub open spec fn words_of(s: Text) -> Seq<Text>
    decreases s.len(),
{
    let t = trimmed_start(s);
    if t.len() == 0 {
        seq![]
    } else {
        proof {
            lemma_trimmed_start_len(s);
            lemma_word_len(t);
            lemma_word_len(t.drop_first());
        }
        seq![t.take(word_len(t))] + words_of(t.skip(word_len(t)))
    }
}

/// `s.split_whitespace()`, collected.
pub fn split_words(s: &str) -> (r: Vec<String>)
    ensures
        r.deep_view() == words_of(s@),
{
    let v = chars_of(s);
    let n: usize = v.len();
    let mut out: Vec<String> = Vec::new();
    let mut i: usize = 0;
    assert(v@.skip(0) =~= v@);
    assert(out.deep_view() + words_of(v@) =~= words_of(v@));
    while i < n
        invariant
            n == v@.len(),
            i <= n,
            out.deep_view() + words_of(v@.skip(i as int)) == words_of(v@),
        decreases n - i,
    {
        let ghost rest = v@.skip(i as int);
        let ghost before = out.deep_view();
        let a: usize = skip_white(&v, i);
        if a == n {
            proof {
                assert(v@.skip(n as int) =~= Seq::<char>::empty());
                assert(trimmed_start(rest).len() == 0);
                assert(trimmed_start(Seq::<char>::empty()).len() == 0);
            }
            i = n;
        } else {
            let mut b: usize = a;
            while b < n && !is_white(v[b])
                invariant
                    n == v@.len(),
                    a <= b <= n,
                    word_len(v@.skip(a as int)) == b - a + word_len(v@.skip(b as int)),
                decreases n - b,
            {
                assert(v@.skip(b as int).drop_first() =~= v@.skip(b + 1));
                b += 1;
            }
            let ghost t = v@.skip(a as int);
            proof {
                assert(word_len(v@.skip(b as int)) == 0);
                assert(word_len(t) == b - a);
                assert(!white(t[0]));
                assert(b > a) by {
                    lemma_word_len(t.drop_first());
                }
            }
            let piece = slice_text(&v, a, b);
            push_text(&mut out, piece.as_str());
            proof {
                assert(piece@ =~= t.take(b - a));
                assert(t.skip(b - a) =~= v@.skip(b as int));
                assert(out.deep_view() + words_of(v@.skip(b as int)) =~= before + words_of(rest));
            }
            i = b;
        }
    }
    proof {
        assert(v@.skip(n as int) =~= Seq::<char>::empty());
        assert(trimmed_start(Seq::<char>::empty()).len() == 0);
        assert(out.deep_view() + words_of(v@.skip(n as int)) =~= out.deep_view());
    }
    out
}

// ---------------------------------------------------------------------- joining
/// The parts one after the other, `sep` between each two.
pub open spec fn joined(parts: Seq<Text>, sep: Text) -> Text
    decreases parts.len(),
{
    if parts.len() == 0 {
        seq![]
    } else if parts.len() == 1 {
        parts[0]
    } else {
        joined(parts.drop_last(), sep) + sep + parts.last()
    }
}

/// `parts.join(sep)`.
pub fn join(parts: &Vec<String>, sep: &str) -> (r: String)
    ensures
        r@ == joined(parts.deep_view(), sep@),
{
    let mut s = String::new();
    let mut i: usize = 0;
    assert(parts.deep_view().take(0) =~= seq![]);
    while i < parts.len()
        invariant
            i <= parts@.len(),
            s@ == joined(parts.deep_view().take(i as int), sep@),
        decreases parts.len() - i,
    {
        let ghost d = parts.deep_view();
        if i > 0 {
            s.push_str(sep);
        }
        s.push_str(parts[i].as_str());
        proof {
            assert(d.take(i + 1).drop_last() =~= d.take(i as int));
            assert(d.take(i + 1).last() == parts[i as int]@);
            if i == 0 {
                assert(s@ =~= parts[0]@);
            }
        }
        i += 1;
    }
    assert(parts.deep_view().take(i as int) =~= parts.deep_view());
    s
}

/// A text stands in itself.
pub proof fn lemma_whole_holds(s: Text)
    ensures
        holds(s, s),
{
    assert(s.subrange(0, s.len() as int) =~= s);
    assert(at(s, 0, s));
}

/// What stands in one of two texts stands in the two put together.
pub proof fn lemma_sum_holds(a: Text, b: Text, p: Text)
    requires
        holds(a, p) || holds(b, p),
    ensures
        holds(a + b, p),
{
    let whole = a + b;
    if holds(a, p) {
        let i = choose|i: int| at(a, i, p);
        assert(whole.subrange(i, i + p.len()) =~= a.subrange(i, i + p.len()));
        assert(at(whole, i, p));
    } else {
        let i = choose|i: int| at(b, i, p);
        let j = a.len() + i;
        assert(whole.subrange(j, j + p.len()) =~= b.subrange(i, i + p.len()));
        assert(at(whole, j, p));
    }
}

/// What stands in a part stands in the whole.
pub proof fn lemma_part_holds(s: Text, t: Text, p: Text)
    requires
        holds(s, t),
        holds(t, p),
    ensures
        holds(s, p),
{
    let i = choose|i: int| at(s, i, t);
    let j = choose|j: int| at(t, j, p);
    assert(s.subrange(i + j, i + j + p.len()) =~= s.subrange(i, i + t.len()).subrange(
        j,
        j + p.len(),
    ));
    assert(at(s, i + j, p));
}

/// Each part stands somewhere in the whole.
pub proof fn lemma_joined_holds(parts: Seq<Text>, sep: Text, k: int)
    requires
        0 <= k < parts.len(),
    ensures
        holds(joined(parts, sep), parts[k]),
    decreases parts.len(),
{
    let whole = joined(parts, sep);
    if parts.len() == 1 {
        assert(whole.subrange(0, whole.len() as int) =~= whole);
        assert(at(whole, 0, parts[k]));
    } else if k == parts.len() - 1 {
        let i = whole.len() - parts.last().len();
        assert(whole.subrange(i, i + parts.last().len()) =~= parts.last());
        assert(at(whole, i, parts[k]));
    } else {
        let before = joined(parts.drop_last(), sep);
        lemma_joined_holds(parts.drop_last(), sep, k);
        assert(parts.drop_last()[k] == parts[k]);
        let i = choose|i: int| at(before, i, parts[k]);
        assert(whole.subrange(i, i + parts[k].len()) =~= before.subrange(i, i + parts[k].len()));
        assert(at(whole, i, parts[k]));
    }
}

/// The lines one after the other, a line feed after each.
pub open spec fn terminated(lines: Seq<Text>) -> Text
    decreases lines.len(),
{
    if lines.len() == 0 {
        seq![]
    } else {
        terminated(lines.drop_last()) + lines.last() + "\n"@
    }
}

pub fn terminate(lines: &Vec<String>) -> (r: String)
    ensures
        r@ == terminated(lines.deep_view()),
{
    let mut s = String::new();
    let mut i: usize = 0;
    assert(lines.deep_view().take(0) =~= seq![]);
    while i < lines.len()
        invariant
            i <= lines@.len(),
            s@ == terminated(lines.deep_view().take(i as int)),
        decreases lines.len() - i,
    {
        let ghost d = lines.deep_view();
        s.push_str(lines[i].as_str());
        s.push_str("\n");
        proof {
            assert(d.take(i + 1).drop_last() =~= d.take(i as int));
            assert(d.take(i + 1).last() == lines[i as int]@);
        }
        i += 1;
    }
    assert(lines.deep_view().take(i as int) =~= lines.deep_view());
    s
}

/// Each text in double quotes.
pub open spec fn quoted(v: Seq<Text>) -> Seq<Text> {
    v.map_values(|t: Text| "\""@ + t + "\""@)
}

/// A list of texts as `{:?}` shows it, where none holds a character that is
/// shown escaped.
pub open spec fn listed(v: Seq<Text>) -> Text {
    "["@ + joined(quoted(v), ", "@) + "]"@
}

pub fn show_list(v: &Vec<String>) -> (r: String)
    ensures
        r@ == listed(v.deep_view()),
{
    concat3("[", join(&quote_each(v), ", ").as_str(), "]")
}

pub fn quote_each(v: &Vec<String>) -> (r: Vec<String>)
    ensures
        r.deep_view() == quoted(v.deep_view()),
{
    let mut out: Vec<String> = Vec::new();
    let mut i: usize = 0;
    while i < v.len()
        invariant
            i <= v@.len(),
            out.deep_view() == quoted(v.deep_view().take(i as int)),
        decreases v.len() - i,
    {
        push_text(&mut out, concat3("\"", v[i].as_str(), "\"").as_str());
        i += 1;
        assert(out.deep_view() =~= quoted(v.deep_view().take(i as int)));
    }
    assert(v.deep_view().take(i as int) =~= v.deep_view());
    out
}

// -------------------------------------------------------------------- replacing
/// `s` with each occurrence of `p`, taken from the left and none overlapping,
/// replaced by `t`.
pub open spec fn replaced(s: Text, p: Text, t: Text) -> Text
    recommends
        p.len() > 0,
    decreases s.len(),
{
    if p.len() == 0 || s.len() == 0 {
        s
    } else if begins(s, p) {
        t + replaced(s.skip(p.len() as int), p, t)
    } else {
        seq![s[0]] + replaced(s.drop_first(), p, t)
    }
}

/// What replaces a pattern that occurs stands in the result.
pub proof fn lemma_replaced_holds(s: Text, p: Text, t: Text)
    requires
        p.len() > 0,
        holds(s, p),
    ensures
        holds(replaced(s, p, t), t),
    decreases s.len(),
{
    if begins(s, p) {
        lemma_whole_holds(t);
        lemma_sum_holds(t, replaced(s.skip(p.len() as int), p, t), t);
    } else {
        let i = choose|i: int| at(s, i, p);
        let rest = s.drop_first();
        assert(rest.subrange(i - 1, i - 1 + p.len()) =~= s.subrange(i, i + p.len()));
        assert(at(rest, i - 1, p));
        lemma_replaced_holds(rest, p, t);
        lemma_sum_holds(seq![s[0]], replaced(rest, p, t), t);
    }
}

/// `s.replace(p, t)` for a pattern that is not empty.
pub fn replace(s: &str, p: &str, t: &str) -> (r: String)
    requires
        p@.len() > 0,
    ensures
        r@ == replaced(s@, p@, t@),
{
    let v = chars_of(s);
    let w = chars_of(p);
    let n: usize = v.len();
    let mut out = String::new();
    let mut i: usize = 0;
    assert(v@.skip(0) =~= v@);
    assert(out@ + replaced(v@, p@, t@) =~= replaced(v@, p@, t@));
    while i < n
        invariant
            n == v@.len(),
            i <= n,
            w@ == p@,
            p@.len() > 0,
            out@ + replaced(v@.skip(i as int), p@, t@) == replaced(v@, p@, t@),
        decreases n - i,
    {
        let ghost rest = v@.skip(i as int);
        let ghost before = out@;
        if is_at(&v, i, &w) {
            proof {
                assert(rest.subrange(0, p@.len() as int) =~= v@.subrange(i as int, i + p@.len()));
                assert(begins(rest, p@));
                assert(rest.skip(p@.len() as int) =~= v@.skip(i + p@.len()));
            }
            out.push_str(t);
            proof {
                assert(out@ + replaced(v@.skip(i + p@.len()), p@, t@) =~= before + replaced(
                    rest,
                    p@,
                    t@,
                ));
            }
            i += w.len();
        } else {
            proof {
                if begins(rest, p@) {
                    assert(rest.subrange(0, p@.len() as int) =~= v@.subrange(
                        i as int,
                        i + p@.len(),
                    ));
                }
                assert(rest.drop_first() =~= v@.skip(i + 1));
            }
            out.push(v[i]);
            proof {
                assert(out@ + replaced(v@.skip(i + 1), p@, t@) =~= before + replaced(rest, p@, t@));
            }
            i += 1;
        }
    }
    proof {
        assert(v@.skip(n as int) =~= Seq::<char>::empty());
        assert(out@ + replaced(v@.skip(n as int), p@, t@) =~= out@);
    }
    out
}

// ---------------------------------------------------------------------- numbers
/// The decimal digit of a number below ten.
pub open spec fn digit_char(n: int) -> char {
    (('0' as u32) + n) as u32 as char
}

pub open spec fn digit_value(c: char) -> int {
    c as u32 - '0' as u32
}

/// The number that a run of decimal digits stands for.
pub open spec fn digits_value(s: Text) -> int
    decreases s.len(),
{
    if s.len() == 0 {
        0
    } else {
        digits_value(s.drop_last()) * 10 + digit_value(s.last())
    }
}

/// The digits of an unsigned number: a leading plus sign is no part of them.
pub open spec fn unsigned_digits(s: Text) -> Text {
    if s.len() > 0 && s[0] == '+' {
        s.drop_first()
    } else {
        s
    }
}

/// The number that `s` reads as, where it reads as one that is at most `max`.
pub open spec fn parsed(s: Text, max: int) -> Option<int> {
    let d = unsigned_digits(s);
    if d.len() > 0 && (forall|i: int| 0 <= i < d.len() ==> digit(#[trigger] d[i])) && digits_value(d)
        <= max {
        Some(digits_value(d))
    } else {
        None
    }
}

proof fn lemma_digits_value_grows(s: Text, k: int)
    requires
        0 <= k <= s.len(),
        forall|i: int| 0 <= i < s.len() ==> digit(#[trigger] s[i]),
    ensures
        0 <= digits_value(s.take(k)) <= digits_value(s),
    decreases s.len(),
{
    if s.len() > 0 {
        let t = s.drop_last();
        assert(forall|i: int| 0 <= i < t.len() ==> digit(#[trigger] t[i])) by {
            assert forall|i: int| 0 <= i < t.len() implies digit(#[trigger] t[i]) by {
                assert(t[i] == s[i]);
            }
        }
        assert(digit(s[s.len() - 1]));
        if k < s.len() {
            lemma_digits_value_grows(t, k);
            assert(t.take(k) =~= s.take(k));
        } else {
            assert(s.take(k) =~= s);
            lemma_digits_value_grows(t, t.len() as int);
            assert(t.take(t.len() as int) =~= t);
        }
    }
}

/// A number that was read is within its bounds.
pub proof fn lemma_parsed_range(s: Text, max: int)
    ensures
        parsed(s, max) matches Some(n) ==> 0 <= n <= max,
{
    let d = unsigned_digits(s);
    if parsed(s, max) is Some {
        lemma_digits_value_grows(d, 0);
        assert(d.take(0) =~= seq![]);
    }
}

/// Reads an unsigned decimal number of at most `max`.
pub fn parse(s: &str, max: u64) -> (r: Option<u64>)
    ensures
        r is Some <==> parsed(s@, max as int) is Some,
        r matches Some(n) ==> parsed(s@, max as int) == Some(n as int),
{
    let v = chars_of(s);
    let n: usize = v.len();
    let start: usize = if n > 0 && v[0] == '+' {
        1
    } else {
        0
    };
    let ghost d = unsigned_digits(s@);
    proof {
        assert(d =~= v@.skip(start as int));
    }
    if start == n {
        return None;
    }
    let mut value: u64 = 0;
    let mut i: usize = start;
    assert(d.take(0) =~= seq![]);
    while i < n
        invariant
            n == v@.len(),
            v@ == s@,
            start <= i <= n,
            start < n,
            d == unsigned_digits(s@),
            d == v@.skip(start as int),
            value <= max,
            value == digits_value(d.take(i - start)),
            forall|j: int| 0 <= j < i - start ==> digit(#[trigger] d[j]),
        decreases n - i,
    {
        let c = v[i];
        proof {
            assert(d[i - start] == c);
            assert(d.take(i - start + 1).drop_last() =~= d.take(i - start));
            assert(d.take(i - start + 1).last() == c);
        }
        if !('0' <= c && c <= '9') {
            return None;
        }
        let k: u64 = c as u64 - '0' as u64;
        if k > max || value > (max - k) / 10 {
            proof {
                if forall|j: int| 0 <= j < d.len() ==> digit(#[trigger] d[j]) {
                    lemma_digits_value_grows(d, i - start + 1);
                }
            }
            return None;
        }
        value = value * 10 + k;
        i += 1;
    }
    proof {
        assert(d.take(n - start) =~= d);
    }
    Some(value)
}

/// The decimal notation of a number.
pub open spec fn decimal(n: nat) -> Text
    decreases n,
{
    if n < 10 {
        seq![digit_char(n as int)]
    } else {
        decimal(n / 10).push(digit_char((n % 10) as int))
    }
}

/// `n.to_string()`.
pub fn number(n: u64) -> (r: String)
    ensures
        r@ == decimal(n as nat),
    decreases n,
{
    let d: u8 = (n % 10) as u8 + '0' as u8;
    if n < 10 {
        let mut s = String::new();
        s.push(d as char);
        s
    } else {
        let mut s = number(n / 10);
        s.push(d as char);
        s
    }
}

// -------------------------------------------------------------------------- case
pub open spec fn ascii_text(s: Text) -> bool {
    forall|i: int| 0 <= i < s.len() ==> (#[trigger] s[i] as u32) < 128
}

pub open spec fn ascii_lowered(s: Text) -> Text {
    Seq::new(s.len(), |i: int| lower_char(s[i]))
}

pub open spec fn ascii_raised(s: Text) -> Text {
    Seq::new(s.len(), |i: int| upper_char(s[i]))
}

/// What `str::to_lowercase` makes of a text.
pub uninterp spec fn unicode_lowered(s: Seq<char>) -> Seq<char>;

/// What `str::to_uppercase` makes of a text.
pub uninterp spec fn unicode_raised(s: Seq<char>) -> Seq<char>;

/// `str::to_lowercase` of the standard library, whose result is named and not
/// described: the full Unicode mapping.
#[verifier::external_body]
fn unicode_lower(s: &str) -> (r: String)
    ensures
        r@ == unicode_lowered(s@),
{
    s.to_lowercase()
}

/// `str::to_uppercase` of the standard library, whose result is named and not
/// described: the full Unicode mapping.
#[verifier::external_body]
fn unicode_upper(s: &str) -> (r: String)
    ensures
        r@ == unicode_raised(s@),
{
    s.to_uppercase()
}

/// Lower case: letter by letter on ASCII text, by the Unicode mapping elsewhere.
pub open spec fn lowered(s: Text) -> Text {
    if ascii_text(s) {
        ascii_lowered(s)
    } else {
        unicode_lowered(s)
    }
}

/// Upper case: letter by letter on ASCII text, by the Unicode mapping elsewhere.
pub open spec fn raised(s: Text) -> Text {
    if ascii_text(s) {
        ascii_raised(s)
    } else {
        unicode_raised(s)
    }
}

fn is_ascii_text(v: &Vec<char>) -> (r: bool)
    ensures
        r == ascii_text(v@),
{
    let mut i: usize = 0;
    while i < v.len()
        invariant
            i <= v@.len(),
            forall|j: int| 0 <= j < i ==> (#[trigger] v@[j] as u32) < 128,
        decreases v.len() - i,
    {
        if v[i] as u32 >= 128 {
            return false;
        }
        i += 1;
    }
    true
}

/// `s.to_ascii_lowercase()`.
pub fn ascii_lower(s: &str) -> (r: String)
    ensures
        r@ == ascii_lowered(s@),
{
    let mut out = String::new();
    for c in it: s.chars()
        invariant
            it.seq() == s@,
            out@ == ascii_lowered(s@).take(it.index() as int),
    {
        out.push(to_lower_char(c));
    }
    assert(ascii_lowered(s@).take(s@.len() as int) =~= ascii_lowered(s@));
    out
}

fn ascii_upper(s: &str) -> (r: String)
    ensures
        r@ == ascii_raised(s@),
{
    let mut out = String::new();
    for c in it: s.chars()
        invariant
            it.seq() == s@,
            out@ == ascii_raised(s@).take(it.index() as int),
    {
        out.push(to_upper_char(c));
    }
    assert(ascii_raised(s@).take(s@.len() as int) =~= ascii_raised(s@));
    out
}

/// `s.to_lowercase()`.
pub fn lower(s: &str) -> (r: String)
    ensures
        r@ == lowered(s@),
{
    if is_ascii_text(&chars_of(s)) {
        ascii_lower(s)
    } else {
        unicode_lower(s)
    }
}

/// `s.to_uppercase()`.
pub fn upper(s: &str) -> (r: String)
    ensures
        r@ == raised(s@),
{
    if is_ascii_text(&chars_of(s)) {
        ascii_upper(s)
    } else {
        unicode_upper(s)
    }
}

/// The first character in upper case, the others in lower case.
pub open spec fn titled(s: Text) -> Text {
    if s.len() == 0 {
        seq![]
    } else {
        raised(seq![s[0]]) + lowered(s.drop_first())
    }
}

pub fn title(s: &str) -> (r: String)
    ensures
        r@ == titled(s@),
{
    let v = chars_of(s);
    if v.len() == 0 {
        let t = String::new();
        assert(t@ =~= titled(s@));
        return t;
    }
    let head = slice_text(&v, 0, 1);
    let tail = slice_text(&v, 1, v.len());
    proof {
        assert(head@ =~= seq![s@[0]]);
        assert(tail@ =~= s@.drop_first());
    }
    let mut t = upper(head.as_str());
    t.push_str(lower(tail.as_str()).as_str());
    t
}

/// `a.eq_ignore_ascii_case(b)`.
pub fn same_ignoring_case(a: &str, b: &str) -> (r: bool)
    ensures
        r == (ascii_lowered(a@) == ascii_lowered(b@)),
{
    same(ascii_lower(a).as_str(), ascii_lower(b).as_str())
}

// ---------------------------------------------------------------------- ordering
/// The order of texts by their first differing character.
pub open spec fn precedes(a: Text, b: Text) -> bool
    decreases a.len(),
{
    if b.len() == 0 {
        false
    } else if a.len() == 0 {
        true
    } else if a[0] != b[0] {
        a[0] < b[0]
    } else {
        precedes(a.drop_first(), b.drop_first())
    }
}

pub proof fn lemma_precedes_total(a: Text, b: Text)
    ensures
        a == b || precedes(a, b) || precedes(b, a),
        !(precedes(a, b) && precedes(b, a)),
        !precedes(a, a),
    decreases a.len() + b.len(),
{
    if a.len() == 0 {
        if b.len() == 0 {
            assert(a =~= b);
        }
    } else if b.len() > 0 {
        lemma_precedes_total(a.drop_first(), b.drop_first());
        if a[0] == b[0] && a.drop_first() == b.drop_first() {
            assert(a =~= seq![a[0]] + a.drop_first());
            assert(b =~= seq![b[0]] + b.drop_first());
        }
    }
    lemma_not_before_itself(a);
}

proof fn lemma_not_before_itself(a: Text)
    ensures
        !precedes(a, a),
    decreases a.len(),
{
    if a.len() > 0 {
        lemma_not_before_itself(a.drop_first());
    }
}

pub proof fn lemma_precedes_transitive(a: Text, b: Text, c: Text)
    requires
        precedes(a, b),
        precedes(b, c),
    ensures
        precedes(a, c),
    decreases a.len(),
{
    if a.len() > 0 && b.len() > 0 && c.len() > 0 && a[0] == b[0] && b[0] == c[0] {
        lemma_precedes_transitive(a.drop_first(), b.drop_first(), c.drop_first());
    }
}

/// Whether `a` comes before `b`.
pub fn comes_before(a: &str, b: &str) -> (r: bool)
    ensures
        r == precedes(a@, b@),
{
    let x = chars_of(a);
    let y = chars_of(b);
    let mut i: usize = 0;
    assert(x@.skip(0) =~= x@);
    assert(y@.skip(0) =~= y@);
    while i < x.len() && i < y.len()
        invariant
            i <= x@.len(),
            i <= y@.len(),
            x@ == a@,
            y@ == b@,
            precedes(a@, b@) == precedes(x@.skip(i as int), y@.skip(i as int)),
        decreases x.len() - i,
    {
        let c = x[i];
        let d = y[i];
        if c != d {
            return c < d;
        }
        proof {
            assert(x@.skip(i as int).drop_first() =~= x@.skip(i + 1));
            assert(y@.skip(i as int).drop_first() =~= y@.skip(i + 1));
        }
        i += 1;
    }
    i < y.len()
}

/// In ascending order, nothing twice.
pub open spec fn ascending(v: Seq<Text>) -> bool {
    forall|i: int, j: int| 0 <= i < j < v.len() ==> precedes(#[trigger] v[i], #[trigger] v[j])
}

/// The same texts, however often and in whatever order.
pub open spec fn same_members(v: Seq<Text>, w: Seq<Text>) -> bool {
    forall|t: Text| v.contains(t) <==> w.contains(t)
}

/// The texts of `v` in ascending order, each once.
pub open spec fn arranged(v: Seq<Text>) -> Seq<Text> {
    choose|w: Seq<Text>| ascending(w) && same_members(w, v)
}

/// A list in ascending order is determined by what it holds.
pub proof fn ascending_lists_are_unique(v: Seq<Text>, w: Seq<Text>)
    requires
        ascending(v),
        ascending(w),
        same_members(v, w),
    ensures
        v == w,
    decreases v.len(),
{
    if v.len() == 0 {
        if w.len() > 0 {
            assert(w.contains(w[0]));
        }
        assert(v =~= w);
    } else {
        assert(v.contains(v.last()));
        let k = choose|k: int| 0 <= k < w.len() && w[k] == v.last();
        assert(w.contains(w.last()));
        let m = choose|m: int| 0 <= m < v.len() && v[m] == w.last();
        lemma_precedes_total(v.last(), w.last());
        if k < w.len() - 1 {
            assert(precedes(w[k], w[w.len() - 1]));
        }
        if m < v.len() - 1 {
            assert(precedes(v[m], v[v.len() - 1]));
        }
        assert(v.last() == w.last());
        lemma_members_before_last(v);
        lemma_members_before_last(w);
        assert forall|t: Text| v.drop_last().contains(t) <==> w.drop_last().contains(t) by {
            assert(v.contains(t) <==> w.contains(t));
        }
        ascending_lists_are_unique(v.drop_last(), w.drop_last());
        assert(v =~= v.drop_last().push(v.last()));
        assert(w =~= w.drop_last().push(w.last()));
    }
}

proof fn lemma_members_before_last(v: Seq<Text>)
    requires
        ascending(v),
        v.len() > 0,
    ensures
        ascending(v.drop_last()),
        forall|t: Text|
            v.drop_last().contains(t) <==> v.contains(t) && t != v.last(),
{
    let d = v.drop_last();
    assert forall|t: Text| d.contains(t) <==> v.contains(t) && t != v.last() by {
        if d.contains(t) {
            let k = choose|k: int| 0 <= k < d.len() && d[k] == t;
            assert(v[k] == t);
            assert(precedes(v[k], v[v.len() - 1]));
            lemma_precedes_total(t, t);
        }
        if v.contains(t) && t != v.last() {
            let k = choose|k: int| 0 <= k < v.len() && v[k] == t;
            assert(d[k] == t);
        }
    }
}

/// `v.sort(); v.dedup();`: the same texts in ascending order, each once.
pub fn sort_unique(v: &Vec<String>) -> (r: Vec<String>)
    ensures
        r.deep_view() == arranged(v.deep_view()),
        ascending(r.deep_view()),
        same_members(r.deep_view(), v.deep_view()),
{
    let mut out: Vec<String> = Vec::new();
    let mut i: usize = 0;
    while i < v.len()
        invariant
            i <= v@.len(),
            ascending(out.deep_view()),
            forall|t: Text| out.deep_view().contains(t) <==> v.deep_view().take(i as int).contains(t),
        decreases v.len() - i,
    {
        insert_unique(&mut out, v[i].as_str());
        proof {
            let d = v.deep_view();
            let done = d.take(i as int);
            let next = d.take(i + 1);
            assert(next =~= done.push(d[i as int]));
            assert forall|t: Text| out.deep_view().contains(t) <==> next.contains(t) by {
                if done.contains(t) {
                    let k = choose|k: int| 0 <= k < done.len() && done[k] == t;
                    assert(next[k] == t);
                }
                if t == d[i as int] {
                    assert(next[i as int] == t);
                }
                if next.contains(t) {
                    let k = choose|k: int| 0 <= k < next.len() && next[k] == t;
                    if k < i {
                        assert(done[k] == t);
                    }
                }
            }
        }
        i += 1;
    }
    proof {
        assert(v.deep_view().take(i as int) =~= v.deep_view());
        assert(same_members(out.deep_view(), v.deep_view()));
        ascending_lists_are_unique(out.deep_view(), arranged(v.deep_view()));
    }
    out
}

/// Puts a text at its place in an ascending list, where it is not there yet.
fn insert_unique(out: &mut Vec<String>, s: &str)
    requires
        ascending(old(out).deep_view()),
    ensures
        ascending(final(out).deep_view()),
        forall|t: Text|
            final(out).deep_view().contains(t) <==> old(out).deep_view().contains(t) || t == s@,
{
    let ghost d = out.deep_view();
    let mut k: usize = 0;
    while k < out.len() && comes_before(out[k].as_str(), s)
        invariant
            k <= out@.len(),
            out.deep_view() == d,
            d.len() == out@.len(),
            forall|j: int| 0 <= j < k ==> precedes(#[trigger] d[j], s@),
        decreases out.len() - k,
    {
        assert(d[k as int] == out@[k as int]@);
        k += 1;
    }
    if k < out.len() && same(out[k].as_str(), s) {
        assert(d[k as int] == s@);
        return ;
    }
    out.insert(k, s.to_owned());
    proof {
        let e = out.deep_view();
        assert(e =~= d.insert(k as int, s@));
        if k < d.len() {
            lemma_precedes_total(d[k as int], s@);
        }
        assert forall|i: int, j: int| 0 <= i < j < e.len() implies precedes(
            #[trigger] e[i],
            #[trigger] e[j],
        ) by {
            let a = if i < k {
                i
            } else {
                i - 1
            };
            let b = if j < k {
                j
            } else {
                j - 1
            };
            if i == k {
                assert(e[j] == d[j - 1]);
                if j - 1 > k {
                    assert(precedes(d[k as int], d[j - 1]));
                    lemma_precedes_transitive(s@, d[k as int], d[j - 1]);
                }
            } else if j == k {
                assert(e[i] == d[i]);
            } else {
                assert(e[i] == d[a]);
                assert(e[j] == d[b]);
            }
        }
        assert forall|t: Text| e.contains(t) <==> d.contains(t) || t == s@ by {
            if d.contains(t) {
                let m = choose|m: int| 0 <= m < d.len() && d[m] == t;
                if m < k {
                    assert(e[m] == t);
                } else {
                    assert(e[m + 1] == t);
                }
            }
            if t == s@ {
                assert(e[k as int] == t);
            }
            if e.contains(t) {
                let m = choose|m: int| 0 <= m < e.len() && e[m] == t;
                if m < k {
                    assert(d[m] == t);
                } else if m > k {
                    assert(d[m - 1] == t);
                }
            }
        }
    }
}

/// Decimal notation is made of digits, holds the number, and is read back as it.
pub proof fn decimal_is_read_back(n: nat)
    ensures
        decimal(n).len() > 0,
        forall|i: int| 0 <= i < decimal(n).len() ==> digit(#[trigger] decimal(n)[i]),
        digits_value(decimal(n)) == n,
        parsed(decimal(n), n as int) == Some(n as int),
    decreases n,
{
    let d = decimal(n);
    if n < 10 {
        assert(d.drop_last() =~= seq![]);
        assert(digits_value(d.drop_last()) == 0);
        assert(digit_value(d.last()) == n);
    } else {
        decimal_is_read_back(n / 10);
        let e = decimal(n / 10);
        assert(d.drop_last() =~= e);
        assert(digit_value(d.last()) == n % 10);
        assert(digits_value(d) == (n / 10) * 10 + n % 10);
        assert forall|i: int| 0 <= i < d.len() implies digit(#[trigger] d[i]) by {
            if i < e.len() {
                assert(d[i] == e[i]);
            } else {
                assert(d[i] == digit_char((n % 10) as int));
            }
        }
    }
    assert(digit(d[0]));
    assert(unsigned_digits(d) == d);
}

/// Putting texts in order loses none, adds none and leaves none twice.
pub proof fn arranging_keeps_the_members(v: Seq<Text>)
    ensures
        ascending(arranged(v)),
        same_members(arranged(v), v),
{
    lemma_arranged_exists(v);
}

proof fn lemma_arranged_exists(v: Seq<Text>)
    ensures
        exists|w: Seq<Text>| ascending(w) && same_members(w, v),
    decreases v.len(),
{
    if v.len() == 0 {
        assert(ascending(v) && same_members(v, v));
    } else {
        let init = v.drop_last();
        lemma_arranged_exists(init);
        let w = choose|w: Seq<Text>| ascending(w) && same_members(w, init);
        let x = v.last();
        assert forall|t: Text| v.contains(t) <==> w.contains(t) || t == x by {
            if init.contains(t) {
                let k = choose|k: int| 0 <= k < init.len() && init[k] == t;
                assert(v[k] == t);
            }
            if v.contains(t) && t != x {
                let k = choose|k: int| 0 <= k < v.len() && v[k] == t;
                assert(init[k] == t);
            }
            assert(v[v.len() - 1] == x);
        }
        if w.contains(x) {
            assert(same_members(w, v));
        } else {
            lemma_placed_exists(w, x);
            let u = choose|u: Seq<Text>|
                ascending(u) && forall|t: Text| u.contains(t) <==> w.contains(t) || t == x;
            assert(same_members(u, v));
        }
    }
}

proof fn lemma_placed_exists(w: Seq<Text>, x: Text)
    requires
        ascending(w),
        !w.contains(x),
    ensures
        exists|u: Seq<Text>|
            ascending(u) && forall|t: Text| u.contains(t) <==> w.contains(t) || t == x,
    decreases w.len(),
{
    if w.len() == 0 || precedes(w.last(), x) {
        let u = w.push(x);
        assert forall|i: int, j: int| 0 <= i < j < u.len() implies precedes(
            #[trigger] u[i],
            #[trigger] u[j],
        ) by {
            if j == w.len() && i + 1 < w.len() {
                assert(precedes(w[i], w[w.len() - 1]));
                lemma_precedes_transitive(w[i], w.last(), x);
            }
        }
        assert forall|t: Text| u.contains(t) <==> w.contains(t) || t == x by {
            if w.contains(t) {
                let k = choose|k: int| 0 <= k < w.len() && w[k] == t;
                assert(u[k] == t);
            }
            if u.contains(t) && t != x {
                let k = choose|k: int| 0 <= k < u.len() && u[k] == t;
                assert(w[k] == t);
            }
            assert(u[w.len() as int] == x);
        }
        assert(ascending(u));
    } else {
        let last = w.last();
        let init = w.drop_last();
        assert(w[w.len() - 1] == last);
        lemma_precedes_total(last, x);
        lemma_members_before_last(w);
        lemma_placed_exists(init, x);
        let s = choose|s: Seq<Text>|
            ascending(s) && forall|t: Text| s.contains(t) <==> init.contains(t) || t == x;
        let u = s.push(last);
        assert forall|i: int, j: int| 0 <= i < j < u.len() implies precedes(
            #[trigger] u[i],
            #[trigger] u[j],
        ) by {
            if j == s.len() {
                assert(s.contains(s[i]));
                if s[i] != x {
                    let k = choose|k: int| 0 <= k < init.len() && init[k] == s[i];
                    assert(precedes(w[k], w[w.len() - 1]));
                }
            }
        }
        assert forall|t: Text| u.contains(t) <==> w.contains(t) || t == x by {
            if s.contains(t) {
                let k = choose|k: int| 0 <= k < s.len() && s[k] == t;
                assert(u[k] == t);
            }
            if u.contains(t) && t != last {
                let k = choose|k: int| 0 <= k < u.len() && u[k] == t;
                assert(s[k] == t);
            }
            assert(u[s.len() as int] == last);
        }
        assert(ascending(u));
    }
}

/// The pieces of two texts with the separator between them.
pub proof fn lemma_pieces_sum(a: Text, b: Text, c: char)
    ensures
        pieces(a + seq![c] + b, c) == pieces(a, c) + pieces(b, c),
    decreases a.len(),
{
    let s = a + seq![c] + b;
    lemma_find(a, c);
    let k = find(a, c);
    assert forall|j: int| 0 <= j < k implies s[j] != c by {
        assert(s[j] == a[j]);
    }
    if k < a.len() {
        assert(s[k] == a[k]);
    } else {
        assert(s[k] == c);
    }
    lemma_find_unique(s, c, k);
    assert(s.take(k) =~= a.take(k));
    if k < a.len() {
        let t = a.skip(k + 1);
        assert(s.skip(k + 1) =~= t + seq![c] + b);
        lemma_pieces_sum(t, b, c);
        assert(pieces(s, c) =~= pieces(a, c) + pieces(b, c));
    } else {
        assert(s.skip(k + 1) =~= b);
        assert(a.take(k) =~= a);
        assert(pieces(s, c) =~= pieces(a, c) + pieces(b, c));
    }
}

/// A text without the separator is its own only piece.
pub proof fn lemma_one_piece(s: Text, c: char)
    requires
        !s.contains(c),
    ensures
        pieces(s, c) == seq![s],
{
    lemma_find(s, c);
    let k = find(s, c);
    if k < s.len() {
        assert(s.contains(s[k]));
    }
}

} // verus!
