//! Character-level helpers on strings: splitting, joining, decimal
//! formatting and the small predicates the extractors rely on.
use vstd::prelude::*;

verus! {

/// `String::push` appends one character.
pub assume_specification[ String::push ](s: &mut String, ch: char)
    ensures
        final(s)@ == old(s)@.push(ch),
;

/// The views of a sequence of strings.
pub open spec fn strings_view(v: Seq<String>) -> Seq<Seq<char>> {
    v.map_values(|s: String| s@)
}

/// Splits `s` at every character satisfying `is_sep`; `n` separators give
/// `n + 1` pieces, and the empty string gives one empty piece.
pub open spec fn split_by(s: Seq<char>, is_sep: spec_fn(char) -> bool) -> Seq<Seq<char>>
    decreases s.len(),
{
    if s.len() == 0 {
        seq![Seq::<char>::empty()]
    } else {
        let p = split_by(s.drop_last(), is_sep);
        if is_sep(s.last()) {
            p.push(Seq::<char>::empty())
        } else {
            p.update(p.len() - 1, p.last().push(s.last()))
        }
    }
}

/// Splitting at one separator character, as `str::split(char)` does.
pub open spec fn split_seq(s: Seq<char>, sep: char) -> Seq<Seq<char>> {
    split_by(s, is_char(sep))
}

/// The test for one separator character.
pub open spec fn is_char(sep: char) -> spec_fn(char) -> bool {
    |c: char| c == sep
}

pub proof fn lemma_split_by_nonempty(s: Seq<char>, is_sep: spec_fn(char) -> bool)
    ensures
        split_by(s, is_sep).len() >= 1,
    decreases s.len(),
{
    if s.len() > 0 {
        lemma_split_by_nonempty(s.drop_last(), is_sep);
    }
}

/// Joins the pieces with `sep` between neighbours.
pub open spec fn join_seq(parts: Seq<Seq<char>>, sep: Seq<char>) -> Seq<char>
    decreases parts.len(),
{
    if parts.len() == 0 {
        Seq::<char>::empty()
    } else if parts.len() == 1 {
        parts[0]
    } else {
        join_seq(parts.drop_last(), sep) + sep + parts.last()
    }
}

/// Appending text without a separator to `x` only lengthens the last piece
/// of its split.
pub proof fn lemma_split_by_append_plain(
    x: Seq<char>,
    y: Seq<char>,
    is_sep: spec_fn(char) -> bool,
)
    requires
        forall|i: int| 0 <= i < y.len() ==> !is_sep(#[trigger] y[i]),
    ensures
        split_by(x + y, is_sep) == split_by(x, is_sep).update(
            split_by(x, is_sep).len() - 1,
            split_by(x, is_sep).last() + y,
        ),
    decreases y.len(),
{
    lemma_split_by_nonempty(x, is_sep);
    let q = split_by(x, is_sep);
    if y.len() == 0 {
        assert(x + y =~= x);
        assert(q.last() + y =~= q.last());
        assert(q.update(q.len() - 1, q.last() + y) =~= q);
    } else {
        let y1 = y.drop_last();
        lemma_split_by_append_plain(x, y1, is_sep);
        assert((x + y).drop_last() =~= x + y1);
        assert((x + y).last() == y.last());
        assert(!is_sep(y[y.len() - 1]));
        let p = split_by(x + y1, is_sep);
        assert((q.last() + y1).push(y.last()) =~= q.last() + y);
        assert(p.update(p.len() - 1, p.last().push(y.last())) =~= q.update(
            q.len() - 1,
            q.last() + y,
        ));
    }
}

/// Joining pieces that hold no `sep` with `sep` between them, and splitting
/// the result at `sep`, gives back the pieces.
pub proof fn lemma_split_join(parts: Seq<Seq<char>>, sep: char)
    requires
        parts.len() >= 1,
        forall|i: int, j: int|
            0 <= i < parts.len() && 0 <= j < parts[i].len() ==> #[trigger] parts[i][j] != sep,
    ensures
        split_seq(join_seq(parts, seq![sep]), sep) == parts,
    decreases parts.len(),
{
    let f = is_char(sep);
    let last = parts.last();
    assert forall|j: int| 0 <= j < last.len() implies !f(#[trigger] last[j]) by {
        assert(parts[parts.len() - 1][j] != sep);
    }
    if parts.len() == 1 {
        lemma_split_by_append_plain(Seq::<char>::empty(), last, f);
        assert(Seq::<char>::empty() + last =~= last);
        assert(split_by(Seq::<char>::empty(), f) =~= seq![Seq::<char>::empty()]);
        assert(Seq::<char>::empty() + last =~= last);
        assert(seq![Seq::<char>::empty()].update(0, Seq::<char>::empty() + last) =~= parts);
    } else {
        let rest = parts.drop_last();
        assert forall|i: int, j: int|
            0 <= i < rest.len() && 0 <= j < rest[i].len() implies #[trigger] rest[i][j] != sep by {
            assert(rest[i] == parts[i]);
        }
        lemma_split_join(rest, sep);
        let head = join_seq(rest, seq![sep]);
        let x = head + seq![sep];
        assert(join_seq(parts, seq![sep]) == x + last);
        assert(x.drop_last() =~= head);
        assert(f(x.last()));
        assert(split_by(x, f) == split_by(head, f).push(Seq::<char>::empty()));
        lemma_split_by_append_plain(x, last, f);
        assert(Seq::<char>::empty() + last =~= last);
        assert(rest.push(Seq::<char>::empty()).update(rest.len() as int, Seq::<char>::empty() + last)
            =~= parts);
    }
}

/// The decimal digit character for `d < 10`.
pub open spec fn digit_char(d: nat) -> char {
    ((d + 48) as u8) as char
}

/// The decimal representation of `n`, without leading zeros.
pub open spec fn decimal(n: nat) -> Seq<char>
    decreases n,
{
    if n < 10 {
        seq![digit_char(n)]
    } else {
        decimal(n / 10).push(digit_char(n % 10))
    }
}

/// Whether `s` holds two consecutive slashes.
pub open spec fn has_double_slash(s: Seq<char>) -> bool {
    exists|i: int| 0 <= i && i + 1 < s.len() && #[trigger] s[i] == '/' && s[i + 1] == '/'
}

/// Two consecutive slashes are what makes a text hold `//`: any text with
/// `//` in it holds them, a text without any slash does not, and a single
/// slash between two texts without `//`, neither touching it with a slash
/// of its own, does not make one.
pub proof fn lemma_double_slash(a: Seq<char>, b: Seq<char>)
    ensures
        has_double_slash(a + "//"@ + b),
        (forall|i: int| 0 <= i < a.len() ==> #[trigger] a[i] != '/') ==> !has_double_slash(a),
        !has_double_slash(a) && !has_double_slash(b) && (a.len() == 0 || a.last() != '/') && (
        b.len() == 0 || b[0] != '/') ==> !has_double_slash(a + "/"@ + b),
{
    reveal_strlit("//");
    reveal_strlit("/");
    let s = a + "//"@ + b;
    assert(s[a.len() as int] == '/' && s[a.len() as int + 1] == '/');
    if forall|i: int| 0 <= i < a.len() ==> #[trigger] a[i] != '/' {
        assert forall|i: int| 0 <= i && i + 1 < a.len() implies !(#[trigger] a[i] == '/' && a[i + 1]
            == '/') by {
            assert(a[i] != '/');
        }
    }
    let t = a + "/"@ + b;
    if !has_double_slash(a) && !has_double_slash(b) && (a.len() == 0 || a.last() != '/') && (
    b.len() == 0 || b[0] != '/') {
        assert forall|i: int| 0 <= i && i + 1 < t.len() implies !(#[trigger] t[i] == '/' && t[i + 1]
            == '/') by {
            let n = a.len() as int;
            if i + 1 < n {
                assert(t[i] == a[i] && t[i + 1] == a[i + 1]);
                if a[i] == '/' && a[i + 1] == '/' {
                    assert(has_double_slash(a));
                }
            } else if i + 1 == n {
                assert(t[i] == a.last());
            } else if i == n {
                assert(t[i + 1] == b[0]);
            } else {
                assert(t[i] == b[i - n - 1] && t[i + 1] == b[i - n]);
                if b[i - n - 1] == '/' && b[i - n] == '/' {
                    assert(has_double_slash(b));
                }
            }
        }
    }
}

/// Drops one trailing carriage return.
pub open spec fn strip_cr(l: Seq<char>) -> Seq<char> {
    if l.len() > 0 && l.last() == '\r' {
        l.drop_last()
    } else {
        l
    }
}

/// The lines of `s` as `str::lines` yields them: pieces between newlines, a
/// carriage return before a newline removed, and no final empty line.
pub open spec fn lines_seq(s: Seq<char>) -> Seq<Seq<char>> {
    let p = split_seq(s, '\n');
    let full = p.drop_last().map_values(|l: Seq<char>| strip_cr(l));
    if p.last().len() == 0 {
        full
    } else {
        full.push(p.last())
    }
}

/// ASCII upper-case letters become lower case; every other character stays.
pub open spec fn lower_char(c: char) -> char {
    if 'A' <= c && c <= 'Z' {
        ((c as u32) + 32) as char
    } else {
        c
    }
}

pub open spec fn lower_seq(s: Seq<char>) -> Seq<char> {
    s.map_values(|c: char| lower_char(c))
}

/// The code points that Unicode gives the `White_Space` property, which is
/// what `char::is_whitespace` tests.
pub open spec fn is_white_space(c: char) -> bool {
    let u = c as u32;
    ||| (0x09 <= u && u <= 0x0D)
    ||| u == 0x20
    ||| u == 0x85
    ||| u == 0xA0
    ||| u == 0x1680
    ||| (0x2000 <= u && u <= 0x200A)
    ||| u == 0x2028
    ||| u == 0x2029
    ||| u == 0x202F
    ||| u == 0x205F
    ||| u == 0x3000
}

/// The non-empty runs of non-whitespace characters, as `str::split_whitespace`.
pub open spec fn words_seq(s: Seq<char>) -> Seq<Seq<char>> {
    split_by(s, |c: char| is_white_space(c)).filter(|w: Seq<char>| w.len() > 0)
}

/// The characters of a string slice, in order.
pub fn chars_of(s: &str) -> (v: Vec<char>)
    ensures
        v@ == s@,
{
    let mut v: Vec<char> = Vec::new();
    for c in it: s.chars()
        invariant
            v@ == it.seq().take(it.index() as int),
    {
        v.push(c);
    }
    v
}

/// Whether two string slices hold the same characters.
pub fn str_eq(a: &str, b: &str) -> (r: bool)
    ensures
        r == (a@ == b@),
{
    let x = chars_of(a);
    let y = chars_of(b);
    if x.len() != y.len() {
        return false;
    }
    let mut i: usize = 0;
    while i < x.len()
        invariant
            x@ == a@,
            y@ == b@,
            x.len() == y.len(),
            0 <= i <= x.len(),
            forall|j: int| 0 <= j < i ==> x@[j] == y@[j],
        decreases x.len() - i,
    {
        if x[i] != y[i] {
            return false;
        }
        i += 1;
    }
    assert(x@ =~= y@);
    true
}

/// A copy of the strings.
pub fn clone_strings(s: &[String]) -> (r: Vec<String>)
    ensures
        r@ == s@,
{
    let mut r: Vec<String> = Vec::new();
    let mut i: usize = 0;
    while i < s.len()
        invariant
            0 <= i <= s.len(),
            r@ == s@.take(i as int),
        decreases s.len() - i,
    {
        r.push(s[i].clone());
        assert(s@.take(i + 1) =~= s@.take(i as int).push(s@[i as int]));
        i += 1;
    }
    assert(s@.take(s.len() as int) =~= s@);
    r
}

/// A string holding the given characters.
pub fn string_of(v: &Vec<char>) -> (s: String)
    ensures
        s@ == v@,
{
    let mut s = String::new();
    let mut i: usize = 0;
    while i < v.len()
        invariant
            0 <= i <= v.len(),
            s@ == v@.take(i as int),
        decreases v.len() - i,
    {
        s.push(v[i]);
        assert(v@.take(i + 1) =~= v@.take(i as int).push(v@[i as int]));
        i += 1;
    }
    assert(v@.take(v.len() as int) =~= v@);
    s
}

proof fn lemma_split_by_step(s: Seq<char>, i: int, is_sep: spec_fn(char) -> bool)
    requires
        0 <= i < s.len(),
    ensures
        s.take(i + 1).drop_last() == s.take(i),
        s.take(i + 1).last() == s[i],
        split_by(s.take(i + 1), is_sep) == ({
            let p = split_by(s.take(i), is_sep);
            if is_sep(s[i]) {
                p.push(Seq::<char>::empty())
            } else {
                p.update(p.len() - 1, p.last().push(s[i]))
            }
        }),
{
    assert(s.take(i + 1).drop_last() =~= s.take(i));
}

/// Splits `s` at every character `sep`, as `str::split(sep)` does.
pub fn split_char(s: &str, sep: char) -> (r: Vec<String>)
    ensures
        strings_view(r@) == split_seq(s@, sep),
{
    let chars = chars_of(s);
    let ghost is_sep = is_char(sep);
    let mut parts: Vec<String> = Vec::new();
    let mut cur = String::new();
    let mut i: usize = 0;
    assert(s@.take(0) =~= Seq::<char>::empty());
    assert(strings_view(parts@).push(cur@) =~= split_by(s@.take(0), is_sep));
    while i < chars.len()
        invariant
            chars@ == s@,
            0 <= i <= chars.len(),
            is_sep == is_char(sep),
            strings_view(parts@).push(cur@) == split_by(s@.take(i as int), is_sep),
        decreases chars.len() - i,
    {
        let c = chars[i];
        proof {
            lemma_split_by_step(s@, i as int, is_sep);
            lemma_split_by_nonempty(s@.take(i as int), is_sep);
        }
        let ghost before = strings_view(parts@).push(cur@);
        if c == sep {
            parts.push(cur);
            cur = String::new();
            assert(strings_view(parts@).push(cur@) =~= before.push(Seq::<char>::empty()));
        } else {
            cur.push(c);
            assert(strings_view(parts@).push(cur@) =~= before.update(
                before.len() - 1,
                before.last().push(c),
            ));
        }
        i += 1;
    }
    parts.push(cur);
    assert(s@.take(chars.len() as int) =~= s@);
    assert(strings_view(parts@) =~= split_seq(s@, sep));
    parts
}

/// The non-empty runs of non-whitespace characters of `s`, as
/// `str::split_whitespace` gives them.
pub fn split_whitespace(s: &str) -> (r: Vec<String>)
    ensures
        strings_view(r@) == words_seq(s@),
{
    let chars = chars_of(s);
    let ghost is_sep = |c: char| is_white_space(c);
    let ghost nonempty = |w: Seq<char>| w.len() > 0;
    let mut parts: Vec<String> = Vec::new();
    let mut cur = String::new();
    let mut cur_nonempty = false;
    let mut i: usize = 0;
    assert(s@.take(0) =~= Seq::<char>::empty());
    assert(split_by(s@.take(0), is_sep).drop_last() =~= Seq::<Seq<char>>::empty());
    while i < chars.len()
        invariant
            chars@ == s@,
            0 <= i <= chars.len(),
            is_sep == (|c: char| is_white_space(c)),
            nonempty == (|w: Seq<char>| w.len() > 0),
            split_by(s@.take(i as int), is_sep).len() >= 1,
            split_by(s@.take(i as int), is_sep).last() == cur@,
            cur_nonempty == (cur@.len() > 0),
            strings_view(parts@) == split_by(s@.take(i as int), is_sep).drop_last().filter(nonempty),
        decreases chars.len() - i,
    {
        let c = chars[i];
        let ghost p = split_by(s@.take(i as int), is_sep);
        proof {
            lemma_split_by_step(s@, i as int, is_sep);
            assert(p =~= p.drop_last().push(p.last()));
            p.drop_last().lemma_filter_push(p.last(), nonempty);
        }
        if is_whitespace(c) {
            if cur_nonempty {
                let ghost before = strings_view(parts@);
                parts.push(cur);
                assert(strings_view(parts@) =~= before.push(p.last()));
            }
            cur = String::new();
            cur_nonempty = false;
            assert(split_by(s@.take(i + 1), is_sep).drop_last() =~= p);
        } else {
            cur.push(c);
            cur_nonempty = true;
            assert(split_by(s@.take(i + 1), is_sep).drop_last() =~= p.drop_last());
        }
        i += 1;
    }
    let ghost p = split_by(s@.take(i as int), is_sep);
    proof {
        assert(p =~= p.drop_last().push(p.last()));
        p.drop_last().lemma_filter_push(p.last(), nonempty);
    }
    if cur_nonempty {
        let ghost before = strings_view(parts@);
        parts.push(cur);
        assert(strings_view(parts@) =~= before.push(p.last()));
    }
    assert(s@.take(chars.len() as int) =~= s@);
    parts
}

/// Joins the strings with `sep` between neighbours, as `[String]::join`.
pub fn join_strings(parts: &Vec<String>, sep: &str) -> (r: String)
    ensures
        r@ == join_seq(strings_view(parts@), sep@),
{
    let mut r = String::new();
    let mut i: usize = 0;
    while i < parts.len()
        invariant
            0 <= i <= parts.len(),
            r@ == join_seq(strings_view(parts@).take(i as int), sep@),
        decreases parts.len() - i,
    {
        let ghost pv = strings_view(parts@);
        assert(pv.take(i + 1).drop_last() =~= pv.take(i as int));
        if i > 0 {
            r.append(sep);
        }
        r.append(parts[i].as_str());
        proof {
            if i == 0 {
                assert(pv.take(1) =~= seq![pv[0]]);
            }
        }
        i += 1;
    }
    assert(strings_view(parts@).take(parts.len() as int) =~= strings_view(parts@));
    r
}

/// The decimal representation of `n`.
pub fn u64_to_decimal(n: u64) -> (r: String)
    ensures
        r@ == decimal(n as nat),
    decreases n,
{
    if n < 10 {
        let mut s = String::new();
        s.push(((n as u8) + 48u8) as char);
        s
    } else {
        let mut s = u64_to_decimal(n / 10);
        s.push((((n % 10) as u8) + 48u8) as char);
        s
    }
}

/// Whether `s` holds two consecutive slashes.
pub fn contains_double_slash(s: &str) -> (r: bool)
    ensures
        r == has_double_slash(s@),
{
    let v = chars_of(s);
    let mut i: usize = 0;
    while i < v.len()
        invariant
            v@ == s@,
            0 <= i <= v.len(),
            forall|j: int| 0 <= j < i && j + 1 < v@.len() ==> !(#[trigger] v@[j] == '/' && v@[j + 1] == '/'),
        decreases v.len() - i,
    {
        if i + 1 < v.len() && v[i] == '/' && v[i + 1] == '/' {
            return true;
        }
        i += 1;
    }
    false
}

/// The lines of `s`, as `str::lines` yields them.
pub fn lines_of(s: &str) -> (r: Vec<String>)
    ensures
        strings_view(r@) == lines_seq(s@),
{
    let pieces = split_char(s, '\n');
    proof {
        lemma_split_by_nonempty(s@, is_char('\n'));
    }
    let ghost p = split_seq(s@, '\n');
    let n = pieces.len();
    let mut out: Vec<String> = Vec::new();
    let mut i: usize = 0;
    while i + 1 < n
        invariant
            n == pieces.len(),
            n >= 1,
            strings_view(pieces@) == p,
            0 <= i < n,
            strings_view(out@) == p.take(i as int).map_values(|l: Seq<char>| strip_cr(l)),
        decreases n - i,
    {
        let line = &pieces[i];
        let cs = chars_of(line.as_str());
        let stripped = if cs.len() > 0 && cs[cs.len() - 1] == '\r' {
            let mut t = cs.clone();
            t.pop();
            assert(t@ =~= cs@.drop_last());
            string_of(&t)
        } else {
            string_of(&cs)
        };
        assert(p[i as int] == pieces@[i as int]@);
        assert(cs@ == p[i as int]);
        assert(stripped@ == strip_cr(p[i as int]));
        let ghost before = strings_view(out@);
        out.push(stripped);
        assert(strings_view(out@) =~= before.push(strip_cr(p[i as int])));
        assert(p.take(i + 1) =~= p.take(i as int).push(p[i as int]));
        assert(strings_view(out@) =~= p.take(i + 1).map_values(|l: Seq<char>| strip_cr(l)));
        i += 1;
    }
    assert(p.take(i as int) =~= p.drop_last());
    let last = &pieces[n - 1];
    assert(p.last() == last@);
    if !last.as_str().is_empty() {
        out.push(last.clone());
        assert(strings_view(out@) =~= p.drop_last().map_values(|l: Seq<char>| strip_cr(l)).push(
            p.last(),
        ));
    }
    out
}

/// ASCII letters of `s` in lower case; other characters unchanged.
pub fn to_lower_ascii(s: &str) -> (r: String)
    ensures
        r@ == lower_seq(s@),
{
    let v = chars_of(s);
    let mut r = String::new();
    let mut i: usize = 0;
    while i < v.len()
        invariant
            v@ == s@,
            0 <= i <= v.len(),
            r@ == lower_seq(s@.take(i as int)),
        decreases v.len() - i,
    {
        let c = v[i];
        let l = if 'A' <= c && c <= 'Z' {
            assert(lower_char(c) == ((c as u32) + 32) as char);
            char_from_ascii((c as u8) + 32)
        } else {
            c
        };
        r.push(l);
        assert(lower_seq(s@.take(i + 1)) =~= lower_seq(s@.take(i as int)).push(lower_char(c)));
        i += 1;
    }
    assert(s@.take(v.len() as int) =~= s@);
    r
}

fn char_from_ascii(b: u8) -> (c: char)
    requires
        b < 128,
    ensures
        c as u32 == b as u32,
{
    b as char
}

/// Whether `c` is Unicode white space, as `char::is_whitespace` tests.
pub fn is_whitespace(c: char) -> (r: bool)
    ensures
        r == is_white_space(c),
{
    let u = c as u32;
    (0x09 <= u && u <= 0x0D) || u == 0x20 || u == 0x85 || u == 0xA0 || u == 0x1680 || (0x2000 <= u
        && u <= 0x200A) || u == 0x2028 || u == 0x2029 || u == 0x202F || u == 0x205F || u == 0x3000
}

} // verus!
