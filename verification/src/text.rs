//! Character-level text handling: the pieces of `str` behaviour that the
//! client's logic relies on (whitespace, trimming, line splitting, word
//! splitting), stated over `Seq<char>` and implemented over `Vec<char>`.
use vstd::prelude::*;

verus! {

/// Unicode `White_Space`, the set that `char::is_whitespace` tests for.
pub open spec fn is_ws(c: char) -> bool {
    ||| c == '\t' || c == '\n' || c == '\u{0B}' || c == '\u{0C}' || c == '\r' || c == ' '
    ||| c == '\u{85}' || c == '\u{A0}' || c == '\u{1680}'
    ||| ('\u{2000}' <= c && c <= '\u{200A}')
    ||| c == '\u{2028}' || c == '\u{2029}' || c == '\u{202F}' || c == '\u{205F}' || c == '\u{3000}'
}

/// `s` with its leading whitespace removed.
pub open spec fn trim_start(s: Seq<char>) -> Seq<char>
    decreases s.len(),
{
    if s.len() > 0 && is_ws(s[0]) {
        trim_start(s.drop_first())
    } else {
        s
    }
}

/// `s` with its trailing whitespace removed.
pub open spec fn trim_end(s: Seq<char>) -> Seq<char>
    decreases s.len(),
{
    if s.len() > 0 && is_ws(s.last()) {
        trim_end(s.drop_last())
    } else {
        s
    }
}

/// `s` with whitespace removed at both ends.
pub open spec fn trim(s: Seq<char>) -> Seq<char> {
    trim_end(trim_start(s))
}

/// A line as `str::lines` yields it: a trailing `'\r'` before the newline is dropped.
pub open spec fn strip_cr(l: Seq<char>) -> Seq<char> {
    if l.len() > 0 && l.last() == '\r' {
        l.drop_last()
    } else {
        l
    }
}

/// Number of characters before the first `'\n'` (or the whole length).
pub open spec fn line_len(s: Seq<char>) -> nat
    decreases s.len(),
{
    if s.len() == 0 || s[0] == '\n' {
        0
    } else {
        1 + line_len(s.drop_first())
    }
}

/// The lines of `s`, split at `'\n'` (with `"\r\n"` also a line ending). The
/// final line ending is optional, and the empty text has no lines.
pub open spec fn lines(s: Seq<char>) -> Seq<Seq<char>>
    decreases s.len(),
{
    if s.len() == 0 {
        Seq::empty()
    } else if line_len(s) < s.len() {
        seq![strip_cr(s.take(line_len(s) as int))] + lines(s.skip(line_len(s) + 1int))
    } else {
        seq![s]
    }
}

/// The whitespace-separated words of `s`: its maximal runs of
/// non-whitespace characters, in order.
pub open spec fn words(s: Seq<char>) -> Seq<Seq<char>>
    decreases s.len(),
{
    if s.len() == 0 {
        Seq::empty()
    } else if is_ws(s[0]) {
        words(s.drop_first())
    } else if s.len() > 1 && !is_ws(s[1]) && words(s.drop_first()).len() > 0 {
        seq![seq![s[0]] + words(s.drop_first())[0]] + words(s.drop_first()).drop_first()
    } else {
        seq![seq![s[0]]] + words(s.drop_first())
    }
}

/// The items of `parts` joined with `sep` between neighbours.
pub open spec fn join(parts: Seq<Seq<char>>, sep: Seq<char>) -> Seq<char>
    decreases parts.len(),
{
    if parts.len() == 0 {
        Seq::empty()
    } else if parts.len() == 1 {
        parts[0]
    } else {
        parts[0] + sep + join(parts.drop_first(), sep)
    }
}

/// The first word of `s`, or the empty text when it has none.
pub open spec fn first_word(s: Seq<char>) -> Seq<char> {
    if words(s).len() > 0 {
        words(s)[0]
    } else {
        Seq::empty()
    }
}

/// The first line of `s`, or `s` itself when it has no lines.
pub open spec fn first_line(s: Seq<char>) -> Seq<char> {
    if lines(s).len() > 0 {
        lines(s)[0]
    } else {
        s
    }
}

/// The views of a list of character vectors.
pub open spec fn views(v: Seq<Vec<char>>) -> Seq<Seq<char>> {
    v.map_values(|x: Vec<char>| x@)
}

// ---------------------------------------------------------------- lemmas

proof fn lemma_trim_start_skip(s: Seq<char>, i: int)
    requires
        0 <= i <= s.len(),
        forall|j: int| 0 <= j < i ==> is_ws(#[trigger] s[j]),
    ensures
        trim_start(s.skip(i)) == trim_start(s),
    decreases i,
{
    if i > 0 {
        lemma_trim_start_skip(s, i - 1);
        assert(s.skip(i - 1).drop_first() =~= s.skip(i));
        assert(s.skip(i - 1)[0] == s[i - 1]);
    } else {
        assert(s.skip(0) =~= s);
    }
}

proof fn lemma_trim_end_take(s: Seq<char>, i: int)
    requires
        0 <= i <= s.len(),
        forall|j: int| i <= j < s.len() ==> is_ws(#[trigger] s[j]),
    ensures
        trim_end(s.take(i)) == trim_end(s),
    decreases s.len() - i,
{
    if i < s.len() {
        lemma_trim_end_take(s, i + 1);
        assert(s.take(i + 1).drop_last() =~= s.take(i));
        assert(s.take(i + 1).last() == s[i]);
    } else {
        assert(s.take(i) =~= s);
    }
}

pub proof fn lemma_trim_start_is_suffix(s: Seq<char>)
    ensures
        trim_start(s).len() <= s.len(),
        trim_start(s) =~= s.skip(s.len() - trim_start(s).len()),
        trim_start(s).len() > 0 ==> !is_ws(trim_start(s)[0]),
        forall|j: int| 0 <= j < s.len() - trim_start(s).len() ==> is_ws(#[trigger] s[j]),
    decreases s.len(),
{
    if s.len() > 0 && is_ws(s[0]) {
        lemma_trim_start_is_suffix(s.drop_first());
        assert forall|j: int| 0 <= j < s.len() - trim_start(s).len() implies is_ws(#[trigger] s[j]) by {
            if j > 0 {
                assert(s.drop_first()[j - 1] == s[j]);
            }
        }
    }
}

pub proof fn lemma_trim_end_is_prefix(s: Seq<char>)
    ensures
        trim_end(s).len() <= s.len(),
        trim_end(s) =~= s.take(trim_end(s).len() as int),
        trim_end(s).len() > 0 ==> !is_ws(trim_end(s).last()),
        forall|j: int| trim_end(s).len() <= j < s.len() ==> is_ws(#[trigger] s[j]),
    decreases s.len(),
{
    if s.len() > 0 && is_ws(s.last()) {
        lemma_trim_end_is_prefix(s.drop_last());
        assert forall|j: int| trim_end(s).len() <= j < s.len() implies is_ws(#[trigger] s[j]) by {
            if j < s.len() - 1 {
                assert(s.drop_last()[j] == s[j]);
            }
        }
    }
}

proof fn lemma_line_len(s: Seq<char>, k: int)
    requires
        0 <= k <= s.len(),
        forall|j: int| 0 <= j < k ==> #[trigger] s[j] != '\n',
        k == s.len() || s[k] == '\n',
    ensures
        line_len(s) == k,
    decreases k,
{
    if k > 0 {
        lemma_line_len(s.drop_first(), k - 1);
    }
}

proof fn lemma_words_ws_prefix(s: Seq<char>, i: int)
    requires
        0 <= i <= s.len(),
        forall|j: int| 0 <= j < i ==> is_ws(#[trigger] s[j]),
    ensures
        words(s.skip(i)) == words(s),
    decreases i,
{
    if i > 0 {
        lemma_words_ws_prefix(s, i - 1);
        assert(s.skip(i - 1).drop_first() =~= s.skip(i));
        assert(s.skip(i - 1)[0] == s[i - 1]);
    } else {
        assert(s.skip(0) =~= s);
    }
}

/// A text that starts with a non-whitespace run of length `k` (followed by
/// whitespace or its end) has that run as its first word.
proof fn lemma_words_first(s: Seq<char>, k: int)
    requires
        0 < k <= s.len(),
        forall|j: int| 0 <= j < k ==> !is_ws(#[trigger] s[j]),
        k == s.len() || is_ws(s[k]),
    ensures
        words(s).len() > 0,
        words(s)[0] == s.take(k),
        words(s).drop_first() == words(s.skip(k)),
    decreases k,
{
    if k == 1 {
        assert(s.drop_first() =~= s.skip(1));
        assert(seq![s[0]] =~= s.take(1));
    } else {
        lemma_words_first(s.drop_first(), k - 1);
        assert(s.drop_first()[0] == s[1]);
        assert(s.drop_first().skip(k - 1) =~= s.skip(k));
        assert(seq![s[0]] + s.drop_first().take(k - 1) =~= s.take(k));
    }
}

// ------------------------------------------------------------- exec code

/// `char::is_whitespace`.
pub fn is_whitespace(c: char) -> (b: bool)
    ensures
        b == is_ws(c),
{
    c == '\t' || c == '\n' || c == '\u{0B}' || c == '\u{0C}' || c == '\r' || c == ' ' || c
        == '\u{85}' || c == '\u{A0}' || c == '\u{1680}' || ('\u{2000}' <= c && c <= '\u{200A}')
        || c == '\u{2028}' || c == '\u{2029}' || c == '\u{202F}' || c == '\u{205F}' || c
        == '\u{3000}'
}

/// The characters of `s`, in order.
pub fn chars_of(s: &str) -> (v: Vec<char>)
    ensures
        v@ == s@,
{
    let mut v: Vec<char> = Vec::new();
    for c in it: s.chars()
        invariant
            it.seq() == s@,
            v@ == s@.take(it.index() as int),
    {
        v.push(c);
    }
    v
}

/// `String::push`: the character is appended.
#[verifier::external_body]
pub(crate) fn push_char(s: &mut String, c: char)
    ensures
        final(s)@ == old(s)@.push(c),
{
    s.push(c);
}

/// The string made of the characters of `v`.
pub fn string_of(v: &Vec<char>) -> (s: String)
    ensures
        s@ == v@,
{
    let mut s = String::new();
    let mut i: usize = 0;
    while i < v.len()
        invariant
            i <= v.len(),
            s@ == v@.take(i as int),
        decreases v.len() - i,
    {
        push_char(&mut s, v[i]);
        i = i + 1;
    }
    s
}

/// A copy of `v[a..b]`.
pub fn sub_vec(v: &Vec<char>, a: usize, b: usize) -> (out: Vec<char>)
    requires
        a <= b <= v.len(),
    ensures
        out@ == v@.subrange(a as int, b as int),
{
    let mut out: Vec<char> = Vec::new();
    let mut i = a;
    while i < b
        invariant
            a <= i <= b <= v.len(),
            out@ == v@.subrange(a as int, i as int),
        decreases b - i,
    {
        out.push(v[i]);
        i = i + 1;
    }
    out
}

/// Append the characters of `s`.
pub fn push_str(v: &mut Vec<char>, s: &str)
    ensures
        final(v)@ == old(v)@ + s@,
{
    let w = chars_of(s);
    push_all(v, &w);
}

/// `v` followed by the characters of `w`.
pub fn push_all(v: &mut Vec<char>, w: &Vec<char>)
    ensures
        final(v)@ == old(v)@ + w@,
{
    let mut i: usize = 0;
    while i < w.len()
        invariant
            i <= w.len(),
            v@ == old(v)@ + w@.take(i as int),
        decreases w.len() - i,
    {
        v.push(w[i]);
        i = i + 1;
    }
    assert(w@.take(w.len() as int) =~= w@);
}

/// Whether two character sequences are equal.
pub fn chars_eq(a: &Vec<char>, b: &Vec<char>) -> (r: bool)
    ensures
        r == (a@ == b@),
{
    if a.len() != b.len() {
        return false;
    }
    let mut i: usize = 0;
    while i < a.len()
        invariant
            i <= a.len() == b.len(),
            forall|j: int| 0 <= j < i ==> a@[j] == b@[j],
        decreases a.len() - i,
    {
        if a[i] != b[i] {
            return false;
        }
        i = i + 1;
    }
    assert(a@ =~= b@);
    true
}

/// The index of the first non-whitespace character of `v[from..]`, or the length.
fn skip_ws(v: &Vec<char>, from: usize) -> (k: usize)
    requires
        from <= v.len(),
    ensures
        from <= k <= v.len(),
        forall|j: int| from <= j < k ==> is_ws(#[trigger] v@[j]),
        k == v.len() || !is_ws(v@[k as int]),
{
    let mut k = from;
    while k < v.len() && is_whitespace(v[k])
        invariant
            from <= k <= v.len(),
            forall|j: int| from <= j < k ==> is_ws(#[trigger] v@[j]),
        decreases v.len() - k,
    {
        k = k + 1;
    }
    k
}

/// The index just past the non-whitespace run starting at `from`.
fn skip_word(v: &Vec<char>, from: usize) -> (k: usize)
    requires
        from <= v.len(),
    ensures
        from <= k <= v.len(),
        forall|j: int| from <= j < k ==> !is_ws(#[trigger] v@[j]),
        k == v.len() || is_ws(v@[k as int]),
{
    let mut k = from;
    while k < v.len() && !is_whitespace(v[k])
        invariant
            from <= k <= v.len(),
            forall|j: int| from <= j < k ==> !is_ws(#[trigger] v@[j]),
        decreases v.len() - k,
    {
        k = k + 1;
    }
    k
}

/// The bounds `(a, b)` of `trim(v)` inside `v`.
pub fn trim_bounds(v: &Vec<char>) -> (r: (usize, usize))
    ensures
        r.0 <= r.1 <= v.len(),
        v@.subrange(r.0 as int, r.1 as int) == trim(v@),
        v@.skip(r.0 as int) == trim_start(v@),
{
    let a = skip_ws(v, 0);
    proof {
        lemma_trim_start_skip(v@, a as int);
        let t = v@.skip(a as int);
        if t.len() > 0 {
            assert(t[0] == v@[a as int]);
        }
    }
    let mut b = v.len();
    while b > a && is_whitespace(v[b - 1])
        invariant
            a <= b <= v.len(),
            forall|j: int| b <= j < v.len() ==> is_ws(#[trigger] v@[j]),
        decreases b,
    {
        b = b - 1;
    }
    proof {
        let t = v@.skip(a as int);
        assert(trim_start(v@) == t);
        assert forall|j: int| b - a <= j < t.len() implies is_ws(#[trigger] t[j]) by {
            assert(t[j] == v@[a + j]);
        }
        lemma_trim_end_take(t, b - a);
        let u = t.take(b - a);
        assert(u =~= v@.subrange(a as int, b as int));
        if u.len() > 0 {
            assert(u.last() == v@[b - 1]);
        }
    }
    (a, b)
}

/// A copy of `trim(v)`.
pub fn trimmed(v: &Vec<char>) -> (out: Vec<char>)
    ensures
        out@ == trim(v@),
{
    let (a, b) = trim_bounds(v);
    sub_vec(v, a, b)
}

/// A copy of `trim_end(v)`.
pub fn trimmed_end(v: &Vec<char>) -> (out: Vec<char>)
    ensures
        out@ == trim_end(v@),
{
    let mut b = v.len();
    while b > 0 && is_whitespace(v[b - 1])
        invariant
            b <= v.len(),
            forall|j: int| b <= j < v.len() ==> is_ws(#[trigger] v@[j]),
        decreases b,
    {
        b = b - 1;
    }
    proof {
        lemma_trim_end_take(v@, b as int);
        let u = v@.take(b as int);
        if u.len() > 0 {
            assert(u.last() == v@[b - 1]);
        }
        assert(u =~= v@.subrange(0, b as int));
    }
    sub_vec(v, 0, b)
}

/// The lines of `v`, as `str::lines` gives them.
pub fn lines_of(v: &Vec<char>) -> (out: Vec<Vec<char>>)
    ensures
        views(out@) == lines(v@),
{
    let mut out: Vec<Vec<char>> = Vec::new();
    let mut i: usize = 0;
    assert(v@.skip(0) =~= v@);
    assert(views(out@) =~= Seq::<Seq<char>>::empty());
    while i < v.len()
        invariant
            i <= v.len(),
            views(out@) + lines(v@.skip(i as int)) == lines(v@),
        decreases v.len() - i,
    {
        let ghost rest = v@.skip(i as int);
        let mut k = i;
        while k < v.len() && v[k] != '\n'
            invariant
                i <= k <= v.len(),
                forall|j: int| i <= j < k ==> #[trigger] v@[j] != '\n',
            decreases v.len() - k,
        {
            k = k + 1;
        }
        proof {
            assert forall|j: int| 0 <= j < k - i implies #[trigger] rest[j] != '\n' by {
                assert(rest[j] == v@[i + j]);
            }
            if k < v.len() {
                assert(rest[k - i] == v@[k as int]);
            }
            lemma_line_len(rest, k - i);
        }
        let mut line = sub_vec(v, i, k);
        if k < v.len() {
            if line.len() > 0 && line[line.len() - 1] == '\r' {
                line.pop();
            }
            proof {
                assert(rest.take(k - i) =~= v@.subrange(i as int, k as int));
                assert(rest.skip(k - i + 1) =~= v@.skip(k + 1));
                assert(views(out@.push(line)) =~= views(out@).push(line@));
            }
            out.push(line);
            i = k + 1;
        } else {
            proof {
                assert(rest =~= v@.subrange(i as int, k as int));
                assert(v@.skip(k as int) =~= Seq::<char>::empty());
                assert(views(out@.push(line)) =~= views(out@).push(line@));
            }
            out.push(line);
            i = k;
        }
    }
    proof {
        assert(v@.skip(i as int) =~= Seq::<char>::empty());
        assert(views(out@) + Seq::<Seq<char>>::empty() =~= views(out@));
    }
    out
}

/// The first word of `v` (empty when `v` holds only whitespace).
pub fn first_word_of(v: &Vec<char>) -> (out: Vec<char>)
    ensures
        out@ == first_word(v@),
{
    let a = skip_ws(v, 0);
    let b = skip_word(v, a);
    proof {
        lemma_words_ws_prefix(v@, a as int);
        let t = v@.skip(a as int);
        if a < v.len() {
            assert(t[0] == v@[a as int]);
            assert forall|j: int| 0 <= j < b - a implies !is_ws(#[trigger] t[j]) by {
                assert(t[j] == v@[a + j]);
            }
            if b < v.len() {
                assert(t[b - a] == v@[b as int]);
            }
            lemma_words_first(t, b - a);
            assert(t.take(b - a) =~= v@.subrange(a as int, b as int));
        } else {
            assert(t =~= Seq::<char>::empty());
            assert(v@.subrange(a as int, b as int) =~= Seq::<char>::empty());
        }
    }
    sub_vec(v, a, b)
}

/// `" " + join(ws, " ")` when `ws` is non-empty, and nothing otherwise.
spec fn tail_join(ws: Seq<Seq<char>>) -> Seq<char> {
    if ws.len() > 0 {
        seq![' '] + join(ws, seq![' '])
    } else {
        Seq::empty()
    }
}

proof fn lemma_join_cons(ws: Seq<Seq<char>>)
    requires
        ws.len() > 0,
    ensures
        join(ws, seq![' ']) == ws[0] + tail_join(ws.drop_first()),
{
    if ws.len() == 1 {
        assert(ws[0] + Seq::<char>::empty() =~= ws[0]);
    } else {
        assert(ws[0] + seq![' '] + join(ws.drop_first(), seq![' ']) =~= ws[0] + (seq![' ']
            + join(ws.drop_first(), seq![' '])));
    }
}

/// The words of `v` joined by single spaces.
pub fn collapse_ws(v: &Vec<char>) -> (out: Vec<char>)
    ensures
        out@ == join(words(v@), seq![' ']),
{
    let mut out: Vec<char> = Vec::new();
    let mut i: usize = 0;
    let mut first = true;
    assert(v@.skip(0) =~= v@);
    while i < v.len()
        invariant
            i <= v.len(),
            first ==> out@.len() == 0 && join(words(v@), seq![' ']) == join(
                words(v@.skip(i as int)),
                seq![' '],
            ),
            !first ==> join(words(v@), seq![' ']) == out@ + tail_join(words(v@.skip(i as int))),
        decreases v.len() - i,
    {
        let a = skip_ws(v, i);
        let ghost t = v@.skip(i as int);
        proof {
            assert forall|j: int| 0 <= j < a - i implies is_ws(#[trigger] t[j]) by {
                assert(t[j] == v@[i + j]);
            }
            lemma_words_ws_prefix(t, a - i);
            assert(t.skip(a - i) =~= v@.skip(a as int));
        }
        if a == v.len() {
            proof {
                assert(v@.skip(a as int) =~= Seq::<char>::empty());
                assert(words(v@.skip(a as int)) =~= Seq::<Seq<char>>::empty());
                assert(out@ + Seq::<char>::empty() =~= out@);
            }
            i = a;
        } else {
        let b = skip_word(v, a);
        proof {
            let u = v@.skip(a as int);
            assert forall|j: int| 0 <= j < b - a implies !is_ws(#[trigger] u[j]) by {
                assert(u[j] == v@[a + j]);
            }
            if b < v.len() {
                assert(u[b - a] == v@[b as int]);
            }
            lemma_words_first(u, b - a);
            assert(u.take(b - a) =~= v@.subrange(a as int, b as int));
            assert(u.skip(b - a) =~= v@.skip(b as int));
            lemma_join_cons(words(u));
        }
        let ghost old_out = out@;
        if !first {
            out.push(' ');
        }
        let w = sub_vec(v, a, b);
        push_all(&mut out, &w);
        proof {
            if !first {
                assert(old_out + tail_join(words(u_of(v@, a as int))) =~= out@ + tail_join(
                    words(v@.skip(b as int)),
                ));
            }
        }
        first = false;
        i = b;
        }
    }
    proof {
        if first {
            assert(v@.skip(i as int) =~= Seq::<char>::empty());
        } else {
            assert(v@.skip(i as int) =~= Seq::<char>::empty());
            assert(out@ + Seq::<char>::empty() =~= out@);
        }
    }
    out
}

spec fn u_of(v: Seq<char>, a: int) -> Seq<char> {
    v.skip(a)
}

/// The decimal digit for `d < 10`.
pub open spec fn digit(d: nat) -> char {
    if d == 0 { '0' } else if d == 1 { '1' } else if d == 2 { '2' } else if d == 3 { '3' }
    else if d == 4 { '4' } else if d == 5 { '5' } else if d == 6 { '6' } else if d == 7 { '7' }
    else if d == 8 { '8' } else { '9' }
}

/// The decimal representation of `n`.
pub open spec fn decimal(n: nat) -> Seq<char>
    decreases n,
{
    if n < 10 {
        seq![digit(n)]
    } else {
        decimal(n / 10).push(digit(n % 10))
    }
}

/// The characters of `n` written in decimal.
pub fn decimal_of(n: usize) -> (v: Vec<char>)
    ensures
        v@ == decimal(n as nat),
    decreases n,
{
    let d = n % 10;
    let c = if d == 0 { '0' } else if d == 1 { '1' } else if d == 2 { '2' } else if d == 3 { '3' }
    else if d == 4 { '4' } else if d == 5 { '5' } else if d == 6 { '6' } else if d == 7 { '7' }
    else if d == 8 { '8' } else { '9' };
    if n < 10 {
        vec![c]
    } else {
        let mut v = decimal_of(n / 10);
        v.push(c);
        v
    }
}

/// Bytes taken by `c` in UTF-8.
pub open spec fn utf8_width(c: char) -> nat {
    if (c as u32) < 0x80 {
        1
    } else if (c as u32) < 0x800 {
        2
    } else if (c as u32) < 0x10000 {
        3
    } else {
        4
    }
}

/// Bytes taken by `s` in UTF-8 (the `len` of the corresponding `str`).
pub open spec fn utf8_len(s: Seq<char>) -> nat
    decreases s.len(),
{
    if s.len() == 0 {
        0
    } else {
        utf8_len(s.drop_last()) + utf8_width(s.last())
    }
}

proof fn lemma_utf8_len_grows(s: Seq<char>, i: int)
    requires
        0 <= i <= s.len(),
    ensures
        utf8_len(s.take(i)) <= utf8_len(s),
    decreases s.len() - i,
{
    if i < s.len() {
        lemma_utf8_len_grows(s, i + 1);
        assert(s.take(i + 1).drop_last() =~= s.take(i));
    } else {
        assert(s.take(i) =~= s);
    }
}

/// Whether `v` takes more than `limit` bytes in UTF-8.
pub fn utf8_len_exceeds(v: &Vec<char>, limit: usize) -> (r: bool)
    ensures
        r == (utf8_len(v@) > limit),
{
    let mut total: usize = 0;
    let mut i: usize = 0;
    while i < v.len()
        invariant
            i <= v.len(),
            total == utf8_len(v@.take(i as int)),
            total <= limit,
        decreases v.len() - i,
    {
        let c = v[i];
        let w: usize = if (c as u32) < 0x80 { 1 } else if (c as u32) < 0x800 { 2 } else if (c as u32)
            < 0x10000 { 3 } else { 4 };
        assert(v@.take(i + 1).drop_last() =~= v@.take(i as int));
        if w > limit - total {
            proof {
                lemma_utf8_len_grows(v@, i + 1);
            }
            return true;
        }
        total = total + w;
        i = i + 1;
    }
    assert(v@.take(v.len() as int) =~= v@);
    false
}

} // verus!
