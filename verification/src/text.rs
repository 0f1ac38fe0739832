//! Character-level text handling: whitespace, trimming, searching,
//! decimal numbers and conversions between `String`, `&str` and `Vec<char>`.

use vstd::prelude::*;
use vstd::utf8::*;

verus! {

/// `char::is_whitespace`: the Unicode `White_Space` property.
pub open spec fn is_ws(c: char) -> bool {
    let u = c as u32;
    ||| 0x09 <= u <= 0x0d
    ||| u == 0x20
    ||| u == 0x85
    ||| u == 0xa0
    ||| u == 0x1680
    ||| 0x2000 <= u <= 0x200a
    ||| u == 0x2028
    ||| u == 0x2029
    ||| u == 0x202f
    ||| u == 0x205f
    ||| u == 0x3000
}

pub fn is_whitespace(c: char) -> (r: bool)
    ensures
        r == is_ws(c),
{
    let u = c as u32;
    (0x09 <= u && u <= 0x0d) || u == 0x20 || u == 0x85 || u == 0xa0 || u == 0x1680 || (0x2000
        <= u && u <= 0x200a) || u == 0x2028 || u == 0x2029 || u == 0x202f || u == 0x205f || u
        == 0x3000
}

/// Index of the first character at or after `from` that is not whitespace
/// (or the length, when there is none).
pub open spec fn first_non_ws(s: Seq<char>, from: int) -> int
    decreases s.len() - from,
{
    if 0 <= from < s.len() && is_ws(s[from]) {
        first_non_ws(s, from + 1)
    } else {
        from
    }
}

/// One past the last character before `to` that is not whitespace (or 0).
pub open spec fn end_non_ws(s: Seq<char>, to: int) -> int
    decreases to,
{
    if 0 < to <= s.len() && is_ws(s[to - 1]) {
        end_non_ws(s, to - 1)
    } else {
        to
    }
}

/// `str::trim_start`.
pub open spec fn trim_start(s: Seq<char>) -> Seq<char> {
    s.subrange(first_non_ws(s, 0), s.len() as int)
}

/// `str::trim_end`.
pub open spec fn trim_end(s: Seq<char>) -> Seq<char> {
    s.subrange(0, end_non_ws(s, s.len() as int))
}

/// `str::trim`.
pub open spec fn trim(s: Seq<char>) -> Seq<char> {
    trim_end(trim_start(s))
}

pub proof fn lemma_first_non_ws_bounds(s: Seq<char>, from: int)
    requires
        0 <= from <= s.len(),
    ensures
        from <= first_non_ws(s, from) <= s.len(),
        first_non_ws(s, from) < s.len() ==> !is_ws(s[first_non_ws(s, from)]),
        forall|k: int| from <= k < first_non_ws(s, from) ==> is_ws(#[trigger] s[k]),
    decreases s.len() - from,
{
    if from < s.len() && is_ws(s[from]) {
        lemma_first_non_ws_bounds(s, from + 1);
    }
}

pub proof fn lemma_end_non_ws_bounds(s: Seq<char>, to: int)
    requires
        0 <= to <= s.len(),
    ensures
        0 <= end_non_ws(s, to) <= to,
        end_non_ws(s, to) > 0 ==> !is_ws(s[end_non_ws(s, to) - 1]),
        forall|k: int| end_non_ws(s, to) <= k < to ==> is_ws(#[trigger] s[k]),
    decreases to,
{
    if 0 < to && is_ws(s[to - 1]) {
        lemma_end_non_ws_bounds(s, to - 1);
    }
}

/// A sequence that neither starts nor ends with whitespace is its own trim.
pub proof fn lemma_trim_unchanged(s: Seq<char>)
    requires
        s.len() > 0 ==> !is_ws(s[0]) && !is_ws(s[s.len() - 1]),
    ensures
        trim(s) == s,
{
    assert(first_non_ws(s, 0) == 0);
    assert(trim_start(s) =~= s);
    assert(end_non_ws(s, s.len() as int) == s.len());
    assert(trim_end(s) =~= s);
}

/// Copies `v[from..to]`.
pub fn sub_chars(v: &Vec<char>, from: usize, to: usize) -> (r: Vec<char>)
    requires
        from <= to <= v.len(),
    ensures
        r@ == v@.subrange(from as int, to as int),
{
    let mut r: Vec<char> = Vec::new();
    let mut i = from;
    while i < to
        invariant
            from <= i <= to <= v.len(),
            r@ == v@.subrange(from as int, i as int),
        decreases to - i,
    {
        r.push(v[i]);
        i = i + 1;
        assert(r@ =~= v@.subrange(from as int, i as int));
    }
    r
}

/// `str::trim_start` on a character vector.
pub fn trim_start_chars(v: &Vec<char>) -> (r: Vec<char>)
    ensures
        r@ == trim_start(v@),
{
    let mut i: usize = 0;
    while i < v.len() && is_whitespace(v[i])
        invariant
            i <= v.len(),
            first_non_ws(v@, i as int) == first_non_ws(v@, 0),
        decreases v.len() - i,
    {
        i = i + 1;
    }
    sub_chars(v, i, v.len())
}

/// `str::trim_end` on a character vector.
pub fn trim_end_chars(v: &Vec<char>) -> (r: Vec<char>)
    ensures
        r@ == trim_end(v@),
{
    let mut j: usize = v.len();
    while j > 0 && is_whitespace(v[j - 1])
        invariant
            j <= v.len(),
            end_non_ws(v@, j as int) == end_non_ws(v@, v@.len() as int),
        decreases j,
    {
        j = j - 1;
    }
    sub_chars(v, 0, j)
}

/// `str::trim` on a character vector.
pub fn trim_chars(v: &Vec<char>) -> (r: Vec<char>)
    ensures
        r@ == trim(v@),
{
    let a = trim_start_chars(v);
    trim_end_chars(&a)
}

/// The characters of a string slice.
pub fn chars_of(s: &str) -> (v: Vec<char>)
    ensures
        v@ == s@,
{
    let n = s.unicode_len();
    let mut v: Vec<char> = Vec::new();
    let mut i: usize = 0;
    while i < n
        invariant
            n == s@.len(),
            i <= n,
            v@ == s@.subrange(0, i as int),
        decreases n - i,
    {
        v.push(s.get_char(i));
        i = i + 1;
        assert(v@ =~= s@.subrange(0, i as int));
    }
    assert(v@ =~= s@);
    v
}

/// `String::push`: appends one character.
#[verifier::external_body]
pub(crate) fn push_char(s: &mut String, c: char)
    ensures
        final(s)@ == old(s)@.push(c),
{
    s.push(c);
}

/// A string holding exactly the given characters.
pub fn string_from_chars(v: &Vec<char>) -> (s: String)
    ensures
        s@ == v@,
{
    let mut s = String::new();
    let mut i: usize = 0;
    while i < v.len()
        invariant
            i <= v.len(),
            s@ == v@.subrange(0, i as int),
        decreases v.len() - i,
    {
        push_char(&mut s, v[i]);
        i = i + 1;
        assert(s@ =~= v@.subrange(0, i as int));
    }
    assert(s@ =~= v@);
    s
}

#[verifier::external_type_specification]
#[verifier::external_body]
pub struct ExFromUtf8Error(std::string::FromUtf8Error);

/// `String::from_utf8`: succeeds exactly on valid UTF-8, and then holds the
/// characters that the bytes encode.
#[verifier::external_body]
pub(crate) fn string_from_utf8(bytes: Vec<u8>) -> (r: Result<String, std::string::FromUtf8Error>)
    ensures
        r is Ok <==> valid_utf8(bytes@),
        r matches Ok(s) ==> s@ == decode_utf8(bytes@),
{
    String::from_utf8(bytes)
}

/// Copies a byte slice into a vector.
pub fn bytes_to_vec(b: &[u8]) -> (v: Vec<u8>)
    ensures
        v@ == b@,
{
    let mut v: Vec<u8> = Vec::new();
    let mut i: usize = 0;
    while i < b.len()
        invariant
            i <= b.len(),
            v@ == b@.subrange(0, i as int),
        decreases b.len() - i,
    {
        v.push(b[i]);
        i = i + 1;
        assert(v@ =~= b@.subrange(0, i as int));
    }
    assert(v@ =~= b@);
    v
}

/// Index of the first occurrence of `c` in `s`.
pub open spec fn first_index_of(s: Seq<char>, c: char) -> Option<int> {
    if exists|i: int| 0 <= i < s.len() && s[i] == c {
        Some(choose|i: int| 0 <= i < s.len() && s[i] == c && forall|j: int| 0 <= j < i ==> s[j] != c)
    } else {
        None
    }
}

pub fn find_char(v: &Vec<char>, c: char) -> (r: Option<usize>)
    ensures
        match r {
            Some(i) => i < v.len() && v@[i as int] == c && forall|j: int| 0 <= j < i ==> v@[j] != c,
            None => forall|j: int| 0 <= j < v.len() ==> v@[j] != c,
        },
        r matches Some(i) ==> first_index_of(v@, c) == Some(i as int),
        r is None ==> first_index_of(v@, c) is None,
{
    let mut i: usize = 0;
    while i < v.len()
        invariant
            i <= v.len(),
            forall|j: int| 0 <= j < i ==> v@[j] != c,
        decreases v.len() - i,
    {
        if v[i] == c {
            proof {
                let k = choose|k: int| 0 <= k < v@.len() && v@[k] == c && forall|j: int| 0 <= j < k ==> v@[j] != c;
                assert(0 <= i < v@.len() && v@[i as int] == c && forall|j: int| 0 <= j < i ==> v@[j] != c);
                if k < i {
                } else if k > i {
                    assert(v@[i as int] != c);
                }
            }
            return Some(i);
        }
        i = i + 1;
    }
    None
}

/// Whether `c` is an ASCII digit `0`..`9`.
pub open spec fn is_digit(c: char) -> bool {
    '0' <= c <= '9'
}

pub open spec fn digit_value(c: char) -> nat {
    (c as u32 - '0' as u32) as nat
}

/// The value of a sequence of decimal digits, most significant first.
pub open spec fn digits_value(d: Seq<char>) -> nat
    decreases d.len(),
{
    if d.len() == 0 {
        0
    } else {
        digits_value(d.drop_last()) * 10 + digit_value(d.last())
    }
}

pub open spec fn all_digits(d: Seq<char>) -> bool {
    forall|i: int| 0 <= i < d.len() ==> is_digit(#[trigger] d[i])
}

/// `str::parse::<usize>()`: an optional `+`, then one or more ASCII digits,
/// whose value fits in `usize`.
pub open spec fn parse_usize(s: Seq<char>) -> Option<nat> {
    let d = if s.len() > 0 && s[0] == '+' {
        s.drop_first()
    } else {
        s
    };
    if d.len() > 0 && all_digits(d) && digits_value(d) <= usize::MAX {
        Some(digits_value(d))
    } else {
        None
    }
}

proof fn lemma_digits_value_prefix(d: Seq<char>, i: int)
    requires
        0 <= i < d.len(),
    ensures
        digits_value(d.subrange(0, i + 1)) == digits_value(d.subrange(0, i)) * 10 + digit_value(
            d[i],
        ),
{
    assert(d.subrange(0, i + 1).drop_last() =~= d.subrange(0, i));
}

proof fn lemma_digits_value_grows(d: Seq<char>, i: int)
    requires
        0 <= i <= d.len(),
        all_digits(d),
    ensures
        digits_value(d.subrange(0, i)) <= digits_value(d),
    decreases d.len() - i,
{
    if i < d.len() {
        lemma_digits_value_grows(d, i + 1);
        lemma_digits_value_prefix(d, i);
    } else {
        assert(d.subrange(0, i) =~= d);
    }
}

/// Parses a decimal `usize` as `str::parse` does.
pub fn parse_usize_chars(s: &Vec<char>) -> (r: Option<usize>)
    ensures
        match r {
            Some(n) => parse_usize(s@) == Some(n as nat),
            None => parse_usize(s@) is None,
        },
{
    let start: usize = if s.len() > 0 && s[0] == '+' {
        1
    } else {
        0
    };
    let ghost d = if s@.len() > 0 && s@[0] == '+' {
        s@.drop_first()
    } else {
        s@
    };
    assert(d =~= s@.subrange(start as int, s@.len() as int));
    assert(parse_usize(s@) == (if d.len() > 0 && all_digits(d) && digits_value(d) <= usize::MAX {
        Some(digits_value(d))
    } else {
        None::<nat>
    }));
    if start >= s.len() {
        return None;
    }
    let mut value: usize = 0;
    let mut i = start;
    while i < s.len()
        invariant
            start <= i <= s.len(),
            d == s@.subrange(start as int, s@.len() as int),
            parse_usize(s@) == (if d.len() > 0 && all_digits(d) && digits_value(d) <= usize::MAX {
                Some(digits_value(d))
            } else {
                None::<nat>
            }),
            all_digits(s@.subrange(start as int, i as int)),
            value as nat == digits_value(s@.subrange(start as int, i as int)),
        decreases s.len() - i,
    {
        let c = s[i];
        if !('0' <= c && c <= '9') {
            assert(d[i - start] == c);
            assert(!is_digit(d[i - start]));
            assert(!all_digits(d));
            return None;
        }
        let dv = (c as u32 - '0' as u32) as usize;
        proof {
            lemma_digits_value_prefix(d, i - start);
            assert(d.subrange(0, i - start) =~= s@.subrange(start as int, i as int));
            assert(d.subrange(0, i - start + 1) =~= s@.subrange(start as int, i + 1));
        }
        if value > (usize::MAX - dv) / 10 {
            proof {
                assert(all_digits(s@.subrange(start as int, i + 1)));
                assert(value * 10 + dv > usize::MAX) by (nonlinear_arith)
                    requires
                        value > (usize::MAX - dv) / 10,
                        dv <= 9,
                ;
                if all_digits(d) {
                    lemma_digits_value_grows(d, i - start + 1);
                    assert(digits_value(d) > usize::MAX);
                }
                assert(parse_usize(s@) is None);
            }
            return None;
        }
        assert(value * 10 + dv <= usize::MAX) by (nonlinear_arith)
            requires
                value <= (usize::MAX - dv) / 10,
                dv <= 9,
        ;
        value = value * 10 + dv;
        i = i + 1;
        assert(all_digits(s@.subrange(start as int, i as int)));
    }
    assert(s@.subrange(start as int, i as int) =~= d);
    Some(value)
}

/// Index of the first `\n` at or after `pos` (or the length).
pub open spec fn newline_at_or_after(s: Seq<char>, pos: int) -> int
    decreases s.len() - pos,
{
    if pos < 0 || pos >= s.len() {
        s.len() as int
    } else if s[pos] == '\n' {
        pos
    } else {
        newline_at_or_after(s, pos + 1)
    }
}

/// A line that was ended by `\n`, without a `\r` just before it.
pub open spec fn strip_cr(l: Seq<char>) -> Seq<char> {
    if l.len() > 0 && l.last() == '\r' {
        l.drop_last()
    } else {
        l
    }
}

/// The lines of `s[pos..]`, as `str::lines` yields them.
pub open spec fn lines_from(s: Seq<char>, pos: int) -> Seq<Seq<char>>
    decreases s.len() - pos,
{
    if pos < 0 || pos >= s.len() {
        seq![]
    } else {
        let j = newline_at_or_after(s, pos);
        if j >= s.len() || j < pos {
            seq![s.subrange(pos, s.len() as int)]
        } else {
            seq![strip_cr(s.subrange(pos, j))] + lines_from(s, j + 1)
        }
    }
}

/// `str::lines`: split at `\n`, dropping a `\r` before it; a last line
/// without `\n` is kept as it is; a final `\n` starts no extra line.
pub open spec fn lines(s: Seq<char>) -> Seq<Seq<char>> {
    lines_from(s, 0)
}

/// Index of the first whitespace character at or after `pos` (or the length).
pub open spec fn ws_at_or_after(s: Seq<char>, pos: int) -> int
    decreases s.len() - pos,
{
    if pos < 0 || pos >= s.len() {
        s.len() as int
    } else if is_ws(s[pos]) {
        pos
    } else {
        ws_at_or_after(s, pos + 1)
    }
}

/// The whitespace-separated words of `s[pos..]`.
pub open spec fn words_from(s: Seq<char>, pos: int) -> Seq<Seq<char>>
    decreases s.len() - pos,
{
    if pos < 0 {
        seq![]
    } else {
        let a = first_non_ws(s, pos);
        if a >= s.len() || a < pos {
            seq![]
        } else {
            let b = ws_at_or_after(s, a);
            if b <= a || b > s.len() {
                seq![]
            } else {
                seq![s.subrange(a, b)] + words_from(s, b)
            }
        }
    }
}

/// `str::split_whitespace`.
pub open spec fn words(s: Seq<char>) -> Seq<Seq<char>> {
    words_from(s, 0)
}

/// `[T]::join(sep)` on texts.
pub open spec fn join(parts: Seq<Seq<char>>, sep: Seq<char>) -> Seq<char>
    decreases parts.len(),
{
    if parts.len() == 0 {
        seq![]
    } else if parts.len() == 1 {
        parts[0]
    } else {
        join(parts.drop_last(), sep) + sep + parts.last()
    }
}

pub open spec fn views_of(v: Seq<Vec<char>>) -> Seq<Seq<char>> {
    v.map_values(|x: Vec<char>| x@)
}

proof fn lemma_newline_bounds(s: Seq<char>, pos: int)
    requires
        0 <= pos <= s.len(),
    ensures
        pos <= newline_at_or_after(s, pos) <= s.len(),
        newline_at_or_after(s, pos) < s.len() ==> s[newline_at_or_after(s, pos)] == '\n',
    decreases s.len() - pos,
{
    if pos < s.len() && s[pos] != '\n' {
        lemma_newline_bounds(s, pos + 1);
    }
}

proof fn lemma_ws_bounds(s: Seq<char>, pos: int)
    requires
        0 <= pos <= s.len(),
    ensures
        pos <= ws_at_or_after(s, pos) <= s.len(),
    decreases s.len() - pos,
{
    if pos < s.len() && !is_ws(s[pos]) {
        lemma_ws_bounds(s, pos + 1);
    }
}

/// `str::lines` on a character vector.
pub fn split_lines(s: &Vec<char>) -> (r: Vec<Vec<char>>)
    ensures
        views_of(r@) == lines(s@),
{
    let mut r: Vec<Vec<char>> = Vec::new();
    let mut pos: usize = 0;
    while pos < s.len()
        invariant
            pos <= s@.len(),
            lines(s@) == views_of(r@) + lines_from(s@, pos as int),
        decreases s.len() - pos,
    {
        let mut j = pos;
        while j < s.len() && s[j] != '\n'
            invariant
                pos <= j <= s@.len(),
                newline_at_or_after(s@, j as int) == newline_at_or_after(s@, pos as int),
            decreases s.len() - j,
        {
            j = j + 1;
        }
        let ghost before = r@;
        if j >= s.len() {
            r.push(sub_chars(s, pos, s.len()));
            assert(lines_from(s@, s@.len() as int) =~= Seq::<Seq<char>>::empty());
            assert(views_of(r@) =~= views_of(before) + lines_from(s@, pos as int));
            pos = s.len();
        } else {
            let mut line = sub_chars(s, pos, j);
            if line.len() > 0 && line[line.len() - 1] == '\r' {
                line.pop();
                assert(line@ =~= strip_cr(s@.subrange(pos as int, j as int)));
            }
            r.push(line);
            assert(views_of(r@) =~= views_of(before) + seq![
                strip_cr(s@.subrange(pos as int, j as int)),
            ]);
            assert(lines_from(s@, pos as int) == seq![strip_cr(s@.subrange(pos as int, j as int))]
                + lines_from(s@, j + 1));
            pos = j + 1;
        }
    }
    assert(lines_from(s@, pos as int) =~= Seq::<Seq<char>>::empty());
    assert(views_of(r@) =~= lines(s@));
    r
}

/// `str::split_whitespace` on a character vector.
pub fn split_words(s: &Vec<char>) -> (r: Vec<Vec<char>>)
    ensures
        views_of(r@) == words(s@),
{
    let mut r: Vec<Vec<char>> = Vec::new();
    let mut pos: usize = 0;
    loop
        invariant
            pos <= s@.len(),
            words(s@) == views_of(r@) + words_from(s@, pos as int),
        decreases s.len() - pos,
    {
        let mut a = pos;
        while a < s.len() && is_whitespace(s[a])
            invariant
                pos <= a <= s@.len(),
                first_non_ws(s@, a as int) == first_non_ws(s@, pos as int),
            decreases s.len() - a,
        {
            a = a + 1;
        }
        if a >= s.len() {
            assert(words_from(s@, pos as int) =~= Seq::<Seq<char>>::empty());
            assert(views_of(r@) =~= words(s@));
            return r;
        }
        let mut b = a;
        while b < s.len() && !is_whitespace(s[b])
            invariant
                a <= b <= s@.len(),
                ws_at_or_after(s@, b as int) == ws_at_or_after(s@, a as int),
            decreases s.len() - b,
        {
            b = b + 1;
        }
        assert(first_non_ws(s@, a as int) == a);
        assert(ws_at_or_after(s@, a as int) == a || !is_ws(s@[a as int]));
        let ghost before = r@;
        r.push(sub_chars(s, a, b));
        assert(views_of(r@) =~= views_of(before) + seq![s@.subrange(a as int, b as int)]);
        assert(words_from(s@, pos as int) == seq![s@.subrange(a as int, b as int)] + words_from(
            s@,
            b as int,
        ));
        pos = b;
    }
}

/// Joins `parts[from..]` with `sep` between them.
pub fn join_chars(parts: &Vec<Vec<char>>, from: usize, sep: char) -> (r: Vec<char>)
    requires
        from <= parts.len(),
    ensures
        r@ == join(views_of(parts@.subrange(from as int, parts@.len() as int)), seq![sep]),
{
    let mut r: Vec<char> = Vec::new();
    let mut i = from;
    while i < parts.len()
        invariant
            from <= i <= parts@.len(),
            r@ == join(views_of(parts@.subrange(from as int, i as int)), seq![sep]),
        decreases parts.len() - i,
    {
        let ghost prev = views_of(parts@.subrange(from as int, i as int));
        let ghost next = views_of(parts@.subrange(from as int, i + 1));
        assert(next.drop_last() =~= prev);
        assert(next.last() == parts@[i as int]@);
        if i > from {
            r.push(sep);
        }
        let part = &parts[i];
        let mut k: usize = 0;
        let ghost base = r@;
        while k < part.len()
            invariant
                k <= part@.len(),
                r@ == base + part@.subrange(0, k as int),
            decreases part.len() - k,
        {
            r.push(part[k]);
            k = k + 1;
            assert(r@ =~= base + part@.subrange(0, k as int));
        }
        assert(part@.subrange(0, k as int) =~= part@);
        if i > from {
            assert(r@ =~= join(prev, seq![sep]) + seq![sep] + parts@[i as int]@);
        } else {
            assert(next.len() == 1);
            assert(r@ =~= next[0]);
        }
        i = i + 1;
    }
    r
}

/// Index of the first `sep` at or after `pos` (or the length).
pub open spec fn sep_at_or_after(s: Seq<char>, pos: int, sep: char) -> int
    decreases s.len() - pos,
{
    if pos < 0 || pos >= s.len() {
        s.len() as int
    } else if s[pos] == sep {
        pos
    } else {
        sep_at_or_after(s, pos + 1, sep)
    }
}

/// The pieces of `s[pos..]` between the separators.
pub open spec fn pieces_from(s: Seq<char>, pos: int, sep: char) -> Seq<Seq<char>>
    decreases s.len() + 1 - pos,
{
    if pos < 0 || pos > s.len() {
        seq![]
    } else {
        let j = sep_at_or_after(s, pos, sep);
        if j >= s.len() || j < pos {
            seq![s.subrange(pos, s.len() as int)]
        } else {
            seq![s.subrange(pos, j)] + pieces_from(s, j + 1, sep)
        }
    }
}

/// `str::split(sep)`: always at least one piece.
pub open spec fn pieces(s: Seq<char>, sep: char) -> Seq<Seq<char>> {
    pieces_from(s, 0, sep)
}

/// `str::split(sep)` on a character vector.
pub fn split_on(s: &Vec<char>, sep: char) -> (r: Vec<Vec<char>>)
    ensures
        views_of(r@) == pieces(s@, sep),
{
    let mut r: Vec<Vec<char>> = Vec::new();
    let mut pos: usize = 0;
    loop
        invariant
            pos <= s@.len(),
            pieces(s@, sep) == views_of(r@) + pieces_from(s@, pos as int, sep),
        decreases s.len() + 1 - pos,
    {
        let mut j = pos;
        while j < s.len() && s[j] != sep
            invariant
                pos <= j <= s@.len(),
                sep_at_or_after(s@, j as int, sep) == sep_at_or_after(s@, pos as int, sep),
            decreases s.len() - j,
        {
            j = j + 1;
        }
        let ghost before = r@;
        r.push(sub_chars(s, pos, j));
        assert(views_of(r@) =~= views_of(before) + seq![s@.subrange(pos as int, j as int)]);
        if j >= s.len() {
            assert(views_of(r@) =~= pieces(s@, sep));
            return r;
        }
        assert(pieces_from(s@, pos as int, sep) == seq![s@.subrange(pos as int, j as int)]
            + pieces_from(s@, j + 1, sep));
        pos = j + 1;
    }
}

pub open spec fn has_prefix(s: Seq<char>, p: Seq<char>) -> bool {
    p.len() <= s.len() && s.subrange(0, p.len() as int) == p
}

pub open spec fn after_prefix(s: Seq<char>, p: Seq<char>) -> Seq<char> {
    s.subrange(p.len() as int, s.len() as int)
}

/// `line.strip_prefix(prefix)`.
pub fn strip_prefix(line: &Vec<char>, prefix: &str) -> (r: Option<String>)
    ensures
        has_prefix(line@, prefix@) ==> (r matches Some(s) && s@ == after_prefix(line@, prefix@)),
        !has_prefix(line@, prefix@) ==> r is None,
{
    let p = chars_of(prefix);
    if p.len() > line.len() {
        return None;
    }
    let mut i: usize = 0;
    while i < p.len()
        invariant
            p@ == prefix@,
            p@.len() <= line@.len(),
            i <= p@.len(),
            forall|k: int| 0 <= k < i ==> line@[k] == p@[k],
        decreases p.len() - i,
    {
        if line[i] != p[i] {
            assert(line@.subrange(0, p@.len() as int)[i as int] != p@[i as int]);
            return None;
        }
        i = i + 1;
    }
    assert(line@.subrange(0, p@.len() as int) =~= p@);
    Some(string_from_chars(&sub_chars(line, p.len(), line.len())))
}

} // verus!
