//! Splitting a command line into whitespace-separated words.
use vstd::prelude::*;
use vstd::string::*;

verus! {

/// The characters with the Unicode `White_Space` property.
pub open spec fn is_space(c: char) -> bool {
    let u = c as u32;
    (0x9 <= u && u <= 0xd) || u == 0x20 || u == 0x85 || u == 0xa0 || u == 0x1680 || (0x2000 <= u
        && u <= 0x200a) || u == 0x2028 || u == 0x2029 || u == 0x202f || u == 0x205f || u == 0x3000
}

/// Length of the run of non-space characters at the start of `s`.
pub open spec fn word_len(s: Seq<char>) -> nat
    decreases s.len(),
{
    if s.len() == 0 || is_space(s[0]) {
        0
    } else {
        1 + word_len(s.drop_first())
    }
}

/// The maximal runs of non-space characters of `s`, in order.
pub open spec fn words(s: Seq<char>) -> Seq<Seq<char>>
    decreases s.len(),
{
    if s.len() == 0 {
        seq![]
    } else if is_space(s[0]) {
        words(s.drop_first())
    } else {
        let n = word_len(s);
        if 0 < n <= s.len() {
            seq![s.take(n as int)] + words(s.skip(n as int))
        } else {
            seq![]
        }
    }
}

/// The words of `ws` with one space between neighbours.
pub open spec fn join_words(ws: Seq<Seq<char>>) -> Seq<char>
    decreases ws.len(),
{
    if ws.len() == 0 {
        seq![]
    } else if ws.len() == 1 {
        ws[0]
    } else {
        join_words(ws.drop_last()) + seq![' '] + ws.last()
    }
}

/// The pieces of `s` that a list of `(start, end)` character spans cut out.
pub open spec fn span_words(s: Seq<char>, spans: Seq<(usize, usize)>) -> Seq<Seq<char>> {
    spans.map_values(|p: (usize, usize)| s.subrange(p.0 as int, p.1 as int))
}

pub open spec fn spans_in(s: Seq<char>, spans: Seq<(usize, usize)>) -> bool {
    forall|k: int| 0 <= k < spans.len() ==> #[trigger] spans[k].0 <= spans[k].1 <= s.len()
}

proof fn lemma_word_len(s: Seq<char>, k: int)
    requires
        0 <= k <= s.len(),
        forall|j: int| 0 <= j < k ==> !is_space(s[j]),
        k == s.len() || is_space(s[k]),
    ensures
        word_len(s) == k,
    decreases k,
{
    if k > 0 {
        lemma_word_len(s.drop_first(), k - 1);
    }
}

pub fn is_space_char(c: char) -> (r: bool)
    ensures
        r == is_space(c),
{
    let u = c as u32;
    (0x9 <= u && u <= 0xd) || u == 0x20 || u == 0x85 || u == 0xa0 || u == 0x1680 || (0x2000 <= u
        && u <= 0x200a) || u == 0x2028 || u == 0x2029 || u == 0x202f || u == 0x205f || u == 0x3000
}

/// The character spans of the words of `line`.
pub fn split_words(line: &str) -> (r: Vec<(usize, usize)>)
    ensures
        spans_in(line@, r@),
        span_words(line@, r@) == words(line@),
{
    let n = line.unicode_len();
    let mut i: usize = 0;
    let mut spans: Vec<(usize, usize)> = Vec::new();
    proof {
        assert(line@.skip(0) =~= line@);
    }
    while i < n
        invariant
            n == line@.len(),
            i <= n,
            spans_in(line@, spans@),
            span_words(line@, spans@) + words(line@.skip(i as int)) == words(line@),
        decreases n - i,
    {
        let c = line.get_char(i);
        if is_space_char(c) {
            proof {
                assert(line@.skip(i as int).drop_first() =~= line@.skip(i + 1));
            }
            i = i + 1;
        } else {
            let start = i;
            i = i + 1;
            while i < n && !is_space_char(line.get_char(i))
                invariant
                    n == line@.len(),
                    start < i <= n,
                    forall|j: int| start <= j < i ==> !is_space(line@[j]),
                decreases n - i,
            {
                i = i + 1;
            }
            proof {
                let rest = line@.skip(start as int);
                lemma_word_len(rest, i - start);
                assert(rest.skip(i - start) =~= line@.skip(i as int));
                assert(rest.take(i - start) =~= line@.subrange(start as int, i as int));
            }
            let ghost before = spans@;
            spans.push((start, i));
            proof {
                assert(span_words(line@, spans@) =~= span_words(line@, before) + seq![
                    line@.subrange(start as int, i as int),
                ]);
            }
        }
    }
    proof {
        assert(line@.skip(n as int) =~= Seq::<char>::empty());
        assert(span_words(line@, spans@) + seq![] =~= span_words(line@, spans@));
    }
    spans
}

/// Decimal value of a run of ASCII digits.
pub open spec fn digits_value(d: Seq<char>) -> nat
    decreases d.len(),
{
    if d.len() == 0 {
        0
    } else {
        digits_value(d.drop_last()) * 10 + ((d.last() as u32 - '0' as u32) as nat)
    }
}

pub open spec fn is_digit(c: char) -> bool {
    '0' as u32 <= c as u32 <= '9' as u32
}

/// `t` without one leading `+`, if it has one.
pub open spec fn unsigned_digits(t: Seq<char>) -> Seq<char> {
    if t.len() > 0 && t[0] == '+' {
        t.drop_first()
    } else {
        t
    }
}

/// An unsigned 64-bit decimal: an optional `+`, then one or more ASCII digits
/// whose value fits in 64 bits.
pub open spec fn decimal_u64(t: Seq<char>) -> Option<u64> {
    let d = unsigned_digits(t);
    if d.len() > 0 && (forall|i: int| 0 <= i < d.len() ==> is_digit(#[trigger] d[i]))
        && digits_value(d) <= u64::MAX {
        Some(digits_value(d) as u64)
    } else {
        None
    }
}

/// Reads the characters `start..end` of `line` as an unsigned decimal.
pub fn parse_decimal(line: &str, start: usize, end: usize) -> (r: Option<u64>)
    requires
        start <= end <= line@.len(),
    ensures
        r == decimal_u64(line@.subrange(start as int, end as int)),
{
    let ghost t = line@.subrange(start as int, end as int);
    let mut i = start;
    if i < end && line.get_char(i) == '+' {
        i = i + 1;
    }
    let ghost d = unsigned_digits(t);
    proof {
        assert(d =~= line@.subrange(i as int, end as int));
    }
    if i == end {
        return None;
    }
    let first = i;
    let mut acc: u64 = 0;
    let mut overflow = false;
    proof {
        assert(d.take(0) =~= Seq::<char>::empty());
    }
    while i < end
        invariant
            first <= i <= end <= line@.len(),
            d =~= line@.subrange(first as int, end as int),
            d == unsigned_digits(t),
            t == line@.subrange(start as int, end as int),
            forall|j: int| first <= j < i ==> is_digit(#[trigger] line@[j]),
            !overflow ==> acc == digits_value(d.take(i - first)),
            overflow ==> digits_value(d.take(i - first)) > u64::MAX,
        decreases end - i,
    {
        let c = line.get_char(i);
        if !('0' as u32 <= c as u32 && c as u32 <= '9' as u32) {
            proof {
                assert(d[i - first] == c);
                assert(!is_digit(d[i - first]));
            }
            return None;
        }
        let digit = (c as u32 - '0' as u32) as u64;
        proof {
            assert(d.take(i + 1 - first).drop_last() =~= d.take(i - first));
            assert(d.take(i + 1 - first).last() == c);
        }
        if !overflow {
            if acc > (u64::MAX - digit) / 10 {
                overflow = true;
                proof {
                    assert(acc * 10 + digit > u64::MAX) by (nonlinear_arith)
                        requires acc > (u64::MAX - digit) / 10, digit <= 9;
                }
            } else {
                proof {
                    assert(acc * 10 + digit <= u64::MAX) by (nonlinear_arith)
                        requires acc <= (u64::MAX - digit) / 10, digit <= 9;
                }
                acc = acc * 10 + digit;
            }
        } else {
            proof {
                assert(digits_value(d.take(i + 1 - first)) >= digits_value(d.take(i - first)) * 10)
                    by (nonlinear_arith)
                    requires digits_value(d.take(i + 1 - first)) == digits_value(d.take(i - first)) * 10 + ((c as u32 - '0' as u32) as nat);
            }
        }
        i = i + 1;
    }
    proof {
        assert(d.take(end - first) =~= d);
    }
    if overflow {
        None
    } else {
        Some(acc)
    }
}

/// The characters `start..end` of `line` as a new string.
pub fn span_string(line: &str, start: usize, end: usize) -> (r: String)
    requires
        start <= end <= line@.len(),
    ensures
        r@ == line@.subrange(start as int, end as int),
{
    line.substring_char(start, end).to_owned()
}

/// The words `from..` of `line`, joined with single spaces.
pub fn join_spans(line: &str, spans: &Vec<(usize, usize)>, from: usize) -> (r: String)
    requires
        spans_in(line@, spans@),
        from <= spans.len(),
    ensures
        r@ == join_words(span_words(line@, spans@).skip(from as int)),
{
    let ghost ws = span_words(line@, spans@);
    let mut out = String::new();
    let mut i = from;
    proof {
        assert(ws.subrange(from as int, i as int) =~= Seq::<Seq<char>>::empty());
    }
    while i < spans.len()
        invariant
            from <= i <= spans.len(),
            spans_in(line@, spans@),
            ws == span_words(line@, spans@),
            out@ == join_words(ws.subrange(from as int, i as int)),
        decreases spans.len() - i,
    {
        let (a, b) = spans[i];
        let piece = line.substring_char(a, b);
        let ghost prev = out@;
        proof {
            reveal_strlit(" ");
            assert(ws[i as int] == piece@);
        }
        if i > from {
            out.append(" ");
        }
        out.append(piece);
        proof {
            let sub = ws.subrange(from as int, i + 1);
            assert(sub.drop_last() =~= ws.subrange(from as int, i as int));
            assert(sub.last() == piece@);
            if i > from {
                assert(out@ =~= prev + seq![' '] + piece@);
            } else {
                assert(out@ =~= piece@);
            }
        }
        i = i + 1;
    }
    proof {
        assert(ws.subrange(from as int, spans.len() as int) =~= ws.skip(from as int));
    }
    out
}

pub open spec fn opt_chars(o: Option<String>) -> Option<Seq<char>> {
    match o {
        Some(s) => Some(s@),
        None => None,
    }
}

/// Whether `needle` occurs in `hay` as a contiguous run.
pub open spec fn has_substring(hay: Seq<char>, needle: Seq<char>) -> bool {
    exists|i: int|
        0 <= i && i + needle.len() <= hay.len() && #[trigger] hay.subrange(i, i + needle.len())
            == needle
}

/// Whether `needle` occurs in `hay` starting at character `at`.
fn occurs_at(hay: &str, needle: &str, at: usize) -> (r: bool)
    requires
        at + needle@.len() <= hay@.len(),
    ensures
        r == (hay@.subrange(at as int, at + needle@.len()) == needle@),
{
    let n = needle.unicode_len();
    let h = hay.unicode_len();
    let ghost w = hay@.subrange(at as int, at + n);
    let mut i: usize = 0;
    while i < n
        invariant
            n == needle@.len(),
            h == hay@.len(),
            at + n <= hay@.len(),
            w == hay@.subrange(at as int, at + n),
            i <= n,
            forall|j: int| 0 <= j < i ==> w[j] == needle@[j],
        decreases n - i,
    {
        if hay.get_char(at + i) != needle.get_char(i) {
            proof {
                assert(w[i as int] != needle@[i as int]);
            }
            return false;
        }
        i = i + 1;
    }
    proof {
        assert(w =~= needle@);
    }
    true
}

/// Whether two strings hold the same characters.
pub fn same_text(a: &str, b: &str) -> (r: bool)
    ensures
        r == (a@ == b@),
{
    let n = a.unicode_len();
    if n != b.unicode_len() {
        return false;
    }
    proof {
        assert(a@.subrange(0, n as int) =~= a@);
    }
    occurs_at(a, b, 0)
}

/// Whether `needle` occurs anywhere in `hay`; the empty string occurs in every string.
pub fn contains_text(hay: &str, needle: &str) -> (r: bool)
    ensures
        r == has_substring(hay@, needle@),
{
    let h = hay.unicode_len();
    let n = needle.unicode_len();
    if n > h {
        return false;
    }
    let last = h - n;
    let mut i: usize = 0;
    loop
        invariant
            h == hay@.len(),
            n == needle@.len(),
            last == h - n,
            i <= last,
            forall|j: int| 0 <= j < i ==> #[trigger] hay@.subrange(j, j + n) != needle@,
        decreases last - i,
    {
        if occurs_at(hay, needle, i) {
            return true;
        }
        if i == last {
            return false;
        }
        i = i + 1;
    }
}

} // verus!
