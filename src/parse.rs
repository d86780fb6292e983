use vstd::prelude::*;

verus! {

/// `s` cut at every `sep`; `n` separators give `n + 1` pieces.
pub open spec fn split(s: Seq<char>, sep: char) -> Seq<Seq<char>>
    decreases s.len(),
{
    if s.len() == 0 {
        seq![Seq::<char>::empty()]
    } else {
        let p = split(s.drop_last(), sep);
        if s.last() == sep {
            p.push(Seq::<char>::empty())
        } else {
            p.update(p.len() - 1, p.last().push(s.last()))
        }
    }
}

pub proof fn lemma_split_nonempty(s: Seq<char>, sep: char)
    ensures
        split(s, sep).len() >= 1,
    decreases s.len(),
{
    if s.len() > 0 {
        lemma_split_nonempty(s.drop_last(), sep);
    }
}

/// A line without its trailing carriage return, if it has one.
pub open spec fn strip_cr(line: Seq<char>) -> Seq<char> {
    if line.len() > 0 && line.last() == '\r' {
        line.drop_last()
    } else {
        line
    }
}

/// The lines of a text: pieces between line feeds, each without a trailing
/// carriage return; a final line feed ends the last line rather than
/// starting an empty one.
pub open spec fn lines(text: Seq<char>) -> Seq<Seq<char>> {
    let p = split(text, '\n');
    let q = if p.last().len() == 0 {
        p.drop_last()
    } else {
        p
    };
    q.map_values(|l: Seq<char>| strip_cr(l))
}

pub open spec fn is_digit(c: char) -> bool {
    '0' <= c <= '9'
}

/// Value of a string of decimal digits.
pub open spec fn digits_value(s: Seq<char>) -> nat
    decreases s.len(),
{
    if s.len() == 0 {
        0
    } else {
        digits_value(s.drop_last()) * 10 + (s.last() as nat - '0' as nat) as nat
    }
}

/// A port number: one or more decimal digits whose value fits in 16 bits.
pub open spec fn port_of(s: Seq<char>) -> Option<u16> {
    if s.len() > 0 && (forall|i: int| 0 <= i < s.len() ==> is_digit(#[trigger] s[i]))
        && digits_value(s) <= 65535 {
        Some(digits_value(s) as u16)
    } else {
        None
    }
}

/// Cuts `s` at every `sep`.
pub fn split_str(s: &str, sep: char) -> (r: Vec<String>)
    ensures
        r@.len() == split(s@, sep).len(),
        forall|i: int| 0 <= i < r@.len() ==> #[trigger] r@[i]@ == split(s@, sep)[i],
{
    let n = s.unicode_len();
    let mut fields: Vec<String> = Vec::new();
    let mut start: usize = 0;
    let mut i: usize = 0;
    while i < n
        invariant
            n == s@.len(),
            start <= i <= n,
            split(s@.subrange(0, i as int), sep).len() == fields@.len() + 1,
            forall|k: int|
                0 <= k < fields@.len() ==> #[trigger] fields@[k]@ == split(
                    s@.subrange(0, i as int),
                    sep,
                )[k],
            split(s@.subrange(0, i as int), sep).last() == s@.subrange(start as int, i as int),
        decreases n - i,
    {
        let c = s.get_char(i);
        let ghost t = s@.subrange(0, i + 1);
        let ghost p = split(s@.subrange(0, i as int), sep);
        assert(t.drop_last() =~= s@.subrange(0, i as int));
        assert(t.last() == c);
        if c == sep {
            let f = s.substring_char(start, i).to_owned();
            fields.push(f);
            start = i + 1;
            assert(split(t, sep) == p.push(Seq::<char>::empty()));
            assert(s@.subrange(start as int, i + 1) =~= Seq::<char>::empty());
        } else {
            assert(split(t, sep) == p.update(p.len() - 1, p.last().push(c)));
            assert(s@.subrange(start as int, i + 1) =~= s@.subrange(start as int, i as int).push(
                c,
            ));
        }
        i = i + 1;
    }
    let f = s.substring_char(start, n).to_owned();
    fields.push(f);
    assert(s@.subrange(0, n as int) =~= s@);
    fields
}

/// Parses a port number: decimal digits only, at most 65535.
pub fn parse_port(s: &str) -> (r: Option<u16>)
    ensures
        r == port_of(s@),
{
    let n = s.unicode_len();
    if n == 0 {
        return None;
    }
    let mut acc: u32 = 0;
    let mut i: usize = 0;
    while i < n
        invariant
            n == s@.len(),
            i <= n,
            forall|k: int| 0 <= k < i ==> is_digit(#[trigger] s@[k]),
            acc == (if digits_value(s@.subrange(0, i as int)) <= 65536 {
                digits_value(s@.subrange(0, i as int))
            } else {
                65536
            }),
        decreases n - i,
    {
        let c = s.get_char(i);
        if !('0' <= c && c <= '9') {
            assert(!is_digit(s@[i as int]));
            return None;
        }
        let d = (c as u32) - ('0' as u32);
        let ghost v = digits_value(s@.subrange(0, i as int));
        let ghost t = s@.subrange(0, i + 1);
        assert(t.drop_last() =~= s@.subrange(0, i as int));
        assert(digits_value(t) == v * 10 + d);
        if acc * 10 + d > 65536 {
            acc = 65536;
        } else {
            acc = acc * 10 + d;
        }
        assert(acc == (if v * 10 + d <= 65536 { v * 10 + d } else { 65536 })) by (nonlinear_arith)
            requires
                acc == (if (if v <= 65536 { v } else { 65536 }) * 10 + d > 65536 { 65536 } else {
                    (if v <= 65536 { v } else { 65536 }) * 10 + d
                }),
                0 <= d < 10,
                v >= 0,
        ;
        i = i + 1;
    }
    assert(s@.subrange(0, n as int) =~= s@);
    if acc <= 65535 {
        Some(acc as u16)
    } else {
        None
    }
}

} // verus!
