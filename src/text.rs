use vstd::prelude::*;

verus! {

pub open spec fn pow10(k: nat) -> nat
    decreases k,
{
    if k == 0 { 1 } else { 10 * pow10((k - 1) as nat) }
}

pub open spec fn is_digit(c: char) -> bool {
    '0' <= c && c <= '9'
}

pub open spec fn all_digits(s: Seq<char>, from: int, to: int) -> bool {
    forall|i: int| from <= i < to ==> is_digit(#[trigger] s[i])
}

/// The decimal number written by the characters `from..to` of `s`.
pub open spec fn number_at(s: Seq<char>, from: int, to: int) -> int
    decreases to - from,
{
    if to <= from {
        0
    } else {
        number_at(s, from, to - 1) * 10 + (s[to - 1] as int - '0' as int)
    }
}

/// The character of the decimal digit `d`.
pub open spec fn digit_char(d: int) -> char {
    if d == 0 { '0' }
    else if d == 1 { '1' }
    else if d == 2 { '2' }
    else if d == 3 { '3' }
    else if d == 4 { '4' }
    else if d == 5 { '5' }
    else if d == 6 { '6' }
    else if d == 7 { '7' }
    else if d == 8 { '8' }
    else { '9' }
}

/// The last `width` decimal digits of `n`, zero-padded on the left.
pub open spec fn digits(n: nat, width: nat) -> Seq<char>
    decreases width,
{
    if width == 0 {
        Seq::empty()
    } else {
        digits(n / 10, (width - 1) as nat).push(digit_char((n % 10) as int))
    }
}

pub proof fn lemma_number_bound(s: Seq<char>, from: int, to: int)
    requires
        from <= to,
        all_digits(s, from, to),
    ensures
        0 <= number_at(s, from, to) < pow10((to - from) as nat),
    decreases to - from,
{
    if to > from {
        lemma_number_bound(s, from, to - 1);
    }
}

pub proof fn lemma_pow10_small(k: nat)
    requires
        k <= 6,
    ensures
        pow10(k) <= 1_000_000,
{
    reveal_with_fuel(pow10, 7);
}

/// Reads the characters `from..to` of `s` as a decimal number, if all are digits.
pub fn read_number(s: &str, from: usize, to: usize) -> (r: Option<u64>)
    requires
        from <= to <= s@.len(),
        to - from <= 6,
    ensures
        r == if all_digits(s@, from as int, to as int) {
            Some(number_at(s@, from as int, to as int) as u64)
        } else {
            None::<u64>
        },
{
    let mut acc: u64 = 0;
    let mut i: usize = from;
    while i < to
        invariant
            from <= i <= to <= s@.len(),
            to - from <= 6,
            all_digits(s@, from as int, i as int),
            acc as int == number_at(s@, from as int, i as int),
        decreases to - i,
    {
        let c = s.get_char(i);
        if c < '0' || c > '9' {
            return None;
        }
        proof {
            lemma_number_bound(s@, from as int, i as int);
            lemma_pow10_small((i - from) as nat);
        }
        acc = acc * 10 + (c as u64 - '0' as u64);
        i = i + 1;
    }
    Some(acc)
}

pub fn digit_str(d: u64) -> (r: &'static str)
    requires
        d < 10,
    ensures
        r@ == seq![digit_char(d as int)],
{
    proof {
        reveal_strlit("0");
        reveal_strlit("1");
        reveal_strlit("2");
        reveal_strlit("3");
        reveal_strlit("4");
        reveal_strlit("5");
        reveal_strlit("6");
        reveal_strlit("7");
        reveal_strlit("8");
        reveal_strlit("9");
    }
    if d == 0 { "0" }
    else if d == 1 { "1" }
    else if d == 2 { "2" }
    else if d == 3 { "3" }
    else if d == 4 { "4" }
    else if d == 5 { "5" }
    else if d == 6 { "6" }
    else if d == 7 { "7" }
    else if d == 8 { "8" }
    else { "9" }
}

/// Appends the last `width` digits of `n`, zero-padded.
pub fn push_digits(s: &mut String, n: u64, width: usize)
    ensures
        final(s)@ == old(s)@ + digits(n as nat, width as nat),
    decreases width,
{
    if width > 0 {
        push_digits(s, n / 10, width - 1);
        s.append(digit_str(n % 10));
        assert(final(s)@ =~= old(s)@ + digits(n as nat, width as nat));
    } else {
        assert(final(s)@ =~= old(s)@ + digits(n as nat, width as nat));
    }
}

/// The number that `s` writes in decimal: one or more digits and nothing else,
/// with a value that fits in `usize`.
pub open spec fn decimal_value(s: Seq<char>) -> Option<usize> {
    if s.len() > 0 && all_digits(s, 0, s.len() as int) && number_at(s, 0, s.len() as int) <= usize::MAX {
        Some(number_at(s, 0, s.len() as int) as usize)
    } else {
        None
    }
}

/// Reads a decimal number; `None` for an empty string, a character that is not
/// a digit, or a value too large for `usize`.
pub fn parse_decimal(s: &str) -> (r: Option<usize>)
    ensures
        r == decimal_value(s@),
{
    let len = s.unicode_len();
    if len == 0 {
        return None;
    }
    let mut acc: usize = 0;
    let mut i: usize = 0;
    let mut overflow = false;
    while i < len
        invariant
            len == s@.len(),
            i <= len,
            all_digits(s@, 0, i as int),
            !overflow ==> acc as int == number_at(s@, 0, i as int),
            overflow ==> number_at(s@, 0, i as int) > usize::MAX,
        decreases len - i,
    {
        let c = s.get_char(i);
        if c < '0' || c > '9' {
            return None;
        }
        proof {
            lemma_number_bound(s@, 0, i as int);
        }
        let d = c as usize - '0' as usize;
        if !overflow {
            match acc.checked_mul(10) {
                Some(m) => match m.checked_add(d) {
                    Some(v) => acc = v,
                    None => overflow = true,
                },
                None => overflow = true,
            }
        }
        i = i + 1;
    }
    if overflow {
        return None;
    }
    Some(acc)
}

/// Whether two strings hold the same characters.
pub fn str_eq(a: &str, b: &str) -> (r: bool)
    ensures
        r == (a@ == b@),
{
    let n = a.unicode_len();
    if n != b.unicode_len() {
        return false;
    }
    let mut i: usize = 0;
    while i < n
        invariant
            n == a@.len() == b@.len(),
            i <= n,
            forall|j: int| 0 <= j < i ==> a@[j] == b@[j],
        decreases n - i,
    {
        if a.get_char(i) != b.get_char(i) {
            return false;
        }
        i = i + 1;
    }
    assert(a@ =~= b@);
    true
}

/// The pieces of `s` between commas, in order; one piece more than there are
/// commas.
pub open spec fn comma_split(s: Seq<char>) -> Seq<Seq<char>>
    decreases s.len(),
{
    if s.len() == 0 {
        seq![Seq::empty()]
    } else if s.last() == ',' {
        comma_split(s.drop_last()).push(Seq::empty())
    } else {
        let p = comma_split(s.drop_last());
        p.update(p.len() - 1, p.last().push(s.last()))
    }
}

/// Splits `s` at every comma.
pub fn split_commas(s: &str) -> (r: Vec<String>)
    ensures
        r@.map_values(|p: String| p@) == comma_split(s@),
{
    let n = s.unicode_len();
    let mut pieces: Vec<String> = Vec::new();
    let mut start: usize = 0;
    let mut i: usize = 0;
    assert(s@.subrange(0, 0) =~= Seq::<char>::empty());
    assert(pieces@.map_values(|p: String| p@).push(s@.subrange(0, 0)) =~= seq![Seq::<char>::empty()]);
    while i < n
        invariant
            n == s@.len(),
            start <= i <= n,
            comma_split(s@.subrange(0, i as int)) == pieces@.map_values(|p: String| p@).push(
                s@.subrange(start as int, i as int),
            ),
        decreases n - i,
    {
        let c = s.get_char(i);
        proof {
            let t = s@.subrange(0, i as int + 1);
            assert(t.drop_last() =~= s@.subrange(0, i as int));
            assert(t.last() == c);
        }
        if c == ',' {
            let piece = s.substring_char(start, i).to_string();
            let ghost old_view = pieces@.map_values(|p: String| p@);
            pieces.push(piece);
            assert(pieces@.map_values(|p: String| p@) =~= old_view.push(s@.subrange(start as int, i as int)));
            start = i + 1;
            i = i + 1;
            assert(s@.subrange(start as int, i as int) =~= Seq::<char>::empty());
        } else {
            proof {
                assert(s@.subrange(start as int, i as int).push(c) =~= s@.subrange(start as int, i as int + 1));
            }
            i = i + 1;
            assert(comma_split(s@.subrange(0, i as int)) =~= pieces@.map_values(|p: String| p@).push(
                s@.subrange(start as int, i as int),
            ));
        }
    }
    let last = s.substring_char(start, n).to_string();
    proof {
        assert(s@.subrange(0, n as int) =~= s@);
    }
    let ghost before = pieces@.map_values(|p: String| p@);
    pieces.push(last);
    assert(pieces@.map_values(|p: String| p@) =~= before.push(s@.subrange(start as int, n as int)));
    pieces
}

/// `n` in decimal, without leading zeros.
pub open spec fn decimal_digits(n: nat) -> Seq<char>
    decreases n,
{
    if n < 10 {
        seq![digit_char(n as int)]
    } else {
        decimal_digits(n / 10).push(digit_char((n % 10) as int))
    }
}

/// Appends `n` in decimal.
pub fn push_decimal(s: &mut String, n: usize)
    ensures
        final(s)@ == old(s)@ + decimal_digits(n as nat),
    decreases n,
{
    if n >= 10 {
        push_decimal(s, n / 10);
    }
    s.append(digit_str((n % 10) as u64));
    assert(final(s)@ =~= old(s)@ + decimal_digits(n as nat));
}

} // verus!
