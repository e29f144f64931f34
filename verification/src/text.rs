//! Character-level helpers on which the parsers of this crate are built.

use vstd::prelude::*;

verus! {

/// Whether `c` is one of the ASCII digits `0` to `9`.
pub open spec fn is_digit(c: char) -> bool {
    48 <= c as u32 <= 57
}

/// The number that the ASCII digit `c` stands for.
pub open spec fn digit_of(c: char) -> nat {
    (c as u32 - 48) as nat
}

/// Whether every character of `s` is an ASCII digit.
pub open spec fn all_digits(s: Seq<char>) -> bool {
    forall|i: int| 0 <= i < s.len() ==> is_digit(#[trigger] s[i])
}

/// The number that a run of digits denotes in base ten; the empty run denotes 0.
pub open spec fn digits_value(s: Seq<char>) -> nat
    decreases s.len(),
{
    if s.len() == 0 {
        0
    } else {
        digits_value(s.drop_last()) * 10 + digit_of(s.last())
    }
}

/// `n` cut down to what a `u64` can hold.
pub open spec fn saturate(n: nat) -> u64 {
    if n > u64::MAX {
        u64::MAX
    } else {
        n as u64
    }
}

/// The pieces of `s` between the occurrences of `sep`. A text without `sep`
/// is one piece; `k` occurrences give `k + 1` pieces, some possibly empty.
pub open spec fn split_on(s: Seq<char>, sep: char) -> Seq<Seq<char>>
    decreases s.len(),
{
    if s.len() == 0 {
        seq![Seq::<char>::empty()]
    } else {
        let init = split_on(s.drop_last(), sep);
        if s.last() == sep {
            init.push(Seq::<char>::empty())
        } else {
            init.update(init.len() - 1, init.last().push(s.last()))
        }
    }
}

/// Whether `needle` occurs in `hay` as a run of consecutive characters.
pub open spec fn contains_run(hay: Seq<char>, needle: Seq<char>) -> bool {
    exists|i: int| occurs_at(hay, needle, i)
}

/// Whether `needle` stands in `hay` starting at index `i`.
pub open spec fn occurs_at(hay: Seq<char>, needle: Seq<char>, i: int) -> bool {
    0 <= i && i + needle.len() <= hay.len() && hay.subrange(i, i + needle.len()) == needle
}

/// The number that `s` denotes as an unsigned integer: digits, at least one,
/// with or without a `+` before them.
pub open spec fn unsigned_value(s: Seq<char>) -> Option<nat> {
    let digits = if s.len() > 0 && s[0] == '+' {
        s.drop_first()
    } else {
        s
    };
    if digits.len() > 0 && all_digits(digits) {
        Some(digits_value(digits))
    } else {
        None
    }
}

/// The character sequences that the strings of `items` hold, in order.
pub open spec fn texts_of(items: Seq<String>) -> Seq<Seq<char>> {
    Seq::new(items.len(), |i: int| items[i]@)
}

/// `s` with every leading repetition of `prefix` taken away.
pub open spec fn strip_leading(s: Seq<char>, prefix: Seq<char>) -> Seq<char>
    decreases s.len(),
{
    if prefix.len() > 0 && prefix.is_prefix_of(s) {
        strip_leading(s.skip(prefix.len() as int), prefix)
    } else {
        s
    }
}

/// The decimal numeral of `n`, without leading zeros.
pub open spec fn decimal_text(n: nat) -> Seq<char>
    decreases n,
{
    if n < 10 {
        seq![digit_char(n)]
    } else {
        decimal_text(n / 10).push(digit_char(n % 10))
    }
}

/// The ASCII digit for a number below ten.
pub open spec fn digit_char(d: nat) -> char {
    if d == 0 {
        '0'
    } else if d == 1 {
        '1'
    } else if d == 2 {
        '2'
    } else if d == 3 {
        '3'
    } else if d == 4 {
        '4'
    } else if d == 5 {
        '5'
    } else if d == 6 {
        '6'
    } else if d == 7 {
        '7'
    } else if d == 8 {
        '8'
    } else {
        '9'
    }
}

/// The character sequences that the vectors of `parts` hold, in order.
pub open spec fn views_of(parts: Seq<Vec<char>>) -> Seq<Seq<char>> {
    Seq::new(parts.len(), |i: int| parts[i]@)
}

/// The characters of `s`, in order.
pub fn chars_of(s: &str) -> (v: Vec<char>)
    ensures
        v@ == s@,
{
    let mut v: Vec<char> = Vec::new();
    for c in it: s.chars()
        invariant
            it.seq() == s@,
            v@ =~= s@.take(it.index()),
    {
        v.push(c);
    }
    assert(s@.take(s@.len() as int) =~= s@);
    v
}

/// Whether two strings hold the same characters.
pub fn str_eq(a: &str, b: &str) -> (r: bool)
    ensures
        r == (a@ == b@),
{
    let x = a.to_owned();
    let y = b.to_owned();
    x == y
}

/// `a` followed by `b`, as a new string.
pub fn joined(a: &str, b: &str) -> (r: String)
    ensures
        r@ == a@ + b@,
{
    let mut r = a.to_owned();
    r.append(b);
    r
}

/// Whether `s`, read from index `from` on, begins with `prefix`.
pub(crate) fn starts_with_at(s: &Vec<char>, from: usize, prefix: &Vec<char>) -> (r: bool)
    requires
        from <= s.len(),
    ensures
        r == prefix@.is_prefix_of(s@.skip(from as int)),
{
    let n = prefix.len();
    if s.len() - from < n {
        return false;
    }
    let mut i: usize = 0;
    while i < n
        invariant
            i <= n,
            n == prefix.len(),
            from + n <= s.len(),
            forall|j: int| 0 <= j < i ==> s@[from + j] == prefix@[j],
        decreases n - i,
    {
        if s[from + i] != prefix[i] {
            assert(s@.skip(from as int)[i as int] != prefix@[i as int]);
            return false;
        }
        i += 1;
    }
    assert(s@.skip(from as int).subrange(0, n as int) =~= prefix@);
    true
}

/// Whether `s` begins with `prefix`.
pub fn starts_with(s: &Vec<char>, prefix: &Vec<char>) -> (r: bool)
    ensures
        r == prefix@.is_prefix_of(s@),
{
    assert(s@.skip(0) =~= s@);
    starts_with_at(s, 0, prefix)
}

/// Whether `needle` occurs somewhere in `hay`.
pub fn contains(hay: &Vec<char>, needle: &Vec<char>) -> (r: bool)
    ensures
        r == contains_run(hay@, needle@),
{
    let n = needle.len();
    if hay.len() < n {
        return false;
    }
    let last: usize = hay.len() - n;
    let mut i: usize = 0;
    while i <= last
        invariant
            i <= last + 1,
            last + n == hay.len(),
            n == needle.len(),
            forall|j: int| 0 <= j < i ==> !occurs_at(hay@, needle@, j),
        decreases last + 1 - i,
    {
        if starts_with_at(hay, i, needle) {
            assert(hay@.skip(i as int).subrange(0, n as int) =~= hay@.subrange(
                i as int,
                i + n as int,
            ));
            assert(occurs_at(hay@, needle@, i as int));
            return true;
        }
        assert(!occurs_at(hay@, needle@, i as int)) by {
            assert(hay@.skip(i as int).subrange(0, n as int) =~= hay@.subrange(
                i as int,
                i + n as int,
            ));
        }
        i += 1;
    }
    false
}

/// The index at which `s` goes on after every leading repetition of `prefix`.
pub fn skip_leading(s: &Vec<char>, prefix: &Vec<char>) -> (r: usize)
    ensures
        r <= s.len(),
        s@.skip(r as int) == strip_leading(s@, prefix@),
{
    let n = prefix.len();
    let mut i: usize = 0;
    if n == 0 {
        assert(s@.skip(0) =~= s@);
        return 0;
    }
    assert(s@.skip(0) =~= s@);
    while starts_with_at(s, i, prefix)
        invariant
            i <= s.len(),
            n == prefix.len(),
            n > 0,
            strip_leading(s@.skip(i as int), prefix@) == strip_leading(s@, prefix@),
        decreases s.len() - i,
    {
        assert(s@.skip(i as int).skip(n as int) =~= s@.skip(i + n));
        i += n;
    }
    i
}

/// The characters of `s` from index `from` on.
pub(crate) fn tail(s: &Vec<char>, from: usize) -> (r: Vec<char>)
    requires
        from <= s.len(),
    ensures
        r@ == s@.skip(from as int),
{
    let mut r: Vec<char> = Vec::new();
    let mut i: usize = from;
    while i < s.len()
        invariant
            from <= i <= s.len(),
            r@ =~= s@.subrange(from as int, i as int),
        decreases s.len() - i,
    {
        r.push(s[i]);
        i += 1;
    }
    assert(r@ =~= s@.skip(from as int));
    r
}

/// Cuts `s` at every `sep`.
pub fn split(s: &Vec<char>, sep: char) -> (parts: Vec<Vec<char>>)
    ensures
        views_of(parts@) == split_on(s@, sep),
{
    let mut parts: Vec<Vec<char>> = Vec::new();
    let mut current: Vec<char> = Vec::new();
    let mut i: usize = 0;
    assert(s@.take(0) =~= Seq::<char>::empty());
    while i < s.len()
        invariant
            i <= s.len(),
            views_of(parts@).push(current@) =~= split_on(s@.take(i as int), sep),
        decreases s.len() - i,
    {
        let c = s[i];
        proof {
            let t = s@.take(i + 1);
            assert(t.drop_last() =~= s@.take(i as int));
            assert(t.last() == c);
        }
        if c == sep {
            let ghost before = views_of(parts@);
            parts.push(current);
            assert(views_of(parts@) =~= before.push(current@));
            current = Vec::new();
        } else {
            let ghost before = current@;
            current.push(c);
            assert(views_of(parts@).push(before).update(
                parts.len() as int,
                before.push(c),
            ) =~= views_of(parts@).push(current@));
        }
        i += 1;
    }
    assert(s@.take(s.len() as int) =~= s@);
    let ghost before = views_of(parts@);
    parts.push(current);
    assert(views_of(parts@) =~= before.push(current@));
    parts
}

/// The digit that `c` stands for, if it is an ASCII digit.
pub fn digit_value(c: char) -> (r: Option<u8>)
    ensures
        r is Some == is_digit(c),
        r is Some ==> r.unwrap() == digit_of(c) && r.unwrap() <= 9,
{
    let code: u32 = c as u32;
    if code >= 48 && code <= 57 {
        Some((code - 48) as u8)
    } else {
        None
    }
}

/// Reads a run of digits. The first component is the value, cut down to a
/// `u64`; the second says whether the value fitted without cutting.
pub fn read_digits(s: &Vec<char>) -> (r: Option<(u64, bool)>)
    ensures
        r is Some == all_digits(s@),
        r is Some ==> r.unwrap().0 == saturate(digits_value(s@)) && r.unwrap().1 == (digits_value(
            s@,
        ) <= u64::MAX),
{
    let mut acc: u64 = 0;
    let mut exact: bool = true;
    let mut i: usize = 0;
    assert(s@.take(0) =~= Seq::<char>::empty());
    while i < s.len()
        invariant
            i <= s.len(),
            all_digits(s@.take(i as int)),
            acc == saturate(digits_value(s@.take(i as int))),
            exact == (digits_value(s@.take(i as int)) <= u64::MAX),
        decreases s.len() - i,
    {
        let ghost t = s@.take(i + 1);
        proof {
            assert(t.drop_last() =~= s@.take(i as int));
            assert(t.last() == s@[i as int]);
        }
        match digit_value(s[i]) {
            None => {
                assert(!is_digit(s@[i as int]));
                return None;
            },
            Some(d) => {
                assert(all_digits(t)) by {
                    assert forall|j: int| 0 <= j < t.len() implies is_digit(#[trigger] t[j]) by {
                        if j < i {
                            assert(t[j] == s@.take(i as int)[j]);
                        }
                    }
                }
                if exact && acc <= (u64::MAX - d as u64) / 10 {
                    acc = acc * 10 + d as u64;
                } else {
                    acc = u64::MAX;
                    exact = false;
                }
            },
        }
        i += 1;
    }
    assert(s@.take(s.len() as int) =~= s@);
    Some((acc, exact))
}

/// Reads an unsigned integer that fits in 64 bits: `None` for any other text.
pub fn parse_unsigned(s: &str) -> (r: Option<u64>)
    ensures
        r == match unsigned_value(s@) {
            Some(v) => if v <= u64::MAX {
                Some(v as u64)
            } else {
                None
            },
            None => None,
        },
{
    let chars = chars_of(s);
    let digits = if chars.len() > 0 && chars[0] == '+' {
        tail(&chars, 1)
    } else {
        assert(chars@.skip(0) =~= chars@);
        tail(&chars, 0)
    };
    assert(chars@.skip(1) =~= chars@.drop_first());
    if digits.len() == 0 {
        return None;
    }
    match read_digits(&digits) {
        Some((value, exact)) => if exact {
            Some(value)
        } else {
            None
        },
        None => None,
    }
}

/// The numeral of a number below ten.
fn digit_str(d: u32) -> (r: &'static str)
    requires
        d < 10,
    ensures
        r@ == seq![digit_char(d as nat)],
{
    proof {
        reveal_strlit("0");
        reveal_strlit("1");
        reveal_strlit("2");
        reveal_strlit("3");
        reveal_strlit("4");
        reveal_strlit("5");
        reveal_strlit("6");
        reveal_strlit("7");
        reveal_strlit("8");
        reveal_strlit("9");
    }
    let r = if d == 0 {
        "0"
    } else if d == 1 {
        "1"
    } else if d == 2 {
        "2"
    } else if d == 3 {
        "3"
    } else if d == 4 {
        "4"
    } else if d == 5 {
        "5"
    } else if d == 6 {
        "6"
    } else if d == 7 {
        "7"
    } else if d == 8 {
        "8"
    } else {
        "9"
    };
    assert(r@ =~= seq![digit_char(d as nat)]);
    r
}

/// Writes `n` in base ten.
pub fn decimal_string(n: u32) -> (r: String)
    ensures
        r@ == decimal_text(n as nat),
    decreases n,
{
    if n < 10 {
        digit_str(n).to_owned()
    } else {
        let mut r = decimal_string(n / 10);
        r.append(digit_str(n % 10));
        assert(r@ =~= decimal_text(n as nat));
        r
    }
}

} // verus!
