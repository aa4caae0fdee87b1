//! Character-level helpers for `&str`, specified over `Seq<char>`.

use vstd::prelude::*;

verus! {

/// The characters of `s` before the first `sep`, or all of `s` if there is none.
pub open spec fn before(s: Seq<char>, sep: char) -> Seq<char> {
    match s.index_of_first(sep) {
        Some(i) => s.subrange(0, i),
        None => s,
    }
}

/// The characters of `s` after the first `sep`, if there is one.
pub open spec fn after(s: Seq<char>, sep: char) -> Option<Seq<char>> {
    match s.index_of_first(sep) {
        Some(i) => Some(s.subrange(i + 1, s.len() as int)),
        None => None,
    }
}

/// `c` with an ASCII upper-case letter replaced by its lower-case form.
pub open spec fn ascii_lower(c: char) -> char {
    if 'A' <= c && c <= 'Z' {
        ((c as u8) + 32) as char
    } else {
        c
    }
}

/// Equality of two texts up to the case of ASCII letters.
pub open spec fn eq_ignore_ascii_case(a: Seq<char>, b: Seq<char>) -> bool {
    a.map_values(|c: char| ascii_lower(c)) == b.map_values(|c: char| ascii_lower(c))
}

/// `i` is where `sep` first occurs in `s`, or `s.len()` if `s` has no `sep`.
pub open spec fn is_first_index(s: Seq<char>, sep: char, i: int) -> bool {
    &&& 0 <= i <= s.len()
    &&& forall|j: int| 0 <= j < i ==> s[j] != sep
    &&& i < s.len() ==> s[i] == sep
}

/// A position found by scanning from the left splits `s` as `before` and `after` say.
pub proof fn lemma_split_at_first(s: Seq<char>, sep: char, i: int)
    requires
        is_first_index(s, sep, i),
    ensures
        before(s, sep) == s.subrange(0, i),
        after(s, sep) == if i < s.len() {
            Some(s.subrange(i + 1, s.len() as int))
        } else {
            None
        },
{
    s.index_of_first_ensures(sep);
}

/// The characters of `s`, in order.
pub fn collect_chars(s: &str) -> (v: Vec<char>)
    ensures
        v@ == s@,
{
    let mut v: Vec<char> = Vec::new();
    for c in it: s.chars()
        invariant
            it.seq() == s@,
            v@ == s@.subrange(0, it.index() as int),
    {
        v.push(c);
    }
    v
}

/// `c` in lower case if it is an ASCII capital, else `c` itself.
pub fn to_ascii_lower(c: char) -> (r: char)
    ensures
        r == ascii_lower(c),
{
    if 'A' <= c && c <= 'Z' {
        ((c as u8) + 32) as char
    } else {
        c
    }
}

/// Scans `v[from..to]` for `sep` and returns where it first occurs, or `to`.
pub(crate) fn find_first(v: &Vec<char>, from: usize, to: usize, sep: char) -> (i: usize)
    requires
        from <= to <= v.len(),
    ensures
        from <= i <= to,
        is_first_index(v@.subrange(from as int, to as int), sep, i - from),
{
    let mut i: usize = from;
    while i < to && v[i] != sep
        invariant
            from <= i <= to <= v.len(),
            forall|j: int| from <= j < i ==> v[j] != sep,
        decreases to - i,
    {
        i += 1;
    }
    i
}

/// Whether `v[from..to]` and `word` are equal up to the case of ASCII letters.
pub(crate) fn range_eq_ignore_ascii_case(
    v: &Vec<char>,
    from: usize,
    to: usize,
    word: &Vec<char>,
) -> (r: bool)
    requires
        from <= to <= v.len(),
    ensures
        r == eq_ignore_ascii_case(v@.subrange(from as int, to as int), word@),
{
    let ghost a = v@.subrange(from as int, to as int);
    let ghost la = a.map_values(|c: char| ascii_lower(c));
    let ghost lb = word@.map_values(|c: char| ascii_lower(c));
    if to - from != word.len() {
        assert(la.len() != lb.len());
        return false;
    }
    let n: usize = word.len();
    let mut k: usize = 0;
    while k < n
        invariant
            from <= to <= v.len(),
            n == word.len(),
            n == to - from,
            k <= n,
            a == v@.subrange(from as int, to as int),
            la == a.map_values(|c: char| ascii_lower(c)),
            lb == word@.map_values(|c: char| ascii_lower(c)),
            forall|j: int| 0 <= j < k ==> la[j] == lb[j],
        decreases n - k,
    {
        if to_ascii_lower(v[from + k]) != to_ascii_lower(word[k]) {
            assert(la[k as int] != lb[k as int]);
            return false;
        }
        k += 1;
    }
    assert(la =~= lb);
    true
}

/// Whether `s` begins with `prefix`.
pub fn starts_with(s: &str, prefix: &str) -> (r: bool)
    ensures
        r == prefix@.is_prefix_of(s@),
{
    let text = collect_chars(s);
    let head = collect_chars(prefix);
    if head.len() > text.len() {
        return false;
    }
    let n: usize = head.len();
    let mut k: usize = 0;
    while k < n
        invariant
            text@ == s@,
            head@ == prefix@,
            n == head.len(),
            n <= text.len(),
            k <= n,
            forall|j: int| 0 <= j < k ==> text[j] == head[j],
        decreases n - k,
    {
        if text[k] != head[k] {
            return false;
        }
        k += 1;
    }
    true
}

/// Whether `a` and `b` hold the same characters.
pub fn same_text(a: &str, b: &str) -> (r: bool)
    ensures
        r == (a@ == b@),
{
    a.to_owned() == b.to_owned()
}

/// The character for the decimal digit `d`.
pub open spec fn digit(d: int) -> char {
    (('0' as u8) + d) as char
}

/// The decimal digits of `n`, most significant first, without leading zeros.
pub open spec fn digits(n: nat) -> Seq<char>
    decreases n,
{
    if n < 10 {
        seq![digit(n as int)]
    } else {
        digits(n / 10).push(digit((n % 10) as int))
    }
}

/// `n` in decimal, with a minus sign if it is negative.
pub open spec fn decimal(n: int) -> Seq<char> {
    if n < 0 {
        seq!['-'] + digits((-n) as nat)
    } else {
        digits(n as nat)
    }
}

/// The number that a text of decimal digits denotes.
pub open spec fn number(s: Seq<char>) -> int
    decreases s.len(),
{
    if s.len() == 0 {
        0
    } else {
        number(s.drop_last()) * 10 + (s.last() as u8) - ('0' as u8)
    }
}

/// `digits(n)` is made of digits only, begins with a zero only for zero
/// itself, and denotes `n`.
pub proof fn lemma_digits_denote(n: nat)
    ensures
        digits(n).len() > 0,
        forall|i: int| 0 <= i < digits(n).len() ==> '0' <= #[trigger] digits(n)[i] <= '9',
        n > 0 ==> digits(n)[0] != '0',
        number(digits(n)) == n,
    decreases n,
{
    if n < 10 {
        assert(number(digits(n).drop_last()) == 0);
    } else {
        lemma_digits_denote(n / 10);
        assert(digits(n).drop_last() =~= digits(n / 10));
    }
}

fn digit_str(d: u8) -> (s: &'static str)
    requires
        d < 10,
    ensures
        s@ == seq![digit(d as int)],
{
    proof {
        reveal_strlit("0");
        reveal_strlit("1");
        reveal_strlit("2");
        reveal_strlit("3");
        reveal_strlit("4");
        reveal_strlit("5");
        reveal_strlit("6");
        reveal_strlit("7");
        reveal_strlit("8");
        reveal_strlit("9");
    }
    let s = match d {
        0 => "0",
        1 => "1",
        2 => "2",
        3 => "3",
        4 => "4",
        5 => "5",
        6 => "6",
        7 => "7",
        8 => "8",
        _ => "9",
    };
    s
}

fn append_digits(text: &mut String, n: u64)
    ensures
        final(text)@ == old(text)@ + digits(n as nat),
    decreases n,
{
    if n >= 10 {
        append_digits(text, n / 10);
    }
    text.append(digit_str((n % 10) as u8));
}

/// Writes `n` in decimal.
pub fn to_decimal(n: i64) -> (text: String)
    ensures
        text@ == decimal(n as int),
{
    let mut text = String::new();
    if n < 0 {
        proof {
            reveal_strlit("-");
        }
        text.append("-");
        append_digits(&mut text, (-(n as i128)) as u64);
    } else {
        append_digits(&mut text, n as u64);
    }
    text
}

} // verus!
