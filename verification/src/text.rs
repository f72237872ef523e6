//! Character-level string utilities with exact specifications.

use vstd::prelude::*;
use vstd::std_specs::iter::IteratorSpec;

verus! {

/// Appends one character to a `String` (`String::push`).
#[verifier::external_body]
pub(crate) fn push_char(s: &mut String, c: char)
    ensures
        final(s)@ == old(s)@.push(c),
{
    s.push(c);
}

/// The characters of a string slice, in order.
pub(crate) fn chars_of(s: &str) -> (v: Vec<char>)
    ensures
        v@ == s@,
{
    broadcast use vstd::string::group_string_axioms;
    let chars = s.chars();
    let ghost all = IteratorSpec::remaining(&chars);
    assert(all == s@);
    let mut v: Vec<char> = Vec::new();
    for c in iter: chars
        invariant
            iter.seq() == all,
            v@ == all.take(iter.index()),
    {
        v.push(c);
        assert(all.take(iter.index() + 1) =~= v@);
    }
    assert(all.take(all.len() as int) =~= all);
    v
}

/// The character for a decimal digit `d < 10`.
pub open spec fn digit_char(d: nat) -> char {
    ((d + 48) as char)
}

/// Decimal representation of a natural number, without leading zeros.
pub open spec fn decimal(n: nat) -> Seq<char>
    decreases n,
{
    if n < 10 {
        seq![digit_char(n)]
    } else {
        decimal(n / 10).push(digit_char(n % 10))
    }
}

/// Appends the decimal representation of `n`.
pub fn push_decimal(s: &mut String, n: u64)
    ensures
        final(s)@ == old(s)@ + decimal(n as nat),
    decreases n,
{
    if n >= 10 {
        push_decimal(s, n / 10);
    }
    let d = (n % 10) as u32;
    let c = char_from_digit(d);
    push_char(s, c);
    assert(s@ =~= old(s)@ + decimal(n as nat));
}

fn char_from_digit(d: u32) -> (c: char)
    requires
        d < 10,
    ensures
        c == digit_char(d as nat),
{
    let b: u8 = (d as u8) + 48;
    b as char
}


/// Decimal representation of an integer, with a leading `-` when negative.
pub open spec fn signed_decimal(i: int) -> Seq<char> {
    if i < 0 {
        seq!['-'] + decimal((-i) as nat)
    } else {
        decimal(i as nat)
    }
}

/// Appends the decimal representation of `i` (as `i64`'s `Display` does).
pub fn push_signed_decimal(s: &mut String, i: i64)
    ensures
        final(s)@ == old(s)@ + signed_decimal(i as int),
{
    if i < 0 {
        push_char(s, '-');
        let m: u64 = ((-(i + 1)) as u64) + 1;
        push_decimal(s, m);
        assert(s@ =~= old(s)@ + signed_decimal(i as int));
    } else {
        push_decimal(s, i as u64);
    }
}

/// The decimal representation of `n` as a new string.
pub fn u64_to_string(n: u64) -> (r: String)
    ensures
        r@ == decimal(n as nat),
{
    let mut s = String::new();
    push_decimal(&mut s, n);
    assert(s@ =~= decimal(n as nat));
    s
}

/// Appends every character of `t`.
pub fn push_str(s: &mut String, t: &str)
    ensures
        final(s)@ == old(s)@ + t@,
{
    let v = chars_of(t);
    let n = v.len();
    let ghost s0 = s@;
    for i in 0..n
        invariant
            n == v@.len(),
            v@ == t@,
            s@ == s0 + v@.subrange(0, i as int),
    {
        push_char(s, v[i]);
        assert(s@ =~= s0 + v@.subrange(0, i + 1));
    }
    assert(v@.subrange(0, n as int) =~= v@);
}

/// The view of an optional string.
pub open spec fn opt_view(o: Option<String>) -> Option<Seq<char>> {
    match o {
        Some(s) => Some(s@),
        None => None,
    }
}

/// A new string holding the characters of `s`.
pub fn string_of(s: &str) -> (r: String)
    ensures
        r@ == s@,
{
    let mut out = String::new();
    push_str(&mut out, s);
    assert(out@ =~= s@);
    out
}

/// Builds a string from a slice of characters.
pub fn string_from_chars(v: &[char]) -> (r: String)
    ensures
        r@ == v@,
{
    let mut s = String::new();
    let n = v.len();
    for i in 0..n
        invariant
            n == v@.len(),
            s@ == v@.subrange(0, i as int),
    {
        push_char(&mut s, v[i]);
        assert(s@ =~= v@.subrange(0, i + 1));
    }
    assert(v@.subrange(0, n as int) =~= v@);
    s
}

/// Whether two strings hold the same characters.
pub fn str_eq(a: &str, b: &str) -> (r: bool)
    ensures
        r == (a@ == b@),
{
    let va = chars_of(a);
    let vb = chars_of(b);
    chars_eq(&va, &vb)
}

/// Whether two character slices are equal.
pub fn chars_eq(a: &[char], b: &[char]) -> (r: bool)
    ensures
        r == (a@ == b@),
{
    if a.len() != b.len() {
        return false;
    }
    let n = a.len();
    for i in 0..n
        invariant
            n == a@.len(),
            n == b@.len(),
            forall|j: int| 0 <= j < i ==> a@[j] == b@[j],
    {
        if a[i] != b[i] {
            return false;
        }
    }
    assert(a@ =~= b@);
    true
}

// ---------------------------------------------------------------------------
// Parsing integers as `FromStr` for the primitive integer types does.

/// Whether every character is an ASCII digit.
pub open spec fn all_digits(s: Seq<char>) -> bool {
    forall|i: int| 0 <= i < s.len() ==> '0' <= #[trigger] s[i] && s[i] <= '9'
}

/// The value of a digit character.
pub open spec fn digit_value(c: char) -> nat {
    (c as int - 48) as nat
}

/// The value of a sequence of decimal digits (most significant first).
pub open spec fn digits_value(s: Seq<char>) -> nat
    decreases s.len(),
{
    if s.len() == 0 {
        0
    } else {
        digits_value(s.drop_last()) * 10 + digit_value(s.last())
    }
}

/// The digits of an unsigned literal: an optional leading `+` is dropped.
pub open spec fn unsigned_digits(s: Seq<char>) -> Seq<char> {
    if s.len() > 0 && s[0] == '+' {
        s.drop_first()
    } else {
        s
    }
}

/// The value that parsing `s` as an unsigned integer of maximum `max` gives:
/// an optional `+`, then one or more ASCII digits whose value is at most `max`.
pub open spec fn parse_unsigned(s: Seq<char>, max: nat) -> Option<nat> {
    let d = unsigned_digits(s);
    if d.len() > 0 && all_digits(d) && digits_value(d) <= max {
        Some(digits_value(d))
    } else {
        None
    }
}

proof fn lemma_decimal_digits(n: nat)
    ensures
        decimal(n).len() > 0,
        decimal(n)[0] != '+',
        all_digits(decimal(n)),
        digits_value(decimal(n)) == n,
    decreases n,
{
    let d = decimal(n);
    let c = digit_char(n % 10);
    assert(c as int == n % 10 + 48);
    assert(digit_value(c) == n % 10);
    if n >= 10 {
        lemma_decimal_digits(n / 10);
        assert(d.drop_last() =~= decimal(n / 10));
        assert(d[0] == decimal(n / 10)[0]);
        assert(d.last() == c);
        assert(digits_value(d) == digits_value(d.drop_last()) * 10 + digit_value(d.last()));
        assert((n / 10) * 10 + n % 10 == n) by (nonlinear_arith);
    } else {
        assert(d.drop_last() =~= Seq::<char>::empty());
        assert(d.last() == c);
        assert(digits_value(d) == digits_value(d.drop_last()) * 10 + digit_value(d.last()));
    }
}

/// Reading back the decimal text of a number gives the number: what the
/// commands write as ids they read back unchanged.
pub proof fn law_decimal_round_trip(n: nat, max: nat)
    requires
        n <= max,
    ensures
        parse_unsigned(decimal(n), max) == Some(n),
        parse_signed(decimal(n), -1, max as int) == Some(n as int),
{
    lemma_decimal_digits(n);
}

/// The value that parsing `s` as a signed integer in `[min, max]` gives:
/// an optional `+` or `-`, then one or more ASCII digits.
pub open spec fn parse_signed(s: Seq<char>, min: int, max: int) -> Option<int> {
    if s.len() > 0 && s[0] == '-' {
        let d = s.drop_first();
        if d.len() > 0 && all_digits(d) && -(digits_value(d) as int) >= min {
            Some(-(digits_value(d) as int))
        } else {
            None
        }
    } else {
        match parse_unsigned(s, max as nat) {
            Some(v) => if max >= 0 { Some(v as int) } else { None },
            None => None,
        }
    }
}

proof fn lemma_digits_value_prefix(s: Seq<char>, i: int)
    requires
        0 <= i <= s.len(),
        all_digits(s),
    ensures
        digits_value(s.subrange(0, i)) <= digits_value(s),
    decreases s.len(),
{
    if i < s.len() {
        assert(s.drop_last() =~= s.subrange(0, s.len() - 1));
        lemma_digits_value_prefix(s.drop_last(), i);
        assert(s.drop_last().subrange(0, i) =~= s.subrange(0, i));
    } else {
        assert(s.subrange(0, i) =~= s);
    }
}

/// Parses the digits `v[start..]` as an unsigned number of at most `max`.
fn parse_digits(v: &Vec<char>, start: usize, max: u64) -> (r: Option<u64>)
    requires
        start <= v@.len(),
    ensures
        ({
            let d = v@.subrange(start as int, v@.len() as int);
            match r {
                Some(x) => d.len() > 0 && all_digits(d) && digits_value(d) <= max && x == digits_value(d),
                None => !(d.len() > 0 && all_digits(d) && digits_value(d) <= max),
            }
        }),
{
    let n = v.len();
    let ghost d = v@.subrange(start as int, n as int);
    if start == n {
        return None;
    }
    let mut acc: u64 = 0;
    let mut i = start;
    while i < n
        invariant
            start <= i <= n,
            n == v@.len(),
            d == v@.subrange(start as int, n as int),
            all_digits(d.subrange(0, i - start)),
            acc == digits_value(d.subrange(0, i - start)),
            acc <= max,
        decreases n - i,
    {
        let c = v[i];
        if !('0' <= c && c <= '9') {
            assert(d[i - start] == c);
            return None;
        }
        let dv: u64 = ((c as u32) - 48) as u64;
        let ghost p = d.subrange(0, i + 1 - start);
        assert(p.drop_last() =~= d.subrange(0, i - start));
        assert(p.last() == c);
        assert(digits_value(p) == acc * 10 + dv);
        match acc.checked_mul(10) {
            Some(a10) => match a10.checked_add(dv) {
                Some(a) => {
                    if a > max {
                        proof {
                            assert(all_digits(d) ==> digits_value(p) <= digits_value(d)) by {
                                if all_digits(d) {
                                    lemma_digits_value_prefix(d, i + 1 - start);
                                }
                            }
                        }
                        return None;
                    }
                    acc = a;
                },
                None => {
                    proof {
                        if all_digits(d) {
                            lemma_digits_value_prefix(d, i + 1 - start);
                        }
                    }
                    return None;
                },
            },
            None => {
                proof {
                    if all_digits(d) {
                        lemma_digits_value_prefix(d, i + 1 - start);
                    }
                }
                return None;
            },
        }
        i = i + 1;
        assert(all_digits(d.subrange(0, i - start)));
    }
    assert(d.subrange(0, n - start) =~= d);
    Some(acc)
}

/// Parses a string as `u64` (the semantics of `u64::from_str`).
pub fn parse_u64(s: &str) -> (r: Option<u64>)
    ensures
        r matches Some(x) ==> parse_unsigned(s@, u64::MAX as nat) == Some(x as nat),
        r is None ==> parse_unsigned(s@, u64::MAX as nat) is None,
{
    let v = chars_of(s);
    let start: usize = if v.len() > 0 && v[0] == '+' { 1 } else { 0 };
    assert(v@.subrange(start as int, v@.len() as int) =~= unsigned_digits(s@));
    parse_digits(&v, start, u64::MAX)
}

/// Parses a string as `u32` (the semantics of `u32::from_str`).
pub fn parse_u32(s: &str) -> (r: Option<u32>)
    ensures
        r matches Some(x) ==> parse_unsigned(s@, u32::MAX as nat) == Some(x as nat),
        r is None ==> parse_unsigned(s@, u32::MAX as nat) is None,
{
    let v = chars_of(s);
    let start: usize = if v.len() > 0 && v[0] == '+' { 1 } else { 0 };
    assert(v@.subrange(start as int, v@.len() as int) =~= unsigned_digits(s@));
    match parse_digits(&v, start, u32::MAX as u64) {
        Some(x) => Some(x as u32),
        None => None,
    }
}

/// Parses a string as `i32` (the semantics of `i32::from_str`).
pub fn parse_i32(s: &str) -> (r: Option<i32>)
    ensures
        r matches Some(x) ==> parse_signed(s@, i32::MIN as int, i32::MAX as int) == Some(x as int),
        r is None ==> parse_signed(s@, i32::MIN as int, i32::MAX as int) is None,
{
    let v = chars_of(s);
    if v.len() > 0 && v[0] == '-' {
        assert(v@.subrange(1, v@.len() as int) =~= s@.drop_first());
        match parse_digits(&v, 1, 2147483648u64) {
            Some(x) => {
                if x == 2147483648u64 {
                    Some(i32::MIN)
                } else {
                    Some(-(x as i32))
                }
            },
            None => None,
        }
    } else {
        let start: usize = if v.len() > 0 && v[0] == '+' { 1 } else { 0 };
        assert(v@.subrange(start as int, v@.len() as int) =~= unsigned_digits(s@));
        match parse_digits(&v, start, i32::MAX as u64) {
            Some(x) => Some(x as i32),
            None => None,
        }
    }
}

/// Parses a string as `i64` (the semantics of `i64::from_str`).
pub fn parse_i64(s: &str) -> (r: Option<i64>)
    ensures
        r matches Some(x) ==> parse_signed(s@, i64::MIN as int, i64::MAX as int) == Some(x as int),
        r is None ==> parse_signed(s@, i64::MIN as int, i64::MAX as int) is None,
{
    let v = chars_of(s);
    if v.len() > 0 && v[0] == '-' {
        assert(v@.subrange(1, v@.len() as int) =~= s@.drop_first());
        match parse_digits(&v, 1, 9223372036854775808u64) {
            Some(x) => {
                if x == 9223372036854775808u64 {
                    Some(i64::MIN)
                } else {
                    Some(-(x as i64))
                }
            },
            None => None,
        }
    } else {
        let start: usize = if v.len() > 0 && v[0] == '+' { 1 } else { 0 };
        assert(v@.subrange(start as int, v@.len() as int) =~= unsigned_digits(s@));
        match parse_digits(&v, start, i64::MAX as u64) {
            Some(x) => Some(x as i64),
            None => None,
        }
    }
}


// ---------------------------------------------------------------------------
// Splitting on a character, as `str::split` with a `char` pattern does.

/// The pieces of `s` between occurrences of `sep`; always at least one piece.
pub open spec fn split_pieces(s: Seq<char>, sep: char) -> Seq<Seq<char>>
    decreases s.len(),
{
    if s.len() == 0 {
        seq![Seq::<char>::empty()]
    } else {
        let p = split_pieces(s.drop_last(), sep);
        if s.last() == sep {
            p.push(Seq::<char>::empty())
        } else {
            p.update(p.len() - 1, p.last().push(s.last()))
        }
    }
}

pub proof fn lemma_split_pieces_nonempty(s: Seq<char>, sep: char)
    ensures
        split_pieces(s, sep).len() >= 1,
    decreases s.len(),
{
    if s.len() > 0 {
        lemma_split_pieces_nonempty(s.drop_last(), sep);
    }
}

/// The views of a vector of strings.
pub open spec fn views(v: Seq<String>) -> Seq<Seq<char>> {
    v.map_values(|x: String| x@)
}

/// All pieces of `s` separated by `sep`, in order.
pub fn split_char(s: &str, sep: char) -> (r: Vec<String>)
    ensures
        views(r@) == split_pieces(s@, sep),
{
    let v = chars_of(s);
    let n = v.len();
    let mut out: Vec<String> = Vec::new();
    let mut cur = String::new();
    for i in 0..n
        invariant
            n == v@.len(),
            v@ == s@,
            views(out@).push(cur@) == split_pieces(v@.subrange(0, i as int), sep),
    {
        let ghost pre = v@.subrange(0, i as int);
        let ghost next = v@.subrange(0, i + 1);
        assert(next.drop_last() =~= pre);
        proof {
            lemma_split_pieces_nonempty(pre, sep);
        }
        let c = v[i];
        if c == sep {
            let done = cur;
            out.push(done);
            cur = String::new();
            assert(views(out@).push(cur@) =~= split_pieces(next, sep));
        } else {
            let ghost old_out = views(out@);
            let ghost old_cur = cur@;
            push_char(&mut cur, c);
            assert(views(out@).push(cur@) =~= split_pieces(next, sep));
        }
    }
    out.push(cur);
    assert(v@.subrange(0, n as int) =~= v@);
    assert(views(out@) =~= split_pieces(s@, sep));
    out
}

/// The `n`-th piece of `s` split on `sep` (`str::split(sep).nth(n)`).
pub fn split_nth(s: &str, sep: char, n: usize) -> (r: Option<String>)
    ensures
        r matches Some(x) ==> n < split_pieces(s@, sep).len() && x@ == split_pieces(s@, sep)[n as int],
        r is None ==> n >= split_pieces(s@, sep).len(),
{
    let mut pieces = split_char(s, sep);
    if n < pieces.len() {
        let x = pieces.swap_remove(n);
        Some(x)
    } else {
        None
    }
}

/// The last piece of `s` split on `sep` (`str::split(sep).last()`, never `None`).
pub fn split_last(s: &str, sep: char) -> (r: String)
    ensures
        r@ == split_pieces(s@, sep).last(),
{
    let mut pieces = split_char(s, sep);
    proof {
        lemma_split_pieces_nonempty(s@, sep);
    }
    pieces.pop().unwrap()
}

// ---------------------------------------------------------------------------
// `rsplit_once` with a `char` delimiter.

/// Whether index `i` holds the last occurrence of `c` in `s`.
pub open spec fn is_last_index_of(s: Seq<char>, c: char, i: int) -> bool {
    &&& 0 <= i < s.len()
    &&& s[i] == c
    &&& forall|j: int| i < j < s.len() ==> s[j] != c
}

/// Splits on the last occurrence of `sep` (`str::rsplit_once`).
pub fn rsplit_once(s: &str, sep: char) -> (r: Option<(String, String)>)
    ensures
        r matches Some((a, b)) ==> exists|i: int|
            is_last_index_of(s@, sep, i) && a@ == s@.subrange(0, i) && b@ == s@.subrange(
                i + 1,
                s@.len() as int,
            ),
        r is None ==> !s@.contains(sep),
{
    let v = chars_of(s);
    let n = v.len();
    let mut k = n;
    while k > 0
        invariant
            k <= n,
            n == v@.len(),
            v@ == s@,
            forall|j: int| k <= j < n ==> v@[j] != sep,
        decreases k,
    {
        if v[k - 1] == sep {
            let i = k - 1;
            let a = string_from_chars(&v[0..i]);
            let b = string_from_chars(&v[i + 1..n]);
            assert(is_last_index_of(s@, sep, i as int));
            return Some((a, b));
        }
        k = k - 1;
    }
    assert forall|j: int| 0 <= j < s@.len() implies s@[j] != sep by {}
    None
}

// ---------------------------------------------------------------------------
// Pattern trimming as `trim_start_matches` / `trim_end_matches` with a
// string pattern; an empty pattern removes nothing.

/// `s` with every leading repetition of the pattern `p` removed (`s` itself
/// for an empty pattern).
pub open spec fn trim_start_all(s: Seq<char>, p: Seq<char>) -> Seq<char>
    decreases s.len(),
{
    if p.len() > 0 && s.len() >= p.len() && s.subrange(0, p.len() as int) == p {
        trim_start_all(s.subrange(p.len() as int, s.len() as int), p)
    } else {
        s
    }
}

/// `s` with every trailing repetition of the pattern `p` removed (`s` itself
/// for an empty pattern).
pub open spec fn trim_end_all(s: Seq<char>, p: Seq<char>) -> Seq<char>
    decreases s.len(),
{
    if p.len() > 0 && s.len() >= p.len() && s.subrange(s.len() - p.len(), s.len() as int) == p {
        trim_end_all(s.subrange(0, s.len() - p.len()), p)
    } else {
        s
    }
}

/// Whether `v[at..at + p.len()]` equals `p`.
fn matches_at(v: &Vec<char>, at: usize, p: &Vec<char>) -> (r: bool)
    requires
        at + p@.len() <= v@.len(),
    ensures
        r == (v@.subrange(at as int, at + p@.len()) == p@),
{
    let m = p.len();
    for j in 0..m
        invariant
            m == p@.len(),
            at + m <= v.len(),
            forall|k: int| 0 <= k < j ==> v@[at + k] == p@[k],
    {
        if v[at + j] != p[j] {
            assert(v@.subrange(at as int, at + m)[j as int] != p@[j as int]);
            return false;
        }
    }
    assert(v@.subrange(at as int, at + m) =~= p@);
    true
}

/// Removes all leading repetitions of the pattern `pat`.
pub fn trim_start_matches(s: &str, pat: &str) -> (r: String)
    ensures
        r@ == trim_start_all(s@, pat@),
{
    let v = chars_of(s);
    let p = chars_of(pat);
    let n = v.len();
    let m = p.len();
    if m == 0 {
        return string_of(s);
    }
    let mut i: usize = 0;
    assert(v@.subrange(0, n as int) =~= v@);
    while m <= n - i && matches_at(&v, i, &p)
        invariant
            i <= n,
            n == v@.len(),
            m == p@.len(),
            m > 0,
            v@ == s@,
            p@ == pat@,
            trim_start_all(v@.subrange(i as int, n as int), p@) == trim_start_all(s@, pat@),
        decreases n - i,
    {
        let ghost rest = v@.subrange(i as int, n as int);
        assert(rest.subrange(0, m as int) =~= v@.subrange(i as int, i + m));
        assert(rest.subrange(m as int, rest.len() as int) =~= v@.subrange(i + m, n as int));
        i = i + m;
    }
    let ghost rest = v@.subrange(i as int, n as int);
    if m <= n - i {
        assert(rest.subrange(0, m as int) =~= v@.subrange(i as int, i + m));
    }
    string_from_chars(&v[i..n])
}

/// Removes all trailing repetitions of the pattern `pat`.
pub fn trim_end_matches(s: &str, pat: &str) -> (r: String)
    ensures
        r@ == trim_end_all(s@, pat@),
{
    let v = chars_of(s);
    let p = chars_of(pat);
    let n = v.len();
    let m = p.len();
    if m == 0 {
        return string_of(s);
    }
    let mut e: usize = n;
    assert(v@.subrange(0, n as int) =~= v@);
    while e >= m && matches_at(&v, e - m, &p)
        invariant
            e <= n,
            n == v@.len(),
            m == p@.len(),
            m > 0,
            v@ == s@,
            p@ == pat@,
            trim_end_all(v@.subrange(0, e as int), p@) == trim_end_all(s@, pat@),
        decreases e,
    {
        let ghost rest = v@.subrange(0, e as int);
        assert(rest.subrange(rest.len() - m, rest.len() as int) =~= v@.subrange(e - m, e as int));
        assert(rest.subrange(0, rest.len() - m) =~= v@.subrange(0, e - m));
        e = e - m;
    }
    let ghost rest = v@.subrange(0, e as int);
    if e >= m {
        assert(rest.subrange(rest.len() - m, rest.len() as int) =~= v@.subrange(e - m, e as int));
    }
    assert(v@.subrange(0, n as int) =~= s@);
    string_from_chars(&v[0..e])
}

// ---------------------------------------------------------------------------
// Replacing every non-overlapping occurrence, left to right (`str::replace`).

/// `to` before each character of `s` and once more at the end: what
/// replacing the empty pattern, which matches at every character boundary,
/// gives.
pub open spec fn interleave(s: Seq<char>, to: Seq<char>) -> Seq<char>
    decreases s.len(),
{
    if s.len() == 0 {
        to
    } else {
        to + seq![s[0]] + interleave(s.drop_first(), to)
    }
}

/// `s` with each leftmost non-overlapping occurrence of `from` replaced by
/// `to`; an empty `from` matches at every character boundary.
pub open spec fn replace_all(s: Seq<char>, from: Seq<char>, to: Seq<char>) -> Seq<char>
    decreases s.len(),
{
    if from.len() == 0 {
        interleave(s, to)
    } else if s.len() < from.len() {
        s
    } else if s.subrange(0, from.len() as int) == from {
        to + replace_all(s.subrange(from.len() as int, s.len() as int), from, to)
    } else {
        seq![s[0]] + replace_all(s.drop_first(), from, to)
    }
}

/// `to` before each character of `s` and once more at the end.
fn interleave_with(v: &Vec<char>, to: &str) -> (r: String)
    ensures
        r@ == interleave(v@, to@),
{
    let n = v.len();
    let mut out = String::new();
    let ghost o = out@;
    assert(v@.subrange(0, n as int) =~= v@);
    for i in 0..n
        invariant
            n == v@.len(),
            out@ + interleave(v@.subrange(i as int, n as int), to@) == interleave(v@, to@),
    {
        let ghost rest = v@.subrange(i as int, n as int);
        assert(rest.drop_first() =~= v@.subrange(i + 1, n as int));
        let ghost before = out@;
        push_str(&mut out, to);
        push_char(&mut out, v[i]);
        assert(out@ + interleave(v@.subrange(i + 1, n as int), to@) =~= before + interleave(rest, to@));
    }
    assert(v@.subrange(n as int, n as int) =~= Seq::<char>::empty());
    let ghost before = out@;
    push_str(&mut out, to);
    assert(out@ =~= before + interleave(Seq::<char>::empty(), to@));
    out
}

/// Replaces every occurrence of `from` by `to`, as `str::replace` does.
pub fn replace(s: &str, from: &str, to: &str) -> (r: String)
    ensures
        r@ == replace_all(s@, from@, to@),
{
    let v = chars_of(s);
    let f = chars_of(from);
    let n = v.len();
    let m = f.len();
    if m == 0 {
        return interleave_with(&v, to);
    }
    let mut out = String::new();
    let mut i: usize = 0;
    assert(v@.subrange(0, n as int) =~= v@);
    assert(out@ + replace_all(v@, f@, to@) =~= replace_all(v@, f@, to@));
    while i < n
        invariant
            i <= n,
            n == v@.len(),
            m == f@.len(),
            m > 0,
            v@ == s@,
            f@ == from@,
            out@ + replace_all(v@.subrange(i as int, n as int), f@, to@) == replace_all(
                s@,
                from@,
                to@,
            ),
        decreases n - i,
    {
        let ghost rest = v@.subrange(i as int, n as int);
        if m <= n - i && matches_at(&v, i, &f) {
            assert(rest.subrange(0, m as int) =~= v@.subrange(i as int, i + m));
            assert(rest.subrange(m as int, rest.len() as int) =~= v@.subrange(i + m, n as int));
            let ghost o = out@;
            push_str(&mut out, to);
            assert(out@ + replace_all(v@.subrange(i + m, n as int), f@, to@) =~= o + replace_all(
                rest,
                f@,
                to@,
            ));
            i = i + m;
        } else {
            if m <= n - i {
                assert(rest.subrange(0, m as int) =~= v@.subrange(i as int, i + m));
            }
            assert(rest.drop_first() =~= v@.subrange(i + 1, n as int));
            let ghost o = out@;
            push_char(&mut out, v[i]);
            assert(out@ + replace_all(v@.subrange(i + 1, n as int), f@, to@) =~= o + replace_all(
                rest,
                f@,
                to@,
            ));
            i = i + 1;
        }
    }
    assert(replace_all(v@.subrange(n as int, n as int), f@, to@) =~= Seq::<char>::empty());
    assert(out@ =~= out@ + Seq::<char>::empty());
    out
}

// ---------------------------------------------------------------------------
// ASCII case mapping.

/// The ASCII lowercase of a character (`char::to_ascii_lowercase`).
pub open spec fn ascii_lower(c: char) -> char {
    if 'A' <= c && c <= 'Z' {
        ((c as int + 32) as char)
    } else {
        c
    }
}

/// The ASCII lowercase of a sequence (`str::to_ascii_lowercase`).
pub open spec fn ascii_lower_seq(s: Seq<char>) -> Seq<char> {
    s.map_values(|c: char| ascii_lower(c))
}

/// The ASCII lowercase of a string.
pub fn to_ascii_lowercase(s: &str) -> (r: String)
    ensures
        r@ == ascii_lower_seq(s@),
{
    let v = chars_of(s);
    let n = v.len();
    let mut out = String::new();
    for i in 0..n
        invariant
            n == v@.len(),
            v@ == s@,
            out@ == ascii_lower_seq(v@.subrange(0, i as int)),
    {
        let c = v[i];
        let l = if 'A' <= c && c <= 'Z' {
            let b: u32 = (c as u32) + 32;
            let b8: u8 = b as u8;
            b8 as char
        } else {
            c
        };
        push_char(&mut out, l);
        assert(out@ =~= ascii_lower_seq(v@.subrange(0, i + 1)));
    }
    assert(v@.subrange(0, n as int) =~= v@);
    out
}


// ---------------------------------------------------------------------------
// Splitting into whitespace-separated words (`str::split_whitespace`).

/// Whether `c` has the Unicode `White_Space` property (`char::is_whitespace`).
pub open spec fn is_whitespace(c: char) -> bool {
    ||| ('\u{9}' <= c && c <= '\u{d}')
    ||| c == ' '
    ||| c == '\u{85}'
    ||| c == '\u{a0}'
    ||| c == '\u{1680}'
    ||| ('\u{2000}' <= c && c <= '\u{200a}')
    ||| c == '\u{2028}'
    ||| c == '\u{2029}'
    ||| c == '\u{202f}'
    ||| c == '\u{205f}'
    ||| c == '\u{3000}'
}

fn char_is_whitespace(c: char) -> (r: bool)
    ensures
        r == is_whitespace(c),
{
    ('\u{9}' <= c && c <= '\u{d}') || c == ' ' || c == '\u{85}' || c == '\u{a0}' || c == '\u{1680}'
        || ('\u{2000}' <= c && c <= '\u{200a}') || c == '\u{2028}' || c == '\u{2029}' || c
        == '\u{202f}' || c == '\u{205f}' || c == '\u{3000}'
}

/// The finished words of `s` and the word still being read, scanning from
/// the left.
pub open spec fn words_state(s: Seq<char>) -> (Seq<Seq<char>>, Seq<char>)
    decreases s.len(),
{
    if s.len() == 0 {
        (Seq::<Seq<char>>::empty(), Seq::<char>::empty())
    } else {
        let (ws, cur) = words_state(s.drop_last());
        if is_whitespace(s.last()) {
            if cur.len() > 0 {
                (ws.push(cur), Seq::<char>::empty())
            } else {
                (ws, Seq::<char>::empty())
            }
        } else {
            (ws, cur.push(s.last()))
        }
    }
}

/// The maximal runs of non-whitespace characters of `s`, in order.
pub open spec fn words(s: Seq<char>) -> Seq<Seq<char>> {
    let (ws, cur) = words_state(s);
    if cur.len() > 0 {
        ws.push(cur)
    } else {
        ws
    }
}

/// The whitespace-separated words of `s`.
pub fn split_whitespace(s: &str) -> (r: Vec<String>)
    ensures
        views(r@) == words(s@),
{
    let v = chars_of(s);
    let n = v.len();
    let mut out: Vec<String> = Vec::new();
    let mut cur = String::new();
    for i in 0..n
        invariant
            n == v@.len(),
            v@ == s@,
            (views(out@), cur@) == words_state(v@.subrange(0, i as int)),
    {
        let ghost pre = v@.subrange(0, i as int);
        let ghost next = v@.subrange(0, i + 1);
        assert(next.drop_last() =~= pre);
        let c = v[i];
        if char_is_whitespace(c) {
            if !cur.as_str().is_empty() {
                let done = cur;
                out.push(done);
                assert(views(out@) =~= words_state(pre).0.push(words_state(pre).1));
            }
            cur = String::new();
            assert(cur@ =~= Seq::<char>::empty());
        } else {
            push_char(&mut cur, c);
        }
    }
    assert(v@.subrange(0, n as int) =~= v@);
    if !cur.as_str().is_empty() {
        out.push(cur);
        assert(views(out@) =~= words(s@));
    }
    out
}


/// The uppercase of a string by the Unicode case mapping (`str::to_uppercase`).
pub uninterp spec fn spec_to_uppercase(s: Seq<char>) -> Seq<char>;

/// The uppercase of a string by the Unicode case mapping (`str::to_uppercase`).
#[verifier::external_body]
pub(crate) fn to_uppercase(s: &str) -> (r: String)
    ensures
        r@ == spec_to_uppercase(s@),
{
    s.to_uppercase()
}

} // verus!




