//! Small string operations with their specifications: equality, trimming a
//! repeated character at either end, concatenation and decimal formatting.

use vstd::prelude::*;
use vstd::string::{StrSliceExecFns, StringExecFns, StringSliceAdditionalSpecFns};
use vstd::utf8::{encode_utf8, encode_utf8_decode_utf8};
use crate::bytes::bytes_eq;

verus! {

/// Whether two string slices hold the same characters.
pub fn str_eq(a: &str, b: &str) -> (r: bool)
    ensures
        r == (a@ == b@),
{
    let r = bytes_eq(a.as_bytes(), b.as_bytes());
    proof {
        encode_utf8_decode_utf8(a@);
        encode_utf8_decode_utf8(b@);
    }
    r
}

/// `s` without every trailing `c`.
pub open spec fn trim_end_spec(s: Seq<char>, c: char) -> Seq<char>
    decreases s.len(),
{
    if s.len() > 0 && s.last() == c {
        trim_end_spec(s.drop_last(), c)
    } else {
        s
    }
}

/// `s` without every leading `c`.
pub open spec fn trim_start_spec(s: Seq<char>, c: char) -> Seq<char>
    decreases s.len(),
{
    if s.len() > 0 && s[0] == c {
        trim_start_spec(s.drop_first(), c)
    } else {
        s
    }
}

proof fn lemma_trim_end_prefix(s: Seq<char>, c: char, k: int)
    requires
        0 <= k <= s.len(),
        forall|j: int| k <= j < s.len() ==> s[j] == c,
    ensures
        trim_end_spec(s, c) == trim_end_spec(s.subrange(0, k), c),
    decreases s.len() - k,
{
    if k < s.len() {
        assert(s.drop_last() =~= s.subrange(0, s.len() - 1));
        lemma_trim_end_prefix(s.drop_last(), c, k);
        assert(s.drop_last().subrange(0, k) =~= s.subrange(0, k));
    } else {
        assert(s.subrange(0, k) =~= s);
    }
}

proof fn lemma_trim_start_suffix(s: Seq<char>, c: char, k: int)
    requires
        0 <= k <= s.len(),
        forall|j: int| 0 <= j < k ==> s[j] == c,
    ensures
        trim_start_spec(s, c) == trim_start_spec(s.subrange(k, s.len() as int), c),
    decreases k,
{
    if k > 0 {
        lemma_trim_start_suffix(s.drop_first(), c, k - 1);
        assert(s.drop_first().subrange(k - 1, s.drop_first().len() as int) =~= s.subrange(k, s.len() as int));
    } else {
        assert(s.subrange(0, s.len() as int) =~= s);
    }
}

/// Removes every trailing `c`.
pub fn trim_end_char(s: &str, c: char) -> (r: String)
    ensures
        r@ == trim_end_spec(s@, c),
{
    let n = s.unicode_len();
    let mut k: usize = n;
    while k > 0 && s.get_char(k - 1) == c
        invariant
            k <= n,
            n == s@.len(),
            forall|j: int| k <= j < n ==> s@[j] == c,
        decreases k,
    {
        k = k - 1;
    }
    proof {
        lemma_trim_end_prefix(s@, c, k as int);
        let t = s@.subrange(0, k as int);
        if k > 0 {
            assert(t.last() == s@[k - 1]);
        }
    }
    s.substring_char(0, k).to_owned()
}

/// Removes every leading `c`.
pub fn trim_start_char(s: &str, c: char) -> (r: String)
    ensures
        r@ == trim_start_spec(s@, c),
{
    let n = s.unicode_len();
    let mut k: usize = 0;
    while k < n && s.get_char(k) == c
        invariant
            k <= n,
            n == s@.len(),
            forall|j: int| 0 <= j < k ==> s@[j] == c,
        decreases n - k,
    {
        k = k + 1;
    }
    proof {
        lemma_trim_start_suffix(s@, c, k as int);
    }
    s.substring_char(k, n).to_owned()
}

/// The concatenation of two strings.
pub fn concat(a: &str, b: &str) -> (r: String)
    ensures
        r@ == a@ + b@,
{
    let mut r = a.to_owned();
    r.append(b);
    r
}

/// The decimal digits of `n` (no leading zeros; "0" for zero).
pub open spec fn decimal_spec(n: nat) -> Seq<char>
    decreases n,
{
    if n < 10 {
        seq![digit_char(n)]
    } else {
        decimal_spec(n / 10) + seq![digit_char(n % 10)]
    }
}

/// The character of a decimal digit.
pub open spec fn digit_char(d: nat) -> char {
    if d == 0 { '0' } else if d == 1 { '1' } else if d == 2 { '2' } else if d == 3 { '3' }
    else if d == 4 { '4' } else if d == 5 { '5' } else if d == 6 { '6' } else if d == 7 { '7' }
    else if d == 8 { '8' } else { '9' }
}

fn digit_str(d: u16) -> (r: &'static str)
    requires
        d < 10,
    ensures
        r@ == seq![digit_char(d as nat)],
{
    proof {
        reveal_strlit("0");
        reveal_strlit("1");
        reveal_strlit("2");
        reveal_strlit("3");
        reveal_strlit("4");
        reveal_strlit("5");
        reveal_strlit("6");
        reveal_strlit("7");
        reveal_strlit("8");
        reveal_strlit("9");
    }
    if d == 0 { "0" } else if d == 1 { "1" } else if d == 2 { "2" } else if d == 3 { "3" }
    else if d == 4 { "4" } else if d == 5 { "5" } else if d == 6 { "6" } else if d == 7 { "7" }
    else if d == 8 { "8" } else { "9" }
}

/// The decimal representation of a 16-bit number.
pub fn u16_decimal(n: u16) -> (r: String)
    ensures
        r@ == decimal_spec(n as nat),
    decreases n,
{
    if n < 10 {
        digit_str(n).to_owned()
    } else {
        let mut r = u16_decimal(n / 10);
        r.append(digit_str(n % 10));
        r
    }
}


/// Trimming leaves no trailing `c`, and trimming again changes nothing.
pub proof fn lemma_trim_end_done(s: Seq<char>, c: char)
    ensures
        trim_end_spec(s, c).len() == 0 || trim_end_spec(s, c).last() != c,
        trim_end_spec(trim_end_spec(s, c), c) == trim_end_spec(s, c),
    decreases s.len(),
{
    if s.len() > 0 && s.last() == c {
        lemma_trim_end_done(s.drop_last(), c);
    }
}

/// Trimming leaves no leading `c`, and trimming again changes nothing.
pub proof fn lemma_trim_start_done(s: Seq<char>, c: char)
    ensures
        trim_start_spec(s, c).len() == 0 || trim_start_spec(s, c)[0] != c,
        trim_start_spec(trim_start_spec(s, c), c) == trim_start_spec(s, c),
    decreases s.len(),
{
    if s.len() > 0 && s[0] == c {
        lemma_trim_start_done(s.drop_first(), c);
    }
}


proof fn lemma_digit_char(d: nat)
    requires
        d < 10,
    ensures
        digit_char(d) as int == '0' as int + d,
        '0' <= digit_char(d) <= '9',
{
    assert('0' as int == 48 && '1' as int == 49 && '2' as int == 50 && '3' as int == 51 && '4' as int == 52
        && '5' as int == 53 && '6' as int == 54 && '7' as int == 55 && '8' as int == 56 && '9' as int == 57);
}

/// The number that a string of decimal digits denotes.
pub open spec fn digits_value(s: Seq<char>) -> int
    decreases s.len(),
{
    if s.len() == 0 { 0 } else { digits_value(s.drop_last()) * 10 + (s.last() as int - '0' as int) }
}

/// The decimal form of `n` is made of the digits '0' to '9', starts with a
/// non-zero digit unless `n` is 0, and denotes `n`.
pub proof fn law_decimal(n: nat)
    ensures
        decimal_spec(n).len() >= 1,
        forall|i: int| 0 <= i < decimal_spec(n).len() ==> '0' <= #[trigger] decimal_spec(n)[i] <= '9',
        n > 0 ==> decimal_spec(n)[0] != '0',
        digits_value(decimal_spec(n)) == n,
    decreases n,
{
    lemma_digit_char(n % 10);
    if n < 10 {
        lemma_digit_char(n);
        assert(digits_value(decimal_spec(n)) == digits_value(seq![digit_char(n)]));
        assert(seq![digit_char(n)].drop_last() =~= Seq::<char>::empty());
        assert(digits_value(Seq::<char>::empty()) == 0);
        assert(digits_value(seq![digit_char(n)]) == digit_char(n) as int - '0' as int);
    }
    if n >= 10 {
        law_decimal(n / 10);
        let s = decimal_spec(n);
        assert(s.drop_last() =~= decimal_spec(n / 10));
        assert(s[0] == decimal_spec(n / 10)[0]);
        assert(s.last() == digit_char(n % 10));
        assert(digits_value(s) == digits_value(decimal_spec(n / 10)) * 10 + (n % 10));
        assert((n / 10) * 10 + n % 10 == n);
    }
}


/// Trimming the end keeps a prefix of the string and removes only `c`s: the
/// string is the trimmed string followed by nothing but `c`, and the trimmed
/// string does not end in `c`.
pub proof fn law_trim_end(s: Seq<char>, c: char)
    ensures
        trim_end_spec(s, c).len() <= s.len(),
        s.subrange(0, trim_end_spec(s, c).len() as int) == trim_end_spec(s, c),
        forall|j: int| trim_end_spec(s, c).len() <= j < s.len() ==> #[trigger] s[j] == c,
        trim_end_spec(s, c).len() == 0 || trim_end_spec(s, c).last() != c,
    decreases s.len(),
{
    lemma_trim_end_done(s, c);
    if s.len() > 0 && s.last() == c {
        law_trim_end(s.drop_last(), c);
        let t = trim_end_spec(s, c);
        let d = s.drop_last();
        assert(s.subrange(0, t.len() as int) =~= d.subrange(0, t.len() as int));
        assert forall|j: int| t.len() <= j < s.len() implies #[trigger] s[j] == c by {
            if j < s.len() - 1 {
                assert(s[j] == d[j]);
            }
        }
    } else {
        assert(s.subrange(0, s.len() as int) =~= s);
    }
}

/// Trimming the start keeps a suffix of the string and removes only `c`s:
/// the string is nothing but `c` followed by the trimmed string, and the
/// trimmed string does not start with `c`.
pub proof fn law_trim_start(s: Seq<char>, c: char)
    ensures
        trim_start_spec(s, c).len() <= s.len(),
        s.subrange(s.len() - trim_start_spec(s, c).len(), s.len() as int) == trim_start_spec(s, c),
        forall|j: int| 0 <= j < s.len() - trim_start_spec(s, c).len() ==> #[trigger] s[j] == c,
        trim_start_spec(s, c).len() == 0 || trim_start_spec(s, c)[0] != c,
    decreases s.len(),
{
    lemma_trim_start_done(s, c);
    if s.len() > 0 && s[0] == c {
        law_trim_start(s.drop_first(), c);
        let t = trim_start_spec(s, c);
        let d = s.drop_first();
        assert(s.subrange(s.len() - t.len(), s.len() as int) =~= d.subrange(d.len() - t.len(), d.len() as int));
        assert forall|j: int| 0 <= j < s.len() - t.len() implies #[trigger] s[j] == c by {
            if j > 0 {
                assert(s[j] == d[j - 1]);
            }
        }
    } else {
        assert(s.subrange(0, s.len() as int) =~= s);
    }
}

} // verus!
