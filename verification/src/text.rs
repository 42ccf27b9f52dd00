//! Byte-string helpers: ASCII case-insensitive comparison and whitespace
//! trimming, shared by the directory matcher and the name builder.

use vstd::prelude::*;

verus! {

/// Lower-cases one byte in the ASCII range; every other byte is unchanged.
pub open spec fn ascii_lower(b: u8) -> u8 {
    if 65 <= b && b <= 90 {
        (b + 32) as u8
    } else {
        b
    }
}

/// ASCII case-insensitive equality of two byte strings.
pub open spec fn ascii_eq(a: Seq<u8>, b: Seq<u8>) -> bool {
    a.len() == b.len() && forall|i: int|
        0 <= i < a.len() ==> ascii_lower(a[i]) == ascii_lower(b[i])
}

/// Whether `b` is an ASCII whitespace byte.
pub open spec fn is_space(b: u8) -> bool {
    b == 32 || (9 <= b && b <= 13)
}

fn lower_byte(b: u8) -> (r: u8)
    ensures
        r == ascii_lower(b),
{
    if 65 <= b && b <= 90 {
        b + 32
    } else {
        b
    }
}

fn space_byte(b: u8) -> (r: bool)
    ensures
        r == is_space(b),
{
    b == 32 || (9 <= b && b <= 13)
}

/// Whether two byte strings are equal up to ASCII case.
pub fn eq_ignore_ascii_case(a: &Vec<u8>, b: &Vec<u8>) -> (r: bool)
    ensures
        r == ascii_eq(a@, b@),
{
    if a.len() != b.len() {
        return false;
    }
    let mut i: usize = 0;
    while i < a.len()
        invariant
            a@.len() == b@.len(),
            0 <= i <= a@.len(),
            forall|j: int| 0 <= j < i ==> ascii_lower(a@[j]) == ascii_lower(b@[j]),
        decreases a@.len() - i,
    {
        if lower_byte(a[i]) != lower_byte(b[i]) {
            return false;
        }
        i += 1;
    }
    true
}

/// `s` with its leading whitespace bytes removed.
pub open spec fn trim_start_rec(s: Seq<u8>) -> Seq<u8>
    decreases s.len(),
{
    if s.len() > 0 && is_space(s[0]) {
        trim_start_rec(s.drop_first())
    } else {
        s
    }
}

/// `s` with its trailing whitespace bytes removed.
pub open spec fn trim_end_rec(s: Seq<u8>) -> Seq<u8>
    decreases s.len(),
{
    if s.len() > 0 && is_space(s[s.len() - 1]) {
        trim_end_rec(s.drop_last())
    } else {
        s
    }
}

/// `s` with leading and trailing whitespace bytes removed.
pub open spec fn trimmed(s: Seq<u8>) -> Seq<u8> {
    trim_end_rec(trim_start_rec(s))
}

proof fn lemma_trim_start_skip(s: Seq<u8>, i: int)
    requires
        0 <= i <= s.len(),
        forall|k: int| 0 <= k < i ==> is_space(s[k]),
        i == s.len() || !is_space(s[i]),
    ensures
        trim_start_rec(s) == s.skip(i),
    decreases i,
{
    if i == 0 {
        assert(s.skip(0) =~= s);
    } else {
        lemma_trim_start_skip(s.drop_first(), i - 1);
        assert(s.drop_first().skip(i - 1) =~= s.skip(i));
    }
}

proof fn lemma_trim_end_take(s: Seq<u8>, j: int)
    requires
        0 <= j <= s.len(),
        forall|k: int| j <= k < s.len() ==> is_space(s[k]),
        j == 0 || !is_space(s[j - 1]),
    ensures
        trim_end_rec(s) == s.take(j),
    decreases s.len() - j,
{
    if j == s.len() {
        assert(s.take(j) =~= s);
    } else {
        lemma_trim_end_take(s.drop_last(), j);
        assert(s.drop_last().take(j) =~= s.take(j));
    }
}

/// A copy of `s` with leading and trailing ASCII whitespace removed.
pub fn trim_bytes(s: &Vec<u8>) -> (r: Vec<u8>)
    ensures
        r@ == trimmed(s@),
{
    let n: usize = s.len();
    let mut i: usize = 0;
    while i < n && space_byte(s[i])
        invariant
            0 <= i <= n,
            n == s@.len(),
            forall|k: int| 0 <= k < i ==> is_space(s@[k]),
        decreases n - i,
    {
        i += 1;
    }
    let mut j: usize = n;
    while j > i && space_byte(s[j - 1])
        invariant
            i <= j <= n,
            n == s@.len(),
            forall|k: int| j <= k < n ==> is_space(s@[k]),
        decreases j,
    {
        j -= 1;
    }
    let mut out: Vec<u8> = Vec::new();
    let mut k: usize = i;
    while k < j
        invariant
            i <= k <= j <= n,
            n == s@.len(),
            out@ =~= s@.subrange(i as int, k as int),
        decreases j - k,
    {
        out.push(s[k]);
        k += 1;
    }
    proof {
        lemma_trim_start_skip(s@, i as int);
        let t = s@.skip(i as int);
        lemma_trim_end_take(t, j - i);
        assert(t.take(j - i) =~= s@.subrange(i as int, j as int));
    }
    out
}

/// Appends a copy of `src` to `dst`.
pub fn append_bytes(dst: &mut Vec<u8>, src: &Vec<u8>)
    ensures
        final(dst)@ == old(dst)@ + src@,
{
    let mut k: usize = 0;
    while k < src.len()
        invariant
            0 <= k <= src@.len(),
            dst@ =~= old(dst)@ + src@.subrange(0, k as int),
        decreases src@.len() - k,
    {
        dst.push(src[k]);
        k += 1;
    }
    proof {
        assert(dst@ =~= old(dst)@ + src@);
    }
}

/// A fresh copy of `s`.
pub fn copy_bytes(s: &Vec<u8>) -> (r: Vec<u8>)
    ensures
        r@ == s@,
{
    let mut v: Vec<u8> = Vec::new();
    append_bytes(&mut v, s);
    proof {
        assert(v@ =~= s@);
    }
    v
}

/// The concatenation of two byte strings, as a fresh vector.
pub fn concat_bytes(a: &Vec<u8>, b: &Vec<u8>) -> (r: Vec<u8>)
    ensures
        r@ == a@ + b@,
{
    let mut v: Vec<u8> = Vec::new();
    append_bytes(&mut v, a);
    append_bytes(&mut v, b);
    proof {
        assert(v@ =~= a@ + b@);
    }
    v
}

/// The decimal digits of `n`, most significant first, as ASCII bytes.
pub open spec fn spec_digits(n: nat) -> Seq<u8>
    decreases n,
{
    if n < 10 {
        seq![(48 + n) as u8]
    } else {
        spec_digits(n / 10) + seq![(48 + n % 10) as u8]
    }
}

/// Writes `n` in decimal, most significant digit first.
pub fn digits_u64(n: u64) -> (r: Vec<u8>)
    ensures
        r@ == spec_digits(n as nat),
    decreases n,
{
    if n < 10 {
        let mut v: Vec<u8> = Vec::new();
        v.push(48 + (n as u8));
        proof {
            assert(v@ =~= spec_digits(n as nat));
        }
        v
    } else {
        let mut v = digits_u64(n / 10);
        v.push(48 + ((n % 10) as u8));
        proof {
            assert(v@ =~= spec_digits(n as nat));
        }
        v
    }
}

/// `n` in decimal, zero-padded on the left to at least two digits.
pub open spec fn spec_two_digits(n: nat) -> Seq<u8> {
    if n < 10 {
        seq![48u8] + spec_digits(n)
    } else {
        spec_digits(n)
    }
}

/// Writes `n` in decimal, zero-padded to at least two digits.
pub fn two_digit_bytes(n: u32) -> (r: Vec<u8>)
    ensures
        r@ == spec_two_digits(n as nat),
{
    let mut v: Vec<u8> = Vec::new();
    if n < 10 {
        v.push(48);
    }
    let d = digits_u64(n as u64);
    append_bytes(&mut v, &d);
    proof {
        assert(v@ =~= spec_two_digits(n as nat));
    }
    v
}

/// `n` in decimal, zero-padded on the left to at least four digits.
pub open spec fn spec_padded4(n: nat) -> Seq<u8> {
    if n < 10 {
        seq![48u8, 48, 48] + spec_digits(n)
    } else if n < 100 {
        seq![48u8, 48] + spec_digits(n)
    } else if n < 1000 {
        seq![48u8] + spec_digits(n)
    } else {
        spec_digits(n)
    }
}

/// Writes `n` in decimal, zero-padded to at least four digits.
pub fn padded4_bytes(n: u64) -> (r: Vec<u8>)
    ensures
        r@ == spec_padded4(n as nat),
{
    let mut v: Vec<u8> = Vec::new();
    if n < 10 {
        v.push(48);
        v.push(48);
        v.push(48);
    } else if n < 100 {
        v.push(48);
        v.push(48);
    } else if n < 1000 {
        v.push(48);
    }
    let d = digits_u64(n);
    append_bytes(&mut v, &d);
    proof {
        assert(v@ =~= spec_padded4(n as nat));
    }
    v
}

/// A year in decimal, zero-padded to at least four digits, with a leading
/// `-` when negative.
pub open spec fn spec_year(y: int) -> Seq<u8> {
    if y < 0 {
        seq![45u8] + spec_padded4((-y) as nat)
    } else {
        spec_padded4(y as nat)
    }
}

/// Writes a year, zero-padded to at least four digits, `-`-signed when
/// negative.
pub fn year_bytes(y: i32) -> (r: Vec<u8>)
    ensures
        r@ == spec_year(y as int),
{
    if y >= 0 {
        padded4_bytes(y as u64)
    } else {
        let mag: u64 = (-(y as i64)) as u64;
        let mut v: Vec<u8> = Vec::new();
        v.push(45);
        let d = padded4_bytes(mag);
        append_bytes(&mut v, &d);
        proof {
            assert(v@ =~= spec_year(y as int));
        }
        v
    }
}

} // verus!
