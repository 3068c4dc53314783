//! Exact text forms of numbers: decimal, thousands-separated, compact
//! (K / M), dollars and cents, durations and ten-cell bars.
use vstd::prelude::*;
use vstd::string::*;

verus! {

/// The decimal digit character for `d` (taken in 0..=9).
pub open spec fn digit_char(d: int) -> char {
    if d == 0 {
        '0'
    } else if d == 1 {
        '1'
    } else if d == 2 {
        '2'
    } else if d == 3 {
        '3'
    } else if d == 4 {
        '4'
    } else if d == 5 {
        '5'
    } else if d == 6 {
        '6'
    } else if d == 7 {
        '7'
    } else if d == 8 {
        '8'
    } else {
        '9'
    }
}

/// Decimal form of `n`, without leading zeros.
pub open spec fn dec(n: nat) -> Seq<char>
    decreases n,
{
    if n < 10 {
        seq![digit_char(n as int)]
    } else {
        dec(n / 10).push(digit_char((n % 10) as int))
    }
}

/// Exactly three digits of `n % 1000`, zero-padded.
pub open spec fn pad3(n: nat) -> Seq<char> {
    seq![
        digit_char(((n / 100) % 10) as int),
        digit_char(((n / 10) % 10) as int),
        digit_char((n % 10) as int),
    ]
}

/// Exactly two digits of `n % 100`, zero-padded.
pub open spec fn pad2(n: nat) -> Seq<char> {
    seq![digit_char(((n / 10) % 10) as int), digit_char((n % 10) as int)]
}

/// Decimal form of `n` with a comma between groups of three digits.
pub open spec fn grouped(n: nat) -> Seq<char>
    decreases n,
{
    if n < 1000 {
        dec(n)
    } else {
        grouped(n / 1000) + seq![','] + pad3(n % 1000)
    }
}

/// Compact form: whole millions with `M` from 1,000,000 on, whole
/// thousands with `K` from 1,000 on, else the plain number. Always rounds
/// down.
pub open spec fn compact(n: nat) -> Seq<char> {
    if n >= 1_000_000 {
        dec(n / 1_000_000) + seq!['M']
    } else if n >= 1000 {
        dec(n / 1000) + seq!['K']
    } else {
        dec(n)
    }
}

/// `n / d` rounded to the nearest integer, ties to the even neighbour.
pub open spec fn round_half_even(n: nat, d: nat) -> nat {
    let q = n / d;
    let r = n % d;
    if 2 * r > d || (2 * r == d && q % 2 == 1) {
        q + 1
    } else {
        q
    }
}

/// A dollar amount given in millionths: `$`, whole dollars, and cents
/// rounded half to even.
pub open spec fn usd(micros: nat) -> Seq<char> {
    let cents = round_half_even(micros, 10_000);
    seq!['$'] + dec(cents / 100) + seq!['.'] + pad2(cents % 100)
}

/// A duration in milliseconds as its two leading units (`1h 5m`,
/// `5m 45s`, or `12s`); `spaced` puts a blank between the two units.
pub open spec fn duration_text(ms: nat, spaced: bool) -> Seq<char> {
    let secs = ms / 1000;
    let h = secs / 3600;
    let m = (secs % 3600) / 60;
    let s = secs % 60;
    let sp = if spaced {
        seq![' ']
    } else {
        Seq::<char>::empty()
    };
    if h > 0 {
        dec(h) + seq!['h'] + sp + dec(m) + seq!['m']
    } else if m > 0 {
        dec(m) + seq!['m'] + sp + dec(s) + seq!['s']
    } else {
        dec(s) + seq!['s']
    }
}

/// `k` copies of the character `c`.
pub open spec fn repeat(c: char, k: nat) -> Seq<char>
    decreases k,
{
    if k == 0 {
        Seq::<char>::empty()
    } else {
        repeat(c, (k - 1) as nat).push(c)
    }
}

/// A ten-cell bar with `filled` (at most ten) full cells, then empty ones.
pub open spec fn bar(filled: nat) -> Seq<char> {
    repeat('▓', filled) + repeat('░', (10 - filled) as nat)
}

fn digit_str(d: u128) -> (r: &'static str)
    requires
        d < 10,
    ensures
        r@ == seq![digit_char(d as int)],
{
    if d == 0 {
        proof { reveal_strlit("0"); }
        "0"
    } else if d == 1 {
        proof { reveal_strlit("1"); }
        "1"
    } else if d == 2 {
        proof { reveal_strlit("2"); }
        "2"
    } else if d == 3 {
        proof { reveal_strlit("3"); }
        "3"
    } else if d == 4 {
        proof { reveal_strlit("4"); }
        "4"
    } else if d == 5 {
        proof { reveal_strlit("5"); }
        "5"
    } else if d == 6 {
        proof { reveal_strlit("6"); }
        "6"
    } else if d == 7 {
        proof { reveal_strlit("7"); }
        "7"
    } else if d == 8 {
        proof { reveal_strlit("8"); }
        "8"
    } else {
        proof { reveal_strlit("9"); }
        "9"
    }
}

/// Whether two strings hold the same characters.
pub fn str_eq(a: &str, b: &str) -> (r: bool)
    ensures
        r == (a@ == b@),
{
    let n = a.unicode_len();
    if n != b.unicode_len() {
        return false;
    }
    let mut i: usize = 0;
    while i < n
        invariant
            n == a@.len(),
            n == b@.len(),
            i <= n,
            forall|j: int| 0 <= j < i ==> a@[j] == b@[j],
        decreases n - i,
    {
        if a.get_char(i) != b.get_char(i) {
            return false;
        }
        i = i + 1;
    }
    assert(a@ =~= b@);
    true
}

/// A copy of an optional string.
pub fn clone_opt(o: &Option<String>) -> (r: Option<String>)
    ensures
        r.deep_view() == o.deep_view(),
{
    match o {
        Some(s) => Some(s.clone()),
        None => None,
    }
}

/// Appends the decimal form of `n`.
pub fn push_decimal(out: &mut String, n: u128)
    ensures
        final(out)@ == old(out)@ + dec(n as nat),
    decreases n,
{
    let ghost start = out@;
    if n >= 10 {
        push_decimal(out, n / 10);
    }
    out.append(digit_str(n % 10));
    proof {
        if n >= 10 {
            assert(out@ =~= start + dec(n as nat));
        } else {
            assert(out@ =~= start + dec(n as nat));
        }
    }
}

/// Decimal form of `n`.
pub fn decimal(n: u128) -> (r: String)
    ensures
        r@ == dec(n as nat),
{
    let mut s = String::new();
    push_decimal(&mut s, n);
    assert(s@ =~= dec(n as nat));
    s
}

/// Appends exactly three digits of `n % 1000`.
fn push_pad3(out: &mut String, n: u128)
    ensures
        final(out)@ == old(out)@ + pad3(n as nat),
{
    let ghost start = out@;
    out.append(digit_str((n / 100) % 10));
    out.append(digit_str((n / 10) % 10));
    out.append(digit_str(n % 10));
    assert(out@ =~= start + pad3(n as nat));
}

/// Appends exactly two digits of `n % 100`.
fn push_pad2(out: &mut String, n: u128)
    ensures
        final(out)@ == old(out)@ + pad2(n as nat),
{
    let ghost start = out@;
    out.append(digit_str((n / 10) % 10));
    out.append(digit_str(n % 10));
    assert(out@ =~= start + pad2(n as nat));
}

/// Appends `n` with thousands separators.
pub fn push_grouped(out: &mut String, n: u128)
    ensures
        final(out)@ == old(out)@ + grouped(n as nat),
    decreases n,
{
    let ghost start = out@;
    if n < 1000 {
        push_decimal(out, n);
    } else {
        push_grouped(out, n / 1000);
        proof { reveal_strlit(","); }
        out.append(",");
        push_pad3(out, n % 1000);
        assert((n % 1000) as nat % 1000 == (n as nat) % 1000);
    }
    assert(out@ =~= start + grouped(n as nat));
}

/// Appends the compact (K / M) form of `n`.
pub fn push_compact(out: &mut String, n: u128)
    ensures
        final(out)@ == old(out)@ + compact(n as nat),
{
    let ghost start = out@;
    if n >= 1_000_000 {
        push_decimal(out, n / 1_000_000);
        proof { reveal_strlit("M"); }
        out.append("M");
    } else if n >= 1000 {
        push_decimal(out, n / 1000);
        proof { reveal_strlit("K"); }
        out.append("K");
    } else {
        push_decimal(out, n);
    }
    assert(out@ =~= start + compact(n as nat));
}

/// `n / d` rounded half to even.
pub fn div_round_half_even(n: u128, d: u64) -> (r: u128)
    requires
        d > 0,
    ensures
        r == round_half_even(n as nat, d as nat),
{
    let q = n / (d as u128);
    let rem = n % (d as u128);
    if 2 * rem > d as u128 || (2 * rem == d as u128 && q % 2 == 1) {
        assert(d >= 2);
        assert(q * 2 <= n) by (nonlinear_arith)
            requires q == n / (d as u128), d >= 2;
        q + 1
    } else {
        q
    }
}

/// Appends a dollar amount given in millionths.
pub fn push_usd(out: &mut String, micros: u128)
    ensures
        final(out)@ == old(out)@ + usd(micros as nat),
{
    let ghost start = out@;
    let cents = div_round_half_even(micros, 10_000);
    proof { reveal_strlit("$"); reveal_strlit("."); }
    out.append("$");
    push_decimal(out, cents / 100);
    out.append(".");
    push_pad2(out, cents % 100);
    assert((cents % 100) as nat % 100 == cents as nat % 100);
    assert(out@ =~= start + usd(micros as nat));
}

/// Appends a duration in milliseconds as its two leading units.
pub fn push_duration(out: &mut String, ms: u64, spaced: bool)
    ensures
        final(out)@ == old(out)@ + duration_text(ms as nat, spaced),
{
    let ghost start = out@;
    let secs = ms / 1000;
    let h = secs / 3600;
    let m = (secs % 3600) / 60;
    let s = secs % 60;
    let sp: &str = if spaced { " " } else { "" };
    proof {
        reveal_strlit(" ");
        reveal_strlit("");
        reveal_strlit("h");
        reveal_strlit("m");
        reveal_strlit("s");
    }
    let ghost spv = if spaced { seq![' '] } else { Seq::<char>::empty() };
    assert(sp@ == spv);
    if h > 0 {
        push_decimal(out, h as u128);
        out.append("h");
        out.append(sp);
        push_decimal(out, m as u128);
        out.append("m");
    } else if m > 0 {
        push_decimal(out, m as u128);
        out.append("m");
        out.append(sp);
        push_decimal(out, s as u128);
        out.append("s");
    } else {
        push_decimal(out, s as u128);
        out.append("s");
    }
    assert(out@ =~= start + duration_text(ms as nat, spaced));
}

/// Appends `k` copies of the one-character string `c`.
pub fn push_repeat(out: &mut String, c: &str, k: u64)
    requires
        c@.len() == 1,
    ensures
        final(out)@ == old(out)@ + repeat(c@[0], k as nat),
{
    let ghost start = out@;
    let mut i: u64 = 0;
    while i < k
        invariant
            i <= k,
            c@.len() == 1,
            out@ == start + repeat(c@[0], i as nat),
        decreases k - i,
    {
        out.append(c);
        i = i + 1;
        assert(c@ =~= seq![c@[0]]);
        assert(out@ =~= start + repeat(c@[0], i as nat));
    }
}

/// Appends a ten-cell bar with `filled` full cells.
pub fn push_bar(out: &mut String, filled: u64)
    requires
        filled <= 10,
    ensures
        final(out)@ == old(out)@ + bar(filled as nat),
{
    let ghost start = out@;
    proof {
        reveal_strlit("▓");
        reveal_strlit("░");
    }
    push_repeat(out, "▓", filled);
    push_repeat(out, "░", 10 - filled);
    assert(out@ =~= start + bar(filled as nat));
}

} // verus!
