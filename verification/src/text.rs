//! Text building blocks: decimal numerals, zero padding, the duration and
//! clock formats shown on screen, and the few `String` operations of std
//! that the screens need.

use vstd::prelude::*;

verus! {

/// The character of a decimal digit.
pub open spec fn digit_char(d: int) -> char {
    if d == 0 { '0' }
    else if d == 1 { '1' }
    else if d == 2 { '2' }
    else if d == 3 { '3' }
    else if d == 4 { '4' }
    else if d == 5 { '5' }
    else if d == 6 { '6' }
    else if d == 7 { '7' }
    else if d == 8 { '8' }
    else { '9' }
}

/// The decimal numeral of `n`, most significant digit first, no leading zeros.
pub open spec fn decimal(n: nat) -> Seq<char>
    decreases n,
{
    if n < 10 {
        seq![digit_char(n as int)]
    } else {
        decimal(n / 10).push(digit_char((n % 10) as int))
    }
}

/// The value of a decimal digit character.
pub open spec fn digit_value(c: char) -> int {
    (c as u32) as int - 48
}

/// The number a string of decimal digits denotes.
pub open spec fn numeral_value(s: Seq<char>) -> int
    decreases s.len(),
{
    if s.len() == 0 {
        0
    } else {
        numeral_value(s.drop_last()) * 10 + digit_value(s.last())
    }
}

/// The digit character of `d` has the value `d`.
proof fn lemma_digit_value(d: int)
    requires
        0 <= d < 10,
    ensures
        digit_value(digit_char(d)) == d,
        '0' <= digit_char(d) <= '9',
{
    assert('0' as u32 == 48 && '1' as u32 == 49 && '2' as u32 == 50 && '3' as u32 == 51
        && '4' as u32 == 52 && '5' as u32 == 53 && '6' as u32 == 54 && '7' as u32 == 55
        && '8' as u32 == 56 && '9' as u32 == 57);
}

/// A decimal numeral is made of digits, starts with a non-zero digit
/// unless it is `"0"`, and reads back as the number it was made from.
pub proof fn law_decimal_reads_back(n: nat)
    ensures
        numeral_value(decimal(n)) == n,
        decimal(n).len() > 0,
        forall|i: int| 0 <= i < decimal(n).len() ==> '0' <= #[trigger] decimal(n)[i] <= '9',
        n > 0 ==> decimal(n)[0] != '0',
    decreases n,
{
    lemma_digit_value((n % 10) as int);
    if n >= 10 {
        law_decimal_reads_back(n / 10);
        let d = decimal(n / 10);
        assert(decimal(n) == d.push(digit_char((n % 10) as int)));
        assert(d.push(digit_char((n % 10) as int)).drop_last() =~= d);
        assert(n == (n / 10) * 10 + n % 10);
        assert(numeral_value(decimal(n)) == numeral_value(d) * 10 + (n % 10));
    } else {
        assert(decimal(n).drop_last() =~= Seq::<char>::empty());
        assert(numeral_value(Seq::<char>::empty()) == 0);
    }
}

/// A non-negative number as `{:02}` prints it is made of at least two
/// digits, exactly two below 100, and reads back as the number.
pub proof fn law_pad2_reads_back(n: nat)
    ensures
        numeral_value(pad2_text(n as int)) == n,
        pad2_text(n as int).len() >= 2,
        n < 100 ==> pad2_text(n as int).len() == 2,
        forall|i: int| 0 <= i < pad2_text(n as int).len() ==> '0' <= #[trigger] pad2_text(n as int)[i] <= '9',
{
    law_decimal_reads_back(n);
    if n < 10 {
        lemma_digit_value(n as int);
        let p = pad2_text(n as int);
        assert(p == seq!['0', digit_char(n as int)]);
        assert(p.drop_last() =~= seq!['0']);
        assert(seq!['0'].drop_last() =~= Seq::<char>::empty());
        assert(numeral_value(Seq::<char>::empty()) == 0);
        lemma_digit_value(0);
        assert(numeral_value(seq!['0']) == 0);
    } else {
        law_decimal_reads_back(n / 10);
        assert(decimal(n) == decimal(n / 10).push(digit_char((n % 10) as int)));
        if n < 100 {
            assert(decimal(n / 10).len() == 1);
        }
    }
}

/// A clock reading shows hours, minutes and seconds, each as `{:02}`
/// prints it, separated by colons; the minutes and seconds are below 60 and
/// two digits long, and the three read back as the seconds shown.
pub proof fn law_clock_reads_back(secs: nat)
    ensures
        ({
            let h = secs / 3600;
            let m = (secs % 3600) / 60;
            let s = secs % 60;
            &&& clock_text(secs) == pad2_text(h as int) + seq![':'] + pad2_text(m as int) + seq![':']
                + pad2_text(s as int)
            &&& m < 60 && s < 60
            &&& h * 3600 + m * 60 + s == secs
            &&& numeral_value(pad2_text(h as int)) == h
            &&& numeral_value(pad2_text(m as int)) == m
            &&& numeral_value(pad2_text(s as int)) == s
            &&& pad2_text(h as int).len() >= 2
            &&& pad2_text(m as int).len() == 2
            &&& pad2_text(s as int).len() == 2
        }),
{
    let h = secs / 3600;
    let m = (secs % 3600) / 60;
    let s = secs % 60;
    law_pad2_reads_back(h);
    law_pad2_reads_back(m);
    law_pad2_reads_back(s);
    assert(secs == h * 3600 + secs % 3600);
    assert(secs % 3600 == m * 60 + (secs % 3600) % 60);
    assert((secs % 3600) % 60 == secs % 60) by (nonlinear_arith)
        requires secs >= 0;
}

/// A non-negative duration shows its whole hours as a plain numeral, then
/// `"h "`, then its remaining whole minutes as two digits, then `"m"`; the
/// two read back as the hours and minutes that fit in the seconds, with less
/// than a minute left over.
pub proof fn law_duration_reads_back(secs: nat)
    ensures
        ({
            let h = secs / 3600;
            let m = (secs % 3600) / 60;
            &&& duration_text(secs as int) == decimal(h) + seq!['h', ' '] + pad2_text(m as int) + seq!['m']
            &&& numeral_value(decimal(h)) == h
            &&& numeral_value(pad2_text(m as int)) == m
            &&& pad2_text(m as int).len() == 2
            &&& m < 60
            &&& h * 3600 + m * 60 <= secs < h * 3600 + m * 60 + 60
        }),
{
    let h = secs / 3600;
    let m = (secs % 3600) / 60;
    law_decimal_reads_back(h);
    law_pad2_reads_back(m);
    assert(secs == h * 3600 + secs % 3600);
    assert(secs % 3600 == m * 60 + (secs % 3600) % 60);
}

/// A signed integer as `{}` prints it.
pub open spec fn int_text(i: int) -> Seq<char> {
    if i < 0 {
        seq!['-'] + decimal((-i) as nat)
    } else {
        decimal(i as nat)
    }
}

/// A signed integer as `{:02}` prints it: zero-padded to two characters,
/// the sign counting towards the width.
pub open spec fn pad2_text(i: int) -> Seq<char> {
    if i < 0 {
        seq!['-'] + decimal((-i) as nat)
    } else if i < 10 {
        seq!['0'] + decimal(i as nat)
    } else {
        decimal(i as nat)
    }
}

/// Integer division rounding towards zero, as Rust's `/` does.
pub open spec fn trunc_div(a: int, b: int) -> int {
    if a >= 0 { a / b } else { -((-a) / b) }
}

/// The remainder that goes with `trunc_div`, as Rust's `%` does: it has the
/// sign of `a`.
pub open spec fn trunc_rem(a: int, b: int) -> int {
    if a >= 0 { a % b } else { -((-a) % b) }
}

/// `secs` as whole hours and minutes: `"{h}h {m:02}m"`.
pub open spec fn duration_text(secs: int) -> Seq<char> {
    let h = trunc_div(secs, 3600);
    let m = trunc_div(trunc_rem(secs, 3600), 60);
    int_text(h) + seq!['h', ' '] + pad2_text(m) + seq!['m']
}

/// `secs` as a clock reading: `"{hh:02}:{mm:02}:{ss:02}"`.
pub open spec fn clock_text(secs: nat) -> Seq<char> {
    pad2_text((secs / 3600) as int) + seq![':'] + pad2_text(((secs % 3600) / 60) as int)
        + seq![':'] + pad2_text((secs % 60) as int)
}

/// The characters that Unicode gives the White_Space property.
pub open spec fn is_white_space(c: char) -> bool {
    let u = c as u32;
    ||| 0x09 <= u <= 0x0D
    ||| u == 0x20
    ||| u == 0x85
    ||| u == 0xA0
    ||| u == 0x1680
    ||| 0x2000 <= u <= 0x200A
    ||| u == 0x2028
    ||| u == 0x2029
    ||| u == 0x202F
    ||| u == 0x205F
    ||| u == 0x3000
}

/// `s` without its leading white space.
pub open spec fn trim_start_view(s: Seq<char>) -> Seq<char>
    decreases s.len(),
{
    if s.len() > 0 && is_white_space(s[0]) {
        trim_start_view(s.drop_first())
    } else {
        s
    }
}

/// `s` without its trailing white space.
pub open spec fn trim_end_view(s: Seq<char>) -> Seq<char>
    decreases s.len(),
{
    if s.len() > 0 && is_white_space(s.last()) {
        trim_end_view(s.drop_last())
    } else {
        s
    }
}

/// `s` without its leading and trailing white space.
pub open spec fn trim_view(s: Seq<char>) -> Seq<char> {
    trim_end_view(trim_start_view(s))
}

/// Where `trim_start_view` cuts `s`: everything before is white space, and
/// what is left starts with a character that is not.
proof fn lemma_trim_start(s: Seq<char>) -> (i: int)
    ensures
        0 <= i <= s.len(),
        trim_start_view(s) == s.subrange(i, s.len() as int),
        forall|k: int| 0 <= k < i ==> is_white_space(#[trigger] s[k]),
        trim_start_view(s).len() > 0 ==> !is_white_space(trim_start_view(s)[0]),
    decreases s.len(),
{
    if s.len() > 0 && is_white_space(s[0]) {
        let i0 = lemma_trim_start(s.drop_first());
        assert(s.drop_first().subrange(i0, s.drop_first().len() as int) =~= s.subrange(i0 + 1, s.len() as int));
        assert forall|k: int| 0 <= k < i0 + 1 implies is_white_space(#[trigger] s[k]) by {
            if k > 0 {
                assert(s[k] == s.drop_first()[k - 1]);
            }
        }
        i0 + 1
    } else {
        assert(s.subrange(0, s.len() as int) =~= s);
        0
    }
}

/// Where `trim_end_view` cuts `s`: everything after is white space, and what
/// is left ends with a character that is not.
proof fn lemma_trim_end(s: Seq<char>) -> (j: int)
    ensures
        0 <= j <= s.len(),
        trim_end_view(s) == s.subrange(0, j),
        forall|k: int| j <= k < s.len() ==> is_white_space(#[trigger] s[k]),
        trim_end_view(s).len() > 0 ==> !is_white_space(trim_end_view(s).last()),
    decreases s.len(),
{
    if s.len() > 0 && is_white_space(s.last()) {
        let j0 = lemma_trim_end(s.drop_last());
        assert(s.drop_last().subrange(0, j0) =~= s.subrange(0, j0));
        assert forall|k: int| j0 <= k < s.len() implies is_white_space(#[trigger] s[k]) by {
            if k < s.len() - 1 {
                assert(s[k] == s.drop_last()[k]);
            }
        }
        j0
    } else {
        assert(s.subrange(0, s.len() as int) =~= s);
        s.len() as int
    }
}

/// Trimming keeps a contiguous part of `s`, removes only white space before
/// and after it, and leaves neither a leading nor a trailing white-space
/// character.
pub proof fn law_trim_removes_only_outer_white_space(s: Seq<char>)
    ensures
        exists|i: int, j: int| #![trigger s.subrange(i, j)]
            0 <= i <= j <= s.len() && trim_view(s) == s.subrange(i, j)
            && (forall|k: int| 0 <= k < i ==> is_white_space(#[trigger] s[k]))
            && (forall|k: int| j <= k < s.len() ==> is_white_space(#[trigger] s[k])),
        trim_view(s).len() > 0 ==> !is_white_space(trim_view(s)[0]) && !is_white_space(trim_view(s).last()),
{
    let i = lemma_trim_start(s);
    let t = trim_start_view(s);
    let j = lemma_trim_end(t);
    assert(t.subrange(0, j) =~= s.subrange(i, i + j));
    assert forall|k: int| i + j <= k < s.len() implies is_white_space(#[trigger] s[k]) by {
        assert(s[k] == t[k - i]);
    }
    if trim_view(s).len() > 0 {
        assert(trim_view(s)[0] == t[0]);
    }
    assert(trim_view(s) == s.subrange(i, i + j));
}

/// `String::push` of std: appends one character.
#[verifier::external_body]
pub(crate) fn string_push(s: &mut String, c: char)
    ensures
        final(s)@ == old(s)@.push(c),
{
    s.push(c)
}

/// `String::pop` of std: removes the last character and returns it, or
/// returns `None` and leaves an empty string as it is.
#[verifier::external_body]
pub(crate) fn string_pop(s: &mut String) -> (c: Option<char>)
    ensures
        old(s)@.len() == 0 ==> c is None && final(s)@ == old(s)@,
        old(s)@.len() > 0 ==> c == Some(old(s)@.last()) && final(s)@ == old(s)@.drop_last(),
{
    s.pop()
}

/// `str::trim` of std: the slice of `s` without its leading and trailing
/// characters that have the Unicode White_Space property.
#[verifier::external_body]
pub(crate) fn str_trim(s: &str) -> (t: &str)
    ensures
        t@ == trim_view(s@),
{
    s.trim()
}

/// The character of the digit `d`.
fn digit(d: u64) -> (c: char)
    requires
        d < 10,
    ensures
        c == digit_char(d as int),
{
    if d == 0 { '0' }
    else if d == 1 { '1' }
    else if d == 2 { '2' }
    else if d == 3 { '3' }
    else if d == 4 { '4' }
    else if d == 5 { '5' }
    else if d == 6 { '6' }
    else if d == 7 { '7' }
    else if d == 8 { '8' }
    else { '9' }
}

/// Appends the decimal numeral of `n` to `s`.
pub fn push_decimal(s: &mut String, n: u64)
    ensures
        final(s)@ == old(s)@ + decimal(n as nat),
    decreases n,
{
    if n >= 10 {
        push_decimal(s, n / 10);
        string_push(s, digit(n % 10));
        assert(s@ =~= old(s)@ + decimal(n as nat)) by {
            assert(decimal(n as nat) == decimal((n / 10) as nat).push(digit_char((n % 10) as int)));
        }
    } else {
        string_push(s, digit(n));
        assert(s@ =~= old(s)@ + decimal(n as nat));
    }
}

/// The integer whose sign is given by `neg` and whose magnitude is `mag`.
pub open spec fn signed(neg: bool, mag: nat) -> int {
    if neg { -(mag as int) } else { mag as int }
}

/// Appends the signed integer `signed(neg, mag)` as `{}` prints it.
pub fn push_int(s: &mut String, neg: bool, mag: u64)
    ensures
        final(s)@ == old(s)@ + int_text(signed(neg, mag as nat)),
{
    if neg && mag > 0 {
        string_push(s, '-');
    }
    push_decimal(s, mag);
    assert(s@ =~= old(s)@ + int_text(signed(neg, mag as nat)));
}

/// Appends the signed integer `signed(neg, mag)` as `{:02}` prints it.
pub fn push_pad2(s: &mut String, neg: bool, mag: u64)
    ensures
        final(s)@ == old(s)@ + pad2_text(signed(neg, mag as nat)),
{
    if neg && mag > 0 {
        string_push(s, '-');
    } else if mag < 10 {
        string_push(s, '0');
    }
    push_decimal(s, mag);
    assert(s@ =~= old(s)@ + pad2_text(signed(neg, mag as nat)));
}

/// `secs` as a clock reading, hours, minutes and seconds, each zero-padded
/// to two digits: 3725 gives `"01:02:05"`.
pub fn format_clock(secs: u64) -> (r: String)
    ensures
        r@ == clock_text(secs as nat),
{
    let mut r = String::new();
    push_pad2(&mut r, false, secs / 3600);
    string_push(&mut r, ':');
    push_pad2(&mut r, false, (secs % 3600) / 60);
    string_push(&mut r, ':');
    push_pad2(&mut r, false, secs % 60);
    assert(r@ =~= clock_text(secs as nat));
    r
}

} // verus!
