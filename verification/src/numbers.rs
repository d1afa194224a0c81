//! Decimal rendering and parsing of unsigned integers, and rendering of
//! fixed-point milli values (thousandths), used by the query builder, the
//! marketplace URL builders and the control-plane path parameters.

use vstd::prelude::*;

verus! {

/// The character for one decimal digit.
pub open spec fn digit_char(d: nat) -> char {
    if d == 0 {
        '0'
    } else if d == 1 {
        '1'
    } else if d == 2 {
        '2'
    } else if d == 3 {
        '3'
    } else if d == 4 {
        '4'
    } else if d == 5 {
        '5'
    } else if d == 6 {
        '6'
    } else if d == 7 {
        '7'
    } else if d == 8 {
        '8'
    } else {
        '9'
    }
}

/// Decimal digits of `n`, most significant first, without leading zeros
/// (except for `n == 0`, which is the single digit `0`).
pub open spec fn dec_str(n: nat) -> Seq<char>
    decreases n,
{
    if n < 10 {
        seq![digit_char(n)]
    } else {
        dec_str(n / 10).push(digit_char(n % 10))
    }
}

/// Whether `c` is an ASCII decimal digit.
pub open spec fn is_dec_digit(c: char) -> bool {
    48 <= c as u32 && c as u32 <= 57
}

/// Numeric value of a decimal digit character.
pub open spec fn dec_digit_val(c: char) -> nat
    recommends
        is_dec_digit(c),
{
    (c as u32 - 48) as nat
}

/// Whether every character of `s` is a decimal digit.
pub open spec fn all_dec_digits(s: Seq<char>) -> bool {
    forall|i: int| 0 <= i < s.len() ==> is_dec_digit(#[trigger] s[i])
}

/// Value of a digit string, most significant digit first.
pub open spec fn dec_val(s: Seq<char>) -> nat
    decreases s.len(),
{
    if s.len() == 0 {
        0
    } else {
        dec_val(s.drop_last()) * 10 + dec_digit_val(s.last())
    }
}

/// Whether `s` is a decimal numeral that denotes a value fitting in `u64`.
pub open spec fn parses_as_u64(s: Seq<char>) -> bool {
    s.len() > 0 && all_dec_digits(s) && dec_val(s) <= u64::MAX
}

/// A one-character string slice for the digit `d`.
fn digit_str(d: u64) -> (r: &'static str)
    requires
        d < 10,
    ensures
        r@ == seq![digit_char(d as nat)],
{
    proof {
        reveal_strlit("0");
        reveal_strlit("1");
        reveal_strlit("2");
        reveal_strlit("3");
        reveal_strlit("4");
        reveal_strlit("5");
        reveal_strlit("6");
        reveal_strlit("7");
        reveal_strlit("8");
        reveal_strlit("9");
    }
    let r: &'static str = match d {
        0 => "0",
        1 => "1",
        2 => "2",
        3 => "3",
        4 => "4",
        5 => "5",
        6 => "6",
        7 => "7",
        8 => "8",
        _ => "9",
    };
    proof {
        assert(r@ =~= seq![digit_char(d as nat)]);
    }
    r
}

/// Renders `n` in decimal, as `u64::to_string` does.
pub fn u64_to_string(n: u64) -> (s: String)
    ensures
        s@ == dec_str(n as nat),
    decreases n,
{
    if n < 10 {
        digit_str(n).to_owned()
    } else {
        let mut s = u64_to_string(n / 10);
        s.append(digit_str(n % 10));
        proof {
            assert(s@ =~= dec_str(n as nat));
        }
        s
    }
}

/// A digit string's value only grows when more digits are appended.
proof fn lemma_dec_val_prefix_le(s: Seq<char>, i: int)
    requires
        0 <= i <= s.len(),
    ensures
        dec_val(s.subrange(0, i)) <= dec_val(s),
    decreases s.len() - i,
{
    if i < s.len() {
        let a = s.subrange(0, i);
        let b = s.subrange(0, i + 1);
        assert(b.drop_last() =~= a);
        assert(dec_val(b) == dec_val(a) * 10 + dec_digit_val(b.last()));
        assert(dec_val(a) * 10 >= dec_val(a)) by (nonlinear_arith);
        lemma_dec_val_prefix_le(s, i + 1);
        assert(s.subrange(0, s.len() as int) =~= s);
    } else {
        assert(s.subrange(0, i) =~= s);
    }
}

/// Parses a decimal numeral. Returns the value exactly when `s` is a
/// non-empty, all-digit string whose value fits in `u64`.
pub fn parse_u64(s: &str) -> (r: Option<u64>)
    ensures
        r is Some <==> parses_as_u64(s@),
        r matches Some(n) ==> n == dec_val(s@),
{
    let len = s.unicode_len();
    if len == 0 {
        return None;
    }
    let mut acc: u64 = 0;
    let mut i: usize = 0;
    while i < len
        invariant
            0 <= i <= len,
            len == s@.len(),
            all_dec_digits(s@.subrange(0, i as int)),
            acc == dec_val(s@.subrange(0, i as int)),
        decreases len - i,
    {
        let c = s.get_char(i);
        let cv = c as u32;
        if cv < 48 || cv > 57 {
            proof {
                assert(!is_dec_digit(s@[i as int]));
            }
            return None;
        }
        let d: u64 = (cv - 48) as u64;
        proof {
            assert(s@.subrange(0, i + 1).drop_last() =~= s@.subrange(0, i as int));
            assert(s@.subrange(0, i + 1).last() == s@[i as int]);
        }
        if acc > (u64::MAX - d) / 10 {
            proof {
                let m = (u64::MAX - d) as int;
                assert(acc >= m / 10 + 1);
                assert((m / 10) * 10 + m % 10 == m);
                assert(acc * 10 >= (m / 10 + 1) * 10) by (nonlinear_arith)
                    requires
                        acc >= m / 10 + 1,
                ;
                assert(acc * 10 + d > u64::MAX);
                assert(dec_val(s@.subrange(0, i + 1)) > u64::MAX);
                lemma_dec_val_prefix_le(s@, i + 1);
                assert(!parses_as_u64(s@));
            }
            return None;
        }
        proof {
            let m = (u64::MAX - d) as int;
            assert((m / 10) * 10 <= m);
            assert(acc * 10 <= (m / 10) * 10) by (nonlinear_arith)
                requires
                    acc <= m / 10,
            ;
        }
        acc = acc * 10 + d;
        i += 1;
    }
    proof {
        assert(s@.subrange(0, len as int) =~= s@);
    }
    Some(acc)
}

/// Parses a decimal numeral that must fit in `u16`.
pub fn parse_u16(s: &str) -> (r: Option<u16>)
    ensures
        r is Some <==> parses_as_u64(s@) && dec_val(s@) <= u16::MAX,
        r matches Some(n) ==> n == dec_val(s@),
{
    match parse_u64(s) {
        Some(n) => {
            if n <= 65535 {
                Some(n as u16)
            } else {
                None
            }
        },
        None => None,
    }
}

/// Rendering of a milli-scaled fraction `f` (`1 <= f <= 999`): up to three
/// fractional digits with trailing zeros removed.
pub open spec fn frac_str(f: nat) -> Seq<char> {
    if f % 10 != 0 {
        seq![digit_char(f / 100), digit_char((f / 10) % 10), digit_char(f % 10)]
    } else if f % 100 != 0 {
        seq![digit_char(f / 100), digit_char((f / 10) % 10)]
    } else {
        seq![digit_char(f / 100)]
    }
}

/// Rendering of the fixed-point value `m` thousandths: the integer part in
/// decimal, then, if the fractional part is non-zero, a dot and the fraction
/// with trailing zeros removed. Matches how `f64` displays such values.
pub open spec fn milli_str(m: nat) -> Seq<char> {
    if m % 1000 == 0 {
        dec_str(m / 1000)
    } else {
        dec_str(m / 1000) + seq!['.'] + frac_str(m % 1000)
    }
}

/// Renders a fixed-point milli value (`m` thousandths) in decimal.
pub fn format_milli(m: u64) -> (s: String)
    ensures
        s@ == milli_str(m as nat),
{
    let ip: u64 = m / 1000;
    let f: u64 = m % 1000;
    let mut s = u64_to_string(ip);
    if f == 0 {
        return s;
    }
    proof {
        reveal_strlit(".");
    }
    s.append(".");
    s.append(digit_str(f / 100));
    if f % 10 != 0 {
        s.append(digit_str((f / 10) % 10));
        s.append(digit_str(f % 10));
    } else if f % 100 != 0 {
        s.append(digit_str((f / 10) % 10));
    }
    proof {
        assert(s@ =~= milli_str(m as nat));
    }
    s
}

/// Rendering of the fixed-point value `m` thousandths with exactly two
/// decimals, the thousandths digit rounded half-up.
pub open spec fn milli_2dp_str(m: nat) -> Seq<char> {
    let cents = ((m % 1000) + 5) / 10;
    if cents == 100 {
        dec_str(m / 1000 + 1) + seq!['.', '0', '0']
    } else {
        dec_str(m / 1000) + seq!['.', digit_char(cents / 10), digit_char(cents % 10)]
    }
}

/// Renders a fixed-point milli value with exactly two decimals.
pub fn format_milli_2dp(m: u64) -> (s: String)
    ensures
        s@ == milli_2dp_str(m as nat),
{
    let cents: u64 = ((m % 1000) + 5) / 10;
    proof {
        reveal_strlit(".");
    }
    if cents == 100 {
        let mut s = u64_to_string(m / 1000 + 1);
        s.append(".");
        s.append(digit_str(0));
        s.append(digit_str(0));
        proof {
            assert(s@ =~= milli_2dp_str(m as nat));
        }
        s
    } else {
        let mut s = u64_to_string(m / 1000);
        s.append(".");
        s.append(digit_str(cents / 10));
        s.append(digit_str(cents % 10));
        proof {
            assert(s@ =~= milli_2dp_str(m as nat));
        }
        s
    }
}

/// An ASCII whitespace character, as the configuration's list parsing
/// trims them.
pub open spec fn is_ascii_space(c: char) -> bool {
    c == ' ' || c == '\t' || c == '\n' || c == '\r'
}

/// `s` without leading ASCII whitespace.
pub open spec fn trim_start_spec(s: Seq<char>) -> Seq<char>
    decreases s.len(),
{
    if s.len() > 0 && is_ascii_space(s[0]) {
        trim_start_spec(s.drop_first())
    } else {
        s
    }
}

/// `s` without trailing ASCII whitespace.
pub open spec fn trim_end_spec(s: Seq<char>) -> Seq<char>
    decreases s.len(),
{
    if s.len() > 0 && is_ascii_space(s.last()) {
        trim_end_spec(s.drop_last())
    } else {
        s
    }
}

/// `s` without leading or trailing ASCII whitespace.
pub open spec fn trim_spec(s: Seq<char>) -> Seq<char> {
    trim_end_spec(trim_start_spec(s))
}

/// When everything before `i` is whitespace and `i` is the end or not
/// whitespace, trimming the start yields the tail from `i`.
proof fn lemma_trim_start_at(s: Seq<char>, i: int)
    requires
        0 <= i <= s.len(),
        forall|j: int| 0 <= j < i ==> is_ascii_space(s[j]),
        i == s.len() || !is_ascii_space(s[i]),
    ensures
        trim_start_spec(s) == s.subrange(i, s.len() as int),
    decreases i,
{
    if i == 0 {
        assert(s.subrange(0, s.len() as int) =~= s);
    } else {
        let t = s.drop_first();
        assert(forall|j: int| 0 <= j < t.len() ==> t[j] == s[j + 1]);
        lemma_trim_start_at(t, i - 1);
        assert(t.subrange(i - 1, t.len() as int) =~= s.subrange(i, s.len() as int));
    }
}

/// When everything from `b` on is whitespace and `b` is the start or
/// follows a non-whitespace character, trimming the end yields the head up
/// to `b`.
proof fn lemma_trim_end_at(s: Seq<char>, b: int)
    requires
        0 <= b <= s.len(),
        forall|j: int| b <= j < s.len() ==> is_ascii_space(s[j]),
        b == 0 || !is_ascii_space(s[b - 1]),
    ensures
        trim_end_spec(s) == s.subrange(0, b),
    decreases s.len() - b,
{
    if b == s.len() {
        assert(s.subrange(0, s.len() as int) =~= s);
    } else {
        let t = s.drop_last();
        assert(forall|j: int| 0 <= j < t.len() ==> t[j] == s[j]);
        lemma_trim_end_at(t, b);
        assert(t.subrange(0, b) =~= s.subrange(0, b));
    }
}

/// Whether `c` is ASCII whitespace.
fn is_space_char(c: char) -> (r: bool)
    ensures
        r == is_ascii_space(c),
{
    c == ' ' || c == '\t' || c == '\n' || c == '\r'
}

/// Removes leading and trailing ASCII whitespace.
pub fn trim_ascii(s: &str) -> (r: &str)
    ensures
        r@ == trim_spec(s@),
{
    let len = s.unicode_len();
    let mut a: usize = 0;
    while a < len && is_space_char(s.get_char(a))
        invariant
            0 <= a <= len,
            len == s@.len(),
            forall|j: int| 0 <= j < a ==> is_ascii_space(s@[j]),
        decreases len - a,
    {
        a += 1;
    }
    let mut b: usize = len;
    while b > a && is_space_char(s.get_char(b - 1))
        invariant
            a <= b <= len,
            len == s@.len(),
            forall|j: int| b <= j < len ==> is_ascii_space(s@[j]),
        decreases b,
    {
        b -= 1;
    }
    proof {
        lemma_trim_start_at(s@, a as int);
        let t = s@.subrange(a as int, len as int);
        lemma_trim_end_at(t, b - a);
        assert(t.subrange(0, b - a) =~= s@.subrange(a as int, b as int));
    }
    s.substring_char(a, b)
}

/// Index of the first comma in `s`, or the length of `s` when there is
/// none.
pub open spec fn first_comma(s: Seq<char>) -> nat
    decreases s.len(),
{
    if s.len() == 0 {
        0
    } else if s[0] == ',' {
        0
    } else {
        (1 + first_comma(s.drop_first())) as nat
    }
}

/// What `first_comma` returns: a position no greater than the length,
/// holding a comma unless it is the length, with no comma before it.
pub proof fn lemma_first_comma(s: Seq<char>)
    ensures
        first_comma(s) <= s.len(),
        first_comma(s) < s.len() ==> s[first_comma(s) as int] == ',',
        forall|j: int| 0 <= j < first_comma(s) ==> s[j] != ',',
    decreases s.len(),
{
    if s.len() > 0 && s[0] != ',' {
        let t = s.drop_first();
        lemma_first_comma(t);
        assert(forall|j: int| 0 <= j < t.len() ==> t[j] == s[j + 1]);
        assert forall|j: int| 0 <= j < first_comma(s) implies s[j] != ',' by {
            if j > 0 {
                assert(t[j - 1] == s[j]);
            }
        }
    }
}

/// The comma-separated pieces of `s`, in order. A string without commas is
/// one piece; every comma separates two (possibly empty) pieces.
pub open spec fn split_commas(s: Seq<char>) -> Seq<Seq<char>>
    decreases s.len(),
{
    let k = first_comma(s);
    if k >= s.len() {
        seq![s]
    } else {
        seq![s.subrange(0, k as int)] + split_commas(s.subrange(k as int + 1, s.len() as int))
    }
}

/// The comma-separated pieces of `s`, each trimmed of ASCII whitespace.
pub open spec fn list_tokens(s: Seq<char>) -> Seq<Seq<char>> {
    split_commas(s).map_values(|t: Seq<char>| trim_spec(t))
}

/// Whether every trimmed piece of `s` is a decimal numeral fitting `u64`.
pub open spec fn list_parses(s: Seq<char>) -> bool {
    forall|i: int| 0 <= i < list_tokens(s).len() ==> parses_as_u64(#[trigger] list_tokens(s)[i])
}

/// The values of the trimmed pieces of `s`, in order.
pub open spec fn list_vals(s: Seq<char>) -> Seq<u64> {
    list_tokens(s).map_values(|t: Seq<char>| dec_val(t) as u64)
}

/// Parses a comma-separated list of decimal numerals, each trimmed of
/// surrounding ASCII whitespace. Returns the values exactly when every
/// piece parses.
pub fn parse_u64_list(s: &str) -> (r: Option<Vec<u64>>)
    ensures
        r is Some <==> list_parses(s@),
        r matches Some(v) ==> v@ == list_vals(s@),
    decreases s@.len(),
{
    let len = s.unicode_len();
    let mut i: usize = 0;
    while i < len && !(s.get_char(i) == ',')
        invariant
            0 <= i <= len,
            len == s@.len(),
            forall|j: int| 0 <= j < i ==> s@[j] != ',',
        decreases len - i,
    {
        i += 1;
    }
    proof {
        lemma_first_comma(s@);
        assert(first_comma(s@) == i);
    }
    let head = s.substring_char(0, i);
    let head_trimmed = trim_ascii(head);
    let head_val = parse_u64(head_trimmed);
    if i == len {
        proof {
            assert(s@.subrange(0, len as int) =~= s@);
            assert(split_commas(s@) == seq![s@]);
            assert(head@ =~= s@);
            assert(list_tokens(s@) =~= seq![trim_spec(s@)]);
            assert(list_vals(s@) =~= seq![(dec_val(trim_spec(s@)) as u64)]);
        }
        match head_val {
            Some(v) => {
                let mut out: Vec<u64> = Vec::new();
                out.push(v);
                proof {
                    assert(out@ =~= list_vals(s@));
                }
                Some(out)
            },
            None => {
                proof {
                    assert(!parses_as_u64(list_tokens(s@)[0]));
                }
                None
            },
        }
    } else {
        let rest = s.substring_char(i + 1, len);
        let ghost tok0 = trim_spec(s@.subrange(0, i as int));
        proof {
            assert(split_commas(s@) == seq![s@.subrange(0, i as int)] + split_commas(rest@));
            assert(head@ == s@.subrange(0, i as int));
            assert(list_tokens(s@) =~= seq![tok0] + list_tokens(rest@));
        }
        let rest_vals = parse_u64_list(rest);
        match (head_val, rest_vals) {
            (Some(v), Some(vs)) => {
                let mut out: Vec<u64> = Vec::new();
                out.push(v);
                let mut vs = vs;
                out.append(&mut vs);
                proof {
                    assert forall|j: int|
                        0 <= j < list_tokens(s@).len() implies parses_as_u64(
                        #[trigger] list_tokens(s@)[j],
                    ) by {
                        if j > 0 {
                            assert(list_tokens(s@)[j] == list_tokens(rest@)[j - 1]);
                        }
                    }
                    assert(out@ =~= list_vals(s@));
                }
                Some(out)
            },
            (None, _) => {
                proof {
                    assert(list_tokens(s@)[0] == tok0);
                    assert(!list_parses(s@));
                }
                None
            },
            (_, None) => {
                proof {
                    let jr = choose|jr: int|
                        0 <= jr < list_tokens(rest@).len() && !parses_as_u64(
                            #[trigger] list_tokens(rest@)[jr],
                        );
                    assert(list_tokens(s@)[jr + 1] == list_tokens(rest@)[jr]);
                    assert(!list_parses(s@));
                }
                None
            },
        }
    }
}

} // verus!

