use vstd::prelude::*;

verus! {

use vstd::string::StrSliceExecFns;
use vstd::string::StringExecFns;

/// Relies on String::push: it appends the one character.
pub assume_specification [ String::push ](s: &mut String, c: char)
    ensures
        final(s)@ == old(s)@.push(c),
;

/// The characters of `s`, in order.
pub fn str_chars(s: &str) -> (r: Vec<char>)
    ensures
        r@ == s@,
{
    let n = s.unicode_len();
    let mut out: Vec<char> = Vec::new();
    let mut i: usize = 0;
    while i < n
        invariant
            n == s@.len(),
            i <= n,
            out@ =~= s@.take(i as int),
        decreases n - i,
    {
        let c = s.get_char(i);
        out.push(c);
        i += 1;
    }
    proof {
        assert(out@ =~= s@);
    }
    out
}

/// A string holding exactly the characters of `v`.
pub fn chars_string(v: &Vec<char>) -> (r: String)
    ensures
        r@ == v@,
{
    let mut out = String::new();
    let mut i: usize = 0;
    while i < v.len()
        invariant
            i <= v@.len(),
            out@ =~= v@.take(i as int),
        decreases v@.len() - i,
    {
        out.push(v[i]);
        i += 1;
    }
    proof {
        assert(out@ =~= v@);
    }
    out
}

/// Character-wise string equality.
pub fn str_eq(a: &str, b: &str) -> (r: bool)
    ensures
        r == (a@ == b@),
{
    let na = a.unicode_len();
    let nb = b.unicode_len();
    if na != nb {
        return false;
    }
    let mut i: usize = 0;
    while i < na
        invariant
            na == a@.len(),
            na == b@.len(),
            i <= na,
            forall|j: int| 0 <= j < i ==> a@[j] == b@[j],
        decreases na - i,
    {
        if a.get_char(i) != b.get_char(i) {
            return false;
        }
        i += 1;
    }
    proof {
        assert(a@ =~= b@);
    }
    true
}

/// Character-wise equality of owned strings.
pub fn string_eq(a: &String, b: &String) -> (r: bool)
    ensures
        r == (a@ == b@),
{
    str_eq(a.as_str(), b.as_str())
}

/// The decimal digit `n` as a character; `n` must be below ten.
pub open spec fn digit_char(n: nat) -> char {
    if n == 0 { '0' }
    else if n == 1 { '1' }
    else if n == 2 { '2' }
    else if n == 3 { '3' }
    else if n == 4 { '4' }
    else if n == 5 { '5' }
    else if n == 6 { '6' }
    else if n == 7 { '7' }
    else if n == 8 { '8' }
    else { '9' }
}

/// The decimal rendering of `n`, most significant digit first.
pub open spec fn dec_str(n: nat) -> Seq<char>
    decreases n,
{
    if n < 10 {
        seq![digit_char(n)]
    } else {
        dec_str(n / 10).push(digit_char(n % 10))
    }
}

/// The decimal rendering of `i`, with a leading minus sign when negative.
pub open spec fn int_str(i: int) -> Seq<char> {
    if i >= 0 {
        dec_str(i as nat)
    } else {
        seq!['-'] + dec_str((-i) as nat)
    }
}

fn exec_digit_char(n: u64) -> (c: char)
    requires
        n < 10,
    ensures
        c == digit_char(n as nat),
{
    if n == 0 { '0' }
    else if n == 1 { '1' }
    else if n == 2 { '2' }
    else if n == 3 { '3' }
    else if n == 4 { '4' }
    else if n == 5 { '5' }
    else if n == 6 { '6' }
    else if n == 7 { '7' }
    else if n == 8 { '8' }
    else { '9' }
}

/// Renders `n` in decimal.
pub fn u64_string(n: u64) -> (r: String)
    ensures
        r@ == dec_str(n as nat),
{
    let mut digits: Vec<char> = Vec::new();
    let mut m: u64 = n;
    let d0 = m % 10;
    let c0 = exec_digit_char(d0);
    digits.push(c0);
    m = m / 10;
    proof {
        if n >= 10 {
            assert(dec_str(n as nat) == dec_str((n as nat) / 10).push(digit_char((n as nat) % 10)));
            assert(dec_str((n as nat) / 10).push(c0) =~= dec_str((n as nat) / 10) + seq![c0]);
        }
        assert(digits@.reverse() =~= seq![c0]);
    }
    while m > 0
        invariant
            dec_str(n as nat) =~= if m > 0 {
                dec_str(m as nat) + digits@.reverse()
            } else {
                digits@.reverse()
            },
        decreases m,
    {
        let d = m % 10;
        let c = exec_digit_char(d);
        let next = m / 10;
        proof {
            let dd = digits@;
            let dd2 = dd.push(c);
            assert(dd2.reverse() =~= seq![c] + dd.reverse());
            if m >= 10 {
                assert(dec_str(m as nat) == dec_str((m as nat) / 10).push(digit_char(
                    (m as nat) % 10,
                )));
                assert(dec_str((m as nat) / 10).push(c) =~= dec_str((m as nat) / 10) + seq![c]);
            } else {
                assert(dec_str(m as nat) =~= seq![c]);
            }
        }
        digits.push(c);
        m = next;
    }
    let mut out = String::new();
    let mut i: usize = digits.len();
    while i > 0
        invariant
            i <= digits@.len(),
            out@ =~= digits@.reverse().take((digits@.len() - i) as int),
        decreases i,
    {
        i -= 1;
        proof {
            assert(digits@.reverse()[digits@.len() - 1 - i] == digits@[i as int]);
        }
        out.push(digits[i]);
        proof {
            assert(out@ =~= digits@.reverse().take((digits@.len() - i) as int));
        }
    }
    proof {
        assert(out@ =~= digits@.reverse());
    }
    out
}

/// Renders `i` in decimal, minus sign included when negative.
pub fn i64_string(i: i64) -> (r: String)
    ensures
        r@ == int_str(i as int),
{
    if i >= 0 {
        let r = u64_string(i as u64);
        r
    } else {
        let mag: u64 = if i == i64::MIN {
            9223372036854775808u64
        } else {
            (-i) as u64
        };
        let mut out = String::new();
        out.push('-');
        let digits = u64_string(mag);
        let r = out.concat(digits.as_str());
        proof {
            assert(r@ =~= seq!['-'] + dec_str(mag as nat));
        }
        r
    }
}

/// Renders `n` in decimal.
pub fn usize_string(n: usize) -> (r: String)
    ensures
        r@ == dec_str(n as nat),
{
    u64_string(n as u64)
}


/// The hexadecimal digit `n` as a lower-case character; `n` is below 16.
pub open spec fn hex_char(n: nat) -> char {
    if n < 10 { digit_char(n) }
    else if n == 10 { 'a' }
    else if n == 11 { 'b' }
    else if n == 12 { 'c' }
    else if n == 13 { 'd' }
    else if n == 14 { 'e' }
    else { 'f' }
}

/// Renders a value below 16 as one hexadecimal digit.
pub fn exec_hex_char(n: u32) -> (c: char)
    requires
        n < 16,
    ensures
        c == hex_char(n as nat),
{
    if n == 0 { '0' }
    else if n == 1 { '1' }
    else if n == 2 { '2' }
    else if n == 3 { '3' }
    else if n == 4 { '4' }
    else if n == 5 { '5' }
    else if n == 6 { '6' }
    else if n == 7 { '7' }
    else if n == 8 { '8' }
    else if n == 9 { '9' }
    else if n == 10 { 'a' }
    else if n == 11 { 'b' }
    else if n == 12 { 'c' }
    else if n == 13 { 'd' }
    else if n == 14 { 'e' }
    else { 'f' }
}


/// Index of the first `sep` in `s`, or its length.
pub open spec fn find_sep(s: Seq<char>, sep: char) -> int
    decreases s.len(),
{
    if s.len() == 0 {
        0
    } else if s[0] == sep {
        0
    } else {
        1 + find_sep(s.drop_first(), sep)
    }
}

pub proof fn lemma_find_sep(s: Seq<char>, sep: char)
    ensures
        0 <= find_sep(s, sep) <= s.len(),
        forall|i: int| 0 <= i < find_sep(s, sep) ==> s[i] != sep,
        find_sep(s, sep) < s.len() ==> s[find_sep(s, sep)] == sep,
    decreases s.len(),
{
    if s.len() > 0 && s[0] != sep {
        lemma_find_sep(s.drop_first(), sep);
        assert forall|i: int| 0 <= i < find_sep(s, sep) implies s[i] != sep by {
            if i > 0 {
                assert(s.drop_first()[i - 1] != sep);
            }
        }
    }
}

/// `s` split at every `sep`: always at least one piece, empty pieces kept.
pub open spec fn split_sep(s: Seq<char>, sep: char) -> Seq<Seq<char>>
    decreases s.len(),
    via split_sep_dec
{
    let e = find_sep(s, sep);
    if e == s.len() {
        seq![s]
    } else {
        seq![s.take(e)] + split_sep(s.skip(e + 1), sep)
    }
}

#[via_fn]
proof fn split_sep_dec(s: Seq<char>, sep: char) {
    lemma_find_sep(s, sep);
}

fn collect_sep(cs: &Vec<char>, from: usize, sep: char, out: &mut Vec<String>)
    requires
        from <= cs@.len(),
    ensures
        crate::tsort::vviews(final(out)@) =~= crate::tsort::vviews(old(out)@) + split_sep(
            cs@.skip(from as int),
            sep,
        ),
    decreases cs@.len() - from,
{
    let ghost s = cs@.skip(from as int);
    let mut e: usize = from;
    while e < cs.len() && cs[e] != sep
        invariant
            from <= e <= cs@.len(),
            forall|i: int| from <= i < e ==> cs@[i] != sep,
        decreases cs@.len() - e,
    {
        e += 1;
    }
    proof {
        lemma_find_sep(s, sep);
        assert forall|i: int| 0 <= i < e - from implies s[i] != sep by {
            assert(s[i] == cs@[from + i]);
        }
        if e < cs@.len() {
            assert(s[e - from] == sep);
        }
        if find_sep(s, sep) < e - from {
            assert(s[find_sep(s, sep)] != sep);
        }
        if find_sep(s, sep) > e - from && e < cs@.len() {
            assert(s[e - from] != sep);
        }
        assert(find_sep(s, sep) == e - from);
    }
    let mut piece: Vec<char> = Vec::new();
    let mut i: usize = from;
    while i < e
        invariant
            from <= i <= e <= cs@.len(),
            piece@ =~= cs@.subrange(from as int, i as int),
        decreases e - i,
    {
        piece.push(cs[i]);
        proof {
            assert(piece@ =~= cs@.subrange(from as int, i + 1));
        }
        i += 1;
    }
    proof {
        assert(piece@ =~= s.take(find_sep(s, sep)));
    }
    let pstring = chars_string(&piece);
    out.push(pstring);
    let ghost mid = out@;
    if e < cs.len() {
        collect_sep(cs, e + 1, sep, out);
        proof {
            assert(cs@.skip(e + 1) =~= s.skip(find_sep(s, sep) + 1));
            assert(crate::tsort::vviews(mid) =~= crate::tsort::vviews(old(out)@) + seq![
                s.take(find_sep(s, sep)),
            ]);
        }
    } else {
        proof {
            assert(s.take(find_sep(s, sep)) =~= s);
            assert(split_sep(s, sep) =~= seq![s]);
            assert(crate::tsort::vviews(out@) =~= crate::tsort::vviews(old(out)@) + seq![s]);
        }
    }
}

/// Splits `s` at every `sep`, keeping empty pieces.
pub fn split_sep_exec(s: &str, sep: char) -> (r: Vec<String>)
    ensures
        crate::tsort::vviews(r@) == split_sep(s@, sep),
{
    let cs = str_chars(s);
    let mut out: Vec<String> = Vec::new();
    collect_sep(&cs, 0, sep, &mut out);
    proof {
        assert(cs@.skip(0) =~= s@);
        assert(crate::tsort::vviews(out@) =~= split_sep(s@, sep));
    }
    out
}


/// The numeric value of a digit string (most significant first).
pub open spec fn dec_val(s: Seq<char>) -> nat
    decreases s.len(),
{
    if s.len() == 0 {
        0
    } else {
        dec_val(s.drop_last()) * 10 + digit_val(s.last())
    }
}

pub open spec fn digit_val(c: char) -> nat {
    if c == '0' { 0 }
    else if c == '1' { 1 }
    else if c == '2' { 2 }
    else if c == '3' { 3 }
    else if c == '4' { 4 }
    else if c == '5' { 5 }
    else if c == '6' { 6 }
    else if c == '7' { 7 }
    else if c == '8' { 8 }
    else { 9 }
}

pub open spec fn is_digit(c: char) -> bool {
    '0' <= c && c <= '9'
}

pub open spec fn all_digits(s: Seq<char>) -> bool {
    forall|i: int| 0 <= i < s.len() ==> is_digit(#[trigger] s[i])
}

proof fn lemma_dec_val_take_le(s: Seq<char>, k: int)
    requires
        0 <= k <= s.len(),
    ensures
        dec_val(s.take(k)) <= dec_val(s),
    decreases s.len(),
{
    if k < s.len() {
        lemma_dec_val_take_le(s.drop_last(), k);
        assert(s.drop_last().take(k) =~= s.take(k));
        assert(dec_val(s) == dec_val(s.drop_last()) * 10 + digit_val(s.last()));
        assert(dec_val(s.drop_last()) * 10 >= dec_val(s.drop_last())) by (nonlinear_arith);
    } else {
        assert(s.take(k) =~= s);
    }
}

/// Reads an unsigned decimal number: one or more digits whose value fits
/// the machine word.
pub fn parse_usize(s: &str) -> (r: Option<usize>)
    ensures
        match r {
            Some(n) => s@.len() > 0 && all_digits(s@) && n as nat == dec_val(s@) && dec_val(s@)
                <= usize::MAX as nat,
            None => s@.len() == 0 || !all_digits(s@) || dec_val(s@) > usize::MAX as nat,
        },
{
    let cs = str_chars(s);
    if cs.len() == 0 {
        return None;
    }
    let mut acc: usize = 0;
    let mut i: usize = 0;
    while i < cs.len()
        invariant
            i <= cs@.len(),
            cs@ == s@,
            acc as nat == dec_val(s@.take(i as int)),
            all_digits(s@.take(i as int)),
        decreases cs@.len() - i,
    {
        let c = cs[i];
        if !('0' <= c && c <= '9') {
            proof {
                assert(!is_digit(s@[i as int]));
            }
            return None;
        }
        let d: usize = (c as u32 as usize) - 48;
        proof {
            assert(is_digit(c));
            assert(d == digit_val(c)) by {
                assert(c as u32 >= 48 && c as u32 <= 57);
                if c == '0' {} else if c == '1' {} else if c == '2' {} else if c == '3' {}
                else if c == '4' {} else if c == '5' {} else if c == '6' {} else if c == '7' {}
                else if c == '8' {} else { assert(c == '9') by {
                    assert(('0' <= c && c <= '9'));
                }; }
            }
        }
        if acc > (usize::MAX - d) / 10 {
            proof {
                if all_digits(s@) {
                    lemma_dec_val_take_le(s@, i + 1);
                    assert(s@.take(i + 1).drop_last() =~= s@.take(i as int));
                    assert(s@.take(i + 1).last() == c);
                    assert(dec_val(s@.take(i + 1)) == dec_val(s@.take(i as int)) * 10
                        + digit_val(c));
                    assert(acc * 10 + d > usize::MAX) by (nonlinear_arith)
                        requires acc > (usize::MAX - d) / 10, d < 10;
                }
            }
            return None;
        }
        let next = acc * 10 + d;
        proof {
            assert(s@.take(i + 1).drop_last() =~= s@.take(i as int));
            assert(s@.take(i + 1).last() == c);
        }
        acc = next;
        i += 1;
    }
    proof {
        assert(s@.take(cs@.len() as int) =~= s@);
    }
    Some(acc)
}


/// `s` without leading ASCII whitespace.
pub open spec fn lstrip_spaces(s: Seq<char>) -> Seq<char>
    decreases s.len(),
{
    if s.len() > 0 && is_space_char(s[0]) {
        lstrip_spaces(s.drop_first())
    } else {
        s
    }
}

pub open spec fn is_space_char(c: char) -> bool {
    c == ' ' || c == '\t' || c == '\n' || c == '\r'
}

/// `s` without trailing ASCII whitespace.
pub open spec fn rstrip_spaces(s: Seq<char>) -> Seq<char>
    decreases s.len(),
{
    if s.len() > 0 && is_space_char(s.last()) {
        rstrip_spaces(s.drop_last())
    } else {
        s
    }
}

/// `s` trimmed of ASCII whitespace at both ends.
pub open spec fn trimmed(s: Seq<char>) -> Seq<char> {
    lstrip_spaces(rstrip_spaces(s))
}

/// Trims ASCII whitespace from both ends.
pub fn trim_exec(s: &str) -> (r: String)
    ensures
        r@ == trimmed(s@),
{
    let cs = str_chars(s);
    let mut e: usize = cs.len();
    proof {
        assert(cs@.take(cs@.len() as int) =~= cs@);
    }
    loop
        invariant_except_break
            e <= cs@.len(),
            rstrip_spaces(cs@) == rstrip_spaces(cs@.take(e as int)),
        ensures
            e <= cs@.len(),
            rstrip_spaces(cs@) == cs@.take(e as int),
        decreases e,
    {
        if e == 0 {
            proof {
                assert(cs@.take(0).len() == 0);
            }
            break;
        }
        let c = cs[e - 1];
        if !(c == ' ' || c == '\t' || c == '\n' || c == '\r') {
            proof {
                assert(cs@.take(e as int).last() == cs@[e - 1]);
                assert(rstrip_spaces(cs@.take(e as int)) == cs@.take(e as int));
            }
            break;
        }
        proof {
            assert(cs@.take(e as int).last() == c);
            assert(cs@.take(e as int).drop_last() =~= cs@.take(e - 1));
        }
        e -= 1;
    }
    let ghost t = rstrip_spaces(cs@);
    let mut b: usize = 0;
    proof {
        assert(t.skip(0) =~= t);
    }
    loop
        invariant_except_break
            b <= e <= cs@.len(),
            t == cs@.take(e as int),
            lstrip_spaces(t) == lstrip_spaces(t.skip(b as int)),
        ensures
            b <= e <= cs@.len(),
            t == cs@.take(e as int),
            lstrip_spaces(t) == t.skip(b as int),
        decreases e - b,
    {
        if b >= e {
            proof {
                assert(t.skip(b as int).len() == 0);
            }
            break;
        }
        let c = cs[b];
        if !(c == ' ' || c == '\t' || c == '\n' || c == '\r') {
            proof {
                assert(t.skip(b as int)[0] == cs@[b as int]);
                assert(lstrip_spaces(t.skip(b as int)) == t.skip(b as int));
            }
            break;
        }
        proof {
            assert(t.skip(b as int)[0] == cs@[b as int]);
            assert(t.skip(b as int).drop_first() =~= t.skip(b + 1));
        }
        b += 1;
    }
    let r = crate::vars::copy_range(&cs, b, e);
    proof {
        assert(r@ =~= t.skip(b as int));
    }
    r
}

} // verus!
