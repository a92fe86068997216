//! Character classes and numeric value functions of the grammar: which
//! characters count as whitespace, digits, hex digits and atom characters,
//! what a run of digits is worth, and the decimal rendering of an unsigned
//! integer (used where the evaluator coerces an integer to a float scalar).

use vstd::prelude::*;

verus! {

broadcast use vstd::seq::group_seq_axioms;

/// Space or tab: the separators the grammar skips besides newline.
pub open spec fn is_space_char(c: char) -> bool {
    c == ' ' || c == '\t'
}

/// Whitespace of the grammar: space, tab or newline.
pub open spec fn is_ws_char(c: char) -> bool {
    is_space_char(c) || c == '\n'
}

/// A decimal digit.
pub open spec fn is_digit_char(c: char) -> bool {
    48 <= c as int && c as int <= 57
}

/// A hexadecimal digit, either case.
pub open spec fn is_hex_digit_char(c: char) -> bool {
    is_digit_char(c) || (97 <= c as int && c as int <= 102) || (65 <= c as int && c as int <= 70)
}

/// A character an atom may consist of: ASCII letters and digits, `-`, `_`.
pub open spec fn is_atom_char(c: char) -> bool {
    is_digit_char(c) || (97 <= c as int && c as int <= 122) || (65 <= c as int && c as int <= 90)
        || c == '-' || c == '_'
}

/// The value of a decimal digit.
pub open spec fn digit_val(c: char) -> int {
    c as int - 48
}

/// The value of a hexadecimal digit.
pub open spec fn hex_val(c: char) -> int {
    if is_digit_char(c) {
        c as int - 48
    } else if 97 <= c as int && c as int <= 102 {
        c as int - 97 + 10
    } else if 65 <= c as int && c as int <= 70 {
        c as int - 65 + 10
    } else {
        0
    }
}

/// The value of the digit run `s[i..e)`, read as a decimal number.
pub open spec fn dec_val(s: Seq<char>, i: int, e: int) -> int
    decreases e - i,
{
    if i >= e {
        0
    } else {
        dec_val(s, i, e - 1) * 10 + digit_val(s[e - 1])
    }
}

/// A longer digit run is worth at least as much as its prefix, so once a
/// prefix exceeds a bound the whole run does.
pub proof fn lemma_dec_val_prefix(s: Seq<char>, i: int, m: int, e: int)
    requires
        i <= m <= e,
        forall|k: int| i <= k < e ==> is_digit_char(#[trigger] s[k]),
        forall|k: int| i <= k < e ==> 0 <= #[trigger] dec_val(s, i, k),
    ensures
        dec_val(s, i, m) <= dec_val(s, i, e),
    decreases e - m,
{
    if m < e {
        lemma_dec_val_prefix(s, i, m, e - 1);
        assert(is_digit_char(s[e - 1]));
        assert(digit_val(s[e - 1]) >= 0);
        if i <= e - 1 < e {
            assert(0 <= dec_val(s, i, e - 1));
        }
        assert(dec_val(s, i, e) == dec_val(s, i, e - 1) * 10 + digit_val(s[e - 1]));
        assert(dec_val(s, i, e - 1) <= dec_val(s, i, e - 1) * 10) by (nonlinear_arith)
            requires 0 <= dec_val(s, i, e - 1),
        ;
    }
}

/// The value of a digit run is never negative.
pub proof fn lemma_dec_val_nonneg(s: Seq<char>, i: int, e: int)
    requires
        forall|k: int| i <= k < e ==> is_digit_char(#[trigger] s[k]),
    ensures
        0 <= dec_val(s, i, e),
    decreases e - i,
{
    if i < e {
        lemma_dec_val_nonneg(s, i, e - 1);
        assert(dec_val(s, i, e - 1) * 10 >= 0) by (nonlinear_arith)
            requires dec_val(s, i, e - 1) >= 0,
        ;
    }
}

/// The decimal digit character for a value below ten.
pub open spec fn digit_char(d: int) -> char {
    if d == 0 { '0' }
    else if d == 1 { '1' }
    else if d == 2 { '2' }
    else if d == 3 { '3' }
    else if d == 4 { '4' }
    else if d == 5 { '5' }
    else if d == 6 { '6' }
    else if d == 7 { '7' }
    else if d == 8 { '8' }
    else { '9' }
}

/// The decimal rendering of a nonnegative integer, most significant digit
/// first.
pub open spec fn spec_u32_text(n: int) -> Seq<char>
    decreases n,
{
    if n < 10 {
        seq![digit_char(n)]
    } else {
        spec_u32_text(n / 10).push(digit_char(n % 10))
    }
}

/// Relies on String::push: appends exactly the given character.
#[verifier::external_body]
pub fn push_char(s: &mut String, c: char)
    ensures
        final(s)@ == old(s)@.push(c),
{
    s.push(c);
}

fn exec_digit_char(d: u32) -> (c: char)
    requires
        d < 10,
    ensures
        c == digit_char(d as int),
{
    if d == 0 { '0' }
    else if d == 1 { '1' }
    else if d == 2 { '2' }
    else if d == 3 { '3' }
    else if d == 4 { '4' }
    else if d == 5 { '5' }
    else if d == 6 { '6' }
    else if d == 7 { '7' }
    else if d == 8 { '8' }
    else { '9' }
}

/// The decimal text of an unsigned integer, as the evaluator's
/// integer-to-float coercion writes it.
pub fn u32_text(n: u32) -> (s: String)
    ensures
        s@ == spec_u32_text(n as int),
    decreases n,
{
    if n < 10 {
        let mut s = String::new();
        let c = exec_digit_char(n);
        push_char(&mut s, c);
        proof {
            assert(s@ =~= spec_u32_text(n as int));
        }
        s
    } else {
        let mut s = u32_text(n / 10);
        let c = exec_digit_char(n % 10);
        push_char(&mut s, c);
        proof {
            assert(s@ =~= spec_u32_text(n as int));
        }
        s
    }
}

} // verus!

verus! {

/// The value of a digit run depends only on the characters it covers.
proof fn lemma_dec_val_congruent(s: Seq<char>, t: Seq<char>, i: int, e: int)
    requires
        forall|k: int| i <= k < e ==> #[trigger] s[k] == t[k],
    ensures
        dec_val(s, i, e) == dec_val(t, i, e),
    decreases e - i,
{
    if i < e {
        lemma_dec_val_congruent(s, t, i, e - 1);
    }
}

/// The decimal rendering of a nonnegative integer consists of digits and
/// is worth exactly that integer: the integer-to-float coercion loses
/// nothing.
pub proof fn lemma_u32_text_value(n: int)
    requires
        0 <= n,
    ensures
        spec_u32_text(n).len() >= 1,
        forall|k: int| 0 <= k < spec_u32_text(n).len() ==> is_digit_char(
            #[trigger] spec_u32_text(n)[k],
        ),
        dec_val(spec_u32_text(n), 0, spec_u32_text(n).len() as int) == n,
    decreases n,
{
    if n < 10 {
        assert(dec_val(spec_u32_text(n), 0, 0) == 0);
        assert(dec_val(spec_u32_text(n), 0, 1) == digit_val(spec_u32_text(n)[0]));
    } else {
        lemma_u32_text_value(n / 10);
        let prefix = spec_u32_text(n / 10);
        let s = prefix.push(digit_char(n % 10));
        let m = prefix.len() as int;
        lemma_dec_val_congruent(s, prefix, 0, m);
        assert(s[m] == digit_char(n % 10));
        assert(dec_val(s, 0, m + 1) == dec_val(s, 0, m) * 10 + digit_val(s[m]));
        assert((n / 10) * 10 + (n % 10) == n) by (nonlinear_arith)
            requires n >= 10,
        ;
    }
}

} // verus!
