//! The symbolic parser: source text in, a sequence of expression trees out.
//!
//! The grammar, over characters:
//!
//! ```text
//! sexpr    := '(' list_body ')' | color | uint | float | atom
//! list_body:= sexpr (whitespace+ sexpr)*
//! atom     := (alnum | '-' | '_')+
//! uint     := digits fitting u32, not followed by '.'
//! float    := sign? (digits ('.' digits*)? | '.' digits+) exponent?
//! color    := '#' followed by exactly 8 hex digits
//! ```
//!
//! Whitespace (space, tab, newline) is skipped before every token. The
//! alternatives are tried in the order written: an unsigned integer wins
//! over a float unless a `.` follows the digits, and an atom is tried last.
//!
//! The whole-input parse never fails: when no form parses at the current
//! position, the parser skips exactly one character and retries, so a
//! malformed fragment costs only itself and the forms around it survive.
//! The functions below are specified against `spec_parse_sexpr` and
//! `spec_parse_all`, which define both the grammar and this recovery rule.

use vstd::prelude::*;
use crate::lex::{
    is_ws_char, is_digit_char, is_hex_digit_char, is_atom_char, hex_val, dec_val,
    lemma_dec_val_nonneg, lemma_dec_val_prefix,
};
use crate::types::{ColorLit, FloatLit, TvkObject, SExprV, view_exprs, lemma_view_exprs};

verus! {

broadcast use vstd::std_specs::vec::group_vec_axioms, vstd::seq::group_seq_axioms, crate::types::lemma_view_exprs;

/// How many whitespace characters stand at `i`.
pub open spec fn ws_len(s: Seq<char>, i: int) -> nat
    decreases s.len() - i,
{
    if 0 <= i < s.len() && is_ws_char(s[i]) {
        1 + ws_len(s, i + 1)
    } else {
        0
    }
}

/// How many decimal digits stand at `i`.
pub open spec fn digits_len(s: Seq<char>, i: int) -> nat
    decreases s.len() - i,
{
    if 0 <= i < s.len() && is_digit_char(s[i]) {
        1 + digits_len(s, i + 1)
    } else {
        0
    }
}

/// How many atom characters stand at `i`.
pub open spec fn atom_len(s: Seq<char>, i: int) -> nat
    decreases s.len() - i,
{
    if 0 <= i < s.len() && is_atom_char(s[i]) {
        1 + atom_len(s, i + 1)
    } else {
        0
    }
}

/// The whitespace run at `i` stays inside the input, consists of
/// whitespace, and is maximal.
pub proof fn lemma_ws_len(s: Seq<char>, i: int)
    requires
        0 <= i <= s.len(),
    ensures
        i + ws_len(s, i) <= s.len(),
        forall|k: int| i <= k < i + ws_len(s, i) ==> is_ws_char(#[trigger] s[k]),
        i + ws_len(s, i) == s.len() || !is_ws_char(s[i + ws_len(s, i)]),
    decreases s.len() - i,
{
    if i < s.len() && is_ws_char(s[i]) {
        lemma_ws_len(s, i + 1);
    }
}

/// The digit run at `i` stays inside the input, consists of digits, and is
/// maximal.
pub proof fn lemma_digits_len(s: Seq<char>, i: int)
    requires
        0 <= i <= s.len(),
    ensures
        i + digits_len(s, i) <= s.len(),
        forall|k: int| i <= k < i + digits_len(s, i) ==> is_digit_char(#[trigger] s[k]),
        i + digits_len(s, i) == s.len() || !is_digit_char(s[i + digits_len(s, i)]),
    decreases s.len() - i,
{
    if i < s.len() && is_digit_char(s[i]) {
        lemma_digits_len(s, i + 1);
    }
}

/// The atom-character run at `i` stays inside the input, consists of atom
/// characters, and is maximal.
pub proof fn lemma_atom_len(s: Seq<char>, i: int)
    requires
        0 <= i <= s.len(),
    ensures
        i + atom_len(s, i) <= s.len(),
        forall|k: int| i <= k < i + atom_len(s, i) ==> is_atom_char(#[trigger] s[k]),
        i + atom_len(s, i) == s.len() || !is_atom_char(s[i + atom_len(s, i)]),
    decreases s.len() - i,
{
    if i < s.len() && is_atom_char(s[i]) {
        lemma_atom_len(s, i + 1);
    }
}

/// A color literal stands at `i`: a `#` followed by eight hex digits.
pub open spec fn color_matches(s: Seq<char>, i: int) -> bool {
    &&& 0 <= i
    &&& i + 9 <= s.len()
    &&& s[i] == '#'
    &&& forall|k: int| i + 1 <= k < i + 9 ==> is_hex_digit_char(#[trigger] s[k])
}

/// The byte written by the two hex digits at `k` and `k + 1`.
pub open spec fn hex_byte(s: Seq<char>, k: int) -> u8 {
    (hex_val(s[k]) * 16 + hex_val(s[k + 1])) as u8
}

/// The color written by the eight hex digits after the `#` at `i`.
pub open spec fn color_value(s: Seq<char>, i: int) -> ColorLit {
    ColorLit {
        r: hex_byte(s, i + 1),
        g: hex_byte(s, i + 3),
        b: hex_byte(s, i + 5),
        a: hex_byte(s, i + 7),
    }
}

/// An unsigned-integer literal stands at `i`: at least one digit, the run's
/// value fits in `u32`, and no `.` follows (that disambiguates `1.5` from
/// `1` followed by a stray `.5`).
pub open spec fn uint_matches(s: Seq<char>, i: int) -> bool {
    &&& digits_len(s, i) > 0
    &&& dec_val(s, i, i + digits_len(s, i)) <= u32::MAX as int
    &&& !(i + digits_len(s, i) < s.len() && s[i + digits_len(s, i)] == '.')
}

/// Where an exponent part ending at `k` would end: `e`/`E`, an optional
/// sign, and at least one digit, or nothing.
pub open spec fn exp_end(s: Seq<char>, k: int) -> int {
    if 0 <= k < s.len() && (s[k] == 'e' || s[k] == 'E') {
        let m = if k + 1 < s.len() && (s[k + 1] == '+' || s[k + 1] == '-') {
            k + 2
        } else {
            k + 1
        };
        if digits_len(s, m) > 0 {
            m + digits_len(s, m)
        } else {
            k
        }
    } else {
        k
    }
}

/// Where the float literal at `i` ends, if one stands there: an optional
/// sign, then either digits with an optional fraction or a fraction alone,
/// then an optional exponent.
pub open spec fn float_end(s: Seq<char>, i: int) -> Option<int> {
    let j0 = if 0 <= i < s.len() && (s[i] == '+' || s[i] == '-') {
        i + 1
    } else {
        i
    };
    let d1 = digits_len(s, j0);
    if d1 > 0 {
        let j1 = j0 + d1;
        let j2 = if j1 < s.len() && s[j1] == '.' {
            j1 + 1 + digits_len(s, j1 + 1)
        } else {
            j1
        };
        Some(exp_end(s, j2))
    } else if 0 <= j0 && j0 < s.len() && s[j0] == '.' && digits_len(s, j0 + 1) > 0 {
        Some(exp_end(s, j0 + 1 + digits_len(s, j0 + 1)))
    } else {
        None
    }
}

/// Clamps a position that a recursive parse returned into the range a
/// caller at `i` may continue from. Successful parses always advance and
/// stay inside the input (see `lemma_sexpr_progress`), so the clamp is the
/// identity; it only makes termination of the definitions evident.
pub open spec fn next_pos(s: Seq<char>, i: int, j: int) -> int {
    let a = if j < i + 1 {
        i + 1
    } else {
        j
    };
    if a > s.len() {
        s.len() as int
    } else {
        a
    }
}

/// What one expression parse at `i` yields: the expression and the position
/// after it, or nothing if no expression starts at `i` (after whitespace).
pub open spec fn spec_parse_sexpr(s: Seq<char>, i: int) -> Option<(SExprV, int)>
    decreases s.len() - i, 0int,
        when 0 <= i <= s.len()
{
    let j = i + ws_len(s, i);
    if j < s.len() && s[j] == '(' {
        match spec_parse_elems(s, j + 1) {
            Some((elems, k)) => {
                let k2 = k + ws_len(s, k);
                if k2 < s.len() && s[k2] == ')' {
                    Some((SExprV::List(elems), k2 + 1))
                } else {
                    None
                }
            },
            None => None,
        }
    } else if color_matches(s, j) {
        Some((SExprV::Color(color_value(s, j)), j + 9))
    } else if uint_matches(s, j) {
        Some(
            (
                SExprV::UInt(dec_val(s, j, j + digits_len(s, j)) as u32),
                j + digits_len(s, j),
            ),
        )
    } else if float_end(s, j) is Some {
        let f = float_end(s, j)->Some_0;
        Some((SExprV::Float(s.subrange(j, f)), f))
    } else if atom_len(s, j) > 0 {
        Some((SExprV::Atom(s.subrange(j, j + atom_len(s, j))), j + atom_len(s, j)))
    } else {
        None
    }
}

/// What a list body parse at `i` yields: one or more expressions separated
/// by whitespace, and the position after the last one. When an expression
/// follows the separator but fails, the list ends before the separator.
pub open spec fn spec_parse_elems(s: Seq<char>, i: int) -> Option<(Seq<SExprV>, int)>
    decreases s.len() - i, 1int,
        when 0 <= i <= s.len()
{
    match spec_parse_sexpr(s, i) {
        None => None,
        Some((e, j)) => {
            let jc = next_pos(s, i, j);
            let sep = ws_len(s, jc);
            if sep > 0 {
                proof {
                    lemma_ws_len(s, jc);
                }
                match spec_parse_elems(s, jc + sep) {
                    Some((rest, k)) => Some((seq![e] + rest, k)),
                    None => Some((seq![e], jc)),
                }
            } else {
                Some((seq![e], jc))
            }
        },
    }
}

/// All top-level forms of the input from `i` on: parse one expression where
/// possible, otherwise skip exactly one character and retry, until the
/// input is exhausted.
pub open spec fn spec_parse_all(s: Seq<char>, i: int) -> Seq<SExprV>
    decreases s.len() - i,
        when 0 <= i
{
    if i >= s.len() {
        Seq::empty()
    } else {
        match spec_parse_sexpr(s, i) {
            Some((e, j)) => seq![e] + spec_parse_all(s, next_pos(s, i, j)),
            None => spec_parse_all(s, i + 1),
        }
    }
}

/// A successful expression parse consumes at least one character and stays
/// inside the input.
pub proof fn lemma_sexpr_progress(s: Seq<char>, i: int)
    requires
        0 <= i <= s.len(),
    ensures
        spec_parse_sexpr(s, i) matches Some((e, j)) ==> i < j <= s.len(),
    decreases s.len() - i, 0int,
{
    let j = i + ws_len(s, i);
    lemma_ws_len(s, i);
    if j < s.len() && s[j] == '(' {
        lemma_elems_progress(s, j + 1);
        if let Some((elems, k)) = spec_parse_elems(s, j + 1) {
            lemma_ws_len(s, k);
        }
    } else if color_matches(s, j) {
    } else if uint_matches(s, j) {
        lemma_digits_len(s, j);
    } else if float_end(s, j) is Some {
        lemma_float_end(s, j);
    } else if atom_len(s, j) > 0 {
        lemma_atom_len(s, j);
    }
}

/// A successful list-body parse consumes at least one character and stays
/// inside the input.
pub proof fn lemma_elems_progress(s: Seq<char>, i: int)
    requires
        0 <= i <= s.len(),
    ensures
        spec_parse_elems(s, i) matches Some((es, j)) ==> i < j <= s.len(),
    decreases s.len() - i, 1int,
{
    lemma_sexpr_progress(s, i);
    if let Some((e, j)) = spec_parse_sexpr(s, i) {
        let jc = next_pos(s, i, j);
        let sep = ws_len(s, jc);
        lemma_ws_len(s, jc);
        if sep > 0 {
            lemma_elems_progress(s, jc + sep);
        }
    }
}

/// A float literal ends after at least one character and inside the input.
proof fn lemma_float_end(s: Seq<char>, i: int)
    requires
        0 <= i <= s.len(),
    ensures
        float_end(s, i) matches Some(f) ==> i < f <= s.len(),
{
    let j0 = if i < s.len() && (s[i] == '+' || s[i] == '-') {
        i + 1
    } else {
        i
    };
    lemma_digits_len(s, j0);
    let d1 = digits_len(s, j0);
    if d1 > 0 {
        let j1 = j0 + d1;
        if j1 < s.len() && s[j1] == '.' {
            lemma_digits_len(s, j1 + 1);
            lemma_exp_end(s, j1 + 1 + digits_len(s, j1 + 1));
        } else {
            lemma_exp_end(s, j1);
        }
    } else if j0 < s.len() && s[j0] == '.' && digits_len(s, j0 + 1) > 0 {
        lemma_digits_len(s, j0 + 1);
        lemma_exp_end(s, j0 + 1 + digits_len(s, j0 + 1));
    }
}

/// An exponent part never moves backwards and stays inside the input.
proof fn lemma_exp_end(s: Seq<char>, k: int)
    requires
        0 <= k <= s.len(),
    ensures
        k <= exp_end(s, k) <= s.len(),
{
    if k < s.len() && (s[k] == 'e' || s[k] == 'E') {
        let m = if k + 1 < s.len() && (s[k + 1] == '+' || s[k + 1] == '-') {
            k + 2
        } else {
            k + 1
        };
        if m <= s.len() {
            lemma_digits_len(s, m);
        } else {
            assert(digits_len(s, m) == 0);
        }
    }
}

} // verus!

verus! {

/// The parser: owns the source text and accumulates the parsed forms.
pub struct Parser {
    pub source: String,
    pub exprs: Vec<TvkObject>,
}

impl Parser {
    pub fn new(src: &str) -> (p: Self)
        ensures
            p.source@ == src@,
            p.exprs@.len() == 0,
    {
        Parser { source: src.to_owned(), exprs: Vec::new() }
    }

    /// Whether a whitespace character stands at `i`.
    fn ws_at(s: &str, i: usize) -> (b: bool)
        requires
            (i as int) < s@.len(),
        ensures
            b == is_ws_char(s@[i as int]),
    {
        let c = s.get_char(i);
        c == ' ' || c == '\t' || c == '\n'
    }

    /// Whether a decimal digit stands at `i`.
    fn digit_at(s: &str, i: usize) -> (b: bool)
        requires
            (i as int) < s@.len(),
        ensures
            b == is_digit_char(s@[i as int]),
    {
        let c = s.get_char(i);
        let u = c as u32;
        48 <= u && u <= 57
    }

    /// Whether an atom character stands at `i`.
    fn atom_char_at(s: &str, i: usize) -> (b: bool)
        requires
            (i as int) < s@.len(),
        ensures
            b == is_atom_char(s@[i as int]),
    {
        let c = s.get_char(i);
        let u = c as u32;
        (48 <= u && u <= 57) || (97 <= u && u <= 122) || (65 <= u && u <= 90) || c == '-' || c
            == '_'
    }

    /// Whether a hexadecimal digit stands at `i`.
    fn is_hex_digit(s: &str, i: usize) -> (b: bool)
        requires
            (i as int) < s@.len(),
        ensures
            b == is_hex_digit_char(s@[i as int]),
    {
        let c = s.get_char(i);
        let u = c as u32;
        (48 <= u && u <= 57) || (97 <= u && u <= 102) || (65 <= u && u <= 70)
    }

    /// The position after the whitespace run at `i`.
    fn consume_space(s: &str, i: usize) -> (r: usize)
        requires
            i as int <= s@.len(),
        ensures
            r as int == i as int + ws_len(s@, i as int),
            i <= r,
            r as int <= s@.len(),
    {
        let n = s.unicode_len();
        let mut cur = i;
        while cur < n && Self::ws_at(s, cur)
            invariant
                i <= cur,
                cur as int <= s@.len(),
                n == s@.len(),
                ws_len(s@, i as int) == (cur - i) + ws_len(s@, cur as int),
            decreases s@.len() - cur,
        {
            cur = cur + 1;
        }
        cur
    }

    /// The position after the digit run at `i`.
    fn scan_digits(s: &str, i: usize) -> (r: usize)
        requires
            i as int <= s@.len(),
        ensures
            r as int == i as int + digits_len(s@, i as int),
            i <= r,
            r as int <= s@.len(),
    {
        let n = s.unicode_len();
        let mut cur = i;
        while cur < n && Self::digit_at(s, cur)
            invariant
                i <= cur,
                cur as int <= s@.len(),
                n == s@.len(),
                digits_len(s@, i as int) == (cur - i) + digits_len(s@, cur as int),
            decreases s@.len() - cur,
        {
            cur = cur + 1;
        }
        cur
    }

    /// The position after the atom-character run at `i`.
    fn scan_atom(s: &str, i: usize) -> (r: usize)
        requires
            i as int <= s@.len(),
        ensures
            r as int == i as int + atom_len(s@, i as int),
            i <= r,
            r as int <= s@.len(),
    {
        let n = s.unicode_len();
        let mut cur = i;
        while cur < n && Self::atom_char_at(s, cur)
            invariant
                i <= cur,
                cur as int <= s@.len(),
                n == s@.len(),
                atom_len(s@, i as int) == (cur - i) + atom_len(s@, cur as int),
            decreases s@.len() - cur,
        {
            cur = cur + 1;
        }
        cur
    }

    /// The value of the two hex digits at `k` and `k + 1`.
    fn hex_pair(s: &str, k: usize) -> (v: u8)
        requires
            k as int + 2 <= s@.len(),
            s@.len() <= usize::MAX as int,
            is_hex_digit_char(s@[k as int]),
            is_hex_digit_char(s@[k as int + 1]),
        ensures
            v == hex_byte(s@, k as int),
    {
        let hi = Self::hex_val_at(s, k);
        let lo = Self::hex_val_at(s, k + 1);
        hi * 16 + lo
    }

    /// The value of the hex digit at `i`.
    fn hex_val_at(s: &str, i: usize) -> (v: u8)
        requires
            (i as int) < s@.len(),
        ensures
            v as int == hex_val(s@[i as int]),
            v <= 15,
    {
        let c = s.get_char(i);
        let u = c as u32;
        if 48 <= u && u <= 57 {
            (u - 48) as u8
        } else if 97 <= u && u <= 102 {
            (u - 97 + 10) as u8
        } else if 65 <= u && u <= 70 {
            (u - 65 + 10) as u8
        } else {
            0
        }
    }

    /// Parses the color literal at `j` (`#` plus eight hex digits), if one
    /// stands there.
    fn parse_color(s: &str, j: usize) -> (r: Option<(TvkObject, usize)>)
        requires
            j as int <= s@.len(),
        ensures
            match r {
                Some((e, k)) => color_matches(s@, j as int) && k as int == j as int + 9
                    && e.view() == SExprV::Color(color_value(s@, j as int)),
                None => !color_matches(s@, j as int),
            },
    {
        let n = s.unicode_len();
        if j >= n {
            return None;
        }
        let c0 = s.get_char(j);
        if c0 != '#' {
            return None;
        }
        if n - j < 9 {
            return None;
        }
        let mut k = j + 1;
        while k < j + 9
            invariant
                j + 9 <= n,
                n == s@.len(),
                j + 1 <= k <= j + 9,
                forall|t: int| j + 1 <= t < k ==> is_hex_digit_char(#[trigger] s@[t]),
            decreases j + 9 - k,
        {
            if !Self::is_hex_digit(s, k) {
                return None;
            }
            k = k + 1;
        }
        let red = Self::hex_pair(s, j + 1);
        let green = Self::hex_pair(s, j + 3);
        let blue = Self::hex_pair(s, j + 5);
        let alpha = Self::hex_pair(s, j + 7);
        Some((TvkObject::Color(ColorLit { r: red, g: green, b: blue, a: alpha }), j + 9))
    }

    /// Parses the unsigned-integer literal at `j`, if one stands there:
    /// a digit run whose value fits `u32`, not followed by `.`.
    fn parse_uint_literal(s: &str, j: usize) -> (r: Option<(TvkObject, usize)>)
        requires
            j as int <= s@.len(),
        ensures
            match r {
                Some((e, k)) => uint_matches(s@, j as int) && k as int == j as int + digits_len(
                    s@,
                    j as int,
                ) && k as int <= s@.len() && e.view() == SExprV::UInt(
                    dec_val(s@, j as int, j as int + digits_len(s@, j as int)) as u32,
                ),
                None => !uint_matches(s@, j as int),
            },
    {
        let e = Self::scan_digits(s, j);
        proof {
            lemma_digits_len(s@, j as int);
        }
        if e == j {
            return None;
        }
        let n = s.unicode_len();
        if e < n {
            let c = s.get_char(e);
            if c == '.' {
                return None;
            }
        }
        proof {
            assert forall|t: int| j <= t < e implies 0 <= dec_val(s@, j as int, t) by {
                lemma_dec_val_nonneg(s@, j as int, t);
            }
            lemma_dec_val_nonneg(s@, j as int, e as int);
        }
        let mut acc: u64 = 0;
        let mut k = j;
        while k < e
            invariant
                j <= k <= e,
                e as int == j as int + digits_len(s@, j as int),
                e as int <= s@.len(),
                acc as int == dec_val(s@, j as int, k as int),
                acc <= u32::MAX as u64,
                forall|t: int| j <= t < e ==> is_digit_char(#[trigger] s@[t]),
                forall|t: int| j <= t < e ==> 0 <= #[trigger] dec_val(s@, j as int, t),
            decreases e - k,
        {
            let c = s.get_char(k);
            let d = (c as u32 - 48) as u64;
            let next = acc * 10 + d;
            if next > u32::MAX as u64 {
                proof {
                    lemma_dec_val_prefix(s@, j as int, k as int + 1, e as int);
                }
                return None;
            }
            acc = next;
            k = k + 1;
        }
        Some((TvkObject::UIntLiteral(acc as u32), e))
    }

    /// The end of the exponent part at `k`, if one stands there.
    fn exp_scan(s: &str, k: usize) -> (r: usize)
        requires
            k as int <= s@.len(),
        ensures
            r as int == exp_end(s@, k as int),
            k <= r,
            r as int <= s@.len(),
    {
        let n = s.unicode_len();
        if k < n {
            let c = s.get_char(k);
            if c == 'e' || c == 'E' {
                let m = if k + 1 < n {
                    let c2 = s.get_char(k + 1);
                    if c2 == '+' || c2 == '-' {
                        k + 2
                    } else {
                        k + 1
                    }
                } else {
                    k + 1
                };
                let d = Self::scan_digits(s, m);
                if d > m {
                    return d;
                } else {
                    return k;
                }
            }
        }
        k
    }

    /// Parses the float literal at `j`, if one stands there, returning it
    /// as exact text.
    fn parse_float_literal(s: &str, j: usize) -> (r: Option<(TvkObject, usize)>)
        requires
            j as int <= s@.len(),
        ensures
            match r {
                Some((e, k)) => float_end(s@, j as int) == Some(k as int) && j < k && k as int
                    <= s@.len() && e.view() == SExprV::Float(s@.subrange(j as int, k as int)),
                None => float_end(s@, j as int) is None,
            },
    {
        let n = s.unicode_len();
        let j0 = if j < n {
            let c = s.get_char(j);
            if c == '+' || c == '-' {
                j + 1
            } else {
                j
            }
        } else {
            j
        };
        let j1 = Self::scan_digits(s, j0);
        let fend: usize;
        if j1 > j0 {
            let j2 = if j1 < n {
                let c = s.get_char(j1);
                if c == '.' {
                    Self::scan_digits(s, j1 + 1)
                } else {
                    j1
                }
            } else {
                j1
            };
            fend = Self::exp_scan(s, j2);
        } else if j0 < n {
            let c = s.get_char(j0);
            if c == '.' {
                let d = Self::scan_digits(s, j0 + 1);
                if d > j0 + 1 {
                    fend = Self::exp_scan(s, d);
                } else {
                    return None;
                }
            } else {
                return None;
            }
        } else {
            return None;
        }
        let text = s.substring_char(j, fend).to_owned();
        Some((TvkObject::FloatLiteral(FloatLit { text }), fend))
    }

    /// Parses the atom at `j`, if one stands there: a maximal nonempty run
    /// of atom characters.
    fn parse_atom(s: &str, j: usize) -> (r: Option<(TvkObject, usize)>)
        requires
            j as int <= s@.len(),
        ensures
            match r {
                Some((e, k)) => atom_len(s@, j as int) > 0 && k as int == j as int + atom_len(
                    s@,
                    j as int,
                ) && k as int <= s@.len() && e.view() == SExprV::Atom(s@.subrange(j as int, k as int)),
                None => atom_len(s@, j as int) == 0,
            },
    {
        let e = Self::scan_atom(s, j);
        if e == j {
            return None;
        }
        let text = s.substring_char(j, e).to_owned();
        Some((TvkObject::Atom(text), e))
    }

    /// Parses one expression starting at `i` (whitespace skipped first):
    /// a parenthesized list, a color, an unsigned integer, a float, or an
    /// atom, in that order.
    fn parse_tvk(s: &str, i: usize) -> (r: Option<(TvkObject, usize)>)
        requires
            i as int <= s@.len(),
        ensures
            match r {
                Some((e, j)) => spec_parse_sexpr(s@, i as int) == Some((e.view(), j as int)) && i
                    < j && j as int <= s@.len(),
                None => spec_parse_sexpr(s@, i as int) is None,
            },
        decreases s@.len() - i, 0int,
    {
        let j = Self::consume_space(s, i);
        let n = s.unicode_len();
        if j < n && s.get_char(j) == '(' {
            match Self::parse_list(s, j + 1) {
                Some((elems, k)) => {
                    let k2 = Self::consume_space(s, k);
                    if k2 < n && s.get_char(k2) == ')' {
                        Some((TvkObject::List(elems), k2 + 1))
                    } else {
                        None
                    }
                },
                None => None,
            }
        } else {
            match Self::parse_color(s, j) {
                Some((e, k)) => Some((e, k)),
                None => match Self::parse_uint_literal(s, j) {
                    Some((e, k)) => Some((e, k)),
                    None => match Self::parse_float_literal(s, j) {
                        Some((e, k)) => Some((e, k)),
                        None => match Self::parse_atom(s, j) {
                            Some((e, k)) => Some((e, k)),
                            None => None,
                        },
                    },
                },
            }
        }
    }

    /// Parses a list body at `i`: one or more expressions separated by
    /// whitespace. When an expression after a separator fails, the list
    /// ends before that separator.
    fn parse_list(s: &str, i: usize) -> (r: Option<(Vec<TvkObject>, usize)>)
        requires
            i as int <= s@.len(),
        ensures
            match r {
                Some((es, j)) => spec_parse_elems(s@, i as int) == Some(
                    (view_exprs(es@, 0), j as int),
                ) && i < j && j as int <= s@.len(),
                None => spec_parse_elems(s@, i as int) is None,
            },
        decreases s@.len() - i, 1int,
    {
        match Self::parse_tvk(s, i) {
            None => None,
            Some((e, j)) => {
                proof {
                    assert(next_pos(s@, i as int, j as int) == j as int);
                }
                let j2 = Self::consume_space(s, j);
                if j2 > j {
                    match Self::parse_list(s, j2) {
                        Some((rest, k)) => {
                            let ghost old_rest = rest@;
                            let mut rest = rest;
                            rest.insert(0, e);
                            proof {
                                assert(view_exprs(rest@, 0) =~= seq![e.view()] + view_exprs(
                                    old_rest,
                                    0,
                                ));
                            }
                            Some((rest, k))
                        },
                        None => {
                            let v = vec![e];
                            proof {
                                assert(view_exprs(v@, 0) =~= seq![v@[0].view()]);
                            }
                            Some((v, j))
                        },
                    }
                } else {
                    let v = vec![e];
                    proof {
                        assert(view_exprs(v@, 0) =~= seq![v@[0].view()]);
                    }
                    Some((v, j))
                }
            },
        }
    }

    /// Parses every top-level form of the source, in order, skipping one
    /// character and retrying wherever no form parses; appends the forms to
    /// `exprs` and returns them.
    pub fn parse(&mut self) -> (r: Vec<TvkObject>)
        ensures
            view_exprs(final(self).exprs@, 0) == view_exprs(old(self).exprs@, 0) + spec_parse_all(
                old(self).source@,
                0,
            ),
            view_exprs(r@, 0) == view_exprs(final(self).exprs@, 0),
            final(self).source == old(self).source,
    {
        let n = self.source.as_str().unicode_len();
        let mut pos: usize = 0;
        while pos < n
            invariant
                n == self.source@.len(),
                pos as int <= self.source@.len(),
                self.source == old(self).source,
                view_exprs(self.exprs@, 0) + spec_parse_all(self.source@, pos as int)
                    == view_exprs(old(self).exprs@, 0) + spec_parse_all(old(self).source@, 0),
            decreases self.source@.len() - pos,
        {
            let next = Self::parse_tvk(self.source.as_str(), pos);
            match next {
                Some((e, j)) => {
                    proof {
                        assert(next_pos(self.source@, pos as int, j as int) == j as int);
                        assert(seq![e.view()] + spec_parse_all(self.source@, j as int)
                            == spec_parse_all(self.source@, pos as int));
                    }
                    let ghost prev = self.exprs@;
                    self.exprs.push(e);
                    proof {
                        assert(view_exprs(self.exprs@, 0) =~= view_exprs(prev, 0) + seq![
                            self.exprs@[prev.len() as int].view(),
                        ]);
                        assert(view_exprs(self.exprs@, 0) + spec_parse_all(
                            self.source@,
                            j as int,
                        ) =~= view_exprs(prev, 0) + spec_parse_all(self.source@, pos as int));
                    }
                    pos = j;
                },
                None => {
                    pos = pos + 1;
                },
            }
        }
        let r = self.exprs.clone();
        proof {
            assert(spec_parse_all(self.source@, pos as int) =~= Seq::<SExprV>::empty());
            assert(view_exprs(self.exprs@, 0) =~= view_exprs(self.exprs@, 0) + Seq::empty());
            assert(r@.len() == self.exprs@.len());
            assert forall|t: int| 0 <= t < r@.len() implies r@[t].view()
                == self.exprs@[t].view() by {
                assert(cloned::<TvkObject>(self.exprs@[t], r@[t]));
            }
            assert(view_exprs(r@, 0) =~= view_exprs(self.exprs@, 0));
        }
        r
    }
}

} // verus!
