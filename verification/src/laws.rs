//! Laws of the language, proved once and for all inputs: how literals
//! decode, how `vertex-buffer` enforces homogeneity, how `def` binds and
//! rebinds names, and what `(transform default)` yields.

use vstd::prelude::*;
use crate::interpreter::{
    EvalOut, spec_eval, spec_eval_color, spec_eval_def, spec_eval_transform, spec_eval_vb,
    spec_keyword, spec_vb_items, Keyword,
};
use crate::lex::{dec_val, hex_val, is_digit_char, is_hex_digit_char};
use crate::parser::{
    color_matches, color_value, digits_len, float_end, spec_parse_sexpr, uint_matches, ws_len,
};
use crate::renderer::SinkV;
use crate::types::{ColorLit, InnerTypeV, SExprV, spec_transform_default};

verus! {

broadcast use vstd::seq::group_seq_axioms, vstd::string::group_string_axioms;

/// An all-digit run is scanned to the end of the input.
proof fn lemma_digits_len_all(s: Seq<char>, i: int)
    requires
        0 <= i <= s.len(),
        forall|k: int| i <= k < s.len() ==> is_digit_char(#[trigger] s[k]),
    ensures
        digits_len(s, i) == s.len() - i,
    decreases s.len() - i,
{
    if i < s.len() {
        lemma_digits_len_all(s, i + 1);
    }
}

/// Every valid 8-digit hex color literal decodes to exactly the four
/// channel bytes its digit pairs write: parsing `#RRGGBBAA` alone yields
/// that color and consumes all nine characters. (The rendering edge then
/// normalizes each channel to `byte / 255.0`.)
pub proof fn lemma_hex_color_literal_decodes(s: Seq<char>)
    requires
        s.len() == 9,
        s[0] == '#',
        forall|k: int| 1 <= k < 9 ==> is_hex_digit_char(#[trigger] s[k]),
    ensures
        spec_parse_sexpr(s, 0) == Some(
            (
                SExprV::Color(
                    ColorLit {
                        r: (hex_val(s[1]) * 16 + hex_val(s[2])) as u8,
                        g: (hex_val(s[3]) * 16 + hex_val(s[4])) as u8,
                        b: (hex_val(s[5]) * 16 + hex_val(s[6])) as u8,
                        a: (hex_val(s[7]) * 16 + hex_val(s[8])) as u8,
                    },
                ),
                9int,
            ),
        ),
{
    assert(ws_len(s, 0) == 0);
    assert(color_matches(s, 0));
    assert(spec_parse_sexpr(s, 0) == Some((SExprV::Color(color_value(s, 0)), 9int)));
}

/// A nonempty digit string whose value fits `u32` parses as that unsigned
/// integer, consuming every digit — never as a float or an atom.
pub proof fn lemma_uint_literal_parses(s: Seq<char>)
    requires
        s.len() > 0,
        forall|k: int| 0 <= k < s.len() ==> is_digit_char(#[trigger] s[k]),
        dec_val(s, 0, s.len() as int) <= u32::MAX as int,
    ensures
        spec_parse_sexpr(s, 0) == Some(
            (SExprV::UInt(dec_val(s, 0, s.len() as int) as u32), s.len() as int),
        ),
{
    assert(ws_len(s, 0) == 0);
    lemma_digits_len_all(s, 0);
    assert(uint_matches(s, 0));
    assert(!color_matches(s, 0));
}

/// A digit string followed by a lone `.` never parses as an unsigned
/// integer: the whole text, dot included, is one float literal.
pub proof fn lemma_trailing_dot_is_float(s: Seq<char>)
    requires
        s.len() >= 2,
        forall|k: int| 0 <= k < s.len() - 1 ==> is_digit_char(#[trigger] s[k]),
        s[s.len() - 1] == '.',
    ensures
        spec_parse_sexpr(s, 0) == Some((SExprV::Float(s), s.len() as int)),
{
    assert(ws_len(s, 0) == 0);
    let n = s.len() as int;
    lemma_digits_prefix(s, 0, n - 1);
    assert(digits_len(s, 0) == n - 1);
    assert(!uint_matches(s, 0));
    assert(!color_matches(s, 0));
    assert(digits_len(s, n) == 0);
    assert(float_end(s, 0) == Some(n)) by {
        assert(s[0] != '+' && s[0] != '-');
        assert(digits_len(s, 0) > 0);
        assert(s[n - 1] == '.');
    }
    assert(s.subrange(0, n) =~= s);
}

/// A digit run stopped by a non-digit has exactly the digits before it.
proof fn lemma_digits_prefix(s: Seq<char>, i: int, e: int)
    requires
        0 <= i <= e <= s.len(),
        forall|k: int| i <= k < e ==> is_digit_char(#[trigger] s[k]),
        e == s.len() || !is_digit_char(s[e]),
    ensures
        digits_len(s, i) == e - i,
    decreases e - i,
{
    if i < e {
        lemma_digits_prefix(s, i + 1, e);
    }
}

/// The keyword table reads `vertex-buffer` as the vertex-buffer form.
proof fn lemma_keyword_vertex_buffer()
    ensures
        spec_keyword("vertex-buffer"@) == Some(Keyword::VertexBuffer),
{
    reveal_strlit("def");
    reveal_strlit("position");
    reveal_strlit("vec3");
    reveal_strlit("center");
    reveal_strlit("up");
    reveal_strlit("color");
    reveal_strlit("vertex");
    reveal_strlit("vertex-buffer");
    assert("def"@.len() == 3);
    assert("position"@.len() == 8);
    assert("vec3"@.len() == 4);
    assert("center"@.len() == 6);
    assert("up"@.len() == 2);
    assert("color"@.len() == 5);
    assert("vertex"@.len() == 6);
    assert("vertex-buffer"@.len() == 13);
}

/// The keyword table reads `def` as the definition form.
proof fn lemma_keyword_def()
    ensures
        spec_keyword("def"@) == Some(Keyword::Def),
{
    reveal_strlit("def");
}

/// The keyword table reads `color` as the color form.
proof fn lemma_keyword_color()
    ensures
        spec_keyword("color"@) == Some(Keyword::Color),
{
    reveal_strlit("def");
    reveal_strlit("position");
    reveal_strlit("vec3");
    reveal_strlit("center");
    reveal_strlit("up");
    reveal_strlit("color");
    assert("def"@.len() == 3);
    assert("position"@.len() == 8);
    assert("vec3"@.len() == 4);
    assert("center"@.len() == 6);
    assert("up"@.len() == 2);
    assert("color"@.len() == 5);
}

/// The keyword table reads `transform` as the transform form.
proof fn lemma_keyword_transform()
    ensures
        spec_keyword("transform"@) == Some(Keyword::Transform),
{
    reveal_strlit("def");
    reveal_strlit("position");
    reveal_strlit("vec3");
    reveal_strlit("center");
    reveal_strlit("up");
    reveal_strlit("color");
    reveal_strlit("vertex");
    reveal_strlit("vertex-buffer");
    reveal_strlit("index-buffer");
    reveal_strlit("fovy");
    reveal_strlit("z-near");
    reveal_strlit("z-far");
    reveal_strlit("perspective");
    reveal_strlit("camera");
    reveal_strlit("transform");
    assert("def"@.len() == 3);
    assert("position"@.len() == 8);
    assert("vec3"@.len() == 4);
    assert("center"@.len() == 6);
    assert("up"@.len() == 2);
    assert("color"@.len() == 5);
    assert("vertex"@.len() == 6);
    assert("vertex-buffer"@.len() == 13);
    assert("index-buffer"@.len() == 12);
    assert("fovy"@.len() == 4);
    assert("z-near"@.len() == 6);
    assert("z-far"@.len() == 5);
    assert("perspective"@.len() == 11);
    assert("camera"@.len() == 6);
    assert("transform"@.len() == 9);
}

/// Homogeneity of `vertex-buffer`: however its children evaluate, the form
/// yields a VertexBuffer exactly when they all reduced to plain vertices
/// (and there was at least one), a TexVertexBuffer exactly when all
/// reduced to textured vertices, and no value when the kinds are mixed,
/// when there are no vertices at all, or when any child fails.
pub proof fn lemma_vertex_buffer_homogeneity(
    l: Seq<SExprV>,
    env: Map<Seq<char>, InnerTypeV>,
    sink: SinkV,
)
    requires
        l.len() >= 2,
        l[0] == SExprV::Atom("vertex-buffer"@),
        l[1] is List,
    ensures
        ({
            let out = spec_vb_items(l[1]->List_0, 0, env, sink);
            let o = spec_eval(SExprV::List(l), env, sink);
            match out.0 {
                Some(t) => {
                    &&& (t.0.len() > 0 && t.1.len() > 0 ==> o.r is None)
                    &&& (t.0.len() > 0 && t.1.len() == 0 ==> o.r == Some(
                        InnerTypeV::VertexBuffer(t.0),
                    ))
                    &&& (t.1.len() > 0 && t.0.len() == 0 ==> o.r == Some(
                        InnerTypeV::TexVertexBuffer(t.1),
                    ))
                    &&& (t.0.len() == 0 && t.1.len() == 0 ==> o.r is None)
                },
                None => o.r is None,
            }
        }),
{
    lemma_keyword_vertex_buffer();
    assert(spec_eval(SExprV::List(l), env, sink) == spec_eval_vb(l, env, sink));
}

/// Binding: `(def NAME EXPR)` yields no value itself; when EXPR evaluates
/// to a value, the bindings afterwards are exactly the bindings after
/// evaluating EXPR with NAME bound to that value, and when EXPR yields no
/// value, nothing is bound.
pub proof fn lemma_def_binds(
    name: Seq<char>,
    e: SExprV,
    env: Map<Seq<char>, InnerTypeV>,
    sink: SinkV,
)
    ensures
        ({
            let form = SExprV::List(seq![SExprV::Atom("def"@), SExprV::Atom(name), e]);
            let o = spec_eval(form, env, sink);
            let inner = spec_eval(e, env, sink);
            &&& o.r is None
            &&& (inner.r is Some ==> o.env == inner.env.insert(name, inner.r->Some_0))
            &&& (inner.r is None ==> o.env == inner.env)
            &&& o.sink == inner.sink
        }),
{
    lemma_keyword_def();
    let l = seq![SExprV::Atom("def"@), SExprV::Atom(name), e];
    assert(l[2] == e);
    assert(spec_eval(SExprV::List(l), env, sink) == spec_eval_def(l, env, sink));
}

/// Retrieval: `(color NAME)` yields whatever value NAME is bound to — in
/// particular, the color a `(def NAME (color LIT))` just bound — and the
/// bindings and sink stay as they are.
pub proof fn lemma_color_lookup(
    name: Seq<char>,
    env: Map<Seq<char>, InnerTypeV>,
    sink: SinkV,
)
    requires
        env.contains_key(name),
    ensures
        spec_eval(SExprV::List(seq![SExprV::Atom("color"@), SExprV::Atom(name)]), env, sink)
            == (EvalOut { r: Some(env[name]), env, sink }),
{
    lemma_keyword_color();
    let l = seq![SExprV::Atom("color"@), SExprV::Atom(name)];
    assert(spec_eval(SExprV::List(l), env, sink) == spec_eval_color(l, env, sink));
}

/// Shadowing: rebinding a name overrides its earlier binding for every
/// later lookup within the pass; the environment is simply the one with
/// the newer value.
pub proof fn lemma_rebinding_overrides(
    env: Map<Seq<char>, InnerTypeV>,
    name: Seq<char>,
    v1: InnerTypeV,
    v2: InnerTypeV,
)
    ensures
        env.insert(name, v1).insert(name, v2) == env.insert(name, v2),
        env.insert(name, v1).insert(name, v2)[name] == v2,
{
    assert(env.insert(name, v1).insert(name, v2) =~= env.insert(name, v2));
}

/// Default transform idempotence: `(transform default)` always yields the
/// identity transform — translation zero, scale one, rotation of zero
/// about the up axis — whatever is bound, and changes nothing.
pub proof fn lemma_transform_default(env: Map<Seq<char>, InnerTypeV>, sink: SinkV)
    ensures
        spec_eval(
            SExprV::List(seq![SExprV::Atom("transform"@), SExprV::Atom("default"@)]),
            env,
            sink,
        ) == (EvalOut {
            r: Some(InnerTypeV::Transform(spec_transform_default())),
            env,
            sink,
        }),
{
    lemma_keyword_transform();
    let l = seq![SExprV::Atom("transform"@), SExprV::Atom("default"@)];
    assert(spec_eval(SExprV::List(l), env, sink) == spec_eval_transform(l, env, sink));
}

} // verus!
