//! The tree-walking evaluator: dispatches on the leading keyword of each
//! list form, type-checks arguments, builds typed scene values, and hands
//! finished drawables to the renderer sink.
//!
//! The whole evaluation relation is written down as the spec function
//! `spec_eval`: given an expression, the bindings and the sink, it says
//! exactly which value (if any) comes out and how bindings and sink change.
//! `Interpreter::eval` is verified to implement it. Failure is uniform and
//! silent: a form whose arguments do not fit yields no value, and the
//! enclosing form in turn yields no value, but side effects performed
//! before the failure (bindings, submitted drawables) stay.

use vstd::prelude::*;
use crate::env::Environment;
use crate::lex::spec_u32_text;
use crate::renderer::{RendererSink, SinkV, spec_load_texture};
use crate::types::{
    Camera, CameraV, FloatLit, InnerType, InnerTypeV, Model, ModelV, PerspLit, PerspV, Rotation,
    RotationV, SExprV, TexVertexV, TextureVertex, Topology, Transform, TransformV, TvkObject,
    Vec3Lit, Vec3V, Vertex, VertexV, spec_transform_default, view_exprs, view_opt,
};

verus! {

broadcast use vstd::std_specs::vec::group_vec_axioms, vstd::seq::group_seq_axioms, crate::types::lemma_view_exprs;

/// The closed set of keywords a list form can start with.
#[derive(Clone, Copy, Debug, PartialEq, Eq, Structural)]
pub enum Keyword {
    Def,
    Position,
    Vec3,
    Center,
    Up,
    Color,
    Vertex,
    VertexBuffer,
    IndexBuffer,
    Fovy,
    ZNear,
    ZFar,
    Perspective,
    Camera,
    Transform,
    Translate,
    Scale,
    Rotate,
    Topology,
    Model,
    Draw,
    Texture,
}

/// Which keyword, if any, the atom text names.
pub open spec fn spec_keyword(s: Seq<char>) -> Option<Keyword> {
    if s == "def"@ {
        Some(Keyword::Def)
    } else if s == "position"@ {
        Some(Keyword::Position)
    } else if s == "vec3"@ {
        Some(Keyword::Vec3)
    } else if s == "center"@ {
        Some(Keyword::Center)
    } else if s == "up"@ {
        Some(Keyword::Up)
    } else if s == "color"@ {
        Some(Keyword::Color)
    } else if s == "vertex"@ {
        Some(Keyword::Vertex)
    } else if s == "vertex-buffer"@ {
        Some(Keyword::VertexBuffer)
    } else if s == "index-buffer"@ {
        Some(Keyword::IndexBuffer)
    } else if s == "fovy"@ {
        Some(Keyword::Fovy)
    } else if s == "z-near"@ {
        Some(Keyword::ZNear)
    } else if s == "z-far"@ {
        Some(Keyword::ZFar)
    } else if s == "perspective"@ {
        Some(Keyword::Perspective)
    } else if s == "camera"@ {
        Some(Keyword::Camera)
    } else if s == "transform"@ {
        Some(Keyword::Transform)
    } else if s == "translate"@ {
        Some(Keyword::Translate)
    } else if s == "scale"@ {
        Some(Keyword::Scale)
    } else if s == "rotate"@ {
        Some(Keyword::Rotate)
    } else if s == "topology"@ {
        Some(Keyword::Topology)
    } else if s == "model"@ {
        Some(Keyword::Model)
    } else if s == "draw"@ {
        Some(Keyword::Draw)
    } else if s == "texture"@ {
        Some(Keyword::Texture)
    } else {
        None
    }
}

/// Which topology tag, if any, the atom text names; `default` maps to
/// triangle-list. An unrecognized name fails the form, so a misspelling
/// cannot silently change how a buffer is assembled.
pub open spec fn spec_topology_kw(s: Seq<char>) -> Option<Topology> {
    if s == "default"@ {
        Some(Topology::TriangleList)
    } else if s == "triangle-list"@ {
        Some(Topology::TriangleList)
    } else if s == "triangle-strip"@ {
        Some(Topology::TriangleStrip)
    } else if s == "line-list"@ {
        Some(Topology::LineList)
    } else if s == "line-strip"@ {
        Some(Topology::LineStrip)
    } else if s == "point-list"@ {
        Some(Topology::PointList)
    } else {
        None
    }
}

/// What one evaluation yields: the value (or no value), and the bindings
/// and sink after it.
pub struct EvalOut {
    pub r: Option<InnerTypeV>,
    pub env: Map<Seq<char>, InnerTypeV>,
    pub sink: SinkV,
}

/// No value, nothing changed.
pub open spec fn none_out(env: Map<Seq<char>, InnerTypeV>, sink: SinkV) -> EvalOut {
    EvalOut { r: None, env, sink }
}

/// The evaluation relation. Dispatches on the expression's shape and, for
/// a list, on its leading keyword; a list with an unrecognized or missing
/// head yields no value, and a bare atom reads the binding of that name.
pub open spec fn spec_eval(e: SExprV, env: Map<Seq<char>, InnerTypeV>, sink: SinkV) -> EvalOut
    decreases e, 2int, 0int,
{
    match e {
        SExprV::Float(t) => EvalOut { r: Some(InnerTypeV::Float(t)), env, sink },
        SExprV::UInt(n) => EvalOut { r: Some(InnerTypeV::UInt(n)), env, sink },
        SExprV::Atom(name) => EvalOut {
            r: if env.contains_key(name) {
                Some(env[name])
            } else {
                None
            },
            env,
            sink,
        },
        SExprV::Color(_) => none_out(env, sink),
        SExprV::List(l) => {
            if l.len() < 1 {
                none_out(env, sink)
            } else {
                match l[0] {
                    SExprV::Atom(kw) => match spec_keyword(kw) {
                        Some(Keyword::Def) => spec_eval_def(l, env, sink),
                        Some(Keyword::Position) => spec_eval_pos(l, env, sink),
                        Some(Keyword::Center) => spec_eval_pos(l, env, sink),
                        Some(Keyword::Up) => spec_eval_pos(l, env, sink),
                        Some(Keyword::Vec3) => spec_eval_vec3(l, env, sink),
                        Some(Keyword::Color) => spec_eval_color(l, env, sink),
                        Some(Keyword::Vertex) => spec_eval_vertex(l, env, sink),
                        Some(Keyword::VertexBuffer) => spec_eval_vb(l, env, sink),
                        Some(Keyword::IndexBuffer) => spec_eval_ib(l, env, sink),
                        Some(Keyword::Fovy) => spec_eval_forward(l, env, sink),
                        Some(Keyword::ZNear) => spec_eval_forward(l, env, sink),
                        Some(Keyword::ZFar) => spec_eval_forward(l, env, sink),
                        Some(Keyword::Perspective) => spec_eval_perspective(l, env, sink),
                        Some(Keyword::Camera) => spec_eval_camera(l, env, sink),
                        Some(Keyword::Transform) => spec_eval_transform(l, env, sink),
                        Some(Keyword::Translate) => spec_eval_vec3_forward(l, env, sink),
                        Some(Keyword::Scale) => spec_eval_vec3_forward(l, env, sink),
                        Some(Keyword::Rotate) => spec_eval_rotate(l, env, sink),
                        Some(Keyword::Topology) => spec_eval_topology(l, env, sink),
                        Some(Keyword::Model) => spec_eval_model(l, env, sink),
                        Some(Keyword::Draw) => spec_eval_draw(l, env, sink),
                        Some(Keyword::Texture) => spec_eval_texture(l, env, sink),
                        None => none_out(env, sink),
                    },
                    _ => none_out(env, sink),
                }
            }
        },
    }
}

/// `(def NAME EXPR)`: evaluates EXPR and binds the result under NAME;
/// yields no value itself. With no atom in name position, or no
/// expression, nothing is evaluated and nothing is bound.
pub open spec fn spec_eval_def(l: Seq<SExprV>, env: Map<Seq<char>, InnerTypeV>, sink: SinkV) -> EvalOut
    decreases l, 1int, 0int,
{
    if l.len() >= 3 && l[1] is Atom {
        let name = l[1]->Atom_0;
        let o = spec_eval(l[2], env, sink);
        match o.r {
            Some(v) => EvalOut { r: None, env: o.env.insert(name, v), sink: o.sink },
            None => EvalOut { r: None, env: o.env, sink: o.sink },
        }
    } else {
        none_out(env, sink)
    }
}

/// The scalar of one tagged sub-form such as `(x 1.5)`: the literal at
/// index 1, taken directly without evaluation; an unsigned integer is
/// coerced to its decimal text. The tag itself is not inspected.
pub open spec fn spec_tagged_component(items: Seq<SExprV>) -> Option<Seq<char>> {
    if items.len() >= 2 {
        match items[1] {
            SExprV::Float(t) => Some(t),
            SExprV::UInt(n) => Some(spec_u32_text(n as int)),
            _ => None,
        }
    } else {
        None
    }
}

/// `(position (x F) (y F) (z F))` and the same form under `center` and
/// `up`: builds a Position from the three tagged scalars, without
/// recursing through full evaluation. Any other shape forwards evaluation
/// of the first argument (so `(position IDENT)` resolves a binding).
pub open spec fn spec_eval_pos(l: Seq<SExprV>, env: Map<Seq<char>, InnerTypeV>, sink: SinkV) -> EvalOut
    decreases l, 1int, 0int,
{
    if l.len() >= 4 && l[1] is List && l[2] is List && l[3] is List {
        let c1 = spec_tagged_component(l[1]->List_0);
        let c2 = spec_tagged_component(l[2]->List_0);
        let c3 = spec_tagged_component(l[3]->List_0);
        if c1 is Some && c2 is Some && c3 is Some {
            EvalOut {
                r: Some(
                    InnerTypeV::Position(
                        Vec3V { x: c1->Some_0, y: c2->Some_0, z: c3->Some_0 },
                    ),
                ),
                env,
                sink,
            }
        } else {
            none_out(env, sink)
        }
    } else if l.len() >= 2 {
        spec_eval(l[1], env, sink)
    } else {
        none_out(env, sink)
    }
}

/// One component of a `vec3` form: the item at `idx` is fully evaluated
/// and must yield a Float or a UInt (coerced to its decimal text); a
/// missing item counts as zero. `None` in the first slot means failure.
pub open spec fn spec_vec3_item(
    items: Seq<SExprV>,
    idx: int,
    env: Map<Seq<char>, InnerTypeV>,
    sink: SinkV,
) -> (Option<Seq<char>>, Map<Seq<char>, InnerTypeV>, SinkV)
    decreases items, 0int, 0int,
{
    if 0 <= idx < items.len() {
        let o = spec_eval(items[idx], env, sink);
        match o.r {
            Some(InnerTypeV::Float(t)) => (Some(t), o.env, o.sink),
            Some(InnerTypeV::UInt(n)) => (Some(spec_u32_text(n as int)), o.env, o.sink),
            _ => (None, o.env, o.sink),
        }
    } else {
        (Some("0"@), env, sink)
    }
}

/// `(vec3 (E1 E2 E3))`: evaluates the three component expressions in
/// order, accepting Float or UInt (coerced) results. Any other shape
/// forwards evaluation of the first argument.
pub open spec fn spec_eval_vec3(l: Seq<SExprV>, env: Map<Seq<char>, InnerTypeV>, sink: SinkV) -> EvalOut
    decreases l, 1int, 0int,
{
    if l.len() >= 2 && l[1] is List {
        let items = l[1]->List_0;
        proof {
            assert(decreases_to!(l => l[1]));
            assert(decreases_to!(l[1] => l[1]->List_0));
        }
        let s1 = spec_vec3_item(items, 0, env, sink);
        match s1.0 {
            None => EvalOut { r: None, env: s1.1, sink: s1.2 },
            Some(x) => {
                let s2 = spec_vec3_item(items, 1, s1.1, s1.2);
                match s2.0 {
                    None => EvalOut { r: None, env: s2.1, sink: s2.2 },
                    Some(y) => {
                        let s3 = spec_vec3_item(items, 2, s2.1, s2.2);
                        match s3.0 {
                            None => EvalOut { r: None, env: s3.1, sink: s3.2 },
                            Some(z) => EvalOut {
                                r: Some(InnerTypeV::Vec3(Vec3V { x, y, z })),
                                env: s3.1,
                                sink: s3.2,
                            },
                        }
                    },
                }
            },
        }
    } else if l.len() >= 2 {
        spec_eval(l[1], env, sink)
    } else {
        none_out(env, sink)
    }
}

/// `(color #RRGGBBAA)` yields the literal color; `(color IDENT)` reads the
/// binding of IDENT, whatever it holds. Anything else yields no value,
/// with nothing evaluated.
pub open spec fn spec_eval_color(l: Seq<SExprV>, env: Map<Seq<char>, InnerTypeV>, sink: SinkV) -> EvalOut
    decreases l, 1int, 0int,
{
    if l.len() >= 2 {
        match l[1] {
            SExprV::Color(c) => EvalOut { r: Some(InnerTypeV::Color(c)), env, sink },
            SExprV::Atom(id) => EvalOut {
                r: if env.contains_key(id) {
                    Some(env[id])
                } else {
                    None
                },
                env,
                sink,
            },
            _ => none_out(env, sink),
        }
    } else {
        none_out(env, sink)
    }
}

/// `(vertex POS COLOR_OR_UV)`: the first argument must evaluate to a
/// Position; a Color second argument makes a plain Vertex, a
/// Position-shaped one is read as texture coordinates (first two
/// components). The second argument is only evaluated when the first fits.
pub open spec fn spec_eval_vertex(l: Seq<SExprV>, env: Map<Seq<char>, InnerTypeV>, sink: SinkV) -> EvalOut
    decreases l, 1int, 0int,
{
    if l.len() >= 3 {
        let o1 = spec_eval(l[1], env, sink);
        match o1.r {
            Some(InnerTypeV::Position(p)) => {
                let o2 = spec_eval(l[2], o1.env, o1.sink);
                match o2.r {
                    Some(InnerTypeV::Color(c)) => EvalOut {
                        r: Some(InnerTypeV::Vertex(VertexV { position: p, color: c })),
                        env: o2.env,
                        sink: o2.sink,
                    },
                    Some(InnerTypeV::Position(uv)) => EvalOut {
                        r: Some(
                            InnerTypeV::TextureVertex(
                                TexVertexV { position: p, uv: (uv.x, uv.y) },
                            ),
                        ),
                        env: o2.env,
                        sink: o2.sink,
                    },
                    _ => EvalOut { r: None, env: o2.env, sink: o2.sink },
                }
            },
            _ => EvalOut { r: None, env: o1.env, sink: o1.sink },
        }
    } else {
        none_out(env, sink)
    }
}

/// The children of a `vertex-buffer` form from `i` on: each must evaluate
/// to a Vertex or a TextureVertex; the two kinds are collected separately.
pub open spec fn spec_vb_items(
    items: Seq<SExprV>,
    i: int,
    env: Map<Seq<char>, InnerTypeV>,
    sink: SinkV,
) -> (Option<(Seq<VertexV>, Seq<TexVertexV>)>, Map<Seq<char>, InnerTypeV>, SinkV)
    decreases items, 0int, items.len() - i,
{
    if i < 0 || i >= items.len() {
        (Some((Seq::empty(), Seq::empty())), env, sink)
    } else {
        let o = spec_eval(items[i], env, sink);
        match o.r {
            Some(InnerTypeV::Vertex(v)) => {
                let rest = spec_vb_items(items, i + 1, o.env, o.sink);
                match rest.0 {
                    Some(t) => (Some((seq![v] + t.0, t.1)), rest.1, rest.2),
                    None => (None, rest.1, rest.2),
                }
            },
            Some(InnerTypeV::TextureVertex(tv)) => {
                let rest = spec_vb_items(items, i + 1, o.env, o.sink);
                match rest.0 {
                    Some(t) => (Some((t.0, seq![tv] + t.1)), rest.1, rest.2),
                    None => (None, rest.1, rest.2),
                }
            },
            _ => (None, o.env, o.sink),
        }
    }
}

/// `(vertex-buffer (V1 V2 ...))`: every child must reduce to a vertex, and
/// all to the same kind — all plain yields a VertexBuffer, all textured a
/// TexVertexBuffer; a mixture, or no vertices at all, yields no value.
pub open spec fn spec_eval_vb(l: Seq<SExprV>, env: Map<Seq<char>, InnerTypeV>, sink: SinkV) -> EvalOut
    decreases l, 1int, 0int,
{
    if l.len() >= 2 && l[1] is List {
        let items = l[1]->List_0;
        proof {
            assert(decreases_to!(l => l[1]));
            assert(decreases_to!(l[1] => l[1]->List_0));
        }
        let out = spec_vb_items(items, 0, env, sink);
        match out.0 {
            Some(t) => {
                if t.0.len() > 0 && t.1.len() == 0 {
                    EvalOut { r: Some(InnerTypeV::VertexBuffer(t.0)), env: out.1, sink: out.2 }
                } else if t.1.len() > 0 && t.0.len() == 0 {
                    EvalOut { r: Some(InnerTypeV::TexVertexBuffer(t.1)), env: out.1, sink: out.2 }
                } else {
                    EvalOut { r: None, env: out.1, sink: out.2 }
                }
            },
            None => EvalOut { r: None, env: out.1, sink: out.2 },
        }
    } else {
        none_out(env, sink)
    }
}

/// The children of an `index-buffer` form from `i` on: each must evaluate
/// to a UInt.
pub open spec fn spec_ib_items(
    items: Seq<SExprV>,
    i: int,
    env: Map<Seq<char>, InnerTypeV>,
    sink: SinkV,
) -> (Option<Seq<u32>>, Map<Seq<char>, InnerTypeV>, SinkV)
    decreases items, 0int, items.len() - i,
{
    if i < 0 || i >= items.len() {
        (Some(Seq::empty()), env, sink)
    } else {
        let o = spec_eval(items[i], env, sink);
        match o.r {
            Some(InnerTypeV::UInt(n)) => {
                let rest = spec_ib_items(items, i + 1, o.env, o.sink);
                match rest.0 {
                    Some(t) => (Some(seq![n] + t), rest.1, rest.2),
                    None => (None, rest.1, rest.2),
                }
            },
            _ => (None, o.env, o.sink),
        }
    }
}

/// `(index-buffer (I1 I2 ...))`: every child must evaluate to a UInt; the
/// indices are kept in order. An empty list yields an empty buffer.
pub open spec fn spec_eval_ib(l: Seq<SExprV>, env: Map<Seq<char>, InnerTypeV>, sink: SinkV) -> EvalOut
    decreases l, 1int, 0int,
{
    if l.len() >= 2 && l[1] is List {
        let items = l[1]->List_0;
        proof {
            assert(decreases_to!(l => l[1]));
            assert(decreases_to!(l[1] => l[1]->List_0));
        }
        let out = spec_ib_items(items, 0, env, sink);
        match out.0 {
            Some(t) => EvalOut { r: Some(InnerTypeV::IndexBuffer(t)), env: out.1, sink: out.2 },
            None => EvalOut { r: None, env: out.1, sink: out.2 },
        }
    } else {
        none_out(env, sink)
    }
}

/// The float scalar a value yields where a Float is expected: a Float's
/// own text, or an unsigned integer coerced to its decimal text (the
/// coercion rule is applied consistently wherever a Float is expected).
pub open spec fn as_float_scalar(r: Option<InnerTypeV>) -> Option<Seq<char>> {
    match r {
        Some(InnerTypeV::Float(t)) => Some(t),
        Some(InnerTypeV::UInt(n)) => Some(spec_u32_text(n as int)),
        _ => None,
    }
}

/// `(fovy E)`, `(z-near E)`, `(z-far E)`: aliases that forward evaluation
/// of their argument.
pub open spec fn spec_eval_forward(l: Seq<SExprV>, env: Map<Seq<char>, InnerTypeV>, sink: SinkV) -> EvalOut
    decreases l, 1int, 0int,
{
    if l.len() >= 2 {
        spec_eval(l[1], env, sink)
    } else {
        none_out(env, sink)
    }
}

/// `(perspective FOVY ZNEAR ZFAR)` builds a Perspective from three Float
/// results, left to right; the unary form forwards evaluation (so a bound
/// perspective can pass through).
pub open spec fn spec_eval_perspective(l: Seq<SExprV>, env: Map<Seq<char>, InnerTypeV>, sink: SinkV) -> EvalOut
    decreases l, 1int, 0int,
{
    if l.len() == 4 {
        let o1 = spec_eval(l[1], env, sink);
        match as_float_scalar(o1.r) {
            Some(fovy) => {
                let o2 = spec_eval(l[2], o1.env, o1.sink);
                match as_float_scalar(o2.r) {
                    Some(z_near) => {
                        let o3 = spec_eval(l[3], o2.env, o2.sink);
                        match as_float_scalar(o3.r) {
                            Some(z_far) => EvalOut {
                                r: Some(
                                    InnerTypeV::Perspective(PerspV { fovy, z_near, z_far }),
                                ),
                                env: o3.env,
                                sink: o3.sink,
                            },
                            None => EvalOut { r: None, env: o3.env, sink: o3.sink },
                        }
                    },
                    None => EvalOut { r: None, env: o2.env, sink: o2.sink },
                }
            },
            None => EvalOut { r: None, env: o1.env, sink: o1.sink },
        }
    } else if l.len() == 2 {
        spec_eval(l[1], env, sink)
    } else {
        none_out(env, sink)
    }
}

/// `(camera POS CENTER UP PERSPECTIVE)` builds a Camera from three
/// Position results and a Perspective, left to right; the unary form
/// yields the argument's value only when it is a Camera.
pub open spec fn spec_eval_camera(l: Seq<SExprV>, env: Map<Seq<char>, InnerTypeV>, sink: SinkV) -> EvalOut
    decreases l, 1int, 0int,
{
    if l.len() == 5 {
        let o1 = spec_eval(l[1], env, sink);
        match o1.r {
            Some(InnerTypeV::Position(position)) => {
                let o2 = spec_eval(l[2], o1.env, o1.sink);
                match o2.r {
                    Some(InnerTypeV::Position(center)) => {
                        let o3 = spec_eval(l[3], o2.env, o2.sink);
                        match o3.r {
                            Some(InnerTypeV::Position(up)) => {
                                let o4 = spec_eval(l[4], o3.env, o3.sink);
                                match o4.r {
                                    Some(InnerTypeV::Perspective(perspective)) => EvalOut {
                                        r: Some(
                                            InnerTypeV::Camera(
                                                CameraV { position, center, up, perspective },
                                            ),
                                        ),
                                        env: o4.env,
                                        sink: o4.sink,
                                    },
                                    _ => EvalOut { r: None, env: o4.env, sink: o4.sink },
                                }
                            },
                            _ => EvalOut { r: None, env: o3.env, sink: o3.sink },
                        }
                    },
                    _ => EvalOut { r: None, env: o2.env, sink: o2.sink },
                }
            },
            _ => EvalOut { r: None, env: o1.env, sink: o1.sink },
        }
    } else if l.len() == 2 {
        let o = spec_eval(l[1], env, sink);
        match o.r {
            Some(InnerTypeV::Camera(c)) => EvalOut {
                r: Some(InnerTypeV::Camera(c)),
                env: o.env,
                sink: o.sink,
            },
            _ => EvalOut { r: None, env: o.env, sink: o.sink },
        }
    } else {
        none_out(env, sink)
    }
}

/// `(transform TRANSLATE SCALE ROTATE)` builds a Transform from two Vec3
/// results and a Rotate, left to right, any mismatch failing the whole
/// form; `(transform default)` yields the identity transform regardless of
/// any bindings; `(transform IDENT)` resolves a bound Transform.
pub open spec fn spec_eval_transform(l: Seq<SExprV>, env: Map<Seq<char>, InnerTypeV>, sink: SinkV) -> EvalOut
    decreases l, 1int, 0int,
{
    if l.len() == 4 {
        let o1 = spec_eval(l[1], env, sink);
        match o1.r {
            Some(InnerTypeV::Vec3(translate)) => {
                let o2 = spec_eval(l[2], o1.env, o1.sink);
                match o2.r {
                    Some(InnerTypeV::Vec3(scale)) => {
                        let o3 = spec_eval(l[3], o2.env, o2.sink);
                        match o3.r {
                            Some(InnerTypeV::Rotate(rotate)) => EvalOut {
                                r: Some(
                                    InnerTypeV::Transform(
                                        TransformV { translate, scale, rotate },
                                    ),
                                ),
                                env: o3.env,
                                sink: o3.sink,
                            },
                            _ => EvalOut { r: None, env: o3.env, sink: o3.sink },
                        }
                    },
                    _ => EvalOut { r: None, env: o2.env, sink: o2.sink },
                }
            },
            _ => EvalOut { r: None, env: o1.env, sink: o1.sink },
        }
    } else if l.len() == 2 {
        match l[1] {
            SExprV::Atom(id) => {
                if id == "default"@ {
                    EvalOut { r: Some(InnerTypeV::Transform(spec_transform_default())), env, sink }
                } else if env.contains_key(id) && env[id] is Transform {
                    EvalOut {
                        r: Some(InnerTypeV::Transform(env[id]->Transform_0)),
                        env,
                        sink,
                    }
                } else {
                    none_out(env, sink)
                }
            },
            _ => none_out(env, sink),
        }
    } else {
        none_out(env, sink)
    }
}

/// `(translate V)` and `(scale V)`: unary forwarders whose argument must
/// evaluate to a Vec3.
pub open spec fn spec_eval_vec3_forward(l: Seq<SExprV>, env: Map<Seq<char>, InnerTypeV>, sink: SinkV) -> EvalOut
    decreases l, 1int, 0int,
{
    if l.len() == 2 {
        let o = spec_eval(l[1], env, sink);
        match o.r {
            Some(InnerTypeV::Vec3(v)) => EvalOut {
                r: Some(InnerTypeV::Vec3(v)),
                env: o.env,
                sink: o.sink,
            },
            _ => EvalOut { r: None, env: o.env, sink: o.sink },
        }
    } else {
        none_out(env, sink)
    }
}

/// `(rotate ANGLE AXIS)`: a Float angle and a Vec3 axis.
pub open spec fn spec_eval_rotate(l: Seq<SExprV>, env: Map<Seq<char>, InnerTypeV>, sink: SinkV) -> EvalOut
    decreases l, 1int, 0int,
{
    if l.len() == 3 {
        let o1 = spec_eval(l[1], env, sink);
        match as_float_scalar(o1.r) {
            Some(angle) => {
                let o2 = spec_eval(l[2], o1.env, o1.sink);
                match o2.r {
                    Some(InnerTypeV::Vec3(axis)) => EvalOut {
                        r: Some(InnerTypeV::Rotate(RotationV { angle, axis })),
                        env: o2.env,
                        sink: o2.sink,
                    },
                    _ => EvalOut { r: None, env: o2.env, sink: o2.sink },
                }
            },
            None => EvalOut { r: None, env: o1.env, sink: o1.sink },
        }
    } else {
        none_out(env, sink)
    }
}

/// `(topology NAME)`: maps one of the fixed keywords to a topology tag;
/// anything else yields no value.
pub open spec fn spec_eval_topology(l: Seq<SExprV>, env: Map<Seq<char>, InnerTypeV>, sink: SinkV) -> EvalOut
    decreases l, 1int, 0int,
{
    if l.len() == 2 && l[1] is Atom {
        match spec_topology_kw(l[1]->Atom_0) {
            Some(t) => EvalOut { r: Some(InnerTypeV::Topology(t)), env, sink },
            None => none_out(env, sink),
        }
    } else {
        none_out(env, sink)
    }
}

/// `(model VB IB TOPOLOGY TRANSFORM CAMERA [TEXTURE])`: strictly
/// arity-checked; every sub-expression must evaluate to its expected type
/// in left-to-right order, any mismatch failing the whole form. The
/// six-argument form carries a texture, the five-argument form none.
pub open spec fn spec_eval_model(l: Seq<SExprV>, env: Map<Seq<char>, InnerTypeV>, sink: SinkV) -> EvalOut
    decreases l, 1int, 0int,
{
    if l.len() == 6 || l.len() == 7 {
        let o1 = spec_eval(l[1], env, sink);
        match o1.r {
            Some(InnerTypeV::TexVertexBuffer(vertices)) => {
                let o2 = spec_eval(l[2], o1.env, o1.sink);
                match o2.r {
                    Some(InnerTypeV::IndexBuffer(indices)) => {
                        let o3 = spec_eval(l[3], o2.env, o2.sink);
                        match o3.r {
                            Some(InnerTypeV::Topology(topology)) => {
                                let o4 = spec_eval(l[4], o3.env, o3.sink);
                                match o4.r {
                                    Some(InnerTypeV::Transform(transforms)) => {
                                        let o5 = spec_eval(l[5], o4.env, o4.sink);
                                        match o5.r {
                                            Some(InnerTypeV::Camera(camera)) => {
                                                if l.len() == 7 {
                                                    let o6 = spec_eval(l[6], o5.env, o5.sink);
                                                    match o6.r {
                                                        Some(InnerTypeV::Texture(tex)) => EvalOut {
                                                            r: Some(
                                                                InnerTypeV::Model(
                                                                    ModelV {
                                                                        vertices,
                                                                        indices,
                                                                        topology,
                                                                        transforms,
                                                                        camera,
                                                                        texture: Some(tex),
                                                                    },
                                                                ),
                                                            ),
                                                            env: o6.env,
                                                            sink: o6.sink,
                                                        },
                                                        _ => EvalOut {
                                                            r: None,
                                                            env: o6.env,
                                                            sink: o6.sink,
                                                        },
                                                    }
                                                } else {
                                                    EvalOut {
                                                        r: Some(
                                                            InnerTypeV::Model(
                                                                ModelV {
                                                                    vertices,
                                                                    indices,
                                                                    topology,
                                                                    transforms,
                                                                    camera,
                                                                    texture: None,
                                                                },
                                                            ),
                                                        ),
                                                        env: o5.env,
                                                        sink: o5.sink,
                                                    }
                                                }
                                            },
                                            _ => EvalOut { r: None, env: o5.env, sink: o5.sink },
                                        }
                                    },
                                    _ => EvalOut { r: None, env: o4.env, sink: o4.sink },
                                }
                            },
                            _ => EvalOut { r: None, env: o3.env, sink: o3.sink },
                        }
                    },
                    _ => EvalOut { r: None, env: o2.env, sink: o2.sink },
                }
            },
            _ => EvalOut { r: None, env: o1.env, sink: o1.sink },
        }
    } else {
        none_out(env, sink)
    }
}

/// The drawables of a `draw` form from `i` on: a Model goes to the model
/// sink, a VertexBuffer to the vertex-buffer sink, each in order; anything
/// else stops the form, keeping what was already submitted.
pub open spec fn spec_draw_items(
    l: Seq<SExprV>,
    i: int,
    env: Map<Seq<char>, InnerTypeV>,
    sink: SinkV,
) -> EvalOut
    decreases l, 0int, l.len() - i,
{
    if i < 0 || i >= l.len() {
        EvalOut { r: None, env, sink }
    } else {
        let o = spec_eval(l[i], env, sink);
        match o.r {
            Some(InnerTypeV::Model(m)) => spec_draw_items(
                l,
                i + 1,
                o.env,
                SinkV { models: o.sink.models.push(m), ..o.sink },
            ),
            Some(InnerTypeV::VertexBuffer(vb)) => spec_draw_items(
                l,
                i + 1,
                o.env,
                SinkV { vbs: o.sink.vbs.push(vb), ..o.sink },
            ),
            _ => EvalOut { r: None, env: o.env, sink: o.sink },
        }
    }
}

/// `(draw D1 D2 ...)`: evaluates each drawable and submits it to the
/// renderer sink; yields no value.
pub open spec fn spec_eval_draw(l: Seq<SExprV>, env: Map<Seq<char>, InnerTypeV>, sink: SinkV) -> EvalOut
    decreases l, 1int, 0int,
{
    if l.len() > 1 {
        spec_draw_items(l, 1, env, sink)
    } else {
        none_out(env, sink)
    }
}

/// `(texture PATH)`: loads the texture for the path atom from the sink's
/// pre-read files; a failed load is recorded as a texture failure and
/// yields no value.
pub open spec fn spec_eval_texture(l: Seq<SExprV>, env: Map<Seq<char>, InnerTypeV>, sink: SinkV) -> EvalOut
    decreases l, 1int, 0int,
{
    if l.len() == 2 && l[1] is Atom {
        let path = l[1]->Atom_0;
        match spec_load_texture(sink.files, path) {
            Some(t) => EvalOut { r: Some(InnerTypeV::Texture(t)), env, sink },
            None => EvalOut {
                r: None,
                env,
                sink: SinkV { failures: sink.failures.push(path), ..sink },
            },
        }
    } else {
        none_out(env, sink)
    }
}

/// One full evaluation pass: every top-level form in order, results
/// discarded; only the bindings and the sink carry across forms.
pub open spec fn spec_eval_all(
    es: Seq<SExprV>,
    i: int,
    env: Map<Seq<char>, InnerTypeV>,
    sink: SinkV,
) -> (Map<Seq<char>, InnerTypeV>, SinkV)
    decreases es.len() - i,
{
    if i < 0 || i >= es.len() {
        (env, sink)
    } else {
        let o = spec_eval(es[i], env, sink);
        spec_eval_all(es, i + 1, o.env, o.sink)
    }
}

} // verus!

verus! {

/// Character-wise string equality, against the views.
fn str_eq(a: &str, b: &str) -> (r: bool)
    ensures
        r == (a@ == b@),
{
    let na = a.unicode_len();
    let nb = b.unicode_len();
    if na != nb {
        return false;
    }
    let mut i: usize = 0;
    while i < na
        invariant
            na == a@.len(),
            nb == b@.len(),
            na == nb,
            i <= na,
            forall|t: int| 0 <= t < i ==> a@[t] == b@[t],
        decreases na - i,
    {
        if a.get_char(i) != b.get_char(i) {
            return false;
        }
        i = i + 1;
    }
    proof {
        assert(a@ =~= b@);
    }
    true
}

/// Resolves an atom's text to the keyword it names, if any.
fn keyword_of(s: &String) -> (r: Option<Keyword>)
    ensures
        r == spec_keyword(s@),
{
    let t = s.as_str();
    if str_eq(t, "def") {
        Some(Keyword::Def)
    } else if str_eq(t, "position") {
        Some(Keyword::Position)
    } else if str_eq(t, "vec3") {
        Some(Keyword::Vec3)
    } else if str_eq(t, "center") {
        Some(Keyword::Center)
    } else if str_eq(t, "up") {
        Some(Keyword::Up)
    } else if str_eq(t, "color") {
        Some(Keyword::Color)
    } else if str_eq(t, "vertex") {
        Some(Keyword::Vertex)
    } else if str_eq(t, "vertex-buffer") {
        Some(Keyword::VertexBuffer)
    } else if str_eq(t, "index-buffer") {
        Some(Keyword::IndexBuffer)
    } else if str_eq(t, "fovy") {
        Some(Keyword::Fovy)
    } else if str_eq(t, "z-near") {
        Some(Keyword::ZNear)
    } else if str_eq(t, "z-far") {
        Some(Keyword::ZFar)
    } else if str_eq(t, "perspective") {
        Some(Keyword::Perspective)
    } else if str_eq(t, "camera") {
        Some(Keyword::Camera)
    } else if str_eq(t, "transform") {
        Some(Keyword::Transform)
    } else if str_eq(t, "translate") {
        Some(Keyword::Translate)
    } else if str_eq(t, "scale") {
        Some(Keyword::Scale)
    } else if str_eq(t, "rotate") {
        Some(Keyword::Rotate)
    } else if str_eq(t, "topology") {
        Some(Keyword::Topology)
    } else if str_eq(t, "model") {
        Some(Keyword::Model)
    } else if str_eq(t, "draw") {
        Some(Keyword::Draw)
    } else if str_eq(t, "texture") {
        Some(Keyword::Texture)
    } else {
        None
    }
}

/// Resolves an atom's text to the topology tag it names, if any.
fn topology_of(s: &String) -> (r: Option<Topology>)
    ensures
        r == spec_topology_kw(s@),
{
    let t = s.as_str();
    if str_eq(t, "default") {
        Some(Topology::TriangleList)
    } else if str_eq(t, "triangle-list") {
        Some(Topology::TriangleList)
    } else if str_eq(t, "triangle-strip") {
        Some(Topology::TriangleStrip)
    } else if str_eq(t, "line-list") {
        Some(Topology::LineList)
    } else if str_eq(t, "line-strip") {
        Some(Topology::LineStrip)
    } else if str_eq(t, "point-list") {
        Some(Topology::PointList)
    } else {
        None
    }
}

/// An element of a `Vec` is below the `Vec` in the termination order.
proof fn lemma_vec_elem(l: Vec<TvkObject>, k: int)
    requires
        0 <= k < l@.len(),
    ensures
        decreases_to!(l => l@[k]),
{
    assert(decreases_to!(l => l@));
    assert(decreases_to!(l@ => l@[k]));
}

/// The element vector of a `List` is below the list expression.
proof fn lemma_list_field(e: TvkObject, items: Vec<TvkObject>)
    requires
        e == TvkObject::List(items),
    ensures
        decreases_to!(e => items),
{
    assert(decreases_to!(e => e->List_0));
}

/// The evaluator: the bindings of the current evaluation pass.
pub struct Interpreter {
    pub bindings: Environment,
}

impl Interpreter {
    /// A fresh evaluator with no bindings.
    pub fn new() -> (r: Interpreter)
        ensures
            r.bindings.view() == Map::<Seq<char>, InnerTypeV>::empty(),
    {
        Interpreter { bindings: Environment::new() }
    }

    /// Evaluates one expression against the bindings and the renderer
    /// sink, exactly as `spec_eval` describes.
    pub fn eval(&mut self, expr: &TvkObject, pipeline: &mut RendererSink) -> (r: Option<InnerType>)
        ensures
            ({
                let o = spec_eval(expr.view(), old(self).bindings.view(), old(pipeline).view());
                view_opt(r) == o.r && final(self).bindings.view() == o.env && final(pipeline).view() == o.sink
            }),
        decreases *expr, 2int, 0int,
    {
        match expr {
            TvkObject::FloatLiteral(f) => Some(InnerType::Float(f.clone())),
            TvkObject::UIntLiteral(n) => Some(InnerType::UInt(*n)),
            TvkObject::Atom(_) => self.eval_identifier(expr),
            TvkObject::Color(_) => None,
            TvkObject::List(l) => {
                if l.len() < 1 {
                    return None;
                }
                match &l[0] {
                    TvkObject::Atom(s) => {
                        proof {
                            assert(decreases_to!(*expr => expr->List_0));
                            assert(expr->List_0 == *l);
                        }
                        match keyword_of(s) {
                            Some(Keyword::Def) => self.eval_def(l, pipeline),
                            Some(Keyword::Position) => self.eval_pos(l, pipeline),
                            Some(Keyword::Center) => self.eval_pos(l, pipeline),
                            Some(Keyword::Up) => self.eval_pos(l, pipeline),
                            Some(Keyword::Vec3) => self.eval_vec3(l, pipeline),
                            Some(Keyword::Color) => self.eval_color(l, pipeline),
                            Some(Keyword::Vertex) => self.eval_vertex(l, pipeline),
                            Some(Keyword::VertexBuffer) => self.eval_vb(l, pipeline),
                            Some(Keyword::IndexBuffer) => self.eval_ib(l, pipeline),
                            Some(Keyword::Fovy) => self.eval_forward(l, pipeline),
                            Some(Keyword::ZNear) => self.eval_forward(l, pipeline),
                            Some(Keyword::ZFar) => self.eval_forward(l, pipeline),
                            Some(Keyword::Perspective) => self.eval_perspective(l, pipeline),
                            Some(Keyword::Camera) => self.eval_camera(l, pipeline),
                            Some(Keyword::Transform) => self.eval_transform(l, pipeline),
                            Some(Keyword::Translate) => self.eval_vec3_forward(l, pipeline),
                            Some(Keyword::Scale) => self.eval_vec3_forward(l, pipeline),
                            Some(Keyword::Rotate) => self.eval_rotate(l, pipeline),
                            Some(Keyword::Topology) => self.eval_topology(l, pipeline),
                            Some(Keyword::Model) => self.eval_model(l, pipeline),
                            Some(Keyword::Draw) => self.eval_draw(l, pipeline),
                            Some(Keyword::Texture) => self.eval_texture(l, pipeline),
                            None => None,
                        }
                    },
                    _ => None,
                }
            },
        }
    }

    /// The float scalar a value yields where a Float is expected, an
    /// unsigned integer coerced to its decimal text.
    fn float_scalar(r: Option<InnerType>) -> (out: Option<FloatLit>)
        ensures
            match out {
                Some(f) => as_float_scalar(view_opt(r)) == Some(f.text@),
                None => as_float_scalar(view_opt(r)) is None,
            },
    {
        match r {
            Some(InnerType::Float(f)) => Some(f),
            Some(InnerType::UInt(n)) => Some(FloatLit { text: crate::lex::u32_text(n) }),
            _ => None,
        }
    }

    /// Reads the binding of a bare identifier; any other expression shape
    /// yields no value.
    fn eval_identifier(&self, expr: &TvkObject) -> (r: Option<InnerType>)
        ensures
            match expr.view() {
                SExprV::Atom(name) => match r {
                    Some(v) => self.bindings.view().contains_key(name) && v.view()
                        == self.bindings.view()[name],
                    None => !self.bindings.view().contains_key(name),
                },
                _ => r is None,
            },
    {
        if let TvkObject::Atom(identifier) = expr {
            self.bindings.lookup(identifier)
        } else {
            None
        }
    }

    fn eval_def(&mut self, l: &Vec<TvkObject>, pipeline: &mut RendererSink) -> (r: Option<
        InnerType,
    >)
        ensures
            ({
                let o = spec_eval_def(view_exprs(l@, 0), old(self).bindings.view(), old(pipeline).view());
                view_opt(r) == o.r && final(self).bindings.view() == o.env && final(pipeline).view() == o.sink
            }),
        decreases *l, 1int, 0int,
    {
        if l.len() >= 3 {
            let name_opt: Option<String> = match &l[1] {
                TvkObject::Atom(s) => Some(s.clone()),
                _ => None,
            };
            match name_opt {
                Some(name) => {
                    proof {
                        lemma_vec_elem(*l, 2);
                    }
                    let v = self.eval(&l[2], pipeline);
                    match v {
                        Some(val) => {
                            self.bindings.define(name, val);
                            None
                        },
                        None => None,
                    }
                },
                None => None,
            }
        } else {
            None
        }
    }

    /// The scalar of one tagged sub-form such as `(x 1.5)`.
    fn tagged_component(items: &Vec<TvkObject>) -> (r: Option<FloatLit>)
        ensures
            match r {
                Some(f) => spec_tagged_component(view_exprs(items@, 0)) == Some(f.text@),
                None => spec_tagged_component(view_exprs(items@, 0)) is None,
            },
    {
        if items.len() >= 2 {
            match &items[1] {
                TvkObject::FloatLiteral(f) => Some(f.clone()),
                TvkObject::UIntLiteral(n) => Some(FloatLit { text: crate::lex::u32_text(*n) }),
                _ => None,
            }
        } else {
            None
        }
    }

    fn eval_pos(&mut self, expr: &Vec<TvkObject>, pipeline: &mut RendererSink) -> (r: Option<
        InnerType,
    >)
        ensures
            ({
                let o = spec_eval_pos(view_exprs(expr@, 0), old(self).bindings.view(), old(pipeline).view());
                view_opt(r) == o.r && final(self).bindings.view() == o.env && final(pipeline).view() == o.sink
            }),
        decreases *expr, 1int, 0int,
    {
        if expr.len() >= 4 {
            match (&expr[1], &expr[2], &expr[3]) {
                (TvkObject::List(a), TvkObject::List(b), TvkObject::List(c)) => {
                    let c1 = Self::tagged_component(a);
                    let c2 = Self::tagged_component(b);
                    let c3 = Self::tagged_component(c);
                    match (c1, c2, c3) {
                        (Some(x), Some(y), Some(z)) => Some(
                            InnerType::Position(Vec3Lit { x, y, z }),
                        ),
                        _ => None,
                    }
                },
                _ => {
                    proof {
                        lemma_vec_elem(*expr, 1);
                    }
                    self.eval(&expr[1], pipeline)
                },
            }
        } else if expr.len() >= 2 {
            proof {
                lemma_vec_elem(*expr, 1);
            }
            self.eval(&expr[1], pipeline)
        } else {
            None
        }
    }

    /// One component of a `vec3` form.
    fn vec3_item(
        &mut self,
        items: &Vec<TvkObject>,
        idx: usize,
        pipeline: &mut RendererSink,
    ) -> (r: Option<FloatLit>)
        ensures
            ({
                let o = spec_vec3_item(view_exprs(items@, 0), idx as int, old(self).bindings.view(), old(pipeline).view());
                (match r {
                    Some(f) => o.0 == Some(f.text@),
                    None => o.0 is None,
                }) && final(self).bindings.view() == o.1 && final(pipeline).view() == o.2
            }),
        decreases *items, 0int, 0int,
    {
        if idx < items.len() {
            proof {
                lemma_vec_elem(*items, idx as int);
            }
            match self.eval(&items[idx], pipeline) {
                Some(InnerType::Float(f)) => Some(f),
                Some(InnerType::UInt(n)) => Some(FloatLit { text: crate::lex::u32_text(n) }),
                Some(_) => None,
                None => None,
            }
        } else {
            Some(FloatLit::zero())
        }
    }

    fn eval_vec3(&mut self, expr: &Vec<TvkObject>, pipeline: &mut RendererSink) -> (r: Option<
        InnerType,
    >)
        ensures
            ({
                let o = spec_eval_vec3(view_exprs(expr@, 0), old(self).bindings.view(), old(pipeline).view());
                view_opt(r) == o.r && final(self).bindings.view() == o.env && final(pipeline).view() == o.sink
            }),
        decreases *expr, 1int, 0int,
    {
        if expr.len() >= 2 {
            match &expr[1] {
                TvkObject::List(items) => {
                    proof {
                        lemma_vec_elem(*expr, 1);
                        lemma_list_field(expr@[1], *items);
                    }
                    match self.vec3_item(items, 0, pipeline) {
                        None => None,
                        Some(x) => match self.vec3_item(items, 1, pipeline) {
                            None => None,
                            Some(y) => match self.vec3_item(items, 2, pipeline) {
                                None => None,
                                Some(z) => Some(InnerType::Vec3(Vec3Lit { x, y, z })),
                            },
                        },
                    }
                },
                _ => {
                    proof {
                        lemma_vec_elem(*expr, 1);
                    }
                    self.eval(&expr[1], pipeline)
                },
            }
        } else {
            None
        }
    }

    fn eval_color(&mut self, l: &Vec<TvkObject>, pipeline: &mut RendererSink) -> (r: Option<
        InnerType,
    >)
        ensures
            ({
                let o = spec_eval_color(view_exprs(l@, 0), old(self).bindings.view(), old(pipeline).view());
                view_opt(r) == o.r && final(self).bindings.view() == o.env && final(pipeline).view() == o.sink
            }),
        decreases *l, 1int, 0int,
    {
        if l.len() >= 2 {
            match &l[1] {
                TvkObject::Color(c) => Some(InnerType::Color(*c)),
                TvkObject::Atom(id) => self.bindings.lookup(id),
                _ => None,
            }
        } else {
            None
        }
    }

    fn eval_vertex(&mut self, expr: &Vec<TvkObject>, pipeline: &mut RendererSink) -> (r: Option<
        InnerType,
    >)
        ensures
            ({
                let o = spec_eval_vertex(view_exprs(expr@, 0), old(self).bindings.view(), old(pipeline).view());
                view_opt(r) == o.r && final(self).bindings.view() == o.env && final(pipeline).view() == o.sink
            }),
        decreases *expr, 1int, 0int,
    {
        if expr.len() >= 3 {
            proof {
                lemma_vec_elem(*expr, 1);
                lemma_vec_elem(*expr, 2);
            }
            match self.eval(&expr[1], pipeline) {
                Some(InnerType::Position(position)) => match self.eval(&expr[2], pipeline) {
                    Some(InnerType::Color(color)) => Some(
                        InnerType::Vertex(Vertex { position, color }),
                    ),
                    Some(InnerType::Position(uv)) => Some(
                        InnerType::TextureVertex(
                            TextureVertex { position, uv: (uv.x, uv.y) },
                        ),
                    ),
                    _ => None,
                },
                _ => None,
            }
        } else {
            None
        }
    }

    fn eval_vb(&mut self, l: &Vec<TvkObject>, pipeline: &mut RendererSink) -> (r: Option<
        InnerType,
    >)
        ensures
            ({
                let o = spec_eval_vb(view_exprs(l@, 0), old(self).bindings.view(), old(pipeline).view());
                view_opt(r) == o.r && final(self).bindings.view() == o.env && final(pipeline).view() == o.sink
            }),
        decreases *l, 1int, 0int,
    {
        if l.len() >= 2 {
            match &l[1] {
                TvkObject::List(vertices) => {
                    proof {
                        lemma_vec_elem(*l, 1);
                        lemma_list_field(l@[1], *vertices);
                    }
                    let ghost items_v = view_exprs(vertices@, 0);
                    let ghost env0 = old(self).bindings.view();
                    let ghost sink0 = old(pipeline).view();
                    let mut vb: Vec<Vertex> = Vec::new();
                    let mut tvb: Vec<TextureVertex> = Vec::new();
                    let mut i: usize = 0;
                    proof {
                        assert(Seq::new(vb@.len(), |t: int| vb@[t].view())
                            =~= Seq::<VertexV>::empty());
                        assert(Seq::new(tvb@.len(), |t: int| tvb@[t].view())
                            =~= Seq::<TexVertexV>::empty());
                        let x = spec_vb_items(items_v, 0, env0, sink0);
                        match x.0 {
                            Some(t) => {
                                assert(Seq::<VertexV>::empty() + t.0 =~= t.0);
                                assert(Seq::<TexVertexV>::empty() + t.1 =~= t.1);
                            },
                            None => {},
                        }
                    }
                    while i < vertices.len()
                        invariant
                            i <= vertices@.len(),
                            items_v == view_exprs(vertices@, 0),
                            l@.len() >= 2,
                            l@[1] == TvkObject::List(*vertices),
                            env0 == old(self).bindings.view(),
                            sink0 == old(pipeline).view(),
                            vb_join(
                                Seq::new(vb@.len(), |t: int| vb@[t].view()),
                                Seq::new(tvb@.len(), |t: int| tvb@[t].view()),
                                spec_vb_items(
                                    items_v,
                                    i as int,
                                    self.bindings.view(),
                                    pipeline.view(),
                                ),
                            ) == spec_vb_items(items_v, 0, env0, sink0),
                        decreases vertices@.len() - i,
                    {
                        proof {
                            lemma_vec_elem(*l, 1);
                            lemma_list_field(l@[1], *vertices);
                            lemma_vec_elem(*vertices, i as int);
                        }
                        let ghost vb_pre = Seq::new(vb@.len(), |t: int| vb@[t].view());
                        let ghost tvb_pre = Seq::new(tvb@.len(), |t: int| tvb@[t].view());
                        match self.eval(&vertices[i], pipeline) {
                            Some(InnerType::Vertex(v)) => {
                                let ghost vv = v.view();
                                vb.push(v);
                                proof {
                                    assert(Seq::new(vb@.len(), |t: int| vb@[t].view()) =~= vb_pre
                                        + seq![vv]);
                                    let rest = spec_vb_items(
                                        items_v,
                                        i + 1,
                                        self.bindings.view(),
                                        pipeline.view(),
                                    );
                                    match rest.0 {
                                        Some(t) => {
                                            assert((vb_pre + seq![vv]) + t.0 =~= vb_pre + (seq![vv]
                                                + t.0));
                                        },
                                        None => {},
                                    }
                                }
                            },
                            Some(InnerType::TextureVertex(tv)) => {
                                let ghost tvv = tv.view();
                                tvb.push(tv);
                                proof {
                                    assert(Seq::new(tvb@.len(), |t: int| tvb@[t].view()) =~= tvb_pre
                                        + seq![tvv]);
                                    let rest = spec_vb_items(
                                        items_v,
                                        i + 1,
                                        self.bindings.view(),
                                        pipeline.view(),
                                    );
                                    match rest.0 {
                                        Some(t) => {
                                            assert((tvb_pre + seq![tvv]) + t.1 =~= tvb_pre + (seq![
                                                tvv,
                                            ] + t.1));
                                        },
                                        None => {},
                                    }
                                }
                            },
                            _ => {
                                return None;
                            },
                        }
                        i = i + 1;
                    }
                    proof {
                        assert(spec_vb_items(items_v, i as int, self.bindings.view(), pipeline.view()).0
                            == Some((Seq::<VertexV>::empty(), Seq::<TexVertexV>::empty())));
                        assert(Seq::new(vb@.len(), |t: int| vb@[t].view()) + Seq::<VertexV>::empty()
                            =~= Seq::new(vb@.len(), |t: int| vb@[t].view()));
                        assert(Seq::new(tvb@.len(), |t: int| tvb@[t].view())
                            + Seq::<TexVertexV>::empty() =~= Seq::new(
                            tvb@.len(),
                            |t: int| tvb@[t].view(),
                        ));
                    }
                    if vb.len() > 0 && tvb.len() == 0 {
                        Some(InnerType::VertexBuffer(vb))
                    } else if tvb.len() > 0 && vb.len() == 0 {
                        Some(InnerType::TexVertexBuffer(tvb))
                    } else {
                        None
                    }
                },
                _ => None,
            }
        } else {
            None
        }
    }

    fn eval_ib(&mut self, l: &Vec<TvkObject>, pipeline: &mut RendererSink) -> (r: Option<
        InnerType,
    >)
        ensures
            ({
                let o = spec_eval_ib(view_exprs(l@, 0), old(self).bindings.view(), old(pipeline).view());
                view_opt(r) == o.r && final(self).bindings.view() == o.env && final(pipeline).view() == o.sink
            }),
        decreases *l, 1int, 0int,
    {
        if l.len() >= 2 {
            match &l[1] {
                TvkObject::List(indices) => {
                    proof {
                        lemma_vec_elem(*l, 1);
                        lemma_list_field(l@[1], *indices);
                    }
                    let ghost items_v = view_exprs(indices@, 0);
                    let ghost env0 = old(self).bindings.view();
                    let ghost sink0 = old(pipeline).view();
                    let mut ib: Vec<u32> = Vec::new();
                    let mut i: usize = 0;
                    while i < indices.len()
                        invariant
                            i <= indices@.len(),
                            items_v == view_exprs(indices@, 0),
                            l@.len() >= 2,
                            l@[1] == TvkObject::List(*indices),
                            env0 == old(self).bindings.view(),
                            sink0 == old(pipeline).view(),
                            ib_join(
                                ib@,
                                spec_ib_items(
                                    items_v,
                                    i as int,
                                    self.bindings.view(),
                                    pipeline.view(),
                                ),
                            ) == spec_ib_items(items_v, 0, env0, sink0),
                        decreases indices@.len() - i,
                    {
                        proof {
                            lemma_vec_elem(*l, 1);
                            lemma_list_field(l@[1], *indices);
                            lemma_vec_elem(*indices, i as int);
                        }
                        let ghost ib_pre = ib@;
                        match self.eval(&indices[i], pipeline) {
                            Some(InnerType::UInt(n)) => {
                                ib.push(n);
                                proof {
                                    assert(ib@ =~= ib_pre + seq![n]);
                                    let rest = spec_ib_items(
                                        items_v,
                                        i + 1,
                                        self.bindings.view(),
                                        pipeline.view(),
                                    );
                                    match rest.0 {
                                        Some(t) => {
                                            assert((ib_pre + seq![n]) + t =~= ib_pre + (seq![n]
                                                + t));
                                        },
                                        None => {},
                                    }
                                }
                            },
                            _ => {
                                return None;
                            },
                        }
                        i = i + 1;
                    }
                    proof {
                        assert(ib@ + Seq::<u32>::empty() =~= ib@);
                    }
                    Some(InnerType::IndexBuffer(ib))
                },
                _ => None,
            }
        } else {
            None
        }
    }

    fn eval_forward(&mut self, l: &Vec<TvkObject>, pipeline: &mut RendererSink) -> (r: Option<
        InnerType,
    >)
        ensures
            ({
                let o = spec_eval_forward(view_exprs(l@, 0), old(self).bindings.view(), old(pipeline).view());
                view_opt(r) == o.r && final(self).bindings.view() == o.env && final(pipeline).view() == o.sink
            }),
        decreases *l, 1int, 0int,
    {
        if l.len() >= 2 {
            proof {
                lemma_vec_elem(*l, 1);
            }
            self.eval(&l[1], pipeline)
        } else {
            None
        }
    }

    fn eval_perspective(&mut self, l: &Vec<TvkObject>, pipeline: &mut RendererSink) -> (r: Option<
        InnerType,
    >)
        ensures
            ({
                let o = spec_eval_perspective(view_exprs(l@, 0), old(self).bindings.view(), old(pipeline).view());
                view_opt(r) == o.r && final(self).bindings.view() == o.env && final(pipeline).view() == o.sink
            }),
        decreases *l, 1int, 0int,
    {
        if l.len() == 4 {
            proof {
                lemma_vec_elem(*l, 1);
                lemma_vec_elem(*l, 2);
                lemma_vec_elem(*l, 3);
            }
            let r1 = self.eval(&l[1], pipeline);
            match Self::float_scalar(r1) {
                Some(fovy) => {
                    let r2 = self.eval(&l[2], pipeline);
                    match Self::float_scalar(r2) {
                        Some(z_near) => {
                            let r3 = self.eval(&l[3], pipeline);
                            match Self::float_scalar(r3) {
                                Some(z_far) => Some(
                                    InnerType::Perspective(PerspLit { fovy, z_near, z_far }),
                                ),
                                None => None,
                            }
                        },
                        None => None,
                    }
                },
                None => None,
            }
        } else if l.len() == 2 {
            proof {
                lemma_vec_elem(*l, 1);
            }
            self.eval(&l[1], pipeline)
        } else {
            None
        }
    }

    fn eval_camera(&mut self, l: &Vec<TvkObject>, pipeline: &mut RendererSink) -> (r: Option<
        InnerType,
    >)
        ensures
            ({
                let o = spec_eval_camera(view_exprs(l@, 0), old(self).bindings.view(), old(pipeline).view());
                view_opt(r) == o.r && final(self).bindings.view() == o.env && final(pipeline).view() == o.sink
            }),
        decreases *l, 1int, 0int,
    {
        if l.len() == 5 {
            proof {
                lemma_vec_elem(*l, 1);
                lemma_vec_elem(*l, 2);
                lemma_vec_elem(*l, 3);
                lemma_vec_elem(*l, 4);
            }
            match self.eval(&l[1], pipeline) {
                Some(InnerType::Position(position)) => match self.eval(&l[2], pipeline) {
                    Some(InnerType::Position(center)) => match self.eval(&l[3], pipeline) {
                        Some(InnerType::Position(up)) => match self.eval(&l[4], pipeline) {
                            Some(InnerType::Perspective(perspective)) => Some(
                                InnerType::Camera(
                                    Camera { position, center, up, perspective },
                                ),
                            ),
                            _ => None,
                        },
                        _ => None,
                    },
                    _ => None,
                },
                _ => None,
            }
        } else if l.len() == 2 {
            proof {
                lemma_vec_elem(*l, 1);
            }
            match self.eval(&l[1], pipeline) {
                Some(InnerType::Camera(c)) => Some(InnerType::Camera(c)),
                _ => None,
            }
        } else {
            None
        }
    }

    fn eval_transform(&mut self, l: &Vec<TvkObject>, pipeline: &mut RendererSink) -> (r: Option<
        InnerType,
    >)
        ensures
            ({
                let o = spec_eval_transform(view_exprs(l@, 0), old(self).bindings.view(), old(pipeline).view());
                view_opt(r) == o.r && final(self).bindings.view() == o.env && final(pipeline).view() == o.sink
            }),
        decreases *l, 1int, 0int,
    {
        if l.len() == 4 {
            proof {
                lemma_vec_elem(*l, 1);
                lemma_vec_elem(*l, 2);
                lemma_vec_elem(*l, 3);
            }
            match self.eval(&l[1], pipeline) {
                Some(InnerType::Vec3(translate)) => match self.eval(&l[2], pipeline) {
                    Some(InnerType::Vec3(scale)) => match self.eval(&l[3], pipeline) {
                        Some(InnerType::Rotate(rotate)) => Some(
                            InnerType::Transform(Transform { translate, scale, rotate }),
                        ),
                        _ => None,
                    },
                    _ => None,
                },
                _ => None,
            }
        } else if l.len() == 2 {
            match &l[1] {
                TvkObject::Atom(id) => {
                    if str_eq(id.as_str(), "default") {
                        Some(InnerType::Transform(Transform::default()))
                    } else {
                        match self.bindings.lookup(id) {
                            Some(InnerType::Transform(t)) => Some(InnerType::Transform(t)),
                            _ => None,
                        }
                    }
                },
                _ => None,
            }
        } else {
            None
        }
    }

    fn eval_vec3_forward(&mut self, l: &Vec<TvkObject>, pipeline: &mut RendererSink) -> (r: Option<
        InnerType,
    >)
        ensures
            ({
                let o = spec_eval_vec3_forward(view_exprs(l@, 0), old(self).bindings.view(), old(pipeline).view());
                view_opt(r) == o.r && final(self).bindings.view() == o.env && final(pipeline).view() == o.sink
            }),
        decreases *l, 1int, 0int,
    {
        if l.len() == 2 {
            proof {
                lemma_vec_elem(*l, 1);
            }
            match self.eval(&l[1], pipeline) {
                Some(InnerType::Vec3(vector)) => Some(InnerType::Vec3(vector)),
                _ => None,
            }
        } else {
            None
        }
    }

    fn eval_rotate(&mut self, l: &Vec<TvkObject>, pipeline: &mut RendererSink) -> (r: Option<
        InnerType,
    >)
        ensures
            ({
                let o = spec_eval_rotate(view_exprs(l@, 0), old(self).bindings.view(), old(pipeline).view());
                view_opt(r) == o.r && final(self).bindings.view() == o.env && final(pipeline).view() == o.sink
            }),
        decreases *l, 1int, 0int,
    {
        if l.len() == 3 {
            proof {
                lemma_vec_elem(*l, 1);
                lemma_vec_elem(*l, 2);
            }
            let r1 = self.eval(&l[1], pipeline);
            match Self::float_scalar(r1) {
                Some(angle) => match self.eval(&l[2], pipeline) {
                    Some(InnerType::Vec3(axis)) => Some(
                        InnerType::Rotate(Rotation { angle, axis }),
                    ),
                    _ => None,
                },
                None => None,
            }
        } else {
            None
        }
    }

    fn eval_topology(&mut self, l: &Vec<TvkObject>, pipeline: &mut RendererSink) -> (r: Option<
        InnerType,
    >)
        ensures
            ({
                let o = spec_eval_topology(view_exprs(l@, 0), old(self).bindings.view(), old(pipeline).view());
                view_opt(r) == o.r && final(self).bindings.view() == o.env && final(pipeline).view() == o.sink
            }),
        decreases *l, 1int, 0int,
    {
        if l.len() == 2 {
            match &l[1] {
                TvkObject::Atom(s) => match topology_of(s) {
                    Some(t) => Some(InnerType::Topology(t)),
                    None => None,
                },
                _ => None,
            }
        } else {
            None
        }
    }

    #[verifier::rlimit(100)]
    fn eval_model(&mut self, l: &Vec<TvkObject>, pipeline: &mut RendererSink) -> (r: Option<
        InnerType,
    >)
        ensures
            ({
                let o = spec_eval_model(view_exprs(l@, 0), old(self).bindings.view(), old(pipeline).view());
                view_opt(r) == o.r && final(self).bindings.view() == o.env && final(pipeline).view() == o.sink
            }),
        decreases *l, 1int, 0int,
    {
        proof {
            assert(view_exprs(l@, 0).len() == l@.len());
        }
        if l.len() == 6 || l.len() == 7 {
            proof {
                lemma_vec_elem(*l, 1);
                lemma_vec_elem(*l, 2);
                lemma_vec_elem(*l, 3);
                lemma_vec_elem(*l, 4);
                lemma_vec_elem(*l, 5);
            }
            match self.eval(&l[1], pipeline) {
                Some(InnerType::TexVertexBuffer(vertices)) => match self.eval(&l[2], pipeline) {
                    Some(InnerType::IndexBuffer(indices)) => match self.eval(&l[3], pipeline) {
                        Some(InnerType::Topology(topology)) => match self.eval(&l[4], pipeline) {
                            Some(InnerType::Transform(transforms)) => match self.eval(
                                &l[5],
                                pipeline,
                            ) {
                                Some(InnerType::Camera(camera)) => {
                                    if l.len() == 7 {
                                        proof {
                                            lemma_vec_elem(*l, 6);
                                        }
                                        match self.eval(&l[6], pipeline) {
                                            Some(InnerType::Texture(tex)) => Some(
                                                InnerType::Model(
                                                    Model {
                                                        vertices,
                                                        indices,
                                                        topology,
                                                        transforms,
                                                        camera,
                                                        texture: Some(tex),
                                                    },
                                                ),
                                            ),
                                            _ => None,
                                        }
                                    } else {
                                        Some(
                                            InnerType::Model(
                                                Model {
                                                    vertices,
                                                    indices,
                                                    topology,
                                                    transforms,
                                                    camera,
                                                    texture: None,
                                                },
                                            ),
                                        )
                                    }
                                },
                                _ => None,
                            },
                            _ => None,
                        },
                        _ => None,
                    },
                    _ => None,
                },
                _ => None,
            }
        } else {
            None
        }
    }

    fn eval_draw(&mut self, l: &Vec<TvkObject>, pipeline: &mut RendererSink) -> (r: Option<
        InnerType,
    >)
        ensures
            ({
                let o = spec_eval_draw(view_exprs(l@, 0), old(self).bindings.view(), old(pipeline).view());
                view_opt(r) == o.r && final(self).bindings.view() == o.env && final(pipeline).view() == o.sink
            }),
        decreases *l, 1int, 0int,
    {
        if l.len() > 1 {
            let ghost l_v = view_exprs(l@, 0);
            let ghost env0 = old(self).bindings.view();
            let ghost sink0 = old(pipeline).view();
            let mut i: usize = 1;
            while i < l.len()
                invariant
                    1 <= i <= l@.len(),
                    l@.len() > 1,
                    l_v == view_exprs(l@, 0),
                    env0 == old(self).bindings.view(),
                    sink0 == old(pipeline).view(),
                    spec_draw_items(l_v, i as int, self.bindings.view(), pipeline.view())
                        == spec_draw_items(l_v, 1, env0, sink0),
                decreases l@.len() - i,
            {
                proof {
                    lemma_vec_elem(*l, i as int);
                }
                match self.eval(&l[i], pipeline) {
                    Some(InnerType::Model(m)) => {
                        pipeline.receive_model(m);
                    },
                    Some(InnerType::VertexBuffer(vb)) => {
                        pipeline.receive_vertex_buffer(vb);
                    },
                    _ => {
                        return None;
                    },
                }
                i = i + 1;
            }
            None
        } else {
            None
        }
    }

    fn eval_texture(&mut self, l: &Vec<TvkObject>, pipeline: &mut RendererSink) -> (r: Option<
        InnerType,
    >)
        ensures
            ({
                let o = spec_eval_texture(view_exprs(l@, 0), old(self).bindings.view(), old(pipeline).view());
                view_opt(r) == o.r && final(self).bindings.view() == o.env && final(pipeline).view() == o.sink
            }),
        decreases *l, 1int, 0int,
    {
        if l.len() == 2 {
            match &l[1] {
                TvkObject::Atom(path) => match pipeline.load_texture_image(path) {
                    Some(t) => Some(InnerType::Texture(t)),
                    None => None,
                },
                _ => None,
            }
        } else {
            None
        }
    }

    /// Runs one full evaluation pass: every top-level form in order,
    /// results discarded; the bindings and the sink carry across forms.
    pub fn interpret(&mut self, exprs: &Vec<TvkObject>, pipeline: &mut RendererSink)
        ensures
            ({
                let o = spec_eval_all(view_exprs(exprs@, 0), 0, old(self).bindings.view(), old(pipeline).view());
                final(self).bindings.view() == o.0 && final(pipeline).view() == o.1
            }),
    {
        let ghost es = view_exprs(exprs@, 0);
        let ghost env0 = old(self).bindings.view();
        let ghost sink0 = old(pipeline).view();
        let mut i: usize = 0;
        while i < exprs.len()
            invariant
                i <= exprs@.len(),
                es == view_exprs(exprs@, 0),
                env0 == old(self).bindings.view(),
                sink0 == old(pipeline).view(),
                spec_eval_all(es, i as int, self.bindings.view(), pipeline.view())
                    == spec_eval_all(es, 0, env0, sink0),
            decreases exprs@.len() - i,
        {
            let _ = self.eval(&exprs[i], pipeline);
            i = i + 1;
        }
    }
}

/// Joins the vertices already collected with the outcome on the remaining
/// children of a `vertex-buffer` form.
pub open spec fn vb_join(
    vb: Seq<VertexV>,
    tvb: Seq<TexVertexV>,
    o: (Option<(Seq<VertexV>, Seq<TexVertexV>)>, Map<Seq<char>, InnerTypeV>, SinkV),
) -> (Option<(Seq<VertexV>, Seq<TexVertexV>)>, Map<Seq<char>, InnerTypeV>, SinkV) {
    match o.0 {
        Some(t) => (Some((vb + t.0, tvb + t.1)), o.1, o.2),
        None => o,
    }
}

/// Joins the indices already collected with the outcome on the remaining
/// children of an `index-buffer` form.
pub open spec fn ib_join(
    ib: Seq<u32>,
    o: (Option<Seq<u32>>, Map<Seq<char>, InnerTypeV>, SinkV),
) -> (Option<Seq<u32>>, Map<Seq<char>, InnerTypeV>, SinkV) {
    match o.0 {
        Some(t) => (Some(ib + t), o.1, o.2),
        None => o,
    }
}

} // verus!

verus! {

/// The element-wise view of a sequence of strings.
pub open spec fn view_strings(s: Seq<String>) -> Seq<Seq<char>> {
    Seq::new(s.len(), |i: int| s[i]@)
}

/// The texture paths a form names: the path atom of every `(texture PATH)`
/// form anywhere in the tree, in source order.
pub open spec fn spec_texture_paths(e: SExprV) -> Seq<Seq<char>>
    decreases e, 1int, 0int,
{
    match e {
        SExprV::List(l) => {
            let own: Seq<Seq<char>> = if l.len() == 2 && (l[0] matches SExprV::Atom(h)
                && h == "texture"@) && l[1] is Atom {
                seq![l[1]->Atom_0]
            } else {
                Seq::empty()
            };
            own + spec_texture_paths_seq(l, 0)
        },
        _ => Seq::empty(),
    }
}

/// The texture paths named by the forms of `l` from `i` on.
pub open spec fn spec_texture_paths_seq(l: Seq<SExprV>, i: int) -> Seq<Seq<char>>
    decreases l, 0int, l.len() - i,
{
    if i < 0 || i >= l.len() {
        Seq::empty()
    } else {
        spec_texture_paths(l[i]) + spec_texture_paths_seq(l, i + 1)
    }
}

/// Collects the texture paths of every top-level form, in source order,
/// so the embedding application can read those files and hand their bytes
/// to the renderer sink before the evaluation pass.
pub fn texture_paths(exprs: &Vec<TvkObject>) -> (r: Vec<String>)
    ensures
        view_strings(r@) == spec_texture_paths_seq(view_exprs(exprs@, 0), 0),
{
    let ghost es = view_exprs(exprs@, 0);
    let mut out: Vec<String> = Vec::new();
    proof {
        assert(view_strings(out@) =~= Seq::<Seq<char>>::empty());
    }
    let mut i: usize = 0;
    while i < exprs.len()
        invariant
            i <= exprs@.len(),
            es == view_exprs(exprs@, 0),
            view_strings(out@) + spec_texture_paths_seq(es, i as int) == spec_texture_paths_seq(
                es,
                0,
            ),
        decreases exprs@.len() - i,
    {
        let ghost pre = view_strings(out@);
        collect_texture_paths(&exprs[i], &mut out);
        proof {
            assert((pre + spec_texture_paths(es[i as int])) + spec_texture_paths_seq(
                es,
                i + 1,
            ) =~= pre + (spec_texture_paths(es[i as int]) + spec_texture_paths_seq(es, i + 1)));
        }
        i = i + 1;
    }
    proof {
        assert(view_strings(out@) + Seq::<Seq<char>>::empty() =~= view_strings(out@));
    }
    out
}

/// Appends the texture paths of one form, in source order.
fn collect_texture_paths(e: &TvkObject, out: &mut Vec<String>)
    ensures
        view_strings(final(out)@) == view_strings(old(out)@) + spec_texture_paths(e.view()),
    decreases *e, 1int, 0int,
{
    match e {
        TvkObject::List(l) => {
            if l.len() == 2 {
                let is_texture: bool = match &l[0] {
                    TvkObject::Atom(h) => str_eq(h.as_str(), "texture"),
                    _ => false,
                };
                if is_texture {
                    match &l[1] {
                        TvkObject::Atom(p) => {
                            let ghost pre = view_strings(out@);
                            out.push(p.clone());
                            proof {
                                assert(view_strings(out@) =~= pre + seq![p@]);
                            }
                        },
                        _ => {},
                    }
                }
            }
            let ghost own_done = view_strings(out@);
            let ghost items_v = view_exprs(l@, 0);
            let mut i: usize = 0;
            while i < l.len()
                invariant
                    i <= l@.len(),
                    *e == TvkObject::List(*l),
                    items_v == view_exprs(l@, 0),
                    own_done == view_strings(old(out)@) + ({
                        if items_v.len() == 2 && (items_v[0] matches SExprV::Atom(h) && h
                            == "texture"@) && items_v[1] is Atom {
                            seq![items_v[1]->Atom_0]
                        } else {
                            Seq::<Seq<char>>::empty()
                        }
                    }),
                    view_strings(out@) + spec_texture_paths_seq(items_v, i as int) == own_done
                        + spec_texture_paths_seq(items_v, 0),
                decreases l@.len() - i,
            {
                proof {
                    assert(decreases_to!(*e => e->List_0));
                    assert(e->List_0 == *l);
                    assert(decreases_to!(*l => l@));
                    assert(decreases_to!(l@ => l@[i as int]));
                }
                let ghost pre = view_strings(out@);
                collect_texture_paths(&l[i], out);
                proof {
                    assert((pre + spec_texture_paths(items_v[i as int]))
                        + spec_texture_paths_seq(items_v, i + 1) =~= pre + (spec_texture_paths(
                        items_v[i as int],
                    ) + spec_texture_paths_seq(items_v, i + 1)));
                }
                i = i + 1;
            }
            proof {
                assert(view_strings(out@) + Seq::<Seq<char>>::empty() =~= view_strings(out@));
                assert(view_strings(old(out)@) + spec_texture_paths(e.view()) =~= (
                view_strings(old(out)@) + ({
                    if items_v.len() == 2 && (items_v[0] matches SExprV::Atom(h) && h
                        == "texture"@) && items_v[1] is Atom {
                        seq![items_v[1]->Atom_0]
                    } else {
                        Seq::<Seq<char>>::empty()
                    }
                })) + spec_texture_paths_seq(items_v, 0));
            }
        },
        _ => {},
    }
}

} // verus!
