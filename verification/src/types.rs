//! The data model of the language: the symbolic-expression tree that the
//! parser produces, and the tagged union of domain values that the
//! evaluator produces, together with spec-level mirrors of both.
//!
//! Scalars are literal text: a `FloatLit` holds the exact characters of the
//! literal it came from (or the decimal rendering of a coerced unsigned
//! integer), and a `ColorLit` holds one raw byte per channel. The embedding
//! application converts both to machine floats at the rendering edge.

use vstd::prelude::*;

verus! {

broadcast use vstd::std_specs::vec::group_vec_axioms, vstd::seq::group_seq_axioms;

/// How the embedding editor drives evaluation passes: re-interpret on every
/// edit, or only on demand.
#[derive(Clone, Copy, Debug, PartialEq, Eq, Structural)]
pub enum InterpretingMode {
    Continuous,
    Manual,
}

/// The closed set of primitive topologies a vertex sequence can be
/// assembled with. The `default` keyword of the language maps to
/// `TriangleList`.
#[derive(Clone, Copy, Debug, PartialEq, Eq, Structural)]
pub enum Topology {
    PointList,
    LineList,
    LineStrip,
    TriangleList,
    TriangleStrip,
}

/// A color literal: one byte per channel, exactly as written in an
/// `#RRGGBBAA` literal. The rendering edge normalizes each channel to
/// `byte / 255.0`.
#[derive(Clone, Copy, Debug, PartialEq, Eq, Structural)]
pub struct ColorLit {
    pub r: u8,
    pub g: u8,
    pub b: u8,
    pub a: u8,
}

/// A floating-point literal, kept as the exact text that was parsed (for
/// example `-1.5e3`), or the decimal rendering of an unsigned integer that
/// was coerced to a float.
#[derive(Debug, PartialEq, Eq)]
pub struct FloatLit {
    pub text: String,
}

impl FloatLit {
    /// The zero scalar, used where the language fills in a missing
    /// component and in the identity transform.
    pub fn zero() -> (r: FloatLit)
        ensures
            r.text@ == "0"@,
    {
        FloatLit { text: String::from_str("0") }
    }

    /// The unit scalar, used in the identity transform's scale.
    pub fn one() -> (r: FloatLit)
        ensures
            r.text@ == "1"@,
    {
        FloatLit { text: String::from_str("1") }
    }
}

impl Clone for FloatLit {
    fn clone(&self) -> (r: Self)
        ensures
            r == *self,
    {
        FloatLit { text: self.text.clone() }
    }
}

/// A symbolic-expression tree: the parser's sole output type.
#[derive(Debug)]
pub enum TvkObject {
    FloatLiteral(FloatLit),
    Atom(String),
    UIntLiteral(u32),
    Color(ColorLit),
    List(Vec<TvkObject>),
}

/// Spec-level mirror of `TvkObject`.
pub enum SExprV {
    Float(Seq<char>),
    Atom(Seq<char>),
    UInt(u32),
    Color(ColorLit),
    List(Seq<SExprV>),
}

impl TvkObject {
    pub open spec fn view(self) -> SExprV
        decreases self, 1int,
    {
        match self {
            TvkObject::FloatLiteral(f) => SExprV::Float(f.text@),
            TvkObject::Atom(s) => SExprV::Atom(s@),
            TvkObject::UIntLiteral(n) => SExprV::UInt(n),
            TvkObject::Color(c) => SExprV::Color(c),
            TvkObject::List(l) => SExprV::List(view_exprs(l@, 0)),
        }
    }
}

/// The element-wise view of a sequence of expressions, from index `i` on.
pub open spec fn view_exprs(l: Seq<TvkObject>, i: int) -> Seq<SExprV>
    decreases l, l.len() - i, 0int,
{
    if i < 0 || i >= l.len() {
        Seq::empty()
    } else {
        seq![l[i].view()] + view_exprs(l, i + 1)
    }
}

/// `view_exprs(l, 0)` is exactly the element-wise view of `l`.
pub broadcast proof fn lemma_view_exprs(l: Seq<TvkObject>)
    ensures
        (#[trigger] view_exprs(l, 0)).len() == l.len(),
        forall|k: int| 0 <= k < l.len() ==> view_exprs(l, 0)[k] == l[k].view(),
{
    lemma_view_exprs_from(l, 0);
}

proof fn lemma_view_exprs_from(l: Seq<TvkObject>, i: int)
    requires
        0 <= i <= l.len(),
    ensures
        view_exprs(l, i).len() == l.len() - i,
        forall|k: int| i <= k < l.len() ==> view_exprs(l, i)[k - i] == l[k].view(),
    decreases l.len() - i,
{
    if i < l.len() {
        lemma_view_exprs_from(l, i + 1);
    }
}

impl Clone for TvkObject {
    fn clone(&self) -> (r: Self)
        ensures
            r.view() == self.view(),
        decreases *self,
    {
        match self {
            TvkObject::FloatLiteral(f) => TvkObject::FloatLiteral(f.clone()),
            TvkObject::Atom(s) => TvkObject::Atom(s.clone()),
            TvkObject::UIntLiteral(n) => TvkObject::UIntLiteral(*n),
            TvkObject::Color(c) => TvkObject::Color(*c),
            TvkObject::List(l) => {
                let mut out: Vec<TvkObject> = Vec::new();
                let mut i: usize = 0;
                while i < l.len()
                    invariant
                        *self == TvkObject::List(*l),
                        i <= l@.len(),
                        out@.len() == i,
                        forall|j: int| 0 <= j < i ==> out@[j].view() == l@[j].view(),
                    decreases l@.len() - i,
                {
                    proof {
                        assert(decreases_to!(*self => self->List_0));
                        assert(self->List_0 == *l);
                        assert(decreases_to!(*l => l@));
                        assert(decreases_to!(l@ => l@[i as int]));
                    }
                    let c = l[i].clone();
                    out.push(c);
                    i = i + 1;
                }
                proof {
                    lemma_view_exprs(out@);
                    lemma_view_exprs(l@);
                    assert(view_exprs(out@, 0) =~= view_exprs(l@, 0));
                }
                TvkObject::List(out)
            },
        }
    }
}

/// Three scalar components, as positions, directions and scales carry them.
#[derive(Debug, PartialEq, Eq)]
pub struct Vec3Lit {
    pub x: FloatLit,
    pub y: FloatLit,
    pub z: FloatLit,
}

/// Spec-level mirror of `Vec3Lit`.
pub struct Vec3V {
    pub x: Seq<char>,
    pub y: Seq<char>,
    pub z: Seq<char>,
}

impl Vec3Lit {
    pub open spec fn view(self) -> Vec3V {
        Vec3V { x: self.x.text@, y: self.y.text@, z: self.z.text@ }
    }
}

impl Clone for Vec3Lit {
    fn clone(&self) -> (r: Self)
        ensures
            r == *self,
    {
        Vec3Lit { x: self.x.clone(), y: self.y.clone(), z: self.z.clone() }
    }
}

/// An angle together with the axis to rotate about.
#[derive(Debug, PartialEq, Eq)]
pub struct Rotation {
    pub angle: FloatLit,
    pub axis: Vec3Lit,
}

/// Spec-level mirror of `Rotation`.
pub struct RotationV {
    pub angle: Seq<char>,
    pub axis: Vec3V,
}

impl Rotation {
    pub open spec fn view(self) -> RotationV {
        RotationV { angle: self.angle.text@, axis: self.axis.view() }
    }
}

impl Clone for Rotation {
    fn clone(&self) -> (r: Self)
        ensures
            r == *self,
    {
        Rotation { angle: self.angle.clone(), axis: self.axis.clone() }
    }
}

/// Field of view and depth range of a perspective projection.
#[derive(Debug, PartialEq, Eq)]
pub struct PerspLit {
    pub fovy: FloatLit,
    pub z_near: FloatLit,
    pub z_far: FloatLit,
}

/// Spec-level mirror of `PerspLit`.
pub struct PerspV {
    pub fovy: Seq<char>,
    pub z_near: Seq<char>,
    pub z_far: Seq<char>,
}

impl PerspLit {
    pub open spec fn view(self) -> PerspV {
        PerspV { fovy: self.fovy.text@, z_near: self.z_near.text@, z_far: self.z_far.text@ }
    }
}

impl Clone for PerspLit {
    fn clone(&self) -> (r: Self)
        ensures
            r == *self,
    {
        PerspLit {
            fovy: self.fovy.clone(),
            z_near: self.z_near.clone(),
            z_far: self.z_far.clone(),
        }
    }
}

/// A plain vertex: a position and a color.
#[derive(Debug, PartialEq, Eq)]
pub struct Vertex {
    pub position: Vec3Lit,
    pub color: ColorLit,
}

/// Spec-level mirror of `Vertex`.
pub struct VertexV {
    pub position: Vec3V,
    pub color: ColorLit,
}

impl Vertex {
    pub open spec fn view(self) -> VertexV {
        VertexV { position: self.position.view(), color: self.color }
    }
}

impl Clone for Vertex {
    fn clone(&self) -> (r: Self)
        ensures
            r == *self,
    {
        Vertex { position: self.position.clone(), color: self.color }
    }
}

/// A textured vertex: a position and texture coordinates.
#[derive(Debug, PartialEq, Eq)]
pub struct TextureVertex {
    pub position: Vec3Lit,
    pub uv: (FloatLit, FloatLit),
}

/// Spec-level mirror of `TextureVertex`.
pub struct TexVertexV {
    pub position: Vec3V,
    pub uv: (Seq<char>, Seq<char>),
}

impl TextureVertex {
    pub open spec fn view(self) -> TexVertexV {
        TexVertexV { position: self.position.view(), uv: (self.uv.0.text@, self.uv.1.text@) }
    }
}

impl Clone for TextureVertex {
    fn clone(&self) -> (r: Self)
        ensures
            r == *self,
    {
        TextureVertex {
            position: self.position.clone(),
            uv: (self.uv.0.clone(), self.uv.1.clone()),
        }
    }
}

/// A camera: where it stands, what it looks at, which way is up, and its
/// projection.
#[derive(Debug, PartialEq, Eq)]
pub struct Camera {
    pub position: Vec3Lit,
    pub center: Vec3Lit,
    pub up: Vec3Lit,
    pub perspective: PerspLit,
}

/// Spec-level mirror of `Camera`.
pub struct CameraV {
    pub position: Vec3V,
    pub center: Vec3V,
    pub up: Vec3V,
    pub perspective: PerspV,
}

impl Camera {
    pub open spec fn view(self) -> CameraV {
        CameraV {
            position: self.position.view(),
            center: self.center.view(),
            up: self.up.view(),
            perspective: self.perspective.view(),
        }
    }
}

impl Clone for Camera {
    fn clone(&self) -> (r: Self)
        ensures
            r == *self,
    {
        Camera {
            position: self.position.clone(),
            center: self.center.clone(),
            up: self.up.clone(),
            perspective: self.perspective.clone(),
        }
    }
}

/// A model transform: translation, scale and rotation.
#[derive(Debug, PartialEq, Eq)]
pub struct Transform {
    pub translate: Vec3Lit,
    pub scale: Vec3Lit,
    pub rotate: Rotation,
}

/// Spec-level mirror of `Transform`.
pub struct TransformV {
    pub translate: Vec3V,
    pub scale: Vec3V,
    pub rotate: RotationV,
}

impl Transform {
    pub open spec fn view(self) -> TransformV {
        TransformV {
            translate: self.translate.view(),
            scale: self.scale.view(),
            rotate: self.rotate.view(),
        }
    }
}

impl Clone for Transform {
    fn clone(&self) -> (r: Self)
        ensures
            r == *self,
    {
        Transform {
            translate: self.translate.clone(),
            scale: self.scale.clone(),
            rotate: self.rotate.clone(),
        }
    }
}

/// A decoded texture: raw pixel bytes and the image's dimensions.
#[derive(Debug, PartialEq, Eq)]
pub struct Texture {
    pub data: Vec<u8>,
    pub width: u32,
    pub height: u32,
}

/// Spec-level mirror of `Texture`.
pub struct TextureV {
    pub data: Seq<u8>,
    pub width: u32,
    pub height: u32,
}

impl Texture {
    pub open spec fn view(self) -> TextureV {
        TextureV { data: self.data@, width: self.width, height: self.height }
    }
}

impl Clone for Texture {
    fn clone(&self) -> (r: Self)
        ensures
            r.view() == self.view(),
    {
        let mut data: Vec<u8> = Vec::new();
        let mut i: usize = 0;
        while i < self.data.len()
            invariant
                i <= self.data@.len(),
                data@ == self.data@.subrange(0, i as int),
            decreases self.data@.len() - i,
        {
            data.push(self.data[i]);
            i = i + 1;
        }
        proof {
            assert(data@ =~= self.data@);
        }
        Texture { data, width: self.width, height: self.height }
    }
}

/// A fully evaluated model: geometry, indices, how to assemble primitives,
/// a transform, a camera, and an optional texture.
#[derive(Debug, PartialEq, Eq)]
pub struct Model {
    pub vertices: Vec<TextureVertex>,
    pub indices: Vec<u32>,
    pub topology: Topology,
    pub transforms: Transform,
    pub camera: Camera,
    pub texture: Option<Texture>,
}

/// Spec-level mirror of `Model`.
pub struct ModelV {
    pub vertices: Seq<TexVertexV>,
    pub indices: Seq<u32>,
    pub topology: Topology,
    pub transforms: TransformV,
    pub camera: CameraV,
    pub texture: Option<TextureV>,
}

impl Model {
    pub open spec fn view(self) -> ModelV {
        ModelV {
            vertices: Seq::new(self.vertices@.len(), |i: int| self.vertices@[i].view()),
            indices: self.indices@,
            topology: self.topology,
            transforms: self.transforms.view(),
            camera: self.camera.view(),
            texture: match self.texture {
                Some(t) => Some(t.view()),
                None => None,
            },
        }
    }
}

impl Clone for Model {
    fn clone(&self) -> (r: Self)
        ensures
            r.view() == self.view(),
    {
        let mut vertices: Vec<TextureVertex> = Vec::new();
        let mut i: usize = 0;
        while i < self.vertices.len()
            invariant
                i <= self.vertices@.len(),
                vertices@.len() == i,
                forall|j: int| 0 <= j < i ==> vertices@[j] == self.vertices@[j],
            decreases self.vertices@.len() - i,
        {
            let v = self.vertices[i].clone();
            vertices.push(v);
            i = i + 1;
        }
        let mut indices: Vec<u32> = Vec::new();
        let mut k: usize = 0;
        while k < self.indices.len()
            invariant
                k <= self.indices@.len(),
                indices@ == self.indices@.subrange(0, k as int),
            decreases self.indices@.len() - k,
        {
            indices.push(self.indices[k]);
            k = k + 1;
        }
        proof {
            assert(indices@ =~= self.indices@);
            assert(Seq::new(vertices@.len(), |i: int| vertices@[i].view()) =~= Seq::new(
                self.vertices@.len(),
                |i: int| self.vertices@[i].view(),
            ));
        }
        Model {
            vertices,
            indices,
            topology: self.topology,
            transforms: self.transforms.clone(),
            camera: self.camera.clone(),
            texture: match &self.texture {
                Some(t) => Some(t.clone()),
                None => None,
            },
        }
    }
}

/// The tagged union of every value the evaluator can produce.
#[derive(Debug, PartialEq, Eq)]
pub enum InnerType {
    Float(FloatLit),
    UInt(u32),
    Position(Vec3Lit),
    Rotate(Rotation),
    Topology(Topology),
    Color(ColorLit),
    Vec3(Vec3Lit),
    Vertex(Vertex),
    TextureVertex(TextureVertex),
    VertexBuffer(Vec<Vertex>),
    TexVertexBuffer(Vec<TextureVertex>),
    IndexBuffer(Vec<u32>),
    Perspective(PerspLit),
    Camera(Camera),
    Transform(Transform),
    Model(Model),
    Texture(Texture),
}

/// Spec-level mirror of `InnerType`.
pub enum InnerTypeV {
    Float(Seq<char>),
    UInt(u32),
    Position(Vec3V),
    Rotate(RotationV),
    Topology(Topology),
    Color(ColorLit),
    Vec3(Vec3V),
    Vertex(VertexV),
    TextureVertex(TexVertexV),
    VertexBuffer(Seq<VertexV>),
    TexVertexBuffer(Seq<TexVertexV>),
    IndexBuffer(Seq<u32>),
    Perspective(PerspV),
    Camera(CameraV),
    Transform(TransformV),
    Model(ModelV),
    Texture(TextureV),
}

impl InnerType {
    pub open spec fn view(self) -> InnerTypeV {
        match self {
            InnerType::Float(f) => InnerTypeV::Float(f.text@),
            InnerType::UInt(n) => InnerTypeV::UInt(n),
            InnerType::Position(p) => InnerTypeV::Position(p.view()),
            InnerType::Rotate(r) => InnerTypeV::Rotate(r.view()),
            InnerType::Topology(t) => InnerTypeV::Topology(t),
            InnerType::Color(c) => InnerTypeV::Color(c),
            InnerType::Vec3(v) => InnerTypeV::Vec3(v.view()),
            InnerType::Vertex(v) => InnerTypeV::Vertex(v.view()),
            InnerType::TextureVertex(v) => InnerTypeV::TextureVertex(v.view()),
            InnerType::VertexBuffer(vb) => InnerTypeV::VertexBuffer(
                Seq::new(vb@.len(), |i: int| vb@[i].view()),
            ),
            InnerType::TexVertexBuffer(vb) => InnerTypeV::TexVertexBuffer(
                Seq::new(vb@.len(), |i: int| vb@[i].view()),
            ),
            InnerType::IndexBuffer(ib) => InnerTypeV::IndexBuffer(ib@),
            InnerType::Perspective(p) => InnerTypeV::Perspective(p.view()),
            InnerType::Camera(c) => InnerTypeV::Camera(c.view()),
            InnerType::Transform(t) => InnerTypeV::Transform(t.view()),
            InnerType::Model(m) => InnerTypeV::Model(m.view()),
            InnerType::Texture(t) => InnerTypeV::Texture(t.view()),
        }
    }
}

/// The element-wise view of an `Option`al value.
pub open spec fn view_opt(r: Option<InnerType>) -> Option<InnerTypeV> {
    match r {
        Some(v) => Some(v.view()),
        None => None,
    }
}

impl Clone for InnerType {
    fn clone(&self) -> (r: Self)
        ensures
            r.view() == self.view(),
    {
        match self {
            InnerType::Float(f) => InnerType::Float(f.clone()),
            InnerType::UInt(n) => InnerType::UInt(*n),
            InnerType::Position(p) => InnerType::Position(p.clone()),
            InnerType::Rotate(r) => InnerType::Rotate(r.clone()),
            InnerType::Topology(t) => InnerType::Topology(*t),
            InnerType::Color(c) => InnerType::Color(*c),
            InnerType::Vec3(v) => InnerType::Vec3(v.clone()),
            InnerType::Vertex(v) => InnerType::Vertex(v.clone()),
            InnerType::TextureVertex(v) => InnerType::TextureVertex(v.clone()),
            InnerType::VertexBuffer(vb) => {
                let mut out: Vec<Vertex> = Vec::new();
                let mut i: usize = 0;
                while i < vb.len()
                    invariant
                        i <= vb@.len(),
                        out@.len() == i,
                        forall|j: int| 0 <= j < i ==> out@[j] == vb@[j],
                    decreases vb@.len() - i,
                {
                    let v = vb[i].clone();
                    out.push(v);
                    i = i + 1;
                }
                proof {
                    assert(Seq::new(out@.len(), |i: int| out@[i].view()) =~= Seq::new(
                        vb@.len(),
                        |i: int| vb@[i].view(),
                    ));
                }
                InnerType::VertexBuffer(out)
            },
            InnerType::TexVertexBuffer(vb) => {
                let mut out: Vec<TextureVertex> = Vec::new();
                let mut i: usize = 0;
                while i < vb.len()
                    invariant
                        i <= vb@.len(),
                        out@.len() == i,
                        forall|j: int| 0 <= j < i ==> out@[j] == vb@[j],
                    decreases vb@.len() - i,
                {
                    let v = vb[i].clone();
                    out.push(v);
                    i = i + 1;
                }
                proof {
                    assert(Seq::new(out@.len(), |i: int| out@[i].view()) =~= Seq::new(
                        vb@.len(),
                        |i: int| vb@[i].view(),
                    ));
                }
                InnerType::TexVertexBuffer(out)
            },
            InnerType::IndexBuffer(ib) => {
                let mut out: Vec<u32> = Vec::new();
                let mut i: usize = 0;
                while i < ib.len()
                    invariant
                        i <= ib@.len(),
                        out@ == ib@.subrange(0, i as int),
                    decreases ib@.len() - i,
                {
                    out.push(ib[i]);
                    i = i + 1;
                }
                proof {
                    assert(out@ =~= ib@);
                }
                InnerType::IndexBuffer(out)
            },
            InnerType::Perspective(p) => InnerType::Perspective(p.clone()),
            InnerType::Camera(c) => InnerType::Camera(c.clone()),
            InnerType::Transform(t) => InnerType::Transform(t.clone()),
            InnerType::Model(m) => InnerType::Model(m.clone()),
            InnerType::Texture(t) => InnerType::Texture(t.clone()),
        }
    }
}

/// The identity transform: no translation, unit scale, zero rotation about
/// the up axis.
pub open spec fn spec_transform_default() -> TransformV {
    TransformV {
        translate: Vec3V { x: "0"@, y: "0"@, z: "0"@ },
        scale: Vec3V { x: "1"@, y: "1"@, z: "1"@ },
        rotate: RotationV {
            angle: "0"@,
            axis: Vec3V { x: "0"@, y: "1"@, z: "0"@ },
        },
    }
}

impl Default for Transform {
    /// The identity transform that `(transform default)` yields.
    fn default() -> (r: Self)
        ensures
            r.view() == spec_transform_default(),
    {
        Transform {
            translate: Vec3Lit { x: FloatLit::zero(), y: FloatLit::zero(), z: FloatLit::zero() },
            scale: Vec3Lit { x: FloatLit::one(), y: FloatLit::one(), z: FloatLit::one() },
            rotate: Rotation {
                angle: FloatLit::zero(),
                axis: Vec3Lit { x: FloatLit::zero(), y: FloatLit::one(), z: FloatLit::zero() },
            },
        }
    }
}

/// The camera a freshly opened scene starts from.
pub open spec fn spec_camera_default() -> CameraV {
    CameraV {
        position: Vec3V { x: "2.0"@, y: "2.0"@, z: "2.0"@ },
        center: Vec3V { x: "0.0"@, y: "0.0"@, z: "0.0"@ },
        up: Vec3V { x: "0.0"@, y: "1.0"@, z: "0.0"@ },
        perspective: PerspV { fovy: "0.75"@, z_near: "0.1"@, z_far: "10.0"@ },
    }
}

impl Default for Camera {
    fn default() -> (r: Self)
        ensures
            r.view() == spec_camera_default(),
    {
        Camera {
            position: Vec3Lit {
                x: FloatLit { text: String::from_str("2.0") },
                y: FloatLit { text: String::from_str("2.0") },
                z: FloatLit { text: String::from_str("2.0") },
            },
            center: Vec3Lit {
                x: FloatLit { text: String::from_str("0.0") },
                y: FloatLit { text: String::from_str("0.0") },
                z: FloatLit { text: String::from_str("0.0") },
            },
            up: Vec3Lit {
                x: FloatLit { text: String::from_str("0.0") },
                y: FloatLit { text: String::from_str("1.0") },
                z: FloatLit { text: String::from_str("0.0") },
            },
            perspective: PerspLit {
                fovy: FloatLit { text: String::from_str("0.75") },
                z_near: FloatLit { text: String::from_str("0.1") },
                z_far: FloatLit { text: String::from_str("10.0") },
            },
        }
    }
}

impl Default for Model {
    /// An empty model: no geometry, triangle-list assembly, identity
    /// transform, default camera, no texture.
    fn default() -> (r: Self)
        ensures
            r.view().vertices == Seq::<TexVertexV>::empty(),
            r.view().indices == Seq::<u32>::empty(),
            r.view().topology == Topology::TriangleList,
            r.view().transforms == spec_transform_default(),
            r.view().camera == spec_camera_default(),
            r.view().texture is None,
    {
        let m = Model {
            vertices: Vec::new(),
            indices: Vec::new(),
            topology: Topology::TriangleList,
            transforms: Transform::default(),
            camera: Camera::default(),
            texture: None,
        };
        proof {
            assert(m.view().vertices =~= Seq::<TexVertexV>::empty());
        }
        m
    }
}

} // verus!
