//! The renderer-facing sink the evaluator hands drawables to.
//!
//! The real rendering backend lives outside this library; what the
//! language core needs of it is plain data: drawables accumulate in order,
//! an active topology is explicit state, and texture loading is a lookup
//! of pre-read file bytes followed by a PNG decode. The embedding
//! application reads the accumulated models and vertex buffers after an
//! evaluation pass and does the actual drawing; it also pre-reads the
//! texture files the source names, since this library does no I/O.
//!
//! A texture load that fails — no bytes were provided for the path, or the
//! bytes do not decode — is recorded under `texture_failures`: such a
//! failure is fatal to a rendering pass, so it must not be lost silently.

use vstd::prelude::*;
use crate::types::{Model, ModelV, Texture, TextureV, Topology, Vertex, VertexV};

verus! {

broadcast use vstd::std_specs::vec::group_vec_axioms, vstd::seq::group_seq_axioms;

/// What decoding a PNG byte stream yields: the raw pixel bytes and the
/// image's width and height, or nothing when the stream is not a decodable
/// PNG. The result depends on the bytes alone.
pub uninterp spec fn png_decoded(file: Seq<u8>) -> Option<(Seq<u8>, u32, u32)>;

/// Relies on png::Decoder::read_info, png::Reader::output_buffer_size and
/// png::Reader::next_frame: together they decode a PNG byte stream into
/// one frame of raw pixels plus its dimensions, a function of the bytes
/// alone; any failure along the way is a failure to decode.
#[verifier::external_body]
fn decode_png(file: &Vec<u8>) -> (r: Option<(Vec<u8>, u32, u32)>)
    ensures
        match r {
            Some(t) => png_decoded(file@) == Some((t.0@, t.1, t.2)),
            None => png_decoded(file@) is None,
        },
{
    let decoder = png::Decoder::new(std::io::Cursor::new(file.as_slice()));
    let mut reader = match decoder.read_info() {
        Ok(reader) => reader,
        Err(_) => return None,
    };
    let len = match reader.output_buffer_size() {
        Some(len) => len,
        None => return None,
    };
    let mut data = vec![0u8; len];
    match reader.next_frame(&mut data) {
        Ok(info) => Some((data, info.width, info.height)),
        Err(_) => return None,
    }
}

/// The map written by a sequence of path-to-bytes entries, later entries
/// overriding earlier ones.
pub open spec fn files_map(s: Seq<(String, Vec<u8>)>) -> Map<Seq<char>, Seq<u8>>
    decreases s.len(),
{
    if s.len() == 0 {
        Map::empty()
    } else {
        files_map(s.drop_last()).insert(s.last().0@, s.last().1@)
    }
}

/// If no entry from `i` on carries `path`, the entries up to `i` decide
/// `path` alone.
proof fn lemma_files_map_skip(s: Seq<(String, Vec<u8>)>, path: Seq<char>, i: int)
    requires
        0 <= i <= s.len(),
        forall|t: int| i <= t < s.len() ==> #[trigger] s[t].0@ != path,
    ensures
        files_map(s).contains_key(path) == files_map(s.subrange(0, i)).contains_key(path),
        files_map(s).contains_key(path) ==> files_map(s)[path] == files_map(s.subrange(0, i))[path],
    decreases s.len() - i,
{
    if i < s.len() {
        let s2 = s.subrange(0, s.len() - 1);
        assert(s2 == s.drop_last());
        lemma_files_map_skip(s2, path, i);
        assert(s2.subrange(0, i) =~= s.subrange(0, i));
    } else {
        assert(s.subrange(0, i) =~= s);
    }
}

/// Spec-level mirror of `RendererSink`.
pub struct SinkV {
    pub topology: Topology,
    pub vbs: Seq<Seq<VertexV>>,
    pub models: Seq<ModelV>,
    pub files: Map<Seq<char>, Seq<u8>>,
    pub failures: Seq<Seq<char>>,
}

/// What looking a texture path up yields: the decoded texture when the
/// path's file bytes are present and decode, nothing otherwise.
pub open spec fn spec_load_texture(files: Map<Seq<char>, Seq<u8>>, path: Seq<char>) -> Option<
    TextureV,
> {
    if files.contains_key(path) {
        match png_decoded(files[path]) {
            Some(t) => Some(TextureV { data: t.0, width: t.1, height: t.2 }),
            None => None,
        }
    } else {
        None
    }
}

/// The sink the evaluator submits drawables to: accumulated models and
/// vertex buffers, the active topology for buffers submitted without a
/// model wrapper, the pre-read texture files, and the paths whose textures
/// could not be loaded.
pub struct RendererSink {
    pub current_topology: Topology,
    pub vbs: Vec<Vec<Vertex>>,
    pub models: Vec<Model>,
    texture_files: Vec<(String, Vec<u8>)>,
    pub texture_failures: Vec<String>,
}

impl RendererSink {
    pub closed spec fn view(self) -> SinkV {
        SinkV {
            topology: self.current_topology,
            vbs: Seq::new(self.vbs@.len(), |i: int| view_vb(self.vbs@[i])),
            models: Seq::new(self.models@.len(), |i: int| self.models@[i].view()),
            files: files_map(self.texture_files@),
            failures: Seq::new(self.texture_failures@.len(), |i: int| self.texture_failures@[i]@),
        }
    }

    /// A fresh sink: nothing submitted, triangle-list topology, no files.
    pub fn new() -> (r: RendererSink)
        ensures
            r.view() == (SinkV {
                topology: Topology::TriangleList,
                vbs: Seq::empty(),
                models: Seq::empty(),
                files: Map::empty(),
                failures: Seq::empty(),
            }),
    {
        let r = RendererSink {
            current_topology: Topology::TriangleList,
            vbs: Vec::new(),
            models: Vec::new(),
            texture_files: Vec::new(),
            texture_failures: Vec::new(),
        };
        proof {
            assert(r.view().vbs =~= Seq::<Seq<VertexV>>::empty());
            assert(r.view().models =~= Seq::<ModelV>::empty());
            assert(r.view().failures =~= Seq::<Seq<char>>::empty());
        }
        r
    }

    /// Accepts a plain vertex buffer for later rendering.
    pub fn receive_vertex_buffer(&mut self, vb: Vec<Vertex>)
        ensures
            final(self).view() == (SinkV {
                vbs: old(self).view().vbs.push(view_vb(vb)),
                ..old(self).view()
            }),
    {
        self.vbs.push(vb);
        proof {
            assert(final(self).view().vbs =~= old(self).view().vbs.push(view_vb(vb)));
            assert(final(self).view().models =~= old(self).view().models);
            assert(final(self).view().failures =~= old(self).view().failures);
        }
    }

    /// Accepts a fully evaluated model for later rendering.
    pub fn receive_model(&mut self, model: Model)
        ensures
            final(self).view() == (SinkV {
                models: old(self).view().models.push(model.view()),
                ..old(self).view()
            }),
    {
        let ghost model_v = model.view();
        self.models.push(model);
        proof {
            assert(final(self).view().models =~= old(self).view().models.push(model_v));
            assert(final(self).view().vbs =~= old(self).view().vbs);
            assert(final(self).view().failures =~= old(self).view().failures);
        }
    }

    /// Sets the topology that buffers submitted without a model wrapper
    /// are drawn with.
    pub fn change_topology(&mut self, mode: Topology)
        ensures
            final(self).view() == (SinkV { topology: mode, ..old(self).view() }),
    {
        self.current_topology = mode;
        proof {
            assert(final(self).view().vbs =~= old(self).view().vbs);
            assert(final(self).view().models =~= old(self).view().models);
            assert(final(self).view().failures =~= old(self).view().failures);
        }
    }

    /// Provides the raw bytes of the file at `path`, for later texture
    /// loads. The embedding application reads the files; the library never
    /// touches the file system.
    pub fn add_texture_file(&mut self, path: String, bytes: Vec<u8>)
        ensures
            final(self).view() == (SinkV {
                files: old(self).view().files.insert(path@, bytes@),
                ..old(self).view()
            }),
    {
        let ghost old_files = self.texture_files@;
        let ghost path_v = path@;
        let ghost bytes_v = bytes@;
        self.texture_files.push((path, bytes));
        proof {
            assert(self.texture_files@.drop_last() =~= old_files);
            assert(self.texture_files@.last().0@ == path_v);
            assert(self.texture_files@.last().1@ == bytes_v);
            assert(final(self).view().vbs =~= old(self).view().vbs);
            assert(final(self).view().models =~= old(self).view().models);
            assert(final(self).view().failures =~= old(self).view().failures);
        }
    }

    /// Loads the texture named by `path`: looks the pre-read file bytes up
    /// and decodes them. A load that fails is recorded under
    /// `texture_failures` — the embedding tool treats it as fatal — and
    /// yields nothing.
    pub fn load_texture_image(&mut self, path: &String) -> (r: Option<Texture>)
        ensures
            match r {
                Some(t) => spec_load_texture(old(self).view().files, path@) == Some(t.view())
                    && *final(self) == *old(self),
                None => spec_load_texture(old(self).view().files, path@) is None
                    && final(self).view() == (SinkV {
                    failures: old(self).view().failures.push(path@),
                    ..old(self).view()
                }),
            },
    {
        let found = self.find_file(path);
        let r = match found {
            Some(idx) => {
                let decoded = decode_png(&self.texture_files[idx].1);
                match decoded {
                    Some(t) => Some(Texture { data: t.0, width: t.1, height: t.2 }),
                    None => None,
                }
            },
            None => None,
        };
        match r {
            Some(t) => Some(t),
            None => {
                let ghost path_v = path@;
                self.texture_failures.push(path.clone());
                proof {
                    assert(final(self).view().failures =~= old(self).view().failures.push(path_v));
                    assert(final(self).view().vbs =~= old(self).view().vbs);
                    assert(final(self).view().models =~= old(self).view().models);
                }
                None
            },
        }
    }

    /// Finds the index of the most recent entry for `path` among the
    /// pre-read files.
    fn find_file(&self, path: &String) -> (r: Option<usize>)
        ensures
            match r {
                Some(idx) => idx < self.texture_files@.len() && self.view().files.contains_key(
                    path@,
                ) && self.texture_files@[idx as int].1@ == self.view().files[path@],
                None => !self.view().files.contains_key(path@),
            },
    {
        let mut i = self.texture_files.len();
        while i > 0
            invariant
                i <= self.texture_files@.len(),
                forall|t: int| i <= t < self.texture_files@.len()
                    ==> #[trigger] self.texture_files@[t].0@ != path@,
            decreases i,
        {
            i = i - 1;
            let entry = &self.texture_files[i];
            if entry.0 == *path {
                proof {
                    let prefix = self.texture_files@.subrange(0, i + 1);
                    lemma_files_map_skip(self.texture_files@, path@, i + 1);
                    assert(files_map(prefix).contains_key(path@) && files_map(prefix)[path@]
                        == prefix.last().1@);
                }
                return Some(i);
            }
        }
        proof {
            lemma_files_map_skip(self.texture_files@, path@, 0);
            assert(self.texture_files@.subrange(0, 0) =~= Seq::<(String, Vec<u8>)>::empty());
        }
        None
    }
}

/// The element-wise view of a vertex buffer.
pub open spec fn view_vb(vb: Vec<Vertex>) -> Seq<VertexV> {
    Seq::new(vb@.len(), |i: int| vb@[i].view())
}

} // verus!
