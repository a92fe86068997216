use tvk_lang::interpreter::{texture_paths, Interpreter};
use tvk_lang::parser::Parser;
use tvk_lang::renderer::RendererSink;
use tvk_lang::types::{ColorLit, InnerType, InterpretingMode, Topology, Transform, TvkObject};

fn parse(src: &str) -> Vec<TvkObject> {
    let mut parser = Parser::new(src);
    parser.parse()
}

/// Evaluates every form of `src` against fresh bindings and a fresh sink,
/// returning the value of the last form together with the interpreter and
/// the sink.
fn eval_all(src: &str) -> (Option<InnerType>, Interpreter, RendererSink) {
    let exprs = parse(src);
    let mut interpreter = Interpreter::new();
    let mut sink = RendererSink::new();
    let mut last = None;
    for e in &exprs {
        last = interpreter.eval(e, &mut sink);
    }
    (last, interpreter, sink)
}

#[test]
fn color_literal_form_yields_color() {
    let (last, _, _) = eval_all("(color #FF0000FF)");
    assert_eq!(last, Some(InnerType::Color(ColorLit { r: 255, g: 0, b: 0, a: 255 })));
}

#[test]
fn name_binding_returns_bound_color() {
    let (last, _, _) = eval_all("(def a (color #112233FF)) (color a)");
    assert_eq!(last, Some(InnerType::Color(ColorLit { r: 0x11, g: 0x22, b: 0x33, a: 0xFF })));
}

#[test]
fn rebinding_overrides_for_later_lookups() {
    let (last, interpreter, _) = eval_all(
        "(def a (color #112233FF)) (def a (color #445566FF)) (color a)",
    );
    assert_eq!(last, Some(InnerType::Color(ColorLit { r: 0x44, g: 0x55, b: 0x66, a: 0xFF })));
    match interpreter.bindings.lookup(&String::from("a")) {
        Some(InnerType::Color(c)) => assert_eq!(c, ColorLit { r: 0x44, g: 0x55, b: 0x66, a: 0xFF }),
        other => panic!("expected the later color bound, got {:?}", other),
    }
}

#[test]
fn unbound_identifier_yields_no_value() {
    let (last, _, _) = eval_all("nobody");
    assert_eq!(last, None);
}

#[test]
fn position_builds_from_tagged_scalars() {
    let (last, _, _) = eval_all("(position (x 1.5) (y 2) (z 0.25))");
    match last {
        Some(InnerType::Position(p)) => {
            assert_eq!(p.x.text, "1.5");
            // the unsigned integer is coerced to its decimal text
            assert_eq!(p.y.text, "2");
            assert_eq!(p.z.text, "0.25");
        }
        other => panic!("expected a position, got {:?}", other),
    }
}

#[test]
fn vec3_evaluates_components_and_coerces_uints() {
    let (last, _, _) = eval_all("(vec3 (1.5 -2.5 42))");
    match last {
        Some(InnerType::Vec3(v)) => {
            assert_eq!(v.x.text, "1.5");
            assert_eq!(v.y.text, "-2.5");
            assert_eq!(v.z.text, "42");
        }
        other => panic!("expected a vec3, got {:?}", other),
    }
}

#[test]
fn vec3_missing_components_default_to_zero() {
    let (last, _, _) = eval_all("(vec3 (7))");
    match last {
        Some(InnerType::Vec3(v)) => {
            assert_eq!(v.x.text, "7");
            assert_eq!(v.y.text, "0");
            assert_eq!(v.z.text, "0");
        }
        other => panic!("expected a vec3, got {:?}", other),
    }
}

#[test]
fn vec3_with_non_numeric_component_fails() {
    let (last, _, _) = eval_all("(vec3 (1 (color #FF0000FF) 3))");
    assert_eq!(last, None);
}

#[test]
fn vertex_with_color_is_plain_vertex() {
    let (last, _, _) = eval_all(
        "(vertex (position (x 0) (y 0) (z 0)) (color #FF0000FF))",
    );
    match last {
        Some(InnerType::Vertex(v)) => {
            assert_eq!(v.position.x.text, "0");
            assert_eq!(v.color, ColorLit { r: 255, g: 0, b: 0, a: 255 });
        }
        other => panic!("expected a vertex, got {:?}", other),
    }
}

#[test]
fn vertex_with_position_shape_is_texture_vertex() {
    let (last, _, _) = eval_all(
        "(vertex (position (x 0) (y 0) (z 0)) (position (x 1) (y 0) (z 0)))",
    );
    match last {
        Some(InnerType::TextureVertex(v)) => {
            assert_eq!(v.uv.0.text, "1");
            assert_eq!(v.uv.1.text, "0");
        }
        other => panic!("expected a texture vertex, got {:?}", other),
    }
}

#[test]
fn all_plain_vertices_make_a_vertex_buffer() {
    let (last, _, _) = eval_all(
        "(def red (color #FF0000FF)) \
         (def v1 (vertex (position (x 0) (y 0) (z 0)) (color red))) \
         (def v2 (vertex (position (x 1) (y 0) (z 0)) (color red))) \
         (vertex-buffer (v1 v2))",
    );
    match last {
        Some(InnerType::VertexBuffer(vb)) => assert_eq!(vb.len(), 2),
        other => panic!("expected a vertex buffer, got {:?}", other),
    }
}

#[test]
fn all_textured_vertices_make_a_tex_vertex_buffer() {
    let (last, _, _) = eval_all(
        "(def v1 (vertex (position (x 0) (y 0) (z 0)) (position (x 0) (y 0) (z 0)))) \
         (def v2 (vertex (position (x 1) (y 0) (z 0)) (position (x 1) (y 0) (z 0)))) \
         (vertex-buffer (v1 v2))",
    );
    match last {
        Some(InnerType::TexVertexBuffer(vb)) => assert_eq!(vb.len(), 2),
        other => panic!("expected a textured vertex buffer, got {:?}", other),
    }
}

#[test]
fn mixed_vertex_kinds_yield_no_value() {
    let (last, _, _) = eval_all(
        "(def red (color #FF0000FF)) \
         (def v1 (vertex (position (x 0) (y 0) (z 0)) (color red))) \
         (def v2 (vertex (position (x 1) (y 0) (z 0)) (position (x 1) (y 0) (z 0)))) \
         (vertex-buffer (v1 v2))",
    );
    assert_eq!(last, None);
}

#[test]
fn index_buffer_collects_uints_in_order() {
    let (last, _, _) = eval_all("(index-buffer (0 1 2 2 3 0))");
    assert_eq!(last, Some(InnerType::IndexBuffer(vec![0, 1, 2, 2, 3, 0])));
}

#[test]
fn index_buffer_rejects_non_uint() {
    let (last, _, _) = eval_all("(index-buffer (0 1.5 2))");
    assert_eq!(last, None);
}

#[test]
fn transform_default_is_identity_regardless_of_bindings() {
    let (last, _, _) = eval_all(
        "(def default (vec3 (9 9 9))) (def t (vec3 (8 8 8))) (transform default)",
    );
    match last {
        Some(InnerType::Transform(t)) => {
            let d = Transform::default();
            assert_eq!(t, d);
            assert_eq!(t.translate.x.text, "0");
            assert_eq!(t.scale.x.text, "1");
            assert_eq!(t.rotate.angle.text, "0");
            assert_eq!(t.rotate.axis.y.text, "1");
        }
        other => panic!("expected the identity transform, got {:?}", other),
    }
}

#[test]
fn transform_builds_from_parts() {
    let (last, _, _) = eval_all(
        "(transform (translate (vec3 (1 2 3))) (scale (vec3 (1 1 1))) (rotate 90 (vec3 (0 1 0))))",
    );
    match last {
        Some(InnerType::Transform(t)) => {
            assert_eq!(t.translate.y.text, "2");
            assert_eq!(t.rotate.angle.text, "90");
            assert_eq!(t.rotate.axis.y.text, "1");
        }
        other => panic!("expected a transform, got {:?}", other),
    }
}

#[test]
fn transform_with_non_vec3_arguments_fails() {
    let (last, _, _) = eval_all("(transform 5 6 7)");
    assert_eq!(last, None);
}

#[test]
fn transform_with_partial_mismatch_fails() {
    let (last, _, _) = eval_all("(transform (vec3 (1 1 1)) 2 3)");
    assert_eq!(last, None);
}

#[test]
fn bound_transform_resolves_by_name() {
    let (last, _, _) = eval_all("(def t (transform default)) (transform t)");
    assert_eq!(last, Some(InnerType::Transform(Transform::default())));
}

#[test]
fn topology_keywords_map_to_tags() {
    let cases = [
        ("(topology default)", Topology::TriangleList),
        ("(topology triangle-list)", Topology::TriangleList),
        ("(topology triangle-strip)", Topology::TriangleStrip),
        ("(topology line-list)", Topology::LineList),
        ("(topology line-strip)", Topology::LineStrip),
        ("(topology point-list)", Topology::PointList),
    ];
    for (src, expected) in cases {
        let (last, _, _) = eval_all(src);
        assert_eq!(last, Some(InnerType::Topology(expected)), "for {}", src);
    }
}

#[test]
fn unrecognized_topology_fails() {
    let (last, _, _) = eval_all("(topology diamond-grid)");
    assert_eq!(last, None);
}

#[test]
fn perspective_builds_from_three_floats() {
    let (last, _, _) = eval_all("(perspective 0.75 0.1 10.0)");
    match last {
        Some(InnerType::Perspective(p)) => {
            assert_eq!(p.fovy.text, "0.75");
            assert_eq!(p.z_near.text, "0.1");
            assert_eq!(p.z_far.text, "10.0");
        }
        other => panic!("expected a perspective, got {:?}", other),
    }
}

#[test]
fn perspective_coerces_uint_arguments() {
    let (last, _, _) = eval_all("(perspective 1 0.1 10)");
    match last {
        Some(InnerType::Perspective(p)) => {
            assert_eq!(p.fovy.text, "1");
            assert_eq!(p.z_near.text, "0.1");
            assert_eq!(p.z_far.text, "10");
        }
        other => panic!("expected a perspective, got {:?}", other),
    }
}

#[test]
fn camera_builds_from_positions_and_perspective() {
    let (last, _, _) = eval_all(
        "(def pers (perspective 0.75 0.1 10.0)) \
         (camera (position (x 2) (y 2) (z 2)) \
                 (center (x 0) (y 0) (z 0)) \
                 (up (x 0) (y 1) (z 0)) \
                 (perspective pers))",
    );
    match last {
        Some(InnerType::Camera(c)) => {
            assert_eq!(c.position.x.text, "2");
            assert_eq!(c.up.y.text, "1");
            assert_eq!(c.perspective.fovy.text, "0.75");
        }
        other => panic!("expected a camera, got {:?}", other),
    }
}

#[test]
fn end_to_end_draw_submits_one_vertex_buffer() {
    let src = "(def p1 (position (x 0) (y 0) (z 0)))\n\
               (def red (color #FF0000FF))\n\
               (def v1 (vertex (position p1) (color red)))\n\
               (def vb (vertex-buffer (v1)))\n\
               (draw vb)";
    let exprs = parse(src);
    assert_eq!(exprs.len(), 5);
    let mut interpreter = Interpreter::new();
    let mut sink = RendererSink::new();
    interpreter.interpret(&exprs, &mut sink);
    match interpreter.bindings.lookup(&String::from("vb")) {
        Some(InnerType::VertexBuffer(vb)) => {
            assert_eq!(vb.len(), 1);
            assert_eq!(vb[0].position.x.text, "0");
            assert_eq!(vb[0].position.y.text, "0");
            assert_eq!(vb[0].position.z.text, "0");
            assert_eq!(vb[0].color, ColorLit { r: 255, g: 0, b: 0, a: 255 });
        }
        other => panic!("expected a one-vertex buffer bound to vb, got {:?}", other),
    }
    assert_eq!(sink.vbs.len(), 1);
    assert_eq!(sink.vbs[0].len(), 1);
    assert_eq!(sink.vbs[0][0].position.x.text, "0");
    assert_eq!(sink.vbs[0][0].color, ColorLit { r: 255, g: 0, b: 0, a: 255 });
    assert_eq!(sink.models.len(), 0);
}

#[test]
fn draw_submits_each_drawable() {
    let src = "(def red (color #FF0000FF)) \
               (def v1 (vertex (position (x 0) (y 0) (z 0)) (color red))) \
               (def a (vertex-buffer (v1))) \
               (def b (vertex-buffer (v1 v1))) \
               (draw a b)";
    let (_, _, sink) = eval_all(src);
    assert_eq!(sink.vbs.len(), 2);
    assert_eq!(sink.vbs[0].len(), 1);
    assert_eq!(sink.vbs[1].len(), 2);
}

#[test]
fn draw_of_non_drawable_submits_nothing_more() {
    let src = "(def red (color #FF0000FF)) \
               (def v1 (vertex (position (x 0) (y 0) (z 0)) (color red))) \
               (def a (vertex-buffer (v1))) \
               (draw a red a)";
    let (last, _, sink) = eval_all(src);
    assert_eq!(last, None);
    // the first buffer was already submitted; the bad drawable stops the form
    assert_eq!(sink.vbs.len(), 1);
}

#[test]
fn change_topology_is_explicit_sink_state() {
    let mut sink = RendererSink::new();
    assert_eq!(sink.current_topology, Topology::TriangleList);
    sink.change_topology(Topology::LineStrip);
    assert_eq!(sink.current_topology, Topology::LineStrip);
}

/// Encodes a one-pixel RGBA PNG with the given pixel bytes.
fn tiny_png(pixel: [u8; 4]) -> Vec<u8> {
    let mut file = Vec::new();
    {
        let mut encoder = png::Encoder::new(std::io::Cursor::new(&mut file), 1, 1);
        encoder.set_color(png::ColorType::Rgba);
        encoder.set_depth(png::BitDepth::Eight);
        let mut writer = encoder.write_header().unwrap();
        writer.write_image_data(&pixel).unwrap();
    }
    file
}

#[test]
fn texture_form_decodes_preloaded_png() {
    let file = tiny_png([10, 20, 30, 40]);
    let exprs = parse("(texture teximg)");
    let mut interpreter = Interpreter::new();
    let mut sink = RendererSink::new();
    sink.add_texture_file(String::from("teximg"), file.clone());
    let last = interpreter.eval(&exprs[0], &mut sink);
    match last {
        Some(InnerType::Texture(t)) => {
            assert_eq!(t.width, 1);
            assert_eq!(t.height, 1);
            // decoded pixels, not the raw PNG stream
            assert_eq!(t.data, vec![10, 20, 30, 40]);
            assert_ne!(t.data, file);
        }
        other => panic!("expected a texture, got {:?}", other),
    }
    assert_eq!(sink.texture_failures.len(), 0);
}

#[test]
fn missing_texture_file_is_recorded_as_failure() {
    let exprs = parse("(texture nosuch)");
    let mut interpreter = Interpreter::new();
    let mut sink = RendererSink::new();
    let last = interpreter.eval(&exprs[0], &mut sink);
    assert_eq!(last, None);
    assert_eq!(sink.texture_failures, vec![String::from("nosuch")]);
}

#[test]
fn undecodable_texture_bytes_are_recorded_as_failure() {
    let exprs = parse("(texture broken)");
    let mut interpreter = Interpreter::new();
    let mut sink = RendererSink::new();
    sink.add_texture_file(String::from("broken"), vec![1, 2, 3, 4]);
    let last = interpreter.eval(&exprs[0], &mut sink);
    assert_eq!(last, None);
    assert_eq!(sink.texture_failures, vec![String::from("broken")]);
}

#[test]
fn texture_paths_are_collected_in_source_order() {
    let exprs = parse(
        "(def t1 (texture alpha)) (draw x) (def m (model vb ib (topology default) \
         (transform default) cam (texture beta)))",
    );
    let paths = texture_paths(&exprs);
    assert_eq!(paths, vec![String::from("alpha"), String::from("beta")]);
}

#[test]
fn textured_model_builds_end_to_end() {
    let src = "(def v1 (vertex (position (x 0) (y 0) (z 0)) (position (x 0) (y 0) (z 0)))) \
               (def tvb (vertex-buffer (v1))) \
               (def ib (index-buffer (0))) \
               (def pers (perspective 0.75 0.1 10.0)) \
               (def cam (camera (position (x 2) (y 2) (z 2)) (center (x 0) (y 0) (z 0)) \
                        (up (x 0) (y 1) (z 0)) (perspective pers))) \
               (def m (model tvb ib (topology line-strip) (transform default) cam (texture teximg))) \
               (draw m)";
    let exprs = parse(src);
    let mut interpreter = Interpreter::new();
    let mut sink = RendererSink::new();
    sink.add_texture_file(String::from("teximg"), tiny_png([1, 2, 3, 4]));
    interpreter.interpret(&exprs, &mut sink);
    assert_eq!(sink.models.len(), 1);
    let m = &sink.models[0];
    assert_eq!(m.vertices.len(), 1);
    assert_eq!(m.indices, vec![0]);
    assert_eq!(m.topology, Topology::LineStrip);
    assert_eq!(m.transforms, Transform::default());
    match &m.texture {
        Some(t) => {
            assert_eq!((t.width, t.height), (1, 1));
            assert_eq!(t.data, vec![1, 2, 3, 4]);
        }
        None => panic!("expected the model to carry its texture"),
    }
}

#[test]
fn untextured_model_has_no_texture() {
    let src = "(def v1 (vertex (position (x 0) (y 0) (z 0)) (position (x 0) (y 0) (z 0)))) \
               (def tvb (vertex-buffer (v1))) \
               (def ib (index-buffer (0))) \
               (def pers (perspective 0.75 0.1 10.0)) \
               (def cam (camera (position (x 2) (y 2) (z 2)) (center (x 0) (y 0) (z 0)) \
                        (up (x 0) (y 1) (z 0)) (perspective pers))) \
               (model tvb ib (topology default) (transform default) cam)";
    let (last, _, _) = eval_all(src);
    match last {
        Some(InnerType::Model(m)) => {
            assert_eq!(m.topology, Topology::TriangleList);
            assert!(m.texture.is_none());
        }
        other => panic!("expected a model, got {:?}", other),
    }
}

#[test]
fn model_with_wrong_argument_type_fails() {
    let src = "(def ib (index-buffer (0))) \
               (model ib ib (topology default) (transform default) ib)";
    let (last, _, _) = eval_all(src);
    assert_eq!(last, None);
}

#[test]
fn interpreting_modes_are_distinct() {
    assert_ne!(InterpretingMode::Continuous, InterpretingMode::Manual);
}
