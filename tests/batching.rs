use gfx_graphics::batch::{Batcher, Command};
use gfx_graphics::pipeline::{
    BlendEquation, ColorMask, Comparison, PipelineConfig, PipelineMatrix, PsoStencil, StencilKind,
    StencilOp, pipeline_config, stencil_ref,
};
use gfx_graphics::state::{Blend, DrawState, PixelRect, ScissorRect, Stencil};
use graphics::color::gamma_srgb_to_linear;

type Pos = [f32; 2];
type Col = [f32; 4];
type Uv = [f32; 2];
type Cmd = Command<Pos, Col, Uv>;

fn alpha() -> DrawState {
    DrawState::new_alpha()
}

fn with_blend(blend: Option<Blend>) -> DrawState {
    DrawState { scissor: None, stencil: None, blend }
}

fn rect(x: f32, y: f32) -> Vec<Pos> {
    vec![[x, y], [x + 1.0, y], [x, y + 1.0], [x + 1.0, y], [x + 1.0, y + 1.0], [x, y + 1.0]]
}

fn positions_of(c: &Cmd) -> &Vec<Pos> {
    match c {
        Command::Colored { positions, .. } => positions,
        Command::Textured { positions, .. } => positions,
        Command::TexturedColor { positions, .. } => positions,
        _ => panic!("not a draw"),
    }
}

#[test]
fn two_rectangles_make_one_draw() {
    let red = gamma_srgb_to_linear([1.0, 0.0, 0.0, 1.0]);
    let green = gamma_srgb_to_linear([0.0, 1.0, 0.0, 0.3]);
    let mut b: Batcher<Pos, Col, Uv> = Batcher::new(1023, 100);
    let state = DrawState { scissor: None, stencil: None, blend: Some(Blend::Alpha) };
    assert!(b.tri_list(state, red, rect(0.0, 0.0)).is_empty());
    assert!(b.tri_list(state, green, rect(5.0, 5.0)).is_empty());
    assert_eq!(b.pending(), 12);
    let out = b.flush();
    assert_eq!(out.len(), 1);
    match &out[0] {
        Command::Colored { state: s, positions, colors } => {
            assert_eq!(*s, state);
            assert_eq!(positions.len(), 12);
            let mut expected = rect(0.0, 0.0);
            expected.extend(rect(5.0, 5.0));
            assert_eq!(*positions, expected);
            for c in &colors[..6] {
                assert_eq!(*c, red);
            }
            for c in &colors[6..] {
                assert_eq!(*c, green);
            }
        },
        _ => panic!("expected a colored draw"),
    }
    let labels = PsoStencil::new(&|c: PipelineConfig| c);
    let (pso, reference) = labels.stencil_blend(state.stencil, state.blend);
    assert_eq!(pso.blend, BlendEquation::Alpha);
    assert_eq!(pso.stencil.comparison, Comparison::Always);
    assert_eq!(reference, 0);
    assert_eq!(b.pending(), 0);
}

#[test]
fn same_state_calls_coalesce() {
    let mut b: Batcher<Pos, Col, Uv> = Batcher::new(16, 4);
    let mut all = Vec::new();
    for k in 0..5 {
        let p = vec![[k as f32, 0.0]; 3];
        all.extend(p.clone());
        assert!(b.tri_list(alpha(), [1.0, 1.0, 1.0, 1.0], p).is_empty());
    }
    let out = b.flush();
    assert_eq!(out.len(), 1);
    assert_eq!(*positions_of(&out[0]), all);
    assert!(b.flush().is_empty());
}

#[test]
fn state_change_flushes_first_batch() {
    let mut b: Batcher<Pos, Col, Uv> = Batcher::new(16, 4);
    let a = with_blend(Some(Blend::Add));
    let m = with_blend(Some(Blend::Multiply));
    assert!(b.tri_list(a, [1.0; 4], rect(0.0, 0.0)).is_empty());
    let first = b.tri_list(m, [0.5; 4], rect(1.0, 1.0));
    assert_eq!(first.len(), 1);
    match &first[0] {
        Command::Colored { state, positions, .. } => {
            assert_eq!(*state, a);
            assert_eq!(*positions, rect(0.0, 0.0));
        },
        _ => panic!("expected a colored draw"),
    }
    let second = b.flush();
    assert_eq!(second.len(), 1);
    match &second[0] {
        Command::Colored { state, positions, .. } => {
            assert_eq!(*state, m);
            assert_eq!(*positions, rect(1.0, 1.0));
        },
        _ => panic!("expected a colored draw"),
    }
}

#[test]
fn full_store_forces_flush() {
    let mut b: Batcher<Pos, Col, Uv> = Batcher::new(4, 2);
    assert_eq!(b.capacity(), 8);
    assert!(b.tri_list(alpha(), [1.0; 4], vec![[0.0, 0.0]; 6]).is_empty());
    let out = b.tri_list(alpha(), [1.0; 4], vec![[1.0, 1.0]; 3]);
    assert_eq!(out.len(), 1);
    assert_eq!(positions_of(&out[0]).len(), 6);
    assert_eq!(b.pending(), 3);
    let rest = b.flush();
    assert_eq!(positions_of(&rest[0]), &vec![[1.0, 1.0]; 3]);
    let total: usize = out.iter().chain(rest.iter()).map(|c| positions_of(c).len()).sum();
    assert_eq!(total, 9);
}

#[test]
fn exact_fit_does_not_flush() {
    let mut b: Batcher<Pos, Col, Uv> = Batcher::new(4, 2);
    assert!(b.tri_list(alpha(), [1.0; 4], vec![[0.0, 0.0]; 5]).is_empty());
    assert!(b.tri_list(alpha(), [1.0; 4], vec![[0.0, 0.0]; 3]).is_empty());
    assert_eq!(b.pending(), 8);
}

#[test]
fn textured_draws_keep_submission_order() {
    let mut b: Batcher<Pos, Col, Uv> = Batcher::new(16, 4);
    let mut order = Vec::new();
    for k in 0..3 {
        order.extend(b.tri_list(alpha(), [1.0; 4], rect(k as f32, 0.0)));
        order.extend(b.tri_list_uv(alpha(), [1.0; 4], rect(0.0, k as f32), rect(0.0, 0.0)));
    }
    order.extend(b.flush());
    assert_eq!(order.len(), 6);
    for (i, c) in order.iter().enumerate() {
        match c {
            Command::Colored { positions, .. } => {
                assert_eq!(i % 2, 0);
                assert_eq!(*positions, rect((i / 2) as f32, 0.0));
            },
            Command::Textured { positions, .. } => {
                assert_eq!(i % 2, 1);
                assert_eq!(*positions, rect(0.0, (i / 2) as f32));
            },
            _ => panic!("unexpected command"),
        }
    }
}

#[test]
fn per_vertex_colors_are_kept() {
    let mut b: Batcher<Pos, Col, Uv> = Batcher::new(16, 4);
    let colors = vec![[0.1, 0.2, 0.3, 1.0], [0.4, 0.5, 0.6, 1.0], [0.7, 0.8, 0.9, 1.0]];
    assert!(b.tri_list_c(alpha(), vec![[0.0, 0.0]; 3], colors.clone()).is_empty());
    let out = b.tri_list_uv_c(alpha(), vec![[0.0, 0.0]; 3], vec![[0.5, 0.5]; 3], colors.clone());
    assert_eq!(out.len(), 2);
    match &out[0] {
        Command::Colored { colors: c, .. } => assert_eq!(*c, colors),
        _ => panic!("expected the pending colored batch first"),
    }
    match &out[1] {
        Command::TexturedColor { colors: c, uvs, .. } => {
            assert_eq!(*c, colors);
            assert_eq!(*uvs, vec![[0.5, 0.5]; 3]);
        },
        _ => panic!("expected the textured draw second"),
    }
}

#[test]
fn flush_at_scope_end_draws_pending() {
    let mut b: Batcher<Pos, Col, Uv> = Batcher::new(16, 4);
    assert!(b.flush().is_empty());
    assert!(b.tri_list(alpha(), [1.0; 4], rect(0.0, 0.0)).is_empty());
    let out = b.flush();
    assert_eq!(out.len(), 1);
    assert_eq!(b.pending(), 0);
}

#[test]
fn clears_issue_pending_batch_first() {
    let mut b: Batcher<Pos, Col, Uv> = Batcher::new(16, 4);
    assert_eq!(b.clear_color([0.0; 4]).len(), 1);
    assert!(b.tri_list(alpha(), [1.0; 4], rect(0.0, 0.0)).is_empty());
    let out = b.clear_stencil(7);
    assert_eq!(out.len(), 2);
    assert!(matches!(out[0], Command::Colored { .. }));
    assert!(matches!(out[1], Command::ClearStencil { value: 7 }));
    assert_eq!(b.pending(), 0);
}

#[test]
fn new_batcher_starts_with_alpha_state() {
    let b: Batcher<Pos, Col, Uv> = Batcher::new(1023, 100);
    assert_eq!(b.chunk(), 1023);
    assert_eq!(b.capacity(), 102300);
    assert_eq!(b.pending(), 0);
    assert_eq!(b.draw_state(), DrawState { scissor: None, stencil: None, blend: Some(Blend::Alpha) });
}

#[test]
fn scissor_rectangles() {
    assert_eq!(alpha().pixel_rect(), PixelRect { x: 0, y: 0, w: 65535, h: 65535 });
    let s = DrawState { scissor: Some(ScissorRect { x: 10, y: 20, w: 30, h: 40 }), ..alpha() };
    assert_eq!(s.pixel_rect(), PixelRect { x: 10, y: 20, w: 30, h: 40 });
    let big = DrawState { scissor: Some(ScissorRect { x: 65537, y: 0, w: 70000, h: 1 }), ..alpha() };
    assert_eq!(big.pixel_rect(), PixelRect { x: 1, y: 0, w: 4464, h: 1 });
}

#[test]
fn stencil_reference_values() {
    assert_eq!(stencil_ref(None), 0);
    assert_eq!(stencil_ref(Some(Stencil::Clip(3))), 3);
    assert_eq!(stencil_ref(Some(Stencil::Inside(4))), 4);
    assert_eq!(stencil_ref(Some(Stencil::Outside(5))), 5);
    assert_eq!(stencil_ref(Some(Stencil::Increment)), 0);
}

#[test]
fn pipeline_settings() {
    let clip = pipeline_config(StencilKind::Clip, None);
    assert_eq!(clip.blend, BlendEquation::Replace);
    assert_eq!(clip.color_mask, ColorMask::Nothing);
    assert_eq!(clip.stencil.comparison, Comparison::Never);
    assert_eq!(clip.stencil.mask, 255);
    assert_eq!(clip.stencil.on_fail, StencilOp::Replace);
    let inc = pipeline_config(StencilKind::Increment, Some(Blend::Lighter));
    assert_eq!(inc.blend, BlendEquation::Lighter);
    assert_eq!(inc.stencil.on_fail, StencilOp::IncrementClamp);
    assert_eq!(inc.color_mask, ColorMask::All);
    let inside = pipeline_config(StencilKind::Inside, Some(Blend::Invert));
    assert_eq!(inside.stencil.comparison, Comparison::Equal);
    let outside = pipeline_config(StencilKind::Outside, Some(Blend::Multiply));
    assert_eq!(outside.stencil.comparison, Comparison::NotEqual);
    assert_eq!(outside.stencil.on_pass, StencilOp::Keep);
    let none = pipeline_config(StencilKind::NoTest, Some(Blend::Add));
    assert_eq!(none.stencil.comparison, Comparison::Always);
    assert_eq!(none.stencil.mask, 0);
}

#[test]
fn every_combination_has_a_pipeline() {
    let m = PipelineMatrix::new(
        &|c: PipelineConfig| (0u8, c),
        &|c: PipelineConfig| (1u8, c),
        &|c: PipelineConfig| (2u8, c),
    );
    let blends = [None, Some(Blend::Alpha), Some(Blend::Add), Some(Blend::Lighter), Some(Blend::Multiply), Some(Blend::Invert)];
    let stencils = [None, Some(Stencil::Clip(1)), Some(Stencil::Inside(2)), Some(Stencil::Outside(3)), Some(Stencil::Increment)];
    let kinds = [StencilKind::NoTest, StencilKind::Clip, StencilKind::Inside, StencilKind::Outside, StencilKind::Increment];
    let mut seen = Vec::new();
    for (s, k) in stencils.iter().zip(kinds.iter()) {
        for b in blends.iter() {
            let expected = pipeline_config(*k, *b);
            let (a, ra) = m.colored.stencil_blend(*s, *b);
            let (t, rt) = m.textured.stencil_blend(*s, *b);
            let (tc, rtc) = m.textured_color.stencil_blend(*s, *b);
            assert_eq!(*a, (0, expected));
            assert_eq!(*t, (1, expected));
            assert_eq!(*tc, (2, expected));
            assert_eq!(ra, stencil_ref(*s));
            assert_eq!(rt, ra);
            assert_eq!(rtc, ra);
            seen.push(*a);
            seen.push(*t);
            seen.push(*tc);
        }
    }
    assert_eq!(seen.len(), 90);
    for i in 0..seen.len() {
        for j in 0..i {
            assert_ne!(seen[i], seen[j]);
        }
    }
}
