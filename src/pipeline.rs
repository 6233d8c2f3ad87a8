use vstd::prelude::*;
use crate::state::{Blend, Stencil};

verus! {

/// The blend equation a pipeline is compiled with.
///
/// `Replace` writes the source unchanged (source factor one, destination
/// factor zero); it stands for "no blending" so that every pipeline is built
/// the same way.
#[derive(Clone, Copy, Debug, PartialEq, Eq, Structural)]
pub enum BlendEquation {
    Alpha,
    Add,
    Lighter,
    Multiply,
    Invert,
    Replace,
}

/// The row of the pipeline table a stencil setting selects.
#[derive(Clone, Copy, Debug, PartialEq, Eq, Structural)]
pub enum StencilKind {
    NoTest,
    Clip,
    Inside,
    Outside,
    Increment,
}

/// Stencil comparison function.
#[derive(Clone, Copy, Debug, PartialEq, Eq, Structural)]
pub enum Comparison {
    Always,
    Never,
    Equal,
    NotEqual,
}

/// Stencil buffer update.
#[derive(Clone, Copy, Debug, PartialEq, Eq, Structural)]
pub enum StencilOp {
    Keep,
    Replace,
    IncrementClamp,
}

/// A stencil test: comparison, mask, and the updates applied when the
/// stencil test fails, when the depth test fails, and when both pass.
#[derive(Clone, Copy, Debug, PartialEq, Eq, Structural)]
pub struct StencilTest {
    pub comparison: Comparison,
    pub mask: u8,
    pub on_fail: StencilOp,
    pub on_depth_fail: StencilOp,
    pub on_pass: StencilOp,
}

/// Whether a pipeline writes the color channels.
#[derive(Clone, Copy, Debug, PartialEq, Eq, Structural)]
pub enum ColorMask {
    All,
    Nothing,
}

/// The fixed-function settings one pipeline is compiled with.
#[derive(Clone, Copy, Debug, PartialEq, Eq, Structural)]
pub struct PipelineConfig {
    pub blend: BlendEquation,
    pub stencil: StencilTest,
    pub color_mask: ColorMask,
}

pub open spec fn spec_blend_equation(blend: Option<Blend>) -> BlendEquation {
    match blend {
        Some(Blend::Alpha) => BlendEquation::Alpha,
        Some(Blend::Add) => BlendEquation::Add,
        Some(Blend::Lighter) => BlendEquation::Lighter,
        Some(Blend::Multiply) => BlendEquation::Multiply,
        Some(Blend::Invert) => BlendEquation::Invert,
        None => BlendEquation::Replace,
    }
}

pub open spec fn spec_stencil_kind(stencil: Option<Stencil>) -> StencilKind {
    match stencil {
        None => StencilKind::NoTest,
        Some(Stencil::Clip(_)) => StencilKind::Clip,
        Some(Stencil::Inside(_)) => StencilKind::Inside,
        Some(Stencil::Outside(_)) => StencilKind::Outside,
        Some(Stencil::Increment) => StencilKind::Increment,
    }
}

/// The stencil reference value: the clip level for `Clip`, `Inside` and
/// `Outside`, zero otherwise.
pub open spec fn spec_stencil_ref(stencil: Option<Stencil>) -> u8 {
    match stencil {
        Some(Stencil::Clip(v)) => v,
        Some(Stencil::Inside(v)) => v,
        Some(Stencil::Outside(v)) => v,
        _ => 0,
    }
}

pub open spec fn keep_test(comparison: Comparison, mask: u8) -> StencilTest {
    StencilTest {
        comparison,
        mask,
        on_fail: StencilOp::Keep,
        on_depth_fail: StencilOp::Keep,
        on_pass: StencilOp::Keep,
    }
}

/// The stencil test of each row. `Clip` and `Increment` never pass and only
/// update the stencil buffer; `Inside` and `Outside` compare against the
/// reference value.
pub open spec fn spec_stencil_test(kind: StencilKind) -> StencilTest {
    match kind {
        StencilKind::NoTest => keep_test(Comparison::Always, 0),
        StencilKind::Clip => StencilTest { on_fail: StencilOp::Replace, ..keep_test(Comparison::Never, 255) },
        StencilKind::Inside => keep_test(Comparison::Equal, 255),
        StencilKind::Outside => keep_test(Comparison::NotEqual, 255),
        StencilKind::Increment => StencilTest {
            on_fail: StencilOp::IncrementClamp,
            ..keep_test(Comparison::Never, 255)
        },
    }
}

/// Drawing a clip shape writes only the stencil buffer.
pub open spec fn spec_color_mask(kind: StencilKind) -> ColorMask {
    if kind == StencilKind::Clip {
        ColorMask::Nothing
    } else {
        ColorMask::All
    }
}

/// The settings of the pipeline at row `kind`, column `blend`.
pub open spec fn spec_config(kind: StencilKind, blend: Option<Blend>) -> PipelineConfig {
    PipelineConfig {
        blend: spec_blend_equation(blend),
        stencil: spec_stencil_test(kind),
        color_mask: spec_color_mask(kind),
    }
}

/// The settings of the pipeline a draw state's stencil and blend select.
pub open spec fn spec_config_for(stencil: Option<Stencil>, blend: Option<Blend>) -> PipelineConfig {
    spec_config(spec_stencil_kind(stencil), blend)
}

/// The stencil reference value a stencil setting uses.
pub fn stencil_ref(stencil: Option<Stencil>) -> (r: u8)
    ensures
        r == spec_stencil_ref(stencil),
{
    match stencil {
        Some(Stencil::Clip(v)) => v,
        Some(Stencil::Inside(v)) => v,
        Some(Stencil::Outside(v)) => v,
        _ => 0,
    }
}

/// The settings of the pipeline at row `kind`, column `blend`.
pub fn pipeline_config(kind: StencilKind, blend: Option<Blend>) -> (r: PipelineConfig)
    ensures
        r == spec_config(kind, blend),
{
    let equation = match blend {
        Some(Blend::Alpha) => BlendEquation::Alpha,
        Some(Blend::Add) => BlendEquation::Add,
        Some(Blend::Lighter) => BlendEquation::Lighter,
        Some(Blend::Multiply) => BlendEquation::Multiply,
        Some(Blend::Invert) => BlendEquation::Invert,
        None => BlendEquation::Replace,
    };
    let keep = StencilOp::Keep;
    let stencil = match kind {
        StencilKind::NoTest => StencilTest {
            comparison: Comparison::Always,
            mask: 0,
            on_fail: keep,
            on_depth_fail: keep,
            on_pass: keep,
        },
        StencilKind::Clip => StencilTest {
            comparison: Comparison::Never,
            mask: 255,
            on_fail: StencilOp::Replace,
            on_depth_fail: keep,
            on_pass: keep,
        },
        StencilKind::Inside => StencilTest {
            comparison: Comparison::Equal,
            mask: 255,
            on_fail: keep,
            on_depth_fail: keep,
            on_pass: keep,
        },
        StencilKind::Outside => StencilTest {
            comparison: Comparison::NotEqual,
            mask: 255,
            on_fail: keep,
            on_depth_fail: keep,
            on_pass: keep,
        },
        StencilKind::Increment => StencilTest {
            comparison: Comparison::Never,
            mask: 255,
            on_fail: StencilOp::IncrementClamp,
            on_depth_fail: keep,
            on_pass: keep,
        },
    };
    let color_mask = match kind {
        StencilKind::Clip => ColorMask::Nothing,
        _ => ColorMask::All,
    };
    PipelineConfig { blend: equation, stencil, color_mask }
}

/// One compiled pipeline per blend setting.
pub struct PsoBlend<T> {
    pub alpha: T,
    pub add: T,
    pub lighter: T,
    pub multiply: T,
    pub invert: T,
    pub none: T,
}

impl<T> PsoBlend<T> {
    /// The entry for a blend setting.
    pub open spec fn entry(&self, blend: Option<Blend>) -> T {
        match blend {
            Some(Blend::Alpha) => self.alpha,
            Some(Blend::Add) => self.add,
            Some(Blend::Lighter) => self.lighter,
            Some(Blend::Multiply) => self.multiply,
            Some(Blend::Invert) => self.invert,
            None => self.none,
        }
    }

    /// Compiles the six entries of row `kind` with `compile`.
    pub fn new<F: Fn(PipelineConfig) -> T>(kind: StencilKind, compile: &F) -> (r: PsoBlend<T>)
        requires
            forall|c: PipelineConfig| compile.requires((c,)),
        ensures
            forall|b: Option<Blend>| compile.ensures((spec_config(kind, b),), #[trigger] r.entry(b)),
    {
        let alpha = compile(pipeline_config(kind, Some(Blend::Alpha)));
        let add = compile(pipeline_config(kind, Some(Blend::Add)));
        let lighter = compile(pipeline_config(kind, Some(Blend::Lighter)));
        let multiply = compile(pipeline_config(kind, Some(Blend::Multiply)));
        let invert = compile(pipeline_config(kind, Some(Blend::Invert)));
        let none = compile(pipeline_config(kind, None));
        PsoBlend { alpha, add, lighter, multiply, invert, none }
    }

    /// The pipeline for a blend setting.
    pub fn blend(&self, blend: Option<Blend>) -> (r: &T)
        ensures
            *r == self.entry(blend),
    {
        match blend {
            Some(Blend::Alpha) => &self.alpha,
            Some(Blend::Add) => &self.add,
            Some(Blend::Lighter) => &self.lighter,
            Some(Blend::Multiply) => &self.multiply,
            Some(Blend::Invert) => &self.invert,
            None => &self.none,
        }
    }
}

/// One `PsoBlend` per stencil setting: the pipeline table of one shading kind.
pub struct PsoStencil<T> {
    pub none: PsoBlend<T>,
    pub clip: PsoBlend<T>,
    pub inside: PsoBlend<T>,
    pub outside: PsoBlend<T>,
    pub increment: PsoBlend<T>,
}

impl<T> PsoStencil<T> {
    pub open spec fn row(&self, kind: StencilKind) -> PsoBlend<T> {
        match kind {
            StencilKind::NoTest => self.none,
            StencilKind::Clip => self.clip,
            StencilKind::Inside => self.inside,
            StencilKind::Outside => self.outside,
            StencilKind::Increment => self.increment,
        }
    }

    /// The entry at row `kind`, column `blend`.
    pub open spec fn entry(&self, kind: StencilKind, blend: Option<Blend>) -> T {
        self.row(kind).entry(blend)
    }

    /// Every entry is what `compile` returned for that entry's settings.
    pub open spec fn compiled_by<F: Fn(PipelineConfig) -> T>(&self, compile: F) -> bool {
        forall|k: StencilKind, b: Option<Blend>|
            compile.ensures((spec_config(k, b),), #[trigger] self.entry(k, b))
    }

    /// Compiles all thirty entries, one per stencil row and blend column.
    pub fn new<F: Fn(PipelineConfig) -> T>(compile: &F) -> (r: PsoStencil<T>)
        requires
            forall|c: PipelineConfig| compile.requires((c,)),
        ensures
            r.compiled_by(*compile),
    {
        let none = PsoBlend::new(StencilKind::NoTest, compile);
        let clip = PsoBlend::new(StencilKind::Clip, compile);
        let inside = PsoBlend::new(StencilKind::Inside, compile);
        let outside = PsoBlend::new(StencilKind::Outside, compile);
        let increment = PsoBlend::new(StencilKind::Increment, compile);
        let r = PsoStencil { none, clip, inside, outside, increment };
        assert forall|k: StencilKind, b: Option<Blend>|
            compile.ensures((spec_config(k, b),), #[trigger] r.entry(k, b)) by {
            match k {
                StencilKind::NoTest => assert(compile.ensures((spec_config(k, b),), none.entry(b))),
                StencilKind::Clip => assert(compile.ensures((spec_config(k, b),), clip.entry(b))),
                StencilKind::Inside => assert(compile.ensures((spec_config(k, b),), inside.entry(b))),
                StencilKind::Outside => assert(compile.ensures((spec_config(k, b),), outside.entry(b))),
                StencilKind::Increment => assert(compile.ensures((spec_config(k, b),), increment.entry(b))),
            }
        }
        r
    }

    /// The pipeline and stencil reference value for a stencil and blend
    /// setting. Every combination has an entry.
    pub fn stencil_blend(&self, stencil: Option<Stencil>, blend: Option<Blend>) -> (r: (&T, u8))
        ensures
            *r.0 == self.entry(spec_stencil_kind(stencil), blend),
            r.1 == spec_stencil_ref(stencil),
    {
        match stencil {
            None => (self.none.blend(blend), 0),
            Some(Stencil::Clip(v)) => (self.clip.blend(blend), v),
            Some(Stencil::Inside(v)) => (self.inside.blend(blend), v),
            Some(Stencil::Outside(v)) => (self.outside.blend(blend), v),
            Some(Stencil::Increment) => (self.increment.blend(blend), 0),
        }
    }
}

/// The pipeline tables of the three shading kinds: colored triangles,
/// textured triangles with one color, and textured triangles with a color
/// per vertex.
pub struct PipelineMatrix<A, B, C> {
    pub colored: PsoStencil<A>,
    pub textured: PsoStencil<B>,
    pub textured_color: PsoStencil<C>,
}

impl<A, B, C> PipelineMatrix<A, B, C> {
    /// Each table was compiled entry by entry with its own function.
    pub open spec fn compiled_by<FA: Fn(PipelineConfig) -> A, FB: Fn(PipelineConfig) -> B, FC: Fn(
        PipelineConfig,
    ) -> C>(&self, fa: FA, fb: FB, fc: FC) -> bool {
        &&& self.colored.compiled_by(fa)
        &&& self.textured.compiled_by(fb)
        &&& self.textured_color.compiled_by(fc)
    }

    /// Compiles the ninety pipelines: `fa` builds the colored table, `fb`
    /// the textured one and `fc` the textured table with per-vertex colors.
    pub fn new<FA: Fn(PipelineConfig) -> A, FB: Fn(PipelineConfig) -> B, FC: Fn(
        PipelineConfig,
    ) -> C>(fa: &FA, fb: &FB, fc: &FC) -> (r: Self)
        requires
            forall|c: PipelineConfig| fa.requires((c,)),
            forall|c: PipelineConfig| fb.requires((c,)),
            forall|c: PipelineConfig| fc.requires((c,)),
        ensures
            r.compiled_by(*fa, *fb, *fc),
    {
        PipelineMatrix {
            colored: PsoStencil::new(fa),
            textured: PsoStencil::new(fb),
            textured_color: PsoStencil::new(fc),
        }
    }
}

/// Every shading kind, blend setting and stencil setting selects a pipeline,
/// and it is the one compiled with the settings that combination asks for:
/// its blend equation, its stencil test and its color mask.
pub proof fn lemma_pipeline_totality<A, B, C, FA: Fn(PipelineConfig) -> A, FB: Fn(
    PipelineConfig,
) -> B, FC: Fn(PipelineConfig) -> C>(m: PipelineMatrix<A, B, C>, fa: FA, fb: FB, fc: FC)
    requires
        m.compiled_by(fa, fb, fc),
    ensures
        forall|stencil: Option<Stencil>, blend: Option<Blend>|
            #![trigger spec_config_for(stencil, blend)]
            {
                &&& fa.ensures((spec_config_for(stencil, blend),), m.colored.entry(spec_stencil_kind(stencil), blend))
                &&& fb.ensures((spec_config_for(stencil, blend),), m.textured.entry(spec_stencil_kind(stencil), blend))
                &&& fc.ensures(
                    (spec_config_for(stencil, blend),),
                    m.textured_color.entry(spec_stencil_kind(stencil), blend),
                )
            },
{
    assert forall|stencil: Option<Stencil>, blend: Option<Blend>|
        #![trigger spec_config_for(stencil, blend)]
        {
            &&& fa.ensures((spec_config_for(stencil, blend),), m.colored.entry(spec_stencil_kind(stencil), blend))
            &&& fb.ensures((spec_config_for(stencil, blend),), m.textured.entry(spec_stencil_kind(stencil), blend))
            &&& fc.ensures(
                (spec_config_for(stencil, blend),),
                m.textured_color.entry(spec_stencil_kind(stencil), blend),
            )
        } by {
        let k = spec_stencil_kind(stencil);
        assert(fa.ensures((spec_config(k, blend),), m.colored.entry(k, blend)));
        assert(fb.ensures((spec_config(k, blend),), m.textured.entry(k, blend)));
        assert(fc.ensures((spec_config(k, blend),), m.textured_color.entry(k, blend)));
    }
}

} // verus!
