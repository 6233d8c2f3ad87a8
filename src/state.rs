use vstd::prelude::*;

verus! {

/// Blend equation selected by a draw state.
#[derive(Clone, Copy, Debug, PartialEq, Eq, Structural)]
pub enum Blend {
    Alpha,
    Add,
    Lighter,
    Multiply,
    Invert,
}

/// Stencil operation selected by a draw state.
///
/// `Clip`, `Inside` and `Outside` carry the clip level used as the stencil
/// reference value.
#[derive(Clone, Copy, Debug, PartialEq, Eq, Structural)]
pub enum Stencil {
    Clip(u8),
    Inside(u8),
    Outside(u8),
    Increment,
}

/// A scissor rectangle in pixels: origin `(x, y)`, width `w`, height `h`.
#[derive(Clone, Copy, Debug, PartialEq, Eq, Structural)]
pub struct ScissorRect {
    pub x: u32,
    pub y: u32,
    pub w: u32,
    pub h: u32,
}

/// Blend, stencil and scissor settings shared by a set of triangles.
#[derive(Clone, Copy, Debug, PartialEq, Eq, Structural)]
pub struct DrawState {
    pub scissor: Option<ScissorRect>,
    pub stencil: Option<Stencil>,
    pub blend: Option<Blend>,
}

/// The scissor rectangle handed to the rasterizer, in 16-bit pixel units.
#[derive(Clone, Copy, Debug, PartialEq, Eq, Structural)]
pub struct PixelRect {
    pub x: u16,
    pub y: u16,
    pub w: u16,
    pub h: u16,
}

pub open spec fn low16(v: u32) -> u16 {
    (v % 65536) as u16
}

/// The rasterizer rectangle for a scissor setting: unbounded when there is
/// none, else the rectangle itself with each field cut to its low 16 bits.
/// No flip of the vertical axis is made.
pub open spec fn spec_pixel_rect(scissor: Option<ScissorRect>) -> PixelRect {
    match scissor {
        None => PixelRect { x: 0, y: 0, w: 0xffff, h: 0xffff },
        Some(r) => PixelRect { x: low16(r.x), y: low16(r.y), w: low16(r.w), h: low16(r.h) },
    }
}

pub open spec fn spec_alpha_state() -> DrawState {
    DrawState { scissor: None, stencil: None, blend: Some(Blend::Alpha) }
}

impl DrawState {
    /// Alpha blending, no stencil test and no scissor.
    pub fn new_alpha() -> (r: DrawState)
        ensures
            r == spec_alpha_state(),
    {
        DrawState { scissor: None, stencil: None, blend: Some(Blend::Alpha) }
    }

    /// The rasterizer rectangle for this state's scissor setting.
    pub fn pixel_rect(&self) -> (r: PixelRect)
        ensures
            r == spec_pixel_rect(self.scissor),
    {
        match self.scissor {
            None => PixelRect { x: 0, y: 0, w: 0xffff, h: 0xffff },
            Some(r) => PixelRect {
                x: (r.x % 65536) as u16,
                y: (r.y % 65536) as u16,
                w: (r.w % 65536) as u16,
                h: (r.h % 65536) as u16,
            },
        }
    }
}

} // verus!
