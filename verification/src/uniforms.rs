//! The uniform-setting stage of the drawing pipeline.
//!
//! Between accumulating vertices and issuing the draw call, a batch picks
//! up uniform values: a colour, an offset, and optionally a texture.  Which
//! shader program the draw call must bind follows from the shape family of
//! the batch and from whether a texture was attached; that decision is made
//! here.

use vstd::prelude::*;

verus! {

/// The shape family of a vertex batch at the uniform-setting stage, and
/// whether a texture was attached to it.
#[derive(Copy, Clone, Debug, PartialEq, Eq, Structural)]
pub enum BatchKind {
    /// Point sprites; these always carry their texture.
    Sprite,
    /// Squares, rectangles, lines and arrows.
    Regular { textured: bool },
    /// Circles, which need their own fragment shader to discard the
    /// corners of each point.
    Circle { textured: bool },
}

/// The shader programs the canvas owns; a draw call binds exactly one.
#[derive(Copy, Clone, Debug, PartialEq, Eq, Structural)]
pub enum ProgramSelect {
    /// The point-sprite program.
    Sprite,
    /// The textured shape program.
    TexturedShape,
    /// The plain shape program.
    Regular,
    /// The textured circle program.
    TexturedCircle,
    /// The plain circle program.
    Circle,
}

/// The program a batch of the given kind is drawn by: sprites by the
/// sprite program, shapes and circles by their textured variants exactly
/// when a texture was attached.
pub open spec fn chosen_program(kind: BatchKind) -> ProgramSelect {
    match kind {
        BatchKind::Sprite => ProgramSelect::Sprite,
        BatchKind::Regular { textured } => {
            if textured {
                ProgramSelect::TexturedShape
            } else {
                ProgramSelect::Regular
            }
        },
        BatchKind::Circle { textured } => {
            if textured {
                ProgramSelect::TexturedCircle
            } else {
                ProgramSelect::Circle
            }
        },
    }
}

/// Decides which shader program the draw call for a batch must bind.
pub fn select_program(kind: BatchKind) -> (program: ProgramSelect)
    ensures
        program == chosen_program(kind),
{
    match kind {
        BatchKind::Sprite => ProgramSelect::Sprite,
        BatchKind::Regular { textured } => {
            if textured {
                ProgramSelect::TexturedShape
            } else {
                ProgramSelect::Regular
            }
        },
        BatchKind::Circle { textured } => {
            if textured {
                ProgramSelect::TexturedCircle
            } else {
                ProgramSelect::Circle
            }
        },
    }
}

} // verus!
