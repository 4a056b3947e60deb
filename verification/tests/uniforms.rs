use egaku2d::uniforms::{select_program, BatchKind, ProgramSelect};

#[test]
fn sprites_use_the_sprite_program() {
    assert_eq!(select_program(BatchKind::Sprite), ProgramSelect::Sprite);
}

#[test]
fn plain_shapes_use_the_regular_program() {
    assert_eq!(
        select_program(BatchKind::Regular { textured: false }),
        ProgramSelect::Regular
    );
}

#[test]
fn textured_shapes_use_the_textured_shape_program() {
    assert_eq!(
        select_program(BatchKind::Regular { textured: true }),
        ProgramSelect::TexturedShape
    );
}

#[test]
fn plain_circles_use_the_circle_program() {
    assert_eq!(
        select_program(BatchKind::Circle { textured: false }),
        ProgramSelect::Circle
    );
}

#[test]
fn textured_circles_use_the_textured_circle_program() {
    assert_eq!(
        select_program(BatchKind::Circle { textured: true }),
        ProgramSelect::TexturedCircle
    );
}
