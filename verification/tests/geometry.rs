use petpet::error::Error;
use petpet::pos::{
    compile_pos, eval_background_size, eval_size, relative_to_absolute, CompiledNumberPosDimension,
};
use petpet::template::{PosDimension, PosItem};

fn num(n: i32) -> PosItem {
    PosItem::Num(n)
}

fn expr(s: &str) -> PosItem {
    PosItem::Expr(s.to_owned())
}

#[test]
fn literal_geometry_survives_evaluation_unchanged() {
    let pos = PosDimension::P2D(vec![vec![num(1), num(2), num(3), num(4)], vec![
        num(-5),
        num(6),
        num(7),
        num(8),
    ]]);
    let compiled = compile_pos(pos).unwrap();
    let out = eval_size((&compiled.0, &compiled.1), (640, 480)).unwrap();
    match out {
        CompiledNumberPosDimension::P2D(rows) => {
            assert_eq!(rows, vec![(1, 2, 3, 4), (-5, 6, 7, 8)]);
        },
        _ => panic!("zoom geometry expected"),
    }
    let out2 = eval_size((&compiled.0, &compiled.1), (1, 1)).unwrap();
    match out2 {
        CompiledNumberPosDimension::P2D(rows) => {
            assert_eq!(rows, vec![(1, 2, 3, 4), (-5, 6, 7, 8)]);
        },
        _ => panic!("zoom geometry expected"),
    }
}

#[test]
fn deform_corners_are_anchor_plus_offset() {
    let anchor = (10, 20);
    let offsets = [(0, 0), (0, 5), (7, 5), (7, 0)];
    let quad = relative_to_absolute((offsets[0], offsets[1], offsets[2], offsets[3], anchor));
    assert_eq!(quad.0, (10, 20));
    assert_eq!(quad.1, (10, 25));
    assert_eq!(quad.2, (17, 25));
    assert_eq!(quad.3, (17, 20));
}

#[test]
fn deform_geometry_compiles_to_absolute_quads() {
    let pos = PosDimension::P3D(vec![vec![
        vec![num(0), num(0)],
        vec![num(0), num(10)],
        vec![num(10), num(10)],
        vec![num(10), num(0)],
        vec![num(100), num(200)],
    ]]);
    let compiled = compile_pos(pos).unwrap();
    match compiled.0 {
        CompiledNumberPosDimension::P3D(quads) => {
            assert_eq!(quads.len(), 1);
            assert_eq!(quads[0], ((100, 200), (100, 210), (110, 210), (110, 200)));
        },
        _ => panic!("deform geometry expected"),
    }
}

#[test]
fn zoom_row_of_wrong_arity_is_a_template_error() {
    let pos = PosDimension::P2D(vec![vec![num(1), num(2), num(3)]]);
    match compile_pos(pos) {
        Err(Error::TemplateError(_)) => (),
        _ => panic!("a template error was expected"),
    }
}

#[test]
fn malformed_expression_is_a_template_error() {
    let pos = PosDimension::P2D(vec![vec![expr("(("), num(0), num(1), num(1)]]);
    match compile_pos(pos) {
        Err(Error::TemplateError(_)) => (),
        _ => panic!("a template error was expected"),
    }
}

#[test]
fn width_expression_evaluates_against_the_frame_size() {
    let pos = PosDimension::P2D(vec![vec![expr("width / 2"), num(0), expr("height + 3"), num(9)]]);
    let compiled = compile_pos(pos).unwrap();
    let out = eval_size((&compiled.0, &compiled.1), (200, 100)).unwrap();
    match out {
        CompiledNumberPosDimension::P2D(rows) => {
            assert_eq!(rows, vec![(100, 0, 103, 9)]);
        },
        _ => panic!("zoom geometry expected"),
    }
}

#[test]
fn unknown_variable_is_an_evaluation_error() {
    let pos = PosDimension::P2D(vec![vec![expr("depth + 1"), num(0), num(1), num(1)]]);
    let compiled = compile_pos(pos).unwrap();
    match eval_size((&compiled.0, &compiled.1), (10, 10)) {
        Err(Error::EvalPosError(_)) => (),
        _ => panic!("an evaluation error was expected"),
    }
}

#[test]
fn background_size_sees_avatar_and_text_sizes() {
    let size = (expr("avatar0Width + 20"), expr("text0Height * 2"));
    let compiled = petpet::pos::compile_size(&size).unwrap();
    let out = eval_background_size(&compiled, &vec![(100, 50)], &vec![(30, 40)]).unwrap();
    assert_eq!(out, (120, 80));
}

#[test]
fn background_size_literals_stay() {
    let size = (num(320), num(240));
    let compiled = petpet::pos::compile_size(&size).unwrap();
    let out = eval_background_size(&compiled, &vec![], &vec![]).unwrap();
    assert_eq!(out, (320, 240));
}

#[test]
fn whitespace_only_expression_is_a_template_error() {
    for s in [" ", "\t", "\n", "  \r\n "] {
        let pos = PosDimension::P2D(vec![vec![expr(s), num(0), num(1), num(1)]]);
        match compile_pos(pos) {
            Err(Error::TemplateError(_)) => (),
            _ => panic!("a template error was expected"),
        }
    }
    let pos = PosDimension::P2D(vec![vec![expr(""), num(0), num(1), num(1)]]);
    match compile_pos(pos) {
        Err(Error::TemplateError(_)) => (),
        _ => panic!("a template error was expected"),
    }
}
