use petpet::color::{parse_color, Color};
use petpet::error::Error;
use petpet::filter::{
    build_filter_plan, param_at, AvatarBlurFilter, AvatarBulgeFilter, AvatarContrastFilter,
    AvatarFilter, AvatarSwirlFilter, FilterPlan, ShaderKind,
};

fn swirl(radius: Vec<i32>, angle: Vec<i32>) -> AvatarFilter {
    AvatarFilter::SWIRL(AvatarSwirlFilter { radius, angle, x: vec![500], y: vec![500] })
}

fn bulge(strength: Vec<i32>) -> AvatarFilter {
    AvatarFilter::BULGE(AvatarBulgeFilter { radius: vec![0], strength, x: vec![500], y: vec![500] })
}

#[test]
fn colors_parse_to_their_channels() {
    assert_eq!(parse_color("#ff0000").unwrap(), Color { a: 255, r: 255, g: 0, b: 0 });
    assert_eq!(parse_color("#abc").unwrap(), Color { a: 255, r: 0xaa, g: 0xbb, b: 0xcc });
    assert_eq!(parse_color("#11223344").unwrap(), Color { a: 0x44, r: 0x11, g: 0x22, b: 0x33 });
    assert_eq!(parse_color("#00000000").unwrap(), Color { a: 0, r: 0, g: 0, b: 0 });
}

#[test]
fn a_color_without_hash_or_with_odd_digits_is_rejected() {
    match parse_color("ff0000") {
        Err(Error::TemplateError(_)) => (),
        _ => panic!("a template error was expected"),
    }
    match parse_color("#ff00f") {
        Err(Error::TemplateError(_)) => (),
        _ => panic!("a template error was expected"),
    }
    match parse_color("#ggg") {
        Err(Error::TemplateError(_)) => (),
        _ => panic!("a template error was expected"),
    }
}

#[test]
fn parameter_indexing_is_periodic() {
    let seq = vec![7, 11, 13];
    for k in 0..6usize {
        assert_eq!(param_at(&seq, k), param_at(&seq, k + seq.len()));
    }
    assert_eq!(param_at(&seq, 0), 7);
    assert_eq!(param_at(&seq, 4), 11);
}

#[test]
fn filter_plans_repeat_with_the_parameter_period() {
    let filters = vec![swirl(vec![1000], vec![100, 200])];
    let a = build_filter_plan(&filters, 1, 50, 50);
    let b = build_filter_plan(&filters, 3, 50, 50);
    match (a, b) {
        (FilterPlan::Shaders(sa), FilterPlan::Shaders(sb)) => {
            assert_eq!(sa.len(), 1);
            assert_eq!(sa[0].uniforms, sb[0].uniforms);
            assert_eq!(sa[0].uniforms[1], ("angle".to_owned(), 200));
        },
        _ => panic!("shader chains expected"),
    }
}

#[test]
fn bulge_strength_sign_picks_the_shader() {
    let filters = vec![bulge(vec![500, -500])];
    match build_filter_plan(&filters, 0, 100, 100) {
        FilterPlan::Shaders(steps) => assert_eq!(steps[0].kind, ShaderKind::Bulge),
        _ => panic!("a shader chain was expected"),
    }
    match build_filter_plan(&filters, 1, 100, 100) {
        FilterPlan::Shaders(steps) => assert_eq!(steps[0].kind, ShaderKind::Pinch),
        _ => panic!("a shader chain was expected"),
    }
}

#[test]
fn zero_radius_means_half_the_shorter_side() {
    let filters = vec![swirl(vec![0], vec![100])];
    match build_filter_plan(&filters, 0, 100, 80) {
        FilterPlan::Shaders(steps) => {
            assert_eq!(steps[0].uniforms[0], ("radius".to_owned(), 500 * 80));
        },
        _ => panic!("a shader chain was expected"),
    }
}

#[test]
fn x_and_y_scale_with_the_image() {
    let filters = vec![swirl(vec![4000], vec![100])];
    match build_filter_plan(&filters, 0, 200, 100) {
        FilterPlan::Shaders(steps) => {
            assert_eq!(steps[0].uniforms[2], ("x".to_owned(), 500i64 * 200));
            assert_eq!(steps[0].uniforms[3], ("y".to_owned(), 500i64 * 100));
        },
        _ => panic!("a shader chain was expected"),
    }
}

#[test]
fn a_blur_discards_the_rest_of_the_chain() {
    let filters = vec![
        AvatarFilter::CONTRAST(AvatarContrastFilter { brightness: vec![0], contrast: vec![100] }),
        AvatarFilter::BLUR(AvatarBlurFilter { radius: vec![7000] }),
        AvatarFilter::GRAY,
    ];
    match build_filter_plan(&filters, 0, 64, 64) {
        FilterPlan::Blur { radius } => assert_eq!(radius, 7000),
        _ => panic!("a blur plan was expected"),
    }
}

#[test]
fn max_length_is_the_longest_parameter_sequence() {
    assert_eq!(swirl(vec![0], vec![1, 2, 3]).max_length(), 3);
    assert_eq!(AvatarFilter::GRAY.max_length(), 1);
    assert_eq!(AvatarFilter::BINARIZE.max_length(), 1);
    assert_eq!(bulge(vec![1, 2]).max_length(), 2);
}
