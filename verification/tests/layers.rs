use petpet::avatar::{AvatarBuilder, AvatarDrawOp, AvatarModel, FrameSet};
use petpet::error::Error;
use petpet::filter::{AvatarBulgeFilter, AvatarFilter};
use petpet::template;
use petpet::template::{
    AvatarCropType, AvatarStyle, AvatarTemplate, AvatarType, CropPos, PosDimension, PosItem,
    TextData, TransformOrigin,
};
use petpet::text::{TextAlign, TextBuilder, TextMetrics, TextPos, TextStyle, TextTemplate, TextWrap};

fn zoom_avatar(rects: Vec<Vec<i32>>) -> AvatarTemplate {
    AvatarTemplate {
        _type: AvatarType::TO,
        pos: PosDimension::P2D(
            rects
                .into_iter()
                .map(|r| r.into_iter().map(PosItem::Num).collect())
                .collect(),
        ),
        pos_type: template::pos_type_default(),
        crop: template::crop_default(),
        crop_type: template::crop_type_default(),
        style: template::style_default(),
        filter: Vec::new(),
        fit: template::fit_default(),
        round: template::round_default(),
        rotate: template::rotate_default(),
        origin: template::origin_default(),
        avatar_on_top: template::avatar_on_top_default(),
        antialias: template::antialias_default(),
        resampling: template::resampling_default(),
        angle: template::angle_default(),
        opacity: template::opacity_default(),
    }
}

fn text_layer(text: &str) -> TextTemplate {
    TextTemplate {
        text: text.to_owned(),
        pos: TextPos::XY(10, 20),
        size: petpet::text::size_default(),
        angle: petpet::text::angle_default(),
        align: petpet::text::align_default(),
        color: petpet::text::color_default(),
        font: petpet::text::font_default(),
        style: petpet::text::style_default(),
        wrap: petpet::text::wrap_default(),
        stroke_color: petpet::text::stroke_color_default(),
        stroke_size: petpet::text::stroke_size_default(),
        origin: petpet::text::origin_default(),
    }
}

fn metrics() -> TextMetrics {
    TextMetrics { height: 30, max_intrinsic_width: 120, max_width: 100, alphabetic_baseline: 24 }
}

#[test]
fn legacy_styles_fold_into_the_filter_chain() {
    let mut t = zoom_avatar(vec![vec![0, 0, 10, 10]]);
    t.style = vec![AvatarStyle::GRAY, AvatarStyle::MIRROR, AvatarStyle::BINARIZATION];
    let b = AvatarBuilder::new(t).unwrap();
    let folded = &b.built_template.raw.filter;
    assert_eq!(folded.len(), 2);
    assert!(matches!(folded[0], AvatarFilter::GRAY));
    assert!(matches!(folded[1], AvatarFilter::BINARIZE));
}

#[test]
fn a_width_height_crop_is_anchored_at_the_origin() {
    let mut t = zoom_avatar(vec![vec![0, 0, 10, 10]]);
    t.crop_type = AvatarCropType::PIXEL;
    t.crop = Some(CropPos::WH(30, 40));
    let b = AvatarBuilder::new(t).unwrap();
    match b.built_template.raw.crop {
        Some(CropPos::XYXY(0, 0, 30, 40)) => (),
        _ => panic!("the crop box must be anchored at the origin"),
    }
}

#[test]
fn a_declared_crop_type_without_a_region_is_rejected() {
    let mut t = zoom_avatar(vec![vec![0, 0, 10, 10]]);
    t.crop_type = AvatarCropType::PERCENT;
    match AvatarBuilder::new(t) {
        Err(Error::TemplateError(_)) => (),
        _ => panic!("a template error was expected"),
    }
}

#[test]
fn percent_crops_resolve_against_the_source_size() {
    let mut t = zoom_avatar(vec![vec![0, 0, 10, 10]]);
    t.crop_type = AvatarCropType::PERCENT;
    t.crop = Some(CropPos::XYXY(25, 25, 75, 100));
    let b = AvatarBuilder::new(t).unwrap();
    let frames = FrameSet { width: 200, height: 80, count: 1, delay: 0 };
    let m = AvatarModel::new(&b.built_template, &frames).unwrap();
    assert_eq!(m.src_rect, Some((50, 20, 100, 60)));
    assert_eq!(m.get_size(), (100, 60));
}

#[test]
fn deform_declared_as_flat_geometry_is_rejected() {
    let mut t = zoom_avatar(vec![vec![0, 0, 10, 10]]);
    t.pos_type = petpet::template::AvatarPosType::DEFORM;
    t.pos = PosDimension::P1D(vec![PosItem::Num(0); 4]);
    match AvatarBuilder::new(t) {
        Err(Error::TemplateError(_)) => (),
        _ => panic!("a template error was expected"),
    }
}

#[test]
fn filters_expand_the_frame_count() {
    let mut t = zoom_avatar(vec![vec![0, 0, 10, 10]]);
    t.filter = vec![AvatarFilter::BULGE(AvatarBulgeFilter {
        radius: vec![0],
        strength: vec![500, -500],
        x: vec![500],
        y: vec![500],
    })];
    let b = AvatarBuilder::new(t).unwrap();
    assert_eq!(b.built_template.max_length, 2);
    let frames = FrameSet { width: 10, height: 10, count: 1, delay: 0 };
    let m = AvatarModel::new(&b.built_template, &frames).unwrap();
    assert_eq!(m.get_length(), 2);
}

#[test]
fn an_empty_filter_parameter_sequence_is_rejected() {
    let mut t = zoom_avatar(vec![vec![0, 0, 10, 10]]);
    t.filter = vec![AvatarFilter::BULGE(AvatarBulgeFilter {
        radius: vec![0],
        strength: Vec::new(),
        x: vec![500],
        y: vec![500],
    })];
    match AvatarBuilder::new(t) {
        Err(Error::TemplateError(_)) => (),
        _ => panic!("a template error was expected"),
    }
}

#[test]
fn text_substitution_runs_at_binding_time() {
    let b = TextBuilder::new(text_layer("hi $from")).unwrap();
    let d = TextData {
        from: "Ada".to_owned(),
        to: template::to_default(),
        group: template::group_default(),
        text_list: template::text_list_default(),
    };
    let model = b.build(&d);
    assert_eq!(model.text, "hi Ada");
}

#[test]
fn transparent_fill_drops_the_fill_pass() {
    let mut t = text_layer("x");
    t.color = "#00000000".to_owned();
    t.stroke_size = 4;
    t.stroke_color = "#ff0000".to_owned();
    let b = TextBuilder::new(t).unwrap();
    assert!(b.built_template.fill_paint.is_none());
    let sp = b.built_template.stroke_paint.unwrap();
    assert_eq!(sp.width, 2);
    assert_eq!(sp.color.r, 255);
}

#[test]
fn the_angle_normalizes_modulo_a_turn() {
    let mut t = text_layer("x");
    t.angle = 725;
    let b = TextBuilder::new(t).unwrap();
    assert_eq!(b.built_template.raw.angle, 5);
    let mut t2 = text_layer("x");
    t2.angle = -370;
    let b2 = TextBuilder::new(t2).unwrap();
    assert_eq!(b2.built_template.raw.angle, -10);
}

#[test]
fn left_aligned_text_takes_the_remaining_canvas_width() {
    let b = TextBuilder::new(text_layer("words")).unwrap();
    let model = b.build(&TextData {
        from: template::from_default(),
        to: template::to_default(),
        group: template::group_default(),
        text_list: template::text_list_default(),
    });
    let op = model.draw_plan(&b.built_template, 300, &metrics());
    assert_eq!(op.layout_width, 290);
    assert_eq!(op.font_size, 24);
    assert_eq!((op.paint_x, op.paint_y), (10, 20 - 24));
    assert!(op.rotate.is_none());
}

#[test]
fn shrink_to_fit_recomputes_the_font_size() {
    let mut t = text_layer("words");
    t.wrap = TextWrap::ZOOM;
    t.pos = TextPos::XYW(0, 0, 60);
    let b = TextBuilder::new(t).unwrap();
    let model = b.build(&TextData {
        from: template::from_default(),
        to: template::to_default(),
        group: template::group_default(),
        text_list: template::text_list_default(),
    });
    let op = model.draw_plan(&b.built_template, 300, &metrics());
    assert_eq!(op.layout_width, 60);
    assert_eq!(op.font_size, 24 * 60 / 120);
}

#[test]
fn centered_rotation_pivots_about_the_block_center() {
    let mut t = text_layer("x");
    t.angle = 45;
    t.origin = TransformOrigin::CENTER;
    t.pos = TextPos::XYW(10, 20, 80);
    t.align = TextAlign::CENTER;
    t.style = TextStyle::BOLD;
    let b = TextBuilder::new(t).unwrap();
    let model = b.build(&TextData {
        from: template::from_default(),
        to: template::to_default(),
        group: template::group_default(),
        text_list: template::text_list_default(),
    });
    let op = model.draw_plan(&b.built_template, 300, &metrics());
    let rot = op.rotate.unwrap();
    assert_eq!(rot.angle, 45);
    assert_eq!(rot.px, 10 + 40);
    assert_eq!(rot.py, 20 + 15);
    assert_eq!((op.paint_x, op.paint_y), (10 - 50, 20 - 15));
}

#[test]
fn deform_avatars_draw_projective_quads() {
    let mut t = zoom_avatar(vec![]);
    t.pos_type = petpet::template::AvatarPosType::DEFORM;
    t.pos = PosDimension::P3D(vec![vec![
        vec![PosItem::Num(0), PosItem::Num(0)],
        vec![PosItem::Num(0), PosItem::Num(8)],
        vec![PosItem::Num(8), PosItem::Num(8)],
        vec![PosItem::Num(8), PosItem::Num(0)],
        vec![PosItem::Num(50), PosItem::Num(60)],
    ]]);
    let b = AvatarBuilder::new(t).unwrap();
    let frames = FrameSet { width: 16, height: 16, count: 2, delay: 0 };
    let m = AvatarModel::new(&b.built_template, &frames).unwrap();
    match m.draw(3) {
        AvatarDrawOp::Deform(d) => {
            assert_eq!(d.frame, 1);
            assert_eq!(d.quad, ((50, 60), (50, 68), (58, 68), (58, 60)));
        },
        _ => panic!("a deform draw was expected"),
    }
}

#[test]
fn mirror_rotation_and_opacity_reach_the_draw_op() {
    let mut t = zoom_avatar(vec![vec![10, 20, 30, 40]]);
    t.style = vec![AvatarStyle::MIRROR];
    t.angle = 90;
    t.origin = TransformOrigin::CENTER;
    t.opacity = 500;
    let b = AvatarBuilder::new(t).unwrap();
    let frames = FrameSet { width: 16, height: 16, count: 1, delay: 0 };
    let m = AvatarModel::new(&b.built_template, &frames).unwrap();
    match m.draw(0) {
        AvatarDrawOp::Zoom(z) => {
            assert!(z.mirror);
            assert!(!z.flip);
            assert!(z.has_rotation);
            assert_eq!(z.rotate_angle, 90);
            assert_eq!((z.pivot_x, z.pivot_y), (10 + 15, 20 + 20));
            assert_eq!(z.alpha, 127);
        },
        _ => panic!("a zoom draw was expected"),
    }
}

#[test]
fn expression_geometry_resolves_against_the_source_size() {
    let mut t = zoom_avatar(vec![]);
    t.pos = PosDimension::P2D(vec![vec![
        PosItem::Expr("width / 2".to_owned()),
        PosItem::Num(0),
        PosItem::Expr("height * 2".to_owned()),
        PosItem::Num(10),
    ]]);
    let b = AvatarBuilder::new(t).unwrap();
    let frames = FrameSet { width: 80, height: 30, count: 1, delay: 0 };
    let m = AvatarModel::new(&b.built_template, &frames).unwrap();
    match m.draw(0) {
        AvatarDrawOp::Zoom(z) => {
            assert_eq!(z.mapping.dst, (40, 0, 60, 10));
        },
        _ => panic!("a zoom draw was expected"),
    }
}
