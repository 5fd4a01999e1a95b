use petpet::avatar::{AvatarData, AvatarDrawOp, FrameSet};
use petpet::filter::{AvatarBulgeFilter, AvatarFilter, FilterPlan, ShaderKind};
use petpet::encoder::{EncodeFormat, ImageEncoder};
use petpet::error::Error;
use petpet::petpet::{DrawOp, PetpetBuilder};
use petpet::template;
use petpet::template::{
    AvatarTemplate, AvatarType, BackgroundTemplate, PetpetTemplate, PetpetType, PosDimension,
    PosItem, TextData,
};

fn avatar(role: AvatarType, rects: Vec<Vec<i32>>) -> AvatarTemplate {
    AvatarTemplate {
        _type: role,
        pos: PosDimension::P2D(
            rects
                .into_iter()
                .map(|r| r.into_iter().map(PosItem::Num).collect())
                .collect(),
        ),
        pos_type: template::pos_type_default(),
        crop: template::crop_default(),
        crop_type: template::crop_type_default(),
        style: template::style_default(),
        filter: Vec::new(),
        fit: template::fit_default(),
        round: template::round_default(),
        rotate: template::rotate_default(),
        origin: template::origin_default(),
        avatar_on_top: template::avatar_on_top_default(),
        antialias: template::antialias_default(),
        resampling: template::resampling_default(),
        angle: template::angle_default(),
        opacity: template::opacity_default(),
    }
}

fn synthesized(width: i32, height: i32, color: &str, length: u16) -> BackgroundTemplate {
    BackgroundTemplate {
        size: (PosItem::Num(width), PosItem::Num(height)),
        color: color.to_owned(),
        length,
    }
}

fn recipe(avatars: Vec<AvatarTemplate>, background: Option<BackgroundTemplate>) -> PetpetTemplate {
    PetpetTemplate {
        _type: PetpetType::GIF,
        avatar: avatars,
        text: Vec::new(),
        background,
        delay: template::delay_default(),
        alias: template::alias_default(),
        in_random_list: template::in_random_list_default(),
        reverse: template::reverse_default(),
        hidden: template::hidden_default(),
    }
}

fn no_avatars() -> AvatarData {
    AvatarData { from: None, to: None, bot: None, group: None, random: Vec::new() }
}

#[test]
fn synthesized_background_yields_solid_frames() {
    let t = recipe(Vec::new(), Some(synthesized(4, 3, "#102030ff", 3)));
    let builder = PetpetBuilder::new(t, None, 0).unwrap();
    let plan = builder
        .build(&no_avatars(), &TextData::default(), &Vec::new(), Vec::new())
        .unwrap();
    assert_eq!(plan.canvas, (4, 3));
    assert_eq!(plan.backgrounds.len(), 3);
    for frame in &plan.backgrounds {
        assert_eq!(frame.width, 4);
        assert_eq!(frame.height, 3);
        assert_eq!(frame.rgba.len(), 4 * 4 * 3);
        for px in frame.rgba.chunks(4) {
            assert_eq!(px, [0x10, 0x20, 0x30, 0xff]);
        }
    }
    assert_eq!(plan.delay, 6);
}

#[test]
fn missing_required_role_fails_with_missing_data() {
    let t = recipe(
        vec![avatar(AvatarType::FROM, vec![vec![0, 0, 100, 100]])],
        Some(synthesized(100, 100, "#000000ff", 1)),
    );
    let builder = PetpetBuilder::new(t, None, 0).unwrap();
    let out = builder.build(&no_avatars(), &TextData::default(), &Vec::new(), Vec::new());
    match out {
        Err(Error::MissingDataError(_)) => (),
        _ => panic!("a missing-data error was expected"),
    }
}

#[test]
fn empty_avatar_source_fails_with_avatar_load() {
    let t = recipe(
        vec![avatar(AvatarType::TO, vec![vec![0, 0, 100, 100]])],
        Some(synthesized(100, 100, "#000000ff", 1)),
    );
    let builder = PetpetBuilder::new(t, None, 0).unwrap();
    let mut data = no_avatars();
    data.to = Some(FrameSet { width: 10, height: 10, count: 0, delay: 0 });
    match builder.build(&data, &TextData::default(), &Vec::new(), Vec::new()) {
        Err(Error::AvatarLoadError(_)) => (),
        _ => panic!("an avatar-load error was expected"),
    }
}

#[test]
fn still_scenario_draws_one_stretched_avatar() {
    let t = recipe(
        vec![avatar(AvatarType::TO, vec![vec![0, 0, 100, 100]])],
        Some(synthesized(100, 100, "#000000ff", 1)),
    );
    let builder = PetpetBuilder::new(t, None, 0).unwrap();
    let mut data = no_avatars();
    data.to = Some(FrameSet { width: 37, height: 53, count: 1, delay: 40 });
    let plan = builder
        .build(&data, &TextData::default(), &Vec::new(), Vec::new())
        .unwrap();
    assert_eq!(plan.backgrounds.len(), 1);
    assert_eq!(plan.frames.len(), 1);
    let ops = &plan.frames[0].ops;
    assert_eq!(ops.len(), 2);
    match &ops[0] {
        DrawOp::Background { frame } => assert_eq!(*frame, 0),
        _ => panic!("the background comes under top avatars"),
    }
    match &ops[1] {
        DrawOp::Avatar { index, on_top, op } => {
            assert_eq!(*index, 0);
            assert!(*on_top);
            match op {
                AvatarDrawOp::Zoom(z) => {
                    assert_eq!(z.frame, 0);
                    assert_eq!(z.mapping.dst, (0, 0, 100, 100));
                    assert!(z.mapping.src.is_none());
                    assert_eq!(z.alpha, 255);
                },
                _ => panic!("a zoom draw was expected"),
            }
        },
        _ => panic!("the avatar is drawn over the background"),
    }
    let encoder = ImageEncoder::new();
    let (bytes, format) = encoder.encode(&plan.backgrounds, plan.delay).unwrap();
    assert_eq!(format, EncodeFormat::PNG);
    assert_eq!(bytes.len(), 4 * 100 * 100);
}

#[test]
fn animated_avatar_broadcasts_a_single_background_frame() {
    let t = recipe(
        vec![avatar(AvatarType::TO, vec![vec![0, 0, 100, 100]])],
        Some(synthesized(100, 100, "#ff0000ff", 1)),
    );
    let builder = PetpetBuilder::new(t, None, 0).unwrap();
    let mut data = no_avatars();
    data.to = Some(FrameSet { width: 64, height: 64, count: 3, delay: 50 });
    let plan = builder
        .build(&data, &TextData::default(), &Vec::new(), Vec::new())
        .unwrap();
    assert_eq!(plan.backgrounds.len(), 3);
    assert_eq!(plan.frames.len(), 3);
    for f in 0..3usize {
        let ops = &plan.frames[f].ops;
        match &ops[1] {
            DrawOp::Avatar { op: AvatarDrawOp::Zoom(z), .. } => assert_eq!(z.frame, f),
            _ => panic!("a zoom draw was expected"),
        }
    }
    for frame in &plan.backgrounds {
        for px in frame.rgba.chunks(4) {
            assert_eq!(px, [0xff, 0x00, 0x00, 0xff]);
        }
    }
    assert_eq!(plan.delay, 5);
    let encoder = ImageEncoder::new();
    let (bytes, format) = encoder.encode(&plan.backgrounds, plan.delay).unwrap();
    assert_eq!(format, EncodeFormat::GIF);
    let mut options = gif::DecodeOptions::new();
    options.set_color_output(gif::ColorOutput::RGBA);
    let mut decoder = options.read_info(&bytes[..]).unwrap();
    let mut frames = 0;
    while let Some(frame) = decoder.read_next_frame().unwrap() {
        assert_eq!(frame.delay, 5);
        frames += 1;
    }
    assert_eq!(frames, 3);
}

#[test]
fn empty_frame_set_cannot_be_encoded() {
    let encoder = ImageEncoder::new();
    match encoder.encode(&Vec::new(), 10) {
        Err(Error::ImageEncodeError(_)) => (),
        _ => panic!("an encode error was expected"),
    }
}

#[test]
fn a_template_without_background_or_file_is_rejected() {
    let t = recipe(vec![avatar(AvatarType::TO, vec![vec![0, 0, 10, 10]])], None);
    match PetpetBuilder::new(t, None, 0) {
        Err(Error::TemplateError(_)) => (),
        _ => panic!("a template error was expected"),
    }
}

#[test]
fn bulge_scenario_alternates_bulge_and_pinch_frames() {
    let mut a = avatar(AvatarType::TO, vec![vec![0, 0, 100, 100]]);
    a.filter = vec![AvatarFilter::BULGE(AvatarBulgeFilter {
        radius: vec![0],
        strength: vec![500, -500],
        x: vec![500],
        y: vec![500],
    })];
    let t = recipe(vec![a], Some(synthesized(100, 100, "#000000ff", 1)));
    let builder = PetpetBuilder::new(t, None, 0).unwrap();
    let mut data = no_avatars();
    data.to = Some(FrameSet { width: 64, height: 64, count: 2, delay: 40 });
    let plan = builder
        .build(&data, &TextData::default(), &Vec::new(), Vec::new())
        .unwrap();
    assert_eq!(plan.frames.len(), 2);
    assert_eq!(plan.avatars.len(), 1);
    let layer = &plan.avatars[0];
    assert_eq!(layer.base_count, 2);
    assert_eq!(layer.filter_plans.len(), 2);
    match &layer.filter_plans[0] {
        FilterPlan::Shaders(steps) => assert_eq!(steps[0].kind, ShaderKind::Bulge),
        _ => panic!("a shader chain was expected"),
    }
    match &layer.filter_plans[1] {
        FilterPlan::Shaders(steps) => assert_eq!(steps[0].kind, ShaderKind::Pinch),
        _ => panic!("a shader chain was expected"),
    }
}

#[test]
fn a_random_role_draws_from_the_pool() {
    let t = recipe(
        vec![avatar(AvatarType::RANDOM, vec![vec![0, 0, 10, 10]])],
        Some(synthesized(10, 10, "#000000ff", 1)),
    );
    let builder = PetpetBuilder::new(t, None, 0).unwrap();
    let mut data = no_avatars();
    data.random = vec![
        FrameSet { width: 8, height: 8, count: 1, delay: 10 },
        FrameSet { width: 9, height: 9, count: 1, delay: 10 },
    ];
    let plan = builder
        .build(&data, &TextData::default(), &Vec::new(), Vec::new())
        .unwrap();
    assert_eq!(plan.avatars.len(), 1);
    assert!(plan.avatars[0].width == 8 || plan.avatars[0].width == 9);
}

#[test]
fn an_empty_random_pool_is_missing_data() {
    let t = recipe(
        vec![avatar(AvatarType::RANDOM, vec![vec![0, 0, 10, 10]])],
        Some(synthesized(10, 10, "#000000ff", 1)),
    );
    let builder = PetpetBuilder::new(t, None, 0).unwrap();
    match builder.build(&no_avatars(), &TextData::default(), &Vec::new(), Vec::new()) {
        Err(Error::MissingDataError(_)) => (),
        _ => panic!("a missing-data error was expected"),
    }
}

#[test]
fn format_names_follow_the_container() {
    assert_eq!(EncodeFormat::PNG.get_str(), "png");
    assert_eq!(EncodeFormat::GIF.get_str(), "gif");
    assert_eq!(EncodeFormat::PNG.to_format(), "image/png");
    assert_eq!(EncodeFormat::GIF.to_format(), "image/gif");
    let enc = ImageEncoder::new();
    assert_eq!(enc.png_quality, 90);
    assert_eq!(enc.gif_quality, 10);
}
