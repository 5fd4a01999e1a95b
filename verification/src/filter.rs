use vstd::prelude::*;

verus! {

// Parameter values are fixed-point thousandths: 500 stands for one half,
// 3000 for three.  A parameter is always a sequence (length at least one),
// indexed modulo its length by the output frame index, which is how a single
// filter declaration animates across frames.

/// A whirlpool distortion.
#[derive(Debug, Clone)]
pub struct AvatarSwirlFilter {
    pub radius: Vec<i32>,
    pub angle: Vec<i32>,
    pub x: Vec<i32>,
    pub y: Vec<i32>,
}

/// An outward (positive strength) or inward (negative strength) lens.
#[derive(Debug, Clone)]
pub struct AvatarBulgeFilter {
    pub radius: Vec<i32>,
    pub strength: Vec<i32>,
    pub x: Vec<i32>,
    pub y: Vec<i32>,
}

/// A wave distortion.
#[derive(Debug, Clone)]
pub struct AvatarSwimFilter {
    pub scale: Vec<i32>,
    pub stretch: Vec<i32>,
    pub angle: Vec<i32>,
    pub amount: Vec<i32>,
    pub turbulence: Vec<i32>,
    pub time: Vec<i32>,
}

/// A gaussian blur, applied as a canvas-level image filter.
#[derive(Debug, Clone)]
pub struct AvatarBlurFilter {
    pub radius: Vec<i32>,
}

/// Brightness and contrast adjustment.
#[derive(Debug, Clone)]
pub struct AvatarContrastFilter {
    pub brightness: Vec<i32>,
    pub contrast: Vec<i32>,
}

/// Hue, saturation and brightness adjustment.
#[derive(Debug, Clone)]
pub struct AvatarHSBFilter {
    pub hue: Vec<i32>,
    pub saturation: Vec<i32>,
    pub brightness: Vec<i32>,
}

/// A color halftone screen.
#[derive(Debug, Clone)]
pub struct AvatarHalftoneFilter {
    pub angle: Vec<i32>,
    pub radius: Vec<i32>,
    pub x: Vec<i32>,
    pub y: Vec<i32>,
}

/// A monochrome dot screen.
#[derive(Debug, Clone)]
pub struct AvatarDotScreenFilter {
    pub angle: Vec<i32>,
    pub radius: Vec<i32>,
    pub x: Vec<i32>,
    pub y: Vec<i32>,
}

/// Additive noise.
#[derive(Debug, Clone)]
pub struct AvatarNoiseFilter {
    pub amount: Vec<i32>,
}

/// Noise reduction.
#[derive(Debug, Clone)]
pub struct AvatarDenoiseFilter {
    pub exponent: Vec<i32>,
}

/// An oil-painting effect.
#[derive(Debug, Clone)]
pub struct AvatarOilFilter {
    pub skip: Vec<i32>,
    pub levels: Vec<i32>,
    pub range: Vec<i32>,
}

/// The closed set of visual effects an avatar may declare, each carrying its
/// per-instance parameters.
#[derive(Debug, Clone)]
pub enum AvatarFilter {
    SWIRL(AvatarSwirlFilter),
    BULGE(AvatarBulgeFilter),
    SWIM(AvatarSwimFilter),
    BLUR(AvatarBlurFilter),
    CONTRAST(AvatarContrastFilter),
    HSB(AvatarHSBFilter),
    HALFTONE(AvatarHalftoneFilter),
    DOTSCREEN(AvatarDotScreenFilter),
    NOISE(AvatarNoiseFilter),
    DENOISE(AvatarDenoiseFilter),
    OIL(AvatarOilFilter),
    GRAY,
    BINARIZE,
}

pub open spec fn spec_max2(a: int, b: int) -> int {
    if a >= b {
        a
    } else {
        b
    }
}

fn max2(a: usize, b: usize) -> (r: usize)
    ensures
        r == spec_max2(a as int, b as int),
{
    if a >= b {
        a
    } else {
        b
    }
}

/// The longest parameter sequence a filter carries: the number of frames the
/// filter needs to play out fully.
pub open spec fn spec_filter_max_length(f: AvatarFilter) -> int {
    match f {
        AvatarFilter::SWIRL(t) => spec_max2(
            spec_max2(t.radius@.len() as int, t.angle@.len() as int),
            spec_max2(t.x@.len() as int, t.y@.len() as int),
        ),
        AvatarFilter::BULGE(t) => spec_max2(
            spec_max2(t.radius@.len() as int, t.strength@.len() as int),
            spec_max2(t.x@.len() as int, t.y@.len() as int),
        ),
        AvatarFilter::SWIM(t) => spec_max2(
            spec_max2(
                spec_max2(t.scale@.len() as int, t.stretch@.len() as int),
                spec_max2(t.angle@.len() as int, t.amount@.len() as int),
            ),
            spec_max2(t.turbulence@.len() as int, t.time@.len() as int),
        ),
        AvatarFilter::BLUR(t) => t.radius@.len() as int,
        AvatarFilter::CONTRAST(t) => spec_max2(t.brightness@.len() as int, t.contrast@.len() as int),
        AvatarFilter::HSB(t) => spec_max2(
            spec_max2(t.hue@.len() as int, t.saturation@.len() as int),
            t.brightness@.len() as int,
        ),
        AvatarFilter::HALFTONE(t) => spec_max2(
            spec_max2(t.angle@.len() as int, t.radius@.len() as int),
            spec_max2(t.x@.len() as int, t.y@.len() as int),
        ),
        AvatarFilter::DOTSCREEN(t) => spec_max2(
            spec_max2(t.angle@.len() as int, t.radius@.len() as int),
            spec_max2(t.x@.len() as int, t.y@.len() as int),
        ),
        AvatarFilter::NOISE(t) => t.amount@.len() as int,
        AvatarFilter::DENOISE(t) => t.exponent@.len() as int,
        AvatarFilter::OIL(t) => spec_max2(
            spec_max2(t.skip@.len() as int, t.levels@.len() as int),
            t.range@.len() as int,
        ),
        AvatarFilter::GRAY => 1,
        AvatarFilter::BINARIZE => 1,
    }
}

/// Whether every parameter sequence of a filter has at least one entry.
pub open spec fn filter_wf(f: AvatarFilter) -> bool {
    match f {
        AvatarFilter::SWIRL(t) => t.radius@.len() >= 1 && t.angle@.len() >= 1 && t.x@.len() >= 1
            && t.y@.len() >= 1,
        AvatarFilter::BULGE(t) => t.radius@.len() >= 1 && t.strength@.len() >= 1 && t.x@.len() >= 1
            && t.y@.len() >= 1,
        AvatarFilter::SWIM(t) => t.scale@.len() >= 1 && t.stretch@.len() >= 1 && t.angle@.len() >= 1
            && t.amount@.len() >= 1 && t.turbulence@.len() >= 1 && t.time@.len() >= 1,
        AvatarFilter::BLUR(t) => t.radius@.len() >= 1,
        AvatarFilter::CONTRAST(t) => t.brightness@.len() >= 1 && t.contrast@.len() >= 1,
        AvatarFilter::HSB(t) => t.hue@.len() >= 1 && t.saturation@.len() >= 1 && t.brightness@.len() >= 1,
        AvatarFilter::HALFTONE(t) => t.angle@.len() >= 1 && t.radius@.len() >= 1 && t.x@.len() >= 1
            && t.y@.len() >= 1,
        AvatarFilter::DOTSCREEN(t) => t.angle@.len() >= 1 && t.radius@.len() >= 1 && t.x@.len() >= 1
            && t.y@.len() >= 1,
        AvatarFilter::NOISE(t) => t.amount@.len() >= 1,
        AvatarFilter::DENOISE(t) => t.exponent@.len() >= 1,
        AvatarFilter::OIL(t) => t.skip@.len() >= 1 && t.levels@.len() >= 1 && t.range@.len() >= 1,
        AvatarFilter::GRAY => true,
        AvatarFilter::BINARIZE => true,
    }
}

impl AvatarFilter {
    /// The number of frames this filter requires (the longest parameter
    /// sequence; 1 for the parameterless color effects).
    pub fn max_length(&self) -> (r: usize)
        ensures
            r == spec_filter_max_length(*self),
    {
        match self {
            AvatarFilter::SWIRL(t) => max2(max2(t.radius.len(), t.angle.len()), max2(t.x.len(), t.y.len())),
            AvatarFilter::BULGE(t) => max2(
                max2(t.radius.len(), t.strength.len()),
                max2(t.x.len(), t.y.len()),
            ),
            AvatarFilter::SWIM(t) => max2(
                max2(max2(t.scale.len(), t.stretch.len()), max2(t.angle.len(), t.amount.len())),
                max2(t.turbulence.len(), t.time.len()),
            ),
            AvatarFilter::BLUR(t) => t.radius.len(),
            AvatarFilter::CONTRAST(t) => max2(t.brightness.len(), t.contrast.len()),
            AvatarFilter::HSB(t) => max2(max2(t.hue.len(), t.saturation.len()), t.brightness.len()),
            AvatarFilter::HALFTONE(t) => max2(max2(t.angle.len(), t.radius.len()), max2(t.x.len(), t.y.len())),
            AvatarFilter::DOTSCREEN(t) => max2(
                max2(t.angle.len(), t.radius.len()),
                max2(t.x.len(), t.y.len()),
            ),
            AvatarFilter::NOISE(t) => t.amount.len(),
            AvatarFilter::DENOISE(t) => t.exponent.len(),
            AvatarFilter::OIL(t) => max2(max2(t.skip.len(), t.levels.len()), t.range.len()),
            AvatarFilter::GRAY => 1,
            AvatarFilter::BINARIZE => 1,
        }
    }

    /// Whether every parameter sequence of this filter has at least one
    /// entry; templates that fail this are rejected when they are built.
    pub fn is_wf(&self) -> (r: bool)
        ensures
            r == filter_wf(*self),
    {
        match self {
            AvatarFilter::SWIRL(t) => t.radius.len() >= 1 && t.angle.len() >= 1 && t.x.len() >= 1
                && t.y.len() >= 1,
            AvatarFilter::BULGE(t) => t.radius.len() >= 1 && t.strength.len() >= 1 && t.x.len() >= 1
                && t.y.len() >= 1,
            AvatarFilter::SWIM(t) => t.scale.len() >= 1 && t.stretch.len() >= 1 && t.angle.len() >= 1
                && t.amount.len() >= 1 && t.turbulence.len() >= 1 && t.time.len() >= 1,
            AvatarFilter::BLUR(t) => t.radius.len() >= 1,
            AvatarFilter::CONTRAST(t) => t.brightness.len() >= 1 && t.contrast.len() >= 1,
            AvatarFilter::HSB(t) => t.hue.len() >= 1 && t.saturation.len() >= 1 && t.brightness.len() >= 1,
            AvatarFilter::HALFTONE(t) => t.angle.len() >= 1 && t.radius.len() >= 1 && t.x.len() >= 1
                && t.y.len() >= 1,
            AvatarFilter::DOTSCREEN(t) => t.angle.len() >= 1 && t.radius.len() >= 1 && t.x.len() >= 1
                && t.y.len() >= 1,
            AvatarFilter::NOISE(t) => t.amount.len() >= 1,
            AvatarFilter::DENOISE(t) => t.exponent.len() >= 1,
            AvatarFilter::OIL(t) => t.skip.len() >= 1 && t.levels.len() >= 1 && t.range.len() >= 1,
            AvatarFilter::GRAY => true,
            AvatarFilter::BINARIZE => true,
        }
    }
}

// ---------------------------------------------------------------------------
// Periodic parameter selection.
// ---------------------------------------------------------------------------

/// The value a parameter sequence supplies at an output frame index: the
/// entry at the index modulo the sequence length.
pub open spec fn spec_param_at(s: Seq<i32>, k: int) -> i32
    recommends
        s.len() > 0,
{
    s[k % (s.len() as int)]
}

/// The value of a parameter sequence at an output frame index.
pub fn param_at(s: &Vec<i32>, index: usize) -> (r: i32)
    requires
        s@.len() > 0,
    ensures
        r == spec_param_at(s@, index as int),
{
    s[index % s.len()]
}

/// Filter parameter indexing is periodic: a sequence of length L supplies
/// the same value at frame k and at frame k + L.
pub proof fn lemma_param_periodic(s: Seq<i32>, k: int)
    requires
        s.len() > 0,
    ensures
        spec_param_at(s, k + s.len() as int) == spec_param_at(s, k),
{
    vstd::arithmetic::div_mod::lemma_mod_add_multiples_vanish(k, s.len() as int);
}

// ---------------------------------------------------------------------------
// Shader plans.
// ---------------------------------------------------------------------------

/// The shader program one chain step runs.  The bulge family splits in two:
/// the sign of the strength parameter picks the outward or the inward lens.
#[derive(Debug, Clone, Copy, PartialEq, Eq, Structural)]
pub enum ShaderKind {
    Swirl,
    Bulge,
    Pinch,
    Swim,
    Contrast,
    Hsb,
    Halftone,
    DotScreen,
    Noise,
    Denoise,
    Oil,
    Gray,
    Binarize,
}

/// One step of a shader chain: the program and its uniforms, in declaration
/// order.  Uniform values are fixed-point thousandths; `x`/`y` are already
/// scaled by the image width and height.
#[derive(Debug, Clone)]
pub struct ShaderStep {
    pub kind: ShaderKind,
    pub uniforms: Vec<(String, i64)>,
}

/// What the filter chain does to one frame: a chain of shader steps, each
/// reading the previous step's output, or a single canvas-level blur of the
/// base frame (a blur discards the rest of the declared chain).
#[derive(Debug, Clone)]
pub enum FilterPlan {
    Shaders(Vec<ShaderStep>),
    Blur { radius: i32 },
}

pub open spec fn uniforms_view(v: Seq<(String, i64)>) -> Seq<(Seq<char>, int)> {
    v.map_values(|p: (String, i64)| (p.0@, p.1 as int))
}

/// The radius uniform: zero means "auto", half the image's shorter side.
pub open spec fn spec_radius_u(s: Seq<i32>, k: int, iw: int, ih: int) -> int {
    let p = spec_param_at(s, k);
    if p == 0 {
        500 * (if iw <= ih {
            iw
        } else {
            ih
        })
    } else {
        p as int
    }
}

pub open spec fn spec_swirl_uniforms(t: AvatarSwirlFilter, k: int, iw: int, ih: int) -> Seq<
    (Seq<char>, int),
> {
    seq![
        ("radius"@, spec_radius_u(t.radius@, k, iw, ih)),
        ("angle"@, spec_param_at(t.angle@, k) as int),
        ("x"@, spec_param_at(t.x@, k) * iw),
        ("y"@, spec_param_at(t.y@, k) * ih),
    ]
}

pub open spec fn spec_bulge_uniforms(t: AvatarBulgeFilter, k: int, iw: int, ih: int) -> Seq<
    (Seq<char>, int),
> {
    seq![
        ("radius"@, spec_radius_u(t.radius@, k, iw, ih)),
        ("strength"@, spec_param_at(t.strength@, k) as int),
        ("x"@, spec_param_at(t.x@, k) * iw),
        ("y"@, spec_param_at(t.y@, k) * ih),
    ]
}

pub open spec fn spec_swim_uniforms(t: AvatarSwimFilter, k: int) -> Seq<(Seq<char>, int)> {
    seq![
        ("scale"@, spec_param_at(t.scale@, k) as int),
        ("stretch"@, spec_param_at(t.stretch@, k) as int),
        ("angle"@, spec_param_at(t.angle@, k) as int),
        ("amount"@, spec_param_at(t.amount@, k) as int),
        ("turbulence"@, spec_param_at(t.turbulence@, k) as int),
        ("time"@, spec_param_at(t.time@, k) as int),
    ]
}

pub open spec fn spec_contrast_uniforms(t: AvatarContrastFilter, k: int) -> Seq<(Seq<char>, int)> {
    seq![
        ("brightness"@, spec_param_at(t.brightness@, k) as int),
        ("contrast"@, spec_param_at(t.contrast@, k) as int),
    ]
}

pub open spec fn spec_hsb_uniforms(t: AvatarHSBFilter, k: int) -> Seq<(Seq<char>, int)> {
    seq![
        ("hue"@, spec_param_at(t.hue@, k) as int),
        ("saturation"@, spec_param_at(t.saturation@, k) as int),
        ("brightness"@, spec_param_at(t.brightness@, k) as int),
    ]
}

pub open spec fn spec_halftone_uniforms(t: AvatarHalftoneFilter, k: int, iw: int, ih: int) -> Seq<
    (Seq<char>, int),
> {
    seq![
        ("angle"@, spec_param_at(t.angle@, k) as int),
        ("radius"@, spec_radius_u(t.radius@, k, iw, ih)),
        ("x"@, spec_param_at(t.x@, k) * iw),
        ("y"@, spec_param_at(t.y@, k) * ih),
    ]
}

pub open spec fn spec_dot_screen_uniforms(t: AvatarDotScreenFilter, k: int, iw: int, ih: int) -> Seq<
    (Seq<char>, int),
> {
    seq![
        ("angle"@, spec_param_at(t.angle@, k) as int),
        ("radius"@, spec_radius_u(t.radius@, k, iw, ih)),
        ("x"@, spec_param_at(t.x@, k) * iw),
        ("y"@, spec_param_at(t.y@, k) * ih),
    ]
}

pub open spec fn spec_noise_uniforms(t: AvatarNoiseFilter, k: int) -> Seq<(Seq<char>, int)> {
    seq![("amount"@, spec_param_at(t.amount@, k) as int)]
}

pub open spec fn spec_denoise_uniforms(t: AvatarDenoiseFilter, k: int) -> Seq<(Seq<char>, int)> {
    seq![("exponent"@, spec_param_at(t.exponent@, k) as int)]
}

pub open spec fn spec_oil_uniforms(t: AvatarOilFilter, k: int) -> Seq<(Seq<char>, int)> {
    seq![
        ("skip"@, spec_param_at(t.skip@, k) as int),
        ("levels"@, spec_param_at(t.levels@, k) as int),
        ("range"@, spec_param_at(t.range@, k) as int),
    ]
}

/// Whether a chain step is exactly what a (non-blur) filter prescribes at an
/// output frame index: the right program — for the bulge family, picked by
/// the sign of the strength at that index — and exactly its uniforms.
pub open spec fn step_matches(step: ShaderStep, f: AvatarFilter, k: int, iw: int, ih: int) -> bool {
    match f {
        AvatarFilter::SWIRL(t) => step.kind == ShaderKind::Swirl && uniforms_view(step.uniforms@)
            == spec_swirl_uniforms(t, k, iw, ih),
        AvatarFilter::BULGE(t) => (if spec_param_at(t.strength@, k) > 0 {
            step.kind == ShaderKind::Bulge
        } else {
            step.kind == ShaderKind::Pinch
        }) && uniforms_view(step.uniforms@) == spec_bulge_uniforms(t, k, iw, ih),
        AvatarFilter::SWIM(t) => step.kind == ShaderKind::Swim && uniforms_view(step.uniforms@)
            == spec_swim_uniforms(t, k),
        AvatarFilter::BLUR(_) => false,
        AvatarFilter::CONTRAST(t) => step.kind == ShaderKind::Contrast && uniforms_view(step.uniforms@)
            == spec_contrast_uniforms(t, k),
        AvatarFilter::HSB(t) => step.kind == ShaderKind::Hsb && uniforms_view(step.uniforms@)
            == spec_hsb_uniforms(t, k),
        AvatarFilter::HALFTONE(t) => step.kind == ShaderKind::Halftone && uniforms_view(step.uniforms@)
            == spec_halftone_uniforms(t, k, iw, ih),
        AvatarFilter::DOTSCREEN(t) => step.kind == ShaderKind::DotScreen && uniforms_view(step.uniforms@)
            == spec_dot_screen_uniforms(t, k, iw, ih),
        AvatarFilter::NOISE(t) => step.kind == ShaderKind::Noise && uniforms_view(step.uniforms@)
            == spec_noise_uniforms(t, k),
        AvatarFilter::DENOISE(t) => step.kind == ShaderKind::Denoise && uniforms_view(step.uniforms@)
            == spec_denoise_uniforms(t, k),
        AvatarFilter::OIL(t) => step.kind == ShaderKind::Oil && uniforms_view(step.uniforms@)
            == spec_oil_uniforms(t, k),
        AvatarFilter::GRAY => step.kind == ShaderKind::Gray && step.uniforms@.len() == 0,
        AvatarFilter::BINARIZE => step.kind == ShaderKind::Binarize && step.uniforms@.len() == 0,
    }
}

/// The index of the first blur in a filter chain, from position `i` on.
pub open spec fn first_blur(fs: Seq<AvatarFilter>, i: int) -> Option<int>
    decreases fs.len() - i,
{
    if i < 0 || i >= fs.len() {
        None
    } else if fs[i] is BLUR {
        Some(i)
    } else {
        first_blur(fs, i + 1)
    }
}

/// The product of a parameter value and an image dimension, exactly.
fn scale_param(v: i32, d: i32) -> (r: i64)
    ensures
        r == v as int * d as int,
{
    proof {
        assert((v as int) * (d as int) <= 0x8000_0000int * 0x8000_0000int && (v as int) * (d as int)
            >= -(0x8000_0000int * 0x8000_0000int)) by (nonlinear_arith)
            requires
                -0x8000_0000 <= v as int <= 0x7fff_ffff,
                -0x8000_0000 <= d as int <= 0x7fff_ffff,
        ;
    }
    (v as i64) * (d as i64)
}

/// The radius uniform at an output frame index: a declared zero asks for the
/// automatic radius, half the image's shorter side.
fn radius_uniform(s: &Vec<i32>, index: usize, iw: i32, ih: i32) -> (r: i64)
    requires
        s@.len() > 0,
        iw >= 1,
        ih >= 1,
    ensures
        r == spec_radius_u(s@, index as int, iw as int, ih as int),
{
    let p = param_at(s, index);
    if p == 0 {
        500i64 * (if iw <= ih {
            iw as i64
        } else {
            ih as i64
        })
    } else {
        p as i64
    }
}

/// The chain step a single non-blur filter prescribes at an output frame
/// index; `None` exactly for a blur.
fn build_step(f: &AvatarFilter, index: usize, iw: i32, ih: i32) -> (r: Option<ShaderStep>)
    requires
        filter_wf(*f),
        iw >= 1,
        ih >= 1,
    ensures
        match r {
            Some(step) => step_matches(step, *f, index as int, iw as int, ih as int),
            None => f is BLUR,
        },
{
    let k = index;
    match f {
        AvatarFilter::SWIRL(t) => {
            let mut u: Vec<(String, i64)> = Vec::new();
            u.push(("radius".to_owned(), radius_uniform(&t.radius, k, iw, ih)));
            u.push(("angle".to_owned(), param_at(&t.angle, k) as i64));
            u.push(("x".to_owned(), scale_param(param_at(&t.x, k), iw)));
            u.push(("y".to_owned(), scale_param(param_at(&t.y, k), ih)));
            proof {
                assert(uniforms_view(u@) =~~= spec_swirl_uniforms(*t, k as int, iw as int, ih as int));
            }
            Some(ShaderStep { kind: ShaderKind::Swirl, uniforms: u })
        },
        AvatarFilter::BULGE(t) => {
            let mut u: Vec<(String, i64)> = Vec::new();
            u.push(("radius".to_owned(), radius_uniform(&t.radius, k, iw, ih)));
            u.push(("strength".to_owned(), param_at(&t.strength, k) as i64));
            u.push(("x".to_owned(), scale_param(param_at(&t.x, k), iw)));
            u.push(("y".to_owned(), scale_param(param_at(&t.y, k), ih)));
            proof {
                assert(uniforms_view(u@) =~~= spec_bulge_uniforms(*t, k as int, iw as int, ih as int));
            }
            let kind = if param_at(&t.strength, k) > 0 {
                ShaderKind::Bulge
            } else {
                ShaderKind::Pinch
            };
            Some(ShaderStep { kind, uniforms: u })
        },
        AvatarFilter::SWIM(t) => {
            let mut u: Vec<(String, i64)> = Vec::new();
            u.push(("scale".to_owned(), param_at(&t.scale, k) as i64));
            u.push(("stretch".to_owned(), param_at(&t.stretch, k) as i64));
            u.push(("angle".to_owned(), param_at(&t.angle, k) as i64));
            u.push(("amount".to_owned(), param_at(&t.amount, k) as i64));
            u.push(("turbulence".to_owned(), param_at(&t.turbulence, k) as i64));
            u.push(("time".to_owned(), param_at(&t.time, k) as i64));
            proof {
                assert(uniforms_view(u@) =~~= spec_swim_uniforms(*t, k as int));
            }
            Some(ShaderStep { kind: ShaderKind::Swim, uniforms: u })
        },
        AvatarFilter::BLUR(_) => None,
        AvatarFilter::CONTRAST(t) => {
            let mut u: Vec<(String, i64)> = Vec::new();
            u.push(("brightness".to_owned(), param_at(&t.brightness, k) as i64));
            u.push(("contrast".to_owned(), param_at(&t.contrast, k) as i64));
            proof {
                assert(uniforms_view(u@) =~~= spec_contrast_uniforms(*t, k as int));
            }
            Some(ShaderStep { kind: ShaderKind::Contrast, uniforms: u })
        },
        AvatarFilter::HSB(t) => {
            let mut u: Vec<(String, i64)> = Vec::new();
            u.push(("hue".to_owned(), param_at(&t.hue, k) as i64));
            u.push(("saturation".to_owned(), param_at(&t.saturation, k) as i64));
            u.push(("brightness".to_owned(), param_at(&t.brightness, k) as i64));
            proof {
                assert(uniforms_view(u@) =~~= spec_hsb_uniforms(*t, k as int));
            }
            Some(ShaderStep { kind: ShaderKind::Hsb, uniforms: u })
        },
        AvatarFilter::HALFTONE(t) => {
            let mut u: Vec<(String, i64)> = Vec::new();
            u.push(("angle".to_owned(), param_at(&t.angle, k) as i64));
            u.push(("radius".to_owned(), radius_uniform(&t.radius, k, iw, ih)));
            u.push(("x".to_owned(), scale_param(param_at(&t.x, k), iw)));
            u.push(("y".to_owned(), scale_param(param_at(&t.y, k), ih)));
            proof {
                assert(uniforms_view(u@) =~~= spec_halftone_uniforms(*t, k as int, iw as int, ih as int));
            }
            Some(ShaderStep { kind: ShaderKind::Halftone, uniforms: u })
        },
        AvatarFilter::DOTSCREEN(t) => {
            let mut u: Vec<(String, i64)> = Vec::new();
            u.push(("angle".to_owned(), param_at(&t.angle, k) as i64));
            u.push(("radius".to_owned(), radius_uniform(&t.radius, k, iw, ih)));
            u.push(("x".to_owned(), scale_param(param_at(&t.x, k), iw)));
            u.push(("y".to_owned(), scale_param(param_at(&t.y, k), ih)));
            proof {
                assert(uniforms_view(u@) =~~= spec_dot_screen_uniforms(*t, k as int, iw as int, ih as int));
            }
            Some(ShaderStep { kind: ShaderKind::DotScreen, uniforms: u })
        },
        AvatarFilter::NOISE(t) => {
            let mut u: Vec<(String, i64)> = Vec::new();
            u.push(("amount".to_owned(), param_at(&t.amount, k) as i64));
            proof {
                assert(uniforms_view(u@) =~~= spec_noise_uniforms(*t, k as int));
            }
            Some(ShaderStep { kind: ShaderKind::Noise, uniforms: u })
        },
        AvatarFilter::DENOISE(t) => {
            let mut u: Vec<(String, i64)> = Vec::new();
            u.push(("exponent".to_owned(), param_at(&t.exponent, k) as i64));
            proof {
                assert(uniforms_view(u@) =~~= spec_denoise_uniforms(*t, k as int));
            }
            Some(ShaderStep { kind: ShaderKind::Denoise, uniforms: u })
        },
        AvatarFilter::OIL(t) => {
            let mut u: Vec<(String, i64)> = Vec::new();
            u.push(("skip".to_owned(), param_at(&t.skip, k) as i64));
            u.push(("levels".to_owned(), param_at(&t.levels, k) as i64));
            u.push(("range".to_owned(), param_at(&t.range, k) as i64));
            proof {
                assert(uniforms_view(u@) =~~= spec_oil_uniforms(*t, k as int));
            }
            Some(ShaderStep { kind: ShaderKind::Oil, uniforms: u })
        },
        AvatarFilter::GRAY => Some(ShaderStep { kind: ShaderKind::Gray, uniforms: Vec::new() }),
        AvatarFilter::BINARIZE => Some(ShaderStep { kind: ShaderKind::Binarize, uniforms: Vec::new() }),
    }
}

/// Whether a plan is exactly what a filter chain prescribes at one output
/// frame index: the blur of the first declared blur's radius at that index
/// (the rest of the chain discarded), or one matching shader step per
/// filter, in declaration order.
pub open spec fn filter_plan_matches(
    r: FilterPlan,
    filters: Seq<AvatarFilter>,
    k: int,
    iw: int,
    ih: int,
) -> bool {
    match first_blur(filters, 0) {
        Some(b) => (filters[b] matches AvatarFilter::BLUR(t) && r matches FilterPlan::Blur {
            radius,
        } && radius == spec_param_at(t.radius@, k)),
        None => (r matches FilterPlan::Shaders(steps) && steps@.len() == filters.len() && forall|
            i: int,
        | 0 <= i < filters.len() ==> step_matches(#[trigger] steps@[i], filters[i], k, iw, ih)),
    }
}

/// What the declared filter chain does to the frame at one output index: a
/// chain of shader steps in declaration order, or — if a blur appears — a
/// single blur of the base frame with the blur's radius at that index, the
/// rest of the chain being discarded.
pub fn build_filter_plan(filters: &Vec<AvatarFilter>, index: usize, iw: i32, ih: i32) -> (r: FilterPlan)
    requires
        forall|i: int| 0 <= i < filters@.len() ==> filter_wf(#[trigger] filters@[i]),
        iw >= 1,
        ih >= 1,
    ensures
        filter_plan_matches(r, filters@, index as int, iw as int, ih as int),
{
    let mut steps: Vec<ShaderStep> = Vec::new();
    let mut i: usize = 0;
    while i < filters.len()
        invariant
            i <= filters.len(),
            forall|j: int| 0 <= j < filters@.len() ==> filter_wf(#[trigger] filters@[j]),
            iw >= 1,
            ih >= 1,
            steps@.len() == i,
            first_blur(filters@, 0) == first_blur(filters@, i as int),
            forall|j: int|
                0 <= j < i ==> step_matches(#[trigger] steps@[j], filters@[j], index as int, iw as int, ih as int),
        decreases filters.len() - i,
    {
        let f = &filters[i];
        match build_step(f, index, iw, ih) {
            Some(step) => {
                steps.push(step);
            },
            None => {
                let radius = match f {
                    AvatarFilter::BLUR(t) => param_at(&t.radius, index),
                    _ => 0,
                };
                return FilterPlan::Blur { radius };
            },
        }
        i += 1;
    }
    FilterPlan::Shaders(steps)
}

} // verus!
