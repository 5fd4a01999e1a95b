use vstd::prelude::*;

use crate::error::Error;
use crate::filter::{filter_wf, spec_filter_max_length, spec_max2, AvatarFilter};
use crate::fit::{fit_mapping, spec_fit_mapping, FitMapping};
use crate::pos::{
    compile_pos, entries2d_have_content, entries2d_wf, eval2d, eval_size, exprs_view, p2d_all_valid,
    p2d_entries, p2d_lits, p2d_rows_ok, p3d_all_valid, p3d_entries, p3d_quads, p3d_rows_ok,
    row3d_in_range, rows2d_view, rows3d_view, wh_vars, CompiledNumberPosDimension, CompiledPos,
    OriginSize, Quad, XYWH,
};
use crate::template::{
    AvatarCropType, AvatarFit, AvatarPosType, AvatarStyle, AvatarTemplate, AvatarType, CropPos,
    PosDimension, TransformOrigin,
};

verus! {

pub const FROM: usize = 0b00001;

pub const TO: usize = 0b00010;

pub const GROUP: usize = 0b00100;

pub const BOT: usize = 0b01000;

pub const RANDOM: usize = 0b10000;

/// The role bit an avatar type occupies in a builder list's role mask.
pub fn by_type(t: &AvatarType) -> (r: usize)
    ensures
        r == spec_by_type(*t),
{
    match t {
        AvatarType::FROM => FROM,
        AvatarType::TO => TO,
        AvatarType::GROUP => GROUP,
        AvatarType::BOT => BOT,
        AvatarType::RANDOM => RANDOM,
    }
}

pub open spec fn spec_by_type(t: AvatarType) -> usize {
    match t {
        AvatarType::FROM => 0b00001usize,
        AvatarType::TO => 0b00010usize,
        AvatarType::GROUP => 0b00100usize,
        AvatarType::BOT => 0b01000usize,
        AvatarType::RANDOM => 0b10000usize,
    }
}

/// One decoded avatar source: the shared frame dimensions, the number of
/// frames, and the per-frame delay the source declared.
#[derive(Debug, Clone, Copy, PartialEq, Eq, Structural)]
pub struct FrameSet {
    pub width: i32,
    pub height: i32,
    pub count: usize,
    pub delay: u16,
}

pub open spec fn frame_set_wf(f: FrameSet) -> bool {
    f.width >= 1 && f.height >= 1
}

/// The resolved avatar sources of one request, one per role, plus the
/// random pool.
#[derive(Debug, Clone)]
pub struct AvatarData {
    pub from: Option<FrameSet>,
    pub to: Option<FrameSet>,
    pub bot: Option<FrameSet>,
    pub group: Option<FrameSet>,
    pub random: Vec<FrameSet>,
}

/// Relies on `rand::thread_rng` and `rand::Rng::gen_range`: the result is a
/// uniformly chosen index below `len`; nothing more can be promised of a
/// random value.
#[verifier::external_body]
fn pick_random_index(len: usize) -> (r: usize)
    requires
        len > 0,
    ensures
        r < len,
{
    rand::Rng::gen_range(&mut rand::thread_rng(), 0..len)
}

// ---------------------------------------------------------------------------
// Builder.
// ---------------------------------------------------------------------------

/// A compiled avatar placement: the template after crop normalization and
/// style folding, its compiled geometry, and the frame count its filters
/// require.  The declared geometry lives on only in compiled form: `raw.pos`
/// is emptied when the placement is built.
pub struct AvatarBuiltTemplate {
    pub raw: AvatarTemplate,
    pub pos: CompiledPos,
    pub max_length: usize,
}

pub struct AvatarBuilder {
    pub built_template: AvatarBuiltTemplate,
}

/// The zoom rows a template's geometry promotes to: a flat list becomes a
/// single row.
pub open spec fn promoted_zoom_rows(pos: PosDimension) -> Option<Seq<Seq<crate::template::PosItem>>> {
    match pos {
        PosDimension::P1D(v) => Some(seq![v@]),
        PosDimension::P2D(rows) => Some(rows2d_view(rows)),
        PosDimension::P3D(_) => None,
    }
}

/// The deform rows a template's geometry promotes to: a list of rectangles
/// becomes a single deform group.
pub open spec fn promoted_deform_rows(pos: PosDimension) -> Option<
    Seq<Seq<Seq<crate::template::PosItem>>>,
> {
    match pos {
        PosDimension::P1D(_) => None,
        PosDimension::P2D(rows) => Some(seq![rows2d_view(rows)]),
        PosDimension::P3D(rows) => Some(rows3d_view(rows)),
    }
}

/// The crop region normalized to an x1/y1/x2/y2 box: a width/height pair is
/// anchored at the origin.
pub open spec fn normalized_crop(crop: Option<CropPos>, crop_type: AvatarCropType) -> Option<
    Option<CropPos>,
> {
    if crop_type == AvatarCropType::NONE {
        Some(None)
    } else {
        match crop {
            Some(CropPos::WH(w, h)) => Some(Some(CropPos::XYXY(0, 0, w, h))),
            Some(CropPos::XYXY(a, b, c, d)) => Some(Some(CropPos::XYXY(a, b, c, d))),
            None => None,
        }
    }
}

/// The filter chain with the legacy color style flags folded in: a gray or
/// binarization style appends the matching filter, in style order.
pub open spec fn folded_filters(filters: Seq<AvatarFilter>, styles: Seq<AvatarStyle>) -> Seq<
    AvatarFilter,
>
    decreases styles.len(),
{
    if styles.len() == 0 {
        filters
    } else {
        let rest = folded_filters(filters, styles.drop_last());
        match styles.last() {
            AvatarStyle::GRAY => rest.push(AvatarFilter::GRAY),
            AvatarStyle::BINARIZATION => rest.push(AvatarFilter::BINARIZE),
            _ => rest,
        }
    }
}

pub open spec fn filters_wf(filters: Seq<AvatarFilter>) -> bool {
    forall|i: int| 0 <= i < filters.len() ==> filter_wf(#[trigger] filters[i])
}

/// The largest frame count any filter of the chain requires.
pub open spec fn spec_filters_max_length(filters: Seq<AvatarFilter>) -> int
    decreases filters.len(),
{
    if filters.len() == 0 {
        0
    } else {
        spec_max2(
            spec_filters_max_length(filters.drop_last()),
            spec_filter_max_length(filters.last()),
        )
    }
}

/// The number of frames a compiled geometry places.
pub open spec fn pos_frames(p: CompiledNumberPosDimension) -> int {
    match p {
        CompiledNumberPosDimension::P2D(v) => v@.len() as int,
        CompiledNumberPosDimension::P3D(v) => v@.len() as int,
    }
}

/// The Ok-side relation of `AvatarBuilder::new`: how a built avatar layer
/// follows from its template.
pub open spec fn spec_avatar_built_from(b: AvatarBuiltTemplate, t: AvatarTemplate) -> bool {
    &&& b.raw._type == t._type
    &&& b.raw.pos_type == t.pos_type
    &&& b.raw.crop_type == t.crop_type
    &&& normalized_crop(t.crop, t.crop_type) == Some(b.raw.crop)
    &&& b.raw.style == t.style
    &&& b.raw.filter@ == folded_filters(t.filter@, t.style@)
    &&& filters_wf(b.raw.filter@)
    &&& b.raw.fit == t.fit
    &&& b.raw.round == t.round
    &&& b.raw.origin == t.origin
    &&& b.raw.avatar_on_top == t.avatar_on_top
    &&& b.raw.angle == t.angle
    &&& b.raw.opacity == t.opacity
    &&& b.max_length as int == spec_filters_max_length(b.raw.filter@)
    &&& pos_frames(b.pos.0) >= 1
    &&& (match t.pos_type {
        AvatarPosType::ZOOM => {
            &&& promoted_zoom_rows(t.pos) matches Some(rows)
            &&& (b.pos.0 matches CompiledNumberPosDimension::P2D(v) && v@ == p2d_lits(rows))
            &&& exprs_view(b.pos.1@) == p2d_entries(rows)
            &&& entries2d_wf(exprs_view(b.pos.1@), rows.len() as int)
            &&& entries2d_have_content(exprs_view(b.pos.1@))
            &&& p2d_rows_ok(rows)
        },
        AvatarPosType::DEFORM => {
            &&& promoted_deform_rows(t.pos) matches Some(rows)
            &&& (b.pos.0 matches CompiledNumberPosDimension::P3D(v) && v@ == p3d_quads(rows))
            &&& exprs_view(b.pos.1@) == p3d_entries(rows)
        },
    })
}

/// Whether a template's avatar declaration is consistent: its geometry
/// promotes to the declared shape, parses, stays in range and places at
/// least one frame; a declared crop type has a crop region; and every
/// filter parameter sequence (after style folding) has an entry.
pub open spec fn avatar_template_ok(t: AvatarTemplate) -> bool {
    &&& (match t.pos_type {
        AvatarPosType::ZOOM => {
            &&& promoted_zoom_rows(t.pos) matches Some(rows)
            &&& p2d_rows_ok(rows)
            &&& p2d_all_valid(rows)
            &&& rows.len() >= 1
        },
        AvatarPosType::DEFORM => {
            &&& promoted_deform_rows(t.pos) matches Some(rows)
            &&& p3d_rows_ok(rows)
            &&& p3d_all_valid(rows)
            &&& (forall|i: int| 0 <= i < rows.len() ==> row3d_in_range(#[trigger] rows[i]))
            &&& rows.len() >= 1
        },
    })
    &&& (t.crop_type == AvatarCropType::NONE || t.crop is Some)
    &&& filters_wf(folded_filters(t.filter@, t.style@))
}

/// Appends the color filters the legacy style flags call for.
fn fold_styles(filters: &mut Vec<AvatarFilter>, styles: &Vec<AvatarStyle>)
    ensures
        final(filters)@ == folded_filters(old(filters)@, styles@),
{
    let mut i: usize = 0;
    while i < styles.len()
        invariant
            i <= styles@.len(),
            filters@ == folded_filters(old(filters)@, styles@.take(i as int)),
        decreases styles@.len() - i,
    {
        match styles[i] {
            AvatarStyle::GRAY => {
                filters.push(AvatarFilter::GRAY);
            },
            AvatarStyle::BINARIZATION => {
                filters.push(AvatarFilter::BINARIZE);
            },
            _ => {
            },
        }
        proof {
            assert(styles@.take(i as int + 1).drop_last() =~= styles@.take(i as int));
            assert(styles@.take(i as int + 1).last() == styles@[i as int]);
        }
        i += 1;
    }
    proof {
        assert(styles@.take(styles@.len() as int) =~= styles@);
    }
}

/// The largest frame count any filter of a chain requires.
fn filters_max_length(filters: &Vec<AvatarFilter>) -> (r: usize)
    ensures
        r as int == spec_filters_max_length(filters@),
{
    let mut m: usize = 0;
    let mut i: usize = 0;
    while i < filters.len()
        invariant
            i <= filters@.len(),
            m as int == spec_filters_max_length(filters@.take(i as int)),
        decreases filters@.len() - i,
    {
        let l = filters[i].max_length();
        if l > m {
            m = l;
        }
        proof {
            assert(filters@.take(i as int + 1).drop_last() =~= filters@.take(i as int));
            assert(filters@.take(i as int + 1).last() == filters@[i as int]);
        }
        i += 1;
    }
    proof {
        assert(filters@.take(filters@.len() as int) =~= filters@);
    }
    m
}

impl AvatarBuilder {
    /// Compiles one avatar placement: promotes the declared geometry shape,
    /// compiles it, normalizes the crop, folds the legacy style flags into
    /// the filter chain, and validates every filter's parameters.  Every
    /// inconsistency is a template error.
    pub fn new(template: AvatarTemplate) -> (r: Result<AvatarBuilder, Error>)
        ensures
            r is Ok <==> avatar_template_ok(template),
            match r {
                Ok(b) => spec_avatar_built_from(b.built_template, template),
                Err(e) => e is TemplateError,
            },
    {
        let mut t = template;
        let pos: PosDimension = match t.pos_type {
            AvatarPosType::ZOOM => match t.pos {
                PosDimension::P1D(pos) => {
                    let mut rows: Vec<Vec<crate::template::PosItem>> = Vec::new();
                    rows.push(pos);
                    proof {
                        assert(rows2d_view(rows) =~= seq![rows@[0]@]);
                    }
                    PosDimension::P2D(rows)
                },
                PosDimension::P2D(rows) => PosDimension::P2D(rows),
                PosDimension::P3D(_) => {
                    return Err(Error::TemplateError("zoom geometry cannot hold deform points".to_owned()));
                },
            },
            AvatarPosType::DEFORM => match t.pos {
                PosDimension::P2D(rows) => {
                    let mut group: Vec<Vec<Vec<crate::template::PosItem>>> = Vec::new();
                    group.push(rows);
                    proof {
                        assert(rows3d_view(group) =~= seq![rows2d_view(group@[0])]);
                    }
                    PosDimension::P3D(group)
                },
                PosDimension::P3D(rows) => PosDimension::P3D(rows),
                PosDimension::P1D(_) => {
                    return Err(Error::TemplateError("deform geometry needs point lists".to_owned()));
                },
            },
        };
        let ghost promoted = pos;
        proof {
            if template.pos_type is ZOOM {
                assert(promoted matches PosDimension::P2D(pv) && promoted_zoom_rows(template.pos) == Some(
                    rows2d_view(pv),
                ));
            } else {
                assert(promoted matches PosDimension::P3D(pv) && promoted_deform_rows(template.pos) == Some(
                    rows3d_view(pv),
                ));
            }
        }
        t.pos = PosDimension::P1D(Vec::new());
        let compiled = match compile_pos(pos) {
            Ok(c) => c,
            Err(e) => {
                proof {
                    assert(!avatar_template_ok(template));
                }
                return Err(e);
            },
        };
        if match &compiled.0 {
            CompiledNumberPosDimension::P2D(v) => v.len() == 0,
            CompiledNumberPosDimension::P3D(v) => v.len() == 0,
        } {
            proof {
                assert(!avatar_template_ok(template));
            }
            return Err(Error::TemplateError("geometry places no frame".to_owned()));
        }
        t.crop = match t.crop_type {
            AvatarCropType::NONE => None,
            _ => match t.crop {
                Some(CropPos::WH(w, h)) => Some(CropPos::XYXY(0, 0, w, h)),
                Some(CropPos::XYXY(a, b, c, d)) => Some(CropPos::XYXY(a, b, c, d)),
                None => {
                    return Err(Error::TemplateError("crop type declared without a crop region".to_owned()));
                },
            },
        };
        fold_styles(&mut t.filter, &t.style);
        let mut i: usize = 0;
        while i < t.filter.len()
            invariant
                i <= t.filter@.len(),
                t.filter@ == folded_filters(template.filter@, template.style@),
                forall|k: int| 0 <= k < i ==> filter_wf(#[trigger] t.filter@[k]),
            decreases t.filter@.len() - i,
        {
            if !t.filter[i].is_wf() {
                proof {
                    assert(!filters_wf(folded_filters(template.filter@, template.style@)));
                    assert(!avatar_template_ok(template));
                }
                return Err(Error::TemplateError("filter parameter sequence is empty".to_owned()));
            }
            i += 1;
        }
        let max_length = filters_max_length(&t.filter);
        proof {
            if template.pos_type is ZOOM {
                let rows = promoted_zoom_rows(template.pos).unwrap();
                assert(promoted matches PosDimension::P2D(pv) && rows2d_view(pv) == rows);
                crate::pos::lemma_p2d_entries_wf(rows);
                assert(avatar_template_ok(template));
            } else {
                let rows = promoted_deform_rows(template.pos).unwrap();
                assert(promoted matches PosDimension::P3D(pv) && rows3d_view(pv) == rows);
                assert(avatar_template_ok(template));
            }
        }
        Ok(AvatarBuilder { built_template: AvatarBuiltTemplate { raw: t, pos: compiled, max_length } })
    }
}


// ---------------------------------------------------------------------------
// Models.
// ---------------------------------------------------------------------------

/// Whether a built avatar layer is internally consistent: its filters are
/// well-formed, its cached frame requirement matches them, its geometry
/// places at least one frame, and every recorded expression slot points
/// into the geometry.
pub open spec fn built_wf(b: AvatarBuiltTemplate) -> bool {
    &&& filters_wf(b.raw.filter@)
    &&& b.max_length as int == spec_filters_max_length(b.raw.filter@)
    &&& pos_frames(b.pos.0) >= 1
    &&& (b.pos.0 matches CompiledNumberPosDimension::P2D(v) ==> entries2d_wf(
        exprs_view(b.pos.1@),
        v@.len() as int,
    ) && entries2d_have_content(exprs_view(b.pos.1@)))
}

proof fn lemma_filter_max_length_pos(f: AvatarFilter)
    requires
        filter_wf(f),
    ensures
        spec_filter_max_length(f) >= 1,
{
}

proof fn lemma_filters_max_length_pos(fs: Seq<AvatarFilter>)
    requires
        fs.len() >= 1,
        filters_wf(fs),
    ensures
        spec_filters_max_length(fs) >= 1,
    decreases fs.len(),
{
    lemma_filter_max_length_pos(fs.last());
}

/// The source region a crop declaration resolves to, against a source of
/// `sw`×`sh` pixels: a pixel crop as declared, a percent crop scaled by the
/// source size (whole percents, rounded toward zero).
pub open spec fn spec_src_rect(
    crop: Option<CropPos>,
    ct: AvatarCropType,
    sw: int,
    sh: int,
) -> Option<(int, int, int, int)> {
    match ct {
        AvatarCropType::NONE => None,
        AvatarCropType::PIXEL => match crop {
            Some(CropPos::XYXY(a, b, c, d)) => Some((a as int, b as int, c - a, d - b)),
            _ => None,
        },
        AvatarCropType::PERCENT => match crop {
            Some(CropPos::XYXY(a, b, c, d)) => {
                let x1 = crate::strutil::spec_div_trunc(a * sw, 100);
                let y1 = crate::strutil::spec_div_trunc(b * sh, 100);
                let x2 = crate::strutil::spec_div_trunc(c * sw, 100);
                let y2 = crate::strutil::spec_div_trunc(d * sh, 100);
                Some((x1, y1, x2 - x1, y2 - y1))
            },
            _ => None,
        },
    }
}

/// A per-request avatar layer: the built template it was created from, its
/// geometry with every expression slot resolved against the source frame
/// size, the resolved crop region, and its frame accounting.
pub struct AvatarModel<'a> {
    pub template: &'a AvatarBuiltTemplate,
    pub pos: CompiledNumberPosDimension,
    pub src_rect: Option<(i64, i64, i64, i64)>,
    pub frame_width: i32,
    pub frame_height: i32,
    pub count: usize,
    pub base_count: usize,
    pub delay: u16,
}

/// Whether resolving a built layer's geometry against a source's size
/// fails: some expression slot does not evaluate.
pub open spec fn spec_eval_failed(b: AvatarBuiltTemplate, fs: FrameSet) -> bool {
    match b.pos.0 {
        CompiledNumberPosDimension::P2D(p2d) => eval2d(
            p2d@,
            exprs_view(b.pos.1@),
            wh_vars(fs.width, fs.height),
        ) is None,
        CompiledNumberPosDimension::P3D(_) => false,
    }
}

/// The Ok-side relation of `AvatarModel::new`: how a bound layer follows
/// from its built template and its resolved source frames.
pub open spec fn spec_model_from(m: AvatarModel<'_>, b: AvatarBuiltTemplate, fs: FrameSet) -> bool {
    &&& *m.template == b
    &&& m.frame_width == fs.width
    &&& m.frame_height == fs.height
    &&& m.base_count == fs.count
    &&& m.delay == fs.delay
    &&& m.count as int == (if b.raw.filter@.len() == 0 {
        fs.count as int
    } else {
        b.max_length as int
    })
    &&& (match spec_src_rect(b.raw.crop, b.raw.crop_type, fs.width as int, fs.height as int) {
        Some(sr) => (m.src_rect matches Some(mr) && mr.0 as int == sr.0 && mr.1 as int == sr.1
            && mr.2 as int == sr.2 && mr.3 as int == sr.3),
        None => m.src_rect is None,
    })
    &&& (match b.pos.0 {
        CompiledNumberPosDimension::P2D(p2d) => (m.pos matches CompiledNumberPosDimension::P2D(v)
            && eval2d(p2d@, exprs_view(b.pos.1@), wh_vars(fs.width, fs.height)) == Some(v@)),
        CompiledNumberPosDimension::P3D(p3d) => (m.pos matches CompiledNumberPosDimension::P3D(v)
            && v@ == p3d@),
    })
}

/// Whether a bound layer can be drawn: positive frame dimensions, at least
/// one frame, at least one placement, well-formed filters.
pub open spec fn model_wf(m: AvatarModel<'_>) -> bool {
    &&& m.count >= 1
    &&& m.frame_width >= 1
    &&& m.frame_height >= 1
    &&& pos_frames(m.pos) >= 1
    &&& filters_wf(m.template.raw.filter@)
}

impl<'a> AvatarModel<'a> {
    /// Binds concrete source frames to a built avatar layer: rejects an
    /// empty source, resolves the crop against the source size, and
    /// evaluates the geometry's expression slots against the source's
    /// width and height.
    pub fn new(template: &'a AvatarBuiltTemplate, frames: &FrameSet) -> (r: Result<
        AvatarModel<'a>,
        Error,
    >)
        requires
            built_wf(*template),
            frame_set_wf(*frames),
        ensures
            match r {
                Ok(m) => {
                    &&& spec_model_from(m, *template, *frames)
                    &&& model_wf(m)
                    &&& frames.count > 0
                },
                Err(e) => {
                    &&& (e is AvatarLoadError || e is EvalPosError)
                    &&& (e is AvatarLoadError <==> frames.count == 0)
                    &&& (frames.count > 0 ==> spec_eval_failed(*template, *frames))
                },
            },
    {
        if frames.count == 0 {
            return Err(Error::AvatarLoadError("avatar source decoded to zero frames".to_owned()));
        }
        let src_rect: Option<(i64, i64, i64, i64)> = match template.raw.crop_type {
            AvatarCropType::NONE => None,
            AvatarCropType::PIXEL => match template.raw.crop {
                Some(CropPos::XYXY(a, b, c, d)) => Some(
                    (a as i64, b as i64, c as i64 - a as i64, d as i64 - b as i64),
                ),
                _ => None,
            },
            AvatarCropType::PERCENT => match template.raw.crop {
                Some(CropPos::XYXY(a, b, c, d)) => {
                    let x1 = crate::strutil::div_trunc_i64(crate::strutil::mul_i32_i64(a, frames.width), 100);
                    let y1 = crate::strutil::div_trunc_i64(crate::strutil::mul_i32_i64(b, frames.height), 100);
                    let x2 = crate::strutil::div_trunc_i64(crate::strutil::mul_i32_i64(c, frames.width), 100);
                    let y2 = crate::strutil::div_trunc_i64(crate::strutil::mul_i32_i64(d, frames.height), 100);
                    Some((x1, y1, x2 - x1, y2 - y1))
                },
                _ => None,
            },
        };
        let evaluated = match eval_size((&template.pos.0, &template.pos.1), (frames.width, frames.height)) {
            Ok(p) => p,
            Err(e) => {
                proof {
                    match template.pos.0 {
                        CompiledNumberPosDimension::P2D(ref p2d) => {
                            assert(entries2d_wf(exprs_view(template.pos.1@), p2d@.len() as int));
                        },
                        CompiledNumberPosDimension::P3D(_) => {
                        },
                    }
                }
                return Err(Error::EvalPosError(e.message()));
            },
        };
        let count = if template.raw.filter.len() == 0 {
            frames.count
        } else {
            proof {
                lemma_filters_max_length_pos(template.raw.filter@);
            }
            template.max_length
        };
        Ok(
            AvatarModel {
                template,
                pos: evaluated,
                src_rect,
                frame_width: frames.width,
                frame_height: frames.height,
                count,
                base_count: frames.count,
                delay: frames.delay,
            },
        )
    }

    /// The pixel size this layer contributes to background sizing: the crop
    /// region's size if one is declared, the source frame size otherwise,
    /// clamped into `i32`.
    pub fn get_size(&self) -> (r: OriginSize)
        ensures
            r == spec_get_size(*self),
    {
        match self.src_rect {
            Some(rect) => (clamp_i32(rect.2), clamp_i32(rect.3)),
            None => (self.frame_width, self.frame_height),
        }
    }

    /// The number of frames this layer contributes to the animation.
    pub fn get_length(&self) -> (r: usize)
        ensures
            r == self.count,
    {
        self.count
    }

    /// The draw operation for one output frame index: both the placement
    /// and the source frame cycle modulo their own lengths.
    pub fn draw(&self, index: usize) -> (r: AvatarDrawOp)
        requires
            model_wf(*self),
        ensures
            spec_draw_matches(r, *self, index as int),
    {
        let frame = index % self.count;
        match &self.pos {
            CompiledNumberPosDimension::P2D(p2d) => {
                let rect = p2d[index % p2d.len()];
                let (x, y, w, h) = rect;
                let mapping = fit_mapping(
                    &self.template.raw.fit,
                    x,
                    y,
                    w,
                    h,
                    self.frame_width,
                    self.frame_height,
                    None,
                );
                let mapping = FitMapping {
                    src: (match mapping.src {
                        None => self.src_rect,
                        Some(s) => Some(s),
                    }),
                    ..mapping
                };
                let alpha = alpha_of(self.template.raw.opacity);
                let mirror = has_style(&self.template.raw.style, 0);
                let flip = has_style(&self.template.raw.style, 1);
                let pivot_x: i64 = match self.template.raw.origin {
                    TransformOrigin::DEFAULT => x as i64,
                    TransformOrigin::CENTER => x as i64 + crate::strutil::div_trunc_i64(w as i64, 2),
                };
                let pivot_y: i64 = match self.template.raw.origin {
                    TransformOrigin::DEFAULT => y as i64,
                    TransformOrigin::CENTER => y as i64 + crate::strutil::div_trunc_i64(h as i64, 2),
                };
                AvatarDrawOp::Zoom(
                    ZoomDrawOp {
                        frame,
                        mapping,
                        mirror,
                        flip,
                        has_rotation: self.template.raw.angle != 0,
                        rotate_angle: self.template.raw.angle,
                        pivot_x,
                        pivot_y,
                        alpha,
                    },
                )
            },
            CompiledNumberPosDimension::P3D(p3d) => {
                let quad = p3d[index % p3d.len()];
                AvatarDrawOp::Deform(DeformDrawOp { frame, quad })
            },
        }
    }
}

/// The layer size a bound avatar reports, by view.
pub open spec fn spec_get_size(m: AvatarModel<'_>) -> OriginSize {
    match m.src_rect {
        Some(rect) => (spec_clamp_i32(rect.2 as int), spec_clamp_i32(rect.3 as int)),
        None => (m.frame_width, m.frame_height),
    }
}

pub open spec fn spec_clamp_i32(v: int) -> i32 {
    if v > i32::MAX {
        i32::MAX
    } else if v < i32::MIN {
        i32::MIN
    } else {
        v as i32
    }
}

fn clamp_i32(v: i64) -> (r: i32)
    ensures
        r == spec_clamp_i32(v as int),
{
    if v > i32::MAX as i64 {
        i32::MAX
    } else if v < i32::MIN as i64 {
        i32::MIN
    } else {
        v as i32
    }
}

/// The flat alpha a layer's opacity yields: thousandths clamped to full
/// coverage, scaled to an eight-bit channel.
pub open spec fn spec_alpha(opacity: int) -> u8 {
    let o = if opacity < 0 {
        0
    } else if opacity > 1000 {
        1000
    } else {
        opacity
    };
    (o * 255 / 1000) as u8
}

fn alpha_of(opacity: i32) -> (r: u8)
    ensures
        r == spec_alpha(opacity as int),
{
    let o: i32 = if opacity < 0 {
        0
    } else if opacity > 1000 {
        1000
    } else {
        opacity
    };
    ((o * 255) / 1000) as u8
}

/// Whether a style list holds the mirror (0) or flip (1) flag.
fn has_style(styles: &Vec<AvatarStyle>, which: u8) -> (r: bool)
    requires
        which == 0 || which == 1,
    ensures
        which == 0 ==> r == styles@.contains(AvatarStyle::MIRROR),
        which == 1 ==> r == styles@.contains(AvatarStyle::FLIP),
{
    let target = if which == 0 {
        AvatarStyle::MIRROR
    } else {
        AvatarStyle::FLIP
    };
    let mut i: usize = 0;
    while i < styles.len()
        invariant
            i <= styles@.len(),
            target == (if which == 0 {
                AvatarStyle::MIRROR
            } else {
                AvatarStyle::FLIP
            }),
            which == 0 || which == 1,
            forall|k: int| 0 <= k < i ==> styles@[k] != target,
        decreases styles@.len() - i,
    {
        if styles[i] == target {
            proof {
                assert(styles@.contains(target));
            }
            return true;
        }
        i += 1;
    }
    proof {
        assert(!styles@.contains(target));
    }
    false
}

/// One zoom draw: which processed frame, the source and destination
/// rectangles, pre-transforms, rotation, and the flat alpha.
#[derive(Debug, Clone, Copy)]
pub struct ZoomDrawOp {
    pub frame: usize,
    pub mapping: FitMapping,
    pub mirror: bool,
    pub flip: bool,
    pub has_rotation: bool,
    pub rotate_angle: i32,
    pub pivot_x: i64,
    pub pivot_y: i64,
    pub alpha: u8,
}

/// One deform draw: which processed frame, mapped onto which quadrilateral.
#[derive(Debug, Clone, Copy)]
pub struct DeformDrawOp {
    pub frame: usize,
    pub quad: Quad,
}

#[derive(Debug, Clone, Copy)]
pub enum AvatarDrawOp {
    Zoom(ZoomDrawOp),
    Deform(DeformDrawOp),
}

/// What the draw operation of a bound layer at one output frame index must
/// hold: the placement rectangle and the source frame both cycle modulo
/// their own lengths; zoom placements carry the fit mapping (the declared
/// crop standing in when the fit policy computes no source region of its
/// own), the mirror and flip flags, the rotation about the declared origin,
/// and the opacity's flat alpha.
pub open spec fn spec_draw_matches(r: AvatarDrawOp, m: AvatarModel<'_>, index: int) -> bool {
    match m.pos {
        CompiledNumberPosDimension::P2D(p2d) => {
            let rect = p2d@[index % p2d@.len() as int];
            let wc = if rect.2 >= 0 {
                rect.2 as int
            } else {
                0
            };
            let hc = if rect.3 >= 0 {
                rect.3 as int
            } else {
                0
            };
            let (src, dst) = spec_fit_mapping(
                m.template.raw.fit,
                rect.0 as int,
                rect.1 as int,
                wc,
                hc,
                m.frame_width as int,
                m.frame_height as int,
                None,
            );
            &&& r matches AvatarDrawOp::Zoom(z)
            &&& z.frame == index % m.count as int
            &&& z.dst_eq_spec(dst)
            &&& (match src {
                Some(sr) => (z.mapping.src matches Some(zs) && zs.0 as int == sr.0 && zs.1 as int == sr.1
                    && zs.2 as int == sr.2 && zs.3 as int == sr.3),
                None => z.mapping.src == m.src_rect,
            })
            &&& z.mirror == m.template.raw.style@.contains(AvatarStyle::MIRROR)
            &&& z.flip == m.template.raw.style@.contains(AvatarStyle::FLIP)
            &&& z.has_rotation == (m.template.raw.angle != 0)
            &&& z.rotate_angle == m.template.raw.angle
            &&& z.pivot_x as int == (match m.template.raw.origin {
                TransformOrigin::DEFAULT => rect.0 as int,
                TransformOrigin::CENTER => rect.0 as int + crate::strutil::spec_half(rect.2 as int),
            })
            &&& z.pivot_y as int == (match m.template.raw.origin {
                TransformOrigin::DEFAULT => rect.1 as int,
                TransformOrigin::CENTER => rect.1 as int + crate::strutil::spec_half(rect.3 as int),
            })
            &&& z.alpha == spec_alpha(m.template.raw.opacity as int)
        },
        CompiledNumberPosDimension::P3D(p3d) => {
            &&& r matches AvatarDrawOp::Deform(d)
            &&& d.frame == index % m.count as int
            &&& d.quad == p3d@[index % p3d@.len() as int]
        },
    }
}

impl ZoomDrawOp {
    /// Whether this draw's destination rectangle equals the given one.
    pub open spec fn dst_eq_spec(self, dst: (int, int, int, int)) -> bool {
        self.mapping.dst.0 as int == dst.0 && self.mapping.dst.1 as int == dst.1
            && self.mapping.dst.2 as int == dst.2 && self.mapping.dst.3 as int == dst.3
    }
}


// ---------------------------------------------------------------------------
// Builder lists and role resolution.
// ---------------------------------------------------------------------------

/// The role bits a list of avatar templates uses.
pub open spec fn spec_types_mask(ts: Seq<AvatarTemplate>) -> usize
    decreases ts.len(),
{
    if ts.len() == 0 {
        0usize
    } else {
        spec_types_mask(ts.drop_last()) | spec_by_type(ts.last()._type)
    }
}

/// Every compiled avatar placement of a template, with its role bit and its
/// layer flag.
pub struct AvatarBuilderList {
    pub types: usize,
    pub builders: Vec<(usize, bool, AvatarBuilder)>,
}

/// Whether the data of a request misses the source a role bit requires.
pub open spec fn data_missing(bit: usize, data: AvatarData) -> bool {
    if bit == 1 {
        data.from is None
    } else if bit == 2 {
        data.to is None
    } else if bit == 4 {
        data.group is None
    } else if bit == 8 {
        data.bot is None
    } else {
        data.random@.len() == 0
    }
}

/// The source frames a role bit resolves to, with `pick` naming the pooled
/// source a random role selected.
pub open spec fn role_data(bit: usize, data: AvatarData, pick: int) -> Option<FrameSet> {
    if bit == 1 {
        data.from
    } else if bit == 2 {
        data.to
    } else if bit == 4 {
        data.group
    } else if bit == 8 {
        data.bot
    } else if 0 <= pick < data.random@.len() {
        Some(data.random@[pick])
    } else {
        None
    }
}

/// Whether every supplied source of a request has positive frame
/// dimensions, as decoded images do.
pub open spec fn avatar_data_wf(data: AvatarData) -> bool {
    &&& (data.from matches Some(f) ==> frame_set_wf(f))
    &&& (data.to matches Some(f) ==> frame_set_wf(f))
    &&& (data.group matches Some(f) ==> frame_set_wf(f))
    &&& (data.bot matches Some(f) ==> frame_set_wf(f))
    &&& (forall|i: int| 0 <= i < data.random@.len() ==> frame_set_wf(#[trigger] data.random@[i]))
}

/// Whether each bound layer was created from its builder's role, resolved
/// against the request data, with `pick` naming the pooled source any
/// random role drew.
pub open spec fn models_from_pick<'a>(
    l: AvatarBuilderList,
    data: AvatarData,
    models: Seq<AvatarModel<'a>>,
    pick: int,
) -> bool {
    forall|i: int|
        0 <= i < models.len() ==> (role_data((#[trigger] l.builders@[i]).0, data, pick) matches Some(fs)
            && fs.count > 0 && spec_model_from(models[i], l.builders@[i].2.built_template, fs))
}

/// Why binding one avatar layer fails, in checking order: its source
/// decoded to zero frames, or its geometry's expression slots do not
/// evaluate against the source size.
#[derive(Debug, Clone, Copy, PartialEq, Eq, Structural)]
pub enum ModelFailure {
    EmptySource,
    EvalFailed,
}

/// The first layer-binding failure among the declared placements from
/// position `i` on, with `pick` naming the pooled source any random role
/// drew.  A missing role is handled before binding and does not appear
/// here.
pub open spec fn first_model_failure(
    l: AvatarBuilderList,
    data: AvatarData,
    pick: int,
    i: int,
) -> Option<ModelFailure>
    decreases l.builders@.len() - i,
{
    if i < 0 || i >= l.builders@.len() {
        None
    } else {
        match role_data(l.builders@[i].0, data, pick) {
            None => first_model_failure(l, data, pick, i + 1),
            Some(fs) => if fs.count == 0 {
                Some(ModelFailure::EmptySource)
            } else if spec_eval_failed(l.builders@[i].2.built_template, fs) {
                Some(ModelFailure::EvalFailed)
            } else {
                first_model_failure(l, data, pick, i + 1)
            },
        }
    }
}

/// Whether a draw operation is the one a layer bound from the given built
/// template and source would emit at an output frame index.  A bound
/// layer's drawing is determined by its template and source, so one
/// witness model pins the operation.
pub open spec fn spec_op_from<'a>(
    op: AvatarDrawOp,
    b: AvatarBuiltTemplate,
    fs: FrameSet,
    f: int,
) -> bool {
    exists|m: AvatarModel<'a>| #[trigger] spec_model_from(m, b, fs) && spec_draw_matches(op, m, f)
}

/// Successfully bound models witness that no layer-binding failure exists
/// from position `i` on.
pub proof fn lemma_models_ok_no_failure<'a>(
    l: AvatarBuilderList,
    data: AvatarData,
    models: Seq<AvatarModel<'a>>,
    pick: int,
    i: int,
)
    requires
        models_from_pick(l, data, models, pick),
        models.len() == l.builders@.len(),
        0 <= i <= l.builders@.len(),
    ensures
        first_model_failure(l, data, pick, i) is None,
    decreases l.builders@.len() - i,
{
    if i < l.builders@.len() {
        assert(role_data(l.builders@[i].0, data, pick) matches Some(fs) && fs.count > 0
            && spec_model_from(models[i], l.builders@[i].2.built_template, fs));
        assert(!spec_eval_failed(l.builders@[i].2.built_template, role_data(
            l.builders@[i].0,
            data,
            pick,
        ).unwrap()));
        lemma_models_ok_no_failure(l, data, models, pick, i + 1);
    }
}

/// The full guarantee of binding request data to a builder list: one model
/// per placement, no declared role missing, every model created from its
/// role's source with one shared random pick, and every model drawable.
pub open spec fn spec_build_ok<'a>(
    l: AvatarBuilderList,
    data: AvatarData,
    models: Seq<AvatarModel<'a>>,
) -> bool {
    &&& models.len() == l.builders@.len()
    &&& (forall|i: int|
        0 <= i < l.builders@.len() ==> !data_missing((#[trigger] l.builders@[i]).0, data))
    &&& (exists|pick: int|
        (data.random@.len() > 0 ==> 0 <= pick < data.random@.len()) && #[trigger] models_from_pick(
            l,
            data,
            models,
            pick,
        ))
    &&& (forall|i: int| 0 <= i < models.len() ==> model_wf(#[trigger] models[i]))
}

/// Whether every entry of a builder list is consistent and carries its
/// template's role bit and layer flag.
pub open spec fn builder_list_wf(l: AvatarBuilderList) -> bool {
    forall|i: int|
        0 <= i < l.builders@.len() ==> {
            &&& built_wf((#[trigger] l.builders@[i]).2.built_template)
            &&& l.builders@[i].0 == spec_by_type(l.builders@[i].2.built_template.raw._type)
            &&& l.builders@[i].1 == l.builders@[i].2.built_template.raw.avatar_on_top
        }
}

impl AvatarBuilderList {
    /// Compiles every avatar placement of a template and collects the role
    /// bits the template uses; the first inconsistent placement fails the
    /// whole template.
    #[verifier::rlimit(60)]
    #[verifier::spinoff_prover]
    pub fn new(templates: Vec<AvatarTemplate>) -> (r: Result<AvatarBuilderList, Error>)
        ensures
            match r {
                Ok(l) => {
                    &&& l.builders@.len() == templates@.len()
                    &&& l.types == spec_types_mask(templates@)
                    &&& builder_list_wf(l)
                    &&& forall|i: int|
                        0 <= i < templates@.len() ==> spec_avatar_built_from(
                            (#[trigger] l.builders@[i]).2.built_template,
                            templates@[i],
                        )
                },
                Err(e) => e is TemplateError && exists|i: int|
                    0 <= i < templates@.len() && !avatar_template_ok(#[trigger] templates@[i]),
            },
    {
        let mut rest = templates;
        let mut types: usize = 0;
        let mut items: Vec<(usize, bool, AvatarBuilder)> = Vec::new();
        while rest.len() > 0
            invariant
                items@.len() + rest@.len() == templates@.len(),
                rest@ =~= templates@.skip(items@.len() as int),
                types == spec_types_mask(templates@.take(items@.len() as int)),
                forall|k: int|
                    0 <= k < items@.len() ==> {
                        &&& spec_avatar_built_from((#[trigger] items@[k]).2.built_template, templates@[k])
                        &&& built_wf(items@[k].2.built_template)
                        &&& items@[k].0 == spec_by_type(items@[k].2.built_template.raw._type)
                        &&& items@[k].1 == items@[k].2.built_template.raw.avatar_on_top
                    },
            decreases rest@.len(),
        {
            let avatar = rest.remove(0);
            proof {
                assert(avatar == templates@[items@.len() as int]);
            }
            let bit = by_type(&avatar._type);
            let on_top = avatar.avatar_on_top;
            let builder = match AvatarBuilder::new(avatar) {
                Ok(b) => b,
                Err(e) => {
                    proof {
                        assert(!avatar_template_ok(templates@[items@.len() as int]));
                    }
                    return Err(e);
                },
            };
            types = types | bit;
            items.push((bit, on_top, builder));
            proof {
                assert(rest@ =~= templates@.skip(items@.len() as int));
                assert(templates@.take(items@.len() as int).drop_last() =~= templates@.take(
                    items@.len() as int - 1,
                ));
                assert(templates@.take(items@.len() as int).last() == templates@[items@.len() as int - 1]);
            }
        }
        proof {
            assert(templates@.take(templates@.len() as int) =~= templates@);
        }
        Ok(AvatarBuilderList { types, builders: items })
    }

    /// Binds request data to every compiled placement: every required role
    /// must have a source, a random role draws one pooled source for the
    /// whole request, and each source must have decoded to at least one
    /// frame.
    #[verifier::rlimit(60)]
    #[verifier::spinoff_prover]
    pub fn build<'a>(&'a self, data: &AvatarData) -> (r: Result<Vec<AvatarModel<'a>>, Error>)
        requires
            builder_list_wf(*self),
            avatar_data_wf(*data),
        ensures
            match r {
                Ok(models) => spec_build_ok(*self, *data, models@),
                Err(e) => {
                    &&& (e is MissingDataError || e is AvatarLoadError || e is EvalPosError)
                    &&& (e is MissingDataError <==> exists|i: int|
                        0 <= i < self.builders@.len() && data_missing(
                            (#[trigger] self.builders@[i]).0,
                            *data,
                        ))
                    &&& (!(e is MissingDataError) ==> exists|pick: int|
                        (data.random@.len() > 0 ==> 0 <= pick < data.random@.len())
                            && (match #[trigger] first_model_failure(*self, *data, pick, 0) {
                            Some(ModelFailure::EmptySource) => e is AvatarLoadError,
                            Some(ModelFailure::EvalFailed) => e is EvalPosError,
                            None => false,
                        }))
                },
            },
    {
        let n = self.builders.len();
        let mut i: usize = 0;
        while i < n
            invariant
                n == self.builders@.len(),
                i <= n,
                builder_list_wf(*self),
                forall|k: int| 0 <= k < i ==> !data_missing((#[trigger] self.builders@[k]).0, *data),
            decreases n - i,
        {
            let bit = self.builders[i].0;
            let missing = if bit == 1 {
                self.data_is_none(&data.from)
            } else if bit == 2 {
                self.data_is_none(&data.to)
            } else if bit == 4 {
                self.data_is_none(&data.group)
            } else if bit == 8 {
                self.data_is_none(&data.bot)
            } else {
                data.random.len() == 0
            };
            if missing {
                return Err(Error::MissingDataError("a declared avatar role has no bound source".to_owned()));
            }
            i += 1;
        }
        let pick: usize = if data.random.len() > 0 {
            pick_random_index(data.random.len())
        } else {
            0
        };
        let mut models: Vec<AvatarModel<'a>> = Vec::new();
        let mut j: usize = 0;
        while j < n
            invariant
                n == self.builders@.len(),
                j <= n,
                builder_list_wf(*self),
                avatar_data_wf(*data),
                data.random@.len() > 0 ==> pick < data.random@.len(),
                forall|k: int| 0 <= k < n ==> !data_missing((#[trigger] self.builders@[k]).0, *data),
                models@.len() == j,
                models_from_pick(*self, *data, models@, pick as int),
                first_model_failure(*self, *data, pick as int, 0) == first_model_failure(
                    *self,
                    *data,
                    pick as int,
                    j as int,
                ),
                forall|k: int| 0 <= k < j ==> model_wf(#[trigger] models@[k]),
            decreases n - j,
        {
            let bit = self.builders[j].0;
            let fs: FrameSet = if bit == 1 {
                self.unwrap_frames(&data.from)
            } else if bit == 2 {
                self.unwrap_frames(&data.to)
            } else if bit == 4 {
                self.unwrap_frames(&data.group)
            } else if bit == 8 {
                self.unwrap_frames(&data.bot)
            } else {
                data.random[pick]
            };
            proof {
                assert(role_data(self.builders@[j as int].0, *data, pick as int) == Some(fs));
            }
            let model = match AvatarModel::new(&self.builders[j].2.built_template, &fs) {
                Ok(m) => m,
                Err(e) => {
                    proof {
                        if fs.count == 0 {
                            assert(first_model_failure(*self, *data, pick as int, j as int) == Some(
                                ModelFailure::EmptySource,
                            ));
                        } else {
                            assert(first_model_failure(*self, *data, pick as int, j as int) == Some(
                                ModelFailure::EvalFailed,
                            ));
                        }
                    }
                    return Err(e);
                },
            };
            models.push(model);
            j += 1;
        }
        proof {
            assert((data.random@.len() > 0 ==> (pick as int) < data.random@.len())
                && models_from_pick(*self, *data, models@, pick as int));
            assert(spec_build_ok(*self, *data, models@));
        }
        Ok(models)
    }

    /// Whether an optional source is absent.
    fn data_is_none(&self, d: &Option<FrameSet>) -> (r: bool)
        ensures
            r == (d is None),
    {
        match d {
            None => true,
            Some(_) => false,
        }
    }

    /// The frames of a source known to be present.
    fn unwrap_frames(&self, d: &Option<FrameSet>) -> (r: FrameSet)
        requires
            d is Some,
        ensures
            Some(r) == *d,
    {
        match d {
            Some(f) => *f,
            None => FrameSet { width: 1, height: 1, count: 0, delay: 0 },
        }
    }
}

} // verus!
