use vstd::prelude::*;

use crate::avatar::{
    avatar_data_wf, builder_list_wf, AvatarBuilderList, AvatarData, AvatarDrawOp, AvatarModel,
};
use crate::background::{
    frame_is_solid, pixel_frame_wf, BackgroundBuilder, PixelFrame,
};
use crate::error::Error;
use crate::filter::{build_filter_plan, FilterPlan};
use crate::pos::OriginSize;
use crate::template::PetpetTemplate;
use crate::template::TextData;
use crate::text::{TextBuilderList, TextDrawOp, TextMetrics, TextModel};

verus! {

/// One drawing step of a frame plan.
#[derive(Debug)]
pub enum DrawOp {
    /// Draw one avatar layer's frame.
    Avatar { index: usize, on_top: bool, op: AvatarDrawOp },
    /// Draw the background frame of this index.
    Background { frame: usize },
    /// Draw one text layer.
    Text { index: usize, op: TextDrawOp },
}

/// The draw operations of one output frame, in paint order.
#[derive(Debug)]
pub struct FramePlan {
    pub ops: Vec<DrawOp>,
}

/// What the backend must prepare for one avatar layer before the frame
/// plans reference it: the source frames' shared size and count, whether
/// they are masked to a circle, and — when the layer declares filters —
/// one shader chain per processed frame.
#[derive(Debug)]
pub struct AvatarLayerPlan {
    pub round: bool,
    pub width: i32,
    pub height: i32,
    pub base_count: usize,
    pub filter_plans: Vec<FilterPlan>,
}

/// Everything the raster backend needs for one request: the canvas size,
/// the background frames, the per-layer avatar preparation, one plan per
/// output frame, and the per-frame delay in the encoder's time unit.
#[derive(Debug)]
pub struct RenderPlan {
    pub canvas: OriginSize,
    pub backgrounds: Vec<PixelFrame>,
    pub avatars: Vec<AvatarLayerPlan>,
    pub frames: Vec<FramePlan>,
    pub delay: u16,
}

/// Whether an operation draws a bottom-layer avatar.
pub open spec fn is_bottom_op(op: DrawOp) -> bool {
    match op {
        DrawOp::Avatar { on_top, .. } => !on_top,
        _ => false,
    }
}

/// Whether an operation draws a top-layer avatar.
pub open spec fn is_top_op(op: DrawOp) -> bool {
    match op {
        DrawOp::Avatar { on_top, .. } => on_top,
        _ => false,
    }
}

/// Whether an operation draws a text layer.
pub open spec fn is_text_op(op: DrawOp) -> bool {
    op is Text
}

/// Whether an operation draws the background frame of index `f`.
pub open spec fn is_bg_op(op: DrawOp, f: int) -> bool {
    match op {
        DrawOp::Background { frame } => frame == f,
        _ => false,
    }
}

/// Whether an avatar operation points at a declared placement and carries
/// its layer flag.
pub open spec fn avatar_op_consistent(op: DrawOp, l: AvatarBuilderList) -> bool {
    match op {
        DrawOp::Avatar { index, on_top, .. } => {
            let entry = l.builders@[index as int];
            index < l.builders@.len() && on_top == entry.1
        },
        _ => true,
    }
}

/// Whether an avatar operation carries exactly the draw its indexed layer
/// emits at the given output frame index.
pub open spec fn op_draws_model<'a>(op: DrawOp, models: Seq<AvatarModel<'a>>, f: int) -> bool {
    match op {
        DrawOp::Avatar { index, op, .. } => index < models.len() && crate::avatar::spec_draw_matches(
            op,
            models[index as int],
            f,
        ),
        _ => true,
    }
}

/// One split of a frame's operations that witnesses the fixed z-order.
pub open spec fn zsplit(ops: Seq<DrawOp>, f: int, b: int, t: int) -> bool {
    &&& 0 <= b < t <= ops.len()
    &&& is_bg_op(ops[b], f)
    &&& (forall|k: int| 0 <= k < b ==> is_bottom_op(#[trigger] ops[k]))
    &&& (forall|k: int| b < k < t ==> is_top_op(#[trigger] ops[k]))
    &&& (forall|k: int| t <= k < ops.len() ==> is_text_op(#[trigger] ops[k]))
}

/// The fixed z-order of every frame: bottom avatars, then the background
/// frame of that index, then top avatars, then exactly the text layers.
pub open spec fn frame_zorder(ops: Seq<DrawOp>, f: int, ntexts: int) -> bool {
    exists|b: int, t: int| #[trigger] zsplit(ops, f, b, t) && ops.len() - t == ntexts
}

/// The summed source delays of the first `i` declared avatar layers, with
/// `pick` naming the pooled source any random role drew.
pub open spec fn sum_role_delays(l: AvatarBuilderList, data: AvatarData, pick: int, i: int) -> int
    decreases i,
{
    if i <= 0 {
        0
    } else {
        sum_role_delays(l, data, pick, i - 1) + (match crate::avatar::role_data(
            l.builders@[i - 1].0,
            data,
            pick,
        ) {
            Some(fs) => fs.delay as int,
            None => 0,
        })
    }
}

/// The per-frame output delay of one request: a file-backed background uses
/// the template's declared delay, otherwise the mean of the avatar sources'
/// own delays; either way scaled into the encoder's finer time unit.
pub open spec fn spec_request_delay(
    l: AvatarBuilderList,
    data: AvatarData,
    pick: int,
    template_delay: u16,
    file_backed: bool,
) -> int {
    if file_backed {
        template_delay as int / 10
    } else if l.builders@.len() > 0 {
        (sum_role_delays(l, data, pick, l.builders@.len() as int) / (l.builders@.len() as int)) / 10
    } else {
        template_delay as int / 10
    }
}

/// The pixel size one avatar layer contributes to background sizing: its
/// crop region's size when one is declared, its source frame size
/// otherwise.
pub open spec fn layer_size_of(b: crate::avatar::AvatarBuiltTemplate, fs: crate::avatar::FrameSet) -> OriginSize {
    match crate::avatar::spec_src_rect(b.raw.crop, b.raw.crop_type, fs.width as int, fs.height as int) {
        Some(sr) => (crate::avatar::spec_clamp_i32(sr.2), crate::avatar::spec_clamp_i32(sr.3)),
        None => (fs.width, fs.height),
    }
}

/// The sizes every avatar layer contributes, in declaration order, with
/// `pick` naming the pooled source any random role drew.
pub open spec fn avatar_sizes_of(l: AvatarBuilderList, data: AvatarData, pick: int) -> Seq<OriginSize> {
    Seq::new(
        l.builders@.len(),
        |j: int|
            match crate::avatar::role_data(l.builders@[j].0, data, pick) {
                Some(fs) => layer_size_of(l.builders@[j].2.built_template, fs),
                None => (0i32, 0i32),
            },
    )
}

/// The sizes every text layer contributes: the position rule's width and
/// the measured layout height.
pub open spec fn text_sizes_of(tb: TextBuilderList, metrics: Seq<TextMetrics>) -> Seq<OriginSize> {
    Seq::new(
        tb.builders@.len(),
        |j: int|
            (
                (match tb.builders@[j].built_template.raw.pos {
                    crate::text::TextPos::XY(_x, _y) => 200i32,
                    crate::text::TextPos::XYW(_x, _y, w) => w,
                }),
                metrics[j].height,
            ),
    )
}

/// The number of output frames one avatar layer contributes: its source's
/// frame count, or — when it declares filters — the frame count the
/// filters require.
pub open spec fn layer_count_of(b: crate::avatar::AvatarBuiltTemplate, fs: crate::avatar::FrameSet) -> int {
    if b.raw.filter@.len() == 0 {
        fs.count as int
    } else {
        b.max_length as int
    }
}

/// The avatars' combined animated length over the first `i` layers: the sum
/// of the layers' frame counts, saturated at the machine limit.  The sum
/// (rather than the maximum) is this engine's documented broadcast target,
/// applied uniformly.
pub open spec fn spec_total_length(l: AvatarBuilderList, data: AvatarData, pick: int, i: int) -> int
    decreases i,
{
    if i <= 0 {
        0
    } else {
        let prev = spec_total_length(l, data, pick, i - 1);
        let c = match crate::avatar::role_data(l.builders@[i - 1].0, data, pick) {
            Some(fs) => layer_count_of(l.builders@[i - 1].2.built_template, fs),
            None => 0,
        };
        if prev + c <= usize::MAX {
            prev + c
        } else {
            usize::MAX as int
        }
    }
}

/// The background's own frame count before broadcast.
pub open spec fn bg_count_of(b: BackgroundBuilder, nfiles: int) -> int {
    if b.info is Some && b.path is None {
        b.length as int
    } else {
        nfiles
    }
}

/// The broadcast rule's output frame count: a single background frame under
/// avatars that animate is replicated to their length; anything else keeps
/// the background's count.
pub open spec fn spec_output_frames(bgn: int, total: int) -> int {
    if bgn != 1 || total <= 1 {
        bgn
    } else {
        total
    }
}

/// One layer's entry in the render plan is exactly what its builder and its
/// bound source prescribe: the source metadata, the circular mask flag, and
/// — when filters are declared — one matching shader chain per processed
/// frame index.
pub open spec fn layer_plan_matches(
    p: AvatarLayerPlan,
    b: crate::avatar::AvatarBuiltTemplate,
    fs: crate::avatar::FrameSet,
) -> bool {
    &&& p.round == b.raw.round
    &&& p.width == fs.width
    &&& p.height == fs.height
    &&& p.base_count == fs.count
    &&& p.filter_plans@.len() == (if b.raw.filter@.len() == 0 {
        0int
    } else {
        layer_count_of(b, fs)
    })
    &&& (forall|fi: int|
        0 <= fi < p.filter_plans@.len() ==> crate::filter::filter_plan_matches(
            #[trigger] p.filter_plans@[fi],
            b.raw.filter@,
            fi,
            fs.width as int,
            fs.height as int,
        ))
}

/// Everything of a produced plan that depends on the bound sources and the
/// drawn random pick: the canvas, the per-layer plans, the output frame
/// count under the broadcast rule, and the per-frame delay.
pub open spec fn spec_plan_matches(
    b: PetpetBuilder,
    data: AvatarData,
    metrics: Seq<TextMetrics>,
    files: Seq<PixelFrame>,
    pick: int,
    plan: RenderPlan,
) -> bool {
    &&& (forall|j: int|
        0 <= j < b.avatar_builders.builders@.len() ==> (crate::avatar::role_data(
            (#[trigger] b.avatar_builders.builders@[j]).0,
            data,
            pick,
        ) matches Some(fs) && layer_plan_matches(
            plan.avatars@[j],
            b.avatar_builders.builders@[j].2.built_template,
            fs,
        )))
    &&& (match b.background_builder.info {
        Some(info) => crate::pos::eval_sz(
            info.0.0,
            crate::pos::size_exprs_view(info.0.1@),
            crate::pos::size_vars(
                avatar_sizes_of(b.avatar_builders, data, pick),
                text_sizes_of(b.text_builders, metrics),
            ),
        ) == Some(plan.canvas),
        None => files.len() > 0 && plan.canvas == (files[0].width, files[0].height),
    })
    &&& plan.backgrounds@.len() == spec_output_frames(
        bg_count_of(b.background_builder, files.len() as int),
        spec_total_length(
            b.avatar_builders,
            data,
            pick,
            b.avatar_builders.builders@.len() as int,
        ),
    )
    &&& plan.delay as int == spec_request_delay(
        b.avatar_builders,
        data,
        pick,
        b.template.delay,
        b.background_builder.path is Some,
    )
    &&& (forall|f: int, k: int|
        0 <= f < plan.frames@.len() && 0 <= k < plan.frames@[f].ops@.len() ==> (match #[trigger] plan.frames@[f].ops@[k] {
            DrawOp::Avatar { index, op, .. } => (crate::avatar::role_data(
                b.avatar_builders.builders@[index as int].0,
                data,
                pick,
            ) matches Some(fs) && crate::avatar::spec_op_from(
                op,
                b.avatar_builders.builders@[index as int].2.built_template,
                fs,
                f,
            )),
            _ => true,
        }))
}

/// The whole guarantee of a produced plan: frame plans in the fixed
/// z-order over consistent avatar operations, solid synthesized
/// backgrounds, and — for the bound sources and drawn pick — the per-layer
/// plans, frame count and delay.
pub open spec fn spec_build_result_ok(
    b: PetpetBuilder,
    data: AvatarData,
    metrics: Seq<TextMetrics>,
    files: Seq<PixelFrame>,
    plan: RenderPlan,
) -> bool {
    &&& plan.frames@.len() == plan.backgrounds@.len()
    &&& plan.avatars@.len() == b.avatar_builders.builders@.len()
    &&& (forall|f: int|
        0 <= f < plan.frames@.len() ==> frame_zorder(
            (#[trigger] plan.frames@[f]).ops@,
            f,
            b.text_builders.builders@.len() as int,
        ))
    &&& (forall|f: int, k: int|
        0 <= f < plan.frames@.len() && 0 <= k < plan.frames@[f].ops@.len() ==> avatar_op_consistent(
            #[trigger] plan.frames@[f].ops@[k],
            b.avatar_builders,
        ))
    &&& (b.background_builder.path is Some ==> plan.delay == b.template.delay / 10)
    &&& (b.background_builder.path is None && b.avatar_builders.builders@.len() == 0
        ==> plan.delay == b.template.delay / 10)
    &&& (exists|pick: int|
        (data.random@.len() > 0 ==> 0 <= pick < data.random@.len()) && #[trigger] spec_plan_matches(
            b,
            data,
            metrics,
            files,
            pick,
            plan,
        ))
    &&& (match b.background_builder.info {
        Some(info) => (b.background_builder.path is None ==> forall|i: int|
            0 <= i < plan.backgrounds@.len() ==> frame_is_solid(
                #[trigger] plan.backgrounds@[i],
                plan.canvas.0 as int,
                plan.canvas.1 as int,
                info.1,
            )),
        None => true,
    })
    &&& (forall|i: int|
        0 <= i < b.avatar_builders.builders@.len() ==> !crate::avatar::data_missing(
            (#[trigger] b.avatar_builders.builders@[i]).0,
            data,
        ))
}

/// Which error a failing request ends with, for the causes that remain once
/// every declared role is bound: the first layer whose source is empty or
/// whose geometry does not evaluate, else the background's own failure.
pub open spec fn spec_failure_matches(
    b: PetpetBuilder,
    data: AvatarData,
    metrics: Seq<TextMetrics>,
    files: Seq<PixelFrame>,
    pick: int,
    e: Error,
) -> bool {
    match crate::avatar::first_model_failure(b.avatar_builders, data, pick, 0) {
        Some(crate::avatar::ModelFailure::EmptySource) => e is AvatarLoadError,
        Some(crate::avatar::ModelFailure::EvalFailed) => e is EvalPosError,
        None => {
            let vars = crate::pos::size_vars(
                avatar_sizes_of(b.avatar_builders, data, pick),
                text_sizes_of(b.text_builders, metrics),
            );
            match b.background_builder.info {
                Some(info) => {
                    match crate::pos::eval_sz(
                        info.0.0,
                        crate::pos::size_exprs_view(info.0.1@),
                        vars,
                    ) {
                        None => e is EvalPosError,
                        Some(sz) => {
                            if b.background_builder.path is None {
                                e is ImageSynthesisError && (sz.0 < 1 || sz.1 < 1 || sz.0 * sz.1
                                    > 268_435_456)
                            } else {
                                e is ImageSynthesisError && sz.0 < 0
                            }
                        },
                    }
                },
                None => e is FileError && files.len() == 0,
            }
        },
    }
}

/// A compiled template: one builder per component, ready to take request
/// data.  The avatar and text lists of the kept template are consumed into
/// their builders.
pub struct PetpetBuilder {
    pub template: PetpetTemplate,
    pub avatar_builders: AvatarBuilderList,
    pub text_builders: TextBuilderList,
    pub background_builder: BackgroundBuilder,
}

/// Whether a compiled template is internally consistent.
pub open spec fn petpet_builder_wf(b: PetpetBuilder) -> bool {
    &&& builder_list_wf(b.avatar_builders)
    &&& crate::background::background_wf(b.background_builder)
    &&& (forall|i: int|
        0 <= i < b.text_builders.builders@.len() ==> (#[trigger] b.text_builders.builders@[i]).built_template.raw.size
            >= 0)
}

impl PetpetBuilder {
    /// Compiles a whole template: every avatar placement, every text layer,
    /// and the background.  `background_path` names a file-backed frame
    /// sequence when one exists beside the template, with its frame count.
    pub fn new(template: PetpetTemplate, background_path: Option<String>, background_frames: usize) -> (r:
        Result<PetpetBuilder, Error>)
        ensures
            match r {
                Ok(b) => {
                    &&& petpet_builder_wf(b)
                    &&& b.template.delay == template.delay
                    &&& b.avatar_builders.builders@.len() == template.avatar@.len()
                    &&& (forall|i: int|
                        0 <= i < template.avatar@.len() ==> crate::avatar::spec_avatar_built_from(
                            (#[trigger] b.avatar_builders.builders@[i]).2.built_template,
                            template.avatar@[i],
                        ))
                    &&& b.text_builders.builders@.len() == template.text@.len()
                    &&& (forall|i: int|
                        0 <= i < template.text@.len() ==> crate::text::spec_text_built_from(
                            (#[trigger] b.text_builders.builders@[i]).built_template,
                            template.text@[i],
                        ))
                    &&& (b.background_builder.path is Some <==> background_path is Some)
                },
                Err(e) => {
                    &&& e is TemplateError
                    &&& ({
                        ||| (match template.background {
                            Some(b) => !(crate::pos::pos_item_valid(b.size.0)
                                && crate::pos::pos_item_valid(b.size.1)
                                && crate::color::spec_color_of_hex(b.color@) is Some),
                            None => background_path is None,
                        })
                        ||| (exists|i: int|
                            0 <= i < template.avatar@.len() && !crate::avatar::avatar_template_ok(
                                #[trigger] template.avatar@[i],
                            ))
                        ||| (exists|i: int|
                            0 <= i < template.text@.len() && !crate::text::text_template_ok(
                                #[trigger] template.text@[i],
                            ))
                    })
                },
            },
    {
        let PetpetTemplate {
            _type,
            avatar,
            text,
            background,
            delay,
            alias,
            in_random_list,
            reverse,
            hidden,
        } = template;
        let background_builder = match BackgroundBuilder::new(
            (match &background {
                Some(b) => Some(b),
                None => None,
            }),
            background_path,
            background_frames,
        ) {
            Ok(b) => b,
            Err(e) => {
                return Err(e);
            },
        };
        let avatar_builders = match AvatarBuilderList::new(avatar) {
            Ok(l) => l,
            Err(e) => {
                return Err(e);
            },
        };
        let text_builders = match TextBuilderList::new(text) {
            Ok(l) => l,
            Err(e) => {
                return Err(e);
            },
        };
        Ok(
            PetpetBuilder {
                template: PetpetTemplate {
                    _type,
                    avatar: Vec::new(),
                    text: Vec::new(),
                    background,
                    delay,
                    alias,
                    in_random_list,
                    reverse,
                    hidden,
                },
                avatar_builders,
                text_builders,
                background_builder,
            },
        )
    }

    /// Plans one request: binds the avatar sources and the substitution
    /// bundle, sizes the background against every layer, broadcasts a
    /// single background frame under animated avatars, fixes the per-frame
    /// delay, and lays out every output frame in the fixed z-order —
    /// bottom avatars, the background frame of that index, top avatars,
    /// then the text layers.
    pub fn build(
        &self,
        avatar_data: &AvatarData,
        text_data: &TextData,
        text_metrics: &Vec<TextMetrics>,
        file_images: Vec<PixelFrame>,
    ) -> (r: Result<RenderPlan, Error>)
        requires
            petpet_builder_wf(*self),
            avatar_data_wf(*avatar_data),
            text_metrics@.len() == self.text_builders.builders@.len(),
            forall|i: int|
                0 <= i < text_metrics@.len() ==> {
                    &&& (#[trigger] text_metrics@[i]).max_intrinsic_width >= 1
                    &&& text_metrics@[i].height >= 0
                    &&& text_metrics@[i].max_width >= 0
                },
            forall|i: int| 0 <= i < file_images@.len() ==> pixel_frame_wf(#[trigger] file_images@[i]),
        ensures
            match r {
                Ok(plan) => spec_build_result_ok(
                    *self,
                    *avatar_data,
                    text_metrics@,
                    file_images@,
                    plan,
                ),
                Err(e) => {
                    &&& (e is MissingDataError || e is AvatarLoadError || e is EvalPosError || e
                        is FileError || e is ImageSynthesisError)
                    &&& (e is MissingDataError <==> exists|i: int|
                        0 <= i < self.avatar_builders.builders@.len() && crate::avatar::data_missing(
                            (#[trigger] self.avatar_builders.builders@[i]).0,
                            *avatar_data,
                        ))
                    &&& (!(e is MissingDataError) ==> exists|pick: int|
                        (avatar_data.random@.len() > 0 ==> 0 <= pick < avatar_data.random@.len())
                            && #[trigger] spec_failure_matches(
                            *self,
                            *avatar_data,
                            text_metrics@,
                            file_images@,
                            pick,
                            e,
                        ))
                },
            },
    {
        let models = match self.avatar_builders.build(avatar_data) {
            Ok(m) => m,
            Err(e) => {
                proof {
                    if !(e is MissingDataError) {
                        let pk = choose|pk: int|
                            (avatar_data.random@.len() > 0 ==> 0 <= pk < avatar_data.random@.len())
                                && (match #[trigger] crate::avatar::first_model_failure(
                                self.avatar_builders,
                                *avatar_data,
                                pk,
                                0,
                            ) {
                                Some(crate::avatar::ModelFailure::EmptySource) => e is AvatarLoadError,
                                Some(crate::avatar::ModelFailure::EvalFailed) => e is EvalPosError,
                                None => false,
                            });
                        assert(spec_failure_matches(
                            *self,
                            *avatar_data,
                            text_metrics@,
                            file_images@,
                            pk,
                            e,
                        ));
                    }
                }
                return Err(e);
            },
        };
        let ghost pick: int = choose|p: int|
            (avatar_data.random@.len() > 0 ==> 0 <= p < avatar_data.random@.len())
                && #[trigger] crate::avatar::models_from_pick(
                self.avatar_builders,
                *avatar_data,
                models@,
                p,
            );
        proof {
            assert(crate::avatar::models_from_pick(self.avatar_builders, *avatar_data, models@, pick));
            assert forall|j: int| 0 <= j < models@.len() implies *(#[trigger] models@[j]).template
                == self.avatar_builders.builders@[j].2.built_template by {
                assert(crate::avatar::role_data(self.avatar_builders.builders@[j].0, *avatar_data, pick)
                    matches Some(fs) && crate::avatar::spec_model_from(
                    models@[j],
                    self.avatar_builders.builders@[j].2.built_template,
                    fs,
                ));
            }
        }
        let texts = self.text_builders.build(text_data);
        let mut avatar_sizes: Vec<OriginSize> = Vec::new();
        let mut avatar_total: usize = 0;
        let mut delay_sum: u128 = 0;
        let mut i: usize = 0;
        while i < models.len()
            invariant
                i <= models@.len(),
                avatar_sizes@.len() == i,
                delay_sum <= i * 65535,
                models@.len() == self.avatar_builders.builders@.len(),
                (avatar_data.random@.len() > 0 ==> 0 <= pick < avatar_data.random@.len()),
                crate::avatar::models_from_pick(self.avatar_builders, *avatar_data, models@, pick),
                delay_sum as int == sum_role_delays(self.avatar_builders, *avatar_data, pick, i as int),
                avatar_total as int == spec_total_length(self.avatar_builders, *avatar_data, pick, i as int),
                forall|k: int|
                    0 <= k < i ==> avatar_sizes@[k] == avatar_sizes_of(
                        self.avatar_builders,
                        *avatar_data,
                        pick,
                    )[k],
                forall|k: int| 0 <= k < models@.len() ==> crate::avatar::model_wf(#[trigger] models@[k]),
            decreases models@.len() - i,
        {
            proof {
                assert(crate::avatar::role_data(self.avatar_builders.builders@[i as int].0, *avatar_data, pick)
                    matches Some(fs) && crate::avatar::spec_model_from(
                    models@[i as int],
                    self.avatar_builders.builders@[i as int].2.built_template,
                    fs,
                ));
            }
            avatar_sizes.push(models[i].get_size());
            let l = models[i].get_length();
            avatar_total = if usize::MAX - avatar_total >= l {
                avatar_total + l
            } else {
                usize::MAX
            };
            proof {
                assert(delay_sum as int + models@[i as int].delay <= (i as int + 1) * 65535
                    && (i as int + 1) * 65535 < u128::MAX) by (nonlinear_arith)
                    requires
                        delay_sum as int <= (i as int) * 65535,
                        models@[i as int].delay <= 65535,
                        i as int + 1 <= 0x1_0000_0000_0000_0000,
                ;
                assert(avatar_sizes@[i as int] == avatar_sizes_of(
                    self.avatar_builders,
                    *avatar_data,
                    pick,
                )[i as int]);
            }
            delay_sum = delay_sum + models[i].delay as u128;
            i += 1;
        }
        proof {
            assert(avatar_sizes@ =~= avatar_sizes_of(self.avatar_builders, *avatar_data, pick));
        }
        let mut text_sizes: Vec<OriginSize> = Vec::new();
        let mut j: usize = 0;
        while j < texts.len()
            invariant
                j <= texts@.len(),
                texts@.len() == self.text_builders.builders@.len(),
                text_metrics@.len() == self.text_builders.builders@.len(),
                text_sizes@.len() == j,
                forall|k: int|
                    0 <= k < j ==> text_sizes@[k] == text_sizes_of(self.text_builders, text_metrics@)[k],
            decreases texts@.len() - j,
        {
            text_sizes.push(
                texts[j].get_size(&self.text_builders.builders[j].built_template, text_metrics[j].height),
            );
            j += 1;
        }
        proof {
            assert(text_sizes@ =~= text_sizes_of(self.text_builders, text_metrics@));
        }
        proof {
            crate::avatar::lemma_models_ok_no_failure(
                self.avatar_builders,
                *avatar_data,
                models@,
                pick,
                0,
            );
        }
        let (canvas, bgs) = match self.background_builder.create_background(
            &avatar_sizes,
            &text_sizes,
            file_images,
        ) {
            Ok(out) => out,
            Err(e) => {
                proof {
                    assert(spec_failure_matches(
                        *self,
                        *avatar_data,
                        text_metrics@,
                        file_images@,
                        pick,
                        e,
                    ));
                }
                return Err(e);
            },
        };
        let ghost bgn = bgs@.len() as int;
        proof {
            assert(bgn == bg_count_of(self.background_builder, file_images@.len() as int));
        }
        let bgs = BackgroundBuilder::repeat_for_avatar_length(bgs, avatar_total);
        proof {
            assert(bgs@.len() as int == spec_output_frames(
                bgn,
                spec_total_length(
                    self.avatar_builders,
                    *avatar_data,
                    pick,
                    self.avatar_builders.builders@.len() as int,
                ),
            ));
        }
        if canvas.0 < 0 {
            let e = Error::ImageSynthesisError("canvas width must not be negative".to_owned());
            proof {
                assert(spec_failure_matches(*self, *avatar_data, text_metrics@, file_images@, pick, e));
            }
            return Err(e);
        }
        let delay: u16 = if self.background_builder.path.is_some() {
            self.template.delay / 10
        } else if models.len() > 0 {
            let mean: u128 = delay_sum / (models.len() as u128);
            proof {
                assert(delay_sum as int / (models@.len() as int) <= 65535) by (nonlinear_arith)
                    requires
                        models@.len() > 0,
                        delay_sum as int <= (models@.len() as int) * 65535,
                ;
            }
            ((mean / 10) as u16)
        } else {
            self.template.delay / 10
        };
        let mut layer_plans: Vec<AvatarLayerPlan> = Vec::new();
        let mut m: usize = 0;
        while m < models.len()
            invariant
                m <= models@.len(),
                layer_plans@.len() == m,
                models@.len() == self.avatar_builders.builders@.len(),
                (avatar_data.random@.len() > 0 ==> 0 <= pick < avatar_data.random@.len()),
                crate::avatar::models_from_pick(self.avatar_builders, *avatar_data, models@, pick),
                forall|k: int|
                    0 <= k < m ==> (crate::avatar::role_data(
                        (#[trigger] self.avatar_builders.builders@[k]).0,
                        *avatar_data,
                        pick,
                    ) matches Some(fs) && layer_plan_matches(
                        layer_plans@[k],
                        self.avatar_builders.builders@[k].2.built_template,
                        fs,
                    )),
                forall|k: int| 0 <= k < models@.len() ==> crate::avatar::model_wf(#[trigger] models@[k]),
            decreases models@.len() - m,
        {
            proof {
                assert(crate::avatar::role_data(self.avatar_builders.builders@[m as int].0, *avatar_data, pick)
                    matches Some(fs) && crate::avatar::spec_model_from(
                    models@[m as int],
                    self.avatar_builders.builders@[m as int].2.built_template,
                    fs,
                ));
            }
            let model = &models[m];
            let ghost built = self.avatar_builders.builders@[m as int].2.built_template;
            let mut filter_plans: Vec<FilterPlan> = Vec::new();
            if model.template.raw.filter.len() > 0 {
                let mut fi: usize = 0;
                while fi < model.get_length()
                    invariant
                        crate::avatar::model_wf(*model),
                        *model.template == built,
                        fi <= model.count,
                        filter_plans@.len() == fi,
                        forall|k: int|
                            0 <= k < fi ==> crate::filter::filter_plan_matches(
                                #[trigger] filter_plans@[k],
                                built.raw.filter@,
                                k,
                                model.frame_width as int,
                                model.frame_height as int,
                            ),
                    decreases model.count - fi,
                {
                    filter_plans.push(
                        build_filter_plan(
                            &model.template.raw.filter,
                            fi,
                            model.frame_width,
                            model.frame_height,
                        ),
                    );
                    fi += 1;
                }
            }
            layer_plans.push(
                AvatarLayerPlan {
                    round: model.template.raw.round,
                    width: model.frame_width,
                    height: model.frame_height,
                    base_count: model.base_count,
                    filter_plans,
                },
            );
            m += 1;
        }
        let mut frames: Vec<FramePlan> = Vec::new();
        let mut f: usize = 0;
        while f < bgs.len()
            invariant
                f <= bgs@.len(),
                frames@.len() == f,
                canvas.0 >= 0,
                texts@.len() == self.text_builders.builders@.len(),
                text_metrics@.len() == self.text_builders.builders@.len(),
                petpet_builder_wf(*self),
                models@.len() == self.avatar_builders.builders@.len(),
                forall|k: int| 0 <= k < models@.len() ==> crate::avatar::model_wf(#[trigger] models@[k]),
                forall|j: int|
                    0 <= j < models@.len() ==> *(#[trigger] models@[j]).template
                        == self.avatar_builders.builders@[j].2.built_template,
                forall|i2: int|
                    0 <= i2 < text_metrics@.len() ==> {
                        &&& (#[trigger] text_metrics@[i2]).max_intrinsic_width >= 1
                        &&& text_metrics@[i2].height >= 0
                        &&& text_metrics@[i2].max_width >= 0
                    },
                forall|k: int|
                    0 <= k < f ==> frame_zorder(
                        (#[trigger] frames@[k]).ops@,
                        k,
                        self.text_builders.builders@.len() as int,
                    ),
                forall|k: int, k2: int|
                    0 <= k < f && 0 <= k2 < frames@[k].ops@.len() ==> avatar_op_consistent(
                        #[trigger] frames@[k].ops@[k2],
                        self.avatar_builders,
                    ),
                (avatar_data.random@.len() > 0 ==> 0 <= pick < avatar_data.random@.len()),
                crate::avatar::models_from_pick(self.avatar_builders, *avatar_data, models@, pick),
                forall|k: int, k2: int|
                    0 <= k < f && 0 <= k2 < frames@[k].ops@.len() ==> op_draws_model(
                        #[trigger] frames@[k].ops@[k2],
                        models@,
                        k,
                    ),
            decreases bgs@.len() - f,
        {
            let ops = self.plan_frame(&models, &texts, text_metrics, canvas.0, f);
            frames.push(FramePlan { ops });
            f += 1;
        }
        let plan = RenderPlan { canvas, backgrounds: bgs, avatars: layer_plans, frames, delay };
        proof {
            assert forall|f2: int, k: int|
                0 <= f2 < plan.frames@.len() && 0 <= k < plan.frames@[f2].ops@.len() implies (match #[trigger] plan.frames@[f2].ops@[k] {
                DrawOp::Avatar { index, op, .. } => (crate::avatar::role_data(
                    self.avatar_builders.builders@[index as int].0,
                    *avatar_data,
                    pick,
                ) matches Some(fs) && crate::avatar::spec_op_from(
                    op,
                    self.avatar_builders.builders@[index as int].2.built_template,
                    fs,
                    f2,
                )),
                _ => true,
            }) by {
                match plan.frames@[f2].ops@[k] {
                    DrawOp::Avatar { index, op, .. } => {
                        assert(op_draws_model(plan.frames@[f2].ops@[k], models@, f2));
                        assert(crate::avatar::role_data(
                            self.avatar_builders.builders@[index as int].0,
                            *avatar_data,
                            pick,
                        ) matches Some(fs) && crate::avatar::spec_model_from(
                            models@[index as int],
                            self.avatar_builders.builders@[index as int].2.built_template,
                            fs,
                        ));
                    },
                    _ => {
                    },
                }
            }
            assert((avatar_data.random@.len() > 0 ==> 0 <= pick < avatar_data.random@.len())
                && spec_plan_matches(*self, *avatar_data, text_metrics@, file_images@, pick, plan));
            assert(spec_build_result_ok(*self, *avatar_data, text_metrics@, file_images@, plan));
        }
        Ok(plan)
    }

    /// Lays out one output frame: bottom avatars, the background frame of
    /// this index, top avatars, then every text layer.
    fn plan_frame(
        &self,
        models: &Vec<AvatarModel<'_>>,
        texts: &Vec<TextModel>,
        text_metrics: &Vec<TextMetrics>,
        canvas_width: i32,
        f: usize,
    ) -> (ops: Vec<DrawOp>)
        requires
            petpet_builder_wf(*self),
            canvas_width >= 0,
            texts@.len() == self.text_builders.builders@.len(),
            text_metrics@.len() == self.text_builders.builders@.len(),
            models@.len() == self.avatar_builders.builders@.len(),
            forall|k: int| 0 <= k < models@.len() ==> crate::avatar::model_wf(#[trigger] models@[k]),
            forall|j: int|
                0 <= j < models@.len() ==> *(#[trigger] models@[j]).template
                    == self.avatar_builders.builders@[j].2.built_template,
            forall|i: int|
                0 <= i < text_metrics@.len() ==> {
                    &&& (#[trigger] text_metrics@[i]).max_intrinsic_width >= 1
                    &&& text_metrics@[i].height >= 0
                    &&& text_metrics@[i].max_width >= 0
                },
        ensures
            frame_zorder(ops@, f as int, self.text_builders.builders@.len() as int),
            forall|k: int| 0 <= k < ops@.len() ==> avatar_op_consistent(#[trigger] ops@[k], self.avatar_builders),
            forall|k: int| 0 <= k < ops@.len() ==> op_draws_model(#[trigger] ops@[k], models@, f as int),
    {
        let mut ops: Vec<DrawOp> = Vec::new();
        let mut j: usize = 0;
        while j < models.len()
            invariant
                j <= models@.len(),
                petpet_builder_wf(*self),
                models@.len() == self.avatar_builders.builders@.len(),
                forall|k: int| 0 <= k < models@.len() ==> crate::avatar::model_wf(#[trigger] models@[k]),
                forall|j2: int|
                    0 <= j2 < models@.len() ==> *(#[trigger] models@[j2]).template
                        == self.avatar_builders.builders@[j2].2.built_template,
                forall|k: int| 0 <= k < ops@.len() ==> is_bottom_op(#[trigger] ops@[k]),
                forall|k: int|
                    0 <= k < ops@.len() ==> avatar_op_consistent(#[trigger] ops@[k], self.avatar_builders),
                forall|k: int| 0 <= k < ops@.len() ==> op_draws_model(#[trigger] ops@[k], models@, f as int),
            decreases models@.len() - j,
        {
            if !models[j].template.raw.avatar_on_top {
                let op = models[j].draw(f);
                ops.push(DrawOp::Avatar { index: j, on_top: false, op });
            }
            j += 1;
        }
        let ghost b = ops@.len() as int;
        ops.push(DrawOp::Background { frame: f });
        let mut j2: usize = 0;
        while j2 < models.len()
            invariant
                j2 <= models@.len(),
                0 <= b,
                b + 1 <= ops@.len(),
                petpet_builder_wf(*self),
                models@.len() == self.avatar_builders.builders@.len(),
                forall|k: int| 0 <= k < models@.len() ==> crate::avatar::model_wf(#[trigger] models@[k]),
                forall|j3: int|
                    0 <= j3 < models@.len() ==> *(#[trigger] models@[j3]).template
                        == self.avatar_builders.builders@[j3].2.built_template,
                forall|k: int| 0 <= k < b ==> is_bottom_op(#[trigger] ops@[k]),
                is_bg_op(ops@[b], f as int),
                forall|k: int| b < k < ops@.len() ==> is_top_op(#[trigger] ops@[k]),
                forall|k: int|
                    0 <= k < ops@.len() ==> avatar_op_consistent(#[trigger] ops@[k], self.avatar_builders),
                forall|k: int| 0 <= k < ops@.len() ==> op_draws_model(#[trigger] ops@[k], models@, f as int),
            decreases models@.len() - j2,
        {
            if models[j2].template.raw.avatar_on_top {
                let op = models[j2].draw(f);
                ops.push(DrawOp::Avatar { index: j2, on_top: true, op });
            }
            proof {
                assert(forall|k: int| 0 <= k < b ==> is_bottom_op(#[trigger] ops@[k]));
                assert(is_bg_op(ops@[b], f as int));
            }
            j2 += 1;
        }
        let ghost t = ops@.len() as int;
        let mut j3: usize = 0;
        while j3 < texts.len()
            invariant
                j3 <= texts@.len(),
                texts@.len() == self.text_builders.builders@.len(),
                text_metrics@.len() == self.text_builders.builders@.len(),
                petpet_builder_wf(*self),
                canvas_width >= 0,
                forall|i: int|
                    0 <= i < text_metrics@.len() ==> {
                        &&& (#[trigger] text_metrics@[i]).max_intrinsic_width >= 1
                        &&& text_metrics@[i].height >= 0
                        &&& text_metrics@[i].max_width >= 0
                    },
                0 <= b,
                b + 1 <= t <= ops@.len(),
                ops@.len() == t + j3,
                forall|k: int| 0 <= k < b ==> is_bottom_op(#[trigger] ops@[k]),
                is_bg_op(ops@[b], f as int),
                forall|k: int| b < k < t ==> is_top_op(#[trigger] ops@[k]),
                forall|k: int| t <= k < ops@.len() ==> is_text_op(#[trigger] ops@[k]),
                forall|k: int|
                    0 <= k < ops@.len() ==> avatar_op_consistent(#[trigger] ops@[k], self.avatar_builders),
                forall|k: int| 0 <= k < ops@.len() ==> op_draws_model(#[trigger] ops@[k], models@, f as int),
            decreases texts@.len() - j3,
        {
            let op = texts[j3].draw_plan(
                &self.text_builders.builders[j3].built_template,
                canvas_width,
                &text_metrics[j3],
            );
            ops.push(DrawOp::Text { index: j3, op });
            proof {
                assert(forall|k: int| 0 <= k < b ==> is_bottom_op(#[trigger] ops@[k]));
                assert(is_bg_op(ops@[b], f as int));
            }
            j3 += 1;
        }
        proof {
            assert(zsplit(ops@, f as int, b, t));
            assert(ops@.len() - t == self.text_builders.builders@.len() as int);
        }
        ops
    }
}

} // verus!
