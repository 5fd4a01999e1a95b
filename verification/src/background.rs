use vstd::prelude::*;

use crate::color::{parse_color, spec_color_of_hex, Color};
use crate::error::Error;
use crate::pos::{
    compile_size, eval_background_size, eval_sz, pos_item_lit, pos_item_valid, size_entries_wf,
    size_exprs_view, size_slot_entries, size_vars, CompiledSize, OriginSize,
};
use crate::template::BackgroundTemplate;

verus! {

/// One rendered frame: its pixel size and its RGBA bytes, four per pixel in
/// row-major order.
#[derive(Debug)]
pub struct PixelFrame {
    pub width: i32,
    pub height: i32,
    pub rgba: Vec<u8>,
}

pub open spec fn pixel_frame_wf(f: PixelFrame) -> bool {
    &&& f.width >= 1
    &&& f.height >= 1
    &&& f.rgba@.len() == 4 * f.width * f.height
}

/// The RGBA bytes of `n` pixels of one solid color.
pub open spec fn spec_solid_rgba(n: int, c: Color) -> Seq<u8>
    decreases n,
{
    if n <= 0 {
        Seq::empty()
    } else {
        spec_solid_rgba(n - 1, c) + seq![c.r, c.g, c.b, c.a]
    }
}

/// Whether a frame is a solid fill of one color at one size.
pub open spec fn frame_is_solid(f: PixelFrame, w: int, h: int, c: Color) -> bool {
    &&& f.width as int == w
    &&& f.height as int == h
    &&& f.rgba@ == spec_solid_rgba(w * h, c)
}

proof fn lemma_solid_rgba_len(n: int, c: Color)
    requires
        n >= 0,
    ensures
        spec_solid_rgba(n, c).len() == 4 * n,
    decreases n,
{
    if n > 0 {
        lemma_solid_rgba_len(n - 1, c);
    }
}

/// Synthesizes one solid frame of the given size and color.
fn make_solid_frame(w: i32, h: i32, c: Color) -> (f: PixelFrame)
    requires
        w >= 1,
        h >= 1,
        4 * ((w as int) * (h as int)) <= usize::MAX,
    ensures
        pixel_frame_wf(f),
        frame_is_solid(f, w as int, h as int, c),
{
    let wh: i64 = crate::strutil::mul_i32_i64(w, h);
    proof {
        assert(1 <= (w as int) * (h as int) && 4 * ((w as int) * (h as int)) == 4 * (w as int) * (
        h as int)) by (nonlinear_arith)
            requires
                w >= 1,
                h >= 1,
        ;
    }
    let n: usize = wh as usize;
    let mut rgba: Vec<u8> = Vec::new();
    let mut i: usize = 0;
    while i < n
        invariant
            i <= n,
            rgba@ == spec_solid_rgba(i as int, c),
            rgba@.len() == 4 * i,
        decreases n - i,
    {
        rgba.push(c.r);
        rgba.push(c.g);
        rgba.push(c.b);
        rgba.push(c.a);
        proof {
            assert(rgba@ =~= spec_solid_rgba(i as int + 1, c));
        }
        i += 1;
    }
    proof {
        assert((4 * ((w as int) * (h as int))) == 4 * (w as int) * (h as int)) by (nonlinear_arith);
        lemma_solid_rgba_len((w as int) * (h as int), c);
    }
    PixelFrame { width: w, height: h, rgba }
}

/// A compiled background: a synthesized size and color (when the template
/// declares one), the frame count, and the path of a file-backed frame
/// sequence (when one exists).
pub struct BackgroundBuilder {
    pub info: Option<(CompiledSize, Color)>,
    pub length: usize,
    pub path: Option<String>,
}

/// The Ok-side relation of `BackgroundBuilder::new`.
pub open spec fn spec_background_built_from(
    b: BackgroundBuilder,
    template: Option<BackgroundTemplate>,
    path_present: bool,
    path_frames: int,
) -> bool {
    match template {
        Some(t) => {
            &&& (b.info matches Some(i) && {
                &&& i.0.0.0 == pos_item_lit(t.size.0)
                &&& i.0.0.1 == pos_item_lit(t.size.1)
                &&& size_exprs_view(i.0.1@) == size_slot_entries(t.size.0, 0) + size_slot_entries(
                    t.size.1,
                    1,
                )
                &&& spec_color_of_hex(t.color@) == Some(i.1)
                &&& size_entries_wf(size_exprs_view(i.0.1@))
            })
            &&& b.length == t.length
        },
        None => {
            &&& b.info is None
            &&& path_present
            &&& b.length as int == path_frames
        },
    }
}

/// Whether a compiled background can be evaluated: every recorded size
/// slot is one the compiler produces.
pub open spec fn background_wf(b: BackgroundBuilder) -> bool {
    b.info matches Some(i) ==> size_entries_wf(size_exprs_view(i.0.1@))
}

impl BackgroundBuilder {
    /// Compiles the background of a template: a declared background brings
    /// a size (possibly expression-valued) and a solid color; without one, a
    /// file-backed frame sequence must exist, and its frame count rules.
    /// Neither is a template error.
    pub fn new(template: Option<&BackgroundTemplate>, path: Option<String>, path_frames: usize) -> (r:
        Result<BackgroundBuilder, Error>)
        ensures
            match r {
                Ok(b) => {
                    &&& spec_background_built_from(
                        b,
                        (match template {
                            Some(t) => Some(*t),
                            None => None,
                        }),
                        path is Some,
                        path_frames as int,
                    )
                    &&& (b.path matches Some(p) ==> (path matches Some(q) && p@ == q@))
                    &&& (b.path is Some <==> path is Some)
                },
                Err(e) => {
                    &&& e is TemplateError
                    &&& (match template {
                        Some(t) => !(pos_item_valid(t.size.0) && pos_item_valid(t.size.1)
                            && spec_color_of_hex(t.color@) is Some),
                        None => path is None,
                    })
                },
            },
    {
        match template {
            Some(t) => {
                let cs = match compile_size(&t.size) {
                    Ok(c) => c,
                    Err(e) => {
                        return Err(e);
                    },
                };
                let color = match parse_color(t.color.as_str()) {
                    Ok(c) => c,
                    Err(e) => {
                        return Err(e);
                    },
                };
                Ok(BackgroundBuilder { info: Some((cs, color)), length: t.length as usize, path })
            },
            None => {
                match path {
                    Some(p) => Ok(BackgroundBuilder { info: None, length: path_frames, path: Some(p) }),
                    None => Err(
                        Error::TemplateError("a template needs a background declaration or a background file".to_owned()),
                    ),
                }
            },
        }
    }

    /// The canvas size and the background frames of one request.  A
    /// synthesized background without a file produces `length` identical
    /// solid-color frames; with a file, the loaded frames are used as they
    /// are, and a declared size expression is still evaluated against the
    /// collected layer sizes to fix the canvas.
    pub fn create_background(
        &self,
        avatar_sizes: &Vec<OriginSize>,
        text_sizes: &Vec<OriginSize>,
        file_images: Vec<PixelFrame>,
    ) -> (r: Result<(OriginSize, Vec<PixelFrame>), Error>)
        requires
            background_wf(*self),
            forall|i: int| 0 <= i < file_images@.len() ==> pixel_frame_wf(#[trigger] file_images@[i]),
        ensures
            match r {
                Ok(out) => {
                    &&& (match self.info {
                        Some(info) => {
                            &&& eval_sz(
                                info.0.0,
                                size_exprs_view(info.0.1@),
                                size_vars(avatar_sizes@, text_sizes@),
                            ) == Some(out.0)
                            &&& (self.path is None ==> {
                                &&& out.0.0 as int * out.0.1 as int <= 268_435_456
                                &&& out.1@.len() == self.length
                                &&& (forall|i: int|
                                    0 <= i < out.1@.len() ==> frame_is_solid(
                                        #[trigger] out.1@[i],
                                        out.0.0 as int,
                                        out.0.1 as int,
                                        info.1,
                                    ))
                                &&& out.0.0 >= 1 && out.0.1 >= 1
                            })
                            &&& (self.path is Some ==> out.1 == file_images)
                        },
                        None => {
                            &&& file_images@.len() > 0
                            &&& out.0 == (file_images@[0].width, file_images@[0].height)
                            &&& out.1 == file_images
                        },
                    })
                },
                Err(e) => (match self.info {
                    Some(info) => {
                        let out_sz = eval_sz(
                            info.0.0,
                            size_exprs_view(info.0.1@),
                            size_vars(avatar_sizes@, text_sizes@),
                        );
                        match out_sz {
                            None => e is EvalPosError,
                            Some(sz) => {
                                &&& self.path is None
                                &&& e is ImageSynthesisError
                                &&& (sz.0 < 1 || sz.1 < 1 || sz.0 * sz.1 > 268_435_456)
                            },
                        }
                    },
                    None => e is FileError && file_images@.len() == 0,
                }),
            },
    {
        match &self.info {
            Some(info) => {
                let size = match eval_background_size(&info.0, avatar_sizes, text_sizes) {
                    Ok(s) => s,
                    Err(e) => {
                        return Err(e);
                    },
                };
                if self.path.is_some() {
                    return Ok((size, file_images));
                }
                let (w, h) = size;
                if w < 1 || h < 1 {
                    return Err(
                        Error::ImageSynthesisError("background size must be positive".to_owned()),
                    );
                }
                let wh: i64 = crate::strutil::mul_i32_i64(w, h);
                if wh > 268_435_456i64 {
                    return Err(
                        Error::ImageSynthesisError("background size is beyond the canvas limit".to_owned()),
                    );
                }
                proof {
                    assert((w as int) * (h as int) <= 268_435_456);
                    assert(4 * ((w as int) * (h as int)) <= usize::MAX);
                }
                let mut frames: Vec<PixelFrame> = Vec::new();
                let mut i: usize = 0;
                while i < self.length
                    invariant
                        i <= self.length,
                        w >= 1,
                        h >= 1,
                        4 * ((w as int) * (h as int)) <= usize::MAX,
                        frames@.len() == i,
                        forall|k: int|
                            0 <= k < i ==> frame_is_solid(
                                #[trigger] frames@[k],
                                w as int,
                                h as int,
                                info.1,
                            ),
                    decreases self.length - i,
                {
                    frames.push(make_solid_frame(w, h, info.1));
                    i += 1;
                }
                Ok(((w, h), frames))
            },
            None => {
                if file_images.len() == 0 {
                    return Err(Error::FileError("background file holds no frames".to_owned()));
                }
                let size = (file_images[0].width, file_images[0].height);
                Ok((size, file_images))
            },
        }
    }

    /// Broadcasts a single background frame across an animated avatar set:
    /// a one-frame background under avatars that animate is replicated up
    /// to the avatars' length; anything else is kept as it is.
    pub fn repeat_for_avatar_length(bgs: Vec<PixelFrame>, avatar_length: usize) -> (r: Vec<
        PixelFrame,
    >)
        ensures
            (bgs@.len() != 1 || avatar_length <= 1) ==> r == bgs,
            (bgs@.len() == 1 && avatar_length > 1) ==> {
                &&& r@.len() == avatar_length
                &&& (forall|i: int|
                    0 <= i < r@.len() ==> frame_like(#[trigger] r@[i], bgs@[0]))
            },
    {
        if bgs.len() != 1 || avatar_length <= 1 {
            return bgs;
        }
        let first = &bgs[0];
        let mut out: Vec<PixelFrame> = Vec::new();
        let mut i: usize = 0;
        while i < avatar_length
            invariant
                i <= avatar_length,
                out@.len() == i,
                bgs@.len() == 1,
                *first == bgs@[0],
                forall|k: int| 0 <= k < i ==> frame_like(#[trigger] out@[k], bgs@[0]),
            decreases avatar_length - i,
        {
            out.push(copy_frame(first));
            i += 1;
        }
        out
    }
}

/// Whether two frames hold the same size and the same pixels.
pub open spec fn frame_like(a: PixelFrame, b: PixelFrame) -> bool {
    a.width == b.width && a.height == b.height && a.rgba@ == b.rgba@
}

/// A pixel-identical copy of a frame.
fn copy_frame(f: &PixelFrame) -> (r: PixelFrame)
    ensures
        frame_like(r, *f),
{
    let mut rgba: Vec<u8> = Vec::new();
    let mut i: usize = 0;
    while i < f.rgba.len()
        invariant
            i <= f.rgba@.len(),
            rgba@ =~= f.rgba@.take(i as int),
        decreases f.rgba@.len() - i,
    {
        rgba.push(f.rgba[i]);
        i += 1;
    }
    proof {
        assert(rgba@ =~= f.rgba@);
    }
    PixelFrame { width: f.width, height: f.height, rgba }
}

} // verus!
