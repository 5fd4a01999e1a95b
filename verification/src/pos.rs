use vstd::prelude::*;

use crate::error::Error;
use crate::template::{PosDimension, PosItem};

verus! {

/// A width/height pair, in pixels.
pub type OriginSize = (i32, i32);

/// An axis-aligned rectangle: x, y, width, height.
pub type XYWH = (i32, i32, i32, i32);

/// A point, in pixels.
pub type P = (i32, i32);

/// A deform group: four corner offsets followed by their anchor.
pub type RO = (P, P, P, P, P);

/// The quadrilateral an avatar frame is mapped onto: top-left, bottom-left,
/// bottom-right, top-right.
pub type Quad = (P, P, P, P);

/// Where an expression slot lands: frame index, slot index within the frame,
/// and coordinate index (x or y) for deform points.
pub type Expr3DIndex = (usize, usize, usize);

/// A pending geometry expression and the slot it rewrites.
pub type CompiledExpr = (String, Expr3DIndex);

pub type CompiledExprVec = Vec<CompiledExpr>;

/// Fully numeric geometry: one rectangle per frame, or one quadrilateral per
/// frame.  Slots that await an expression hold `i32::MIN` until evaluation.
#[derive(Debug, Clone)]
pub enum CompiledNumberPosDimension {
    P2D(Vec<XYWH>),
    P3D(Vec<Quad>),
}

/// Compiled geometry: the numeric part plus every expression slot, each
/// recorded exactly once with its target coordinate index.
pub type CompiledPos = (CompiledNumberPosDimension, CompiledExprVec);

/// A compiled background size: literal width/height plus pending expression
/// slots (0 rewrites the width, 1 the height).
pub type CompiledSizeExpr = (String, usize);

pub type CompiledSize = (OriginSize, Vec<CompiledSizeExpr>);

// ---------------------------------------------------------------------------
// Trusted boundary: the expression engine.
// ---------------------------------------------------------------------------

/// The four characters the expression engine's tokenizer skips as
/// whitespace.
pub open spec fn spec_is_expr_ws(c: char) -> bool {
    c == ' ' || c == '\t' || c == '\r' || c == '\n'
}

/// Whether an expression string holds anything beyond whitespace.  The
/// expression engine's tokenizer aborts on a nonempty whitespace-only
/// string, so every call into it demands this.
pub open spec fn expr_has_content(s: Seq<char>) -> bool {
    exists|i: int| 0 <= i < s.len() && !spec_is_expr_ws(#[trigger] s[i])
}

/// Whether a string holds a non-whitespace character.
fn has_expr_content(s: &str) -> (r: bool)
    ensures
        r == expr_has_content(s@),
{
    let chars = crate::strutil::str_to_chars(s);
    let mut i: usize = 0;
    while i < chars.len()
        invariant
            i <= chars@.len(),
            chars@ == s@,
            forall|k: int| 0 <= k < i ==> spec_is_expr_ws(#[trigger] s@[k]),
        decreases chars@.len() - i,
    {
        let c = chars[i];
        if !(c == ' ' || c == '\t' || c == '\r' || c == '\n') {
            return true;
        }
        i += 1;
    }
    false
}

/// Whether a geometry expression is syntactically valid.
pub uninterp spec fn expr_parses(s: Seq<char>) -> bool;

/// The rounded integer value of a geometry expression under the given
/// variable bindings, or `None` when parsing or evaluation fails.  The
/// value is fixed by the text and the bindings; for the engine's
/// transcendental builtins it follows the platform's math library, so it
/// is stable per process rather than bit-identical across machines.
pub uninterp spec fn eval_of(expr: Seq<char>, vars: Seq<(Seq<char>, int)>) -> Option<i32>;

/// Relies on `meval::Expr::from_str` (through `str::parse`): whether an
/// expression parses depends on its text alone.  The tokenizer aborts on a
/// nonempty whitespace-only string, so such strings are excluded.
#[verifier::external_body]
fn expr_parse_ok(s: &str) -> (r: bool)
    requires
        expr_has_content(s@),
    ensures
        r == expr_parses(s@),
{
    s.parse::<meval::Expr>().is_ok()
}

/// The bindings a variable list denotes, by view.
pub open spec fn vars_view(v: Seq<(String, i32)>) -> Seq<(Seq<char>, int)> {
    v.map_values(|p: (String, i32)| (p.0@, p.1 as int))
}

/// Relies on `meval::eval_str_with_context` over `meval::Context::new()`
/// extended with the given variables: the result depends on the expression
/// text and the bindings alone, rounded to the nearest integer; an
/// unparseable expression never evaluates.  The tokenizer aborts on a
/// nonempty whitespace-only string, so such strings are excluded.  The
/// engine's transcendental builtins follow the platform's math library, so
/// their bit-level results are fixed per process, not across machines.
#[verifier::external_body]
fn eval_expr_i32(expr: &str, vars: &Vec<(String, i32)>) -> (r: Option<i32>)
    requires
        expr_has_content(expr@),
    ensures
        r == eval_of(expr@, vars_view(vars@)),
        !expr_parses(expr@) ==> r is None,
{
    let mut ctx = meval::Context::new();
    for (name, value) in vars.iter() {
        ctx.var(name.clone(), (*value).into());
    }
    match meval::eval_str_with_context(expr, ctx) {
        Ok(v) => Some(v.round() as i32),
        Err(_) => None,
    }
}

// ---------------------------------------------------------------------------
// Views of declared geometry.
// ---------------------------------------------------------------------------

/// The literal value a slot compiles to: its number, or the `i32::MIN`
/// placeholder for an expression slot.
pub open spec fn pos_item_lit(it: PosItem) -> i32 {
    match it {
        PosItem::Num(n) => n,
        PosItem::Expr(_) => i32::MIN,
    }
}

/// Whether a geometry slot can be compiled: a number always can; an
/// expression must hold more than whitespace and must parse.
pub open spec fn pos_item_valid(it: PosItem) -> bool {
    match it {
        PosItem::Num(_) => true,
        PosItem::Expr(s) => expr_has_content(s@) && expr_parses(s@),
    }
}

pub open spec fn rows2d_view(rows: Vec<Vec<PosItem>>) -> Seq<Seq<PosItem>> {
    rows@.map_values(|r: Vec<PosItem>| r@)
}

pub open spec fn rows3d_view(rows: Vec<Vec<Vec<PosItem>>>) -> Seq<Seq<Seq<PosItem>>> {
    rows@.map_values(|r: Vec<Vec<PosItem>>| rows2d_view(r))
}

/// An expression slot by view: its text and target coordinate index.
pub type ExprEntry = (Seq<char>, (int, int, int));

pub open spec fn expr_entry_view(e: CompiledExpr) -> ExprEntry {
    (e.0@, (e.1.0 as int, e.1.1 as int, e.1.2 as int))
}

pub open spec fn exprs_view(v: Seq<CompiledExpr>) -> Seq<ExprEntry> {
    v.map_values(|e: CompiledExpr| expr_entry_view(e))
}

// -- zoom (one rectangle of four slots per frame) ---------------------------

pub open spec fn p2d_rows_ok(rows: Seq<Seq<PosItem>>) -> bool {
    forall|i: int| 0 <= i < rows.len() ==> (#[trigger] rows[i]).len() == 4
}

pub open spec fn p2d_all_valid(rows: Seq<Seq<PosItem>>) -> bool {
    forall|i: int, j: int|
        0 <= i < rows.len() && 0 <= j < rows[i].len() ==> pos_item_valid(#[trigger] rows[i][j])
}

pub open spec fn row_lits(row: Seq<PosItem>) -> XYWH {
    (pos_item_lit(row[0]), pos_item_lit(row[1]), pos_item_lit(row[2]), pos_item_lit(row[3]))
}

pub open spec fn p2d_lits(rows: Seq<Seq<PosItem>>) -> Seq<XYWH> {
    rows.map_values(|r: Seq<PosItem>| row_lits(r))
}

/// The expression slots of the first `j` cells of a zoom row at frame `x`.
pub open spec fn row_entries_upto(row: Seq<PosItem>, x: int, j: int) -> Seq<ExprEntry>
    decreases j,
{
    if j <= 0 {
        Seq::empty()
    } else {
        row_entries_upto(row, x, j - 1) + (match row[j - 1] {
            PosItem::Expr(s) => seq![(s@, (x, j - 1, 0int))],
            PosItem::Num(_) => Seq::empty(),
        })
    }
}

pub open spec fn row_entries(row: Seq<PosItem>, x: int) -> Seq<ExprEntry> {
    row_entries_upto(row, x, 4)
}

/// The expression slots of the first `i` zoom rows, in row-major order.
pub open spec fn p2d_entries_upto(rows: Seq<Seq<PosItem>>, i: int) -> Seq<ExprEntry>
    decreases i,
{
    if i <= 0 {
        Seq::empty()
    } else {
        p2d_entries_upto(rows, i - 1) + row_entries(rows[i - 1], i - 1)
    }
}

pub open spec fn p2d_entries(rows: Seq<Seq<PosItem>>) -> Seq<ExprEntry> {
    p2d_entries_upto(rows, rows.len() as int)
}

// -- deform (five two-slot points per frame) --------------------------------

pub open spec fn row3d_ok(row: Seq<Seq<PosItem>>) -> bool {
    &&& row.len() == 5
    &&& forall|y: int| 0 <= y < row.len() ==> (#[trigger] row[y]).len() == 2
}

pub open spec fn p3d_rows_ok(rows: Seq<Seq<Seq<PosItem>>>) -> bool {
    forall|i: int| 0 <= i < rows.len() ==> row3d_ok(#[trigger] rows[i])
}

pub open spec fn p3d_all_valid(rows: Seq<Seq<Seq<PosItem>>>) -> bool {
    forall|i: int, y: int, j: int|
        0 <= i < rows.len() && 0 <= y < rows[i].len() && 0 <= j < rows[i][y].len()
            ==> pos_item_valid(#[trigger] rows[i][y][j])
}

pub open spec fn point_lit(p: Seq<PosItem>) -> P {
    (pos_item_lit(p[0]), pos_item_lit(p[1]))
}

/// The absolute corner sums of one deform row, over unbounded integers.
pub open spec fn quad_sums(row: Seq<Seq<PosItem>>) -> ((int, int), (int, int), (int, int), (int, int)) {
    let anchor = point_lit(row[4]);
    (
        (anchor.0 + point_lit(row[0]).0, anchor.1 + point_lit(row[0]).1),
        (anchor.0 + point_lit(row[1]).0, anchor.1 + point_lit(row[1]).1),
        (anchor.0 + point_lit(row[2]).0, anchor.1 + point_lit(row[2]).1),
        (anchor.0 + point_lit(row[3]).0, anchor.1 + point_lit(row[3]).1),
    )
}

pub open spec fn sum_in_range(s: (int, int)) -> bool {
    &&& i32::MIN <= s.0 <= i32::MAX
    &&& i32::MIN <= s.1 <= i32::MAX
}

pub open spec fn row3d_in_range(row: Seq<Seq<PosItem>>) -> bool {
    let q = quad_sums(row);
    sum_in_range(q.0) && sum_in_range(q.1) && sum_in_range(q.2) && sum_in_range(q.3)
}

pub open spec fn quad_of_row(row: Seq<Seq<PosItem>>) -> Quad {
    let q = quad_sums(row);
    (
        (q.0.0 as i32, q.0.1 as i32),
        (q.1.0 as i32, q.1.1 as i32),
        (q.2.0 as i32, q.2.1 as i32),
        (q.3.0 as i32, q.3.1 as i32),
    )
}

pub open spec fn p3d_quads(rows: Seq<Seq<Seq<PosItem>>>) -> Seq<Quad> {
    rows.map_values(|r: Seq<Seq<PosItem>>| quad_of_row(r))
}

pub open spec fn point_entries(p: Seq<PosItem>, x: int, y: int) -> Seq<ExprEntry> {
    (match p[0] {
        PosItem::Expr(s) => seq![(s@, (x, y, 0int))],
        PosItem::Num(_) => Seq::empty(),
    }) + (match p[1] {
        PosItem::Expr(s) => seq![(s@, (x, y, 1int))],
        PosItem::Num(_) => Seq::empty(),
    })
}

pub open spec fn row3d_entries_upto(row: Seq<Seq<PosItem>>, x: int, y: int) -> Seq<ExprEntry>
    decreases y,
{
    if y <= 0 {
        Seq::empty()
    } else {
        row3d_entries_upto(row, x, y - 1) + point_entries(row[y - 1], x, y - 1)
    }
}

pub open spec fn p3d_entries_upto(rows: Seq<Seq<Seq<PosItem>>>, i: int) -> Seq<ExprEntry>
    decreases i,
{
    if i <= 0 {
        Seq::empty()
    } else {
        p3d_entries_upto(rows, i - 1) + row3d_entries_upto(rows[i - 1], i - 1, 5)
    }
}

pub open spec fn p3d_entries(rows: Seq<Seq<Seq<PosItem>>>) -> Seq<ExprEntry> {
    p3d_entries_upto(rows, rows.len() as int)
}

// ---------------------------------------------------------------------------
// Compilation.
// ---------------------------------------------------------------------------

/// Turns anchor-relative corner offsets into absolute corner positions:
/// each absolute corner is the anchor plus the corresponding offset,
/// independently in x and y.
pub fn relative_to_absolute(relative_pos: RO) -> (r: Quad)
    requires
        i32::MIN <= relative_pos.4.0 + relative_pos.0.0 <= i32::MAX,
        i32::MIN <= relative_pos.4.1 + relative_pos.0.1 <= i32::MAX,
        i32::MIN <= relative_pos.4.0 + relative_pos.1.0 <= i32::MAX,
        i32::MIN <= relative_pos.4.1 + relative_pos.1.1 <= i32::MAX,
        i32::MIN <= relative_pos.4.0 + relative_pos.2.0 <= i32::MAX,
        i32::MIN <= relative_pos.4.1 + relative_pos.2.1 <= i32::MAX,
        i32::MIN <= relative_pos.4.0 + relative_pos.3.0 <= i32::MAX,
        i32::MIN <= relative_pos.4.1 + relative_pos.3.1 <= i32::MAX,
    ensures
        r.0.0 == relative_pos.4.0 + relative_pos.0.0,
        r.0.1 == relative_pos.4.1 + relative_pos.0.1,
        r.1.0 == relative_pos.4.0 + relative_pos.1.0,
        r.1.1 == relative_pos.4.1 + relative_pos.1.1,
        r.2.0 == relative_pos.4.0 + relative_pos.2.0,
        r.2.1 == relative_pos.4.1 + relative_pos.2.1,
        r.3.0 == relative_pos.4.0 + relative_pos.3.0,
        r.3.1 == relative_pos.4.1 + relative_pos.3.1,
{
    let (p0, p1, p2, p3, anchor) = relative_pos;
    let absolute_p0 = (anchor.0 + p0.0, anchor.1 + p0.1);
    let absolute_p1 = (anchor.0 + p1.0, anchor.1 + p1.1);
    let absolute_p2 = (anchor.0 + p2.0, anchor.1 + p2.1);
    let absolute_p3 = (anchor.0 + p3.0, anchor.1 + p3.1);
    (absolute_p0, absolute_p1, absolute_p2, absolute_p3)
}

/// The sum of two coordinates when it stays within `i32`, `None` otherwise.
fn add_in_range(a: i32, b: i32) -> (r: Option<i32>)
    ensures
        match r {
            Some(v) => sum_in_range((a + b, a + b)) && v == a + b,
            None => !sum_in_range((a + b, a + b)),
        },
{
    let s: i64 = a as i64 + b as i64;
    if s < i32::MIN as i64 || s > i32::MAX as i64 {
        None
    } else {
        Some(s as i32)
    }
}

/// Compiles one geometry slot: a number keeps its value, an expression is
/// syntax-checked, recorded with its coordinate index, and leaves the
/// `i32::MIN` placeholder behind.
pub fn compile_pos_item(pos_item: &PosItem, expr_vec: &mut Vec<CompiledExpr>, index3d: Expr3DIndex) -> (r:
    Result<i32, Error>)
    ensures
        match r {
            Ok(v) => {
                &&& v == pos_item_lit(*pos_item)
                &&& pos_item_valid(*pos_item)
                &&& match *pos_item {
                    PosItem::Num(_) => final(expr_vec)@ == old(expr_vec)@,
                    PosItem::Expr(s) => exprs_view(final(expr_vec)@) == exprs_view(old(expr_vec)@).push(
                        (s@, (index3d.0 as int, index3d.1 as int, index3d.2 as int)),
                    ),
                }
            },
            Err(e) => {
                &&& e is TemplateError
                &&& !pos_item_valid(*pos_item)
                &&& final(expr_vec)@ == old(expr_vec)@
            },
        },
{
    match pos_item {
        PosItem::Num(n) => Ok(*n),
        PosItem::Expr(s) => {
            if !has_expr_content(s.as_str()) {
                return Err(Error::TemplateError("a geometry expression must hold more than whitespace".to_owned()));
            }
            if expr_parse_ok(s.as_str()) {
                expr_vec.push((s.clone(), index3d));
                proof {
                    assert(exprs_view(expr_vec@) =~~= exprs_view(old(expr_vec)@).push(
                        (s@, (index3d.0 as int, index3d.1 as int, index3d.2 as int)),
                    ));
                }
                Ok(i32::MIN)
            } else {
                Err(Error::TemplateError("invalid geometry expression".to_owned()))
            }
        },
    }
}

/// Compiles declared geometry into its numeric form plus the recorded
/// expression slots.  A flat (one-dimensional) shape must have been promoted
/// by the caller; zoom frames need exactly four slots, deform frames exactly
/// five two-slot points, and deform corners are resolved to absolute
/// positions at once.  That one-shot resolution is deliberate: a recorded
/// deform slot is never rewritten later, so its placeholder takes part in
/// the corner sums here (and usually drives them out of range) — only zoom
/// slots are evaluated per request.
pub fn compile_pos(origin_pos: PosDimension) -> (r: Result<CompiledPos, Error>)
    ensures
        match origin_pos {
            PosDimension::P1D(_) => r matches Err(e) && e is TemplateError,
            PosDimension::P2D(p2d) => {
                let rows = rows2d_view(p2d);
                match r {
                    Ok(cp) => {
                        &&& p2d_rows_ok(rows)
                        &&& p2d_all_valid(rows)
                        &&& (cp.0 matches CompiledNumberPosDimension::P2D(v) && v@ == p2d_lits(rows))
                        &&& exprs_view(cp.1@) == p2d_entries(rows)
                        &&& entries2d_have_content(exprs_view(cp.1@))
                    },
                    Err(e) => {
                        &&& e is TemplateError
                        &&& !(p2d_rows_ok(rows) && p2d_all_valid(rows))
                    },
                }
            },
            PosDimension::P3D(p3d) => {
                let rows = rows3d_view(p3d);
                match r {
                    Ok(cp) => {
                        &&& p3d_rows_ok(rows)
                        &&& p3d_all_valid(rows)
                        &&& forall|i: int| 0 <= i < rows.len() ==> row3d_in_range(#[trigger] rows[i])
                        &&& (cp.0 matches CompiledNumberPosDimension::P3D(v) && v@ == p3d_quads(rows))
                        &&& exprs_view(cp.1@) == p3d_entries(rows)
                        &&& entries2d_have_content(exprs_view(cp.1@))
                    },
                    Err(e) => {
                        &&& e is TemplateError
                        &&& !(p3d_rows_ok(rows) && p3d_all_valid(rows) && forall|i: int|
                            0 <= i < rows.len() ==> row3d_in_range(#[trigger] rows[i]))
                    },
                }
            },
        },
{
    let mut expr_pos: Vec<CompiledExpr> = Vec::new();
    match origin_pos {
        PosDimension::P1D(_) => Err(Error::TemplateError("flat geometry must be promoted first".to_owned())),
        PosDimension::P2D(p2d) => {
            let ghost rows = rows2d_view(p2d);
            let mut result: Vec<XYWH> = Vec::new();
            let mut i: usize = 0;
            while i < p2d.len()
                invariant
                    i <= p2d.len(),
                    origin_pos == PosDimension::P2D(p2d),
                    rows == rows2d_view(p2d),
                    rows.len() == p2d.len(),
                    result@.len() == i,
                    forall|k: int| 0 <= k < i ==> (#[trigger] rows[k]).len() == 4,
                    forall|k: int, j: int| 0 <= k < i && 0 <= j < 4 ==> pos_item_valid(#[trigger] rows[k][j]),
                    forall|k: int| 0 <= k < i ==> result@[k] == row_lits(#[trigger] rows[k]),
                    exprs_view(expr_pos@) == p2d_entries_upto(rows, i as int),
                    entries2d_have_content(exprs_view(expr_pos@)),
                decreases p2d.len() - i,
            {
                let row = &p2d[i];
                proof {
                    assert(rows[i as int] == row@);
                }
                if row.len() != 4 {
                    proof {
                        assert(!p2d_rows_ok(rows));
                    }
                    return Err(Error::TemplateError("zoom frame geometry needs exactly four slots".to_owned()));
                }
                let ghost entries0 = exprs_view(expr_pos@);
                let a = match compile_pos_item(&row[0], &mut expr_pos, (i, 0, 0)) {
                    Ok(v) => v,
                    Err(e) => {
                        proof {
                            assert(!pos_item_valid(rows[i as int][0]));
                            assert(!p2d_all_valid(rows));
                        }
                        return Err(e)
                    },
                };
                proof {
                    assert(row_entries_upto(row@, i as int, 0) == Seq::<ExprEntry>::empty());
                    assert(exprs_view(expr_pos@) =~~= entries0 + row_entries_upto(row@, i as int, 1));
                    assert(entries2d_have_content(exprs_view(expr_pos@)));
                }
                let b = match compile_pos_item(&row[1], &mut expr_pos, (i, 1, 0)) {
                    Ok(v) => v,
                    Err(e) => {
                        proof {
                            assert(!pos_item_valid(rows[i as int][1]));
                            assert(!p2d_all_valid(rows));
                        }
                        return Err(e)
                    },
                };
                proof {
                    assert(exprs_view(expr_pos@) =~~= entries0 + row_entries_upto(row@, i as int, 2));
                    assert(entries2d_have_content(exprs_view(expr_pos@)));
                }
                let c = match compile_pos_item(&row[2], &mut expr_pos, (i, 2, 0)) {
                    Ok(v) => v,
                    Err(e) => {
                        proof {
                            assert(!pos_item_valid(rows[i as int][2]));
                            assert(!p2d_all_valid(rows));
                        }
                        return Err(e)
                    },
                };
                proof {
                    assert(exprs_view(expr_pos@) =~~= entries0 + row_entries_upto(row@, i as int, 3));
                    assert(entries2d_have_content(exprs_view(expr_pos@)));
                }
                let d = match compile_pos_item(&row[3], &mut expr_pos, (i, 3, 0)) {
                    Ok(v) => v,
                    Err(e) => {
                        proof {
                            assert(!pos_item_valid(rows[i as int][3]));
                            assert(!p2d_all_valid(rows));
                        }
                        return Err(e)
                    },
                };
                proof {
                    assert(exprs_view(expr_pos@) =~~= entries0 + row_entries_upto(row@, i as int, 4));
                    assert(entries2d_have_content(exprs_view(expr_pos@)));
                }
                result.push((a, b, c, d));
                i += 1;
            }
            proof {
                assert(result@ =~= p2d_lits(rows));
            }
            Ok((CompiledNumberPosDimension::P2D(result), expr_pos))
        },
        PosDimension::P3D(p3d) => {
            let ghost rows = rows3d_view(p3d);
            let mut result: Vec<Quad> = Vec::new();
            let mut i: usize = 0;
            while i < p3d.len()
                invariant
                    i <= p3d.len(),
                    origin_pos == PosDimension::P3D(p3d),
                    rows == rows3d_view(p3d),
                    rows.len() == p3d.len(),
                    result@.len() == i,
                    forall|k: int| 0 <= k < i ==> row3d_ok(#[trigger] rows[k]),
                    forall|k: int, y: int, j: int|
                        0 <= k < i && 0 <= y < 5 && 0 <= j < 2 ==> pos_item_valid(#[trigger] rows[k][y][j]),
                    forall|k: int| 0 <= k < i ==> row3d_in_range(#[trigger] rows[k]),
                    forall|k: int| 0 <= k < i ==> result@[k] == quad_of_row(#[trigger] rows[k]),
                    exprs_view(expr_pos@) == p3d_entries_upto(rows, i as int),
                    entries2d_have_content(exprs_view(expr_pos@)),
                decreases p3d.len() - i,
            {
                let row = &p3d[i];
                proof {
                    assert(rows[i as int] == rows2d_view(*row));
                }
                if row.len() != 5 {
                    proof {
                        assert(!row3d_ok(rows[i as int]));
                        assert(!p3d_rows_ok(rows));
                    }
                    return Err(Error::TemplateError("deform frame geometry needs exactly five points".to_owned()));
                }
                let ghost entries0 = exprs_view(expr_pos@);
                let mut points: Vec<P> = Vec::new();
                let mut y: usize = 0;
                while y < 5
                    invariant
                        y <= 5,
                        row.len() == 5,
                        origin_pos == PosDimension::P3D(p3d),
                        rows == rows3d_view(p3d),
                        i < rows.len(),
                        rows[i as int] == rows2d_view(*row),
                        points@.len() == y,
                        forall|t: int| 0 <= t < y ==> (#[trigger] rows[i as int][t]).len() == 2,
                        forall|t: int, j: int|
                            0 <= t < y && 0 <= j < 2 ==> pos_item_valid(#[trigger] rows[i as int][t][j]),
                        forall|t: int| 0 <= t < y ==> points@[t] == point_lit(#[trigger] rows[i as int][t]),
                        exprs_view(expr_pos@) == entries0 + row3d_entries_upto(rows[i as int], i as int, y as int),
                        entries2d_have_content(exprs_view(expr_pos@)),
                    decreases 5 - y,
                {
                    let point = &row[y];
                    proof {
                        assert(rows[i as int][y as int] == point@);
                    }
                    if point.len() != 2 {
                        proof {
                            assert(rows[i as int][y as int].len() != 2);
                            assert(!row3d_ok(rows[i as int]));
                            assert(!p3d_rows_ok(rows));
                        }
                        return Err(Error::TemplateError("deform point needs exactly two slots".to_owned()));
                    }
                    let ghost pentries0 = exprs_view(expr_pos@);
                    let px = match compile_pos_item(&point[0], &mut expr_pos, (i, y, 0)) {
                        Ok(v) => v,
                        Err(e) => {
                            proof {
                                assert(!pos_item_valid(rows[i as int][y as int][0]));
                                assert(!p3d_all_valid(rows));
                            }
                            return Err(e)
                        },
                    };
                    let py = match compile_pos_item(&point[1], &mut expr_pos, (i, y, 1)) {
                        Ok(v) => v,
                        Err(e) => {
                            proof {
                                assert(!pos_item_valid(rows[i as int][y as int][1]));
                                assert(!p3d_all_valid(rows));
                            }
                            return Err(e)
                        },
                    };
                    proof {
                        assert(exprs_view(expr_pos@) =~~= pentries0 + point_entries(point@, i as int, y as int));
                        assert(entries0 + row3d_entries_upto(rows[i as int], i as int, y as int)
                            + point_entries(point@, i as int, y as int) =~~= entries0 + row3d_entries_upto(
                            rows[i as int],
                            i as int,
                            y as int + 1,
                        ));
                        assert(entries2d_have_content(exprs_view(expr_pos@)));
                    }
                    points.push((px, py));
                    y += 1;
                }
                let p0 = points[0];
                let p1 = points[1];
                let p2 = points[2];
                let p3 = points[3];
                let anchor = points[4];
                let c0x = add_in_range(anchor.0, p0.0);
                let c0y = add_in_range(anchor.1, p0.1);
                let c1x = add_in_range(anchor.0, p1.0);
                let c1y = add_in_range(anchor.1, p1.1);
                let c2x = add_in_range(anchor.0, p2.0);
                let c2y = add_in_range(anchor.1, p2.1);
                let c3x = add_in_range(anchor.0, p3.0);
                let c3y = add_in_range(anchor.1, p3.1);
                if c0x.is_none() || c0y.is_none() || c1x.is_none() || c1y.is_none() || c2x.is_none()
                    || c2y.is_none() || c3x.is_none() || c3y.is_none() {
                    proof {
                        assert(!row3d_in_range(rows[i as int]));
                    }
                    return Err(Error::TemplateError("deform corner position out of range".to_owned()));
                }
                let quad = relative_to_absolute((p0, p1, p2, p3, anchor));
                proof {
                    assert(quad == quad_of_row(rows[i as int]));
                }
                result.push(quad);
                i += 1;
            }
            proof {
                assert(result@ =~= p3d_quads(rows));
            }
            Ok((CompiledNumberPosDimension::P3D(result), expr_pos))
        },
    }
}

// ---------------------------------------------------------------------------
// Evaluation.
// ---------------------------------------------------------------------------

/// The rectangle with slot `y` replaced by `v`.
pub open spec fn set_slot(r: XYWH, y: int, v: i32) -> XYWH {
    if y == 0 {
        (v, r.1, r.2, r.3)
    } else if y == 1 {
        (r.0, v, r.2, r.3)
    } else if y == 2 {
        (r.0, r.1, v, r.3)
    } else {
        (r.0, r.1, r.2, v)
    }
}

/// Applies the first `k` expression slots to zoom geometry, in order; `None`
/// when a slot is out of range or an expression fails to evaluate.
pub open spec fn eval2d_upto(
    p2d: Seq<XYWH>,
    entries: Seq<ExprEntry>,
    k: int,
    vars: Seq<(Seq<char>, int)>,
) -> Option<Seq<XYWH>>
    decreases k,
{
    if k <= 0 {
        Some(p2d)
    } else {
        match eval2d_upto(p2d, entries, k - 1, vars) {
            None => None,
            Some(cur) => {
                let (s, idx) = entries[k - 1];
                if !(0 <= idx.0 < cur.len() && 0 <= idx.1 < 4) {
                    None
                } else {
                    match eval_of(s, vars) {
                        None => None,
                        Some(v) => Some(cur.update(idx.0, set_slot(cur[idx.0], idx.1, v))),
                    }
                }
            },
        }
    }
}

pub open spec fn eval2d(p2d: Seq<XYWH>, entries: Seq<ExprEntry>, vars: Seq<(Seq<char>, int)>) -> Option<
    Seq<XYWH>,
> {
    eval2d_upto(p2d, entries, entries.len() as int, vars)
}

proof fn lemma_row_entries_upto_wf(row: Seq<PosItem>, x: int, j: int, n: int)
    requires
        0 <= x < n,
        j <= 4,
    ensures
        entries2d_wf(row_entries_upto(row, x, j), n),
    decreases j,
{
    if j > 0 {
        lemma_row_entries_upto_wf(row, x, j - 1, n);
    }
}

proof fn lemma_p2d_entries_upto_wf(rows: Seq<Seq<PosItem>>, i: int, n: int)
    requires
        i <= rows.len(),
        rows.len() <= n,
    ensures
        entries2d_wf(p2d_entries_upto(rows, i), n),
    decreases i,
{
    if i > 0 {
        lemma_p2d_entries_upto_wf(rows, i - 1, n);
        lemma_row_entries_upto_wf(rows[i - 1], i - 1, 4, n);
    }
}

/// Every slot a compiled zoom geometry records points into its frames.
pub proof fn lemma_p2d_entries_wf(rows: Seq<Seq<PosItem>>)
    ensures
        entries2d_wf(p2d_entries(rows), rows.len() as int),
{
    lemma_p2d_entries_upto_wf(rows, rows.len() as int, rows.len() as int);
}

/// Whether every recorded slot's expression text holds more than
/// whitespace, as the expression engine demands.
pub open spec fn entries2d_have_content(entries: Seq<ExprEntry>) -> bool {
    forall|k: int| 0 <= k < entries.len() ==> expr_has_content((#[trigger] entries[k]).0)
}

/// Whether every recorded slot points into zoom geometry of `n` frames.
pub open spec fn entries2d_wf(entries: Seq<ExprEntry>, n: int) -> bool {
    forall|k: int|
        0 <= k < entries.len() ==> {
            let (_s, idx) = #[trigger] entries[k];
            0 <= idx.0 < n && 0 <= idx.1 < 4
        }
}

/// The variable bindings for per-avatar geometry: the reference frame's
/// width and height.
pub open spec fn wh_vars(w: i32, h: i32) -> Seq<(Seq<char>, int)> {
    seq![("width"@, w as int), ("height"@, h as int)]
}

/// Evaluation never changes the number of frames.
proof fn lemma_eval2d_len(
    p2d: Seq<XYWH>,
    entries: Seq<ExprEntry>,
    k: int,
    vars: Seq<(Seq<char>, int)>,
)
    requires
        eval2d_upto(p2d, entries, k, vars) is Some,
    ensures
        eval2d_upto(p2d, entries, k, vars).unwrap().len() == p2d.len(),
    decreases k,
{
    if k > 0 {
        if eval2d_upto(p2d, entries, k - 1, vars) is None {
            lemma_eval2d_none_persists(p2d, entries, k - 1, k, vars);
        }
        lemma_eval2d_len(p2d, entries, k - 1, vars);
    }
}

/// Once evaluation fails on a prefix it fails on every longer prefix.
proof fn lemma_eval2d_none_persists(
    p2d: Seq<XYWH>,
    entries: Seq<ExprEntry>,
    k1: int,
    k2: int,
    vars: Seq<(Seq<char>, int)>,
)
    requires
        0 <= k1 <= k2,
        eval2d_upto(p2d, entries, k1, vars) is None,
    ensures
        eval2d_upto(p2d, entries, k2, vars) is None,
    decreases k2 - k1,
{
    if k1 < k2 {
        lemma_eval2d_none_persists(p2d, entries, k1, k2 - 1, vars);
    }
}

/// Literal-only geometry is left untouched by evaluation, whatever the
/// variable context: with no recorded expression slots the compiled numbers
/// come back unchanged.
pub proof fn lemma_eval_literals_identity(p2d: Seq<XYWH>, vars: Seq<(Seq<char>, int)>)
    ensures
        eval2d(p2d, Seq::empty(), vars) == Some(p2d),
{
}

/// Evaluates the recorded expression slots of compiled geometry against the
/// reference frame size, rewriting exactly those slots.  Deform geometry is
/// returned unchanged: its corner positions were fixed when it was
/// compiled, and recorded deform slots are not rewritten.
pub fn eval_size(pos: (&CompiledNumberPosDimension, &CompiledExprVec), size: OriginSize) -> (r: Result<
    CompiledNumberPosDimension,
    Error,
>)
    requires
        pos.0 is P2D ==> entries2d_have_content(exprs_view(pos.1@)),
    ensures
        match pos.0 {
            CompiledNumberPosDimension::P2D(p2d) => {
                let out = eval2d(p2d@, exprs_view(pos.1@), wh_vars(size.0, size.1));
                match r {
                    Ok(np) => (np matches CompiledNumberPosDimension::P2D(v) && out == Some(v@)),
                    Err(e) => {
                        &&& out is None
                        &&& (e is EvalPosError || e is TemplateError)
                        &&& entries2d_wf(exprs_view(pos.1@), p2d@.len() as int) ==> e is EvalPosError
                    },
                }
            },
            CompiledNumberPosDimension::P3D(p3d) => (r matches Ok(np) && np matches
                CompiledNumberPosDimension::P3D(v) && v@ == p3d@),
        },
{
    let (num_pos, expr_vec) = pos;
    match num_pos {
        CompiledNumberPosDimension::P2D(p2d) => {
            let ghost entries = exprs_view(expr_vec@);
            let ghost vars_g = wh_vars(size.0, size.1);
            let mut vars: Vec<(String, i32)> = Vec::new();
            vars.push(("width".to_owned(), size.0));
            vars.push(("height".to_owned(), size.1));
            proof {
                assert(vars_view(vars@) =~~= vars_g);
            }
            let mut cur: Vec<XYWH> = Vec::new();
            let mut ci: usize = 0;
            while ci < p2d.len()
                invariant
                    ci <= p2d.len(),
                    cur@ =~= p2d@.take(ci as int),
                decreases p2d.len() - ci,
            {
                cur.push(p2d[ci]);
                ci += 1;
            }
            proof {
                assert(cur@ =~= p2d@);
            }
            let mut k: usize = 0;
            while k < expr_vec.len()
                invariant
                    k <= expr_vec.len(),
                    *pos.0 == CompiledNumberPosDimension::P2D(*p2d),
                    pos.1 == expr_vec,
                    entries2d_have_content(exprs_view(expr_vec@)),
                    entries == exprs_view(expr_vec@),
                    entries.len() == expr_vec.len(),
                    vars_g == wh_vars(size.0, size.1),
                    vars_view(vars@) == vars_g,
                    eval2d_upto(p2d@, entries, k as int, vars_g) == Some(cur@),
                decreases expr_vec.len() - k,
            {
                let entry = &expr_vec[k];
                proof {
                    assert(entries[k as int] == expr_entry_view(expr_vec@[k as int]));
                }
                let x = entry.1.0;
                let y = entry.1.1;
                if !(x < cur.len() && y < 4) {
                    proof {
                        lemma_eval2d_len(p2d@, entries, k as int, vars_g);
                        assert(!entries2d_wf(entries, p2d@.len() as int));
                        lemma_eval2d_none_persists(p2d@, entries, k as int + 1, entries.len() as int, vars_g);
                    }
                    return Err(Error::TemplateError("geometry slot out of range".to_owned()));
                }
                match eval_expr_i32(entry.0.as_str(), &vars) {
                    Some(v) => {
                        let old_rect = cur[x];
                        let new_rect = if y == 0 {
                            (v, old_rect.1, old_rect.2, old_rect.3)
                        } else if y == 1 {
                            (old_rect.0, v, old_rect.2, old_rect.3)
                        } else if y == 2 {
                            (old_rect.0, old_rect.1, v, old_rect.3)
                        } else {
                            (old_rect.0, old_rect.1, old_rect.2, v)
                        };
                        cur.set(x, new_rect);
                        proof {
                            assert(cur@ =~= eval2d_upto(p2d@, entries, k as int + 1, vars_g).unwrap());
                        }
                    },
                    None => {
                        proof {
                            lemma_eval2d_none_persists(p2d@, entries, k as int + 1, entries.len() as int, vars_g);
                        }
                        return Err(Error::EvalPosError("geometry expression failed to evaluate".to_owned()));
                    },
                }
                k += 1;
            }
            Ok(CompiledNumberPosDimension::P2D(cur))
        },
        CompiledNumberPosDimension::P3D(p3d) => {
            let mut out: Vec<Quad> = Vec::new();
            let mut ci: usize = 0;
            while ci < p3d.len()
                invariant
                    ci <= p3d.len(),
                    out@ =~= p3d@.take(ci as int),
                decreases p3d.len() - ci,
            {
                out.push(p3d[ci]);
                ci += 1;
            }
            proof {
                assert(out@ =~= p3d@);
            }
            Ok(CompiledNumberPosDimension::P3D(out))
        },
    }
}

// ---------------------------------------------------------------------------
// Background size compilation and evaluation.
// ---------------------------------------------------------------------------

/// The expression slot a size item records, if any (0 = width, 1 = height).
pub open spec fn size_slot_entries(it: PosItem, idx: int) -> Seq<(Seq<char>, int)> {
    match it {
        PosItem::Expr(s) => seq![(s@, idx)],
        PosItem::Num(_) => Seq::empty(),
    }
}

pub open spec fn size_exprs_view(v: Seq<CompiledSizeExpr>) -> Seq<(Seq<char>, int)> {
    v.map_values(|e: CompiledSizeExpr| (e.0@, e.1 as int))
}

/// Whether every recorded size slot is one the compiler produces: its
/// expression holds content, and it rewrites the width (0) or the height
/// (1).
pub open spec fn size_entries_wf(entries: Seq<(Seq<char>, int)>) -> bool {
    forall|k: int|
        0 <= k < entries.len() ==> {
            let (s, idx) = #[trigger] entries[k];
            expr_has_content(s) && (idx == 0 || idx == 1)
        }
}

/// Compiles a declared background size: literal slots keep their values,
/// expression slots are syntax-checked and recorded.
pub fn compile_size(size: &(PosItem, PosItem)) -> (r: Result<CompiledSize, Error>)
    ensures
        match r {
            Ok(cs) => {
                &&& pos_item_valid(size.0)
                &&& pos_item_valid(size.1)
                &&& cs.0.0 == pos_item_lit(size.0)
                &&& cs.0.1 == pos_item_lit(size.1)
                &&& size_exprs_view(cs.1@) == size_slot_entries(size.0, 0) + size_slot_entries(size.1, 1)
                &&& size_entries_wf(size_exprs_view(cs.1@))
            },
            Err(e) => {
                &&& e is TemplateError
                &&& !(pos_item_valid(size.0) && pos_item_valid(size.1))
            },
        },
{
    let mut expr_vec: Vec<CompiledSizeExpr> = Vec::new();
    let w = match &size.0 {
        PosItem::Num(n) => *n,
        PosItem::Expr(s) => {
            if !has_expr_content(s.as_str()) {
                return Err(Error::TemplateError("a size expression must hold more than whitespace".to_owned()));
            }
            if !expr_parse_ok(s.as_str()) {
                return Err(Error::TemplateError("invalid background width expression".to_owned()));
            }
            expr_vec.push((s.clone(), 0));
            i32::MIN
        },
    };
    let h = match &size.1 {
        PosItem::Num(n) => *n,
        PosItem::Expr(s) => {
            if !has_expr_content(s.as_str()) {
                return Err(Error::TemplateError("a size expression must hold more than whitespace".to_owned()));
            }
            if !expr_parse_ok(s.as_str()) {
                return Err(Error::TemplateError("invalid background height expression".to_owned()));
            }
            expr_vec.push((s.clone(), 1));
            i32::MIN
        },
    };
    proof {
        assert(size_exprs_view(expr_vec@) =~~= size_slot_entries(size.0, 0) + size_slot_entries(size.1, 1));
    }
    Ok(((w, h), expr_vec))
}

/// The variable bindings background size expressions may use: the pixel size
/// of every avatar layer and of every text layer, by index.
pub open spec fn avatar_size_vars_upto(av: Seq<OriginSize>, i: int) -> Seq<(Seq<char>, int)>
    decreases i,
{
    if i <= 0 {
        Seq::empty()
    } else {
        avatar_size_vars_upto(av, i - 1) + seq![
            ("avatar"@ + crate::strutil::spec_udigits((i - 1) as nat) + "Width"@, av[i - 1].0 as int),
            ("avatar"@ + crate::strutil::spec_udigits((i - 1) as nat) + "Height"@, av[i - 1].1 as int),
        ]
    }
}

pub open spec fn text_size_vars_upto(tx: Seq<OriginSize>, i: int) -> Seq<(Seq<char>, int)>
    decreases i,
{
    if i <= 0 {
        Seq::empty()
    } else {
        text_size_vars_upto(tx, i - 1) + seq![
            ("text"@ + crate::strutil::spec_udigits((i - 1) as nat) + "Width"@, tx[i - 1].0 as int),
            ("text"@ + crate::strutil::spec_udigits((i - 1) as nat) + "Height"@, tx[i - 1].1 as int),
        ]
    }
}

pub open spec fn size_vars(av: Seq<OriginSize>, tx: Seq<OriginSize>) -> Seq<(Seq<char>, int)> {
    avatar_size_vars_upto(av, av.len() as int) + text_size_vars_upto(tx, tx.len() as int)
}

/// Applies the first `k` recorded size slots, in order.
pub open spec fn eval_sz_upto(
    base: OriginSize,
    entries: Seq<(Seq<char>, int)>,
    k: int,
    vars: Seq<(Seq<char>, int)>,
) -> Option<OriginSize>
    decreases k,
{
    if k <= 0 {
        Some(base)
    } else {
        match eval_sz_upto(base, entries, k - 1, vars) {
            None => None,
            Some(cur) => {
                let (s, idx) = entries[k - 1];
                if !(idx == 0 || idx == 1) {
                    None
                } else {
                    match eval_of(s, vars) {
                        None => None,
                        Some(v) => Some(if idx == 0 { (v, cur.1) } else { (cur.0, v) }),
                    }
                }
            },
        }
    }
}

pub open spec fn eval_sz(
    base: OriginSize,
    entries: Seq<(Seq<char>, int)>,
    vars: Seq<(Seq<char>, int)>,
) -> Option<OriginSize> {
    eval_sz_upto(base, entries, entries.len() as int, vars)
}

proof fn lemma_eval_sz_none_persists(
    base: OriginSize,
    entries: Seq<(Seq<char>, int)>,
    k1: int,
    k2: int,
    vars: Seq<(Seq<char>, int)>,
)
    requires
        0 <= k1 <= k2,
        eval_sz_upto(base, entries, k1, vars) is None,
    ensures
        eval_sz_upto(base, entries, k2, vars) is None,
    decreases k2 - k1,
{
    if k1 < k2 {
        lemma_eval_sz_none_persists(base, entries, k1, k2 - 1, vars);
    }
}

/// Evaluates a compiled background size against the collected avatar and
/// text layer sizes, rewriting exactly the recorded slots.
pub fn eval_background_size(
    size: &CompiledSize,
    avatar_size: &Vec<OriginSize>,
    text_size: &Vec<OriginSize>,
) -> (r: Result<OriginSize, Error>)
    requires
        size_entries_wf(size_exprs_view(size.1@)),
    ensures
        ({
            let out = eval_sz(size.0, size_exprs_view(size.1@), size_vars(avatar_size@, text_size@));
            match r {
                Ok(sz) => out == Some(sz),
                Err(e) => {
                    &&& out is None
                    &&& e is EvalPosError
                },
            }
        }),
{
    let ghost entries = size_exprs_view(size.1@);
    let ghost vars_g = size_vars(avatar_size@, text_size@);
    let mut vars: Vec<(String, i32)> = Vec::new();
    let mut i: usize = 0;
    while i < avatar_size.len()
        invariant
            i <= avatar_size.len(),
            vars_view(vars@) == avatar_size_vars_upto(avatar_size@, i as int),
        decreases avatar_size.len() - i,
    {
        let (w, h) = avatar_size[i];
        let wname = crate::strutil::make_indexed_name("avatar", i, "Width");
        let hname = crate::strutil::make_indexed_name("avatar", i, "Height");
        vars.push((wname, w));
        vars.push((hname, h));
        proof {
            assert(avatar_size_vars_upto(avatar_size@, i as int + 1) =~~= avatar_size_vars_upto(
                avatar_size@,
                i as int,
            ) + seq![
                ("avatar"@ + crate::strutil::spec_udigits(i as nat) + "Width"@, avatar_size@[i as int].0 as int),
                ("avatar"@ + crate::strutil::spec_udigits(i as nat) + "Height"@, avatar_size@[i as int].1 as int),
            ]);
            assert(vars_view(vars@) =~~= avatar_size_vars_upto(avatar_size@, i as int + 1));
        }
        i += 1;
    }
    proof {
        assert(vars_view(vars@) + text_size_vars_upto(text_size@, 0) =~~= vars_view(vars@));
    }
    let mut j: usize = 0;
    while j < text_size.len()
        invariant
            j <= text_size.len(),
            vars_view(vars@) == avatar_size_vars_upto(avatar_size@, avatar_size@.len() as int)
                + text_size_vars_upto(text_size@, j as int),
        decreases text_size.len() - j,
    {
        let (w, h) = text_size[j];
        let wname = crate::strutil::make_indexed_name("text", j, "Width");
        let hname = crate::strutil::make_indexed_name("text", j, "Height");
        vars.push((wname, w));
        vars.push((hname, h));
        proof {
            let av = avatar_size_vars_upto(avatar_size@, avatar_size@.len() as int);
            let e1 = ("text"@ + crate::strutil::spec_udigits(j as nat) + "Width"@, text_size@[j as int].0 as int);
            let e2 = ("text"@ + crate::strutil::spec_udigits(j as nat) + "Height"@, text_size@[j as int].1 as int);
            assert(text_size_vars_upto(text_size@, j as int + 1) =~~= text_size_vars_upto(text_size@, j as int)
                + seq![e1, e2]);
            assert(wname@ == "text"@ + crate::strutil::spec_udigits(j as nat) + "Width"@);
            assert(vars_view(vars@) =~~= vars_view(vars@.drop_last().drop_last()).push((wname@, w as int)).push(
                (hname@, h as int),
            ));
            assert(vars_view(vars@) =~~= (av + text_size_vars_upto(text_size@, j as int)) + seq![e1, e2]);
            assert(vars_view(vars@) =~~= av + text_size_vars_upto(text_size@, j as int + 1));
        }
        j += 1;
    }
    proof {
        assert(vars_view(vars@) == vars_g);
    }
    let mut cur: OriginSize = size.0;
    let mut k: usize = 0;
    while k < size.1.len()
        invariant
            k <= size.1.len(),
            size_entries_wf(size_exprs_view(size.1@)),
            entries == size_exprs_view(size.1@),
            entries.len() == size.1.len(),
            vars_g == size_vars(avatar_size@, text_size@),
            vars_view(vars@) == vars_g,
            eval_sz_upto(size.0, entries, k as int, vars_g) == Some(cur),
        decreases size.1.len() - k,
    {
        let entry = &size.1[k];
        proof {
            assert(entries[k as int] == (size.1@[k as int].0@, size.1@[k as int].1 as int));
        }
        let idx = entry.1;
        if idx > 1 {
            proof {
                assert(false);
            }
            return Err(Error::EvalPosError("background size slot out of range".to_owned()));
        }
        match eval_expr_i32(entry.0.as_str(), &vars) {
            Some(v) => {
                if idx == 0 {
                    cur = (v, cur.1);
                } else {
                    cur = (cur.0, v);
                }
            },
            None => {
                proof {
                    lemma_eval_sz_none_persists(size.0, entries, k as int + 1, entries.len() as int, vars_g);
                }
                return Err(Error::EvalPosError("background size expression failed to evaluate".to_owned()));
            },
        }
        k += 1;
    }
    Ok(cur)
}

} // verus!
