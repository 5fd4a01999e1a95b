use vstd::prelude::*;

use crate::filter::AvatarFilter;

verus! {

/// The avatar role a placement pulls its source frames from.
#[derive(Debug, Clone, Copy, PartialEq, Eq, Structural)]
pub enum AvatarType {
    FROM,
    TO,
    GROUP,
    BOT,
    RANDOM,
}

/// How an avatar placement is expressed: an axis-aligned rectangle per frame
/// or a projective quadrilateral.
#[derive(Debug, Clone, Copy, PartialEq, Eq, Structural)]
pub enum AvatarPosType {
    ZOOM,
    DEFORM,
}

/// How a declared crop box is interpreted.
#[derive(Debug, Clone, Copy, PartialEq, Eq, Structural)]
pub enum AvatarCropType {
    NONE,
    PIXEL,
    PERCENT,
}

/// How a source image is mapped into its destination rectangle.
#[derive(Debug, Clone, Copy, PartialEq, Eq, Structural)]
pub enum AvatarFit {
    CONTAIN,
    COVER,
    FILL,
}

/// Legacy per-avatar style flags; the color effects among them are folded
/// into the filter chain at build time.
#[derive(Debug, Clone, Copy, PartialEq, Eq, Structural)]
pub enum AvatarStyle {
    MIRROR,
    FLIP,
    GRAY,
    BINARIZATION,
}

/// The pivot used for rotations.
#[derive(Debug, Clone, Copy, PartialEq, Eq, Structural)]
pub enum TransformOrigin {
    DEFAULT,
    CENTER,
}

/// Whether a template yields a still image or an animation.
#[derive(Debug, Clone, Copy, PartialEq, Eq, Structural)]
pub enum PetpetType {
    IMG,
    GIF,
}

/// One scalar slot of a declared geometry: a literal pixel value or an
/// algebraic expression over named size variables.
#[derive(Debug, Clone)]
pub enum PosItem {
    Expr(String),
    Num(i32),
}

/// Marker for the three raw geometry shapes a template may declare.
pub trait PosLike {

}

pub type P1D = Vec<PosItem>;

impl PosLike for P1D {

}

pub type P2D = Vec<Vec<PosItem>>;

impl PosLike for P2D {

}

pub type P3D = Vec<Vec<Vec<PosItem>>>;

impl PosLike for P3D {

}

/// A declared geometry: a single rectangle, one rectangle per frame, or one
/// five-point deform group (four corner offsets and an anchor) per frame.
#[derive(Debug, Clone)]
pub enum PosDimension {
    P1D(P1D),
    P2D(P2D),
    P3D(P3D),
}

/// A declared crop region: a width/height pair anchored at the origin, or an
/// explicit x1/y1/x2/y2 box.  Coordinates are pixels for `PIXEL` crops and
/// whole percents for `PERCENT` crops.
#[derive(Debug, Clone)]
pub enum CropPos {
    WH(i32, i32),
    XYXY(i32, i32, i32, i32),
}

pub fn pos_type_default() -> (r: AvatarPosType)
    ensures
        r == AvatarPosType::ZOOM,
{
    AvatarPosType::ZOOM
}

pub fn crop_default() -> (r: Option<CropPos>)
    ensures
        r is None,
{
    None
}

pub fn crop_type_default() -> (r: AvatarCropType)
    ensures
        r == AvatarCropType::NONE,
{
    AvatarCropType::NONE
}

pub fn style_default() -> (r: Vec<AvatarStyle>)
    ensures
        r@ =~= Seq::<AvatarStyle>::empty(),
{
    Vec::new()
}

pub fn filter_default() -> (r: Vec<AvatarFilter>)
    ensures
        r@.len() == 0,
{
    Vec::new()
}

pub fn fit_default() -> (r: AvatarFit)
    ensures
        r == AvatarFit::FILL,
{
    AvatarFit::FILL
}

pub fn round_default() -> (r: bool)
    ensures
        r == false,
{
    false
}

pub fn rotate_default() -> (r: bool)
    ensures
        r == false,
{
    false
}

pub fn origin_default() -> (r: TransformOrigin)
    ensures
        r == TransformOrigin::DEFAULT,
{
    TransformOrigin::DEFAULT
}

pub fn avatar_on_top_default() -> (r: bool)
    ensures
        r == true,
{
    true
}

pub fn antialias_default() -> (r: bool)
    ensures
        r == true,
{
    true
}

pub fn resampling_default() -> (r: bool)
    ensures
        r == true,
{
    true
}

/// Default rotation angle, in whole degrees.
pub fn angle_default() -> (r: i32)
    ensures
        r == 0,
{
    0
}

/// Default opacity, in thousandths of full coverage.
pub fn opacity_default() -> (r: i32)
    ensures
        r == 1000,
{
    1000
}

/// The per-request substitution bundle for text layers.
#[derive(Debug, Clone)]
pub struct TextData {
    pub from: String,
    pub to: String,
    pub group: String,
    pub text_list: Vec<String>,
}

pub fn from_default() -> (r: String)
    ensures
        r@ == "from"@,
{
    "from".to_owned()
}

pub fn to_default() -> (r: String)
    ensures
        r@ == "to"@,
{
    "to".to_owned()
}

pub fn group_default() -> (r: String)
    ensures
        r@ == "group"@,
{
    "group".to_owned()
}

pub fn text_list_default() -> (r: Vec<String>)
    ensures
        r@.len() == 0,
{
    Vec::new()
}

impl Default for TextData {
    /// The neutral substitution bundle: literal role names and no extra
    /// text entries.
    fn default() -> (r: Self)
        ensures
            r.from@ == "from"@,
            r.to@ == "to"@,
            r.group@ == "group"@,
            r.text_list@.len() == 0,
    {
        TextData { from: from_default(), to: to_default(), group: group_default(), text_list: text_list_default() }
    }
}


/// One avatar placement: where its frames come from, how they are placed,
/// cropped, fitted, styled and filtered.  `angle` is whole degrees;
/// `opacity` is thousandths of full coverage.
#[derive(Debug, Clone)]
pub struct AvatarTemplate {
    pub _type: AvatarType,
    pub pos: PosDimension,
    pub pos_type: AvatarPosType,
    pub crop: Option<CropPos>,
    pub crop_type: AvatarCropType,
    pub style: Vec<AvatarStyle>,
    pub filter: Vec<AvatarFilter>,
    pub fit: AvatarFit,
    pub round: bool,
    pub rotate: bool,
    pub origin: TransformOrigin,
    pub avatar_on_top: bool,
    pub antialias: bool,
    pub resampling: bool,
    pub angle: i32,
    pub opacity: i32,
}

/// A synthesized background: a declared size (literal or expression per
/// slot), a solid color, and an explicit frame count.
#[derive(Debug)]
pub struct BackgroundTemplate {
    pub size: (PosItem, PosItem),
    pub color: String,
    pub length: u16,
}

/// Default background color: fully transparent black.
pub fn color_default() -> (r: String)
    ensures
        r@ == "#00000000"@,
{
    "#00000000".to_owned()
}

pub fn length_default() -> (r: u16)
    ensures
        r == 1,
{
    1
}

/// A whole compositing recipe: avatar placements, text layers, an optional
/// synthesized background, and animation metadata.
#[derive(Debug)]
pub struct PetpetTemplate {
    pub _type: PetpetType,
    pub avatar: Vec<AvatarTemplate>,
    pub text: Vec<crate::text::TextTemplate>,
    pub background: Option<BackgroundTemplate>,
    pub delay: u16,
    pub alias: Vec<String>,
    pub in_random_list: bool,
    pub reverse: bool,
    pub hidden: bool,
}

pub fn avatar_default() -> (r: Vec<AvatarTemplate>)
    ensures
        r@.len() == 0,
{
    Vec::new()
}

pub fn text_default() -> (r: Vec<crate::text::TextTemplate>)
    ensures
        r@.len() == 0,
{
    Vec::new()
}

pub fn background_default() -> (r: Option<BackgroundTemplate>)
    ensures
        r is None,
{
    None
}

/// Default declared delay, in the template's coarse time unit.
pub fn delay_default() -> (r: u16)
    ensures
        r == 65,
{
    65
}

pub fn alias_default() -> (r: Vec<String>)
    ensures
        r@.len() == 0,
{
    Vec::new()
}

pub fn in_random_list_default() -> (r: bool)
    ensures
        r == true,
{
    true
}

pub fn reverse_default() -> (r: bool)
    ensures
        r == false,
{
    false
}

pub fn hidden_default() -> (r: bool)
    ensures
        r == false,
{
    false
}

} // verus!
