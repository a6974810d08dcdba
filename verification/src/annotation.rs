//! The annotation model: shape variants with their color and stroke
//! attributes, and the per-variant geometric operations (bounds, hit-test,
//! translation, resize handles).

use vstd::prelude::*;

use vstd::string::StringSliceAdditionalSpecFns;

use crate::geom::COORD_LIMIT;
use crate::geom::clamp_point;
use crate::geom::clamped_point;
use crate::geom::Point;
use crate::geom::RectData;
use crate::geom::delta_in_range;
use crate::geom::dist_sq;
use crate::geom::lemma_abs_from_sq;
use crate::geom::lemma_mul_mono_right;
use crate::geom::lemma_mul_pos;
use crate::geom::lemma_segment_twice_endpoint;
use crate::geom::lemma_sq_mono;
use crate::geom::ellipse_ring_contains;
use crate::geom::ellipse_ring_contains_at;
use crate::geom::lemma_mul_bound;
use crate::geom::point_in_range;
use crate::geom::rect_band_contains;
use crate::geom::rect_band_contains_at;
use crate::geom::rect_box_contains;
use crate::geom::rect_box_contains_at;
use crate::geom::rect_expanded;
use crate::geom::rect_in_range;
use crate::geom::rect_loose;
use crate::geom::rect_union;
use crate::geom::rect_is_normalized;
use crate::geom::rect_normalized;
use crate::geom::segment_within_twice;
use crate::geom::segment_within_twice_dist;
use crate::geom::spec_max;
use crate::geom::spec_min;

verus! {

pub type AnnotationId = u64;

/// The editing tool currently active in the toolbar.
#[derive(Clone, Copy, Debug, PartialEq, Eq, Structural)]
pub enum Tool {
    Select,
    Arrow,
    ArrowWithText,
    Text,
    Rectangle,
    Ellipse,
}

/// Stroke width of a shape, as a fixed pixel width at 1.0 zoom.
#[derive(Clone, Copy, Debug, PartialEq, Eq, Structural)]
pub enum StrokeWidth {
    Thin,
    Medium,
    Thick,
}

pub open spec fn stroke_px(w: StrokeWidth) -> int {
    match w {
        StrokeWidth::Thin => 2,
        StrokeWidth::Medium => 3,
        StrokeWidth::Thick => 5,
    }
}

impl StrokeWidth {
    /// Pixel width of this stroke at 1.0 zoom.
    pub fn px(self) -> (r: i64)
        ensures
            r == stroke_px(self),
            1 <= r <= 5,
    {
        match self {
            StrokeWidth::Thin => 2,
            StrokeWidth::Medium => 3,
            StrokeWidth::Thick => 5,
        }
    }
}

pub const TEXT_SIZE_MIN: u8 = 8;

pub const TEXT_SIZE_MAX: u8 = 32;

/// `p` clamped into the accepted text point-size range.
pub open spec fn clamped_text_points(p: int) -> int {
    if p < TEXT_SIZE_MIN {
        TEXT_SIZE_MIN as int
    } else if p > TEXT_SIZE_MAX {
        TEXT_SIZE_MAX as int
    } else {
        p
    }
}

/// A text point size, clamped to `[TEXT_SIZE_MIN, TEXT_SIZE_MAX]` by its
/// constructors.
#[derive(Clone, Copy, Debug, PartialEq, Eq, Structural)]
pub struct TextSize(pub u8);

impl TextSize {
    pub open spec fn wf(self) -> bool {
        TEXT_SIZE_MIN <= self.0 <= TEXT_SIZE_MAX
    }

    /// Out-of-range numeric input is clamped, never rejected.
    pub fn from_points(points: u8) -> (r: TextSize)
        ensures
            r.0 == clamped_text_points(points as int),
            r.wf(),
    {
        if points < TEXT_SIZE_MIN {
            TextSize(TEXT_SIZE_MIN)
        } else if points > TEXT_SIZE_MAX {
            TextSize(TEXT_SIZE_MAX)
        } else {
            TextSize(points)
        }
    }

    pub fn as_u8(self) -> (r: u8)
        ensures
            r == self.0,
    {
        self.0
    }

    /// The default size for new text (the legacy symbolic size `M`).
    pub fn medium() -> (r: TextSize)
        ensures
            r.0 == 18,
            r.wf(),
    {
        TextSize(18)
    }

    /// The size a persisted token denotes: a legacy symbolic size or a
    /// clamped decimal number (see [`token_text_size`]); `None` for
    /// anything else.
    pub fn from_token(s: &str) -> (r: Option<TextSize>)
        ensures
            r == token_text_size(s.spec_bytes()),
            r matches Some(t) ==> t.wf(),
    {
        let bytes = s.as_bytes();
        let n = bytes.len();
        if n == 1 {
            let b0 = bytes[0];
            if b0 == 83 || b0 == 115 {
                return Some(TextSize(14));
            }
            if b0 == 77 || b0 == 109 {
                return Some(TextSize(18));
            }
            if b0 == 76 || b0 == 108 {
                return Some(TextSize(24));
            }
        }
        let start: usize = if n > 0 && bytes[0] == 43 {
            1
        } else {
            0
        };
        proof {
            assert(bytes@.subrange(0, bytes@.len() as int) =~= bytes@);
        }
        match parse_u8_decimal(bytes, start) {
            Some(v) => Some(TextSize::from_points(v)),
            None => None,
        }
    }
}

/// The decimal number held in `bytes` from `start` on, if those bytes are
/// one or more digits making a value at most 255.
fn parse_u8_decimal(bytes: &[u8], start: usize) -> (r: Option<u8>)
    requires
        start <= bytes@.len(),
    ensures
        ({
            let digits = bytes@.subrange(start as int, bytes@.len() as int);
            match r {
                Some(v) => all_digits(digits) && digits.len() > 0 && digits_value(digits)
                    == v as int,
                None => digits.len() == 0 || !all_digits(digits) || digits_value(digits) > 255,
            }
        }),
{
    let n = bytes.len();
    let ghost digits = bytes@.subrange(start as int, n as int);
    if start >= n {
        return None;
    }
    let mut value: u32 = 0;
    let mut i: usize = start;
    while i < n
        invariant
            start <= i <= n,
            n == bytes@.len(),
            digits == bytes@.subrange(start as int, n as int),
            all_digits(bytes@.subrange(start as int, i as int)),
            value <= 256,
            digits_value(bytes@.subrange(start as int, i as int)) <= 255 ==> value
                == digits_value(bytes@.subrange(start as int, i as int)),
            digits_value(bytes@.subrange(start as int, i as int)) > 255 ==> value == 256,
        decreases n - i,
    {
        let b = bytes[i];
        if b < 48 || b > 57 {
            proof {
                assert(digits[i - start] == bytes@[i as int]);
                assert(!all_digits(digits));
            }
            return None;
        }
        proof {
            let pre = bytes@.subrange(start as int, i as int);
            let post = bytes@.subrange(start as int, i + 1);
            assert(post.drop_last() =~= pre);
            assert(post.last() == bytes@[i as int]);
            assert(digits_value(post) == digits_value(pre) * 10 + (bytes@[i as int] - 48));
            assert forall|j: int| 0 <= j < post.len() implies 48 <= #[trigger] post[j] <= 57 by {
                if j < pre.len() {
                    assert(post[j] == pre[j]);
                }
            }
        }
        value = value * 10 + (b - 48) as u32;
        if value > 255 {
            value = 256;
        }
        i = i + 1;
    }
    proof {
        assert(bytes@.subrange(start as int, i as int) == digits);
    }
    if value > 255 {
        return None;
    }
    Some(value as u8)
}

/// True iff every byte is an ASCII decimal digit.
pub open spec fn all_digits(s: Seq<u8>) -> bool {
    forall|i: int| 0 <= i < s.len() ==> 48 <= #[trigger] s[i] <= 57
}

/// The numeric value of a decimal digit string, most significant first.
pub open spec fn digits_value(s: Seq<u8>) -> int
    decreases s.len(),
{
    if s.len() == 0 {
        0
    } else {
        digits_value(s.drop_last()) * 10 + (s.last() - 48)
    }
}

/// The text size a persisted token denotes, over the token's bytes: the
/// legacy symbolic sizes S, M and L (either case), or a decimal number as
/// the standard byte-string parser accepts it (an optional leading plus
/// sign, then only digits, value at most 255), clamped into range.
/// Byte codes: 83/115 are S/s, 77/109 M/m, 76/108 L/l, 43 the plus sign,
/// 48 through 57 the digits.
pub open spec fn token_text_size(s: Seq<u8>) -> Option<TextSize> {
    if s.len() == 1 && (s[0] == 83 || s[0] == 115) {
        Some(TextSize(14))
    } else if s.len() == 1 && (s[0] == 77 || s[0] == 109) {
        Some(TextSize(18))
    } else if s.len() == 1 && (s[0] == 76 || s[0] == 108) {
        Some(TextSize(24))
    } else {
        let digits = if s.len() > 0 && s[0] == 43 {
            s.subrange(1, s.len() as int)
        } else {
            s
        };
        if digits.len() == 0 || !all_digits(digits) || digits_value(digits) > 255 {
            None
        } else {
            Some(TextSize(clamped_text_points(digits_value(digits)) as u8))
        }
    }
}

/// One of the ten symbolic resize anchors: eight rectangle handles and the
/// two arrow endpoints. Handles carry no state; their positions are computed
/// on demand from the shape's current geometry.
#[derive(Clone, Copy, Debug, PartialEq, Eq, Structural)]
pub enum Handle {
    TopLeft,
    Top,
    TopRight,
    Right,
    BottomRight,
    Bottom,
    BottomLeft,
    Left,
    ArrowFrom,
    ArrowTo,
}

/// True for the eight handles that resize a rectangle or an ellipse.
pub open spec fn is_rect_handle(h: Handle) -> bool {
    h != Handle::ArrowFrom && h != Handle::ArrowTo
}

/// The shape variant of an annotation, with its variant-specific geometry.
#[derive(Debug, PartialEq)]
pub enum AnnotationKind {
    Arrow { from: Point, to: Point },
    ArrowWithText { from: Point, to: Point, text: String, size: TextSize },
    Text { pos: Point, content: String, size: TextSize },
    Rectangle { rect: RectData },
    Ellipse { rect: RectData },
}

impl Clone for AnnotationKind {
    fn clone(&self) -> (res: Self)
        ensures
            res == *self,
    {
        match self {
            AnnotationKind::Arrow { from, to } => AnnotationKind::Arrow { from: *from, to: *to },
            AnnotationKind::ArrowWithText { from, to, text, size } => {
                AnnotationKind::ArrowWithText {
                    from: *from,
                    to: *to,
                    text: text.clone(),
                    size: *size,
                }
            },
            AnnotationKind::Text { pos, content, size } => {
                AnnotationKind::Text { pos: *pos, content: content.clone(), size: *size }
            },
            AnnotationKind::Rectangle { rect } => AnnotationKind::Rectangle { rect: *rect },
            AnnotationKind::Ellipse { rect } => AnnotationKind::Ellipse { rect: *rect },
        }
    }
}

/// A committed or in-progress annotation: an identity, a shape, and its
/// style. Id 0 is reserved for ephemeral previews that are never committed.
#[derive(Debug, PartialEq)]
pub struct Annotation {
    pub id: AnnotationId,
    pub kind: AnnotationKind,
    pub color: [u8; 4],
    pub stroke_width: StrokeWidth,
}

impl Clone for Annotation {
    fn clone(&self) -> (res: Self)
        ensures
            res == *self,
    {
        Annotation {
            id: self.id,
            kind: self.kind.clone(),
            color: self.color,
            stroke_width: self.stroke_width,
        }
    }
}

/// All coordinates the shape stores lie in the representable range.
pub open spec fn kind_in_range(k: AnnotationKind) -> bool {
    match k {
        AnnotationKind::Arrow { from, to } => point_in_range(from) && point_in_range(to),
        AnnotationKind::ArrowWithText { from, to, .. } => point_in_range(from) && point_in_range(
            to,
        ),
        AnnotationKind::Text { pos, .. } => point_in_range(pos),
        AnnotationKind::Rectangle { rect } => rect_in_range(rect),
        AnnotationKind::Ellipse { rect } => rect_in_range(rect),
    }
}

pub open spec fn annotation_in_range(a: Annotation) -> bool {
    kind_in_range(a.kind)
}

/// A shape fit for the committed collection: a rectangle's or ellipse's
/// stored corners are ordered. (They may be inverted only inside an
/// in-progress drag preview.)
pub open spec fn kind_committed(k: AnnotationKind) -> bool {
    match k {
        AnnotationKind::Rectangle { rect } => rect_is_normalized(rect),
        AnnotationKind::Ellipse { rect } => rect_is_normalized(rect),
        _ => true,
    }
}

/// Translating and clamping keeps a committed shape committed: both carry
/// every coordinate by a monotone map, so corner order survives.
pub proof fn lemma_translated_clamped_committed(a: Annotation, d: Point)
    requires
        kind_committed(a.kind),
        annotation_in_range(a),
        delta_in_range(d),
    ensures
        kind_committed(annotation_clamped(annotation_translated(a, d)).kind),
        kind_committed(annotation_translated(a, d).kind),
        kind_committed(annotation_clamped(a).kind),
{
}

/// A handle resize leaves a committed shape committed: the rectangle arms
/// end in a normalization, and clamping is monotone.
#[verifier::rlimit(50)]
pub proof fn lemma_resized_clamped_committed(a: Annotation, h: Handle, to: Point, keep_square: bool)
    requires
        kind_committed(a.kind),
        annotation_in_range(a),
        point_in_range(to),
    ensures
        kind_committed(annotation_resized(a, h, to, keep_square).kind),
        kind_committed(annotation_clamped(annotation_resized(a, h, to, keep_square)).kind),
{
    match a.kind {
        AnnotationKind::Rectangle { rect } => {
            if is_rect_handle(h) {
                let r = rect_resized(rect, h, to, keep_square);
                assert(rect_is_normalized(r));
                assert(rect_is_normalized(
                    RectData { min: clamped_point(r.min), max: clamped_point(r.max) },
                ));
            }
        },
        AnnotationKind::Ellipse { rect } => {
            if is_rect_handle(h) {
                let r = rect_resized(rect, h, to, keep_square);
                assert(rect_is_normalized(r));
                assert(rect_is_normalized(
                    RectData { min: clamped_point(r.min), max: clamped_point(r.max) },
                ));
            }
        },
        _ => {},
    }
}

/// Conservative width estimate of a rendered text run: proportional to the
/// character count (capped) and the point size. Approximate by design —
/// exact text metrics are a rendering concern — but never undersized.
pub open spec fn text_box_width(len: int, size: int) -> int {
    let n = spec_max(spec_min(len, 65536), 1);
    spec_max((3 * (n * size) + 4) / 5, 20)
}

pub open spec fn text_box_height(size: int) -> int {
    (7 * size + 4) / 5
}

/// Width estimate of an arrow's text label (slightly tighter than a
/// standalone text block).
pub open spec fn label_box_width(len: int, size: int) -> int {
    let n = spec_max(spec_min(len, 65536), 1);
    spec_max((11 * (n * size) + 19) / 20, 16)
}

pub open spec fn label_box_height(size: int) -> int {
    (13 * size + 9) / 10
}

/// Where an arrow's text label hangs: right of the tail and above it by
/// most of the text height.
pub open spec fn label_anchor(from: Point, size: int) -> Point {
    Point { x: (from.x + 8) as i64, y: (from.y - (4 * size) / 5) as i64 }
}

/// A conservative axis-aligned box covering the shape and any attached
/// text; the hit box for text shapes and the selection outline for all.
pub open spec fn annotation_bounds(a: Annotation) -> RectData {
    match a.kind {
        AnnotationKind::Arrow { from, to } => rect_expanded(
            rect_normalized(RectData { min: from, max: to }),
            8,
        ),
        AnnotationKind::ArrowWithText { from, to, text, size } => {
            let arrow = rect_expanded(rect_normalized(RectData { min: from, max: to }), 8);
            let anchor = label_anchor(from, size.0 as int);
            let w = label_box_width(text@.len() as int, size.0 as int);
            let h = label_box_height(size.0 as int);
            let label = rect_expanded(
                RectData {
                    min: anchor,
                    max: Point { x: (anchor.x + w) as i64, y: (anchor.y + h) as i64 },
                },
                4,
            );
            rect_union(arrow, label)
        },
        AnnotationKind::Text { pos, content, size } => {
            let w = text_box_width(content@.len() as int, size.0 as int);
            let h = text_box_height(size.0 as int);
            RectData { min: pos, max: Point { x: (pos.x + w) as i64, y: (pos.y + h) as i64 } }
        },
        AnnotationKind::Rectangle { rect } => rect_expanded(rect_normalized(rect), 4),
        AnnotationKind::Ellipse { rect } => rect_expanded(rect_normalized(rect), 4),
    }
}

/// The shape-specific hit test at tolerance `tol`: for arrows, distance to
/// the segment at most the tolerance plus half the rendered stroke width
/// (stated over doubled distances to keep the half exact); the stroke band
/// for rectangles, a ring around the boundary for ellipses, and the
/// bounding box for text.
pub open spec fn annotation_contains(a: Annotation, p: Point, tol: int) -> bool {
    match a.kind {
        AnnotationKind::Arrow { from, to } => segment_within_twice(
            p,
            from,
            to,
            2 * tol + stroke_px(a.stroke_width),
        ),
        AnnotationKind::ArrowWithText { from, to, .. } => segment_within_twice(
            p,
            from,
            to,
            2 * tol + stroke_px(a.stroke_width),
        ),
        AnnotationKind::Text { .. } => rect_box_contains(p, annotation_bounds(a), tol),
        AnnotationKind::Rectangle { rect } => rect_band_contains(
            p,
            rect_normalized(rect),
            tol + stroke_px(a.stroke_width),
        ),
        AnnotationKind::Ellipse { rect } => ellipse_ring_contains(
            p,
            rect_normalized(rect),
            tol + stroke_px(a.stroke_width),
        ),
    }
}

pub open spec fn point_translated(p: Point, d: Point) -> Point {
    Point { x: (p.x + d.x) as i64, y: (p.y + d.y) as i64 }
}

pub open spec fn kind_translated(k: AnnotationKind, d: Point) -> AnnotationKind {
    match k {
        AnnotationKind::Arrow { from, to } => AnnotationKind::Arrow {
            from: point_translated(from, d),
            to: point_translated(to, d),
        },
        AnnotationKind::ArrowWithText { from, to, text, size } => AnnotationKind::ArrowWithText {
            from: point_translated(from, d),
            to: point_translated(to, d),
            text,
            size,
        },
        AnnotationKind::Text { pos, content, size } => AnnotationKind::Text {
            pos: point_translated(pos, d),
            content,
            size,
        },
        AnnotationKind::Rectangle { rect } => AnnotationKind::Rectangle {
            rect: RectData {
                min: point_translated(rect.min, d),
                max: point_translated(rect.max, d),
            },
        },
        AnnotationKind::Ellipse { rect } => AnnotationKind::Ellipse {
            rect: RectData {
                min: point_translated(rect.min, d),
                max: point_translated(rect.max, d),
            },
        },
    }
}

/// The whole shape carried by `d`; attributes and text are untouched.
pub open spec fn annotation_translated(a: Annotation, d: Point) -> Annotation {
    Annotation {
        id: a.id,
        kind: kind_translated(a.kind, d),
        color: a.color,
        stroke_width: a.stroke_width,
    }
}

/// Midpoint of a nonempty interval, rounded down.
pub open spec fn mid_of(lo: int, hi: int) -> int {
    lo + (hi - lo) / 2
}

/// The eight handles of a normalized rectangle: corners and edge midpoints.
pub open spec fn rect_handles(r: RectData) -> Seq<(Handle, Point)> {
    let cx = mid_of(r.min.x as int, r.max.x as int) as i64;
    let cy = mid_of(r.min.y as int, r.max.y as int) as i64;
    seq![
        (Handle::TopLeft, r.min),
        (Handle::Top, Point { x: cx, y: r.min.y }),
        (Handle::TopRight, Point { x: r.max.x, y: r.min.y }),
        (Handle::Right, Point { x: r.max.x, y: cy }),
        (Handle::BottomRight, r.max),
        (Handle::Bottom, Point { x: cx, y: r.max.y }),
        (Handle::BottomLeft, Point { x: r.min.x, y: r.max.y }),
        (Handle::Left, Point { x: r.min.x, y: cy }),
    ]
}

/// The resize anchors a shape offers: endpoint handles for arrows, the
/// eight rectangle handles for rectangles and ellipses, none for text.
pub open spec fn annotation_handles(a: Annotation) -> Seq<(Handle, Point)> {
    match a.kind {
        AnnotationKind::Arrow { from, to } => seq![
            (Handle::ArrowFrom, from),
            (Handle::ArrowTo, to),
        ],
        AnnotationKind::ArrowWithText { from, to, .. } => seq![
            (Handle::ArrowFrom, from),
            (Handle::ArrowTo, to),
        ],
        AnnotationKind::Text { .. } => Seq::empty(),
        AnnotationKind::Rectangle { rect } => rect_handles(rect_normalized(rect)),
        AnnotationKind::Ellipse { rect } => rect_handles(rect_normalized(rect)),
    }
}

pub open spec fn abs_of(v: int) -> int {
    if v < 0 {
        -v
    } else {
        v
    }
}

/// The sign carried over when a rectangle is forced square: negative stays
/// negative, everything else (zero included) counts as positive.
pub open spec fn sign_unit(v: int) -> int {
    if v < 0 {
        -1
    } else {
        1
    }
}

/// A normalized rectangle with the edges implied by a rectangle handle
/// rebound to `to`; with `keep_square`, width and height are first forced
/// to the larger magnitude, keeping each axis's signed direction.
pub open spec fn rect_resized(rect: RectData, h: Handle, to: Point, keep_square: bool) -> RectData
    recommends
        is_rect_handle(h),
{
    let r0 = rect_normalized(rect);
    let r1 = match h {
        Handle::TopLeft => RectData { min: to, max: r0.max },
        Handle::Top => RectData { min: Point { x: r0.min.x, y: to.y }, max: r0.max },
        Handle::TopRight => RectData {
            min: Point { x: r0.min.x, y: to.y },
            max: Point { x: to.x, y: r0.max.y },
        },
        Handle::Right => RectData { min: r0.min, max: Point { x: to.x, y: r0.max.y } },
        Handle::BottomRight => RectData { min: r0.min, max: to },
        Handle::Bottom => RectData { min: r0.min, max: Point { x: r0.max.x, y: to.y } },
        Handle::BottomLeft => RectData {
            min: Point { x: to.x, y: r0.min.y },
            max: Point { x: r0.max.x, y: to.y },
        },
        Handle::Left => RectData { min: Point { x: to.x, y: r0.min.y }, max: r0.max },
        Handle::ArrowFrom => r0,
        Handle::ArrowTo => r0,
    };
    let r2 = if keep_square {
        let w = r1.max.x - r1.min.x;
        let hh = r1.max.y - r1.min.y;
        let side = spec_max(abs_of(w), abs_of(hh));
        RectData {
            min: r1.min,
            max: Point {
                x: (r1.min.x + side * sign_unit(w)) as i64,
                y: (r1.min.y + side * sign_unit(hh)) as i64,
            },
        }
    } else {
        r1
    };
    rect_normalized(r2)
}

/// The shape after a handle drag to `to`. Handles that are not meaningful
/// for the variant leave it untouched.
pub open spec fn kind_resized(k: AnnotationKind, h: Handle, to: Point, keep_square: bool) -> AnnotationKind {
    match k {
        AnnotationKind::Arrow { from, to: head } => {
            if h == Handle::ArrowFrom {
                AnnotationKind::Arrow { from: to, to: head }
            } else if h == Handle::ArrowTo {
                AnnotationKind::Arrow { from, to }
            } else {
                AnnotationKind::Arrow { from, to: head }
            }
        },
        AnnotationKind::ArrowWithText { from, to: head, text, size } => {
            if h == Handle::ArrowFrom {
                AnnotationKind::ArrowWithText { from: to, to: head, text, size }
            } else if h == Handle::ArrowTo {
                AnnotationKind::ArrowWithText { from, to, text, size }
            } else {
                AnnotationKind::ArrowWithText { from, to: head, text, size }
            }
        },
        AnnotationKind::Text { pos, content, size } => AnnotationKind::Text { pos, content, size },
        AnnotationKind::Rectangle { rect } => {
            if is_rect_handle(h) {
                AnnotationKind::Rectangle { rect: rect_resized(rect, h, to, keep_square) }
            } else {
                AnnotationKind::Rectangle { rect }
            }
        },
        AnnotationKind::Ellipse { rect } => {
            if is_rect_handle(h) {
                AnnotationKind::Ellipse { rect: rect_resized(rect, h, to, keep_square) }
            } else {
                AnnotationKind::Ellipse { rect }
            }
        },
    }
}

pub open spec fn annotation_resized(
    a: Annotation,
    h: Handle,
    to: Point,
    keep_square: bool,
) -> Annotation {
    Annotation {
        id: a.id,
        kind: kind_resized(a.kind, h, to, keep_square),
        color: a.color,
        stroke_width: a.stroke_width,
    }
}

/// Every stored point forced into the representable coordinate range.
/// Identity on shapes that are already in range.
pub open spec fn kind_clamped(k: AnnotationKind) -> AnnotationKind {
    match k {
        AnnotationKind::Arrow { from, to } => AnnotationKind::Arrow {
            from: clamped_point(from),
            to: clamped_point(to),
        },
        AnnotationKind::ArrowWithText { from, to, text, size } => AnnotationKind::ArrowWithText {
            from: clamped_point(from),
            to: clamped_point(to),
            text,
            size,
        },
        AnnotationKind::Text { pos, content, size } => AnnotationKind::Text {
            pos: clamped_point(pos),
            content,
            size,
        },
        AnnotationKind::Rectangle { rect } => AnnotationKind::Rectangle {
            rect: RectData { min: clamped_point(rect.min), max: clamped_point(rect.max) },
        },
        AnnotationKind::Ellipse { rect } => AnnotationKind::Ellipse {
            rect: RectData { min: clamped_point(rect.min), max: clamped_point(rect.max) },
        },
    }
}

pub open spec fn annotation_clamped(a: Annotation) -> Annotation {
    Annotation { id: a.id, kind: kind_clamped(a.kind), color: a.color, stroke_width: a.stroke_width }
}

/// Capped character count used by the text box estimates.
fn capped_text_len(s: &str) -> (n: u64)
    ensures
        n == spec_max(spec_min(s@.len() as int, 65536), 1),
{
    let len = s.unicode_len();
    let capped: u64 = if len > 65536 {
        65536
    } else {
        len as u64
    };
    if capped < 1 {
        1
    } else {
        capped
    }
}

impl Annotation {
    /// Conservative covering box of the shape and any attached text.
    pub fn bounds(&self) -> (r: RectData)
        requires
            annotation_in_range(*self),
        ensures
            r == annotation_bounds(*self),
            rect_loose(r),
            rect_is_normalized(r),
    {
        match &self.kind {
            AnnotationKind::Arrow { from, to } => {
                let base = RectData { min: *from, max: *to }.normalize();
                RectData {
                    min: Point { x: base.min.x - 8, y: base.min.y - 8 },
                    max: Point { x: base.max.x + 8, y: base.max.y + 8 },
                }
            },
            AnnotationKind::ArrowWithText { from, to, text, size } => {
                let base = RectData { min: *from, max: *to }.normalize();
                let arrow = RectData {
                    min: Point { x: base.min.x - 8, y: base.min.y - 8 },
                    max: Point { x: base.max.x + 8, y: base.max.y + 8 },
                };
                let n = capped_text_len(text.as_str());
                let pts = size.0 as u64;
                proof {
                    lemma_mul_bound(n as int, pts as int, 65536, 255);
                }
                let w = {
                    let prod = n * pts;
                    let est = (11 * prod + 19) / 20;
                    if est < 16 {
                        16i64
                    } else {
                        est as i64
                    }
                };
                let h = ((13 * pts + 9) / 10) as i64;
                let ax = from.x + 8;
                let ay = from.y - ((4 * pts) / 5) as i64;
                let label = RectData {
                    min: Point { x: ax - 4, y: ay - 4 },
                    max: Point { x: ax + w + 4, y: ay + h + 4 },
                };
                RectData {
                    min: Point {
                        x: if arrow.min.x <= label.min.x {
                            arrow.min.x
                        } else {
                            label.min.x
                        },
                        y: if arrow.min.y <= label.min.y {
                            arrow.min.y
                        } else {
                            label.min.y
                        },
                    },
                    max: Point {
                        x: if arrow.max.x >= label.max.x {
                            arrow.max.x
                        } else {
                            label.max.x
                        },
                        y: if arrow.max.y >= label.max.y {
                            arrow.max.y
                        } else {
                            label.max.y
                        },
                    },
                }
            },
            AnnotationKind::Text { pos, content, size } => {
                let n = capped_text_len(content.as_str());
                let pts = size.0 as u64;
                proof {
                    lemma_mul_bound(n as int, pts as int, 65536, 255);
                }
                let w = {
                    let prod = n * pts;
                    let est = (3 * prod + 4) / 5;
                    if est < 20 {
                        20i64
                    } else {
                        est as i64
                    }
                };
                let h = ((7 * pts + 4) / 5) as i64;
                RectData { min: *pos, max: Point { x: pos.x + w, y: pos.y + h } }
            },
            AnnotationKind::Rectangle { rect } => {
                let base = rect.normalize();
                RectData {
                    min: Point { x: base.min.x - 4, y: base.min.y - 4 },
                    max: Point { x: base.max.x + 4, y: base.max.y + 4 },
                }
            },
            AnnotationKind::Ellipse { rect } => {
                let base = rect.normalize();
                RectData {
                    min: Point { x: base.min.x - 4, y: base.min.y - 4 },
                    max: Point { x: base.max.x + 4, y: base.max.y + 4 },
                }
            },
        }
    }

    /// Precise outline hit test at the given tolerance.
    pub fn contains(&self, point: Point, tolerance: i64) -> (r: bool)
        requires
            annotation_in_range(*self),
            point_in_range(point),
            0 <= tolerance <= COORD_LIMIT,
        ensures
            r == annotation_contains(*self, point, tolerance as int),
    {
        match &self.kind {
            AnnotationKind::Arrow { from, to } => segment_within_twice_dist(
                point,
                *from,
                *to,
                2 * tolerance + self.stroke_width.px(),
            ),
            AnnotationKind::ArrowWithText { from, to, .. } => segment_within_twice_dist(
                point,
                *from,
                *to,
                2 * tolerance + self.stroke_width.px(),
            ),
            AnnotationKind::Text { .. } => {
                let b = self.bounds();
                rect_box_contains_at(point, b, tolerance)
            },
            AnnotationKind::Rectangle { rect } => {
                let band = tolerance + self.stroke_width.px();
                rect_band_contains_at(point, rect.normalize(), band)
            },
            AnnotationKind::Ellipse { rect } => {
                let band = tolerance + self.stroke_width.px();
                ellipse_ring_contains_at(point, rect.normalize(), band)
            },
        }
    }

    /// Translate every stored point by `delta`; attributes are untouched.
    pub fn move_by(&mut self, delta: Point)
        requires
            annotation_in_range(*old(self)),
            delta_in_range(delta),
        ensures
            *final(self) == annotation_translated(*old(self), delta),
    {
        match &mut self.kind {
            AnnotationKind::Arrow { from, to } => {
                *from = Point { x: from.x + delta.x, y: from.y + delta.y };
                *to = Point { x: to.x + delta.x, y: to.y + delta.y };
            },
            AnnotationKind::ArrowWithText { from, to, .. } => {
                *from = Point { x: from.x + delta.x, y: from.y + delta.y };
                *to = Point { x: to.x + delta.x, y: to.y + delta.y };
            },
            AnnotationKind::Text { pos, .. } => {
                *pos = Point { x: pos.x + delta.x, y: pos.y + delta.y };
            },
            AnnotationKind::Rectangle { rect } => {
                *rect = RectData {
                    min: Point { x: rect.min.x + delta.x, y: rect.min.y + delta.y },
                    max: Point { x: rect.max.x + delta.x, y: rect.max.y + delta.y },
                };
            },
            AnnotationKind::Ellipse { rect } => {
                *rect = RectData {
                    min: Point { x: rect.min.x + delta.x, y: rect.min.y + delta.y },
                    max: Point { x: rect.max.x + delta.x, y: rect.max.y + delta.y },
                };
            },
        }
    }

    /// The resize anchors this shape offers, with their current positions.
    pub fn handles(&self) -> (r: Vec<(Handle, Point)>)
        requires
            annotation_in_range(*self),
        ensures
            r@ == annotation_handles(*self),
    {
        match &self.kind {
            AnnotationKind::Arrow { from, to } => {
                let v = vec![(Handle::ArrowFrom, *from), (Handle::ArrowTo, *to)];
                proof {
                    assert(v@ =~= annotation_handles(*self));
                }
                v
            },
            AnnotationKind::ArrowWithText { from, to, .. } => {
                let v = vec![(Handle::ArrowFrom, *from), (Handle::ArrowTo, *to)];
                proof {
                    assert(v@ =~= annotation_handles(*self));
                }
                v
            },
            AnnotationKind::Text { .. } => {
                let v: Vec<(Handle, Point)> = Vec::new();
                proof {
                    assert(v@ =~= annotation_handles(*self));
                }
                v
            },
            AnnotationKind::Rectangle { rect } => {
                let v = rect_handle_points(rect.normalize());
                proof {
                    assert(v@ =~= annotation_handles(*self));
                }
                v
            },
            AnnotationKind::Ellipse { rect } => {
                let v = rect_handle_points(rect.normalize());
                proof {
                    assert(v@ =~= annotation_handles(*self));
                }
                v
            },
        }
    }

    /// Force every stored point into the representable range (the geometry
    /// kernel's policy: degenerate input clamps, never fails). A no-op for
    /// shapes already in range.
    pub fn clamp_to_range(&mut self)
        ensures
            *final(self) == annotation_clamped(*old(self)),
            annotation_in_range(*final(self)),
    {
        match &mut self.kind {
            AnnotationKind::Arrow { from, to } => {
                *from = clamp_point(*from);
                *to = clamp_point(*to);
            },
            AnnotationKind::ArrowWithText { from, to, .. } => {
                *from = clamp_point(*from);
                *to = clamp_point(*to);
            },
            AnnotationKind::Text { pos, .. } => {
                *pos = clamp_point(*pos);
            },
            AnnotationKind::Rectangle { rect } => {
                *rect = RectData { min: clamp_point(rect.min), max: clamp_point(rect.max) };
            },
            AnnotationKind::Ellipse { rect } => {
                *rect = RectData { min: clamp_point(rect.min), max: clamp_point(rect.max) };
            },
        }
    }

    /// Rebind the geometry implied by `handle` to `to`. For arrow shapes the
    /// matching endpoint moves; for rectangles and ellipses the implied
    /// edges move (optionally forced square); meaningless handles are no-ops.
    pub fn resize_from_handle(&mut self, handle: Handle, to: Point, keep_square: bool)
        requires
            annotation_in_range(*old(self)),
            point_in_range(to),
        ensures
            *final(self) == annotation_resized(*old(self), handle, to, keep_square),
    {
        match &mut self.kind {
            AnnotationKind::Arrow { from, to: head } => {
                match handle {
                    Handle::ArrowFrom => {
                        *from = to;
                    },
                    Handle::ArrowTo => {
                        *head = to;
                    },
                    _ => {},
                }
            },
            AnnotationKind::ArrowWithText { from, to: head, .. } => {
                match handle {
                    Handle::ArrowFrom => {
                        *from = to;
                    },
                    Handle::ArrowTo => {
                        *head = to;
                    },
                    _ => {},
                }
            },
            AnnotationKind::Text { .. } => {},
            AnnotationKind::Rectangle { rect } => {
                match handle {
                    Handle::ArrowFrom => {},
                    Handle::ArrowTo => {},
                    _ => {
                        *rect = apply_rect_resize(*rect, handle, to, keep_square);
                    },
                }
            },
            AnnotationKind::Ellipse { rect } => {
                match handle {
                    Handle::ArrowFrom => {},
                    Handle::ArrowTo => {},
                    _ => {
                        *rect = apply_rect_resize(*rect, handle, to, keep_square);
                    },
                }
            },
        }
    }
}

/// Law: translation is its own inverse. Moving a shape by `d` and then by
/// `-d` restores the original geometry (and everything else) exactly.
pub proof fn lemma_move_roundtrip(a: Annotation, d: Point)
    requires
        annotation_in_range(a),
        delta_in_range(d),
    ensures
        annotation_translated(
            annotation_translated(a, d),
            Point { x: (-d.x) as i64, y: (-d.y) as i64 },
        ) == a,
{
}

/// Law: a resize with the square constraint through any rectangle handle
/// leaves a rectangle or an ellipse with its width equal to its height.
/// (An arrow-endpoint handle is a no-op for these shapes and keeps
/// whatever proportions the shape had.)
pub proof fn lemma_resize_keeps_square(a: Annotation, h: Handle, to: Point)
    requires
        annotation_in_range(a),
        point_in_range(to),
        is_rect_handle(h),
    ensures
        match annotation_resized(a, h, to, true).kind {
            AnnotationKind::Rectangle { rect } => rect.max.x - rect.min.x == rect.max.y
                - rect.min.y,
            AnnotationKind::Ellipse { rect } => rect.max.x - rect.min.x == rect.max.y - rect.min.y,
            _ => true,
        },
{
    match a.kind {
        AnnotationKind::Rectangle { rect } => {
            lemma_rect_resized_square(rect, h, to);
        },
        AnnotationKind::Ellipse { rect } => {
            lemma_rect_resized_square(rect, h, to);
        },
        _ => {},
    }
}

proof fn lemma_rect_resized_square(rect: RectData, h: Handle, to: Point)
    requires
        rect_in_range(rect),
        point_in_range(to),
        is_rect_handle(h),
    ensures
        ({
            let r = rect_resized(rect, h, to, true);
            r.max.x - r.min.x == r.max.y - r.min.y
        }),
{
    let r0 = rect_normalized(rect);
    let r1 = match h {
        Handle::TopLeft => RectData { min: to, max: r0.max },
        Handle::Top => RectData { min: Point { x: r0.min.x, y: to.y }, max: r0.max },
        Handle::TopRight => RectData {
            min: Point { x: r0.min.x, y: to.y },
            max: Point { x: to.x, y: r0.max.y },
        },
        Handle::Right => RectData { min: r0.min, max: Point { x: to.x, y: r0.max.y } },
        Handle::BottomRight => RectData { min: r0.min, max: to },
        Handle::Bottom => RectData { min: r0.min, max: Point { x: r0.max.x, y: to.y } },
        Handle::BottomLeft => RectData {
            min: Point { x: to.x, y: r0.min.y },
            max: Point { x: r0.max.x, y: to.y },
        },
        Handle::Left => RectData { min: Point { x: to.x, y: r0.min.y }, max: r0.max },
        Handle::ArrowFrom => r0,
        Handle::ArrowTo => r0,
    };
    let w = r1.max.x - r1.min.x;
    let hh = r1.max.y - r1.min.y;
    let side = spec_max(abs_of(w), abs_of(hh));
    assert(side >= 0);
    if w < 0 {
        assert(side * sign_unit(w) == -side);
    } else {
        assert(side * sign_unit(w) == side);
    }
    if hh < 0 {
        assert(side * sign_unit(hh) == -side);
    } else {
        assert(side * sign_unit(hh) == side);
    }
    let r = rect_resized(rect, h, to, true);
    assert(r.max.x - r.min.x == side);
    assert(r.max.y - r.min.y == side);
}

/// Law (outline hits, arrows): a point within `tol` of either endpoint of
/// an arrow is contained at tolerance `tol`.
pub proof fn lemma_arrow_endpoint_hit(a: Annotation, p: Point, tol: int)
    requires
        tol >= 0,
        match a.kind {
            AnnotationKind::Arrow { from, to } => dist_sq(p, from) <= tol * tol || dist_sq(p, to)
                <= tol * tol,
            AnnotationKind::ArrowWithText { from, to, .. } => dist_sq(p, from) <= tol * tol
                || dist_sq(p, to) <= tol * tol,
            _ => false,
        },
    ensures
        annotation_contains(a, p, tol),
{
    let dd = 2 * tol + stroke_px(a.stroke_width);
    lemma_sq_mono(2 * tol, dd);
    assert((2 * tol) * (2 * tol) == 4 * (tol * tol)) by (nonlinear_arith);
    match a.kind {
        AnnotationKind::Arrow { from, to } => {
            lemma_segment_twice_endpoint(p, from, to, dd);
        },
        AnnotationKind::ArrowWithText { from, to, .. } => {
            lemma_segment_twice_endpoint(p, from, to, dd);
        },
        _ => {},
    }
}

/// A point on the stroked outline of a normalized rectangle.
pub open spec fn on_rect_outline(q: Point, r: RectData) -> bool {
    ||| ((q.x == r.min.x || q.x == r.max.x) && r.min.y <= q.y <= r.max.y)
    ||| ((q.y == r.min.y || q.y == r.max.y) && r.min.x <= q.x <= r.max.x)
}

/// Law (outline hits, rectangles): a point within `tol` of a point on the
/// rectangle's outline is contained at tolerance `tol`.
pub proof fn lemma_rect_outline_hit(a: Annotation, p: Point, q: Point, tol: int)
    requires
        tol >= 0,
        match a.kind {
            AnnotationKind::Rectangle { rect } => on_rect_outline(q, rect_normalized(rect)),
            _ => false,
        },
        dist_sq(p, q) <= tol * tol,
    ensures
        annotation_contains(a, p, tol),
{
    lemma_abs_from_sq(p.x - q.x, p.y - q.y, tol);
}

/// Law (interior misses, rectangles): a point at depth more than
/// `tol` plus the stroke width inside the rectangle is not contained —
/// only the outline is hittable.
pub proof fn lemma_rect_interior_miss(a: Annotation, p: Point, tol: int)
    requires
        tol >= 0,
        match a.kind {
            AnnotationKind::Rectangle { rect } => {
                let rn = rect_normalized(rect);
                let band = tol + stroke_px(a.stroke_width);
                &&& rn.min.x + band <= p.x <= rn.max.x - band
                &&& rn.min.y + band <= p.y <= rn.max.y - band
            },
            _ => false,
        },
    ensures
        !annotation_contains(a, p, tol),
{
}

/// Law (outside misses, rectangles): a point beyond the rectangle's
/// expanded box is not contained.
pub proof fn lemma_rect_outside_miss(a: Annotation, p: Point, tol: int)
    requires
        tol >= 0,
        match a.kind {
            AnnotationKind::Rectangle { rect } => {
                let rn = rect_normalized(rect);
                let band = tol + stroke_px(a.stroke_width);
                ||| p.x < rn.min.x - band
                ||| p.x > rn.max.x + band
                ||| p.y < rn.min.y - band
                ||| p.y > rn.max.y + band
            },
            _ => false,
        },
    ensures
        !annotation_contains(a, p, tol),
{
}

/// Law (outside misses, arrows): a point farther from a horizontal
/// arrow's line than the tolerance plus half the stroke width is not
/// contained (stated over doubled distances to keep the half exact).
pub proof fn lemma_horizontal_arrow_miss(a: Annotation, p: Point, tol: int)
    requires
        tol >= 0,
        match a.kind {
            AnnotationKind::Arrow { from, to } => from.y == to.y && 2 * abs_of(p.y - from.y) > 2
                * tol + stroke_px(a.stroke_width),
            AnnotationKind::ArrowWithText { from, to, .. } => from.y == to.y && 2 * abs_of(
                p.y - from.y,
            ) > 2 * tol + stroke_px(a.stroke_width),
            _ => false,
        },
    ensures
        !annotation_contains(a, p, tol),
{
    match a.kind {
        AnnotationKind::Arrow { from, to } => {
            lemma_horizontal_segment_miss(p, from, to, 2 * tol + stroke_px(a.stroke_width));
        },
        AnnotationKind::ArrowWithText { from, to, .. } => {
            lemma_horizontal_segment_miss(p, from, to, 2 * tol + stroke_px(a.stroke_width));
        },
        _ => {},
    }
}

proof fn lemma_horizontal_segment_miss(p: Point, a: Point, b: Point, dd: int)
    requires
        a.y == b.y,
        dd >= 0,
        2 * abs_of(p.y - a.y) > dd,
    ensures
        !segment_within_twice(p, a, b, dd),
{
    let abx = b.x - a.x;
    let aby = b.y - a.y;
    let apx = p.x - a.x;
    let apy = p.y - a.y;
    assert(aby == 0);
    assert(aby * aby == 0) by (nonlinear_arith)
        requires
            aby == 0,
    ;
    assert(apy * aby == 0) by (nonlinear_arith)
        requires
            aby == 0,
    ;
    let len2 = abx * abx;
    let dot = apx * abx;
    assert(4 * (apy * apy) > dd * dd) by (nonlinear_arith)
        requires
            2 * abs_of(apy) > dd,
            dd >= 0,
            abs_of(apy) == if apy < 0 {
                -apy
            } else {
                apy
            },
    ;
    assert(4 * dist_sq(p, a) >= 4 * (apy * apy)) by (nonlinear_arith)
        requires
            dist_sq(p, a) == apx * apx + apy * apy,
    ;
    assert(4 * dist_sq(p, b) > dd * dd) by (nonlinear_arith)
        requires
            dist_sq(p, b) == (p.x - b.x) * (p.x - b.x) + apy * apy,
            4 * (apy * apy) > dd * dd,
            apy == p.y - b.y,
    ;
    if len2 != 0 && 0 < dot < len2 {
        // perpendicular distance to a horizontal line is the vertical gap
        assert(4 * ((apx * apx + apy * apy) * len2 - dot * dot) > dd * dd * len2)
            by (nonlinear_arith)
            requires
                len2 == abx * abx,
                dot == apx * abx,
                len2 > 0,
                4 * (apy * apy) > dd * dd,
        ;
    }
}

/// Law (outline hits, ellipses): with both axis sums even (so the axis
/// endpoints are lattice points) and a ring that does not swallow the
/// whole ellipse, the rightmost point of the ellipse is contained.
pub proof fn lemma_ellipse_axis_hit(a: Annotation, tol: int)
    requires
        tol >= 0,
        match a.kind {
            AnnotationKind::Ellipse { rect } => {
                let rn = rect_normalized(rect);
                let w = rn.max.x - rn.min.x;
                let h = rn.max.y - rn.min.y;
                &&& w >= 1 && h >= 1
                &&& (rn.min.y + rn.max.y) % 2 == 0
                &&& 2 * (tol + stroke_px(a.stroke_width)) <= 2 * spec_max(spec_min(w, h), 2)
            },
            _ => false,
        },
    ensures
        match a.kind {
            AnnotationKind::Ellipse { rect } => {
                let rn = rect_normalized(rect);
                annotation_contains(
                    a,
                    Point { x: rn.max.x, y: ((rn.min.y + rn.max.y) / 2) as i64 },
                    tol,
                )
            },
            _ => true,
        },
{
    match a.kind {
        AnnotationKind::Ellipse { rect } => {
            let rn = rect_normalized(rect);
            let w = rn.max.x - rn.min.x;
            let h = rn.max.y - rn.min.y;
            let p = Point { x: rn.max.x, y: ((rn.min.y + rn.max.y) / 2) as i64 };
            let u = 2 * p.x - rn.min.x - rn.max.x;
            let v = 2 * p.y - rn.min.y - rn.max.y;
            assert(u == w);
            assert(v == 0);
            let band = tol + stroke_px(a.stroke_width);
            let m2 = if spec_min(w, h) <= 2 {
                2int
            } else {
                spec_min(w, h)
            };
            let rnum = 2 * band;
            let dnum = u * u * (h * h) + v * v * (w * w);
            let dden = (w * w) * (h * h);
            assert(v * v == 0) by (nonlinear_arith)
                requires
                    v == 0,
            ;
            assert(dnum == dden) by (nonlinear_arith)
                requires
                    u == w,
                    v * v == 0,
                    dnum == u * u * (h * h) + v * v * (w * w),
                    dden == (w * w) * (h * h),
            ;
            assert(dden >= 0) by (nonlinear_arith)
                requires
                    dden == (w * w) * (h * h),
            ;
            assert((m2 - rnum) * (m2 - rnum) <= m2 * m2) by (nonlinear_arith)
                requires
                    0 <= rnum <= 2 * m2,
            ;
            assert(m2 * m2 <= (m2 + rnum) * (m2 + rnum)) by (nonlinear_arith)
                requires
                    0 <= rnum,
                    0 <= m2,
            ;
            lemma_mul_mono_right((m2 - rnum) * (m2 - rnum), m2 * m2, dden);
            lemma_mul_mono_right(m2 * m2, (m2 + rnum) * (m2 + rnum), dden);
            assert(dnum * (m2 * m2) == (m2 * m2) * dden) by (nonlinear_arith)
                requires
                    dnum == dden,
            ;
        },
        _ => {},
    }
}

/// Law (interior misses, ellipses): the center of an ellipse whose smaller
/// axis clears twice the ring width is not contained — only the boundary
/// ring is hittable.
pub proof fn lemma_ellipse_center_miss(a: Annotation, tol: int)
    requires
        tol >= 0,
        match a.kind {
            AnnotationKind::Ellipse { rect } => {
                let rn = rect_normalized(rect);
                let w = rn.max.x - rn.min.x;
                let h = rn.max.y - rn.min.y;
                &&& w >= 1 && h >= 1
                &&& (rn.min.x + rn.max.x) % 2 == 0
                &&& (rn.min.y + rn.max.y) % 2 == 0
                &&& 2 * (tol + stroke_px(a.stroke_width)) < spec_min(w, h)
            },
            _ => false,
        },
    ensures
        match a.kind {
            AnnotationKind::Ellipse { rect } => {
                let rn = rect_normalized(rect);
                !annotation_contains(
                    a,
                    Point {
                        x: ((rn.min.x + rn.max.x) / 2) as i64,
                        y: ((rn.min.y + rn.max.y) / 2) as i64,
                    },
                    tol,
                )
            },
            _ => true,
        },
{
    match a.kind {
        AnnotationKind::Ellipse { rect } => {
            let rn = rect_normalized(rect);
            let w = rn.max.x - rn.min.x;
            let h = rn.max.y - rn.min.y;
            let p = Point {
                x: ((rn.min.x + rn.max.x) / 2) as i64,
                y: ((rn.min.y + rn.max.y) / 2) as i64,
            };
            let u = 2 * p.x - rn.min.x - rn.max.x;
            let v = 2 * p.y - rn.min.y - rn.max.y;
            assert(u == 0);
            assert(v == 0);
            let band = tol + stroke_px(a.stroke_width);
            let m2 = if spec_min(w, h) <= 2 {
                2int
            } else {
                spec_min(w, h)
            };
            let rnum = 2 * band;
            let dnum = u * u * (h * h) + v * v * (w * w);
            let dden = (w * w) * (h * h);
            assert(dnum == 0) by (nonlinear_arith)
                requires
                    u == 0,
                    v == 0,
                    dnum == u * u * (h * h) + v * v * (w * w),
            ;
            assert(dnum * (m2 * m2) == 0) by (nonlinear_arith)
                requires
                    dnum == 0,
            ;
            assert(rnum < m2);
            assert((m2 - rnum) * (m2 - rnum) > 0) by (nonlinear_arith)
                requires
                    rnum < m2,
            ;
            assert(w * w > 0) by (nonlinear_arith)
                requires
                    w >= 1,
            ;
            assert(h * h > 0) by (nonlinear_arith)
                requires
                    h >= 1,
            ;
            lemma_mul_pos(w * w, h * h);
            lemma_mul_pos((m2 - rnum) * (m2 - rnum), dden);
        },
        _ => {},
    }
}

/// Law (box hits, text): a point within `tol` of a text block's anchor
/// corner is contained at tolerance `tol` — text is hit-tested by its
/// bounding box.
pub proof fn lemma_text_anchor_hit(a: Annotation, p: Point, tol: int)
    requires
        tol >= 0,
        annotation_in_range(a),
        a.kind matches AnnotationKind::Text { .. },
        match a.kind {
            AnnotationKind::Text { pos, .. } => dist_sq(p, pos) <= tol * tol,
            _ => false,
        },
    ensures
        annotation_contains(a, p, tol),
{
    match a.kind {
        AnnotationKind::Text { pos, content, size } => {
            lemma_abs_from_sq(p.x - pos.x, p.y - pos.y, tol);
            let w = text_box_width(content@.len() as int, size.0 as int);
            let hh = text_box_height(size.0 as int);
            let n = spec_max(spec_min(content@.len() as int, 65536), 1);
            assert(1 <= n <= 65536);
            assert(0 <= n * size.0 <= 16711680) by (nonlinear_arith)
                requires
                    1 <= n <= 65536,
                    0 <= size.0 <= 255,
            ;
            assert(w >= 20);
            assert(w <= 10027008);
            assert(hh >= 0 && hh <= 357);
            let b = annotation_bounds(a);
            assert(b.min == pos);
            assert(b.max.x == pos.x + w && b.max.y == pos.y + hh);
        },
        _ => {},
    }
}

/// Exec counterpart of [`rect_handles`] on a normalized rectangle.
fn rect_handle_points(r: RectData) -> (v: Vec<(Handle, Point)>)
    requires
        rect_in_range(r),
        rect_is_normalized(r),
    ensures
        v@ == rect_handles(r),
{
    let cx: i64 = r.min.x + ((r.max.x - r.min.x) as u64 / 2) as i64;
    let cy: i64 = r.min.y + ((r.max.y - r.min.y) as u64 / 2) as i64;
    let v = vec![
        (Handle::TopLeft, r.min),
        (Handle::Top, Point { x: cx, y: r.min.y }),
        (Handle::TopRight, Point { x: r.max.x, y: r.min.y }),
        (Handle::Right, Point { x: r.max.x, y: cy }),
        (Handle::BottomRight, r.max),
        (Handle::Bottom, Point { x: cx, y: r.max.y }),
        (Handle::BottomLeft, Point { x: r.min.x, y: r.max.y }),
        (Handle::Left, Point { x: r.min.x, y: cy }),
    ];
    proof {
        assert(v@ =~= rect_handles(r));
    }
    v
}

/// Exec counterpart of [`rect_resized`].
fn apply_rect_resize(rect: RectData, handle: Handle, to: Point, keep_square: bool) -> (r: RectData)
    requires
        rect_in_range(rect),
        point_in_range(to),
        is_rect_handle(handle),
    ensures
        r == rect_resized(rect, handle, to, keep_square),
{
    let r0 = rect.normalize();
    let r1 = match handle {
        Handle::TopLeft => RectData { min: to, max: r0.max },
        Handle::Top => RectData { min: Point { x: r0.min.x, y: to.y }, max: r0.max },
        Handle::TopRight => RectData {
            min: Point { x: r0.min.x, y: to.y },
            max: Point { x: to.x, y: r0.max.y },
        },
        Handle::Right => RectData { min: r0.min, max: Point { x: to.x, y: r0.max.y } },
        Handle::BottomRight => RectData { min: r0.min, max: to },
        Handle::Bottom => RectData { min: r0.min, max: Point { x: r0.max.x, y: to.y } },
        Handle::BottomLeft => RectData {
            min: Point { x: to.x, y: r0.min.y },
            max: Point { x: r0.max.x, y: to.y },
        },
        Handle::Left => RectData { min: Point { x: to.x, y: r0.min.y }, max: r0.max },
        Handle::ArrowFrom => r0,
        Handle::ArrowTo => r0,
    };
    let r2 = if keep_square {
        let w: i64 = r1.max.x - r1.min.x;
        let hh: i64 = r1.max.y - r1.min.y;
        let aw: i64 = if w < 0 {
            -w
        } else {
            w
        };
        let ah: i64 = if hh < 0 {
            -hh
        } else {
            hh
        };
        let side: i64 = if aw >= ah {
            aw
        } else {
            ah
        };
        let sx: i64 = if w < 0 {
            -side
        } else {
            side
        };
        let sy: i64 = if hh < 0 {
            -side
        } else {
            side
        };
        RectData { min: r1.min, max: Point { x: r1.min.x + sx, y: r1.min.y + sy } }
    } else {
        r1
    };
    r2.normalize()
}

} // verus!
