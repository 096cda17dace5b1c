use vstd::prelude::*;

use crate::rat::Rat;

verus! {

/// Largest canvas dimension and screen coordinate magnitude the transform
/// accepts. The bound is what keeps every intermediate product of the
/// composed transform inside `i64`.
pub const MAX_DIM: i64 = 16384;

/// Bound on the numerators a matrix may hold when it is fed to
/// `multiply_matrix4`: with entries and denominators at most `2^30`, a dot
/// product of four entry products stays below `2^63`.
pub const ENTRY_LIMIT: i64 = 0x4000_0000;

/// A 4x4 matrix of exact rationals, row major, all sixteen entries sharing
/// one positive denominator: entry `(i, j)` denotes `m[4*i + j] / den`.
#[derive(Clone, Copy, PartialEq, Eq, Debug)]
pub struct Mat4 {
    pub m: [i64; 16],
    pub den: i64,
}

impl Mat4 {
    /// Well-formed: a positive common denominator.
    pub open spec fn wf(self) -> bool {
        self.den >= 1
    }

    /// Every numerator and the denominator are small enough for the matrix
    /// to be an operand of `multiply_matrix4`.
    pub open spec fn bounded(self) -> bool {
        &&& self.den <= ENTRY_LIMIT
        &&& forall|k: int| 0 <= k < 16 ==> -ENTRY_LIMIT <= #[trigger] self.m@[k] <= ENTRY_LIMIT
    }

    /// The identity: ones on the diagonal, denominator one.
    pub open spec fn is_identity(self) -> bool {
        &&& self.den == 1
        &&& forall|i: int, j: int|
            0 <= i < 4 && 0 <= j < 4 ==> #[trigger] self.m@[4 * i + j] == if i == j {
                1int
            } else {
                0int
            }
    }
}

/// Row-vector convention product entry: row `i` of `a` dotted with column
/// `j` of `b`, as an unbounded integer.
pub open spec fn mul_entry(a: Mat4, b: Mat4, i: int, j: int) -> int {
    a.m@[4 * i] * b.m@[j] + a.m@[4 * i + 1] * b.m@[4 + j] + a.m@[4 * i + 2] * b.m@[8 + j]
        + a.m@[4 * i + 3] * b.m@[12 + j]
}

/// The identity matrix.
pub fn identity_matrix() -> (r: Mat4)
    ensures
        r.wf(),
        r.bounded(),
        r.is_identity(),
{
    let r = Mat4 { m: [1, 0, 0, 0, 0, 1, 0, 0, 0, 0, 1, 0, 0, 0, 0, 1], den: 1 };
    assert forall|i: int, j: int| 0 <= i < 4 && 0 <= j < 4 implies #[trigger] r.m@[4 * i + j] == if i
        == j {
        1int
    } else {
        0int
    } by {
        assert(0 <= 4 * i + j < 16);
    }
    r
}

/// An identity matrix with the translation row set to `(tx, ty, tz)`.
///
/// The three rationals are put over the common denominator
/// `tx.den * ty.den * tz.den`; the `requires` bounds are what machine
/// arithmetic forces on that construction.
pub fn translation_matrix(tx: Rat, ty: Rat, tz: Rat) -> (r: Mat4)
    requires
        tx.wf(),
        ty.wf(),
        tz.wf(),
        tx.den * ty.den * tz.den <= ENTRY_LIMIT,
        -ENTRY_LIMIT <= tx.num * ty.den * tz.den <= ENTRY_LIMIT,
        -ENTRY_LIMIT <= ty.num * tx.den * tz.den <= ENTRY_LIMIT,
        -ENTRY_LIMIT <= tz.num * tx.den * ty.den <= ENTRY_LIMIT,
    ensures
        r.wf(),
        r.bounded(),
        r.den == tx.den * ty.den * tz.den,
        r.m@[0] == r.den,
        r.m@[5] == r.den,
        r.m@[10] == r.den,
        r.m@[15] == r.den,
        r.m@[12] == tx.num * ty.den * tz.den,
        r.m@[13] == ty.num * tx.den * tz.den,
        r.m@[14] == tz.num * tx.den * ty.den,
        r.m@[1] == 0 && r.m@[2] == 0 && r.m@[3] == 0 && r.m@[4] == 0 && r.m@[6] == 0 && r.m@[7]
            == 0 && r.m@[8] == 0 && r.m@[9] == 0 && r.m@[11] == 0,
{
    proof {
        lemma_scaled_triple_bounds(tx, ty, tz);
    }
    let den: i64 = tx.den * ty.den * tz.den;
    let t_x: i64 = tx.num * (ty.den * tz.den);
    let t_y: i64 = ty.num * (tx.den * tz.den);
    let t_z: i64 = tz.num * (tx.den * ty.den);
    Mat4 { m: [den, 0, 0, 0, 0, den, 0, 0, 0, 0, den, 0, t_x, t_y, t_z, den], den }
}

/// A diagonal scale matrix with factors `(sx, sy, sz)` and a one in the
/// corner, over the common denominator `sx.den * sy.den * sz.den`.
pub fn scale_matrix(sx: Rat, sy: Rat, sz: Rat) -> (r: Mat4)
    requires
        sx.wf(),
        sy.wf(),
        sz.wf(),
        sx.den * sy.den * sz.den <= ENTRY_LIMIT,
        -ENTRY_LIMIT <= sx.num * sy.den * sz.den <= ENTRY_LIMIT,
        -ENTRY_LIMIT <= sy.num * sx.den * sz.den <= ENTRY_LIMIT,
        -ENTRY_LIMIT <= sz.num * sx.den * sy.den <= ENTRY_LIMIT,
    ensures
        r.wf(),
        r.bounded(),
        r.den == sx.den * sy.den * sz.den,
        r.m@[0] == sx.num * sy.den * sz.den,
        r.m@[5] == sy.num * sx.den * sz.den,
        r.m@[10] == sz.num * sx.den * sy.den,
        r.m@[15] == r.den,
        r.m@[1] == 0 && r.m@[2] == 0 && r.m@[3] == 0 && r.m@[4] == 0 && r.m@[6] == 0 && r.m@[7]
            == 0 && r.m@[8] == 0 && r.m@[9] == 0 && r.m@[11] == 0 && r.m@[12] == 0 && r.m@[13] == 0
            && r.m@[14] == 0,
{
    proof {
        lemma_scaled_triple_bounds(sx, sy, sz);
    }
    let den: i64 = sx.den * sy.den * sz.den;
    let s_x: i64 = sx.num * (sy.den * sz.den);
    let s_y: i64 = sy.num * (sx.den * sz.den);
    let s_z: i64 = sz.num * (sx.den * sy.den);
    Mat4 { m: [s_x, 0, 0, 0, 0, s_y, 0, 0, 0, 0, s_z, 0, 0, 0, 0, den], den }
}

/// The intermediate products of `translation_matrix` and `scale_matrix`
/// stay inside `i64` whenever the triple products of the `requires` do.
proof fn lemma_scaled_triple_bounds(a: Rat, b: Rat, c: Rat) by (nonlinear_arith)
    requires
        a.wf(),
        b.wf(),
        c.wf(),
        a.den * b.den * c.den <= ENTRY_LIMIT,
        -ENTRY_LIMIT <= a.num * b.den * c.den <= ENTRY_LIMIT,
        -ENTRY_LIMIT <= b.num * a.den * c.den <= ENTRY_LIMIT,
        -ENTRY_LIMIT <= c.num * a.den * b.den <= ENTRY_LIMIT,
    ensures
        1 <= a.den * b.den * c.den,
        1 <= b.den * c.den <= ENTRY_LIMIT,
        1 <= a.den * c.den <= ENTRY_LIMIT,
        1 <= a.den * b.den <= ENTRY_LIMIT,
        a.num * (b.den * c.den) == a.num * b.den * c.den,
        b.num * (a.den * c.den) == b.num * a.den * c.den,
        c.num * (a.den * b.den) == c.num * a.den * b.den,
        -0x1000_0000_0000_0000 <= a.num * (b.den * c.den) <= 0x1000_0000_0000_0000,
        -0x1000_0000_0000_0000 <= b.num * (a.den * c.den) <= 0x1000_0000_0000_0000,
        -0x1000_0000_0000_0000 <= c.num * (a.den * b.den) <= 0x1000_0000_0000_0000,
{
}

/// A dot product of four entry products, exact.
fn dot4(a0: i64, a1: i64, a2: i64, a3: i64, b0: i64, b1: i64, b2: i64, b3: i64) -> (r: i64)
    requires
        -ENTRY_LIMIT <= a0 <= ENTRY_LIMIT,
        -ENTRY_LIMIT <= a1 <= ENTRY_LIMIT,
        -ENTRY_LIMIT <= a2 <= ENTRY_LIMIT,
        -ENTRY_LIMIT <= a3 <= ENTRY_LIMIT,
        -ENTRY_LIMIT <= b0 <= ENTRY_LIMIT,
        -ENTRY_LIMIT <= b1 <= ENTRY_LIMIT,
        -ENTRY_LIMIT <= b2 <= ENTRY_LIMIT,
        -ENTRY_LIMIT <= b3 <= ENTRY_LIMIT,
    ensures
        r == a0 * b0 + a1 * b1 + a2 * b2 + a3 * b3,
{
    proof {
        lemma_entry_product_bound(a0, b0);
        lemma_entry_product_bound(a1, b1);
        lemma_entry_product_bound(a2, b2);
        lemma_entry_product_bound(a3, b3);
    }
    a0 * b0 + a1 * b1 + a2 * b2 + a3 * b3
}

proof fn lemma_entry_product_bound(a: i64, b: i64) by (nonlinear_arith)
    requires
        -ENTRY_LIMIT <= a <= ENTRY_LIMIT,
        -ENTRY_LIMIT <= b <= ENTRY_LIMIT,
    ensures
        -0x1000_0000_0000_0000 <= a * b <= 0x1000_0000_0000_0000,
{
}

/// The 4x4 product `a * b` in the row-vector convention: entry `(i, j)` of
/// the result denotes row `i` of `a` dotted with column `j` of `b`. The
/// common denominator multiplies, so the product is exact.
pub fn multiply_matrix4(a: Mat4, b: Mat4) -> (r: Mat4)
    requires
        a.wf(),
        b.wf(),
        a.bounded(),
        b.bounded(),
    ensures
        r.wf(),
        r.den == a.den * b.den,
        forall|i: int, j: int|
            0 <= i < 4 && 0 <= j < 4 ==> #[trigger] r.m@[4 * i + j] == mul_entry(a, b, i, j),
{
    proof {
        lemma_entry_product_bound(a.den, b.den);
        assert(a.den * b.den >= 1) by (nonlinear_arith)
            requires
                a.den >= 1,
                b.den >= 1,
        ;
    }
    let den: i64 = a.den * b.den;
    let m = [
        dot4(a.m[0], a.m[1], a.m[2], a.m[3], b.m[0], b.m[4], b.m[8], b.m[12]),
        dot4(a.m[0], a.m[1], a.m[2], a.m[3], b.m[1], b.m[5], b.m[9], b.m[13]),
        dot4(a.m[0], a.m[1], a.m[2], a.m[3], b.m[2], b.m[6], b.m[10], b.m[14]),
        dot4(a.m[0], a.m[1], a.m[2], a.m[3], b.m[3], b.m[7], b.m[11], b.m[15]),
        dot4(a.m[4], a.m[5], a.m[6], a.m[7], b.m[0], b.m[4], b.m[8], b.m[12]),
        dot4(a.m[4], a.m[5], a.m[6], a.m[7], b.m[1], b.m[5], b.m[9], b.m[13]),
        dot4(a.m[4], a.m[5], a.m[6], a.m[7], b.m[2], b.m[6], b.m[10], b.m[14]),
        dot4(a.m[4], a.m[5], a.m[6], a.m[7], b.m[3], b.m[7], b.m[11], b.m[15]),
        dot4(a.m[8], a.m[9], a.m[10], a.m[11], b.m[0], b.m[4], b.m[8], b.m[12]),
        dot4(a.m[8], a.m[9], a.m[10], a.m[11], b.m[1], b.m[5], b.m[9], b.m[13]),
        dot4(a.m[8], a.m[9], a.m[10], a.m[11], b.m[2], b.m[6], b.m[10], b.m[14]),
        dot4(a.m[8], a.m[9], a.m[10], a.m[11], b.m[3], b.m[7], b.m[11], b.m[15]),
        dot4(a.m[12], a.m[13], a.m[14], a.m[15], b.m[0], b.m[4], b.m[8], b.m[12]),
        dot4(a.m[12], a.m[13], a.m[14], a.m[15], b.m[1], b.m[5], b.m[9], b.m[13]),
        dot4(a.m[12], a.m[13], a.m[14], a.m[15], b.m[2], b.m[6], b.m[10], b.m[14]),
        dot4(a.m[12], a.m[13], a.m[14], a.m[15], b.m[3], b.m[7], b.m[11], b.m[15]),
    ];
    let r = Mat4 { m, den };
    assert forall|i: int, j: int| 0 <= i < 4 && 0 <= j < 4 implies #[trigger] r.m@[4 * i + j]
        == mul_entry(a, b, i, j) by {
        assert(0 <= 4 * i + j < 16);
    }
    r
}

/// The sixteen numerators of the composed screen-rectangle transform over
/// the common denominator `(w*h) * (w*h)`: the scale that shrinks the unit
/// quad to `(right-left, top-bottom)` in normalized device coordinates,
/// multiplied by the translation that puts its lower-left corner at
/// `(2*left/w - 1, 2*bottom/h - 1)`.
pub open spec fn rect_transform_rows(
    left: int,
    right: int,
    bottom: int,
    top: int,
    w: int,
    h: int,
) -> Seq<int> {
    seq![
        2 * (right - left) * h * (w * h),
        0,
        0,
        0,
        0,
        2 * (top - bottom) * w * (w * h),
        0,
        0,
        0,
        0,
        0,
        0,
        (2 * left - w) * h * (w * h),
        (2 * bottom - h) * w * (w * h),
        0,
        (w * h) * (w * h),
    ]
}

/// The transform every drawable uploads for a screen-space rectangle:
/// `scale(2*(right-left)/w, 2*(top-bottom)/h, 0)` times
/// `translation(2*left/w - 1, 2*bottom/h - 1, 0)`, exact over the common
/// denominator `(w*h)^2`. The coordinate bounds are what keeps every
/// intermediate product inside `i64`.
pub fn rect_transform(
    left: i64,
    right: i64,
    bottom: i64,
    top: i64,
    canvas_width: i64,
    canvas_height: i64,
) -> (r: Mat4)
    requires
        1 <= canvas_width <= MAX_DIM,
        1 <= canvas_height <= MAX_DIM,
        -MAX_DIM <= left <= MAX_DIM,
        -MAX_DIM <= right <= MAX_DIM,
        -MAX_DIM <= bottom <= MAX_DIM,
        -MAX_DIM <= top <= MAX_DIM,
    ensures
        r.wf(),
        r.den == (canvas_width * canvas_height) * (canvas_width * canvas_height),
        forall|k: int|
            0 <= k < 16 ==> #[trigger] r.m@[k] == rect_transform_rows(
                left as int,
                right as int,
                bottom as int,
                top as int,
                canvas_width as int,
                canvas_height as int,
            )[k],
{
    let w = canvas_width;
    let h = canvas_height;
    proof {
        lemma_rect_operand_bounds(left as int, right as int, bottom as int, top as int, w as int, h as int);
    }
    let s_x = Rat::new(2 * (right - left), w);
    let s_y = Rat::new(2 * (top - bottom), h);
    let t_x = Rat::new(2 * left - w, w);
    let t_y = Rat::new(2 * bottom - h, h);
    let zero = Rat::new(0, 1);
    let s = scale_matrix(s_x, s_y, zero);
    let t = translation_matrix(t_x, t_y, zero);
    let r = multiply_matrix4(s, t);
    proof {
        let li = left as int;
        let ri = right as int;
        let bi = bottom as int;
        let ti = top as int;
        let wi = w as int;
        let hi = h as int;
        let rows = rect_transform_rows(li, ri, bi, ti, wi, hi);
        assert forall|k: int| 0 <= k < 16 implies #[trigger] r.m@[k] == rows[k] by {
            let i = k / 4;
            let j = k % 4;
            assert(k == 4 * i + j);
            assert(r.m@[4 * i + j] == mul_entry(s, t, i, j));
            lemma_rect_entry_values(s, t, li, ri, bi, ti, wi, hi);
        }
        assert(wi * hi * 1 * (wi * hi * 1) == (wi * hi) * (wi * hi)) by (nonlinear_arith);
    }
    r
}

/// The operand bounds `scale_matrix`, `translation_matrix` and
/// `multiply_matrix4` need when the rectangle and canvas are within
/// `MAX_DIM`.
proof fn lemma_rect_operand_bounds(left: int, right: int, bottom: int, top: int, w: int, h: int) by (nonlinear_arith)
    requires
        1 <= w <= MAX_DIM,
        1 <= h <= MAX_DIM,
        -MAX_DIM <= left <= MAX_DIM,
        -MAX_DIM <= right <= MAX_DIM,
        -MAX_DIM <= bottom <= MAX_DIM,
        -MAX_DIM <= top <= MAX_DIM,
    ensures
        w * h * 1 <= ENTRY_LIMIT,
        -ENTRY_LIMIT <= (2 * (right - left)) * h * 1 <= ENTRY_LIMIT,
        -ENTRY_LIMIT <= (2 * (top - bottom)) * w * 1 <= ENTRY_LIMIT,
        -ENTRY_LIMIT <= 0 * w * h <= ENTRY_LIMIT,
        -ENTRY_LIMIT <= (2 * left - w) * h * 1 <= ENTRY_LIMIT,
        -ENTRY_LIMIT <= (2 * bottom - h) * w * 1 <= ENTRY_LIMIT,
        -0x8000_0000_0000_0000 <= 2 * (right - left) < 0x8000_0000_0000_0000,
        -0x8000_0000_0000_0000 <= 2 * (top - bottom) < 0x8000_0000_0000_0000,
        -0x8000_0000_0000_0000 <= 2 * left - w < 0x8000_0000_0000_0000,
        -0x8000_0000_0000_0000 <= 2 * bottom - h < 0x8000_0000_0000_0000,
{
}

/// Each product entry of the composed transform equals the matching
/// closed-form numerator of `rect_transform_rows`.
proof fn lemma_rect_entry_values(s: Mat4, t: Mat4, left: int, right: int, bottom: int, top: int, w: int, h: int) by (nonlinear_arith)
    requires
        s.m@.len() == 16,
        t.m@.len() == 16,
        s.m@[0] == (2 * (right - left)) * h * 1,
        s.m@[5] == (2 * (top - bottom)) * w * 1,
        s.m@[10] == 0 * w * h,
        s.m@[15] == w * h * 1,
        s.m@[1] == 0 && s.m@[2] == 0 && s.m@[3] == 0 && s.m@[4] == 0 && s.m@[6] == 0 && s.m@[7]
            == 0 && s.m@[8] == 0 && s.m@[9] == 0 && s.m@[11] == 0 && s.m@[12] == 0 && s.m@[13] == 0
            && s.m@[14] == 0,
        t.m@[0] == w * h * 1,
        t.m@[5] == w * h * 1,
        t.m@[10] == w * h * 1,
        t.m@[15] == w * h * 1,
        t.m@[12] == (2 * left - w) * h * 1,
        t.m@[13] == (2 * bottom - h) * w * 1,
        t.m@[14] == 0 * w * h,
        t.m@[1] == 0 && t.m@[2] == 0 && t.m@[3] == 0 && t.m@[4] == 0 && t.m@[6] == 0 && t.m@[7]
            == 0 && t.m@[8] == 0 && t.m@[9] == 0 && t.m@[11] == 0,
    ensures
        forall|i: int, j: int|
            0 <= i < 4 && 0 <= j < 4 ==> #[trigger] mul_entry(s, t, i, j) == rect_transform_rows(
                left,
                right,
                bottom,
                top,
                w,
                h,
            )[4 * i + j],
{
}

/// The transform law of the composed screen-rectangle matrix, stated by
/// cross multiplication against its denominator `(w*h)^2`: the unit-quad
/// corner (0,0) lands on normalized device coordinates
/// `(2*left/w - 1, 2*bottom/h - 1)` and the corner (1,1) on
/// `(2*right/w - 1, 2*top/h - 1)`, exactly, for every rectangle and every
/// positive canvas size.
pub proof fn lemma_transform_maps_unit_quad(
    left: int,
    right: int,
    bottom: int,
    top: int,
    w: int,
    h: int,
)
    requires
        w >= 1,
        h >= 1,
    ensures
        rect_transform_rows(left, right, bottom, top, w, h)[12] * w == (2 * left - w) * ((w * h) * (
        w * h)),
        rect_transform_rows(left, right, bottom, top, w, h)[13] * h == (2 * bottom - h) * ((w * h)
            * (w * h)),
        (rect_transform_rows(left, right, bottom, top, w, h)[0] + rect_transform_rows(
            left,
            right,
            bottom,
            top,
            w,
            h,
        )[12]) * w == (2 * right - w) * ((w * h) * (w * h)),
        (rect_transform_rows(left, right, bottom, top, w, h)[5] + rect_transform_rows(
            left,
            right,
            bottom,
            top,
            w,
            h,
        )[13]) * h == (2 * top - h) * ((w * h) * (w * h)),
{
    assert(((2 * left - w) * h * (w * h)) * w == (2 * left - w) * ((w * h) * (w * h)))
        by (nonlinear_arith);
    assert(((2 * bottom - h) * w * (w * h)) * h == (2 * bottom - h) * ((w * h) * (w * h)))
        by (nonlinear_arith);
    assert((2 * (right - left) * h * (w * h) + (2 * left - w) * h * (w * h)) * w == (2 * right - w)
        * ((w * h) * (w * h))) by (nonlinear_arith);
    assert((2 * (top - bottom) * w * (w * h) + (2 * bottom - h) * w * (w * h)) * h == (2 * top - h)
        * ((w * h) * (w * h))) by (nonlinear_arith);
}

/// Multiplying any matrix by the identity on the right returns it
/// unchanged, entry for entry and with the same denominator.
pub proof fn lemma_multiply_identity(a: Mat4, id: Mat4)
    requires
        a.wf(),
        id.is_identity(),
    ensures
        a.den * id.den == a.den,
        forall|i: int, j: int|
            0 <= i < 4 && 0 <= j < 4 ==> #[trigger] mul_entry(a, id, i, j) == a.m@[4 * i + j],
{
    assert forall|i: int, j: int| 0 <= i < 4 && 0 <= j < 4 implies #[trigger] mul_entry(a, id, i, j)
        == a.m@[4 * i + j] by {
        assert(id.m@[4 * 0 + j] == if 0 == j { 1int } else { 0int });
        assert(id.m@[4 * 1 + j] == if 1 == j { 1int } else { 0int });
        assert(id.m@[4 * 2 + j] == if 2 == j { 1int } else { 0int });
        assert(id.m@[4 * 3 + j] == if 3 == j { 1int } else { 0int });
        assert(id.m@[j] == id.m@[4 * 0 + j]);
        assert(id.m@[4 + j] == id.m@[4 * 1 + j]);
        assert(id.m@[8 + j] == id.m@[4 * 2 + j]);
        assert(id.m@[12 + j] == id.m@[4 * 3 + j]);
    }
}

} // verus!
