use vstd::prelude::*;

verus! {

/// Fixed-point scale of a matrix's scale and skew entries: `UNIT` stands for 1.0.
pub const UNIT: i64 = 65536;

/// An axis-aligned rectangle in a shape's local space, in whole units.
#[derive(Clone, Copy, Debug, PartialEq, Eq, Structural)]
pub struct Bounds {
    pub left: i32,
    pub top: i32,
    pub right: i32,
    pub bottom: i32,
}

impl Bounds {
    /// Neither edge pair is inverted.
    pub open spec fn wf(&self) -> bool {
        self.left <= self.right && self.top <= self.bottom
    }

    /// Twice the horizontal centre, so that the centre is exact for odd widths.
    pub open spec fn center_x2(&self) -> int {
        self.left + self.right
    }

    /// Twice the vertical centre.
    pub open spec fn center_y2(&self) -> int {
        self.top + self.bottom
    }
}

/// A 2D affine matrix.
///
/// The scale and skew entries count `1 / UNIT`; the translations count
/// `1 / (2 * UNIT)` of a unit, so that moving to a bounds centre is exact.
/// A point `(x, y)` maps to
/// `(scale_x * x + skew_x * y + trans_x / 2, skew_y * x + scale_y * y + trans_y / 2) / UNIT`.
#[derive(Clone, Copy, Debug, PartialEq, Eq, Structural)]
pub struct Matrix {
    pub scale_x: i32,
    pub skew_x: i32,
    pub trans_x: i64,
    pub skew_y: i32,
    pub scale_y: i32,
    pub trans_y: i64,
}

pub open spec fn identity_spec() -> Matrix {
    Matrix { scale_x: UNIT as i32, skew_x: 0, trans_x: 0, skew_y: 0, scale_y: UNIT as i32, trans_y: 0 }
}

/// Translation of `translate(c) * m * translate(-c)` along x, in the matrix's units.
pub open spec fn pivot_trans_x(b: Bounds, m: Matrix) -> int {
    m.trans_x + b.center_x2() * UNIT - m.scale_x * b.center_x2() - m.skew_x * b.center_y2()
}

/// Translation of `translate(c) * m * translate(-c)` along y, in the matrix's units.
pub open spec fn pivot_trans_y(b: Bounds, m: Matrix) -> int {
    m.trans_y + b.center_y2() * UNIT - m.skew_y * b.center_x2() - m.scale_y * b.center_y2()
}

/// The pivot-centred matrix has translations that fit the matrix's fields.
pub open spec fn pivot_fits(b: Bounds, m: Matrix) -> bool {
    i64::MIN <= pivot_trans_x(b, m) <= i64::MAX && i64::MIN <= pivot_trans_y(b, m) <= i64::MAX
}

/// `m` applied around the centre `c` of `b`: `translate(c) * m * translate(-c)`.
pub open spec fn pivot_spec(b: Bounds, m: Matrix) -> Matrix {
    Matrix {
        scale_x: m.scale_x,
        skew_x: m.skew_x,
        trans_x: pivot_trans_x(b, m) as i64,
        skew_y: m.skew_y,
        scale_y: m.scale_y,
        trans_y: pivot_trans_y(b, m) as i64,
    }
}

impl Matrix {
    pub fn identity() -> (r: Matrix)
        ensures
            r == identity_spec(),
    {
        Matrix { scale_x: 65536, skew_x: 0, trans_x: 0, skew_y: 0, scale_y: 65536, trans_y: 0 }
    }
}

proof fn lemma_product_bound(a: int, c: int)
    requires
        -0x8000_0000 <= a <= 0x8000_0000,
        -0x1_0000_0000 <= c <= 0x1_0000_0000,
    ensures
        -0x1_0000_0000_0000_0000 <= a * c <= 0x1_0000_0000_0000_0000,
{
    assert(-0x1_0000_0000_0000_0000 <= a * c <= 0x1_0000_0000_0000_0000) by (nonlinear_arith)
        requires
            -0x8000_0000 <= a <= 0x8000_0000,
            -0x1_0000_0000 <= c <= 0x1_0000_0000,
    ;
}

/// Composes `m` around the centre of `b`, so that the centre is the pivot.
pub fn pivot_matrix(b: Bounds, m: Matrix) -> (r: Matrix)
    requires
        pivot_fits(b, m),
    ensures
        r == pivot_spec(b, m),
{
    let cx2: i128 = b.left as i128 + b.right as i128;
    let cy2: i128 = b.top as i128 + b.bottom as i128;
    assert(-0x1_0000_0000 <= cx2 <= 0x1_0000_0000);
    assert(-0x1_0000_0000 <= cy2 <= 0x1_0000_0000);
    proof {
        lemma_product_bound(m.scale_x as int, cx2 as int);
        lemma_product_bound(m.skew_x as int, cy2 as int);
        lemma_product_bound(m.skew_y as int, cx2 as int);
        lemma_product_bound(m.scale_y as int, cy2 as int);
    }
    let ux: i128 = cx2 * 65536;
    let ax: i128 = (m.scale_x as i128) * cx2;
    let bx: i128 = (m.skew_x as i128) * cy2;
    let ay: i128 = (m.skew_y as i128) * cx2;
    let by: i128 = (m.scale_y as i128) * cy2;
    let tx: i128 = m.trans_x as i128 + ux - ax - bx;
    let ty: i128 = m.trans_y as i128 + cy2 * 65536 - ay - by;
    Matrix {
        scale_x: m.scale_x,
        skew_x: m.skew_x,
        trans_x: tx as i64,
        skew_y: m.skew_y,
        scale_y: m.scale_y,
        trans_y: ty as i64,
    }
}

/// Whether `m` applied around the centre of `b` is representable.
pub fn pivot_in_range(b: Bounds, m: Matrix) -> (r: bool)
    ensures
        r == pivot_fits(b, m),
{
    let cx2: i128 = b.left as i128 + b.right as i128;
    let cy2: i128 = b.top as i128 + b.bottom as i128;
    proof {
        lemma_product_bound(m.scale_x as int, cx2 as int);
        lemma_product_bound(m.skew_x as int, cy2 as int);
        lemma_product_bound(m.skew_y as int, cx2 as int);
        lemma_product_bound(m.scale_y as int, cy2 as int);
    }
    let tx: i128 = m.trans_x as i128 + cx2 * 65536 - (m.scale_x as i128) * cx2 - (m.skew_x as i128) * cy2;
    let ty: i128 = m.trans_y as i128 + cy2 * 65536 - (m.skew_y as i128) * cx2 - (m.scale_y as i128) * cy2;
    i64::MIN as i128 <= tx && tx <= i64::MAX as i128 && i64::MIN as i128 <= ty && ty <= i64::MAX as i128
}

/// The identity transform applied around any centre is still the identity.
pub proof fn lemma_pivot_of_identity(b: Bounds)
    ensures
        pivot_fits(b, identity_spec()),
        pivot_spec(b, identity_spec()) == identity_spec(),
{
    let m = identity_spec();
    assert(m.scale_x == UNIT);
    assert(m.scale_y == UNIT);
    assert(m.scale_x * b.center_x2() == b.center_x2() * UNIT) by (nonlinear_arith)
        requires m.scale_x == UNIT;
    assert(m.scale_y * b.center_y2() == b.center_y2() * UNIT) by (nonlinear_arith)
        requires m.scale_y == UNIT;
    assert(pivot_trans_x(b, m) == 0);
    assert(pivot_trans_y(b, m) == 0);
}

/// Where `m` sends the point `(x2 / 2, y2 / 2)`, along x, counted in `1 / (2 * UNIT)`.
pub open spec fn map_x(m: Matrix, x2: int, y2: int) -> int {
    m.scale_x * x2 + m.skew_x * y2 + m.trans_x
}

/// Where `m` sends the point `(x2 / 2, y2 / 2)`, along y, counted in `1 / (2 * UNIT)`.
pub open spec fn map_y(m: Matrix, x2: int, y2: int) -> int {
    m.skew_y * x2 + m.scale_y * y2 + m.trans_y
}

/// The pivot-centred matrix sends every point `p` to `c + m(p - c)`, where
/// `c` is the centre of the bounds: `m` acts around `c` instead of the origin.
pub proof fn lemma_pivot_acts_around_center(b: Bounds, m: Matrix, x2: int, y2: int)
    requires
        pivot_fits(b, m),
    ensures
        map_x(pivot_spec(b, m), x2, y2) == b.center_x2() * UNIT + map_x(
            m,
            x2 - b.center_x2(),
            y2 - b.center_y2(),
        ),
        map_y(pivot_spec(b, m), x2, y2) == b.center_y2() * UNIT + map_y(
            m,
            x2 - b.center_x2(),
            y2 - b.center_y2(),
        ),
{
    let (cx, cy) = (b.center_x2(), b.center_y2());
    let (a, k) = (m.scale_x as int, m.skew_x as int);
    let (c, d) = (m.skew_y as int, m.scale_y as int);
    assert(a * (x2 - cx) == a * x2 - a * cx) by (nonlinear_arith);
    assert(k * (y2 - cy) == k * y2 - k * cy) by (nonlinear_arith);
    assert(c * (x2 - cx) == c * x2 - c * cx) by (nonlinear_arith);
    assert(d * (y2 - cy) == d * y2 - d * cy) by (nonlinear_arith);
}

/// Placement of an offscreen buffer that covers a shape's bounds.
#[derive(Clone, Copy, Debug, PartialEq, Eq, Structural)]
pub struct BufferLayout {
    pub width: i64,
    pub height: i64,
    pub dx: i64,
    pub dy: i64,
}

/// One unit of margin on each axis; translated so the bounds' top-left lands at the origin.
pub open spec fn layout_spec(b: Bounds) -> BufferLayout {
    BufferLayout {
        width: (b.right - b.left + 1) as i64,
        height: (b.bottom - b.top + 1) as i64,
        dx: -b.left as i64,
        dy: -b.top as i64,
    }
}

/// Size and translation of the offscreen buffer for a shape with bounds `b`.
pub fn buffer_layout(b: Bounds) -> (r: BufferLayout)
    ensures
        r == layout_spec(b),
        b.wf() ==> r.width >= 1 && r.height >= 1,
{
    BufferLayout {
        width: b.right as i64 - b.left as i64 + 1,
        height: b.bottom as i64 - b.top as i64 + 1,
        dx: -(b.left as i64),
        dy: -(b.top as i64),
    }
}

} // verus!
