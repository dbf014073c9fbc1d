use vstd::prelude::*;
use crate::geo::{lat_lon, LatLon, Polygon, MAX_LATITUDE, MAX_LONGITUDE};

verus! {

/// Largest magnitude of a scale numerator.
pub const MAX_SCALE_NUM: i64 = 0x8000_0000;

/// Largest magnitude of a scale offset.
pub const MAX_SCALE_OFFSET: i64 = 0x2000_0000_0000_0000;

/// Millionths of a degree in one degree.
pub const MICRO_DEGREES: i64 = 1_000_000;

/// A point of the drawing surface, in drawing units.
#[derive(Clone, Copy, Debug, PartialEq, Eq, Structural)]
pub struct Point2D {
    pub x: i64,
    pub y: i64,
}

/// The linear map of one geographic component (in millionths of a degree)
/// onto one drawing axis: `floor((v * num + offset) / den)`.
#[derive(Clone, Copy, Debug, PartialEq, Eq, Structural)]
pub struct AxisScale {
    pub num: i64,
    pub offset: i64,
    pub den: i64,
}

/// Magnitude bound of every projected coordinate.
pub open spec fn projected_bound() -> int {
    MAX_SCALE_NUM * 0x8000_0000 + MAX_SCALE_OFFSET
}

impl AxisScale {
    /// The bounds under which no projected coordinate can overflow.
    pub open spec fn wf(self) -> bool {
        &&& -MAX_SCALE_NUM <= self.num <= MAX_SCALE_NUM
        &&& -MAX_SCALE_OFFSET <= self.offset <= MAX_SCALE_OFFSET
        &&& self.den >= 1
    }

    pub open spec fn apply(self, v: int) -> int {
        (v * self.num + self.offset) / (self.den as int)
    }

    /// The scale `floor((v * num + offset) / den)`, or `None` where its
    /// parameters are out of bounds.
    pub fn new(num: i64, offset: i64, den: i64) -> (r: Option<AxisScale>)
        ensures
            (AxisScale { num, offset, den }).wf() ==> r == Some(AxisScale { num, offset, den }),
            !(AxisScale { num, offset, den }).wf() ==> r.is_none(),
    {
        if -MAX_SCALE_NUM <= num && num <= MAX_SCALE_NUM && -MAX_SCALE_OFFSET <= offset
            && offset <= MAX_SCALE_OFFSET && den >= 1 {
            Some(AxisScale { num, offset, den })
        } else {
            None
        }
    }

    /// The drawing coordinate of the geographic component `v`.
    pub fn apply_to(&self, v: i32) -> (r: i64)
        requires
            self.wf(),
        ensures
            r == self.apply(v as int),
            -projected_bound() <= r <= projected_bound(),
    {
        proof {
            lemma_product_bounded(v as int, self.num as int);
        }
        let n: i64 = v as i64 * self.num + self.offset;
        proof {
            lemma_floor_div_bounded(n as int, self.den as int);
        }
        match n.checked_div_euclid(self.den) {
            Some(q) => q,
            None => 0,
        }
    }
}

/// The product of a component and a scale numerator fits well within `i64`.
proof fn lemma_product_bounded(v: int, num: int)
    requires
        -0x8000_0000 <= v <= 0x8000_0000,
        -MAX_SCALE_NUM <= num <= MAX_SCALE_NUM,
    ensures
        -(MAX_SCALE_NUM * 0x8000_0000) <= v * num <= MAX_SCALE_NUM * 0x8000_0000,
{
    assert(-(0x8000_0000 * 0x8000_0000) <= v * num <= 0x8000_0000 * 0x8000_0000) by (nonlinear_arith)
        requires
            -0x8000_0000 <= v <= 0x8000_0000,
            -0x8000_0000 <= num <= 0x8000_0000,
    ;
}

/// Floor division by a positive divisor never moves away from zero.
proof fn lemma_floor_div_bounded(n: int, d: int)
    requires
        d >= 1,
    ensures
        n >= 0 ==> 0 <= n / d <= n,
        n < 0 ==> n <= n / d < 0,
{
    if n >= 0 {
        vstd::arithmetic::div_mod::lemma_div_pos_is_pos(n, d);
        vstd::arithmetic::div_mod::lemma_div_is_ordered_by_denominator(n, 1, d);
    } else {
        vstd::arithmetic::div_mod::lemma_fundamental_div_mod(n, d);
        assert(n / d < 0) by {
            if n / d >= 0 {
                vstd::arithmetic::mul::lemma_mul_nonnegative(d, n / d);
            }
        }
        let q = n / d;
        let r = n % d;
        assert(n <= q) by (nonlinear_arith)
            requires n == d * q + r, 0 <= r < d, q < 0, d >= 1;
    }
}

/// Every projected coordinate lies within `projected_bound()`.
pub proof fn lemma_project_bounded(projection: EquirectangularProjection, p: LatLon)
    requires
        projection.wf(),
    ensures
        -projected_bound() <= projection.project(p).x <= projected_bound(),
        -projected_bound() <= projection.project(p).y <= projected_bound(),
{
    lemma_scale_bounded(projection.longitude_scale, p.longitude.0 as int);
    lemma_scale_bounded(projection.latitude_scale, p.latitude.0 as int);
}

proof fn lemma_scale_bounded(s: AxisScale, v: int)
    requires
        s.wf(),
        -0x8000_0000 <= v <= 0x8000_0000,
    ensures
        -projected_bound() <= s.apply(v) <= projected_bound(),
{
    lemma_product_bounded(v, s.num as int);
    lemma_floor_div_bounded(v * s.num + s.offset, s.den as int);
}

/// The equirectangular projection: longitude maps linearly to x and
/// latitude to y, with no wrapping at the antimeridian and no special case
/// at the poles.
#[derive(Clone, Copy, Debug, PartialEq, Eq, Structural)]
pub struct EquirectangularProjection {
    pub longitude_scale: AxisScale,
    pub latitude_scale: AxisScale,
}

/// The projection of every vertex of `s`, in order.
pub open spec fn projected(projection: EquirectangularProjection, s: Seq<LatLon>) -> Seq<Point2D> {
    s.map_values(|p: LatLon| projection.project(p))
}

/// One drawing unit per degree on both axes, latitude and longitude 0 on the
/// drawing origin.
pub open spec fn unit_projection() -> EquirectangularProjection {
    EquirectangularProjection {
        longitude_scale: AxisScale { num: 1, offset: 0, den: MICRO_DEGREES },
        latitude_scale: AxisScale { num: 1, offset: 0, den: MICRO_DEGREES },
    }
}

/// The projection that spreads the whole globe over [0, width] x [0, height].
pub open spec fn fit_projection(width: int, height: int) -> EquirectangularProjection {
    EquirectangularProjection {
        longitude_scale: AxisScale { num: width as i64, offset: (width * MAX_LONGITUDE) as i64, den: 360_000_000 },
        latitude_scale: AxisScale { num: height as i64, offset: (height * MAX_LATITUDE) as i64, den: 180_000_000 },
    }
}

impl EquirectangularProjection {
    pub open spec fn wf(self) -> bool {
        self.longitude_scale.wf() && self.latitude_scale.wf()
    }

    pub open spec fn project(self, p: LatLon) -> Point2D {
        Point2D {
            x: self.longitude_scale.apply(p.longitude.0 as int) as i64,
            y: self.latitude_scale.apply(p.latitude.0 as int) as i64,
        }
    }

    /// One drawing unit per degree on both axes, with the point at latitude
    /// and longitude 0 on the drawing origin.
    pub fn new() -> (r: EquirectangularProjection)
        ensures
            r.wf(),
            r == unit_projection(),
    {
        let scale = AxisScale { num: 1, offset: 0, den: MICRO_DEGREES };
        EquirectangularProjection { longitude_scale: scale, latitude_scale: scale }
    }

    /// The projection that spreads the whole globe over the box
    /// [0, width] x [0, height]: longitude -180 on x = 0, latitude -90 on
    /// y = 0.
    pub fn fit(width: i32, height: i32) -> (r: EquirectangularProjection)
        requires
            width >= 0,
            height >= 0,
        ensures
            r.wf(),
            r == fit_projection(width as int, height as int),
    {
        let w = width as i64;
        let h = height as i64;
        proof {
            assert(0 <= w * 180_000_000 <= 0x8000_0000 * 180_000_000) by (nonlinear_arith)
                requires 0 <= w <= 0x8000_0000;
            assert(0 <= h * 90_000_000 <= 0x8000_0000 * 90_000_000) by (nonlinear_arith)
                requires 0 <= h <= 0x8000_0000;
        }
        EquirectangularProjection {
            longitude_scale: AxisScale { num: w, offset: w * MAX_LONGITUDE as i64, den: 360_000_000 },
            latitude_scale: AxisScale { num: h, offset: h * MAX_LATITUDE as i64, den: 180_000_000 },
        }
    }

    /// The drawing point of `p`.
    pub fn project_point(&self, p: LatLon) -> (r: Point2D)
        requires
            self.wf(),
        ensures
            r == self.project(p),
            -projected_bound() <= r.x <= projected_bound(),
            -projected_bound() <= r.y <= projected_bound(),
    {
        Point2D {
            x: self.longitude_scale.apply_to(p.longitude.0),
            y: self.latitude_scale.apply_to(p.latitude.0),
        }
    }

    /// Projects each vertex of `polygon` on its own, in order; degenerate
    /// polygons, empty ones included, are projected like any other.
    pub fn project_poly(&self, polygon: &Polygon<LatLon>) -> (r: Polygon<Point2D>)
        requires
            self.wf(),
        ensures
            r@ == projected(*self, polygon@),
            r@.len() == polygon@.len(),
            forall|i: int| 0 <= i < r@.len() ==> #[trigger] r@[i] == self.project(polygon@[i]),
    {
        let points = polygon.points();
        let mut out: Vec<Point2D> = Vec::with_capacity(points.len());
        let mut i: usize = 0;
        while i < points.len()
            invariant
                self.wf(),
                points@ == polygon@,
                i <= points@.len(),
                out@ == projected(*self, polygon@.take(i as int)),
            decreases points@.len() - i,
        {
            out.push(self.project_point(points[i]));
            proof {
                assert(polygon@.take(i + 1) =~= polygon@.take(i as int).push(polygon@[i as int]));
            }
            i = i + 1;
            assert(out@ =~= projected(*self, polygon@.take(i as int)));
        }
        assert(polygon@.take(i as int) =~= polygon@);
        Polygon::new(out)
    }
}

/// A point whose latitude and longitude are whole degrees lands, under
/// `unit_projection`, exactly on those degrees: no distortion.
pub proof fn law_whole_degrees_project_exactly(latitude_degrees: int, longitude_degrees: int)
    requires
        -90 <= latitude_degrees <= 90,
        -180 <= longitude_degrees <= 180,
    ensures
        unit_projection().project(lat_lon(latitude_degrees * 1_000_000, longitude_degrees * 1_000_000))
            == (Point2D { x: longitude_degrees as i64, y: latitude_degrees as i64 }),
{
    vstd::arithmetic::div_mod::lemma_div_multiples_vanish(latitude_degrees, 1_000_000);
    vstd::arithmetic::div_mod::lemma_div_multiples_vanish(longitude_degrees, 1_000_000);
}

/// Under `fit_projection(width, height)` every valid point lands inside
/// [0, width] x [0, height].
pub proof fn law_fit_stays_inside_box(width: int, height: int, p: LatLon)
    requires
        0 <= width <= i32::MAX,
        0 <= height <= i32::MAX,
        p.is_valid(),
    ensures
        0 <= fit_projection(width, height).project(p).x <= width,
        0 <= fit_projection(width, height).project(p).y <= height,
{
    lemma_fit_axis(width, p.longitude.0 as int, MAX_LONGITUDE as int);
    lemma_fit_axis(height, p.latitude.0 as int, MAX_LATITUDE as int);
}

proof fn lemma_fit_axis(size: int, v: int, half: int)
    requires
        0 <= size,
        1 <= half,
        -half <= v <= half,
    ensures
        0 <= (v * size + size * half) / (2 * half) <= size,
{
    let n = v * size + size * half;
    assert(n == (v + half) * size) by (nonlinear_arith)
        requires n == v * size + size * half;
    assert(0 <= n <= 2 * half * size) by (nonlinear_arith)
        requires n == (v + half) * size, 0 <= v + half <= 2 * half, 0 <= size;
    vstd::arithmetic::div_mod::lemma_div_pos_is_pos(n, 2 * half);
    vstd::arithmetic::div_mod::lemma_div_is_ordered(n, 2 * half * size, 2 * half);
    assert(2 * half * size == size * (2 * half)) by (nonlinear_arith);
    vstd::arithmetic::div_mod::lemma_div_multiples_vanish(size, 2 * half);
}

/// Projection is a function of the projection and the polygon alone: two
/// results that `project_poly` may give for the same polygon are the same.
pub proof fn law_projection_is_deterministic(
    projection: EquirectangularProjection,
    polygon: Seq<LatLon>,
    first: Polygon<Point2D>,
    second: Polygon<Point2D>,
)
    requires
        first@ == projected(projection, polygon),
        second@ == projected(projection, polygon),
    ensures
        first@ == second@,
{
}

/// Each vertex is projected on its own: projecting two vertex sequences
/// one after the other gives the projection of the two joined.
pub proof fn law_projection_is_pointwise(projection: EquirectangularProjection, a: Seq<LatLon>, b: Seq<LatLon>)
    ensures
        projected(projection, a + b) == projected(projection, a) + projected(projection, b),
        projected(projection, a).len() == a.len(),
        forall|i: int| 0 <= i < a.len() ==> #[trigger] projected(projection, a)[i] == projection.project(a[i]),
{
    assert(projected(projection, a + b) =~= projected(projection, a) + projected(projection, b));
}

} // verus!
