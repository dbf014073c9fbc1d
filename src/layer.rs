use vstd::prelude::*;
use crate::geo::{lat_lon, LatLon, LatLonRect, Latitude, Longitude, Polygon};
use crate::projection::{
    fit_projection, law_fit_stays_inside_box, projected, projected_bound, EquirectangularProjection, Point2D,
};

verus! {

/// An RGB colour, each channel in thousandths of full intensity.
#[derive(Clone, Copy, Debug, PartialEq, Eq, Structural)]
pub struct Color {
    pub red: u16,
    pub green: u16,
    pub blue: u16,
}

/// A filled convex polygon of one colour, in drawing-surface coordinates.
#[derive(Debug)]
pub struct Primitive {
    pub color: Color,
    pub vertices: Vec<Point2D>,
}

/// What a primitive is: its colour and its vertices, in order.
pub struct PrimitiveView {
    pub color: Color,
    pub vertices: Seq<Point2D>,
}

impl View for Primitive {
    type V = PrimitiveView;

    open spec fn view(&self) -> PrimitiveView {
        PrimitiveView { color: self.color, vertices: self.vertices@ }
    }
}

/// The ordered stream of primitives that one frame emits.
pub struct Surface {
    primitives: Vec<Primitive>,
}

impl View for Surface {
    type V = Seq<PrimitiveView>;

    closed spec fn view(&self) -> Seq<PrimitiveView> {
        self.primitives@.map_values(|p: Primitive| p@)
    }
}

impl Surface {
    /// A surface on which nothing has been drawn.
    pub fn new() -> (r: Surface)
        ensures
            r@ == Seq::<PrimitiveView>::empty(),
    {
        let r = Surface { primitives: Vec::new() };
        assert(r@ =~= Seq::<PrimitiveView>::empty());
        r
    }

    /// Appends `primitive` to the stream.
    pub fn emit(&mut self, primitive: Primitive)
        ensures
            final(self)@ == old(self)@.push(primitive@),
    {
        self.primitives.push(primitive);
        assert(final(self)@ =~= old(self)@.push(primitive@));
    }

    /// The number of primitives emitted so far.
    pub fn len(&self) -> (r: usize)
        ensures
            r == self@.len(),
    {
        self.primitives.len()
    }

    /// The primitives emitted so far, in order.
    pub fn primitives(&self) -> (r: &[Primitive])
        ensures
            r@.map_values(|p: Primitive| p@) == self@,
    {
        self.primitives.as_slice()
    }
}

/// `points` moved by `(x, y)`.
pub open spec fn offset(points: Seq<Point2D>, x: i32, y: i32) -> Seq<Point2D> {
    points.map_values(|p: Point2D| Point2D { x: (p.x + x) as i64, y: (p.y + y) as i64 })
}

/// Projects `polygon` and moves it onto the rectangle whose lower-left corner
/// is `(x, y)`.
pub fn place(projection: &EquirectangularProjection, polygon: &Polygon<LatLon>, x: i32, y: i32) -> (r: Vec<Point2D>)
    requires
        projection.wf(),
    ensures
        r@ == offset(projected(*projection, polygon@), x, y),
{
    let projected_poly = projection.project_poly(polygon);
    let points = projected_poly.points();
    let ghost target = offset(projected(*projection, polygon@), x, y);
    let mut out: Vec<Point2D> = Vec::with_capacity(points.len());
    let mut i: usize = 0;
    while i < points.len()
        invariant
            points@ == projected(*projection, polygon@),
            points@.len() == polygon@.len(),
            forall|k: int| 0 <= k < points@.len() ==> #[trigger] points@[k] == projection.project(polygon@[k]),
            projection.wf(),
            i <= points@.len(),
            out@ == offset(points@.take(i as int), x, y),
        decreases points@.len() - i,
    {
        let p = points[i];
        assert(-projected_bound() <= p.x <= projected_bound() && -projected_bound() <= p.y <= projected_bound()) by {
            crate::projection::lemma_project_bounded(*projection, polygon@[i as int]);
        }
        out.push(Point2D { x: p.x + x as i64, y: p.y + y as i64 });
        assert(points@.take(i + 1) =~= points@.take(i as int).push(p));
        i = i + 1;
        assert(out@ =~= offset(points@.take(i as int), x, y));
    }
    assert(points@.take(i as int) =~= points@);
    out
}

/// Something that draws itself into a rectangle of the drawing surface.
pub trait Layer {
    /// The primitives that `draw` emits, in order.
    spec fn primitives(&self, projection: EquirectangularProjection, x: i32, y: i32, width: i32, height: i32) -> Seq<PrimitiveView>;

    /// What `bounds` returns.
    spec fn extent(&self) -> Option<LatLonRect>;

    /// Emits this layer's primitives for the rectangle with lower-left corner
    /// `(x, y)` and the given size, projecting geometry with `projection`.
    fn draw(&self, projection: &EquirectangularProjection, x: i32, y: i32, width: i32, height: i32, surface: &mut Surface)
        requires
            projection.wf(),
        ensures
            final(surface)@ == old(surface)@ + self.primitives(*projection, x, y, width, height),
    ;

    /// The part of the globe this layer covers, or `None` where it has no
    /// meaningful extent.
    fn bounds(&self) -> (r: Option<LatLonRect>)
        ensures
            r == self.extent(),
    ;
}

/// The corners of the rectangle with lower-left corner `(x, y)`, starting
/// there and going clockwise.
pub open spec fn rectangle(x: i32, y: i32, width: i32, height: i32) -> Seq<Point2D> {
    seq![
        Point2D { x: x as i64, y: y as i64 },
        Point2D { x: x as i64, y: (y + height) as i64 },
        Point2D { x: (x + width) as i64, y: (y + height) as i64 },
        Point2D { x: (x + width) as i64, y: y as i64 },
    ]
}

pub open spec fn background_color() -> Color {
    Color { red: 0, green: 500, blue: 0 }
}

pub open spec fn test_color() -> Color {
    Color { red: 0, green: 0, blue: 1000 }
}

pub open spec fn world_color() -> Color {
    Color { red: 0, green: 500, blue: 1000 }
}

/// The fixed shape of the test layer: San Francisco, Seattle, London and
/// Madrid.
pub open spec fn test_shape() -> Seq<LatLon> {
    seq![
        lat_lon(37_410_000, -122_290_000),
        lat_lon(47_660_000, -122_270_000),
        lat_lon(51_507_222, -127_500),
        lat_lon(40_383_333, -3_716_667),
    ]
}

/// The outline of the whole globe, from its south-west corner clockwise.
pub open spec fn world_outline() -> Seq<LatLon> {
    seq![
        lat_lon(-90_000_000, -180_000_000),
        lat_lon(90_000_000, -180_000_000),
        lat_lon(90_000_000, 180_000_000),
        lat_lon(-90_000_000, 180_000_000),
    ]
}

/// A green quad that fills the whole rectangle it is drawn into.
#[derive(Clone, Copy, Debug, PartialEq, Eq, Structural)]
pub struct BackgroundLayer;

impl Layer for BackgroundLayer {
    open spec fn primitives(&self, projection: EquirectangularProjection, x: i32, y: i32, width: i32, height: i32) -> Seq<PrimitiveView> {
        seq![PrimitiveView { color: background_color(), vertices: rectangle(x, y, width, height) }]
    }

    open spec fn extent(&self) -> Option<LatLonRect> {
        None
    }

    fn draw(&self, projection: &EquirectangularProjection, x: i32, y: i32, width: i32, height: i32, surface: &mut Surface) {
        let left = x as i64;
        let bottom = y as i64;
        let right = left + width as i64;
        let top = bottom + height as i64;
        let vertices = vec![
            Point2D { x: left, y: bottom },
            Point2D { x: left, y: top },
            Point2D { x: right, y: top },
            Point2D { x: right, y: bottom },
        ];
        assert(vertices@ =~= rectangle(x, y, width, height));
        surface.emit(Primitive { color: Color { red: 0, green: 500, blue: 0 }, vertices });
        assert(final(surface)@ =~= old(surface)@ + self.primitives(*projection, x, y, width, height));
    }

    fn bounds(&self) -> (r: Option<LatLonRect>) {
        None
    }
}

/// A fixed blue shape over four cities, projected like map geometry.
#[derive(Clone, Copy, Debug, PartialEq, Eq, Structural)]
pub struct TestLayer;

impl TestLayer {
    /// The layer's shape.
    pub fn shape() -> (r: Polygon<LatLon>)
        ensures
            r@ == test_shape(),
    {
        let points = vec![
            LatLon { latitude: Latitude(37_410_000), longitude: Longitude(-122_290_000) },
            LatLon { latitude: Latitude(47_660_000), longitude: Longitude(-122_270_000) },
            LatLon { latitude: Latitude(51_507_222), longitude: Longitude(-127_500) },
            LatLon { latitude: Latitude(40_383_333), longitude: Longitude(-3_716_667) },
        ];
        assert(points@ =~= test_shape());
        Polygon::new(points)
    }
}

impl Layer for TestLayer {
    open spec fn primitives(&self, projection: EquirectangularProjection, x: i32, y: i32, width: i32, height: i32) -> Seq<PrimitiveView> {
        seq![PrimitiveView { color: test_color(), vertices: offset(projected(projection, test_shape()), x, y) }]
    }

    open spec fn extent(&self) -> Option<LatLonRect> {
        None
    }

    fn draw(&self, projection: &EquirectangularProjection, x: i32, y: i32, width: i32, height: i32, surface: &mut Surface) {
        let shape = TestLayer::shape();
        let vertices = place(projection, &shape, x, y);
        surface.emit(Primitive { color: Color { red: 0, green: 0, blue: 1000 }, vertices });
        assert(final(surface)@ =~= old(surface)@ + self.primitives(*projection, x, y, width, height));
    }

    fn bounds(&self) -> (r: Option<LatLonRect>) {
        None
    }
}

/// A quad covering the whole globe, the backdrop of a map.
#[derive(Debug)]
pub struct WorldLayer {
    /// A polygon that spans the globe.
    world: Polygon<LatLon>,
}

impl WorldLayer {
    /// The polygon this layer draws.
    pub closed spec fn outline(&self) -> Seq<LatLon> {
        self.world@
    }

    /// A layer that draws the outline of the whole globe.
    pub fn new() -> (r: WorldLayer)
        ensures
            r.outline() == world_outline(),
    {
        let points = vec![
            LatLon { latitude: Latitude(-90_000_000), longitude: Longitude(-180_000_000) },
            LatLon { latitude: Latitude(90_000_000), longitude: Longitude(-180_000_000) },
            LatLon { latitude: Latitude(90_000_000), longitude: Longitude(180_000_000) },
            LatLon { latitude: Latitude(-90_000_000), longitude: Longitude(180_000_000) },
        ];
        assert(points@ =~= world_outline());
        WorldLayer { world: Polygon::new(points) }
    }
}

impl Layer for WorldLayer {
    open spec fn primitives(&self, projection: EquirectangularProjection, x: i32, y: i32, width: i32, height: i32) -> Seq<PrimitiveView> {
        seq![PrimitiveView { color: world_color(), vertices: offset(projected(projection, self.outline()), x, y) }]
    }

    open spec fn extent(&self) -> Option<LatLonRect> {
        None
    }

    fn draw(&self, projection: &EquirectangularProjection, x: i32, y: i32, width: i32, height: i32, surface: &mut Surface) {
        let vertices = place(projection, &self.world, x, y);
        surface.emit(Primitive { color: Color { red: 0, green: 500, blue: 1000 }, vertices });
        assert(final(surface)@ =~= old(surface)@ + self.primitives(*projection, x, y, width, height));
    }

    fn bounds(&self) -> (r: Option<LatLonRect>) {
        None
    }
}

/// Any of the layers above, so that one map can hold several kinds.
#[derive(Debug)]
pub enum StockLayer {
    Background(BackgroundLayer),
    Test(TestLayer),
    World(WorldLayer),
}

impl Layer for StockLayer {
    open spec fn primitives(&self, projection: EquirectangularProjection, x: i32, y: i32, width: i32, height: i32) -> Seq<PrimitiveView> {
        match self {
            StockLayer::Background(l) => l.primitives(projection, x, y, width, height),
            StockLayer::Test(l) => l.primitives(projection, x, y, width, height),
            StockLayer::World(l) => l.primitives(projection, x, y, width, height),
        }
    }

    open spec fn extent(&self) -> Option<LatLonRect> {
        match self {
            StockLayer::Background(l) => l.extent(),
            StockLayer::Test(l) => l.extent(),
            StockLayer::World(l) => l.extent(),
        }
    }

    fn draw(&self, projection: &EquirectangularProjection, x: i32, y: i32, width: i32, height: i32, surface: &mut Surface) {
        match self {
            StockLayer::Background(l) => l.draw(projection, x, y, width, height, surface),
            StockLayer::Test(l) => l.draw(projection, x, y, width, height, surface),
            StockLayer::World(l) => l.draw(projection, x, y, width, height, surface),
        }
    }

    fn bounds(&self) -> (r: Option<LatLonRect>) {
        match self {
            StockLayer::Background(l) => l.bounds(),
            StockLayer::Test(l) => l.bounds(),
            StockLayer::World(l) => l.bounds(),
        }
    }
}

/// Drawn with the projection fitted to the rectangle's size, valid geometry
/// stays inside the rectangle.
pub proof fn law_fitted_drawing_stays_inside_rect(s: Seq<LatLon>, x: i32, y: i32, width: i32, height: i32)
    requires
        width >= 0,
        height >= 0,
        forall|i: int| 0 <= i < s.len() ==> (#[trigger] s[i]).is_valid(),
    ensures
        offset(projected(fit_projection(width as int, height as int), s), x, y).len() == s.len(),
        forall|i: int|
            0 <= i < s.len() ==> {
                let v = #[trigger] offset(projected(fit_projection(width as int, height as int), s), x, y)[i];
                &&& x <= v.x <= x + width
                &&& y <= v.y <= y + height
            },
{
    assert forall|i: int| 0 <= i < s.len() implies {
        let v = #[trigger] offset(projected(fit_projection(width as int, height as int), s), x, y)[i];
        &&& x <= v.x <= x + width
        &&& y <= v.y <= y + height
    } by {
        law_fit_stays_inside_box(width as int, height as int, s[i]);
    }
}

/// Drawn with the projection fitted to the rectangle's size, the world layer
/// emits one quad whose corners are exactly those of the rectangle.
pub proof fn law_fitted_world_layer_covers_rect(layer: WorldLayer, x: i32, y: i32, width: i32, height: i32)
    requires
        layer.outline() == world_outline(),
        width >= 0,
        height >= 0,
    ensures
        layer.primitives(fit_projection(width as int, height as int), x, y, width, height)
            == seq![PrimitiveView { color: world_color(), vertices: rectangle(x, y, width, height) }],
{
    let w = width as int;
    let h = height as int;
    assert((-180_000_000 * w + w * 180_000_000) / 360_000_000 == 0);
    assert((180_000_000 * w + w * 180_000_000) / 360_000_000 == w) by {
        vstd::arithmetic::div_mod::lemma_div_multiples_vanish(w, 360_000_000);
    }
    assert((-90_000_000 * h + h * 90_000_000) / 180_000_000 == 0);
    assert((90_000_000 * h + h * 90_000_000) / 180_000_000 == h) by {
        vstd::arithmetic::div_mod::lemma_div_multiples_vanish(h, 180_000_000);
    }
    assert(offset(projected(fit_projection(w, h), world_outline()), x, y) =~= rectangle(x, y, width, height));
}

} // verus!
