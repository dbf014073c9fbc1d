use vstd::prelude::*;
use crate::layer::{world_outline, BackgroundLayer, Layer, StockLayer, Surface, TestLayer, WorldLayer};
use crate::map::{frame, LayeredMap};
use crate::projection::{unit_projection, EquirectangularProjection};

verus! {

/// The layers of the terrain display, bottom first.
pub open spec fn is_terrain_stack(layers: Seq<StockLayer>) -> bool {
    &&& layers.len() == 2
    &&& layers[0] matches StockLayer::World(w) && w.outline() == world_outline()
    &&& layers[1] == StockLayer::Test(TestLayer)
}

/// The map of the terrain display: the world backdrop, then the test shape,
/// one drawing unit per degree.
pub fn terrain_map() -> (r: LayeredMap<StockLayer>)
    ensures
        r@.projection == unit_projection(),
        is_terrain_stack(r@.layers),
{
    let mut map = LayeredMap::new(EquirectangularProjection::new());
    map.add_layer(StockLayer::World(WorldLayer::new()));
    map.add_layer(StockLayer::Test(TestLayer));
    map
}

/// One frame of a window whose edges are `left`, `top`, `right` and
/// `bottom`: a background quad over the whole window, then the map drawn
/// into it.
pub fn draw_window(map: &LayeredMap<StockLayer>, left: i32, top: i32, right: i32, bottom: i32, surface: &mut Surface)
    requires
        map@.projection.wf(),
        i32::MIN <= right - left <= i32::MAX,
        i32::MIN <= top - bottom <= i32::MAX,
    ensures
        final(surface)@ == old(surface)@
            + BackgroundLayer.primitives(map@.projection, left, bottom, (right - left) as i32, (top - bottom) as i32)
            + frame(map@.layers, map@.projection, left, bottom, (right - left) as i32, (top - bottom) as i32),
{
    let width = right - left;
    let height = top - bottom;
    BackgroundLayer.draw(map.projection(), left, bottom, width, height, surface);
    map.draw(left, bottom, width, height, surface);
}

} // verus!
