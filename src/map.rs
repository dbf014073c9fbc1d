use vstd::prelude::*;
use crate::layer::{Layer, PrimitiveView, Surface};
use crate::projection::EquirectangularProjection;

verus! {

/// The primitives that drawing `layers` in order emits.
pub open spec fn frame<L: Layer>(
    layers: Seq<L>,
    projection: EquirectangularProjection,
    x: i32,
    y: i32,
    width: i32,
    height: i32,
) -> Seq<PrimitiveView>
    decreases layers.len(),
{
    if layers.len() == 0 {
        Seq::empty()
    } else {
        frame(layers.drop_last(), projection, x, y, width, height)
            + layers.last().primitives(projection, x, y, width, height)
    }
}

/// What a map is: its projection and its layers in registration order.
pub struct LayeredMapView<L> {
    pub projection: EquirectangularProjection,
    pub layers: Seq<L>,
}

/// An ordered stack of layers drawn with one projection; later layers are
/// drawn over earlier ones.
pub struct LayeredMap<L> {
    projection: EquirectangularProjection,
    layers: Vec<L>,
}

impl<L> View for LayeredMap<L> {
    type V = LayeredMapView<L>;

    closed spec fn view(&self) -> LayeredMapView<L> {
        LayeredMapView { projection: self.projection, layers: self.layers@ }
    }
}

impl<L: Layer> LayeredMap<L> {
    /// A map with `projection` and no layers.
    pub fn new(projection: EquirectangularProjection) -> (r: LayeredMap<L>)
        requires
            projection.wf(),
        ensures
            r@.projection == projection,
            r@.layers == Seq::<L>::empty(),
    {
        LayeredMap { projection, layers: Vec::new() }
    }

    /// Puts `layer` on top of the layers already there.
    pub fn add_layer(&mut self, layer: L)
        ensures
            final(self)@.projection == old(self)@.projection,
            final(self)@.layers == old(self)@.layers.push(layer),
    {
        self.layers.push(layer);
    }

    /// The map's projection.
    pub fn projection(&self) -> (r: &EquirectangularProjection)
        ensures
            *r == self@.projection,
    {
        &self.projection
    }

    /// The number of layers.
    pub fn layer_count(&self) -> (r: usize)
        ensures
            r == self@.layers.len(),
    {
        self.layers.len()
    }

    /// Draws every layer, in registration order, into the rectangle with
    /// lower-left corner `(x, y)` and the given size.
    pub fn draw(&self, x: i32, y: i32, width: i32, height: i32, surface: &mut Surface)
        requires
            self@.projection.wf(),
        ensures
            final(surface)@ == old(surface)@ + frame(self@.layers, self@.projection, x, y, width, height),
    {
        let ghost start = surface@;
        let mut i: usize = 0;
        while i < self.layers.len()
            invariant
                self.projection.wf(),
                i <= self.layers@.len(),
                surface@ == start + frame(self.layers@.take(i as int), self.projection, x, y, width, height),
            decreases self.layers@.len() - i,
        {
            self.layers[i].draw(&self.projection, x, y, width, height, surface);
            proof {
                let next = self.layers@.take(i + 1);
                assert(next.drop_last() =~= self.layers@.take(i as int));
                assert(next.last() == self.layers@[i as int]);
            }
            i = i + 1;
            assert(surface@ =~= start + frame(self.layers@.take(i as int), self.projection, x, y, width, height));
        }
        assert(self.layers@.take(i as int) =~= self.layers@);
    }
}

/// Drawing two stacks one after the other emits what drawing them as one
/// stack does.
pub proof fn lemma_frame_concat<L: Layer>(
    a: Seq<L>,
    b: Seq<L>,
    projection: EquirectangularProjection,
    x: i32,
    y: i32,
    width: i32,
    height: i32,
)
    ensures
        frame(a + b, projection, x, y, width, height)
            == frame(a, projection, x, y, width, height) + frame(b, projection, x, y, width, height),
    decreases b.len(),
{
    if b.len() == 0 {
        assert(a + b =~= a);
        assert(frame(a, projection, x, y, width, height) + frame(b, projection, x, y, width, height)
            =~= frame(a, projection, x, y, width, height));
    } else {
        lemma_frame_concat(a, b.drop_last(), projection, x, y, width, height);
        assert((a + b).drop_last() =~= a + b.drop_last());
        assert((a + b).last() == b.last());
        assert(frame(a + b, projection, x, y, width, height) =~= frame(a, projection, x, y, width, height)
            + frame(b, projection, x, y, width, height));
    }
}

/// A map without layers draws nothing.
pub proof fn law_empty_map_draws_nothing<L: Layer>(
    projection: EquirectangularProjection,
    x: i32,
    y: i32,
    width: i32,
    height: i32,
)
    ensures
        frame(Seq::<L>::empty(), projection, x, y, width, height) == Seq::<PrimitiveView>::empty(),
{
}

/// Each layer's primitives come after those of every layer registered before
/// it and before those of every layer registered after it.
pub proof fn law_layers_draw_in_registration_order<L: Layer>(
    layers: Seq<L>,
    i: int,
    projection: EquirectangularProjection,
    x: i32,
    y: i32,
    width: i32,
    height: i32,
)
    requires
        0 <= i < layers.len(),
    ensures
        frame(layers, projection, x, y, width, height)
            == frame(layers.take(i), projection, x, y, width, height)
                + layers[i].primitives(projection, x, y, width, height)
                + frame(layers.skip(i + 1), projection, x, y, width, height),
{
    let front = layers.take(i + 1);
    let back = layers.skip(i + 1);
    assert(layers =~= front + back);
    lemma_frame_concat(front, back, projection, x, y, width, height);
    assert(front.drop_last() =~= layers.take(i));
    assert(front.last() == layers[i]);
}

/// Adding a layer and then another one puts the first one's primitives
/// directly after what the map drew before and the second one's after them.
pub proof fn law_layers_added_in_turn<L: Layer>(
    layers: Seq<L>,
    first: L,
    second: L,
    projection: EquirectangularProjection,
    x: i32,
    y: i32,
    width: i32,
    height: i32,
)
    ensures
        frame(layers.push(first).push(second), projection, x, y, width, height)
            == frame(layers, projection, x, y, width, height)
                + first.primitives(projection, x, y, width, height)
                + second.primitives(projection, x, y, width, height),
{
    assert(layers.push(first).push(second).drop_last() =~= layers.push(first));
    assert(layers.push(first).drop_last() =~= layers);
    let before = frame(layers, projection, x, y, width, height);
    let a = first.primitives(projection, x, y, width, height);
    let b = second.primitives(projection, x, y, width, height);
    assert(frame(layers.push(first), projection, x, y, width, height) == before + a);
    assert(frame(layers.push(first).push(second), projection, x, y, width, height) == (before + a) + b);
}

} // verus!
