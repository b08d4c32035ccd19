use crate::model::tile::{LayerView, TileLayer};
use vstd::prelude::*;

verus! {

/// The plain values of a list of layers.
pub open spec fn views(layers: Seq<TileLayer>) -> Seq<LayerView> {
    layers.map_values(|l: TileLayer| l@)
}

/// The layers of `layers` whose visibility is `visible`, in order.
pub open spec fn with_visibility(layers: Seq<LayerView>, visible: bool) -> Seq<LayerView> {
    layers.filter(|l: LayerView| l.2 == visible)
}

/// The tile layers of a map, in drawing order.
#[derive(Clone, Debug)]
pub struct State {
    pub layers: Vec<TileLayer>,
}

impl View for State {
    type V = Seq<LayerView>;

    open spec fn view(&self) -> Seq<LayerView> {
        views(self.layers@)
    }
}

fn copy_layers(layers: &Vec<TileLayer>) -> (r: Vec<TileLayer>)
    ensures
        views(r@) == views(layers@),
{
    let mut r: Vec<TileLayer> = Vec::new();
    let mut i: usize = 0;
    while i < layers.len()
        invariant
            i <= layers@.len(),
            r@.len() == i,
            forall|k: int| 0 <= k < i ==> #[trigger] r@[k]@ == layers@[k]@,
        decreases layers@.len() - i,
    {
        r.push(layers[i].duplicate());
        i = i + 1;
    }
    proof {
        assert(views(r@) =~= views(layers@));
    }
    r
}

impl State {
    /// The given layers.
    pub fn new(layers: Vec<TileLayer>) -> (r: State)
        ensures
            r.layers@ == layers@,
    {
        State { layers }
    }

    /// Sets the visibility of the layer at `idx`, if there is one.
    pub fn set_visible(&mut self, idx: usize, visible: bool)
        ensures
            final(self)@ == if idx < old(self)@.len() {
                old(self)@.update(idx as int, (old(self)@[idx as int].0, old(self)@[idx as int].1, visible))
            } else {
                old(self)@
            },
    {
        if idx < self.layers.len() {
            let mut layer = self.layers[idx].duplicate();
            layer.visible = visible;
            self.layers.set(idx, layer);
            proof {
                assert(final(self)@ =~= old(self)@.update(
                    idx as int,
                    (old(self)@[idx as int].0, old(self)@[idx as int].1, visible),
                ));
            }
        }
    }

    /// All layers.
    pub fn layers(&self) -> (r: Vec<TileLayer>)
        ensures
            views(r@) == self@,
    {
        copy_layers(&self.layers)
    }

    /// The layers whose visibility is `visible`, in order.
    pub fn layers_by_visibility(&self, visible: bool) -> (r: Vec<TileLayer>)
        ensures
            views(r@) == with_visibility(self@, visible),
    {
        let mut r: Vec<TileLayer> = Vec::new();
        let mut i: usize = 0;
        while i < self.layers.len()
            invariant
                i <= self.layers@.len(),
                views(r@) == with_visibility(views(self.layers@.subrange(0, i as int)), visible),
            decreases self.layers@.len() - i,
        {
            let ghost before = views(self.layers@.subrange(0, i as int));
            let ghost after = views(self.layers@.subrange(0, i as int + 1));
            proof {
                assert(after.drop_last() =~= before);
                assert(after.last() == self.layers@[i as int]@);
                reveal(Seq::filter);
            }
            if self.layers[i].visible == visible {
                r.push(self.layers[i].duplicate());
                proof {
                    assert(views(r@) =~= with_visibility(before, visible).push(self.layers@[i as int]@));
                }
            }
            i = i + 1;
        }
        proof {
            assert(self.layers@.subrange(0, i as int) =~= self.layers@);
        }
        r
    }
}

} // verus!
