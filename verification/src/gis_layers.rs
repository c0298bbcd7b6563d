//! The layer store: an ordered stack of named geometries.
//!
//! Insertion order is render and pick priority: later layers draw on top and
//! are hit-tested first.  Identifiers start above the base value 0 and
//! strictly increase with every successful `add`; in fact the layer at
//! position `i` always carries identifier `i + 1`.  `containing_coord`
//! filters the stack from top to bottom by exact geometric containment, so
//! its first result is the topmost layer under the queried point.

use vstd::prelude::*;
use vstd::assert_seqs_equal;

use crate::geometry::{coord_in_range, geom_contains, geom_wf, geometry_contains,
    geometry_wf_exec, GeoCoord, Geometry};
use crate::gis_layer_id::{new_id, LayerId};

verus! {

/// Why a layer could not be added.
#[derive(Clone, Copy, Debug, PartialEq, Eq, Structural)]
pub enum LayerError {
    /// A vertex of the geometry lies outside the supported grid.
    GeometryOutOfRange,
}

/// One loaded geometry with its identity, name and visibility.
#[derive(Debug)]
pub struct Layer {
    pub id: LayerId,
    pub name: String,
    pub geom_type: Geometry,
    pub visible: bool,
}

/// The ordered stack of layers.
#[derive(Debug)]
pub struct AllLayers {
    pub layers: Vec<Layer>,
    pub selected_layer_id: i32,
}

/// The identifiers of the layers that contain `p`, from top to bottom.
pub open spec fn containing_ids(s: Seq<Layer>, p: GeoCoord) -> Seq<LayerId>
    decreases s.len(),
{
    if s.len() == 0 {
        Seq::empty()
    } else {
        let rest = containing_ids(s.drop_last(), p);
        if geom_contains(s.last().geom_type, p) {
            seq![s.last().id] + rest
        } else {
            rest
        }
    }
}

impl AllLayers {
    /// The stored layer sequence, bottom to top.
    pub open spec fn layers_seq(self) -> Seq<Layer> {
        self.layers@
    }

    /// Well-formedness: the layer at position `i` carries identifier
    /// `i + 1`, and every stored geometry is on the grid.
    pub open spec fn wf(self) -> bool {
        &&& self.layers_seq().len() <= i32::MAX as int
        &&& forall|i: int|
            0 <= i < self.layers_seq().len() ==> (#[trigger] self.layers_seq()[i]).id.id_spec() == i
                + 1
        &&& forall|i: int|
            0 <= i < self.layers_seq().len() ==> geom_wf(
                (#[trigger] self.layers_seq()[i]).geom_type,
            )
    }

    /// An empty store.
    pub fn new() -> (r: AllLayers)
        ensures
            r.wf(),
            r.layers_seq().len() == 0,
            r.selected_layer_id == 0,
    {
        AllLayers { layers: Vec::new(), selected_layer_id: 0 }
    }

    /// The number of layers held.
    pub fn count(&self) -> (r: usize)
        ensures
            r == self.layers_seq().len(),
    {
        self.layers.len()
    }

    /// The identifier of the most recently added layer, or the base value 0
    /// when the store is empty.  Under `wf` this equals the layer count.
    pub fn last_layer_id(&self) -> (r: i32)
        requires
            self.wf(),
        ensures
            r as int == self.layers_seq().len(),
    {
        if self.layers.len() == 0 {
            return 0;
        }
        self.layers[self.layers.len() - 1].id.get_id()
    }

    /// The identifier the next added layer will receive.
    fn next_layer_id(&self) -> (r: LayerId)
        requires
            self.wf(),
            self.layers_seq().len() < i32::MAX as int,
        ensures
            r.id_spec() == self.layers_seq().len() + 1,
    {
        LayerId::from_id(new_id(self.last_layer_id()))
    }

    /// Appends a layer holding `geometry` under `name`, not visible, with
    /// the next identifier.  Fails exactly when a vertex of the geometry
    /// lies outside the supported grid; the store is then unchanged.
    pub fn add(&mut self, geometry: Geometry, name: String) -> (r: Result<LayerId, LayerError>)
        requires
            old(self).wf(),
            old(self).layers_seq().len() < i32::MAX as int,
        ensures
            final(self).wf(),
            final(self).selected_layer_id == old(self).selected_layer_id,
            geom_wf(geometry) ==> {
                &&& r is Ok
                &&& r->Ok_0.id_spec() == old(self).layers_seq().len() + 1
                &&& final(self).layers_seq().len() == old(self).layers_seq().len() + 1
                &&& final(self).layers_seq().last().id == r->Ok_0
                &&& final(self).layers_seq().last().name@ == name@
                &&& final(self).layers_seq().last().geom_type == geometry
                &&& final(self).layers_seq().last().visible == false
                &&& forall|i: int|
                    0 <= i < old(self).layers_seq().len() ==> final(self).layers_seq()[i] == old(
                        self,
                    ).layers_seq()[i]
            },
            !geom_wf(geometry) ==> r == Result::<LayerId, LayerError>::Err(
                LayerError::GeometryOutOfRange,
            ) && *final(self) == *old(self),
    {
        if !geometry_wf_exec(&geometry) {
            return Err(LayerError::GeometryOutOfRange);
        }
        let id = self.next_layer_id();
        let layer = Layer { id, name, geom_type: geometry, visible: false };
        self.layers.push(layer);
        Ok(id)
    }

    /// The identifiers of the layers containing `coord`, topmost first: the
    /// hit-testing entry point.
    pub fn containing_coord(&self, coord: GeoCoord) -> (r: Vec<LayerId>)
        requires
            self.wf(),
            coord_in_range(coord),
        ensures
            r@ == containing_ids(self.layers_seq(), coord),
    {
        let ghost s = self.layers_seq();
        let mut r: Vec<LayerId> = Vec::new();
        let mut i: usize = self.layers.len();
        proof {
            assert_seqs_equal!(s.take(s.len() as int), s);
        }
        while i > 0
            invariant
                self.wf(),
                coord_in_range(coord),
                s == self.layers_seq(),
                0 <= i <= s.len(),
                containing_ids(s, coord) == r@ + containing_ids(s.take(i as int), coord),
            decreases i,
        {
            i = i - 1;
            let ghost t = s.take(i as int + 1);
            proof {
                assert_seqs_equal!(t.drop_last(), s.take(i as int));
                assert(t.last() == s[i as int]);
            }
            if geometry_contains(&self.layers[i].geom_type, coord) {
                r.push(self.layers[i].id);
                proof {
                    assert_seqs_equal!(
                        r@ + containing_ids(s.take(i as int), coord),
                        containing_ids(s, coord)
                    );
                }
            }
        }
        proof {
            assert_seqs_equal!(s.take(0), Seq::<Layer>::empty());
            assert_seqs_equal!(r@, r@ + containing_ids(s.take(0), coord));
        }
        r
    }

    /// The identifiers of all layers, bottom to top (insertion order).
    pub fn iter_bottom_to_top(&self) -> (r: Vec<LayerId>)
        ensures
            r@.len() == self.layers_seq().len(),
            forall|i: int| 0 <= i < r@.len() ==> r@[i] == self.layers_seq()[i].id,
    {
        let n = self.layers.len();
        let mut r: Vec<LayerId> = Vec::new();
        let mut i: usize = 0;
        while i < n
            invariant
                n == self.layers_seq().len(),
                0 <= i <= n,
                r@.len() == i,
                forall|j: int| 0 <= j < i ==> r@[j] == self.layers_seq()[j].id,
            decreases n - i,
        {
            r.push(self.layers[i].id);
            i = i + 1;
        }
        r
    }

    /// The identifiers of all layers, top to bottom (pick priority).
    pub fn iter_top_to_bottom(&self) -> (r: Vec<LayerId>)
        ensures
            r@.len() == self.layers_seq().len(),
            forall|i: int|
                0 <= i < r@.len() ==> r@[i] == self.layers_seq()[self.layers_seq().len() - 1
                    - i].id,
    {
        let n = self.layers.len();
        let mut r: Vec<LayerId> = Vec::new();
        let mut i: usize = n;
        while i > 0
            invariant
                n == self.layers_seq().len(),
                0 <= i <= n,
                r@.len() == n - i,
                forall|j: int| 0 <= j < n - i ==> r@[j] == self.layers_seq()[n - 1 - j].id,
            decreases i,
        {
            i = i - 1;
            r.push(self.layers[i].id);
        }
        r
    }

    /// The identifiers of all layers in insertion order.
    pub fn iter(&self) -> (r: Vec<LayerId>)
        ensures
            r@.len() == self.layers_seq().len(),
            forall|i: int| 0 <= i < r@.len() ==> r@[i] == self.layers_seq()[i].id,
    {
        self.iter_bottom_to_top()
    }

    /// The layer at position `i`, bottom to top.
    pub fn layer_at(&self, i: usize) -> (r: &Layer)
        requires
            i < self.layers_seq().len(),
        ensures
            *r == self.layers_seq()[i as int],
    {
        &self.layers[i]
    }
}

/// Law: within one store, identifiers strictly increase from bottom to top,
/// so `count()` successive `add` calls yield that many distinct,
/// strictly increasing identifiers.
pub proof fn lemma_layer_ids_strictly_increasing(store: AllLayers, i: int, j: int)
    requires
        store.wf(),
        0 <= i < j < store.layers_seq().len(),
    ensures
        store.layers_seq()[i].id.id_spec() < store.layers_seq()[j].id.id_spec(),
{
}

} // verus!
