//! Many placements of one sprite, each under an id of its own.

use vstd::prelude::*;
use std::collections::HashMap;
use std::collections::hash_map::Entry;
use vstd::std_specs::iter::IteratorSpec;
use crate::engine::geometry::Vector2;
use crate::engine::transformation::Transformation;

verus! {

/// One placement of the group's sprite.
#[derive(Clone, Copy, Debug)]
pub struct Instance {
    position: Vector2,
    transformation: Transformation,
}

/// What an [`Instance`] stands for.
pub struct InstanceView {
    /// Position, in pixels.
    pub x: int,
    pub y: int,
    /// Rotation, in thousandths of a degree.
    pub rotation: int,
    /// Scale factor, in thousandths.
    pub scale: int,
}

impl View for Instance {
    type V = InstanceView;

    closed spec fn view(&self) -> InstanceView {
        InstanceView {
            x: self.position.x as int,
            y: self.position.y as int,
            rotation: self.transformation@.rotation,
            scale: self.transformation@.scale,
        }
    }
}

impl Instance {
    /// A placement at (`x`, `y`) with the given rotation and scale.
    pub fn new(x: u32, y: u32, rotation: i32, scale: u32) -> (instance: Instance)
        ensures
            instance@ == (InstanceView {
                x: x as int,
                y: y as int,
                rotation: rotation as int,
                scale: scale as int,
            }),
    {
        Instance { position: Vector2 { x, y }, transformation: Transformation::new(rotation, scale) }
    }

    /// Puts the placement at (`x`, `y`) with the given rotation and scale.
    pub fn update(&mut self, x: u32, y: u32, rotation: i32, scale: u32)
        ensures
            final(self)@ == (InstanceView {
                x: x as int,
                y: y as int,
                rotation: rotation as int,
                scale: scale as int,
            }),
    {
        self.position.x = x;
        self.position.y = y;
        self.transformation.update(rotation, scale);
    }

    pub fn position_x(&self) -> (x: u32)
        ensures
            x == self@.x,
    {
        self.position.x
    }

    pub fn position_y(&self) -> (y: u32)
        ensures
            y == self@.y,
    {
        self.position.y
    }

    /// Rotation, in thousandths of a degree.
    pub fn rotation(&self) -> (rotation: i32)
        ensures
            rotation == self@.rotation,
    {
        self.transformation.rotation_deg()
    }

    /// Scale factor, in thousandths.
    pub fn scale(&self) -> (scale: u32)
        ensures
            scale == self@.scale,
    {
        self.transformation.scale_factor()
    }
}

/// The placements of one sprite, by id, and the corner indices that paint
/// them: six for each placement, the two triangles of a rectangle.
pub struct EntityGroup {
    instances: HashMap<u32, Instance>,
    indices: Vec<u16>,
}

/// What an [`EntityGroup`] stands for.
pub struct EntityGroupView {
    pub instances: Map<u32, InstanceView>,
    pub indices: Seq<u16>,
}

/// The corners of the two triangles that make up one rectangle.
pub open spec fn quad() -> Seq<u16> {
    seq![0u16, 1u16, 2u16, 0u16, 2u16, 3u16]
}

/// `count` rectangles' worth of corner indices.
pub open spec fn quads(count: nat) -> Seq<u16>
    decreases count,
{
    if count == 0 {
        Seq::empty()
    } else {
        quads((count - 1) as nat) + quad()
    }
}

proof fn lemma_quads_len(count: nat)
    ensures
        quads(count).len() == 6 * count,
    decreases count,
{
    if count > 0 {
        lemma_quads_len((count - 1) as nat);
    }
}

impl EntityGroupView {
    /// There are six corner indices for each placement, one rectangle after
    /// the other.
    pub open spec fn wf(self) -> bool {
        &&& self.instances.dom().finite()
        &&& self.indices == quads(self.instances.dom().len())
    }

    /// Whether `placed` lists the group's placements by `ids`: every id of
    /// the group stands in `ids` once, and `placed` holds, place for place,
    /// the placement under each.
    pub open spec fn lists(self, ids: Seq<u32>, placed: Seq<InstanceView>) -> bool {
        &&& ids.no_duplicates()
        &&& ids.to_set() == self.instances.dom()
        &&& placed.len() == ids.len()
        &&& forall|k: int| 0 <= k < ids.len() ==> (#[trigger] placed[k]) == self.instances[ids[k]]
    }

    /// The indices once the last rectangle's are taken off; of fewer than
    /// six, none is left.
    pub open spec fn indices_without_last(self) -> Seq<u16> {
        if self.indices.len() >= 6 {
            self.indices.take(self.indices.len() - 6)
        } else {
            Seq::empty()
        }
    }
}

impl View for EntityGroup {
    type V = EntityGroupView;

    closed spec fn view(&self) -> EntityGroupView {
        EntityGroupView {
            instances: self.instances@.map_values(|instance: Instance| instance@),
            indices: self.indices@,
        }
    }
}

/// What each placement of a list stands for, in order.
pub open spec fn instance_views(placed: Seq<Instance>) -> Seq<InstanceView> {
    placed.map_values(|instance: Instance| instance@)
}

impl EntityGroup {
    /// A group with no placement in it.
    pub fn new() -> (group: EntityGroup)
        ensures
            group@.instances == Map::<u32, InstanceView>::empty(),
            group@.indices == Seq::<u16>::empty(),
            group@.wf(),
    {
        let group = EntityGroup { instances: HashMap::new(), indices: Vec::new() };
        assert(group@.instances =~= Map::<u32, InstanceView>::empty());
        group
    }

    /// Adds a placement under `id`. An id that is in use is refused, and
    /// the group stays as it is.
    pub fn add_instance(&mut self, id: u32, x: u32, y: u32, rotation: i32, scale: u32) -> (added: Result<
        (),
        &'static str,
    >)
        ensures
            old(self)@.instances.contains_key(id) ==> added == Err::<(), &'static str>(
                "ID already exists",
            ) && final(self)@ == old(self)@,
            !old(self)@.instances.contains_key(id) ==> added == Ok::<(), &'static str>(())
                && final(self)@ == (EntityGroupView {
                instances: old(self)@.instances.insert(
                    id,
                    InstanceView {
                        x: x as int,
                        y: y as int,
                        rotation: rotation as int,
                        scale: scale as int,
                    },
                ),
                indices: old(self)@.indices + quad(),
            }),
            old(self)@.wf() ==> final(self)@.wf(),
    {
        broadcast use vstd::std_specs::hash::group_hash_axioms;

        if self.instances.contains_key(&id) {
            return Err("ID already exists");
        }
        let instance = Instance::new(x, y, rotation, scale);
        self.instances.insert(id, instance);
        self.indices.push(0);
        self.indices.push(1);
        self.indices.push(2);
        self.indices.push(0);
        self.indices.push(2);
        self.indices.push(3);
        assert(self@.instances =~= old(self)@.instances.insert(id, instance@));
        assert(self@.indices =~= old(self)@.indices + quad());
        assert(self@.instances.dom() =~= old(self)@.instances.dom().insert(id));
        Ok(())
    }

    /// Takes the placement under `id` out of the group. An id that is not
    /// in use is refused, and the group stays as it is.
    pub fn remove_instance(&mut self, id: u32) -> (removed: Result<(), &'static str>)
        ensures
            !old(self)@.instances.contains_key(id) ==> removed == Err::<(), &'static str>(
                "Invalid id",
            ) && final(self)@ == old(self)@,
            old(self)@.instances.contains_key(id) ==> removed == Ok::<(), &'static str>(())
                && final(self)@ == (EntityGroupView {
                instances: old(self)@.instances.remove(id),
                indices: old(self)@.indices_without_last(),
            }),
            old(self)@.wf() ==> final(self)@.wf(),
    {
        broadcast use vstd::std_specs::hash::group_hash_axioms;

        if !self.instances.contains_key(&id) {
            return Err("Invalid id");
        }
        self.instances.remove(&id);
        let mut taken: usize = 0;
        while taken < 6
            invariant
                taken <= 6,
                self.instances@ == old(self).instances@.remove(id),
                old(self).indices@.len() >= taken ==> self.indices@ == old(self).indices@.take(
                    old(self).indices@.len() - taken,
                ),
                old(self).indices@.len() < taken ==> self.indices@ == Seq::<u16>::empty(),
            decreases 6 - taken,
        {
            self.indices.pop();
            taken += 1;
        }
        assert(self@.instances =~= old(self)@.instances.remove(id));
        proof {
            if old(self)@.wf() {
                let count = old(self)@.instances.dom().len();
                assert(self@.instances.dom() =~= old(self)@.instances.dom().remove(id));
                assert(count > 0);
                lemma_quads_len(count);
                lemma_quads_len((count - 1) as nat);
                assert(quads(count).take(quads(count).len() - 6) =~= quads((count - 1) as nat));
            }
        }
        Ok(())
    }

    /// The placement under `id`, to read or to change in place.
    pub fn get_instance(&mut self, id: u32) -> (found: Result<&mut Instance, &'static str>)
        ensures
            match found {
                Ok(instance) => {
                    &&& old(self)@.instances.contains_key(id)
                    &&& instance@ == old(self)@.instances[id]
                    &&& final(self)@ == (EntityGroupView {
                        instances: old(self)@.instances.insert(id, final(instance)@),
                        indices: old(self)@.indices,
                    })
                },
                Err(message) => {
                    &&& !old(self)@.instances.contains_key(id)
                    &&& message == "Invalid id"
                    &&& final(self)@ == old(self)@
                },
            },
    {
        broadcast use vstd::std_specs::hash::group_hash_axioms;

        let ghost before = self.instances@;
        match self.instances.entry(id) {
            Entry::Occupied(occupied) => {
                let instance = occupied.into_mut();
                proof {
                    assert(before.contains_key(id));
                    assert(before.insert(id, *final(instance)).map_values(
                        |instance: Instance| instance@,
                    ) =~= before.map_values(|instance: Instance| instance@).insert(
                        id,
                        final(instance)@,
                    ));
                }
                Ok(instance)
            },
            Entry::Vacant(_) => {
                proof {
                    assert(!before.contains_key(id));
                    assert(before.remove(id) =~= before);
                }
                Err("Invalid id")
            },
        }
    }

    /// The placements to paint: the placement under each id, every id once,
    /// in no stated order.
    pub fn render(&self) -> (placed: Vec<Instance>)
        ensures
            exists|ids: Seq<u32>| #[trigger] self@.lists(ids, instance_views(placed@)),
            placed@.len() == self@.instances.dom().len(),
            forall|i: int|
                0 <= i < placed@.len() ==> self@.instances.values().contains(
                    (#[trigger] placed@[i])@,
                ),
            forall|id: u32|
                self@.instances.contains_key(id) ==> instance_views(placed@).contains(
                    #[trigger] self@.instances[id],
                ),
    {
        broadcast use vstd::std_specs::hash::group_hash_axioms;

        let mut placed: Vec<Instance> = Vec::new();
        let ghost ids: Seq<u32> = self.instances.keys().remaining().unref();
        assert(ids.to_set() == self.instances@.dom());
        assert(ids.no_duplicates());
        for id in it: self.instances.keys()
            invariant
                it.seq().unref() == ids,
                ids.no_duplicates(),
                ids.to_set() == self.instances@.dom(),
                ids.len() == self.instances@.dom().len(),
                placed@.len() == it.index(),
                forall|k: int|
                    0 <= k < placed@.len() ==> self.instances@.contains_key(ids[k]) && (
                    #[trigger] placed@[k]) == self.instances@[ids[k]],
        {
            assert(ids[it.index() as int] == *id);
            assert(ids.to_set().contains(*id));
            match self.instances.get(id) {
                Some(instance) => {
                    placed.push(*instance);
                },
                None => {
                    assert(false);
                },
            }
        }
        assert(self@.instances.dom() =~= self.instances@.dom());
        assert(placed@.len() == ids.len());
        assert(self@.lists(ids, instance_views(placed@)));
        assert forall|i: int| 0 <= i < placed@.len() implies self@.instances.values().contains(
            (#[trigger] placed@[i])@,
        ) by {
            assert(self@.instances.contains_key(ids[i]) && self@.instances[ids[i]] == placed@[i]@);
        }
        assert forall|id: u32| self@.instances.contains_key(id) implies instance_views(
            placed@,
        ).contains(#[trigger] self@.instances[id]) by {
            assert(ids.to_set().contains(id));
            let i = choose|i: int| 0 <= i < ids.len() && ids[i] == id;
            assert(instance_views(placed@)[i] == self@.instances[id]);
        }
        placed
    }

    /// The corner indices that paint the group's placements.
    pub fn indices(&self) -> (indices: &Vec<u16>)
        ensures
            indices@ == self@.indices,
    {
        &self.indices
    }

    /// How many placements the group holds.
    pub fn count(&self) -> (count: usize)
        ensures
            count == self@.instances.dom().len(),
    {
        broadcast use vstd::std_specs::hash::group_hash_axioms;

        assert(self@.instances.dom() =~= self.instances@.dom());
        self.instances.len()
    }
}

} // verus!
