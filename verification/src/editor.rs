//! The scene as an editor holds it: objects of three kinds in one sparse
//! set, and how that turns into a space to trace in.

use crate::model::{Material, Microphone, Space, Speaker, Wall};
use crate::sparse_set::SparseSet;
use vstd::prelude::*;

verus! {

/// Something placed in the scene.
#[derive(Debug, Clone, Copy)]
pub enum Object<P, S> {
    Wall(Wall<P>),
    Microphone(Microphone<P>),
    Speaker(Speaker<P, S>),
}

/// The walls among `objects`, in their order, each made of `material`.
pub open spec fn walls_of<P, S>(
    objects: Seq<Object<P, S>>,
    material: crate::model::MaterialIndex,
) -> Seq<Wall<P>>
    decreases objects.len(),
{
    if objects.len() == 0 {
        Seq::empty()
    } else {
        let before = walls_of(objects.drop_last(), material);
        match objects.last() {
            Object::Wall(wall) => before.push(Wall { start: wall.start, end: wall.end, material }),
            _ => before,
        }
    }
}

/// Every wall taken from a scene is made of the material it was taken with,
/// and there are no more of them than objects.
pub proof fn lemma_walls_are_of_one_material<P, S>(
    objects: Seq<Object<P, S>>,
    material: crate::model::MaterialIndex,
)
    ensures
        walls_of(objects, material).len() <= objects.len(),
        forall|i: int|
            0 <= i < walls_of(objects, material).len() ==> (#[trigger] walls_of(
                objects,
                material,
            )[i]).material == material,
    decreases objects.len(),
{
    if objects.len() > 0 {
        lemma_walls_are_of_one_material(objects.drop_last(), material);
    }
}

/// The microphones among `objects`, in their order.
pub open spec fn microphones_of<P, S>(objects: Seq<Object<P, S>>) -> Seq<Microphone<P>>
    decreases objects.len(),
{
    if objects.len() == 0 {
        Seq::empty()
    } else {
        let before = microphones_of(objects.drop_last());
        match objects.last() {
            Object::Microphone(microphone) => before.push(microphone),
            _ => before,
        }
    }
}

/// The speakers among `objects`, in their order.
pub open spec fn speakers_of<P, S>(objects: Seq<Object<P, S>>) -> Seq<Speaker<P, S>>
    decreases objects.len(),
{
    if objects.len() == 0 {
        Seq::empty()
    } else {
        let before = speakers_of(objects.drop_last());
        match objects.last() {
            Object::Speaker(speaker) => before.push(speaker),
            _ => before,
        }
    }
}

/// A scene under edit.
#[derive(Clone)]
pub struct EditableSpace<P, S> {
    pub objects: SparseSet<Object<P, S>>,
}

impl<P: Copy, S: Copy> Default for EditableSpace<P, S> {
    /// A scene with no objects.
    fn default() -> (space: Self)
        ensures
            space.objects.wf(),
            space.objects@ == Map::<crate::sparse_set::Id<Object<P, S>>, Object<P, S>>::empty(),
            space.objects.elements_in_order() == Seq::<Object<P, S>>::empty(),
    {
        Self::new()
    }
}

impl<P: Copy, S: Copy> EditableSpace<P, S> {
    /// A scene with no objects.
    pub fn new() -> (space: Self)
        ensures
            space.objects.wf(),
            space.objects@ == Map::<crate::sparse_set::Id<Object<P, S>>, Object<P, S>>::empty(),
            space.objects.elements_in_order() == Seq::<Object<P, S>>::empty(),
    {
        let space = Self { objects: SparseSet::new() };
        assert(space.objects.elements_in_order() =~= Seq::<Object<P, S>>::empty());
        space
    }

    /// The space to trace in.
    ///
    /// It has one material, `default_material`, and every wall is made of
    /// it, whatever material the wall names in the scene. Walls, microphones
    /// and speakers keep the order in which the scene iterates them.
    pub fn to_model(&self, default_material: Material<S>) -> (space: Space<P, S>)
        requires
            self.objects.wf(),
        ensures
            space.materials@ == seq![default_material],
            space.walls@ == walls_of(
                self.objects.elements_in_order(),
                crate::model::MaterialIndex(0),
            ),
            space.microphones@ == microphones_of(self.objects.elements_in_order()),
            space.speakers@ == speakers_of(self.objects.elements_in_order()),
    {
        let mut space = Space::new();
        let ghost only_material = default_material;
        let default_material = space.add_material(default_material);
        let ghost elements = self.objects.elements_in_order();
        let ghost mut seen: Seq<Object<P, S>> = Seq::empty();
        let mut objects = self.objects.iter();
        loop
            invariant
                objects.wf(),
                default_material == crate::model::MaterialIndex(0),
                space.materials@ == seq![only_material],
                seen + objects.remaining() == elements,
                space.walls@ == walls_of(seen, default_material),
                space.microphones@ == microphones_of(seen),
                space.speakers@ == speakers_of(seen),
            ensures
                seen == elements,
            decreases objects.remaining().len(),
        {
            let ghost rest = objects.remaining();
            match objects.next() {
                Some(object) => {
                    proof {
                        assert(seen.push(*object).drop_last() =~= seen);
                        assert(seen.push(*object) + rest.drop_first() =~= seen + rest);
                        seen = seen.push(*object);
                    }
                    match object {
                        Object::Wall(wall) => {
                            space.add_wall(
                                Wall { start: wall.start, end: wall.end, material: default_material },
                            );
                        },
                        Object::Microphone(microphone) => {
                            space.add_microphone(Microphone { position: microphone.position });
                        },
                        Object::Speaker(speaker) => {
                            space.add_speaker(
                                Speaker { position: speaker.position, power: speaker.power },
                            );
                        },
                    }
                },
                None => {
                    proof {
                        assert(seen + rest =~= seen);
                    }
                    break ;
                },
            }
        }
        space
    }
}

} // verus!
