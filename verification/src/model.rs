//! Data types for describing spaces.
//!
//! A space is four append-only lists: walls, materials, speakers and
//! microphones. Adding an item returns its handle, which is its position in
//! its list and stays valid for as long as the space lives.
//!
//! The types are generic in how a point of the plane (`P`) and a scalar
//! quantity (`S`) are represented: this module stores and hands back such
//! values and never computes with them.

use vstd::prelude::*;

verus! {

/// Index of a wall inside the room.
#[derive(Debug, Clone, Copy, PartialEq, Eq, Structural)]
pub struct WallIndex(pub usize);

/// Index of a speaker inside the room.
#[derive(Debug, Clone, Copy, PartialEq, Eq, Structural)]
pub struct SpeakerIndex(pub usize);

/// Index of a microphone inside the room.
#[derive(Debug, Clone, Copy, PartialEq, Eq, Structural)]
pub struct MicrophoneIndex(pub usize);

/// Index of a material inside the room.
#[derive(Debug, Clone, Copy, PartialEq, Eq, Default, Structural)]
pub struct MaterialIndex(pub usize);

/// A wall made up of a material: a directed segment from `start` to `end`.
#[derive(Debug, Clone, Copy)]
pub struct Wall<P> {
    pub start: P,
    pub end: P,
    pub material: MaterialIndex,
}

/// Definition of a wall material.
#[derive(Debug, Clone, Copy)]
pub struct Material<S> {
    /// The "color" of the wall: how much sound it absorbs.
    pub diffuse: S,
    /// How much sound waves are scattered by the wall.
    pub roughness: S,
}

/// A speaker that plays impulses.
#[derive(Debug, Clone, Copy)]
pub struct Speaker<P, S> {
    pub position: P,
    pub power: S,
}

/// A microphone that registers impulses from speakers.
#[derive(Debug, Clone, Copy)]
pub struct Microphone<P> {
    pub position: P,
}

/// A room for recording impulse responses.
#[derive(Debug, Clone)]
pub struct Space<P, S> {
    pub walls: Vec<Wall<P>>,
    pub materials: Vec<Material<S>>,
    pub speakers: Vec<Speaker<P, S>>,
    pub microphones: Vec<Microphone<P>>,
}

impl<P, S> Space<P, S> {
    /// Whether `index` names a wall of this space.
    pub open spec fn has_wall(&self, index: WallIndex) -> bool {
        index.0 < self.walls@.len()
    }

    /// Whether `index` names a material of this space.
    pub open spec fn has_material(&self, index: MaterialIndex) -> bool {
        index.0 < self.materials@.len()
    }

    /// Whether `index` names a speaker of this space.
    pub open spec fn has_speaker(&self, index: SpeakerIndex) -> bool {
        index.0 < self.speakers@.len()
    }

    /// Whether `index` names a microphone of this space.
    pub open spec fn has_microphone(&self, index: MicrophoneIndex) -> bool {
        index.0 < self.microphones@.len()
    }

    /// Whether `later` holds everything `self` holds, under the same
    /// handles: each list of `self` is the beginning of that list of `later`.
    pub open spec fn extended_by(&self, later: &Self) -> bool {
        &&& self.walls@.is_prefix_of(later.walls@)
        &&& self.materials@.is_prefix_of(later.materials@)
        &&& self.speakers@.is_prefix_of(later.speakers@)
        &&& self.microphones@.is_prefix_of(later.microphones@)
    }

    /// An empty space.
    pub fn new() -> (space: Self)
        ensures
            space.walls@ == Seq::<Wall<P>>::empty(),
            space.materials@ == Seq::<Material<S>>::empty(),
            space.speakers@ == Seq::<Speaker<P, S>>::empty(),
            space.microphones@ == Seq::<Microphone<P>>::empty(),
    {
        Self {
            walls: Vec::new(),
            materials: Vec::new(),
            speakers: Vec::new(),
            microphones: Vec::new(),
        }
    }

    /// Appends `wall` and returns its handle.
    pub fn add_wall(&mut self, wall: Wall<P>) -> (index: WallIndex)
        ensures
            index.0 == old(self).walls@.len(),
            final(self).walls@ == old(self).walls@.push(wall),
            final(self).materials@ == old(self).materials@,
            final(self).speakers@ == old(self).speakers@,
            final(self).microphones@ == old(self).microphones@,
            old(self).extended_by(final(self)),
    {
        let index = self.walls.len();
        self.walls.push(wall);
        WallIndex(index)
    }

    /// Appends `walls` in their order; the first of them gets the handle
    /// that a single wall added now would have got.
    pub fn add_walls(&mut self, walls: Vec<Wall<P>>)
        ensures
            final(self).walls@ == old(self).walls@ + walls@,
            final(self).materials@ == old(self).materials@,
            final(self).speakers@ == old(self).speakers@,
            final(self).microphones@ == old(self).microphones@,
            old(self).extended_by(final(self)),
    {
        let mut walls = walls;
        self.walls.append(&mut walls);
    }

    /// Appends `material` and returns its handle.
    pub fn add_material(&mut self, material: Material<S>) -> (index: MaterialIndex)
        ensures
            index.0 == old(self).materials@.len(),
            final(self).materials@ == old(self).materials@.push(material),
            final(self).walls@ == old(self).walls@,
            final(self).speakers@ == old(self).speakers@,
            final(self).microphones@ == old(self).microphones@,
            old(self).extended_by(final(self)),
    {
        let index = self.materials.len();
        self.materials.push(material);
        MaterialIndex(index)
    }

    /// Appends `speaker` and returns its handle.
    pub fn add_speaker(&mut self, speaker: Speaker<P, S>) -> (index: SpeakerIndex)
        ensures
            index.0 == old(self).speakers@.len(),
            final(self).speakers@ == old(self).speakers@.push(speaker),
            final(self).walls@ == old(self).walls@,
            final(self).materials@ == old(self).materials@,
            final(self).microphones@ == old(self).microphones@,
            old(self).extended_by(final(self)),
    {
        let index = self.speakers.len();
        self.speakers.push(speaker);
        SpeakerIndex(index)
    }

    /// Appends `microphone` and returns its handle.
    pub fn add_microphone(&mut self, microphone: Microphone<P>) -> (index: MicrophoneIndex)
        ensures
            index.0 == old(self).microphones@.len(),
            final(self).microphones@ == old(self).microphones@.push(microphone),
            final(self).walls@ == old(self).walls@,
            final(self).materials@ == old(self).materials@,
            final(self).speakers@ == old(self).speakers@,
            old(self).extended_by(final(self)),
    {
        let index = self.microphones.len();
        self.microphones.push(microphone);
        MicrophoneIndex(index)
    }

    /// The handle of the speaker that was added first; `None` in a space
    /// without speakers.
    pub fn first_speaker(&self) -> (index: Option<SpeakerIndex>)
        ensures
            index == if self.speakers@.len() > 0 {
                Some(SpeakerIndex(0))
            } else {
                None
            },
    {
        if self.speakers.len() > 0 {
            Some(SpeakerIndex(0))
        } else {
            None
        }
    }

    /// The wall that `index` names; `None` for a handle that names none.
    pub fn wall(&self, index: WallIndex) -> (wall: Option<&Wall<P>>)
        ensures
            wall == if self.has_wall(index) {
                Some(&self.walls@[index.0 as int])
            } else {
                None
            },
    {
        if index.0 < self.walls.len() {
            Some(&self.walls[index.0])
        } else {
            None
        }
    }

    /// The material that `index` names; `None` for a handle that names none.
    pub fn material(&self, index: MaterialIndex) -> (material: Option<&Material<S>>)
        ensures
            material == if self.has_material(index) {
                Some(&self.materials@[index.0 as int])
            } else {
                None
            },
    {
        if index.0 < self.materials.len() {
            Some(&self.materials[index.0])
        } else {
            None
        }
    }

    /// The speaker that `index` names; `None` for a handle that names none.
    pub fn speaker(&self, index: SpeakerIndex) -> (speaker: Option<&Speaker<P, S>>)
        ensures
            speaker == if self.has_speaker(index) {
                Some(&self.speakers@[index.0 as int])
            } else {
                None
            },
    {
        if index.0 < self.speakers.len() {
            Some(&self.speakers[index.0])
        } else {
            None
        }
    }

    /// The microphone that `index` names; `None` for a handle that names
    /// none.
    pub fn microphone(&self, index: MicrophoneIndex) -> (microphone: Option<&Microphone<P>>)
        ensures
            microphone == if self.has_microphone(index) {
                Some(&self.microphones@[index.0 as int])
            } else {
                None
            },
    {
        if index.0 < self.microphones.len() {
            Some(&self.microphones[index.0])
        } else {
            None
        }
    }

    /// Handles never go stale: in a space that extends this one, every
    /// handle of this space names what it named here.
    pub proof fn lemma_handles_are_stable(&self, later: &Self)
        requires
            self.extended_by(later),
        ensures
            forall|i: WallIndex|
                self.has_wall(i) ==> later.has_wall(i) && later.walls@[i.0 as int]
                    == self.walls@[i.0 as int],
            forall|i: MaterialIndex|
                self.has_material(i) ==> later.has_material(i) && later.materials@[i.0 as int]
                    == self.materials@[i.0 as int],
            forall|i: SpeakerIndex|
                self.has_speaker(i) ==> later.has_speaker(i) && later.speakers@[i.0 as int]
                    == self.speakers@[i.0 as int],
            forall|i: MicrophoneIndex|
                self.has_microphone(i) ==> later.has_microphone(i)
                    && later.microphones@[i.0 as int] == self.microphones@[i.0 as int],
    {
    }

    /// Extending is transitive: what a space holds survives any number of
    /// additions.
    pub proof fn lemma_extension_composes(&self, middle: &Self, later: &Self)
        requires
            self.extended_by(middle),
            middle.extended_by(later),
        ensures
            self.extended_by(later),
    {
    }
}

impl<P, S> Default for Space<P, S> {
    fn default() -> (space: Self)
        ensures
            space.walls@ == Seq::<Wall<P>>::empty(),
            space.materials@ == Seq::<Material<S>>::empty(),
            space.speakers@ == Seq::<Speaker<P, S>>::empty(),
            space.microphones@ == Seq::<Microphone<P>>::empty(),
    {
        Self::new()
    }
}

/// The four walls of a box, given its corners in the order in which they are
/// walked: wall `i` runs from corner `i` to the next corner, and the last
/// wall runs back to the first corner. All four are of `material`.
pub fn make_box<P: Copy>(corners: [P; 4], material: MaterialIndex) -> (walls: Vec<Wall<P>>)
    ensures
        walls@.len() == 4,
        forall|i: int|
            0 <= i < 4 ==> #[trigger] walls@[i] == (Wall {
                start: corners@[i],
                end: corners@[(i + 1) % 4],
                material,
            }),
{
    let mut walls = Vec::new();
    walls.push(Wall { start: corners[0], end: corners[1], material });
    walls.push(Wall { start: corners[1], end: corners[2], material });
    walls.push(Wall { start: corners[2], end: corners[3], material });
    walls.push(Wall { start: corners[3], end: corners[0], material });
    walls
}

} // verus!
