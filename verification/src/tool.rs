//! The tools of the editor: what they make of the pointer.
//!
//! Whether the pointer is over an object, and where an object comes to lie
//! when it is dragged, is geometry, and the caller's business. The tools
//! hold what is decided on that: which object is hot, which is in focus,
//! when a drag begins and ends, and what a click places or a command takes
//! away.

use crate::commands::Command;
use crate::editor::{EditableSpace, Object};
use crate::model::{MaterialIndex, Wall};
use crate::sparse_set::Id;
use vstd::prelude::*;

verus! {

/// The tool an editor works with.
#[derive(Debug, Clone, Copy, PartialEq, Eq, Structural)]
pub enum Tool {
    /// Selects and drags objects.
    Cursor,
    /// Places walls.
    Wall,
}

impl Default for Tool {
    /// The cursor.
    fn default() -> (tool: Self)
        ensures
            tool == Tool::Cursor,
    {
        Tool::Cursor
    }
}

/// What the pointer does.
#[derive(Debug, Clone, Copy)]
pub enum Event<P> {
    /// A button went down at `pos`; `left` says whether it was the left one.
    MouseDown { pos: P, left: bool },
    /// A button came up at `pos`.
    MouseUp { pos: P },
    /// The pointer moved to `pos`.
    MouseMove { pos: P },
    /// A command came in.
    Command(Command),
    /// Anything else.
    Other,
}

impl<P: Copy> Event<P> {
    /// Where the pointer is, if the event is one of the pointer.
    pub fn pos(&self) -> (pos: Option<P>)
        ensures
            pos == match *self {
                Event::MouseDown { pos, left } => Some(pos),
                Event::MouseUp { pos } => Some(pos),
                Event::MouseMove { pos } => Some(pos),
                _ => None::<P>,
            },
    {
        match *self {
            Event::MouseDown { pos, left } => Some(pos),
            Event::MouseUp { pos } => Some(pos),
            Event::MouseMove { pos } => Some(pos),
            _ => None,
        }
    }

    /// The same event with the pointer at `pos`, as when a position on the
    /// screen is turned into one in the scene. An event that is not one of
    /// the pointer stays as it is.
    pub fn mouse_to_viewport_space(&self, pos: P) -> (event: Self)
        ensures
            event == match *self {
                Event::MouseDown { pos: _, left } => Event::MouseDown { pos, left },
                Event::MouseUp { pos: _ } => Event::MouseUp { pos },
                Event::MouseMove { pos: _ } => Event::MouseMove { pos },
                other => other,
            },
    {
        match *self {
            Event::MouseDown { pos: _, left } => Event::MouseDown { pos, left },
            Event::MouseUp { pos: _ } => Event::MouseUp { pos },
            Event::MouseMove { pos: _ } => Event::MouseMove { pos },
            other => other,
        }
    }
}

/// The part of an object that the pointer is over.
#[derive(Debug, Clone, Copy, PartialEq, Eq, Structural)]
pub enum HotPart {
    EntireObject,
    WallStart,
    WallEnd,
}

impl HotPart {
    /// Whether dragging this part moves the start of a wall: the whole wall
    /// and its start do.
    pub fn should_move_wall_start(&self) -> (moves: bool)
        ensures
            moves <==> *self == HotPart::EntireObject || *self == HotPart::WallStart,
    {
        matches!(self, HotPart::EntireObject | HotPart::WallStart)
    }

    /// Whether dragging this part moves the end of a wall: the whole wall
    /// and its end do.
    pub fn should_move_wall_end(&self) -> (moves: bool)
        ensures
            moves <==> *self == HotPart::EntireObject || *self == HotPart::WallEnd,
    {
        matches!(self, HotPart::EntireObject | HotPart::WallEnd)
    }
}

/// An object with the part of it that is hot or in focus.
#[derive(Debug)]
pub struct HotState<P, S> {
    pub object: Id<Object<P, S>>,
    pub part: HotPart,
}

impl<P, S> Clone for HotState<P, S> {
    fn clone(&self) -> (state: Self)
        ensures
            state == *self,
    {
        Self { object: self.object, part: self.part }
    }
}

impl<P, S> Copy for HotState<P, S> {

}

impl<P, S> HotState<P, S> {
    /// Whether this is the same part of the same object as `other`.
    pub fn same(&self, other: &Self) -> (same: bool)
        ensures
            same <==> *self == *other,
    {
        broadcast use Id::lemma_id_is_its_parts;

        self.object == other.object && self.part == other.part
    }
}

/// Whether two states, each of which may be none, are the same.
pub fn same_state<P, S>(a: Option<HotState<P, S>>, b: Option<HotState<P, S>>) -> (same: bool)
    ensures
        same <==> a == b,
{
    match (a, b) {
        (Some(a), Some(b)) => a.same(&b),
        (None, None) => true,
        _ => false,
    }
}

/// What the hit tests say of one object where the pointer is. The first
/// three are asked of a wall, the last of a microphone or a speaker.
#[derive(Debug, Clone, Copy, PartialEq, Eq, Structural)]
pub struct Probe {
    /// The pointer is on the handle at the start of the wall.
    pub on_start: bool,
    /// The pointer is on the handle at the end of the wall.
    pub on_end: bool,
    /// The pointer is on the wall.
    pub on_line: bool,
    /// The pointer is inside the microphone or speaker.
    pub inside: bool,
}

/// The part of `object` that is hot under `probe`, if any: of a wall its
/// start before its end before the whole of it.
pub open spec fn spec_hot_part<P, S>(object: Object<P, S>, probe: Probe) -> Option<HotPart> {
    match object {
        Object::Wall(_) => if probe.on_start {
            Some(HotPart::WallStart)
        } else if probe.on_end {
            Some(HotPart::WallEnd)
        } else if probe.on_line {
            Some(HotPart::EntireObject)
        } else {
            None
        },
        _ => if probe.inside {
            Some(HotPart::EntireObject)
        } else {
            None
        },
    }
}

/// The part of `object` that is hot under `probe`, if any.
pub fn hot_part<P, S>(object: &Object<P, S>, probe: Probe) -> (part: Option<HotPart>)
    ensures
        part == spec_hot_part(*object, probe),
{
    match object {
        Object::Wall(_) => {
            if probe.on_start {
                Some(HotPart::WallStart)
            } else if probe.on_end {
                Some(HotPart::WallEnd)
            } else if probe.on_line {
                Some(HotPart::EntireObject)
            } else {
                None
            }
        },
        _ => {
            if probe.inside {
                Some(HotPart::EntireObject)
            } else {
                None
            }
        },
    }
}

/// The last of the first `n` objects that is hot, with its hot part.
pub open spec fn last_hot<P, S>(
    pairs: Seq<(Id<Object<P, S>>, Object<P, S>)>,
    probes: Seq<Probe>,
    n: int,
) -> Option<HotState<P, S>>
    decreases n,
{
    if n <= 0 {
        None
    } else {
        match spec_hot_part(pairs[n - 1].1, probes[n - 1]) {
            Some(part) => Some(HotState { object: pairs[n - 1].0, part }),
            None => last_hot(pairs, probes, n - 1),
        }
    }
}

/// The object that is hot: the one in focus if the pointer is over it, and
/// else the last in iteration order that the pointer is over.
pub open spec fn hot_at<P, S>(
    pairs: Seq<(Id<Object<P, S>>, Object<P, S>)>,
    probes: Seq<Probe>,
    focused: Option<HotState<P, S>>,
) -> Option<HotState<P, S>> {
    let anywhere = last_hot(pairs, probes, pairs.len() as int);
    match focused {
        Some(focused) => {
            let handles = pairs.map_values(|pair: (Id<Object<P, S>>, Object<P, S>)| pair.0);
            if handles.contains(focused.object) {
                let at = handles.index_of(focused.object);
                match spec_hot_part(pairs[at].1, probes[at]) {
                    Some(part) => Some(HotState { object: focused.object, part }),
                    None => anywhere,
                }
            } else {
                anywhere
            }
        },
        None => anywhere,
    }
}

/// Where the points of an object come to lie when all of it is moved.
#[derive(Debug, Clone, Copy)]
pub enum Moved<P> {
    Wall { start: P, end: P },
    Spot { position: P },
}

/// `object` after the part `part` of it was dragged to where `moved` says:
/// of a wall the ends that the part moves, of a microphone or a speaker its
/// position. An object that `moved` does not fit stays where it is.
pub open spec fn dragged<P, S>(object: Object<P, S>, part: HotPart, moved: Moved<P>) -> Object<
    P,
    S,
> {
    match (object, moved) {
        (Object::Wall(wall), Moved::Wall { start, end }) => Object::Wall(
            Wall {
                start: if part == HotPart::EntireObject || part == HotPart::WallStart {
                    start
                } else {
                    wall.start
                },
                end: if part == HotPart::EntireObject || part == HotPart::WallEnd {
                    end
                } else {
                    wall.end
                },
                material: wall.material,
            },
        ),
        (Object::Microphone(_), Moved::Spot { position }) => Object::Microphone(
            crate::model::Microphone { position },
        ),
        (Object::Speaker(speaker), Moved::Spot { position }) => Object::Speaker(
            crate::model::Speaker { position, power: speaker.power },
        ),
        _ => object,
    }
}

/// What a tool wants done after an event.
#[derive(Debug)]
pub struct Reaction<P, S> {
    /// The scene is to be painted anew.
    pub paint: bool,
    /// The tool takes hold of the pointer, or lets go of it.
    pub active: Option<bool>,
    /// The event is dealt with.
    pub handled: bool,
    /// An object is to be dragged.
    pub drag: Option<Drag<P, S>>,
}

/// A drag of a part of an object by as much as the pointer has moved.
#[derive(Debug)]
pub struct Drag<P, S> {
    pub state: HotState<P, S>,
    /// Where the pointer was.
    pub from: P,
    /// Where the pointer is.
    pub to: P,
}

/// Whether the cursor tool is dragging.
#[derive(Debug, Clone, Copy, PartialEq, Eq, Structural)]
pub enum CursorState {
    Idle,
    Dragging,
}

/// The tool that selects and drags.
pub struct CursorTool<P, S> {
    pub hot_state: Option<HotState<P, S>>,
    pub focused_state: Option<HotState<P, S>>,
    pub state: CursorState,
    pub last_mouse_pos: P,
}

impl<P: Copy, S: Copy> CursorTool<P, S> {
    /// A tool at rest, with the pointer at `origin`.
    pub fn new(origin: P) -> (tool: Self)
        ensures
            tool.hot_state is None,
            tool.focused_state is None,
            tool.state == CursorState::Idle,
            tool.last_mouse_pos == origin,
    {
        Self { hot_state: None, focused_state: None, state: CursorState::Idle, last_mouse_pos: origin }
    }

    /// Makes the object hot if the pointer is over a part of it, and says
    /// whether it did.
    pub fn check_object_hotness(
        &mut self,
        object: &Object<P, S>,
        object_id: Id<Object<P, S>>,
        probe: Probe,
    ) -> (hot: bool)
        ensures
            hot <==> spec_hot_part(*object, probe) is Some,
            final(self).hot_state == match spec_hot_part(*object, probe) {
                Some(part) => Some(HotState { object: object_id, part }),
                None => old(self).hot_state,
            },
            final(self).focused_state == old(self).focused_state,
            final(self).state == old(self).state,
            final(self).last_mouse_pos == old(self).last_mouse_pos,
    {
        match hot_part(object, probe) {
            Some(part) => {
                self.hot_state = Some(HotState { object: object_id, part });
                true
            },
            None => false,
        }
    }

    /// Finds the hot object: `probes` holds what the hit tests say of each
    /// object of `space`, in iteration order.
    ///
    /// The object in focus comes first: it is hot if the pointer is over
    /// it. Else the last object that the pointer is over is hot, and none if
    /// it is over none.
    pub fn make_object_hot_at_position(&mut self, space: &EditableSpace<P, S>, probes: &[Probe])
        requires
            space.objects.wf(),
            probes@.len() == space.objects.order().len(),
        ensures
            final(self).hot_state == hot_at(
                space.objects.pairs_in_order(),
                probes@,
                old(self).focused_state,
            ),
            final(self).focused_state == old(self).focused_state,
            final(self).state == old(self).state,
            final(self).last_mouse_pos == old(self).last_mouse_pos,
    {
        let ghost pairs = space.objects.pairs_in_order();
        let ghost handles = pairs.map_values(|pair: (Id<Object<P, S>>, Object<P, S>)| pair.0);
        proof {
            space.objects.lemma_order_lists_live_ids();
            assert(handles =~= space.objects.order());
        }
        self.hot_state = None;
        if let Some(focused) = self.focused_state {
            if let Some(position) = space.objects.position_of(focused.object) {
                proof {
                    assert(handles[position as int] == focused.object);
                    assert(handles.index_of(focused.object) == position);
                }
                if let Some(object) = space.objects.get(focused.object) {
                    assert(*object == pairs[position as int].1);
                    if self.check_object_hotness(object, focused.object, probes[position]) {
                        return ;
                    }
                }
            }
        }
        let mut cursor = space.objects.pairs();
        let mut k: usize = 0;
        loop
            invariant
                cursor.wf(),
                k <= pairs.len(),
                pairs == space.objects.pairs_in_order(),
                probes@.len() == pairs.len(),
                cursor.remaining() == pairs.skip(k as int),
                self.hot_state == last_hot(pairs, probes@, k as int),
                self.focused_state == old(self).focused_state,
                self.state == old(self).state,
                self.last_mouse_pos == old(self).last_mouse_pos,
            ensures
                k == pairs.len(),
            decreases pairs.len() - k,
        {
            match cursor.next() {
                Some((id, object)) => {
                    assert(pairs.skip(k as int).first() == pairs[k as int]);
                    assert(pairs.skip(k as int).drop_first() =~= pairs.skip(k + 1));
                    self.check_object_hotness(object, id, probes[k]);
                    k += 1;
                },
                None => {
                    break ;
                },
            }
        }
    }

    /// Moves the part `part` of `object` to where `moved` says.
    pub fn drag_entire_object(&mut self, object: &mut Object<P, S>, part: HotPart, moved: Moved<P>)
        ensures
            *final(object) == dragged(*old(object), part, moved),
            *final(self) == *old(self),
    {
        match (*object, moved) {
            (Object::Wall(wall), Moved::Wall { start, end }) => {
                let mut wall = wall;
                if part.should_move_wall_start() {
                    wall.start = start;
                }
                if part.should_move_wall_end() {
                    wall.end = end;
                }
                *object = Object::Wall(wall);
            },
            (Object::Microphone(_), Moved::Spot { position }) => {
                *object = Object::Microphone(crate::model::Microphone { position });
            },
            (Object::Speaker(speaker), Moved::Spot { position }) => {
                *object = Object::Speaker(crate::model::Speaker { position, power: speaker.power });
            },
            _ => {},
        }
    }

    /// Whether the object in focus is the hot one; also if none is in focus
    /// and none is hot.
    pub fn focused_object_is_hot(&self) -> (hot: bool)
        ensures
            hot <==> match (self.focused_state, self.hot_state) {
                (Some(focused), Some(hot)) => focused.object == hot.object,
                (None, None) => true,
                _ => false,
            },
    {
        broadcast use Id::lemma_id_is_its_parts;

        match (self.focused_state, self.hot_state) {
            (Some(focused), Some(hot)) => focused.object == hot.object,
            (None, None) => true,
            _ => false,
        }
    }

    /// Whether the part `part` of the object `object_id` is hot.
    pub fn object_part_is_hot(&self, object_id: Id<Object<P, S>>, part: HotPart) -> (hot: bool)
        ensures
            hot <==> self.hot_state == Some(HotState { object: object_id, part }),
    {
        broadcast use Id::lemma_id_is_its_parts;

        match self.hot_state {
            Some(state) => state.object == object_id && state.part == part,
            None => false,
        }
    }

    /// Carries out a command: the object in focus, if there is one, is
    /// taken out of the scene, and the scene is to be painted anew. The
    /// command is dealt with in any case.
    pub fn command(&mut self, space: &mut EditableSpace<P, S>, command: Command) -> (reaction:
        Reaction<P, S>)
        requires
            old(space).objects.wf(),
        ensures
            *final(self) == *old(self),
            final(space).objects.wf(),
            reaction.handled,
            reaction.active is None,
            reaction.drag is None,
            reaction.paint <==> old(self).focused_state is Some,
            match old(self).focused_state {
                Some(focused) => {
                    &&& final(space).objects@ == old(space).objects@.remove(focused.object)
                    &&& !final(space).objects@.dom().contains(focused.object)
                },
                None => {
                    &&& final(space).objects@ == old(space).objects@
                    &&& final(space).objects.order() == old(space).objects.order()
                },
            },
    {
        match command {
            Command::Delete => {
                let paint = match self.focused_state {
                    Some(focused) => {
                        space.objects.remove(focused.object);
                        true
                    },
                    None => false,
                };
                Reaction { paint, active: None, handled: true, drag: None }
            },
        }
    }

    /// Takes in an event; `probes` holds what the hit tests say of each
    /// object of `space` where the pointer is, and is looked at only when the
    /// pointer moves while nothing is dragged.
    ///
    /// At rest, a move of the pointer finds the hot object anew. A press of
    /// the left button puts the hot object in focus and, if there is one,
    /// begins a drag. During a drag, a move of the pointer drags the object
    /// in focus, if it is still there. A release ends a drag. A command is
    /// carried out. In the end the tool remembers where the pointer is.
    pub fn event(&mut self, space: &mut EditableSpace<P, S>, event: Event<P>, probes: &[Probe]) -> (reaction:
        Reaction<P, S>)
        requires
            old(space).objects.wf(),
            old(self).state == CursorState::Idle && event is MouseMove ==> probes@.len()
                == old(space).objects.order().len(),
        ensures
            final(space).objects.wf(),
            final(self).last_mouse_pos == match event {
                Event::MouseMove { pos } => pos,
                _ => old(self).last_mouse_pos,
            },
            match (old(self).state, event) {
                (CursorState::Idle, Event::MouseMove { pos }) => {
                    &&& final(self).hot_state == hot_at(
                        old(space).objects.pairs_in_order(),
                        probes@,
                        old(self).focused_state,
                    )
                    &&& final(self).focused_state == old(self).focused_state
                    &&& final(self).state == CursorState::Idle
                    &&& *final(space) == *old(space)
                    &&& reaction.paint <==> final(self).hot_state != old(self).hot_state
                    &&& reaction.active is None
                    &&& !reaction.handled
                    &&& reaction.drag is None
                },
                (CursorState::Idle, Event::MouseDown { pos, left }) => {
                    &&& final(self).hot_state == old(self).hot_state
                    &&& final(self).focused_state == if left {
                        old(self).hot_state
                    } else {
                        old(self).focused_state
                    }
                    &&& final(self).state == if left && old(self).hot_state is Some {
                        CursorState::Dragging
                    } else {
                        CursorState::Idle
                    }
                    &&& *final(space) == *old(space)
                    &&& reaction.paint <==> left && old(self).hot_state is Some
                    &&& reaction.active == if left && old(self).hot_state is Some {
                        Some(true)
                    } else {
                        None
                    }
                    &&& reaction.handled <==> left
                    &&& reaction.drag is None
                },
                (CursorState::Dragging, Event::MouseMove { pos }) => {
                    &&& final(self).hot_state == old(self).hot_state
                    &&& final(self).focused_state == old(self).focused_state
                    &&& final(self).state == CursorState::Dragging
                    &&& *final(space) == *old(space)
                    &&& reaction.drag == match old(self).focused_state {
                        Some(focused) if old(space).objects@.dom().contains(focused.object) => Some(
                            Drag { state: focused, from: old(self).last_mouse_pos, to: pos },
                        ),
                        _ => None,
                    }
                    &&& reaction.paint <==> reaction.drag is Some
                    &&& reaction.active is None
                    &&& !reaction.handled
                },
                (_, Event::MouseUp { pos }) => {
                    &&& final(self).hot_state == old(self).hot_state
                    &&& final(self).focused_state == old(self).focused_state
                    &&& final(self).state == CursorState::Idle
                    &&& *final(space) == *old(space)
                    &&& reaction.paint
                    &&& reaction.active == Some(false)
                    &&& !reaction.handled
                    &&& reaction.drag is None
                },
                (_, Event::Command(command)) => {
                    &&& final(self).hot_state == old(self).hot_state
                    &&& final(self).focused_state == old(self).focused_state
                    &&& final(self).state == old(self).state
                    &&& reaction.handled
                    &&& reaction.active is None
                    &&& reaction.drag is None
                    &&& reaction.paint <==> old(self).focused_state is Some
                    &&& match old(self).focused_state {
                        Some(focused) => final(space).objects@ == old(space).objects@.remove(
                            focused.object,
                        ),
                        None => final(space).objects@ == old(space).objects@,
                    }
                },
                _ => {
                    &&& final(self).hot_state == old(self).hot_state
                    &&& final(self).focused_state == old(self).focused_state
                    &&& final(self).state == old(self).state
                    &&& *final(space) == *old(space)
                    &&& !reaction.paint
                    &&& reaction.active is None
                    &&& !reaction.handled
                    &&& reaction.drag is None
                },
            },
    {
        let mut reaction = Reaction { paint: false, active: None, handled: false, drag: None };
        match (self.state, event) {
            (CursorState::Idle, Event::MouseMove { pos }) => {
                let previous_hot = self.hot_state;
                self.make_object_hot_at_position(space, probes);
                if !same_state(self.hot_state, previous_hot) {
                    reaction.paint = true;
                }
            },
            (CursorState::Idle, Event::MouseDown { pos, left }) => {
                if left {
                    self.focused_state = self.hot_state;
                    if self.hot_state.is_some() {
                        self.state = CursorState::Dragging;
                        reaction.active = Some(true);
                        reaction.paint = true;
                    }
                    reaction.handled = true;
                }
            },
            (CursorState::Dragging, Event::MouseMove { pos }) => {
                if let Some(focused) = self.focused_state {
                    if space.objects.get(focused.object).is_some() {
                        reaction.drag = Some(
                            Drag { state: focused, from: self.last_mouse_pos, to: pos },
                        );
                        reaction.paint = true;
                    }
                }
            },
            (_, Event::MouseUp { pos }) => {
                self.state = CursorState::Idle;
                reaction.active = Some(false);
                reaction.paint = true;
            },
            (_, Event::Command(command)) => {
                reaction = self.command(space, command);
            },
            _ => {},
        }
        if let Event::MouseMove { pos } = event {
            self.last_mouse_pos = pos;
        }
        reaction
    }
}

/// Where the wall tool is in placing a wall.
#[derive(Debug, Clone, Copy)]
pub enum WallToolState<P> {
    /// The next press sets the start of a wall.
    PlaceStart,
    /// The next release sets the end of the wall that starts at `start`.
    PlaceEnd { start: P },
}

/// The tool that places walls.
pub struct WallTool<P> {
    pub state: WallToolState<P>,
    pub mouse_pos: P,
}

impl<P: Copy> WallTool<P> {
    /// A tool that has placed nothing yet, with the pointer at `origin`.
    pub fn new(origin: P) -> (tool: Self)
        ensures
            tool.state is PlaceStart,
            tool.mouse_pos == origin,
    {
        Self { state: WallToolState::PlaceStart, mouse_pos: origin }
    }

    /// Takes in an event.
    ///
    /// A press sets the start of a wall and takes hold of the pointer. The
    /// release that follows sets its end: the wall goes into the scene, last
    /// in iteration order, made of the first material. A move of the pointer
    /// is remembered, and the scene is to be painted anew.
    pub fn event<S: Copy>(&mut self, space: &mut EditableSpace<P, S>, event: Event<P>) -> (reaction:
        Reaction<P, S>)
        requires
            old(space).objects.wf(),
            old(self).state is PlaceEnd && event is MouseUp ==> old(space).objects.has_room(),
        ensures
            final(space).objects.wf(),
            !reaction.handled,
            reaction.drag is None,
            match (old(self).state, event) {
                (WallToolState::PlaceStart, Event::MouseDown { pos, left }) => {
                    &&& final(self).state == (WallToolState::PlaceEnd { start: pos })
                    &&& final(self).mouse_pos == old(self).mouse_pos
                    &&& *final(space) == *old(space)
                    &&& !reaction.paint
                    &&& reaction.active == Some(true)
                },
                (WallToolState::PlaceEnd { start }, Event::MouseUp { pos }) => {
                    &&& final(self).state is PlaceStart
                    &&& final(self).mouse_pos == old(self).mouse_pos
                    &&& exists|id: Id<Object<P, S>>|
                        {
                            &&& !old(space).objects@.dom().contains(id)
                            &&& final(space).objects@ == old(space).objects@.insert(
                                id,
                                Object::Wall(
                                    Wall { start, end: pos, material: MaterialIndex(0) },
                                ),
                            )
                            &&& final(space).objects.order() == old(space).objects.order().push(
                                id,
                            )
                        }
                    &&& reaction.paint
                    &&& reaction.active == Some(true)
                },
                (_, Event::MouseMove { pos }) => {
                    &&& final(self).state == old(self).state
                    &&& final(self).mouse_pos == pos
                    &&& *final(space) == *old(space)
                    &&& reaction.paint
                    &&& reaction.active is None
                },
                _ => {
                    &&& *final(self) == *old(self)
                    &&& *final(space) == *old(space)
                    &&& !reaction.paint
                    &&& reaction.active is None
                },
            },
    {
        let mut reaction = Reaction { paint: false, active: None, handled: false, drag: None };
        match (self.state, event) {
            (WallToolState::PlaceStart, Event::MouseDown { pos, left }) => {
                self.state = WallToolState::PlaceEnd { start: pos };
                reaction.active = Some(true);
            },
            (WallToolState::PlaceEnd { start }, Event::MouseUp { pos }) => {
                space.objects.insert(
                    Object::Wall(Wall { start, end: pos, material: MaterialIndex(0) }),
                );
                reaction.paint = true;
                reaction.active = Some(true);
                self.state = WallToolState::PlaceStart;
            },
            (_, Event::MouseMove { pos }) => {
                self.mouse_pos = pos;
                reaction.paint = true;
            },
            _ => {},
        }
        reaction
    }
}

} // verus!
