use fizzerb::commands::{Command, Commander, CommanderEvent, Key};
use fizzerb::editor::{EditableSpace, Object};
use fizzerb::model::{MaterialIndex, Microphone, Speaker, Wall};
use fizzerb::sparse_set::Id;
use fizzerb::tool::{
    hot_part, same_state, CursorState, CursorTool, Event, HotPart, HotState, Moved, Probe, Tool,
    WallTool, WallToolState,
};

type Point = (i32, i32);
type Scene = EditableSpace<Point, u8>;
type Handle = Id<Object<Point, u8>>;

const MISS: Probe = Probe { on_start: false, on_end: false, on_line: false, inside: false };
const ON_START: Probe = Probe { on_start: true, on_end: false, on_line: true, inside: false };
const ON_END: Probe = Probe { on_start: false, on_end: true, on_line: true, inside: false };
const ON_LINE: Probe = Probe { on_start: false, on_end: false, on_line: true, inside: false };
const INSIDE: Probe = Probe { on_start: false, on_end: false, on_line: false, inside: true };

fn wall(x: i32) -> Object<Point, u8> {
    Object::Wall(Wall { start: (x, 0), end: (x, 10), material: MaterialIndex(0) })
}

fn microphone(x: i32) -> Object<Point, u8> {
    Object::Microphone(Microphone { position: (x, 0) })
}

fn speaker(x: i32) -> Object<Point, u8> {
    Object::Speaker(Speaker { position: (x, 0), power: 9 })
}

fn scene() -> (Scene, Handle, Handle, Handle) {
    let mut scene = Scene::new();
    let a = scene.objects.insert(wall(1));
    let b = scene.objects.insert(microphone(2));
    let c = scene.objects.insert(wall(3));
    (scene, a, b, c)
}

fn hot(object: Handle, part: HotPart) -> Option<HotState<Point, u8>> {
    Some(HotState { object, part })
}

#[test]
fn default_tool_is_the_cursor() {
    assert_eq!(Tool::default(), Tool::Cursor);
    assert_ne!(Tool::default(), Tool::Wall);
}

#[test]
fn whole_wall_moves_both_ends() {
    assert!(HotPart::EntireObject.should_move_wall_start());
    assert!(HotPart::EntireObject.should_move_wall_end());
}

#[test]
fn wall_end_moves_alone() {
    assert!(HotPart::WallStart.should_move_wall_start());
    assert!(!HotPart::WallStart.should_move_wall_end());
    assert!(!HotPart::WallEnd.should_move_wall_start());
    assert!(HotPart::WallEnd.should_move_wall_end());
}

#[test]
fn start_of_a_wall_comes_before_its_end_and_its_line() {
    let all = Probe { on_start: true, on_end: true, on_line: true, inside: true };
    assert_eq!(hot_part(&wall(1), all), Some(HotPart::WallStart));
    assert_eq!(hot_part(&wall(1), ON_START), Some(HotPart::WallStart));
    assert_eq!(hot_part(&wall(1), ON_END), Some(HotPart::WallEnd));
    assert_eq!(hot_part(&wall(1), ON_LINE), Some(HotPart::EntireObject));
    assert_eq!(hot_part(&wall(1), MISS), None);
    assert_eq!(hot_part(&wall(1), INSIDE), None);
}

#[test]
fn microphone_and_speaker_are_hot_inside() {
    assert_eq!(hot_part(&microphone(1), INSIDE), Some(HotPart::EntireObject));
    assert_eq!(hot_part(&speaker(1), INSIDE), Some(HotPart::EntireObject));
    assert_eq!(hot_part(&microphone(1), ON_START), None);
    assert_eq!(hot_part(&speaker(1), MISS), None);
}

#[test]
fn states_compare_by_object_and_part() {
    let a: Handle = Id::new(1, 0);
    let b: Handle = Id::new(1, 1);
    assert!(same_state(hot(a, HotPart::WallEnd), hot(a, HotPart::WallEnd)));
    assert!(!same_state(hot(a, HotPart::WallEnd), hot(a, HotPart::WallStart)));
    assert!(!same_state(hot(a, HotPart::WallEnd), hot(b, HotPart::WallEnd)));
    assert!(!same_state(hot(a, HotPart::WallEnd), None));
    assert!(same_state::<Point, u8>(None, None));
}

#[test]
fn last_object_under_the_pointer_is_hot() {
    let (scene, a, b, c) = scene();
    let mut tool: CursorTool<Point, u8> = CursorTool::new((0, 0));
    tool.make_object_hot_at_position(&scene, &[ON_LINE, INSIDE, MISS]);
    assert!(same_state(tool.hot_state, hot(b, HotPart::EntireObject)));
    tool.make_object_hot_at_position(&scene, &[ON_LINE, INSIDE, ON_END]);
    assert!(same_state(tool.hot_state, hot(c, HotPart::WallEnd)));
    tool.make_object_hot_at_position(&scene, &[ON_START, MISS, MISS]);
    assert!(same_state(tool.hot_state, hot(a, HotPart::WallStart)));
    tool.make_object_hot_at_position(&scene, &[MISS, MISS, MISS]);
    assert!(tool.hot_state.is_none());
}

#[test]
fn object_in_focus_is_hot_first() {
    let (scene, a, _b, c) = scene();
    let mut tool: CursorTool<Point, u8> = CursorTool::new((0, 0));
    tool.focused_state = hot(a, HotPart::EntireObject);
    tool.make_object_hot_at_position(&scene, &[ON_END, INSIDE, ON_LINE]);
    assert!(same_state(tool.hot_state, hot(a, HotPart::WallEnd)));
    tool.make_object_hot_at_position(&scene, &[MISS, MISS, ON_LINE]);
    assert!(same_state(tool.hot_state, hot(c, HotPart::EntireObject)));
    assert!(same_state(tool.focused_state, hot(a, HotPart::EntireObject)));
}

#[test]
fn focus_on_a_removed_object_does_not_count() {
    let (mut scene, a, b, c) = scene();
    let mut tool: CursorTool<Point, u8> = CursorTool::new((0, 0));
    tool.focused_state = hot(a, HotPart::EntireObject);
    scene.objects.remove(a);
    tool.make_object_hot_at_position(&scene, &[ON_LINE, INSIDE]);
    assert!(same_state(tool.hot_state, hot(b, HotPart::EntireObject)));
    tool.make_object_hot_at_position(&scene, &[ON_LINE, MISS]);
    assert!(same_state(tool.hot_state, hot(c, HotPart::EntireObject)));
}

#[test]
fn dragging_a_wall_moves_the_ends_that_the_part_moves() {
    let mut tool: CursorTool<Point, u8> = CursorTool::new((0, 0));
    let moved = Moved::Wall { start: (5, 5), end: (5, 15) };
    let ends = |object: Object<Point, u8>| match object {
        Object::Wall(wall) => (wall.start, wall.end),
        _ => panic!("not a wall"),
    };
    let mut whole = wall(1);
    tool.drag_entire_object(&mut whole, HotPart::EntireObject, moved);
    assert_eq!(ends(whole), ((5, 5), (5, 15)));
    let mut start = wall(1);
    tool.drag_entire_object(&mut start, HotPart::WallStart, moved);
    assert_eq!(ends(start), ((5, 5), (1, 10)));
    let mut end = wall(1);
    tool.drag_entire_object(&mut end, HotPart::WallEnd, moved);
    assert_eq!(ends(end), ((1, 0), (5, 15)));
    let mut unfit = wall(1);
    tool.drag_entire_object(&mut unfit, HotPart::EntireObject, Moved::Spot { position: (7, 7) });
    assert_eq!(ends(unfit), ((1, 0), (1, 10)));
}

#[test]
fn dragging_a_microphone_or_speaker_moves_it() {
    let mut tool: CursorTool<Point, u8> = CursorTool::new((0, 0));
    let mut mic = microphone(1);
    tool.drag_entire_object(&mut mic, HotPart::EntireObject, Moved::Spot { position: (7, 7) });
    assert!(matches!(mic, Object::Microphone(Microphone { position: (7, 7) })));
    let mut loud = speaker(1);
    tool.drag_entire_object(&mut loud, HotPart::WallEnd, Moved::Spot { position: (8, 8) });
    assert!(matches!(loud, Object::Speaker(Speaker { position: (8, 8), power: 9 })));
    tool.drag_entire_object(&mut loud, HotPart::EntireObject, Moved::Wall { start: (0, 0), end: (1, 1) });
    assert!(matches!(loud, Object::Speaker(Speaker { position: (8, 8), power: 9 })));
}

#[test]
fn hotness_of_focus_and_parts_is_told() {
    let (_, a, b, _) = scene();
    let mut tool: CursorTool<Point, u8> = CursorTool::new((0, 0));
    assert!(tool.focused_object_is_hot());
    tool.hot_state = hot(a, HotPart::WallEnd);
    assert!(!tool.focused_object_is_hot());
    tool.focused_state = hot(a, HotPart::EntireObject);
    assert!(tool.focused_object_is_hot());
    tool.focused_state = hot(b, HotPart::WallEnd);
    assert!(!tool.focused_object_is_hot());
    assert!(tool.object_part_is_hot(a, HotPart::WallEnd));
    assert!(!tool.object_part_is_hot(a, HotPart::WallStart));
    assert!(!tool.object_part_is_hot(b, HotPart::WallEnd));
}

#[test]
fn moving_at_rest_finds_the_hot_object() {
    let (mut scene, a, _, _) = scene();
    let mut tool: CursorTool<Point, u8> = CursorTool::new((0, 0));
    let reaction = tool.event(&mut scene, Event::MouseMove { pos: (1, 5) }, &[ON_LINE, MISS, MISS]);
    assert!(reaction.paint);
    assert!(!reaction.handled);
    assert!(reaction.active.is_none());
    assert!(reaction.drag.is_none());
    assert!(same_state(tool.hot_state, hot(a, HotPart::EntireObject)));
    assert_eq!(tool.last_mouse_pos, (1, 5));
    let reaction = tool.event(&mut scene, Event::MouseMove { pos: (1, 6) }, &[ON_LINE, MISS, MISS]);
    assert!(!reaction.paint);
    assert_eq!(tool.last_mouse_pos, (1, 6));
    let reaction = tool.event(&mut scene, Event::MouseMove { pos: (9, 9) }, &[MISS, MISS, MISS]);
    assert!(reaction.paint);
    assert!(tool.hot_state.is_none());
}

#[test]
fn press_on_a_hot_object_begins_a_drag() {
    let (mut scene, a, _, _) = scene();
    let mut tool: CursorTool<Point, u8> = CursorTool::new((0, 0));
    tool.event(&mut scene, Event::MouseMove { pos: (1, 0) }, &[ON_START, MISS, MISS]);
    let reaction = tool.event(&mut scene, Event::MouseDown { pos: (1, 0), left: true }, &[]);
    assert!(reaction.handled);
    assert!(reaction.paint);
    assert_eq!(reaction.active, Some(true));
    assert_eq!(tool.state, CursorState::Dragging);
    assert!(same_state(tool.focused_state, hot(a, HotPart::WallStart)));

    let reaction = tool.event(&mut scene, Event::MouseMove { pos: (4, 2) }, &[]);
    let drag = reaction.drag.unwrap();
    assert!(reaction.paint);
    assert_eq!(drag.from, (1, 0));
    assert_eq!(drag.to, (4, 2));
    assert!(drag.state.same(&HotState { object: a, part: HotPart::WallStart }));
    assert_eq!(tool.last_mouse_pos, (4, 2));

    let reaction = tool.event(&mut scene, Event::MouseUp { pos: (4, 2) }, &[]);
    assert!(reaction.paint);
    assert_eq!(reaction.active, Some(false));
    assert_eq!(tool.state, CursorState::Idle);
    assert!(same_state(tool.focused_state, hot(a, HotPart::WallStart)));
}

#[test]
fn press_on_nothing_takes_the_focus_away() {
    let (mut scene, a, _, _) = scene();
    let mut tool: CursorTool<Point, u8> = CursorTool::new((0, 0));
    tool.focused_state = hot(a, HotPart::EntireObject);
    let reaction = tool.event(&mut scene, Event::MouseDown { pos: (9, 9), left: true }, &[]);
    assert!(reaction.handled);
    assert!(!reaction.paint);
    assert!(reaction.active.is_none());
    assert_eq!(tool.state, CursorState::Idle);
    assert!(tool.focused_state.is_none());
}

#[test]
fn press_of_another_button_does_nothing() {
    let (mut scene, a, _, _) = scene();
    let mut tool: CursorTool<Point, u8> = CursorTool::new((0, 0));
    tool.hot_state = hot(a, HotPart::EntireObject);
    let reaction = tool.event(&mut scene, Event::MouseDown { pos: (1, 1), left: false }, &[]);
    assert!(!reaction.handled);
    assert!(!reaction.paint);
    assert_eq!(tool.state, CursorState::Idle);
    assert!(tool.focused_state.is_none());
}

#[test]
fn drag_of_a_removed_object_does_nothing() {
    let (mut scene, a, _, _) = scene();
    let mut tool: CursorTool<Point, u8> = CursorTool::new((0, 0));
    tool.focused_state = hot(a, HotPart::EntireObject);
    tool.state = CursorState::Dragging;
    scene.objects.remove(a);
    let reaction = tool.event(&mut scene, Event::MouseMove { pos: (4, 2) }, &[]);
    assert!(reaction.drag.is_none());
    assert!(!reaction.paint);
    assert_eq!(tool.state, CursorState::Dragging);
}

#[test]
fn delete_takes_the_object_in_focus_out() {
    let (mut scene, a, b, _) = scene();
    let mut tool: CursorTool<Point, u8> = CursorTool::new((0, 0));
    let reaction = tool.event(&mut scene, Event::Command(Command::Delete), &[]);
    assert!(reaction.handled);
    assert!(!reaction.paint);
    assert!(scene.objects.get(a).is_some());

    tool.focused_state = hot(a, HotPart::EntireObject);
    let reaction = tool.event(&mut scene, Event::Command(Command::Delete), &[]);
    assert!(reaction.handled);
    assert!(reaction.paint);
    assert!(scene.objects.get(a).is_none());
    assert!(scene.objects.get(b).is_some());

    let reaction = tool.command(&mut scene, Command::Delete);
    assert!(reaction.handled);
    assert!(reaction.paint);
    assert!(scene.objects.get(b).is_some());
}

#[test]
fn other_events_leave_the_cursor_tool_alone() {
    let (mut scene, a, _, _) = scene();
    let mut tool: CursorTool<Point, u8> = CursorTool::new((3, 3));
    tool.hot_state = hot(a, HotPart::EntireObject);
    let reaction = tool.event(&mut scene, Event::Other, &[]);
    assert!(!reaction.paint && !reaction.handled);
    assert!(reaction.active.is_none() && reaction.drag.is_none());
    assert_eq!(tool.state, CursorState::Idle);
    assert_eq!(tool.last_mouse_pos, (3, 3));
    tool.state = CursorState::Dragging;
    let reaction = tool.event(&mut scene, Event::MouseDown { pos: (1, 1), left: true }, &[]);
    assert!(!reaction.handled);
    assert_eq!(tool.state, CursorState::Dragging);
}

#[test]
fn wall_tool_places_a_wall_from_press_to_release() {
    let mut scene = Scene::new();
    let mut tool: WallTool<Point> = WallTool::new((0, 0));
    let reaction = tool.event(&mut scene, Event::MouseDown { pos: (1, 2), left: true });
    assert_eq!(reaction.active, Some(true));
    assert!(!reaction.paint);
    assert!(matches!(tool.state, WallToolState::PlaceEnd { start: (1, 2) }));
    assert!(scene.objects.iter().next().is_none());

    let reaction = tool.event(&mut scene, Event::MouseMove { pos: (3, 3) });
    assert!(reaction.paint);
    assert_eq!(tool.mouse_pos, (3, 3));
    assert!(matches!(tool.state, WallToolState::PlaceEnd { start: (1, 2) }));

    let reaction = tool.event(&mut scene, Event::MouseUp { pos: (5, 6) });
    assert!(reaction.paint);
    assert_eq!(reaction.active, Some(true));
    assert!(!reaction.handled);
    assert!(matches!(tool.state, WallToolState::PlaceStart));
    let mut objects = scene.objects.pairs();
    let (id, object) = objects.next().unwrap();
    assert_eq!((id.index(), id.generation()), (0, 0));
    assert!(matches!(
        object,
        Object::Wall(Wall { start: (1, 2), end: (5, 6), material: MaterialIndex(0) })
    ));
    assert!(objects.next().is_none());
}

#[test]
fn wall_tool_places_walls_one_after_another() {
    let mut scene = Scene::new();
    let mut tool: WallTool<Point> = WallTool::new((0, 0));
    for x in 0..3 {
        tool.event(&mut scene, Event::MouseDown { pos: (x, 0), left: true });
        tool.event(&mut scene, Event::MouseUp { pos: (x, 9) });
    }
    let mut walls = scene.objects.iter();
    for x in 0..3 {
        assert!(matches!(walls.next(), Some(Object::Wall(Wall { start, end, .. })) if *start == (x, 0) && *end == (x, 9)));
    }
    assert!(walls.next().is_none());
}

#[test]
fn wall_tool_ignores_what_does_not_fit_its_state() {
    let mut scene = Scene::new();
    let mut tool: WallTool<Point> = WallTool::new((0, 0));
    let reaction = tool.event(&mut scene, Event::MouseUp { pos: (5, 6) });
    assert!(!reaction.paint && reaction.active.is_none());
    assert!(matches!(tool.state, WallToolState::PlaceStart));
    tool.event(&mut scene, Event::MouseDown { pos: (1, 2), left: false });
    let reaction = tool.event(&mut scene, Event::MouseDown { pos: (7, 7), left: true });
    assert!(!reaction.paint && reaction.active.is_none());
    assert!(matches!(tool.state, WallToolState::PlaceEnd { start: (1, 2) }));
    let reaction = tool.event(&mut scene, Event::Command(Command::Delete));
    assert!(!reaction.paint && !reaction.handled);
    let reaction = tool.event(&mut scene, Event::Other);
    assert!(!reaction.paint);
    assert!(scene.objects.iter().next().is_none());
}

#[test]
fn delete_key_gives_the_delete_command() {
    assert_eq!(Commander::consume_key(Key::Delete), Some(Command::Delete));
    assert_eq!(Commander::consume_key(Key::Other), None);
}

#[test]
fn commander_asks_for_focus_when_the_window_comes_up() {
    let mut commander = Commander;
    let reaction = commander.event(CommanderEvent::WindowConnected);
    assert!(reaction.request_focus);
    assert_eq!(reaction.command, None);
    assert!(!reaction.handled);
}

#[test]
fn commander_sends_a_command_once_for_a_key() {
    let mut commander = Commander;
    let reaction = commander.event(CommanderEvent::KeyDown { key: Key::Delete, repeat: false });
    assert_eq!(reaction.command, Some(Command::Delete));
    assert!(reaction.handled);
    assert!(!reaction.request_focus);
    let reaction = commander.event(CommanderEvent::KeyDown { key: Key::Delete, repeat: true });
    assert_eq!(reaction.command, None);
    assert!(!reaction.handled);
}

#[test]
fn commander_passes_everything_else_on() {
    let mut commander = Commander;
    let reaction = commander.event(CommanderEvent::KeyDown { key: Key::Other, repeat: false });
    assert_eq!(reaction.command, None);
    assert!(!reaction.handled);
    let reaction = commander.event(CommanderEvent::Other);
    assert_eq!(reaction.command, None);
    assert!(!reaction.handled && !reaction.request_focus);
}

#[test]
fn pointer_events_have_a_position() {
    assert_eq!(Event::MouseDown { pos: (1, 2), left: true }.pos(), Some((1, 2)));
    assert_eq!(Event::MouseUp { pos: (3, 4) }.pos(), Some((3, 4)));
    assert_eq!(Event::MouseMove { pos: (5, 6) }.pos(), Some((5, 6)));
    assert_eq!(Event::<Point>::Command(Command::Delete).pos(), None);
    assert_eq!(Event::<Point>::Other.pos(), None);
}

#[test]
fn pointer_events_move_to_the_scene() {
    let down = Event::MouseDown { pos: (1, 2), left: false }.mouse_to_viewport_space((10, 20));
    assert!(matches!(down, Event::MouseDown { pos: (10, 20), left: false }));
    let up = Event::MouseUp { pos: (1, 2) }.mouse_to_viewport_space((10, 20));
    assert!(matches!(up, Event::MouseUp { pos: (10, 20) }));
    let moved = Event::MouseMove { pos: (1, 2) }.mouse_to_viewport_space((10, 20));
    assert!(matches!(moved, Event::MouseMove { pos: (10, 20) }));
    let command = Event::<Point>::Command(Command::Delete).mouse_to_viewport_space((10, 20));
    assert!(matches!(command, Event::Command(Command::Delete)));
    let other = Event::<Point>::Other.mouse_to_viewport_space((10, 20));
    assert!(matches!(other, Event::Other));
}
