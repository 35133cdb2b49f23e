use fizzerb::editor::{EditableSpace, Object};
use fizzerb::model::{Material, MaterialIndex, Microphone, Speaker, Wall};

type Point = (f64, f64);

fn wall(x: f64, material: usize) -> Object<Point, f32> {
    Object::Wall(Wall { start: (x, 0.0), end: (x, 1.0), material: MaterialIndex(material) })
}

fn microphone(x: f64) -> Object<Point, f32> {
    Object::Microphone(Microphone { position: (x, 0.0) })
}

fn speaker(x: f64, power: f32) -> Object<Point, f32> {
    Object::Speaker(Speaker { position: (x, 0.0), power })
}

fn plain() -> Material<f32> {
    Material { diffuse: 1.0, roughness: 0.0 }
}

#[test]
fn empty_scene_gives_a_space_with_one_material() {
    let scene: EditableSpace<Point, f32> = EditableSpace::new();
    let space = scene.to_model(Material { diffuse: 0.5, roughness: 0.25 });
    assert_eq!(space.materials.len(), 1);
    assert_eq!(space.materials[0].diffuse, 0.5);
    assert_eq!(space.materials[0].roughness, 0.25);
    assert!(space.walls.is_empty());
    assert!(space.microphones.is_empty());
    assert!(space.speakers.is_empty());
}

#[test]
fn objects_are_sorted_into_their_lists_in_order() {
    let mut scene: EditableSpace<Point, f32> = EditableSpace::new();
    scene.objects.insert(wall(1.0, 0));
    scene.objects.insert(microphone(2.0));
    scene.objects.insert(speaker(3.0, 0.5));
    scene.objects.insert(wall(4.0, 0));
    scene.objects.insert(microphone(5.0));
    let space = scene.to_model(plain());
    let walls: Vec<f64> = space.walls.iter().map(|w| w.start.0).collect();
    let microphones: Vec<f64> = space.microphones.iter().map(|m| m.position.0).collect();
    assert_eq!(walls, vec![1.0, 4.0]);
    assert_eq!(microphones, vec![2.0, 5.0]);
    assert_eq!(space.speakers.len(), 1);
    assert_eq!(space.speakers[0].position, (3.0, 0.0));
    assert_eq!(space.speakers[0].power, 0.5);
    assert_eq!(space.walls[1].end, (4.0, 1.0));
}

#[test]
fn every_wall_is_made_of_the_default_material() {
    let mut scene: EditableSpace<Point, f32> = EditableSpace::new();
    scene.objects.insert(wall(1.0, 7));
    scene.objects.insert(wall(2.0, 3));
    let space = scene.to_model(plain());
    assert_eq!(space.walls[0].material, MaterialIndex(0));
    assert_eq!(space.walls[1].material, MaterialIndex(0));
}

#[test]
fn removed_objects_stay_out_and_order_follows_the_set() {
    let mut scene: EditableSpace<Point, f32> = EditableSpace::new();
    let first = scene.objects.insert(wall(1.0, 0));
    scene.objects.insert(wall(2.0, 0));
    scene.objects.insert(wall(3.0, 0));
    scene.objects.remove(first);
    let space = scene.to_model(plain());
    let walls: Vec<f64> = space.walls.iter().map(|w| w.start.0).collect();
    assert_eq!(walls, vec![3.0, 2.0]);
}

#[test]
fn default_scene_is_empty() {
    let scene: EditableSpace<Point, f32> = EditableSpace::default();
    assert!(scene.objects.iter().next().is_none());
    let copy = scene.clone();
    assert!(copy.objects.iter().next().is_none());
}
