use glam::Vec2;
use reflections::lights::LightSourceEnum;
use reflections::optical_objects::OpticalObjectEnum;
use reflections::trace::Tracer;
use reflections::world::{SelectState, World, DEPTH};

type TestWorld = World<&'static str, &'static str, &'static str, u32>;

fn mirror(name: &'static str) -> OpticalObjectEnum<&'static str> {
    OpticalObjectEnum::PlaneMirror(name)
}

fn laser(name: &'static str) -> LightSourceEnum<&'static str, &'static str> {
    LightSourceEnum::LaserLight(name)
}

fn point(name: &'static str) -> LightSourceEnum<&'static str, &'static str> {
    LightSourceEnum::PointLight(name)
}

fn mirror_name(o: &OpticalObjectEnum<&'static str>) -> &'static str {
    match o {
        OpticalObjectEnum::PlaneMirror(n) => n,
    }
}

fn light_name(l: &LightSourceEnum<&'static str, &'static str>) -> &'static str {
    match l {
        LightSourceEnum::LaserLight(n) => n,
        LightSourceEnum::PointLight(n) => n,
    }
}

/// Runs checks until one reports no change, and returns how many reported one.
fn drain(w: &mut TestWorld) -> usize {
    let mut n = 0;
    while w.check_and_clear_dirty() {
        n += 1;
        assert!(n < 1000);
    }
    n
}

#[test]
fn new_world_is_empty_and_must_be_traced() {
    let mut w: TestWorld = World::new();
    assert!(w.objects().is_empty());
    assert!(w.lights().is_empty());
    assert!(w.select_state().is_none());
    assert_eq!(w.depth(), DEPTH);
    assert_eq!(w.depth(), 5);
    assert_eq!(w.last_mouse_position(), None);
    assert!(w.check_and_clear_dirty());
    assert!(!w.check_and_clear_dirty());
}

#[test]
fn default_world_is_new_world() {
    let mut w: TestWorld = Default::default();
    assert!(w.objects().is_empty());
    assert_eq!(w.depth(), DEPTH);
    assert_eq!(drain(&mut w), 1);
}

#[test]
fn each_added_entity_reports_one_change_after_the_scene() {
    let mut w: TestWorld = World::new();
    w.add_object(mirror("m1"));
    w.add_light(point("p1"));
    w.add_light(laser("l1"));
    // the scene itself, then each of the three new entities
    assert_eq!(drain(&mut w), 4);
    assert_eq!(drain(&mut w), 0);
}

#[test]
fn scene_change_is_reported_before_entity_changes() {
    let mut w: TestWorld = World::new();
    w.add_object(mirror("m1"));
    assert_eq!(drain(&mut w), 2);
    w.mark_object_changed(0);
    w.request_redraw();
    assert!(w.check_and_clear_dirty());
    assert!(w.check_and_clear_dirty());
    assert!(!w.check_and_clear_dirty());
}

#[test]
fn marking_a_changed_entity_twice_is_one_change() {
    let mut w: TestWorld = World::new();
    w.add_light(point("p1"));
    drain(&mut w);
    w.mark_light_changed(0);
    w.mark_light_changed(0);
    assert_eq!(drain(&mut w), 1);
}

#[test]
fn mouse_press_prefers_objects_over_lights() {
    let mut w: TestWorld = World::new();
    w.add_object(mirror("m1"));
    w.add_object(mirror("m2"));
    w.add_light(point("p1"));
    let off = Vec2::new(1.0, -2.0);
    w.mouse_pressed(&vec![None, Some(off)], &vec![Some(Vec2::new(5.0, 5.0))]);
    match w.select_state() {
        SelectState::Object(i, o) => {
            assert_eq!(i, 1);
            assert_eq!(o, off);
        }
        s => panic!("unexpected selection {:?}", s),
    }
}

#[test]
fn mouse_press_picks_first_light_when_no_object_is_hit() {
    let mut w: TestWorld = World::new();
    w.add_object(mirror("m1"));
    w.add_light(point("p1"));
    w.add_light(laser("l1"));
    w.add_light(laser("l2"));
    let off = Vec2::new(3.0, 4.0);
    w.mouse_pressed(&vec![None], &vec![None, Some(off), Some(Vec2::ZERO)]);
    match w.select_state() {
        SelectState::Light(i, o) => {
            assert_eq!(i, 1);
            assert_eq!(o, off);
        }
        s => panic!("unexpected selection {:?}", s),
    }
}

#[test]
fn mouse_press_on_nothing_releases() {
    let mut w: TestWorld = World::new();
    w.add_object(mirror("m1"));
    w.select(SelectState::Object(0, Vec2::ZERO));
    w.mouse_pressed(&vec![None], &vec![]);
    assert!(w.select_state().is_none());
}

#[test]
fn mouse_press_does_not_change_the_scene() {
    let mut w: TestWorld = World::new();
    w.add_object(mirror("m1"));
    drain(&mut w);
    w.mouse_pressed(&vec![Some(Vec2::ZERO)], &vec![]);
    assert!(!w.check_and_clear_dirty());
}

#[test]
fn mouse_movement_moves_the_grabbed_entity_once_per_position() {
    let mut w: TestWorld = World::new();
    w.add_light(laser("l1"));
    drain(&mut w);
    let off = Vec2::new(-1.0, 1.0);
    w.mouse_pressed(&vec![], &vec![Some(off)]);
    let p = Vec2::new(100.0, 50.0);
    match w.mouse_movement(p) {
        SelectState::Light(0, o) => assert_eq!(o, off),
        s => panic!("unexpected move {:?}", s),
    }
    assert_eq!(w.last_mouse_position(), Some(p));
    assert_eq!(drain(&mut w), 1);
    // the mouse has not moved: nothing to do, nothing changes
    assert!(w.mouse_movement(p).is_none());
    assert_eq!(drain(&mut w), 0);
    // it moves again
    let q = Vec2::new(101.0, 50.0);
    assert!(!w.mouse_movement(q).is_none());
    assert_eq!(w.last_mouse_position(), Some(q));
    assert_eq!(drain(&mut w), 1);
}

#[test]
fn mouse_movement_without_grab_only_records_the_position() {
    let mut w: TestWorld = World::new();
    drain(&mut w);
    let p = Vec2::new(1.0, 2.0);
    assert!(w.mouse_movement(p).is_none());
    assert_eq!(w.last_mouse_position(), Some(p));
    assert_eq!(drain(&mut w), 0);
}

#[test]
fn apply_mouse_movement_unchanged_is_a_no_op() {
    let mut w: TestWorld = World::new();
    w.add_object(mirror("m1"));
    w.select(SelectState::Object(0, Vec2::ONE));
    drain(&mut w);
    assert!(w.apply_mouse_movement(Vec2::new(7.0, 7.0), true).is_none());
    assert_eq!(w.last_mouse_position(), None);
    assert_eq!(drain(&mut w), 0);
    match w.apply_mouse_movement(Vec2::new(7.0, 7.0), false) {
        SelectState::Object(0, o) => assert_eq!(o, Vec2::ONE),
        s => panic!("unexpected move {:?}", s),
    }
    assert_eq!(drain(&mut w), 1);
}

#[test]
fn remove_selected_object_moves_last_into_its_place() {
    let mut w: TestWorld = World::new();
    w.add_object(mirror("a"));
    w.add_object(mirror("b"));
    w.add_object(mirror("c"));
    w.add_light(point("p"));
    drain(&mut w);
    w.select(SelectState::Object(0, Vec2::ZERO));
    w.remove_selected();
    let names: Vec<&str> = w.objects().iter().map(mirror_name).collect();
    assert_eq!(names, vec!["c", "b"]);
    assert_eq!(w.lights().len(), 1);
    assert!(w.select_state().is_none());
    assert_eq!(drain(&mut w), 1);
}

#[test]
fn remove_selected_light() {
    let mut w: TestWorld = World::new();
    w.add_light(point("p"));
    w.add_light(laser("l"));
    drain(&mut w);
    w.select(SelectState::Light(1, Vec2::ZERO));
    w.remove_selected();
    let names: Vec<&str> = w.lights().iter().map(light_name).collect();
    assert_eq!(names, vec!["p"]);
    assert!(w.select_state().is_none());
    assert_eq!(drain(&mut w), 1);
}

#[test]
fn removed_entity_takes_its_pending_change_along() {
    let mut w: TestWorld = World::new();
    w.add_object(mirror("a"));
    w.add_object(mirror("b"));
    drain(&mut w);
    w.mark_object_changed(1);
    w.select(SelectState::Object(1, Vec2::ZERO));
    w.remove_selected();
    // only the scene's own change is left
    assert_eq!(drain(&mut w), 1);
}

#[test]
fn remove_without_selection_changes_nothing() {
    let mut w: TestWorld = World::new();
    w.add_object(mirror("a"));
    drain(&mut w);
    w.remove_selected();
    assert_eq!(w.objects().len(), 1);
    assert_eq!(drain(&mut w), 0);
}

#[test]
fn clear_empties_the_scene() {
    let mut w: TestWorld = World::new();
    w.add_object(mirror("a"));
    w.add_light(point("p"));
    w.select(SelectState::Light(0, Vec2::ZERO));
    w.clear();
    assert!(w.objects().is_empty());
    assert!(w.lights().is_empty());
    assert!(w.select_state().is_none());
    assert_eq!(drain(&mut w), 1);
}

#[test]
fn set_depth_changes_the_scene_only_when_different() {
    let mut w: TestWorld = World::new();
    drain(&mut w);
    w.set_depth(DEPTH);
    assert_eq!(drain(&mut w), 0);
    w.set_depth(42);
    assert_eq!(w.depth(), 42);
    assert_eq!(drain(&mut w), 1);
}

#[test]
fn object_mut_edits_in_place() {
    let mut w: TestWorld = World::new();
    w.add_object(mirror("a"));
    w.add_light(laser("l"));
    *w.object_mut(0) = mirror("z");
    *w.light_mut(0) = point("q");
    assert_eq!(mirror_name(&w.objects()[0]), "z");
    assert_eq!(light_name(&w.lights()[0]), "q");
}

#[test]
fn select_state_is_none() {
    assert!(SelectState::Empty.is_none());
    assert!(!SelectState::Object(0, Vec2::ZERO).is_none());
    assert!(!SelectState::Light(3, Vec2::ONE).is_none());
}

#[test]
fn first_mouse_movement_always_moves_the_grabbed_entity() {
    let mut w: TestWorld = World::new();
    w.add_object(mirror("m"));
    w.select(SelectState::Object(0, Vec2::new(2.0, 3.0)));
    drain(&mut w);
    match w.mouse_movement(Vec2::ZERO) {
        SelectState::Object(0, o) => assert_eq!(o, Vec2::new(2.0, 3.0)),
        s => panic!("unexpected move {:?}", s),
    }
    assert_eq!(w.last_mouse_position(), Some(Vec2::ZERO));
}

#[test]
fn mouse_press_grabs_the_first_object_under_the_mouse() {
    let mut w: TestWorld = World::new();
    w.add_object(mirror("a"));
    w.add_object(mirror("b"));
    w.add_object(mirror("c"));
    w.add_light(point("p"));
    w.mouse_pressed(
        &vec![None, Some(Vec2::new(1.0, 0.0)), Some(Vec2::new(2.0, 0.0))],
        &vec![Some(Vec2::ZERO)],
    );
    match w.select_state() {
        SelectState::Object(1, o) => assert_eq!(o, Vec2::new(1.0, 0.0)),
        s => panic!("unexpected selection {:?}", s),
    }
}

#[test]
fn installed_paths_replace_the_previous_ones() {
    let mut w: TestWorld = World::new();
    assert!(w.ray_paths().is_empty());
    let mut t: Tracer<u32, u32> = Tracer::new(5, vec![1, 2, 3]);
    while let Some(&ray) = t.current() {
        t.record(ray * 10, vec![]);
    }
    w.install_paths(t);
    assert_eq!(w.ray_paths(), &vec![10, 20, 30]);
    let mut t: Tracer<u32, u32> = Tracer::new(5, vec![4]);
    while let Some(&ray) = t.current() {
        t.record(ray * 10, vec![]);
    }
    w.install_paths(t);
    assert_eq!(w.ray_paths(), &vec![40]);
    let t: Tracer<u32, u32> = w.start_trace(vec![]);
    assert!(t.is_finished());
    w.install_paths(t);
    assert!(w.ray_paths().is_empty());
}

#[test]
fn mouse_movement_back_and_forth_moves_each_time() {
    let mut w: TestWorld = World::new();
    w.add_object(mirror("m"));
    w.select(SelectState::Object(0, Vec2::ZERO));
    let (p, q) = (Vec2::new(1.0, 1.0), Vec2::new(2.0, 2.0));
    assert!(!w.mouse_movement(p).is_none());
    assert!(!w.mouse_movement(q).is_none());
    assert!(!w.mouse_movement(p).is_none());
    assert!(w.mouse_movement(p).is_none());
}

#[test]
fn start_trace_uses_the_scene_depth() {
    let mut w: TestWorld = World::new();
    w.set_depth(1);
    let mut t: Tracer<u32, u32> = w.start_trace(vec![1]);
    t.record(1, vec![2]);
    // one level only: the spawned ray is not traced
    assert!(t.is_finished());
    w.install_paths(t);
    assert_eq!(w.ray_paths(), &vec![1]);
}

#[test]
fn light_check_reports_its_own_change_once() {
    let mut w: TestWorld = World::new();
    w.add_light(point("p"));
    w.add_light(laser("l"));
    assert!(w.check_and_clear_light_dirty(1));
    assert!(!w.check_and_clear_light_dirty(1));
    // the other light keeps its change
    assert!(w.check_and_clear_light_dirty(0));
    w.mark_light_changed(1);
    assert!(w.check_and_clear_light_dirty(1));
    assert!(!w.check_and_clear_light_dirty(1));
}

#[test]
fn object_check_reports_its_own_change_once() {
    let mut w: TestWorld = World::new();
    w.add_object(mirror("m"));
    drain(&mut w);
    assert!(!w.check_and_clear_object_dirty(0));
    w.mark_object_changed(0);
    assert!(w.check_and_clear_object_dirty(0));
    assert!(!w.check_and_clear_object_dirty(0));
    // the scene's own change is untouched by an entity check
    w.request_redraw();
    assert!(!w.check_and_clear_object_dirty(0));
    assert_eq!(drain(&mut w), 1);
}
