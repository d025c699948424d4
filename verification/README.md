# reflections

An interactive 2D optics sandbox: plane mirrors, lenses, laser and point
lights, and the paths of light rays bouncing between them.

- `src/` is the verified library: the scene (`world`), which changes force a
  new trace and what the mouse grabs and drags; the control of a trace
  (`trace`): the choice of the closest hit of a ray and the walk through bounce
  levels; the arc test of circular surfaces (`surface`); and the order of
  non-negative floats as plain values (`order`). Positions are `glam::Vec2`
  values that the library carries without reading their coordinates; it
  only compares two of them for equality (through `glam`).
- `app/` is the program around it: the window, drawing and the property
  editor (macroquad, egui), and all the float geometry (intersections,
  reflection, refraction, colours).
- `tests/` exercises the library on concrete scenes.
