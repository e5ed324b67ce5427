# curve_editor_sample

An interactive spline editor: click to add control points, drag them, delete
them from a right-click menu, and draw each spline as a Catmull-Rom,
centripetal Catmull-Rom or interpolating B-spline curve.

`src/` is the verified library. It keeps the editor's decisions, with points
left as a type parameter:

- `spline` — the spline type, its tessellation cache, the layout of curve
  samples, and curve names;
- `state` — the editing state and every input handler, each specified as a
  transition of a mathematical model (`AppModel`);
- `laws` — properties spanning several operations (invariants, undo, drag,
  context menu, sample layout);
- `ui`, `render`, `input`, `surface` — what the interface shows, how things
  are drawn, how window events are routed, and surface decisions;
- `text` — decimal labels.

`app/` is the program around it: the window (winit), the GPU (wgpu), the
interface (egui), and the floating-point work — curve evaluation, the
tridiagonal solve of the B-spline, coordinate conversion and the hit-radius
test.
