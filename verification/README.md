# texture_sharing

Two processes share a GPU texture through a shared surface: the parent
creates the surface, shows it in a window and asks the child to render;
the child looks the surface up, draws an image into it and tells the parent
to redraw.

- `src/` is the verified library: the message protocol between the two
  processes (`protocol`), the render commands and the quad geometry
  (`render`), the rendering device's GL state and what each of its steps
  issues (`device`), the drawing steps of the program (`scene`), and laws
  that relate them (`lifecycle`).
- `app/` runs the program: windows, OpenGL, the shared surface, image
  loading, process creation and inter-process channels. It hands the
  library the names that OpenGL and the surface report, and issues the
  commands the library returns.
- `tests/` runs the library on concrete values.
