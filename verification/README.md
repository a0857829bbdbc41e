# buddaraysh

The window-management core of a small tiling Wayland compositor, verified with Verus.

`src/` is the library. Every function in it has a contract, and Verus proves it:

- `workspace`: workspaces with a tiling layer and a floating layer, the set of workspaces shown on
  one output, and all the sets, keyed by output. It covers mapping, unmapping, fullscreen, toggling
  floating and moving windows between workspaces.
- `shell::layout`: stacking spaces, the master-stack tiling arrangement, and the rule that decides
  which new windows float.
- `shell`, `shell::xdg`, `shell::x11`: where new windows go, popup placement, and the starts of
  interactive moves and resizes. The X11 part also covers maximizing and configure requests.
- `grabs`: interactive move and resize grabs, and the commit that settles a resize.
- `input`, `focus`: key bindings and the actions they ask for, and the rules for keyboard and
  pointer focus.
- `constraints`: pointer locks and confinements that clients place on their surfaces.

Window contents, rendering, input devices and the Wayland protocol are not part of the library.
Windows are handles and geometry is integer rectangles. The display backend passes in what it
observed and carries out what the library decides.

`app/` is the program around the library: logging, child processes, systemd notification, the
few computations on floating-point pointer coordinates, and a session driver with one entry point
per backend event, which asks the library what to do. No display backend is part of this build,
so the program starts, runs its start-up command and stops with an error saying so.

`tests/` runs the library on concrete values.
