# furina-advocate-sim

A terminal game about training an advocate, watching the automatic trial and
talking it over on a date afterwards. Scenes are SVG templates filled with the
game's state, rasterised with resvg and shown through the Kitty graphics
protocol; an intro video plays as RGB half blocks or ASCII art.

## Layout

- `src/` — the library, with its contracts proved by Verus:
  - `domain/` — the game session: phases, training, the trial simulation,
    the date, and the rules for which command each phase accepts;
  - `app/` — the screens and their transitions, key handling, the timed
    ticks, the view model and the panel geometry;
  - `render/` — scene templates, token replacement and rasterisation;
  - `terminal/` — terminal metrics, cell-to-pixel layout, Kitty commands,
    the image registry, and video frame rendering, resizing and the splash
    overlay;
  - `text.rs`, `shared.rs` — text helpers and shared constants.
- `tests/` — tests of the library on concrete values.
- `app/` — the command-line front end: terminal I/O, clocks, processes,
  easing curves and other floating-point work.

SVG templates are read at run time from `assets/svg/`, the intro video from
`assets/video/`.
