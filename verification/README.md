# showcase

The widget-catalog app of the ROSACE UI framework, split in two.

- `src/` is a verified library holding the decisions the screens take, as
  plain values in and plain values out, each with a contract:
  - `guard`: the unsaved-changes guard of the `WillPopScope` page, with the
    laws that leaving is allowed exactly when nothing is unsaved and that
    "Discard" always leaves;
  - `refresh`: the pull-to-refresh page as a state machine (a pull while a
    refresh is in flight is ignored; each completed refresh counts once);
  - `channel`: the status lines of the platform-channel page;
  - `hero`: the hero demo's swatches, tags and destination indices, with the
    laws that tags are distinct and the two demos never pair;
  - `grid`: generated content (the two-tone board, list strips, rings,
    responsive column swatches);
  - `selection`: the data table's row selection, the dropdown's clamped
    selection, and the pages' counters and labels;
  - `text` and `palette`: decimal rendering of integers, label joining, and
    colours.
- `app/` is the app itself: every screen as a rosace widget tree (sizes are
  floating point, so the trees stay outside the library), calling the
  library for each decision, plus the platform-channel I/O and the refresh
  timer.
