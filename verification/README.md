# iced_component

Extra components for `iced`: a right-click context menu, a text input with a
Cut / Copy / Paste / Select All menu, selectable text, and a scrollable that
animates wheel scrolling the way Firefox does.

## Layout

- `src/` is the verified library: what each component decides when an event
  reaches it, with its contract and the laws it keeps.
  - `context_menu`: the menu state, its entries, how an open menu answers
    events (hover, choose, dismiss), the cursor and look of its entries, and
    when a right-click opens it.
  - `text_input`: the four entries of a text input's menu, when each can be
    chosen, how a right-click opens the menu, and the shortcut a chosen entry
    replays.
  - `selectable_text`: focus, dragging, keyboard shortcuts and the menu of a
    piece of selectable text.
  - `smooth_scrollable`: which events a smooth scrollable takes over, how a
    wheel event is shared with a nested scrollable, and the search for one.
  - `keyboard`: the command modifier, asked of `iced_core`.
- `app/` holds the `iced` widgets themselves: the geometry, the drawing, the
  animation physics (all floating point) and the widget traits. It turns
  `iced` events into the library's events and carries out its answers.
- `tests/` exercises the library on concrete values.
