# dioxus-virtual-scroll

Virtual scrolling grid for Dioxus: only the visible rows plus a buffer are
rendered, and two spacer elements keep the scroll height of the whole grid.

- `src/` is the verified library (Verus):
  - `layout`: from the viewport quantized into whole rows and columns, which
    rows and item indices are rendered and how many rows each spacer stands
    for, with the laws that the rendered items are exactly those near the
    viewport, that the spacers keep the scroll height, and that scrolling down
    never moves the window up;
  - `throttle`: the decision state that keeps at most one scroll-position read
    in flight;
  - `target`: the two scroll targets and the classes of the grid's container.
- `app/` is the Dioxus component around it: DOM measurement, event listeners,
  the floating-point pixel geometry and the rendering.
- `tests/` exercises the library on concrete values.
