# anathema_widgets

Widgets, layout and text handling for a terminal user interface, written in Verus: the
library in `src/` is verified, every public function carrying a contract over a mathematical
model of its values.

## Layout of the crate

- `geometry`, `constraints`: sizes, positions and the constraints a widget sizes itself in.
- `layout`, `many`, `fill`, `stack`, `place`: the layouts. A layout whose children lay
  themselves out is written as steps (start, the constraints of the next child, what a child
  took, the final size) so that each decision is verified; the caller lays the children out
  between the steps.
- `text`, `width`: breaking strings into lines that fit a size, by display width.
- `border`, `paint`: border styles and the placement of glyphs on a surface.
- `table`, `attributes`, `lookup`: values and widget factories by name.
- `index`, `path`, `id`, `gen`, `filter`, `display`, `events`, `error`, `stringify`,
  `deferred`, `animation`: the rest of the widget tree's vocabulary.

`app/` holds what cannot be verified: the Huntington–Hill distribution of room between
expansions (it ranks by floating point quotients) and the loops that run the layout steps over
children.

`tests/` runs the library on concrete values.
