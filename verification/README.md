# guise

The style core of the guise UI layer: style attributes read from XML
attributes and written back, the layout style they compute, CSS-like values
(lengths, rectangles, colors, grid placements), selectors, asset paths, and
the expression grammar of style sheets. Every function of `src/` carries a
contract; Verus proves each of them except four small trusted wrappers
(`push_char` over `String::push`, `captures` over `regex`, and
`write_empty_element` and `read_tag_attributes` over `quick_xml`), whose
contracts are taken as given.

Numbers stay the text they were read from; turning them into floats is left
to the renderer.

Layout:

- `src/text.rs`, `src/number.rs`: characters, whitespace, words, integers and
  float syntax.
- `src/values.rs`, `src/pattern.rs`: lengths, rectangles, colors and grid
  placements; the regular expressions (through `regex`) that read them.
- `src/keywords.rs`: keyword-valued layout properties.
- `src/attr.rs`, `src/attr_laws.rs`: style attributes and their laws.
- `src/style_attr.rs`: style attributes whose values are style-sheet
  expressions, applied where the expression stands for a value.
- `src/update.rs`, `src/reconcile.rs`: the decisions of a style update and of
  reconciling a view with its template, for the engine to carry out.
- `src/style.rs`, `src/partial.rs`, `src/xml.rs`: computed styles, partial
  styles and their XML element (through `quick_xml`).
- `src/selector.rs`, `src/selector_laws.rs`, `src/selectors_map.rs`:
  selectors.
- `src/untyped.rs`, `src/untyped_laws.rs`, `src/style_expr.rs`,
  `src/vars_map.rs`: style expressions and variables.
- `src/asset_path.rs`, `src/render_output.rs`, `src/template.rs`,
  `src/instancing.rs`, `src/error.rs`, `src/coerce.rs`: the rest.
- `app/main.rs`: a command-line tool that reads style elements from an XML
  file, or the variables of a JSON style sheet.
