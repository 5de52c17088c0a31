# bevy_sdf_text

Signed-distance-field text for Bevy, with its integer and character logic verified by Verus.

- `src/` is the verified library: atlas grid and glyph placement (`grid`, `atlas`), font
  metrics read through `owned_ttf_parser` and the layout font parse (`font`), the outline
  parse for distance fields (`outline`), the encoding and decoding of the stored
  atlas image (`atlas_image`), glyph grouping and UTF-8 lookups of the layout (`layout`), mesh
  index buffers (`mesh`), the immediate-mode painter and text update bookkeeping (`painter`,
  `text_update`), and the decisions of the font writer tool (`writer`).
- `app/` is the Bevy integration around it: assets, materials, systems, the floating-point
  geometry, distance-field rendering with `msdfgen`, file I/O and the writer's command line.
  The materials load their fragment shaders from `assets/shaders/`.
- `tests/` exercises the library, including a hand-built TrueType font.
