//! The font asset as the renderer consumes it: per-character glyph metrics,
//! atlas size, nominal line height, and the handle of the atlas texture.

use crate::geometry::GlyphMetrics;
use crate::geometry::coord_in_range;
use crate::geometry::metric_wf;
use vstd::hash_map::HashMapWithView;
use vstd::prelude::*;

verus! {

broadcast use vstd::std_specs::hash::group_hash_axioms;

/// A font atlas description, borrowed read-only by every render call. The
/// renderer never mutates a font; hosts build one with [`Font::new`] and
/// [`Font::add_glyph`].
pub struct Font {
    /// Per-character layout and atlas data, keyed by byte-sized character code.
    pub glyphs: HashMapWithView<u8, GlyphMetrics>,
    /// Width and height of the backing atlas texture, in texels.
    pub atlas_dimensions: (u32, u32),
    /// Nominal line advance, in subunits.
    pub height: i128,
    /// Opaque handle of the GPU texture holding the atlas.
    pub texture_handle: u32,
    /// The path the font was loaded from, kept for diagnostics.
    pub file: String,
}

impl Font {
    /// A well-formed font: a non-degenerate atlas, a bounded line height, and
    /// well-formed metrics for every glyph it covers.
    pub open spec fn wf(self) -> bool {
        &&& self.atlas_dimensions.0 >= 1
        &&& self.atlas_dimensions.1 >= 1
        &&& coord_in_range(self.height)
        &&& forall|c: u8| self.glyphs@.contains_key(c) ==> metric_wf(#[trigger] self.glyphs@[c])
    }

    /// Creates a font with an empty glyph table.
    pub fn new(
        atlas_dimensions: (u32, u32),
        height: i128,
        texture_handle: u32,
        file: String,
    ) -> (font: Font)
        requires
            atlas_dimensions.0 >= 1,
            atlas_dimensions.1 >= 1,
            coord_in_range(height),
        ensures
            font.wf(),
            font.glyphs@ == Map::<u8, GlyphMetrics>::empty(),
            font.atlas_dimensions == atlas_dimensions,
            font.height == height,
            font.texture_handle == texture_handle,
            font.file == file,
    {
        Font { glyphs: HashMapWithView::new(), atlas_dimensions, height, texture_handle, file }
    }

    /// Records the metrics for one character code, replacing any previous
    /// entry for it.
    pub fn add_glyph(&mut self, code: u8, metrics: GlyphMetrics)
        requires
            old(self).wf(),
            metric_wf(metrics),
        ensures
            final(self).wf(),
            final(self).glyphs@ == old(self).glyphs@.insert(code, metrics),
            final(self).atlas_dimensions == old(self).atlas_dimensions,
            final(self).height == old(self).height,
            final(self).texture_handle == old(self).texture_handle,
            final(self).file == old(self).file,
    {
        self.glyphs.insert(code, metrics);
    }

    /// The number of characters the font covers.
    pub fn glyph_count(&self) -> (n: usize)
        ensures
            n == self.glyphs@.len(),
    {
        self.glyphs.len()
    }
}

} // verus!
