use vstd::prelude::*;

verus! {

#[verifier::external_type_specification]
#[verifier::external_body]
pub struct ExSvgTree(resvg::usvg::Tree);

/// Whether a `width` by `height` RGBA pixmap can be allocated: both sides positive, a
/// row's bytes within `i32`, all bytes within `usize`.
pub open spec fn pixmap_fits(width: u32, height: u32) -> bool {
    &&& width > 0
    &&& height > 0
    &&& 4 * width <= i32::MAX
    &&& 4 * width * height <= usize::MAX
}

/// Whether `usvg::Tree::from_str` accepts SVG text under the default options: the text
/// is well-formed XML with an `svg` root, holds no more elements than usvg allows, and
/// gives the document a positive size. This depends on the text alone; the fonts only
/// change how text is drawn, never whether parsing succeeds.
pub uninterp spec fn usvg_accepts(svg: Seq<char>) -> bool;

/// Parses SVG text with the system fonts loaded, through `usvg::Tree::from_str`.
/// Stated: it succeeds exactly when usvg accepts the text. The tree itself is not
/// stated: how its text is laid out depends on the fonts installed.
#[verifier::external_body]
fn parse_svg_tree(svg: &str) -> (r: Result<resvg::usvg::Tree, String>)
    ensures
        r is Ok <==> usvg_accepts(svg@),
{
    let mut options = resvg::usvg::Options::default();
    options.fontdb_mut().load_system_fonts();
    resvg::usvg::Tree::from_str(svg, &options).map_err(|error| error.to_string())
}

/// Renders a parsed SVG into a new `width` by `height` pixmap with `resvg::render` and
/// returns its bytes. `tiny_skia::Pixmap::new` gives a pixmap exactly when
/// `pixmap_fits` holds, and its data is four bytes per pixel; the pixel values are not
/// stated.
#[verifier::external_body]
fn render_tree_rgba(tree: &resvg::usvg::Tree, width: u32, height: u32) -> (r: Option<Vec<u8>>)
    ensures
        r is Some <==> pixmap_fits(width, height),
        r matches Some(v) ==> v@.len() == 4 * width * height,
{
    let mut pixmap = resvg::tiny_skia::Pixmap::new(width, height)?;
    resvg::render(tree, resvg::tiny_skia::Transform::identity(), &mut pixmap.as_mut());
    Some(pixmap.data().to_vec())
}

/// Rasterises SVG text to `width` by `height` RGBA bytes: it succeeds exactly when usvg
/// accepts the text and the pixmap can be allocated, and reports an allocation failure
/// when only the pixmap is at fault.
pub fn rasterize_svg(width: u32, height: u32, svg: &str) -> (r: Result<Vec<u8>, String>)
    ensures
        r is Ok <==> usvg_accepts(svg@) && pixmap_fits(width, height),
        r matches Ok(v) ==> v@.len() == 4 * width * height,
        usvg_accepts(svg@) && !pixmap_fits(width, height) ==> r is Err && r->Err_0@ == "failed to allocate SVG pixmap"@,
{
    let tree = parse_svg_tree(svg)?;
    match render_tree_rgba(&tree, width, height) {
        Some(rgba) => Ok(rgba),
        None => Err(String::from_str("failed to allocate SVG pixmap")),
    }
}

} // verus!
