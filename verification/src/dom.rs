//! The parsed-document side: trusted declarations for the markup
//! parser, the fixed selector patterns, and the verified collection of
//! candidate tiles from a parsed document.

use vstd::prelude::*;

use crate::item::{tiles_view, Tile, TileModel};

verus! {

#[verifier::external_type_specification]
#[verifier::external_body]
pub struct ExHtml(scraper::Html);

#[verifier::external_type_specification]
#[verifier::external_body]
pub struct ExSelector(scraper::Selector);

/// The pattern a compiled selector holds: the selector text it was
/// compiled from.
pub uninterp spec fn sel_pattern(s: scraper::Selector) -> Seq<char>;

/// The candidate tiles a parsed document holds: for each element the
/// product-tile pattern matches, in document order, its concatenated
/// descendant text and the text of the first descendant matched by
/// each of the three field patterns.
pub uninterp spec fn doc_tiles(d: scraper::Html) -> Seq<TileModel>;

/// The candidate tiles of the document that a markup text parses to:
/// parsing and selection depend on the markup text alone.
pub uninterp spec fn markup_tiles(m: Seq<char>) -> Seq<TileModel>;

/// The pattern matching a product tile's wrapper element.
pub open spec fn tile_pattern() -> Seq<char> {
    ".fr-ec-product-tile-resize-wrapper"@
}

/// The pattern matching the title element of a tile.
pub open spec fn title_pattern() -> Seq<char> {
    "[data-testid='CoreTitle']"@
}

/// The pattern matching the promotional-price element of a tile.
pub open spec fn promo_pattern() -> Seq<char> {
    ".fr-ec-price-text--color-promotional"@
}

/// The pattern matching the original-price element of a tile.
pub open spec fn original_pattern() -> Seq<char> {
    ".fr-ec-price__original-price"@
}

/// The product-tile selector text.
pub fn tile_selector() -> (r: &'static str)
    ensures
        r@ == tile_pattern(),
{
    ".fr-ec-product-tile-resize-wrapper"
}

/// The title selector text.
pub fn title_selector() -> (r: &'static str)
    ensures
        r@ == title_pattern(),
{
    "[data-testid='CoreTitle']"
}

/// The promotional-price selector text.
pub fn promo_selector() -> (r: &'static str)
    ensures
        r@ == promo_pattern(),
{
    ".fr-ec-price-text--color-promotional"
}

/// The original-price selector text.
pub fn original_selector() -> (r: &'static str)
    ensures
        r@ == original_pattern(),
{
    ".fr-ec-price__original-price"
}

/// Relies on scraper::Selector::parse: compiling a selector depends on
/// the pattern text alone; a malformed pattern yields no selector, and
/// each of the four fixed patterns is well-formed CSS and compiles.
#[verifier::external_body]
fn parse_selector(pattern: &str) -> (r: Option<scraper::Selector>)
    ensures
        r matches Some(s) ==> sel_pattern(s) == pattern@,
        (pattern@ == tile_pattern() || pattern@ == title_pattern() || pattern@ == promo_pattern()
            || pattern@ == original_pattern()) ==> r is Some,
{
    scraper::Selector::parse(pattern).ok()
}

/// Relies on scraper::Html::parse_document: parsing never fails and
/// depends on the markup text alone.
#[verifier::external_body]
pub fn parse_markup(markup: &str) -> (r: scraper::Html)
    ensures
        doc_tiles(r) == markup_tiles(markup@),
{
    scraper::Html::parse_document(markup)
}

/// Relies on scraper::Html::select, scraper::ElementRef::select and
/// scraper::ElementRef::text: selection yields the matching elements in
/// document order, and text concatenates the descendant text nodes in
/// tree order.
#[verifier::external_body]
fn select_tiles(
    doc: &scraper::Html,
    tile: &scraper::Selector,
    title: &scraper::Selector,
    promo: &scraper::Selector,
    original: &scraper::Selector,
) -> (r: Vec<Tile>)
    ensures
        sel_pattern(*tile) == tile_pattern() && sel_pattern(*title) == title_pattern()
            && sel_pattern(*promo) == promo_pattern() && sel_pattern(*original)
            == original_pattern() ==> tiles_view(r@) == doc_tiles(*doc),
{
    doc.select(tile)
        .map(|e| Tile {
            text: e.text().collect(),
            title: e.select(title).next().map(|m| m.text().collect()),
            promo_price: e.select(promo).next().map(|m| m.text().collect()),
            original_price: e.select(original).next().map(|m| m.text().collect()),
        })
        .collect()
}

/// Collects the candidate tiles of a parsed document under the fixed
/// selectors; it never fails, since the fixed selector texts compile.
pub fn tiles_of_document(doc: &scraper::Html) -> (r: Vec<Tile>)
    ensures
        tiles_view(r@) == doc_tiles(*doc),
{
    let tile = parse_selector(tile_selector()).unwrap();
    let title = parse_selector(title_selector()).unwrap();
    let promo = parse_selector(promo_selector()).unwrap();
    let original = parse_selector(original_selector()).unwrap();
    select_tiles(doc, &tile, &title, &promo, &original)
}

} // verus!
