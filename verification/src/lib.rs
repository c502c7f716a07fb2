//! Extraction of sale records from rendered retail category pages.
//!
//! The library parses rendered HTML markup, selects candidate product
//! tiles, keeps the tiles whose case-folded text mentions a sale, and
//! extracts a trimmed name, promotional price and original price from
//! each surviving tile, in document order.

pub mod dom;
pub mod extract;
pub mod item;
pub mod text;

use vstd::prelude::*;

use crate::dom::{doc_tiles, markup_tiles, parse_markup, tiles_of_document};
use crate::extract::{extract_model, extract_sale_items};
use crate::item::{items_view, SaleItem, Tile};

verus! {

/// Extracts the sale records of a parsed document: the records of its
/// candidate tiles, in document order. It never fails; a document
/// without candidates yields the empty sequence.
pub fn extract_from_document(doc: &scraper::Html) -> (r: Vec<SaleItem>)
    ensures
        items_view(r@) == extract_model(doc_tiles(*doc)),
{
    let tiles = tiles_of_document(doc);
    extract_sale_items(&tiles)
}

/// Parses rendered markup and extracts its sale records: a function of
/// the markup text alone. It never fails; markup without candidates
/// yields the empty sequence.
pub fn scrape_markup(markup: &str) -> (r: Vec<SaleItem>)
    ensures
        items_view(r@) == extract_model(markup_tiles(markup@)),
{
    let doc = parse_markup(markup);
    extract_from_document(&doc)
}

} // verus!
