//! The domain data: a candidate product tile as the library reads it,
//! and the sale record extracted from a surviving tile.

use vstd::prelude::*;

verus! {

/// Mathematical model of a candidate tile: its concatenated descendant
/// text and, for each field role, the text of the first matching
/// descendant element, if any.
pub struct TileModel {
    pub text: Seq<char>,
    pub title: Option<Seq<char>>,
    pub promo: Option<Seq<char>>,
    pub original: Option<Seq<char>>,
}

/// Mathematical model of a sale record: three trimmed text fields.
pub struct ItemModel {
    pub name: Seq<char>,
    pub price: Seq<char>,
    pub original_price: Seq<char>,
}

/// A candidate product tile, projected to the text the extraction
/// reads: the concatenated descendant text, and the text of the first
/// element matching each of the three field roles, where present.
pub struct Tile {
    pub text: String,
    pub title: Option<String>,
    pub promo_price: Option<String>,
    pub original_price: Option<String>,
}

impl View for Tile {
    type V = TileModel;

    open spec fn view(&self) -> TileModel {
        TileModel {
            text: self.text@,
            title: match self.title {
                Some(t) => Some(t@),
                None => None,
            },
            promo: match self.promo_price {
                Some(t) => Some(t@),
                None => None,
            },
            original: match self.original_price {
                Some(t) => Some(t@),
                None => None,
            },
        }
    }
}

/// A product on sale: the trimmed display texts of its title, its
/// promotional price and its pre-discount price.
pub struct SaleItem {
    pub name: String,
    pub price: String,
    pub original_price: String,
}

impl View for SaleItem {
    type V = ItemModel;

    open spec fn view(&self) -> ItemModel {
        ItemModel { name: self.name@, price: self.price@, original_price: self.original_price@ }
    }
}

/// The models of a sequence of tiles, in order.
pub open spec fn tiles_view(ts: Seq<Tile>) -> Seq<TileModel> {
    ts.map_values(|t: Tile| t@)
}

/// The models of a sequence of sale records, in order.
pub open spec fn items_view(items: Seq<SaleItem>) -> Seq<ItemModel> {
    items.map_values(|i: SaleItem| i@)
}

} // verus!
