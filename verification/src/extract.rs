//! The sale extraction procedure: keep the candidate tiles whose
//! case-folded text mentions a sale and have all three fields, and
//! build a trimmed sale record from each, in document order.

use vstd::prelude::*;

use crate::item::{items_view, tiles_view, ItemModel, SaleItem, Tile, TileModel};
use crate::text::{contains_seq, contains_str, lower_of, to_lower, trim_of, trim_str};

verus! {

/// The marker looked for in a tile's case-folded text.
pub open spec fn sale_marker() -> Seq<char> {
    "sale"@
}

/// A tile advertises a sale when its case-folded descendant text
/// contains the sale marker.
pub open spec fn tile_on_sale(t: TileModel) -> bool {
    contains_seq(lower_of(t.text), sale_marker())
}

/// A tile is complete when all three field roles matched an element.
pub open spec fn tile_complete(t: TileModel) -> bool {
    t.title is Some && t.promo is Some && t.original is Some
}

/// A complete tile has substance when each of its three field texts is
/// non-empty after trimming: a field of whitespace alone is as good as
/// a missing one, and yields no record.
pub open spec fn tile_fields_nonempty(t: TileModel) -> bool
    recommends
        tile_complete(t),
{
    trim_of(t.title->0).len() > 0 && trim_of(t.promo->0).len() > 0 && trim_of(t.original->0).len()
        > 0
}

/// A tile survives extraction when it advertises a sale, is complete,
/// and none of its trimmed fields is empty.
pub open spec fn tile_kept(t: TileModel) -> bool {
    tile_on_sale(t) && tile_complete(t) && tile_fields_nonempty(t)
}

/// The sale record a complete tile yields: each field trimmed.
pub open spec fn item_of(t: TileModel) -> ItemModel
    recommends
        tile_complete(t),
{
    ItemModel {
        name: trim_of(t.title->0),
        price: trim_of(t.promo->0),
        original_price: trim_of(t.original->0),
    }
}

/// The records extracted from a sequence of candidate tiles: one per
/// surviving tile, in the tiles' order.
pub open spec fn extract_model(ts: Seq<TileModel>) -> Seq<ItemModel>
    decreases ts.len(),
{
    if ts.len() == 0 {
        Seq::empty()
    } else {
        let rest = extract_model(ts.drop_last());
        if tile_kept(ts.last()) {
            rest.push(item_of(ts.last()))
        } else {
            rest
        }
    }
}

/// Extracts the sale records from the candidate tiles: a tile is kept
/// exactly when its case-folded text contains the sale marker, all
/// three fields are present, and none of them trims to the empty text;
/// each kept tile yields its trimmed fields; document order is
/// preserved; no candidates yield no records.
pub fn extract_sale_items(tiles: &Vec<Tile>) -> (r: Vec<SaleItem>)
    ensures
        items_view(r@) == extract_model(tiles_view(tiles@)),
        tiles@.len() == 0 ==> r@.len() == 0,
{
    let ghost tms = tiles_view(tiles@);
    let mut out: Vec<SaleItem> = Vec::new();
    let mut idx: usize = 0;
    while idx < tiles.len()
        invariant
            idx <= tiles@.len(),
            tms == tiles_view(tiles@),
            items_view(out@) == extract_model(tms.take(idx as int)),
        decreases tiles@.len() - idx,
    {
        proof {
            assert(tms.take(idx as int + 1).drop_last() =~= tms.take(idx as int));
            assert(tms.take(idx as int + 1).last() == tiles@[idx as int]@);
        }
        let tile = &tiles[idx];
        let lowered = to_lower(tile.text.as_str());
        let on_sale = contains_str(lowered.as_str(), "sale");
        if on_sale {
            match (&tile.title, &tile.promo_price, &tile.original_price) {
                (Some(t), Some(p), Some(o)) => {
                    let name = trim_str(t.as_str());
                    let price = trim_str(p.as_str());
                    let original_price = trim_str(o.as_str());
                    if !name.as_str().is_empty() && !price.as_str().is_empty()
                        && !original_price.as_str().is_empty() {
                        let item = SaleItem { name, price, original_price };
                        let ghost prev = out@;
                        proof {
                            assert(item@ == item_of(tiles@[idx as int]@));
                        }
                        out.push(item);
                        proof {
                            assert(items_view(out@) =~= items_view(prev).push(item@));
                        }
                    }
                }
                _ => {},
            }
        }
        idx += 1;
    }
    proof {
        assert(tms.take(tiles@.len() as int) =~= tms);
    }
    out
}

proof fn lemma_not_kept_excluded(ts: Seq<TileModel>, i: int)
    requires
        0 <= i < ts.len(),
        !tile_kept(ts[i]),
    ensures
        extract_model(ts) == extract_model(ts.remove(i)),
    decreases ts.len(),
{
    if i == ts.len() - 1 {
        assert(ts.remove(i) =~= ts.drop_last());
    } else {
        let t = ts.drop_last();
        lemma_not_kept_excluded(t, i);
        assert(ts.remove(i).drop_last() =~= t.remove(i));
        assert(ts.remove(i).last() == ts.last());
    }
}

/// A candidate whose case-folded text does not contain the sale marker
/// is excluded: removing it from the candidates leaves the extracted
/// records unchanged, whether or not its fields are complete.
pub proof fn lemma_unmarked_tile_excluded(ts: Seq<TileModel>, i: int)
    requires
        0 <= i < ts.len(),
        !tile_on_sale(ts[i]),
    ensures
        extract_model(ts) == extract_model(ts.remove(i)),
{
    lemma_not_kept_excluded(ts, i);
}

/// A candidate missing the title, the promotional price or the original
/// price is excluded entirely: no partial record is produced, and
/// removing the candidate leaves the extracted records unchanged.
pub proof fn lemma_incomplete_tile_excluded(ts: Seq<TileModel>, i: int)
    requires
        0 <= i < ts.len(),
        !tile_complete(ts[i]),
    ensures
        extract_model(ts) == extract_model(ts.remove(i)),
{
    lemma_not_kept_excluded(ts, i);
}

/// A candidate with a field element whose text trims to the empty text
/// is excluded entirely: no record with an empty field is produced, and
/// removing the candidate leaves the extracted records unchanged.
pub proof fn lemma_blank_field_tile_excluded(ts: Seq<TileModel>, i: int)
    requires
        0 <= i < ts.len(),
        !tile_fields_nonempty(ts[i]),
    ensures
        extract_model(ts) == extract_model(ts.remove(i)),
{
    lemma_not_kept_excluded(ts, i);
}

/// Every extracted record has all three fields non-empty after
/// trimming: partial or blank records are never produced.
pub proof fn lemma_record_fields_nonempty(ts: Seq<TileModel>, i: int)
    requires
        0 <= i < extract_model(ts).len(),
    ensures
        extract_model(ts)[i].name.len() > 0,
        extract_model(ts)[i].price.len() > 0,
        extract_model(ts)[i].original_price.len() > 0,
    decreases ts.len(),
{
    let rest = extract_model(ts.drop_last());
    if tile_kept(ts.last()) && i == rest.len() {
        assert(extract_model(ts)[i] == item_of(ts.last()));
    } else {
        lemma_record_fields_nonempty(ts.drop_last(), i);
    }
}

/// The extracted records are exactly the records of the kept
/// candidates, in their original order: extraction is the filter of
/// the candidates by survival, mapped to their records.
pub proof fn lemma_extraction_is_filtered_map(ts: Seq<TileModel>)
    ensures
        extract_model(ts) == ts.filter(|t: TileModel| tile_kept(t)).map_values(
            |t: TileModel| item_of(t),
        ),
    decreases ts.len(),
{
    reveal(Seq::filter);
    if ts.len() == 0 {
        assert(ts.filter(|t: TileModel| tile_kept(t)).map_values(|t: TileModel| item_of(t))
            =~= Seq::<ItemModel>::empty());
    } else {
        lemma_extraction_is_filtered_map(ts.drop_last());
        let f = ts.drop_last().filter(|t: TileModel| tile_kept(t));
        if tile_kept(ts.last()) {
            assert(f.push(ts.last()).map_values(|t: TileModel| item_of(t)) =~= f.map_values(
                |t: TileModel| item_of(t),
            ).push(item_of(ts.last())));
        }
    }
}

/// Extraction is a pure function of the candidate tiles: two runs over
/// the same tiles yield the same records.
pub proof fn lemma_extraction_deterministic(
    ts: Seq<TileModel>,
    a: Seq<ItemModel>,
    b: Seq<ItemModel>,
)
    requires
        a == extract_model(ts),
        b == extract_model(ts),
    ensures
        a == b,
{
}

} // verus!
