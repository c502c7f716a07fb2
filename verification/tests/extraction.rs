use sale_scraper::extract::extract_sale_items;
use sale_scraper::item::{SaleItem, Tile};
use sale_scraper::scrape_markup;

fn tile(text: &str, title: Option<&str>, promo: Option<&str>, original: Option<&str>) -> Tile {
    Tile {
        text: text.to_string(),
        title: title.map(|s| s.to_string()),
        promo_price: promo.map(|s| s.to_string()),
        original_price: original.map(|s| s.to_string()),
    }
}

fn fields(items: &[SaleItem]) -> Vec<(String, String, String)> {
    items
        .iter()
        .map(|i| (i.name.clone(), i.price.clone(), i.original_price.clone()))
        .collect()
}

#[test]
fn kept_tile_yields_trimmed_fields() {
    let tiles = vec![tile(
        "Now on SALE Chino Trousers £19.90 £29.90",
        Some("  Chino Trousers \n"),
        Some(" £19.90"),
        Some("£29.90\t"),
    )];
    let items = extract_sale_items(&tiles);
    assert_eq!(
        fields(&items),
        vec![(
            "Chino Trousers".to_string(),
            "£19.90".to_string(),
            "£29.90".to_string()
        )]
    );
}

#[test]
fn tile_without_sale_marker_is_dropped() {
    let tiles = vec![tile(
        "New arrival Chino Trousers £19.90",
        Some("Chino Trousers"),
        Some("£19.90"),
        Some("£29.90"),
    )];
    let items = extract_sale_items(&tiles);
    assert!(items.is_empty());
}

#[test]
fn mixed_case_sale_marker_is_found() {
    let tiles = vec![tile(
        "SaLe of the day",
        Some("Joggers"),
        Some("£9.90"),
        Some("£14.90"),
    )];
    let items = extract_sale_items(&tiles);
    assert_eq!(items.len(), 1);
}

#[test]
fn tile_missing_title_is_dropped() {
    let tiles = vec![tile("sale", None, Some("£9.90"), Some("£14.90"))];
    assert!(extract_sale_items(&tiles).is_empty());
}

#[test]
fn tile_missing_promotional_price_is_dropped() {
    let tiles = vec![tile("sale", Some("Joggers"), None, Some("£14.90"))];
    assert!(extract_sale_items(&tiles).is_empty());
}

#[test]
fn tile_missing_original_price_is_dropped() {
    let tiles = vec![tile("sale", Some("Joggers"), Some("£9.90"), None)];
    assert!(extract_sale_items(&tiles).is_empty());
}

#[test]
fn tile_with_blank_title_is_dropped() {
    let tiles = vec![tile("sale", Some("  \t\n"), Some("£9.90"), Some("£14.90"))];
    assert!(extract_sale_items(&tiles).is_empty());
}

#[test]
fn tile_with_blank_promotional_price_is_dropped() {
    let tiles = vec![tile("sale", Some("Joggers"), Some("   "), Some("£14.90"))];
    assert!(extract_sale_items(&tiles).is_empty());
}

#[test]
fn tile_with_blank_original_price_is_dropped() {
    let tiles = vec![tile("sale", Some("Joggers"), Some("£9.90"), Some(" \u{a0} "))];
    assert!(extract_sale_items(&tiles).is_empty());
}

#[test]
fn no_candidates_yield_no_records() {
    let tiles: Vec<Tile> = Vec::new();
    assert!(extract_sale_items(&tiles).is_empty());
}

#[test]
fn surviving_tiles_keep_their_order() {
    let tiles = vec![
        tile("sale one", Some("First"), Some("£1"), Some("£2")),
        tile("nothing here", Some("Skipped"), Some("£3"), Some("£4")),
        tile("sale two", Some("Second"), Some("£5"), Some("£6")),
        tile("sale but bare", None, None, None),
        tile("sale three", Some("Third"), Some("£7"), Some("£8")),
    ];
    let items = extract_sale_items(&tiles);
    let names: Vec<String> = items.iter().map(|i| i.name.clone()).collect();
    assert_eq!(names, vec!["First", "Second", "Third"]);
}

#[test]
fn repeated_extraction_is_identical() {
    let tiles = vec![
        tile("sale one", Some(" First "), Some("£1"), Some("£2")),
        tile("no marker", Some("Skipped"), Some("£3"), Some("£4")),
    ];
    let first = extract_sale_items(&tiles);
    let second = extract_sale_items(&tiles);
    assert_eq!(fields(&first), fields(&second));
}

#[test]
fn identical_tiles_yield_two_equal_records() {
    let t = tile("sale", Some("Twin"), Some("£5"), Some("£9"));
    let tiles = vec![
        tile("sale", Some("Twin"), Some("£5"), Some("£9")),
        t,
    ];
    let items = extract_sale_items(&tiles);
    assert_eq!(items.len(), 2);
    assert_eq!(fields(&items)[0], fields(&items)[1]);
}

#[test]
fn scenario_single_sale_candidate() {
    let markup = "<html><body>\
        <div class=\"fr-ec-product-tile-resize-wrapper\">\
        <span>Now on SALE</span>\
        <h3 data-testid=\"CoreTitle\">Chino Trousers</h3>\
        <span class=\"fr-ec-price-text--color-promotional\">£19.90</span>\
        <span class=\"fr-ec-price__original-price\">£29.90</span>\
        </div></body></html>";
    let items = scrape_markup(markup);
    assert_eq!(
        fields(&items),
        vec![(
            "Chino Trousers".to_string(),
            "£19.90".to_string(),
            "£29.90".to_string()
        )]
    );
}

#[test]
fn scenario_candidate_without_sale_substring() {
    let markup = "<html><body>\
        <div class=\"fr-ec-product-tile-resize-wrapper\">\
        <span>New arrival</span>\
        <h3 data-testid=\"CoreTitle\">Chino Trousers</h3>\
        <span class=\"fr-ec-price-text--color-promotional\">£19.90</span>\
        <span class=\"fr-ec-price__original-price\">£29.90</span>\
        </div></body></html>";
    let items = scrape_markup(markup);
    assert!(items.is_empty());
}

#[test]
fn scenario_candidate_missing_original_price() {
    let markup = "<html><body>\
        <div class=\"fr-ec-product-tile-resize-wrapper\">\
        <span>Now on SALE</span>\
        <h3 data-testid=\"CoreTitle\">Chino Trousers</h3>\
        <span class=\"fr-ec-price-text--color-promotional\">£19.90</span>\
        </div></body></html>";
    let items = scrape_markup(markup);
    assert!(items.is_empty());
}

#[test]
fn scenario_empty_document() {
    let markup = "<html><body><p>Nothing for sale here</p></body></html>";
    let items = scrape_markup(markup);
    assert!(items.is_empty());
}

#[test]
fn markup_whitespace_around_fields_is_trimmed() {
    let markup = "<html><body>\
        <div class=\"fr-ec-product-tile-resize-wrapper\">\
        <span>sale</span>\
        <h3 data-testid=\"CoreTitle\">  Wide Trousers  </h3>\
        <span class=\"fr-ec-price-text--color-promotional\">\n£12.90 </span>\
        <span class=\"fr-ec-price__original-price\"> £24.90\t</span>\
        </div></body></html>";
    let items = scrape_markup(markup);
    assert_eq!(
        fields(&items),
        vec![(
            "Wide Trousers".to_string(),
            "£12.90".to_string(),
            "£24.90".to_string()
        )]
    );
}

#[test]
fn first_matching_element_wins_per_role() {
    let markup = "<html><body>\
        <div class=\"fr-ec-product-tile-resize-wrapper\">\
        <span>sale</span>\
        <h3 data-testid=\"CoreTitle\">First Title</h3>\
        <h3 data-testid=\"CoreTitle\">Second Title</h3>\
        <span class=\"fr-ec-price-text--color-promotional\">£1.00</span>\
        <span class=\"fr-ec-price-text--color-promotional\">£2.00</span>\
        <span class=\"fr-ec-price__original-price\">£3.00</span>\
        <span class=\"fr-ec-price__original-price\">£4.00</span>\
        </div></body></html>";
    let items = scrape_markup(markup);
    assert_eq!(
        fields(&items),
        vec![(
            "First Title".to_string(),
            "£1.00".to_string(),
            "£3.00".to_string()
        )]
    );
}

#[test]
fn markup_whitespace_only_title_yields_no_record() {
    let markup = "<html><body>\
        <div class=\"fr-ec-product-tile-resize-wrapper\">\
        <span>sale</span>\
        <h3 data-testid=\"CoreTitle\">   </h3>\
        <span class=\"fr-ec-price-text--color-promotional\">£12.90</span>\
        <span class=\"fr-ec-price__original-price\">£24.90</span>\
        </div></body></html>";
    let items = scrape_markup(markup);
    assert!(items.is_empty());
}

#[test]
fn markup_document_order_is_kept() {
    let markup = "<html><body>\
        <div class=\"fr-ec-product-tile-resize-wrapper\">\
        <span>sale</span>\
        <h3 data-testid=\"CoreTitle\">Alpha</h3>\
        <span class=\"fr-ec-price-text--color-promotional\">£1</span>\
        <span class=\"fr-ec-price__original-price\">£2</span>\
        </div>\
        <div class=\"fr-ec-product-tile-resize-wrapper\">\
        <span>full price</span>\
        <h3 data-testid=\"CoreTitle\">Beta</h3>\
        <span class=\"fr-ec-price-text--color-promotional\">£3</span>\
        <span class=\"fr-ec-price__original-price\">£4</span>\
        </div>\
        <div class=\"fr-ec-product-tile-resize-wrapper\">\
        <span>sale</span>\
        <h3 data-testid=\"CoreTitle\">Gamma</h3>\
        <span class=\"fr-ec-price-text--color-promotional\">£5</span>\
        <span class=\"fr-ec-price__original-price\">£6</span>\
        </div></body></html>";
    let items = scrape_markup(markup);
    let names: Vec<String> = items.iter().map(|i| i.name.clone()).collect();
    assert_eq!(names, vec!["Alpha", "Gamma"]);
}

#[test]
fn repeated_scrape_of_same_markup_is_identical() {
    let markup = "<html><body>\
        <div class=\"fr-ec-product-tile-resize-wrapper\">\
        <span>sale</span>\
        <h3 data-testid=\"CoreTitle\">Alpha</h3>\
        <span class=\"fr-ec-price-text--color-promotional\">£1</span>\
        <span class=\"fr-ec-price__original-price\">£2</span>\
        </div></body></html>";
    let first = scrape_markup(markup);
    let second = scrape_markup(markup);
    assert_eq!(fields(&first), fields(&second));
}
