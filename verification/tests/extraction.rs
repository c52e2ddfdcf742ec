use price_tracker::amazon_parser::{self, AmazonSelections};
use price_tracker::extract::{
    first_text, first_trimmed_or_not_found, first_trimmed_text, put_entry, put_group,
    rewrite_sources, trim_and_drop_empty, ExtractError,
};
use price_tracker::flipkart_parser::{self, FlipkartSelections};
use price_tracker::models::{ProductDetails, SpecEntry, SpecGroup, Specifications};
use price_tracker::price_engine::{
    extract, finish_update, plan, plan_update, restart_summary, site, Site, UpdateError,
};
use price_tracker::status::ServiceStatus;
use price_tracker::text::same_text;

const AMAZON_URL: &str = "https://www.amazon.in/Widget-Pro/dp/B0ABCDEFGH/ref=sr_1_1";
const FLIPKART_URL: &str = "https://www.flipkart.com/gadget/p/itmd43b65174ffcf?pid=MOBXYZ123";

fn texts(items: &[&str]) -> Vec<String> {
    items.iter().map(|item| item.to_string()).collect()
}

fn entry(key: &str, value: &str) -> SpecEntry {
    SpecEntry { key: key.to_string(), value: value.to_string() }
}

fn amazon_page() -> String {
    let mut page = String::new();
    page.push_str("<html><head><title>t</title></head><body>");
    page.push_str("<span id=\"productTitle\">  Widget Pro\n </span>");
    page.push_str("<span class=\"a-price-whole\">1,299.</span>");
    page.push_str("<span class=\"a-price-whole\">999.</span>");
    page.push_str("<i class=\"a-icon-star\"><span class=\"a-icon-alt\">4.5 out of 5 stars</span></i>");
    page.push_str("<span id=\"acrCustomerReviewText\"> 1,234 ratings </span>");
    page.push_str("<div id=\"feature-bullets\"><ul>");
    page.push_str("<li><span class=\"a-list-item\"> Fast </span></li>");
    page.push_str("<li><span class=\"a-list-item\">   </span></li>");
    page.push_str("<li><span class=\"a-list-item\">Light</span></li>");
    page.push_str("</ul></div>");
    page.push_str("<table id=\"productDetails_techSpec_section_1\">");
    page.push_str("<tr><th> Brand </th><td> \u{200e}Acme </td></tr>");
    page.push_str("<tr><th>Colour</th><td>Red</td></tr>");
    page.push_str("<tr><td>orphan</td></tr>");
    page.push_str("<tr><th>Brand</th><td>Acme Two</td></tr>");
    page.push_str("<tr><th>Weight</th></tr>");
    page.push_str("</table>");
    page.push_str("<div id=\"availability\"><span class=\"a-color-success\"> In Stock </span></div>");
    page.push_str("<a id=\"sellerProfileTriggerId\"> Acme Retail </a>");
    page.push_str("<ul><li class=\"item imageThumbnail\"><img src=\"https://img/I/abc._SS40_.jpg\"></li>");
    page.push_str("<li class=\"item imageThumbnail\"><img alt=\"no source\"></li>");
    page.push_str("<li class=\"item imageThumbnail\"><img src=\"https://img/I/def.jpg\"></li></ul>");
    page.push_str("</body></html>");
    page
}

fn flipkart_page() -> String {
    let mut page = String::new();
    page.push_str("<html><body>");
    page.push_str("<span class=\"VU-ZEz\"> Gadget </span>");
    page.push_str("<div class=\"Nx9bqj\"> \u{20b9}12,499 </div>");
    page.push_str("<div class=\"XQDdHH\">4.3</div><span class=\"Wphh3N\">2,000 Ratings</span>");
    page.push_str("<ul><li class=\"_7eSDEz\">8 GB RAM</li><li class=\"_7eSDEz\"> 128 GB </li></ul>");
    page.push_str("<div class=\"GNDEQ-\"><div class=\"_4BJ2V+\">General</div><table>");
    page.push_str("<tr class=\"WJdYP6\"><td class=\"+fFi1w\">Model</td><td class=\"Izz52n\"><ul><li>G1</li><li>G1b</li></ul></td></tr>");
    page.push_str("<tr class=\"WJdYP6\"><td class=\"+fFi1w\">NoValue</td></tr>");
    page.push_str("<tr class=\"WJdYP6\"><td class=\"+fFi1w\">Year</td><td class=\"Izz52n\"><ul><li>2024</li></ul></td></tr>");
    page.push_str("</table></div>");
    page.push_str("<div class=\"GNDEQ-\"><table>");
    page.push_str("<tr class=\"WJdYP6\"><td class=\"+fFi1w\">Hidden</td><td class=\"Izz52n\"><ul><li>X</li></ul></td></tr>");
    page.push_str("</table></div>");
    page.push_str("<div class=\"GNDEQ-\"><div class=\"_4BJ2V+\">Display</div><table>");
    page.push_str("<tr class=\"WJdYP6\"><td class=\"+fFi1w\">Size</td><td class=\"Izz52n\"><ul><li>6.1 inch</li></ul></td></tr>");
    page.push_str("</table></div>");
    page.push_str("<div id=\"sellerName\"><span><span>BestSeller</span></span></div>");
    page.push_str("<ul><li class=\"YGoYIP\"><img src=\"https://img/128/128/a.jpg\"></li></ul>");
    page.push_str("</body></html>");
    page
}

#[test]
fn amazon_page_is_read() {
    let details = amazon_parser::extract_details(&amazon_page(), AMAZON_URL).unwrap();
    assert_eq!(
        details,
        ProductDetails {
            id: "B0ABCDEFGH".to_string(),
            site: "Amazon".to_string(),
            url: "".to_string(),
            title: "Widget Pro".to_string(),
            price: Some(1299),
            rating: "4.5 out of 5 stars (1,234 ratings)".to_string(),
            features: texts(&["Fast", "Light"]),
            specifications: Specifications::Flat(vec![
                entry("Brand", "Acme Two"),
                entry("Colour", "Red"),
                entry("Weight", "Not Found"),
            ]),
            in_stock: true,
            seller: Some("Acme Retail".to_string()),
            images: texts(&["https://img/I/abc._SL1500_.jpg", "https://img/I/def.jpg"]),
        }
    );
}

#[test]
fn amazon_page_without_anything_gives_placeholders() {
    let details =
        amazon_parser::extract_details("<html><body><p>nothing</p></body></html>", "https://www.amazon.in/")
            .unwrap();
    assert_eq!(
        details,
        ProductDetails {
            id: "ID Not Found".to_string(),
            site: "Amazon".to_string(),
            url: "".to_string(),
            title: "Not Found".to_string(),
            price: None,
            rating: "Not Found".to_string(),
            features: vec![],
            specifications: Specifications::Flat(vec![]),
            in_stock: false,
            seller: None,
            images: vec![],
        }
    );
}

#[test]
fn amazon_id_needs_ten_capitals_or_digits() {
    let page = "<html></html>";
    let short = amazon_parser::extract_details(page, "https://www.amazon.in/dp/B0ABC").unwrap();
    assert_eq!(short.id, "ID Not Found");
    let lower = amazon_parser::extract_details(page, "https://www.amazon.in/dp/b0abcdefgh").unwrap();
    assert_eq!(lower.id, "ID Not Found");
    let long = amazon_parser::extract_details(page, "https://www.amazon.in/dp/B0ABCDEFGHIJK").unwrap();
    assert_eq!(long.id, "B0ABCDEFGH");
}

#[test]
fn amazon_selections_hold_the_raw_texts() {
    let selections = amazon_parser::select(&amazon_page(), AMAZON_URL).unwrap();
    assert_eq!(selections.product_id, Some("B0ABCDEFGH".to_string()));
    assert_eq!(selections.titles, texts(&["  Widget Pro\n "]));
    assert_eq!(selections.prices, texts(&["1,299.", "999."]));
    assert_eq!(selections.availability, Some("in stock".to_string()));
    assert_eq!(selections.specification_keys.len(), 5);
    assert_eq!(selections.specification_keys[2], Vec::<String>::new());
    assert_eq!(selections.specification_values[4], Vec::<String>::new());
    assert_eq!(
        selections.image_sources,
        vec![
            Some("https://img/I/abc._SS40_.jpg".to_string()),
            None,
            Some("https://img/I/def.jpg".to_string())
        ]
    );
}

fn amazon_selections() -> AmazonSelections {
    AmazonSelections {
        product_id: None,
        titles: vec![],
        prices: vec![],
        rating_texts: vec![],
        rating_counts: vec![],
        features: vec![],
        specification_keys: vec![],
        specification_values: vec![],
        availability: None,
        sellers: vec![],
        image_sources: vec![],
    }
}

#[test]
fn amazon_price_is_the_whole_part() {
    let mut selections = amazon_selections();
    selections.prices = texts(&["12,34,567.89"]);
    assert_eq!(amazon_parser::assemble(&selections).price, Some(1234567));
    selections.prices = texts(&["-45"]);
    assert_eq!(amazon_parser::assemble(&selections).price, Some(-45));
    selections.prices = texts(&["+7.5.1"]);
    assert_eq!(amazon_parser::assemble(&selections).price, Some(7));
    selections.prices = texts(&[" 12"]);
    assert_eq!(amazon_parser::assemble(&selections).price, None);
    selections.prices = texts(&[".5"]);
    assert_eq!(amazon_parser::assemble(&selections).price, None);
    selections.prices = texts(&["2,147,483,647"]);
    assert_eq!(amazon_parser::assemble(&selections).price, Some(i32::MAX));
    selections.prices = texts(&["2,147,483,648"]);
    assert_eq!(amazon_parser::assemble(&selections).price, None);
    selections.prices = texts(&["-2147483648"]);
    assert_eq!(amazon_parser::assemble(&selections).price, Some(i32::MIN));
    selections.prices = texts(&["free"]);
    assert_eq!(amazon_parser::assemble(&selections).price, None);
}

#[test]
fn amazon_rating_needs_text_and_count() {
    let mut selections = amazon_selections();
    selections.rating_texts = texts(&[" 4 stars "]);
    assert_eq!(amazon_parser::assemble(&selections).rating, "Not Found");
    selections.rating_counts = texts(&["12"]);
    assert_eq!(amazon_parser::assemble(&selections).rating, "4 stars (12)");
    selections.rating_texts = texts(&["Not Found"]);
    assert_eq!(amazon_parser::assemble(&selections).rating, "Not Found");
}

#[test]
fn amazon_stock_needs_the_exact_notice() {
    let mut selections = amazon_selections();
    selections.availability = Some("in stock".to_string());
    assert!(amazon_parser::assemble(&selections).in_stock);
    selections.availability = Some("only 2 left in stock".to_string());
    assert!(!amazon_parser::assemble(&selections).in_stock);
    selections.availability = None;
    assert!(!amazon_parser::assemble(&selections).in_stock);
}

#[test]
fn amazon_table_skips_rows_without_header() {
    let mut selections = amazon_selections();
    selections.specification_keys = vec![texts(&["A"]), vec![], texts(&[" B ", "ignored"])];
    selections.specification_values = vec![texts(&["1"]), texts(&["2"])];
    assert_eq!(
        amazon_parser::assemble(&selections).specifications,
        Specifications::Flat(vec![entry("A", "1"), entry("B", "Not Found")])
    );
}

#[test]
fn flipkart_page_is_read() {
    let details = flipkart_parser::extract_details(&flipkart_page(), FLIPKART_URL).unwrap();
    assert_eq!(
        details,
        ProductDetails {
            id: "itmd43b65174ffcf".to_string(),
            site: "Flipkart".to_string(),
            url: "".to_string(),
            title: "Gadget".to_string(),
            price: Some(12499),
            rating: "4.3 \u{2605} (2,000 Ratings)".to_string(),
            features: texts(&["8 GB RAM", " 128 GB "]),
            specifications: Specifications::Grouped(vec![
                SpecGroup {
                    title: "General".to_string(),
                    entries: vec![entry("Model", "G1"), entry("Year", "2024")],
                },
                SpecGroup { title: "Display".to_string(), entries: vec![entry("Size", "6.1 inch")] },
            ]),
            in_stock: true,
            seller: Some("BestSeller".to_string()),
            images: texts(&["https://img/832/832/a.jpg"]),
        }
    );
}

#[test]
fn flipkart_page_with_sold_out_notice_is_out_of_stock() {
    let page = "<html><body><div class=\"nyRpc8\">Sold Out</div><div class=\"XQDdHH\">3.9</div></body></html>";
    let details = flipkart_parser::extract_details(page, "https://www.flipkart.com/x").unwrap();
    assert!(!details.in_stock);
    assert_eq!(details.rating, "3.9 \u{2605}");
    assert_eq!(details.title, "Not Found");
    assert_eq!(details.price, None);
    assert_eq!(details.seller, None);
    assert_eq!(details.specifications, Specifications::Grouped(vec![]));
}

#[test]
fn flipkart_id_falls_back_to_the_query() {
    let page = "<html></html>";
    let from_query =
        flipkart_parser::extract_details(page, "https://www.flipkart.com/gadget?pid=MOBXYZ123&lid=1")
            .unwrap();
    assert_eq!(from_query.id, "MOBXYZ123");
    let none = flipkart_parser::extract_details(page, "https://www.flipkart.com/gadget").unwrap();
    assert_eq!(none.id, "ID Not Found");
    let lower = flipkart_parser::extract_details(page, "https://www.flipkart.com/gadget?pid=abc").unwrap();
    assert_eq!(lower.id, "ID Not Found");
}

#[test]
fn flipkart_query_is_not_looked_at_when_the_path_has_an_id() {
    let selections = flipkart_parser::select("<html></html>", FLIPKART_URL).unwrap();
    assert_eq!(selections.path_id, Some("itmd43b65174ffcf".to_string()));
    assert_eq!(selections.query_id, None);
}

fn flipkart_selections() -> FlipkartSelections {
    FlipkartSelections {
        path_id: None,
        query_id: None,
        titles: vec![],
        prices: vec![],
        rating_values: vec![],
        rating_counts: vec![],
        highlights: vec![],
        categories: vec![],
        keys: vec![],
        values: vec![],
        sold_out_notices: vec![],
        sellers: vec![],
        image_sources: vec![],
    }
}

#[test]
fn flipkart_price_drops_sign_and_separators() {
    let mut selections = flipkart_selections();
    selections.prices = texts(&["\u{20b9}1,09,999"]);
    assert_eq!(flipkart_parser::assemble(selections.clone()).price, Some(109999));
    selections.prices = texts(&["\u{20b9}1,099.50"]);
    assert_eq!(flipkart_parser::assemble(selections.clone()).price, None);
    selections.prices = texts(&["  \u{20b9} 500 "]);
    assert_eq!(flipkart_parser::assemble(selections.clone()).price, Some(500));
}

#[test]
fn flipkart_rating_without_value_is_not_found() {
    let mut selections = flipkart_selections();
    selections.rating_counts = texts(&["10 Ratings"]);
    assert_eq!(flipkart_parser::assemble(selections).rating, "Not Found");
}

#[test]
fn flipkart_later_group_replaces_earlier_one() {
    let mut selections = flipkart_selections();
    selections.categories = vec![texts(&["General"]), texts(&["Other"]), texts(&["General"])];
    selections.keys = vec![vec![texts(&["a"])], vec![texts(&["b"])], vec![texts(&["c"]), texts(&["c"])]];
    selections.values = vec![vec![texts(&["1"])], vec![texts(&["2"])], vec![texts(&["3"]), texts(&["4"])]];
    assert_eq!(
        flipkart_parser::assemble(selections).specifications,
        Specifications::Grouped(vec![
            SpecGroup { title: "General".to_string(), entries: vec![entry("c", "4")] },
            SpecGroup { title: "Other".to_string(), entries: vec![entry("b", "2")] },
        ])
    );
}

#[test]
fn first_texts() {
    assert_eq!(first_trimmed_or_not_found(&texts(&["\t a b \u{3000}", "c"])), "a b");
    assert_eq!(first_trimmed_or_not_found(&vec![]), "Not Found");
    assert_eq!(first_trimmed_or_not_found(&texts(&["  "])), "");
    assert_eq!(first_trimmed_text(&texts(&[" x "])), Some("x".to_string()));
    assert_eq!(first_trimmed_text(&vec![]), None);
    assert_eq!(first_text(&texts(&[" x "])), Some(" x ".to_string()));
    assert_eq!(first_text(&vec![]), None);
}

#[test]
fn trimming_keeps_marks_that_are_not_white_space() {
    assert_eq!(first_trimmed_or_not_found(&texts(&[" \u{200e}x "])), "\u{200e}x");
    assert_eq!(first_trimmed_or_not_found(&texts(&["\u{a0}x\u{85}"])), "x");
}

#[test]
fn trim_and_drop_empty_keeps_order() {
    assert_eq!(trim_and_drop_empty(&texts(&[" a", "", " ", "b ", "\n"])), texts(&["a", "b"]));
    assert_eq!(trim_and_drop_empty(&vec![]), Vec::<String>::new());
}

#[test]
fn rewrite_sources_replaces_every_occurrence() {
    let sources = vec![Some("aXXbXXXc".to_string()), None, Some("XX".to_string()), Some("".to_string())];
    assert_eq!(rewrite_sources(&sources, "XX", "y"), texts(&["aybyXc", "y", ""]));
}

#[test]
fn put_entry_replaces_in_place() {
    let mut entries = vec![entry("a", "1"), entry("b", "2")];
    put_entry(&mut entries, "a".to_string(), "3".to_string());
    put_entry(&mut entries, "c".to_string(), "4".to_string());
    assert_eq!(entries, vec![entry("a", "3"), entry("b", "2"), entry("c", "4")]);
}

#[test]
fn put_group_replaces_in_place() {
    let mut groups = vec![SpecGroup { title: "g".to_string(), entries: vec![entry("a", "1")] }];
    put_group(&mut groups, "g".to_string(), vec![]);
    put_group(&mut groups, "h".to_string(), vec![entry("b", "2")]);
    assert_eq!(
        groups,
        vec![
            SpecGroup { title: "g".to_string(), entries: vec![] },
            SpecGroup { title: "h".to_string(), entries: vec![entry("b", "2")] },
        ]
    );
}

#[test]
fn same_text_compares_characters() {
    assert!(same_text("Not Found", "Not Found"));
    assert!(!same_text("Not Found", "not found"));
    assert!(same_text("", ""));
}

#[test]
fn site_is_found_by_its_domain() {
    assert_eq!(site(AMAZON_URL), Some(Site::Amazon));
    assert_eq!(site(FLIPKART_URL), Some(Site::Flipkart));
    assert_eq!(site("https://example.com/?next=flipkart.com"), Some(Site::Flipkart));
    assert_eq!(site("https://flipkart.com/?ref=amazon.in"), Some(Site::Amazon));
    assert_eq!(site("https://www.amazon.com/dp/B0ABCDEFGH"), None);
    assert_eq!(site(""), None);
}

#[test]
fn extract_puts_the_address_into_the_details() {
    let details = extract(&amazon_page(), AMAZON_URL).unwrap();
    assert_eq!(details.url, AMAZON_URL);
    assert_eq!(details.site, "Amazon");
    let details = extract(&flipkart_page(), FLIPKART_URL).unwrap();
    assert_eq!(details.url, FLIPKART_URL);
    assert_eq!(details.site, "Flipkart");
}

#[test]
fn extract_rejects_an_unknown_site() {
    assert_eq!(
        extract(&amazon_page(), "https://example.com/item"),
        Err(UpdateError::UnsupportedSite { url: "https://example.com/item".to_string() })
    );
    assert_eq!(
        plan_update("<html></html>", "https://example.com/item"),
        Err(UpdateError::UnsupportedSite { url: "https://example.com/item".to_string() })
    );
}

#[test]
fn price_is_recorded_only_in_stock_and_with_a_price() {
    let page = amazon_page();
    let update = plan_update(&page, AMAZON_URL).unwrap();
    assert!(update.record_price);
    assert_eq!(update.details.url, AMAZON_URL);

    let mut details = update.details.clone();
    details.in_stock = false;
    assert!(!plan(details.clone()).record_price);
    details.in_stock = true;
    details.price = None;
    assert!(!plan(details.clone()).record_price);
    details.price = Some(0);
    let planned = plan(details.clone());
    assert!(planned.record_price);
    assert_eq!(planned.details, details);
}

#[test]
fn update_needs_the_record_it_wrote() {
    assert_eq!(finish_update(None), Err(UpdateError::RecordMissing));
}

#[test]
fn restart_summary_names_message_and_port() {
    let fine = ServiceStatus { is_healthy: true, port: 9516, error_message: None };
    assert_eq!(restart_summary(&fine), "Service restarted: Successfully restarted on port 9516");
    let busy = ServiceStatus {
        is_healthy: false,
        port: 9517,
        error_message: Some("port busy, reassigned".to_string()),
    };
    assert_eq!(restart_summary(&busy), "Service restarted: port busy, reassigned on port 9517");
}

#[test]
fn extraction_errors_are_distinct() {
    assert_ne!(ExtractError::BadPattern, ExtractError::BadSelector);
}

#[test]
fn empty_documents_are_read_as_pages_without_anything() {
    let amazon = amazon_parser::extract_details("", "").unwrap();
    assert_eq!(amazon.title, "Not Found");
    assert_eq!(amazon.rating, "Not Found");
    assert_eq!(amazon.id, "ID Not Found");
    let flipkart = flipkart_parser::extract_details("", "").unwrap();
    assert_eq!(flipkart.title, "Not Found");
    assert!(flipkart.in_stock);
    let broken = amazon_parser::extract_details("<table><tr><span id=productTitle>x</table", "").unwrap();
    assert_eq!(broken.title, "x");
}

#[test]
fn rewrite_sources_takes_an_empty_pattern() {
    let sources = vec![Some("ab".to_string()), None];
    assert_eq!(rewrite_sources(&sources, "", "/"), texts(&["/a/b/"]));
}
