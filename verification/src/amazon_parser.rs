//! Extraction of product details from an Amazon product page.

use vstd::prelude::*;
use vstd::string::*;
use crate::extract::{
    first_trimmed, first_trimmed_or_not_found, first_trimmed_text, id_not_found, keys_unique,
    lemma_put_keeps_keys_unique, not_found, or_not_found, put, put_entry, rewrite_sources,
    rewritten, trim_and_drop_empty, trimmed_nonempty, ExtractError,
};
use crate::markup::{
    attributes_in_document, select_attributes, select_texts, select_texts_in_each,
    select_texts_under_root, selector_is_valid, texts_in_document, texts_in_each, texts_under_root,
};
use crate::models::{
    ProductDetails, ProductDetailsView, SpecEntry, Specifications, SpecificationsView,
};
use crate::pattern::{capture_first_group, first_group, pattern_compiles};
use crate::text::{
    before, before_char, join, lowercase, parse_i32, parse_integer, remove_chars, same_text,
    to_lowercase, without,
};

verus! {

/// The product id in an address: ten capitals or digits after `/dp/`.
pub open spec fn id_pattern() -> Seq<char> {
    "\\/dp\\/([A-Z0-9]{10})"@
}

/// The element that holds the title.
pub open spec fn title_selector() -> Seq<char> {
    "span#productTitle"@
}

/// The elements that hold the whole part of a price.
pub open spec fn price_selector() -> Seq<char> {
    "span.a-price-whole"@
}

/// The element that holds the rating in words.
pub open spec fn rating_text_selector() -> Seq<char> {
    "i.a-icon-star span.a-icon-alt"@
}

/// The element that holds the number of reviews.
pub open spec fn rating_count_selector() -> Seq<char> {
    "span#acrCustomerReviewText"@
}

/// The items of the feature list.
pub open spec fn features_selector() -> Seq<char> {
    "#feature-bullets .a-list-item"@
}

/// The rows of the table of technical details.
pub open spec fn specification_rows_selector() -> Seq<char> {
    "table#productDetails_techSpec_section_1 tr"@
}

/// The header cells of a row.
pub open spec fn specification_key_selector() -> Seq<char> {
    "th"@
}

/// The data cells of a row.
pub open spec fn specification_value_selector() -> Seq<char> {
    "td"@
}

/// The notice that the product is available.
pub open spec fn availability_selector() -> Seq<char> {
    "#availability span.a-color-success"@
}

/// The link to the seller.
pub open spec fn seller_selector() -> Seq<char> {
    "#sellerProfileTriggerId"@
}

/// The thumbnails of the image gallery.
pub open spec fn thumbnails_selector() -> Seq<char> {
    "li.item.imageThumbnail img"@
}

/// Every selector of the extraction is accepted.
pub open spec fn selectors_valid() -> bool {
    &&& selector_is_valid(title_selector())
    &&& selector_is_valid(price_selector())
    &&& selector_is_valid(rating_text_selector())
    &&& selector_is_valid(rating_count_selector())
    &&& selector_is_valid(features_selector())
    &&& selector_is_valid(specification_rows_selector())
    &&& selector_is_valid(specification_key_selector())
    &&& selector_is_valid(specification_value_selector())
    &&& selector_is_valid(availability_selector())
    &&& selector_is_valid(seller_selector())
    &&& selector_is_valid(thumbnails_selector())
}

/// What the queries on a product page and its address give.
#[derive(Debug, Clone, PartialEq, Eq)]
pub struct AmazonSelections {
    /// The id captured from the address.
    pub product_id: Option<String>,
    pub titles: Vec<String>,
    pub prices: Vec<String>,
    pub rating_texts: Vec<String>,
    pub rating_counts: Vec<String>,
    pub features: Vec<String>,
    /// For each row of the specification table, the texts of its header cells.
    pub specification_keys: Vec<Vec<String>>,
    /// For each row of the specification table, the texts of its data cells.
    pub specification_values: Vec<Vec<String>>,
    /// The first availability notice, trimmed and in lower case.
    pub availability: Option<String>,
    pub sellers: Vec<String>,
    /// For each thumbnail, its source where it has one.
    pub image_sources: Vec<Option<String>>,
}

/// Mathematical value of [`AmazonSelections`].
pub struct AmazonSelectionsView {
    pub product_id: Option<Seq<char>>,
    pub titles: Seq<Seq<char>>,
    pub prices: Seq<Seq<char>>,
    pub rating_texts: Seq<Seq<char>>,
    pub rating_counts: Seq<Seq<char>>,
    pub features: Seq<Seq<char>>,
    pub specification_keys: Seq<Seq<Seq<char>>>,
    pub specification_values: Seq<Seq<Seq<char>>>,
    pub availability: Option<Seq<char>>,
    pub sellers: Seq<Seq<char>>,
    pub image_sources: Seq<Option<Seq<char>>>,
}

impl View for AmazonSelections {
    type V = AmazonSelectionsView;

    open spec fn view(&self) -> AmazonSelectionsView {
        AmazonSelectionsView {
            product_id: self.product_id.deep_view(),
            titles: self.titles.deep_view(),
            prices: self.prices.deep_view(),
            rating_texts: self.rating_texts.deep_view(),
            rating_counts: self.rating_counts.deep_view(),
            features: self.features.deep_view(),
            specification_keys: self.specification_keys.deep_view(),
            specification_values: self.specification_values.deep_view(),
            availability: self.availability.deep_view(),
            sellers: self.sellers.deep_view(),
            image_sources: self.image_sources.deep_view(),
        }
    }
}

/// What the queries give on a page and its address.
pub open spec fn selections_of(html: Seq<char>, url: Seq<char>) -> AmazonSelectionsView {
    AmazonSelectionsView {
        product_id: first_group(id_pattern(), url),
        titles: texts_in_document(html, title_selector()),
        prices: texts_in_document(html, price_selector()),
        rating_texts: texts_under_root(html, rating_text_selector()),
        rating_counts: texts_under_root(html, rating_count_selector()),
        features: texts_in_document(html, features_selector()),
        specification_keys: texts_in_each(
            html,
            specification_rows_selector(),
            specification_key_selector(),
        ),
        specification_values: texts_in_each(
            html,
            specification_rows_selector(),
            specification_value_selector(),
        ),
        availability: match first_trimmed(texts_in_document(html, availability_selector())) {
            Some(notice) => Some(lowercase(notice)),
            None => None,
        },
        sellers: texts_in_document(html, seller_selector()),
        image_sources: attributes_in_document(html, thumbnails_selector(), "src"@),
    }
}

/// The whole rupees of the first price: separators dropped, the part
/// before the decimal point read as a number.
pub open spec fn price_of(prices: Seq<Seq<char>>) -> Option<i32> {
    if prices.len() > 0 {
        parse_i32(before(without(prices[0], seq![',']), '.'))
    } else {
        None
    }
}

/// The rating with the number of reviews, if the page has both.
pub open spec fn rating_of(texts: Seq<Seq<char>>, counts: Seq<Seq<char>>) -> Seq<char> {
    let text = or_not_found(first_trimmed(texts));
    let count = or_not_found(first_trimmed(counts));
    if text != not_found() && count != not_found() {
        text + " ("@ + count + ")"@
    } else {
        not_found()
    }
}

/// The cells of row `row`, or none if the list ends before it.
pub open spec fn cells(rows: Seq<Seq<Seq<char>>>, row: int) -> Seq<Seq<char>> {
    if 0 <= row < rows.len() {
        rows[row]
    } else {
        Seq::empty()
    }
}

/// The specification table from the first `rows` rows: each row with a
/// header cell puts its data cell, without left-to-right marks, under the header.
pub open spec fn table_of(keys: Seq<Seq<Seq<char>>>, values: Seq<Seq<Seq<char>>>, rows: nat) -> Seq<
    (Seq<char>, Seq<char>),
>
    decreases rows,
{
    if rows == 0 {
        Seq::empty()
    } else {
        let rest = table_of(keys, values, (rows - 1) as nat);
        let key = or_not_found(first_trimmed(cells(keys, rows - 1)));
        let value = or_not_found(first_trimmed(cells(values, rows - 1)));
        if key != not_found() {
            put(rest, key, without(value, seq!['\u{200e}']))
        } else {
            rest
        }
    }
}

/// The details that the selections stand for.
pub open spec fn details_of(selections: AmazonSelectionsView) -> ProductDetailsView {
    ProductDetailsView {
        id: match selections.product_id {
            Some(id) => id,
            None => id_not_found(),
        },
        site: "Amazon"@,
        url: Seq::empty(),
        title: or_not_found(first_trimmed(selections.titles)),
        price: price_of(selections.prices),
        rating: rating_of(selections.rating_texts, selections.rating_counts),
        features: trimmed_nonempty(selections.features),
        specifications: SpecificationsView::Flat(
            table_of(
                selections.specification_keys,
                selections.specification_values,
                selections.specification_keys.len(),
            ),
        ),
        in_stock: selections.availability == Some("in stock"@),
        seller: first_trimmed(selections.sellers),
        images: rewritten(selections.image_sources, "._SS40_."@, "._SL1500_."@),
    }
}

fn price(prices: &Vec<String>) -> (price: Option<i32>)
    ensures
        price == price_of(prices.deep_view()),
{
    if prices.len() > 0 {
        let mut separators: Vec<char> = Vec::new();
        separators.push(',');
        assert(separators@ =~= seq![',']);
        let plain = remove_chars(prices[0].as_str(), &separators);
        let whole = before_char(plain.as_str(), '.');
        parse_integer(whole.as_str())
    } else {
        None
    }
}

fn rating(texts: &Vec<String>, counts: &Vec<String>) -> (rating: String)
    ensures
        rating@ == rating_of(texts.deep_view(), counts.deep_view()),
{
    let text = first_trimmed_or_not_found(texts);
    let count = first_trimmed_or_not_found(counts);
    if !same_text(text.as_str(), "Not Found") && !same_text(count.as_str(), "Not Found") {
        let mut rating = join(text.as_str(), " (");
        rating.append(count.as_str());
        rating.append(")");
        rating
    } else {
        String::from_str("Not Found")
    }
}

fn table(keys: &Vec<Vec<String>>, values: &Vec<Vec<String>>) -> (entries: Vec<SpecEntry>)
    ensures
        entries.deep_view() == table_of(keys.deep_view(), values.deep_view(), keys.len() as nat),
{
    let mut entries: Vec<SpecEntry> = Vec::new();
    let mut row: usize = 0;
    assert(entries.deep_view() =~= Seq::empty());
    while row < keys.len()
        invariant
            row <= keys.len(),
            entries.deep_view() == table_of(keys.deep_view(), values.deep_view(), row as nat),
        decreases keys.len() - row,
    {
        let key = first_trimmed_or_not_found(&keys[row]);
        assert(keys[row as int].deep_view() == cells(keys.deep_view(), row as int));
        let value = if row < values.len() {
            assert(values[row as int].deep_view() == cells(values.deep_view(), row as int));
            first_trimmed_or_not_found(&values[row])
        } else {
            let none: Vec<String> = Vec::new();
            assert(none.deep_view() =~= cells(values.deep_view(), row as int));
            first_trimmed_or_not_found(&none)
        };
        if !same_text(key.as_str(), "Not Found") {
            let mut marks: Vec<char> = Vec::new();
            marks.push('\u{200e}');
            assert(marks@ =~= seq!['\u{200e}']);
            let clean = remove_chars(value.as_str(), &marks);
            put_entry(&mut entries, key, clean);
        }
        row += 1;
    }
    entries
}

/// Builds the details of a product from what the queries gave.
pub fn assemble(selections: &AmazonSelections) -> (details: ProductDetails)
    ensures
        details@ == details_of(selections@),
{
    let id = match &selections.product_id {
        Some(id) => id.clone(),
        None => String::from_str("ID Not Found"),
    };
    let in_stock = match &selections.availability {
        Some(notice) => same_text(notice.as_str(), "in stock"),
        None => false,
    };
    ProductDetails {
        id,
        site: String::from_str("Amazon"),
        url: String::new(),
        title: first_trimmed_or_not_found(&selections.titles),
        price: price(&selections.prices),
        rating: rating(&selections.rating_texts, &selections.rating_counts),
        features: trim_and_drop_empty(&selections.features),
        specifications: Specifications::Flat(
            table(&selections.specification_keys, &selections.specification_values),
        ),
        in_stock,
        seller: first_trimmed_text(&selections.sellers),
        images: rewrite_sources(&selections.image_sources, "._SS40_.", "._SL1500_."),
    }
}

/// Runs the queries of the extraction on a page and its address.
pub fn select(html_source: &str, url: &str) -> (result: Result<AmazonSelections, ExtractError>)
    ensures
        result is Ok <==> pattern_compiles(id_pattern()) && selectors_valid(),
        result matches Ok(selections) ==> selections@ == selections_of(html_source@, url@),
        result matches Err(error) ==> error == if pattern_compiles(id_pattern()) {
            ExtractError::BadSelector
        } else {
            ExtractError::BadPattern
        },
{
    let product_id = match capture_first_group("\\/dp\\/([A-Z0-9]{10})", url) {
        Ok(found) => found,
        Err(_) => {
            return Err(ExtractError::BadPattern);
        },
    };
    let Some(titles) = select_texts(html_source, "span#productTitle") else {
        return Err(ExtractError::BadSelector);
    };
    let Some(prices) = select_texts(html_source, "span.a-price-whole") else {
        return Err(ExtractError::BadSelector);
    };
    let Some(rating_texts) = select_texts_under_root(
        html_source,
        "i.a-icon-star span.a-icon-alt",
    ) else {
        return Err(ExtractError::BadSelector);
    };
    let Some(rating_counts) = select_texts_under_root(html_source, "span#acrCustomerReviewText")
    else {
        return Err(ExtractError::BadSelector);
    };
    let Some(features) = select_texts(html_source, "#feature-bullets .a-list-item") else {
        return Err(ExtractError::BadSelector);
    };
    let Some(specification_keys) = select_texts_in_each(
        html_source,
        "table#productDetails_techSpec_section_1 tr",
        "th",
    ) else {
        return Err(ExtractError::BadSelector);
    };
    let Some(specification_values) = select_texts_in_each(
        html_source,
        "table#productDetails_techSpec_section_1 tr",
        "td",
    ) else {
        return Err(ExtractError::BadSelector);
    };
    let Some(notices) = select_texts(html_source, "#availability span.a-color-success") else {
        return Err(ExtractError::BadSelector);
    };
    let Some(sellers) = select_texts(html_source, "#sellerProfileTriggerId") else {
        return Err(ExtractError::BadSelector);
    };
    let Some(image_sources) = select_attributes(html_source, "li.item.imageThumbnail img", "src")
    else {
        return Err(ExtractError::BadSelector);
    };
    let availability = match first_trimmed_text(&notices) {
        Some(notice) => Some(to_lowercase(notice.as_str())),
        None => None,
    };
    Ok(
        AmazonSelections {
            product_id,
            titles,
            prices,
            rating_texts,
            rating_counts,
            features,
            specification_keys,
            specification_values,
            availability,
            sellers,
            image_sources,
        },
    )
}

/// Reads the details of a product from its rendered page. The address
/// gives the id; the `url` field of the details is left empty.
pub fn extract_details(html_source: &str, url: &str) -> (result: Result<
    ProductDetails,
    ExtractError,
>)
    ensures
        result is Ok <==> pattern_compiles(id_pattern()) && selectors_valid(),
        result matches Ok(details) ==> details@ == details_of(selections_of(html_source@, url@)),
        result matches Err(error) ==> error == if pattern_compiles(id_pattern()) {
            ExtractError::BadSelector
        } else {
            ExtractError::BadPattern
        },
{
    match select(html_source, url) {
        Ok(selections) => Ok(assemble(&selections)),
        Err(error) => Err(error),
    }
}

/// No key occurs twice in a specification table.
pub proof fn lemma_table_has_unique_keys(
    keys: Seq<Seq<Seq<char>>>,
    values: Seq<Seq<Seq<char>>>,
    rows: nat,
)
    ensures
        keys_unique(table_of(keys, values, rows)),
    decreases rows,
{
    if rows > 0 {
        lemma_table_has_unique_keys(keys, values, (rows - 1) as nat);
        let rest = table_of(keys, values, (rows - 1) as nat);
        let key = or_not_found(first_trimmed(cells(keys, rows - 1)));
        let value = or_not_found(first_trimmed(cells(values, rows - 1)));
        lemma_put_keeps_keys_unique(rest, key, without(value, seq!['\u{200e}']));
    }
}

} // verus!
