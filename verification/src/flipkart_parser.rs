//! Extraction of product details from a Flipkart product page.

use vstd::prelude::*;
use vstd::string::*;
use crate::extract::{
    first, first_text, first_trimmed, first_trimmed_or_not_found, id_not_found, keys_unique,
    lemma_put_keeps_keys_unique, not_found, or_not_found, put, put_entry, put_group,
    rewrite_sources, rewritten, ExtractError,
};
use crate::markup::{
    attributes_in_document, select_attributes, select_texts, select_texts_in_each,
    select_texts_in_each_of_each, selector_is_valid, texts_in_document, texts_in_each,
    texts_in_each_of_each,
};
use crate::models::{
    ProductDetails, ProductDetailsView, SpecEntry, SpecGroup, Specifications, SpecificationsView,
};
use crate::pattern::{capture_first_group, first_group, pattern_compiles};
use crate::text::{join, parse_i32, parse_integer, remove_chars, same_text, trim, trimmed, without};

verus! {

/// The product id in the path of an address: letters and digits after `/p/`.
pub open spec fn path_pattern() -> Seq<char> {
    "\\/p\\/([a-zA-Z0-9]+)"@
}

/// The product id in the query of an address: capitals and digits after `pid=`.
pub open spec fn query_pattern() -> Seq<char> {
    "pid=([A-Z0-9]+)"@
}

/// The element that holds the title.
pub open spec fn title_selector() -> Seq<char> {
    "span.VU-ZEz"@
}

/// The elements that hold a price.
pub open spec fn price_selector() -> Seq<char> {
    "div.Nx9bqj"@
}

/// The element that holds the rating.
pub open spec fn rating_value_selector() -> Seq<char> {
    "div.XQDdHH"@
}

/// The element that holds the number of ratings.
pub open spec fn rating_count_selector() -> Seq<char> {
    "span.Wphh3N"@
}

/// The items of the list of highlights.
pub open spec fn highlights_selector() -> Seq<char> {
    "li._7eSDEz"@
}

/// The specification tables, one for each category.
pub open spec fn tables_selector() -> Seq<char> {
    "div.GNDEQ-"@
}

/// The title of a specification table.
pub open spec fn category_selector() -> Seq<char> {
    "div._4BJ2V\\+"@
}

/// The rows of a specification table.
pub open spec fn rows_selector() -> Seq<char> {
    "tr.WJdYP6"@
}

/// The key cell of a row.
pub open spec fn key_selector() -> Seq<char> {
    "td.\\+fFi1w"@
}

/// The items of the value cell of a row.
pub open spec fn value_selector() -> Seq<char> {
    "td.Izz52n li"@
}

/// The notice that the product is sold out.
pub open spec fn sold_out_selector() -> Seq<char> {
    "div.nyRpc8"@
}

/// The name of the seller.
pub open spec fn seller_selector() -> Seq<char> {
    "#sellerName span span"@
}

/// The thumbnails of the image gallery.
pub open spec fn thumbnails_selector() -> Seq<char> {
    "li.YGoYIP img"@
}

/// Every selector of the extraction is accepted.
pub open spec fn selectors_valid() -> bool {
    &&& selector_is_valid(title_selector())
    &&& selector_is_valid(price_selector())
    &&& selector_is_valid(rating_value_selector())
    &&& selector_is_valid(rating_count_selector())
    &&& selector_is_valid(highlights_selector())
    &&& selector_is_valid(tables_selector())
    &&& selector_is_valid(category_selector())
    &&& selector_is_valid(rows_selector())
    &&& selector_is_valid(key_selector())
    &&& selector_is_valid(value_selector())
    &&& selector_is_valid(sold_out_selector())
    &&& selector_is_valid(seller_selector())
    &&& selector_is_valid(thumbnails_selector())
}

/// Whether the query of the address is looked at: the path gave no id.
pub open spec fn needs_query(path_id: Option<Seq<char>>) -> bool {
    match path_id {
        Some(id) => id == id_not_found(),
        None => true,
    }
}

/// Every pattern that the address is matched against compiles.
pub open spec fn patterns_compile(url: Seq<char>) -> bool {
    &&& pattern_compiles(path_pattern())
    &&& needs_query(first_group(path_pattern(), url)) ==> pattern_compiles(query_pattern())
}

/// What the queries on a product page and its address give.
#[derive(Debug, Clone, PartialEq, Eq)]
pub struct FlipkartSelections {
    /// The id captured from the path of the address.
    pub path_id: Option<String>,
    /// The id captured from the query of the address, where the path gave none.
    pub query_id: Option<String>,
    pub titles: Vec<String>,
    pub prices: Vec<String>,
    pub rating_values: Vec<String>,
    pub rating_counts: Vec<String>,
    pub highlights: Vec<String>,
    /// For each specification table, the texts of its category titles.
    pub categories: Vec<Vec<String>>,
    /// For each specification table and each of its rows, the texts of the key cells.
    pub keys: Vec<Vec<Vec<String>>>,
    /// For each specification table and each of its rows, the texts of the value cells.
    pub values: Vec<Vec<Vec<String>>>,
    pub sold_out_notices: Vec<String>,
    pub sellers: Vec<String>,
    /// For each thumbnail, its source where it has one.
    pub image_sources: Vec<Option<String>>,
}

/// Mathematical value of [`FlipkartSelections`].
pub struct FlipkartSelectionsView {
    pub path_id: Option<Seq<char>>,
    pub query_id: Option<Seq<char>>,
    pub titles: Seq<Seq<char>>,
    pub prices: Seq<Seq<char>>,
    pub rating_values: Seq<Seq<char>>,
    pub rating_counts: Seq<Seq<char>>,
    pub highlights: Seq<Seq<char>>,
    pub categories: Seq<Seq<Seq<char>>>,
    pub keys: Seq<Seq<Seq<Seq<char>>>>,
    pub values: Seq<Seq<Seq<Seq<char>>>>,
    pub sold_out_notices: Seq<Seq<char>>,
    pub sellers: Seq<Seq<char>>,
    pub image_sources: Seq<Option<Seq<char>>>,
}

impl View for FlipkartSelections {
    type V = FlipkartSelectionsView;

    open spec fn view(&self) -> FlipkartSelectionsView {
        FlipkartSelectionsView {
            path_id: self.path_id.deep_view(),
            query_id: self.query_id.deep_view(),
            titles: self.titles.deep_view(),
            prices: self.prices.deep_view(),
            rating_values: self.rating_values.deep_view(),
            rating_counts: self.rating_counts.deep_view(),
            highlights: self.highlights.deep_view(),
            categories: self.categories.deep_view(),
            keys: self.keys.deep_view(),
            values: self.values.deep_view(),
            sold_out_notices: self.sold_out_notices.deep_view(),
            sellers: self.sellers.deep_view(),
            image_sources: self.image_sources.deep_view(),
        }
    }
}

/// What the queries give on a page and its address.
pub open spec fn selections_of(html: Seq<char>, url: Seq<char>) -> FlipkartSelectionsView {
    FlipkartSelectionsView {
        path_id: first_group(path_pattern(), url),
        query_id: if needs_query(first_group(path_pattern(), url)) {
            first_group(query_pattern(), url)
        } else {
            None
        },
        titles: texts_in_document(html, title_selector()),
        prices: texts_in_document(html, price_selector()),
        rating_values: texts_in_document(html, rating_value_selector()),
        rating_counts: texts_in_document(html, rating_count_selector()),
        highlights: texts_in_document(html, highlights_selector()),
        categories: texts_in_each(html, tables_selector(), category_selector()),
        keys: texts_in_each_of_each(html, tables_selector(), rows_selector(), key_selector()),
        values: texts_in_each_of_each(html, tables_selector(), rows_selector(), value_selector()),
        sold_out_notices: texts_in_document(html, sold_out_selector()),
        sellers: texts_in_document(html, seller_selector()),
        image_sources: attributes_in_document(html, thumbnails_selector(), "src"@),
    }
}

/// The id of the product: from the path, else from the query, else a placeholder.
pub open spec fn id_of(path_id: Option<Seq<char>>, query_id: Option<Seq<char>>) -> Seq<char> {
    if needs_query(path_id) {
        match query_id {
            Some(id) => id,
            None => id_not_found(),
        }
    } else {
        path_id->0
    }
}

/// The first price: currency sign and separators dropped, the rest
/// trimmed and read as a number.
pub open spec fn price_of(prices: Seq<Seq<char>>) -> Option<i32> {
    if prices.len() > 0 {
        parse_i32(trim(without(prices[0], seq!['\u{20b9}', ','])))
    } else {
        None
    }
}

/// The rating, with the number of ratings if the page has it.
pub open spec fn rating_of(values: Seq<Seq<char>>, counts: Seq<Seq<char>>) -> Seq<char> {
    if values.len() > 0 {
        if counts.len() > 0 {
            values[0] + " \u{2605} ("@ + counts[0] + ")"@
        } else {
            values[0] + " \u{2605}"@
        }
    } else {
        not_found()
    }
}

/// The element at `index`, or an empty sequence where the list ends before it.
pub open spec fn at<T>(list: Seq<Seq<T>>, index: int) -> Seq<T> {
    if 0 <= index < list.len() {
        list[index]
    } else {
        Seq::empty()
    }
}

/// The entries of one table from its first `rows` rows: each row with a
/// key cell and a value cell puts the value under the key.
pub open spec fn entries_of(keys: Seq<Seq<Seq<char>>>, values: Seq<Seq<Seq<char>>>, rows: nat) -> Seq<
    (Seq<char>, Seq<char>),
>
    decreases rows,
{
    if rows == 0 {
        Seq::empty()
    } else {
        let rest = entries_of(keys, values, (rows - 1) as nat);
        let key = at(keys, rows - 1);
        let value = at(values, rows - 1);
        if key.len() > 0 && value.len() > 0 {
            put(rest, key[0], value[0])
        } else {
            rest
        }
    }
}

/// The groups from the first `tables` tables: each table with a category
/// title puts its entries under the title.
pub open spec fn groups_of(
    categories: Seq<Seq<Seq<char>>>,
    keys: Seq<Seq<Seq<Seq<char>>>>,
    values: Seq<Seq<Seq<Seq<char>>>>,
    tables: nat,
) -> Seq<(Seq<char>, Seq<(Seq<char>, Seq<char>)>)>
    decreases tables,
{
    if tables == 0 {
        Seq::empty()
    } else {
        let rest = groups_of(categories, keys, values, (tables - 1) as nat);
        let titles = categories[tables - 1];
        let table_keys = at(keys, tables - 1);
        let table_values = at(values, tables - 1);
        if titles.len() > 0 {
            put(rest, titles[0], entries_of(table_keys, table_values, table_keys.len()))
        } else {
            rest
        }
    }
}

/// The details that the selections stand for.
pub open spec fn details_of(selections: FlipkartSelectionsView) -> ProductDetailsView {
    ProductDetailsView {
        id: id_of(selections.path_id, selections.query_id),
        site: "Flipkart"@,
        url: Seq::empty(),
        title: or_not_found(first_trimmed(selections.titles)),
        price: price_of(selections.prices),
        rating: rating_of(selections.rating_values, selections.rating_counts),
        features: selections.highlights,
        specifications: SpecificationsView::Grouped(
            groups_of(
                selections.categories,
                selections.keys,
                selections.values,
                selections.categories.len(),
            ),
        ),
        in_stock: selections.sold_out_notices.len() == 0,
        seller: first(selections.sellers),
        images: rewritten(selections.image_sources, "/128/128/"@, "/832/832/"@),
    }
}

fn product_id(path_id: Option<String>, query_id: Option<String>) -> (id: String)
    ensures
        id@ == id_of(path_id.deep_view(), query_id.deep_view()),
{
    match path_id {
        Some(id) => {
            if same_text(id.as_str(), "ID Not Found") {
                match query_id {
                    Some(id) => id,
                    None => String::from_str("ID Not Found"),
                }
            } else {
                id
            }
        },
        None => match query_id {
            Some(id) => id,
            None => String::from_str("ID Not Found"),
        },
    }
}

fn price(prices: &Vec<String>) -> (price: Option<i32>)
    ensures
        price == price_of(prices.deep_view()),
{
    if prices.len() > 0 {
        let mut signs: Vec<char> = Vec::new();
        signs.push('\u{20b9}');
        signs.push(',');
        assert(signs@ =~= seq!['\u{20b9}', ',']);
        let plain = remove_chars(prices[0].as_str(), &signs);
        let number = trimmed(plain.as_str());
        parse_integer(number.as_str())
    } else {
        None
    }
}

fn rating(values: &Vec<String>, counts: &Vec<String>) -> (rating: String)
    ensures
        rating@ == rating_of(values.deep_view(), counts.deep_view()),
{
    if values.len() > 0 {
        if counts.len() > 0 {
            let mut rating = join(values[0].as_str(), " \u{2605} (");
            rating.append(counts[0].as_str());
            rating.append(")");
            rating
        } else {
            join(values[0].as_str(), " \u{2605}")
        }
    } else {
        String::from_str("Not Found")
    }
}

fn entries(keys: &Vec<Vec<String>>, values: &Vec<Vec<String>>) -> (entries: Vec<SpecEntry>)
    ensures
        entries.deep_view() == entries_of(keys.deep_view(), values.deep_view(), keys.len() as nat),
{
    let mut entries: Vec<SpecEntry> = Vec::new();
    let mut row: usize = 0;
    assert(entries.deep_view() =~= Seq::empty());
    while row < keys.len()
        invariant
            row <= keys.len(),
            entries.deep_view() == entries_of(keys.deep_view(), values.deep_view(), row as nat),
        decreases keys.len() - row,
    {
        assert(keys[row as int].deep_view() == at(keys.deep_view(), row as int));
        if row < values.len() {
            assert(values[row as int].deep_view() == at(values.deep_view(), row as int));
            if keys[row].len() > 0 && values[row].len() > 0 {
                put_entry(&mut entries, keys[row][0].clone(), values[row][0].clone());
            }
        }
        row += 1;
    }
    entries
}

fn groups(
    categories: &Vec<Vec<String>>,
    keys: &Vec<Vec<Vec<String>>>,
    values: &Vec<Vec<Vec<String>>>,
) -> (groups: Vec<SpecGroup>)
    ensures
        groups.deep_view() == groups_of(
            categories.deep_view(),
            keys.deep_view(),
            values.deep_view(),
            categories.len() as nat,
        ),
{
    let mut groups: Vec<SpecGroup> = Vec::new();
    let mut table: usize = 0;
    assert(groups.deep_view() =~= Seq::empty());
    while table < categories.len()
        invariant
            table <= categories.len(),
            groups.deep_view() == groups_of(
                categories.deep_view(),
                keys.deep_view(),
                values.deep_view(),
                table as nat,
            ),
        decreases categories.len() - table,
    {
        assert(categories.deep_view()[table as int] == categories[table as int].deep_view());
        if categories[table].len() > 0 {
            let title = categories[table][0].clone();
            let none: Vec<Vec<String>> = Vec::new();
            assert(none.deep_view() =~= Seq::<Seq<Seq<char>>>::empty());
            let table_keys = if table < keys.len() {
                assert(keys[table as int].deep_view() == at(keys.deep_view(), table as int));
                &keys[table]
            } else {
                &none
            };
            let table_values = if table < values.len() {
                assert(values[table as int].deep_view() == at(values.deep_view(), table as int));
                &values[table]
            } else {
                &none
            };
            let table_entries = entries(table_keys, table_values);
            put_group(&mut groups, title, table_entries);
        }
        table += 1;
    }
    groups
}

/// Builds the details of a product from what the queries gave.
pub fn assemble(selections: FlipkartSelections) -> (details: ProductDetails)
    ensures
        details@ == details_of(selections@),
{
    let specifications = Specifications::Grouped(
        groups(&selections.categories, &selections.keys, &selections.values),
    );
    let title = first_trimmed_or_not_found(&selections.titles);
    let price = price(&selections.prices);
    let rating = rating(&selections.rating_values, &selections.rating_counts);
    let seller = first_text(&selections.sellers);
    let images = rewrite_sources(&selections.image_sources, "/128/128/", "/832/832/");
    ProductDetails {
        id: product_id(selections.path_id, selections.query_id),
        site: String::from_str("Flipkart"),
        url: String::new(),
        title,
        price,
        rating,
        features: selections.highlights,
        specifications,
        in_stock: selections.sold_out_notices.len() == 0,
        seller,
        images,
    }
}

fn capture_ids(url: &str) -> (ids: Result<(Option<String>, Option<String>), ExtractError>)
    ensures
        ids is Ok <==> patterns_compile(url@),
        ids matches Ok(found) ==> found.0.deep_view() == first_group(path_pattern(), url@)
            && found.1.deep_view() == selections_of(Seq::empty(), url@).query_id,
{
    let path_id = match capture_first_group("\\/p\\/([a-zA-Z0-9]+)", url) {
        Ok(found) => found,
        Err(_) => {
            return Err(ExtractError::BadPattern);
        },
    };
    let wanted = match &path_id {
        Some(id) => same_text(id.as_str(), "ID Not Found"),
        None => true,
    };
    let query_id = if wanted {
        match capture_first_group("pid=([A-Z0-9]+)", url) {
            Ok(found) => found,
            Err(_) => {
                return Err(ExtractError::BadPattern);
            },
        }
    } else {
        None
    };
    Ok((path_id, query_id))
}

/// Runs the queries of the extraction on a page and its address.
pub fn select(html_source: &str, url: &str) -> (result: Result<FlipkartSelections, ExtractError>)
    ensures
        result is Ok <==> patterns_compile(url@) && selectors_valid(),
        result matches Ok(selections) ==> selections@ == selections_of(html_source@, url@),
        result matches Err(error) ==> error == if patterns_compile(url@) {
            ExtractError::BadSelector
        } else {
            ExtractError::BadPattern
        },
{
    let (path_id, query_id) = match capture_ids(url) {
        Ok(ids) => ids,
        Err(error) => {
            return Err(ExtractError::BadPattern);
        },
    };
    let Some(titles) = select_texts(html_source, "span.VU-ZEz") else {
        return Err(ExtractError::BadSelector);
    };
    let Some(prices) = select_texts(html_source, "div.Nx9bqj") else {
        return Err(ExtractError::BadSelector);
    };
    let Some(rating_values) = select_texts(html_source, "div.XQDdHH") else {
        return Err(ExtractError::BadSelector);
    };
    let Some(rating_counts) = select_texts(html_source, "span.Wphh3N") else {
        return Err(ExtractError::BadSelector);
    };
    let Some(highlights) = select_texts(html_source, "li._7eSDEz") else {
        return Err(ExtractError::BadSelector);
    };
    let Some(categories) = select_texts_in_each(html_source, "div.GNDEQ-", "div._4BJ2V\\+") else {
        return Err(ExtractError::BadSelector);
    };
    let Some(keys) = select_texts_in_each_of_each(
        html_source,
        "div.GNDEQ-",
        "tr.WJdYP6",
        "td.\\+fFi1w",
    ) else {
        return Err(ExtractError::BadSelector);
    };
    let Some(values) = select_texts_in_each_of_each(
        html_source,
        "div.GNDEQ-",
        "tr.WJdYP6",
        "td.Izz52n li",
    ) else {
        return Err(ExtractError::BadSelector);
    };
    let Some(sold_out_notices) = select_texts(html_source, "div.nyRpc8") else {
        return Err(ExtractError::BadSelector);
    };
    let Some(sellers) = select_texts(html_source, "#sellerName span span") else {
        return Err(ExtractError::BadSelector);
    };
    let Some(image_sources) = select_attributes(html_source, "li.YGoYIP img", "src") else {
        return Err(ExtractError::BadSelector);
    };
    Ok(
        FlipkartSelections {
            path_id,
            query_id,
            titles,
            prices,
            rating_values,
            rating_counts,
            highlights,
            categories,
            keys,
            values,
            sold_out_notices,
            sellers,
            image_sources,
        },
    )
}

/// Reads the details of a product from its rendered page. The address
/// gives the id; the `url` field of the details is left empty.
pub fn extract_details(html_source: &str, url: &str) -> (result: Result<
    ProductDetails,
    ExtractError,
>)
    ensures
        result is Ok <==> patterns_compile(url@) && selectors_valid(),
        result matches Ok(details) ==> details@ == details_of(selections_of(html_source@, url@)),
        result matches Err(error) ==> error == if patterns_compile(url@) {
            ExtractError::BadSelector
        } else {
            ExtractError::BadPattern
        },
{
    match select(html_source, url) {
        Ok(selections) => Ok(assemble(selections)),
        Err(error) => Err(error),
    }
}

/// No key occurs twice in the entries of a table.
pub proof fn lemma_entries_have_unique_keys(
    keys: Seq<Seq<Seq<char>>>,
    values: Seq<Seq<Seq<char>>>,
    rows: nat,
)
    ensures
        keys_unique(entries_of(keys, values, rows)),
    decreases rows,
{
    if rows > 0 {
        lemma_entries_have_unique_keys(keys, values, (rows - 1) as nat);
        let key = at(keys, rows - 1);
        let value = at(values, rows - 1);
        if key.len() > 0 && value.len() > 0 {
            lemma_put_keeps_keys_unique(
                entries_of(keys, values, (rows - 1) as nat),
                key[0],
                value[0],
            );
        }
    }
}

/// No title occurs twice among the groups.
pub proof fn lemma_groups_have_unique_titles(
    categories: Seq<Seq<Seq<char>>>,
    keys: Seq<Seq<Seq<Seq<char>>>>,
    values: Seq<Seq<Seq<Seq<char>>>>,
    tables: nat,
)
    ensures
        keys_unique(groups_of(categories, keys, values, tables)),
    decreases tables,
{
    if tables > 0 {
        lemma_groups_have_unique_titles(categories, keys, values, (tables - 1) as nat);
        let titles = categories[tables - 1];
        let table_keys = at(keys, tables - 1);
        let table_values = at(values, tables - 1);
        if titles.len() > 0 {
            lemma_put_keeps_keys_unique(
                groups_of(categories, keys, values, (tables - 1) as nat),
                titles[0],
                entries_of(table_keys, table_values, table_keys.len()),
            );
        }
    }
}

} // verus!
