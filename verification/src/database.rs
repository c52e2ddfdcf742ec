//! What persistence keeps of a product, as rows of plain values.
//!
//! The store itself belongs to the host. This module says which rows a
//! product turns into and which product a set of rows stands for.

use vstd::prelude::*;
use vstd::string::*;
use crate::clock::now_rfc3339;
use crate::json::{
    decode_texts, encode_groups, encode_table, encode_texts, json_of_groups, json_of_table,
    json_of_texts, texts_of_json,
};
use crate::models::{
    PriceEntry, PriceEntryView, ProductDetails, ProductDetailsView, ProductRecord,
    ProductRecordView, Specifications, SpecificationsView,
};

verus! {

/// Every product with its history, as written to a backup file.
#[derive(Debug, Clone, PartialEq, Eq)]
pub struct DatabaseBackup {
    pub products: Vec<ProductRecord>,
    pub backup_timestamp: String,
    pub version: String,
}

/// Mathematical value of a [`DatabaseBackup`].
pub struct DatabaseBackupView {
    pub products: Seq<ProductRecordView>,
    pub backup_timestamp: Seq<char>,
    pub version: Seq<char>,
}

impl View for DatabaseBackup {
    type V = DatabaseBackupView;

    open spec fn view(&self) -> DatabaseBackupView {
        DatabaseBackupView {
            products: self.products.deep_view(),
            backup_timestamp: self.backup_timestamp@,
            version: self.version@,
        }
    }
}

/// Version of the backup format.
pub open spec fn backup_version() -> Seq<char> {
    "1.0.0"@
}

/// One row of the product table. Lists and tables are kept as JSON text.
#[derive(Debug, Clone, PartialEq, Eq)]
pub struct ProductRow {
    pub id: String,
    pub site: String,
    pub url: String,
    pub title: String,
    pub seller: Option<String>,
    pub images: String,
    pub features: String,
    pub specifications: String,
}

/// Mathematical value of a [`ProductRow`].
pub struct ProductRowView {
    pub id: Seq<char>,
    pub site: Seq<char>,
    pub url: Seq<char>,
    pub title: Seq<char>,
    pub seller: Option<Seq<char>>,
    pub images: Seq<char>,
    pub features: Seq<char>,
    pub specifications: Seq<char>,
}

impl View for ProductRow {
    type V = ProductRowView;

    open spec fn view(&self) -> ProductRowView {
        ProductRowView {
            id: self.id@,
            site: self.site@,
            url: self.url@,
            title: self.title@,
            seller: self.seller.deep_view(),
            images: self.images@,
            features: self.features@,
            specifications: self.specifications@,
        }
    }
}

/// One row of the price table.
#[derive(Debug, Clone, PartialEq, Eq)]
pub struct PriceRow {
    pub product_id: String,
    pub price: i32,
    pub in_stock: bool,
    pub timestamp: String,
}

/// Mathematical value of a [`PriceRow`].
pub struct PriceRowView {
    pub product_id: Seq<char>,
    pub price: i32,
    pub in_stock: bool,
    pub timestamp: Seq<char>,
}

impl View for PriceRow {
    type V = PriceRowView;

    open spec fn view(&self) -> PriceRowView {
        PriceRowView {
            product_id: self.product_id@,
            price: self.price,
            in_stock: self.in_stock,
            timestamp: self.timestamp@,
        }
    }
}

impl DeepView for PriceRow {
    type V = PriceRowView;

    open spec fn deep_view(&self) -> PriceRowView {
        self@
    }
}

/// The JSON text of specifications.
pub open spec fn json_of_specifications(specifications: SpecificationsView) -> Seq<char> {
    match specifications {
        SpecificationsView::Flat(entries) => json_of_table(entries),
        SpecificationsView::Grouped(groups) => json_of_groups(groups),
    }
}

/// The row that the details of a product are kept in.
pub open spec fn row_of_details(details: ProductDetailsView) -> ProductRowView {
    ProductRowView {
        id: details.id,
        site: details.site,
        url: details.url,
        title: details.title,
        seller: details.seller,
        images: json_of_texts(details.images),
        features: json_of_texts(details.features),
        specifications: json_of_specifications(details.specifications),
    }
}

/// The price row for a visit at `timestamp`: one only if the visit gave a price.
pub open spec fn price_row_of(details: ProductDetailsView, timestamp: Seq<char>) -> Option<
    PriceRowView,
> {
    match details.price {
        Some(price) => Some(
            PriceRowView { product_id: details.id, price, in_stock: details.in_stock, timestamp },
        ),
        None => None,
    }
}

/// The texts that a column holds: those of its JSON array, or none where
/// the column does not hold one.
pub open spec fn texts_of_column(json: Seq<char>) -> Seq<Seq<char>> {
    match texts_of_json(json) {
        Some(texts) => texts,
        None => Seq::empty(),
    }
}

/// The product that a row and its price history stand for.
pub open spec fn record_of(row: ProductRowView, history: Seq<PriceEntryView>) -> ProductRecordView {
    ProductRecordView {
        id: row.id,
        site: row.site,
        url: row.url,
        title: row.title,
        seller: row.seller,
        images: texts_of_column(row.images),
        specifications: row.specifications,
        features: texts_of_column(row.features),
        price_history: history,
    }
}

/// The row that a product of a backup is restored to.
pub open spec fn row_of_record(record: ProductRecordView) -> ProductRowView {
    ProductRowView {
        id: record.id,
        site: record.site,
        url: record.url,
        title: record.title,
        seller: record.seller,
        images: json_of_texts(record.images),
        features: json_of_texts(record.features),
        specifications: record.specifications,
    }
}

/// The price rows that the first `count` entries of a history are restored to.
pub open spec fn price_rows_of(id: Seq<char>, history: Seq<PriceEntryView>, count: nat) -> Seq<
    PriceRowView,
>
    decreases count,
{
    if count == 0 {
        Seq::empty()
    } else {
        let entry = history[count - 1];
        price_rows_of(id, history, (count - 1) as nat).push(
            PriceRowView {
                product_id: id,
                price: entry.price,
                in_stock: entry.in_stock,
                timestamp: entry.timestamp,
            },
        )
    }
}

impl DatabaseBackup {
    /// The backup of `products` taken at `backup_timestamp`.
    pub fn new(products: Vec<ProductRecord>, backup_timestamp: String) -> (backup: DatabaseBackup)
        ensures
            backup@ == (DatabaseBackupView {
                products: products.deep_view(),
                backup_timestamp: backup_timestamp@,
                version: backup_version(),
            }),
    {
        DatabaseBackup { products, backup_timestamp, version: String::from_str("1.0.0") }
    }

    /// The backup of `products` taken now.
    pub fn taken_now(products: Vec<ProductRecord>) -> (backup: DatabaseBackup)
        ensures
            backup@.products == products.deep_view(),
            backup@.version == backup_version(),
    {
        DatabaseBackup::new(products, now_rfc3339())
    }
}

fn encode_specifications(specifications: &Specifications) -> (json: String)
    ensures
        json@ == json_of_specifications(specifications@),
{
    match specifications {
        Specifications::Flat(entries) => encode_table(entries),
        Specifications::Grouped(groups) => encode_groups(groups),
    }
}

fn decode_column(json: &str) -> (texts: Vec<String>)
    ensures
        texts.deep_view() == texts_of_column(json@),
{
    match decode_texts(json) {
        Some(texts) => texts,
        None => {
            let none: Vec<String> = Vec::new();
            assert(none.deep_view() =~= Seq::<Seq<char>>::empty());
            none
        },
    }
}

/// Lays the details of a product out as a row of the product table.
pub fn product_row(details: &ProductDetails) -> (row: ProductRow)
    ensures
        row@ == row_of_details(details@),
{
    ProductRow {
        id: details.id.clone(),
        site: details.site.clone(),
        url: details.url.clone(),
        title: details.title.clone(),
        seller: details.seller.clone(),
        images: encode_texts(&details.images),
        features: encode_texts(&details.features),
        specifications: encode_specifications(&details.specifications),
    }
}

/// The row of the price table for a visit at `timestamp`, if the visit
/// gave a price.
pub fn price_row(details: &ProductDetails, timestamp: String) -> (row: Option<PriceRow>)
    ensures
        row.deep_view() == price_row_of(details@, timestamp@),
{
    match details.price {
        Some(price) => Some(
            PriceRow {
                product_id: details.id.clone(),
                price,
                in_stock: details.in_stock,
                timestamp,
            },
        ),
        None => None,
    }
}

/// The row of the price table for a visit made now, if the visit gave a price.
pub fn price_row_now(details: &ProductDetails) -> (row: Option<PriceRow>)
    ensures
        row is Some <==> details.price is Some,
        row matches Some(r) ==> r.product_id@ == details.id@ && Some(r.price) == details.price
            && r.in_stock == details.in_stock,
{
    price_row(details, now_rfc3339())
}

/// Builds a product from its row and its price history.
pub fn product_record(row: ProductRow, history: Vec<PriceEntry>) -> (record: ProductRecord)
    ensures
        record@ == record_of(row@, history.deep_view()),
{
    let images = decode_column(row.images.as_str());
    let features = decode_column(row.features.as_str());
    ProductRecord {
        id: row.id,
        site: row.site,
        url: row.url,
        title: row.title,
        seller: row.seller,
        images,
        specifications: row.specifications,
        features,
        price_history: history,
    }
}

/// Lays a product of a backup out as the row to restore.
pub fn restored_product_row(record: &ProductRecord) -> (row: ProductRow)
    ensures
        row@ == row_of_record(record@),
{
    ProductRow {
        id: record.id.clone(),
        site: record.site.clone(),
        url: record.url.clone(),
        title: record.title.clone(),
        seller: record.seller.clone(),
        images: encode_texts(&record.images),
        features: encode_texts(&record.features),
        specifications: record.specifications.clone(),
    }
}

/// Lays the price history of a product of a backup out as the rows to
/// restore, in the order of the history.
pub fn restored_price_rows(record: &ProductRecord) -> (rows: Vec<PriceRow>)
    ensures
        rows.deep_view() == price_rows_of(
            record.id@,
            record.price_history.deep_view(),
            record.price_history.len() as nat,
        ),
{
    let mut rows: Vec<PriceRow> = Vec::new();
    let mut i: usize = 0;
    assert(rows.deep_view() =~= Seq::empty());
    while i < record.price_history.len()
        invariant
            i <= record.price_history.len(),
            rows.deep_view() == price_rows_of(
                record.id@,
                record.price_history.deep_view(),
                i as nat,
            ),
        decreases record.price_history.len() - i,
    {
        let entry = &record.price_history[i];
        let ghost before = rows.deep_view();
        let row = PriceRow {
            product_id: record.id.clone(),
            price: entry.price,
            in_stock: entry.in_stock,
            timestamp: entry.timestamp.clone(),
        };
        assert(record.price_history.deep_view()[i as int] == entry@);
        rows.push(row);
        assert(rows.deep_view() =~= before.push(row@));
        i += 1;
    }
    rows
}

} // verus!
