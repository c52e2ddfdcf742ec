//! The records that extraction produces and persistence keeps.

use vstd::prelude::*;

verus! {

/// One line of a specification table.
#[derive(Debug, Clone, PartialEq, Eq)]
pub struct SpecEntry {
    pub key: String,
    pub value: String,
}

impl View for SpecEntry {
    type V = (Seq<char>, Seq<char>);

    open spec fn view(&self) -> (Seq<char>, Seq<char>) {
        (self.key@, self.value@)
    }
}

impl DeepView for SpecEntry {
    type V = (Seq<char>, Seq<char>);

    open spec fn deep_view(&self) -> (Seq<char>, Seq<char>) {
        self@
    }
}

/// A titled group of specification lines.
#[derive(Debug, Clone, PartialEq, Eq)]
pub struct SpecGroup {
    pub title: String,
    pub entries: Vec<SpecEntry>,
}

impl View for SpecGroup {
    type V = (Seq<char>, Seq<(Seq<char>, Seq<char>)>);

    open spec fn view(&self) -> (Seq<char>, Seq<(Seq<char>, Seq<char>)>) {
        (self.title@, self.entries.deep_view())
    }
}

impl DeepView for SpecGroup {
    type V = (Seq<char>, Seq<(Seq<char>, Seq<char>)>);

    open spec fn deep_view(&self) -> (Seq<char>, Seq<(Seq<char>, Seq<char>)>) {
        self@
    }
}

/// The technical specifications of a product, as the site lays them out.
/// No key occurs twice in a table, and no title twice among the groups.
#[derive(Debug, Clone, PartialEq, Eq)]
pub enum Specifications {
    /// One table of keys and values.
    Flat(Vec<SpecEntry>),
    /// One table per category.
    Grouped(Vec<SpecGroup>),
}

/// Mathematical value of [`Specifications`].
pub enum SpecificationsView {
    Flat(Seq<(Seq<char>, Seq<char>)>),
    Grouped(Seq<(Seq<char>, Seq<(Seq<char>, Seq<char>)>)>),
}

impl View for Specifications {
    type V = SpecificationsView;

    open spec fn view(&self) -> SpecificationsView {
        match *self {
            Specifications::Flat(entries) => SpecificationsView::Flat(entries.deep_view()),
            Specifications::Grouped(groups) => SpecificationsView::Grouped(groups.deep_view()),
        }
    }
}

/// What one visit of a product page yields.
#[derive(Debug, Clone, PartialEq, Eq)]
pub struct ProductDetails {
    pub id: String,
    pub site: String,
    pub url: String,
    pub title: String,
    pub price: Option<i32>,
    pub rating: String,
    pub features: Vec<String>,
    pub specifications: Specifications,
    pub in_stock: bool,
    pub seller: Option<String>,
    pub images: Vec<String>,
}

/// Mathematical value of [`ProductDetails`].
pub struct ProductDetailsView {
    pub id: Seq<char>,
    pub site: Seq<char>,
    pub url: Seq<char>,
    pub title: Seq<char>,
    pub price: Option<i32>,
    pub rating: Seq<char>,
    pub features: Seq<Seq<char>>,
    pub specifications: SpecificationsView,
    pub in_stock: bool,
    pub seller: Option<Seq<char>>,
    pub images: Seq<Seq<char>>,
}

impl View for ProductDetails {
    type V = ProductDetailsView;

    open spec fn view(&self) -> ProductDetailsView {
        ProductDetailsView {
            id: self.id@,
            site: self.site@,
            url: self.url@,
            title: self.title@,
            price: self.price,
            rating: self.rating@,
            features: self.features.deep_view(),
            specifications: self.specifications@,
            in_stock: self.in_stock,
            seller: self.seller.deep_view(),
            images: self.images.deep_view(),
        }
    }
}

/// One observation of a price.
#[derive(Debug, Clone, PartialEq, Eq)]
pub struct PriceEntry {
    pub price: i32,
    pub in_stock: bool,
    pub timestamp: String,
}

/// Mathematical value of a [`PriceEntry`].
pub struct PriceEntryView {
    pub price: i32,
    pub in_stock: bool,
    pub timestamp: Seq<char>,
}

impl View for PriceEntry {
    type V = PriceEntryView;

    open spec fn view(&self) -> PriceEntryView {
        PriceEntryView { price: self.price, in_stock: self.in_stock, timestamp: self.timestamp@ }
    }
}

impl DeepView for PriceEntry {
    type V = PriceEntryView;

    open spec fn deep_view(&self) -> PriceEntryView {
        self@
    }
}

/// A product as it is kept, with the history of its price.
#[derive(Debug, Clone, PartialEq, Eq)]
pub struct ProductRecord {
    pub id: String,
    pub site: String,
    pub url: String,
    pub title: String,
    pub seller: Option<String>,
    pub images: Vec<String>,
    /// The specifications as JSON text.
    pub specifications: String,
    pub features: Vec<String>,
    pub price_history: Vec<PriceEntry>,
}

/// Mathematical value of a [`ProductRecord`].
pub struct ProductRecordView {
    pub id: Seq<char>,
    pub site: Seq<char>,
    pub url: Seq<char>,
    pub title: Seq<char>,
    pub seller: Option<Seq<char>>,
    pub images: Seq<Seq<char>>,
    pub specifications: Seq<char>,
    pub features: Seq<Seq<char>>,
    pub price_history: Seq<PriceEntryView>,
}

impl View for ProductRecord {
    type V = ProductRecordView;

    open spec fn view(&self) -> ProductRecordView {
        ProductRecordView {
            id: self.id@,
            site: self.site@,
            url: self.url@,
            title: self.title@,
            seller: self.seller.deep_view(),
            images: self.images.deep_view(),
            specifications: self.specifications@,
            features: self.features.deep_view(),
            price_history: self.price_history.deep_view(),
        }
    }
}

impl DeepView for ProductRecord {
    type V = ProductRecordView;

    open spec fn deep_view(&self) -> ProductRecordView {
        self@
    }
}

} // verus!
