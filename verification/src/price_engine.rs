//! The price engine: the browser engine together with the rules that turn
//! a rendered page into what is kept of a product.

use vstd::prelude::*;
use vstd::string::*;
use crate::amazon_parser;
use crate::browser_service_manager::{new_manager, PORT_RANGE_SPAN};
use crate::clock::{now_rfc3339, now_to_the_second};
use crate::database::{
    price_row, price_row_of, product_row, row_of_details, PriceRow, PriceRowView, ProductRow,
    ProductRowView,
};
use crate::extract::ExtractError;
use crate::flipkart_parser;
use crate::host::Reply;
use crate::models::{ProductDetails, ProductDetailsView, ProductRecord};
use crate::pattern::pattern_compiles;
use crate::scraper_engine::{
    fresh_engine, BrowserEngine, EngineError, EngineErrorView, EngineOutcome, EngineOutcomeView,
    EngineStep, EngineTask, EngineView, PurposeView,
};
use crate::status::{BrowserEngineStatus, PriceEngineStatus, ServiceStatus, ServiceStatusView};
use crate::text::{contains_text, decimal, decimal_text, join, occurs_in};

verus! {

/// The sites whose product pages can be read.
#[derive(Debug, Clone, Copy, PartialEq, Eq)]
pub enum Site {
    Amazon,
    Flipkart,
}

/// The site that an address belongs to: the first of the known domains
/// that occurs in it.
pub open spec fn site_of(url: Seq<char>) -> Option<Site> {
    if occurs_in(url, "amazon.in"@) {
        Some(Site::Amazon)
    } else if occurs_in(url, "flipkart.com"@) {
        Some(Site::Flipkart)
    } else {
        None
    }
}

/// Why an update did not give a product.
#[derive(Debug, PartialEq, Eq)]
pub enum UpdateError {
    /// The address belongs to no known site.
    UnsupportedSite { url: String },
    /// The page could not be fetched.
    Fetch(EngineError),
    /// The fetch ended with something other than a page or a failure.
    UnexpectedOutcome,
    /// The page could not be read.
    Extraction(ExtractError),
    /// The product was not found in the store after it was written.
    RecordMissing,
}

/// Mathematical value of an [`UpdateError`].
pub enum UpdateErrorView {
    UnsupportedSite { url: Seq<char> },
    Fetch(EngineErrorView),
    UnexpectedOutcome,
    Extraction(ExtractError),
    RecordMissing,
}

impl View for UpdateError {
    type V = UpdateErrorView;

    open spec fn view(&self) -> UpdateErrorView {
        match *self {
            UpdateError::UnsupportedSite { url } => UpdateErrorView::UnsupportedSite { url: url@ },
            UpdateError::Fetch(error) => UpdateErrorView::Fetch(error@),
            UpdateError::UnexpectedOutcome => UpdateErrorView::UnexpectedOutcome,
            UpdateError::Extraction(error) => UpdateErrorView::Extraction(error),
            UpdateError::RecordMissing => UpdateErrorView::RecordMissing,
        }
    }
}

/// What is to be written of a product after a visit of its page.
#[derive(Debug, Clone, PartialEq, Eq)]
pub struct UpdatePlan {
    /// The details to write; they are written in any case.
    pub details: ProductDetails,
    /// Whether the price of the visit is added to the history.
    pub record_price: bool,
}

/// A price is recorded only for a product that is in stock and has one.
pub open spec fn records_price(details: ProductDetailsView) -> bool {
    details.in_stock && details.price is Some
}

/// The site that an address belongs to.
pub fn site(url: &str) -> (site: Option<Site>)
    ensures
        site == site_of(url@),
{
    if contains_text(url, "amazon.in") {
        Some(Site::Amazon)
    } else if contains_text(url, "flipkart.com") {
        Some(Site::Flipkart)
    } else {
        None
    }
}

/// What the parser of a site makes of a page and its address.
pub open spec fn parsed(site: Site, html: Seq<char>, url: Seq<char>) -> Result<
    ProductDetailsView,
    ExtractError,
> {
    match site {
        Site::Amazon => if !pattern_compiles(amazon_parser::id_pattern()) {
            Err(ExtractError::BadPattern)
        } else if !amazon_parser::selectors_valid() {
            Err(ExtractError::BadSelector)
        } else {
            Ok(amazon_parser::details_of(amazon_parser::selections_of(html, url)))
        },
        Site::Flipkart => if !flipkart_parser::patterns_compile(url) {
            Err(ExtractError::BadPattern)
        } else if !flipkart_parser::selectors_valid() {
            Err(ExtractError::BadSelector)
        } else {
            Ok(flipkart_parser::details_of(flipkart_parser::selections_of(html, url)))
        },
    }
}

/// The details of the product on a page: those that the parser of its
/// site reads, with the address put in.
pub open spec fn extraction_of(html: Seq<char>, url: Seq<char>) -> Result<
    ProductDetailsView,
    UpdateErrorView,
> {
    match site_of(url) {
        Some(site) => match parsed(site, html, url) {
            Ok(details) => Ok(ProductDetailsView { url, ..details }),
            Err(error) => Err(UpdateErrorView::Extraction(error)),
        },
        None => Err(UpdateErrorView::UnsupportedSite { url }),
    }
}

/// Reads the details of a product from its rendered page with the parser
/// of its site, and puts the address into them.
pub fn extract(html_source: &str, url: &str) -> (result: Result<ProductDetails, UpdateError>)
    ensures
        match extraction_of(html_source@, url@) {
            Ok(expected) => result matches Ok(details) && details@ == expected,
            Err(expected) => result matches Err(error) && error@ == expected,
        },
{
    let extracted = match site(url) {
        Some(Site::Amazon) => amazon_parser::extract_details(html_source, url),
        Some(Site::Flipkart) => flipkart_parser::extract_details(html_source, url),
        None => {
            return Err(UpdateError::UnsupportedSite { url: String::from_str(url) });
        },
    };
    match extracted {
        Ok(details) => {
            let mut details = details;
            details.url = String::from_str(url);
            Ok(details)
        },
        Err(error) => Err(UpdateError::Extraction(error)),
    }
}

/// Says what is to be written for the details of a visit.
pub fn plan(details: ProductDetails) -> (plan: UpdatePlan)
    ensures
        plan.details == details,
        plan.record_price == records_price(details@),
{
    let record_price = details.in_stock && details.price.is_some();
    UpdatePlan { details, record_price }
}

/// Reads a rendered page and says what is to be written of the product.
pub fn plan_update(html_source: &str, url: &str) -> (result: Result<UpdatePlan, UpdateError>)
    ensures
        match extraction_of(html_source@, url@) {
            Ok(expected) => result matches Ok(plan) && plan.details@ == expected
                && plan.record_price == records_price(expected),
            Err(expected) => result matches Err(error) && error@ == expected,
        },
{
    match extract(html_source, url) {
        Ok(details) => Ok(plan(details)),
        Err(error) => Err(error),
    }
}

/// What the outcome of a fetch leads to: the plan for the page that was
/// fetched, or the failure of the update.
pub open spec fn plan_of_fetch(outcome: EngineOutcomeView, url: Seq<char>) -> Result<
    (ProductDetailsView, bool),
    UpdateErrorView,
> {
    match outcome {
        EngineOutcomeView::Page(html) => match extraction_of(html, url) {
            Ok(details) => Ok((details, records_price(details))),
            Err(error) => Err(error),
        },
        EngineOutcomeView::Failed(error) => Err(UpdateErrorView::Fetch(error)),
        _ => Err(UpdateErrorView::UnexpectedOutcome),
    }
}

/// Takes the outcome of the fetch that an update began with and says what
/// is to be written of the product: the details read from the page that
/// was fetched, with the address put in, and whether its price is
/// recorded. A failed fetch fails the update.
pub fn finish_fetch(outcome: EngineOutcome, url: &str) -> (result: Result<UpdatePlan, UpdateError>)
    ensures
        match plan_of_fetch(outcome@, url@) {
            Ok(expected) => result matches Ok(plan) && plan.details@ == expected.0
                && plan.record_price == expected.1,
            Err(expected) => result matches Err(error) && error@ == expected,
        },
{
    match outcome {
        EngineOutcome::Page(html) => plan_update(html.as_str(), url),
        EngineOutcome::Failed(error) => Err(UpdateError::Fetch(error)),
        _ => Err(UpdateError::UnexpectedOutcome),
    }
}

/// The rows that an update writes: the product in any case, and a price
/// only where the plan records one.
#[derive(Debug, Clone, PartialEq, Eq)]
pub struct UpdateWrites {
    pub product: ProductRow,
    pub price: Option<PriceRow>,
}

/// The rows that a plan writes for a visit at `timestamp`: the row of the
/// product, and one price row if the plan records the price.
pub open spec fn writes_of(details: ProductDetailsView, record_price: bool, timestamp: Seq<char>) -> (
    ProductRowView,
    Option<PriceRowView>,
) {
    (
        row_of_details(details),
        if record_price {
            price_row_of(details, timestamp)
        } else {
            None
        },
    )
}

/// Lays a plan out as the rows to write for a visit at `timestamp`.
pub fn writes(plan: &UpdatePlan, timestamp: String) -> (rows: UpdateWrites)
    ensures
        (rows.product@, rows.price.deep_view()) == writes_of(
            plan.details@,
            plan.record_price,
            timestamp@,
        ),
{
    let price = if plan.record_price {
        price_row(&plan.details, timestamp)
    } else {
        None
    };
    UpdateWrites { product: product_row(&plan.details), price }
}

/// Lays a plan out as the rows to write for a visit made now. The price
/// row, if any, carries the price and the stock of the visit.
pub fn writes_now(plan: &UpdatePlan) -> (rows: UpdateWrites)
    ensures
        rows.product@ == row_of_details(plan.details@),
        rows.price is Some <==> plan.record_price && plan.details.price is Some,
        rows.price matches Some(row) ==> row.product_id@ == plan.details.id@ && Some(row.price)
            == plan.details.price && row.in_stock == plan.details.in_stock,
{
    writes(plan, now_rfc3339())
}

/// The outcome of an update, given what the store holds of the product
/// after the writes.
pub fn finish_update(loaded: Option<ProductRecord>) -> (result: Result<ProductRecord, UpdateError>)
    ensures
        match loaded {
            Some(record) => result == Ok::<ProductRecord, UpdateError>(record),
            None => result matches Err(error) && error@ == UpdateErrorView::RecordMissing,
        },
{
    match loaded {
        Some(record) => Ok(record),
        None => Err(UpdateError::RecordMissing),
    }
}

/// What is said of a restart that carries no message.
pub open spec fn restarted_message() -> Seq<char> {
    "Successfully restarted"@
}

/// The summary of a restart.
pub open spec fn restart_summary_of(status: ServiceStatusView) -> Seq<char> {
    "Service restarted: "@ + match status.error_message {
        Some(message) => message,
        None => restarted_message(),
    } + " on port "@ + decimal(status.port as nat)
}

/// Writes the summary of a restart: its message and the port.
pub fn restart_summary(status: &ServiceStatus) -> (summary: String)
    ensures
        summary@ == restart_summary_of(status@),
{
    let mut summary = match &status.error_message {
        Some(message) => join("Service restarted: ", message.as_str()),
        None => join("Service restarted: ", "Successfully restarted"),
    };
    summary.append(" on port ");
    let port = decimal_text(status.port as u64);
    summary.append(port.as_str());
    summary
}

/// The browser engine with the configuration it was made from.
#[derive(Debug)]
pub struct PriceEngine {
    browser_engine: BrowserEngine,
    initial_port: u16,
    browser_path: String,
    db_path: String,
    driver_path: String,
}

/// Mathematical value of a [`PriceEngine`].
pub struct PriceEngineView {
    pub engine: EngineView,
    pub initial_port: u16,
    pub browser_path: Seq<char>,
    pub db_path: Seq<char>,
    pub driver_path: Seq<char>,
}

impl View for PriceEngine {
    type V = PriceEngineView;

    closed spec fn view(&self) -> PriceEngineView {
        PriceEngineView {
            engine: self.browser_engine@,
            initial_port: self.initial_port,
            browser_path: self.browser_path@,
            db_path: self.db_path@,
            driver_path: self.driver_path@,
        }
    }
}

impl PriceEngine {
    /// Begins the creation of a price engine: the browser engine is
    /// created with fallback. The store at `db_path` is for the host to open.
    pub fn new(port: u16, browser_path: &str, db_path: &str, driver_path: &str) -> (created: (
        PriceEngine,
        EngineStep,
    ))
        requires
            port + PORT_RANGE_SPAN <= u16::MAX,
        ensures
            (created.0@.engine, created.1@) == fresh_engine(
                new_manager(port, driver_path@, browser_path@),
            ).create(PurposeView::CreateWithFallback),
            created.0@.engine.well_formed(),
            created.0@.initial_port == port,
            created.0@.browser_path == browser_path@,
            created.0@.db_path == db_path@,
            created.0@.driver_path == driver_path@,
    {
        let (browser_engine, step) = BrowserEngine::new_with_fallback(
            port,
            browser_path,
            driver_path,
        );
        let engine = PriceEngine {
            browser_engine,
            initial_port: port,
            browser_path: String::from_str(browser_path),
            db_path: String::from_str(db_path),
            driver_path: String::from_str(driver_path),
        };
        (engine, step)
    }

    /// Path of the store that the engine was made for.
    pub fn database_path(&self) -> (path: &str)
        ensures
            path@ == self@.db_path,
    {
        self.db_path.as_str()
    }

    /// Begins a health report of the browser engine.
    pub fn check_service_status(&mut self) -> (step: EngineStep)
        ensures
            (final(self)@.engine, step@) == old(self)@.engine.check_service_status(),
            final(self)@ == (PriceEngineView { engine: final(self)@.engine, ..old(self)@ }),
            old(self)@.engine.well_formed() ==> final(self)@.engine.well_formed(),
    {
        self.browser_engine.check_service_status()
    }

    /// The status of the pipeline for a report of the browser engine,
    /// stamped with the present time.
    pub fn status(report: BrowserEngineStatus) -> (status: PriceEngineStatus)
        ensures
            status@.is_healthy == report@.is_running,
            status@.current_port == report@.current_port,
            status@.message == report@.message,
    {
        PriceEngineStatus::stamped(report, now_to_the_second())
    }

    /// The port that the driver is, or will be, bound to.
    pub fn get_current_port(&self) -> (port: u16)
        ensures
            port == self@.engine.manager.current_port,
    {
        self.browser_engine.get_current_port()
    }

    /// Begins a restart of service and session.
    pub fn restart_browser_service(&mut self) -> (step: EngineStep)
        ensures
            (final(self)@.engine, step@) == old(self)@.engine.restart_with_fallback(),
            final(self)@ == (PriceEngineView { engine: final(self)@.engine, ..old(self)@ }),
            old(self)@.engine.well_formed() ==> final(self)@.engine.well_formed(),
    {
        self.browser_engine.restart_with_fallback()
    }

    /// Begins the update of a product. An address of no known site fails
    /// the update at once and leaves the engine as it is. For any other
    /// address the fetch of the rendered page begins; the outcome of the
    /// fetch goes to [`finish_fetch`].
    pub fn fetch_and_update_product(&mut self, url: &str) -> (result: Result<
        EngineStep,
        UpdateError,
    >)
        ensures
            match site_of(url@) {
                Some(_) => result matches Ok(step) && (final(self)@.engine, step@)
                    == old(self)@.engine.get_page_source(url@),
                None => result matches Err(error) && error@ == (UpdateErrorView::UnsupportedSite {
                    url: url@,
                }) && final(self)@ == old(self)@,
            },
            final(self)@ == (PriceEngineView { engine: final(self)@.engine, ..old(self)@ }),
            old(self)@.engine.well_formed() ==> final(self)@.engine.well_formed(),
    {
        match site(url) {
            Some(_) => Ok(self.browser_engine.get_page_source(url)),
            None => Err(UpdateError::UnsupportedSite { url: String::from_str(url) }),
        }
    }

    /// Begins the shutdown of the browser engine.
    pub fn shutdown(&mut self) -> (step: EngineStep)
        ensures
            (final(self)@.engine, step@) == old(self)@.engine.shutdown(),
            final(self)@ == (PriceEngineView { engine: final(self)@.engine, ..old(self)@ }),
            old(self)@.engine.well_formed() ==> final(self)@.engine.well_formed(),
    {
        self.browser_engine.shutdown()
    }

    /// Whether the engine still owns a session or a process.
    pub fn needs_shutdown(&self) -> (needed: bool)
        ensures
            needed == (self@.engine.state() != crate::scraper_engine::EngineState::Uninitialized),
    {
        self.browser_engine.needs_shutdown()
    }

    /// Takes the host's reply to the request that came with `task` and gives
    /// the next step of the operation.
    pub fn resume(&mut self, task: EngineTask, reply: Reply) -> (step: EngineStep)
        ensures
            (final(self)@.engine, step@) == old(self)@.engine.resume(task@, reply@),
            final(self)@ == (PriceEngineView { engine: final(self)@.engine, ..old(self)@ }),
            old(self)@.engine.well_formed() ==> final(self)@.engine.well_formed(),
    {
        self.browser_engine.resume(task, reply)
    }
}

} // verus!
