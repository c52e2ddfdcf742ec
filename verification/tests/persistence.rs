use price_tracker::database::{
    price_row, price_row_now, product_record, product_row, restored_price_rows,
    restored_product_row, DatabaseBackup, PriceRow, ProductRow,
};
use price_tracker::models::{
    PriceEntry, ProductDetails, ProductRecord, SpecEntry, SpecGroup, Specifications,
};
use price_tracker::price_engine::{
    finish_fetch, finish_update, plan, writes, writes_now, PriceEngine, UpdateError, UpdateWrites,
};
use price_tracker::scraper_engine::{EngineError, EngineOutcome};
use price_tracker::scraper_engine::EngineStep;
use price_tracker::host::Request;
use price_tracker::status::BrowserEngineStatus;

fn texts(items: &[&str]) -> Vec<String> {
    items.iter().map(|item| item.to_string()).collect()
}

fn details() -> ProductDetails {
    ProductDetails {
        id: "B0ABCDEFGH".to_string(),
        site: "Amazon".to_string(),
        url: "https://www.amazon.in/dp/B0ABCDEFGH".to_string(),
        title: "Widget \"Pro\"".to_string(),
        price: Some(1299),
        rating: "4.5".to_string(),
        features: texts(&["Fast", "Light"]),
        specifications: Specifications::Flat(vec![
            SpecEntry { key: "Brand".to_string(), value: "Acme".to_string() },
            SpecEntry { key: "Colour".to_string(), value: "Red".to_string() },
        ]),
        in_stock: true,
        seller: Some("Acme Retail".to_string()),
        images: texts(&["a.jpg"]),
    }
}

fn record() -> ProductRecord {
    ProductRecord {
        id: "B0ABCDEFGH".to_string(),
        site: "Amazon".to_string(),
        url: "https://www.amazon.in/dp/B0ABCDEFGH".to_string(),
        title: "Widget".to_string(),
        seller: None,
        images: texts(&["a.jpg", "b.jpg"]),
        specifications: "{\"Brand\":\"Acme\"}".to_string(),
        features: vec![],
        price_history: vec![
            PriceEntry { price: 10, in_stock: true, timestamp: "2024-01-01T00:00:00+00:00".to_string() },
            PriceEntry { price: 12, in_stock: false, timestamp: "2024-01-02T00:00:00+00:00".to_string() },
        ],
    }
}

#[test]
fn product_row_keeps_lists_as_json() {
    assert_eq!(
        product_row(&details()),
        ProductRow {
            id: "B0ABCDEFGH".to_string(),
            site: "Amazon".to_string(),
            url: "https://www.amazon.in/dp/B0ABCDEFGH".to_string(),
            title: "Widget \"Pro\"".to_string(),
            seller: Some("Acme Retail".to_string()),
            images: "[\"a.jpg\"]".to_string(),
            features: "[\"Fast\",\"Light\"]".to_string(),
            specifications: "{\"Brand\":\"Acme\",\"Colour\":\"Red\"}".to_string(),
        }
    );
}

#[test]
fn product_row_keeps_groups_as_nested_json() {
    let mut grouped = details();
    grouped.features = texts(&["say \"hi\""]);
    grouped.specifications = Specifications::Grouped(vec![
        SpecGroup {
            title: "General".to_string(),
            entries: vec![SpecEntry { key: "Model".to_string(), value: "G1".to_string() }],
        },
        SpecGroup { title: "Other".to_string(), entries: vec![] },
    ]);
    let row = product_row(&grouped);
    assert_eq!(row.specifications, "{\"General\":{\"Model\":\"G1\"},\"Other\":{}}");
    assert_eq!(row.features, "[\"say \\\"hi\\\"\"]");
}

#[test]
fn price_row_needs_a_price() {
    let with_price = details();
    assert_eq!(
        price_row(&with_price, "2024-05-06T07:08:09+00:00".to_string()),
        Some(PriceRow {
            product_id: "B0ABCDEFGH".to_string(),
            price: 1299,
            in_stock: true,
            timestamp: "2024-05-06T07:08:09+00:00".to_string(),
        })
    );
    let mut without = details();
    without.price = None;
    assert_eq!(price_row(&without, "2024-05-06T07:08:09+00:00".to_string()), None);
    assert_eq!(price_row_now(&without), None);
}

#[test]
fn price_row_now_is_stamped() {
    let row = price_row_now(&details()).unwrap();
    assert_eq!(row.product_id, "B0ABCDEFGH");
    assert_eq!(row.price, 1299);
    assert!(row.in_stock);
    assert!(row.timestamp.len() >= 20);
    assert_eq!(&row.timestamp[4..5], "-");
    assert_eq!(&row.timestamp[10..11], "T");
}

#[test]
fn product_record_reads_lists_from_json() {
    let row = ProductRow {
        id: "id".to_string(),
        site: "Flipkart".to_string(),
        url: "u".to_string(),
        title: "t".to_string(),
        seller: Some("s".to_string()),
        images: "[\"x.jpg\", \"y.jpg\"]".to_string(),
        features: "".to_string(),
        specifications: "{}".to_string(),
    };
    let history = vec![PriceEntry { price: 5, in_stock: true, timestamp: "now".to_string() }];
    assert_eq!(
        product_record(row, history.clone()),
        ProductRecord {
            id: "id".to_string(),
            site: "Flipkart".to_string(),
            url: "u".to_string(),
            title: "t".to_string(),
            seller: Some("s".to_string()),
            images: texts(&["x.jpg", "y.jpg"]),
            specifications: "{}".to_string(),
            features: vec![],
            price_history: history,
        }
    );
}

#[test]
fn product_record_ignores_columns_that_hold_no_list() {
    let row = ProductRow {
        id: "id".to_string(),
        site: "Amazon".to_string(),
        url: "u".to_string(),
        title: "t".to_string(),
        seller: None,
        images: "{\"a\":1}".to_string(),
        features: "[1, 2]".to_string(),
        specifications: "".to_string(),
    };
    let record = product_record(row, vec![]);
    assert_eq!(record.images, Vec::<String>::new());
    assert_eq!(record.features, Vec::<String>::new());
    assert_eq!(record.specifications, "");
}

#[test]
fn restored_rows_follow_the_record() {
    let record = record();
    assert_eq!(
        restored_product_row(&record),
        ProductRow {
            id: "B0ABCDEFGH".to_string(),
            site: "Amazon".to_string(),
            url: "https://www.amazon.in/dp/B0ABCDEFGH".to_string(),
            title: "Widget".to_string(),
            seller: None,
            images: "[\"a.jpg\",\"b.jpg\"]".to_string(),
            features: "[]".to_string(),
            specifications: "{\"Brand\":\"Acme\"}".to_string(),
        }
    );
    assert_eq!(
        restored_price_rows(&record),
        vec![
            PriceRow {
                product_id: "B0ABCDEFGH".to_string(),
                price: 10,
                in_stock: true,
                timestamp: "2024-01-01T00:00:00+00:00".to_string(),
            },
            PriceRow {
                product_id: "B0ABCDEFGH".to_string(),
                price: 12,
                in_stock: false,
                timestamp: "2024-01-02T00:00:00+00:00".to_string(),
            },
        ]
    );
}

#[test]
fn rows_round_trip_through_the_record() {
    let record = record();
    let row = restored_product_row(&record);
    assert_eq!(product_record(row, record.price_history.clone()), record);
}

#[test]
fn backup_carries_version_and_time() {
    let backup = DatabaseBackup::new(vec![record()], "2024-01-03T00:00:00+00:00".to_string());
    assert_eq!(backup.version, "1.0.0");
    assert_eq!(backup.backup_timestamp, "2024-01-03T00:00:00+00:00");
    assert_eq!(backup.products, vec![record()]);
    let now = DatabaseBackup::taken_now(vec![]);
    assert_eq!(now.version, "1.0.0");
    assert_eq!(now.products, vec![]);
    assert_eq!(&now.backup_timestamp[10..11], "T");
}

#[test]
fn finished_update_returns_the_record() {
    assert_eq!(finish_update(Some(record())), Ok(record()));
}

#[test]
fn price_engine_begins_with_the_browser_engine() {
    let (mut engine, step) =
        PriceEngine::new(9515, "/usr/bin/chromium", "prices.db", "/usr/bin/chromedriver");
    assert_eq!(engine.database_path(), "prices.db");
    assert_eq!(engine.get_current_port(), 9515);
    assert!(!engine.needs_shutdown());
    match step {
        EngineStep::Ask(request, _) => assert_eq!(request, Request::ProbePort { port: 9515 }),
        EngineStep::Done(_) => panic!("creation begins with a probe"),
    }
    let fetch = engine.fetch_and_update_product("https://www.amazon.in/dp/B0ABCDEFGH");
    match fetch {
        Ok(EngineStep::Ask(request, _)) => assert_eq!(request, Request::ProbePort { port: 9515 }),
        other => panic!("a fetch without a session begins with the restart, not {:?}", other),
    }
    let status = engine.check_service_status();
    match status {
        EngineStep::Ask(request, _) => assert_eq!(
            request,
            Request::QueryStatus { url: "http://localhost:9515/status".to_string(), timeout_seconds: 5 }
        ),
        EngineStep::Done(_) => panic!("a report begins with a query"),
    }
}

#[test]
fn price_engine_status_is_stamped_to_the_second() {
    let report = BrowserEngineStatus {
        is_running: false,
        current_port: 9520,
        message: "Service not responding on port 9520: refused".to_string(),
        requires_restart: true,
    };
    let status = PriceEngine::status(report);
    assert!(!status.is_healthy);
    assert_eq!(status.current_port, 9520);
    assert_eq!(status.message, "Service not responding on port 9520: refused");
    assert_eq!(status.last_check.len(), 23);
    assert!(status.last_check.ends_with(" UTC"));
    assert_eq!(&status.last_check[4..5], "-");
    assert_eq!(&status.last_check[13..14], ":");
}

#[test]
fn an_unsupported_address_fails_the_update_at_once() {
    let (mut engine, _) =
        PriceEngine::new(9515, "/usr/bin/chromium", "prices.db", "/usr/bin/chromedriver");
    let result = engine.fetch_and_update_product("https://example.com/item");
    assert_eq!(
        result,
        Err(UpdateError::UnsupportedSite { url: "https://example.com/item".to_string() })
    );
    assert_eq!(engine.get_current_port(), 9515);
    assert!(!engine.needs_shutdown());
}

#[test]
fn finish_fetch_plans_the_update_for_the_page() {
    let page = "<html><body><span id=\"productTitle\">Widget</span>\
        <span class=\"a-price-whole\">1,299.</span>\
        <div id=\"availability\"><span class=\"a-color-success\">In stock</span></div>\
        </body></html>";
    let url = "https://www.amazon.in/dp/B0ABCDEFGH";
    let plan = finish_fetch(EngineOutcome::Page(page.to_string()), url).unwrap();
    assert_eq!(plan.details.title, "Widget");
    assert_eq!(plan.details.url, url);
    assert_eq!(plan.details.price, Some(1299));
    assert!(plan.details.in_stock);
    assert!(plan.record_price);

    let sold_out = "<html><body><span class=\"a-price-whole\">1,299.</span></body></html>";
    let plan = finish_fetch(EngineOutcome::Page(sold_out.to_string()), url).unwrap();
    assert!(!plan.record_price);
}

#[test]
fn finish_fetch_surfaces_the_failure_of_the_fetch() {
    let url = "https://www.amazon.in/dp/B0ABCDEFGH";
    assert_eq!(
        finish_fetch(
            EngineOutcome::Failed(EngineError::NavigationFailed { reason: "timeout".to_string() }),
            url
        ),
        Err(UpdateError::Fetch(EngineError::NavigationFailed { reason: "timeout".to_string() }))
    );
    assert_eq!(finish_fetch(EngineOutcome::ShutDown, url), Err(UpdateError::UnexpectedOutcome));
    assert_eq!(
        finish_fetch(EngineOutcome::Page(String::new()), "https://example.com/"),
        Err(UpdateError::UnsupportedSite { url: "https://example.com/".to_string() })
    );
}

#[test]
fn writes_follow_the_plan() {
    let planned = plan(details());
    assert!(planned.record_price);
    assert_eq!(
        writes(&planned, "2024-05-06T07:08:09+00:00".to_string()),
        UpdateWrites {
            product: product_row(&details()),
            price: Some(PriceRow {
                product_id: "B0ABCDEFGH".to_string(),
                price: 1299,
                in_stock: true,
                timestamp: "2024-05-06T07:08:09+00:00".to_string(),
            }),
        }
    );

    let mut sold_out = details();
    sold_out.in_stock = false;
    let planned = plan(sold_out.clone());
    assert_eq!(
        writes(&planned, "2024-05-06T07:08:09+00:00".to_string()),
        UpdateWrites { product: product_row(&sold_out), price: None }
    );
    assert_eq!(writes_now(&planned).price, None);

    let planned = plan(details());
    let rows = writes_now(&planned);
    assert_eq!(rows.product, product_row(&details()));
    assert_eq!(rows.price.map(|row| (row.price, row.in_stock)), Some((1299, true)));
}
