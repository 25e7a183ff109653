use review_pager::extract::{extract_batch, extract_record, join_matches, ExtractError};
use review_pager::markup::{Field, PageSchema};
use review_pager::record::{to_field_type, FieldType, Review};

fn s(t: &str) -> String {
    t.to_string()
}

fn kinds() -> Vec<FieldType> {
    vec![FieldType::Title, FieldType::Text, FieldType::Date, FieldType::Name]
}

fn container(i: usize) -> Vec<Vec<String>> {
    vec![
        vec![format!("title {}", i)],
        vec![format!("text {}", i)],
        vec![format!("date {}", i)],
        vec![format!("name {}", i)],
    ]
}

#[test]
fn field_names_map_to_types() {
    assert_eq!(to_field_type("title"), Some(FieldType::Title));
    assert_eq!(to_field_type("text"), Some(FieldType::Text));
    assert_eq!(to_field_type("date"), Some(FieldType::Date));
    assert_eq!(to_field_type("name"), Some(FieldType::Name));
    assert_eq!(to_field_type("Title"), None);
    assert_eq!(to_field_type(""), None);
}

#[test]
fn from_map_takes_each_column() {
    let map = vec![
        (FieldType::Name, s("Bob")),
        (FieldType::Title, s("Great")),
        (FieldType::Date, s("2023-01-02")),
        (FieldType::Text, s("Works well")),
        (FieldType::Title, s("ignored")),
    ];
    let r: Review = Review::from_map(&map).unwrap();
    assert_eq!(r.title, "Great");
    assert_eq!(r.text, "Works well");
    assert_eq!(r.date, "2023-01-02");
    assert_eq!(r.name, "Bob");
}

#[test]
fn from_map_without_a_column_is_none() {
    let map = vec![
        (FieldType::Title, s("Great")),
        (FieldType::Text, s("Works well")),
        (FieldType::Name, s("Bob")),
    ];
    assert!(Review::from_map(&map).is_none());
}

#[test]
fn join_of_two_matches() {
    let r = join_matches(&vec![s("Alice"), s("A. Smith")]).unwrap();
    assert_eq!(r, "Alice, A. Smith");
}

#[test]
fn join_of_one_match_is_its_text() {
    assert_eq!(join_matches(&vec![s("Alice")]).unwrap(), "Alice");
    assert_eq!(join_matches(&vec![s("a"), s("b"), s("c")]).unwrap(), "a, b, c");
}

#[test]
fn join_of_no_match_fails() {
    assert_eq!(join_matches(&vec![]), Err(ExtractError::FieldNotFound));
}

#[test]
fn record_of_container_with_multi_match_name() {
    let c = vec![
        vec![s("Nice")],
        vec![s("Soft hair")],
        vec![s("May 1")],
        vec![s("Alice"), s("A. Smith")],
    ];
    let r = extract_record(&kinds(), &c).unwrap();
    assert_eq!(r.name, "Alice, A. Smith");
    assert_eq!(r.title, "Nice");
    assert_eq!(r.text, "Soft hair");
    assert_eq!(r.date, "May 1");
}

#[test]
fn record_with_an_empty_field_fails() {
    let c = vec![vec![s("Nice")], vec![], vec![s("May 1")], vec![s("Alice")]];
    assert!(matches!(extract_record(&kinds(), &c), Err(ExtractError::FieldNotFound)));
}

#[test]
fn record_with_a_schema_missing_a_column_fails() {
    let k = vec![FieldType::Title, FieldType::Text, FieldType::Date];
    let c = vec![vec![s("Nice")], vec![s("x")], vec![s("May 1")]];
    assert!(matches!(extract_record(&k, &c), Err(ExtractError::FieldNotFound)));
}

#[test]
fn batch_skips_the_cursor() {
    let page: Vec<Vec<Vec<String>>> = (0..5).map(container).collect();
    let b = extract_batch(&kinds(), &page, 3).unwrap();
    assert_eq!(b.len(), 2);
    assert_eq!(b[0].title, "title 3");
    assert_eq!(b[1].name, "name 4");
}

#[test]
fn rescan_of_unchanged_page_yields_nothing() {
    let page: Vec<Vec<Vec<String>>> = (0..4).map(container).collect();
    let first = extract_batch(&kinds(), &page, 0).unwrap();
    assert_eq!(first.len(), 4);
    let again = extract_batch(&kinds(), &page, first.len()).unwrap();
    assert!(again.is_empty());
}

#[test]
fn batch_with_a_broken_container_fails() {
    let mut page: Vec<Vec<Vec<String>>> = (0..4).map(container).collect();
    page[2][3] = vec![];
    assert!(matches!(extract_batch(&kinds(), &page, 0), Err(ExtractError::FieldNotFound)));
    // the broken container lies before the cursor: it is not read again
    assert_eq!(extract_batch(&kinds(), &page, 3).unwrap().len(), 1);
}

#[test]
fn error_messages() {
    assert_eq!(ExtractError::FieldNotFound.message(), "Element not found");
    assert_eq!(
        ExtractError::InteractionError.message(),
        "Load-more control could not be clicked"
    );
}

fn schema() -> PageSchema {
    let fields = vec![
        Field::from_css(".t", FieldType::Title).unwrap(),
        Field::from_css(".b", FieldType::Text).unwrap(),
        Field::from_css(".d", FieldType::Date).unwrap(),
        Field::from_css(".n", FieldType::Name).unwrap(),
    ];
    PageSchema::from_css(".review", fields).unwrap()
}

#[test]
fn invalid_css_is_refused() {
    assert!(Field::from_css("..[", FieldType::Title).is_none());
    assert!(PageSchema::from_css("..[", vec![]).is_none());
}

#[test]
fn page_is_read_per_container_and_field() {
    let html = "<html><body>\
        <div class='review'><h3 class='t'>Nice</h3><p class='b'>Soft <b>hair</b></p>\
        <span class='d'>May 1</span><span class='n'>Alice</span><span class='n'>A. Smith</span></div>\
        <div class='review'><h3 class='t'>Meh</h3><p class='b'>Ok</p>\
        <span class='d'>May 2</span></div>\
        </body></html>";
    let sc = schema();
    let page = sc.read_page(html);
    assert_eq!(page.len(), 2);
    assert_eq!(page[0][0], vec![s("Nice")]);
    assert_eq!(page[0][1], vec![s("Soft hair")]);
    assert_eq!(page[0][3], vec![s("Alice"), s("A. Smith")]);
    assert!(page[1][3].is_empty());
    let r = extract_record(&sc.kinds(), &page[0]).unwrap();
    assert_eq!(r.name, "Alice, A. Smith");
    assert!(extract_record(&sc.kinds(), &page[1]).is_err());
}

#[test]
fn field_value_inside_a_container() {
    let doc = scraper::Html::parse_document(
        "<div class='review'><span class='n'>Alice</span><span class='n'>A. Smith</span></div>",
    );
    let sel = scraper::Selector::parse(".review").unwrap();
    let el = doc.select(&sel).next().unwrap();
    let name = Field::from_css(".n", FieldType::Name).unwrap();
    assert_eq!(name.extract_value(el).unwrap(), "Alice, A. Smith");
    let date = Field::new(scraper::Selector::parse(".d").unwrap(), FieldType::Date);
    assert_eq!(date.extract_value(el), Err(ExtractError::FieldNotFound));
}
