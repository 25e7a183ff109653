use review_pager::extract::ExtractError;
use review_pager::markup::{Field, PageSchema};
use review_pager::pager::{Action, Extractor, LoadMore, Phase, RunLimits};
use review_pager::record::FieldType;

fn kinds() -> Vec<FieldType> {
    vec![FieldType::Title, FieldType::Text, FieldType::Date, FieldType::Name]
}

fn container(i: usize) -> Vec<Vec<String>> {
    vec![
        vec![format!("title {}", i)],
        vec![format!("text {}", i)],
        vec![format!("date {}", i)],
        vec![format!("name {}", i)],
    ]
}

fn page(n: usize) -> Vec<Vec<Vec<String>>> {
    (0..n).map(container).collect()
}

fn limits(max_records: Option<usize>, page_size: Option<usize>) -> RunLimits {
    RunLimits { max_records, page_size }
}

#[test]
fn new_run_starts_scanning() {
    let x = Extractor::new(limits(None, Some(10)));
    assert_eq!(x.phase(), Phase::Scanning);
    assert_eq!(x.cursor(), 0);
    assert!(x.records().is_empty());
    assert_eq!(x.error(), None);
    assert_eq!(x.next_action(), Action::FetchMarkup);
    assert_eq!(x.limits().page_size, Some(10));
}

#[test]
fn twelve_reviews_in_two_loads() {
    let mut x = Extractor::new(limits(None, Some(10)));
    x.on_page(&kinds(), &page(10));
    assert_eq!(x.phase(), Phase::Advancing);
    assert_eq!(x.next_action(), Action::ClickLoadMore);
    x.on_load_more(LoadMore::Clicked);
    assert_eq!(x.next_action(), Action::FetchMarkup);
    x.on_page(&kinds(), &page(12));
    assert_eq!(x.phase(), Phase::Done);
    assert_eq!(x.next_action(), Action::Finish);
    assert_eq!(x.cursor(), 12);
    let recs = x.into_records();
    assert_eq!(recs.len(), 12);
    for (i, r) in recs.iter().enumerate() {
        assert_eq!(r.title, format!("title {}", i));
        assert_eq!(r.text, format!("text {}", i));
        assert_eq!(r.date, format!("date {}", i));
        assert_eq!(r.name, format!("name {}", i));
        assert!(!r.title.is_empty() && !r.text.is_empty() && !r.date.is_empty() && !r.name.is_empty());
    }
}

#[test]
fn cap_reached_keeps_the_whole_batch() {
    let mut x = Extractor::new(limits(Some(5), None));
    x.on_page(&kinds(), &page(10));
    assert_eq!(x.phase(), Phase::Done);
    assert_eq!(x.records().len(), 10);
}

#[test]
fn cap_not_reached_goes_on() {
    let mut x = Extractor::new(limits(Some(25), Some(10)));
    x.on_page(&kinds(), &page(10));
    assert_eq!(x.phase(), Phase::Advancing);
    x.on_load_more(LoadMore::Clicked);
    x.on_page(&kinds(), &page(20));
    assert_eq!(x.phase(), Phase::Advancing);
    x.on_load_more(LoadMore::Clicked);
    x.on_page(&kinds(), &page(30));
    assert_eq!(x.phase(), Phase::Done);
    assert_eq!(x.records().len(), 30);
}

#[test]
fn short_page_ends_the_run() {
    let mut x = Extractor::new(limits(None, Some(4)));
    let sizes = [4usize, 8, 12, 15];
    for (k, n) in sizes.iter().enumerate() {
        assert_eq!(x.phase(), Phase::Scanning);
        x.on_page(&kinds(), &page(*n));
        if k + 1 < sizes.len() {
            assert_eq!(x.phase(), Phase::Advancing);
            x.on_load_more(LoadMore::Clicked);
        }
    }
    assert_eq!(x.phase(), Phase::Done);
    assert_eq!(x.records().len(), 15);
}

#[test]
fn absent_control_after_first_scan_ends_the_run() {
    let mut x = Extractor::new(limits(None, None));
    x.on_page(&kinds(), &page(7));
    assert_eq!(x.phase(), Phase::Advancing);
    x.on_load_more(LoadMore::Absent);
    assert_eq!(x.phase(), Phase::Done);
    assert_eq!(x.error(), None);
    assert_eq!(x.records().len(), 7);
}

#[test]
fn failed_click_fails_the_run() {
    let mut x = Extractor::new(limits(None, Some(3)));
    x.on_page(&kinds(), &page(3));
    x.on_load_more(LoadMore::ClickFailed);
    assert_eq!(x.phase(), Phase::Failed);
    assert_eq!(x.error(), Some(ExtractError::InteractionError));
    assert_eq!(x.next_action(), Action::Finish);
    assert_eq!(x.records().len(), 3);
}

#[test]
fn missing_field_fails_the_run_without_that_record() {
    let mut x = Extractor::new(limits(None, Some(2)));
    x.on_page(&kinds(), &page(2));
    x.on_load_more(LoadMore::Clicked);
    let mut p = page(4);
    p[3][0] = vec![];
    x.on_page(&kinds(), &p);
    assert_eq!(x.phase(), Phase::Failed);
    assert_eq!(x.error(), Some(ExtractError::FieldNotFound));
    assert_eq!(x.cursor(), 2);
    let recs = x.into_records();
    assert_eq!(recs.len(), 2);
    assert!(recs.iter().all(|r| r.name != "name 3"));
}

#[test]
fn unchanged_page_after_click_adds_nothing() {
    let mut x = Extractor::new(limits(None, None));
    x.on_page(&kinds(), &page(5));
    x.on_load_more(LoadMore::Clicked);
    x.on_page(&kinds(), &page(5));
    assert_eq!(x.records().len(), 5);
    assert_eq!(x.phase(), Phase::Advancing);
}

#[test]
fn run_over_markup() {
    let fields = vec![
        Field::from_css(".t", FieldType::Title).unwrap(),
        Field::from_css(".b", FieldType::Text).unwrap(),
        Field::from_css(".d", FieldType::Date).unwrap(),
        Field::from_css(".n", FieldType::Name).unwrap(),
    ];
    let schema = PageSchema::from_css(".review", fields).unwrap();
    let one = "<div class='review'><b class='t'>A</b><i class='b'>x</i><i class='d'>1</i><i class='n'>Ann</i></div>";
    let two = "<div class='review'><b class='t'>B</b><i class='b'>y</i><i class='d'>2</i><i class='n'>Ben</i></div>";
    let mut x = Extractor::new(limits(None, Some(1)));
    x.on_markup(&schema, one);
    assert_eq!(x.phase(), Phase::Advancing);
    x.on_load_more(LoadMore::Clicked);
    let both = format!("{}{}", one, two);
    x.on_markup(&schema, &both);
    assert_eq!(x.phase(), Phase::Advancing);
    x.on_load_more(LoadMore::Absent);
    assert_eq!(x.phase(), Phase::Done);
    let recs = x.records();
    assert_eq!(recs.len(), 2);
    assert_eq!(recs[0].name, "Ann");
    assert_eq!(recs[1].title, "B");
}
