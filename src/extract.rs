use vstd::prelude::*;
use crate::record::{FieldType, RecordModel, Review, entries_view, record_of_map};

verus! {

/// Why an extraction run failed.
#[derive(Clone, Copy, Debug, PartialEq, Eq, Structural)]
pub enum ExtractError {
    /// A field selector matched nothing inside a container.
    FieldNotFound,
    /// The load-more control was present but could not be activated.
    InteractionError,
}

impl ExtractError {
    /// A short human-readable description.
    pub fn message(&self) -> (r: &'static str)
        ensures
            *self == ExtractError::FieldNotFound ==> r@ == "Element not found"@,
            *self == ExtractError::InteractionError ==> r@ == "Load-more control could not be clicked"@,
    {
        match self {
            ExtractError::FieldNotFound => "Element not found",
            ExtractError::InteractionError => "Load-more control could not be clicked",
        }
    }
}

/// Texts of several matches joined with `", "`, in order.
pub open spec fn join_texts(t: Seq<Seq<char>>) -> Seq<char>
    decreases t.len(),
{
    if t.len() == 0 {
        Seq::empty()
    } else if t.len() == 1 {
        t[0]
    } else {
        join_texts(t.drop_last()) + seq![',', ' '] + t.last()
    }
}

/// The value of a field from the texts of its matches: none when nothing matched.
pub open spec fn field_value(matches: Seq<Seq<char>>) -> Option<Seq<char>> {
    if matches.len() == 0 {
        None
    } else {
        Some(join_texts(matches))
    }
}

pub open spec fn texts_view(v: Seq<String>) -> Seq<Seq<char>> {
    v.map_values(|s: String| s@)
}

/// What a container holds: for each field of the schema, the texts of its matches.
pub open spec fn container_view(c: Seq<Vec<String>>) -> Seq<Seq<Seq<char>>> {
    c.map_values(|f: Vec<String>| texts_view(f@))
}

/// What a page holds: its containers in document order.
pub open spec fn page_view(p: Seq<Vec<Vec<String>>>) -> Seq<Seq<Seq<Seq<char>>>> {
    p.map_values(|c: Vec<Vec<String>>| container_view(c@))
}

pub open spec fn records_view(v: Seq<Review>) -> Seq<RecordModel> {
    v.map_values(|r: Review| r@)
}

/// Every container of the page has one entry per schema field.
pub open spec fn page_shaped(page: Seq<Seq<Seq<Seq<char>>>>, n: nat) -> bool {
    forall|c: int| 0 <= c < page.len() ==> #[trigger] page[c].len() == n
}

/// The field map of a container: each schema field with its joined match texts.
pub open spec fn container_entries(kinds: Seq<FieldType>, c: Seq<Seq<Seq<char>>>) -> Seq<
    (FieldType, Seq<char>),
> {
    Seq::new(kinds.len(), |i: int| (kinds[i], join_texts(c[i])))
}

/// Every field of the container matched at least once.
pub open spec fn all_fields_found(c: Seq<Seq<Seq<char>>>) -> bool {
    forall|i: int| 0 <= i < c.len() ==> #[trigger] c[i].len() > 0
}

/// The record of one container, if every field matched and every column has a field.
pub open spec fn record_of_container(kinds: Seq<FieldType>, c: Seq<Seq<Seq<char>>>) -> Option<
    RecordModel,
> {
    if all_fields_found(c) {
        record_of_map(container_entries(kinds, c))
    } else {
        None
    }
}

/// The records of containers `from .. to`, in order; none if one of them has no record.
pub open spec fn scan_range(
    kinds: Seq<FieldType>,
    page: Seq<Seq<Seq<Seq<char>>>>,
    from: int,
    to: int,
) -> Option<Seq<RecordModel>>
    decreases to - from,
{
    if to <= from {
        Some(Seq::empty())
    } else {
        match (scan_range(kinds, page, from, to - 1), record_of_container(kinds, page[to - 1])) {
            (Some(s), Some(r)) => Some(s.push(r)),
            _ => None,
        }
    }
}

/// The batch that one scan of a page yields: the records of the containers past the cursor.
pub open spec fn scan_batch(kinds: Seq<FieldType>, page: Seq<Seq<Seq<Seq<char>>>>, cursor: nat) -> Option<
    Seq<RecordModel>,
> {
    scan_range(kinds, page, cursor as int, page.len() as int)
}

/// A range that fails to scan makes every longer range fail too.
proof fn lemma_scan_failure_extends(
    kinds: Seq<FieldType>,
    page: Seq<Seq<Seq<Seq<char>>>>,
    from: int,
    mid: int,
    to: int,
)
    requires
        from <= mid <= to,
        scan_range(kinds, page, from, mid) is None,
    ensures
        scan_range(kinds, page, from, to) is None,
    decreases to - mid,
{
    if mid < to {
        lemma_scan_failure_extends(kinds, page, from, mid + 1, to);
    }
}

/// Joins the texts of a field's matches with `", "`; fails when there are none.
pub fn join_matches(texts: &Vec<String>) -> (r: Result<String, ExtractError>)
    ensures
        match r {
            Ok(s) => field_value(texts_view(texts@)) == Some(s@),
            Err(e) => e == ExtractError::FieldNotFound && field_value(texts_view(texts@)) is None,
        },
{
    if texts.len() == 0 {
        return Err(ExtractError::FieldNotFound);
    }
    let ghost t = texts_view(texts@);
    let mut out = texts[0].clone();
    let mut i: usize = 1;
    assert(t.subrange(0, 1) =~= seq![t[0]]);
    while i < texts.len()
        invariant
            1 <= i <= texts@.len(),
            t == texts_view(texts@),
            out@ == join_texts(t.subrange(0, i as int)),
        decreases texts@.len() - i,
    {
        proof {
            reveal_strlit(", ");
        }
        out.append(", ");
        out.append(texts[i].as_str());
        assert(t.subrange(0, i + 1).drop_last() =~= t.subrange(0, i as int));
        i = i + 1;
    }
    assert(t.subrange(0, i as int) =~= t);
    Ok(out)
}

/// Builds the record of one container from the match texts of each schema field.
pub fn extract_record(kinds: &Vec<FieldType>, container: &Vec<Vec<String>>) -> (r: Result<
    Review,
    ExtractError,
>)
    requires
        container@.len() == kinds@.len(),
    ensures
        match r {
            Ok(rev) => record_of_container(kinds@, container_view(container@)) == Some(rev@),
            Err(e) => e == ExtractError::FieldNotFound && record_of_container(
                kinds@,
                container_view(container@),
            ) is None,
        },
{
    let ghost c = container_view(container@);
    let mut map: Vec<(FieldType, String)> = Vec::new();
    let mut i: usize = 0;
    while i < kinds.len()
        invariant
            i <= kinds@.len(),
            container@.len() == kinds@.len(),
            c == container_view(container@),
            entries_view(map@) =~= container_entries(kinds@, c).subrange(0, i as int),
            forall|j: int| 0 <= j < i ==> #[trigger] c[j].len() > 0,
        decreases kinds@.len() - i,
    {
        match join_matches(&container[i]) {
            Ok(value) => {
                let ghost before = map@;
                map.push((kinds[i], value));
                assert(map@ =~= before.push((kinds@[i as int], value)));
                assert(c[i as int] == texts_view(container@[i as int]@));
                assert(entries_view(map@) =~= entries_view(before).push((kinds@[i as int], value@)));
            },
            Err(e) => {
                assert(c[i as int].len() == 0);
                return Err(e);
            },
        }
        i = i + 1;
    }
    assert(entries_view(map@) =~= container_entries(kinds@, c));
    match Review::from_map(&map) {
        Some(rev) => Ok(rev),
        None => Err(ExtractError::FieldNotFound),
    }
}

/// Extracts the records of the containers past `cursor`, in order. The batch is all or
/// nothing: a container without a record fails it with `FieldNotFound`.
pub fn extract_batch(kinds: &Vec<FieldType>, page: &Vec<Vec<Vec<String>>>, cursor: usize) -> (r:
    Result<Vec<Review>, ExtractError>)
    requires
        page_shaped(page_view(page@), kinds@.len()),
    ensures
        match r {
            Ok(v) => scan_batch(kinds@, page_view(page@), cursor as nat) == Some(records_view(v@)),
            Err(e) => e == ExtractError::FieldNotFound && scan_batch(
                kinds@,
                page_view(page@),
                cursor as nat,
            ) is None,
        },
{
    let ghost p = page_view(page@);
    let mut out: Vec<Review> = Vec::new();
    if cursor >= page.len() {
        return Ok(out);
    }
    let mut i: usize = cursor;
    while i < page.len()
        invariant
            cursor <= i <= page@.len(),
            p == page_view(page@),
            page_shaped(p, kinds@.len()),
            scan_range(kinds@, p, cursor as int, i as int) == Some(records_view(out@)),
        decreases page@.len() - i,
    {
        assert(p[i as int].len() == kinds@.len());
        match extract_record(kinds, &page[i]) {
            Ok(rev) => {
                out.push(rev);
                assert(records_view(out@) =~= records_view(out@).drop_last().push(rev@));
            },
            Err(e) => {
                proof {
                    lemma_scan_failure_extends(kinds@, p, cursor as int, i as int + 1, p.len() as int);
                }
                return Err(e);
            },
        }
        i = i + 1;
    }
    Ok(out)
}

} // verus!
