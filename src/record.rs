use vstd::prelude::*;

verus! {

/// The four columns of a review record.
#[derive(Clone, Copy, Debug, PartialEq, Eq, Structural, Hash)]
pub enum FieldType {
    Title,
    Text,
    Date,
    Name,
}

/// The field type named by a column name (`title`, `text`, `date`, `name`).
pub open spec fn field_type_named(s: Seq<char>) -> Option<FieldType> {
    if s == "title"@ {
        Some(FieldType::Title)
    } else if s == "text"@ {
        Some(FieldType::Text)
    } else if s == "date"@ {
        Some(FieldType::Date)
    } else if s == "name"@ {
        Some(FieldType::Name)
    } else {
        None
    }
}

/// Character-wise equality of two strings.
fn same_text(a: &str, b: &str) -> (r: bool)
    ensures
        r == (a@ == b@),
{
    let n = a.unicode_len();
    if n != b.unicode_len() {
        return false;
    }
    let mut i: usize = 0;
    while i < n
        invariant
            n == a@.len(),
            n == b@.len(),
            i <= n,
            forall|j: int| 0 <= j < i ==> a@[j] == b@[j],
        decreases n - i,
    {
        if a.get_char(i) != b.get_char(i) {
            return false;
        }
        i = i + 1;
    }
    assert(a@ =~= b@);
    true
}

/// Maps a column name to its field type; any other name has none.
pub fn to_field_type(name: &str) -> (r: Option<FieldType>)
    ensures
        r == field_type_named(name@),
{
    if same_text(name, "title") {
        Some(FieldType::Title)
    } else if same_text(name, "text") {
        Some(FieldType::Text)
    } else if same_text(name, "date") {
        Some(FieldType::Date)
    } else if same_text(name, "name") {
        Some(FieldType::Name)
    } else {
        None
    }
}

/// The text content of a review record.
pub ghost struct RecordModel {
    pub title: Seq<char>,
    pub text: Seq<char>,
    pub date: Seq<char>,
    pub name: Seq<char>,
}

/// One extracted review.
#[derive(Debug)]
pub struct Review {
    pub title: String,
    pub text: String,
    pub date: String,
    pub name: String,
}

impl View for Review {
    type V = RecordModel;

    open spec fn view(&self) -> RecordModel {
        RecordModel { title: self.title@, text: self.text@, date: self.date@, name: self.name@ }
    }
}

/// The entries of a field map, with each value read as text.
pub open spec fn entries_view(m: Seq<(FieldType, String)>) -> Seq<(FieldType, Seq<char>)> {
    m.map_values(|e: (FieldType, String)| (e.0, e.1@))
}

/// The value of the first entry whose key is `t`.
pub open spec fn lookup(m: Seq<(FieldType, Seq<char>)>, t: FieldType) -> Option<Seq<char>>
    decreases m.len(),
{
    if m.len() == 0 {
        None
    } else {
        match lookup(m.drop_last(), t) {
            Some(v) => Some(v),
            None => if m.last().0 == t {
                Some(m.last().1)
            } else {
                None
            },
        }
    }
}

/// The record that a field map describes: present exactly when all four keys are.
pub open spec fn record_of_map(m: Seq<(FieldType, Seq<char>)>) -> Option<RecordModel> {
    match (
        lookup(m, FieldType::Title),
        lookup(m, FieldType::Text),
        lookup(m, FieldType::Date),
        lookup(m, FieldType::Name),
    ) {
        (Some(title), Some(text), Some(date), Some(name)) => Some(
            RecordModel { title, text, date, name },
        ),
        _ => None,
    }
}

/// Index of the first entry of the map keyed `t`, if any.
fn find_key(map: &Vec<(FieldType, String)>, t: FieldType) -> (r: Option<usize>)
    ensures
        match r {
            Some(i) => i < map@.len() && lookup(entries_view(map@), t) == Some(map@[i as int].1@),
            None => lookup(entries_view(map@), t) is None,
        },
{
    let mut i: usize = 0;
    while i < map.len()
        invariant
            i <= map@.len(),
            lookup(entries_view(map@).subrange(0, i as int), t) is None,
        decreases map@.len() - i,
    {
        let ghost m = entries_view(map@);
        assert(m.subrange(0, i + 1).drop_last() =~= m.subrange(0, i as int));
        if map[i].0 == t {
            proof { lemma_lookup_prefix(m, i + 1, t); }
            return Some(i);
        }
        i = i + 1;
    }
    assert(entries_view(map@).subrange(0, i as int) =~= entries_view(map@));
    None
}

/// A key found in a prefix of the map is found, with the same value, in the whole map.
proof fn lemma_lookup_prefix(m: Seq<(FieldType, Seq<char>)>, k: int, t: FieldType)
    requires
        0 <= k <= m.len(),
        lookup(m.subrange(0, k), t) is Some,
    ensures
        lookup(m, t) == lookup(m.subrange(0, k), t),
    decreases m.len() - k,
{
    if k < m.len() {
        assert(m.subrange(0, k + 1).drop_last() =~= m.subrange(0, k));
        lemma_lookup_prefix(m, k + 1, t);
    } else {
        assert(m.subrange(0, k) =~= m);
    }
}

impl Review {
    /// Builds a review from a map of field values, taking for each column the first
    /// entry with its key; none when a column has no entry.
    pub fn from_map(map: &Vec<(FieldType, String)>) -> (r: Option<Review>)
        ensures
            match r {
                Some(rev) => record_of_map(entries_view(map@)) == Some(rev@),
                None => record_of_map(entries_view(map@)) is None,
            },
    {
        let title = find_key(map, FieldType::Title);
        let text = find_key(map, FieldType::Text);
        let date = find_key(map, FieldType::Date);
        let name = find_key(map, FieldType::Name);
        match (title, text, date, name) {
            (Some(a), Some(b), Some(c), Some(d)) => Some(
                Review {
                    title: map[a].1.clone(),
                    text: map[b].1.clone(),
                    date: map[c].1.clone(),
                    name: map[d].1.clone(),
                },
            ),
            _ => None,
        }
    }
}

} // verus!
