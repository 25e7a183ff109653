use vstd::prelude::*;
use crate::extract::{
    ExtractError, container_view, field_value, join_matches, page_shaped, page_view, texts_view,
};
use crate::record::FieldType;

verus! {

#[verifier::external_type_specification]
#[verifier::external_body]
pub struct ExHtml(scraper::Html);

#[verifier::external_type_specification]
#[verifier::external_body]
pub struct ExSelector(scraper::Selector);

#[verifier::external_type_specification]
#[verifier::external_body]
pub struct ExElementRef<'a>(scraper::ElementRef<'a>);

/// Whether `scraper::Selector::parse` accepts a text as a CSS selector group.
pub uninterp spec fn css_parses(css: Seq<char>) -> bool;

/// The document tree that `scraper::Html::parse_document` builds from a markup text.
pub uninterp spec fn document_of(markup: Seq<char>) -> scraper::Html;

/// The elements of a document that `scraper::Html::select` yields for a selector.
pub uninterp spec fn matches_in(doc: &scraper::Html, sel: scraper::Selector) -> Seq<
    scraper::ElementRef<'_>,
>;

/// The descendants of an element that `scraper::ElementRef::select` yields for a selector.
pub uninterp spec fn matches_under(el: scraper::ElementRef<'_>, sel: scraper::Selector) -> Seq<
    scraper::ElementRef<'_>,
>;

/// The text nodes under an element, as `scraper::ElementRef::text` yields them, concatenated.
pub uninterp spec fn text_of(el: scraper::ElementRef<'_>) -> Seq<char>;

/// Relies on `scraper::Selector::parse`: a CSS selector group, or none when the text is not one.
#[verifier::external_body]
fn parse_selector(css: &str) -> (r: Option<scraper::Selector>)
    ensures
        r is Some <==> css_parses(css@),
{
    scraper::Selector::parse(css).ok()
}

/// Relies on `scraper::Html::parse_document`: builds the document tree of a markup text.
#[verifier::external_body]
fn parse_markup(markup: &str) -> (doc: scraper::Html)
    ensures
        doc == document_of(markup@),
{
    scraper::Html::parse_document(markup)
}

/// Relies on `scraper::Html::select`: the elements of the document that match, in document order.
#[verifier::external_body]
fn select_in_document<'a>(doc: &'a scraper::Html, sel: &scraper::Selector) -> (r: Vec<
    scraper::ElementRef<'a>,
>)
    ensures
        r@ == matches_in(doc, *sel),
{
    doc.select(sel).collect()
}

/// Relies on `scraper::ElementRef::select`: the descendants of an element that match, in
/// document order.
#[verifier::external_body]
fn select_in_element<'a>(el: scraper::ElementRef<'a>, sel: &scraper::Selector) -> (r: Vec<
    scraper::ElementRef<'a>,
>)
    ensures
        r@ == matches_under(el, *sel),
{
    el.select(sel).collect()
}

/// Relies on `scraper::ElementRef::text`: the text nodes under an element, concatenated.
#[verifier::external_body]
fn element_text(el: scraper::ElementRef<'_>) -> (r: String)
    ensures
        r@ == text_of(el),
{
    el.text().collect()
}

/// The texts of the matches of a selector under an element, in document order.
pub open spec fn texts_under(el: scraper::ElementRef<'_>, sel: scraper::Selector) -> Seq<Seq<char>> {
    let m = matches_under(el, sel);
    Seq::new(m.len(), |i: int| text_of(m[i]))
}

/// What a container holds: for each field, the texts of its matches.
pub open spec fn container_texts(el: scraper::ElementRef<'_>, fields: Seq<Field>) -> Seq<
    Seq<Seq<char>>,
> {
    Seq::new(fields.len(), |f: int| texts_under(el, fields[f].selector))
}

/// What a page read with a schema holds: its containers in document order, each with
/// the match texts of every field.
pub open spec fn page_of(markup: Seq<char>, container: scraper::Selector, fields: Seq<Field>) -> Seq<
    Seq<Seq<Seq<char>>>,
> {
    let cs = matches_in(&document_of(markup), container);
    Seq::new(cs.len(), |c: int| container_texts(cs[c], fields))
}

/// A column of the output with the selector that finds its value inside a container.
pub struct Field {
    pub selector: scraper::Selector,
    pub name: FieldType,
}

/// The field types of a schema, in order.
pub open spec fn kinds_of(fields: Seq<Field>) -> Seq<FieldType> {
    fields.map_values(|f: Field| f.name)
}

impl Field {
    pub fn new(selector: scraper::Selector, name: FieldType) -> (r: Field)
        ensures
            r.selector == selector,
            r.name == name,
    {
        Field { selector, name }
    }

    /// A field whose selector is written in CSS; none when the CSS does not parse.
    pub fn from_css(css: &str, name: FieldType) -> (r: Option<Field>)
        ensures
            r is Some <==> css_parses(css@),
            r matches Some(f) ==> f.name == name,
    {
        match parse_selector(css) {
            Some(selector) => Some(Field { selector, name }),
            None => None,
        }
    }

    /// The texts of every element under `parent` that the field's selector matches.
    pub fn match_texts(&self, parent: scraper::ElementRef<'_>) -> (r: Vec<String>)
        ensures
            texts_view(r@) == texts_under(parent, self.selector),
    {
        let found = select_in_element(parent, &self.selector);
        let mut texts: Vec<String> = Vec::new();
        let mut i: usize = 0;
        while i < found.len()
            invariant
                i <= found@.len(),
                found@ == matches_under(parent, self.selector),
                texts_view(texts@) =~= texts_under(parent, self.selector).subrange(0, i as int),
            decreases found@.len() - i,
        {
            let t = element_text(found[i]);
            let ghost before = texts@;
            texts.push(t);
            assert(texts@ =~= before.push(t));
            assert(texts_view(texts@) =~= texts_view(before).push(t@));
            i = i + 1;
        }
        assert(texts_under(parent, self.selector).subrange(0, i as int) =~= texts_under(
            parent,
            self.selector,
        ));
        texts
    }

    /// The field's value in a container: the texts of all its matches joined with `", "`;
    /// `FieldNotFound` when the selector matches nothing there.
    pub fn extract_value(&self, parent: scraper::ElementRef<'_>) -> (r: Result<String, ExtractError>)
        ensures
            match r {
                Ok(s) => field_value(texts_under(parent, self.selector)) == Some(s@),
                Err(e) => e == ExtractError::FieldNotFound && field_value(
                    texts_under(parent, self.selector),
                ) is None,
            },
    {
        let texts = self.match_texts(parent);
        join_matches(&texts)
    }
}

/// The selectors that locate review containers in a page and the fields inside each.
pub struct PageSchema {
    pub container: scraper::Selector,
    pub fields: Vec<Field>,
}

impl PageSchema {
    /// A schema whose container selector is written in CSS; none when the CSS does not parse.
    pub fn from_css(container_css: &str, fields: Vec<Field>) -> (r: Option<PageSchema>)
        ensures
            r is Some <==> css_parses(container_css@),
            r matches Some(s) ==> s.fields@ == fields@,
    {
        match parse_selector(container_css) {
            Some(container) => Some(PageSchema { container, fields }),
            None => None,
        }
    }

    /// The field types of the schema, in order.
    pub fn kinds(&self) -> (r: Vec<FieldType>)
        ensures
            r@ == kinds_of(self.fields@),
    {
        let mut r: Vec<FieldType> = Vec::new();
        let mut i: usize = 0;
        while i < self.fields.len()
            invariant
                i <= self.fields@.len(),
                r@ =~= kinds_of(self.fields@).subrange(0, i as int),
            decreases self.fields@.len() - i,
        {
            r.push(self.fields[i].name);
            i = i + 1;
        }
        r
    }

    /// Reads a page: for each container in document order, for each field of the schema,
    /// the texts of its matches.
    pub fn read_page(&self, markup: &str) -> (page: Vec<Vec<Vec<String>>>)
        ensures
            page_view(page@) == page_of(markup@, self.container, self.fields@),
            page_shaped(page_view(page@), self.fields@.len()),
    {
        let doc = parse_markup(markup);
        let containers = select_in_document(&doc, &self.container);
        let mut page: Vec<Vec<Vec<String>>> = Vec::new();
        let mut c: usize = 0;
        while c < containers.len()
            invariant
                c <= containers@.len(),
                doc == document_of(markup@),
                containers@ == matches_in(&doc, self.container),
                page_view(page@) =~= page_of(markup@, self.container, self.fields@).subrange(
                    0,
                    c as int,
                ),
                page_shaped(page_view(page@), self.fields@.len()),
            decreases containers@.len() - c,
        {
            let mut row: Vec<Vec<String>> = Vec::new();
            let mut f: usize = 0;
            while f < self.fields.len()
                invariant
                    f <= self.fields@.len(),
                    c < containers@.len(),
                    row@.len() == f,
                    container_view(row@) =~= container_texts(containers@[c as int], self.fields@).subrange(
                        0,
                        f as int,
                    ),
                decreases self.fields@.len() - f,
            {
                row.push(self.fields[f].match_texts(containers[c]));
                f = f + 1;
            }
            assert(container_view(row@) =~= container_texts(containers@[c as int], self.fields@));
            let ghost before = page@;
            page.push(row);
            assert(page@ =~= before.push(row));
            assert(page_view(page@) =~= page_view(before).push(container_view(row@)));
            assert forall|k: int| 0 <= k < page@.len() implies #[trigger] page_view(page@)[k].len()
                == self.fields@.len() by {
                if k < before.len() {
                    assert(page_view(before)[k].len() == self.fields@.len());
                }
            }
            c = c + 1;
        }
        assert(page_of(markup@, self.container, self.fields@).subrange(0, c as int) =~= page_of(
            markup@,
            self.container,
            self.fields@,
        ));
        page
    }
}

} // verus!
