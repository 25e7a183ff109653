use vstd::prelude::*;
use crate::extract::{ExtractError, extract_batch, page_shaped, page_view, records_view, scan_batch};
use crate::laws::lemma_missing_field_fails;
use crate::markup::{PageSchema, kinds_of, page_of};
use crate::record::{FieldType, RecordModel, Review};

verus! {

/// Optional bounds on a run: a cap on the number of records, and the number of records
/// that one activation of the load-more control is expected to reveal.
#[derive(Clone, Copy, Debug)]
pub struct RunLimits {
    pub max_records: Option<usize>,
    pub page_size: Option<usize>,
}

/// Where a run stands.
#[derive(Clone, Copy, Debug, PartialEq, Eq, Structural)]
pub enum Phase {
    /// The next step reads the current markup.
    Scanning,
    /// The next step activates the load-more control.
    Advancing,
    /// The run ended normally: content exhausted or the record cap reached.
    Done,
    /// The run ended on an error.
    Failed,
}

/// What the driver of a run has to do next.
#[derive(Clone, Copy, Debug, PartialEq, Eq, Structural)]
pub enum Action {
    /// Fetch the current markup of the page and hand it to the extractor.
    FetchMarkup,
    /// Locate the load-more control, click it, and report the outcome.
    ClickLoadMore,
    /// Stop: the run is over.
    Finish,
}

/// What came of an attempt to activate the load-more control.
#[derive(Clone, Copy, Debug, PartialEq, Eq, Structural)]
pub enum LoadMore {
    /// The control is not on the page: the content is exhausted.
    Absent,
    /// The control was clicked.
    Clicked,
    /// The control is on the page but the click failed.
    ClickFailed,
}

/// The control state of a run: its phase and the number of records so far.
pub ghost struct RunState {
    pub phase: Phase,
    pub count: nat,
}

/// Limits are usable when a page size, if given, is positive.
pub open spec fn limits_valid(limits: RunLimits) -> bool {
    limits.page_size != Some(0usize)
}

pub open spec fn limit_reached(limits: RunLimits, count: nat) -> bool {
    match limits.max_records {
        Some(m) => count >= m,
        None => false,
    }
}

/// The count is not a whole number of pages: the last page was short.
pub open spec fn partial_page(limits: RunLimits, count: nat) -> bool {
    match limits.page_size {
        Some(p) => count % (p as nat) != 0,
        None => false,
    }
}

/// The phase after a batch has brought the count to `count`.
pub open spec fn phase_after_batch(limits: RunLimits, count: nat) -> Phase {
    if limit_reached(limits, count) || partial_page(limits, count) {
        Phase::Done
    } else {
        Phase::Advancing
    }
}

pub open spec fn initial_state() -> RunState {
    RunState { phase: Phase::Scanning, count: 0 }
}

/// A successful scan that added `batch` records.
pub open spec fn step_scan(limits: RunLimits, s: RunState, batch: nat) -> RunState {
    RunState { phase: phase_after_batch(limits, s.count + batch), count: s.count + batch }
}

/// The outcome of an attempt to load more content.
pub open spec fn step_load_more(s: RunState, outcome: LoadMore) -> RunState {
    RunState {
        phase: match outcome {
            LoadMore::Absent => Phase::Done,
            LoadMore::Clicked => Phase::Scanning,
            LoadMore::ClickFailed => Phase::Failed,
        },
        count: s.count,
    }
}

/// What an extractor holds.
pub ghost struct ExtractorModel {
    pub limits: RunLimits,
    pub phase: Phase,
    pub cursor: nat,
    pub records: Seq<RecordModel>,
    pub error: Option<ExtractError>,
}

pub open spec fn run_state(m: ExtractorModel) -> RunState {
    RunState { phase: m.phase, count: m.cursor }
}

/// The incremental extractor: it keeps the records found so far and the cursor, the
/// number of containers already turned into records, and decides each next step.
pub struct Extractor {
    limits: RunLimits,
    phase: Phase,
    cursor: usize,
    records: Vec<Review>,
    error: Option<ExtractError>,
}

impl View for Extractor {
    type V = ExtractorModel;

    closed spec fn view(&self) -> ExtractorModel {
        ExtractorModel {
            limits: self.limits,
            phase: self.phase,
            cursor: self.cursor as nat,
            records: records_view(self.records@),
            error: self.error,
        }
    }
}

impl Extractor {
    /// The cursor counts the records; an error is recorded exactly when the run failed.
    pub open spec fn wf(&self) -> bool {
        &&& self@.cursor == self@.records.len()
        &&& limits_valid(self@.limits)
        &&& (self@.phase == Phase::Failed <==> self@.error is Some)
    }

    /// A run at its start: scanning, with the cursor at zero and no records.
    pub fn new(limits: RunLimits) -> (r: Extractor)
        requires
            limits_valid(limits),
        ensures
            r.wf(),
            r@ == (ExtractorModel {
                limits,
                phase: Phase::Scanning,
                cursor: 0,
                records: Seq::empty(),
                error: None,
            }),
            run_state(r@) == initial_state(),
    {
        let r = Extractor {
            limits,
            phase: Phase::Scanning,
            cursor: 0,
            records: Vec::new(),
            error: None,
        };
        assert(records_view(r.records@) =~= Seq::empty());
        r
    }

    /// The step the driver has to take next.
    pub fn next_action(&self) -> (a: Action)
        ensures
            self@.phase == Phase::Scanning ==> a == Action::FetchMarkup,
            self@.phase == Phase::Advancing ==> a == Action::ClickLoadMore,
            (self@.phase == Phase::Done || self@.phase == Phase::Failed) ==> a == Action::Finish,
    {
        match self.phase {
            Phase::Scanning => Action::FetchMarkup,
            Phase::Advancing => Action::ClickLoadMore,
            _ => Action::Finish,
        }
    }

    /// Takes in one scan of the page: appends the records of the containers past the
    /// cursor and moves the cursor past them, then ends the run if the record cap is
    /// reached or the cursor is not a whole number of pages, and else asks for more
    /// content. The cap is checked after the whole batch is appended, so a run may end
    /// with more records than the cap, by less than one batch. A container without a
    /// record fails the run with `FieldNotFound` and adds no record of that scan.
    pub fn on_page(&mut self, kinds: &Vec<FieldType>, page: &Vec<Vec<Vec<String>>>)
        requires
            old(self).wf(),
            old(self)@.phase == Phase::Scanning,
            page_shaped(page_view(page@), kinds@.len()),
        ensures
            final(self).wf(),
            final(self)@.limits == old(self)@.limits,
            match scan_batch(kinds@, page_view(page@), old(self)@.cursor) {
                Some(batch) => {
                    &&& final(self)@.records == old(self)@.records + batch
                    &&& final(self)@.error is None
                    &&& run_state(final(self)@) == step_scan(
                        old(self)@.limits,
                        run_state(old(self)@),
                        batch.len(),
                    )
                },
                None => {
                    &&& final(self)@.records == old(self)@.records
                    &&& final(self)@.cursor == old(self)@.cursor
                    &&& final(self)@.phase == Phase::Failed
                    &&& final(self)@.error == Some(ExtractError::FieldNotFound)
                },
            },
            (exists|c: int, f: int|
                old(self)@.cursor <= c < page@.len() && 0 <= f < kinds@.len()
                    && #[trigger] page_view(page@)[c][f].len() == 0) ==> {
                &&& final(self)@.records == old(self)@.records
                &&& final(self)@.phase == Phase::Failed
                &&& final(self)@.error == Some(ExtractError::FieldNotFound)
            },
    {
        proof {
            if exists|c: int, f: int|
                old(self)@.cursor <= c < page@.len() && 0 <= f < kinds@.len()
                    && #[trigger] page_view(page@)[c][f].len() == 0 {
                let (c, f) = choose|c: int, f: int|
                    old(self)@.cursor <= c < page@.len() && 0 <= f < kinds@.len()
                        && #[trigger] page_view(page@)[c][f].len() == 0;
                lemma_missing_field_fails(kinds@, page_view(page@), old(self)@.cursor, c, f);
            }
        }
        match extract_batch(kinds, page, self.cursor) {
            Ok(batch) => {
                let mut batch = batch;
                let ghost added = records_view(batch@);
                let ghost before = self.records@;
                self.records.append(&mut batch);
                assert(records_view(self.records@) =~= records_view(before) + added);
                self.cursor = self.records.len();
                let done_by_limit = match self.limits.max_records {
                    Some(m) => self.cursor >= m,
                    None => false,
                };
                let done_by_page = match self.limits.page_size {
                    Some(p) => self.cursor % p != 0,
                    None => false,
                };
                if done_by_limit || done_by_page {
                    self.phase = Phase::Done;
                } else {
                    self.phase = Phase::Advancing;
                }
            },
            Err(e) => {
                self.phase = Phase::Failed;
                self.error = Some(e);
            },
        }
    }

    /// Reads the markup with the schema and takes in the scan, as `on_page` does.
    pub fn on_markup(&mut self, schema: &PageSchema, markup: &str)
        requires
            old(self).wf(),
            old(self)@.phase == Phase::Scanning,
        ensures
            final(self).wf(),
            final(self)@.limits == old(self)@.limits,
            match scan_batch(
                kinds_of(schema.fields@),
                page_of(markup@, schema.container, schema.fields@),
                old(self)@.cursor,
            ) {
                Some(batch) => {
                    &&& final(self)@.records == old(self)@.records + batch
                    &&& final(self)@.error is None
                    &&& run_state(final(self)@) == step_scan(
                        old(self)@.limits,
                        run_state(old(self)@),
                        batch.len(),
                    )
                },
                None => {
                    &&& final(self)@.records == old(self)@.records
                    &&& final(self)@.cursor == old(self)@.cursor
                    &&& final(self)@.phase == Phase::Failed
                    &&& final(self)@.error == Some(ExtractError::FieldNotFound)
                },
            },
    {
        let kinds = schema.kinds();
        let page = schema.read_page(markup);
        self.on_page(&kinds, &page);
    }

    /// Takes in the outcome of the attempt to load more content: a missing control ends
    /// the run normally, a failed click fails it with `InteractionError`, a click leads
    /// to the next scan.
    pub fn on_load_more(&mut self, outcome: LoadMore)
        requires
            old(self).wf(),
            old(self)@.phase == Phase::Advancing,
        ensures
            final(self).wf(),
            final(self)@.limits == old(self)@.limits,
            final(self)@.records == old(self)@.records,
            run_state(final(self)@) == step_load_more(run_state(old(self)@), outcome),
            final(self)@.error == (if outcome == LoadMore::ClickFailed {
                Some(ExtractError::InteractionError)
            } else {
                None
            }),
    {
        match outcome {
            LoadMore::Absent => {
                self.phase = Phase::Done;
            },
            LoadMore::Clicked => {
                self.phase = Phase::Scanning;
            },
            LoadMore::ClickFailed => {
                self.phase = Phase::Failed;
                self.error = Some(ExtractError::InteractionError);
            },
        }
    }

    pub fn phase(&self) -> (r: Phase)
        ensures
            r == self@.phase,
    {
        self.phase
    }

    pub fn cursor(&self) -> (r: usize)
        ensures
            r as nat == self@.cursor,
    {
        self.cursor
    }

    pub fn error(&self) -> (r: Option<ExtractError>)
        ensures
            r == self@.error,
    {
        self.error
    }

    pub fn limits(&self) -> (r: RunLimits)
        ensures
            r == self@.limits,
    {
        self.limits
    }

    /// The records found so far, in the order in which their containers were first seen.
    pub fn records(&self) -> (r: &Vec<Review>)
        ensures
            records_view(r@) == self@.records,
    {
        &self.records
    }

    /// Gives up the extractor for its records.
    pub fn into_records(self) -> (r: Vec<Review>)
        ensures
            records_view(r@) == self@.records,
    {
        self.records
    }
}

} // verus!
