//! Incremental extraction of review records from a page that reveals more reviews each
//! time its load-more control is activated.
//!
//! `markup` reads a page's review containers and their fields through `scraper`;
//! `extract` turns the containers past a cursor into records; `pager` decides, after each
//! scan or click, whether the run goes on, ends, or fails; `laws` states the run's
//! properties. The caller drives the run: it fetches markup and clicks the control when
//! `Extractor::next_action` asks for it.
pub mod extract;
pub mod laws;
pub mod markup;
pub mod pager;
pub mod record;
