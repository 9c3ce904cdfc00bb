//! Extraction-and-rendering pipeline for answers scraped from a Q&A site.
//!
//! Given fetched HTML pages and an output mode, the library locates the
//! relevant answer region, guesses the programming-language context from the
//! page's topic tags, and renders the answer either as plain text or as
//! ANSI-colorized code.  Fetching the pages themselves is the caller's job:
//! every function here consumes already-fetched text.

pub mod answer;
pub mod config;
pub mod google;
pub mod highlight;
pub mod scrape;
pub mod text;
