//! The command line, as the program reads it.

use vstd::prelude::*;
use crate::provider::{join, joined};

verus! {

/// The options and words of one command line.
#[derive(Debug)]
pub struct Cli {
    /// Translate the query as long text.
    pub text: bool,
    /// Do not use cached results.
    pub nocache: bool,
    /// Print the record as JSON.
    pub json: bool,
    /// The colour theme to use.
    pub theme: Option<String>,
    /// Update the offline dictionary.
    pub update_dict: bool,
    /// Write a sample settings file.
    pub generate_config: bool,
    /// Open the settings file in an editor.
    pub edit_config: bool,
    /// Show the status of the stores.
    pub status: bool,
    /// The words of the query.
    pub query: Vec<String>,
}

impl Cli {
    /// The query: its words joined by single spaces.
    pub fn query_text(&self) -> (r: String)
        ensures
            r@ == joined(self.query.deep_view(), seq![' ']),
    {
        proof { reveal_strlit(" "); }
        assert(" "@ =~= seq![' ']);
        join(&self.query, " ")
    }
}

} // verus!
