//! `featherfly docs`: where the generated documentation goes.
use vstd::prelude::*;

use crate::text::owned;

verus! {

pub struct DocsCommandArgs {
    pub output: String,
}

impl Default for DocsCommandArgs {
    fn default() -> (r: Self)
        ensures
            r.output@ == "../docs"@,
    {
        DocsCommandArgs { output: owned("../docs") }
    }
}

pub struct DocsCommand;

} // verus!
