//! The structured outcome the external cleaning script reports back.

use vstd::prelude::*;

verus! {

/// What one cleaning run reported: an outcome word, a human-readable
/// summary, per-item notes, and how many items were cleaned out of how many
/// were processed. Produced by parsing the results file the script writes;
/// never mutated afterwards.
pub struct CleaningResult {
    pub status: String,
    pub message: String,
    pub details: Vec<String>,
    pub cleaned_count: u32,
    pub processed_count: u32,
}

/// The mathematical shadow of a [`CleaningResult`].
pub ghost struct CleaningResultV {
    pub status: Seq<char>,
    pub message: Seq<char>,
    pub details: Seq<Seq<char>>,
    pub cleaned_count: u32,
    pub processed_count: u32,
}

impl View for CleaningResult {
    type V = CleaningResultV;

    open spec fn view(&self) -> CleaningResultV {
        CleaningResultV {
            status: self.status@,
            message: self.message@,
            details: self.details.deep_view(),
            cleaned_count: self.cleaned_count,
            processed_count: self.processed_count,
        }
    }
}

} // verus!
