//! The choice among the corrections: the note that is shown with each, and
//! which one a selection stands for.

use crate::types::{Correction, CorrectionView};
use vstd::prelude::*;

verus! {

/// What is shown behind a correction: a warning where it has a side effect.
pub open spec fn note_of(correction: CorrectionView) -> Seq<char> {
    if correction.side_effect {
        "(side effect)"@
    } else {
        ""@
    }
}

/// The correction that the selection `selection` stands for: the one at that
/// position. A position behind the last correction stands for none; that is
/// where the entry to cancel is shown.
pub open spec fn selected(corrections: Seq<Correction>, selection: int) -> Option<Correction> {
    if 0 <= selection < corrections.len() {
        Some(corrections[selection])
    } else {
        None
    }
}

/// What is shown behind `correction`.
pub fn note(correction: &Correction) -> (text: &'static str)
    ensures
        text@ == note_of(correction@),
{
    if correction.side_effect {
        "(side effect)"
    } else {
        ""
    }
}

/// The correction among `corrections` that the selection `selection` stands
/// for.
pub fn select_correction(corrections: &Vec<Correction>, selection: usize) -> (chosen: Option<
    &Correction,
>)
    ensures
        match chosen {
            Some(correction) => selected(corrections@, selection as int) == Some(*correction),
            None => selected(corrections@, selection as int) is None,
        },
{
    if selection < corrections.len() {
        Some(&corrections[selection])
    } else {
        None
    }
}

} // verus!
