//! Deciding the outcome of the save operation: the dialog's pre-filled
//! name, and what a canceled or confirmed dialog comes to.  The dialog
//! itself and the file write are I/O and live outside the library.

use vstd::prelude::*;
use crate::errors::{save_error_text, SaveError};

verus! {

/// The name the save dialog is pre-filled with: the caller's suggestion,
/// or `site.zip` when none was given.
pub fn default_save_name(suggested: Option<String>) -> (r: String)
    ensures
        (match suggested {
            Some(n) => r@ == n@,
            None => r@ == "site.zip"@,
        }),
{
    match suggested {
        Some(n) => n,
        None => String::from_str("site.zip"),
    }
}

/// The outcome of the save dialog: a canceled dialog is the `Canceled`
/// failure, and a chosen location passes through unchanged for the write.
pub fn resolve_dialog_choice(picked: Option<String>) -> (r: Result<String, SaveError>)
    ensures
        (match picked {
            Some(p) => r == Ok::<String, SaveError>(p),
            None => r == Err::<String, SaveError>(SaveError::Canceled),
        }),
{
    match picked {
        Some(p) => Ok(p),
        None => Err(SaveError::Canceled),
    }
}

/// Law: a canceled dialog is distinguishable from a write failure: the two
/// error values differ, and so do their boundary strings, whatever text the
/// write failure carries.
pub proof fn lemma_canceled_distinct_from_write_failure(m: String)
    ensures
        SaveError::Canceled != SaveError::WriteFailed(m),
        save_error_text(SaveError::Canceled) != save_error_text(SaveError::WriteFailed(m)),
{
    reveal_strlit("canceled");
    reveal_strlit("write failed: ");
    assert(save_error_text(SaveError::Canceled)[0] == 'c');
    assert(save_error_text(SaveError::WriteFailed(m))[0] == 'w');
}

} // verus!
