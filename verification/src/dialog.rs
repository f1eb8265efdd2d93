//! Dialog commands of the native command set.
//!
//! Both dialog commands are deliberate stubs: no native dialog is presented,
//! and every invocation reports "no selection" as an empty result. Dialog
//! cancellation is not an error, so the empty result is the only outcome the
//! current command surface can produce.

use vstd::prelude::*;

verus! {

/// The record produced by a successful file-open interaction: the chosen
/// file's path, display name, and size in bytes.
#[derive(Debug, PartialEq, Eq)]
pub struct FileSelection {
    pub path: String,
    pub name: String,
    pub size: u64,
}

/// The record produced by a successful save interaction: the chosen
/// destination path.
#[derive(Debug, PartialEq, Eq)]
pub struct SaveSelection {
    pub path: String,
}

/// The file-open dialog command. The filter patterns are accepted but the
/// stub never presents a dialog, so the result is always the empty selection,
/// whatever the filters hold.
pub fn dialog_open_file(filters: Option<Vec<String>>) -> (r: Option<FileSelection>)
    ensures
        r is None,
{
    let _ = filters;
    None
}

/// The file-save dialog command. The suggested default name is accepted but
/// the stub never presents a dialog, so the result is always the empty
/// selection, whatever the default name holds.
pub fn dialog_save_file(default_name: Option<String>) -> (r: Option<SaveSelection>)
    ensures
        r is None,
{
    let _ = default_name;
    None
}

} // verus!
