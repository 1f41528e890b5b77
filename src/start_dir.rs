use vstd::prelude::*;

verus! {

/// The first directory of the chain documents, desktop, home that exists.
pub open spec fn first_dir(
    documents: Option<String>,
    desktop: Option<String>,
    home: Option<String>,
) -> Option<String> {
    if documents is Some {
        documents
    } else if desktop is Some {
        desktop
    } else {
        home
    }
}

/// Picks the directory in which file dialogs start, from the user's
/// documents, desktop and home directories, in that order of preference.
pub fn pick_start_dir(
    documents: Option<String>,
    desktop: Option<String>,
    home: Option<String>,
) -> (r: Option<String>)
    ensures
        r == first_dir(documents, desktop, home),
{
    if documents.is_some() {
        return documents;
    }
    if desktop.is_some() {
        return desktop;
    }
    home
}

} // verus!
