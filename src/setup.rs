use vstd::prelude::*;

verus! {

/// The line that the setup hook prints for the application-data directory:
/// the directory as resolved, or the empty path where it could not be
/// resolved.
pub open spec fn data_dir_line(resolved: Option<Seq<char>>) -> Seq<char> {
    match resolved {
        Some(path) => path,
        None => Seq::empty(),
    }
}

/// The setup hook's own work, given the outcome of resolving the
/// application-data directory (`None` where it could not be resolved):
/// the line to print. Every outcome of the lookup is accepted, so the hook
/// never fails and never stops the application.
pub fn check(app_data_dir: Option<String>) -> (line: String)
    ensures
        line@ == data_dir_line(
            match app_data_dir {
                Some(p) => Some(p@),
                None => None,
            },
        ),
{
    match app_data_dir {
        Some(path) => path,
        None => String::new(),
    }
}

} // verus!
