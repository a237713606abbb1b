//! The diagnostics for the shell-integration requests. The collaborator
//! answers each step with whether it succeeded; a failed step is reported and
//! the steps after it are still made.

use vstd::prelude::*;
use vstd::string::*;

verus! {

/// The texts of a list of lines.
pub open spec fn texts(lines: Seq<String>) -> Seq<Seq<char>> {
    lines.map_values(|line: String| line@)
}

/// The report of one step: its text if the step failed, nothing if not.
pub open spec fn report_of(succeeded: bool, text: Seq<char>) -> Seq<Seq<char>> {
    if succeeded {
        Seq::empty()
    } else {
        seq![text]
    }
}

/// The reports of a registration, in the order of its steps: removing the
/// previous entries, adding the entry for directories, adding the entry for
/// files.
pub open spec fn register_reports(
    previous_removed: bool,
    directory_added: bool,
    file_added: bool,
) -> Seq<Seq<char>> {
    report_of(
        previous_removed,
        "Could not unregister previous menu item. Possibly already registered or not running as Admin?"@,
    ) + report_of(
        directory_added,
        "Could not register directory context menu item. Possibly already registered or not running as Admin?"@,
    ) + report_of(
        file_added,
        "Could not register file context menu item. Possibly already registered or not running as Admin?"@,
    )
}

/// The reports of an unregistration.
pub open spec fn unregister_reports(removed: bool) -> Seq<Seq<char>> {
    report_of(
        removed,
        "Could not remove context menu items. Possibly already removed or not running as Admin?"@,
    )
}

fn report(reports: &mut Vec<String>, succeeded: bool, text: &str)
    ensures
        texts(final(reports)@) == texts(old(reports)@) + report_of(succeeded, text@),
{
    if !succeeded {
        reports.push(String::from_str(text));
    }
    proof {
        assert(texts(reports@) =~= texts(old(reports)@) + report_of(succeeded, text@));
    }
}

/// The diagnostics to write after a registration whose steps ended as given:
/// one line for each step that failed, none for a step that succeeded.
pub fn register_diagnostics(previous_removed: bool, directory_added: bool, file_added: bool) -> (reports:
    Vec<String>)
    ensures
        texts(reports@) == register_reports(previous_removed, directory_added, file_added),
{
    let mut reports: Vec<String> = Vec::new();
    proof {
        assert(texts(reports@) =~= Seq::empty());
    }
    report(
        &mut reports,
        previous_removed,
        "Could not unregister previous menu item. Possibly already registered or not running as Admin?",
    );
    report(
        &mut reports,
        directory_added,
        "Could not register directory context menu item. Possibly already registered or not running as Admin?",
    );
    report(
        &mut reports,
        file_added,
        "Could not register file context menu item. Possibly already registered or not running as Admin?",
    );
    proof {
        assert(texts(reports@) =~= register_reports(previous_removed, directory_added, file_added));
    }
    reports
}

/// The diagnostics to write after an unregistration: one line if it failed.
pub fn unregister_diagnostics(removed: bool) -> (reports: Vec<String>)
    ensures
        texts(reports@) == unregister_reports(removed),
{
    let mut reports: Vec<String> = Vec::new();
    proof {
        assert(texts(reports@) =~= Seq::empty());
    }
    report(
        &mut reports,
        removed,
        "Could not remove context menu items. Possibly already removed or not running as Admin?",
    );
    proof {
        assert(texts(reports@) =~= unregister_reports(removed));
    }
    reports
}

} // verus!
