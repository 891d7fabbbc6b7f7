//! The periodic refresh of the shared snapshot: how often it happens and
//! what follows each collection.

use vstd::prelude::*;
use crate::collect::{SysWatchError, error_message};
use crate::report::SystemSnapshot;
use crate::text::push_text;

verus! {

/// Seconds between two background refreshes of the snapshot.
pub const REFRESH_SECS: u64 = 5;

/// What follows a collection.
#[derive(Clone, Debug, PartialEq, Eq)]
pub enum Refresh {
    /// Store the fresh snapshot, then write `log` to the log.
    Replace { snapshot: SystemSnapshot, log: String },
    /// Keep the old snapshot and print this line on the error output.
    Report(String),
}

/// The outcome of a background collection: a fresh snapshot replaces the
/// shared one and is logged; a failure is reported and changes nothing.
pub fn refresh_step(collected: Result<SystemSnapshot, SysWatchError>) -> (r: Refresh)
    ensures
        match collected {
            Ok(s) => (r matches Refresh::Replace { snapshot, log } && snapshot == s && log@
                == "[refresh] Métriques mises à jour"@),
            Err(e) => (r matches Refresh::Report(t) && t@ == "[refresh] Erreur: "@ + error_message(
                e,
            )),
        },
{
    match collected {
        Ok(snapshot) => Refresh::Replace {
            snapshot,
            log: "[refresh] Métriques mises à jour".to_owned(),
        },
        Err(e) => {
            let mut t = "[refresh] Erreur: ".to_owned();
            let m = e.message();
            push_text(&mut t, m.as_str());
            Refresh::Report(t)
        },
    }
}

} // verus!
