//! Reading the wall clock for the "updated at" stamp shown on the code pane.

use vstd::prelude::*;

use crate::state::App;

verus! {

/// Relies on chrono's `Local::now` and its format writer: reads the wall
/// clock and renders it as `YYYY-MM-DD HH:MM:SS`. The result depends on the
/// clock, so nothing is promised of its value.
#[verifier::external_body]
pub(crate) fn local_timestamp() -> String {
    chrono::Local::now().format("%Y-%m-%d %H:%M:%S").to_string()
}

impl App {
    /// Records freshly read file content, stamped with the moment the clock
    /// showed; everything else is kept as it stands.
    pub fn reload_now(&mut self, code: String)
        ensures
            final(self)@.last_update is Some,
            final(self)@ == old(self)@.with_reloaded(code@, final(self)@.last_update->0),
            old(self)@.wf() ==> final(self)@.wf(),
    {
        let stamp = local_timestamp();
        self.reload(code, stamp);
    }
}

} // verus!
