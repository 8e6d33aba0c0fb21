//! The application state: the single record the control loop owns, together
//! with its mathematical view and the transitions that do not involve the
//! external pipeline.

use vstd::prelude::*;

use crate::extract;

verus! {

/// How many artifact tabs the interface offers: the unoptimized artifact,
/// the optimized artifact, and the timing report.
pub const TAB_COUNT: usize = 3;

/// Mathematical view of the application state.
#[verifier::ext_equal]
pub ghost struct AppView {
    pub code: Seq<char>,
    pub unopt_ir: Seq<char>,
    pub opt_ir: Seq<char>,
    pub delay_info: Seq<char>,
    pub error_message: Option<Seq<char>>,
    pub selected_tab: int,
    pub dslx_stdlib_path: Option<Seq<char>>,
    pub tests_passed: Option<bool>,
    pub test_output: Option<Seq<char>>,
    pub entry_points: Seq<Seq<char>>,
    pub selected_entry: int,
    pub file_path: Option<Seq<char>>,
    pub last_update: Option<Seq<char>>,
}

impl AppView {
    /// Well-formedness: the tab and entry selections are in range, test
    /// output is present exactly when the last test run passed, and a
    /// passing test run never coexists with a standing error.
    pub open spec fn wf(self) -> bool {
        &&& 0 <= self.selected_tab < TAB_COUNT
        &&& 0 <= self.selected_entry
        &&& self.entry_points.len() == 0 ==> self.selected_entry == 0
        &&& self.entry_points.len() > 0 ==> self.selected_entry < self.entry_points.len()
        &&& self.test_output is Some <==> self.tests_passed == Some(true)
        &&& !(self.error_message is Some && self.tests_passed == Some(true))
    }

    /// The state at startup: everything empty, nothing selected, no run yet.
    pub open spec fn initial() -> AppView {
        AppView {
            code: Seq::empty(),
            unopt_ir: Seq::empty(),
            opt_ir: Seq::empty(),
            delay_info: Seq::empty(),
            error_message: None,
            selected_tab: 0,
            dslx_stdlib_path: None,
            tests_passed: None,
            test_output: None,
            entry_points: Seq::empty(),
            selected_entry: 0,
            file_path: None,
            last_update: None,
        }
    }

    /// The state after recomputing the entry points from the unoptimized
    /// artifact: the list is replaced by the extraction result and the
    /// selection is reset to the first entry whenever it no longer fits.
    pub open spec fn with_entry_points(self) -> AppView {
        let eps = extract::entry_points_of(self.unopt_ir);
        AppView {
            entry_points: eps,
            selected_entry: if self.selected_entry < eps.len() {
                self.selected_entry
            } else {
                0
            },
            ..self
        }
    }

    /// The state after reloading the watched file's content.
    pub open spec fn with_reloaded(self, code: Seq<char>, stamp: Seq<char>) -> AppView {
        AppView { code: code, last_update: Some(stamp), ..self }
    }
}

/// Law: recomputing the entry points is idempotent — deriving them a second
/// time from the same artifact changes nothing.
pub proof fn lemma_update_entry_points_idempotent(v: AppView)
    ensures
        v.with_entry_points().with_entry_points() == v.with_entry_points(),
{
    assert(v.with_entry_points().with_entry_points() =~= v.with_entry_points());
}

/// Law: recomputing the entry points always leaves a non-empty list and a
/// selection inside it, whatever the artifact text says.
pub proof fn lemma_update_entry_points_wf(v: AppView)
    requires
        v.wf(),
    ensures
        v.with_entry_points().wf(),
        v.with_entry_points().entry_points.len() >= 1,
{
}

/// The application state: current code text, per-stage artifacts, error and
/// test status, the derived entry points and the navigation selections.
pub struct App {
    pub code: String,
    pub unopt_ir: String,
    pub opt_ir: String,
    pub delay_info: String,
    pub error_message: Option<String>,
    pub selected_tab: usize,
    pub dslx_stdlib_path: Option<String>,
    pub tests_passed: Option<bool>,
    pub test_output: Option<String>,
    pub entry_points: Vec<String>,
    pub selected_entry: usize,
    pub file_path: Option<String>,
    pub last_update: Option<String>,
}

impl View for App {
    type V = AppView;

    open spec fn view(&self) -> AppView {
        AppView {
            code: self.code@,
            unopt_ir: self.unopt_ir@,
            opt_ir: self.opt_ir@,
            delay_info: self.delay_info@,
            error_message: self.error_message.deep_view(),
            selected_tab: self.selected_tab as int,
            dslx_stdlib_path: self.dslx_stdlib_path.deep_view(),
            tests_passed: self.tests_passed,
            test_output: self.test_output.deep_view(),
            entry_points: self.entry_points.deep_view(),
            selected_entry: self.selected_entry as int,
            file_path: self.file_path.deep_view(),
            last_update: self.last_update.deep_view(),
        }
    }
}

impl App {
    /// A fresh state with empty artifacts and nothing selected.
    pub fn new() -> (app: App)
        ensures
            app@ == AppView::initial(),
            app@.wf(),
    {
        let app = App {
            code: String::new(),
            unopt_ir: String::new(),
            opt_ir: String::new(),
            delay_info: String::new(),
            error_message: None,
            selected_tab: 0,
            dslx_stdlib_path: None,
            tests_passed: None,
            test_output: None,
            entry_points: Vec::new(),
            selected_entry: 0,
            file_path: None,
            last_update: None,
        };
        proof {
            assert(app@ =~= AppView::initial());
        }
        app
    }

    /// Rederives the entry points from the current unoptimized artifact and
    /// resets the selection to the first entry when it no longer fits.
    pub fn update_entry_points(&mut self)
        ensures
            final(self)@ == old(self)@.with_entry_points(),
            final(self).entry_points.len() >= 1,
    {
        let names = extract::extract_entry_points(self.unopt_ir.as_str());
        self.entry_points = names;
        if self.selected_entry >= self.entry_points.len() {
            self.selected_entry = 0;
        }
        proof {
            assert(self@ =~= old(self)@.with_entry_points());
        }
    }

    /// Records freshly read file content together with the moment it was
    /// read; everything else, the artifacts included, is kept as it stands.
    pub fn reload(&mut self, code: String, stamp: String)
        ensures
            final(self)@ == old(self)@.with_reloaded(code@, stamp@),
            old(self)@.wf() ==> final(self)@.wf(),
    {
        self.code = code;
        self.last_update = Some(stamp);
        proof {
            assert(self@ =~= old(self)@.with_reloaded(self.code@, self.last_update.deep_view()->0));
        }
    }
}

} // verus!
