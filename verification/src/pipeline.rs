//! The four-stage pipeline: translate, optimize, analyze timing, and
//! interpret/test.
//!
//! The stages are external executables, so this module does not invoke them;
//! it decides. For each stage it builds an exact invocation plan (files to
//! persist first, the program, its arguments), and it applies a captured
//! outcome to the application state: on success the stage's artifact is
//! replaced and the next plan is handed out, on failure the run stops with a
//! `"<stage>: <stderr>"` error while every later-stage artifact keeps its
//! previous value. The unverified shell around this crate performs the writes,
//! runs the program, and feeds the captured outcome back in.

use vstd::prelude::*;

use crate::extract;
use crate::state::{App, AppView};

verus! {

/// One stage of the pipeline, in running order.
#[derive(Clone, Copy, PartialEq, Eq, Structural, Debug)]
pub enum Stage {
    Translate,
    Optimize,
    Analyze,
    Test,
}

/// What one external invocation produced: its exit status reduced to a
/// success flag, and the captured output streams.
pub struct Captured {
    pub success: bool,
    pub stdout: String,
    pub stderr: String,
}

/// A file to persist before a stage may run.
pub struct FileWrite {
    pub path: String,
    pub contents: String,
}

/// Mathematical view of a file write.
#[verifier::ext_equal]
pub ghost struct FileWriteView {
    pub path: Seq<char>,
    pub contents: Seq<char>,
}

impl View for FileWrite {
    type V = FileWriteView;

    open spec fn view(&self) -> FileWriteView {
        FileWriteView { path: self.path@, contents: self.contents@ }
    }
}

impl DeepView for FileWrite {
    type V = FileWriteView;

    open spec fn deep_view(&self) -> FileWriteView {
        self.view()
    }
}

/// The exact invocation one stage asks for: an intermediate file to write
/// first (if the stage reads one), the program and its arguments, and
/// whether the stage is conditional — the test stage runs only when its
/// program is present on disk, and is skipped silently otherwise.
pub struct StagePlan {
    pub stage: Stage,
    pub write: Option<FileWrite>,
    pub program: String,
    pub args: Vec<String>,
    pub conditional: bool,
}

/// Mathematical view of a stage plan.
#[verifier::ext_equal]
pub ghost struct StagePlanView {
    pub stage: Stage,
    pub write: Option<FileWriteView>,
    pub program: Seq<char>,
    pub args: Seq<Seq<char>>,
    pub conditional: bool,
}

impl View for StagePlan {
    type V = StagePlanView;

    open spec fn view(&self) -> StagePlanView {
        StagePlanView {
            stage: self.stage,
            write: self.write.deep_view(),
            program: self.program@,
            args: self.args.deep_view(),
            conditional: self.conditional,
        }
    }
}

/// The stage that follows a successful one, if any.
pub open spec fn next_stage(stage: Stage) -> Option<Stage> {
    match stage {
        Stage::Translate => Some(Stage::Optimize),
        Stage::Optimize => Some(Stage::Analyze),
        Stage::Analyze => Some(Stage::Test),
        Stage::Test => None,
    }
}

/// The name a stage carries in error messages.
pub open spec fn stage_label(stage: Stage) -> Seq<char> {
    match stage {
        Stage::Translate => "translate"@,
        Stage::Optimize => "optimize"@,
        Stage::Analyze => "analyze"@,
        Stage::Test => "test"@,
    }
}

/// The sibling file holding the unoptimized artifact.
pub open spec fn unopt_file_of(v: AppView) -> Seq<char> {
    v.file_path->0 + ".unopt.ir"@
}

/// The sibling file holding the optimized artifact.
pub open spec fn opt_file_of(v: AppView) -> Seq<char> {
    v.file_path->0 + ".opt.ir"@
}

/// The arguments naming the watched source file, with the optional
/// standard-library flag when a library path was configured.
pub open spec fn source_args_of(v: AppView) -> Seq<Seq<char>> {
    match v.dslx_stdlib_path {
        Some(lib) => seq![v.file_path->0, "--dslx_stdlib_path"@, lib],
        None => seq![v.file_path->0],
    }
}

/// The invocation a stage asks for, given the state it starts from and the
/// directory holding the external tools.
pub open spec fn plan_for(v: AppView, stage: Stage, tools: Seq<char>) -> StagePlanView {
    match stage {
        Stage::Translate => StagePlanView {
            stage: Stage::Translate,
            write: None,
            program: tools + "/ir_converter_main"@,
            args: source_args_of(v),
            conditional: false,
        },
        Stage::Optimize => StagePlanView {
            stage: Stage::Optimize,
            write: Some(FileWriteView { path: unopt_file_of(v), contents: v.unopt_ir }),
            program: tools + "/opt_main"@,
            args: seq![unopt_file_of(v), "--top"@, v.entry_points[v.selected_entry]],
            conditional: false,
        },
        Stage::Analyze => StagePlanView {
            stage: Stage::Analyze,
            write: Some(FileWriteView { path: opt_file_of(v), contents: v.opt_ir }),
            program: tools + "/delay_info_main"@,
            args: seq![opt_file_of(v), "--delay_model"@, "asap7"@],
            conditional: false,
        },
        Stage::Test => StagePlanView {
            stage: Stage::Test,
            write: None,
            program: tools + "/dslx_interpreter_main"@,
            args: source_args_of(v).push("--compare=jit"@),
            conditional: true,
        },
    }
}

/// The state after a stage succeeded with the captured streams: the stage's
/// artifact is replaced, the standing error is cleared, a successful
/// translate rederives the entry points, and a successful test records the
/// outcome together with its output (standard output, or the error stream
/// when standard output is empty).
pub open spec fn stage_ok_view(
    v: AppView,
    stage: Stage,
    stdout: Seq<char>,
    stderr: Seq<char>,
) -> AppView {
    match stage {
        Stage::Translate => AppView {
            unopt_ir: stdout,
            error_message: None,
            ..v
        }.with_entry_points(),
        Stage::Optimize => AppView { opt_ir: stdout, error_message: None, ..v },
        Stage::Analyze => AppView { delay_info: stdout, error_message: None, ..v },
        Stage::Test => AppView {
            tests_passed: Some(true),
            test_output: Some(if stdout.len() == 0 { stderr } else { stdout }),
            error_message: None,
            ..v
        },
    }
}

/// The state after a stage failed: the error records the stage and the
/// captured error stream, every artifact keeps its previous value, and the
/// test outcome is untouched except that a failing run never leaves a
/// passing outcome standing — a previous pass is downgraded, and a failure
/// of the test stage itself records the failed outcome.
pub open spec fn stage_failed_view(v: AppView, stage: Stage, stderr: Seq<char>) -> AppView {
    AppView {
        error_message: Some(stage_label(stage) + ": "@ + stderr),
        tests_passed: if stage is Test {
            Some(false)
        } else if v.tests_passed == Some(true) {
            Some(false)
        } else {
            v.tests_passed
        },
        test_output: None,
        ..v
    }
}

impl App {
    /// The plan for the first stage of a run: rederives the entry points
    /// from the current unoptimized artifact, then asks for the translator
    /// to be run on the watched file.
    pub fn check_and_run_conversion(&mut self, tools: &str) -> (plan: StagePlan)
        requires
            old(self)@.wf(),
            old(self).file_path is Some,
        ensures
            final(self)@ == old(self)@.with_entry_points(),
            final(self)@.wf(),
            plan@ == plan_for(final(self)@, Stage::Translate, tools@),
    {
        self.update_entry_points();
        self.translate_plan(tools)
    }

    /// Applies one stage's captured outcome to the state and hands out the
    /// next stage's plan: the following stage after a success, nothing after
    /// a failure or after the final stage.
    pub fn apply_stage_outcome(&mut self, stage: Stage, outcome: Captured, tools: &str) -> (next:
        Option<StagePlan>)
        requires
            old(self)@.wf(),
            old(self).file_path is Some,
        ensures
            final(self)@.wf(),
            final(self)@.file_path == old(self)@.file_path,
            outcome.success ==> final(self)@ == stage_ok_view(
                old(self)@,
                stage,
                outcome.stdout@,
                outcome.stderr@,
            ),
            !outcome.success ==> final(self)@ == stage_failed_view(
                old(self)@,
                stage,
                outcome.stderr@,
            ),
            !outcome.success ==> next is None,
            outcome.success ==> match next_stage(stage) {
                Some(following) => next matches Some(p) && p@ == plan_for(
                    final(self)@,
                    following,
                    tools@,
                ),
                None => next is None,
            },
    {
        if outcome.success {
            match stage {
                Stage::Translate => {
                    self.unopt_ir = outcome.stdout;
                    self.error_message = None;
                    self.update_entry_points();
                    proof {
                        assert(self@ =~= stage_ok_view(
                            old(self)@,
                            stage,
                            outcome.stdout@,
                            outcome.stderr@,
                        ));
                    }
                    Some(self.optimize_plan(tools))
                },
                Stage::Optimize => {
                    self.opt_ir = outcome.stdout;
                    self.error_message = None;
                    proof {
                        assert(self@ =~= stage_ok_view(
                            old(self)@,
                            stage,
                            outcome.stdout@,
                            outcome.stderr@,
                        ));
                    }
                    Some(self.analyze_plan(tools))
                },
                Stage::Analyze => {
                    self.delay_info = outcome.stdout;
                    self.error_message = None;
                    proof {
                        assert(self@ =~= stage_ok_view(
                            old(self)@,
                            stage,
                            outcome.stdout@,
                            outcome.stderr@,
                        ));
                    }
                    Some(self.test_plan(tools))
                },
                Stage::Test => {
                    self.tests_passed = Some(true);
                    self.test_output = Some(
                        if outcome.stdout.as_str().is_empty() {
                            outcome.stderr
                        } else {
                            outcome.stdout
                        },
                    );
                    self.error_message = None;
                    proof {
                        assert(self@ =~= stage_ok_view(
                            old(self)@,
                            stage,
                            outcome.stdout@,
                            outcome.stderr@,
                        ));
                    }
                    None
                },
            }
        } else {
            let mut message = stage_name(stage).to_owned();
            message.append(": ");
            message.append(outcome.stderr.as_str());
            self.error_message = Some(message);
            self.test_output = None;
            match stage {
                Stage::Test => {
                    self.tests_passed = Some(false);
                },
                _ => {
                    match self.tests_passed {
                        Some(true) => {
                            self.tests_passed = Some(false);
                        },
                        _ => {},
                    }
                },
            }
            proof {
                assert(self@ =~= stage_failed_view(old(self)@, stage, outcome.stderr@));
            }
            None
        }
    }

    fn translate_plan(&self, tools: &str) -> (plan: StagePlan)
        requires
            self.file_path is Some,
        ensures
            plan@ == plan_for(self@, Stage::Translate, tools@),
    {
        let mut program = tools.to_owned();
        program.append("/ir_converter_main");
        let plan = StagePlan {
            stage: Stage::Translate,
            write: None,
            program,
            args: self.source_args(),
            conditional: false,
        };
        proof {
            assert(plan@ =~= plan_for(self@, Stage::Translate, tools@));
        }
        plan
    }

    fn optimize_plan(&self, tools: &str) -> (plan: StagePlan)
        requires
            self.file_path is Some,
            self@.entry_points.len() > 0,
            0 <= self@.selected_entry < self@.entry_points.len(),
        ensures
            plan@ == plan_for(self@, Stage::Optimize, tools@),
    {
        let mut unopt_file = self.file_path.as_ref().unwrap().clone();
        unopt_file.append(".unopt.ir");
        let mut program = tools.to_owned();
        program.append("/opt_main");
        let mut args: Vec<String> = Vec::new();
        args.push(unopt_file.clone());
        args.push(String::from_str("--top"));
        args.push(self.entry_points[self.selected_entry].clone());
        let plan = StagePlan {
            stage: Stage::Optimize,
            write: Some(FileWrite { path: unopt_file, contents: self.unopt_ir.clone() }),
            program,
            args,
            conditional: false,
        };
        proof {
            assert(plan@.args =~= plan_for(self@, Stage::Optimize, tools@).args);
            assert(plan@ =~= plan_for(self@, Stage::Optimize, tools@));
        }
        plan
    }

    fn analyze_plan(&self, tools: &str) -> (plan: StagePlan)
        requires
            self.file_path is Some,
        ensures
            plan@ == plan_for(self@, Stage::Analyze, tools@),
    {
        let mut opt_file = self.file_path.as_ref().unwrap().clone();
        opt_file.append(".opt.ir");
        let mut program = tools.to_owned();
        program.append("/delay_info_main");
        let mut args: Vec<String> = Vec::new();
        args.push(opt_file.clone());
        args.push(String::from_str("--delay_model"));
        args.push(String::from_str("asap7"));
        let plan = StagePlan {
            stage: Stage::Analyze,
            write: Some(FileWrite { path: opt_file, contents: self.opt_ir.clone() }),
            program,
            args,
            conditional: false,
        };
        proof {
            assert(plan@.args =~= plan_for(self@, Stage::Analyze, tools@).args);
            assert(plan@ =~= plan_for(self@, Stage::Analyze, tools@));
        }
        plan
    }

    fn test_plan(&self, tools: &str) -> (plan: StagePlan)
        requires
            self.file_path is Some,
        ensures
            plan@ == plan_for(self@, Stage::Test, tools@),
    {
        let mut program = tools.to_owned();
        program.append("/dslx_interpreter_main");
        let mut args = self.source_args();
        args.push(String::from_str("--compare=jit"));
        let plan = StagePlan {
            stage: Stage::Test,
            write: None,
            program,
            args,
            conditional: true,
        };
        proof {
            assert(plan@.args =~= plan_for(self@, Stage::Test, tools@).args);
            assert(plan@ =~= plan_for(self@, Stage::Test, tools@));
        }
        plan
    }

    fn source_args(&self) -> (args: Vec<String>)
        requires
            self.file_path is Some,
        ensures
            args.deep_view() == source_args_of(self@),
    {
        let mut args: Vec<String> = Vec::new();
        args.push(self.file_path.as_ref().unwrap().clone());
        match &self.dslx_stdlib_path {
            Some(lib) => {
                args.push(String::from_str("--dslx_stdlib_path"));
                args.push(lib.clone());
            },
            None => {},
        }
        proof {
            assert(args.deep_view() =~= source_args_of(self@));
        }
        args
    }
}

/// The error-message name of a stage.
fn stage_name(stage: Stage) -> (name: &'static str)
    ensures
        name@ == stage_label(stage),
{
    match stage {
        Stage::Translate => "translate",
        Stage::Optimize => "optimize",
        Stage::Analyze => "analyze",
        Stage::Test => "test",
    }
}

/// Law: a run is applied atomically. When translate and optimize succeed and
/// the analyze stage then fails, the state holds exactly the new unoptimized
/// and optimized artifacts of that run, the timing report from before the
/// run, the analyze error, and — as long as the run did not start from a
/// passing test outcome — an unchanged test outcome.
pub proof fn lemma_run_failing_at_analyze_is_atomic(
    v: AppView,
    translate_out: Seq<char>,
    optimize_out: Seq<char>,
    analyze_err: Seq<char>,
)
    requires
        v.wf(),
        v.tests_passed != Some(true),
    ensures
        ({
            let after_translate = stage_ok_view(v, Stage::Translate, translate_out, Seq::empty());
            let after_optimize = stage_ok_view(
                after_translate,
                Stage::Optimize,
                optimize_out,
                Seq::empty(),
            );
            let after_failure = stage_failed_view(after_optimize, Stage::Analyze, analyze_err);
            &&& after_failure.unopt_ir == translate_out
            &&& after_failure.opt_ir == optimize_out
            &&& after_failure.delay_info == v.delay_info
            &&& after_failure.error_message == Some("analyze"@ + ": "@ + analyze_err)
            &&& after_failure.tests_passed == v.tests_passed
            &&& after_failure.code == v.code
            &&& after_failure.entry_points == extract::entry_points_of(translate_out)
        }),
{
}

/// Law: a failing stage never touches the artifacts — whatever the stage and
/// whatever was captured, all four artifact fields and the entry points keep
/// their previous values, and the error names the failing stage.
pub proof fn lemma_failure_preserves_artifacts(v: AppView, stage: Stage, stderr: Seq<char>)
    ensures
        stage_failed_view(v, stage, stderr).code == v.code,
        stage_failed_view(v, stage, stderr).unopt_ir == v.unopt_ir,
        stage_failed_view(v, stage, stderr).opt_ir == v.opt_ir,
        stage_failed_view(v, stage, stderr).delay_info == v.delay_info,
        stage_failed_view(v, stage, stderr).entry_points == v.entry_points,
        stage_failed_view(v, stage, stderr).selected_entry == v.selected_entry,
        stage_failed_view(v, stage, stderr).error_message == Some(stage_label(stage) + ": "@ + stderr),
{
}

} // verus!
