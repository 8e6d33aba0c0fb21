use dslx_dash::pipeline::{Captured, Stage, StagePlan};
use dslx_dash::state::App;

fn ok(stdout: &str) -> Captured {
    Captured { success: true, stdout: String::from(stdout), stderr: String::new() }
}

fn fail(stderr: &str) -> Captured {
    Captured { success: false, stdout: String::new(), stderr: String::from(stderr) }
}

fn watched(file: &str) -> App {
    let mut app = App::new();
    app.file_path = Some(String::from(file));
    app
}

fn arg_views(plan: &StagePlan) -> Vec<&str> {
    plan.args.iter().map(|s| s.as_str()).collect()
}

#[test]
fn translate_plan_names_converter() {
    let mut app = watched("design.x");
    let plan = app.check_and_run_conversion("/tools");
    assert_eq!(plan.stage, Stage::Translate);
    assert_eq!(plan.program, "/tools/ir_converter_main");
    assert_eq!(arg_views(&plan), vec!["design.x"]);
    assert!(plan.write.is_none());
    assert!(!plan.conditional);
    // Before any translate, the fallback entry is offered.
    assert_eq!(app.entry_points, vec![String::from("main")]);
    assert_eq!(app.selected_entry, 0);
}

#[test]
fn translate_plan_carries_stdlib_flag() {
    let mut app = watched("design.x");
    app.dslx_stdlib_path = Some(String::from("/stdlib"));
    let plan = app.check_and_run_conversion("/tools");
    assert_eq!(arg_views(&plan), vec!["design.x", "--dslx_stdlib_path", "/stdlib"]);
}

#[test]
fn scenario_two_decls_selects_first() {
    // Translator succeeds with two declarations: entry points are both
    // names, in source order, with the first selected.
    let mut app = watched("design.x");
    app.check_and_run_conversion("/tools");
    let ir = "fn a(x: u32) -> u32 { x }\nfn b(y: u32) -> u32 { y }\n";
    let next = app.apply_stage_outcome(Stage::Translate, ok(ir), "/tools");
    assert_eq!(app.unopt_ir, ir);
    assert_eq!(app.entry_points, vec![String::from("a"), String::from("b")]);
    assert_eq!(app.selected_entry, 0);
    assert_eq!(app.error_message, None);
    let plan = next.expect("a successful translate asks for the optimizer");
    assert_eq!(plan.stage, Stage::Optimize);
    assert_eq!(plan.program, "/tools/opt_main");
    assert_eq!(arg_views(&plan), vec!["design.x.unopt.ir", "--top", "a"]);
    let write = plan.write.expect("the optimizer reads a persisted file");
    assert_eq!(write.path, "design.x.unopt.ir");
    assert_eq!(write.contents, ir);
}

#[test]
fn scenario_translate_error_keeps_artifacts() {
    // Translator exits non-zero: the error names the stage verbatim and no
    // artifact moves.
    let mut app = watched("design.x");
    app.unopt_ir = String::from("previous unopt");
    app.opt_ir = String::from("previous opt");
    app.delay_info = String::from("previous delay");
    app.check_and_run_conversion("/tools");
    let next = app.apply_stage_outcome(Stage::Translate, fail("parse error: line 3"), "/tools");
    assert!(next.is_none());
    assert_eq!(app.error_message, Some(String::from("translate: parse error: line 3")));
    assert_eq!(app.unopt_ir, "previous unopt");
    assert_eq!(app.opt_ir, "previous opt");
    assert_eq!(app.delay_info, "previous delay");
    assert_eq!(app.tests_passed, None);
}

#[test]
fn scenario_all_stages_pass() {
    let mut app = watched("design.x");
    let mut plan = app.check_and_run_conversion("/tools");
    let outcomes = [
        ok("fn top_level(x: u32) { x }\n"),
        ok("optimized ir"),
        ok("delay report"),
        ok("all checks passed"),
    ];
    let mut finished = false;
    for outcome in outcomes {
        let stage = plan.stage;
        match app.apply_stage_outcome(stage, outcome, "/tools") {
            Some(p) => plan = p,
            None => {
                finished = true;
                break;
            },
        }
    }
    assert!(finished);
    assert_eq!(app.tests_passed, Some(true));
    assert_eq!(app.error_message, None);
    assert_eq!(app.test_output, Some(String::from("all checks passed")));
    assert_eq!(app.unopt_ir, "fn top_level(x: u32) { x }\n");
    assert_eq!(app.opt_ir, "optimized ir");
    assert_eq!(app.delay_info, "delay report");
}

#[test]
fn scenario_optimizer_fails_after_translate() {
    // Optimizer fails after a successful translate: the unoptimized artifact
    // holds the new value, the later artifacts are unchanged.
    let mut app = watched("design.x");
    app.opt_ir = String::from("stale opt");
    app.delay_info = String::from("stale delay");
    app.check_and_run_conversion("/tools");
    let next = app.apply_stage_outcome(Stage::Translate, ok("fn f(a: u8) { a }\n"), "/tools");
    assert!(next.is_some());
    let next = app.apply_stage_outcome(Stage::Optimize, fail("no such top"), "/tools");
    assert!(next.is_none());
    assert_eq!(app.unopt_ir, "fn f(a: u8) { a }\n");
    assert_eq!(app.opt_ir, "stale opt");
    assert_eq!(app.delay_info, "stale delay");
    assert_eq!(app.error_message, Some(String::from("optimize: no such top")));
    assert_eq!(app.tests_passed, None);
}

#[test]
fn analyze_failure_applies_atomically() {
    // A run failing at the analyze stage keeps that run's earlier outputs,
    // the old timing report, and the old test outcome.
    let mut app = watched("design.x");
    app.delay_info = String::from("old delay");
    app.check_and_run_conversion("/tools");
    app.apply_stage_outcome(Stage::Translate, ok("fn f(a: u8) { a }\n"), "/tools");
    app.apply_stage_outcome(Stage::Optimize, ok("new opt"), "/tools");
    let next = app.apply_stage_outcome(Stage::Analyze, fail("boom"), "/tools");
    assert!(next.is_none());
    assert_eq!(app.unopt_ir, "fn f(a: u8) { a }\n");
    assert_eq!(app.opt_ir, "new opt");
    assert_eq!(app.delay_info, "old delay");
    assert_eq!(app.error_message, Some(String::from("analyze: boom")));
    assert_eq!(app.tests_passed, None);
}

#[test]
fn analyze_plan_uses_fixed_delay_model() {
    let mut app = watched("design.x");
    app.check_and_run_conversion("/tools");
    app.apply_stage_outcome(Stage::Translate, ok("fn f(a: u8) { a }\n"), "/tools");
    let plan = app
        .apply_stage_outcome(Stage::Optimize, ok("opt body"), "/tools")
        .expect("a successful optimize asks for the timing tool");
    assert_eq!(plan.stage, Stage::Analyze);
    assert_eq!(plan.program, "/tools/delay_info_main");
    assert_eq!(arg_views(&plan), vec!["design.x.opt.ir", "--delay_model", "asap7"]);
    let write = plan.write.expect("the timing tool reads a persisted file");
    assert_eq!(write.path, "design.x.opt.ir");
    assert_eq!(write.contents, "opt body");
}

#[test]
fn test_plan_is_conditional() {
    let mut app = watched("design.x");
    app.dslx_stdlib_path = Some(String::from("/stdlib"));
    app.check_and_run_conversion("/tools");
    app.apply_stage_outcome(Stage::Translate, ok("fn f(a: u8) { a }\n"), "/tools");
    app.apply_stage_outcome(Stage::Optimize, ok("opt"), "/tools");
    let plan = app
        .apply_stage_outcome(Stage::Analyze, ok("delay"), "/tools")
        .expect("a successful analyze asks for the interpreter");
    assert_eq!(plan.stage, Stage::Test);
    assert_eq!(plan.program, "/tools/dslx_interpreter_main");
    assert_eq!(
        arg_views(&plan),
        vec!["design.x", "--dslx_stdlib_path", "/stdlib", "--compare=jit"]
    );
    assert!(plan.write.is_none());
    assert!(plan.conditional);
}

#[test]
fn test_stage_failure_records_outcome() {
    let mut app = watched("design.x");
    app.check_and_run_conversion("/tools");
    app.apply_stage_outcome(Stage::Translate, ok("fn f(a: u8) { a }\n"), "/tools");
    app.apply_stage_outcome(Stage::Optimize, ok("opt"), "/tools");
    app.apply_stage_outcome(Stage::Analyze, ok("delay"), "/tools");
    let next = app.apply_stage_outcome(Stage::Test, fail("value mismatch"), "/tools");
    assert!(next.is_none());
    assert_eq!(app.tests_passed, Some(false));
    assert_eq!(app.test_output, None);
    assert_eq!(app.error_message, Some(String::from("test: value mismatch")));
}

#[test]
fn test_stage_output_falls_back_to_stderr() {
    let mut app = watched("design.x");
    app.check_and_run_conversion("/tools");
    app.apply_stage_outcome(Stage::Translate, ok("fn f(a: u8) { a }\n"), "/tools");
    app.apply_stage_outcome(Stage::Optimize, ok("opt"), "/tools");
    app.apply_stage_outcome(Stage::Analyze, ok("delay"), "/tools");
    let outcome = Captured {
        success: true,
        stdout: String::new(),
        stderr: String::from("progress on the error stream"),
    };
    app.apply_stage_outcome(Stage::Test, outcome, "/tools");
    assert_eq!(app.tests_passed, Some(true));
    assert_eq!(app.test_output, Some(String::from("progress on the error stream")));
    assert_eq!(app.error_message, None);
}

#[test]
fn failure_downgrades_a_previous_pass() {
    // A failing run never leaves a passing outcome standing next to an error.
    let mut app = watched("design.x");
    app.check_and_run_conversion("/tools");
    app.apply_stage_outcome(Stage::Translate, ok("fn f(a: u8) { a }\n"), "/tools");
    app.apply_stage_outcome(Stage::Optimize, ok("opt"), "/tools");
    app.apply_stage_outcome(Stage::Analyze, ok("delay"), "/tools");
    app.apply_stage_outcome(Stage::Test, ok("fine"), "/tools");
    assert_eq!(app.tests_passed, Some(true));
    app.check_and_run_conversion("/tools");
    app.apply_stage_outcome(Stage::Translate, fail("broken now"), "/tools");
    assert_eq!(app.tests_passed, Some(false));
    assert_eq!(app.test_output, None);
    assert_eq!(app.error_message, Some(String::from("translate: broken now")));
}

#[test]
fn reselect_reruns_with_new_entry() {
    // Moving the selection and re-running passes the newly selected name to
    // the optimizer.
    let mut app = watched("design.x");
    app.check_and_run_conversion("/tools");
    app.apply_stage_outcome(Stage::Translate, ok("fn a()\nfn b()\n"), "/tools");
    app.selected_entry = 1;
    app.check_and_run_conversion("/tools");
    let plan = app
        .apply_stage_outcome(Stage::Translate, ok("fn a()\nfn b()\n"), "/tools")
        .expect("a successful translate asks for the optimizer");
    assert_eq!(arg_views(&plan), vec!["design.x.unopt.ir", "--top", "b"]);
}
