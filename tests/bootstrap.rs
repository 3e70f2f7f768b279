use axum_kit::bootstrap::{Action, BootstrapPlan, Orchestrator, Phase, Stage};

fn full_plan() -> BootstrapPlan {
    BootstrapPlan { database: true, cache: true, pre_run: true }
}

#[test]
fn plan_steps_follow_stage_order() {
    assert_eq!(
        full_plan().steps(),
        vec![Stage::Database, Stage::Cache, Stage::PreRun, Stage::Logging, Stage::Serve]
    );
    let bare = BootstrapPlan { database: false, cache: false, pre_run: false };
    assert_eq!(bare.steps(), vec![Stage::Logging, Stage::Serve]);
    let no_hook = BootstrapPlan { database: true, cache: false, pre_run: false };
    assert_eq!(no_hook.steps(), vec![Stage::Database, Stage::Logging, Stage::Serve]);
}

#[test]
fn all_stages_run_in_order_when_each_succeeds() {
    let mut o = Orchestrator::new(&full_plan());
    assert_eq!(o.phase(), Phase::Created);
    let mut started = Vec::new();
    let mut action = o.start();
    while let Action::Start(stage) = action {
        started.push(stage);
        assert_eq!(o.phase(), Phase::Running(stage));
        action = o.complete(true);
    }
    assert_eq!(action, Action::Finish);
    assert_eq!(o.phase(), Phase::Stopped);
    assert_eq!(started, full_plan().steps());
}

#[test]
fn failed_pre_run_hook_stops_logging_and_serving() {
    let mut o = Orchestrator::new(&full_plan());
    assert_eq!(o.start(), Action::Start(Stage::Database));
    assert_eq!(o.complete(true), Action::Start(Stage::Cache));
    assert_eq!(o.complete(true), Action::Start(Stage::PreRun));
    assert_eq!(o.complete(false), Action::Abort(Stage::PreRun));
    assert_eq!(o.phase(), Phase::Errored(Stage::PreRun));
}

#[test]
fn failed_resource_stops_every_later_stage() {
    let mut o = Orchestrator::new(&full_plan());
    assert_eq!(o.start(), Action::Start(Stage::Database));
    assert_eq!(o.complete(false), Action::Abort(Stage::Database));
    assert_eq!(o.phase(), Phase::Errored(Stage::Database));
}

#[test]
fn failure_contexts_name_the_stage() {
    assert_eq!(Stage::Database.failure_context(), "postgres initialization failed");
    assert_eq!(Stage::Cache.failure_context(), "redis initialization failed");
    assert_eq!(Stage::PreRun.failure_context(), "pre-run task failed");
    assert_eq!(Stage::Logging.failure_context(), "logger initialization failed");
    assert_eq!(Stage::Serve.failure_context(), "service startup failed");
}
