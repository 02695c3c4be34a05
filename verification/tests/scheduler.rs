use cica::cron::clock::{Clock, FakeClock};
use cica::cron::schedule::CronSchedule;
use cica::cron::store::{CronJob, CronStore, JobStatus};
use cica::cron::{
    mark_running, record_completion, result_message, CronConfig, CronService, RunOutcome,
    ServiceError,
};

fn service(now: u64) -> (FakeClock, CronService<FakeClock>) {
    let clock = FakeClock::new(now);
    let service = CronService::new(clock.clone(), CronConfig::default(), CronStore::new());
    (clock, service)
}

fn add(service: &mut CronService<FakeClock>, schedule: CronSchedule) -> String {
    service.add(
        "name".to_string(),
        "prompt".to_string(),
        schedule,
        "telegram".to_string(),
        "42".to_string(),
    )
}

#[test]
fn default_tick_is_a_minute() {
    assert_eq!(CronConfig::default().tick_interval_ms, 60_000);
}

#[test]
fn interval_job_runs_and_is_rescheduled_from_completion() {
    let (clock, mut service) = service(1_000);
    let id = add(&mut service, CronSchedule::Every(10_000));
    assert_eq!(
        service.status(&id, "telegram", "42").unwrap().state.next_run_at,
        Some(11_000)
    );

    clock.set(10_999);
    let (now, due) = service.tick();
    assert_eq!(now, 10_999);
    assert!(due.is_empty());

    clock.set(11_000);
    assert_eq!(service.store.get_due_jobs(11_000).len(), 1);
    let (now, due) = service.tick();
    assert_eq!(now, 11_000);
    assert_eq!(due.len(), 1);
    assert_eq!(due[0].id, id);
    assert_eq!(due[0].state.next_run_at, Some(11_000));

    // While it runs the job is not due again.
    let running = service.status(&id, "telegram", "42").unwrap();
    assert_eq!(running.state.last_status, JobStatus::Running);
    assert_eq!(running.state.next_run_at, None);
    clock.set(500_000);
    assert!(service.tick().1.is_empty());

    clock.set(11_000);
    let start = service.begin(&due[0]);
    assert_eq!(start, 11_000);
    clock.set(11_500);
    let note = service.finish(&due[0], start, RunOutcome::Success("done".to_string()));
    assert_eq!(note, Some("[Cron: name]\n\ndone".to_string()));

    let after = service.status(&id, "telegram", "42").unwrap();
    assert_eq!(after.state.next_run_at, Some(21_500));
    assert_eq!(after.state.last_status, JobStatus::Success);
    assert_eq!(after.state.last_run_at, Some(11_500));
    assert_eq!(after.state.last_duration_ms, Some(500));
    assert_eq!(after.state.failure_count, 0);
    assert!(after.enabled);
}

#[test]
fn failed_run_is_counted_and_does_not_disable_an_interval_job() {
    let (clock, mut service) = service(0);
    let id = add(&mut service, CronSchedule::Every(1_000));
    clock.set(1_000);
    let (_, due) = service.tick();
    let start = service.begin(&due[0]);
    clock.set(1_200);
    let note = service.finish(&due[0], start, RunOutcome::Failure("boom".to_string()));
    assert_eq!(note, Some("[Cron: name FAILED]\n\nError: boom".to_string()));
    let after = service.status(&id, "telegram", "42").unwrap();
    assert_eq!(after.state.last_status, JobStatus::Failed("boom".to_string()));
    assert_eq!(after.state.failure_count, 1);
    assert!(after.enabled);
    assert_eq!(after.state.next_run_at, Some(2_200));

    clock.set(2_200);
    let (_, due) = service.tick();
    let start = service.begin(&due[0]);
    service.finish(&due[0], start, RunOutcome::Failure("again".to_string()));
    assert_eq!(service.status(&id, "telegram", "42").unwrap().state.failure_count, 2);

    clock.set(3_200);
    let (_, due) = service.tick();
    let start = service.begin(&due[0]);
    service.finish(&due[0], start, RunOutcome::Success("ok".to_string()));
    assert_eq!(service.status(&id, "telegram", "42").unwrap().state.failure_count, 0);
}

#[test]
fn one_shot_job_that_fails_is_spent() {
    let (clock, mut service) = service(1_000);
    let id = add(&mut service, CronSchedule::At(5_000));
    assert_eq!(
        service.status(&id, "telegram", "42").unwrap().state.next_run_at,
        Some(5_000)
    );
    clock.set(5_000);
    let (_, due) = service.tick();
    assert_eq!(due.len(), 1);
    let start = service.begin(&due[0]);
    clock.set(5_100);
    service.finish(&due[0], start, RunOutcome::Failure("no luck".to_string()));
    let after = service.status(&id, "telegram", "42").unwrap();
    assert!(!after.enabled);
    assert_eq!(after.state.next_run_at, None);
    assert_eq!(after.state.last_status, JobStatus::Failed("no luck".to_string()));
    assert!(service.store.get_due_jobs(u64::MAX).is_empty());
    clock.set(1_000_000);
    assert!(service.tick().1.is_empty());
}

#[test]
fn one_shot_job_that_succeeds_is_spent() {
    let (clock, mut service) = service(1_000);
    let id = add(&mut service, CronSchedule::At(5_000));
    clock.set(6_000);
    let (_, due) = service.tick();
    let start = service.begin(&due[0]);
    service.finish(&due[0], start, RunOutcome::Success("fine".to_string()));
    let after = service.status(&id, "telegram", "42").unwrap();
    assert!(!after.enabled);
    assert_eq!(after.state.next_run_at, None);
    assert_eq!(after.state.last_status, JobStatus::Success);
}

#[test]
fn a_job_that_asks_for_no_notice_gets_none() {
    let (clock, mut service) = service(0);
    let id = add(&mut service, CronSchedule::Every(1_000));
    service.store.get_mut(&id).unwrap().notify = false;
    clock.set(1_000);
    let (_, due) = service.tick();
    assert!(!due[0].notify);
    let start = service.begin(&due[0]);
    assert_eq!(service.finish(&due[0], start, RunOutcome::Success("x".to_string())), None);
}

#[test]
fn duration_is_zero_when_the_clock_went_back() {
    let (clock, mut service) = service(10_000);
    let id = add(&mut service, CronSchedule::Every(1_000));
    let job = service.status(&id, "telegram", "42").unwrap();
    let start = service.begin(&job);
    clock.set(9_000);
    service.finish(&job, start, RunOutcome::Success("x".to_string()));
    let after = service.status(&id, "telegram", "42").unwrap();
    assert_eq!(after.state.last_duration_ms, Some(0));
    assert_eq!(after.state.next_run_at, Some(10_000));
}

#[test]
fn toggle_switches_off_and_on() {
    let (clock, mut service) = service(1_000);
    let id = add(&mut service, CronSchedule::Every(10_000));
    assert!(matches!(service.toggle(&id, "telegram", "42"), Ok(false)));
    let off = service.status(&id, "telegram", "42").unwrap();
    assert!(!off.enabled);
    assert_eq!(off.state.next_run_at, None);
    clock.set(50_000);
    assert!(service.tick().1.is_empty());
    assert!(matches!(service.toggle(&id, "telegram", "42"), Ok(true)));
    let on = service.status(&id, "telegram", "42").unwrap();
    assert!(on.enabled);
    assert_eq!(on.state.next_run_at, Some(60_000));
}

#[test]
fn toggle_of_a_foreign_or_missing_job_is_refused() {
    let (_clock, mut service) = service(1_000);
    let id = add(&mut service, CronSchedule::Every(10_000));
    let refused = service.toggle(&id, "telegram", "someone else").unwrap_err();
    assert!(matches!(refused, ServiceError::JobNotFound(_)));
    assert_eq!(refused.message(), format!("Job not found: {}", id));
    assert_eq!(
        service.toggle("missing", "telegram", "42").unwrap_err().message(),
        "Job not found: missing"
    );
    assert_eq!(ServiceError::NotOwner.message(), "You don't own this job");
    assert!(service.status(&id, "telegram", "42").unwrap().enabled);
    assert!(service.status(&id, "telegram", "someone else").is_none());
}

#[test]
fn list_and_remove_are_for_the_owner() {
    let (_clock, mut service) = service(1_000);
    let id = add(&mut service, CronSchedule::Every(10_000));
    let other = service.add(
        "other".to_string(),
        "p".to_string(),
        CronSchedule::Every(1_000),
        "signal".to_string(),
        "7".to_string(),
    );
    assert_eq!(service.list("telegram", "42").len(), 1);
    assert_eq!(service.list("signal", "7")[0].id, other);
    assert!(service.list("slack", "1").is_empty());
    assert!(service.remove(&id, "signal", "7").is_err());
    assert!(matches!(service.remove("nothing", "signal", "7"), Ok(None)));
    assert_eq!(service.remove(&id, "telegram", "42").unwrap().unwrap().id, id);
    assert!(service.list("telegram", "42").is_empty());
}

#[test]
fn stop_and_reload() {
    let (_clock, mut service) = service(1_000);
    assert!(!service.stopped);
    add(&mut service, CronSchedule::Every(10_000));
    service.reload(CronStore::new());
    assert_eq!(service.store.len(), 0);
    service.stop();
    assert!(service.stopped);
}

#[test]
fn the_clock_of_the_service_is_the_one_it_was_given() {
    let (clock, service) = service(77);
    clock.advance_ms(3);
    assert_eq!(service.clock.now_millis(), 80);
}

#[test]
fn marking_and_recording_on_a_table() {
    let mut store = CronStore::new();
    store.add(CronJob::with_id(
        "j".to_string(),
        "n".to_string(),
        "p".to_string(),
        CronSchedule::Every(100),
        "c".to_string(),
        "u".to_string(),
        0,
    ));
    assert!(!mark_running(&mut store, "missing"));
    assert!(mark_running(&mut store, "j"));
    assert_eq!(store.get("j", "c", "u").unwrap().state.last_status, JobStatus::Running);
    assert!(!record_completion(&mut store, "missing", 5, 1, JobStatus::Success));
    assert!(record_completion(&mut store, "j", 500, 20, JobStatus::Failed("e".to_string())));
    let job = store.get("j", "c", "u").unwrap();
    assert_eq!(job.state.next_run_at, Some(600));
    assert_eq!(job.state.last_duration_ms, Some(20));
    assert_eq!(job.state.failure_count, 1);
}

#[test]
fn a_job_paused_while_it_ran_stays_unscheduled() {
    let mut store = CronStore::new();
    store.add(CronJob::with_id(
        "j".to_string(),
        "n".to_string(),
        "p".to_string(),
        CronSchedule::Every(100),
        "c".to_string(),
        "u".to_string(),
        0,
    ));
    mark_running(&mut store, "j");
    store.get_mut("j").unwrap().enabled = false;
    record_completion(&mut store, "j", 500, 20, JobStatus::Success);
    let job = store.get("j", "c", "u").unwrap();
    assert!(!job.enabled);
    assert_eq!(job.state.next_run_at, None);
}

#[test]
fn result_messages() {
    assert_eq!(
        result_message("Mail", &RunOutcome::Success("3 new".to_string())),
        "[Cron: Mail]\n\n3 new"
    );
    assert_eq!(
        result_message("Mail", &RunOutcome::Failure("timeout".to_string())),
        "[Cron: Mail FAILED]\n\nError: timeout"
    );
}
