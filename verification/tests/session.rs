use cica::backends::QueryOptions;
use cica::channels::session::{after_query, begin_query, QueryOutcome, QueryStep};
use cica::pairing::PairingStore;

#[test]
fn default_options_ask_for_nothing() {
    let options = QueryOptions::default();
    assert_eq!(options.system_prompt, None);
    assert_eq!(options.resume_session, None);
    assert_eq!(options.cwd, None);
    assert!(!options.skip_permissions);
}

#[test]
fn the_first_try_goes_on_with_the_known_session() {
    let mut store = PairingStore::default();
    let options = begin_query(&store, "telegram", "1", "ctx".to_string());
    assert_eq!(options.system_prompt, Some("ctx".to_string()));
    assert_eq!(options.resume_session, None);
    assert!(options.skip_permissions);
    store.get_or_create_session_with("telegram", "1", "s-1".to_string());
    let options = begin_query(&store, "telegram", "1", "ctx".to_string());
    assert_eq!(options.resume_session, Some("s-1".to_string()));
    let copy = options.clone();
    assert_eq!(copy.resume_session, Some("s-1".to_string()));
}

#[test]
fn an_answer_is_passed_on_and_its_session_kept() {
    let mut store = PairingStore::default();
    let step = after_query(
        &mut store,
        "telegram",
        "1",
        "ctx".to_string(),
        QueryOutcome::Answered { response: "hi".to_string(), session_id: "s-9".to_string() },
        true,
    );
    assert!(matches!(
        step,
        QueryStep::Done { response, session_id } if response == "hi" && session_id == "s-9"
    ));
    assert_eq!(
        begin_query(&store, "telegram", "1", "c".to_string()).resume_session,
        Some("s-9".to_string())
    );
    // An empty session leaves the known one alone.
    after_query(
        &mut store,
        "telegram",
        "1",
        "ctx".to_string(),
        QueryOutcome::Answered { response: "hi".to_string(), session_id: String::new() },
        true,
    );
    assert_eq!(
        begin_query(&store, "telegram", "1", "c".to_string()).resume_session,
        Some("s-9".to_string())
    );
}

#[test]
fn a_lost_session_is_forgotten_and_the_query_repeated_once() {
    let mut store = PairingStore::default();
    store.get_or_create_session_with("telegram", "1", "gone".to_string());
    let step = after_query(
        &mut store,
        "telegram",
        "1",
        "ctx".to_string(),
        QueryOutcome::Failed("Error: No conversation found with session ID gone".to_string()),
        true,
    );
    match step {
        QueryStep::Retry(options) => {
            assert_eq!(options.system_prompt, Some("ctx".to_string()));
            assert_eq!(options.resume_session, None);
            assert!(options.skip_permissions);
        }
        other => panic!("{:?}", other),
    }
    assert_eq!(begin_query(&store, "telegram", "1", "c".to_string()).resume_session, None);
    // The second try is not repeated.
    let step = after_query(
        &mut store,
        "telegram",
        "1",
        "ctx".to_string(),
        QueryOutcome::Failed("No conversation found with session ID gone".to_string()),
        false,
    );
    assert!(matches!(
        step,
        QueryStep::Done { response, session_id }
            if response == "Sorry, I encountered an error: No conversation found with session ID gone"
                && session_id.is_empty()
    ));
}

#[test]
fn any_other_failure_is_told_to_the_user() {
    let mut store = PairingStore::default();
    store.get_or_create_session_with("telegram", "1", "kept".to_string());
    let step = after_query(
        &mut store,
        "telegram",
        "1",
        "ctx".to_string(),
        QueryOutcome::Failed("timeout".to_string()),
        true,
    );
    assert!(matches!(
        step,
        QueryStep::Done { response, session_id }
            if response == "Sorry, I encountered an error: timeout" && session_id.is_empty()
    ));
    assert_eq!(
        begin_query(&store, "telegram", "1", "c".to_string()).resume_session,
        Some("kept".to_string())
    );
}
