use plugin_runtime::call_id::{RANDOM_UUID_BITS, RANDOM_UUID_MASK, SENTINEL_CALL_ID};
use plugin_runtime::loader::{admission_candidates, collect_admitted, excluded};
use plugin_runtime::proxy::{begin_call, finish_call, open_call};
use plugin_runtime::runtime::{
    bootstrap_verdict, route, PluginOpCallResult, Route, RuntimeResult, RuntimeState,
};
use plugin_runtime::table::CorrelationTable;
use plugin_runtime::{PluginCallResult, PluginData, PluginError};

#[derive(Clone, Debug, PartialEq)]
struct Named(String);

#[derive(Clone)]
struct Text;

impl PluginCallResult for Text {
    type Ok = String;
    type Err = String;
}

impl PluginData for Named {
    type PluginCall = String;
    type PluginCallResult = Text;

    fn name(&self) -> String {
        self.0.clone()
    }
}

fn strings(items: &[&str]) -> Vec<String> {
    items.iter().map(|s| s.to_string()).collect()
}

/// Routes `outcome` and expects a delivery; returns the waiter and what the
/// waiting `execute` hands to its caller.
fn deliver(
    table: &mut CorrelationTable<&'static str>,
    outcome: PluginOpCallResult<Text>,
) -> (&'static str, Result<Result<String, String>, PluginError>) {
    match route(table, outcome) {
        Route::Deliver(w, res) => (w, finish_call::<Text>(Ok(res))),
        _ => panic!("expected a delivery"),
    }
}

#[test]
fn concurrent_calls_get_distinct_ids() {
    let identity = Named("p1".to_string());
    let mut table = CorrelationTable::new();
    let mut ids = Vec::new();
    for n in 0..50 {
        let envelope = begin_call(&identity, &mut table, n, format!("call {}", n)).unwrap();
        assert_ne!(envelope.call_id, SENTINEL_CALL_ID);
        assert_eq!(envelope.call_id & RANDOM_UUID_MASK, RANDOM_UUID_BITS);
        assert_eq!(envelope.call, format!("call {}", n));
        assert_eq!(envelope.plugin_data, identity);
        ids.push(envelope.call_id);
    }
    assert_eq!(table.len(), 50);
    ids.sort();
    ids.dedup();
    assert_eq!(ids.len(), 50);
}

#[test]
fn an_outcome_is_delivered_exactly_once() {
    let identity = Named("p1".to_string());
    let mut table = CorrelationTable::new();
    let envelope = open_call(&identity, 42, &mut table, "caller", "ping".to_string()).unwrap();
    assert_eq!(envelope.call_id, 42);
    let (w, got) = deliver(&mut table, PluginOpCallResult::resolved(42, "pong".to_string()));
    assert_eq!(w, "caller");
    assert_eq!(got, Ok(Ok("pong".to_string())));
    match route(&mut table, PluginOpCallResult::<Text>::rejected(42, "late".to_string())) {
        Route::Unmatched(id) => assert_eq!(id, 42),
        _ => panic!("a second outcome must reach nobody"),
    }
    assert_eq!(table.len(), 0);
}

#[test]
fn opening_a_pending_id_is_refused() {
    let identity = Named("p1".to_string());
    let mut table = CorrelationTable::new();
    assert!(open_call(&identity, 8, &mut table, "a", "x".to_string()).is_ok());
    match open_call(&identity, 8, &mut table, "b", "y".to_string()) {
        Err(e) => assert_eq!(e, PluginError::RuntimeError("call id already registered".to_string())),
        Ok(_) => panic!("a pending id must be refused"),
    }
    assert_eq!(table.take(8), Some("a"));
}

#[test]
fn round_trip_through_admission_and_execute() {
    let names = admission_candidates(&strings(&["p1"]), &Vec::new());
    assert_eq!(names, strings(&["p1"]));
    let identity = Named(names[0].clone());
    assert_eq!(identity.name(), "p1");

    let mut state = RuntimeState::new();
    assert_eq!(state.start(), Ok(()));
    assert_eq!(state.check_admission(), Ok(()));

    let mut table = CorrelationTable::new();
    let bootstrap = begin_call(&identity, &mut table, "loader", String::new()).unwrap();
    let (w, got) = deliver(&mut table, PluginOpCallResult::resolved(bootstrap.call_id, String::new()));
    assert_eq!(w, "loader");
    assert_eq!(bootstrap_verdict(got), Ok(()));

    let call = begin_call(&identity, &mut table, "user", "payload".to_string()).unwrap();
    assert_eq!(call.call, "payload");
    let (w, got) = deliver(&mut table, PluginOpCallResult::resolved(call.call_id, "result".to_string()));
    assert_eq!(w, "user");
    assert_eq!(got, Ok(Ok("result".to_string())));
}

#[test]
fn fatal_outcome_is_broadcast_to_every_pending_call() {
    let identity = Named("p1".to_string());
    let mut table = CorrelationTable::new();
    let a = begin_call(&identity, &mut table, "A", "a".to_string()).unwrap().call_id;
    let b = begin_call(&identity, &mut table, "B", "b".to_string()).unwrap().call_id;
    let fatal = PluginOpCallResult::<Text>::rejected(SENTINEL_CALL_ID, "boom".to_string());
    let r = route(&mut table, fatal);
    assert!(r.ends_loop());
    match r {
        Route::Broadcast(mut waiters, result) => {
            waiters.sort();
            let mut expected = vec![(a, "A"), (b, "B")];
            expected.sort();
            assert_eq!(waiters, expected);
            for _ in waiters {
                let got = finish_call::<Text>(Ok(RuntimeResult::from_result(result.clone())));
                assert_eq!(got, Ok(Err("boom".to_string())));
            }
        }
        _ => panic!("expected a broadcast"),
    }
    assert_eq!(table.len(), 0);
    match route(&mut table, PluginOpCallResult::<Text>::resolved(a, "late".to_string())) {
        Route::Unmatched(id) => assert_eq!(id, a),
        _ => panic!("nothing is pending after a broadcast"),
    }
}

#[test]
fn delivery_and_unmatched_routes_do_not_end_the_loop() {
    let mut table = CorrelationTable::new();
    table.register(1, "one").unwrap();
    let r = route(&mut table, PluginOpCallResult::<Text>::resolved(1, "x".to_string()));
    assert!(!r.ends_loop());
    let r = route(&mut table, PluginOpCallResult::<Text>::resolved(2, "x".to_string()));
    assert!(!r.ends_loop());
}

#[test]
fn a_lost_reply_is_a_runtime_error() {
    let got = finish_call::<Text>(Err("receiving on a closed channel".to_string()));
    assert_eq!(
        got,
        Err(PluginError::RuntimeError("receiving on a closed channel".to_string()))
    );
    let rejected = finish_call::<Text>(Ok(RuntimeResult::Failure("no".to_string())));
    assert_eq!(rejected, Ok(Err("no".to_string())));
}

#[test]
fn outcome_conversions_keep_the_value() {
    let ok: RuntimeResult<Text> = RuntimeResult::from_result(Ok("v".to_string()));
    assert_eq!(ok.into_result(), Ok("v".to_string()));
    let err: RuntimeResult<Text> = RuntimeResult::from_result(Err("e".to_string()));
    assert_eq!(err.into_result(), Err("e".to_string()));
}

#[test]
fn partial_failure_loading_keeps_only_the_admitted() {
    let outcomes: Vec<Result<&str, PluginError>> = vec![
        Ok("A"),
        Err(PluginError::InvalidPlugin("B".to_string())),
        Err(PluginError::FailedToLoad("C".to_string())),
    ];
    assert_eq!(collect_admitted(outcomes), vec!["A"]);
    let later: Vec<Result<u8, PluginError>> = vec![
        Err(PluginError::InvalidPlugin("x".to_string())),
        Ok(1),
        Ok(2),
        Err(PluginError::RuntimeError("y".to_string())),
        Ok(3),
    ];
    assert_eq!(collect_admitted(later), vec![1, 2, 3]);
    assert!(collect_admitted(Vec::<Result<u8, PluginError>>::new()).is_empty());
}

#[test]
fn excluded_identifiers_are_never_candidates() {
    assert!(admission_candidates(&strings(&["p1"]), &strings(&["p1"])).is_empty());
    assert_eq!(
        admission_candidates(&strings(&["a", "b", "c", "b"]), &strings(&["b", "z"])),
        strings(&["a", "c"])
    );
    assert!(excluded(&strings(&["test"]), &"test".to_string()));
    assert!(!excluded(&strings(&["test"]), &"other".to_string()));
}

#[test]
fn admission_waits_for_the_runtime_to_run() {
    let mut state = RuntimeState::new();
    assert!(!state.is_running());
    assert_eq!(
        state.check_admission(),
        Err(PluginError::RuntimeError("run runtime first".to_string()))
    );
    assert_eq!(state.start(), Ok(()));
    assert!(state.is_running());
    assert_eq!(
        state.start(),
        Err(PluginError::RuntimeError("runtime already running".to_string()))
    );
}

#[test]
fn failed_bootstraps_refuse_the_plugin() {
    assert_eq!(
        bootstrap_verdict::<String>(Ok(Err("bad".to_string()))),
        Err(PluginError::FailedToLoad("bad".to_string()))
    );
    assert_eq!(
        bootstrap_verdict::<String>(Err(PluginError::RuntimeError("gone".to_string()))),
        Err(PluginError::FailedToLoad("gone".to_string()))
    );
    assert_eq!(bootstrap_verdict::<String>(Ok(Ok("fine".to_string()))), Ok(()));
}

#[test]
fn calls_after_shutdown_fail_instead_of_waiting() {
    let identity = Named("p1".to_string());
    let mut table = CorrelationTable::new();
    let pending = begin_call(&identity, &mut table, "waiting", "a".to_string()).unwrap();
    let released = table.close();
    assert_eq!(released, vec![(pending.call_id, "waiting")]);
    // The released waiter's conduit is dropped, so its reply fails.
    assert_eq!(
        finish_call::<Text>(Err("receiving on a closed channel".to_string())),
        Err(PluginError::RuntimeError("receiving on a closed channel".to_string()))
    );
    match begin_call(&identity, &mut table, "late", "b".to_string()) {
        Err(e) => assert_eq!(e, PluginError::RuntimeError("runtime shut down".to_string())),
        Ok(_) => panic!("a closed table takes no call"),
    }
    match open_call(&identity, 77, &mut table, "late", "c".to_string()) {
        Err(e) => assert_eq!(e, PluginError::RuntimeError("runtime shut down".to_string())),
        Ok(_) => panic!("a closed table takes no call"),
    }
}
