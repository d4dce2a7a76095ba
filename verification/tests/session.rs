use pg_query_gate::session::{
    build_setup_statements, effective_statement_timeout_ms, is_sql_identifier, latency_bucket,
    AtomicLatencyHistogram, RlsContext, SessionOptions, SessionRole, DEFAULT_QUERY_TIMEOUT_SECS,
    MAX_PUBLIC_STATEMENT_TIMEOUT_MS, MIN_QUERY_TIMEOUT_SECS,
};
use uuid::Uuid;

#[test]
fn public_statement_timeout_is_clamped_and_user_is_not() {
    let anon = SessionRole::Anonymous { role_name: "query_ro".into() };
    assert_eq!(effective_statement_timeout_ms(&anon, 60_000), MAX_PUBLIC_STATEMENT_TIMEOUT_MS);
    let user = SessionRole::User { role_name: "user_role_01".into(), user_id: Uuid::nil() };
    assert_eq!(effective_statement_timeout_ms(&user, 60_000), 60_000);
}

#[test]
fn identifier_law_rejects_injection_shapes() {
    for bad in ["'; DROP TABLE users; --", "role name", "", "1role", "a-b"] {
        assert!(!is_sql_identifier(bad), "{bad:?} must not pass");
    }
    for good in ["query_ro", "user_role_12345678", "_internal"] {
        assert!(is_sql_identifier(good), "{good:?} must pass");
    }
}

#[test]
fn setup_battery_carries_the_clamps_and_the_rls_trio() {
    let user = SessionRole::User { role_name: "user_role_test".into(), user_id: Uuid::from_u128(7) };
    let groups = [Uuid::from_u128(1), Uuid::from_u128(2)];
    let setup = build_setup_statements(&user, &groups, 30_000, &SessionOptions::default()).unwrap();

    assert_eq!(setup[0], "SET LOCAL ROLE user_role_test", "role is set first");
    for clamp in [
        "SET LOCAL search_path = pg_catalog, public",
        "SET LOCAL statement_timeout = '30000ms'",
        "SET LOCAL lock_timeout = '5000ms'",
        "SET LOCAL work_mem = '16MB'",
        "SET LOCAL max_parallel_workers_per_gather = 0",
        "SET LOCAL jit = 'off'",
        "SET LOCAL temp_file_limit = '256MB'",
    ] {
        assert!(setup.contains(&clamp.to_string()), "missing clamp: {clamp}");
    }
    // The trio, always all three, in one block.
    let uid = Uuid::from_u128(7);
    assert!(setup.contains(&format!("SET LOCAL app.current_user_id = '{uid}'")));
    assert!(setup.contains(&format!("SET LOCAL app.user_groups = '{},{}'", groups[0], groups[1])));
    assert!(setup.contains(&"SET LOCAL app.access_mode = 'full'".to_string()));
    // Second write-protection layer under the AST gate, last.
    assert_eq!(setup.last().unwrap(), "SET LOCAL transaction_read_only = on");
}

#[test]
fn battery_refuses_non_identifier_role() {
    let evil = SessionRole::Anonymous { role_name: "r; DROP TABLE users".into() };
    assert!(build_setup_statements(&evil, &[], 15_000, &SessionOptions::default()).is_err());
}

#[test]
fn setup_refusals_name_the_culprit() {
    let evil = SessionRole::Anonymous { role_name: "a b".into() };
    assert_eq!(
        build_setup_statements(&evil, &[], 1, &SessionOptions::default()),
        Err("Role name `a b` is not a plain SQL identifier.".to_string())
    );
    let role = SessionRole::Anonymous { role_name: "query_ro".into() };
    let mut options = SessionOptions::default();
    options.search_path = vec!["public".into(), "x;y".into(), "z z".into()];
    assert_eq!(
        build_setup_statements(&role, &[], 1, &options),
        Err("search_path schema `x;y` is not a plain SQL identifier.".to_string())
    );
}

#[test]
fn anonymous_battery_has_no_rls_statement() {
    let role = SessionRole::Anonymous { role_name: "query_ro".into() };
    let groups = [Uuid::from_u128(1)];
    let setup = build_setup_statements(&role, &groups, 15_000, &SessionOptions::default()).unwrap();
    assert_eq!(
        setup,
        vec![
            "SET LOCAL ROLE query_ro",
            "SET LOCAL search_path = pg_catalog, public",
            "SET LOCAL statement_timeout = '15000ms'",
            "SET LOCAL lock_timeout = '5000ms'",
            "SET LOCAL work_mem = '16MB'",
            "SET LOCAL max_parallel_workers_per_gather = 0",
            "SET LOCAL jit = 'off'",
            "SET LOCAL temp_file_limit = '256MB'",
            "SET LOCAL transaction_read_only = on",
        ]
    );
}

#[test]
fn options_that_are_off_leave_their_statement_out() {
    let role = SessionRole::Anonymous { role_name: "query_ro".into() };
    let options = SessionOptions {
        search_path: vec!["public".into()],
        lock_timeout_ms: 0,
        work_mem_mb: 1,
        temp_file_limit_mb: 18446744073709551615,
        disable_parallelism: false,
        disable_jit: false,
        read_only: false,
    };
    let setup = build_setup_statements(&role, &[], 0, &options).unwrap();
    assert_eq!(
        setup,
        vec![
            "SET LOCAL ROLE query_ro",
            "SET LOCAL search_path = public",
            "SET LOCAL statement_timeout = '0ms'",
            "SET LOCAL lock_timeout = '0ms'",
            "SET LOCAL work_mem = '1MB'",
            "SET LOCAL temp_file_limit = '18446744073709551615MB'",
        ]
    );
}

#[test]
fn uuids_render_hyphenated_in_lower_case() {
    let rls = RlsContext {
        user_id: Uuid::from_u128(0x0123_4567_89AB_CDEF_FEDC_BA98_7654_3210),
        group_ids: vec![],
    };
    let trio = rls.set_local_statements();
    assert_eq!(
        trio[0],
        "SET LOCAL app.current_user_id = '01234567-89ab-cdef-fedc-ba9876543210'"
    );
    assert_eq!(trio[1], "SET LOCAL app.user_groups = ''");
    assert_eq!(trio[2], "SET LOCAL app.access_mode = 'full'");
}

#[test]
fn roles_give_back_their_name_and_user() {
    let user = SessionRole::User { role_name: "u".into(), user_id: Uuid::from_u128(9) };
    assert_eq!(user.role_name(), "u");
    assert_eq!(user.user_id(), Some(Uuid::from_u128(9)));
    let copy = user.clone();
    assert_eq!(copy.user_id(), Some(Uuid::from_u128(9)));
    let anon = SessionRole::Anonymous { role_name: "a".into() };
    assert_eq!(anon.role_name(), "a");
    assert_eq!(anon.user_id(), None);
}

#[test]
fn timeouts_are_at_least_one_millisecond() {
    let anon = SessionRole::Anonymous { role_name: "a".into() };
    assert_eq!(effective_statement_timeout_ms(&anon, 0), 1);
    assert_eq!(effective_statement_timeout_ms(&anon, 14_999), 14_999);
    let user = SessionRole::User { role_name: "u".into(), user_id: Uuid::nil() };
    assert_eq!(effective_statement_timeout_ms(&user, 0), 1);
}

#[test]
fn latencies_fall_into_their_buckets() {
    let cases = [
        (0, 0),
        (99, 0),
        (100, 1),
        (499, 1),
        (500, 2),
        (999, 2),
        (1000, 3),
        (4999, 3),
        (5000, 4),
        (9999, 4),
        (10000, 5),
        (29999, 5),
        (30000, 6),
        (59999, 6),
        (60000, 7),
        (u64::MAX, 7),
    ];
    for (duration, bucket) in cases {
        assert_eq!(latency_bucket(duration), bucket);
    }
}

#[test]
fn few_recordings_keep_the_default_timeout() {
    let mut h = AtomicLatencyHistogram::new();
    for _ in 0..9 {
        h.record(70_000);
    }
    assert_eq!(h.count(), 9);
    assert_eq!(h.compute_query_timeout_secs(), DEFAULT_QUERY_TIMEOUT_SECS);
    h.record(70_000);
    assert_eq!(h.compute_query_timeout_secs(), MIN_QUERY_TIMEOUT_SECS);
}

#[test]
fn slower_p95_tightens_the_timeout() {
    let cases = [
        (50, 60),
        (200, 60),
        (700, 60),
        (2_000, 50),
        (7_000, 40),
        (20_000, 30),
        (40_000, 20),
        (90_000, 20),
    ];
    for (duration, secs) in cases {
        let mut h = AtomicLatencyHistogram::default();
        for _ in 0..20 {
            h.record(duration);
        }
        assert_eq!(h.compute_query_timeout_secs(), secs);
    }
}

#[test]
fn p95_ignores_the_slowest_twentieth() {
    // 19 of 20 recordings are fast: the 95th percentile is fast.
    let h = AtomicLatencyHistogram::from_counts([19, 0, 0, 0, 0, 0, 0, 1], 20);
    assert_eq!(h.p95_bucket(), 0);
    // 94 of 100 are not enough.
    let h = AtomicLatencyHistogram::from_counts([94, 0, 0, 0, 6, 0, 0, 0], 100);
    assert_eq!(h.p95_bucket(), 4);
    assert_eq!(h.compute_query_timeout_secs(), 40);
    let h = AtomicLatencyHistogram::new();
    assert_eq!(h.p95_bucket(), 0);
}

#[test]
fn growing_durations_never_raise_the_timeout() {
    let timeout = |durations: &[u64]| {
        let mut h = AtomicLatencyHistogram::new();
        for d in durations {
            h.record(*d);
        }
        h.compute_query_timeout_secs()
    };
    let mut durations: Vec<u64> = vec![50; 20];
    let mut last = timeout(&durations);
    assert_eq!(last, 60);
    for round in 0..12 {
        for i in 0..durations.len() {
            if (i + round) % 3 != 0 {
                durations[i] = durations[i] * 2 + 100;
            }
        }
        let next = timeout(&durations);
        assert!(next <= last, "{next} after {last}");
        last = next;
    }
    assert_eq!(last, 20);
    let mixed = [7_000, 50, 2_000, 50, 50, 50, 50, 50, 50, 50, 20_000];
    let mut sorted = mixed;
    sorted.sort();
    assert_eq!(timeout(&mixed), timeout(&sorted));
    assert_eq!(timeout(&mixed), 30);
}

#[test]
fn each_statement_of_a_battery_is_one_setting() {
    let role = SessionRole::User {
        role_name: "app_user".into(),
        user_id: Uuid::from_u128(u128::MAX),
    };
    let groups = [Uuid::from_u128(0), Uuid::from_u128(7)];
    let options = SessionOptions {
        search_path: vec!["a".into(), "_b9".into()],
        lock_timeout_ms: u64::MAX,
        ..SessionOptions::default()
    };
    for statement in build_setup_statements(&role, &groups, u64::MAX, &options).unwrap() {
        assert!(statement.starts_with("SET LOCAL "), "{statement}");
        let pieces: Vec<&str> = statement.split('\'').collect();
        assert!(pieces.len() == 1 || pieces.len() == 3 && pieces[2].is_empty(), "{statement}");
        let outside = |c: char| c.is_ascii_alphanumeric() || "_ =,.".contains(c);
        let inside = |c: char| c.is_ascii_alphanumeric() || "_,-".contains(c);
        assert!(pieces[0].chars().all(outside), "{statement}");
        assert!(pieces.len() == 1 || pieces[1].chars().all(inside), "{statement}");
    }
}
