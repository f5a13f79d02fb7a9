use alberto_cli::cli::{GrpcOpts, Output, UploadArgs};
use alberto_cli::config::{Config, ResolveError};
use alberto_cli::upload::{
    transfer_summary,
    check_upload_args, prepare_upload, ReplyOutcome, RetryStep, TransferReplyData, UploadError,
    UploadRetry, EXHAUSTED,
};

fn args() -> UploadArgs {
    UploadArgs {
        file: "/tmp/dir/factura.pdf".into(),
        node_type: "factura".into(),
        title: None,
        description: String::new(),
        parent: "p-1".into(),
        user: "oscar".into(),
        tenant: String::new(),
        data: "{}".into(),
        assoc: None,
        signed_ref: None,
        grpc: GrpcOpts {
            endpoint: Some("http://e:1".into()),
            api_key: Some("k".into()),
            profile: None,
            output: Output::Pretty,
        },
        retries: 3,
    }
}

#[test]
fn assoc_and_signed_are_exclusive() {
    let mut a = args();
    a.assoc = Some("x".into());
    a.signed_ref = Some("y".into());
    let e = check_upload_args(&a).err().unwrap();
    assert_eq!(
        e.describe(""),
        "--assoc y --signed-ref son mutuamente excluyentes"
    );
    assert!(matches!(
        prepare_upload(a, &Config::default()),
        Err(UploadError::ExclusiveVariants)
    ));
}

#[test]
fn data_must_be_json() {
    let mut a = args();
    a.data = "{rut".into();
    assert_eq!(
        check_upload_args(&a).err().unwrap().describe(""),
        "--data no es JSON valido"
    );
}

#[test]
fn metadata_defaults_title_and_picks_variant() {
    let plan = prepare_upload(args(), &Config::default()).ok().unwrap();
    assert_eq!(plan.meta.filename, "factura.pdf");
    assert_eq!(plan.meta.title, "factura.pdf");
    assert_eq!(plan.meta.variant, "plain");
    assert_eq!(plan.meta.assoc_id, "");
    assert_eq!(plan.meta.client_ref.len(), 36);
    assert_eq!(plan.conn.endpoint, "http://e:1");
    assert_eq!(plan.retries, 3);

    let mut a = args();
    a.title = Some("Factura enero".into());
    a.signed_ref = Some("s-1".into());
    let plan = prepare_upload(a, &Config::default()).ok().unwrap();
    assert_eq!(plan.meta.title, "Factura enero");
    assert_eq!(plan.meta.variant, "signed");
    assert_eq!(plan.meta.ref_signed_id, "s-1");

    let mut a = args();
    a.assoc = Some("a-1".into());
    assert_eq!(prepare_upload(a, &Config::default()).ok().unwrap().meta.variant, "assoc");
}

#[test]
fn upload_needs_a_key_and_a_file_name() {
    let mut a = args();
    a.grpc.api_key = None;
    assert!(matches!(
        prepare_upload(a, &Config::default()),
        Err(UploadError::Resolve(ResolveError::MissingApiKey))
    ));
    let mut a = args();
    a.file = "/tmp/..".into();
    assert!(matches!(
        prepare_upload(a, &Config::default()),
        Err(UploadError::InvalidPath)
    ));
}

#[test]
fn retries_share_the_idempotency_key_and_back_off() {
    let plan = prepare_upload(args(), &Config::default()).ok().unwrap();
    let key = plan.meta.client_ref.clone();
    let mut st = UploadRetry::new(plan.meta, 3);
    let mut waits = vec![];
    let mut gave_up = None;
    while st.can_attempt() {
        let n = st.start_attempt();
        assert_eq!(st.meta().client_ref, key);
        match st.on_failure("timeout") {
            RetryStep::Retry { log, wait_secs } => {
                assert_eq!(log, format!("intento {n}/3 fallo: timeout"));
                waits.push(wait_secs);
            }
            RetryStep::GiveUp { log, last_error } => {
                assert_eq!(log, "intento 3/3 fallo: timeout");
                gave_up = Some(last_error);
            }
        }
    }
    assert_eq!(waits, vec![1, 2]);
    assert_eq!(gave_up.as_deref(), Some("timeout"));
    assert_eq!(EXHAUSTED, "se agotaron los reintentos");
}

#[test]
fn replies_complete_or_fail_for_good() {
    let plan = prepare_upload(args(), &Config::default()).ok().unwrap();
    let mut st = UploadRetry::new(plan.meta, 1);
    let ok = TransferReplyData {
        unique_id: "u-1".into(),
        transfer_id: "t-1".into(),
        status: "completed".into(),
        result: "10 bytes".into(),
        duplicated: false,
    };
    assert!(st.can_attempt());
    match st.on_reply(&ok) {
        ReplyOutcome::Done { summary } => assert_eq!(
            summary,
            "{\"duplicated\":false,\"status\":\"completed\",\"transfer_id\":\"t-1\",\"unique_id\":\"u-1\"}"
        ),
        _ => panic!("expected Done"),
    }
    let bad = TransferReplyData {
        status: "error".into(),
        result: ":user_not_found".into(),
        ..ok
    };
    match st.on_reply(&bad) {
        ReplyOutcome::Failed { error, .. } => {
            assert_eq!(error, "upload fallo: error (:user_not_found)")
        }
        _ => panic!("expected Failed"),
    }
}

#[test]
fn no_attempt_follows_a_reply() {
    let plan = prepare_upload(args(), &Config::default()).ok().unwrap();
    let mut st = UploadRetry::new(plan.meta, 3);
    assert!(st.can_attempt());
    assert_eq!(st.start_attempt(), 1);
    let reply = TransferReplyData {
        unique_id: "u-1".into(),
        transfer_id: "t-1".into(),
        status: "rejected".into(),
        result: "x".into(),
        duplicated: false,
    };
    assert!(matches!(st.on_reply(&reply), ReplyOutcome::Failed { .. }));
    assert!(!st.can_attempt());
}

#[test]
fn idempotency_key_is_a_random_uuid() {
    let a = prepare_upload(args(), &Config::default()).ok().unwrap().meta.client_ref;
    let b = prepare_upload(args(), &Config::default()).ok().unwrap().meta.client_ref;
    assert_ne!(a, b);
    let cs: Vec<char> = a.chars().collect();
    assert_eq!(cs.len(), 36);
    for (k, c) in cs.iter().enumerate() {
        if k == 8 || k == 13 || k == 18 || k == 23 {
            assert_eq!(*c, '-');
        } else {
            assert!(c.is_ascii_digit() || ('a'..='f').contains(c));
        }
    }
    assert_eq!(cs[14], '4');
    assert!(matches!(cs[19], '8' | '9' | 'a' | 'b'));
}

#[test]
fn attempts_stop_at_the_budget() {
    let plan = prepare_upload(args(), &Config::default()).ok().unwrap();
    let key = plan.meta.client_ref.clone();
    let mut st = UploadRetry::new(plan.meta, 2);
    let mut started = vec![];
    while st.can_attempt() {
        started.push(st.start_attempt());
    }
    assert_eq!(started, vec![1, 2]);
    assert_eq!(st.meta().client_ref, key);
}

#[test]
fn summaries_escape_their_strings() {
    assert_eq!(
        transfer_summary("u\"1", "t\\1", "ok\n", true),
        "{\"duplicated\":true,\"status\":\"ok\\n\",\"transfer_id\":\"t\\\\1\",\"unique_id\":\"u\\\"1\"}"
    );
}

#[test]
fn summaries_escape_control_characters() {
    assert_eq!(
        transfer_summary("\u{1f}\u{8}", "/", "\u{c}\r\t", false),
        "{\"duplicated\":false,\"status\":\"\\f\\r\\t\",\"transfer_id\":\"/\",\"unique_id\":\"\\u001f\\b\"}"
    );
}
