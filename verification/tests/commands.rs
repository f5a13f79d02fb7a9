use alberto_cli::cli::{AdminCmd, GrpcOpts, NodeCmd, Output, TenantCmd};
use alberto_cli::client::{check_api_key, error_text, monadic_text};
use alberto_cli::commands::{admin_request, node_request, tenant_request, valid_json, NmRequest};
use alberto_cli::download::{content_or_error, download_target, downloaded_message};

fn grpc() -> GrpcOpts {
    GrpcOpts {
        endpoint: Some("http://e:1".into()),
        api_key: Some("k".into()),
        profile: None,
        output: Output::Pretty,
    }
}

#[test]
fn invalid_json_flag_is_refused_before_sending() {
    let r = node_request(NodeCmd::Datamerge {
        id: "a".into(),
        data: "{no".into(),
        grpc: grpc(),
    });
    match r {
        Err(e) => assert_eq!(e.describe(), "--data no es JSON valido"),
        Ok(_) => panic!("expected an error"),
    }
    let r = node_request(NodeCmd::BulkDatamerge {
        changes: "[".into(),
        grpc: grpc(),
    });
    assert_eq!(r.err().unwrap().describe(), "--changes no es JSON valido");
    assert!(valid_json("{\"a\":1}", "--data").is_ok());
}

#[test]
fn node_commands_map_to_their_requests() {
    match node_request(NodeCmd::Get {
        id: "abc".into(),
        grpc: grpc(),
    }) {
        Ok((NmRequest::NodeGet { unique_id }, g)) => {
            assert_eq!(unique_id, "abc");
            assert_eq!(g.endpoint.as_deref(), Some("http://e:1"));
        }
        _ => panic!("wrong request"),
    }
    match node_request(NodeCmd::User {
        username: "nadie".into(),
        grpc: grpc(),
    }) {
        Ok((NmRequest::User { username, password }, _)) => {
            assert_eq!(username, "nadie");
            assert_eq!(password, "");
        }
        _ => panic!("wrong request"),
    }
    match node_request(NodeCmd::Create {
        parent: "p".into(),
        node_type: "t".into(),
        data: "{\"name\":\"n\"}".into(),
        grpc: grpc(),
    }) {
        Ok((NmRequest::NodeCreate { parent_id, data_json, node_type }, _)) => {
            assert_eq!(parent_id, "p");
            assert_eq!(data_json, "{\"name\":\"n\"}");
            assert_eq!(node_type, "t");
        }
        _ => panic!("wrong request"),
    }
}

#[test]
fn tenant_and_admin_commands_map_to_their_requests() {
    match tenant_request(TenantCmd::Create {
        tenant: "t".into(),
        title: "T".into(),
        description: "".into(),
        dni: "1".into(),
        company: "C".into(),
        email: "e@x".into(),
        grpc: grpc(),
    }) {
        (NmRequest::TenantCreate { company_name, email, .. }, _) => {
            assert_eq!(company_name, "C");
            assert_eq!(email, "e@x");
        }
        _ => panic!("wrong request"),
    }
    assert!(matches!(
        admin_request(AdminCmd::Indexs { grpc: grpc() }),
        Ok((NmRequest::Indexs, _))
    ));
    assert!(admin_request(AdminCmd::Folder {
        parent: "p".into(),
        name: "n".into(),
        title: "t".into(),
        description: "".into(),
        data: "nope".into(),
        grpc: grpc(),
    })
    .is_err());
}

#[test]
fn monadic_replies_render_per_output() {
    let raw = "{\"unique_id\":\"abc\",\"name\":\"doc.pdf\",\"content\":true}";
    let pretty = monadic_text(true, raw, "", Output::Pretty).ok().unwrap();
    assert!(pretty.contains("\"unique_id\": \"abc\""));
    assert_eq!(monadic_text(true, raw, "", Output::Raw).ok().unwrap(), raw);
    let compact = monadic_text(true, "{ \"a\" : [1, 2] }", "", Output::Json)
        .ok()
        .unwrap();
    assert_eq!(compact, "{\"a\":[1,2]}");
    assert_eq!(
        monadic_text(true, "no es json", "", Output::Pretty).ok().unwrap(),
        "no es json"
    );
    assert_eq!(
        monadic_text(false, "", "not_found", Output::Pretty).err().unwrap(),
        "{:error, not_found}"
    );
    assert_eq!(error_text("x"), "{:error, x}");
}

#[test]
fn api_keys_must_fit_in_metadata() {
    assert!(check_api_key("test-key").is_ok());
    assert!(check_api_key("ñandú").is_ok());
    assert!(check_api_key("a\tb").is_ok());
    let e = check_api_key("mala\nkey").err().unwrap();
    assert_eq!(e.describe(), "api key con caracteres invalidos");
    assert!(check_api_key("x\u{7f}").is_err());
}

#[test]
fn download_defaults_and_reports() {
    assert_eq!(download_target("abc", None), "abc.bin");
    assert_eq!(download_target("abc", Some("out.pdf".into())), "out.pdf");
    assert_eq!(
        content_or_error(true, b"%PDF".to_vec(), "").ok().unwrap(),
        b"%PDF".to_vec()
    );
    assert_eq!(
        content_or_error(false, vec![], "not_found").err().unwrap(),
        "{:error, not_found}"
    );
    assert_eq!(
        downloaded_message("out.pdf", 17),
        "descargado: out.pdf (17 bytes)"
    );
}

#[test]
fn requests_name_their_grpc_method() {
    let r = NmRequest::NodeGet { unique_id: "n1".into() };
    assert_eq!(r.method_name(), "NodeGet");
    assert_eq!(r.method_path(), "/nodemanager.NodeManagerService/NodeGet");
    assert_eq!(
        NmRequest::DocLibsTypes.method_path(),
        "/nodemanager.NodeManagerService/DocLibsTypes"
    );
    let r = NmRequest::DefaultColaboratorGroup { parent_id: "p".into() };
    assert_eq!(r.method_path(), "/nodemanager.NodeManagerService/DefaultColaboratorGroup");
}

fn render(json: &str, output: Output) -> String {
    monadic_text(true, json, "", output).ok().unwrap()
}

#[test]
fn raw_pasa_tal_cual() {
    assert_eq!(render("{\"a\": 1}", Output::Raw), "{\"a\": 1}");
}

#[test]
fn json_compacta() {
    assert_eq!(render("{ \"a\" : 1 }", Output::Json), "{\"a\":1}");
}

#[test]
fn table_lista_columnas() {
    let json = r#"[{"unique_id":"u1","name":"a.pdf","type":"factura","content":true},
                   {"unique_id":"u2","name":"b","type":"folder","content":false}]"#;
    let t = render(json, Output::Table);
    let lines: Vec<&str> = t.lines().collect();
    assert!(lines[0].contains("unique_id") && lines[0].contains("name"));
    assert!(lines[1].contains("u1") && lines[1].contains("a.pdf"));
    assert!(lines[2].contains("u2"));
}

#[test]
fn table_no_lista_cae_a_pretty() {
    let t = render("{\"a\":1}", Output::Table);
    assert!(t.contains("\"a\": 1"));
    assert_eq!(render("no es json", Output::Table), "no es json");
}

#[test]
fn table_aligns_columns_and_trims_line_ends() {
    let json = r#"[{"unique_id":"u1","name":"año.pdf","type":null,"content":true},
                   {"unique_id":"u22","content":{"k":[1,2]}},
                   7]"#;
    assert_eq!(
        render(json, Output::Table),
        "unique_id  name      type  content\nu1         año.pdf         true\nu22                        {\"k\":[1,2]}\n"
    );
    assert_eq!(render("[]", Output::Table), "unique_id  name  type  content");
}
