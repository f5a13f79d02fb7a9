use alberto_cli::pdf::{check_pdf, is_pdf, pdf_pages_from_output};
use alberto_cli::tui::{
    children_reply, content_reply, doclib_reply,
    item_label, level, node_entry, parse_list, preview_title, sanitize_filename, DownloadFailure,
    Effect, Key, NodeEntry, PreviewState, TuiApp, START_STATUS,
};

#[test]
fn rechaza_no_pdf() {
    assert!(check_pdf(b"no soy pdf").is_err());
}

fn entry(id: &str, name: &str, content: bool) -> NodeEntry {
    NodeEntry {
        unique_id: id.into(),
        name: Some(name.into()),
        content,
        detail: format!("{{\"unique_id\": \"{id}\"}}"),
    }
}

fn app() -> TuiApp {
    TuiApp::new(
        "acme",
        "dl-1",
        vec![
            entry("f1", "2026", false),
            entry("d1", "factura.pdf", true),
            entry("d2", "contrato.pdf", true),
        ],
    )
}

#[test]
fn pdf_magic_is_checked() {
    assert!(is_pdf(b"%PDF-1.7\n"));
    assert!(!is_pdf(b"%PD"));
    assert_eq!(
        check_pdf(b"PNG").err().unwrap(),
        "solo hay preview para PDFs (el contenido no es PDF)"
    );
}

#[test]
fn pdfinfo_page_count_is_read() {
    let out = b"Title:          x\nProducer:       y\r\nPages:          12\r\nEncrypted:      no\n";
    assert_eq!(pdf_pages_from_output(out), Some(12));
    assert_eq!(pdf_pages_from_output(b"Pages: +3"), Some(3));
    assert_eq!(pdf_pages_from_output(b"Pages:\n"), None);
    assert_eq!(pdf_pages_from_output(b"Pages: x"), None);
    assert_eq!(pdf_pages_from_output(b"Pages: 99999999999999999999999"), None);
    assert_eq!(pdf_pages_from_output(b"Paginas: 3\nPages: 4"), Some(4));
    assert_eq!(pdf_pages_from_output(b""), None);
}

#[test]
fn listings_are_arrays_or_one_node() {
    let v = parse_list(r#"[{"unique_id":"a","name":"x","content":true},{"unique_id":"b"}]"#)
        .ok()
        .unwrap();
    assert_eq!(v.len(), 2);
    assert_eq!(v[0].unique_id, "a");
    assert_eq!(v[0].name.as_deref(), Some("x"));
    assert!(v[0].content);
    assert_eq!(v[1].name, None);
    assert!(!v[1].content);
    let one = parse_list(r#"{"unique_id":"z","content":"yes"}"#).ok().unwrap();
    assert_eq!(one.len(), 1);
    assert!(!one[0].content);
    assert!(parse_list("not json").is_err());
    let e = node_entry(r#"{"name": 5}"#);
    assert_eq!(e.unique_id, "");
    assert_eq!(e.name, None);
    assert!(e.detail.contains("\"name\": 5"));
}

#[test]
fn cursor_wraps_around() {
    let mut a = app();
    assert_eq!(a.status_text(), START_STATUS);
    assert_eq!(a.breadcrumb(), "doclib acme");
    assert!(matches!(a.handle_key(Key::Up, true), Effect::Nothing));
    assert_eq!(a.top_level().selected(), Some(2));
    a.handle_key(Key::Down, true);
    assert_eq!(a.top_level().selected(), Some(0));
    a.handle_key(Key::Down, false);
    assert_eq!(a.top_level().selected(), Some(0));
    a.handle_key(Key::Down, true);
    assert_eq!(a.current_node().unwrap().unique_id, "d1");
}

#[test]
fn enter_opens_folders_and_previews_documents() {
    let mut a = app();
    match a.handle_key(Key::Enter, true) {
        Effect::FetchChildren { id, name } => {
            assert_eq!(id, "f1");
            assert_eq!(name, "2026");
            a.children_loaded(id, name, Ok(vec![entry("d9", "x.pdf", true)]));
        }
        _ => panic!("expected FetchChildren"),
    }
    assert_eq!(a.depth(), 1);
    assert_eq!(a.status_text(), "2026: 1 hijos");
    assert_eq!(a.breadcrumb(), "doclib acme / 2026");
    assert_eq!(a.top_level().parent_id(), "f1");
    match a.handle_key(Key::Right, true) {
        Effect::LoadPreview { id, name } => {
            assert_eq!(id, "d9");
            assert_eq!(a.status_text(), "descargando x.pdf...");
            a.preview_loaded(name, Ok(3));
        }
        _ => panic!("expected LoadPreview"),
    }
    assert_eq!(a.status_text(), "x.pdf — página 1/3 · ←→ páginas · Esc cerrar");
    assert!(matches!(a.handle_key(Key::Left, true), Effect::Nothing));
    match a.handle_key(Key::Right, true) {
        Effect::RenderPage { page } => {
            assert_eq!(page, 2);
            a.page_rendered(page, Ok(()));
        }
        _ => panic!("expected RenderPage"),
    }
    assert_eq!(a.status_text(), "x.pdf — página 2/3 · ←→ páginas · Esc cerrar");
    let p = a.preview_state().as_ref().unwrap();
    assert_eq!(preview_title(p), " 📄 x.pdf — pág 2/3 ");
    a.page_rendered(2, Err("pdftoppm falló".into()));
    assert_eq!(a.status_text(), "página: pdftoppm falló");
    assert!(matches!(a.handle_key(Key::Esc, true), Effect::Nothing));
    assert!(a.preview_state().is_none());
    a.handle_key(Key::Backspace, true);
    assert_eq!(a.depth(), 0);
    a.handle_key(Key::Backspace, true);
    assert_eq!(a.depth(), 0);
    assert!(matches!(a.handle_key(Key::Char('q'), true), Effect::Quit));
}

#[test]
fn empty_folders_errors_and_downloads_report_in_the_status() {
    let mut a = app();
    a.children_loaded("f1".into(), "2026".into(), Ok(vec![]));
    assert_eq!(a.status_text(), "2026: sin hijos");
    assert_eq!(a.depth(), 0);
    a.children_loaded("f1".into(), "2026".into(), Err("tcp connect error".into()));
    assert_eq!(a.status_text(), "error: tcp connect error");
    assert!(matches!(a.handle_key(Key::Char('d'), true), Effect::Nothing));
    assert_eq!(a.status_text(), "el nodo no tiene contenido");
    a.handle_key(Key::Down, true);
    match a.handle_key(Key::Char('d'), true) {
        Effect::Download { id, name } => {
            assert_eq!(id, "d1");
            assert_eq!(name, "factura.pdf");
            a.download_done("/home/u/factura.pdf", Ok(17));
        }
        _ => panic!("expected Download"),
    }
    assert_eq!(a.status_text(), "descargado /home/u/factura.pdf (17 bytes)");
    a.download_done("/home/u/f", Err(DownloadFailure::Write("denied".into())));
    assert_eq!(a.status_text(), "error escribiendo /home/u/f: denied");
    a.download_done("f", Err(DownloadFailure::Fetch("boom".into())));
    assert_eq!(a.status_text(), "download: boom");
    a.preview_loaded("x".into(), Err("no pdf".into()));
    assert_eq!(a.status_text(), "preview: no pdf");
}

#[test]
fn sanitize_quita_separadores_y_puntos_iniciales() {
    assert_eq!(sanitize_filename("../../etc/passwd"), "_.._etc_passwd");
    assert_eq!(sanitize_filename("informe 2026.pdf"), "informe 2026.pdf");
    assert_eq!(sanitize_filename(""), "descarga.bin");
    assert_eq!(sanitize_filename("..."), "descarga.bin");
    assert_eq!(sanitize_filename("a\\b/c"), "a_b_c");
    assert_eq!(sanitize_filename("..  x.pdf \t"), "x.pdf");
    assert_eq!(sanitize_filename("nul\0.txt"), "nul_.txt");
}

#[test]
fn downloads_never_leave_the_directory() {
    let mut a = TuiApp::new(
        "acme",
        "dl-1",
        vec![
            entry("d1", "../../etc/passwd", true),
            NodeEntry { unique_id: "d2".into(), name: None, content: true, detail: String::new() },
        ],
    );
    match a.handle_key(Key::Char('d'), true) {
        Effect::Download { id, name } => {
            assert_eq!(id, "d1");
            assert_eq!(name, "_.._etc_passwd");
        }
        _ => panic!("expected Download"),
    }
    a.handle_key(Key::Down, true);
    match a.handle_key(Key::Char('d'), true) {
        Effect::Download { name, .. } => assert_eq!(name, "descarga.bin"),
        _ => panic!("expected Download"),
    }
    for n in ["/", "\\x\\", "a/../../b", ".hidden", "\0"] {
        let s = sanitize_filename(n);
        assert!(!s.is_empty());
        assert!(!s.contains('/') && !s.contains('\\') && !s.contains('\0'));
        assert!(!s.starts_with('.'));
    }
}

#[test]
fn refresh_refetches_the_level_shown() {
    let mut a = app();
    assert!(START_STATUS.contains("r refrescar"));
    a.handle_key(Key::Down, true);
    a.handle_key(Key::Down, true);
    assert_eq!(a.top_level().selected(), Some(2));
    match a.handle_key(Key::Char('r'), true) {
        Effect::Refresh { id } => assert_eq!(id, "dl-1"),
        _ => panic!("expected Refresh"),
    }
    assert_eq!(a.status_text(), START_STATUS);
    a.refreshed(Ok(vec![entry("f1", "2026", false), entry("d1", "factura.pdf", true)]));
    assert_eq!(a.status_text(), "refrescado: 2 elementos");
    assert_eq!(a.top_level().nodes().len(), 2);
    assert_eq!(a.top_level().selected(), Some(1));
    assert_eq!(a.top_level().title(), "doclib acme");
    a.refreshed(Ok(vec![entry("f1", "2026", false), entry("d1", "factura.pdf", true)]));
    assert_eq!(a.top_level().selected(), Some(1));
    a.refreshed(Err("tcp connect error".into()));
    assert_eq!(a.status_text(), "refresh: tcp connect error");
    assert_eq!(a.top_level().nodes().len(), 2);
    a.refreshed(Ok(vec![]));
    assert_eq!(a.status_text(), "refrescado: 0 elementos");
    assert_eq!(a.top_level().selected(), None);
    assert!(a.current_node().is_none());

    let mut b = app();
    if let Effect::FetchChildren { id, name } = b.handle_key(Key::Enter, true) {
        b.children_loaded(id, name, Ok(vec![entry("x", "x.pdf", true), entry("y", "y.pdf", true)]));
    }
    b.handle_key(Key::Up, true);
    match b.handle_key(Key::Char('r'), true) {
        Effect::Refresh { id } => assert_eq!(id, "f1"),
        _ => panic!("expected Refresh"),
    }
    b.refreshed(Ok(vec![entry("z", "z.pdf", true)]));
    assert_eq!(b.depth(), 1);
    assert_eq!(b.top_level().selected(), Some(0));
    assert_eq!(b.level_at(0).nodes().len(), 3);
    assert_eq!(b.breadcrumb(), "doclib acme / 2026");
}

#[test]
fn labels_and_detail() {
    let mut a = app();
    assert_eq!(item_label(&entry("a", "2026", false)), "📁 2026");
    let unnamed = NodeEntry {
        unique_id: "x".into(),
        name: None,
        content: true,
        detail: String::new(),
    };
    assert_eq!(item_label(&unnamed), "📄 ?");
    assert_eq!(a.detail_text(), "{\"unique_id\": \"f1\"}");
    let empty = TuiApp::new("t", "dl-0", vec![]);
    assert_eq!(empty.detail_text(), "(vacío)");
    assert!(empty.top_level().selected().is_none());
    let l = level("x".into(), "p".into(), vec![]);
    assert_eq!(l.title(), "x");
    assert_eq!(l.parent_id(), "p");
    assert!(l.nodes().is_empty());
    let _ = PreviewState {
        name: "n".into(),
        total_pages: 1,
        page: 1,
    };
    a.handle_key(Key::Other, true);
}

#[test]
fn page_count_survives_invalid_utf8_and_zero_pages() {
    assert_eq!(pdf_pages_from_output(b"Title: \xff\xfe\nPages:   5\n"), Some(5));
    let mut a = app();
    a.handle_key(Key::Down, true);
    a.handle_key(Key::Char('p'), true);
    a.preview_loaded("z.pdf".into(), Ok(0));
    assert_eq!(a.status_text(), "z.pdf — página 1/0 · ←→ páginas · Esc cerrar");
    assert!(matches!(a.handle_key(Key::Right, true), Effect::Nothing));
    assert!(matches!(a.handle_key(Key::Left, true), Effect::Nothing));
    a.page_rendered(1, Ok(()));
    assert_eq!(a.preview_state().as_ref().unwrap().page, 1);
}

#[test]
fn fetch_replies_are_interpreted() {
    assert_eq!(
        doclib_reply("acme", true, "", r#"{"unique_id":"dl-1"}"#).ok().unwrap(),
        "dl-1"
    );
    assert_eq!(doclib_reply("acme", true, "", "{}").ok().unwrap(), "");
    assert_eq!(
        doclib_reply("acme", false, "not_found", "").err().unwrap(),
        "doclib de 'acme': not_found"
    );
    assert_eq!(
        doclib_reply("acme", true, "", "<html>").err().unwrap(),
        "expected value at line 1 column 1"
    );
    assert_eq!(
        children_reply(true, "", "[1,").err().unwrap(),
        "EOF while parsing a value at line 1 column 3"
    );
    assert_eq!(children_reply(true, "", "[]").ok().unwrap().len(), 0);
    assert_eq!(children_reply(false, "boom", "").err().unwrap(), "boom");
    assert_eq!(content_reply(true, vec![1, 2], "").ok().unwrap(), vec![1, 2]);
    assert_eq!(content_reply(false, vec![], "nf").err().unwrap(), "nf");
}
