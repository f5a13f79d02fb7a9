use alberto_cli::config::{Config, Profile, ProfileMap};
use alberto_cli::config_cmd::{init_check, list_lines, mask, show_lines, ConfigCmdError, TEMPLATE};

#[test]
fn mask_no_paniquea_con_utf8() {
    assert_eq!(mask(""), "(sin definir)");
    assert_eq!(mask("abcd"), "…");
    assert_eq!(mask("ññññññ"), "ññññ…");
    assert_eq!(mask("supersecreta"), "supe…");
}

fn sample() -> Config {
    let mut profiles = ProfileMap::new();
    profiles.insert(
        "qa".into(),
        Profile {
            endpoint: Some("http://qa:1".into()),
            api_key: Some("supersecreta".into()),
            download_dir: None,
        },
    );
    profiles.insert(
        "local".into(),
        Profile {
            endpoint: None,
            api_key: None,
            download_dir: Some("~/dl".into()),
        },
    );
    Config {
        default_profile: Some("qa".into()),
        profiles,
    }
}

#[test]
fn show_masks_the_api_key() {
    let lines = show_lines(&sample(), None).ok().unwrap();
    let text = lines.join("\n");
    assert!(text.contains("supe…"));
    assert!(!text.contains("supersecreta"));
    assert_eq!(
        lines,
        vec![
            "perfil:   qa",
            "endpoint: http://qa:1",
            "api_key:  supe…"
        ]
    );
}

#[test]
fn show_uses_defaults_and_prints_download_dir() {
    let lines = show_lines(&sample(), Some("local".into())).ok().unwrap();
    assert_eq!(
        lines,
        vec![
            "perfil:   local",
            "endpoint: http://127.0.0.1:9090",
            "api_key:  (sin definir)",
            "download_dir: ~/dl"
        ]
    );
}

#[test]
fn show_errors() {
    let mut cfg = sample();
    match show_lines(&cfg, Some("nope".into())) {
        Err(e @ ConfigCmdError::ProfileNotFound { .. }) => {
            assert_eq!(e.describe("/c"), "perfil 'nope' no existe")
        }
        _ => panic!("expected ProfileNotFound"),
    }
    cfg.default_profile = None;
    match show_lines(&cfg, None) {
        Err(e @ ConfigCmdError::NoProfile) => assert_eq!(
            e.describe("/c"),
            "no hay perfil: pasa uno o define default_profile"
        ),
        _ => panic!("expected NoProfile"),
    }
}

#[test]
fn list_marks_the_default_in_name_order() {
    assert_eq!(list_lines(&sample()), vec!["local", "qa (default)"]);
    assert!(list_lines(&Config::default()).is_empty());
}

#[test]
fn init_refuses_an_existing_file() {
    assert!(init_check(false).is_ok());
    let e = init_check(true).err().unwrap();
    assert_eq!(e.describe("/x/config.toml"), "ya existe: /x/config.toml");
    assert!(TEMPLATE.starts_with("default_profile = \"local\""));
    assert!(TEMPLATE.contains("[profiles.local]"));
}

#[test]
fn mask_keeps_four_characters() {
    assert_eq!(mask("abcde"), "abcd…");
    assert_eq!(mask("a"), "…");
}
