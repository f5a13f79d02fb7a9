use alberto_cli::config::{
    config_path_with, expand_home, expand_home_with, join_path, profile_download_dir, resolve, Config, Profile,
    ProfileMap, ResolveError, DEFAULT_ENDPOINT,
};
use std::path::PathBuf;

fn cfg_with(default: Option<&str>, profiles: &[(&str, &str, &str)]) -> Config {
    let mut map = ProfileMap::new();
    for (n, e, k) in profiles {
        map.insert(
            n.to_string(),
            Profile {
                endpoint: Some(e.to_string()),
                api_key: Some(k.to_string()),
                ..Default::default()
            },
        );
    }
    Config {
        default_profile: default.map(String::from),
        profiles: map,
    }
}

#[test]
fn flag_gana_a_perfil() {
    let cfg = cfg_with(None, &[("qa", "http://qa:9090", "kqa")]);
    let (e, k) = match resolve(
        &cfg,
        Some("qa"),
        Some("http://flag:1".into()),
        Some("kflag".into()),
    ) {
        Ok(v) => v,
        Err(_) => panic!("resolve failed"),
    };
    assert_eq!(e, "http://flag:1");
    assert_eq!(k, "kflag");
}

#[test]
fn perfil_llena_lo_que_falta() {
    let cfg = cfg_with(None, &[("qa", "http://qa:9090", "kqa")]);
    let (e, k) = match resolve(&cfg, Some("qa"), None, None) {
        Ok(v) => v,
        Err(_) => panic!("resolve failed"),
    };
    assert_eq!(e, "http://qa:9090");
    assert_eq!(k, "kqa");
}

#[test]
fn default_profile_aplica_sin_flag() {
    let cfg = cfg_with(Some("qa"), &[("qa", "http://qa:9090", "kqa")]);
    let (e, k) = match resolve(&cfg, None, None, None) {
        Ok(v) => v,
        Err(_) => panic!("resolve failed"),
    };
    assert_eq!(e, "http://qa:9090");
    assert_eq!(k, "kqa");
}

#[test]
fn perfil_inexistente_es_error() {
    let cfg = cfg_with(None, &[]);
    assert!(resolve(&cfg, Some("nope"), None, None).is_err());
}

#[test]
fn sin_api_key_es_error_con_pista() {
    let cfg = Config::default();
    let err = match resolve(&cfg, None, Some("http://x:1".into()), None) {
        Ok(_) => panic!("expected an error"),
        Err(e) => e,
    };
    assert!(err.describe("/home/u/.config/alberto/config.toml").contains("api key"));
}

#[test]
fn endpoint_default_cuando_no_hay_nada() {
    let cfg = Config::default();
    let (e, _) = match resolve(&cfg, None, None, Some("k".into())) {
        Ok(v) => v,
        Err(_) => panic!("resolve failed"),
    };
    assert_eq!(e, DEFAULT_ENDPOINT);
}

#[test]
fn expand_home_expande_tilde() {
    let home = dirs::home_dir().unwrap();
    assert_eq!(PathBuf::from(expand_home("~/Descargas")), home.join("Descargas"));
    assert_eq!(PathBuf::from(expand_home("/abs/x")), PathBuf::from("/abs/x"));
    assert_eq!(PathBuf::from(expand_home("rel/x")), PathBuf::from("rel/x"));
    assert_eq!(PathBuf::from(expand_home("~")), home);
}

#[test]
fn profile_download_dir_usa_perfil_o_default() {
    let mut cfg = cfg_with(Some("qa"), &[("qa", "http://qa:1", "k")]);
    assert_eq!(profile_download_dir(&cfg, None), None);
    let mut p = cfg.profiles.get("qa").unwrap().copy();
    p.download_dir = Some("~/dl".into());
    cfg.profiles.insert("qa".to_string(), p);
    assert_eq!(profile_download_dir(&cfg, None), Some("~/dl".into()));
    assert_eq!(profile_download_dir(&cfg, Some("qa")), Some("~/dl".into()));
    assert_eq!(profile_download_dir(&cfg, Some("nope")), None);
}

#[test]
fn missing_profile_error_names_it_even_with_flags() {
    let cfg = cfg_with(Some("prod"), &[("qa", "http://qa:1", "k")]);
    match resolve(&cfg, None, Some("http://e:1".into()), Some("k2".into())) {
        Err(ResolveError::ProfileNotFound { name }) => assert_eq!(name, "prod"),
        _ => panic!("expected ProfileNotFound"),
    }
    let err = resolve(&cfg, None, None, None).err().unwrap();
    assert_eq!(err.describe("/c.toml"), "perfil 'prod' no existe en /c.toml");
}

#[test]
fn missing_api_key_message_names_the_file() {
    let cfg = Config::default();
    let err = resolve(&cfg, None, None, None).err().unwrap();
    assert!(matches!(err, ResolveError::MissingApiKey));
    assert_eq!(
        err.describe("/c.toml"),
        "falta el api key: usa --api-key, ALBERTO_API_KEY, o api_key en el perfil (/c.toml)"
    );
}

#[test]
fn profile_without_endpoint_uses_default_but_keeps_key() {
    let mut cfg = Config::default();
    cfg.profiles.insert(
        "solo-key".to_string(),
        Profile {
            api_key: Some("s".into()),
            ..Default::default()
        },
    );
    let (e, k) = resolve(&cfg, Some("solo-key"), None, None).ok().unwrap();
    assert_eq!(e, DEFAULT_ENDPOINT);
    assert_eq!(k, "s");
}

#[test]
fn profiles_are_kept_in_name_order_and_replaced_in_place() {
    let mut map = ProfileMap::new();
    for name in ["zeta", "alfa", "mu", "alfa"] {
        map.insert(name.to_string(), Profile::default());
    }
    assert_eq!(map.len(), 3);
    let names: Vec<String> = (0..map.len()).map(|i| map.entry(i).0.clone()).collect();
    assert_eq!(names, vec!["alfa", "mu", "zeta"]);
    assert!(map.get("mu").is_some());
    assert!(map.get("nu").is_none());
    assert!(!map.is_empty());
}

#[test]
fn read_after_insert_gives_the_new_profile() {
    let mut cfg = cfg_with(None, &[("qa", "http://qa:1", "k")]);
    cfg.profiles.insert(
        "qa".to_string(),
        Profile {
            endpoint: Some("http://nuevo:2".into()),
            ..Default::default()
        },
    );
    let p = cfg.profiles.get("qa").unwrap();
    assert_eq!(p.endpoint.as_deref(), Some("http://nuevo:2"));
    assert_eq!(p.api_key, None);
}

#[test]
fn join_path_follows_pathbuf_join() {
    for (base, rest) in [
        ("/home/u", "x"),
        ("/home/u/", "x"),
        ("", "x"),
        ("/home/u", "/abs"),
        ("/home/u", ""),
    ] {
        assert_eq!(
            PathBuf::from(join_path(base, rest)).as_os_str(),
            PathBuf::from(base).join(rest).as_os_str()
        );
    }
    assert_eq!(expand_home_with("~/a/b", Some("/h".into())), "/h/a/b");
    assert_eq!(expand_home_with("~", None), "");
    assert_eq!(expand_home_with("~x/a", Some("/h".into())), "~x/a");
    assert_eq!(expand_home_with("~/", Some("/h".into())), "/h/");
}

#[test]
fn config_path_prefers_the_environment() {
    assert_eq!(
        alberto_cli::config::config_path_for(Some("/tmp/c.toml".into())),
        "/tmp/c.toml"
    );
    let p = alberto_cli::config::config_path_for(None);
    assert!(p.ends_with(".config/alberto/config.toml"));
}

#[test]
fn config_path_prefers_the_variable() {
    assert_eq!(config_path_with(Some("/etc/a.toml".into()), Some("/h".into())), "/etc/a.toml");
    assert_eq!(config_path_with(None, Some("/h".into())), "/h/.config/alberto/config.toml");
    assert_eq!(config_path_with(None, Some("/h/".into())), "/h/.config/alberto/config.toml");
    assert_eq!(config_path_with(None, None), ".config/alberto/config.toml");
}
