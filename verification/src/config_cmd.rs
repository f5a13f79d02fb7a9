//! `alberto config *`: what init, list and show produce from the profiles file.
use vstd::prelude::*;

use crate::config::{strictly_sorted, Config, DEFAULT_ENDPOINT};
use crate::text::{chars_of, concat2, concat3, opt_chars, owned, push_char, push_str};

verus! {

/// The example file that `alberto config init` writes.
pub const TEMPLATE: &'static str = "default_profile = \"local\"\n\n[profiles.local]\nendpoint = \"http://127.0.0.1:9090\"\napi_key = \"\"\n# download_dir = \"~/Descargas\"\n";

/// Why a `config` subcommand failed.
pub enum ConfigCmdError {
    /// `init` found a file already there.
    AlreadyExists,
    /// `show` was given no profile and the file has no default.
    NoProfile,
    /// `show` was asked for a profile the file does not have.
    ProfileNotFound { name: String },
}

impl ConfigCmdError {
    /// The message shown to the user; `config_path` is the file's location.
    pub fn describe(&self, config_path: &str) -> (r: String)
        ensures
            r@ == match self {
                ConfigCmdError::AlreadyExists => "ya existe: "@ + config_path@,
                ConfigCmdError::NoProfile => "no hay perfil: pasa uno o define default_profile"@,
                ConfigCmdError::ProfileNotFound { name } => "perfil '"@ + name@ + "' no existe"@,
            },
    {
        match self {
            ConfigCmdError::AlreadyExists => concat2("ya existe: ", config_path),
            ConfigCmdError::NoProfile => owned("no hay perfil: pasa uno o define default_profile"),
            ConfigCmdError::ProfileNotFound { name } => concat3(
                "perfil '",
                name.as_str(),
                "' no existe",
            ),
        }
    }
}

/// `init` refuses to overwrite an existing file.
pub fn init_check(exists: bool) -> (r: Result<(), ConfigCmdError>)
    ensures
        r is Ok == !exists,
        r matches Err(e) ==> e is AlreadyExists,
{
    if exists {
        Err(ConfigCmdError::AlreadyExists)
    } else {
        Ok(())
    }
}

/// How an API key is shown: never more than its first four characters.
pub open spec fn masked(key: Seq<char>) -> Seq<char> {
    if key.len() == 0 {
        "(sin definir)"@
    } else if key.len() <= 4 {
        "…"@
    } else {
        key.take(4) + "…"@
    }
}

/// Masks an API key for display (counting characters, not bytes).
pub fn mask(key: &str) -> (r: String)
    ensures
        r@ == masked(key@),
{
    let cs = chars_of(key);
    if cs.len() == 0 {
        owned("(sin definir)")
    } else if cs.len() <= 4 {
        owned("…")
    } else {
        let mut r = String::new();
        let mut i: usize = 0;
        while i < 4
            invariant
                0 <= i <= 4,
                4 < cs@.len(),
                cs@ == key@,
                r@ == cs@.take(i as int),
            decreases 4 - i,
        {
            push_char(&mut r, cs[i]);
            assert(cs@.take(i + 1) =~= cs@.take(i as int).push(cs@[i as int]));
            i = i + 1;
        }
        push_str(&mut r, "…");
        r
    }
}

/// The line of `config list` for one profile.
pub open spec fn list_line(cfg: &Config, name: Seq<char>) -> Seq<char> {
    if opt_chars(cfg.default_profile) == Some(name) {
        name + " (default)"@
    } else {
        name
    }
}

/// What `config list` prints: each profile once, in ascending name order,
/// the default one marked.
pub fn list_lines(cfg: &Config) -> (r: Vec<String>)
    ensures
        r@.len() == cfg.profiles.names().len(),
        forall|i: int| 0 <= i < r@.len() ==> #[trigger] r@[i]@ == list_line(cfg, cfg.profiles.names()[i]),
        strictly_sorted(cfg.profiles.names()),
{
    cfg.profiles.check_sorted();
    let mut r: Vec<String> = Vec::new();
    let mut i: usize = 0;
    while i < cfg.profiles.len()
        invariant
            0 <= i <= cfg.profiles.names().len(),
            r@.len() == i,
            forall|j: int| 0 <= j < i ==> #[trigger] r@[j]@ == list_line(cfg, cfg.profiles.names()[j]),
        decreases cfg.profiles.names().len() - i,
    {
        let (name, _) = cfg.profiles.entry(i);
        let is_default = match &cfg.default_profile {
            Some(d) => *d == *name,
            None => false,
        };
        let line = if is_default {
            concat2(name.as_str(), " (default)")
        } else {
            name.clone()
        };
        r.push(line);
        i = i + 1;
    }
    r
}

/// The lines of `config show` for the profile called `name`.
pub open spec fn show_lines_of(name: Seq<char>, p: crate::config::Profile) -> Seq<Seq<char>> {
    let base = seq![
        "perfil:   "@ + name,
        "endpoint: "@ + match p.endpoint {
            Some(e) => e@,
            None => DEFAULT_ENDPOINT@,
        },
        "api_key:  "@ + masked(
            match p.api_key {
                Some(k) => k@,
                None => Seq::<char>::empty(),
            },
        ),
    ];
    match p.download_dir {
        Some(d) => base.push("download_dir: "@ + d@),
        None => base,
    }
}

/// What `config show` prints for the profile asked for, else for the default one.
pub fn show_lines(cfg: &Config, profile: Option<String>) -> (r: Result<Vec<String>, ConfigCmdError>)
    ensures
        ({
            let name = match profile {
                Some(p) => Some(p@),
                None => opt_chars(cfg.default_profile),
            };
            match name {
                None => r matches Err(ConfigCmdError::NoProfile),
                Some(n) => if cfg.profiles.as_map().contains_key(n) {
                    r matches Ok(lines) && lines@.map_values(|l: String| l@) == show_lines_of(
                        n,
                        cfg.profiles.as_map()[n],
                    )
                } else {
                    r matches Err(ConfigCmdError::ProfileNotFound { name: m }) && m@ == n
                },
            }
        }),
{
    let name = match profile {
        Some(p) => p,
        None => match &cfg.default_profile {
            Some(d) => d.clone(),
            None => {
                return Err(ConfigCmdError::NoProfile);
            },
        },
    };
    let p = match cfg.profiles.get(name.as_str()) {
        Some(p) => p,
        None => {
            return Err(ConfigCmdError::ProfileNotFound { name });
        },
    };
    let mut lines: Vec<String> = Vec::new();
    lines.push(concat2("perfil:   ", name.as_str()));
    let endpoint: &str = match &p.endpoint {
        Some(e) => e.as_str(),
        None => DEFAULT_ENDPOINT,
    };
    lines.push(concat2("endpoint: ", endpoint));
    let key: &str = match &p.api_key {
        Some(k) => k.as_str(),
        None => "",
    };
    proof {
        reveal_strlit("");
    }
    let m = mask(key);
    lines.push(concat2("api_key:  ", m.as_str()));
    match &p.download_dir {
        Some(d) => {
            lines.push(concat2("download_dir: ", d.as_str()));
        },
        None => {},
    }
    proof {
        let expected = show_lines_of(name@, *p);
        assert(lines@.map_values(|l: String| l@) =~= expected);
    }
    Ok(lines)
}

} // verus!
