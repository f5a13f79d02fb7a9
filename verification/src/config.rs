//! Connection profiles (`~/.config/alberto/config.toml`) and how a
//! connection is resolved from flags, environment and profiles.
//!
//! Precedence: flag/env > `--profile`/`ALBERTO_PROFILE` > `default_profile`
//! of the file > built-in defaults.
use vstd::prelude::*;

use crate::text::{
    chars_of, push_char, push_str, clone_opt, concat2, lemma_lex_irreflexive, lemma_lex_total,
    lemma_lex_transitive, lex_lt, opt_chars, opt_str_chars, owned, str_less,
};

verus! {

/// Endpoint used when neither a flag nor a profile names one.
pub const DEFAULT_ENDPOINT: &'static str = "http://127.0.0.1:9090";

/// One named connection profile.
#[derive(Debug, Clone)]
pub struct Profile {
    pub endpoint: Option<String>,
    pub api_key: Option<String>,
    pub download_dir: Option<String>,
}

impl Default for Profile {
    fn default() -> (p: Profile)
        ensures
            p.endpoint is None,
            p.api_key is None,
            p.download_dir is None,
    {
        Profile { endpoint: None, api_key: None, download_dir: None }
    }
}

impl Profile {
    /// A field-by-field copy.
    pub fn copy(&self) -> (r: Profile)
        ensures
            r == *self,
    {
        Profile {
            endpoint: clone_opt(&self.endpoint),
            api_key: clone_opt(&self.api_key),
            download_dir: clone_opt(&self.download_dir),
        }
    }
}

/// Whether a sequence of names is in strictly ascending order.
pub open spec fn strictly_sorted(s: Seq<Seq<char>>) -> bool {
    forall|i: int, j: int| 0 <= i < j < s.len() ==> lex_lt(#[trigger] s[i], #[trigger] s[j])
}

/// Profiles by name, kept in ascending name order with each name once
/// (the order in which a `BTreeMap<String, _>` walks its keys).
#[derive(Debug)]
pub struct ProfileMap {
    entries: Vec<(String, Profile)>,
}

impl ProfileMap {
    #[verifier::type_invariant]
    closed spec fn sorted(self) -> bool {
        strictly_sorted(self.names())
    }

    /// The profile names, in the order in which they are kept.
    pub closed spec fn names(self) -> Seq<Seq<char>> {
        self.entries@.map_values(|e: (String, Profile)| e.0@)
    }

    closed spec fn value_of(self, k: Seq<char>) -> Profile {
        self.entries@[self.names().index_of(k)].1
    }

    /// The map from names to profiles.
    pub closed spec fn as_map(self) -> Map<Seq<char>, Profile> {
        Map::new(|k: Seq<char>| self.names().contains(k), |k: Seq<char>| self.value_of(k))
    }

    /// The names are exactly the keys of the map.
    pub proof fn lemma_names_are_keys(self)
        ensures
            forall|k: Seq<char>| self.as_map().contains_key(k) <==> self.names().contains(k),
    {
    }

    proof fn lemma_index_of(self, i: int)
        requires
            strictly_sorted(self.names()),
            0 <= i < self.names().len(),
        ensures
            self.names().index_of(self.names()[i]) == i,
            self.as_map().contains_key(self.entries@[i].0@),
            self.as_map()[self.entries@[i].0@] == self.entries@[i].1,
    {
        let s = self.names();
        assert(s[i] == self.entries@[i].0@);
        assert(s.contains(s[i]));
        let j = s.index_of(s[i]);
        if j != i {
            if j < i {
                assert(lex_lt(s[j], s[i]));
            } else {
                assert(lex_lt(s[i], s[j]));
            }
            lemma_lex_irreflexive(s[i]);
        }
    }

    /// An empty map.
    pub fn new() -> (m: ProfileMap)
        ensures
            m.as_map() == Map::<Seq<char>, Profile>::empty(),
            m.names() == Seq::<Seq<char>>::empty(),
    {
        let m = ProfileMap { entries: Vec::new() };
        assert(m.names() =~= Seq::<Seq<char>>::empty());
        assert(m.as_map() =~= Map::<Seq<char>, Profile>::empty());
        m
    }

    /// Number of profiles.
    pub fn len(&self) -> (n: usize)
        ensures
            n == self.names().len(),
    {
        self.entries.len()
    }

    /// Whether there is no profile.
    pub fn is_empty(&self) -> (b: bool)
        ensures
            b == (self.names().len() == 0),
    {
        self.entries.len() == 0
    }

    /// The names are in strictly ascending order.
    pub(crate) fn check_sorted(&self)
        ensures
            strictly_sorted(self.names()),
    {
        proof {
            use_type_invariant(self);
        }
    }

    /// The `i`-th profile in name order, with its name.
    pub fn entry(&self, i: usize) -> (r: (&String, &Profile))
        requires
            i < self.names().len(),
        ensures
            r.0@ == self.names()[i as int],
            self.as_map().contains_key(r.0@),
            *r.1 == self.as_map()[r.0@],
    {
        proof {
            use_type_invariant(self);
            self.lemma_index_of(i as int);
        }
        let e = &self.entries[i];
        (&e.0, &e.1)
    }

    /// The profile called `name`, if any.
    pub fn get(&self, name: &str) -> (r: Option<&Profile>)
        ensures
            r is Some == self.as_map().contains_key(name@),
            r matches Some(p) ==> *p == self.as_map()[name@],
    {
        proof {
            use_type_invariant(self);
        }
        let key = owned(name);
        let mut i: usize = 0;
        while i < self.entries.len()
            invariant
                0 <= i <= self.names().len(),
                self.names().len() == self.entries@.len(),
                key@ == name@,
                strictly_sorted(self.names()),
                forall|j: int| 0 <= j < i ==> self.names()[j] != name@,
            decreases self.entries@.len() - i,
        {
            if self.entries[i].0 == key {
                proof {
                    self.lemma_index_of(i as int);
                }
                return Some(&self.entries[i].1);
            }
            i = i + 1;
        }
        proof {
            if self.names().contains(name@) {
                let j = choose|j: int| 0 <= j < self.names().len() && self.names()[j] == name@;
                assert(self.names()[j] != name@);
            }
        }
        None
    }

    /// Sets the profile called `name` (replacing any profile of that name).
    pub fn insert(&mut self, name: String, p: Profile)
        ensures
            final(self).as_map() == old(self).as_map().insert(name@, p),
    {
        proof {
            use_type_invariant(&*self);
        }
        let mut entries: Vec<(String, Profile)> = Vec::new();
        std::mem::swap(&mut entries, &mut self.entries);
        let ghost old_vec = entries;
        let ghost old_entries = entries@;
        let ghost old_map = ProfileMap { entries: entries }.as_map();
        let ghost names = entries@.map_values(|e: (String, Profile)| e.0@);
        assert(names == (ProfileMap { entries: entries }).names());
        let mut i: usize = 0;
        while i < entries.len() && str_less(entries[i].0.as_str(), name.as_str())
            invariant
                entries@ == old_entries,
                names == old_entries.map_values(|e: (String, Profile)| e.0@),
                strictly_sorted(names),
                0 <= i <= names.len(),
                forall|j: int| 0 <= j < i ==> lex_lt(names[j], name@),
            decreases names.len() - i,
        {
            i = i + 1;
        }
        let ghost key = name@;
        if i < entries.len() && entries[i].0 == name {
            let ghost i0 = i as int;
            entries.set(i, (name, p));
            let ghost new_names = entries@.map_values(|e: (String, Profile)| e.0@);
            assert(new_names =~= names);
            proof {
                let nm = ProfileMap { entries: entries };
                let om = ProfileMap { entries: old_vec };
                assert(nm.names() == new_names);
                assert(om.names() == names);
                assert(old_map == om.as_map());
                assert(names[i0] == key);
                assert(names.contains(key));
                assert forall|k: Seq<char>| #[trigger] nm.as_map().contains_key(k)
                    == old_map.insert(key, p).contains_key(k) by {}
                assert forall|k: Seq<char>| nm.as_map().contains_key(k) implies
                    #[trigger] nm.as_map()[k] == old_map.insert(key, p)[k] by {
                    assert(new_names.contains(k));
                    let j = new_names.index_of(k);
                    assert(0 <= j < new_names.len() && new_names[j] == k);
                    nm.lemma_index_of(j);
                    om.lemma_index_of(j);
                    nm.lemma_index_of(i0);
                }
                assert(nm.as_map() =~= old_map.insert(key, p));
            }
            self.entries = entries;
        } else {
            proof {
                if i < names.len() {
                    assert(names[i as int] != key);
                    lemma_lex_total(names[i as int], key);
                }
            }
            entries.insert(i, (name, p));
            let ghost new_names = entries@.map_values(|e: (String, Profile)| e.0@);
            proof {
                assert(new_names =~= names.insert(i as int, key));
                assert forall|a: int, b: int| 0 <= a < b < new_names.len() implies lex_lt(
                    #[trigger] new_names[a],
                    #[trigger] new_names[b],
                ) by {
                    if b < i {
                    } else if b == i {
                    } else if a < i {
                        assert(lex_lt(names[a], key));
                        assert(lex_lt(names[a], names[b - 1]));
                    } else if a == i {
                        if b - 1 > i {
                            assert(lex_lt(names[i as int], names[b - 1]));
                            lemma_lex_transitive(key, names[i as int], names[b - 1]);
                        }
                    } else {
                        assert(lex_lt(names[a - 1], names[b - 1]));
                    }
                }
                let nm = ProfileMap { entries: entries };
                let om = ProfileMap { entries: old_vec };
                assert(nm.names() == new_names);
                assert(om.names() == names);
                assert forall|k: Seq<char>| #[trigger] nm.as_map().contains_key(k)
                    == old_map.insert(key, p).contains_key(k) by {
                    if names.contains(k) {
                        let j = choose|j: int| 0 <= j < names.len() && names[j] == k;
                        if j < i {
                            assert(new_names[j] == k);
                        } else {
                            assert(new_names[j + 1] == k);
                        }
                    }
                    if new_names.contains(k) && k != key {
                        let j = choose|j: int| 0 <= j < new_names.len() && new_names[j] == k;
                        if j < i {
                            assert(names[j] == k);
                        } else if j > i {
                            assert(names[j - 1] == k);
                        }
                    }
                    assert(new_names[i as int] == key);
                }
                assert forall|k: Seq<char>| nm.as_map().contains_key(k) implies
                    #[trigger] nm.as_map()[k] == old_map.insert(key, p)[k] by {
                    let j = new_names.index_of(k);
                    nm.lemma_index_of(j);
                    if j < i {
                        om.lemma_index_of(j);
                        if k == key {
                            assert(lex_lt(names[j], key));
                            lemma_lex_irreflexive(key);
                        }
                    } else if j > i {
                        om.lemma_index_of(j - 1);
                        if k == key {
                            assert(lex_lt(key, new_names[j]));
                            lemma_lex_irreflexive(key);
                        }
                    }
                }
                assert(nm.as_map() =~= old_map.insert(key, p));
            }
            self.entries = entries;
        }
    }
}

/// The whole configuration file.
#[derive(Debug)]
pub struct Config {
    pub default_profile: Option<String>,
    pub profiles: ProfileMap,
}

impl Default for Config {
    fn default() -> (c: Config)
        ensures
            c.default_profile is None,
            c.profiles.as_map() == Map::<Seq<char>, Profile>::empty(),
            c.profiles.names() == Seq::<Seq<char>>::empty(),
    {
        Config { default_profile: None, profiles: ProfileMap::new() }
    }
}

/// Why a connection could not be resolved.
pub enum ResolveError {
    /// The chosen profile is not in the file.
    ProfileNotFound { name: String },
    /// No API key came from the flags, the environment or the profile.
    MissingApiKey,
}

/// The message of a resolution error; `config_path` is where the file was looked for.
pub open spec fn describe_of(e: ResolveError, config_path: Seq<char>) -> Seq<char> {
    match e {
        ResolveError::ProfileNotFound { name } => "perfil '"@ + name@ + "' no existe en "@
            + config_path,
        ResolveError::MissingApiKey =>
            "falta el api key: usa --api-key, ALBERTO_API_KEY, o api_key en el perfil ("@
            + config_path + ")"@,
    }
}

impl ResolveError {
    /// The message shown to the user; `config_path` is where the file was looked for.
    pub fn describe(&self, config_path: &str) -> (r: String)
        ensures
            r@ == describe_of(*self, config_path@),
    {
        match self {
            ResolveError::ProfileNotFound { name } => {
                let mut r = concat2("perfil '", name.as_str());
                crate::text::push_str(&mut r, "' no existe en ");
                crate::text::push_str(&mut r, config_path);
                r
            },
            ResolveError::MissingApiKey => {
                let mut r = owned(
                    "falta el api key: usa --api-key, ALBERTO_API_KEY, o api_key en el perfil (",
                );
                crate::text::push_str(&mut r, config_path);
                crate::text::push_str(&mut r, ")");
                r
            },
        }
    }
}

/// The name of the profile that applies: the one asked for, else the file's default.
pub open spec fn chosen_name(cfg: &Config, profile: Option<Seq<char>>) -> Option<Seq<char>> {
    match profile {
        Some(n) => Some(n),
        None => opt_chars(cfg.default_profile),
    }
}

/// A profile is asked for (or defaulted to) but the file does not have it.
pub open spec fn profile_missing(cfg: &Config, profile: Option<Seq<char>>) -> bool {
    match chosen_name(cfg, profile) {
        Some(n) => !cfg.profiles.as_map().contains_key(n),
        None => false,
    }
}

/// The profile that applies, if any.
pub open spec fn chosen_profile(cfg: &Config, profile: Option<Seq<char>>) -> Option<Profile> {
    match chosen_name(cfg, profile) {
        Some(n) => if cfg.profiles.as_map().contains_key(n) {
            Some(cfg.profiles.as_map()[n])
        } else {
            None
        },
        None => None,
    }
}

/// The endpoint: the flag's, else the profile's, else `DEFAULT_ENDPOINT`.
pub open spec fn effective_endpoint(
    cfg: &Config,
    profile: Option<Seq<char>>,
    endpoint: Option<Seq<char>>,
) -> Seq<char> {
    match endpoint {
        Some(e) => e,
        None => match chosen_profile(cfg, profile) {
            Some(p) => match p.endpoint {
                Some(e) => e@,
                None => DEFAULT_ENDPOINT@,
            },
            None => DEFAULT_ENDPOINT@,
        },
    }
}

/// The API key: the flag's, else the profile's, if any.
pub open spec fn effective_api_key(
    cfg: &Config,
    profile: Option<Seq<char>>,
    api_key: Option<Seq<char>>,
) -> Option<Seq<char>> {
    match api_key {
        Some(k) => Some(k),
        None => match chosen_profile(cfg, profile) {
            Some(p) => opt_chars(p.api_key),
            None => None,
        },
    }
}

/// What `resolve` gives for these inputs, as a contract.
pub open spec fn resolves_to(
    cfg: &Config,
    profile: Option<Seq<char>>,
    endpoint: Option<Seq<char>>,
    api_key: Option<Seq<char>>,
    r: Result<(String, String), ResolveError>,
) -> bool {
    if profile_missing(cfg, profile) {
        r matches Err(ResolveError::ProfileNotFound { name }) && Some(name@) == chosen_name(
            cfg,
            profile,
        )
    } else {
        match effective_api_key(cfg, profile, api_key) {
            None => r matches Err(ResolveError::MissingApiKey),
            Some(k) => r matches Ok((e2, k2)) && e2@ == effective_endpoint(cfg, profile, endpoint)
                && k2@ == k,
        }
    }
}

/// Resolves (endpoint, api_key) by combining flags/environment with the profile.
pub fn resolve(
    cfg: &Config,
    profile: Option<&str>,
    endpoint: Option<String>,
    api_key: Option<String>,
) -> (r: Result<(String, String), ResolveError>)
    ensures
        resolves_to(cfg, opt_str_chars(profile), opt_chars(endpoint), opt_chars(api_key), r),
{
    let name: Option<&str> = match profile {
        Some(n) => Some(n),
        None => match &cfg.default_profile {
            Some(d) => Some(d.as_str()),
            None => None,
        },
    };
    assert(opt_str_chars(name) == chosen_name(cfg, opt_str_chars(profile)));
    let prof: Option<&Profile> = match name {
        Some(n) => match cfg.profiles.get(n) {
            Some(p) => Some(p),
            None => {
                return Err(ResolveError::ProfileNotFound { name: owned(n) });
            },
        },
        None => None,
    };
    let endpoint = match endpoint {
        Some(e) => e,
        None => match prof {
            Some(p) => match &p.endpoint {
                Some(e) => e.clone(),
                None => owned(DEFAULT_ENDPOINT),
            },
            None => owned(DEFAULT_ENDPOINT),
        },
    };
    let api_key = match api_key {
        Some(k) => k,
        None => match prof {
            Some(p) => match &p.api_key {
                Some(k) => k.clone(),
                None => {
                    return Err(ResolveError::MissingApiKey);
                },
            },
            None => {
                return Err(ResolveError::MissingApiKey);
            },
        },
    };
    Ok((endpoint, api_key))
}

/// The `download_dir` of the chosen profile (or of the default profile).
/// Names are not checked: a profile that does not exist gives nothing.
pub fn profile_download_dir(cfg: &Config, profile: Option<&str>) -> (r: Option<String>)
    ensures
        opt_chars(r) == match chosen_profile(cfg, opt_str_chars(profile)) {
            Some(p) => opt_chars(p.download_dir),
            None => None,
        },
{
    let name: &str = match profile {
        Some(n) => n,
        None => match &cfg.default_profile {
            Some(d) => d.as_str(),
            None => {
                return None;
            },
        },
    };
    match cfg.profiles.get(name) {
        Some(p) => clone_opt(&p.download_dir),
        None => None,
    }
}

/// A profile set with `insert` is what the map then holds under its name,
/// and the other names keep their profiles.
pub proof fn law_read_after_insert(
    before: ProfileMap,
    after: ProfileMap,
    name: Seq<char>,
    p: Profile,
)
    requires
        after.as_map() == before.as_map().insert(name, p),
    ensures
        after.as_map().contains_key(name),
        after.as_map()[name] == p,
        forall|k: Seq<char>|
            k != name ==> (#[trigger] after.as_map().contains_key(k) == before.as_map().contains_key(
                k,
            ) && (before.as_map().contains_key(k) ==> after.as_map()[k] == before.as_map()[k])),
{
}

/// Flags win: with both `--endpoint` and `--api-key` given, they are the
/// connection, whatever the profile holds (as long as the profile asked for exists).
pub proof fn law_flags_win(
    cfg: &Config,
    profile: Option<Seq<char>>,
    endpoint: Seq<char>,
    api_key: Seq<char>,
    r: Result<(String, String), ResolveError>,
)
    requires
        !profile_missing(cfg, profile),
        resolves_to(cfg, profile, Some(endpoint), Some(api_key), r),
    ensures
        r matches Ok((e, k)) && e@ == endpoint && k@ == api_key,
{
}

/// The profile fills in what the flags leave out.
pub proof fn law_profile_fills_gaps(
    cfg: &Config,
    profile: Option<Seq<char>>,
    p: Profile,
    r: Result<(String, String), ResolveError>,
)
    requires
        chosen_profile(cfg, profile) == Some(p),
        p.endpoint is Some,
        p.api_key is Some,
        resolves_to(cfg, profile, None, None, r),
    ensures
        r matches Ok((e, k)) && e@ == p.endpoint->0@ && k@ == p.api_key->0@,
{
}

/// With no endpoint from a flag or a profile, the built-in default is used.
pub proof fn law_default_endpoint(
    cfg: &Config,
    profile: Option<Seq<char>>,
    api_key: Seq<char>,
    r: Result<(String, String), ResolveError>,
)
    requires
        chosen_profile(cfg, profile) is None,
        !profile_missing(cfg, profile),
        resolves_to(cfg, profile, None, Some(api_key), r),
    ensures
        r matches Ok((e, _)) && e@ == DEFAULT_ENDPOINT@,
{
}

/// A profile that does not exist is an error, even when the flags give
/// everything.
pub proof fn law_missing_profile_is_error(
    cfg: &Config,
    name: Seq<char>,
    endpoint: Option<Seq<char>>,
    api_key: Option<Seq<char>>,
    r: Result<(String, String), ResolveError>,
)
    requires
        !cfg.profiles.as_map().contains_key(name),
        resolves_to(cfg, Some(name), endpoint, api_key, r),
    ensures
        r matches Err(ResolveError::ProfileNotFound { name: n }) && n@ == name,
{
}

/// Where the file lives under the home directory.
pub const CONFIG_RELATIVE_PATH: &'static str = ".config/alberto/config.toml";

/// `dirs::home_dir()`, as text (lossily, for a home that is not UTF-8).
/// It reads the environment, so nothing is stated of what comes back.
#[verifier::external_body]
fn home_dir() -> (r: Option<String>) {
    dirs::home_dir().map(|p| p.to_string_lossy().into_owned())
}

/// `PathBuf::join` on Unix: an absolute `rest` replaces `base`, otherwise a
/// `/` separates them unless `base` is empty or already ends with one.
pub open spec fn path_join(base: Seq<char>, rest: Seq<char>) -> Seq<char> {
    if rest.len() > 0 && rest[0] == '/' {
        rest
    } else if base.len() == 0 {
        rest
    } else if base.last() == '/' {
        base + rest
    } else {
        base + seq!['/'] + rest
    }
}

/// Joins two paths as `PathBuf::join` does on Unix.
pub fn join_path(base: &str, rest: &str) -> (r: String)
    ensures
        r@ == path_join(base@, rest@),
{
    let b = chars_of(base);
    let t = chars_of(rest);
    if t.len() > 0 && t[0] == '/' {
        owned(rest)
    } else if b.len() == 0 {
        owned(rest)
    } else if b[b.len() - 1] == '/' {
        concat2(base, rest)
    } else {
        let mut r = owned(base);
        push_char(&mut r, '/');
        push_str(&mut r, rest);
        r
    }
}

/// `~` is the home directory and a leading `~/` is expanded under it;
/// any other path is left as it is. A missing home counts as empty.
pub open spec fn expanded(path: Seq<char>, home: Seq<char>) -> Seq<char> {
    if path == seq!['~'] {
        home
    } else if path.len() >= 2 && path[0] == '~' && path[1] == '/' {
        path_join(home, path.skip(2))
    } else {
        path
    }
}

/// The characters of an optional string, none when absent.
pub open spec fn or_empty(o: Option<String>) -> Seq<char> {
    match o {
        Some(s) => s@,
        None => Seq::<char>::empty(),
    }
}

/// Expands `~` and a leading `~/` under the given home directory.
pub fn expand_home_with(path: &str, home: Option<String>) -> (r: String)
    ensures
        r@ == expanded(path@, or_empty(home)),
{
    let home = match home {
        Some(h) => h,
        None => String::new(),
    };
    let cs = chars_of(path);
    if cs.len() == 1 && cs[0] == '~' {
        assert(path@ =~= seq!['~']);
        home
    } else if cs.len() >= 2 && cs[0] == '~' && cs[1] == '/' {
        let mut rest = String::new();
        let mut i: usize = 2;
        while i < cs.len()
            invariant
                2 <= i <= cs@.len(),
                cs@ == path@,
                rest@ == cs@.subrange(2, i as int),
            decreases cs@.len() - i,
        {
            push_char(&mut rest, cs[i]);
            assert(cs@.subrange(2, i + 1) =~= cs@.subrange(2, i as int).push(cs@[i as int]));
            i = i + 1;
        }
        assert(rest@ =~= path@.skip(2));
        join_path(home.as_str(), rest.as_str())
    } else {
        proof {
            if path@ == seq!['~'] {
                assert(cs@.len() == 1);
            }
        }
        owned(path)
    }
}

/// Expands `~` and a leading `~/` to the user's home directory; the rest is
/// left as it is.
pub fn expand_home(path: &str) -> (r: String)
    ensures
        exists|home: Seq<char>| r@ == expanded(path@, home),
{
    let home = home_dir();
    let ghost h = or_empty(home);
    let r = expand_home_with(path, home);
    assert(r@ == expanded(path@, h));
    r
}

/// Where the configuration file is: `ALBERTO_CONFIG` when set (`env`), else
/// `.config/alberto/config.toml` under the home directory `home` (a missing
/// home counts as empty).
pub fn config_path_with(env: Option<String>, home: Option<String>) -> (r: String)
    ensures
        r@ == match env {
            Some(p) => p@,
            None => path_join(or_empty(home), CONFIG_RELATIVE_PATH@),
        },
{
    match env {
        Some(p) => p,
        None => {
            let home = match home {
                Some(h) => h,
                None => String::new(),
            };
            join_path(home.as_str(), CONFIG_RELATIVE_PATH)
        },
    }
}

/// Where the configuration file is: `ALBERTO_CONFIG` when set (passed as
/// `env`), else `~/.config/alberto/config.toml`, the home directory being
/// looked up only then.
pub fn config_path_for(env: Option<String>) -> (r: String)
    ensures
        env matches Some(p) ==> r@ == p@,
        env is None ==> exists|home: Seq<char>| r@ == path_join(home, CONFIG_RELATIVE_PATH@),
{
    match env {
        Some(p) => config_path_with(Some(p), None),
        None => {
            let home = home_dir();
            let r = config_path_with(None, home);
            assert(r@ == path_join(or_empty(home), CONFIG_RELATIVE_PATH@));
            r
        },
    }
}

} // verus!
