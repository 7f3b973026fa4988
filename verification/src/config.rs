//! Configuration model, default account choice and the XDG path rules.

use vstd::prelude::*;

use crate::error::{is_config_error, AppError};

verus! {

#[derive(Debug, Clone, PartialEq, Eq)]
pub struct ProjectPaths {
    pub config_file: String,
    pub state_dir: String,
    pub cache_dir: String,
}

#[derive(Debug, Clone, Default, PartialEq, Eq)]
pub struct ConfigArgs {
    pub config: Option<String>,
}

#[derive(Debug, Clone, PartialEq, Eq)]
pub struct AccountConfig {
    pub name: String,
    pub email_address: String,
    pub maildir_root: String,
    pub sync_command: Option<String>,
    pub default: Option<bool>,
}

#[derive(Debug, Clone, PartialEq, Eq)]
pub struct ProviderConfig {
    pub provider: String,
    pub model: String,
    pub api_url: Option<String>,
    pub api_key_env: Option<String>,
    pub enabled: Option<bool>,
}

#[derive(Debug, Clone, PartialEq, Eq)]
pub struct AiConfig {
    pub embedding: Option<ProviderConfig>,
    pub extraction: Option<ProviderConfig>,
    pub drafting: Option<ProviderConfig>,
}

impl AiConfig {
    /// No provider configured.
    pub fn empty() -> (r: AiConfig)
        ensures
            r.embedding is None && r.extraction is None && r.drafting is None,
    {
        AiConfig { embedding: None, extraction: None, drafting: None }
    }
}

#[derive(Debug, Clone, PartialEq, Eq)]
pub struct SmtpIdentityConfig {
    pub name: String,
    pub email_address: String,
    pub host: String,
    pub port: u16,
    pub username: Option<String>,
    pub password_env: Option<String>,
    pub tls_mode: Option<String>,
    pub default: Option<bool>,
}

#[derive(Debug, Clone, PartialEq, Eq)]
pub struct AppConfig {
    pub accounts: Vec<AccountConfig>,
    pub ai: AiConfig,
    pub smtp: Vec<SmtpIdentityConfig>,
}

/// Index of the first account marked `default = true`.
pub open spec fn first_default(accounts: Seq<AccountConfig>) -> Option<int>
    decreases accounts.len(),
{
    if accounts.len() == 0 {
        None
    } else {
        match first_default(accounts.drop_last()) {
            Some(i) => Some(i),
            None => if accounts.last().default == Some(true) {
                Some(accounts.len() - 1)
            } else {
                None
            },
        }
    }
}

impl AppConfig {
    /// The account to use when none is named: the only one, or else the
    /// first marked `default = true`.
    pub fn default_account(&self) -> (r: Result<&AccountConfig, AppError>)
        ensures
            self.accounts@.len() == 0 ==> r is Err && is_config_error(
                r->Err_0,
                "config must define at least one account"@,
            ),
            self.accounts@.len() == 1 ==> r is Ok && *r->Ok_0 == self.accounts@[0],
            self.accounts@.len() > 1 ==> match first_default(self.accounts@) {
                Some(i) => r is Ok && *r->Ok_0 == self.accounts@[i],
                None => r is Err && is_config_error(
                    r->Err_0,
                    "multiple accounts configured but none marked default = true"@,
                ),
            },
    {
        let n = self.accounts.len();
        if n == 0 {
            return Err(AppError::Config("config must define at least one account".to_string()));
        }
        if n == 1 {
            return Ok(&self.accounts[0]);
        }
        let mut i: usize = 0;
        while i < n
            invariant
                i <= n == self.accounts@.len(),
                first_default(self.accounts@.take(i as int)) is None,
            decreases n - i,
        {
            proof {
                assert(self.accounts@.take(i + 1).drop_last() =~= self.accounts@.take(i as int));
            }
            if self.accounts[i].default == Some(true) {
                proof {
                    lemma_first_default_prefix(self.accounts@, i as int);
                }
                return Ok(&self.accounts[i]);
            }
            i = i + 1;
        }
        assert(self.accounts@.take(n as int) =~= self.accounts@);
        Err(
            AppError::Config(
                "multiple accounts configured but none marked default = true".to_string(),
            ),
        )
    }
}

/// If the first default in a prefix ending at `i` is `i`, it is the first
/// default of the whole list.
pub proof fn lemma_first_default_prefix(accounts: Seq<AccountConfig>, i: int)
    requires
        0 <= i < accounts.len(),
        first_default(accounts.take(i)) is None,
        accounts[i].default == Some(true),
    ensures
        first_default(accounts) == Some(i),
    decreases accounts.len(),
{
    if i < accounts.len() - 1 {
        let d = accounts.drop_last();
        assert(d.take(i) =~= accounts.take(i));
        lemma_first_default_prefix(d, i);
    } else {
        assert(accounts.take(i) =~= accounts.drop_last());
    }
}

/// `PathBuf::join` for a relative `rel`: appended after a separator unless
/// `base` is empty or already ends with one.
pub open spec fn path_join(base: Seq<char>, rel: Seq<char>) -> Seq<char> {
    if base.len() == 0 {
        rel
    } else if base.last() == '/' {
        base + rel
    } else {
        base + seq!['/'] + rel
    }
}

/// Joins a relative path onto `base`.
pub fn join_path(base: &str, rel: &str) -> (r: String)
    ensures
        r@ == path_join(base@, rel@),
{
    let b = crate::text::chars_of(base);
    let mut out = String::new();
    crate::text::push_str(&mut out, base);
    if b.len() > 0 && b[b.len() - 1] != '/' {
        out.push('/');
    }
    crate::text::push_str(&mut out, rel);
    proof {
        if b@.len() == 0 {
            assert(out@ =~= rel@);
        }
    }
    out
}

/// The base directory for one XDG variable: its value when set and not
/// empty, else `home` joined with the default relative directory.
pub open spec fn resolve_base_spec(xdg: Option<String>, home: Option<String>, default_rel: Seq<char>) -> Option<Seq<char>> {
    match xdg {
        Some(v) if v@.len() > 0 => Some(v@),
        _ => match home {
            Some(h) => Some(path_join(h@, default_rel)),
            None => None,
        },
    }
}

fn resolve_base_dir(xdg_key: &str, xdg: &Option<String>, home: &Option<String>, default_rel: &str) -> (r: Result<String, AppError>)
    ensures
        match resolve_base_spec(*xdg, *home, default_rel@) {
            Some(p) => r is Ok && r->Ok_0@ == p,
            None => r is Err && r->Err_0 is Config,
        },
{
    match xdg {
        Some(v) => {
            if !crate::text::is_empty_string(v) {
                return Ok(v.clone());
            }
        },
        None => {},
    }
    match home {
        Some(h) => Ok(join_path(h.as_str(), default_rel)),
        None => {
            let mut msg = String::new();
            crate::text::push_str(&mut msg, xdg_key);
            crate::text::push_str(
                &mut msg,
                " is not set and HOME is unavailable for default path resolution",
            );
            Err(AppError::Config(msg))
        },
    }
}

impl ProjectPaths {
    /// Where the configuration, state and cache live, from the values of
    /// `HOME`, `XDG_CONFIG_HOME`, `XDG_STATE_HOME` and `XDG_CACHE_HOME`.
    pub fn from_env_values(
        home: Option<String>,
        xdg_config: Option<String>,
        xdg_state: Option<String>,
        xdg_cache: Option<String>,
    ) -> (r: Result<ProjectPaths, AppError>)
        ensures
            (resolve_base_spec(xdg_config, home, ".config"@) is Some && resolve_base_spec(
                xdg_state,
                home,
                ".local/state"@,
            ) is Some && resolve_base_spec(xdg_cache, home, ".cache"@) is Some) <==> r is Ok,
            r is Ok ==> r->Ok_0.config_file@ == path_join(
                path_join(resolve_base_spec(xdg_config, home, ".config"@)->0, "cour"@),
                "config.toml"@,
            ) && r->Ok_0.state_dir@ == path_join(
                resolve_base_spec(xdg_state, home, ".local/state"@)->0,
                "cour"@,
            ) && r->Ok_0.cache_dir@ == path_join(
                resolve_base_spec(xdg_cache, home, ".cache"@)->0,
                "cour"@,
            ),
            r is Err ==> r->Err_0 is Config,
    {
        let config_root = match resolve_base_dir("XDG_CONFIG_HOME", &xdg_config, &home, ".config") {
            Ok(p) => p,
            Err(e) => return Err(e),
        };
        let state_root = match resolve_base_dir(
            "XDG_STATE_HOME",
            &xdg_state,
            &home,
            ".local/state",
        ) {
            Ok(p) => p,
            Err(e) => return Err(e),
        };
        let cache_root = match resolve_base_dir("XDG_CACHE_HOME", &xdg_cache, &home, ".cache") {
            Ok(p) => p,
            Err(e) => return Err(e),
        };
        let app_config = join_path(config_root.as_str(), "cour");
        Ok(
            ProjectPaths {
                config_file: join_path(app_config.as_str(), "config.toml"),
                state_dir: join_path(state_root.as_str(), "cour"),
                cache_dir: join_path(cache_root.as_str(), "cour"),
            },
        )
    }
}

/// The error for a configuration file that cannot be read, with the
/// reason the system gave.
pub fn config_read_error(path: &str, reason: &str) -> (r: AppError)
    ensures
        is_config_error(r, "failed to read config from "@ + path@ + ": "@ + reason@),
{
    let mut m = "failed to read config from ".to_string();
    crate::text::push_str(&mut m, path);
    crate::text::push_str(&mut m, ": ");
    crate::text::push_str(&mut m, reason);
    AppError::Config(m)
}

/// The error for a configuration file that is not valid, with the reason
/// the TOML reader gave.
pub fn config_parse_error(path: &str, reason: &str) -> (r: AppError)
    ensures
        is_config_error(r, "failed to parse config from "@ + path@ + ": "@ + reason@),
{
    let mut m = "failed to parse config from ".to_string();
    crate::text::push_str(&mut m, path);
    crate::text::push_str(&mut m, ": ");
    crate::text::push_str(&mut m, reason);
    AppError::Config(m)
}

} // verus!
