//! Configuration of the application.

use vstd::prelude::*;

use crate::models::group_mapping::GroupMapping;
use crate::text::{cat3, comma_list_lowercase, normalized_nonempty, split_chars, str_eq, views};

verus! {

/// Configuration loaded from the environment.
#[derive(Debug, Clone)]
pub struct Config {
    pub bind_addr: String,
    pub base_url: String,
    pub session_secret: String,
    pub required_admin_role: String,
    pub homeserver_domain: String,
    pub oidc: OidcConfig,
    pub keycloak: KeycloakConfig,
    pub mas: MasConfig,
    /// Synapse connector; `None` disables room membership reconciliation.
    pub synapse: Option<SynapseConfig>,
    pub database_url: String,
    /// Shared secret of the invite bot.
    pub bot_api_secret: String,
    /// If set, only emails of these domains may be invited.
    pub invite_allowed_domains: Option<Vec<String>>,
    /// Group to room mappings imported into the database on first run.
    pub group_mappings: Vec<GroupMapping>,
    /// Path of the onboarding templates file, if configured.
    pub onboarding_templates_file: Option<String>,
}

#[derive(Debug, Clone)]
pub struct OidcConfig {
    pub issuer_url: String,
    pub client_id: String,
    pub client_secret: String,
    pub redirect_url: String,
}

#[derive(Debug, Clone)]
pub struct KeycloakConfig {
    pub base_url: String,
    pub realm: String,
    pub admin_client_id: String,
    pub admin_client_secret: String,
}

#[derive(Debug, Clone)]
pub struct MasConfig {
    pub base_url: String,
    pub admin_client_id: String,
    pub admin_client_secret: String,
}

#[derive(Debug, Clone)]
pub struct SynapseConfig {
    pub base_url: String,
    /// Admin token for the Synapse admin and client APIs.
    pub admin_token: String,
}

impl Config {
    /// The path of the onboarding templates file.
    pub open spec fn spec_templates_path(&self) -> Seq<char> {
        match self.onboarding_templates_file {
            Some(p) => p@,
            None => "onboarding_templates.json"@,
        }
    }

    /// The path of the onboarding templates file: the configured one, else
    /// `onboarding_templates.json` in the working directory.
    pub fn templates_path(&self) -> (res: String)
        ensures
            res@ == self.spec_templates_path(),
    {
        match &self.onboarding_templates_file {
            Some(p) => p.clone(),
            None => String::from_str("onboarding_templates.json"),
        }
    }
}

/// The invite domain allowlist from its environment value: the
/// comma-separated items, trimmed and lower-cased, without empty ones.
pub fn parse_allowed_domains(value: &str) -> (res: Vec<String>)
    ensures
        views(res@) == normalized_nonempty(split_chars(value@, ',')),
{
    comma_list_lowercase(value)
}


/// Whether pair `i` is the first to set `key`.
pub open spec fn is_first_setting(vars: Seq<(String, String)>, key: Seq<char>, i: int) -> bool {
    &&& 0 <= i < vars.len()
    &&& vars[i].0@ == key
    &&& forall|j: int| 0 <= j < i ==> vars[j].0@ != key
}

/// The value of environment variable `key`: the first pair that sets it.
pub open spec fn env_value(vars: Seq<(String, String)>, key: Seq<char>) -> Option<String> {
    if exists|i: int| is_first_setting(vars, key, i) {
        Some(vars[choose|i: int| is_first_setting(vars, key, i)].1)
    } else {
        None
    }
}

/// The value of environment variable `key` (see `env_value`).
pub fn env_lookup(vars: &Vec<(String, String)>, key: &str) -> (res: Option<String>)
    ensures
        res == env_value(vars@, key@),
{
    let mut i: usize = 0;
    while i < vars.len()
        invariant
            i <= vars@.len(),
            forall|j: int| 0 <= j < i ==> vars@[j].0@ != key@,
        decreases vars@.len() - i,
    {
        if str_eq(vars[i].0.as_str(), key) {
            assert(is_first_setting(vars@, key@, i as int));
            let ghost k = choose|k: int| is_first_setting(vars@, key@, k);
            assert(k == i);
            return Some(vars[i].1.clone());
        }
        i = i + 1;
    }
    None
}

/// The variables that must be set, in the order they are read.
pub open spec fn required_keys() -> Seq<Seq<char>> {
    seq![
        "APP_BASE_URL"@,
        "APP_SESSION_SECRET"@,
        "HOMESERVER_DOMAIN"@,
        "OIDC_ISSUER_URL"@,
        "OIDC_CLIENT_ID"@,
        "OIDC_CLIENT_SECRET"@,
        "OIDC_REDIRECT_URL"@,
        "KEYCLOAK_BASE_URL"@,
        "KEYCLOAK_REALM"@,
        "KEYCLOAK_ADMIN_CLIENT_ID"@,
        "KEYCLOAK_ADMIN_CLIENT_SECRET"@,
        "MAS_BASE_URL"@,
        "MAS_ADMIN_CLIENT_ID"@,
        "MAS_ADMIN_CLIENT_SECRET"@,
        "DATABASE_URL"@,
        "BOT_API_SECRET"@,
    ]
}

/// Whether required variable `i` is the first one unset.
pub open spec fn is_first_unset(vars: Seq<(String, String)>, i: int) -> bool {
    &&& 0 <= i < required_keys().len()
    &&& env_value(vars, required_keys()[i]) is None
    &&& forall|j: int| 0 <= j < i ==> env_value(vars, #[trigger] required_keys()[j]) is Some
}

/// The message of a required variable that is not set.
pub open spec fn unset_message(key: Seq<char>) -> Seq<char> {
    "Required environment variable "@ + key + " is not set"@
}

/// The value of a variable, or its default when unset.
pub open spec fn value_or(vars: Seq<(String, String)>, key: Seq<char>, default: Seq<char>) -> Seq<char> {
    match env_value(vars, key) {
        Some(v) => v@,
        None => default,
    }
}

/// The value of a required variable.
pub open spec fn required(vars: Seq<(String, String)>, key: Seq<char>) -> String {
    env_value(vars, key)->0
}

/// The configuration read from `vars`, apart from the group mappings.
pub open spec fn config_from(vars: Seq<(String, String)>, c: Config) -> bool {
    &&& c.bind_addr@ == value_or(vars, "APP_BIND_ADDR"@, "127.0.0.1:3000"@)
    &&& c.base_url == required(vars, "APP_BASE_URL"@)
    &&& c.session_secret == required(vars, "APP_SESSION_SECRET"@)
    &&& c.required_admin_role@ == value_or(vars, "APP_REQUIRED_ADMIN_ROLE"@, "matrix-admin"@)
    &&& c.homeserver_domain == required(vars, "HOMESERVER_DOMAIN"@)
    &&& c.oidc.issuer_url == required(vars, "OIDC_ISSUER_URL"@)
    &&& c.oidc.client_id == required(vars, "OIDC_CLIENT_ID"@)
    &&& c.oidc.client_secret == required(vars, "OIDC_CLIENT_SECRET"@)
    &&& c.oidc.redirect_url == required(vars, "OIDC_REDIRECT_URL"@)
    &&& c.keycloak.base_url == required(vars, "KEYCLOAK_BASE_URL"@)
    &&& c.keycloak.realm == required(vars, "KEYCLOAK_REALM"@)
    &&& c.keycloak.admin_client_id == required(vars, "KEYCLOAK_ADMIN_CLIENT_ID"@)
    &&& c.keycloak.admin_client_secret == required(vars, "KEYCLOAK_ADMIN_CLIENT_SECRET"@)
    &&& c.mas.base_url == required(vars, "MAS_BASE_URL"@)
    &&& c.mas.admin_client_id == required(vars, "MAS_ADMIN_CLIENT_ID"@)
    &&& c.mas.admin_client_secret == required(vars, "MAS_ADMIN_CLIENT_SECRET"@)
    &&& c.synapse == match (env_value(vars, "SYNAPSE_BASE_URL"@), env_value(vars, "SYNAPSE_ADMIN_TOKEN"@)) {
        (Some(base_url), Some(admin_token)) => Some(SynapseConfig { base_url, admin_token }),
        _ => None,
    }
    &&& c.database_url == required(vars, "DATABASE_URL"@)
    &&& c.bot_api_secret == required(vars, "BOT_API_SECRET"@)
    &&& match env_value(vars, "INVITE_ALLOWED_DOMAINS"@) {
        Some(v) => c.invite_allowed_domains matches Some(d) && views(d@) == normalized_nonempty(
            split_chars(v@, ','),
        ),
        None => c.invite_allowed_domains is None,
    }
    &&& c.group_mappings@.len() == 0
    &&& c.onboarding_templates_file == env_value(vars, "ONBOARDING_TEMPLATES_FILE"@)
}

fn require(vars: &Vec<(String, String)>, key: &str) -> (res: Result<String, String>)
    ensures
        match env_value(vars@, key@) {
            Some(v) => res == Ok::<String, String>(v),
            None => res matches Err(m) && m@ == unset_message(key@),
        },
{
    match env_lookup(vars, key) {
        Some(v) => Ok(v),
        None => Err(cat3("Required environment variable ", key, " is not set")),
    }
}

fn or_default(vars: &Vec<(String, String)>, key: &str, default: &str) -> (res: String)
    ensures
        res@ == value_or(vars@, key@, default@),
{
    match env_lookup(vars, key) {
        Some(v) => v,
        None => String::from_str(default),
    }
}

impl Config {
    /// The configuration of the environment `vars` (name and value pairs),
    /// without group mappings, which are loaded separately. A required
    /// variable that is unset is reported by the first such one in reading
    /// order.
    #[verifier::rlimit(40)]
    pub fn from_vars(vars: &Vec<(String, String)>) -> (res: Result<Config, String>)
        ensures
            match res {
                Ok(c) => config_from(vars@, c) && forall|i: int|
                    0 <= i < required_keys().len() ==> env_value(vars@, #[trigger] required_keys()[i]) is Some,
                Err(m) => exists|i: int| is_first_unset(vars@, i) && m@ == unset_message(
                    #[trigger] required_keys()[i],
                ),
            },
    {
        let bind_addr = or_default(vars, "APP_BIND_ADDR", "127.0.0.1:3000");
        let base_url = match require(vars, "APP_BASE_URL") {
            Ok(v) => v,
            Err(e) => {
                assert(is_first_unset(vars@, 0));
                return Err(e);
            },
        };
        let session_secret = match require(vars, "APP_SESSION_SECRET") {
            Ok(v) => v,
            Err(e) => {
                assert(is_first_unset(vars@, 1));
                return Err(e);
            },
        };
        let required_admin_role = or_default(vars, "APP_REQUIRED_ADMIN_ROLE", "matrix-admin");
        let homeserver_domain = match require(vars, "HOMESERVER_DOMAIN") {
            Ok(v) => v,
            Err(e) => {
                assert(is_first_unset(vars@, 2));
                return Err(e);
            },
        };
        let issuer_url = match require(vars, "OIDC_ISSUER_URL") {
            Ok(v) => v,
            Err(e) => {
                assert(is_first_unset(vars@, 3));
                return Err(e);
            },
        };
        let client_id = match require(vars, "OIDC_CLIENT_ID") {
            Ok(v) => v,
            Err(e) => {
                assert(is_first_unset(vars@, 4));
                return Err(e);
            },
        };
        let client_secret = match require(vars, "OIDC_CLIENT_SECRET") {
            Ok(v) => v,
            Err(e) => {
                assert(is_first_unset(vars@, 5));
                return Err(e);
            },
        };
        let redirect_url = match require(vars, "OIDC_REDIRECT_URL") {
            Ok(v) => v,
            Err(e) => {
                assert(is_first_unset(vars@, 6));
                return Err(e);
            },
        };
        let kc_base_url = match require(vars, "KEYCLOAK_BASE_URL") {
            Ok(v) => v,
            Err(e) => {
                assert(is_first_unset(vars@, 7));
                return Err(e);
            },
        };
        let realm = match require(vars, "KEYCLOAK_REALM") {
            Ok(v) => v,
            Err(e) => {
                assert(is_first_unset(vars@, 8));
                return Err(e);
            },
        };
        let kc_client_id = match require(vars, "KEYCLOAK_ADMIN_CLIENT_ID") {
            Ok(v) => v,
            Err(e) => {
                assert(is_first_unset(vars@, 9));
                return Err(e);
            },
        };
        let kc_client_secret = match require(vars, "KEYCLOAK_ADMIN_CLIENT_SECRET") {
            Ok(v) => v,
            Err(e) => {
                assert(is_first_unset(vars@, 10));
                return Err(e);
            },
        };
        let mas_base_url = match require(vars, "MAS_BASE_URL") {
            Ok(v) => v,
            Err(e) => {
                assert(is_first_unset(vars@, 11));
                return Err(e);
            },
        };
        let mas_client_id = match require(vars, "MAS_ADMIN_CLIENT_ID") {
            Ok(v) => v,
            Err(e) => {
                assert(is_first_unset(vars@, 12));
                return Err(e);
            },
        };
        let mas_client_secret = match require(vars, "MAS_ADMIN_CLIENT_SECRET") {
            Ok(v) => v,
            Err(e) => {
                assert(is_first_unset(vars@, 13));
                return Err(e);
            },
        };
        let synapse = match (env_lookup(vars, "SYNAPSE_BASE_URL"), env_lookup(vars, "SYNAPSE_ADMIN_TOKEN")) {
            (Some(base_url), Some(admin_token)) => Some(SynapseConfig { base_url, admin_token }),
            _ => None,
        };
        let database_url = match require(vars, "DATABASE_URL") {
            Ok(v) => v,
            Err(e) => {
                assert(is_first_unset(vars@, 14));
                return Err(e);
            },
        };
        let bot_api_secret = match require(vars, "BOT_API_SECRET") {
            Ok(v) => v,
            Err(e) => {
                assert(is_first_unset(vars@, 15));
                return Err(e);
            },
        };
        let invite_allowed_domains = match env_lookup(vars, "INVITE_ALLOWED_DOMAINS") {
            Some(v) => Some(parse_allowed_domains(v.as_str())),
            None => None,
        };
        let onboarding_templates_file = env_lookup(vars, "ONBOARDING_TEMPLATES_FILE");
        let c = Config {
            bind_addr,
            base_url,
            session_secret,
            required_admin_role,
            homeserver_domain,
            oidc: OidcConfig { issuer_url, client_id, client_secret, redirect_url },
            keycloak: KeycloakConfig {
                base_url: kc_base_url,
                realm,
                admin_client_id: kc_client_id,
                admin_client_secret: kc_client_secret,
            },
            mas: MasConfig {
                base_url: mas_base_url,
                admin_client_id: mas_client_id,
                admin_client_secret: mas_client_secret,
            },
            synapse,
            database_url,
            bot_api_secret,
            invite_allowed_domains,
            group_mappings: Vec::new(),
            onboarding_templates_file,
        };
        assert forall|i: int| 0 <= i < required_keys().len() implies env_value(
            vars@,
            #[trigger] required_keys()[i],
        ) is Some by {
            assert(0 <= i < 16);
        }
        Ok(c)
    }
}

} // verus!
