//! The configuration aggregate.
//!
//! Owned by a single run and mutated in a fixed sequence: construct with
//! defaults, load the typed fields from the environment snapshot, resolve
//! the values overrides. After that it is read-only: the credentials
//! document is rendered from it and the command builders project it into
//! argument lists. Every failure is fatal; nothing is silently defaulted.

use vstd::prelude::*;
use crate::environment::{Env, EnvSeq};
use crate::errors::ConfigError;
use crate::json::{json_string_object, pairs_view};
use crate::renderer::{credentials_text, render_credentials};
use crate::resolver::{
    bool_setting, resolve_bool, resolve_optional, resolve_required, string_setting, two_tier,
    two_tier_name,
};
use crate::values::{resolve_values, values_resolved, values_unresolved};

verus! {

/// The resolved deployment parameters.
pub struct Config {
    /// The deployable package; required.
    pub chart: String,
    /// The cluster API endpoint; required.
    pub master: String,
    /// The target namespace; optional.
    pub namespace: String,
    /// The deployment instance name; required.
    pub release: String,
    /// Whether to skip TLS verification; optional.
    pub skip_tls: bool,
    /// The bearer credential; required and opaque.
    pub token: String,
    /// Whether to run the cleanup command before deploying; optional.
    pub clean_before_release: bool,
    /// The resolved deploy-time overrides, in their original order.
    pub values: Vec<(String, String)>,
}

pub open spec fn chart_setting(env: EnvSeq) -> Option<Seq<char>> {
    two_tier(env, "PLUGIN_CHART"@, "HELM_CHART"@)
}

pub open spec fn master_setting(env: EnvSeq) -> Option<Seq<char>> {
    two_tier(env, "PLUGIN_MASTER"@, "HELM_MASTER"@)
}

pub open spec fn namespace_setting(env: EnvSeq) -> Seq<char> {
    string_setting(env, "PLUGIN_NAMESPACE"@, "HELM_NAMESPACE"@, "default"@)
}

pub open spec fn release_setting(env: EnvSeq) -> Option<Seq<char>> {
    two_tier(env, "PLUGIN_RELEASE"@, "HELM_RELEASE"@)
}

pub open spec fn skip_tls_setting(env: EnvSeq) -> Option<bool> {
    bool_setting(env, "PLUGIN_SKIP_TLS"@, "HELM_SKIP_TLS"@, false)
}

pub open spec fn token_setting(env: EnvSeq) -> Option<Seq<char>> {
    two_tier(env, "PLUGIN_TOKEN"@, "HELM_TOKEN"@)
}

pub open spec fn clean_setting(env: EnvSeq) -> Option<bool> {
    bool_setting(env, "PLUGIN_CLEAN_BEFORE_RELEASE"@, "HELM_CLEAN_BEFORE_RELEASE"@, false)
}

/// The raw values text: the two-tier setting, or the empty object.
pub open spec fn values_raw(env: EnvSeq) -> Seq<char> {
    string_setting(env, "PLUGIN_VALUES"@, "HELM_VALUES"@, "{}"@)
}

/// Every typed field resolves in this environment.
pub open spec fn load_ok(env: EnvSeq) -> bool {
    &&& chart_setting(env) is Some
    &&& master_setting(env) is Some
    &&& release_setting(env) is Some
    &&& skip_tls_setting(env) is Some
    &&& token_setting(env) is Some
    &&& clean_setting(env) is Some
}

/// The typed fields of `c` hold exactly what the environment resolves to.
pub open spec fn loaded_from(env: EnvSeq, c: Config) -> bool {
    &&& chart_setting(env) == Some(c.chart@)
    &&& master_setting(env) == Some(c.master@)
    &&& c.namespace@ == namespace_setting(env)
    &&& release_setting(env) == Some(c.release@)
    &&& skip_tls_setting(env) == Some(c.skip_tls)
    &&& token_setting(env) == Some(c.token@)
    &&& clean_setting(env) == Some(c.clean_before_release)
}

/// The error that loading the typed fields reports, if and only if the
/// fields are resolved in their fixed order — chart, master, namespace,
/// release, skipTls, token, cleanBeforeRelease — and `e` names the first
/// that fails.
pub open spec fn load_failure(env: EnvSeq, e: ConfigError) -> bool {
    match e {
        ConfigError::MissingConfiguration { name } => {
            ||| (name@ == "HELM_CHART"@ && chart_setting(env) is None)
            ||| (name@ == "HELM_MASTER"@ && chart_setting(env) is Some && master_setting(env)
                is None)
            ||| (name@ == "HELM_RELEASE"@ && chart_setting(env) is Some && master_setting(env)
                is Some && release_setting(env) is None)
            ||| (name@ == "HELM_TOKEN"@ && chart_setting(env) is Some && master_setting(env)
                is Some && release_setting(env) is Some && skip_tls_setting(env) is Some
                && token_setting(env) is None)
        },
        ConfigError::InvalidConfigurationType { name, expected, actual } => {
            ||| {
                &&& chart_setting(env) is Some
                &&& master_setting(env) is Some
                &&& release_setting(env) is Some
                &&& skip_tls_setting(env) is None
                &&& name@ == two_tier_name(env, "PLUGIN_SKIP_TLS"@, "HELM_SKIP_TLS"@)
                &&& expected@ == "boolean"@
                &&& two_tier(env, "PLUGIN_SKIP_TLS"@, "HELM_SKIP_TLS"@) == Some(actual@)
            }
            ||| {
                &&& chart_setting(env) is Some
                &&& master_setting(env) is Some
                &&& release_setting(env) is Some
                &&& skip_tls_setting(env) is Some
                &&& token_setting(env) is Some
                &&& clean_setting(env) is None
                &&& name@ == two_tier_name(
                    env,
                    "PLUGIN_CLEAN_BEFORE_RELEASE"@,
                    "HELM_CLEAN_BEFORE_RELEASE"@,
                )
                &&& expected@ == "boolean"@
                &&& two_tier(env, "PLUGIN_CLEAN_BEFORE_RELEASE"@, "HELM_CLEAN_BEFORE_RELEASE"@)
                    == Some(actual@)
            }
        },
        _ => false,
    }
}

/// The error that values resolution reports, if and only if.
pub open spec fn values_failure(env: EnvSeq, e: ConfigError) -> bool {
    match e {
        ConfigError::MalformedValues => json_string_object(values_raw(env)) is None,
        ConfigError::UnresolvedIndirection { key, referenced_var } => values_unresolved(
            values_raw(env),
            env,
            key@,
            referenced_var@,
        ),
        _ => false,
    }
}

impl Config {
    /// The configuration before anything is loaded: required fields empty,
    /// optional fields at their defaults, no overrides.
    pub fn default() -> (c: Config)
        ensures
            c.chart@ == Seq::<char>::empty(),
            c.master@ == Seq::<char>::empty(),
            c.namespace@ == "default"@,
            c.release@ == Seq::<char>::empty(),
            c.skip_tls == false,
            c.token@ == Seq::<char>::empty(),
            c.clean_before_release == false,
            c.values@ == Seq::<(String, String)>::empty(),
    {
        Config {
            chart: String::new(),
            master: String::new(),
            namespace: String::from_str("default"),
            release: String::new(),
            skip_tls: false,
            token: String::new(),
            clean_before_release: false,
            values: Vec::new(),
        }
    }

    /// Loads the typed fields from the snapshot, first failure fatal.
    ///
    /// On success every field holds its resolved value and the overrides are
    /// untouched; on failure the error names the first field, in the fixed
    /// order, that is missing or has a non-boolean text.
    pub fn load(&mut self, env: &Env) -> (r: Result<(), ConfigError>)
        ensures
            match r {
                Ok(()) => {
                    &&& loaded_from(env@, *final(self))
                    &&& final(self).values == old(self).values
                },
                Err(e) => load_failure(env@, e),
            },
    {
        match resolve_required(env, "PLUGIN_CHART", "HELM_CHART") {
            Ok(v) => {
                self.chart = v;
            },
            Err(e) => {
                return Err(e);
            },
        }
        match resolve_required(env, "PLUGIN_MASTER", "HELM_MASTER") {
            Ok(v) => {
                self.master = v;
            },
            Err(e) => {
                return Err(e);
            },
        }
        self.namespace = resolve_optional(env, "PLUGIN_NAMESPACE", "HELM_NAMESPACE", "default");
        match resolve_required(env, "PLUGIN_RELEASE", "HELM_RELEASE") {
            Ok(v) => {
                self.release = v;
            },
            Err(e) => {
                return Err(e);
            },
        }
        match resolve_bool(env, "PLUGIN_SKIP_TLS", "HELM_SKIP_TLS", false) {
            Ok(b) => {
                self.skip_tls = b;
            },
            Err(e) => {
                return Err(e);
            },
        }
        match resolve_required(env, "PLUGIN_TOKEN", "HELM_TOKEN") {
            Ok(v) => {
                self.token = v;
            },
            Err(e) => {
                return Err(e);
            },
        }
        match resolve_bool(
            env,
            "PLUGIN_CLEAN_BEFORE_RELEASE",
            "HELM_CLEAN_BEFORE_RELEASE",
            false,
        ) {
            Ok(b) => {
                self.clean_before_release = b;
            },
            Err(e) => {
                return Err(e);
            },
        }
        Ok(())
    }

    /// Resolves the values overrides from the snapshot's raw values text
    /// (the empty object when neither values variable is set).
    ///
    /// On success the overrides hold the resolved map and every other field
    /// is untouched; on failure the whole configuration is untouched.
    pub fn parse_values(&mut self, env: &Env) -> (r: Result<(), ConfigError>)
        ensures
            match r {
                Ok(()) => {
                    &&& values_resolved(values_raw(env@), env@, pairs_view(final(self).values@))
                    &&& final(self).chart == old(self).chart
                    &&& final(self).master == old(self).master
                    &&& final(self).namespace == old(self).namespace
                    &&& final(self).release == old(self).release
                    &&& final(self).skip_tls == old(self).skip_tls
                    &&& final(self).token == old(self).token
                    &&& final(self).clean_before_release == old(self).clean_before_release
                },
                Err(e) => values_failure(env@, e) && *final(self) == *old(self),
            },
    {
        let raw = resolve_optional(env, "PLUGIN_VALUES", "HELM_VALUES", "{}");
        match resolve_values(raw.as_str(), env) {
            Ok(v) => {
                self.values = v;
                Ok(())
            },
            Err(e) => Err(e),
        }
    }

    /// Builds the whole configuration from the snapshot: defaults, then the
    /// typed fields, then the values overrides; the first failure is fatal.
    pub fn new(env: &Env) -> (r: Result<Config, ConfigError>)
        ensures
            match r {
                Ok(c) => {
                    &&& loaded_from(env@, c)
                    &&& values_resolved(values_raw(env@), env@, pairs_view(c.values@))
                },
                Err(e) => load_failure(env@, e) || (load_ok(env@) && values_failure(env@, e)),
            },
    {
        let mut config = Config::default();
        match config.load(env) {
            Ok(()) => {},
            Err(e) => {
                return Err(e);
            },
        }
        match config.parse_values(env) {
            Ok(()) => {},
            Err(e) => {
                return Err(e);
            },
        }
        Ok(config)
    }

    /// The credentials document for this configuration's cluster fields.
    pub fn render_file(&self) -> (r: String)
        ensures
            r@ == credentials_text(self.master@, self.namespace@, self.skip_tls, self.token@),
    {
        render_credentials(
            self.master.as_str(),
            self.namespace.as_str(),
            self.skip_tls,
            self.token.as_str(),
        )
    }
}

} // verus!
