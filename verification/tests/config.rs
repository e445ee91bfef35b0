use drone_helm::config::Config;
use drone_helm::environment::Env;
use drone_helm::errors::ConfigError;

fn set(env: &mut Env, name: &str, value: &str) {
    env.push(name.to_string(), value.to_string());
}

fn base_env() -> Env {
    let mut env = Env::new();
    set(&mut env, "HELM_CHART", "mychart");
    set(&mut env, "HELM_MASTER", "https://x");
    set(&mut env, "HELM_RELEASE", "myrel");
    set(&mut env, "HELM_TOKEN", "tok");
    env
}

fn load(env: &Env) -> Result<Config, ConfigError> {
    Config::new(env)
}

#[test]
fn missing_chart_fails() {
    let mut env = Env::new();
    set(&mut env, "HELM_MASTER", "https://x");
    set(&mut env, "HELM_RELEASE", "myrel");
    set(&mut env, "HELM_TOKEN", "tok");
    match load(&env) {
        Err(ConfigError::MissingConfiguration { name }) => assert_eq!(name, "HELM_CHART"),
        other => panic!("expected missing chart, got {:?}", other.map(|_| ())),
    }
}

#[test]
fn missing_master_fails() {
    let mut env = Env::new();
    set(&mut env, "HELM_CHART", "mychart");
    set(&mut env, "HELM_RELEASE", "myrel");
    set(&mut env, "HELM_TOKEN", "tok");
    match load(&env) {
        Err(ConfigError::MissingConfiguration { name }) => assert_eq!(name, "HELM_MASTER"),
        other => panic!("expected missing master, got {:?}", other.map(|_| ())),
    }
}

#[test]
fn missing_release_fails() {
    let mut env = Env::new();
    set(&mut env, "HELM_CHART", "mychart");
    set(&mut env, "HELM_MASTER", "https://x");
    set(&mut env, "HELM_TOKEN", "tok");
    match load(&env) {
        Err(ConfigError::MissingConfiguration { name }) => assert_eq!(name, "HELM_RELEASE"),
        other => panic!("expected missing release, got {:?}", other.map(|_| ())),
    }
}

#[test]
fn missing_token_fails() {
    let mut env = Env::new();
    set(&mut env, "HELM_CHART", "mychart");
    set(&mut env, "HELM_MASTER", "https://x");
    set(&mut env, "HELM_RELEASE", "myrel");
    match load(&env) {
        Err(ConfigError::MissingConfiguration { name }) => assert_eq!(name, "HELM_TOKEN"),
        other => panic!("expected missing token, got {:?}", other.map(|_| ())),
    }
}

#[test]
fn all_required_loads() {
    let config = load(&base_env()).unwrap();
    assert_eq!(config.chart, "mychart");
    assert_eq!(config.master, "https://x");
    assert_eq!(config.namespace, "default");
    assert_eq!(config.release, "myrel");
    assert!(!config.skip_tls);
    assert_eq!(config.token, "tok");
    assert!(!config.clean_before_release);
    assert!(config.values.is_empty());
}

#[test]
fn plugin_name_wins_over_helm_name() {
    let mut env = base_env();
    set(&mut env, "PLUGIN_CHART", "otherchart");
    let config = load(&env).unwrap();
    assert_eq!(config.chart, "otherchart");
}

#[test]
fn empty_primary_is_authoritative() {
    let mut env = base_env();
    set(&mut env, "PLUGIN_CHART", "");
    let config = load(&env).unwrap();
    assert_eq!(config.chart, "");
}

#[test]
fn namespace_can_be_set() {
    let mut env = base_env();
    set(&mut env, "HELM_NAMESPACE", "ns");
    let config = load(&env).unwrap();
    assert_eq!(config.namespace, "ns");
}

#[test]
fn skip_tls_invalid_text_fails() {
    let mut env = base_env();
    set(&mut env, "HELM_SKIP_TLS", "notabool");
    match load(&env) {
        Err(ConfigError::InvalidConfigurationType { name, expected, actual }) => {
            assert_eq!(name, "HELM_SKIP_TLS");
            assert_eq!(expected, "boolean");
            assert_eq!(actual, "notabool");
        },
        other => panic!("expected type error, got {:?}", other.map(|_| ())),
    }
}

#[test]
fn skip_tls_unset_defaults_to_false() {
    let config = load(&base_env()).unwrap();
    assert!(!config.skip_tls);
}

#[test]
fn skip_tls_true_parses() {
    let mut env = base_env();
    set(&mut env, "HELM_SKIP_TLS", "true");
    let config = load(&env).unwrap();
    assert!(config.skip_tls);
}

#[test]
fn clean_before_release_true_parses() {
    let mut env = base_env();
    set(&mut env, "HELM_CLEAN_BEFORE_RELEASE", "true");
    let config = load(&env).unwrap();
    assert!(config.clean_before_release);
}

#[test]
fn clean_before_release_invalid_text_fails() {
    let mut env = base_env();
    set(&mut env, "HELM_CLEAN_BEFORE_RELEASE", "yes");
    match load(&env) {
        Err(ConfigError::InvalidConfigurationType { name, .. }) => {
            assert_eq!(name, "HELM_CLEAN_BEFORE_RELEASE");
        },
        other => panic!("expected type error, got {:?}", other.map(|_| ())),
    }
}
