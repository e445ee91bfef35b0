use drone_helm::environment::Env;
use drone_helm::errors::ConfigError;
use drone_helm::values::resolve_values;

fn set(env: &mut Env, name: &str, value: &str) {
    env.push(name.to_string(), value.to_string());
}

fn pairs(r: Result<Vec<(String, String)>, ConfigError>) -> Vec<(String, String)> {
    r.expect("values should resolve")
}

#[test]
fn marker_resolves_from_environment() {
    let mut env = Env::new();
    set(&mut env, "FOO", "bar");
    let resolved = pairs(resolve_values(r#"{"a":"{{FOO}}"}"#, &env));
    assert_eq!(resolved, vec![("a".to_string(), "bar".to_string())]);
}

#[test]
fn marker_with_unset_variable_fails() {
    let env = Env::new();
    match resolve_values(r#"{"a":"{{FOO}}"}"#, &env) {
        Err(ConfigError::UnresolvedIndirection { key, referenced_var }) => {
            assert_eq!(key, "a");
            assert_eq!(referenced_var, "FOO");
        },
        other => panic!("expected unresolved indirection, got {:?}", other),
    }
}

#[test]
fn literal_value_passes_through() {
    let env = Env::new();
    let resolved = pairs(resolve_values(r#"{"a":"literal"}"#, &env));
    assert_eq!(resolved, vec![("a".to_string(), "literal".to_string())]);
}

#[test]
fn unanchored_marker_passes_through() {
    let mut env = Env::new();
    set(&mut env, "FOO", "bar");
    let resolved = pairs(resolve_values(r#"{"a":"{{FOO}} extra"}"#, &env));
    assert_eq!(resolved, vec![("a".to_string(), "{{FOO}} extra".to_string())]);
}

#[test]
fn marker_name_accepts_digits_and_underscore() {
    let mut env = Env::new();
    set(&mut env, "MY_VAR2", "v");
    let resolved = pairs(resolve_values(r#"{"a":"{{MY_VAR2}}"}"#, &env));
    assert_eq!(resolved, vec![("a".to_string(), "v".to_string())]);
}

#[test]
fn marker_with_non_word_characters_is_literal() {
    let env = Env::new();
    let resolved = pairs(resolve_values(r#"{"a":"{{FOO-BAR}}"}"#, &env));
    assert_eq!(resolved, vec![("a".to_string(), "{{FOO-BAR}}".to_string())]);
}

#[test]
fn empty_braces_are_literal() {
    let env = Env::new();
    let resolved = pairs(resolve_values(r#"{"a":"{{}}"}"#, &env));
    assert_eq!(resolved, vec![("a".to_string(), "{{}}".to_string())]);
}

#[test]
fn empty_object_resolves_to_empty_map() {
    let env = Env::new();
    assert!(pairs(resolve_values("{}", &env)).is_empty());
}

#[test]
fn key_set_and_order_are_preserved() {
    let mut env = Env::new();
    set(&mut env, "FOO", "bar");
    let resolved = pairs(resolve_values(r#"{"b":"2","a":"{{FOO}}","c":"3"}"#, &env));
    assert_eq!(
        resolved,
        vec![
            ("b".to_string(), "2".to_string()),
            ("a".to_string(), "bar".to_string()),
            ("c".to_string(), "3".to_string()),
        ]
    );
}

#[test]
fn first_unresolved_marker_is_reported() {
    let mut env = Env::new();
    set(&mut env, "FOO", "bar");
    match resolve_values(r#"{"a":"{{FOO}}","b":"{{MISSING}}","c":"{{ALSO_MISSING}}"}"#, &env) {
        Err(ConfigError::UnresolvedIndirection { key, referenced_var }) => {
            assert_eq!(key, "b");
            assert_eq!(referenced_var, "MISSING");
        },
        other => panic!("expected unresolved indirection, got {:?}", other),
    }
}

#[test]
fn resolved_value_is_not_rescanned() {
    let mut env = Env::new();
    set(&mut env, "FOO", "{{BAR}}");
    set(&mut env, "BAR", "z");
    let resolved = pairs(resolve_values(r#"{"a":"{{FOO}}"}"#, &env));
    assert_eq!(resolved, vec![("a".to_string(), "{{BAR}}".to_string())]);
}

#[test]
fn first_entry_of_a_name_wins() {
    let mut env = Env::new();
    set(&mut env, "FOO", "first");
    set(&mut env, "FOO", "second");
    assert_eq!(env.get("FOO"), Some("first".to_string()));
}

#[test]
fn invalid_json_is_malformed() {
    let env = Env::new();
    assert_eq!(resolve_values("not json", &env), Err(ConfigError::MalformedValues));
}

#[test]
fn non_object_json_is_malformed() {
    let env = Env::new();
    assert_eq!(resolve_values(r#"["a"]"#, &env), Err(ConfigError::MalformedValues));
}

#[test]
fn non_string_value_is_malformed() {
    let env = Env::new();
    assert_eq!(resolve_values(r#"{"a":1}"#, &env), Err(ConfigError::MalformedValues));
}
