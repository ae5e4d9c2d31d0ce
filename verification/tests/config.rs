use cube_native::config::{
    dynamic_attr_kind, static_attr_kind, AttrTypeProbe, ConfigAttrError, CubeConfigPy,
    CubeConfigPyVariableValue, DynamicAttr, DynamicAttrKind, DynamicFunction, StaticAttr, StaticAttrKind,
};
use cube_native::CubeErrorCauseType;

type Config = CubeConfigPy<&'static str, f64>;

fn probe(is_none: bool, is_string: bool, is_bool: bool, is_float: bool, is_int: bool, is_function: bool) -> AttrTypeProbe {
    AttrTypeProbe { is_none, is_string, is_bool, is_float, is_int, is_function }
}

fn sorted(mut entries: Vec<(String, CubeConfigPyVariableValue<f64>)>) -> Vec<(String, CubeConfigPyVariableValue<f64>)> {
    entries.sort_by(|a, b| a.0.cmp(&b.0));
    entries
}

#[test]
fn new_config_is_empty() {
    let mut config = Config::new();
    assert!(config.get_query_rewrite().is_err());
    assert!(config.get_check_auth().is_err());
    assert!(config.take_dynamic_properties().is_empty());
}

#[test]
fn missing_functions_give_internal_errors() {
    let config = Config::new();
    let err = config.get_query_rewrite().unwrap_err();
    assert_eq!(err.message, "Unable to reference query_rewrite, it's empty");
    assert_eq!(err.cause, CubeErrorCauseType::Internal);
    let err = config.get_check_auth().unwrap_err();
    assert_eq!(err.message, "Unable to reference check_auth, it's empty");
    assert_eq!(err.cause, CubeErrorCauseType::Internal);
}

#[test]
fn static_call_attr_reads_function_none_and_errors() {
    let mut config = Config::new();
    assert_eq!(config.static_call_attr::<u8>(StaticAttr::Function("f"), "query_rewrite"), Ok(Some("f")));
    assert_eq!(config.static_call_attr::<u8>(StaticAttr::NoneValue, "query_rewrite"), Ok(None));
    assert_eq!(config.static_call_attr::<u8>(StaticAttr::Raised(7), "query_rewrite"), Err(ConfigAttrError::Raised(7)));
    assert_eq!(
        config.static_call_attr::<u8>(StaticAttr::Other { type_label: "<class 'int'>".to_string() }, "check_auth"),
        Err(ConfigAttrError::TypeError(
            "Unsupported configuration type: <class 'int'> for key: check_auth, must be a lambda".to_string()
        ))
    );
    assert!(config.get_query_rewrite().is_err());
}

// Runs the reading of the functions as the bindings do: one step per function,
// reading the next attribute only while the previous one was accepted.
fn apply_all(
    config: &mut Config,
    mut read: impl FnMut(&str) -> StaticAttr<&'static str, u8>,
) -> (Result<(), ConfigAttrError<u8>>, Vec<String>) {
    let mut read_keys = Vec::new();
    let mut next = Some(DynamicFunction::first());
    while let Some(function) = next {
        read_keys.push(function.key().to_string());
        match config.apply_dynamic_functions(function, read(function.key())) {
            Ok(n) => next = n,
            Err(e) => return (Err(e), read_keys),
        }
    }
    (Ok(()), read_keys)
}

#[test]
fn apply_dynamic_functions_stores_both() {
    let mut config = Config::new();
    let (res, keys) = apply_all(&mut config, |key| match key {
        "query_rewrite" => StaticAttr::Function("rewrite"),
        _ => StaticAttr::Function("auth"),
    });
    assert_eq!(res, Ok(()));
    assert_eq!(keys, vec!["query_rewrite".to_string(), "check_auth".to_string()]);
    assert_eq!(*config.get_query_rewrite().unwrap(), "rewrite");
    assert_eq!(*config.get_check_auth().unwrap(), "auth");
    let (res, _) = apply_all(&mut config, |key| match key {
        "query_rewrite" => StaticAttr::NoneValue,
        _ => StaticAttr::Function("auth2"),
    });
    assert_eq!(res, Ok(()));
    assert!(config.get_query_rewrite().is_err());
    assert_eq!(*config.get_check_auth().unwrap(), "auth2");
}

#[test]
fn apply_dynamic_functions_steps_in_order() {
    let mut config = Config::new();
    assert_eq!(DynamicFunction::first(), DynamicFunction::QueryRewrite);
    assert_eq!(
        config.apply_dynamic_functions::<u8>(DynamicFunction::QueryRewrite, StaticAttr::Function("r")),
        Ok(Some(DynamicFunction::CheckAuth))
    );
    assert_eq!(
        config.apply_dynamic_functions::<u8>(DynamicFunction::CheckAuth, StaticAttr::NoneValue),
        Ok(None)
    );
    assert_eq!(*config.get_query_rewrite().unwrap(), "r");
    assert!(config.get_check_auth().is_err());
}

#[test]
fn apply_dynamic_functions_stops_at_query_rewrite_error() {
    let mut config = Config::new();
    apply_all(&mut config, |key| match key {
        "query_rewrite" => StaticAttr::Function("old_rewrite"),
        _ => StaticAttr::Function("old_auth"),
    })
    .0
    .unwrap();
    let (res, keys) = apply_all(&mut config, |key| match key {
        "query_rewrite" => StaticAttr::Other { type_label: "<class 'str'>".to_string() },
        _ => StaticAttr::Function("new_auth"),
    });
    assert_eq!(
        res,
        Err(ConfigAttrError::TypeError(
            "Unsupported configuration type: <class 'str'> for key: query_rewrite, must be a lambda".to_string()
        ))
    );
    // check_auth is never read
    assert_eq!(keys, vec!["query_rewrite".to_string()]);
    assert_eq!(*config.get_query_rewrite().unwrap(), "old_rewrite");
    assert_eq!(*config.get_check_auth().unwrap(), "old_auth");
}

#[test]
fn apply_dynamic_functions_keeps_query_rewrite_when_check_auth_fails() {
    let mut config = Config::new();
    apply_all(&mut config, |key| match key {
        "query_rewrite" => StaticAttr::NoneValue,
        _ => StaticAttr::Function("old_auth"),
    })
    .0
    .unwrap();
    let (res, keys) = apply_all(&mut config, |key| match key {
        "query_rewrite" => StaticAttr::Function("new_rewrite"),
        _ => StaticAttr::Raised(3),
    });
    assert_eq!(res, Err(ConfigAttrError::Raised(3)));
    assert_eq!(keys, vec!["query_rewrite".to_string(), "check_auth".to_string()]);
    assert_eq!(*config.get_query_rewrite().unwrap(), "new_rewrite");
    assert_eq!(*config.get_check_auth().unwrap(), "old_auth");
}

#[test]
fn dynamic_from_attr_stores_under_camel_case_key() {
    let mut config = Config::new();
    config.dynamic_from_attr::<u8>(DynamicAttr::Value(CubeConfigPyVariableValue::String("x".to_string())), "schema_path").unwrap();
    config.dynamic_from_attr::<u8>(DynamicAttr::Value(CubeConfigPyVariableValue::Bool(true)), "dev_mode").unwrap();
    config.dynamic_from_attr::<u8>(DynamicAttr::Value(CubeConfigPyVariableValue::Number(1.5)), "cache_ttl_seconds").unwrap();
    let entries = sorted(config.take_dynamic_properties());
    assert_eq!(
        entries,
        vec![
            ("cacheTtlSeconds".to_string(), CubeConfigPyVariableValue::Number(1.5)),
            ("devMode".to_string(), CubeConfigPyVariableValue::Bool(true)),
            ("schemaPath".to_string(), CubeConfigPyVariableValue::String("x".to_string())),
        ]
    );
    assert!(config.take_dynamic_properties().is_empty());
}

#[test]
fn dynamic_from_attr_none_changes_nothing() {
    let mut config = Config::new();
    assert_eq!(config.dynamic_from_attr::<u8>(DynamicAttr::NoneValue, "web_sockets"), Ok(()));
    assert!(config.take_dynamic_properties().is_empty());
}

#[test]
fn dynamic_from_attr_errors_change_nothing() {
    let mut config = Config::new();
    config.dynamic_from_attr::<u8>(DynamicAttr::Value(CubeConfigPyVariableValue::Bool(false)), "dev_mode").unwrap();
    assert_eq!(config.dynamic_from_attr::<u8>(DynamicAttr::Raised(9), "dev_mode"), Err(ConfigAttrError::Raised(9)));
    assert_eq!(
        config.dynamic_from_attr::<u8>(DynamicAttr::Other { type_label: "<class 'list'>".to_string() }, "dev_mode"),
        Err(ConfigAttrError::TypeError("Unsupported configuration type: <class 'list'> for key: dev_mode".to_string()))
    );
    assert_eq!(
        config.take_dynamic_properties(),
        vec![("devMode".to_string(), CubeConfigPyVariableValue::Bool(false))]
    );
}

#[test]
fn dynamic_from_attr_last_write_wins() {
    let mut config = Config::new();
    config.dynamic_from_attr::<u8>(DynamicAttr::Value(CubeConfigPyVariableValue::Number(1.0)), "pg_port").unwrap();
    config.dynamic_from_attr::<u8>(DynamicAttr::Value(CubeConfigPyVariableValue::Number(2.0)), "pgPort").unwrap();
    assert_eq!(
        config.take_dynamic_properties(),
        vec![("pgPort".to_string(), CubeConfigPyVariableValue::Number(2.0))]
    );
}

#[test]
fn dynamic_from_attr_twice_is_same_as_once() {
    let mut config = Config::new();
    config.dynamic_from_attr::<u8>(DynamicAttr::Value(CubeConfigPyVariableValue::Bool(true)), "telemetry").unwrap();
    config.dynamic_from_attr::<u8>(DynamicAttr::Value(CubeConfigPyVariableValue::Bool(true)), "telemetry").unwrap();
    assert_eq!(
        config.take_dynamic_properties(),
        vec![("telemetry".to_string(), CubeConfigPyVariableValue::Bool(true))]
    );
}

#[test]
fn dynamic_updates_commute_for_distinct_keys() {
    let mut a = Config::new();
    a.dynamic_from_attr::<u8>(DynamicAttr::Value(CubeConfigPyVariableValue::Bool(true)), "dev_mode").unwrap();
    a.dynamic_from_attr::<u8>(DynamicAttr::Value(CubeConfigPyVariableValue::Number(3.0)), "pg_port").unwrap();
    let mut b = Config::new();
    b.dynamic_from_attr::<u8>(DynamicAttr::Value(CubeConfigPyVariableValue::Number(3.0)), "pg_port").unwrap();
    b.dynamic_from_attr::<u8>(DynamicAttr::Value(CubeConfigPyVariableValue::Bool(true)), "dev_mode").unwrap();
    assert_eq!(sorted(a.take_dynamic_properties()), sorted(b.take_dynamic_properties()));
}

#[test]
fn insert_dynamic_property_replaces() {
    let mut config = Config::new();
    config.insert_dynamic_property("a".to_string(), CubeConfigPyVariableValue::Bool(true));
    config.insert_dynamic_property("b".to_string(), CubeConfigPyVariableValue::Bool(false));
    config.insert_dynamic_property("a".to_string(), CubeConfigPyVariableValue::Number(4.0));
    assert_eq!(
        config.take_dynamic_properties(),
        vec![
            ("a".to_string(), CubeConfigPyVariableValue::Number(4.0)),
            ("b".to_string(), CubeConfigPyVariableValue::Bool(false)),
        ]
    );
}

#[test]
fn dynamic_attr_kind_checks_in_order() {
    assert_eq!(dynamic_attr_kind(&probe(true, true, true, true, true, true)), DynamicAttrKind::NoneValue);
    assert_eq!(dynamic_attr_kind(&probe(false, true, false, false, false, false)), DynamicAttrKind::String);
    // a Python bool is also an int: it is read as a bool
    assert_eq!(dynamic_attr_kind(&probe(false, false, true, false, true, false)), DynamicAttrKind::Bool);
    assert_eq!(dynamic_attr_kind(&probe(false, false, false, true, false, false)), DynamicAttrKind::Float);
    assert_eq!(dynamic_attr_kind(&probe(false, false, false, false, true, false)), DynamicAttrKind::Int);
    assert_eq!(dynamic_attr_kind(&probe(false, false, false, false, false, true)), DynamicAttrKind::Unsupported);
}

#[test]
fn static_attr_kind_checks_none_first() {
    assert_eq!(static_attr_kind(&probe(true, false, false, false, false, true)), StaticAttrKind::NoneValue);
    assert_eq!(static_attr_kind(&probe(false, false, false, false, false, true)), StaticAttrKind::Function);
    assert_eq!(static_attr_kind(&probe(false, true, false, false, false, false)), StaticAttrKind::Unsupported);
}
