use binarylane_controller::crd::{KeySelector, TemplateVariable, TemplateVariableSource};
use binarylane_controller::string_map::StringMap;
use binarylane_controller::user_data::{
    render, validate_variables, AsgVars, BuiltinVars, NodeVars, RenderError,
};

fn sample_builtins() -> BuiltinVars {
    BuiltinVars {
        node: NodeVars {
            name: "worker-1".into(),
            hostname: "worker-1".into(),
            index: 0,
            password: "supersecret".into(),
        },
        asg: AsgVars {
            name: "workers".into(),
            size: "std-2".into(),
            region: "syd".into(),
            image: "ubuntu-22.04".into(),
            name_prefix: "".into(),
            vcpus: Some(2),
            memory_mb: Some(4096),
            disk_gb: Some(40),
        },
    }
}

#[test]
fn render_builtins() {
    let out = render(
        "name={{ node.name }} region={{ asg.region }} mem={{ asg.memoryMb }}",
        &sample_builtins(),
        &StringMap::new(),
    )
    .unwrap();
    assert_eq!(out, "name=worker-1 region=syd mem=4096");
}

#[test]
fn render_user_var() {
    let mut vars = StringMap::new();
    vars.insert("joinToken".to_string(), "abc.def".to_string());
    let out = render(
        "{{ joinToken }} on {{ node.name }}",
        &sample_builtins(),
        &vars,
    )
    .unwrap();
    assert_eq!(out, "abc.def on worker-1");
}

#[test]
fn undefined_is_strict() {
    let err = render("{{ mystery }}", &sample_builtins(), &StringMap::new()).unwrap_err();
    assert!(matches!(err, RenderError::Template(_)));
}

#[test]
fn user_var_cannot_shadow_scopes() {
    let mut vars = StringMap::new();
    vars.insert("node".to_string(), "bad".to_string());
    let err = render("{{ node }}", &sample_builtins(), &vars).unwrap_err();
    assert!(matches!(err, RenderError::ReservedName(_)));
}

#[test]
fn syntax_error_surfaces() {
    let err = render("{{ unclosed", &sample_builtins(), &StringMap::new()).unwrap_err();
    assert!(matches!(err, RenderError::Template(_)));
}

#[test]
fn validate_literal_ok() {
    let vars = vec![TemplateVariable {
        name: "foo".into(),
        value: Some("bar".into()),
        value_from: None,
    }];
    validate_variables(&vars).unwrap();
}

#[test]
fn validate_reserved_name() {
    let vars = vec![TemplateVariable {
        name: "node".into(),
        value: Some("x".into()),
        value_from: None,
    }];
    assert!(matches!(
        validate_variables(&vars),
        Err(RenderError::ReservedName(_))
    ));
}

#[test]
fn validate_missing_source() {
    let vars = vec![TemplateVariable {
        name: "foo".into(),
        value: None,
        value_from: None,
    }];
    assert!(matches!(
        validate_variables(&vars),
        Err(RenderError::MissingSource(_))
    ));
}

#[test]
fn validate_ambiguous_source() {
    let vars = vec![TemplateVariable {
        name: "joinToken".into(),
        value: Some("lit".into()),
        value_from: Some(TemplateVariableSource {
            secret_key_ref: Some(KeySelector {
                name: "s".into(),
                namespace: None,
                key: "k".into(),
            }),
            config_map_key_ref: None,
        }),
    }];
    assert!(matches!(
        validate_variables(&vars),
        Err(RenderError::AmbiguousSource(_))
    ));
}

#[test]
fn validate_ambiguous_value_from() {
    let vars = vec![TemplateVariable {
        name: "foo".into(),
        value: None,
        value_from: Some(TemplateVariableSource {
            secret_key_ref: Some(KeySelector {
                name: "s".into(),
                namespace: None,
                key: "k".into(),
            }),
            config_map_key_ref: Some(KeySelector {
                name: "c".into(),
                namespace: None,
                key: "k".into(),
            }),
        }),
    }];
    assert!(matches!(
        validate_variables(&vars),
        Err(RenderError::AmbiguousValueFrom(_))
    ));
}

#[test]
fn validate_empty_value_from() {
    let vars = vec![TemplateVariable {
        name: "foo".into(),
        value: None,
        value_from: Some(TemplateVariableSource::default()),
    }];
    assert!(matches!(
        validate_variables(&vars),
        Err(RenderError::EmptyValueFrom(_))
    ));
}
