use binarylane_controller::crd::{KeySelector, TemplateVariable, TemplateVariableSource};
use binarylane_controller::resolve::{
    config_map_value, secret_value, source_lookup, ResolveStep, Resolution, SourceKind,
    SourceLookup,
};
use binarylane_controller::string_map::StringMap;
use binarylane_controller::user_data::{
    render, validate_variables, AsgVars, BuiltinVars, NodeVars, RenderError,
};

fn builtins() -> BuiltinVars {
    BuiltinVars {
        node: NodeVars {
            name: "n-1".into(),
            hostname: "n-1.example".into(),
            index: 3,
            password: "pw".into(),
        },
        asg: AsgVars {
            name: "grp".into(),
            size: "std-1".into(),
            region: "mel".into(),
            image: "debian".into(),
            name_prefix: "k-".into(),
            vcpus: None,
            memory_mb: Some(1024),
            disk_gb: Some(20),
        },
    }
}

fn literal(name: &str, value: &str) -> TemplateVariable {
    TemplateVariable { name: name.into(), value: Some(value.into()), value_from: None }
}

fn from_secret(name: &str, secret: &str, ns: Option<&str>, key: &str) -> TemplateVariable {
    TemplateVariable {
        name: name.into(),
        value: None,
        value_from: Some(TemplateVariableSource {
            secret_key_ref: Some(KeySelector {
                name: secret.into(),
                namespace: ns.map(|s| s.to_string()),
                key: key.into(),
            }),
            config_map_key_ref: None,
        }),
    }
}

fn from_config_map(name: &str, cm: &str, key: &str) -> TemplateVariable {
    TemplateVariable {
        name: name.into(),
        value: None,
        value_from: Some(TemplateVariableSource {
            secret_key_ref: None,
            config_map_key_ref: Some(KeySelector {
                name: cm.into(),
                namespace: None,
                key: key.into(),
            }),
        }),
    }
}

fn lookup(kind: SourceKind) -> SourceLookup {
    SourceLookup { kind, namespace: "ns".into(), name: "obj".into(), key: "k".into() }
}

#[test]
fn render_all_builtin_fields() {
    let out = render(
        "{{ node.hostname }} {{ node.index + 1 }} {{ node.password }} {{ asg.name }} \
         {{ asg.size }} {{ asg.image }} {{ asg.namePrefix }} {{ asg.diskGb }}",
        &builtins(),
        &StringMap::new(),
    )
    .unwrap();
    assert_eq!(out, "n-1.example 4 pw grp std-1 debian k- 20");
}

#[test]
fn render_absent_override_is_none() {
    let out = render("{{ asg.vcpus is none }}", &builtins(), &StringMap::new()).unwrap();
    assert_eq!(out, "True");
}

#[test]
fn render_refuses_asg_before_node() {
    let mut vars = StringMap::new();
    vars.insert("node".into(), "x".into());
    vars.insert("asg".into(), "y".into());
    match render("hello", &builtins(), &vars) {
        Err(RenderError::ReservedName(n)) => assert_eq!(n, "asg"),
        other => panic!("unexpected {:?}", other),
    }
}

#[test]
fn validate_reports_first_fault() {
    let vars = vec![
        literal("ok", "1"),
        TemplateVariable { name: "bad".into(), value: None, value_from: None },
        literal("asg", "x"),
    ];
    match validate_variables(&vars) {
        Err(RenderError::MissingSource(n)) => assert_eq!(n, "bad"),
        other => panic!("unexpected {:?}", other),
    }
}

#[test]
fn lookup_uses_default_namespace() {
    let v = from_secret("t", "join", None, "token");
    let l = source_lookup("blc-system", v.value_from.as_ref().unwrap());
    assert_eq!(l.kind, SourceKind::Secret);
    assert_eq!(l.namespace, "blc-system");
    assert_eq!(l.name, "join");
    assert_eq!(l.key, "token");
    let v = from_secret("t", "join", Some("other"), "token");
    let l = source_lookup("blc-system", v.value_from.as_ref().unwrap());
    assert_eq!(l.namespace, "other");
    let v = from_config_map("c", "cfg", "key");
    let l = source_lookup("blc-system", v.value_from.as_ref().unwrap());
    assert_eq!(l.kind, SourceKind::ConfigMap);
    assert_eq!(l.name, "cfg");
}

#[test]
fn secret_value_outcomes() {
    let l = lookup(SourceKind::Secret);
    assert!(matches!(secret_value(&l, Err("down".into())), Err(RenderError::Kube(m)) if m == "down"));
    assert!(matches!(secret_value(&l, Ok(None)), Err(RenderError::SecretNotFound { .. })));
    assert!(matches!(secret_value(&l, Ok(Some(None))), Err(RenderError::SecretMissingKey { .. })));
    let data = vec![("other".to_string(), b"v".to_vec())];
    assert!(matches!(
        secret_value(&l, Ok(Some(Some(data)))),
        Err(RenderError::SecretMissingKey { .. })
    ));
    let data = vec![("k".to_string(), vec![0xff, 0xfe])];
    assert!(matches!(
        secret_value(&l, Ok(Some(Some(data)))),
        Err(RenderError::SecretNotUtf8 { .. })
    ));
    let data = vec![("a".to_string(), b"x".to_vec()), ("k".to_string(), b"s3cret".to_vec())];
    assert_eq!(secret_value(&l, Ok(Some(Some(data)))).unwrap(), "s3cret");
}

#[test]
fn config_map_value_outcomes() {
    let l = lookup(SourceKind::ConfigMap);
    assert!(matches!(config_map_value(&l, Err("x".into())), Err(RenderError::Kube(_))));
    match config_map_value(&l, Ok(None)) {
        Err(RenderError::ConfigMapNotFound { ns, name }) => {
            assert_eq!((ns.as_str(), name.as_str()), ("ns", "obj"))
        }
        other => panic!("unexpected {:?}", other),
    }
    assert!(matches!(
        config_map_value(&l, Ok(Some(None))),
        Err(RenderError::ConfigMapMissingKey { .. })
    ));
    let data = vec![("k".to_string(), "value".to_string())];
    assert_eq!(config_map_value(&l, Ok(Some(Some(data)))).unwrap(), "value");
}

#[test]
fn resolution_refuses_faulty_variables() {
    let vars = vec![from_secret("node", "s", None, "k")];
    assert!(matches!(Resolution::start("ns", vars), Err(RenderError::ReservedName(_))));
}

#[test]
fn resolution_reads_only_value_from_variables() {
    let vars = vec![
        literal("a", "1"),
        from_secret("b", "sec", None, "key"),
        literal("c", "3"),
        from_config_map("d", "cm", "dk"),
        literal("a", "last"),
    ];
    let mut r = Resolution::start("def", vars).unwrap();
    match r.next_step() {
        ResolveStep::Fetch(l) => {
            assert_eq!(l.kind, SourceKind::Secret);
            assert_eq!((l.namespace.as_str(), l.name.as_str(), l.key.as_str()), ("def", "sec", "key"));
        }
        other => panic!("unexpected {:?}", other),
    }
    r.supply(Ok("two".into()));
    match r.next_step() {
        ResolveStep::Fetch(l) => assert_eq!(l.kind, SourceKind::ConfigMap),
        other => panic!("unexpected {:?}", other),
    }
    r.supply(Ok("four".into()));
    match r.next_step() {
        ResolveStep::Finished(m) => {
            assert_eq!(m.len(), 4);
            assert_eq!(m.get(&"a".to_string()), Some(&"last".to_string()));
            assert_eq!(m.get(&"b".to_string()), Some(&"two".to_string()));
            assert_eq!(m.get(&"c".to_string()), Some(&"3".to_string()));
            assert_eq!(m.get(&"d".to_string()), Some(&"four".to_string()));
        }
        other => panic!("unexpected {:?}", other),
    }
}

#[test]
fn resolution_of_no_variables_is_empty() {
    let mut r = Resolution::start("def", Vec::new()).unwrap();
    match r.next_step() {
        ResolveStep::Finished(m) => assert_eq!(m.len(), 0),
        other => panic!("unexpected {:?}", other),
    }
}

#[test]
fn resolved_values_render() {
    let mut r = Resolution::start("def", vec![literal("joinToken", "abc")]).unwrap();
    let vars = match r.next_step() {
        ResolveStep::Finished(m) => m,
        other => panic!("unexpected {:?}", other),
    };
    let out = render("--token {{ joinToken }} --node-name {{ node.name }}", &builtins(), &vars).unwrap();
    assert_eq!(out, "--token abc --node-name n-1");
}

#[test]
fn resolution_stops_at_failed_read() {
    let vars = vec![from_secret("a", "s1", None, "k"), from_secret("b", "s2", None, "k")];
    let mut r = Resolution::start("def", vars).unwrap();
    assert!(matches!(r.next_step(), ResolveStep::Fetch(_)));
    r.supply(Err(RenderError::SecretNotFound { ns: "def".into(), name: "s1".into() }));
    match r.next_step() {
        ResolveStep::Failed(RenderError::SecretNotFound { ns, name }) => {
            assert_eq!((ns.as_str(), name.as_str()), ("def", "s1"))
        }
        other => panic!("unexpected {:?}", other),
    }
    // The resolution stays over.
    assert!(matches!(r.next_step(), ResolveStep::Failed(_)));
}

#[test]
fn builtin_scopes_keep_declaration_order() {
    let out = render(
        "{% for k in asg %}{{ k }},{% endfor %}|{% for k in node %}{{ k }},{% endfor %}",
        &builtins(),
        &StringMap::new(),
    )
    .unwrap();
    assert_eq!(
        out,
        "name,size,region,image,namePrefix,vcpus,memoryMb,diskGb,|name,hostname,index,password,"
    );
}
