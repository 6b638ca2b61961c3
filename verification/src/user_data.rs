//! Cloud-init user-data templating: checking the declared template
//! variables, and rendering the template over the built-in `node` and `asg`
//! scopes and the resolved user variables.
use vstd::prelude::*;

use minijinja::Value;

use crate::crd::{TemplateVariable, TemplateVariableSource};
use crate::string_map::{
    keys_sorted, lemma_pairs_to_map_dom, lemma_pairs_to_map_last, lemma_sorted_distinct, StringMap,
};
use crate::template::{
    binds_once, map_binds, ordered_map_binds,
    entries_view, int_value, jinja_int, jinja_map, jinja_optional_int, jinja_ordered_map,
    jinja_render, jinja_text, map_value, optional_int_value, ordered_map_value, render_with,
    static_entries_view, text_value,
};

verus! {

/// Why user-data could not be produced.
#[derive(Debug)]
pub enum RenderError {
    ReservedName(String),
    MissingSource(String),
    AmbiguousSource(String),
    AmbiguousValueFrom(String),
    EmptyValueFrom(String),
    SecretNotFound { ns: String, name: String },
    SecretMissingKey { ns: String, name: String, key: String },
    SecretNotUtf8 { ns: String, name: String, key: String },
    ConfigMapNotFound { ns: String, name: String },
    ConfigMapMissingKey { ns: String, name: String, key: String },
    /// A Kubernetes API call failed; holds the API error's message.
    Kube(String),
    Template(String),
}

/// The abstract value of a [`RenderError`].
pub enum RenderErrorView {
    ReservedName(Seq<char>),
    MissingSource(Seq<char>),
    AmbiguousSource(Seq<char>),
    AmbiguousValueFrom(Seq<char>),
    EmptyValueFrom(Seq<char>),
    SecretNotFound { ns: Seq<char>, name: Seq<char> },
    SecretMissingKey { ns: Seq<char>, name: Seq<char>, key: Seq<char> },
    SecretNotUtf8 { ns: Seq<char>, name: Seq<char>, key: Seq<char> },
    ConfigMapNotFound { ns: Seq<char>, name: Seq<char> },
    ConfigMapMissingKey { ns: Seq<char>, name: Seq<char>, key: Seq<char> },
    Kube(Seq<char>),
    Template(Seq<char>),
}

impl View for RenderError {
    type V = RenderErrorView;

    open spec fn view(&self) -> RenderErrorView {
        match self {
            RenderError::ReservedName(n) => RenderErrorView::ReservedName(n@),
            RenderError::MissingSource(n) => RenderErrorView::MissingSource(n@),
            RenderError::AmbiguousSource(n) => RenderErrorView::AmbiguousSource(n@),
            RenderError::AmbiguousValueFrom(n) => RenderErrorView::AmbiguousValueFrom(n@),
            RenderError::EmptyValueFrom(n) => RenderErrorView::EmptyValueFrom(n@),
            RenderError::SecretNotFound { ns, name } => RenderErrorView::SecretNotFound {
                ns: ns@,
                name: name@,
            },
            RenderError::SecretMissingKey { ns, name, key } => RenderErrorView::SecretMissingKey {
                ns: ns@,
                name: name@,
                key: key@,
            },
            RenderError::SecretNotUtf8 { ns, name, key } => RenderErrorView::SecretNotUtf8 {
                ns: ns@,
                name: name@,
                key: key@,
            },
            RenderError::ConfigMapNotFound { ns, name } => RenderErrorView::ConfigMapNotFound {
                ns: ns@,
                name: name@,
            },
            RenderError::ConfigMapMissingKey { ns, name, key } =>
                RenderErrorView::ConfigMapMissingKey { ns: ns@, name: name@, key: key@ },
            RenderError::Kube(m) => RenderErrorView::Kube(m@),
            RenderError::Template(m) => RenderErrorView::Template(m@),
        }
    }
}

/// The human-readable message of an error.
pub open spec fn error_message(e: RenderErrorView) -> Seq<char> {
    match e {
        RenderErrorView::ReservedName(n) => "template variable '"@ + n
            + "' collides with built-in scope (node/asg)"@,
        RenderErrorView::MissingSource(n) => "template variable '"@ + n
            + "' has neither value nor valueFrom"@,
        RenderErrorView::AmbiguousSource(n) => "template variable '"@ + n
            + "' sets both value and valueFrom"@,
        RenderErrorView::AmbiguousValueFrom(n) => "template variable '"@ + n
            + "' valueFrom sets both secretKeyRef and configMapKeyRef"@,
        RenderErrorView::EmptyValueFrom(n) => "template variable '"@ + n
            + "' valueFrom sets neither secretKeyRef nor configMapKeyRef"@,
        RenderErrorView::SecretNotFound { ns, name } => "secret "@ + ns + "/"@ + name
            + " not found"@,
        RenderErrorView::SecretMissingKey { ns, name, key } => "secret "@ + ns + "/"@ + name
            + " missing key '"@ + key + "'"@,
        RenderErrorView::SecretNotUtf8 { ns, name, key } => "secret "@ + ns + "/"@ + name
            + " key '"@ + key + "' is not valid UTF-8"@,
        RenderErrorView::ConfigMapNotFound { ns, name } => "configmap "@ + ns + "/"@ + name
            + " not found"@,
        RenderErrorView::ConfigMapMissingKey { ns, name, key } => "configmap "@ + ns + "/"@
            + name + " missing key '"@ + key + "'"@,
        RenderErrorView::Kube(m) => "kube API error: "@ + m,
        RenderErrorView::Template(m) => "template error: "@ + m,
    }
}

fn quoted_name(prefix: &str, n: &String, suffix: &str) -> (s: String)
    ensures
        s@ == prefix@ + n@ + suffix@,
{
    String::from_str(prefix).concat(n.as_str()).concat(suffix)
}

fn object_path(prefix: &str, ns: &String, name: &String) -> (s: String)
    ensures
        s@ == prefix@ + ns@ + "/"@ + name@,
{
    String::from_str(prefix).concat(ns.as_str()).concat("/").concat(name.as_str())
}

impl RenderError {
    /// The human-readable message of this error, as [`error_message`] states.
    pub fn message(&self) -> (s: String)
        ensures
            s@ == error_message(self@),
    {
        match self {
            RenderError::ReservedName(n) => quoted_name(
                "template variable '",
                n,
                "' collides with built-in scope (node/asg)",
            ),
            RenderError::MissingSource(n) => quoted_name(
                "template variable '",
                n,
                "' has neither value nor valueFrom",
            ),
            RenderError::AmbiguousSource(n) => quoted_name(
                "template variable '",
                n,
                "' sets both value and valueFrom",
            ),
            RenderError::AmbiguousValueFrom(n) => quoted_name(
                "template variable '",
                n,
                "' valueFrom sets both secretKeyRef and configMapKeyRef",
            ),
            RenderError::EmptyValueFrom(n) => quoted_name(
                "template variable '",
                n,
                "' valueFrom sets neither secretKeyRef nor configMapKeyRef",
            ),
            RenderError::SecretNotFound { ns, name } => object_path("secret ", ns, name).concat(
                " not found",
            ),
            RenderError::SecretMissingKey { ns, name, key } => object_path(
                "secret ",
                ns,
                name,
            ).concat(" missing key '").concat(key.as_str()).concat("'"),
            RenderError::SecretNotUtf8 { ns, name, key } => object_path(
                "secret ",
                ns,
                name,
            ).concat(" key '").concat(key.as_str()).concat("' is not valid UTF-8"),
            RenderError::ConfigMapNotFound { ns, name } => object_path(
                "configmap ",
                ns,
                name,
            ).concat(" not found"),
            RenderError::ConfigMapMissingKey { ns, name, key } => object_path(
                "configmap ",
                ns,
                name,
            ).concat(" missing key '").concat(key.as_str()).concat("'"),
            RenderError::Kube(m) => String::from_str("kube API error: ").concat(m.as_str()),
            RenderError::Template(m) => String::from_str("template error: ").concat(m.as_str()),
        }
    }
}

impl Clone for RenderError {
    fn clone(&self) -> (e: RenderError)
        ensures
            e@ == self@,
    {
        match self {
            RenderError::ReservedName(n) => RenderError::ReservedName(n.clone()),
            RenderError::MissingSource(n) => RenderError::MissingSource(n.clone()),
            RenderError::AmbiguousSource(n) => RenderError::AmbiguousSource(n.clone()),
            RenderError::AmbiguousValueFrom(n) => RenderError::AmbiguousValueFrom(n.clone()),
            RenderError::EmptyValueFrom(n) => RenderError::EmptyValueFrom(n.clone()),
            RenderError::SecretNotFound { ns, name } => RenderError::SecretNotFound {
                ns: ns.clone(),
                name: name.clone(),
            },
            RenderError::SecretMissingKey { ns, name, key } => RenderError::SecretMissingKey {
                ns: ns.clone(),
                name: name.clone(),
                key: key.clone(),
            },
            RenderError::SecretNotUtf8 { ns, name, key } => RenderError::SecretNotUtf8 {
                ns: ns.clone(),
                name: name.clone(),
                key: key.clone(),
            },
            RenderError::ConfigMapNotFound { ns, name } => RenderError::ConfigMapNotFound {
                ns: ns.clone(),
                name: name.clone(),
            },
            RenderError::ConfigMapMissingKey { ns, name, key } =>
                RenderError::ConfigMapMissingKey {
                    ns: ns.clone(),
                    name: name.clone(),
                    key: key.clone(),
                },
            RenderError::Kube(m) => RenderError::Kube(m.clone()),
            RenderError::Template(m) => RenderError::Template(m.clone()),
        }
    }
}

/// The names of the built-in scopes, which no user variable may take.
pub open spec fn is_reserved_name(name: Seq<char>) -> bool {
    name == "node"@ || name == "asg"@
}

/// What is wrong with one template variable, if anything: a reserved name
/// first, then its sources, which must be exactly one of a literal `value`
/// and `valueFrom`, where `valueFrom` names exactly one of a Secret key and
/// a ConfigMap key.
pub open spec fn variable_fault(v: TemplateVariable) -> Option<RenderErrorView> {
    if is_reserved_name(v.name@) {
        Some(RenderErrorView::ReservedName(v.name@))
    } else {
        match (v.value, v.value_from) {
            (Some(_), Some(_)) => Some(RenderErrorView::AmbiguousSource(v.name@)),
            (None, None) => Some(RenderErrorView::MissingSource(v.name@)),
            (None, Some(src)) => match (src.secret_key_ref, src.config_map_key_ref) {
                (Some(_), Some(_)) => Some(RenderErrorView::AmbiguousValueFrom(v.name@)),
                (None, None) => Some(RenderErrorView::EmptyValueFrom(v.name@)),
                _ => None,
            },
            _ => None,
        }
    }
}

/// The fault of the first faulty variable of `vars`, if any.
pub open spec fn first_fault(vars: Seq<TemplateVariable>) -> Option<RenderErrorView>
    decreases vars.len(),
{
    if vars.len() == 0 {
        None
    } else if variable_fault(vars[0]) is Some {
        variable_fault(vars[0])
    } else {
        first_fault(vars.drop_first())
    }
}

/// A source that names exactly one of a Secret key and a ConfigMap key.
pub open spec fn source_is_single(src: TemplateVariableSource) -> bool {
    src.secret_key_ref is Some != src.config_map_key_ref is Some
}

/// With no faulty variable, every variable has exactly one source.
pub proof fn lemma_no_fault_single_source(vars: Seq<TemplateVariable>, i: int)
    requires
        first_fault(vars) is None,
        0 <= i < vars.len(),
    ensures
        variable_fault(vars[i]) is None,
        !is_reserved_name(vars[i].name@),
        vars[i].value is Some != vars[i].value_from is Some,
        vars[i].value_from matches Some(src) ==> source_is_single(src),
    decreases vars.len(),
{
    if i > 0 {
        lemma_no_fault_single_source(vars.drop_first(), i - 1);
        assert(vars.drop_first()[i - 1] == vars[i]);
    }
}

fn text_is(s: &String, lit: &str) -> (b: bool)
    ensures
        b == (s@ == lit@),
{
    *s == String::from_str(lit)
}

fn reserved_name(name: &String) -> (b: bool)
    ensures
        b == is_reserved_name(name@),
{
    text_is(name, "node") || text_is(name, "asg")
}

fn check_variable(v: &TemplateVariable) -> (r: Result<(), RenderError>)
    ensures
        match r {
            Ok(()) => variable_fault(*v) is None,
            Err(e) => variable_fault(*v) == Some(e@),
        },
{
    if reserved_name(&v.name) {
        return Err(RenderError::ReservedName(v.name.clone()));
    }
    match (&v.value, &v.value_from) {
        (Some(_), Some(_)) => Err(RenderError::AmbiguousSource(v.name.clone())),
        (None, None) => Err(RenderError::MissingSource(v.name.clone())),
        (None, Some(src)) => match (&src.secret_key_ref, &src.config_map_key_ref) {
            (Some(_), Some(_)) => Err(RenderError::AmbiguousValueFrom(v.name.clone())),
            (None, None) => Err(RenderError::EmptyValueFrom(v.name.clone())),
            _ => Ok(()),
        },
        _ => Ok(()),
    }
}

/// Validate variable names without touching the cluster. Run this before any
/// API call so we fail fast on user errors.
///
/// Fails with the fault of the first faulty variable, and succeeds exactly
/// when no variable is faulty.
pub fn validate_variables(vars: &[TemplateVariable]) -> (r: Result<(), RenderError>)
    ensures
        match r {
            Ok(()) => first_fault(vars@) is None,
            Err(e) => first_fault(vars@) == Some(e@),
        },
{
    let mut i: usize = 0;
    assert(vars@.skip(0) =~= vars@);
    while i < vars.len()
        invariant
            i <= vars@.len(),
            first_fault(vars@) == first_fault(vars@.skip(i as int)),
        decreases vars@.len() - i,
    {
        let r = check_variable(&vars[i]);
        assert(vars@.skip(i as int)[0] == vars@[i as int]);
        assert(vars@.skip(i as int).drop_first() =~= vars@.skip(i + 1));
        if r.is_err() {
            return r;
        }
        i = i + 1;
    }
    assert(vars@.skip(i as int).len() == 0);
    Ok(())
}

/// The built-in `node` scope of the user-data template.
#[derive(Debug, Clone)]
pub struct NodeVars {
    pub name: String,
    pub hostname: String,
    pub index: i32,
    pub password: String,
}

/// The built-in `asg` scope of the user-data template.
#[derive(Debug, Clone)]
pub struct AsgVars {
    pub name: String,
    pub size: String,
    pub region: String,
    pub image: String,
    pub name_prefix: String,
    pub vcpus: Option<i32>,
    pub memory_mb: Option<i32>,
    pub disk_gb: Option<i32>,
}

/// Both built-in scopes.
pub struct BuiltinVars {
    pub node: NodeVars,
    pub asg: AsgVars,
}

/// The `node` scope as a template map, its keys in declaration order.
pub open spec fn node_scope(n: NodeVars) -> Value {
    jinja_ordered_map(
        seq![
            ("name"@, jinja_text(n.name@)),
            ("hostname"@, jinja_text(n.hostname@)),
            ("index"@, jinja_int(n.index)),
            ("password"@, jinja_text(n.password@)),
        ],
    )
}

/// The `asg` scope as a template map, its keys in camelCase and in
/// declaration order.
pub open spec fn asg_scope(a: AsgVars) -> Value {
    jinja_ordered_map(
        seq![
            ("name"@, jinja_text(a.name@)),
            ("size"@, jinja_text(a.size@)),
            ("region"@, jinja_text(a.region@)),
            ("image"@, jinja_text(a.image@)),
            ("namePrefix"@, jinja_text(a.name_prefix@)),
            ("vcpus"@, jinja_optional_int(a.vcpus)),
            ("memoryMb"@, jinja_optional_int(a.memory_mb)),
            ("diskGb"@, jinja_optional_int(a.disk_gb)),
        ],
    )
}

/// The user variables as top-level template entries.
pub open spec fn user_entries(user: Seq<(Seq<char>, Seq<char>)>) -> Seq<(Seq<char>, Value)> {
    user.map_values(|p: (Seq<char>, Seq<char>)| (p.0, jinja_text(p.1)))
}

/// The context a template is rendered in: `node` and `asg` bound to the
/// built-in scopes, and every user variable bound at the top level to its
/// string value.
pub open spec fn template_context(b: BuiltinVars, user: Seq<(Seq<char>, Seq<char>)>) -> Value {
    jinja_map(seq![("node"@, node_scope(b.node)), ("asg"@, asg_scope(b.asg))] + user_entries(user))
}

/// What [`render`] gives: a user variable named `asg` or `node` is refused
/// (`asg` first, as the variables are taken in key order), and otherwise
/// the template is rendered strictly in [`template_context`], a rendering
/// error becoming `Template`.
pub open spec fn render_outcome(template: Seq<char>, b: BuiltinVars, user: StringMap) -> Result<
    Seq<char>,
    RenderErrorView,
> {
    if user@.contains_key("asg"@) {
        Err(RenderErrorView::ReservedName("asg"@))
    } else if user@.contains_key("node"@) {
        Err(RenderErrorView::ReservedName("node"@))
    } else {
        match jinja_render(template, template_context(b, user.pairs()), true) {
            Ok(s) => Ok(s),
            Err(m) => Err(RenderErrorView::Template(m)),
        }
    }
}

fn entry(key: &str, v: Value) -> (e: (String, Value))
    ensures
        e.0@ == key@,
        e.1 == v,
{
    (String::from_str(key), v)
}

fn node_value(n: &NodeVars) -> (v: Value)
    ensures
        v == node_scope(*n),
{
    let mut es: Vec<(&'static str, Value)> = Vec::new();
    es.push(("name", text_value(n.name.clone())));
    es.push(("hostname", text_value(n.hostname.clone())));
    es.push(("index", int_value(n.index)));
    es.push(("password", text_value(n.password.clone())));
    proof {
        assert(static_entries_view(es@) =~= seq![
            ("name"@, jinja_text(n.name@)),
            ("hostname"@, jinja_text(n.hostname@)),
            ("index"@, jinja_int(n.index)),
            ("password"@, jinja_text(n.password@)),
        ]);
    }
    ordered_map_value(es)
}

fn asg_value(a: &AsgVars) -> (v: Value)
    ensures
        v == asg_scope(*a),
{
    let mut es: Vec<(&'static str, Value)> = Vec::new();
    es.push(("name", text_value(a.name.clone())));
    es.push(("size", text_value(a.size.clone())));
    es.push(("region", text_value(a.region.clone())));
    es.push(("image", text_value(a.image.clone())));
    es.push(("namePrefix", text_value(a.name_prefix.clone())));
    es.push(("vcpus", optional_int_value(a.vcpus)));
    es.push(("memoryMb", optional_int_value(a.memory_mb)));
    es.push(("diskGb", optional_int_value(a.disk_gb)));
    proof {
        assert(static_entries_view(es@) =~= seq![
            ("name"@, jinja_text(a.name@)),
            ("size"@, jinja_text(a.size@)),
            ("region"@, jinja_text(a.region@)),
            ("image"@, jinja_text(a.image@)),
            ("namePrefix"@, jinja_text(a.name_prefix@)),
            ("vcpus"@, jinja_optional_int(a.vcpus)),
            ("memoryMb"@, jinja_optional_int(a.memory_mb)),
            ("diskGb"@, jinja_optional_int(a.disk_gb)),
        ]);
    }
    ordered_map_value(es)
}

fn context_value(builtins: &BuiltinVars, user_vars: &StringMap) -> (v: Value)
    ensures
        v == template_context(*builtins, user_vars.pairs()),
{
    let mut es: Vec<(String, Value)> = Vec::new();
    es.push(entry("node", node_value(&builtins.node)));
    es.push(entry("asg", asg_value(&builtins.asg)));
    let ghost head = seq![("node"@, node_scope(builtins.node)), ("asg"@, asg_scope(builtins.asg))];
    assert(entries_view(es@) =~= head);
    let n = user_vars.len();
    let mut i: usize = 0;
    while i < n
        invariant
            n == user_vars.pairs().len(),
            i <= n,
            entries_view(es@) =~= head + user_entries(user_vars.pairs().take(i as int)),
        decreases n - i,
    {
        let (k, v) = user_vars.entry(i);
        let e = (k.clone(), text_value(v.clone()));
        let ghost old_es = es@;
        es.push(e);
        proof {
            let p = user_vars.pairs();
            assert(p.take(i + 1) =~= p.take(i as int).push(p[i as int]));
            assert(user_entries(p.take(i + 1)) =~= user_entries(p.take(i as int)).push(
                (p[i as int].0, jinja_text(p[i as int].1)),
            ));
            assert(entries_view(es@) =~= entries_view(old_es).push((e.0@, e.1)));
        }
        i = i + 1;
    }
    assert(user_vars.pairs().take(n as int) =~= user_vars.pairs());
    map_value(es)
}

/// Renders `template` with the built-in scopes and the user variables, as
/// [`render_outcome`] states.
pub fn render(template: &str, builtins: &BuiltinVars, user_vars: &StringMap) -> (r: Result<
    String,
    RenderError,
>)
    ensures
        match r {
            Ok(s) => render_outcome(template@, *builtins, *user_vars) == Ok::<
                Seq<char>,
                RenderErrorView,
            >(s@),
            Err(e) => render_outcome(template@, *builtins, *user_vars) == Err::<
                Seq<char>,
                RenderErrorView,
            >(e@),
        },
{
    let asg = String::from_str("asg");
    let node = String::from_str("node");
    if user_vars.contains_key(&asg) {
        return Err(RenderError::ReservedName(asg));
    }
    if user_vars.contains_key(&node) {
        return Err(RenderError::ReservedName(node));
    }
    let ctx = context_value(builtins, user_vars);
    match render_with(template, ctx, true) {
        Ok(s) => Ok(s),
        Err(m) => Err(RenderError::Template(m)),
    }
}

/// A variable named `node` or `asg` is faulty, whatever its sources.
pub proof fn law_reserved_name_is_fault(v: TemplateVariable)
    requires
        is_reserved_name(v.name@),
    ensures
        variable_fault(v) == Some(RenderErrorView::ReservedName(v.name@)),
{
}

/// A list with any faulty variable fails validation, with the fault of the
/// first faulty one.
pub proof fn law_any_fault_fails_validation(vars: Seq<TemplateVariable>, i: int)
    requires
        0 <= i < vars.len(),
        variable_fault(vars[i]) is Some,
        forall|j: int| 0 <= j < i ==> variable_fault(#[trigger] vars[j]) is None,
    ensures
        first_fault(vars) == variable_fault(vars[i]),
    decreases i,
{
    if i > 0 {
        let rest = vars.drop_first();
        assert forall|j: int| 0 <= j < i - 1 implies variable_fault(#[trigger] rest[j]) is None by {
            assert(rest[j] == vars[j + 1]);
        }
        assert(variable_fault(vars[0]) is None);
        law_any_fault_fails_validation(rest, i - 1);
    }
}

/// User variables cannot shadow the built-in scopes: with a user variable
/// named `node` or `asg`, rendering fails, naming one of them, whatever the
/// template.
pub proof fn law_user_variables_cannot_shadow_scopes(
    template: Seq<char>,
    b: BuiltinVars,
    user: StringMap,
)
    requires
        user@.contains_key("node"@) || user@.contains_key("asg"@),
    ensures
        render_outcome(template, b, user) matches Err(RenderErrorView::ReservedName(n))
            && is_reserved_name(n) && user@.contains_key(n),
{
}

/// The `node` scope binds each of its keys, once, to the value made from
/// the node's own field of that name.
pub proof fn law_node_scope_binds_own_fields(n: NodeVars)
    ensures
        ordered_map_binds(node_scope(n), "name"@, jinja_text(n.name@)),
        ordered_map_binds(node_scope(n), "hostname"@, jinja_text(n.hostname@)),
        ordered_map_binds(node_scope(n), "index"@, jinja_int(n.index)),
        ordered_map_binds(node_scope(n), "password"@, jinja_text(n.password@)),
{
    reveal_strlit("name");
    reveal_strlit("hostname");
    reveal_strlit("index");
    reveal_strlit("password");
    let es = seq![
        ("name"@, jinja_text(n.name@)),
        ("hostname"@, jinja_text(n.hostname@)),
        ("index"@, jinja_int(n.index)),
        ("password"@, jinja_text(n.password@)),
    ];
    assert(jinja_ordered_map(es) == node_scope(n));
    assert forall|i: int| 0 <= i < es.len() implies #[trigger] binds_once(es, es[i].0, es[i].1) by {
        assert forall|j: int| 0 <= j < es.len() && j != i implies #[trigger] es[j].0 != es[i].0 by {
            assert(es[j].0[0] != es[i].0[0] || es[j].0.len() != es[i].0.len());
        }
    }
    assert(binds_once(es, es[0].0, es[0].1));
    assert(binds_once(es, es[1].0, es[1].1));
    assert(binds_once(es, es[2].0, es[2].1));
    assert(binds_once(es, es[3].0, es[3].1));
}

/// The `asg` scope binds each of its camelCase keys, once, to the value
/// made from the group's own field of that name: `vcpus` to the vCPU
/// override, `memoryMb` to the memory override, `diskGb` to the disk
/// override, and so on.
pub proof fn law_asg_scope_binds_own_fields(a: AsgVars)
    ensures
        ordered_map_binds(asg_scope(a), "name"@, jinja_text(a.name@)),
        ordered_map_binds(asg_scope(a), "size"@, jinja_text(a.size@)),
        ordered_map_binds(asg_scope(a), "region"@, jinja_text(a.region@)),
        ordered_map_binds(asg_scope(a), "image"@, jinja_text(a.image@)),
        ordered_map_binds(asg_scope(a), "namePrefix"@, jinja_text(a.name_prefix@)),
        ordered_map_binds(asg_scope(a), "vcpus"@, jinja_optional_int(a.vcpus)),
        ordered_map_binds(asg_scope(a), "memoryMb"@, jinja_optional_int(a.memory_mb)),
        ordered_map_binds(asg_scope(a), "diskGb"@, jinja_optional_int(a.disk_gb)),
{
    reveal_strlit("name");
    reveal_strlit("size");
    reveal_strlit("region");
    reveal_strlit("image");
    reveal_strlit("namePrefix");
    reveal_strlit("vcpus");
    reveal_strlit("memoryMb");
    reveal_strlit("diskGb");
    let es = seq![
        ("name"@, jinja_text(a.name@)),
        ("size"@, jinja_text(a.size@)),
        ("region"@, jinja_text(a.region@)),
        ("image"@, jinja_text(a.image@)),
        ("namePrefix"@, jinja_text(a.name_prefix@)),
        ("vcpus"@, jinja_optional_int(a.vcpus)),
        ("memoryMb"@, jinja_optional_int(a.memory_mb)),
        ("diskGb"@, jinja_optional_int(a.disk_gb)),
    ];
    assert(jinja_ordered_map(es) == asg_scope(a));
    assert forall|i: int| 0 <= i < es.len() implies #[trigger] binds_once(es, es[i].0, es[i].1) by {
        assert forall|j: int| 0 <= j < es.len() && j != i implies #[trigger] es[j].0 != es[i].0 by {
            assert(es[j].0[0] != es[i].0[0] || es[j].0.len() != es[i].0.len());
        }
    }
    assert(binds_once(es, es[0].0, es[0].1));
    assert(binds_once(es, es[1].0, es[1].1));
    assert(binds_once(es, es[2].0, es[2].1));
    assert(binds_once(es, es[3].0, es[3].1));
    assert(binds_once(es, es[4].0, es[4].1));
    assert(binds_once(es, es[5].0, es[5].1));
    assert(binds_once(es, es[6].0, es[6].1));
    assert(binds_once(es, es[7].0, es[7].1));
}

/// Without a reserved user variable, the rendering context binds `node`
/// and `asg` to the built-in scopes and every user variable to its own
/// value, each name once.
pub proof fn law_context_binds_scopes_and_user_variables(b: BuiltinVars, user: StringMap)
    requires
        keys_sorted(user.pairs()),
        !user@.contains_key("node"@),
        !user@.contains_key("asg"@),
    ensures
        map_binds(template_context(b, user.pairs()), "node"@, node_scope(b.node)),
        map_binds(template_context(b, user.pairs()), "asg"@, asg_scope(b.asg)),
        forall|k: Seq<char>|
            user@.contains_key(k) ==> map_binds(
                template_context(b, user.pairs()),
                k,
                jinja_text(#[trigger] user@[k]),
            ),
{
    reveal_strlit("node");
    reveal_strlit("asg");
    let p = user.pairs();
    lemma_sorted_distinct(p);
    let head = seq![("node"@, node_scope(b.node)), ("asg"@, asg_scope(b.asg))];
    let es = head + user_entries(p);
    assert(jinja_map(es) == template_context(b, p));
    assert forall|j: int| 0 <= j < p.len() implies #[trigger] p[j].0 != "node"@ && p[j].0
        != "asg"@ by {
        lemma_pairs_to_map_dom(p, "node"@);
        lemma_pairs_to_map_dom(p, "asg"@);
    }
    assert forall|j: int| 2 <= j < es.len() implies #[trigger] es[j] == (p[j - 2].0, jinja_text(
        p[j - 2].1,
    )) by {}
    assert("node"@ != "asg"@) by {
        assert("node"@.len() != "asg"@.len());
    }
    assert(binds_once(es, "node"@, node_scope(b.node))) by {
        assert(es[0] == ("node"@, node_scope(b.node)));
        assert forall|j: int| 0 <= j < es.len() && j != 0 implies #[trigger] es[j].0 != "node"@ by {
            if j >= 2 {
                assert(es[j].0 == p[j - 2].0);
            }
        }
    }
    assert(binds_once(es, "asg"@, asg_scope(b.asg))) by {
        assert(es[1] == ("asg"@, asg_scope(b.asg)));
        assert forall|j: int| 0 <= j < es.len() && j != 1 implies #[trigger] es[j].0 != "asg"@ by {
            if j >= 2 {
                assert(es[j].0 == p[j - 2].0);
            }
        }
    }
    assert forall|k: Seq<char>| user@.contains_key(k) implies map_binds(
        template_context(b, p),
        k,
        jinja_text(#[trigger] user@[k]),
    ) by {
        lemma_pairs_to_map_dom(p, k);
        let i = choose|i: int| 0 <= i < p.len() && #[trigger] p[i].0 == k;
        lemma_pairs_to_map_last(p, i);
        assert(es[i + 2] == (k, jinja_text(user@[k])));
        assert forall|j: int| 0 <= j < es.len() && j != i + 2 implies #[trigger] es[j].0 != k by {
            if j >= 2 {
                assert(es[j].0 == p[j - 2].0);
            }
        }
        assert(binds_once(es, k, jinja_text(user@[k])));
    }
}

/// A variable is sound exactly when its name is neither `node` nor `asg`
/// and it has either a literal value (whatever its text) and no
/// `valueFrom`, or no literal and a `valueFrom` naming exactly one of a
/// Secret key and a ConfigMap key.
pub proof fn law_sound_variables(v: TemplateVariable)
    ensures
        variable_fault(v) is None <==> {
            &&& v.name@ != "node"@
            &&& v.name@ != "asg"@
            &&& {
                ||| v.value is Some && v.value_from is None
                ||| v.value is None && v.value_from is Some && (
                v.value_from->0.secret_key_ref is Some
                    != v.value_from->0.config_map_key_ref is Some)
            }
        },
{
}

/// A literal variable with an unreserved name is sound, whatever the text
/// of its literal, the empty text included.
pub proof fn law_literal_variable_is_sound(v: TemplateVariable)
    requires
        v.name@ != "node"@,
        v.name@ != "asg"@,
        v.value is Some,
        v.value_from is None,
    ensures
        variable_fault(v) is None,
{
}

/// A list passes validation exactly when each of its variables is sound.
pub proof fn law_validation_checks_every_variable(vars: Seq<TemplateVariable>)
    ensures
        first_fault(vars) is None <==> forall|i: int|
            0 <= i < vars.len() ==> variable_fault(#[trigger] vars[i]) is None,
    decreases vars.len(),
{
    if vars.len() > 0 {
        let rest = vars.drop_first();
        law_validation_checks_every_variable(rest);
        if first_fault(vars) is None {
            assert forall|i: int| 0 <= i < vars.len() implies variable_fault(
                #[trigger] vars[i],
            ) is None by {
                if i > 0 {
                    assert(vars[i] == rest[i - 1]);
                }
            }
        }
        if forall|i: int| 0 <= i < vars.len() ==> variable_fault(#[trigger] vars[i]) is None {
            assert(variable_fault(vars[0]) is None);
            assert forall|i: int| 0 <= i < rest.len() implies variable_fault(#[trigger] rest[i])
                is None by {
                assert(rest[i] == vars[i + 1]);
            }
        }
    }
}

} // verus!
