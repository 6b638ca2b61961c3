//! Resolving template variables to strings. Literal values are taken as
//! they are; a `valueFrom` variable is read from a Secret or ConfigMap key.
//! The reads are the caller's: [`Resolution`] says which object and key to
//! read next, and [`secret_value`] and [`config_map_value`] say what a read
//! object yields; the first read that fails ends the resolution. Values are resolved once per scale-up and shared by every
//! Node it creates.
use vstd::prelude::*;

use vstd::utf8::{decode_utf8, valid_utf8};

use crate::crd::{KeySelector, TemplateVariable, TemplateVariableSource};
use crate::string_map::{lemma_pairs_to_map_push, pairs_to_map, StringMap};
use crate::text::utf8_text;
use crate::user_data::{
    first_fault, lemma_no_fault_single_source, source_is_single, validate_variables, RenderError,
    RenderErrorView,
};

verus! {

/// The abstract value of an outcome that is a string or an error.
pub open spec fn outcome_view(r: Result<String, RenderError>) -> Result<Seq<char>, RenderErrorView> {
    match r {
        Ok(s) => Ok(s@),
        Err(e) => Err(e@),
    }
}

/// The kind of object a variable's value is read from.
#[derive(Debug, Clone, Copy, PartialEq, Eq, Structural)]
pub enum SourceKind {
    Secret,
    ConfigMap,
}

/// A read to make: the key `key` of the object `namespace/name` of `kind`.
#[derive(Debug)]
pub struct SourceLookup {
    pub kind: SourceKind,
    pub namespace: String,
    pub name: String,
    pub key: String,
}

/// The selector a source reads: its Secret key if it names one, else its
/// ConfigMap key.
pub open spec fn source_selector(src: TemplateVariableSource) -> KeySelector {
    match src.secret_key_ref {
        Some(s) => s,
        None => src.config_map_key_ref.unwrap(),
    }
}

/// The kind of object a source reads.
pub open spec fn source_kind(src: TemplateVariableSource) -> SourceKind {
    if src.secret_key_ref is Some {
        SourceKind::Secret
    } else {
        SourceKind::ConfigMap
    }
}

/// The namespace a selector reads in: its own, else the default one.
pub open spec fn selector_namespace(sel: KeySelector, default_ns: Seq<char>) -> Seq<char> {
    match sel.namespace {
        Some(ns) => ns@,
        None => default_ns,
    }
}

/// `l` is the read that `src` asks for, with `default_ns` as the default
/// namespace.
pub open spec fn lookup_matches(
    l: SourceLookup,
    default_ns: Seq<char>,
    src: TemplateVariableSource,
) -> bool {
    &&& l.kind == source_kind(src)
    &&& l.namespace@ == selector_namespace(source_selector(src), default_ns)
    &&& l.name@ == source_selector(src).name@
    &&& l.key@ == source_selector(src).key@
}

/// The read a source asks for.
pub fn source_lookup(default_ns: &str, src: &TemplateVariableSource) -> (l: SourceLookup)
    requires
        src.secret_key_ref is Some || src.config_map_key_ref is Some,
    ensures
        lookup_matches(l, default_ns@, *src),
{
    let (kind, sel) = match &src.secret_key_ref {
        Some(sel) => (SourceKind::Secret, sel),
        None => (SourceKind::ConfigMap, src.config_map_key_ref.as_ref().unwrap()),
    };
    let namespace = match &sel.namespace {
        Some(ns) => ns.clone(),
        None => String::from_str(default_ns),
    };
    SourceLookup { kind, namespace, name: sel.name.clone(), key: sel.key.clone() }
}

/// The value of the first entry of `data` whose key is `key`.
pub open spec fn entry_value<V>(data: Seq<(String, V)>, key: Seq<char>) -> Option<V>
    decreases data.len(),
{
    if data.len() == 0 {
        None
    } else if data[0].0@ == key {
        Some(data[0].1)
    } else {
        entry_value(data.drop_first(), key)
    }
}

pub(crate) fn find_entry<'a, V>(data: &'a Vec<(String, V)>, key: &String) -> (r: Option<&'a V>)
    ensures
        match r {
            Some(v) => entry_value(data@, key@) == Some(*v),
            None => entry_value(data@, key@) is None,
        },
{
    let mut i: usize = 0;
    assert(data@.skip(0) =~= data@);
    while i < data.len()
        invariant
            i <= data@.len(),
            entry_value(data@, key@) == entry_value(data@.skip(i as int), key@),
        decreases data@.len() - i,
    {
        assert(data@.skip(i as int)[0] == data@[i as int]);
        if data[i].0 == *key {
            return Some(&data[i].1);
        }
        assert(data@.skip(i as int).drop_first() =~= data@.skip(i + 1));
        i = i + 1;
    }
    None
}

/// What reading a Secret yields for `l`: an API failure, an absent Secret,
/// a Secret without data or without the key, and a value that is not
/// UTF-8 are errors; otherwise the value decoded from UTF-8.
pub open spec fn secret_outcome(
    l: SourceLookup,
    fetched: Result<Option<Option<Vec<(String, Vec<u8>)>>>, String>,
) -> Result<Seq<char>, RenderErrorView> {
    let missing = RenderErrorView::SecretMissingKey {
        ns: l.namespace@,
        name: l.name@,
        key: l.key@,
    };
    match fetched {
        Err(m) => Err(RenderErrorView::Kube(m@)),
        Ok(None) => Err(RenderErrorView::SecretNotFound { ns: l.namespace@, name: l.name@ }),
        Ok(Some(None)) => Err(missing),
        Ok(Some(Some(data))) => match entry_value(data@, l.key@) {
            None => Err(missing),
            Some(bytes) => if valid_utf8(bytes@) {
                Ok(decode_utf8(bytes@))
            } else {
                Err(
                    RenderErrorView::SecretNotUtf8 {
                        ns: l.namespace@,
                        name: l.name@,
                        key: l.key@,
                    },
                )
            },
        },
    }
}

/// What reading a ConfigMap yields for `l`: an API failure, an absent
/// ConfigMap, and one without data or without the key are errors; otherwise
/// the value.
pub open spec fn config_map_outcome(
    l: SourceLookup,
    fetched: Result<Option<Option<Vec<(String, String)>>>, String>,
) -> Result<Seq<char>, RenderErrorView> {
    let missing = RenderErrorView::ConfigMapMissingKey {
        ns: l.namespace@,
        name: l.name@,
        key: l.key@,
    };
    match fetched {
        Err(m) => Err(RenderErrorView::Kube(m@)),
        Ok(None) => Err(RenderErrorView::ConfigMapNotFound { ns: l.namespace@, name: l.name@ }),
        Ok(Some(None)) => Err(missing),
        Ok(Some(Some(data))) => match entry_value(data@, l.key@) {
            None => Err(missing),
            Some(v) => Ok(v@),
        },
    }
}

fn secret_missing_key(l: &SourceLookup) -> (e: RenderError)
    ensures
        e@ == (RenderErrorView::SecretMissingKey { ns: l.namespace@, name: l.name@, key: l.key@ }),
{
    RenderError::SecretMissingKey {
        ns: l.namespace.clone(),
        name: l.name.clone(),
        key: l.key.clone(),
    }
}

fn config_map_missing_key(l: &SourceLookup) -> (e: RenderError)
    ensures
        e@ == (RenderErrorView::ConfigMapMissingKey {
            ns: l.namespace@,
            name: l.name@,
            key: l.key@,
        }),
{
    RenderError::ConfigMapMissingKey {
        ns: l.namespace.clone(),
        name: l.name.clone(),
        key: l.key.clone(),
    }
}

/// The value a read Secret yields for `l`, as [`secret_outcome`] states.
/// `fetched` is the read: its error message, or the Secret if it exists,
/// with its data entries if it has any.
pub fn secret_value(
    l: &SourceLookup,
    fetched: Result<Option<Option<Vec<(String, Vec<u8>)>>>, String>,
) -> (r: Result<String, RenderError>)
    ensures
        outcome_view(r) == secret_outcome(*l, fetched),
{
    match fetched {
        Err(m) => Err(RenderError::Kube(m)),
        Ok(None) => Err(RenderError::SecretNotFound { ns: l.namespace.clone(), name: l.name.clone() }),
        Ok(Some(None)) => Err(secret_missing_key(l)),
        Ok(Some(Some(data))) => match find_entry(&data, &l.key) {
            None => Err(secret_missing_key(l)),
            Some(bytes) => {
                let owned = bytes.clone();
                assert(owned@ =~= bytes@);
                match utf8_text(owned) {
                    Some(s) => Ok(s),
                    None => Err(
                        RenderError::SecretNotUtf8 {
                            ns: l.namespace.clone(),
                            name: l.name.clone(),
                            key: l.key.clone(),
                        },
                    ),
                }
            },
        },
    }
}

/// The value a read ConfigMap yields for `l`, as [`config_map_outcome`]
/// states. `fetched` is the read: its error message, or the ConfigMap if it
/// exists, with its data entries if it has any.
pub fn config_map_value(
    l: &SourceLookup,
    fetched: Result<Option<Option<Vec<(String, String)>>>, String>,
) -> (r: Result<String, RenderError>)
    ensures
        outcome_view(r) == config_map_outcome(*l, fetched),
{
    match fetched {
        Err(m) => Err(RenderError::Kube(m)),
        Ok(None) => Err(
            RenderError::ConfigMapNotFound { ns: l.namespace.clone(), name: l.name.clone() },
        ),
        Ok(Some(None)) => Err(config_map_missing_key(l)),
        Ok(Some(Some(data))) => match find_entry(&data, &l.key) {
            None => Err(config_map_missing_key(l)),
            Some(v) => Ok(v.clone()),
        },
    }
}

/// The variables' names paired with their values, in order.
pub open spec fn named_values(vars: Seq<TemplateVariable>, values: Seq<Seq<char>>) -> Seq<
    (Seq<char>, Seq<char>),
> {
    Seq::new(values.len(), |i: int| (vars[i].name@, values[i]))
}

/// What the resolution driver asks of its caller next.
#[derive(Debug)]
pub enum ResolveStep {
    /// Read this key and hand the value back with [`Resolution::supply`].
    Fetch(SourceLookup),
    /// Every variable is resolved: each name bound to its value.
    Finished(StringMap),
    /// A read failed with this error; the resolution is over.
    Failed(RenderError),
}

/// The resolution of a list of template variables, one variable after the
/// other.
pub struct Resolution {
    vars: Vec<TemplateVariable>,
    default_ns: String,
    values: Vec<String>,
    failure: Option<RenderError>,
}

impl Resolution {
    /// The variables being resolved.
    pub closed spec fn variables(self) -> Seq<TemplateVariable> {
        self.vars@
    }

    /// The namespace a selector without one reads in.
    pub closed spec fn namespace(self) -> Seq<char> {
        self.default_ns@
    }

    /// The values of the first variables, in order.
    pub closed spec fn values(self) -> Seq<Seq<char>> {
        self.values@.map_values(|s: String| s@)
    }

    /// The error of the read that failed, if one did.
    pub closed spec fn failure(self) -> Option<RenderErrorView> {
        match self.failure {
            Some(e) => Some(e@),
            None => None,
        }
    }

    /// The variables are valid, and each resolved literal variable has its
    /// literal as value.
    pub open spec fn wf(self) -> bool {
        &&& first_fault(self.variables()) is None
        &&& self.values().len() <= self.variables().len()
        &&& forall|i: int|
            0 <= i < self.values().len() ==> ((#[trigger] self.variables()[i]).value matches Some(
                lit,
            ) ==> self.values()[i] == lit@)
    }

    /// No read has failed, and the next variable reads its value from the
    /// cluster.
    pub open spec fn awaiting_fetch(self) -> bool {
        &&& self.failure() is None
        &&& self.values().len() < self.variables().len()
        &&& self.variables()[self.values().len() as int].value is None
    }

    /// The names resolved so far, bound to their values; a later variable
    /// of the same name wins.
    pub open spec fn resolved(self) -> Map<Seq<char>, Seq<char>> {
        pairs_to_map(named_values(self.variables(), self.values()))
    }

    /// Starts resolving `vars`, with `default_ns` as the namespace of
    /// selectors that name none. The variables are validated first, so a
    /// faulty list is refused before any read is asked for.
    pub fn start(default_ns: &str, vars: Vec<TemplateVariable>) -> (r: Result<
        Resolution,
        RenderError,
    >)
        ensures
            match r {
                Ok(res) => {
                    &&& first_fault(vars@) is None
                    &&& res.wf()
                    &&& res.variables() == vars@
                    &&& res.namespace() == default_ns@
                    &&& res.values().len() == 0
                    &&& res.failure() is None
                },
                Err(e) => first_fault(vars@) == Some(e@),
            },
    {
        match validate_variables(vars.as_slice()) {
            Err(e) => Err(e),
            Ok(()) => {
                let res = Resolution {
                    vars,
                    default_ns: String::from_str(default_ns),
                    values: Vec::new(),
                    failure: None,
                };
                assert(res.values() =~= Seq::<Seq<char>>::empty());
                Ok(res)
            },
        }
    }

    /// After a failed read, hands back its error. Otherwise takes the
    /// literal values of the next variables, up to the first that reads from
    /// the cluster, and asks for that read; or, when none is left, hands back
    /// the resolved map.
    pub fn next_step(&mut self) -> (step: ResolveStep)
        requires
            old(self).wf(),
        ensures
            final(self).wf(),
            final(self).variables() == old(self).variables(),
            final(self).namespace() == old(self).namespace(),
            final(self).failure() == old(self).failure(),
            old(self).failure() matches Some(f) ==> {
                &&& step matches ResolveStep::Failed(e) && e@ == f
                &&& final(self).values() == old(self).values()
            },
            old(self).values().len() <= final(self).values().len(),
            final(self).values().subrange(0, old(self).values().len() as int) == old(
                self,
            ).values(),
            forall|i: int|
                old(self).values().len() <= i < final(self).values().len() ==> (
                #[trigger] final(self).variables()[i]).value is Some,
            match step {
                ResolveStep::Fetch(l) => {
                    &&& final(self).awaiting_fetch()
                    &&& lookup_matches(
                        l,
                        final(self).namespace(),
                        final(self).variables()[final(self).values().len() as int].value_from.unwrap(),
                    )
                },
                ResolveStep::Finished(m) => {
                    &&& final(self).failure() is None
                    &&& final(self).values().len() == final(self).variables().len()
                    &&& m@ == final(self).resolved()
                },
                ResolveStep::Failed(_) => old(self).failure() is Some,
            },
    {
        if let Some(e) = &self.failure {
            return ResolveStep::Failed(e.clone());
        }
        let ghost start = self.values();
        while self.values.len() < self.vars.len() && self.vars[self.values.len()].value.is_some()
            invariant
                self.wf(),
                self.variables() == old(self).variables(),
                self.namespace() == old(self).namespace(),
                self.failure() is None,
                old(self).failure() is None,
                start == old(self).values(),
                start.len() <= self.values().len(),
                self.values().subrange(0, start.len() as int) == start,
                forall|i: int|
                    start.len() <= i < self.values().len() ==> (
                    #[trigger] self.variables()[i]).value is Some,
            decreases self.vars@.len() - self.values@.len(),
        {
            let i = self.values.len();
            let lit = self.vars[i].value.as_ref().unwrap().clone();
            let ghost before = self.values();
            self.values.push(lit);
            assert(self.values() =~= before.push(lit@));
        }
        if self.values.len() < self.vars.len() {
            let i = self.values.len();
            proof {
                lemma_no_fault_single_source(self.variables(), i as int);
            }
            let src = self.vars[i].value_from.as_ref().unwrap();
            ResolveStep::Fetch(source_lookup(self.default_ns.as_str(), src))
        } else {
            ResolveStep::Finished(self.resolved_map())
        }
    }

    fn resolved_map(&self) -> (m: StringMap)
        requires
            self.values().len() <= self.variables().len(),
        ensures
            m@ == self.resolved(),
    {
        let mut m = StringMap::new();
        let mut i: usize = 0;
        let ghost all = named_values(self.variables(), self.values());
        assert(all.take(0) =~= Seq::<(Seq<char>, Seq<char>)>::empty());
        while i < self.values.len()
            invariant
                self.values().len() <= self.variables().len(),
                all == named_values(self.variables(), self.values()),
                i <= self.values@.len(),
                m@ == pairs_to_map(all.take(i as int)),
            decreases self.values@.len() - i,
        {
            let ghost before = m@;
            m.insert(self.vars[i].name.clone(), self.values[i].clone());
            proof {
                assert(all.take(i + 1) =~= all.take(i as int).push(all[i as int]));
                lemma_pairs_to_map_push(all.take(i as int), all[i as int].0, all[i as int].1);
            }
            i = i + 1;
        }
        assert(all.take(i as int) =~= all);
        m
    }

    /// Hands back the outcome of the read [`Resolution::next_step`] asked
    /// for: its value resolves the variable; its error ends the resolution.
    pub fn supply(&mut self, outcome: Result<String, RenderError>)
        requires
            old(self).wf(),
            old(self).awaiting_fetch(),
        ensures
            final(self).wf(),
            final(self).variables() == old(self).variables(),
            final(self).namespace() == old(self).namespace(),
            match outcome {
                Ok(v) => {
                    &&& final(self).values() == old(self).values().push(v@)
                    &&& final(self).failure() is None
                },
                Err(e) => {
                    &&& final(self).values() == old(self).values()
                    &&& final(self).failure() == Some(e@)
                },
            },
    {
        match outcome {
            Ok(value) => {
                let ghost before = self.values();
                self.values.push(value);
                assert(self.values() =~= before.push(value@));
            },
            Err(e) => {
                self.failure = Some(e);
            },
        }
    }
}

/// A name is bound in the resolved map exactly when a resolved variable
/// carries it.
pub proof fn law_resolved_names(res: Resolution, k: Seq<char>)
    requires
        res.wf(),
    ensures
        res.resolved().contains_key(k) <==> exists|i: int|
            0 <= i < res.values().len() && (#[trigger] res.variables()[i]).name@ == k,
{
    let p = named_values(res.variables(), res.values());
    crate::string_map::lemma_pairs_to_map_dom(p, k);
    if res.resolved().contains_key(k) {
        let i = choose|i: int| 0 <= i < p.len() && #[trigger] p[i].0 == k;
        assert(res.variables()[i].name@ == k);
    }
    if exists|i: int| 0 <= i < res.values().len() && (#[trigger] res.variables()[i]).name@ == k {
        let i = choose|i: int|
            0 <= i < res.values().len() && (#[trigger] res.variables()[i]).name@ == k;
        assert(p[i].0 == k);
    }
}

/// A name is bound to the value of the last resolved variable carrying it,
/// and a literal variable's value is its literal.
pub proof fn law_last_variable_wins(res: Resolution, i: int)
    requires
        res.wf(),
        0 <= i < res.values().len(),
        forall|j: int|
            i < j < res.values().len() ==> (#[trigger] res.variables()[j]).name@
                != res.variables()[i].name@,
    ensures
        res.resolved().contains_key(res.variables()[i].name@),
        res.resolved()[res.variables()[i].name@] == res.values()[i],
        res.variables()[i].value matches Some(lit) ==> res.resolved()[res.variables()[i].name@]
            == lit@,
{
    let p = named_values(res.variables(), res.values());
    assert forall|j: int| i < j < p.len() implies #[trigger] p[j].0 != p[i].0 by {
        assert(p[j].0 == res.variables()[j].name@);
    }
    crate::string_map::lemma_pairs_to_map_last(p, i);
}

/// The read a source asks for is the key its selector names, in the
/// selector's own namespace when it names one and in the default namespace
/// otherwise; a Secret when a Secret key is named, else a ConfigMap.
pub proof fn law_lookup_reads_the_named_key(
    l: SourceLookup,
    default_ns: Seq<char>,
    src: TemplateVariableSource,
)
    requires
        lookup_matches(l, default_ns, src),
        src.secret_key_ref is Some || src.config_map_key_ref is Some,
    ensures
        ({
            let sel = if src.secret_key_ref is Some {
                src.secret_key_ref->0
            } else {
                src.config_map_key_ref->0
            };
            &&& l.kind == (if src.secret_key_ref is Some {
                SourceKind::Secret
            } else {
                SourceKind::ConfigMap
            })
            &&& l.name@ == sel.name@
            &&& l.key@ == sel.key@
            &&& sel.namespace is Some ==> l.namespace@ == sel.namespace->0@
            &&& sel.namespace is None ==> l.namespace@ == default_ns
        }),
{
}

/// The value of the first entry carrying `key` is the one found.
pub proof fn lemma_entry_value_first<V>(data: Seq<(String, V)>, key: Seq<char>, i: int)
    requires
        0 <= i < data.len(),
        data[i].0@ == key,
        forall|j: int| 0 <= j < i ==> (#[trigger] data[j]).0@ != key,
    ensures
        entry_value(data, key) == Some(data[i].1),
    decreases i,
{
    if i > 0 {
        let rest = data.drop_first();
        assert forall|j: int| 0 <= j < i - 1 implies (#[trigger] rest[j]).0@ != key by {
            assert(rest[j] == data[j + 1]);
        }
        assert(data[0].0@ != key);
        lemma_entry_value_first(rest, key, i - 1);
    }
}

/// No entry carries `key`: none is found.
pub proof fn lemma_entry_value_absent<V>(data: Seq<(String, V)>, key: Seq<char>)
    requires
        forall|j: int| 0 <= j < data.len() ==> (#[trigger] data[j]).0@ != key,
    ensures
        entry_value(data, key) is None,
    decreases data.len(),
{
    if data.len() > 0 {
        let rest = data.drop_first();
        assert forall|j: int| 0 <= j < rest.len() implies (#[trigger] rest[j]).0@ != key by {
            assert(rest[j] == data[j + 1]);
        }
        assert(data[0].0@ != key);
        lemma_entry_value_absent(rest, key);
    }
}

/// A ConfigMap read yields the value of the entry carrying the lookup's
/// key (the first one, were there several); with no such entry, no data, no
/// ConfigMap or a failed read, it yields the matching error.
pub proof fn law_config_map_value_is_keyed(
    l: SourceLookup,
    fetched: Result<Option<Option<Vec<(String, String)>>>, String>,
    i: int,
)
    ensures
        fetched matches Err(m) ==> config_map_outcome(l, fetched) == Err::<
            Seq<char>,
            RenderErrorView,
        >(RenderErrorView::Kube(m@)),
        fetched matches Ok(None) ==> config_map_outcome(l, fetched) == Err::<
            Seq<char>,
            RenderErrorView,
        >(RenderErrorView::ConfigMapNotFound { ns: l.namespace@, name: l.name@ }),
        fetched matches Ok(Some(None)) ==> config_map_outcome(l, fetched) == Err::<
            Seq<char>,
            RenderErrorView,
        >(RenderErrorView::ConfigMapMissingKey { ns: l.namespace@, name: l.name@, key: l.key@ }),
        fetched matches Ok(Some(Some(data))) ==> {
            &&& (0 <= i < data@.len() && data@[i].0@ == l.key@ && forall|j: int|
                0 <= j < i ==> (#[trigger] data@[j]).0@ != l.key@) ==> config_map_outcome(
                l,
                fetched,
            ) == Ok::<Seq<char>, RenderErrorView>(data@[i].1@)
            &&& (forall|j: int| 0 <= j < data@.len() ==> (#[trigger] data@[j]).0@ != l.key@)
                ==> config_map_outcome(l, fetched) == Err::<Seq<char>, RenderErrorView>(
                RenderErrorView::ConfigMapMissingKey { ns: l.namespace@, name: l.name@, key: l.key@ },
            )
        },
{
    if let Ok(Some(Some(data))) = fetched {
        if 0 <= i < data@.len() && data@[i].0@ == l.key@ && forall|j: int|
            0 <= j < i ==> (#[trigger] data@[j]).0@ != l.key@ {
            lemma_entry_value_first(data@, l.key@, i);
        }
        if forall|j: int| 0 <= j < data@.len() ==> (#[trigger] data@[j]).0@ != l.key@ {
            lemma_entry_value_absent(data@, l.key@);
        }
    }
}

/// A Secret read yields the text the bytes of the entry carrying the
/// lookup's key encode, when they are UTF-8, and `SecretNotUtf8` when they
/// are not; with no such entry, no data, no Secret or a failed read, it
/// yields the matching error.
pub proof fn law_secret_value_is_keyed(
    l: SourceLookup,
    fetched: Result<Option<Option<Vec<(String, Vec<u8>)>>>, String>,
    i: int,
)
    ensures
        fetched matches Err(m) ==> secret_outcome(l, fetched) == Err::<
            Seq<char>,
            RenderErrorView,
        >(RenderErrorView::Kube(m@)),
        fetched matches Ok(None) ==> secret_outcome(l, fetched) == Err::<
            Seq<char>,
            RenderErrorView,
        >(RenderErrorView::SecretNotFound { ns: l.namespace@, name: l.name@ }),
        fetched matches Ok(Some(None)) ==> secret_outcome(l, fetched) == Err::<
            Seq<char>,
            RenderErrorView,
        >(RenderErrorView::SecretMissingKey { ns: l.namespace@, name: l.name@, key: l.key@ }),
        fetched matches Ok(Some(Some(data))) ==> {
            &&& (0 <= i < data@.len() && data@[i].0@ == l.key@ && forall|j: int|
                0 <= j < i ==> (#[trigger] data@[j]).0@ != l.key@) ==> {
                &&& valid_utf8(data@[i].1@) ==> secret_outcome(l, fetched) == Ok::<
                    Seq<char>,
                    RenderErrorView,
                >(decode_utf8(data@[i].1@))
                &&& !valid_utf8(data@[i].1@) ==> secret_outcome(l, fetched) == Err::<
                    Seq<char>,
                    RenderErrorView,
                >(RenderErrorView::SecretNotUtf8 { ns: l.namespace@, name: l.name@, key: l.key@ })
            }
            &&& (forall|j: int| 0 <= j < data@.len() ==> (#[trigger] data@[j]).0@ != l.key@)
                ==> secret_outcome(l, fetched) == Err::<Seq<char>, RenderErrorView>(
                RenderErrorView::SecretMissingKey { ns: l.namespace@, name: l.name@, key: l.key@ },
            )
        },
{
    if let Ok(Some(Some(data))) = fetched {
        if 0 <= i < data@.len() && data@[i].0@ == l.key@ && forall|j: int|
            0 <= j < i ==> (#[trigger] data@[j]).0@ != l.key@ {
            lemma_entry_value_first(data@, l.key@, i);
        }
        if forall|j: int| 0 <= j < data@.len() ==> (#[trigger] data@[j]).0@ != l.key@ {
            lemma_entry_value_absent(data@, l.key@);
        }
    }
}

} // verus!
