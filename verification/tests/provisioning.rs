use binarylane_controller::provision::{
    provision_targets, target_for, NodeSecret, NodeSummary, ProvisionAction, ProvisionEvent,
    ProvisionPhase, ProvisionStage, ProvisionTarget, Provisioning, ServerInfo, LABEL_IMAGE,
    LABEL_REGION, LABEL_SERVER_ID, LABEL_SIZE,
};
use binarylane_controller::string_map::StringMap;

fn labels(pairs: &[(&str, &str)]) -> StringMap {
    let mut m = StringMap::new();
    for (k, v) in pairs {
        m.insert(k.to_string(), v.to_string());
    }
    m
}

fn node(name: Option<&str>, pairs: &[(&str, &str)], deleting: bool) -> NodeSummary {
    NodeSummary { name: name.map(|s| s.to_string()), labels: Some(labels(pairs)), deleting }
}

const SHAPE: [(&str, &str); 3] = [(LABEL_SIZE, "std-2"), (LABEL_REGION, "syd"), (LABEL_IMAGE, "ubuntu")];

fn target() -> ProvisionTarget {
    ProvisionTarget {
        name: "w-1".into(),
        size: "std-2".into(),
        region: "syd".into(),
        image: "ubuntu".into(),
    }
}

fn server(id: i64) -> ServerInfo {
    ServerInfo { id, size_slug: "std-2".into(), region_slug: "syd".into() }
}

fn secret(key: &str, value: &[u8]) -> ProvisionEvent {
    ProvisionEvent::SecretRead(Ok(Some(Some(vec![(key.to_string(), value.to_vec())]))))
}

#[test]
fn node_with_all_labels_is_a_target() {
    let t = target_for(&node(Some("w-1"), &SHAPE, false)).unwrap();
    assert_eq!(
        (t.name.as_str(), t.size.as_str(), t.region.as_str(), t.image.as_str()),
        ("w-1", "std-2", "syd", "ubuntu")
    );
}

#[test]
fn nodes_that_ask_for_no_server() {
    let mut bound = SHAPE.to_vec();
    bound.push((LABEL_SERVER_ID, "7"));
    assert!(target_for(&node(Some("a"), &bound, false)).is_none());
    assert!(target_for(&node(Some("a"), &SHAPE, true)).is_none());
    assert!(target_for(&node(None, &SHAPE, false)).is_none());
    assert!(target_for(&node(Some("a"), &SHAPE[..2], false)).is_none());
    assert!(target_for(&NodeSummary { name: Some("a".into()), labels: None, deleting: false }).is_none());
}

#[test]
fn targets_keep_node_order() {
    let nodes = vec![
        node(Some("a"), &SHAPE, false),
        node(Some("b"), &SHAPE, true),
        node(Some("c"), &SHAPE, false),
    ];
    let ts = provision_targets(&nodes);
    let names: Vec<&str> = ts.iter().map(|t| t.name.as_str()).collect();
    assert_eq!(names, vec!["a", "c"]);
}

#[test]
fn provisioning_creates_server_when_none_exists() {
    let (mut p, a) = Provisioning::begin(target());
    assert!(matches!(a, ProvisionAction::ReadSecret(NodeSecret::Password)));
    let a = p.step(secret("password", b"hunter2"));
    assert!(matches!(a, ProvisionAction::ReadSecret(NodeSecret::UserData)));
    let a = p.step(secret("user-data", b"#cloud-config"));
    assert!(matches!(a, ProvisionAction::FindServer(ref h) if h == "w-1"));
    let a = p.step(ProvisionEvent::ServerFound(Ok(None)));
    match a {
        ProvisionAction::CreateServer(r) => {
            assert_eq!(r.name, "w-1");
            assert_eq!(r.size, "std-2");
            assert_eq!(r.region, "syd");
            assert_eq!(r.image, "ubuntu");
            assert_eq!(r.password.as_deref(), Some("hunter2"));
            assert_eq!(r.user_data.as_deref(), Some("#cloud-config"));
        }
        other => panic!("unexpected {:?}", other),
    }
    let a = p.step(ProvisionEvent::ServerCreated(Ok(server(4242))));
    match a {
        ProvisionAction::PatchNode(patch) => {
            assert_eq!(patch.node, "w-1");
            assert_eq!(patch.label_key, LABEL_SERVER_ID);
            assert_eq!(patch.label_value, "4242");
            assert_eq!(patch.server_id, 4242);
        }
        other => panic!("unexpected {:?}", other),
    }
    let a = p.step(ProvisionEvent::NodePatched(Ok(())));
    assert!(matches!(a, ProvisionAction::ReadNodeUid(ref n) if n == "w-1"));
    let a = p.step(ProvisionEvent::NodeUidRead(Some("uid-1".into())));
    match a {
        ProvisionAction::EmitEvent(e) => {
            assert_eq!(e.node, "w-1");
            assert_eq!(e.node_uid.as_deref(), Some("uid-1"));
            assert_eq!(e.reason, "ServerCreated");
            assert_eq!(e.action, "Provision");
            assert_eq!(e.event_type, "Normal");
            assert_eq!(e.message, "Created BinaryLane server 4242 (std-2, syd)");
        }
        other => panic!("unexpected {:?}", other),
    }
    let a = p.step(ProvisionEvent::EventEmitted(Ok(())));
    assert!(matches!(a, ProvisionAction::Finish(Ok(4242))));
    assert_eq!(p.phase(), ProvisionPhase::Done);
}

#[test]
fn provisioning_reuses_existing_server() {
    let (mut p, _) = Provisioning::begin(target());
    p.step(ProvisionEvent::SecretRead(Ok(None)));
    p.step(ProvisionEvent::SecretRead(Ok(Some(None))));
    let a = p.step(ProvisionEvent::ServerFound(Ok(Some(server(9)))));
    assert!(matches!(a, ProvisionAction::PatchNode(ref patch) if patch.server_id == 9 && patch.label_value == "9"));
    p.step(ProvisionEvent::NodePatched(Ok(())));
    p.step(ProvisionEvent::NodeUidRead(None));
    // A failed Event does not fail provisioning.
    let a = p.step(ProvisionEvent::EventEmitted(Err("forbidden".into())));
    assert!(matches!(a, ProvisionAction::Finish(Ok(9))));
}

#[test]
fn missing_secret_keys_give_no_password() {
    let (mut p, _) = Provisioning::begin(target());
    p.step(secret("other", b"x"));
    p.step(ProvisionEvent::SecretRead(Ok(None)));
    match p.step(ProvisionEvent::ServerFound(Ok(None))) {
        ProvisionAction::CreateServer(r) => {
            assert_eq!(r.password, None);
            assert_eq!(r.user_data, None);
        }
        other => panic!("unexpected {:?}", other),
    }
}

#[test]
fn each_failure_ends_provisioning() {
    let fail = |events: Vec<ProvisionEvent>| -> (ProvisionStage, String) {
        let (mut p, _) = Provisioning::begin(target());
        let mut last = None;
        for e in events {
            last = Some(p.step(e));
        }
        assert_eq!(p.phase(), ProvisionPhase::Done);
        match last {
            Some(ProvisionAction::Finish(Err(e))) => (e.stage, e.context()),
            other => panic!("unexpected {:?}", other),
        }
    };
    let e = ProvisionEvent::SecretRead;
    assert_eq!(
        fail(vec![e(Err("x".into()))]),
        (ProvisionStage::PasswordSecret, "getting password secret".to_string())
    );
    assert_eq!(
        fail(vec![e(Ok(None)), e(Err("x".into()))]),
        (ProvisionStage::UserDataSecret, "getting user-data secret".to_string())
    );
    assert_eq!(
        fail(vec![e(Ok(None)), e(Ok(None)), ProvisionEvent::ServerFound(Err("x".into()))]),
        (ProvisionStage::ServerLookup, "checking for existing server".to_string())
    );
    assert_eq!(
        fail(vec![
            e(Ok(None)),
            e(Ok(None)),
            ProvisionEvent::ServerFound(Ok(None)),
            ProvisionEvent::ServerCreated(Err("quota".into())),
        ]),
        (ProvisionStage::ServerCreate, "creating server".to_string())
    );
    assert_eq!(
        fail(vec![
            e(Ok(None)),
            e(Ok(None)),
            ProvisionEvent::ServerFound(Ok(Some(server(1)))),
            ProvisionEvent::NodePatched(Err("conflict".into())),
        ]),
        (ProvisionStage::NodePatch, "patching node with provider ID".to_string())
    );
}
