use binarylane_controller::crd::AutoScalingGroupStatus;
use binarylane_controller::status::StatusClass;
use binarylane_controller::string_map::{text_less, StringMap};
use binarylane_controller::text::{i64_to_text, utf8_text, utf8_text_lossy};
use binarylane_controller::user_data::RenderError;
use tonic::{Code, Status};

#[test]
fn string_map_insert_then_get() {
    let mut m = StringMap::new();
    assert_eq!(m.len(), 0);
    m.insert("a".to_string(), "1".to_string());
    m.insert("b".to_string(), "2".to_string());
    assert_eq!(m.get(&"a".to_string()), Some(&"1".to_string()));
    assert_eq!(m.get(&"b".to_string()), Some(&"2".to_string()));
    assert_eq!(m.get(&"c".to_string()), None);
    assert!(m.contains_key(&"a".to_string()));
    assert!(!m.contains_key(&"c".to_string()));
    assert_eq!(m.len(), 2);
}

#[test]
fn string_map_overwrite_keeps_one_entry() {
    let mut m = StringMap::new();
    m.insert("k".to_string(), "old".to_string());
    m.insert("other".to_string(), "x".to_string());
    m.insert("k".to_string(), "new".to_string());
    assert_eq!(m.len(), 2);
    assert_eq!(m.get(&"k".to_string()), Some(&"new".to_string()));
    assert_eq!(m.get(&"other".to_string()), Some(&"x".to_string()));
    let (k, v) = m.entry(0);
    assert_eq!((k.as_str(), v.as_str()), ("k", "new"));
}

#[test]
fn string_map_clone_is_equal() {
    let mut m = StringMap::new();
    m.insert("k".to_string(), "v".to_string());
    let c = m.clone();
    assert_eq!(c.len(), 1);
    assert_eq!(c.get(&"k".to_string()), Some(&"v".to_string()));
}

#[test]
fn decimal_text_of_integers() {
    assert_eq!(i64_to_text(0), "0");
    assert_eq!(i64_to_text(12345), "12345");
    assert_eq!(i64_to_text(-42), "-42");
}

#[test]
fn utf8_decoding() {
    assert_eq!(utf8_text("héllo".as_bytes().to_vec()), Some("héllo".to_string()));
    assert_eq!(utf8_text(vec![0x66, 0xff]), None);
    assert_eq!(utf8_text_lossy(&vec![0x66, 0xff]), "f\u{FFFD}");
    assert_eq!(utf8_text_lossy(&b"pw".to_vec()), "pw");
}

#[test]
fn error_messages() {
    assert_eq!(
        RenderError::ReservedName("node".into()).message(),
        "template variable 'node' collides with built-in scope (node/asg)"
    );
    assert_eq!(
        RenderError::MissingSource("foo".into()).message(),
        "template variable 'foo' has neither value nor valueFrom"
    );
    assert_eq!(
        RenderError::AmbiguousSource("foo".into()).message(),
        "template variable 'foo' sets both value and valueFrom"
    );
    assert_eq!(
        RenderError::AmbiguousValueFrom("foo".into()).message(),
        "template variable 'foo' valueFrom sets both secretKeyRef and configMapKeyRef"
    );
    assert_eq!(
        RenderError::EmptyValueFrom("foo".into()).message(),
        "template variable 'foo' valueFrom sets neither secretKeyRef nor configMapKeyRef"
    );
    assert_eq!(
        RenderError::SecretNotFound { ns: "ns".into(), name: "s".into() }.message(),
        "secret ns/s not found"
    );
    assert_eq!(
        RenderError::SecretMissingKey { ns: "ns".into(), name: "s".into(), key: "k".into() }
            .message(),
        "secret ns/s missing key 'k'"
    );
    assert_eq!(
        RenderError::SecretNotUtf8 { ns: "ns".into(), name: "s".into(), key: "k".into() }
            .message(),
        "secret ns/s key 'k' is not valid UTF-8"
    );
    assert_eq!(
        RenderError::ConfigMapNotFound { ns: "ns".into(), name: "c".into() }.message(),
        "configmap ns/c not found"
    );
    assert_eq!(
        RenderError::ConfigMapMissingKey { ns: "ns".into(), name: "c".into(), key: "k".into() }
            .message(),
        "configmap ns/c missing key 'k'"
    );
    assert_eq!(RenderError::Kube("boom".into()).message(), "kube API error: boom");
    assert_eq!(RenderError::Template("bad".into()).message(), "template error: bad");
}

#[test]
fn status_classes() {
    assert_eq!(
        RenderError::EmptyValueFrom("x".into()).status_class(),
        StatusClass::InvalidArgument
    );
    assert_eq!(
        RenderError::ConfigMapNotFound { ns: "a".into(), name: "b".into() }.status_class(),
        StatusClass::NotFound
    );
    assert_eq!(
        RenderError::SecretNotUtf8 { ns: "a".into(), name: "b".into(), key: "c".into() }
            .status_class(),
        StatusClass::FailedPrecondition
    );
    assert_eq!(RenderError::Kube("x".into()).status_class(), StatusClass::Internal);
}

#[test]
fn grpc_status_from_render_error() {
    let s = Status::from(RenderError::ReservedName("asg".into()));
    assert_eq!(s.code(), Code::InvalidArgument);
    assert_eq!(
        s.message(),
        "template variable 'asg' collides with built-in scope (node/asg)"
    );
    let s = Status::from(RenderError::SecretNotFound { ns: "n".into(), name: "s".into() });
    assert_eq!(s.code(), Code::NotFound);
    assert_eq!(s.message(), "secret n/s not found");
    let s = Status::from(RenderError::Template("oops".into()));
    assert_eq!(s.code(), Code::FailedPrecondition);
    assert_eq!(s.message(), "template error: oops");
    let s = Status::from(RenderError::Kube("down".into()));
    assert_eq!(s.code(), Code::Internal);
    assert_eq!(s.message(), "kube API error: down");
}

#[test]
fn string_map_keeps_key_order() {
    let mut m = StringMap::new();
    m.insert("z".to_string(), "1".to_string());
    m.insert("ab".to_string(), "2".to_string());
    m.insert("a".to_string(), "3".to_string());
    m.insert("é".to_string(), "4".to_string());
    m.insert("z".to_string(), "5".to_string());
    let keys: Vec<(String, String)> = (0..m.len())
        .map(|i| {
            let (k, v) = m.entry(i);
            (k.clone(), v.clone())
        })
        .collect();
    let expected: Vec<(String, String)> = vec![
        ("a".into(), "3".into()),
        ("ab".into(), "2".into()),
        ("z".into(), "5".into()),
        ("é".into(), "4".into()),
    ];
    assert_eq!(keys, expected);
}

#[test]
fn text_order_matches_string_ord() {
    let words = ["", "a", "ab", "b", "B", "é", "z", "zz", "\u{10000}"];
    for x in words {
        for y in words {
            assert_eq!(text_less(&x.to_string(), &y.to_string()), x < y, "{x} < {y}");
        }
    }
}

#[test]
fn group_status_defaults_to_no_replicas() {
    let s = AutoScalingGroupStatus::default();
    assert_eq!(s.replicas, 0);
    assert_eq!(s.last_scale_up, None);
    assert_eq!(s.last_scale_down, None);
}
