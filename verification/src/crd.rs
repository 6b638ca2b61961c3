//! The `AutoScalingGroup` custom resource: the shape of the Nodes an
//! autoscaling group provisions and the variables its user-data template sees.
use vstd::prelude::*;

use crate::string_map::StringMap;

verus! {

/// Spec of an `AutoScalingGroup` (group `blc.samcday.com`, version `v1alpha1`).
#[derive(Clone, Debug)]
pub struct AutoScalingGroupSpec {
    pub min_size: i32,
    pub max_size: i32,
    /// BinaryLane size slug
    pub size: String,
    /// BinaryLane region slug
    pub region: String,
    /// BinaryLane image slug
    pub image: String,
    /// Override vCPU count (defaults from BL size catalog if omitted)
    pub vcpus: Option<i32>,
    /// Override memory in MB (defaults from BL size catalog if omitted)
    pub memory_mb: Option<i32>,
    /// Override disk in GB (defaults from BL size catalog if omitted)
    pub disk_gb: Option<i32>,
    /// Node name prefix. Nodes named {namePrefix}{asgName}-{ts}-{idx}
    pub name_prefix: String,
    /// Reference to a Secret containing a shared password for all nodes.
    /// If omitted, a password is auto-generated into {asgName}-password.
    pub password_secret_ref: Option<SecretRef>,
    /// Cloud-init user-data template (MiniJinja). Rendered per-node at scale-up.
    /// Built-in variables: `node.name`, `node.index`, `node.password`,
    /// `asg.name`, `asg.size`, `asg.region`, `asg.image`, `asg.namePrefix`,
    /// `asg.vcpus`, `asg.memoryMb`, `asg.diskGb`.
    /// User variables from `templateVariables` are available at the top level.
    /// Templating is evaluated at scale-up time only; Secret/ConfigMap changes
    /// do not re-render previously provisioned nodes.
    pub user_data: Option<String>,
    /// Variables injected into the `userData` template, in addition to the
    /// built-in `node.*` and `asg.*` scopes.
    pub template_variables: Vec<TemplateVariable>,
    /// Template applied to Nodes produced by this ASG. Labels/annotations/
    /// taints defined here are merged with controller-owned values at
    /// scale-up time; user values that collide with reserved keys are
    /// dropped and reported as a Warning Event on the ASG.
    pub template: Option<NodeTemplate>,
}

/// A reference to a key of a Secret.
#[derive(Clone, Debug, Default)]
pub struct SecretRef {
    pub name: String,
    /// Namespace of the Secret. Defaults to the controller's namespace.
    pub namespace: Option<String>,
    /// Key within the Secret. Defaults to "user-data" or "password" depending on context.
    pub key: Option<String>,
}

/// Metadata and spec applied to every Node an autoscaling group creates.
#[derive(Clone, Debug, Default)]
pub struct NodeTemplate {
    pub metadata: Option<NodeTemplateMeta>,
    pub spec: Option<NodeTemplateSpec>,
}

/// Labels and annotations of a [`NodeTemplate`].
#[derive(Clone, Debug, Default)]
pub struct NodeTemplateMeta {
    /// Additional labels to apply to provisioned Nodes. Values that collide
    /// with controller-owned labels are dropped.
    pub labels: Option<StringMap>,
    /// Annotations to apply to provisioned Nodes.
    pub annotations: Option<StringMap>,
}

/// Taints of a [`NodeTemplate`].
#[derive(Clone, Debug, Default)]
pub struct NodeTemplateSpec {
    /// Additional taints to apply to provisioned Nodes. Entries whose key
    /// collides with controller-owned taints are dropped.
    pub taints: Option<Vec<NodeTaint>>,
}

/// A Node taint.
#[derive(Clone, Debug)]
pub struct NodeTaint {
    pub key: String,
    pub value: Option<String>,
    /// One of: NoSchedule, PreferNoSchedule, NoExecute.
    pub effect: String,
}

/// A variable of the user-data template: a literal value or a reference to
/// a Secret or ConfigMap key.
#[derive(Clone, Debug)]
pub struct TemplateVariable {
    pub name: String,
    pub value: Option<String>,
    pub value_from: Option<TemplateVariableSource>,
}

/// Where a template variable's value is read from.
#[derive(Clone, Debug, Default)]
pub struct TemplateVariableSource {
    pub secret_key_ref: Option<KeySelector>,
    pub config_map_key_ref: Option<KeySelector>,
}

/// A key of a named Secret or ConfigMap.
#[derive(Clone, Debug, Default)]
pub struct KeySelector {
    pub name: String,
    /// Namespace of the resource. Defaults to the controller's namespace.
    pub namespace: Option<String>,
    pub key: String,
}

/// Status of an `AutoScalingGroup`.
#[derive(Clone, Debug, Default)]
pub struct AutoScalingGroupStatus {
    /// Current number of nodes in this group
    pub replicas: i32,
    /// Timestamp of the last scale-up event, in RFC 3339 form
    pub last_scale_up: Option<String>,
    /// Timestamp of the last scale-down event, in RFC 3339 form
    pub last_scale_down: Option<String>,
}

} // verus!
