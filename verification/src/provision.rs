//! Node provisioning: which Kubernetes Nodes ask for a BinaryLane server,
//! and the decisions of provisioning one, from reading its secrets to
//! announcing the server on the Node.
use vstd::prelude::*;

use crate::resolve::{entry_value, find_entry};
use crate::string_map::StringMap;
use crate::text::{decimal_text, i64_to_text, utf8_lossy, utf8_text_lossy};

verus! {

/// Label that binds a Node to the BinaryLane server backing it.
pub const LABEL_SERVER_ID: &'static str = "blc.samcday.com/server-id";

/// Label naming the BinaryLane size slug a Node asks for.
pub const LABEL_SIZE: &'static str = "blc.samcday.com/size";

/// Label naming the BinaryLane region slug a Node asks for.
pub const LABEL_REGION: &'static str = "blc.samcday.com/region";

/// Label naming the BinaryLane image slug a Node asks for.
pub const LABEL_IMAGE: &'static str = "blc.samcday.com/image";

/// What provisioning reads of a Kubernetes Node.
#[derive(Debug)]
pub struct NodeSummary {
    pub name: Option<String>,
    pub labels: Option<StringMap>,
    /// The Node has a deletion timestamp.
    pub deleting: bool,
}

/// A Node to provision, with the server shape its labels ask for.
#[derive(Debug)]
pub struct ProvisionTarget {
    pub name: String,
    pub size: String,
    pub region: String,
    pub image: String,
}

/// The abstract value of a [`ProvisionTarget`].
pub struct TargetView {
    pub name: Seq<char>,
    pub size: Seq<char>,
    pub region: Seq<char>,
    pub image: Seq<char>,
}

impl View for ProvisionTarget {
    type V = TargetView;

    open spec fn view(&self) -> TargetView {
        TargetView {
            name: self.name@,
            size: self.size@,
            region: self.region@,
            image: self.image@,
        }
    }
}

/// The server a Node asks for, if any: a named Node that is not bound to a
/// server yet, is not being deleted, and carries all three of the size,
/// region and image labels.
pub open spec fn node_target(n: NodeSummary) -> Option<TargetView> {
    match n.name {
        None => None,
        Some(name) => match n.labels {
            None => None,
            Some(l) => if l@.contains_key(LABEL_SERVER_ID@) || n.deleting || !l@.contains_key(
                LABEL_SIZE@,
            ) || !l@.contains_key(LABEL_REGION@) || !l@.contains_key(LABEL_IMAGE@) {
                None
            } else {
                Some(
                    TargetView {
                        name: name@,
                        size: l@[LABEL_SIZE@],
                        region: l@[LABEL_REGION@],
                        image: l@[LABEL_IMAGE@],
                    },
                )
            },
        },
    }
}

/// The servers a list of Nodes asks for, in order.
pub open spec fn node_targets(nodes: Seq<NodeSummary>) -> Seq<TargetView>
    decreases nodes.len(),
{
    if nodes.len() == 0 {
        Seq::empty()
    } else {
        let rest = node_targets(nodes.drop_last());
        match node_target(nodes.last()) {
            Some(t) => rest.push(t),
            None => rest,
        }
    }
}

/// The server a Node asks for, as [`node_target`] states.
pub fn target_for(node: &NodeSummary) -> (t: Option<ProvisionTarget>)
    ensures
        match t {
            Some(t) => node_target(*node) == Some(t@),
            None => node_target(*node) is None,
        },
{
    let name = match &node.name {
        Some(n) => n,
        None => return None,
    };
    let labels = match &node.labels {
        Some(l) => l,
        None => return None,
    };
    // Skip nodes already bound to a server.
    if labels.contains_key(&String::from_str(LABEL_SERVER_ID)) {
        return None;
    }
    // Skip nodes being deleted.
    if node.deleting {
        return None;
    }
    // Need all three provision labels.
    let size = match labels.get(&String::from_str(LABEL_SIZE)) {
        Some(s) => s,
        None => return None,
    };
    let region = match labels.get(&String::from_str(LABEL_REGION)) {
        Some(r) => r,
        None => return None,
    };
    let image = match labels.get(&String::from_str(LABEL_IMAGE)) {
        Some(i) => i,
        None => return None,
    };
    Some(
        ProvisionTarget {
            name: name.clone(),
            size: size.clone(),
            region: region.clone(),
            image: image.clone(),
        },
    )
}

/// The servers a list of Nodes asks for, as [`node_targets`] states.
pub fn provision_targets(nodes: &Vec<NodeSummary>) -> (ts: Vec<ProvisionTarget>)
    ensures
        ts@.map_values(|t: ProvisionTarget| t@) == node_targets(nodes@),
{
    let mut ts: Vec<ProvisionTarget> = Vec::new();
    let mut i: usize = 0;
    assert(nodes@.take(0) =~= Seq::<NodeSummary>::empty());
    while i < nodes.len()
        invariant
            i <= nodes@.len(),
            ts@.map_values(|t: ProvisionTarget| t@) =~= node_targets(nodes@.take(i as int)),
        decreases nodes@.len() - i,
    {
        let ghost before = ts@;
        let t = target_for(&nodes[i]);
        proof {
            assert(nodes@.take(i + 1).drop_last() =~= nodes@.take(i as int));
            assert(nodes@.take(i + 1).last() == nodes@[i as int]);
        }
        match t {
            Some(t) => {
                ts.push(t);
                assert(ts@.map_values(|t: ProvisionTarget| t@) =~= before.map_values(
                    |t: ProvisionTarget| t@,
                ).push(ts@.last()@));
            },
            None => {},
        }
        i = i + 1;
    }
    assert(nodes@.take(i as int) =~= nodes@);
    ts
}

/// One of the two per-node Secrets that provisioning reads.
#[derive(Debug, Clone, Copy, PartialEq, Eq, Structural)]
pub enum NodeSecret {
    /// The Secret holding the node's password under the key `password`.
    Password,
    /// The Secret holding the node's rendered user-data under the key `user-data`.
    UserData,
}

/// A BinaryLane server, as provisioning sees it.
#[derive(Debug)]
pub struct ServerInfo {
    pub id: i64,
    pub size_slug: String,
    pub region_slug: String,
}

/// The abstract value of a [`ServerInfo`].
pub struct ServerView {
    pub id: i64,
    pub size_slug: Seq<char>,
    pub region_slug: Seq<char>,
}

impl View for ServerInfo {
    type V = ServerView;

    open spec fn view(&self) -> ServerView {
        ServerView { id: self.id, size_slug: self.size_slug@, region_slug: self.region_slug@ }
    }
}

/// A request to create a BinaryLane server (with no SSH keys).
#[derive(Debug)]
pub struct ServerRequest {
    pub name: String,
    pub size: String,
    pub image: String,
    pub region: String,
    pub user_data: Option<String>,
    pub password: Option<String>,
}

/// The abstract value of a [`ServerRequest`].
pub struct ServerRequestView {
    pub name: Seq<char>,
    pub size: Seq<char>,
    pub image: Seq<char>,
    pub region: Seq<char>,
    pub user_data: Option<Seq<char>>,
    pub password: Option<Seq<char>>,
}

/// The abstract value of an optional string.
pub open spec fn opt_text(o: Option<String>) -> Option<Seq<char>> {
    match o {
        Some(s) => Some(s@),
        None => None,
    }
}

impl View for ServerRequest {
    type V = ServerRequestView;

    open spec fn view(&self) -> ServerRequestView {
        ServerRequestView {
            name: self.name@,
            size: self.size@,
            image: self.image@,
            region: self.region@,
            user_data: opt_text(self.user_data),
            password: opt_text(self.password),
        }
    }
}

/// A merge patch of a Node: one label, and the provider ID of the server
/// (which the BinaryLane client derives from `server_id`).
#[derive(Debug)]
pub struct NodePatch {
    pub node: String,
    pub label_key: String,
    pub label_value: String,
    pub server_id: i64,
}

/// The abstract value of a [`NodePatch`].
pub struct NodePatchView {
    pub node: Seq<char>,
    pub label_key: Seq<char>,
    pub label_value: Seq<char>,
    pub server_id: i64,
}

impl View for NodePatch {
    type V = NodePatchView;

    open spec fn view(&self) -> NodePatchView {
        NodePatchView {
            node: self.node@,
            label_key: self.label_key@,
            label_value: self.label_value@,
            server_id: self.server_id,
        }
    }
}

/// A Kubernetes Event on a Node.
#[derive(Debug)]
pub struct NodeEvent {
    pub node: String,
    pub node_uid: Option<String>,
    pub reason: String,
    pub action: String,
    pub event_type: String,
    pub message: String,
}

/// The abstract value of a [`NodeEvent`].
pub struct NodeEventView {
    pub node: Seq<char>,
    pub node_uid: Option<Seq<char>>,
    pub reason: Seq<char>,
    pub action: Seq<char>,
    pub event_type: Seq<char>,
    pub message: Seq<char>,
}

impl View for NodeEvent {
    type V = NodeEventView;

    open spec fn view(&self) -> NodeEventView {
        NodeEventView {
            node: self.node@,
            node_uid: opt_text(self.node_uid),
            reason: self.reason@,
            action: self.action@,
            event_type: self.event_type@,
            message: self.message@,
        }
    }
}

/// The step of provisioning that failed.
#[derive(Debug, Clone, Copy, PartialEq, Eq, Structural)]
pub enum ProvisionStage {
    PasswordSecret,
    UserDataSecret,
    ServerLookup,
    ServerCreate,
    NodePatch,
}

/// A failed provisioning: the step that failed, and the failure's message.
#[derive(Debug)]
pub struct ProvisionError {
    pub stage: ProvisionStage,
    pub cause: String,
}

/// The abstract value of a [`ProvisionError`].
pub struct ProvisionErrorView {
    pub stage: ProvisionStage,
    pub cause: Seq<char>,
}

impl View for ProvisionError {
    type V = ProvisionErrorView;

    open spec fn view(&self) -> ProvisionErrorView {
        ProvisionErrorView { stage: self.stage, cause: self.cause@ }
    }
}

/// What a failing step was doing.
pub open spec fn stage_context(stage: ProvisionStage) -> Seq<char> {
    match stage {
        ProvisionStage::PasswordSecret => "getting password secret"@,
        ProvisionStage::UserDataSecret => "getting user-data secret"@,
        ProvisionStage::ServerLookup => "checking for existing server"@,
        ProvisionStage::ServerCreate => "creating server"@,
        ProvisionStage::NodePatch => "patching node with provider ID"@,
    }
}

impl ProvisionError {
    /// What the failing step was doing, as [`stage_context`] states.
    pub fn context(&self) -> (s: String)
        ensures
            s@ == stage_context(self.stage),
    {
        match self.stage {
            ProvisionStage::PasswordSecret => String::from_str("getting password secret"),
            ProvisionStage::UserDataSecret => String::from_str("getting user-data secret"),
            ProvisionStage::ServerLookup => String::from_str("checking for existing server"),
            ProvisionStage::ServerCreate => String::from_str("creating server"),
            ProvisionStage::NodePatch => String::from_str("patching node with provider ID"),
        }
    }
}

/// What provisioning asks its caller to do next.
#[derive(Debug)]
pub enum ProvisionAction {
    /// Read one of the node's Secrets and report it with `SecretRead`.
    ReadSecret(NodeSecret),
    /// Look up the server whose hostname is this and report it with `ServerFound`.
    FindServer(String),
    /// Create this server and report it with `ServerCreated`.
    CreateServer(ServerRequest),
    /// Apply this patch and report it with `NodePatched`.
    PatchNode(NodePatch),
    /// Read the UID of this Node and report it with `NodeUidRead`.
    ReadNodeUid(String),
    /// Create this Event and report it with `EventEmitted`.
    EmitEvent(NodeEvent),
    /// Provisioning is over: the server's id, or why it failed.
    Finish(Result<i64, ProvisionError>),
}

/// The abstract value of a [`ProvisionAction`].
pub enum ProvisionActionView {
    ReadSecret(NodeSecret),
    FindServer(Seq<char>),
    CreateServer(ServerRequestView),
    PatchNode(NodePatchView),
    ReadNodeUid(Seq<char>),
    EmitEvent(NodeEventView),
    Finish(Result<i64, ProvisionErrorView>),
}

impl View for ProvisionAction {
    type V = ProvisionActionView;

    open spec fn view(&self) -> ProvisionActionView {
        match self {
            ProvisionAction::ReadSecret(k) => ProvisionActionView::ReadSecret(*k),
            ProvisionAction::FindServer(h) => ProvisionActionView::FindServer(h@),
            ProvisionAction::CreateServer(r) => ProvisionActionView::CreateServer(r@),
            ProvisionAction::PatchNode(p) => ProvisionActionView::PatchNode(p@),
            ProvisionAction::ReadNodeUid(n) => ProvisionActionView::ReadNodeUid(n@),
            ProvisionAction::EmitEvent(e) => ProvisionActionView::EmitEvent(e@),
            ProvisionAction::Finish(Ok(id)) => ProvisionActionView::Finish(Ok(*id)),
            ProvisionAction::Finish(Err(e)) => ProvisionActionView::Finish(Err(e@)),
        }
    }
}

/// What the caller reports of the action it was asked to do. A failed
/// call is reported with its error's message.
#[derive(Debug)]
pub enum ProvisionEvent {
    /// The Secret, if it exists, with its data entries if it has any.
    SecretRead(Result<Option<Option<Vec<(String, Vec<u8>)>>>, String>),
    /// The server with the hostname, if one exists.
    ServerFound(Result<Option<ServerInfo>, String>),
    ServerCreated(Result<ServerInfo, String>),
    NodePatched(Result<(), String>),
    /// The Node's UID, if it could be read.
    NodeUidRead(Option<String>),
    EventEmitted(Result<(), String>),
}

/// Where provisioning stands.
#[derive(Debug, Clone, Copy, PartialEq, Eq, Structural)]
pub enum ProvisionPhase {
    ReadingPassword,
    ReadingUserData,
    FindingServer,
    CreatingServer,
    Patching,
    ReadingUid,
    Emitting,
    Done,
}

/// The abstract state of a provisioning.
pub struct ProvisionModel {
    pub target: TargetView,
    pub phase: ProvisionPhase,
    pub password: Option<Seq<char>>,
    pub user_data: Option<Seq<char>>,
    pub server: Option<ServerView>,
}

/// The text a read Secret holds under `key`, decoded leniently from UTF-8.
pub open spec fn secret_text(
    secret: Option<Option<Vec<(String, Vec<u8>)>>>,
    key: Seq<char>,
) -> Option<Seq<char>> {
    match secret {
        Some(Some(data)) => match entry_value(data@, key) {
            Some(bytes) => Some(utf8_lossy(bytes@)),
            None => None,
        },
        _ => None,
    }
}

/// The event an accepted report is, for each phase.
pub open spec fn accepts(phase: ProvisionPhase, e: ProvisionEvent) -> bool {
    match phase {
        ProvisionPhase::ReadingPassword | ProvisionPhase::ReadingUserData => e is SecretRead,
        ProvisionPhase::FindingServer => e is ServerFound,
        ProvisionPhase::CreatingServer => e is ServerCreated,
        ProvisionPhase::Patching => e is NodePatched,
        ProvisionPhase::ReadingUid => e is NodeUidRead,
        ProvisionPhase::Emitting => e is EventEmitted,
        ProvisionPhase::Done => false,
    }
}

/// The patch that binds the Node of `t` to `srv`: the server-id label set
/// to the server's id in decimal, and the server's provider ID.
pub open spec fn patch_for(t: TargetView, srv: ServerView) -> ProvisionActionView {
    ProvisionActionView::PatchNode(
        NodePatchView {
            node: t.name,
            label_key: LABEL_SERVER_ID@,
            label_value: decimal_text(srv.id as int),
            server_id: srv.id,
        },
    )
}

/// The request that creates the server a Node asks for, with the password
/// and user-data read from its Secrets.
pub open spec fn request_for(m: ProvisionModel) -> ServerRequestView {
    ServerRequestView {
        name: m.target.name,
        size: m.target.size,
        image: m.target.image,
        region: m.target.region,
        user_data: m.user_data,
        password: m.password,
    }
}

/// The Event that announces on a Node the server created for it.
pub open spec fn event_for(t: TargetView, uid: Option<Seq<char>>, srv: ServerView) -> NodeEventView {
    NodeEventView {
        node: t.name,
        node_uid: uid,
        reason: "ServerCreated"@,
        action: "Provision"@,
        event_type: "Normal"@,
        message: "Created BinaryLane server "@ + decimal_text(srv.id as int) + " ("@
            + srv.size_slug + ", "@ + srv.region_slug + ")"@,
    }
}

/// The failure of `stage` with message `m`: provisioning ends.
pub open spec fn failed(m: ProvisionModel, stage: ProvisionStage, cause: Seq<char>) -> (
    ProvisionModel,
    ProvisionActionView,
) {
    (
        ProvisionModel { phase: ProvisionPhase::Done, ..m },
        ProvisionActionView::Finish(Err(ProvisionErrorView { stage, cause })),
    )
}

/// The next state and action of provisioning after an accepted report.
/// The secrets are read first, the password then the user-data; an existing
/// server with the Node's name as hostname is reused, so that a retry does
/// not create a second one, and a server is created only when none exists;
/// the Node is then patched, and an Event announces the server, whose
/// failure does not fail provisioning. Any other failure ends it.
pub open spec fn transition(m: ProvisionModel, e: ProvisionEvent) -> (
    ProvisionModel,
    ProvisionActionView,
) {
    match (m.phase, e) {
        (ProvisionPhase::ReadingPassword, ProvisionEvent::SecretRead(r)) => match r {
            Err(c) => failed(m, ProvisionStage::PasswordSecret, c@),
            Ok(s) => (
                ProvisionModel {
                    phase: ProvisionPhase::ReadingUserData,
                    password: secret_text(s, "password"@),
                    ..m
                },
                ProvisionActionView::ReadSecret(NodeSecret::UserData),
            ),
        },
        (ProvisionPhase::ReadingUserData, ProvisionEvent::SecretRead(r)) => match r {
            Err(c) => failed(m, ProvisionStage::UserDataSecret, c@),
            Ok(s) => (
                ProvisionModel {
                    phase: ProvisionPhase::FindingServer,
                    user_data: secret_text(s, "user-data"@),
                    ..m
                },
                ProvisionActionView::FindServer(m.target.name),
            ),
        },
        (ProvisionPhase::FindingServer, ProvisionEvent::ServerFound(r)) => match r {
            Err(c) => failed(m, ProvisionStage::ServerLookup, c@),
            Ok(Some(srv)) => (
                ProvisionModel { phase: ProvisionPhase::Patching, server: Some(srv@), ..m },
                patch_for(m.target, srv@),
            ),
            Ok(None) => (
                ProvisionModel { phase: ProvisionPhase::CreatingServer, ..m },
                ProvisionActionView::CreateServer(request_for(m)),
            ),
        },
        (ProvisionPhase::CreatingServer, ProvisionEvent::ServerCreated(r)) => match r {
            Err(c) => failed(m, ProvisionStage::ServerCreate, c@),
            Ok(srv) => (
                ProvisionModel { phase: ProvisionPhase::Patching, server: Some(srv@), ..m },
                patch_for(m.target, srv@),
            ),
        },
        (ProvisionPhase::Patching, ProvisionEvent::NodePatched(r)) => match r {
            Err(c) => failed(m, ProvisionStage::NodePatch, c@),
            Ok(()) => (
                ProvisionModel { phase: ProvisionPhase::ReadingUid, ..m },
                ProvisionActionView::ReadNodeUid(m.target.name),
            ),
        },
        (ProvisionPhase::ReadingUid, ProvisionEvent::NodeUidRead(uid)) => (
            ProvisionModel { phase: ProvisionPhase::Emitting, ..m },
            ProvisionActionView::EmitEvent(event_for(m.target, opt_text(uid), m.server.unwrap())),
        ),
        (ProvisionPhase::Emitting, ProvisionEvent::EventEmitted(_)) => (
            ProvisionModel { phase: ProvisionPhase::Done, ..m },
            ProvisionActionView::Finish(Ok(m.server.unwrap().id)),
        ),
        _ => (m, ProvisionActionView::Finish(Ok(0))),
    }
}

/// The state a provisioning starts in, with the action it starts with.
pub open spec fn initial(t: TargetView) -> (ProvisionModel, ProvisionActionView) {
    (
        ProvisionModel {
            target: t,
            phase: ProvisionPhase::ReadingPassword,
            password: None,
            user_data: None,
            server: None,
        },
        ProvisionActionView::ReadSecret(NodeSecret::Password),
    )
}

/// In the phases after a server was found or created, it is known.
pub open spec fn model_wf(m: ProvisionModel) -> bool {
    match m.phase {
        ProvisionPhase::Patching | ProvisionPhase::ReadingUid | ProvisionPhase::Emitting =>
            m.server is Some,
        _ => true,
    }
}

/// The provisioning of one Node.
pub struct Provisioning {
    target: ProvisionTarget,
    phase: ProvisionPhase,
    password: Option<String>,
    user_data: Option<String>,
    server: Option<ServerInfo>,
}

impl Provisioning {
    /// The abstract state.
    pub closed spec fn model(self) -> ProvisionModel {
        ProvisionModel {
            target: self.target@,
            phase: self.phase,
            password: opt_text(self.password),
            user_data: opt_text(self.user_data),
            server: match self.server {
                Some(s) => Some(s@),
                None => None,
            },
        }
    }

    /// Starts provisioning `target`, as [`initial`] states.
    pub fn begin(target: ProvisionTarget) -> (r: (Provisioning, ProvisionAction))
        ensures
            (r.0.model(), r.1@) == initial(target@),
            model_wf(r.0.model()),
    {
        (
            Provisioning {
                target,
                phase: ProvisionPhase::ReadingPassword,
                password: None,
                user_data: None,
                server: None,
            },
            ProvisionAction::ReadSecret(NodeSecret::Password),
        )
    }

    /// Where provisioning stands.
    pub fn phase(&self) -> (p: ProvisionPhase)
        ensures
            p == self.model().phase,
    {
        self.phase
    }

    fn secret_entry_text(
        secret: &Option<Option<Vec<(String, Vec<u8>)>>>,
        key: &str,
    ) -> (t: Option<String>)
        ensures
            opt_text(t) == secret_text(*secret, key@),
    {
        match secret {
            Some(Some(data)) => match find_entry(data, &String::from_str(key)) {
                Some(bytes) => Some(utf8_text_lossy(bytes)),
                None => None,
            },
            _ => None,
        }
    }

    fn patch(&self, srv: &ServerInfo) -> (a: ProvisionAction)
        ensures
            a@ == patch_for(self.model().target, srv@),
    {
        ProvisionAction::PatchNode(
            NodePatch {
                node: self.target.name.clone(),
                label_key: String::from_str(LABEL_SERVER_ID),
                label_value: i64_to_text(srv.id),
                server_id: srv.id,
            },
        )
    }

    fn fail(&mut self, stage: ProvisionStage, cause: String) -> (a: ProvisionAction)
        ensures
            (final(self).model(), a@) == failed(old(self).model(), stage, cause@),
    {
        self.phase = ProvisionPhase::Done;
        ProvisionAction::Finish(Err(ProvisionError { stage, cause }))
    }

    fn announcement(&self, uid: Option<String>) -> (e: NodeEvent)
        requires
            self.server is Some,
        ensures
            e@ == event_for(self.model().target, opt_text(uid), self.model().server.unwrap()),
    {
        let srv = self.server.as_ref().unwrap();
        let message = String::from_str("Created BinaryLane server ").concat(
            i64_to_text(srv.id).as_str(),
        ).concat(" (").concat(srv.size_slug.as_str()).concat(", ").concat(
            srv.region_slug.as_str(),
        ).concat(")");
        NodeEvent {
            node: self.target.name.clone(),
            node_uid: uid,
            reason: String::from_str("ServerCreated"),
            action: String::from_str("Provision"),
            event_type: String::from_str("Normal"),
            message,
        }
    }

    /// Takes the report of the last action and says what to do next, as
    /// [`transition`] states.
    pub fn step(&mut self, event: ProvisionEvent) -> (a: ProvisionAction)
        requires
            accepts(old(self).model().phase, event),
            model_wf(old(self).model()),
        ensures
            (final(self).model(), a@) == transition(old(self).model(), event),
            model_wf(final(self).model()),
    {
        match event {
            ProvisionEvent::SecretRead(r) => match r {
                Err(c) => {
                    let stage = if self.phase == ProvisionPhase::ReadingPassword {
                        ProvisionStage::PasswordSecret
                    } else {
                        ProvisionStage::UserDataSecret
                    };
                    self.fail(stage, c)
                },
                Ok(s) => {
                    if self.phase == ProvisionPhase::ReadingPassword {
                        self.password = Self::secret_entry_text(&s, "password");
                        self.phase = ProvisionPhase::ReadingUserData;
                        ProvisionAction::ReadSecret(NodeSecret::UserData)
                    } else {
                        self.user_data = Self::secret_entry_text(&s, "user-data");
                        self.phase = ProvisionPhase::FindingServer;
                        ProvisionAction::FindServer(self.target.name.clone())
                    }
                },
            },
            ProvisionEvent::ServerFound(r) => match r {
                Err(c) => self.fail(ProvisionStage::ServerLookup, c),
                Ok(Some(srv)) => {
                    let a = self.patch(&srv);
                    self.server = Some(srv);
                    self.phase = ProvisionPhase::Patching;
                    a
                },
                Ok(None) => {
                    self.phase = ProvisionPhase::CreatingServer;
                    ProvisionAction::CreateServer(
                        ServerRequest {
                            name: self.target.name.clone(),
                            size: self.target.size.clone(),
                            image: self.target.image.clone(),
                            region: self.target.region.clone(),
                            user_data: self.user_data.clone(),
                            password: self.password.clone(),
                        },
                    )
                },
            },
            ProvisionEvent::ServerCreated(r) => match r {
                Err(c) => self.fail(ProvisionStage::ServerCreate, c),
                Ok(srv) => {
                    let a = self.patch(&srv);
                    self.server = Some(srv);
                    self.phase = ProvisionPhase::Patching;
                    a
                },
            },
            ProvisionEvent::NodePatched(r) => match r {
                Err(c) => self.fail(ProvisionStage::NodePatch, c),
                Ok(()) => {
                    self.phase = ProvisionPhase::ReadingUid;
                    ProvisionAction::ReadNodeUid(self.target.name.clone())
                },
            },
            ProvisionEvent::NodeUidRead(uid) => {
                let e = self.announcement(uid);
                self.phase = ProvisionPhase::Emitting;
                ProvisionAction::EmitEvent(e)
            },
            ProvisionEvent::EventEmitted(_) => {
                self.phase = ProvisionPhase::Done;
                ProvisionAction::Finish(Ok(self.server.as_ref().unwrap().id))
            },
        }
    }
}

/// How far provisioning has come; every accepted report moves it further.
pub open spec fn phase_rank(p: ProvisionPhase) -> int {
    match p {
        ProvisionPhase::ReadingPassword => 0,
        ProvisionPhase::ReadingUserData => 1,
        ProvisionPhase::FindingServer => 2,
        ProvisionPhase::CreatingServer => 3,
        ProvisionPhase::Patching => 4,
        ProvisionPhase::ReadingUid => 5,
        ProvisionPhase::Emitting => 6,
        ProvisionPhase::Done => 7,
    }
}

/// A Node that is already bound to a server, or that is being deleted, asks
/// for no server.
pub proof fn law_bound_or_deleting_nodes_skipped(n: NodeSummary)
    requires
        n.deleting || (n.labels matches Some(l) && l@.contains_key(LABEL_SERVER_ID@)),
    ensures
        node_target(n) is None,
{
}

/// A Node asks for a server only with a name and all three of the size,
/// region and image labels, and then for the server those labels describe.
pub proof fn law_target_from_labels(n: NodeSummary)
    requires
        node_target(n) is Some,
    ensures
        n.name is Some,
        n.labels is Some,
        !n.deleting,
        !n.labels.unwrap()@.contains_key(LABEL_SERVER_ID@),
        node_target(n).unwrap().name == n.name.unwrap()@,
        node_target(n).unwrap().size == n.labels.unwrap()@[LABEL_SIZE@],
        node_target(n).unwrap().region == n.labels.unwrap()@[LABEL_REGION@],
        node_target(n).unwrap().image == n.labels.unwrap()@[LABEL_IMAGE@],
{
}

/// Every accepted report moves provisioning forward, so it ends after at
/// most seven reports; once it is over it accepts none.
pub proof fn law_provisioning_progresses(m: ProvisionModel, e: ProvisionEvent)
    requires
        accepts(m.phase, e),
    ensures
        phase_rank(transition(m, e).0.phase) > phase_rank(m.phase),
        m.phase != ProvisionPhase::Done,
{
}

/// A server is created only after the lookup by hostname found none: an
/// existing server is reused instead, so a retried provisioning does not
/// create a duplicate.
pub proof fn law_create_only_when_absent(m: ProvisionModel, e: ProvisionEvent)
    requires
        accepts(m.phase, e),
        transition(m, e).1 is CreateServer,
    ensures
        m.phase == ProvisionPhase::FindingServer,
        e matches ProvisionEvent::ServerFound(Ok(None)),
{
}

/// When the lookup finds a server, that server is the one the Node is
/// bound to, and none is created.
pub proof fn law_existing_server_reused(m: ProvisionModel, srv: ServerInfo)
    requires
        m.phase == ProvisionPhase::FindingServer,
    ensures
        ({
            let (n, a) = transition(m, ProvisionEvent::ServerFound(Ok(Some(srv))));
            &&& n.server == Some(srv@)
            &&& a == patch_for(m.target, srv@)
            &&& !(a is CreateServer)
        }),
{
}

/// The create request names the server after the Node and carries the shape
/// its labels ask for and the password and user-data read from its Secrets.
pub proof fn law_request_from_node(m: ProvisionModel)
    requires
        m.phase == ProvisionPhase::FindingServer,
    ensures
        ({
            let a = transition(m, ProvisionEvent::ServerFound(Ok(None))).1;
            &&& a matches ProvisionActionView::CreateServer(r)
            &&& r.name == m.target.name
            &&& r.size == m.target.size
            &&& r.region == m.target.region
            &&& r.image == m.target.image
            &&& r.password == m.password
            &&& r.user_data == m.user_data
        }),
{
}

/// The patch binds the Node to the server provisioning holds: the
/// server-id label is that server's id in decimal.
pub proof fn law_patch_binds_server(m: ProvisionModel, e: ProvisionEvent)
    requires
        accepts(m.phase, e),
        transition(m, e).1 is PatchNode,
    ensures
        ({
            let (n, a) = transition(m, e);
            &&& a matches ProvisionActionView::PatchNode(p)
            &&& n.server matches Some(srv)
            &&& p.server_id == srv.id
            &&& p.label_key == LABEL_SERVER_ID@
            &&& p.label_value == decimal_text(srv.id as int)
            &&& p.node == m.target.name
        }),
{
}

/// Provisioning fails exactly on a failed read of a Secret, lookup,
/// creation or patch, and then ends; a failure to create the Event does not
/// fail it.
pub proof fn law_failures_end_provisioning(m: ProvisionModel, e: ProvisionEvent)
    requires
        accepts(m.phase, e),
        model_wf(m),
    ensures
        transition(m, e).1 is Finish ==> transition(m, e).0.phase == ProvisionPhase::Done,
        transition(m, e).1 matches ProvisionActionView::Finish(Err(_)) <==> match e {
            ProvisionEvent::SecretRead(r) => r is Err,
            ProvisionEvent::ServerFound(r) => r is Err,
            ProvisionEvent::ServerCreated(r) => r is Err,
            ProvisionEvent::NodePatched(r) => r is Err,
            ProvisionEvent::NodeUidRead(_) => false,
            ProvisionEvent::EventEmitted(_) => false,
        },
        m.phase == ProvisionPhase::Emitting ==> transition(m, e).1 == ProvisionActionView::Finish(
            Ok(m.server.unwrap().id),
        ),
{
}

/// A named Node that is not bound to a server and not being deleted, and
/// that carries the size, region and image labels, asks for the server
/// those labels describe.
pub proof fn law_labelled_node_is_target(n: NodeSummary)
    requires
        n.name is Some,
        n.labels is Some,
        !n.deleting,
        !n.labels->0@.contains_key(LABEL_SERVER_ID@),
        n.labels->0@.contains_key(LABEL_SIZE@),
        n.labels->0@.contains_key(LABEL_REGION@),
        n.labels->0@.contains_key(LABEL_IMAGE@),
    ensures
        node_target(n) == Some(
            TargetView {
                name: n.name->0@,
                size: n.labels->0@[LABEL_SIZE@],
                region: n.labels->0@[LABEL_REGION@],
                image: n.labels->0@[LABEL_IMAGE@],
            },
        ),
{
}

/// The targets of a single Node: its own target, if it has one.
pub open spec fn own_target(n: NodeSummary) -> Seq<TargetView> {
    match node_target(n) {
        Some(t) => seq![t],
        None => Seq::empty(),
    }
}

/// Each Node is judged on its own: the targets of two lists one after the
/// other are the targets of the first followed by those of the second, and
/// a single Node contributes its own target, if any.
pub proof fn law_targets_judge_each_node(a: Seq<NodeSummary>, b: Seq<NodeSummary>)
    ensures
        node_targets(a + b) == node_targets(a) + node_targets(b),
        forall|n: NodeSummary| #[trigger] node_targets(seq![n]) == own_target(n),
    decreases b.len(),
{
    assert forall|n: NodeSummary| #[trigger] node_targets(seq![n]) == own_target(n) by {
        assert(seq![n].drop_last() =~= Seq::<NodeSummary>::empty());
        assert(node_targets(Seq::<NodeSummary>::empty()) =~= Seq::<TargetView>::empty());
        assert(Seq::<TargetView>::empty().push(node_target(n)->0) =~= seq![node_target(n)->0]);
    }
    if b.len() == 0 {
        assert(a + b =~= a);
        assert(node_targets(a) + node_targets(b) =~= node_targets(a));
    } else {
        law_targets_judge_each_node(a, b.drop_last());
        assert((a + b).drop_last() =~= a + b.drop_last());
        assert((a + b).last() == b.last());
        match node_target(b.last()) {
            Some(t) => {
                assert(node_targets(a) + node_targets(b.drop_last()).push(t) =~= (node_targets(a)
                    + node_targets(b.drop_last())).push(t));
            },
            None => {},
        }
    }
}

} // verus!
