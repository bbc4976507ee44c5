//! `GET /api2/json/cluster/status`: the state of the cluster and of each of
//! its nodes.

use crate::client::{built_request, decode, decoded_body, ProxmoxApiService};
use crate::decode::{
    decode_flag, decode_string, decode_u16, field, flag_field, outcome, string_field, u16_field,
    DecodeError, DecodeErrorView, FromJson,
};
use crate::error::RequestBuildError;
use crate::request::Request;
use crate::json::{
    entries_value, lemma_lookup_at, Json, JsonNumber, JsonValue, NumberValue,
};
use vstd::prelude::*;

verus! {

/// The state of the cluster as a whole.
#[derive(Debug, Clone, PartialEq, Eq)]
pub struct ClusterStatus {
    pub id: String,
    pub name: String,
    /// How many nodes the cluster has.
    pub nodes: u16,
    /// Whether enough nodes are reachable to decide for the cluster.
    pub quorate: bool,
}

/// What a [`ClusterStatus`] holds.
pub struct ClusterStatusView {
    pub id: Seq<char>,
    pub name: Seq<char>,
    pub nodes: u16,
    pub quorate: bool,
}

impl DeepView for ClusterStatus {
    type V = ClusterStatusView;

    open spec fn deep_view(&self) -> ClusterStatusView {
        ClusterStatusView { id: self.id@, name: self.name@, nodes: self.nodes, quorate: self.quorate }
    }
}

/// The state of one node.
#[derive(Debug, Clone, PartialEq, Eq)]
pub struct NodeStatus {
    pub id: String,
    pub name: String,
    pub ip: String,
    /// Whether this is the node that answers.
    pub local: bool,
    /// The node's number within the cluster.
    pub nodeid: u16,
    pub online: bool,
}

/// What a [`NodeStatus`] holds.
pub struct NodeStatusView {
    pub id: Seq<char>,
    pub name: Seq<char>,
    pub ip: Seq<char>,
    pub local: bool,
    pub nodeid: u16,
    pub online: bool,
}

impl DeepView for NodeStatus {
    type V = NodeStatusView;

    open spec fn deep_view(&self) -> NodeStatusView {
        NodeStatusView {
            id: self.id@,
            name: self.name@,
            ip: self.ip@,
            local: self.local,
            nodeid: self.nodeid,
            online: self.online,
        }
    }
}

/// One record of the status list: the member `type` of the object says
/// which, `"cluster"` or `"node"`.
#[derive(Debug, Clone, PartialEq, Eq)]
pub enum AllStatus {
    Cluster(ClusterStatus),
    Node(NodeStatus),
}

/// What an [`AllStatus`] holds.
pub enum AllStatusView {
    Cluster(ClusterStatusView),
    Node(NodeStatusView),
}

impl DeepView for AllStatus {
    type V = AllStatusView;

    open spec fn deep_view(&self) -> AllStatusView {
        match self {
            AllStatus::Cluster(c) => AllStatusView::Cluster(c.deep_view()),
            AllStatus::Node(n) => AllStatusView::Node(n.deep_view()),
        }
    }
}

impl FromJson for ClusterStatus {
    /// The members are read in the order `id`, `name`, `nodes`, `quorate`;
    /// the first that is missing or ill-formed gives the error.
    open spec fn decoded(doc: JsonValue) -> Result<ClusterStatusView, DecodeErrorView> {
        let id = string_field(doc, "id"@);
        let name = string_field(doc, "name"@);
        let nodes = u16_field(doc, "nodes"@);
        let quorate = flag_field(doc, "quorate"@);
        if id is Err {
            Err(id->Err_0)
        } else if name is Err {
            Err(name->Err_0)
        } else if nodes is Err {
            Err(nodes->Err_0)
        } else if quorate is Err {
            Err(quorate->Err_0)
        } else {
            Ok(
                ClusterStatusView {
                    id: id->Ok_0,
                    name: name->Ok_0,
                    nodes: nodes->Ok_0,
                    quorate: quorate->Ok_0,
                },
            )
        }
    }

    fn from_json(doc: &Json) -> (r: Result<ClusterStatus, DecodeError>) {
        let id = decode_string(field(doc, "id")?)?;
        let name = decode_string(field(doc, "name")?)?;
        let nodes = decode_u16(field(doc, "nodes")?)?;
        let quorate = decode_flag(field(doc, "quorate")?)?;
        Ok(ClusterStatus { id, name, nodes, quorate })
    }
}

impl FromJson for NodeStatus {
    /// The members are read in the order `id`, `name`, `ip`, `local`,
    /// `nodeid`, `online`; the first that is missing or ill-formed gives the
    /// error.
    open spec fn decoded(doc: JsonValue) -> Result<NodeStatusView, DecodeErrorView> {
        let id = string_field(doc, "id"@);
        let name = string_field(doc, "name"@);
        let ip = string_field(doc, "ip"@);
        let local = flag_field(doc, "local"@);
        let nodeid = u16_field(doc, "nodeid"@);
        let online = flag_field(doc, "online"@);
        if id is Err {
            Err(id->Err_0)
        } else if name is Err {
            Err(name->Err_0)
        } else if ip is Err {
            Err(ip->Err_0)
        } else if local is Err {
            Err(local->Err_0)
        } else if nodeid is Err {
            Err(nodeid->Err_0)
        } else if online is Err {
            Err(online->Err_0)
        } else {
            Ok(
                NodeStatusView {
                    id: id->Ok_0,
                    name: name->Ok_0,
                    ip: ip->Ok_0,
                    local: local->Ok_0,
                    nodeid: nodeid->Ok_0,
                    online: online->Ok_0,
                },
            )
        }
    }

    fn from_json(doc: &Json) -> (r: Result<NodeStatus, DecodeError>) {
        let id = decode_string(field(doc, "id")?)?;
        let name = decode_string(field(doc, "name")?)?;
        let ip = decode_string(field(doc, "ip")?)?;
        let local = decode_flag(field(doc, "local")?)?;
        let nodeid = decode_u16(field(doc, "nodeid")?)?;
        let online = decode_flag(field(doc, "online")?)?;
        Ok(NodeStatus { id, name, ip, local, nodeid, online })
    }
}

impl FromJson for AllStatus {
    /// The tag is read first, and matched letter for letter; then the
    /// members that its variant has.
    open spec fn decoded(doc: JsonValue) -> Result<AllStatusView, DecodeErrorView> {
        match string_field(doc, "type"@) {
            Err(e) => Err(e),
            Ok(tag) => if tag == "cluster"@ {
                match ClusterStatus::decoded(doc) {
                    Ok(c) => Ok(AllStatusView::Cluster(c)),
                    Err(e) => Err(e),
                }
            } else if tag == "node"@ {
                match NodeStatus::decoded(doc) {
                    Ok(n) => Ok(AllStatusView::Node(n)),
                    Err(e) => Err(e),
                }
            } else {
                Err(DecodeErrorView::UnknownVariant(tag))
            },
        }
    }

    fn from_json(doc: &Json) -> (r: Result<AllStatus, DecodeError>) {
        let tag = decode_string(field(doc, "type")?)?;
        if tag == "cluster".to_owned() {
            Ok(AllStatus::Cluster(ClusterStatus::from_json(doc)?))
        } else if tag == "node".to_owned() {
            Ok(AllStatus::Node(NodeStatus::from_json(doc)?))
        } else {
            Err(DecodeError::UnknownVariant(tag))
        }
    }
}

/// A flag as it is sent: the integer 1 for `true`, 0 for `false`.
pub open spec fn flag_value(flag: bool) -> JsonValue {
    JsonValue::Number(NumberValue::PosInt(if flag { 1 } else { 0 }))
}

impl ClusterStatusView {
    /// The members of the record, in the order in which they are written.
    pub open spec fn members(self) -> Seq<(Seq<char>, JsonValue)> {
        seq![
            ("id"@, JsonValue::String(self.id)),
            ("name"@, JsonValue::String(self.name)),
            ("nodes"@, JsonValue::Number(NumberValue::PosInt(self.nodes as u64))),
            ("quorate"@, flag_value(self.quorate)),
        ]
    }

    /// The record as a JSON object.
    pub open spec fn encoded(self) -> JsonValue {
        JsonValue::Object(self.members())
    }
}

impl NodeStatusView {
    /// The members of the record, in the order in which they are written.
    pub open spec fn members(self) -> Seq<(Seq<char>, JsonValue)> {
        seq![
            ("id"@, JsonValue::String(self.id)),
            ("name"@, JsonValue::String(self.name)),
            ("ip"@, JsonValue::String(self.ip)),
            ("local"@, flag_value(self.local)),
            ("nodeid"@, JsonValue::Number(NumberValue::PosInt(self.nodeid as u64))),
            ("online"@, flag_value(self.online)),
        ]
    }

    /// The record as a JSON object.
    pub open spec fn encoded(self) -> JsonValue {
        JsonValue::Object(self.members())
    }
}

impl AllStatusView {
    /// The record as a JSON object: the tag first, then the members of the
    /// variant.
    pub open spec fn encoded(self) -> JsonValue {
        match self {
            AllStatusView::Cluster(c) => JsonValue::Object(
                seq![("type"@, JsonValue::String("cluster"@))] + c.members(),
            ),
            AllStatusView::Node(n) => JsonValue::Object(
                seq![("type"@, JsonValue::String("node"@))] + n.members(),
            ),
        }
    }
}

/// The names of the members differ from one another.
proof fn lemma_member_names()
    ensures
        "type"@.len() == 4 && "type"@[0] == 't',
        "id"@.len() == 2,
        "name"@.len() == 4 && "name"@[0] == 'n' && "name"@[1] == 'a',
        "nodes"@.len() == 5 && "nodes"@[0] == 'n',
        "quorate"@.len() == 7,
        "ip"@.len() == 2 && "ip"@[1] == 'p',
        "id"@[1] == 'd',
        "local"@.len() == 5 && "local"@[0] == 'l',
        "nodeid"@.len() == 6 && "nodeid"@[0] == 'n',
        "online"@.len() == 6 && "online"@[0] == 'o',
        "cluster"@.len() == 7,
        "node"@.len() == 4,
{
    reveal_strlit("type");
    reveal_strlit("id");
    reveal_strlit("name");
    reveal_strlit("nodes");
    reveal_strlit("quorate");
    reveal_strlit("ip");
    reveal_strlit("local");
    reveal_strlit("nodeid");
    reveal_strlit("online");
    reveal_strlit("cluster");
    reveal_strlit("node");
}

/// Decoding the JSON object of a cluster record gives the record back.
pub proof fn lemma_cluster_round_trip(status: ClusterStatusView)
    ensures
        ClusterStatus::decoded(status.encoded()) == Ok::<ClusterStatusView, DecodeErrorView>(
            status,
        ),
{
    lemma_member_names();
    let m = status.members();
    lemma_lookup_at(m, "id"@, 0);
    lemma_lookup_at(m, "name"@, 1);
    lemma_lookup_at(m, "nodes"@, 2);
    lemma_lookup_at(m, "quorate"@, 3);
}

/// Decoding the JSON object of a node record gives the record back.
pub proof fn lemma_node_round_trip(status: NodeStatusView)
    ensures
        NodeStatus::decoded(status.encoded()) == Ok::<NodeStatusView, DecodeErrorView>(status),
{
    lemma_member_names();
    let m = status.members();
    lemma_lookup_at(m, "id"@, 0);
    lemma_lookup_at(m, "name"@, 1);
    lemma_lookup_at(m, "ip"@, 2);
    lemma_lookup_at(m, "local"@, 3);
    lemma_lookup_at(m, "nodeid"@, 4);
    lemma_lookup_at(m, "online"@, 5);
}

/// Decoding the JSON object of a status record gives the record back, the
/// variant and every member.
pub proof fn lemma_status_round_trip(status: AllStatusView)
    ensures
        AllStatus::decoded(status.encoded()) == Ok::<AllStatusView, DecodeErrorView>(status),
{
    lemma_member_names();
    match status {
        AllStatusView::Cluster(c) => {
            let m = seq![("type"@, JsonValue::String("cluster"@))] + c.members();
            lemma_lookup_at(m, "type"@, 0);
            lemma_lookup_at(m, "id"@, 1);
            lemma_lookup_at(m, "name"@, 2);
            lemma_lookup_at(m, "nodes"@, 3);
            lemma_lookup_at(m, "quorate"@, 4);
        },
        AllStatusView::Node(n) => {
            let m = seq![("type"@, JsonValue::String("node"@))] + n.members();
            lemma_lookup_at(m, "type"@, 0);
            lemma_lookup_at(m, "id"@, 1);
            lemma_lookup_at(m, "name"@, 2);
            lemma_lookup_at(m, "ip"@, 3);
            lemma_lookup_at(m, "local"@, 4);
            lemma_lookup_at(m, "nodeid"@, 5);
            lemma_lookup_at(m, "online"@, 6);
        },
    }
}

/// The flag as the integer that is sent for it.
fn flag_json(flag: bool) -> (r: Json)
    ensures
        r@ == flag_value(flag),
{
    if flag {
        Json::Number(JsonNumber::PosInt(1))
    } else {
        Json::Number(JsonNumber::PosInt(0))
    }
}

impl ClusterStatus {
    /// Appends the members of the record to `entries`.
    fn push_members(&self, entries: &mut Vec<(String, Json)>)
        ensures
            entries_value(final(entries)@) == entries_value(old(entries)@)
                + self.deep_view().members(),
    {
        let ghost before = entries_value(entries@);
        entries.push(("id".to_owned(), Json::String(self.id.clone())));
        entries.push(("name".to_owned(), Json::String(self.name.clone())));
        entries.push(("nodes".to_owned(), Json::Number(JsonNumber::PosInt(self.nodes as u64))));
        entries.push(("quorate".to_owned(), flag_json(self.quorate)));
        assert(entries_value(entries@) =~= before + self.deep_view().members());
    }

    /// The record as a JSON object.
    pub fn to_json(&self) -> (r: Json)
        ensures
            r@ == self.deep_view().encoded(),
    {
        let mut entries: Vec<(String, Json)> = Vec::new();
        self.push_members(&mut entries);
        assert(entries_value(Seq::<(String, Json)>::empty()) + self.deep_view().members()
            =~= self.deep_view().members());
        Json::object(entries)
    }
}

impl NodeStatus {
    /// Appends the members of the record to `entries`.
    fn push_members(&self, entries: &mut Vec<(String, Json)>)
        ensures
            entries_value(final(entries)@) == entries_value(old(entries)@)
                + self.deep_view().members(),
    {
        let ghost before = entries_value(entries@);
        entries.push(("id".to_owned(), Json::String(self.id.clone())));
        entries.push(("name".to_owned(), Json::String(self.name.clone())));
        entries.push(("ip".to_owned(), Json::String(self.ip.clone())));
        entries.push(("local".to_owned(), flag_json(self.local)));
        entries.push(("nodeid".to_owned(), Json::Number(JsonNumber::PosInt(self.nodeid as u64))));
        entries.push(("online".to_owned(), flag_json(self.online)));
        assert(entries_value(entries@) =~= before + self.deep_view().members());
    }

    /// The record as a JSON object.
    pub fn to_json(&self) -> (r: Json)
        ensures
            r@ == self.deep_view().encoded(),
    {
        let mut entries: Vec<(String, Json)> = Vec::new();
        self.push_members(&mut entries);
        assert(entries_value(Seq::<(String, Json)>::empty()) + self.deep_view().members()
            =~= self.deep_view().members());
        Json::object(entries)
    }
}

impl AllStatus {
    /// The record as a JSON object, tag included.
    pub fn to_json(&self) -> (r: Json)
        ensures
            r@ == self.deep_view().encoded(),
    {
        let mut entries: Vec<(String, Json)> = Vec::new();
        match self {
            AllStatus::Cluster(c) => {
                entries.push(("type".to_owned(), Json::String("cluster".to_owned())));
                assert(entries_value(entries@) =~= seq![
                    ("type"@, JsonValue::String("cluster"@)),
                ]);
                c.push_members(&mut entries);
            },
            AllStatus::Node(n) => {
                entries.push(("type".to_owned(), Json::String("node".to_owned())));
                assert(entries_value(entries@) =~= seq![("type"@, JsonValue::String("node"@))]);
                n.push_members(&mut entries);
            },
        }
        Json::object(entries)
    }
}

/// The path of the status list.
pub open spec fn status_path() -> Seq<char> {
    "/api2/json/cluster/status"@
}

impl ProxmoxApiService {
    /// Builds the request for the status list: a GET for
    /// `/api2/json/cluster/status`.
    pub fn status_request(&self) -> (r: Result<Request, RequestBuildError>)
        ensures
            built_request(r) == self@.get_request(status_path()),
    {
        self.make_get_request("/api2/json/cluster/status")
    }

    /// Reads the status list out of `body`, the body of the answer to
    /// [`ProxmoxApiService::status_request`]: the records of the `data` of
    /// its envelope, in their order.
    pub fn get_status(&self, body: &[u8]) -> (r: Result<Vec<AllStatus>, DecodeError>)
        ensures
            outcome(r) == decoded_body::<Vec<AllStatus>>(body@),
    {
        decode::<Vec<AllStatus>>(body)
    }
}

} // verus!
