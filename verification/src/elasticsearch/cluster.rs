//! The cluster as a whole: its health, and the nodes it is made of.

use crate::json::{members_view, Json, JsonNumber, JsonView};
use crate::text::{texts, views};
use vstd::prelude::*;
use vstd::string::*;

verus! {

/// One node of the cluster.
#[derive(Debug, Clone, PartialEq, Eq)]
pub struct NodeInfo {
    pub name: String,
    pub version: String,
    pub roles: Vec<String>,
    /// The operating system: its name, a space, its version.
    pub os: String,
    /// The runtime: the virtual machine's name, then its version in brackets.
    pub jvm: String,
}

/// A [`NodeInfo`] over sequences.
pub struct NodeInfoView {
    pub name: Seq<char>,
    pub version: Seq<char>,
    pub roles: Seq<Seq<char>>,
    pub os: Seq<char>,
    pub jvm: Seq<char>,
}

impl View for NodeInfo {
    type V = NodeInfoView;

    open spec fn view(&self) -> NodeInfoView {
        NodeInfoView {
            name: self.name@,
            version: self.version@,
            roles: texts(self.roles@),
            os: self.os@,
            jvm: self.jvm@,
        }
    }
}

/// The description of a node's operating system. Each part has its own
/// default, so that a missing part never costs the whole description.
pub open spec fn os_description(os: JsonView) -> Seq<char> {
    os.text_or("name"@, "unknown"@) + " "@ + os.text_or("version"@, ""@)
}

/// The description of a node's runtime.
pub open spec fn jvm_description(jvm: JsonView) -> Seq<char> {
    jvm.text_or("vm_name"@, "unknown"@) + " ("@ + jvm.text_or("version"@, "unknown"@) + ")"@
}

/// The summary that the entry of one node gives.
pub open spec fn node_info(node: JsonView) -> NodeInfoView {
    NodeInfoView {
        name: node.text_or("name"@, "unknown"@),
        version: node.text_or("version"@, "unknown"@),
        roles: node.at("roles"@).strings(),
        os: os_description(node.at("os"@)),
        jvm: jvm_description(node.at("jvm"@)),
    }
}

/// The summaries of the nodes that the answer to the node query lists: one
/// for each member of its `nodes` object, in the order of the members.
pub open spec fn node_infos(nodes: JsonView) -> Seq<NodeInfoView> {
    match nodes.at("nodes"@) {
        JsonView::Object(members) => members.map_values(
            |entry: (Seq<char>, JsonView)| node_info(entry.1),
        ),
        _ => Seq::empty(),
    }
}

/// The version that the first listed node runs, `unknown` where no node is
/// listed or the first does not say.
pub open spec fn first_node_version(nodes: JsonView) -> Seq<char> {
    match nodes.at("nodes"@) {
        JsonView::Object(members) => if members.len() > 0 {
            members[0].1.text_or("version"@, "unknown"@)
        } else {
            "unknown"@
        },
        _ => "unknown"@,
    }
}

/// The text of the member `inner` of the member `outer`, else `default`.
fn nested_text_or(record: &Json, outer: &str, inner: &str, default: &str) -> (text: String)
    ensures
        text@ == record@.at(outer@).text_or(inner@, default@),
{
    match record.get(outer) {
        Some(child) => child.text_or(inner, default),
        None => String::from_str(default),
    }
}

impl NodeInfo {
    /// Reads the summary of one node from its entry.
    pub fn from_json(node: &Json) -> (info: NodeInfo)
        ensures
            info@ == node_info(node@),
    {
        let roles: Vec<String> = match node.get("roles") {
            Some(listed) => listed.strings(),
            None => {
                let none: Vec<String> = Vec::new();
                assert(texts(none@) =~= Seq::<Seq<char>>::empty());
                none
            },
        };
        let os = nested_text_or(node, "os", "name", "unknown").concat(" ").concat(
            nested_text_or(node, "os", "version", "").as_str(),
        );
        let jvm = nested_text_or(node, "jvm", "vm_name", "unknown").concat(" (").concat(
            nested_text_or(node, "jvm", "version", "unknown").as_str(),
        ).concat(")");
        NodeInfo {
            name: node.text_or("name", "unknown"),
            version: node.text_or("version", "unknown"),
            roles,
            os,
            jvm,
        }
    }
}

/// The cluster's health and topology at one moment.
#[derive(Debug, Clone, PartialEq, Eq)]
pub struct ClusterInfo {
    pub name: String,
    pub status: String,
    pub number_of_nodes: i64,
    pub active_primary_shards: i64,
    pub active_shards: i64,
    pub relocating_shards: i64,
    pub initializing_shards: i64,
    pub unassigned_shards: i64,
    pub version: String,
    pub nodes: Vec<NodeInfo>,
}

/// A [`ClusterInfo`] over sequences.
pub struct ClusterInfoView {
    pub name: Seq<char>,
    pub status: Seq<char>,
    pub number_of_nodes: i64,
    pub active_primary_shards: i64,
    pub active_shards: i64,
    pub relocating_shards: i64,
    pub initializing_shards: i64,
    pub unassigned_shards: i64,
    pub version: Seq<char>,
    pub nodes: Seq<NodeInfoView>,
}

impl View for ClusterInfo {
    type V = ClusterInfoView;

    open spec fn view(&self) -> ClusterInfoView {
        ClusterInfoView {
            name: self.name@,
            status: self.status@,
            number_of_nodes: self.number_of_nodes,
            active_primary_shards: self.active_primary_shards,
            active_shards: self.active_shards,
            relocating_shards: self.relocating_shards,
            initializing_shards: self.initializing_shards,
            unassigned_shards: self.unassigned_shards,
            version: self.version@,
            nodes: views(self.nodes@),
        }
    }
}

/// The summary that the answers to the health query and to the node query
/// give together. The status and the shard counts come from the first, the
/// cluster's name, its version and its nodes from the second.
pub open spec fn cluster_info(health: JsonView, nodes: JsonView) -> ClusterInfoView {
    ClusterInfoView {
        name: nodes.text_or("cluster_name"@, "unknown"@),
        status: health.text_or("status"@, "unknown"@),
        number_of_nodes: health.integer_or_zero("number_of_nodes"@),
        active_primary_shards: health.integer_or_zero("active_primary_shards"@),
        active_shards: health.integer_or_zero("active_shards"@),
        relocating_shards: health.integer_or_zero("relocating_shards"@),
        initializing_shards: health.integer_or_zero("initializing_shards"@),
        unassigned_shards: health.integer_or_zero("unassigned_shards"@),
        version: first_node_version(nodes),
        nodes: node_infos(nodes),
    }
}

/// The nodes of a cluster summary stand in the order of the members of the
/// answer's `nodes` object, one for each member, and are not sorted anew.
pub proof fn lemma_nodes_keep_answer_order(
    health: JsonView,
    nodes: JsonView,
    members: Seq<(Seq<char>, JsonView)>,
)
    requires
        nodes.field("nodes"@) == Some(JsonView::Object(members)),
    ensures
        cluster_info(health, nodes).nodes.len() == members.len(),
        forall|i: int|
            0 <= i < members.len() ==> #[trigger] cluster_info(health, nodes).nodes[i] == node_info(
                members[i].1,
            ),
{
}

impl ClusterInfo {
    /// Merges the answers to the health query and to the node query.
    pub fn from_json(health: &Json, nodes: &Json) -> (info: ClusterInfo)
        ensures
            info@ == cluster_info(health@, nodes@),
    {
        let mut node_list: Vec<NodeInfo> = Vec::new();
        let mut version = String::from_str("unknown");
        let listed: Option<&Vec<(String, Json)>> = match nodes.get("nodes") {
            Some(value) => value.as_object(),
            None => None,
        };
        match listed {
            Some(members) => {
                if members.len() > 0 {
                    version = members[0].1.text_or("version", "unknown");
                }
                let mut at: usize = 0;
                while at < members.len()
                    invariant
                        at <= members.len(),
                        node_list.len() == at,
                        forall|i: int|
                            0 <= i < at ==> (#[trigger] node_list@[i])@ == node_info(
                                members@[i].1@,
                            ),
                    decreases members.len() - at,
                {
                    node_list.push(NodeInfo::from_json(&members[at].1));
                    at += 1;
                }
                assert(views(node_list@) =~= node_infos(nodes@));
                assert(members_view(members@).len() > 0 ==> members_view(members@)[0].1
                    == members@[0].1@);
            },
            None => {
                assert(views(node_list@) =~= node_infos(nodes@));
            },
        }
        ClusterInfo {
            name: nodes.text_or("cluster_name", "unknown"),
            status: health.text_or("status", "unknown"),
            number_of_nodes: health.integer_or_zero("number_of_nodes"),
            active_primary_shards: health.integer_or_zero("active_primary_shards"),
            active_shards: health.integer_or_zero("active_shards"),
            relocating_shards: health.integer_or_zero("relocating_shards"),
            initializing_shards: health.integer_or_zero("initializing_shards"),
            unassigned_shards: health.integer_or_zero("unassigned_shards"),
            version,
            nodes: node_list,
        }
    }
}

/// The condensed health of the cluster.
#[derive(Debug, Clone, PartialEq, Eq)]
pub struct ClusterHealth {
    pub cluster_name: String,
    pub status: String,
    pub number_of_nodes: i32,
    pub number_of_data_nodes: i32,
    pub active_primary_shards: i32,
    pub active_shards: i32,
    pub relocating_shards: i32,
    pub initializing_shards: i32,
    pub unassigned_shards: i32,
    pub delayed_unassigned_shards: i32,
    pub number_of_pending_tasks: i32,
    pub number_of_in_flight_fetch: i32,
    pub task_max_waiting_in_queue_millis: i64,
    /// The share of active shards in percent, as the number that the
    /// cluster wrote; the integer zero where it wrote none.
    pub active_shards_percent_as_number: JsonNumber,
}

/// A [`ClusterHealth`] over sequences.
pub struct ClusterHealthView {
    pub cluster_name: Seq<char>,
    pub status: Seq<char>,
    pub number_of_nodes: i32,
    pub number_of_data_nodes: i32,
    pub active_primary_shards: i32,
    pub active_shards: i32,
    pub relocating_shards: i32,
    pub initializing_shards: i32,
    pub unassigned_shards: i32,
    pub delayed_unassigned_shards: i32,
    pub number_of_pending_tasks: i32,
    pub number_of_in_flight_fetch: i32,
    pub task_max_waiting_in_queue_millis: i64,
    pub active_shards_percent_as_number: JsonView,
}

impl View for ClusterHealth {
    type V = ClusterHealthView;

    open spec fn view(&self) -> ClusterHealthView {
        ClusterHealthView {
            cluster_name: self.cluster_name@,
            status: self.status@,
            number_of_nodes: self.number_of_nodes,
            number_of_data_nodes: self.number_of_data_nodes,
            active_primary_shards: self.active_primary_shards,
            active_shards: self.active_shards,
            relocating_shards: self.relocating_shards,
            initializing_shards: self.initializing_shards,
            unassigned_shards: self.unassigned_shards,
            delayed_unassigned_shards: self.delayed_unassigned_shards,
            number_of_pending_tasks: self.number_of_pending_tasks,
            number_of_in_flight_fetch: self.number_of_in_flight_fetch,
            task_max_waiting_in_queue_millis: self.task_max_waiting_in_queue_millis,
            active_shards_percent_as_number: self.active_shards_percent_as_number@,
        }
    }
}

/// The health record that the answer to the health query gives. Missing
/// texts are empty and missing counts are zero.
pub open spec fn cluster_health(health: JsonView) -> ClusterHealthView {
    ClusterHealthView {
        cluster_name: health.text_or("cluster_name"@, ""@),
        status: health.text_or("status"@, ""@),
        number_of_nodes: health.int32_or_zero("number_of_nodes"@),
        number_of_data_nodes: health.int32_or_zero("number_of_data_nodes"@),
        active_primary_shards: health.int32_or_zero("active_primary_shards"@),
        active_shards: health.int32_or_zero("active_shards"@),
        relocating_shards: health.int32_or_zero("relocating_shards"@),
        initializing_shards: health.int32_or_zero("initializing_shards"@),
        unassigned_shards: health.int32_or_zero("unassigned_shards"@),
        delayed_unassigned_shards: health.int32_or_zero("delayed_unassigned_shards"@),
        number_of_pending_tasks: health.int32_or_zero("number_of_pending_tasks"@),
        number_of_in_flight_fetch: health.int32_or_zero("number_of_in_flight_fetch"@),
        task_max_waiting_in_queue_millis: health.integer_or_zero(
            "task_max_waiting_in_queue_millis"@,
        ),
        active_shards_percent_as_number: health.number_or_zero(
            "active_shards_percent_as_number"@,
        ),
    }
}

impl ClusterHealth {
    /// Reads the health record from the answer to the health query.
    pub fn from_json(health: &Json) -> (record: ClusterHealth)
        ensures
            record@ == cluster_health(health@),
    {
        ClusterHealth {
            cluster_name: health.text_or("cluster_name", ""),
            status: health.text_or("status", ""),
            number_of_nodes: health.int32_or_zero("number_of_nodes"),
            number_of_data_nodes: health.int32_or_zero("number_of_data_nodes"),
            active_primary_shards: health.int32_or_zero("active_primary_shards"),
            active_shards: health.int32_or_zero("active_shards"),
            relocating_shards: health.int32_or_zero("relocating_shards"),
            initializing_shards: health.int32_or_zero("initializing_shards"),
            unassigned_shards: health.int32_or_zero("unassigned_shards"),
            delayed_unassigned_shards: health.int32_or_zero("delayed_unassigned_shards"),
            number_of_pending_tasks: health.int32_or_zero("number_of_pending_tasks"),
            number_of_in_flight_fetch: health.int32_or_zero("number_of_in_flight_fetch"),
            task_max_waiting_in_queue_millis: health.integer_or_zero(
                "task_max_waiting_in_queue_millis",
            ),
            active_shards_percent_as_number: health.number_or_zero(
                "active_shards_percent_as_number",
            ),
        }
    }
}

} // verus!
