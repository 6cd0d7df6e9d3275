//! Snapshot repositories and snapshots: what the cluster lists, and what
//! the library asks of it.

use crate::json::{items_view, members_view, Json, JsonView};
use crate::text::{optional_text, texts, views};
use vstd::prelude::*;
use vstd::string::*;

verus! {

/// A registered place for backups.
#[derive(Debug, Clone, PartialEq, Eq)]
pub struct SnapshotRepository {
    pub name: String,
    pub type_: String,
    /// The repository's settings as the cluster wrote them.
    pub settings: Json,
}

/// A [`SnapshotRepository`] over sequences.
pub struct SnapshotRepositoryView {
    pub name: Seq<char>,
    pub type_: Seq<char>,
    pub settings: JsonView,
}

impl View for SnapshotRepository {
    type V = SnapshotRepositoryView;

    open spec fn view(&self) -> SnapshotRepositoryView {
        SnapshotRepositoryView {
            name: self.name@,
            type_: self.type_@,
            settings: self.settings@,
        }
    }
}

/// The repository that one member of the answer describes: its name is the
/// member's, its type `unknown` where none is given, its settings `Null`
/// where none are given. A member that is no object describes none.
pub open spec fn repository(entry: (Seq<char>, JsonView)) -> Option<SnapshotRepositoryView> {
    if entry.1 is Object {
        Some(
            SnapshotRepositoryView {
                name: entry.0,
                type_: entry.1.text_or("type"@, "unknown"@),
                settings: entry.1.at("settings"@),
            },
        )
    } else {
        None
    }
}

/// The repositories that the answer lists, in the order of its members.
pub open spec fn repositories(answer: JsonView) -> Seq<SnapshotRepositoryView> {
    match answer {
        JsonView::Object(members) => members.filter_map(
            |entry: (Seq<char>, JsonView)| repository(entry),
        ),
        _ => Seq::empty(),
    }
}

impl SnapshotRepository {
    /// Reads the repositories that the answer lists.
    pub fn list_from_json(answer: &Json) -> (found: Vec<SnapshotRepository>)
        ensures
            views(found@) == repositories(answer@),
    {
        let mut found: Vec<SnapshotRepository> = Vec::new();
        match answer.as_object() {
            Some(members) => {
                let ghost all = members_view(members@);
                let ghost pick = |entry: (Seq<char>, JsonView)| repository(entry);
                let mut at: usize = 0;
                assert(all.take(0) =~= Seq::<(Seq<char>, JsonView)>::empty());
                assert(views(found@) =~= all.take(0).filter_map(pick));
                while at < members.len()
                    invariant
                        at <= members.len(),
                        all == members_view(members@),
                        pick == |entry: (Seq<char>, JsonView)| repository(entry),
                        views(found@) == all.take(at as int).filter_map(pick),
                    decreases members.len() - at,
                {
                    proof {
                        all.lemma_filter_map_take_succ(pick, at as int);
                    }
                    let details: &Json = &members[at].1;
                    match details {
                        Json::Object(_) => {
                            let ghost before = views(found@);
                            let settings: Json = match details.get("settings") {
                                Some(given) => given.clone(),
                                None => Json::Null,
                            };
                            let listed = SnapshotRepository {
                                name: members[at].0.clone(),
                                type_: details.text_or("type", "unknown"),
                                settings,
                            };
                            found.push(listed);
                            assert(views(found@) =~= before + seq![listed@]);
                        },
                        _ => {},
                    }
                    at += 1;
                }
                assert(all.take(at as int) =~= all);
            },
            None => {
                assert(views(found@) =~= Seq::<SnapshotRepositoryView>::empty());
            },
        }
        found
    }
}

/// How the shards of a snapshot fared.
#[derive(Debug, Clone, Copy, PartialEq, Eq)]
pub struct SnapshotShards {
    pub total: i32,
    pub failed: i32,
    pub successful: i32,
}

/// One backup of the cluster at a point in time.
#[derive(Debug, Clone, PartialEq, Eq)]
pub struct Snapshot {
    pub snapshot: String,
    pub state: String,
    pub start_time: String,
    pub end_time: Option<String>,
    pub duration_in_millis: Option<i64>,
    pub indices: Vec<String>,
    pub shards: SnapshotShards,
}

/// A [`Snapshot`] over sequences.
pub struct SnapshotView {
    pub snapshot: Seq<char>,
    pub state: Seq<char>,
    pub start_time: Seq<char>,
    pub end_time: Option<Seq<char>>,
    pub duration_in_millis: Option<i64>,
    pub indices: Seq<Seq<char>>,
    pub shards: SnapshotShards,
}

impl View for Snapshot {
    type V = SnapshotView;

    open spec fn view(&self) -> SnapshotView {
        SnapshotView {
            snapshot: self.snapshot@,
            state: self.state@,
            start_time: self.start_time@,
            end_time: optional_text(self.end_time),
            duration_in_millis: self.duration_in_millis,
            indices: texts(self.indices@),
            shards: self.shards,
        }
    }
}

/// The shard counts that a snapshot's `shards` member gives, zero for each
/// count that is missing.
pub open spec fn snapshot_shards(shards: JsonView) -> SnapshotShards {
    SnapshotShards {
        total: shards.int32_or_zero("total"@),
        failed: shards.int32_or_zero("failed"@),
        successful: shards.int32_or_zero("successful"@),
    }
}

/// The snapshot that one item of the answer describes. Missing texts are
/// empty; the end time and the duration stay absent where they are not
/// given; the list of indices is empty where it is missing or no array. An
/// item that is no object describes none.
pub open spec fn snapshot(item: JsonView) -> Option<SnapshotView> {
    if item is Object {
        Some(
            SnapshotView {
                snapshot: item.text_or("snapshot"@, ""@),
                state: item.text_or("state"@, ""@),
                start_time: item.text_or("start_time"@, ""@),
                end_time: item.text("end_time"@),
                duration_in_millis: item.integer("duration_in_millis"@),
                indices: item.at("indices"@).strings(),
                shards: snapshot_shards(item.at("shards"@)),
            },
        )
    } else {
        None
    }
}

/// The snapshots that the answer lists under `snapshots`, in order.
pub open spec fn snapshots(answer: JsonView) -> Seq<SnapshotView> {
    match answer.at("snapshots"@) {
        JsonView::Array(items) => items.filter_map(|item: JsonView| snapshot(item)),
        _ => Seq::empty(),
    }
}

impl SnapshotShards {
    /// Reads the shard counts from a snapshot's `shards` member.
    pub fn from_json(shards: &Json) -> (counts: SnapshotShards)
        ensures
            counts == snapshot_shards(shards@),
    {
        SnapshotShards {
            total: shards.int32_or_zero("total"),
            failed: shards.int32_or_zero("failed"),
            successful: shards.int32_or_zero("successful"),
        }
    }
}

impl Snapshot {
    /// Reads one snapshot from its item; `None` where the item is no object.
    pub fn from_json(item: &Json) -> (found: Option<Snapshot>)
        ensures
            match found {
                Some(read) => snapshot(item@) == Some(read@),
                None => snapshot(item@) is None,
            },
    {
        match item {
            Json::Object(_) => {
                let indices: Vec<String> = match item.get("indices") {
                    Some(listed) => listed.strings(),
                    None => {
                        let none: Vec<String> = Vec::new();
                        assert(texts(none@) =~= Seq::<Seq<char>>::empty());
                        none
                    },
                };
                let shards: SnapshotShards = match item.get("shards") {
                    Some(counts) => SnapshotShards::from_json(counts),
                    None => SnapshotShards::from_json(&Json::Null),
                };
                Some(
                    Snapshot {
                        snapshot: item.text_or("snapshot", ""),
                        state: item.text_or("state", ""),
                        start_time: item.text_or("start_time", ""),
                        end_time: item.optional_text("end_time"),
                        duration_in_millis: item.integer("duration_in_millis"),
                        indices,
                        shards,
                    },
                )
            },
            _ => None,
        }
    }

    /// Reads the snapshots that the answer lists.
    pub fn list_from_json(answer: &Json) -> (found: Vec<Snapshot>)
        ensures
            views(found@) == snapshots(answer@),
    {
        let mut found: Vec<Snapshot> = Vec::new();
        let listed: Option<&Vec<Json>> = match answer.get("snapshots") {
            Some(value) => value.as_array(),
            None => None,
        };
        match listed {
            Some(items) => {
                let ghost all = items_view(items@);
                let ghost pick = |item: JsonView| snapshot(item);
                let mut at: usize = 0;
                assert(all.take(0) =~= Seq::<JsonView>::empty());
                assert(views(found@) =~= all.take(0).filter_map(pick));
                while at < items.len()
                    invariant
                        at <= items.len(),
                        all == items_view(items@),
                        pick == |item: JsonView| snapshot(item),
                        views(found@) == all.take(at as int).filter_map(pick),
                    decreases items.len() - at,
                {
                    proof {
                        all.lemma_filter_map_take_succ(pick, at as int);
                    }
                    match Snapshot::from_json(&items[at]) {
                        Some(read) => {
                            let ghost before = views(found@);
                            found.push(read);
                            assert(views(found@) =~= before + seq![read@]);
                        },
                        None => {},
                    }
                    at += 1;
                }
                assert(all.take(at as int) =~= all);
            },
            None => {
                assert(views(found@) =~= Seq::<SnapshotView>::empty());
            },
        }
        found
    }
}

/// The body of the request that registers a repository: its type, then its
/// settings.
pub open spec fn repository_body(type_: Seq<char>, settings: JsonView) -> JsonView {
    JsonView::Object(seq![("type"@, JsonView::String(type_)), ("settings"@, settings)])
}

/// The body of a request to take or to restore a snapshot. Indices that are
/// unavailable are passed over, and the cluster's global state is left out,
/// always. The indices are named only where the caller chose some.
pub open spec fn snapshot_body(indices: Option<Seq<Seq<char>>>) -> JsonView {
    let policy = seq![
        ("ignore_unavailable"@, JsonView::Bool(true)),
        ("include_global_state"@, JsonView::Bool(false)),
    ];
    match indices {
        Some(names) => JsonView::Object(
            policy.push(
                ("indices"@, JsonView::Array(names.map_values(|name: Seq<char>| JsonView::String(name)))),
            ),
        ),
        None => JsonView::Object(policy),
    }
}

/// The character sequences of an optional list of strings.
pub open spec fn optional_texts(strings: Option<Vec<String>>) -> Option<Seq<Seq<char>>> {
    match strings {
        Some(list) => Some(texts(list@)),
        None => None,
    }
}

/// A request to register a repository under a name.
#[derive(Debug, Clone, PartialEq, Eq)]
pub struct RepositoryRequest {
    pub name: String,
    pub body: Json,
}

/// A request to take or to restore a snapshot.
#[derive(Debug, Clone, PartialEq, Eq)]
pub struct SnapshotRequest {
    pub repository: String,
    pub snapshot: String,
    pub body: Json,
    /// Whether the cluster is to answer only when the work is done.
    pub wait_for_completion: bool,
}

/// A request to delete snapshots of a repository.
#[derive(Debug, Clone, PartialEq, Eq)]
pub struct SnapshotDeletion {
    pub repository: String,
    pub snapshots: Vec<String>,
}

impl RepositoryRequest {
    /// The request that registers the repository `name`.
    pub fn new(name: &str, type_: &str, settings: Json) -> (request: RepositoryRequest)
        ensures
            request.name@ == name@,
            request.body@ == repository_body(type_@, settings@),
    {
        let mut members: Vec<(String, Json)> = Vec::new();
        members.push((String::from_str("type"), Json::string(type_)));
        members.push((String::from_str("settings"), settings));
        assert(members_view(members@) =~= seq![
            ("type"@, JsonView::String(type_@)),
            ("settings"@, settings@),
        ]);
        RepositoryRequest { name: String::from_str(name), body: Json::object(members) }
    }
}

impl SnapshotRequest {
    /// The request that takes or restores `snapshot` of `repository`. It
    /// never waits for the work to be done.
    pub fn new(repository: &str, snapshot: &str, indices: Option<Vec<String>>) -> (request:
        SnapshotRequest)
        ensures
            request.repository@ == repository@,
            request.snapshot@ == snapshot@,
            request.body@ == snapshot_body(optional_texts(indices)),
            !request.wait_for_completion,
    {
        let mut members: Vec<(String, Json)> = Vec::new();
        members.push((String::from_str("ignore_unavailable"), Json::Bool(true)));
        members.push((String::from_str("include_global_state"), Json::Bool(false)));
        let ghost policy = seq![
            ("ignore_unavailable"@, JsonView::Bool(true)),
            ("include_global_state"@, JsonView::Bool(false)),
        ];
        assert(members_view(members@) =~= policy);
        match &indices {
            Some(names) => {
                let listed = Json::strings_array(names);
                members.push((String::from_str("indices"), listed));
                assert(members_view(members@) =~= policy.push(("indices"@, listed@)));
            },
            None => {},
        }
        SnapshotRequest {
            repository: String::from_str(repository),
            snapshot: String::from_str(snapshot),
            body: Json::object(members),
            wait_for_completion: false,
        }
    }
}

impl SnapshotDeletion {
    /// The request that deletes `snapshot` of `repository`, and no other.
    pub fn new(repository: &str, snapshot: &str) -> (request: SnapshotDeletion)
        ensures
            request.repository@ == repository@,
            texts(request.snapshots@) == seq![snapshot@],
    {
        let mut snapshots: Vec<String> = Vec::new();
        snapshots.push(String::from_str(snapshot));
        assert(texts(snapshots@) =~= seq![snapshot@]);
        SnapshotDeletion { repository: String::from_str(repository), snapshots }
    }
}

} // verus!
