//! Index and shard summaries, read from the rows of the tabular endpoints.
//!
//! Those endpoints write every number as a string, so counts are parsed from
//! text. A row that lacks a column still gives a record.

use crate::json::{items_view, Json, JsonView};
use crate::text::{optional_text, views};
use vstd::prelude::*;
use vstd::string::*;

verus! {

/// What the cluster reports of one index.
#[derive(Debug, Clone, PartialEq, Eq)]
pub struct IndexInfo {
    pub name: String,
    pub docs_count: i64,
    pub size_in_bytes: i64,
    pub health: String,
    pub status: String,
    pub uuid: String,
    pub creation_date: String,
}

/// An [`IndexInfo`] over sequences.
pub struct IndexInfoView {
    pub name: Seq<char>,
    pub docs_count: i64,
    pub size_in_bytes: i64,
    pub health: Seq<char>,
    pub status: Seq<char>,
    pub uuid: Seq<char>,
    pub creation_date: Seq<char>,
}

impl View for IndexInfo {
    type V = IndexInfoView;

    open spec fn view(&self) -> IndexInfoView {
        IndexInfoView {
            name: self.name@,
            docs_count: self.docs_count,
            size_in_bytes: self.size_in_bytes,
            health: self.health@,
            status: self.status@,
            uuid: self.uuid@,
            creation_date: self.creation_date@,
        }
    }
}

/// The summary that a row of the index table gives. A missing name is the
/// empty text; a missing or unreadable count is zero; missing health, status
/// and uuid are `unknown`; a missing creation date is `0`.
pub open spec fn index_info(row: JsonView) -> IndexInfoView {
    IndexInfoView {
        name: row.text_or("index"@, ""@),
        docs_count: row.count_or_zero("docs.count"@),
        size_in_bytes: row.count_or_zero("store.size"@),
        health: row.text_or("health"@, "unknown"@),
        status: row.text_or("status"@, "unknown"@),
        uuid: row.text_or("uuid"@, "unknown"@),
        creation_date: row.text_or("creation.date"@, "0"@),
    }
}

/// The summaries that the rows of the index table give, row by row.
pub open spec fn index_infos(rows: Seq<JsonView>) -> Seq<IndexInfoView> {
    rows.map_values(|row: JsonView| index_info(row))
}

impl IndexInfo {
    /// Reads the summary of one index from its row.
    pub fn from_json(row: &Json) -> (info: IndexInfo)
        ensures
            info@ == index_info(row@),
    {
        IndexInfo {
            name: row.text_or("index", ""),
            docs_count: row.count_or_zero("docs.count"),
            size_in_bytes: row.count_or_zero("store.size"),
            health: row.text_or("health", "unknown"),
            status: row.text_or("status", "unknown"),
            uuid: row.text_or("uuid", "unknown"),
            creation_date: row.text_or("creation.date", "0"),
        }
    }

    /// Reads the summaries of all indices, one from each row, in order.
    pub fn list_from_json(rows: &Vec<Json>) -> (infos: Vec<IndexInfo>)
        ensures
            views(infos@) == index_infos(items_view(rows@)),
    {
        let mut infos: Vec<IndexInfo> = Vec::new();
        let mut at: usize = 0;
        while at < rows.len()
            invariant
                at <= rows.len(),
                infos.len() == at,
                forall|i: int| 0 <= i < at ==> (#[trigger] infos@[i])@ == index_info(rows@[i]@),
            decreases rows.len() - at,
        {
            infos.push(IndexInfo::from_json(&rows[at]));
            at += 1;
        }
        assert(views(infos@) =~= index_infos(items_view(rows@)));
        infos
    }
}

/// Where one shard of an index lies and in what state it is.
#[derive(Debug, Clone, PartialEq, Eq)]
pub struct ShardInfo {
    pub index: String,
    pub shard: i64,
    pub prirep: String,
    pub state: String,
    /// The number of documents, where the row gives one.
    pub docs: Option<i64>,
    /// The size of the store, where the row gives one.
    pub store: Option<String>,
    /// The node that holds the shard, where the row names one.
    pub node: Option<String>,
}

/// A [`ShardInfo`] over sequences.
pub struct ShardInfoView {
    pub index: Seq<char>,
    pub shard: i64,
    pub prirep: Seq<char>,
    pub state: Seq<char>,
    pub docs: Option<i64>,
    pub store: Option<Seq<char>>,
    pub node: Option<Seq<char>>,
}

impl View for ShardInfo {
    type V = ShardInfoView;

    open spec fn view(&self) -> ShardInfoView {
        ShardInfoView {
            index: self.index@,
            shard: self.shard,
            prirep: self.prirep@,
            state: self.state@,
            docs: self.docs,
            store: optional_text(self.store),
            node: optional_text(self.node),
        }
    }
}

/// The summary that a row of the shard table gives. Missing texts are
/// empty and a missing shard number is zero; the document count, the store
/// size and the node stay absent where the row does not give them, so that
/// a column that was not seen differs from one that was seen empty.
pub open spec fn shard_info(row: JsonView) -> ShardInfoView {
    ShardInfoView {
        index: row.text_or("index"@, ""@),
        shard: row.count_or_zero("shard"@),
        prirep: row.text_or("prirep"@, ""@),
        state: row.text_or("state"@, ""@),
        docs: row.count("docs"@),
        store: row.text("store"@),
        node: row.text("node"@),
    }
}

/// The summaries that the rows of the shard table give, row by row.
pub open spec fn shard_infos(rows: Seq<JsonView>) -> Seq<ShardInfoView> {
    rows.map_values(|row: JsonView| shard_info(row))
}

impl ShardInfo {
    /// Reads the summary of one shard from its row.
    pub fn from_json(row: &Json) -> (info: ShardInfo)
        ensures
            info@ == shard_info(row@),
    {
        ShardInfo {
            index: row.text_or("index", ""),
            shard: row.count_or_zero("shard"),
            prirep: row.text_or("prirep", ""),
            state: row.text_or("state", ""),
            docs: row.count("docs"),
            store: row.optional_text("store"),
            node: row.optional_text("node"),
        }
    }

    /// Reads the summaries of all shards, one from each row, in order.
    pub fn list_from_json(rows: &Vec<Json>) -> (infos: Vec<ShardInfo>)
        ensures
            views(infos@) == shard_infos(items_view(rows@)),
    {
        let mut infos: Vec<ShardInfo> = Vec::new();
        let mut at: usize = 0;
        while at < rows.len()
            invariant
                at <= rows.len(),
                infos.len() == at,
                forall|i: int| 0 <= i < at ==> (#[trigger] infos@[i])@ == shard_info(rows@[i]@),
            decreases rows.len() - at,
        {
            infos.push(ShardInfo::from_json(&rows[at]));
            at += 1;
        }
        assert(views(infos@) =~= shard_infos(items_view(rows@)));
        infos
    }
}

/// A row without a `node` column gives a summary without a node, and a row
/// whose `node` column is a string gives that string, the empty one too.
pub proof fn lemma_shard_node_absent_or_observed(row: JsonView)
    ensures
        row.field("node"@) is None ==> shard_info(row).node is None,
        row.field("node"@) matches Some(JsonView::String(node)) ==> shard_info(row).node == Some(
            node,
        ),
{
}

/// A row without a `docs.count` column counts no documents, and a row whose
/// `docs.count` column writes a decimal `i64` counts that many.
pub proof fn lemma_index_docs_count(row: JsonView)
    ensures
        row.field("docs.count"@) is None ==> index_info(row).docs_count == 0,
        row.field("docs.count"@) matches Some(JsonView::String(text)) ==> index_info(
            row,
        ).docs_count == match crate::text::decimal_i64(text) {
            Some(count) => count,
            None => 0,
        },
{
}

} // verus!
