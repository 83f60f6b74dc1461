//! Messages of the logical replication protocol, and what the client remembers
//! of them.

use std::collections::HashMap;

use vstd::prelude::*;

verus! {

broadcast use vstd::std_specs::hash::group_hash_axioms;

/// An object identifier of PostgreSQL.
pub type Oid = u32;

/// A column of a relation.
#[derive(Debug)]
pub struct ColumnInfo {
    /// The name of the column.
    pub column_name: String,
    /// The object identifier of its type.
    pub column_type: Oid,
}

/// A relation, as the server describes it before it sends rows of it.
#[derive(Debug)]
pub struct RelationInfo {
    /// The object identifier of the relation.
    pub oid: Oid,
    /// The schema that the relation is in.
    pub namespace: String,
    /// The name of the relation.
    pub relation_name: String,
    /// The replica identity setting of the relation.
    pub replica_identity: char,
    /// How many columns the relation has.
    pub column_count: i16,
    /// The columns of the relation.
    pub columns: Vec<ColumnInfo>,
}

/// The value of one column of a row, as text.
#[derive(Debug)]
pub struct ColumnData {
    pub data: String,
}

/// The columns of a row.
#[derive(Debug)]
pub struct TupleData {
    pub columns: Vec<ColumnData>,
}

/// A logical replication message.
#[derive(Debug)]
pub enum ReplicationMessage {
    /// The description of a relation.
    Relation { relation: RelationInfo },
    /// A new row.
    Insert { relation_id: Oid, tuple_data: TupleData, is_stream: bool, xid: Option<u32> },
    /// A changed row.
    Update {
        relation_id: Oid,
        key_type: Option<char>,
        old_tuple_data: Option<TupleData>,
        new_tuple_data: TupleData,
        is_stream: bool,
        xid: Option<u32>,
    },
    /// Any other message: its type and what follows it.
    Other { message_type: u8, body: Vec<u8> },
}

/// A [`RelationInfo`] as a mathematical value.
pub struct RelationView {
    pub oid: Oid,
    pub namespace: Seq<char>,
    pub relation_name: Seq<char>,
    pub replica_identity: char,
    pub column_count: i16,
    pub columns: Seq<(Seq<char>, Oid)>,
}

/// A [`ReplicationMessage`] as a mathematical value.
pub enum MessageView {
    Relation(RelationView),
    Insert { relation_id: Oid, data: Seq<Seq<char>>, is_stream: bool, xid: Option<u32> },
    Update {
        relation_id: Oid,
        key_type: Option<char>,
        old_data: Option<Seq<Seq<char>>>,
        data: Seq<Seq<char>>,
        is_stream: bool,
        xid: Option<u32>,
    },
    Other(u8, Seq<u8>),
}

/// The names and types of columns.
pub open spec fn columns_view(columns: Seq<ColumnInfo>) -> Seq<(Seq<char>, Oid)> {
    columns.map_values(|c: ColumnInfo| (c.column_name@, c.column_type))
}

impl View for RelationInfo {
    type V = RelationView;

    open spec fn view(&self) -> RelationView {
        RelationView {
            oid: self.oid,
            namespace: self.namespace@,
            relation_name: self.relation_name@,
            replica_identity: self.replica_identity,
            column_count: self.column_count,
            columns: columns_view(self.columns@),
        }
    }
}

impl View for TupleData {
    type V = Seq<Seq<char>>;

    open spec fn view(&self) -> Seq<Seq<char>> {
        self.columns@.map_values(|c: ColumnData| c.data@)
    }
}

/// A row, or nothing, by its view.
pub open spec fn tuple_option(tuple: Option<TupleData>) -> Option<Seq<Seq<char>>> {
    match tuple {
        Some(t) => Some(t@),
        None => None,
    }
}

impl View for ReplicationMessage {
    type V = MessageView;

    open spec fn view(&self) -> MessageView {
        match self {
            ReplicationMessage::Relation { relation } => MessageView::Relation(relation@),
            ReplicationMessage::Insert { relation_id, tuple_data, is_stream, xid } =>
            MessageView::Insert {
                relation_id: *relation_id,
                data: tuple_data@,
                is_stream: *is_stream,
                xid: *xid,
            },
            ReplicationMessage::Update {
                relation_id,
                key_type,
                old_tuple_data,
                new_tuple_data,
                is_stream,
                xid,
            } => MessageView::Update {
                relation_id: *relation_id,
                key_type: *key_type,
                old_data: tuple_option(*old_tuple_data),
                data: new_tuple_data@,
                is_stream: *is_stream,
                xid: *xid,
            },
            ReplicationMessage::Other { message_type, body } => MessageView::Other(
                *message_type,
                body@,
            ),
        }
    }
}

impl Clone for RelationInfo {
    fn clone(&self) -> (copy: RelationInfo)
        ensures
            copy@ == self@,
    {
        let mut columns: Vec<ColumnInfo> = Vec::new();
        for i in 0..self.columns.len()
            invariant
                columns_view(columns@) == columns_view(self.columns@).take(i as int),
        {
            let column = &self.columns[i];
            let ghost before = columns_view(columns@);
            columns.push(
                ColumnInfo {
                    column_name: column.column_name.clone(),
                    column_type: column.column_type,
                },
            );
            let ghost view = (column.column_name@, column.column_type);
            assert(columns_view(columns@) == before.push(view));
            assert(columns_view(self.columns@).take(i + 1) == columns_view(self.columns@).take(
                i as int,
            ).push(view));
        }
        assert(columns_view(self.columns@).take(self.columns@.len() as int) == columns_view(
            self.columns@,
        ));
        RelationInfo {
            oid: self.oid,
            namespace: self.namespace.clone(),
            relation_name: self.relation_name.clone(),
            replica_identity: self.replica_identity,
            column_count: self.column_count,
            columns,
        }
    }
}

/// What the client knows of the stream: how far it has received and applied it,
/// the relations that it was told of, and when it last reported.
pub struct ReplicationState {
    /// The highest position received.
    pub received_lsn: u64,
    /// The highest position whose changes have been delivered.
    pub applied_lsn: u64,
    /// The relations by their identifiers.
    pub relations: HashMap<Oid, RelationInfo>,
    /// When feedback was last sent on schedule, in nanoseconds since the state
    /// was created.
    pub last_feedback_time: u64,
}

/// A [`ReplicationState`] as a mathematical value.
pub struct StateView {
    pub received_lsn: u64,
    pub applied_lsn: u64,
    pub relations: Map<Oid, RelationView>,
    pub last_feedback_time: u64,
}

impl View for ReplicationState {
    type V = StateView;

    open spec fn view(&self) -> StateView {
        StateView {
            received_lsn: self.received_lsn,
            applied_lsn: self.applied_lsn,
            relations: self.relations@.map_values(|r: RelationInfo| r@),
            last_feedback_time: self.last_feedback_time,
        }
    }
}

/// The greater of two positions.
pub open spec fn later(a: u64, b: u64) -> u64 {
    if a < b {
        b
    } else {
        a
    }
}

impl StateView {
    /// The state before anything has been received.
    pub open spec fn initial() -> StateView {
        StateView {
            received_lsn: 0,
            applied_lsn: 0,
            relations: Map::empty(),
            last_feedback_time: 0,
        }
    }

    /// The state once a position has been received.
    pub open spec fn receive(self, lsn: u64) -> StateView {
        StateView { received_lsn: later(self.received_lsn, lsn), ..self }
    }

    /// The state once a position has been applied.
    pub open spec fn apply(self, lsn: u64) -> StateView {
        StateView { applied_lsn: later(self.applied_lsn, lsn), ..self }
    }

    /// The state once a relation has been described.
    pub open spec fn describe(self, relation: RelationView) -> StateView {
        StateView { relations: self.relations.insert(relation.oid, relation), ..self }
    }

    /// The state once feedback has been sent on schedule.
    pub open spec fn report(self, now: u64) -> StateView {
        StateView { last_feedback_time: now, ..self }
    }
}

impl ReplicationState {
    /// The state before anything has been received. Its clock starts now.
    pub fn new() -> (state: ReplicationState)
        ensures
            state@ == StateView::initial(),
    {
        let state = ReplicationState {
            received_lsn: 0,
            applied_lsn: 0,
            relations: HashMap::new(),
            last_feedback_time: 0,
        };
        assert(state@.relations == Map::<Oid, RelationView>::empty());
        state
    }

    /// Takes note of a received position. A lower one than before changes nothing.
    pub fn update_lsn(&mut self, lsn: u64)
        ensures
            final(self)@ == old(self)@.receive(lsn),
    {
        if lsn > self.received_lsn {
            self.received_lsn = lsn;
        }
    }

    /// Takes note of an applied position. A lower one than before changes nothing.
    pub fn update_applied_lsn(&mut self, lsn: u64)
        ensures
            final(self)@ == old(self)@.apply(lsn),
    {
        if lsn > self.applied_lsn {
            self.applied_lsn = lsn;
        }
    }

    /// Takes note of when feedback was sent, in nanoseconds since the state was
    /// created.
    pub fn update_feedback_time(&mut self, now: u64)
        ensures
            final(self)@ == old(self)@.report(now),
    {
        self.last_feedback_time = now;
    }

    /// Remembers a relation, in the place of one with the same identifier.
    pub fn add_relation(&mut self, relation: RelationInfo)
        ensures
            final(self)@ == old(self)@.describe(relation@),
    {
        let ghost before = self@;
        let ghost view = relation@;
        let oid = relation.oid;
        self.relations.insert(oid, relation);
        assert(self@.relations == before.relations.insert(view.oid, view));
    }

    /// The relation with an identifier, if the client was told of one.
    pub fn get_relation(&self, oid: Oid) -> (relation: Option<&RelationInfo>)
        ensures
            match relation {
                Some(r) => self@.relations.contains_key(oid) && self@.relations[oid] == r@,
                None => !self@.relations.contains_key(oid),
            },
    {
        self.relations.get(&oid)
    }
}

/// Positions only ever move forward, whatever is received or applied.
pub proof fn law_positions_only_advance(state: StateView, lsn: u64)
    ensures
        state.receive(lsn).received_lsn >= state.received_lsn,
        state.receive(lsn).received_lsn >= lsn,
        state.receive(lsn).applied_lsn == state.applied_lsn,
        state.apply(lsn).applied_lsn >= state.applied_lsn,
        state.apply(lsn).applied_lsn >= lsn,
        state.apply(lsn).received_lsn == state.received_lsn,
        state.receive(0) == state,
        state.apply(0) == state,
{
}

/// The relation that was described last under an identifier is the one that is
/// found there, and the others stay as they were.
pub proof fn law_last_description_counts(state: StateView, relation: RelationView)
    ensures
        state.describe(relation).relations.contains_key(relation.oid),
        state.describe(relation).relations[relation.oid] == relation,
        forall|oid: Oid|
            oid != relation.oid ==> (state.describe(relation).relations.contains_key(oid)
                == #[trigger] state.relations.contains_key(oid) && state.describe(
                relation,
            ).relations[oid] == state.relations[oid]),
{
}

/// The greatest position counts: the one that was known, or the new one if it is
/// greater; and nothing else of the state changes.
pub proof fn law_the_greatest_position_counts(state: StateView, lsn: u64)
    ensures
        state.receive(lsn).received_lsn == (if lsn > state.received_lsn {
            lsn
        } else {
            state.received_lsn
        }),
        state.apply(lsn).applied_lsn == (if lsn > state.applied_lsn {
            lsn
        } else {
            state.applied_lsn
        }),
        state.receive(lsn).relations == state.relations,
        state.apply(lsn).relations == state.relations,
        state.receive(lsn).last_feedback_time == state.last_feedback_time,
        state.apply(lsn).last_feedback_time == state.last_feedback_time,
{
}

/// A state begins with nothing, and feedback changes only when it was last sent.
pub proof fn law_feedback_changes_only_its_time(state: StateView, now: u64, relation: RelationView)
    ensures
        StateView::initial().received_lsn == 0,
        StateView::initial().applied_lsn == 0,
        StateView::initial().last_feedback_time == 0,
        StateView::initial().relations.dom() == Set::<Oid>::empty(),
        state.report(now).last_feedback_time == now,
        state.report(now).received_lsn == state.received_lsn,
        state.report(now).applied_lsn == state.applied_lsn,
        state.report(now).relations == state.relations,
        state.describe(relation).received_lsn == state.received_lsn,
        state.describe(relation).applied_lsn == state.applied_lsn,
        state.describe(relation).last_feedback_time == state.last_feedback_time,
{
}

/// The views of a relation and of a row leave nothing out.
pub proof fn law_messages_are_seen_whole(relation: RelationInfo, tuple: TupleData)
    ensures
        relation@.oid == relation.oid,
        relation@.namespace == relation.namespace@,
        relation@.relation_name == relation.relation_name@,
        relation@.replica_identity == relation.replica_identity,
        relation@.column_count == relation.column_count,
        relation@.columns.len() == relation.columns@.len(),
        forall|i: int|
            0 <= i < relation.columns@.len() ==> #[trigger] relation@.columns[i] == (
                relation.columns@[i].column_name@,
                relation.columns@[i].column_type,
            ),
        tuple@.len() == tuple.columns@.len(),
        forall|i: int|
            0 <= i < tuple.columns@.len() ==> #[trigger] tuple@[i] == tuple.columns@[i].data@,
{
}

/// The views of changes and of the state leave nothing out.
pub proof fn law_changes_are_seen_whole(
    relation: RelationInfo,
    before: TupleData,
    tuple: TupleData,
    oid: Oid,
    key_type: Option<char>,
    is_stream: bool,
    xid: Option<u32>,
    kind: u8,
    body: Vec<u8>,
    state: ReplicationState,
)
    ensures
        (ReplicationMessage::Relation { relation })@ == MessageView::Relation(relation@),
        (ReplicationMessage::Insert { relation_id: oid, tuple_data: tuple, is_stream, xid })@ == (
        MessageView::Insert { relation_id: oid, data: tuple@, is_stream, xid }),
        (ReplicationMessage::Update {
            relation_id: oid,
            key_type,
            old_tuple_data: Some(before),
            new_tuple_data: tuple,
            is_stream,
            xid,
        })@ == (MessageView::Update {
            relation_id: oid,
            key_type,
            old_data: Some(before@),
            data: tuple@,
            is_stream,
            xid,
        }),
        (ReplicationMessage::Update {
            relation_id: oid,
            key_type,
            old_tuple_data: None,
            new_tuple_data: tuple,
            is_stream,
            xid,
        })@ == (MessageView::Update {
            relation_id: oid,
            key_type,
            old_data: None,
            data: tuple@,
            is_stream,
            xid,
        }),
        (ReplicationMessage::Other { message_type: kind, body })@ == MessageView::Other(
            kind,
            body@,
        ),
        state@.received_lsn == state.received_lsn,
        state@.applied_lsn == state.applied_lsn,
        state@.last_feedback_time == state.last_feedback_time,
        state@.relations.dom() == state.relations@.dom(),
        forall|id: Oid|
            state.relations@.contains_key(id) ==> #[trigger] state@.relations[id]
                == state.relations@[id]@,
{
}

} // verus!
