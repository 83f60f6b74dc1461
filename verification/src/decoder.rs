//! Rows of the event table, decoded from replication messages.

use std::collections::HashMap;

use vstd::prelude::*;

use crate::column::{decoded_column, ColumnValue, ColumnView, ReplicationRow};
use crate::messages::{MessageView, Oid, ReplicationMessage, TupleData};
use crate::pg_type::{type_of_oid, PgType};
use crate::text::text_eq;
use crate::text_map::{distinct_keys, inserted, law_insert, lookup, TextMap};

verus! {

broadcast use vstd::std_specs::hash::group_hash_axioms;

/// The table whose rows are events.
pub const EVENT_STREAM_TABLE: &'static str = "event_stream";

/// Columns that a relation was described with: their names and types.
pub type RelationColumns = Vec<(String, PgType)>;

/// Decodes rows by the descriptions of their relations.
pub struct ReplicationEventDecoder {
    /// The columns of the relations by their identifiers.
    pub relations: HashMap<Oid, RelationColumns>,
    /// The names of the relations by their identifiers. Changes of tables other
    /// than the event table are of no interest.
    relation_names: HashMap<Oid, String>,
}

/// A [`ReplicationEventDecoder`] as a mathematical value.
pub struct DecoderView {
    pub relations: Map<Oid, Seq<(Seq<char>, PgType)>>,
    pub names: Map<Oid, Seq<char>>,
}

/// Column definitions by their views.
pub open spec fn definitions(columns: Seq<(String, PgType)>) -> Seq<(Seq<char>, PgType)> {
    columns.map_values(|c: (String, PgType)| (c.0@, c.1))
}

/// A column with its type, if the type is a built-in one.
pub open spec fn known_column(column: (Seq<char>, Oid)) -> Option<(Seq<char>, PgType)> {
    match type_of_oid(column.1) {
        Some(pg_type) => Some((column.0, pg_type)),
        None => None,
    }
}

/// The columns that have built-in types, in order.
pub open spec fn known_columns(columns: Seq<(Seq<char>, Oid)>) -> Seq<(Seq<char>, PgType)> {
    columns.filter_map(|c: (Seq<char>, Oid)| known_column(c))
}

/// The row that the first `n` of the given texts make up, each read by the
/// column definition in the same place.
pub open spec fn row_prefix(
    columns: Seq<(Seq<char>, PgType)>,
    data: Seq<Seq<char>>,
    n: nat,
) -> Seq<(Seq<char>, ColumnView)>
    decreases n,
{
    if n == 0 {
        Seq::empty()
    } else {
        inserted(
            row_prefix(columns, data, (n - 1) as nat),
            columns[n - 1].0,
            decoded_column(columns[n - 1].1, data[n - 1]),
        )
    }
}

/// The row that the given texts make up.
pub open spec fn row_of(columns: Seq<(Seq<char>, PgType)>, data: Seq<Seq<char>>) -> Seq<
    (Seq<char>, ColumnView),
> {
    row_prefix(columns, data, data.len())
}

impl DecoderView {
    /// A decoder that has seen no relation.
    pub open spec fn initial() -> DecoderView {
        DecoderView { relations: Map::empty(), names: Map::empty() }
    }

    /// The relations that have columns are those that have names.
    pub open spec fn well_formed(self) -> bool {
        self.relations.dom() == self.names.dom()
    }

    /// Whether an identifier is that of the event table.
    pub open spec fn is_event_stream(self, relation_id: Oid) -> bool {
        self.names.contains_key(relation_id) && self.names[relation_id] == EVENT_STREAM_TABLE@
    }

    /// The decoder once a message has been seen.
    pub open spec fn after(self, message: MessageView) -> DecoderView {
        match message {
            MessageView::Relation(relation) => DecoderView {
                relations: self.relations.insert(relation.oid, known_columns(relation.columns)),
                names: self.names.insert(relation.oid, relation.relation_name),
            },
            _ => self,
        }
    }

    /// Whether a row of a relation can be decoded: the relation has been
    /// described, and with a column for each text of the row.
    pub open spec fn fits(self, relation_id: Oid, data: Seq<Seq<char>>) -> bool {
        &&& self.relations.contains_key(relation_id)
        &&& data.len() <= self.relations[relation_id].len()
    }

    /// Whether a message can be decoded: if it is a row of the event table, the
    /// row fits.
    pub open spec fn accepts(self, message: MessageView) -> bool {
        match message {
            MessageView::Insert { relation_id, data, .. } => self.is_event_stream(relation_id)
                ==> self.fits(relation_id, data),
            MessageView::Update { relation_id, data, .. } => self.is_event_stream(relation_id)
                ==> self.fits(relation_id, data),
            _ => true,
        }
    }

    /// The row of the event table that a message holds, if it holds one.
    pub open spec fn row(self, message: MessageView) -> Option<Seq<(Seq<char>, ColumnView)>> {
        match message {
            MessageView::Insert { relation_id, data, .. } => if self.is_event_stream(relation_id) {
                Some(row_of(self.relations[relation_id], data))
            } else {
                None
            },
            MessageView::Update { relation_id, data, .. } => if self.is_event_stream(relation_id) {
                Some(row_of(self.relations[relation_id], data))
            } else {
                None
            },
            _ => None,
        }
    }
}

/// A row, or nothing, by its view.
pub open spec fn row_option(row: Option<ReplicationRow>) -> Option<Seq<(Seq<char>, ColumnView)>> {
    match row {
        Some(r) => Some(r@),
        None => None,
    }
}

impl View for ReplicationEventDecoder {
    type V = DecoderView;

    closed spec fn view(&self) -> DecoderView {
        DecoderView {
            relations: self.relations@.map_values(|c: RelationColumns| definitions(c@)),
            names: self.relation_names@.map_values(|n: String| n@),
        }
    }
}

impl ReplicationEventDecoder {
    /// A decoder that has seen no relation.
    pub fn new() -> (decoder: ReplicationEventDecoder)
        ensures
            decoder@ == DecoderView::initial(),
            decoder@.well_formed(),
    {
        let decoder = ReplicationEventDecoder {
            relations: HashMap::new(),
            relation_names: HashMap::new(),
        };
        assert(decoder@.relations == Map::<Oid, Seq<(Seq<char>, PgType)>>::empty());
        assert(decoder@.names == Map::<Oid, Seq<char>>::empty());
        decoder
    }

    /// Whether an identifier is that of the event table.
    pub fn is_event_stream_table(&self, relation_id: Oid) -> (found: bool)
        ensures
            found == self@.is_event_stream(relation_id),
    {
        match self.relation_names.get(&relation_id) {
            Some(name) => text_eq(name.as_str(), EVENT_STREAM_TABLE),
            None => false,
        }
    }

    /// Whether a row of a relation can be decoded.
    fn row_fits(&self, relation_id: Oid, tuple_data: &TupleData) -> (fits: bool)
        ensures
            fits == self@.fits(relation_id, tuple_data@),
    {
        match self.relations.get(&relation_id) {
            Some(table) => tuple_data.columns.len() <= table.len(),
            None => false,
        }
    }

    /// Whether a message can be decoded.
    pub fn accepts(&self, message: &ReplicationMessage) -> (accepted: bool)
        ensures
            accepted == self@.accepts(message@),
    {
        match message {
            ReplicationMessage::Insert { relation_id, tuple_data, .. } => {
                !self.is_event_stream_table(*relation_id) || self.row_fits(*relation_id, tuple_data)
            },
            ReplicationMessage::Update { relation_id, new_tuple_data, .. } => {
                !self.is_event_stream_table(*relation_id) || self.row_fits(
                    *relation_id,
                    new_tuple_data,
                )
            },
            _ => true,
        }
    }

    /// Takes note of a relation, or decodes a row of the event table.
    pub fn decode(&mut self, message: &ReplicationMessage) -> (row: Option<ReplicationRow>)
        requires
            old(self)@.accepts(message@),
        ensures
            final(self)@ == old(self)@.after(message@),
            old(self)@.well_formed() ==> final(self)@.well_formed(),
            row_option(row) == old(self)@.row(message@),
    {
        match message {
            ReplicationMessage::Relation { relation } => {
                let ghost before = self@;
                let ghost view = relation@.columns;
                let ghost f = |c: (Seq<char>, Oid)| known_column(c);
                let mut columns: RelationColumns = Vec::new();
                for i in 0..relation.columns.len()
                    invariant
                        view == relation@.columns,
                        view.len() == relation.columns@.len(),
                        f == (|c: (Seq<char>, Oid)| known_column(c)),
                        definitions(columns@) == view.take(i as int).filter_map(f),
                {
                    let column = &relation.columns[i];
                    let ghost done = definitions(columns@);
                    proof {
                        view.lemma_filter_map_take_succ(f, i as int);
                        assert(view[i as int] == (column.column_name@, column.column_type));
                    }
                    if let Ok(pg_type) = PgType::try_from(column.column_type) {
                        columns.push((column.column_name.clone(), pg_type));
                        assert(definitions(columns@) == done.push((column.column_name@, pg_type)));
                    }
                }
                assert(view.take(view.len() as int) == view);
                let ghost known = definitions(columns@);
                self.relation_names.insert(relation.oid, relation.relation_name.clone());
                self.relations.insert(relation.oid, columns);
                assert(self@.names == before.names.insert(relation.oid, relation.relation_name@));
                assert(self@.relations == before.relations.insert(relation.oid, known));
                proof {
                    if before.well_formed() {
                        assert(self@.relations.dom() == self@.names.dom());
                    }
                }
                None
            },
            ReplicationMessage::Insert { relation_id, tuple_data, .. } => {
                if !self.is_event_stream_table(*relation_id) {
                    return None;
                }
                self.tuple_to_row(*relation_id, tuple_data)
            },
            ReplicationMessage::Update { relation_id, new_tuple_data, .. } => {
                if !self.is_event_stream_table(*relation_id) {
                    return None;
                }
                self.tuple_to_row(*relation_id, new_tuple_data)
            },
            _ => None,
        }
    }

    /// Decodes a row of a relation.
    pub fn tuple_to_row(&self, relation_id: Oid, tuple_data: &TupleData) -> (row: Option<
        ReplicationRow,
    >)
        requires
            self@.fits(relation_id, tuple_data@),
        ensures
            row_option(row) == Some(row_of(self@.relations[relation_id], tuple_data@)),
    {
        match self.relations.get(&relation_id) {
            Some(table) => {
                let ghost columns = self@.relations[relation_id];
                let ghost data = tuple_data@;
                assert(columns == definitions(table@));
                let mut column_values: TextMap<ColumnValue> = TextMap::new();
                for i in 0..tuple_data.columns.len()
                    invariant
                        columns == definitions(table@),
                        data == tuple_data@,
                        data.len() == tuple_data.columns@.len(),
                        data.len() <= columns.len(),
                        column_values@ == row_prefix(columns, data, i as nat),
                {
                    let column = &table[i];
                    assert(columns[i as int] == (column.0@, column.1));
                    assert(data[i as int] == tuple_data.columns@[i as int].data@);
                    let value = ColumnValue::decode(
                        column.1,
                        tuple_data.columns[i].data.as_str(),
                    );
                    column_values.insert(column.0.clone(), value);
                }
                Some(ReplicationRow { column_values })
            },
            None => None,
        }
    }
}

/// A row comes only from an insert or an update of the event table.
pub proof fn law_rows_come_from_the_event_table(decoder: DecoderView, message: MessageView)
    requires
        decoder.row(message) is Some,
    ensures
        match message {
            MessageView::Insert { relation_id, .. } => decoder.is_event_stream(relation_id),
            MessageView::Update { relation_id, .. } => decoder.is_event_stream(relation_id),
            _ => false,
        },
{
}

/// Only the description of a relation changes the decoder, and only in what it
/// knows of that relation.
pub proof fn law_only_descriptions_change_the_decoder(decoder: DecoderView, message: MessageView)
    ensures
        match message {
            MessageView::Relation(relation) => {
                &&& decoder.row(message) is None
                &&& decoder.after(message).relations[relation.oid] == known_columns(
                    relation.columns,
                )
                &&& decoder.after(message).is_event_stream(relation.oid) == (relation.relation_name
                    == EVENT_STREAM_TABLE@)
                &&& forall|other: Oid|
                    other != relation.oid ==> {
                        &&& decoder.after(message).relations.contains_key(other)
                            == decoder.relations.contains_key(other)
                        &&& decoder.after(message).relations[other] == decoder.relations[other]
                        &&& #[trigger] decoder.after(message).is_event_stream(other)
                            == decoder.is_event_stream(other)
                    }
            },
            _ => decoder.after(message) == decoder,
        },
        decoder.well_formed() ==> decoder.after(message).well_formed(),
{
    if decoder.well_formed() {
        assert(decoder.after(message).relations.dom() == decoder.after(message).names.dom());
    }
}

/// Every message can be decoded but a row of the event table that has more
/// columns than the table was described with, not counting those of unknown types.
pub proof fn law_only_overlong_rows_are_refused(decoder: DecoderView, message: MessageView)
    requires
        decoder.well_formed(),
    ensures
        !decoder.accepts(message) <==> match message {
            MessageView::Insert { relation_id, data, .. } => decoder.is_event_stream(relation_id)
                && data.len() > decoder.relations[relation_id].len(),
            MessageView::Update { relation_id, data, .. } => decoder.is_event_stream(relation_id)
                && data.len() > decoder.relations[relation_id].len(),
            _ => false,
        },
{
    assert forall|oid: Oid| decoder.names.contains_key(oid) implies
        #[trigger] decoder.relations.contains_key(oid) by {
        assert(decoder.names.dom().contains(oid));
    }
}

/// No column name stands twice in a row, and each is the name of a column.
pub proof fn lemma_row_prefix_keys(
    columns: Seq<(Seq<char>, PgType)>,
    data: Seq<Seq<char>>,
    n: nat,
)
    requires
        n <= columns.len(),
    ensures
        distinct_keys(row_prefix(columns, data, n)),
        forall|name: Seq<char>|
            (#[trigger] lookup(row_prefix(columns, data, n), name)) is Some ==> exists|i: int|
                0 <= i < n && #[trigger] columns[i].0 == name,
    decreases n,
{
    if n > 0 {
        let before = row_prefix(columns, data, (n - 1) as nat);
        let value = decoded_column(columns[n - 1].1, data[n - 1]);
        lemma_row_prefix_keys(columns, data, (n - 1) as nat);
        law_insert(before, columns[n - 1].0, value);
        assert forall|name: Seq<char>|
            (#[trigger] lookup(row_prefix(columns, data, n), name)) is Some implies exists|i: int|
            0 <= i < n && #[trigger] columns[i].0 == name by {
            if name != columns[n - 1].0 {
                assert(lookup(before, name) is Some);
            }
        }
    }
}

/// In a row of a relation whose column names differ, each column stands under
/// its name with the value that its text and its type give, and nothing else is
/// in the row.
pub proof fn law_row_has_each_column(columns: Seq<(Seq<char>, PgType)>, data: Seq<Seq<char>>)
    requires
        data.len() <= columns.len(),
        forall|i: int, j: int|
            0 <= i < j < columns.len() ==> (#[trigger] columns[i]).0 != (#[trigger] columns[j]).0,
    ensures
        forall|i: int|
            0 <= i < data.len() ==> lookup(row_of(columns, data), (#[trigger] columns[i]).0)
                == Some(decoded_column(columns[i].1, data[i])),
        forall|name: Seq<char>|
            (#[trigger] lookup(row_of(columns, data), name)) is Some ==> exists|i: int|
                0 <= i < data.len() && #[trigger] columns[i].0 == name,
        distinct_keys(row_of(columns, data)),
{
    lemma_row_prefix_values(columns, data, data.len());
    lemma_row_prefix_keys(columns, data, data.len());
}

proof fn lemma_row_prefix_values(
    columns: Seq<(Seq<char>, PgType)>,
    data: Seq<Seq<char>>,
    n: nat,
)
    requires
        n <= columns.len(),
        forall|i: int, j: int|
            0 <= i < j < columns.len() ==> (#[trigger] columns[i]).0 != (#[trigger] columns[j]).0,
    ensures
        forall|i: int|
            0 <= i < n ==> lookup(row_prefix(columns, data, n), (#[trigger] columns[i]).0) == Some(
                decoded_column(columns[i].1, data[i]),
            ),
    decreases n,
{
    if n > 0 {
        let before = row_prefix(columns, data, (n - 1) as nat);
        let value = decoded_column(columns[n - 1].1, data[n - 1]);
        lemma_row_prefix_values(columns, data, (n - 1) as nat);
        law_insert(before, columns[n - 1].0, value);
        assert forall|i: int| 0 <= i < n implies lookup(
            row_prefix(columns, data, n),
            (#[trigger] columns[i]).0,
        ) == Some(decoded_column(columns[i].1, data[i])) by {
            if i < n - 1 {
                assert(columns[i].0 != columns[n - 1].0);
                assert(lookup(before, columns[i].0) == Some(
                    decoded_column(columns[i].1, data[i]),
                ));
            }
        }
    }
}

/// Each column of a built-in type is known by its name and its type, in order, and no
/// other column is.
pub proof fn law_columns_are_known_one_by_one(
    columns: Seq<(Seq<char>, Oid)>,
    name: Seq<char>,
    oid: Oid,
)
    ensures
        known_columns(Seq::<(Seq<char>, Oid)>::empty()).len() == 0,
        known_columns(columns.push((name, oid))) == (match type_of_oid(oid) {
            Some(pg_type) => known_columns(columns).push((name, pg_type)),
            None => known_columns(columns),
        }),
{
    let more = columns.push((name, oid));
    assert(more.drop_last() == columns);
    assert(more.last() == (name, oid));
}

/// A row is read column by column: with a text more, it is the same row, with what the
/// text stands for under the name of the next column.
pub proof fn law_rows_are_read_column_by_column(
    columns: Seq<(Seq<char>, PgType)>,
    data: Seq<Seq<char>>,
    text: Seq<char>,
)
    requires
        data.len() < columns.len(),
    ensures
        row_of(columns, Seq::<Seq<char>>::empty()).len() == 0,
        row_of(columns, data.push(text)) == inserted(
            row_of(columns, data),
            columns[data.len() as int].0,
            decoded_column(columns[data.len() as int].1, text),
        ),
{
    lemma_row_prefix_agrees(columns, data, data.push(text), data.len());
}

proof fn lemma_row_prefix_agrees(
    columns: Seq<(Seq<char>, PgType)>,
    data: Seq<Seq<char>>,
    other: Seq<Seq<char>>,
    n: nat,
)
    requires
        n <= data.len(),
        n <= other.len(),
        forall|i: int| 0 <= i < n ==> #[trigger] data[i] == other[i],
    ensures
        row_prefix(columns, data, n) == row_prefix(columns, other, n),
    decreases n,
{
    if n > 0 {
        lemma_row_prefix_agrees(columns, data, other, (n - 1) as nat);
        assert(data[n - 1] == other[n - 1]);
    }
}

/// An insert or an update of a table that is named `event_stream` gives the row of its
/// new texts, by the columns that the table was last described with. No other message
/// gives a row.
pub proof fn law_what_a_message_gives(decoder: DecoderView, message: MessageView)
    ensures
        match message {
            MessageView::Insert { relation_id, data, .. } => decoder.row(message) == (
            if decoder.names.contains_key(relation_id) && decoder.names[relation_id]
                == "event_stream"@ {
                Some(row_of(decoder.relations[relation_id], data))
            } else {
                None
            }),
            MessageView::Update { relation_id, data, .. } => decoder.row(message) == (
            if decoder.names.contains_key(relation_id) && decoder.names[relation_id]
                == "event_stream"@ {
                Some(row_of(decoder.relations[relation_id], data))
            } else {
                None
            }),
            _ => decoder.row(message) is None,
        },
        match message {
            MessageView::Relation(relation) => {
                &&& decoder.after(message).names == decoder.names.insert(
                    relation.oid,
                    relation.relation_name,
                )
                &&& decoder.after(message).relations == decoder.relations.insert(
                    relation.oid,
                    known_columns(relation.columns),
                )
            },
            _ => decoder.after(message) == decoder,
        },
        DecoderView::initial().names.dom() == Set::<Oid>::empty(),
        DecoderView::initial().relations.dom() == Set::<Oid>::empty(),
{
}

/// The views of column definitions leave nothing out.
pub proof fn law_definitions_are_seen_whole(columns: Seq<(String, PgType)>)
    ensures
        definitions(columns).len() == columns.len(),
        forall|i: int|
            0 <= i < columns.len() ==> #[trigger] definitions(columns)[i] == (
                columns[i].0@,
                columns[i].1,
            ),
{
}

/// The views of a decoder and of a row leave nothing out.
proof fn law_a_decoder_is_seen_whole(decoder: ReplicationEventDecoder, row: ReplicationRow)
    ensures
        decoder@.relations.dom() == decoder.relations@.dom(),
        forall|oid: Oid|
            decoder.relations@.contains_key(oid) ==> #[trigger] decoder@.relations[oid]
                == definitions(decoder.relations@[oid]@),
        decoder@.names.dom() == decoder.relation_names@.dom(),
        forall|oid: Oid|
            decoder.relation_names@.contains_key(oid) ==> #[trigger] decoder@.names[oid]
                == decoder.relation_names@[oid]@,
        row_option(Some(row)) == Some(row@),
        row_option(None) is None,
{
}

/// A row of the event table can be decoded exactly if the table has been described with a
/// column for each text of the row. Every other message can be decoded.
pub proof fn law_which_messages_can_be_decoded(decoder: DecoderView, message: MessageView)
    ensures
        match message {
            MessageView::Insert { relation_id, data, .. } => decoder.accepts(message) <==> (
            decoder.names.contains_key(relation_id) && decoder.names[relation_id]
                == "event_stream"@ ==> decoder.relations.contains_key(relation_id) && data.len()
                <= decoder.relations[relation_id].len()),
            MessageView::Update { relation_id, data, .. } => decoder.accepts(message) <==> (
            decoder.names.contains_key(relation_id) && decoder.names[relation_id]
                == "event_stream"@ ==> decoder.relations.contains_key(relation_id) && data.len()
                <= decoder.relations[relation_id].len()),
            _ => decoder.accepts(message),
        },
{
}

} // verus!
