//! The messages of a replication stream as bytes: what the server sends around
//! the log, the logical replication messages in it, and the client's reports.

use vstd::prelude::*;
use vstd::utf8::encode_utf8;

use crate::errors::{ErrorView, ReplicationError, ReplicationResult};
use crate::messages::{
    columns_view, ColumnData, ColumnInfo, MessageView, Oid, RelationInfo, RelationView,
    ReplicationMessage, TupleData,
};
use crate::time::Timestamp;
use crate::wire::{
    be_bytes, be_value, bits_of, law_numbers_read_back, law_taking_leaves_the_rest,
    law_texts_read_back, lemma_be_bytes_len, push_be, signed16,
    take_be, take_sized_text, take_text, to_bits, Reader,
};

verus! {

/// The shortest length of a keepalive message.
pub const KEEPALIVE_LEN: usize = 18;

/// The length of what stands before the data of a log message.
pub const XLOG_HEADER_LEN: usize = 25;

/// A sign of life from the server.
#[derive(Debug, Clone, Copy, PartialEq, Eq, Structural)]
pub struct KeepaliveMessage {
    /// The end of the log on the server.
    pub wal_end: u64,
    /// When the message was sent.
    pub timestamp: u64,
    /// Whether the client should report at once.
    pub reply_requested: bool,
}

/// What a keepalive message says.
pub open spec fn keepalive(data: Seq<u8>) -> Result<KeepaliveMessage, ErrorView> {
    if data.len() < KEEPALIVE_LEN {
        Err(ErrorView::Protocol("Keepalive message too short"@))
    } else {
        Ok(
            KeepaliveMessage {
                wal_end: be_value(data.subrange(1, 9)) as u64,
                timestamp: be_value(data.subrange(9, 17)) as u64,
                reply_requested: data[17] != 0,
            },
        )
    }
}

impl KeepaliveMessage {
    /// Reads a keepalive message.
    pub fn parse(data: &[u8]) -> (message: ReplicationResult<KeepaliveMessage>)
        ensures
            match message {
                Ok(m) => keepalive(data@) == Ok::<KeepaliveMessage, ErrorView>(m),
                Err(e) => keepalive(data@) == Err::<KeepaliveMessage, ErrorView>(e@),
            },
    {
        if data.len() < KEEPALIVE_LEN {
            return Err(ReplicationError::protocol("Keepalive message too short"));
        }
        let mut reader = Reader::new(data);
        let _ = reader.read_u8();
        assert(data@.skip(1).take(8) == data@.subrange(1, 9));
        let wal_end = reader.read_u64();
        assert(data@.skip(1).skip(8) == data@.skip(9));
        assert(data@.skip(9).take(8) == data@.subrange(9, 17));
        let timestamp = reader.read_u64();
        match (wal_end, timestamp) {
            (Some(wal_end), Some(timestamp)) => Ok(
                KeepaliveMessage { wal_end, timestamp, reply_requested: data[17] != 0 },
            ),
            _ => Err(ReplicationError::protocol("Keepalive message too short")),
        }
    }
}

/// A piece of the log.
#[derive(Debug)]
pub struct XLogDataMessage {
    /// Where the piece starts.
    pub data_start: u64,
    /// The end of the log on the server.
    pub wal_end: u64,
    /// When the message was sent.
    pub send_time: u64,
    /// The piece.
    pub data: Vec<u8>,
}

/// An [`XLogDataMessage`] as a mathematical value.
pub struct XLogDataView {
    pub data_start: u64,
    pub wal_end: u64,
    pub send_time: u64,
    pub data: Seq<u8>,
}

impl View for XLogDataMessage {
    type V = XLogDataView;

    open spec fn view(&self) -> XLogDataView {
        XLogDataView {
            data_start: self.data_start,
            wal_end: self.wal_end,
            send_time: self.send_time,
            data: self.data@,
        }
    }
}

/// What a log message says.
pub open spec fn xlog_data(data: Seq<u8>) -> Result<XLogDataView, ErrorView> {
    if data.len() < XLOG_HEADER_LEN {
        Err(ErrorView::Protocol("XLogData message too short"@))
    } else {
        Ok(
            XLogDataView {
                data_start: be_value(data.subrange(1, 9)) as u64,
                wal_end: be_value(data.subrange(9, 17)) as u64,
                send_time: be_value(data.subrange(17, 25)) as u64,
                data: data.skip(25),
            },
        )
    }
}

impl XLogDataMessage {
    /// Reads a log message.
    pub fn parse(data: &[u8]) -> (message: ReplicationResult<XLogDataMessage>)
        ensures
            crate::errors::outcome(message) == xlog_data(data@),
    {
        if data.len() < XLOG_HEADER_LEN {
            return Err(ReplicationError::protocol("XLogData message too short"));
        }
        let mut reader = Reader::new(data);
        let _ = reader.read_u8();
        assert(data@.skip(1).take(8) == data@.subrange(1, 9));
        let data_start = reader.read_u64();
        assert(data@.skip(1).skip(8) == data@.skip(9));
        assert(data@.skip(9).take(8) == data@.subrange(9, 17));
        let wal_end = reader.read_u64();
        assert(data@.skip(9).skip(8) == data@.skip(17));
        assert(data@.skip(17).take(8) == data@.subrange(17, 25));
        let send_time = reader.read_u64();
        assert(data@.skip(17).skip(8) == data@.skip(25));
        match (data_start, wal_end, send_time) {
            (Some(data_start), Some(wal_end), Some(send_time)) => Ok(
                XLogDataMessage { data_start, wal_end, send_time, data: reader.read_rest() },
            ),
            _ => Err(ReplicationError::protocol("XLogData message too short")),
        }
    }
}

/// Takes one column of a row from the front: its text, and what follows it. A
/// column that is null, or that did not change and is not sent, has no text.
pub open spec fn take_column(data: Seq<u8>) -> Option<(Seq<char>, Seq<u8>)> {
    if data.len() == 0 {
        None
    } else if data[0] == 'n' as u8 || data[0] == 'u' as u8 {
        Some((Seq::empty(), data.skip(1)))
    } else if data[0] == 't' as u8 || data[0] == 'b' as u8 {
        take_sized_text(data.skip(1))
    } else {
        None
    }
}

/// Takes columns of a row from the front.
pub open spec fn take_columns(data: Seq<u8>, count: nat) -> Option<(Seq<Seq<char>>, Seq<u8>)>
    decreases count,
{
    if count == 0 {
        Some((Seq::empty(), data))
    } else {
        match take_columns(data, (count - 1) as nat) {
            None => None,
            Some((columns, rest)) => match take_column(rest) {
                None => None,
                Some((column, rest)) => Some((columns.push(column), rest)),
            },
        }
    }
}

/// How many items a signed count asks for.
pub open spec fn item_count(count: int) -> nat {
    if count > 0 {
        count as nat
    } else {
        0
    }
}

/// Takes a row from the front: the texts of its columns, and what follows it.
pub open spec fn take_tuple(data: Seq<u8>) -> Option<(Seq<Seq<char>>, Seq<u8>)> {
    match take_be(data, 2) {
        None => None,
        Some((count, rest)) => take_columns(rest, item_count(signed16(count))),
    }
}

/// Takes the description of a column from the front: its name and its type, and
/// what follows it.
pub open spec fn take_description(data: Seq<u8>) -> Option<((Seq<char>, Oid), Seq<u8>)> {
    match take_be(data, 1) {
        None => None,
        Some((_, rest)) => match take_text(rest) {
            None => None,
            Some((name, rest)) => match take_be(rest, 4) {
                None => None,
                Some((column_type, rest)) => match take_be(rest, 4) {
                    None => None,
                    Some((_, rest)) => Some(((name, column_type as u32), rest)),
                },
            },
        },
    }
}

/// Takes descriptions of columns from the front.
pub open spec fn take_descriptions(data: Seq<u8>, count: nat) -> Option<
    (Seq<(Seq<char>, Oid)>, Seq<u8>),
>
    decreases count,
{
    if count == 0 {
        Some((Seq::empty(), data))
    } else {
        match take_descriptions(data, (count - 1) as nat) {
            None => None,
            Some((columns, rest)) => match take_description(rest) {
                None => None,
                Some((column, rest)) => Some((columns.push(column), rest)),
            },
        }
    }
}

/// The relation that a description is of.
pub open spec fn described_relation(data: Seq<u8>) -> Option<RelationView> {
    match take_be(data, 4) {
        None => None,
        Some((oid, rest)) => match take_text(rest) {
            None => None,
            Some((namespace, rest)) => match take_text(rest) {
                None => None,
                Some((relation_name, rest)) => match take_be(rest, 1) {
                    None => None,
                    Some((replica_identity, rest)) => match take_be(rest, 2) {
                        None => None,
                        Some((count, rest)) => match take_descriptions(
                            rest,
                            item_count(signed16(count)),
                        ) {
                            None => None,
                            Some((columns, _)) => Some(
                                RelationView {
                                    oid: oid as u32,
                                    namespace,
                                    relation_name,
                                    replica_identity: replica_identity as char,
                                    column_count: signed16(count) as i16,
                                    columns,
                                },
                            ),
                        },
                    },
                },
            },
        },
    }
}

/// The new row in an insert.
pub open spec fn inserted_row(data: Seq<u8>, is_stream: bool, xid: Option<u32>) -> Option<
    MessageView,
> {
    match take_be(data, 4) {
        None => None,
        Some((oid, rest)) => if rest.len() == 0 || rest[0] != 'N' as u8 {
            None
        } else {
            match take_tuple(rest.skip(1)) {
                None => None,
                Some((row, _)) => Some(
                    MessageView::Insert { relation_id: oid as u32, data: row, is_stream, xid },
                ),
            }
        },
    }
}

/// The new row in an update, and the old one or its key if it is sent.
pub open spec fn updated_row(data: Seq<u8>, is_stream: bool, xid: Option<u32>) -> Option<
    MessageView,
> {
    match take_be(data, 4) {
        None => None,
        Some((oid, rest)) => if rest.len() == 0 {
            None
        } else if rest[0] == 'N' as u8 {
            match take_tuple(rest.skip(1)) {
                None => None,
                Some((row, _)) => Some(
                    MessageView::Update {
                        relation_id: oid as u32,
                        key_type: None,
                        old_data: None,
                        data: row,
                        is_stream,
                        xid,
                    },
                ),
            }
        } else if rest[0] == 'K' as u8 || rest[0] == 'O' as u8 {
            match take_tuple(rest.skip(1)) {
                None => None,
                Some((old_row, after)) => if after.len() == 0 || after[0] != 'N' as u8 {
                    None
                } else {
                    match take_tuple(after.skip(1)) {
                        None => None,
                        Some((row, _)) => Some(
                            MessageView::Update {
                                relation_id: oid as u32,
                                key_type: Some(rest[0] as char),
                                old_data: Some(old_row),
                                data: row,
                                is_stream,
                                xid,
                            },
                        ),
                    }
                },
            }
        } else {
            None
        },
    }
}

/// Takes the transaction from the front, which stands there only in a stream.
pub open spec fn take_xid(data: Seq<u8>, is_stream: bool) -> Option<(Option<u32>, Seq<u8>)> {
    if is_stream {
        match take_be(data, 4) {
            None => None,
            Some((xid, rest)) => Some((Some(xid as u32), rest)),
        }
    } else {
        Some((None, data))
    }
}

/// The logical replication message that bytes hold. In a stream, the messages on
/// relations and rows name their transaction.
pub open spec fn message_in(data: Seq<u8>, is_stream: bool) -> Option<MessageView> {
    if data.len() == 0 {
        None
    } else if data[0] == 'R' as u8 {
        match take_xid(data.skip(1), is_stream) {
            None => None,
            Some((_, rest)) => match described_relation(rest) {
                None => None,
                Some(relation) => Some(MessageView::Relation(relation)),
            },
        }
    } else if data[0] == 'I' as u8 {
        match take_xid(data.skip(1), is_stream) {
            None => None,
            Some((xid, rest)) => inserted_row(rest, is_stream, xid),
        }
    } else if data[0] == 'U' as u8 {
        match take_xid(data.skip(1), is_stream) {
            None => None,
            Some((xid, rest)) => updated_row(rest, is_stream, xid),
        }
    } else {
        Some(MessageView::Other(data[0], data.skip(1)))
    }
}

/// The logical replication message that bytes hold, or the error if they hold
/// none.
pub open spec fn parsed_message(data: Seq<u8>, is_stream: bool) -> Result<MessageView, ErrorView> {
    match message_in(data, is_stream) {
        Some(message) => Ok(message),
        None => Err(ErrorView::MessageParsing("Malformed replication message"@, None)),
    }
}

/// Whether the messages that follow one are in a stream: a stream starts and
/// stops with messages of their own.
pub open spec fn in_stream_after(message: MessageView, is_stream: bool) -> bool {
    match message {
        MessageView::Other(message_type, _) => if message_type == 'S' as u8 {
            true
        } else if message_type == 'E' as u8 {
            false
        } else {
            is_stream
        },
        _ => is_stream,
    }
}

/// Whether the messages that follow one are in a stream.
pub fn stream_after(message: &ReplicationMessage, is_stream: bool) -> (after: bool)
    ensures
        after == in_stream_after(message@, is_stream),
{
    match message {
        ReplicationMessage::Other { message_type, .. } => {
            if *message_type == 'S' as u8 {
                true
            } else if *message_type == 'E' as u8 {
                false
            } else {
                is_stream
            }
        },
        _ => is_stream,
    }
}

proof fn lemma_columns_stop(data: Seq<u8>, m: nat, n: nat)
    requires
        m <= n,
        take_columns(data, m) is None,
    ensures
        take_columns(data, n) is None,
    decreases n,
{
    if m < n {
        lemma_columns_stop(data, m, (n - 1) as nat);
    }
}

proof fn lemma_descriptions_stop(data: Seq<u8>, m: nat, n: nat)
    requires
        m <= n,
        take_descriptions(data, m) is None,
    ensures
        take_descriptions(data, n) is None,
    decreases n,
{
    if m < n {
        lemma_descriptions_stop(data, m, (n - 1) as nat);
    }
}

proof fn lemma_first_byte(data: Seq<u8>)
    ensures
        data.len() > 0 ==> take_be(data, 1) == Some((data[0] as nat, data.skip(1))),
        data.len() == 0 ==> take_be(data, 1) is None,
{
    reveal_with_fuel(be_value, 2);
    if data.len() > 0 {
        assert(data.take(1).drop_last() == Seq::<u8>::empty());
        assert(data.take(1).last() == data[0]);
    }
}

/// Parses logical replication messages.
pub struct MessageParser;

impl MessageParser {
    /// Reads one byte.
    fn read_tag(reader: &mut Reader<'_>) -> (tag: Option<u8>)
        ensures
            match tag {
                Some(t) => {
                    &&& old(reader)@.len() > 0
                    &&& t == old(reader)@[0]
                    &&& final(reader)@ == old(reader)@.skip(1)
                },
                None => old(reader)@.len() == 0,
            },
    {
        proof {
            lemma_first_byte(reader@);
        }
        reader.read_u8()
    }

    fn parse_column(reader: &mut Reader<'_>) -> (column: Option<String>)
        ensures
            match take_column(old(reader)@) {
                Some((c, rest)) => column is Some && column->0@ == c && final(reader)@ == rest,
                None => column is None,
            },
    {
        match Self::read_tag(reader) {
            None => None,
            Some(tag) => {
                if tag == 'n' as u8 || tag == 'u' as u8 {
                    Some(String::new())
                } else if tag == 't' as u8 || tag == 'b' as u8 {
                    reader.read_sized_text()
                } else {
                    None
                }
            },
        }
    }

    fn parse_tuple(reader: &mut Reader<'_>) -> (tuple: Option<TupleData>)
        ensures
            match take_tuple(old(reader)@) {
                Some((t, rest)) => tuple is Some && tuple->0@ == t && final(reader)@ == rest,
                None => tuple is None,
            },
    {
        let count = match reader.read_i16() {
            Some(count) => count,
            None => return None,
        };
        let ghost start = reader@;
        let mut columns: Vec<ColumnData> = Vec::new();
        let mut i: i16 = 0;
        assert(columns@.map_values(|c: ColumnData| c.data@) == Seq::<Seq<char>>::empty());
        while i < count
            invariant
                0 <= i,
                i <= count || i == 0,
                take_tuple(old(reader)@) == take_columns(start, item_count(count as int)),
                take_columns(start, i as nat) == Some(
                    (columns@.map_values(|c: ColumnData| c.data@), reader@),
                ),
            decreases count - i,
        {
            let ghost done = columns@.map_values(|c: ColumnData| c.data@);
            match Self::parse_column(reader) {
                Some(data) => {
                    let ghost text = data@;
                    columns.push(ColumnData { data });
                    assert(columns@.map_values(|c: ColumnData| c.data@) == done.push(text));
                },
                None => {
                    proof {
                        lemma_columns_stop(start, (i + 1) as nat, count as nat);
                    }
                    return None;
                },
            }
            i = i + 1;
        }
        Some(TupleData { columns })
    }

    fn parse_description(reader: &mut Reader<'_>) -> (column: Option<ColumnInfo>)
        ensures
            match take_description(old(reader)@) {
                Some((c, rest)) => column is Some && column->0.column_name@ == c.0
                    && column->0.column_type == c.1 && final(reader)@ == rest,
                None => column is None,
            },
    {
        if reader.read_u8().is_none() {
            return None;
        }
        let column_name = match reader.read_text() {
            Some(name) => name,
            None => return None,
        };
        let column_type = match reader.read_u32() {
            Some(oid) => oid,
            None => return None,
        };
        if reader.read_u32().is_none() {
            return None;
        }
        Some(ColumnInfo { column_name, column_type })
    }

    fn parse_relation(reader: &mut Reader<'_>) -> (relation: Option<RelationInfo>)
        ensures
            match described_relation(old(reader)@) {
                Some(r) => relation is Some && relation->0@ == r,
                None => relation is None,
            },
    {
        let oid = match reader.read_u32() {
            Some(oid) => oid,
            None => return None,
        };
        let namespace = match reader.read_text() {
            Some(text) => text,
            None => return None,
        };
        let relation_name = match reader.read_text() {
            Some(text) => text,
            None => return None,
        };
        let replica_identity = match reader.read_u8() {
            Some(tag) => tag as char,
            None => return None,
        };
        let column_count = match reader.read_i16() {
            Some(count) => count,
            None => return None,
        };
        let ghost start = reader@;
        let mut columns: Vec<ColumnInfo> = Vec::new();
        let mut i: i16 = 0;
        assert(columns_view(columns@) == Seq::<(Seq<char>, Oid)>::empty());
        while i < column_count
            invariant
                0 <= i,
                i <= column_count || i == 0,
                described_relation(old(reader)@) is Some <==> take_descriptions(
                    start,
                    item_count(column_count as int),
                ) is Some,
                take_descriptions(start, i as nat) == Some((columns_view(columns@), reader@)),
            decreases column_count - i,
        {
            let ghost done = columns_view(columns@);
            match Self::parse_description(reader) {
                Some(column) => {
                    let ghost view = (column.column_name@, column.column_type);
                    columns.push(column);
                    assert(columns_view(columns@) == done.push(view));
                },
                None => {
                    proof {
                        lemma_descriptions_stop(start, (i + 1) as nat, column_count as nat);
                    }
                    return None;
                },
            }
            i = i + 1;
        }
        Some(
            RelationInfo {
                oid,
                namespace,
                relation_name,
                replica_identity,
                column_count,
                columns,
            },
        )
    }

    fn parse_insert(reader: &mut Reader<'_>, is_stream: bool, xid: Option<u32>) -> (message: Option<
        ReplicationMessage,
    >)
        ensures
            match inserted_row(old(reader)@, is_stream, xid) {
                Some(m) => message is Some && message->0@ == m,
                None => message is None,
            },
    {
        let relation_id = match reader.read_u32() {
            Some(oid) => oid,
            None => return None,
        };
        match Self::read_tag(reader) {
            Some(tag) => {
                if tag != 'N' as u8 {
                    return None;
                }
            },
            None => return None,
        }
        match Self::parse_tuple(reader) {
            Some(tuple_data) => Some(
                ReplicationMessage::Insert { relation_id, tuple_data, is_stream, xid },
            ),
            None => None,
        }
    }

    fn parse_update(reader: &mut Reader<'_>, is_stream: bool, xid: Option<u32>) -> (message: Option<
        ReplicationMessage,
    >)
        ensures
            match updated_row(old(reader)@, is_stream, xid) {
                Some(m) => message is Some && message->0@ == m,
                None => message is None,
            },
    {
        let relation_id = match reader.read_u32() {
            Some(oid) => oid,
            None => return None,
        };
        let tag = match Self::read_tag(reader) {
            Some(tag) => tag,
            None => return None,
        };
        let mut key_type: Option<char> = None;
        let mut old_tuple_data: Option<TupleData> = None;
        if tag == 'K' as u8 || tag == 'O' as u8 {
            key_type = Some(tag as char);
            match Self::parse_tuple(reader) {
                Some(tuple) => {
                    old_tuple_data = Some(tuple);
                },
                None => return None,
            }
            match Self::read_tag(reader) {
                Some(next) => {
                    if next != 'N' as u8 {
                        return None;
                    }
                },
                None => return None,
            }
        } else if tag != 'N' as u8 {
            return None;
        }
        match Self::parse_tuple(reader) {
            Some(new_tuple_data) => Some(
                ReplicationMessage::Update {
                    relation_id,
                    key_type,
                    old_tuple_data,
                    new_tuple_data,
                    is_stream,
                    xid,
                },
            ),
            None => None,
        }
    }

    fn parse_xid(reader: &mut Reader<'_>, is_stream: bool) -> (xid: Option<Option<u32>>)
        ensures
            match take_xid(old(reader)@, is_stream) {
                Some((x, rest)) => xid == Some(x) && final(reader)@ == rest,
                None => xid is None,
            },
    {
        if is_stream {
            match reader.read_u32() {
                Some(xid) => Some(Some(xid)),
                None => None,
            }
        } else {
            Some(None)
        }
    }

    fn parse(data: &[u8], is_stream: bool) -> (message: Option<ReplicationMessage>)
        ensures
            match message_in(data@, is_stream) {
                Some(m) => message is Some && message->0@ == m,
                None => message is None,
            },
    {
        let mut reader = Reader::new(data);
        let tag = match Self::read_tag(&mut reader) {
            Some(tag) => tag,
            None => return None,
        };
        if tag != 'R' as u8 && tag != 'I' as u8 && tag != 'U' as u8 {
            return Some(
                ReplicationMessage::Other { message_type: tag, body: reader.read_rest() },
            );
        }
        let xid = match Self::parse_xid(&mut reader, is_stream) {
            Some(xid) => xid,
            None => return None,
        };
        if tag == 'R' as u8 {
            match Self::parse_relation(&mut reader) {
                Some(relation) => Some(ReplicationMessage::Relation { relation }),
                None => None,
            }
        } else if tag == 'I' as u8 {
            Self::parse_insert(&mut reader, is_stream, xid)
        } else {
            Self::parse_update(&mut reader, is_stream, xid)
        }
    }

    /// Parses a logical replication message.
    pub fn parse_wal_message(data: &[u8], is_stream: bool) -> (message: ReplicationResult<
        ReplicationMessage,
    >)
        ensures
            crate::errors::outcome(message) == parsed_message(data@, is_stream),
    {
        match Self::parse(data, is_stream) {
            Some(message) => Ok(message),
            None => Err(
                ReplicationError::MessageParsing {
                    message: "Malformed replication message".to_string(),
                    context: None,
                },
            ),
        }
    }
}

/// The seconds from the start of the Unix epoch to that of the PostgreSQL epoch,
/// the first of January 2000.
pub const POSTGRES_EPOCH_SECS: i64 = 946_684_800;

/// An instant in microseconds since the start of the PostgreSQL epoch.
pub open spec fn postgres_timestamp(instant: (i64, u32)) -> int {
    (instant.0 - POSTGRES_EPOCH_SECS) * 1_000_000 + instant.1 / 1_000
}

/// An instant in microseconds since the start of the PostgreSQL epoch.
pub fn system_time_to_postgres_timestamp(now: Timestamp) -> (micros: i64)
    ensures
        micros == postgres_timestamp(now@),
{
    (now.secs() - POSTGRES_EPOCH_SECS) * 1_000_000 + (now.nanos() / 1_000) as i64
}

/// A report to the server: how far the stream has been received, and how far it
/// has been applied, which also counts as flushed. No reply is asked for.
pub open spec fn status_update(received: u64, applied: u64, timestamp: i64) -> Seq<u8> {
    seq!['r' as u8] + be_bytes(received as nat, 8) + be_bytes(applied as nat, 8) + be_bytes(
        applied as nat,
        8,
    ) + be_bytes(bits_of(timestamp), 8) + seq![0u8]
}

/// A report to the server.
pub fn write_status_update(received: u64, applied: u64, timestamp: i64) -> (bytes: Vec<u8>)
    ensures
        bytes@ == status_update(received, applied, timestamp),
        bytes@.len() == 34,
{
    let mut bytes: Vec<u8> = Vec::new();
    bytes.push('r' as u8);
    push_be(&mut bytes, received, 8);
    push_be(&mut bytes, applied, 8);
    push_be(&mut bytes, applied, 8);
    push_be(&mut bytes, to_bits(timestamp), 8);
    bytes.push(0);
    proof {
        lemma_be_bytes_len(received as nat, 8);
        lemma_be_bytes_len(applied as nat, 8);
        lemma_be_bytes_len(bits_of(timestamp), 8);
        assert(bytes@ == status_update(received, applied, timestamp));
    }
    bytes
}

/// A report says what it was made of: its type, the two positions, the second of
/// them twice, the time, and that no reply is asked for.
pub proof fn law_reports_read_back(received: u64, applied: u64, timestamp: i64)
    ensures
        ({
            let bytes = status_update(received, applied, timestamp);
            &&& bytes.len() == 34
            &&& bytes[0] == 'r' as u8
            &&& be_value(bytes.subrange(1, 9)) == received
            &&& be_value(bytes.subrange(9, 17)) == applied
            &&& be_value(bytes.subrange(17, 25)) == applied
            &&& be_value(bytes.subrange(25, 33)) == bits_of(timestamp)
            &&& bytes[33] == 0
        }),
{
    assert(crate::wire::pow256(8) == 0x1_0000_0000_0000_0000) by {
        reveal_with_fuel(crate::wire::pow256, 9);
    }
    law_numbers_read_back(received as nat, 8);
    law_numbers_read_back(applied as nat, 8);
    law_numbers_read_back(bits_of(timestamp), 8);
    let bytes = status_update(received, applied, timestamp);
    assert(bytes.subrange(1, 9) == be_bytes(received as nat, 8));
    assert(bytes.subrange(9, 17) == be_bytes(applied as nat, 8));
    assert(bytes.subrange(17, 25) == be_bytes(applied as nat, 8));
    assert(bytes.subrange(25, 33) == be_bytes(bits_of(timestamp), 8));
}

/// A keepalive message has 18 bytes or more, and asks for a reply exactly if the last
/// of the 18 is not zero. A log message has 25 bytes or more: its position stands in
/// those from the second to the ninth, and its data behind the 25.
pub proof fn law_where_the_parts_of_a_message_stand(data: Seq<u8>)
    ensures
        keepalive(data) is Ok <==> data.len() >= 18,
        keepalive(data) matches Err(e) ==> e == ErrorView::Protocol(
            "Keepalive message too short"@,
        ),
        keepalive(data) matches Ok(k) ==> (k.reply_requested <==> data[17] != 0),
        xlog_data(data) is Ok <==> data.len() >= 25,
        xlog_data(data) matches Err(e) ==> e == ErrorView::Protocol(
            "XLogData message too short"@,
        ),
        xlog_data(data) matches Ok(w) ==> {
            &&& w.data_start == be_value(data.subrange(1, 9))
            &&& w.data == data.subrange(25, data.len() as int)
        },
{
    if data.len() >= 25 {
        lemma_u64_fits(data.subrange(1, 9));
        assert(data.skip(25) == data.subrange(25, data.len() as int));
    }
}

proof fn lemma_u64_fits(bytes: Seq<u8>)
    requires
        bytes.len() == 8,
    ensures
        be_value(bytes) <= u64::MAX,
{
    reveal_with_fuel(be_value, 9);
}

/// Times are counted in microseconds from the first of January 2000: that instant is
/// zero, a second more is a million more, and of nanoseconds only whole microseconds
/// count.
pub proof fn law_times_count_in_microseconds(secs: i64, nanos: u32)
    requires
        secs < i64::MAX,
    ensures
        postgres_timestamp((946_684_800, 0)) == 0,
        postgres_timestamp(((secs + 1) as i64, nanos)) == postgres_timestamp((secs, nanos))
            + 1_000_000,
        postgres_timestamp((secs, nanos)) * 1_000 <= postgres_timestamp((secs, 0)) * 1_000 + nanos
            < postgres_timestamp((secs, nanos)) * 1_000 + 1_000,
{
}

/// A row as bytes: the number of its columns, and each column as a text.
pub open spec fn row_bytes(texts: Seq<Seq<char>>) -> Seq<u8> {
    be_bytes(texts.len(), 2) + columns_bytes(texts)
}

/// The columns of a row as bytes.
pub open spec fn columns_bytes(texts: Seq<Seq<char>>) -> Seq<u8>
    decreases texts.len(),
{
    if texts.len() == 0 {
        Seq::empty()
    } else {
        columns_bytes(texts.drop_last()) + (seq!['t' as u8] + be_bytes(
            encode_utf8(texts.last()).len(),
            4,
        ) + encode_utf8(texts.last()))
    }
}

/// A row that was written is read back, with every column and in order, and what
/// follows it is left.
pub proof fn law_rows_read_back(texts: Seq<Seq<char>>, rest: Seq<u8>)
    requires
        texts.len() < 0x8000,
        forall|i: int| 0 <= i < texts.len() ==> encode_utf8(#[trigger] texts[i]).len() < 0x8000_0000,
    ensures
        take_tuple(row_bytes(texts) + rest) == Some((texts, rest)),
{
    let head = be_bytes(texts.len(), 2);
    assert(crate::wire::pow256(2) == 0x1_0000) by {
        reveal_with_fuel(crate::wire::pow256, 3);
    }
    law_numbers_read_back(texts.len(), 2);
    assert(row_bytes(texts) + rest == head + (columns_bytes(texts) + rest));
    law_taking_leaves_the_rest(head, columns_bytes(texts) + rest, 0);
    lemma_columns_read_back(texts, rest);
    assert(item_count(signed16(texts.len())) == texts.len());
}

proof fn lemma_columns_read_back(texts: Seq<Seq<char>>, rest: Seq<u8>)
    requires
        forall|i: int| 0 <= i < texts.len() ==> encode_utf8(#[trigger] texts[i]).len() < 0x8000_0000,
    ensures
        take_columns(columns_bytes(texts) + rest, texts.len()) == Some((texts, rest)),
    decreases texts.len(),
{
    if texts.len() == 0 {
        assert(columns_bytes(texts) + rest == rest);
        assert(texts == Seq::<Seq<char>>::empty());
    } else {
        let init = texts.drop_last();
        let text = texts.last();
        assert forall|i: int| 0 <= i < init.len() implies encode_utf8(#[trigger] init[i]).len()
            < 0x8000_0000 by {
            assert(init[i] == texts[i]);
        }
        assert(encode_utf8(texts[texts.len() - 1]).len() < 0x8000_0000);
        let sized = be_bytes(encode_utf8(text).len(), 4) + encode_utf8(text);
        let column = seq!['t' as u8] + be_bytes(encode_utf8(text).len(), 4) + encode_utf8(text);
        assert(column == seq!['t' as u8] + sized);
        let tail = column + rest;
        lemma_columns_read_back(init, tail);
        assert(columns_bytes(texts) + rest == columns_bytes(init) + tail);
        assert(tail[0] == 't' as u8);
        assert(tail.skip(1) == sized + rest);
        assert(sized + rest == be_bytes(encode_utf8(text).len(), 4) + encode_utf8(text) + rest);
        law_texts_read_back(text, rest);
        assert(take_column(tail) == Some((text, rest)));
        assert(init.push(text) == texts);
    }
}

/// A new row that was written is read as an insert into its relation, with its
/// transaction exactly in a stream.
pub proof fn law_inserts_read_back(relation_id: Oid, texts: Seq<Seq<char>>, xid: u32)
    requires
        texts.len() < 0x8000,
        forall|i: int| 0 <= i < texts.len() ==> encode_utf8(#[trigger] texts[i]).len() < 0x8000_0000,
    ensures
        parsed_message(
            seq!['I' as u8] + be_bytes(relation_id as nat, 4) + seq!['N' as u8] + row_bytes(texts),
            false,
        ) == Ok::<MessageView, ErrorView>(
            MessageView::Insert { relation_id, data: texts, is_stream: false, xid: None },
        ),
        parsed_message(
            seq!['I' as u8] + be_bytes(xid as nat, 4) + be_bytes(relation_id as nat, 4)
                + seq!['N' as u8] + row_bytes(texts),
            true,
        ) == Ok::<MessageView, ErrorView>(
            MessageView::Insert { relation_id, data: texts, is_stream: true, xid: Some(xid) },
        ),
{
    let oid = be_bytes(relation_id as nat, 4);
    let id = be_bytes(xid as nat, 4);
    let row = row_bytes(texts);
    let body = oid + seq!['N' as u8] + row;
    assert(row + Seq::<u8>::empty() == row);
    law_rows_read_back(texts, Seq::empty());
    law_what_makes_an_insert(relation_id, 'N' as u8, row);
    assert(seq!['I' as u8] + oid + seq!['N' as u8] + row == seq!['I' as u8] + body);
    law_streams_name_their_transaction('I' as u8, xid, body);
    assert(seq!['I' as u8] + id + oid + seq!['N' as u8] + row == seq!['I' as u8] + id + body);
}

/// A changed row that was written without the old one is read as an update of its
/// relation, with the new row.
pub proof fn law_updates_read_back(relation_id: Oid, texts: Seq<Seq<char>>, old: Seq<Seq<char>>)
    requires
        texts.len() < 0x8000,
        old.len() < 0x8000,
        forall|i: int| 0 <= i < texts.len() ==> encode_utf8(#[trigger] texts[i]).len() < 0x8000_0000,
        forall|i: int| 0 <= i < old.len() ==> encode_utf8(#[trigger] old[i]).len() < 0x8000_0000,
    ensures
        parsed_message(
            seq!['U' as u8] + be_bytes(relation_id as nat, 4) + seq!['N' as u8] + row_bytes(texts),
            false,
        ) == Ok::<MessageView, ErrorView>(
            MessageView::Update {
                relation_id,
                key_type: None,
                old_data: None,
                data: texts,
                is_stream: false,
                xid: None,
            },
        ),
        parsed_message(
            seq!['U' as u8] + be_bytes(relation_id as nat, 4) + seq!['O' as u8] + row_bytes(old)
                + seq!['N' as u8] + row_bytes(texts),
            false,
        ) == Ok::<MessageView, ErrorView>(
            MessageView::Update {
                relation_id,
                key_type: Some('O'),
                old_data: Some(old),
                data: texts,
                is_stream: false,
                xid: None,
            },
        ),
{
    let oid = be_bytes(relation_id as nat, 4);
    let row = row_bytes(texts);
    let new_row = seq!['N' as u8] + row;
    let body = row_bytes(old) + new_row;
    assert(row + Seq::<u8>::empty() == row);
    law_rows_read_back(texts, Seq::empty());
    law_rows_read_back(old, new_row);
    law_what_makes_an_update(relation_id, 'N' as u8, row);
    law_what_makes_an_update(relation_id, 'O' as u8, body);
    assert(new_row.skip(1) == row);
    assert(seq!['U' as u8] + oid + seq!['O' as u8] + row_bytes(old) + seq!['N' as u8] + row
        == seq!['U' as u8] + oid + seq!['O' as u8] + body);
}

/// A message of another type is kept as it is; no bytes are no message. A stream
/// starts with a message of the type `S` and stops with one of the type `E`, and no
/// other message starts or stops one.
pub proof fn law_other_messages_are_kept(
    message_type: u8,
    body: Seq<u8>,
    is_stream: bool,
    message: MessageView,
)
    requires
        message_type != 'R' as u8,
        message_type != 'I' as u8,
        message_type != 'U' as u8,
    ensures
        parsed_message(seq![message_type] + body, is_stream) == Ok::<MessageView, ErrorView>(
            MessageView::Other(message_type, body),
        ),
        parsed_message(Seq::empty(), is_stream) is Err,
        in_stream_after(MessageView::Other('S' as u8, body), is_stream),
        !in_stream_after(MessageView::Other('E' as u8, body), is_stream),
        in_stream_after(message, is_stream) != is_stream ==> message is Other,
        message_type != 'S' as u8 && message_type != 'E' as u8 ==> in_stream_after(
            MessageView::Other(message_type, body),
            is_stream,
        ) == is_stream,
{
    assert((seq![message_type] + body).skip(1) == body);
}

/// A description of a column as bytes: a zero for its flags, its name, its type, and
/// a zero for the modifier of its type.
pub open spec fn description_bytes(column: (Seq<char>, Oid)) -> Seq<u8> {
    seq![0u8] + (encode_utf8(column.0) + seq![0u8] + (be_bytes(column.1 as nat, 4) + be_bytes(
        0,
        4,
    )))
}

/// Descriptions of columns as bytes.
pub open spec fn descriptions_bytes(columns: Seq<(Seq<char>, Oid)>) -> Seq<u8>
    decreases columns.len(),
{
    if columns.len() == 0 {
        Seq::empty()
    } else {
        descriptions_bytes(columns.drop_last()) + description_bytes(columns.last())
    }
}

/// A description of a relation that was written is read back, with every column and
/// in order.
pub proof fn law_relations_read_back(relation: RelationView)
    requires
        relation.columns.len() < 0x8000,
        relation.column_count == relation.columns.len(),
        relation.replica_identity as u32 <= 0x7f,
        !encode_utf8(relation.namespace).contains(0),
        !encode_utf8(relation.relation_name).contains(0),
        forall|i: int|
            0 <= i < relation.columns.len() ==> !encode_utf8(
                (#[trigger] relation.columns[i]).0,
            ).contains(0),
    ensures
        parsed_message(
            seq!['R' as u8] + (be_bytes(relation.oid as nat, 4) + (encode_utf8(relation.namespace)
                + seq![0u8] + (encode_utf8(relation.relation_name) + seq![0u8] + (
            seq![relation.replica_identity as u8] + (be_bytes(relation.columns.len(), 2)
                + descriptions_bytes(relation.columns)))))),
            false,
        ) == Ok::<MessageView, ErrorView>(MessageView::Relation(relation)),
{
    assert(crate::wire::pow256(4) == 0x1_0000_0000 && crate::wire::pow256(2) == 0x1_0000) by {
        reveal_with_fuel(crate::wire::pow256, 5);
    }
    let columns = descriptions_bytes(relation.columns);
    let count = be_bytes(relation.columns.len(), 2);
    let r5 = count + columns;
    let r4 = seq![relation.replica_identity as u8] + r5;
    let r3 = encode_utf8(relation.relation_name) + seq![0u8] + r4;
    let r2 = encode_utf8(relation.namespace) + seq![0u8] + r3;
    let oid = be_bytes(relation.oid as nat, 4);
    let data = seq!['R' as u8] + (oid + r2);
    assert(data.skip(1) == oid + r2);
    law_numbers_read_back(relation.oid as nat, 4);
    law_numbers_read_back(relation.columns.len(), 2);
    law_taking_leaves_the_rest(oid, r2, 0);
    law_texts_read_back(relation.namespace, r3);
    law_texts_read_back(relation.relation_name, r4);
    lemma_first_byte(r4);
    assert(r4.skip(1) == r5);
    assert(r4[0] == relation.replica_identity as u8);
    law_taking_leaves_the_rest(count, columns, 0);
    lemma_descriptions_read_back(relation.columns, Seq::empty());
    assert(columns + Seq::<u8>::empty() == columns);
    assert(item_count(signed16(relation.columns.len())) == relation.columns.len());
    assert((relation.replica_identity as u8) as nat as char == relation.replica_identity);
}

proof fn lemma_descriptions_read_back(columns: Seq<(Seq<char>, Oid)>, rest: Seq<u8>)
    requires
        forall|i: int|
            0 <= i < columns.len() ==> !encode_utf8((#[trigger] columns[i]).0).contains(0),
    ensures
        take_descriptions(descriptions_bytes(columns) + rest, columns.len()) == Some(
            (columns, rest),
        ),
    decreases columns.len(),
{
    if columns.len() == 0 {
        assert(descriptions_bytes(columns) + rest == rest);
        assert(columns == Seq::<(Seq<char>, Oid)>::empty());
    } else {
        let init = columns.drop_last();
        let column = columns.last();
        assert forall|i: int| 0 <= i < init.len() implies !encode_utf8(
            (#[trigger] init[i]).0,
        ).contains(0) by {
            assert(init[i] == columns[i]);
        }
        assert(!encode_utf8(columns[columns.len() - 1].0).contains(0));
        let kind = be_bytes(column.1 as nat, 4);
        let modifier = be_bytes(0, 4);
        let tail = description_bytes(column) + rest;
        lemma_descriptions_read_back(init, tail);
        assert(descriptions_bytes(columns) + rest == descriptions_bytes(init) + tail);
        law_how_descriptions_are_read(0, column.0, column.1, 0, rest, rest, 0);
        assert(tail == seq![0u8] + (encode_utf8(column.0) + seq![0u8] + (kind + (modifier
            + rest))));
        assert(take_description(tail) == Some((column, rest)));
        assert(init.push(column) == columns);
    }
}

/// The view of a part of the log leaves nothing out.
pub proof fn law_the_log_is_seen_whole(message: XLogDataMessage)
    ensures
        message@.data_start == message.data_start,
        message@.wal_end == message.wal_end,
        message@.send_time == message.send_time,
        message@.data == message.data@,
{
}

/// The numbers of keepalive messages and of log messages stand where they are expected.
pub proof fn law_where_the_numbers_of_a_message_stand(data: Seq<u8>)
    ensures
        keepalive(data) matches Ok(k) ==> {
            &&& k.wal_end == be_value(data.subrange(1, 9))
            &&& k.timestamp == be_value(data.subrange(9, 17))
        },
        xlog_data(data) matches Ok(w) ==> {
            &&& w.wal_end == be_value(data.subrange(9, 17))
            &&& w.send_time == be_value(data.subrange(17, 25))
        },
{
    if data.len() >= 18 {
        lemma_u64_fits(data.subrange(1, 9));
        lemma_u64_fits(data.subrange(9, 17));
    }
    if data.len() >= 25 {
        lemma_u64_fits(data.subrange(17, 25));
    }
}

/// How the columns of a row are read, by the byte before each: a null and an unchanged
/// column have no text, a text and a binary column have one, and nothing else is a column.
/// Columns are read one after the other, and all of them.
pub proof fn law_how_columns_are_read(kind: u8, rest: Seq<u8>, data: Seq<u8>, count: nat)
    ensures
        take_column(Seq::empty()) is None,
        kind == 'n' as u8 || kind == 'u' as u8 ==> take_column(seq![kind] + rest) == Some(
            (Seq::<char>::empty(), rest),
        ),
        kind == 't' as u8 || kind == 'b' as u8 ==> take_column(seq![kind] + rest)
            == take_sized_text(rest),
        kind != 'n' as u8 && kind != 'u' as u8 && kind != 't' as u8 && kind != 'b' as u8
            ==> take_column(seq![kind] + rest) is None,
        take_columns(data, 0) == Some((Seq::<Seq<char>>::empty(), data)),
        take_columns(data, count) is None ==> take_columns(data, count + 1) is None,
        take_columns(data, count) matches Some((columns, left)) ==> (match take_column(left) {
            None => take_columns(data, count + 1) is None,
            Some((column, after)) => take_columns(data, count + 1) == Some(
                (columns.push(column), after),
            ),
        }),
{
    assert((seq![kind] + rest).skip(1) == rest);
}

/// A row has as many columns as the number before it says, and none if that number is
/// negative.
pub proof fn law_rows_have_as_many_columns_as_they_say(count: nat, rest: Seq<u8>)
    requires
        count < 0x1_0000,
    ensures
        take_tuple(be_bytes(count, 2) + rest) == (if count < 0x8000 {
            take_columns(rest, count)
        } else {
            Some((Seq::empty(), rest))
        }),
        rest.len() < 2 ==> take_tuple(rest) is None,
{
    assert(crate::wire::pow256(2) == 0x1_0000) by {
        reveal_with_fuel(crate::wire::pow256, 3);
    }
    law_numbers_read_back(count, 2);
    law_taking_leaves_the_rest(be_bytes(count, 2), rest, 0);
}

/// What an insert needs: the relation, the letter of a new row, and a row. What is not
/// there makes the message malformed, and what follows is not looked at.
pub proof fn law_what_makes_an_insert(relation_id: Oid, tag: u8, body: Seq<u8>)
    ensures
        parsed_message(
            seq!['I' as u8] + be_bytes(relation_id as nat, 4) + seq![tag] + body,
            false,
        ) == (match take_tuple(body) {
            Some((row, _)) if tag == 'N' as u8 => Ok::<MessageView, ErrorView>(
                MessageView::Insert { relation_id, data: row, is_stream: false, xid: None },
            ),
            _ => Err(ErrorView::MessageParsing("Malformed replication message"@, None)),
        }),
        body.len() <= 4 ==> parsed_message(seq!['I' as u8] + body, false) == Err::<
            MessageView,
            ErrorView,
        >(ErrorView::MessageParsing("Malformed replication message"@, None)),
{
    assert(crate::wire::pow256(4) == 0x1_0000_0000) by {
        reveal_with_fuel(crate::wire::pow256, 5);
    }
    let oid = be_bytes(relation_id as nat, 4);
    law_numbers_read_back(relation_id as nat, 4);
    let tagged = seq![tag] + body;
    let data = seq!['I' as u8] + oid + seq![tag] + body;
    assert(data.skip(1) == oid + tagged);
    law_taking_leaves_the_rest(oid, tagged, 0);
    assert(tagged.skip(1) == body);
    assert((seq!['I' as u8] + body).skip(1) == body);
}

/// What an update needs: the relation, and a new row behind its letter; before it, the old
/// row or its key may stand behind a letter of its own. What is not there makes the message
/// malformed, and what follows is not looked at.
pub proof fn law_what_makes_an_update(relation_id: Oid, tag: u8, body: Seq<u8>)
    ensures
        ({
            let parsed = parsed_message(
                seq!['U' as u8] + be_bytes(relation_id as nat, 4) + seq![tag] + body,
                false,
            );
            let malformed = Err::<MessageView, ErrorView>(
                ErrorView::MessageParsing("Malformed replication message"@, None),
            );
            match take_tuple(body) {
                None => parsed == malformed,
                Some((row, left)) => if tag == 'N' as u8 {
                    parsed == Ok::<MessageView, ErrorView>(
                        MessageView::Update {
                            relation_id,
                            key_type: None,
                            old_data: None,
                            data: row,
                            is_stream: false,
                            xid: None,
                        },
                    )
                } else if (tag == 'K' as u8 || tag == 'O' as u8) && left.len() > 0 && left[0]
                    == 'N' as u8 {
                    match take_tuple(left.skip(1)) {
                        None => parsed == malformed,
                        Some((new_row, _)) => parsed == Ok::<MessageView, ErrorView>(
                            MessageView::Update {
                                relation_id,
                                key_type: Some(tag as char),
                                old_data: Some(row),
                                data: new_row,
                                is_stream: false,
                                xid: None,
                            },
                        ),
                    }
                } else {
                    parsed == malformed
                },
            }
        }),
        body.len() <= 4 ==> parsed_message(seq!['U' as u8] + body, false) == Err::<
            MessageView,
            ErrorView,
        >(ErrorView::MessageParsing("Malformed replication message"@, None)),
{
    assert(crate::wire::pow256(4) == 0x1_0000_0000) by {
        reveal_with_fuel(crate::wire::pow256, 5);
    }
    let oid = be_bytes(relation_id as nat, 4);
    law_numbers_read_back(relation_id as nat, 4);
    let tagged = seq![tag] + body;
    let data = seq!['U' as u8] + oid + seq![tag] + body;
    assert(data.skip(1) == oid + tagged);
    law_taking_leaves_the_rest(oid, tagged, 0);
    assert(tagged.skip(1) == body);
    assert((seq!['U' as u8] + body).skip(1) == body);
}

/// In a stream, a message on a relation or a row names its transaction first. Otherwise it
/// is the same message.
pub proof fn law_streams_name_their_transaction(message_type: u8, xid: u32, body: Seq<u8>)
    requires
        message_type == 'R' as u8 || message_type == 'I' as u8 || message_type == 'U' as u8,
    ensures
        ({
            let streamed = parsed_message(
                seq![message_type] + be_bytes(xid as nat, 4) + body,
                true,
            );
            match parsed_message(seq![message_type] + body, false) {
                Ok(MessageView::Insert { relation_id, data, .. }) => streamed == Ok::<
                    MessageView,
                    ErrorView,
                >(MessageView::Insert { relation_id, data, is_stream: true, xid: Some(xid) }),
                Ok(MessageView::Update { relation_id, key_type, old_data, data, .. }) => streamed
                    == Ok::<MessageView, ErrorView>(
                    MessageView::Update {
                        relation_id,
                        key_type,
                        old_data,
                        data,
                        is_stream: true,
                        xid: Some(xid),
                    },
                ),
                Ok(message) => streamed == Ok::<MessageView, ErrorView>(message),
                Err(error) => streamed == Err::<MessageView, ErrorView>(error),
            }
        }),
        body.len() < 4 ==> parsed_message(seq![message_type] + body, true) == Err::<
            MessageView,
            ErrorView,
        >(ErrorView::MessageParsing("Malformed replication message"@, None)),
{
    assert(crate::wire::pow256(4) == 0x1_0000_0000) by {
        reveal_with_fuel(crate::wire::pow256, 5);
    }
    let id = be_bytes(xid as nat, 4);
    law_numbers_read_back(xid as nat, 4);
    law_taking_leaves_the_rest(id, body, 0);
    assert((seq![message_type] + body).skip(1) == body);
    assert((seq![message_type] + id + body).skip(1) == id + body);
}

/// How descriptions of columns are read: flags, a name that a zero byte ends, a type and a
/// modifier, of which the name and the type are kept. Descriptions are read one after the
/// other, and all of them.
pub proof fn law_how_descriptions_are_read(
    flags: u8,
    name: Seq<char>,
    column_type: Oid,
    modifier: u32,
    rest: Seq<u8>,
    data: Seq<u8>,
    count: nat,
)
    requires
        !encode_utf8(name).contains(0),
    ensures
        take_description(
            seq![flags] + (encode_utf8(name) + seq![0u8] + (be_bytes(column_type as nat, 4) + (
            be_bytes(modifier as nat, 4) + rest))),
        ) == Some(((name, column_type), rest)),
        take_descriptions(data, 0) == Some((Seq::<(Seq<char>, Oid)>::empty(), data)),
        take_descriptions(data, count) is None ==> take_descriptions(data, count + 1) is None,
        take_descriptions(data, count) matches Some((columns, left)) ==> (match take_description(
            left,
        ) {
            None => take_descriptions(data, count + 1) is None,
            Some((column, after)) => take_descriptions(data, count + 1) == Some(
                (columns.push(column), after),
            ),
        }),
{
    assert(crate::wire::pow256(4) == 0x1_0000_0000) by {
        reveal_with_fuel(crate::wire::pow256, 5);
    }
    let kind = be_bytes(column_type as nat, 4);
    let last = be_bytes(modifier as nat, 4) + rest;
    let named = encode_utf8(name) + seq![0u8] + (kind + last);
    let whole = seq![flags] + named;
    assert(whole.skip(1) == named);
    lemma_first_byte(whole);
    law_texts_read_back(name, kind + last);
    law_numbers_read_back(column_type as nat, 4);
    law_numbers_read_back(modifier as nat, 4);
    law_taking_leaves_the_rest(kind, last, 0);
    law_taking_leaves_the_rest(be_bytes(modifier as nat, 4), rest, 0);
}

/// A relation has as many columns as the number before them says, and none if that number
/// is negative. It is kept as it was sent.
pub proof fn law_relations_have_as_many_columns_as_they_say(
    oid: Oid,
    namespace: Seq<char>,
    name: Seq<char>,
    identity: u8,
    count: nat,
    rest: Seq<u8>,
)
    requires
        !encode_utf8(namespace).contains(0),
        !encode_utf8(name).contains(0),
        count < 0x1_0000,
    ensures
        ({
            let parsed = parsed_message(
                seq!['R' as u8] + (be_bytes(oid as nat, 4) + (encode_utf8(namespace) + seq![0u8] + (
                encode_utf8(name) + seq![0u8] + (seq![identity] + (be_bytes(count, 2) + rest))))),
                false,
            );
            let taken = if count < 0x8000 {
                take_descriptions(rest, count)
            } else {
                Some((Seq::empty(), rest))
            };
            match taken {
                None => parsed == Err::<MessageView, ErrorView>(
                    ErrorView::MessageParsing("Malformed replication message"@, None),
                ),
                Some((columns, _)) => parsed matches Ok(MessageView::Relation(relation))
                    && relation.oid == oid && relation.namespace == namespace
                    && relation.relation_name == name && relation.replica_identity
                    == identity as char && relation.column_count == (if count < 0x8000 {
                    count as int
                } else {
                    count - 0x1_0000
                }) && relation.columns == columns,
            }
        }),
{
    assert(crate::wire::pow256(4) == 0x1_0000_0000 && crate::wire::pow256(2) == 0x1_0000) by {
        reveal_with_fuel(crate::wire::pow256, 5);
    }
    let number = be_bytes(count, 2);
    let r5 = number + rest;
    let r4 = seq![identity] + r5;
    let r3 = encode_utf8(name) + seq![0u8] + r4;
    let r2 = encode_utf8(namespace) + seq![0u8] + r3;
    let id = be_bytes(oid as nat, 4);
    let data = seq!['R' as u8] + (id + r2);
    assert(data.skip(1) == id + r2);
    law_numbers_read_back(oid as nat, 4);
    law_numbers_read_back(count, 2);
    law_taking_leaves_the_rest(id, r2, 0);
    law_texts_read_back(namespace, r3);
    law_texts_read_back(name, r4);
    lemma_first_byte(r4);
    assert(r4.skip(1) == r5);
    law_taking_leaves_the_rest(number, rest, 0);
}

/// A description of a column that is cut off is none: it needs a byte of flags, a name with
/// its end, and eight bytes more.
pub proof fn law_descriptions_are_whole(flags: u8, rest: Seq<u8>)
    ensures
        take_description(Seq::empty()) is None,
        take_text(rest) is None ==> take_description(seq![flags] + rest) is None,
        take_text(rest) matches Some((name, after)) ==> (take_description(seq![flags] + rest)
            is Some <==> after.len() >= 8),
{
    let data = seq![flags] + rest;
    assert(data.skip(1) == rest);
    lemma_first_byte(data);
    lemma_first_byte(Seq::empty());
}

/// A description of a relation that is cut off is malformed: it needs the identifier of the
/// relation, two texts with their ends, and three bytes more before the columns.
pub proof fn law_relations_are_whole(oid: Oid, body: Seq<u8>)
    ensures
        ({
            let malformed = Err::<MessageView, ErrorView>(
                ErrorView::MessageParsing("Malformed replication message"@, None),
            );
            let parsed = parsed_message(seq!['R' as u8] + (be_bytes(oid as nat, 4) + body), false);
            &&& body.len() < 4 ==> parsed_message(seq!['R' as u8] + body, false) == malformed
            &&& match take_text(body) {
                None => parsed == malformed,
                Some((_, second)) => match take_text(second) {
                    None => parsed == malformed,
                    Some((_, rest)) => rest.len() < 3 ==> parsed == malformed,
                },
            }
        }),
{
    assert(crate::wire::pow256(4) == 0x1_0000_0000) by {
        reveal_with_fuel(crate::wire::pow256, 5);
    }
    let id = be_bytes(oid as nat, 4);
    law_numbers_read_back(oid as nat, 4);
    law_taking_leaves_the_rest(id, body, 0);
    assert((seq!['R' as u8] + (id + body)).skip(1) == id + body);
    assert((seq!['R' as u8] + body).skip(1) == body);
}

} // verus!
