//! The event history: a table in which each delivered event gets a row.
//!
//! Records are gathered in a buffer and written in batches, when a batch is full,
//! when an interval is over, and when no more records can come. A row of the
//! history is a state transition of an event, so nothing has to be unique in it.

use vstd::prelude::*;

use crate::event_row::EventTableRow;
use crate::ids::{uuid_chars, Uuid};
use crate::text::{chars_of, string_of};
use crate::time::{utc_format_text, Timestamp};

verus! {

/// One row to write to the event history.
#[derive(Debug)]
pub struct EventHistoryRecord {
    pub event_id: Uuid,
    pub event_type: String,
    pub source_created_at: Timestamp,
}

/// An [`EventHistoryRecord`] as a mathematical value.
pub struct RecordView {
    pub event_id: u128,
    pub event_type: Seq<char>,
    pub source_created_at: (i64, u32),
}

impl View for EventHistoryRecord {
    type V = RecordView;

    open spec fn view(&self) -> RecordView {
        RecordView {
            event_id: self.event_id.bits,
            event_type: self.event_type@,
            source_created_at: self.source_created_at@,
        }
    }
}

/// Records by their views.
pub open spec fn records_view(records: Seq<EventHistoryRecord>) -> Seq<RecordView> {
    records.map_values(|r: EventHistoryRecord| r@)
}

/// The record of the delivery of an event.
pub fn delivery_record(event: &EventTableRow) -> (record: EventHistoryRecord)
    ensures
        record@ == (RecordView {
            event_id: event@.event_id,
            event_type: event@.event_type,
            source_created_at: event@.created_at,
        }),
{
    EventHistoryRecord {
        event_id: event.event_id,
        event_type: event.event_type.clone(),
        source_created_at: event.created_at,
    }
}

/// A text with each quote doubled.
pub open spec fn escaped(text: Seq<char>) -> Seq<char>
    decreases text.len(),
{
    if text.len() == 0 {
        Seq::empty()
    } else if text.last() == '\'' {
        escaped(text.drop_last()) + seq!['\'', '\'']
    } else {
        escaped(text.drop_last()).push(text.last())
    }
}

/// A text with each quote doubled, as it stands in a literal of SQL.
pub fn escape_quotes(text: &str) -> (result: String)
    ensures
        result@ == escaped(text@),
{
    let chars = chars_of(text);
    let mut out: Vec<char> = Vec::new();
    for i in 0..chars.len()
        invariant
            chars@ == text@,
            out@ == escaped(text@.take(i as int)),
    {
        let c = chars[i];
        assert(text@.take(i + 1).drop_last() == text@.take(i as int));
        let ghost before = out@;
        if c == '\'' {
            out.push('\'');
            out.push('\'');
            assert(out@ == before + seq!['\'', '\'']);
        } else {
            out.push(c);
        }
    }
    assert(text@.take(text@.len() as int) == text@);
    string_of(&out)
}

/// The values of one row.
pub open spec fn row_sql(record: RecordView) -> Seq<char> {
    "('"@ + uuid_chars(record.event_id)
        + "', 'DELIVERED', jsonb_build_object('trigger', 'walpipe_dispatch', 'event_type', '"@
        + escaped(record.event_type) + "', 'source_created_at', '"@ + escaped(
        utc_format_text(record.source_created_at.0, record.source_created_at.1),
    ) + "'))"@
}

/// The values of rows, with a comma between two of them.
pub open spec fn rows_sql(records: Seq<RecordView>) -> Seq<char>
    decreases records.len(),
{
    if records.len() == 0 {
        Seq::empty()
    } else if records.len() == 1 {
        row_sql(records[0])
    } else {
        rows_sql(records.drop_last()) + ","@ + row_sql(records.last())
    }
}

/// The statement that writes records to the event history.
pub open spec fn insert_sql(records: Seq<RecordView>) -> Seq<char> {
    "INSERT INTO event_history (event_id, status, metadata) VALUES "@ + rows_sql(records)
}

/// The values of one row.
fn build_row_sql(record: &EventHistoryRecord) -> (sql: String)
    ensures
        sql@ == row_sql(record@),
{
    let event_type = escape_quotes(record.event_type.as_str());
    let created_at = escape_quotes(record.source_created_at.to_history_text().as_str());
    "('".to_string().concat(record.event_id.to_text().as_str()).concat(
        "', 'DELIVERED', jsonb_build_object('trigger', 'walpipe_dispatch', 'event_type', '",
    ).concat(event_type.as_str()).concat("', 'source_created_at', '").concat(
        created_at.as_str(),
    ).concat("'))")
}

/// The statement that writes a batch of records to the event history.
pub fn build_insert_sql(batch: &[EventHistoryRecord]) -> (sql: String)
    ensures
        sql@ == insert_sql(records_view(batch@)),
{
    let mut rows = String::new();
    let ghost all = records_view(batch@);
    for i in 0..batch.len()
        invariant
            all == records_view(batch@),
            rows@ == rows_sql(all.take(i as int)),
    {
        let ghost upto = all.take(i + 1);
        assert(upto.drop_last() == all.take(i as int));
        assert(upto.last() == batch@[i as int]@);
        if i > 0 {
            rows.append(",");
        }
        rows.append(build_row_sql(&batch[i]).as_str());
        if i == 0 {
            assert(rows@ == row_sql(upto[0]));
        }
    }
    assert(all.take(all.len() as int) == all);
    "INSERT INTO event_history (event_id, status, metadata) VALUES ".to_string().concat(
        rows.as_str(),
    )
}

/// What a batch asks of the database: nothing if it is empty, and otherwise the
/// statement that writes it.
pub fn flush_statement(batch: &[EventHistoryRecord]) -> (statement: Option<String>)
    ensures
        match statement {
            None => batch@.len() == 0,
            Some(sql) => batch@.len() > 0 && sql@ == insert_sql(records_view(batch@)),
        },
{
    if batch.len() == 0 {
        None
    } else {
        Some(build_insert_sql(batch))
    }
}

/// The description of a failed flush: the error, and what caused it if that is
/// known.
pub fn flush_error(error: &str, source: Option<&str>) -> (text: String)
    ensures
        text@ == (match source {
            Some(s) => "flush_batch: "@ + error@ + ": "@ + s@,
            None => "flush_batch: "@ + error@,
        }),
{
    let text = "flush_batch: ".to_string().concat(error);
    match source {
        Some(s) => text.concat(": ").concat(s),
        None => text,
    }
}

/// Where the recorder stands.
#[derive(Debug, Clone, Copy, PartialEq, Eq, Structural)]
pub enum BatchPhase {
    /// Records are gathered.
    Gathering,
    /// A batch is being written.
    Flushing,
    /// The last batch is being written.
    Closing,
    /// No more records come, and none is written any more.
    Done,
}

/// What happens to the recorder.
#[derive(Debug)]
pub enum BatchEvent {
    /// A record came in.
    Received(EventHistoryRecord),
    /// The interval is over.
    Tick,
    /// No more records can come.
    Closed,
    /// A batch was written, or could not be written.
    Flushed { success: bool },
}

/// What the recorder does next.
#[derive(Debug)]
pub enum BatchAction {
    /// Wait for a record or for the end of the interval.
    Wait,
    /// Run the statement.
    Flush { sql: String },
    /// Stop.
    Stop,
}

/// The records that are yet to be written.
#[derive(Debug)]
pub struct EventHistoryRecorder {
    records: Vec<EventHistoryRecord>,
    batch_size: usize,
    phase: BatchPhase,
}

/// A [`EventHistoryRecorder`] as a mathematical value.
pub struct RecorderView {
    pub records: Seq<RecordView>,
    pub batch_size: usize,
    pub phase: BatchPhase,
}

/// A [`BatchEvent`] as a mathematical value.
pub enum BatchEventView {
    Received(RecordView),
    Tick,
    Closed,
    Flushed(bool),
}

/// A [`BatchAction`] as a mathematical value: a flush is taken by the records
/// that it writes.
pub enum BatchActionView {
    Wait,
    Flush(Seq<RecordView>),
    Stop,
}

impl View for EventHistoryRecorder {
    type V = RecorderView;

    closed spec fn view(&self) -> RecorderView {
        RecorderView {
            records: records_view(self.records@),
            batch_size: self.batch_size,
            phase: self.phase,
        }
    }
}

impl View for BatchEvent {
    type V = BatchEventView;

    open spec fn view(&self) -> BatchEventView {
        match self {
            BatchEvent::Received(record) => BatchEventView::Received(record@),
            BatchEvent::Tick => BatchEventView::Tick,
            BatchEvent::Closed => BatchEventView::Closed,
            BatchEvent::Flushed { success } => BatchEventView::Flushed(*success),
        }
    }
}

/// Whether an action is the one that is meant.
pub open spec fn action_is(action: BatchAction, meant: BatchActionView) -> bool {
    match (action, meant) {
        (BatchAction::Wait, BatchActionView::Wait) => true,
        (BatchAction::Flush { sql }, BatchActionView::Flush(records)) => sql@ == insert_sql(records),
        (BatchAction::Stop, BatchActionView::Stop) => true,
        _ => false,
    }
}

impl RecorderView {
    /// A recorder that has no records.
    pub open spec fn initial(batch_size: usize) -> RecorderView {
        RecorderView { records: Seq::empty(), batch_size, phase: BatchPhase::Gathering }
    }

    /// Whether an event can happen: the outcome of a flush comes during one, and
    /// everything else while records are gathered.
    pub open spec fn expects(self, event: BatchEventView) -> bool {
        match event {
            BatchEventView::Flushed(_) => self.phase is Flushing || self.phase is Closing,
            _ => self.phase is Gathering,
        }
    }

    /// The recorder once it has taken a record.
    pub open spec fn with(self, record: RecordView) -> RecorderView {
        RecorderView { records: self.records.push(record), ..self }
    }

    /// The recorder in another phase.
    pub open spec fn in_phase(self, phase: BatchPhase) -> RecorderView {
        RecorderView { phase, ..self }
    }

    /// The recorder once its records have been written.
    pub open spec fn emptied(self) -> RecorderView {
        RecorderView { records: Seq::empty(), ..self }
    }

    /// What the recorder does at an event.
    pub open spec fn step(self, event: BatchEventView) -> (RecorderView, BatchActionView) {
        match event {
            BatchEventView::Received(record) => {
                let next = self.with(record);
                if next.records.len() >= self.batch_size {
                    (next.in_phase(BatchPhase::Flushing), BatchActionView::Flush(next.records))
                } else {
                    (next, BatchActionView::Wait)
                }
            },
            BatchEventView::Tick => if self.records.len() > 0 {
                (self.in_phase(BatchPhase::Flushing), BatchActionView::Flush(self.records))
            } else {
                (self, BatchActionView::Wait)
            },
            BatchEventView::Closed => if self.records.len() > 0 {
                (self.in_phase(BatchPhase::Closing), BatchActionView::Flush(self.records))
            } else {
                (self.in_phase(BatchPhase::Done), BatchActionView::Stop)
            },
            BatchEventView::Flushed(success) => {
                let next = if success {
                    self.emptied()
                } else {
                    self
                };
                if self.phase is Closing {
                    (next.in_phase(BatchPhase::Done), BatchActionView::Stop)
                } else {
                    (next.in_phase(BatchPhase::Gathering), BatchActionView::Wait)
                }
            },
        }
    }
}

impl EventHistoryRecorder {
    /// A recorder that writes a batch once it has the given number of records.
    pub fn new(batch_size: usize) -> (recorder: EventHistoryRecorder)
        ensures
            recorder@ == RecorderView::initial(batch_size),
    {
        let recorder = EventHistoryRecorder {
            records: Vec::new(),
            batch_size,
            phase: BatchPhase::Gathering,
        };
        assert(recorder@.records == Seq::<RecordView>::empty());
        recorder
    }

    /// The number of records that are yet to be written.
    pub fn len(&self) -> (n: usize)
        ensures
            n == self@.records.len(),
    {
        self.records.len()
    }

    /// Where the recorder stands.
    pub fn phase(&self) -> (phase: BatchPhase)
        ensures
            phase == self@.phase,
    {
        self.phase
    }

    fn flush(&mut self, phase: BatchPhase) -> (action: BatchAction)
        ensures
            final(self)@ == old(self)@.in_phase(phase),
            action_is(action, BatchActionView::Flush(old(self)@.records)),
    {
        self.phase = phase;
        BatchAction::Flush { sql: build_insert_sql(self.records.as_slice()) }
    }

    /// Takes a record of a delivered event, and decides what to do next.
    pub fn record(&mut self, record: EventHistoryRecord) -> (action: BatchAction)
        requires
            old(self)@.phase is Gathering,
        ensures
            final(self)@ == old(self)@.step(BatchEventView::Received(record@)).0,
            action_is(action, old(self)@.step(BatchEventView::Received(record@)).1),
    {
        self.step(BatchEvent::Received(record))
    }

    /// Takes note of an event, and decides what to do next.
    pub fn step(&mut self, event: BatchEvent) -> (action: BatchAction)
        requires
            old(self)@.expects(event@),
        ensures
            final(self)@ == old(self)@.step(event@).0,
            action_is(action, old(self)@.step(event@).1),
    {
        let ghost before = self@;
        match event {
            BatchEvent::Received(record) => {
                let ghost view = record@;
                self.records.push(record);
                assert(self@.records == before.records.push(view));
                if self.records.len() >= self.batch_size {
                    self.flush(BatchPhase::Flushing)
                } else {
                    BatchAction::Wait
                }
            },
            BatchEvent::Tick => if self.records.len() > 0 {
                self.flush(BatchPhase::Flushing)
            } else {
                BatchAction::Wait
            },
            BatchEvent::Closed => if self.records.len() > 0 {
                self.flush(BatchPhase::Closing)
            } else {
                self.phase = BatchPhase::Done;
                BatchAction::Stop
            },
            BatchEvent::Flushed { success } => {
                if success {
                    self.records = Vec::new();
                    assert(self@.records == Seq::<RecordView>::empty());
                }
                if self.phase == BatchPhase::Closing {
                    self.phase = BatchPhase::Done;
                    BatchAction::Stop
                } else {
                    self.phase = BatchPhase::Gathering;
                    BatchAction::Wait
                }
            },
        }
    }
}

/// Whether events can happen to a recorder in the given order.
pub open spec fn can_happen(recorder: RecorderView, events: Seq<BatchEventView>) -> bool
    decreases events.len(),
{
    if events.len() == 0 {
        true
    } else {
        recorder.expects(events[0]) && can_happen(recorder.step(events[0]).0, events.skip(1))
    }
}

/// The recorder once events have happened to it.
pub open spec fn after_events(recorder: RecorderView, events: Seq<BatchEventView>) -> RecorderView
    decreases events.len(),
{
    if events.len() == 0 {
        recorder
    } else {
        after_events(recorder.step(events[0]).0, events.skip(1))
    }
}

/// The records that came in, in order.
pub open spec fn received(events: Seq<BatchEventView>) -> Seq<RecordView>
    decreases events.len(),
{
    if events.len() == 0 {
        Seq::empty()
    } else {
        match events[0] {
            BatchEventView::Received(record) => seq![record] + received(events.skip(1)),
            _ => received(events.skip(1)),
        }
    }
}

/// The records that were written, in order.
pub open spec fn written(recorder: RecorderView, events: Seq<BatchEventView>) -> Seq<RecordView>
    decreases events.len(),
{
    if events.len() == 0 {
        Seq::empty()
    } else {
        let rest = written(recorder.step(events[0]).0, events.skip(1));
        match events[0] {
            BatchEventView::Flushed(true) => recorder.records + rest,
            _ => rest,
        }
    }
}

/// No record is lost, doubled or put out of order: whatever happens, the records
/// that were written, followed by those that the recorder still has, are the
/// records that came in.
pub proof fn law_every_record_is_written_or_kept(batch_size: usize, events: Seq<BatchEventView>)
    requires
        can_happen(RecorderView::initial(batch_size), events),
    ensures
        written(RecorderView::initial(batch_size), events) + after_events(
            RecorderView::initial(batch_size),
            events,
        ).records == received(events),
{
    let start = RecorderView::initial(batch_size);
    lemma_records_are_kept(start, events);
    assert(start.records + received(events) == received(events));
}

proof fn lemma_records_are_kept(recorder: RecorderView, events: Seq<BatchEventView>)
    ensures
        written(recorder, events) + after_events(recorder, events).records == recorder.records
            + received(events),
    decreases events.len(),
{
    if events.len() == 0 {
        assert(written(recorder, events) + recorder.records == recorder.records + received(events));
    } else {
        let next = recorder.step(events[0]).0;
        let rest = events.skip(1);
        lemma_records_are_kept(next, rest);
        let tail = written(next, rest) + after_events(next, rest).records;
        match events[0] {
            BatchEventView::Received(record) => {
                assert(next.records == recorder.records.push(record));
                assert(recorder.records.push(record) + received(rest) == recorder.records
                    + received(events));
            },
            BatchEventView::Flushed(success) => {
                if success {
                    assert(next.records == Seq::<RecordView>::empty());
                    assert(tail == received(rest));
                    assert(written(recorder, events) + after_events(recorder, events).records
                        == recorder.records + tail);
                } else {
                    assert(next.records == recorder.records);
                }
            },
            _ => {
                assert(next.records == recorder.records);
            },
        }
    }
}

/// A full batch, a batch at the end of an interval, and the last batch are
/// written whole; and a batch that could not be written is kept whole.
pub proof fn law_batches_are_whole(recorder: RecorderView, record: RecordView)
    ensures
        recorder.records.len() + 1 >= recorder.batch_size ==> recorder.step(
            BatchEventView::Received(record),
        ).1 == BatchActionView::Flush(recorder.records.push(record)),
        recorder.records.len() > 0 ==> {
            &&& recorder.step(BatchEventView::Tick).1 == BatchActionView::Flush(recorder.records)
            &&& recorder.step(BatchEventView::Closed).1 == BatchActionView::Flush(recorder.records)
        },
        recorder.step(BatchEventView::Flushed(false)).0.records == recorder.records,
        recorder.step(BatchEventView::Flushed(true)).0.records == Seq::<RecordView>::empty(),
{
}

/// Reads a literal of SQL from behind its opening quote: the text that it stands
/// for, and what follows its closing quote.
pub open spec fn read_literal(sql: Seq<char>) -> Option<(Seq<char>, Seq<char>)>
    decreases sql.len(),
{
    if sql.len() == 0 {
        None
    } else if sql[0] != '\'' {
        match read_literal(sql.skip(1)) {
            Some((text, rest)) => Some((seq![sql[0]] + text, rest)),
            None => None,
        }
    } else if sql.len() > 1 && sql[1] == '\'' {
        match read_literal(sql.skip(2)) {
            Some((text, rest)) => Some((seq!['\''] + text, rest)),
            None => None,
        }
    } else {
        Some((Seq::empty(), sql.skip(1)))
    }
}

/// An escaped text between quotes reads back as the text: no quote in it ends
/// the literal, and nothing of it is left outside.
pub proof fn law_escaped_text_stays_in_its_literal(text: Seq<char>, rest: Seq<char>)
    requires
        rest.len() > 0 ==> rest[0] != '\'',
    ensures
        read_literal(escaped(text) + seq!['\''] + rest) == Some((text, rest)),
    decreases text.len(),
{
    let sql = escaped(text) + seq!['\''] + rest;
    if text.len() == 0 {
        assert(sql == seq!['\''] + rest);
        assert(sql.skip(1) == rest);
        assert(text == Seq::<char>::empty());
    } else {
        let tail = text.skip(1);
        law_escaped_text_stays_in_its_literal(tail, rest);
        lemma_escaped_first(text);
        let after = escaped(tail) + seq!['\''] + rest;
        if text[0] == '\'' {
            assert(sql == seq!['\'', '\''] + after);
            assert(sql.skip(2) == after);
        } else {
            assert(sql == seq![text[0]] + after);
            assert(sql.skip(1) == after);
        }
        assert(seq![text[0]] + tail == text);
    }
}

proof fn lemma_escaped_first(text: Seq<char>)
    requires
        text.len() > 0,
    ensures
        escaped(text) == (if text[0] == '\'' {
            seq!['\'', '\'']
        } else {
            seq![text[0]]
        }) + escaped(text.skip(1)),
    decreases text.len(),
{
    let head = if text[0] == '\'' {
        seq!['\'', '\'']
    } else {
        seq![text[0]]
    };
    if text.len() == 1 {
        assert(text.drop_last() == Seq::<char>::empty());
        assert(text.skip(1) == Seq::<char>::empty());
        assert(escaped(text) == head + escaped(text.skip(1)));
    } else {
        let init = text.drop_last();
        lemma_escaped_first(init);
        assert(init.skip(1) == text.skip(1).drop_last());
        assert(text.skip(1).last() == text.last());
        assert(escaped(text) == head + escaped(text.skip(1)));
    }
}

/// In the values of a row, the literal of the event type reads as the event type,
/// and the literal of the time as the time, whatever stands in them.
pub proof fn law_row_literals_read_back(record: RecordView)
    ensures
        ({
            let created_at = utc_format_text(record.source_created_at.0, record.source_created_at.1);
            let head = "('"@ + uuid_chars(record.event_id)
                + "', 'DELIVERED', jsonb_build_object('trigger', 'walpipe_dispatch', 'event_type', '"@;
            let middle = ", 'source_created_at', '"@;
            exists|from_type: Seq<char>, from_time: Seq<char>|
                {
                    &&& row_sql(record) == head + from_type
                    &&& #[trigger] read_literal(from_type) == Some(
                        (record.event_type, middle + from_time),
                    )
                    &&& #[trigger] read_literal(from_time) == Some((created_at, "))"@))
                }
        }),
{
    let created_at = utc_format_text(record.source_created_at.0, record.source_created_at.1);
    let head = "('"@ + uuid_chars(record.event_id)
        + "', 'DELIVERED', jsonb_build_object('trigger', 'walpipe_dispatch', 'event_type', '"@;
    let middle = ", 'source_created_at', '"@;
    reveal_strlit("', 'source_created_at', '");
    reveal_strlit(", 'source_created_at', '");
    reveal_strlit("'))");
    reveal_strlit("))");
    let quote = seq!['\''];
    assert("', 'source_created_at', '"@ == quote + middle);
    assert("'))"@ == quote + "))"@);
    let from_time = escaped(created_at) + quote + "))"@;
    let from_type = escaped(record.event_type) + quote + (middle + from_time);
    law_escaped_text_stays_in_its_literal(created_at, "))"@);
    law_escaped_text_stays_in_its_literal(record.event_type, middle + from_time);
    assert(row_sql(record) == head + from_type);
}

/// Each character of a text is escaped by itself: a quote becomes two, and every
/// other character stays. Texts one after the other are escaped one after the other.
pub proof fn law_characters_are_escaped_one_by_one(text: Seq<char>, more: Seq<char>, c: char)
    ensures
        escaped(Seq::<char>::empty()) == Seq::<char>::empty(),
        escaped(seq![c]) == (if c == '\'' {
            seq!['\'', '\'']
        } else {
            seq![c]
        }),
        escaped(text + more) == escaped(text) + escaped(more),
    decreases more.len(),
{
    assert(seq![c].drop_last() == Seq::<char>::empty());
    assert(escaped(Seq::<char>::empty()) == Seq::<char>::empty());
    assert(escaped(seq![c]) == (if c == '\'' {
        seq!['\'', '\'']
    } else {
        seq![c]
    }));
    if more.len() == 0 {
        assert(text + more == text);
        assert(escaped(text) + escaped(more) == escaped(text));
    } else {
        law_characters_are_escaped_one_by_one(text, more.drop_last(), c);
        assert((text + more).drop_last() == text + more.drop_last());
        assert((text + more).last() == more.last());
        assert(escaped(text + more) == escaped(text) + escaped(more));
    }
}

/// The statement for a batch has the values of every record: with a record more, it
/// is the same statement, then a comma unless the batch was empty, and then the
/// identifier, the type and the time of the record.
pub proof fn law_every_record_is_in_the_statement(batch: Seq<RecordView>, record: RecordView)
    ensures
        insert_sql(Seq::<RecordView>::empty())
            == "INSERT INTO event_history (event_id, status, metadata) VALUES "@,
        insert_sql(batch.push(record)) == insert_sql(batch) + (if batch.len() == 0 {
            Seq::<char>::empty()
        } else {
            seq![',']
        }) + ("('"@ + uuid_chars(record.event_id)
            + "', 'DELIVERED', jsonb_build_object('trigger', 'walpipe_dispatch', 'event_type', '"@
            + escaped(record.event_type) + "', 'source_created_at', '"@ + escaped(
            utc_format_text(record.source_created_at.0, record.source_created_at.1),
        ) + "'))"@),
{
    reveal_strlit(",");
    assert(","@ == seq![',']);
    let more = batch.push(record);
    assert(more.drop_last() == batch);
    assert(insert_sql(Seq::<RecordView>::empty())
        == "INSERT INTO event_history (event_id, status, metadata) VALUES "@);
    if batch.len() == 0 {
        assert(batch == Seq::<RecordView>::empty());
        assert(more[0] == record);
        assert(rows_sql(more) == row_sql(record));
    } else {
        assert(rows_sql(more) == rows_sql(batch) + ","@ + row_sql(record));
    }
    assert(insert_sql(more) == insert_sql(batch) + (if batch.len() == 0 {
        Seq::<char>::empty()
    } else {
        seq![',']
    }) + row_sql(record));
}

/// What a recorder does, and when: it writes as soon as it has as many records as a
/// batch has, at the end of an interval and at the end of all records if it has any,
/// and it waits otherwise. It stops once no records can come and none is left to try.
pub proof fn law_when_records_are_written(recorder: RecorderView, record: RecordView)
    requires
        recorder.phase is Gathering,
    ensures
        ({
            let (next, action) = recorder.step(BatchEventView::Received(record));
            &&& next.records == recorder.records.push(record)
            &&& next.batch_size == recorder.batch_size
            &&& if recorder.records.len() + 1 >= recorder.batch_size {
                action == BatchActionView::Flush(recorder.records.push(record))
                    && next.phase is Flushing
            } else {
                action is Wait && next.phase is Gathering
            }
        }),
        ({
            let (next, action) = recorder.step(BatchEventView::Tick);
            &&& next.records == recorder.records
            &&& next.batch_size == recorder.batch_size
            &&& if recorder.records.len() > 0 {
                action == BatchActionView::Flush(recorder.records) && next.phase is Flushing
            } else {
                action is Wait && next.phase is Gathering
            }
        }),
        ({
            let (next, action) = recorder.step(BatchEventView::Closed);
            &&& next.records == recorder.records
            &&& next.batch_size == recorder.batch_size
            &&& if recorder.records.len() > 0 {
                action == BatchActionView::Flush(recorder.records) && next.phase is Closing
            } else {
                action is Stop && next.phase is Done
            }
        }),
{
}

/// After a batch was written, or could not be written, the recorder goes on
/// gathering, or stops if it was the last. It lets go of the records exactly if they
/// were written.
pub proof fn law_what_follows_a_flush(recorder: RecorderView, success: bool)
    requires
        recorder.phase is Flushing || recorder.phase is Closing,
    ensures
        ({
            let (next, action) = recorder.step(BatchEventView::Flushed(success));
            &&& next.records == (if success {
                Seq::<RecordView>::empty()
            } else {
                recorder.records
            })
            &&& next.batch_size == recorder.batch_size
            &&& recorder.phase is Flushing ==> action is Wait && next.phase is Gathering
            &&& recorder.phase is Closing ==> action is Stop && next.phase is Done
        }),
{
}

/// While records are gathered, records come, intervals end, and the records come to
/// an end; while a batch is written, only the outcome of that comes; and after the
/// end nothing does. A recorder begins without records.
pub proof fn law_what_can_happen_to_a_recorder(
    recorder: RecorderView,
    record: RecordView,
    success: bool,
    batch_size: usize,
)
    ensures
        recorder.expects(BatchEventView::Received(record)) <==> recorder.phase is Gathering,
        recorder.expects(BatchEventView::Tick) <==> recorder.phase is Gathering,
        recorder.expects(BatchEventView::Closed) <==> recorder.phase is Gathering,
        recorder.expects(BatchEventView::Flushed(success)) <==> recorder.phase is Flushing
            || recorder.phase is Closing,
        RecorderView::initial(batch_size).records.len() == 0,
        RecorderView::initial(batch_size).batch_size == batch_size,
        RecorderView::initial(batch_size).phase is Gathering,
{
}

/// A flush runs the statement for all the records that it is to write, and for
/// nothing else.
pub proof fn law_a_flush_writes_its_records(sql: String, records: Seq<RecordView>)
    ensures
        action_is(BatchAction::Flush { sql }, BatchActionView::Flush(records)) <==> sql@
            == insert_sql(records),
        action_is(BatchAction::Wait, BatchActionView::Wait),
        action_is(BatchAction::Stop, BatchActionView::Stop),
        !action_is(BatchAction::Wait, BatchActionView::Flush(records)),
        !action_is(BatchAction::Stop, BatchActionView::Flush(records)),
        !action_is(BatchAction::Wait, BatchActionView::Stop),
        !action_is(BatchAction::Stop, BatchActionView::Wait),
        !action_is(BatchAction::Flush { sql }, BatchActionView::Wait),
        !action_is(BatchAction::Flush { sql }, BatchActionView::Stop),
{
}

/// The views of records leave nothing out.
pub proof fn law_records_are_seen_whole(records: Seq<EventHistoryRecord>)
    ensures
        records_view(records).len() == records.len(),
        forall|i: int|
            0 <= i < records.len() ==> {
                &&& (#[trigger] records_view(records)[i]).event_id == records[i].event_id.bits
                &&& records_view(records)[i].event_type == records[i].event_type@
                &&& records_view(records)[i].source_created_at == records[i].source_created_at@
            },
{
}

/// The view of a recorder leaves nothing out.
proof fn law_a_recorder_is_seen_whole(recorder: EventHistoryRecorder)
    ensures
        recorder@.records == records_view(recorder.records@),
        recorder@.batch_size == recorder.batch_size,
        recorder@.phase == recorder.phase,
{
}

/// The view of what can happen to a recorder leaves nothing out.
pub proof fn law_batch_events_are_seen_whole(record: EventHistoryRecord, success: bool)
    ensures
        BatchEvent::Received(record)@ == BatchEventView::Received(record@),
        BatchEvent::Tick@ == BatchEventView::Tick,
        BatchEvent::Closed@ == BatchEventView::Closed,
        (BatchEvent::Flushed { success })@ == BatchEventView::Flushed(success),
{
}

} // verus!
