//! Decoding a row of a change into fields, column by column.
//!
//! Reading a column takes three calls into the server: one that describes the
//! column (its name and the name of its type), one that fetches its datum, and,
//! for a datum that is not null, one that converts it to text. Between these calls
//! the decoder decides what is asked next; the caller performs each request and
//! hands its outcome back as an event.

use vstd::prelude::*;
use crate::heap::Datum;
use crate::types::{Field, Tuple};

verus! {

/// What the decoder asks the caller to do next.
#[derive(Debug, Clone, Copy, PartialEq, Eq, Structural)]
pub enum TupleStep {
    /// Describe column `index`: its name and the name of its type.
    Describe { index: u32 },
    /// Fetch the datum of column `index`.
    Fetch { index: u32 },
    /// Convert the datum of column `index`, of type `type_oid`, to text.
    Convert { index: u32, type_oid: u32, datum: Datum },
    /// Nothing more: the row is decoded, or decoding failed.
    Finished,
}

/// The outcome of a request, handed back to the decoder.
pub enum TupleEvent {
    /// The column's name, the oid of its type, and the name of its type (or why that
    /// name could not be read).
    Described { name: String, type_oid: u32, datatype_name: Result<String, String> },
    /// The column's datum, `None` for SQL `NULL`.
    Fetched { datum: Option<Datum> },
    /// The datum as text, or why it could not be converted.
    Converted { value: Result<String, String> },
}

/// The message with which decoding fails when there is no tuple buffer.
pub open spec fn spec_null_buffer_message() -> Seq<char> {
    "pg_typel_to_rspgod_tuple: Tuple buffer is null"@
}

/// The request that follows a completed column `index` of a row of `natts` columns.
pub open spec fn after_column(index: u32, natts: u32) -> TupleStep {
    if index + 1 < natts {
        TupleStep::Describe { index: (index + 1) as u32 }
    } else {
        TupleStep::Finished
    }
}

/// True when `event` answers the request `step`.
pub open spec fn answers(step: TupleStep, event: TupleEvent) -> bool {
    match (step, event) {
        (TupleStep::Describe { .. }, TupleEvent::Described { .. }) => true,
        (TupleStep::Fetch { .. }, TupleEvent::Fetched { .. }) => true,
        (TupleStep::Convert { .. }, TupleEvent::Converted { .. }) => true,
        _ => false,
    }
}

/// What a decoder knows: the number of columns, what it asks next, the fields read
/// so far, the column being read (its name, type name and type oid, between its
/// description and its value), and why decoding failed, once it has.
#[verifier::ext_equal]
pub struct DecoderState {
    pub natts: u32,
    pub step: TupleStep,
    pub fields: Seq<Field>,
    pub column: Option<(String, String, u32)>,
    pub failure: Option<String>,
}

/// How a decoder's state changes when it takes in an event. An event that does not
/// answer the current request leaves the state as it is.
pub open spec fn spec_step(s: DecoderState, event: TupleEvent) -> DecoderState {
    match (s.step, event) {
        (TupleStep::Describe { index }, TupleEvent::Described { name, type_oid, datatype_name }) => {
            match datatype_name {
                Err(m) => DecoderState { step: TupleStep::Finished, failure: Some(m), ..s },
                Ok(t) => DecoderState {
                    step: TupleStep::Fetch { index },
                    column: Some((name, t, type_oid)),
                    ..s
                },
            }
        },
        (TupleStep::Fetch { index }, TupleEvent::Fetched { datum }) => match datum {
            None => DecoderState {
                step: after_column(index, s.natts),
                fields: s.fields.push(
                    Field { name: s.column.unwrap().0, datatype: s.column.unwrap().1, value: None },
                ),
                column: None,
                ..s
            },
            Some(d) => DecoderState {
                step: TupleStep::Convert { index, type_oid: s.column.unwrap().2, datum: d },
                ..s
            },
        },
        (TupleStep::Convert { index, .. }, TupleEvent::Converted { value }) => match value {
            Err(m) => DecoderState {
                step: TupleStep::Finished,
                column: None,
                failure: Some(m),
                ..s
            },
            Ok(v) => DecoderState {
                step: after_column(index, s.natts),
                fields: s.fields.push(
                    Field {
                        name: s.column.unwrap().0,
                        datatype: s.column.unwrap().1,
                        value: Some(v),
                    },
                ),
                column: None,
                ..s
            },
        },
        _ => s,
    }
}

/// The state of a decoder that has just started on a row of `natts` columns from a
/// tuple buffer.
pub open spec fn initial_state(natts: u32) -> DecoderState {
    DecoderState {
        natts,
        step: if natts == 0 {
            TupleStep::Finished
        } else {
            TupleStep::Describe { index: 0 }
        },
        fields: seq![],
        column: None,
        failure: None,
    }
}

/// The result of a finished decoding: the reason it failed, or the fields read.
pub open spec fn outcome(s: DecoderState) -> Result<Seq<Field>, String> {
    match s.failure {
        Some(m) => Err(m),
        None => Ok(s.fields),
    }
}

/// Decodes one row, one request at a time.
pub struct TupleDecoder {
    natts: u32,
    step: TupleStep,
    fields: Vec<Field>,
    column: Option<(String, String, u32)>,
    failure: Option<String>,
}

impl TupleDecoder {
    /// What the decoder knows.
    pub closed spec fn state(&self) -> DecoderState {
        DecoderState {
            natts: self.natts,
            step: self.step,
            fields: self.fields@,
            column: self.column,
            failure: self.failure,
        }
    }

    /// The decoder's invariant: the fields read so far are those of the columns
    /// before the one asked about, and a row that finished without failure has a
    /// field for every column.
    pub closed spec fn wf(&self) -> bool {
        match self.step {
            TupleStep::Describe { index } => {
                &&& index < self.natts
                &&& self.fields@.len() == index
                &&& self.column is None
                &&& self.failure is None
            },
            TupleStep::Fetch { index } => {
                &&& index < self.natts
                &&& self.fields@.len() == index
                &&& self.column is Some
                &&& self.failure is None
            },
            TupleStep::Convert { index, type_oid, .. } => {
                &&& index < self.natts
                &&& self.fields@.len() == index
                &&& self.column matches Some(c) && c.2 == type_oid
                &&& self.failure is None
            },
            TupleStep::Finished => {
                &&& self.column is None
                &&& self.failure is None ==> self.fields@.len() == self.natts
            },
        }
    }

    /// Starts decoding a row of `natts` columns. Without a tuple buffer decoding
    /// fails at once; a row without columns is decoded at once; otherwise the first
    /// column is described first.
    pub fn new(buffer_is_null: bool, natts: u32) -> (d: TupleDecoder)
        ensures
            d.wf(),
            buffer_is_null ==> d.state().step == TupleStep::Finished && (d.state().failure
                matches Some(m) && m@ == spec_null_buffer_message()),
            !buffer_is_null ==> d.state() == initial_state(natts),
            d.state().natts == natts,
            d.state().fields.len() == 0,
            d.state().column is None,
    {
        if buffer_is_null {
            TupleDecoder {
                natts,
                step: TupleStep::Finished,
                fields: Vec::new(),
                column: None,
                failure: Some("pg_typel_to_rspgod_tuple: Tuple buffer is null".to_owned()),
            }
        } else if natts == 0 {
            TupleDecoder {
                natts,
                step: TupleStep::Finished,
                fields: Vec::new(),
                column: None,
                failure: None,
            }
        } else {
            TupleDecoder {
                natts,
                step: TupleStep::Describe { index: 0 },
                fields: Vec::new(),
                column: None,
                failure: None,
            }
        }
    }

    /// What the decoder asks for next.
    pub fn next_step(&self) -> (step: TupleStep)
        ensures
            step == self.state().step,
    {
        self.step
    }

    /// Takes in the outcome of the request the decoder made. A column whose type
    /// name or value could not be read ends decoding with that reason; a null datum
    /// gives a field without value; any other datum is converted to text first.
    pub fn step(&mut self, event: TupleEvent)
        requires
            old(self).wf(),
            answers(old(self).state().step, event),
        ensures
            final(self).wf(),
            final(self).state() == spec_step(old(self).state(), event),
    {
        match event {
            TupleEvent::Described { name, type_oid, datatype_name } => {
                let index = match self.step {
                    TupleStep::Describe { index } => index,
                    _ => 0,
                };
                match datatype_name {
                    Err(e) => {
                        self.step = TupleStep::Finished;
                        self.failure = Some(e);
                    },
                    Ok(t) => {
                        self.column = Some((name, t, type_oid));
                        self.step = TupleStep::Fetch { index };
                    },
                }
            },
            TupleEvent::Fetched { datum } => {
                let index = match self.step {
                    TupleStep::Fetch { index } => index,
                    _ => 0,
                };
                match datum {
                    None => {
                        self.finish_column(index, None);
                    },
                    Some(d) => {
                        let type_oid = match &self.column {
                            Some(c) => c.2,
                            None => 0,
                        };
                        self.step = TupleStep::Convert { index, type_oid, datum: d };
                    },
                }
            },
            TupleEvent::Converted { value } => {
                let index = match self.step {
                    TupleStep::Convert { index, .. } => index,
                    _ => 0,
                };
                match value {
                    Err(e) => {
                        self.column = None;
                        self.step = TupleStep::Finished;
                        self.failure = Some(e);
                    },
                    Ok(v) => {
                        self.finish_column(index, Some(v));
                    },
                }
            },
        }
    }

    /// Appends the field of the column being read, with `value`, and moves on.
    fn finish_column(&mut self, index: u32, value: Option<String>)
        requires
            index < old(self).natts,
            old(self).fields@.len() == index,
            old(self).column is Some,
            old(self).failure is None,
        ensures
            final(self).natts == old(self).natts,
            final(self).wf(),
            final(self).step == after_column(index, old(self).natts),
            final(self).fields@ == old(self).fields@.push(
                Field {
                    name: old(self).column.unwrap().0,
                    datatype: old(self).column.unwrap().1,
                    value,
                },
            ),
            final(self).column is None,
            final(self).failure is None,
    {
        let column = self.column.take();
        match column {
            Some((name, datatype, _)) => {
                self.fields.push(Field { name, datatype, value });
            },
            None => {},
        }
        if index + 1 < self.natts {
            self.step = TupleStep::Describe { index: index + 1 };
        } else {
            self.step = TupleStep::Finished;
        }
    }

    /// The decoded row, or why decoding failed. A decoded row has a field for every
    /// column, in column order.
    pub fn finish(self) -> (res: Result<Tuple, String>)
        requires
            self.wf(),
            self.state().step == TupleStep::Finished,
        ensures
            match outcome(self.state()) {
                Ok(fs) => res matches Ok(t) && t@ == fs,
                Err(m) => res == Err::<Tuple, String>(m),
            },
            res matches Ok(t) ==> t@.len() == self.state().natts,
    {
        match self.failure {
            Some(e) => Err(e),
            None => Ok(self.fields),
        }
    }
}

/// What reading one column gives: its name, the oid and the name of its type (or
/// why that name could not be read), its datum (`None` for SQL `NULL`), and the text
/// of the datum (or why it could not be converted), which counts only when there is
/// a datum.
pub struct ColumnOutcome {
    pub name: String,
    pub type_oid: u32,
    pub datatype_name: Result<String, String>,
    pub datum: Option<Datum>,
    pub value: Result<String, String>,
}

/// The events by which a caller hands the decoder what reading a column gave.
pub open spec fn column_events(c: ColumnOutcome) -> Seq<TupleEvent> {
    let described = TupleEvent::Described {
        name: c.name,
        type_oid: c.type_oid,
        datatype_name: c.datatype_name,
    };
    match c.datatype_name {
        Err(_) => seq![described],
        Ok(_) => match c.datum {
            None => seq![described, TupleEvent::Fetched { datum: None }],
            Some(d) => seq![
                described,
                TupleEvent::Fetched { datum: Some(d) },
                TupleEvent::Converted { value: c.value },
            ],
        },
    }
}

/// True when reading the column failed: its type name, or the text of its datum,
/// could not be read.
pub open spec fn column_fails(c: ColumnOutcome) -> bool {
    c.datatype_name is Err || (c.datum is Some && c.value is Err)
}

/// Why reading a failed column failed.
pub open spec fn column_failure(c: ColumnOutcome) -> String {
    match c.datatype_name {
        Err(m) => m,
        Ok(_) => c.value->Err_0,
    }
}

/// The field of a column that was read.
pub open spec fn column_field(c: ColumnOutcome) -> Field {
    Field {
        name: c.name,
        datatype: c.datatype_name->Ok_0,
        value: match c.datum {
            None => None,
            Some(_) => Some(c.value->Ok_0),
        },
    }
}

/// The events for a row, column by column, up to and including the first column
/// that fails.
pub open spec fn row_events(cols: Seq<ColumnOutcome>) -> Seq<TupleEvent>
    decreases cols.len(),
{
    if cols.len() == 0 {
        seq![]
    } else if column_fails(cols[0]) {
        column_events(cols[0])
    } else {
        column_events(cols[0]) + row_events(cols.drop_first())
    }
}

/// A row's result: the reason of its first failing column, or the fields of all its
/// columns in column order.
pub open spec fn decode_row_outcome(cols: Seq<ColumnOutcome>) -> Result<Seq<Field>, String>
    decreases cols.len(),
{
    if cols.len() == 0 {
        Ok(seq![])
    } else if column_fails(cols[0]) {
        Err(column_failure(cols[0]))
    } else {
        match decode_row_outcome(cols.drop_first()) {
            Ok(fs) => Ok(seq![column_field(cols[0])] + fs),
            Err(m) => Err(m),
        }
    }
}

/// The state after taking in `events` in order.
pub open spec fn run(s: DecoderState, events: Seq<TupleEvent>) -> DecoderState
    decreases events.len(),
{
    if events.len() == 0 {
        s
    } else {
        run(spec_step(s, events[0]), events.drop_first())
    }
}

/// True when each of `events`, in order, answers the request the decoder makes at
/// that point.
pub open spec fn accepted(s: DecoderState, events: Seq<TupleEvent>) -> bool
    decreases events.len(),
{
    events.len() == 0 || (answers(s.step, events[0]) && accepted(
        spec_step(s, events[0]),
        events.drop_first(),
    ))
}

proof fn lemma_run_concat(s: DecoderState, a: Seq<TupleEvent>, b: Seq<TupleEvent>)
    ensures
        run(s, a + b) == run(run(s, a), b),
        accepted(s, a + b) == (accepted(s, a) && accepted(run(s, a), b)),
    decreases a.len(),
{
    if a.len() == 0 {
        assert(a + b =~= b);
    } else {
        assert((a + b)[0] == a[0]);
        assert((a + b).drop_first() =~= a.drop_first() + b);
        lemma_run_concat(spec_step(s, a[0]), a.drop_first(), b);
    }
}

proof fn lemma_run_column(s: DecoderState, c: ColumnOutcome)
    requires
        s.step == (TupleStep::Describe { index: s.fields.len() as u32 }),
        s.column is None,
        s.failure is None,
        s.fields.len() < s.natts,
    ensures
        accepted(s, column_events(c)),
        run(s, column_events(c)).natts == s.natts,
        column_fails(c) ==> run(s, column_events(c)).step == TupleStep::Finished
            && run(s, column_events(c)).failure == Some(column_failure(c)),
        !column_fails(c) ==> {
            &&& run(s, column_events(c)).step == after_column(s.fields.len() as u32, s.natts)
            &&& run(s, column_events(c)).fields == s.fields.push(column_field(c))
            &&& run(s, column_events(c)).column is None
            &&& run(s, column_events(c)).failure is None
        },
{
    let ev = column_events(c);
    let s1 = spec_step(s, ev[0]);
    if ev.len() == 1 {
        assert(ev.drop_first() =~= Seq::<TupleEvent>::empty());
        assert(run(s1, ev.drop_first()) == s1);
        assert(accepted(s1, ev.drop_first()));
    } else {
        let s2 = spec_step(s1, ev[1]);
        let r1 = ev.drop_first();
        assert(r1[0] == ev[1]);
        if ev.len() == 2 {
            assert(r1.drop_first() =~= Seq::<TupleEvent>::empty());
            assert(run(s2, r1.drop_first()) == s2);
            assert(accepted(s2, r1.drop_first()));
            assert(run(s1, r1) == s2);
            assert(answers(s1.step, r1[0]));
            assert(accepted(s1, r1));
        } else {
            let s3 = spec_step(s2, ev[2]);
            let r2 = r1.drop_first();
            assert(r2[0] == ev[2]);
            assert(r2.drop_first() =~= Seq::<TupleEvent>::empty());
            assert(run(s3, r2.drop_first()) == s3);
            assert(accepted(s3, r2.drop_first()));
            assert(run(s2, r2) == s3);
            assert(run(s1, r1) == s3);
            assert(answers(s2.step, r2[0]));
            assert(accepted(s2, r2));
            assert(answers(s1.step, r1[0]));
            assert(accepted(s1, r1));
        }
    }
    assert(answers(s.step, ev[0]));
}

proof fn lemma_run_row(s: DecoderState, cols: Seq<ColumnOutcome>)
    requires
        s.step == (TupleStep::Describe { index: s.fields.len() as u32 }),
        s.column is None,
        s.failure is None,
        s.fields.len() + cols.len() == s.natts,
        cols.len() > 0,
    ensures
        accepted(s, row_events(cols)),
        run(s, row_events(cols)).step == TupleStep::Finished,
        match decode_row_outcome(cols) {
            Ok(fs) => run(s, row_events(cols)).failure is None && run(s, row_events(cols)).fields
                == s.fields + fs,
            Err(m) => run(s, row_events(cols)).failure == Some(m),
        },
    decreases cols.len(),
{
    let c = cols[0];
    let rest = cols.drop_first();
    lemma_run_column(s, c);
    if !column_fails(c) {
        let s1 = run(s, column_events(c));
        lemma_run_concat(s, column_events(c), row_events(rest));
        if rest.len() == 0 {
            assert(row_events(rest) =~= Seq::<TupleEvent>::empty());
            assert(run(s1, row_events(rest)) == s1);
            assert(accepted(s1, row_events(rest)));
            assert(decode_row_outcome(rest) == Ok::<Seq<Field>, String>(seq![]));
            assert(s.fields.push(column_field(c)) =~= s.fields + (seq![column_field(c)] + seq![]));
        } else {
            lemma_run_row(s1, rest);
            match decode_row_outcome(rest) {
                Ok(fs) => {
                    assert(s.fields.push(column_field(c)) + fs =~= s.fields + (seq![column_field(c)]
                        + fs));
                },
                Err(m) => {},
            }
        }
    }
}

/// Feeding the decoder, column by column, what reading each column gave is accepted
/// at every step, and ends with the row's result: the reason of the first column that
/// failed, or the fields of all columns in column order.
pub proof fn law_decoder_reads_row(natts: u32, cols: Seq<ColumnOutcome>)
    requires
        cols.len() == natts,
    ensures
        accepted(initial_state(natts), row_events(cols)),
        run(initial_state(natts), row_events(cols)).step == TupleStep::Finished,
        outcome(run(initial_state(natts), row_events(cols))) == decode_row_outcome(cols),
{
    let s = initial_state(natts);
    if natts == 0 {
        assert(row_events(cols) =~= Seq::<TupleEvent>::empty());
        assert(decode_row_outcome(cols) == Ok::<Seq<Field>, String>(seq![]));
    } else {
        lemma_run_row(s, cols);
        match decode_row_outcome(cols) {
            Ok(fs) => {
                assert(s.fields + fs =~= fs);
            },
            Err(m) => {},
        }
    }
}

/// Reading one column: once its description (name, type oid, type name) is taken
/// in, the decoder asks for that column's datum; a fetched datum is asked to be
/// converted exactly as fetched, with the type oid the description gave; and the
/// field that is appended carries the described name and type name, with no value
/// for a null datum and the converted text otherwise. The fields already read stay.
pub proof fn law_column_protocol(
    s: DecoderState,
    index: u32,
    name: String,
    type_oid: u32,
    type_label: String,
    d: Datum,
    text: String,
)
    requires
        s.step == (TupleStep::Describe { index }),
    ensures
        spec_step(
            s,
            TupleEvent::Described { name, type_oid, datatype_name: Ok(type_label) },
        ).step == (TupleStep::Fetch { index }),
        spec_step(
            spec_step(s, TupleEvent::Described { name, type_oid, datatype_name: Ok(type_label) }),
            TupleEvent::Fetched { datum: Some(d) },
        ).step == (TupleStep::Convert { index, type_oid, datum: d }),
        spec_step(
            spec_step(s, TupleEvent::Described { name, type_oid, datatype_name: Ok(type_label) }),
            TupleEvent::Fetched { datum: None },
        ).fields == s.fields.push(Field { name, datatype: type_label, value: None }),
        spec_step(
            spec_step(
                spec_step(
                    s,
                    TupleEvent::Described { name, type_oid, datatype_name: Ok(type_label) },
                ),
                TupleEvent::Fetched { datum: Some(d) },
            ),
            TupleEvent::Converted { value: Ok(text) },
        ).fields == s.fields.push(Field { name, datatype: type_label, value: Some(text) }),
{
}

} // verus!
