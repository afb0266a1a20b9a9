//! What is noted on a span: an ordered record of field values.
//!
//! The span itself lives in the tracing runtime. The functions of this
//! library say what is to be noted on it, field by field and in order, and the
//! caller notes it there.

use vstd::prelude::*;
use vstd::string::StringExecFns;

verus! {

/// A value noted on a span: a status code or a text.
#[derive(Clone, Debug, PartialEq, Eq)]
pub enum SpanValue {
    Code(u16),
    Text(String),
}

/// A value noted on a span, as the contracts speak of it.
pub enum SpanValueText {
    Code(u16),
    Text(Seq<char>),
}

impl View for SpanValue {
    type V = SpanValueText;

    open spec fn view(&self) -> SpanValueText {
        match self {
            SpanValue::Code(code) => SpanValueText::Code(*code),
            SpanValue::Text(text) => SpanValueText::Text(text@),
        }
    }
}

/// One note on a span: the field and the value noted for it.
#[derive(Clone, Debug, PartialEq, Eq)]
pub struct SpanRecord {
    pub field: String,
    pub value: SpanValue,
}

/// One note on a span, as the contracts speak of it.
pub type RecordText = (Seq<char>, SpanValueText);

impl View for SpanRecord {
    type V = RecordText;

    open spec fn view(&self) -> RecordText {
        (self.field@, self.value@)
    }
}

/// The notes to make on a span, in the order in which they are to be made.
/// Of two notes for one field the later one is the field's value in the end.
#[derive(Clone, Debug, PartialEq, Eq)]
pub struct SpanRecorder {
    pub records: Vec<SpanRecord>,
}

impl View for SpanRecorder {
    type V = Seq<RecordText>;

    open spec fn view(&self) -> Seq<RecordText> {
        Seq::new(self.records@.len(), |i: int| self.records@[i]@)
    }
}

impl SpanRecorder {
    /// A recorder without notes.
    pub fn new() -> (recorder: SpanRecorder)
        ensures
            recorder@ == Seq::<RecordText>::empty(),
    {
        let recorder = SpanRecorder { records: Vec::new() };
        assert(recorder@ =~= Seq::<RecordText>::empty());
        recorder
    }

    /// Notes the status code `code` for the field `field`.
    pub fn record_code(&mut self, field: &str, code: u16)
        ensures
            final(self)@ == old(self)@.push((field@, SpanValueText::Code(code))),
    {
        self.records.push(SpanRecord { field: String::from_str(field), value: SpanValue::Code(code) });
        assert(self@ =~= old(self)@.push((field@, SpanValueText::Code(code))));
    }

    /// Notes the text `text` for the field `field`.
    pub fn record_text(&mut self, field: &str, text: &str)
        ensures
            final(self)@ == old(self)@.push((field@, SpanValueText::Text(text@))),
    {
        self.records.push(
            SpanRecord { field: String::from_str(field), value: SpanValue::Text(String::from_str(text)) },
        );
        assert(self@ =~= old(self)@.push((field@, SpanValueText::Text(text@))));
    }
}

} // verus!
