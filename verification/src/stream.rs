//! The two output streams: a JSON array that is never closed, one line for
//! each tick, and plain text, one line for each tick.

use crate::json::encode_tick;
use crate::json::joined;
use crate::json::lemma_joined_push;
use crate::json::tick_json;
use crate::json::EncodeError;
use crate::status::lemma_present_grows;
use crate::status::present;
use crate::status::Status;
use crate::status::StatusDataView;
use crate::syntax::is_json;
use crate::syntax::is_json_array;
use crate::syntax::lemma_open_array_closes;
use crate::syntax::lemma_tick_is_json;
use vstd::prelude::*;

verus! {

/// The version line, without its line feed.
pub open spec fn version_text() -> Seq<char> {
    "{\"version\":1}"@
}

/// What opens the JSON stream: the version line, and the line that opens
/// the array.
pub open spec fn header_text() -> Seq<char> {
    "{\"version\":1}\n[\n"@
}

/// The line of one record: the record and a line feed, with a comma in front
/// of every record but the first.
pub open spec fn record_line(first: bool, record: Seq<char>) -> Seq<char> {
    if first {
        record + seq!['\n']
    } else {
        seq![','] + record + seq!['\n']
    }
}

/// The lines of the records, one after the other.
pub open spec fn record_lines(records: Seq<Seq<char>>) -> Seq<char>
    decreases records.len(),
{
    if records.len() == 0 {
        Seq::empty()
    } else {
        record_lines(records.drop_last()) + record_line(records.len() == 1, records.last())
    }
}

/// The array of the stream, still open: the line that opens it, then the
/// lines of the records.
pub open spec fn array_text(records: Seq<Seq<char>>) -> Seq<char> {
    seq!['[', '\n'] + record_lines(records)
}

/// Everything that the JSON stream holds once these records are out: the
/// version line, then the open array.
pub open spec fn stream_text(records: Seq<Seq<char>>) -> Seq<char> {
    version_text() + seq!['\n'] + array_text(records)
}

/// The line of a tick in plain text: a line feed, then the texts with ` | `
/// between them.
pub open spec fn plain_text(texts: Seq<Seq<char>>) -> Seq<char> {
    seq!['\n'] + joined(texts, " | "@)
}

/// Writes the JSON stream, record by record. Nothing that was written is
/// written again, and the array is never closed.
pub struct StreamEncoder {
    started: bool,
    records: Ghost<Seq<Seq<char>>>,
}

impl StreamEncoder {
    #[verifier::type_invariant]
    spec fn inv(self) -> bool {
        &&& self.started == (self.records@.len() > 0)
        &&& forall|i: int| 0 <= i < self.records@.len() ==> is_json(#[trigger] self.records@[i])
    }

    /// The records that were written so far.
    pub closed spec fn records(self) -> Seq<Seq<char>> {
        self.records@
    }

    /// Everything that was handed out so far.
    pub open spec fn written(self) -> Seq<char> {
        stream_text(self.records())
    }

    /// Whether the stream can be closed as it stands: every record is a
    /// JSON text, and the open array with one `]` behind it is a JSON array.
    pub open spec fn closes(self) -> bool {
        &&& forall|i: int| 0 <= i < self.records().len() ==> is_json(#[trigger] self.records()[i])
        &&& is_json_array(array_text(self.records()) + seq![']'])
    }

    /// Opens the stream, and hands out the two lines that open it.
    pub fn new() -> (opened: (StreamEncoder, String))
        ensures
            opened.0.records() == Seq::<Seq<char>>::empty(),
            opened.1@ == header_text(),
            opened.1@ == opened.0.written(),
            opened.0.closes(),
    {
        let encoder = StreamEncoder { started: false, records: Ghost(Seq::empty()) };
        proof {
            lemma_open_array_closes(Seq::empty());
        }
        let header = String::from_str("{\"version\":1}\n[\n");
        proof {
            reveal_strlit("{\"version\":1}\n[\n");
            reveal_strlit("{\"version\":1}");
            assert(encoder.written() =~= header_text());
        }
        (encoder, header)
    }

    /// Frames a record: where there is one, hands out its line, with a comma
    /// in front unless it is the first; where there is none, hands out
    /// nothing and leaves the stream as it was.
    pub fn frame(&mut self, record: Result<String, EncodeError>) -> (out: Option<String>)
        requires
            record matches Ok(text) ==> is_json(text@),
        ensures
            final(self).closes(),
            record is Err ==> out is None && final(self).records() == old(self).records(),
            record matches Ok(text) ==> out is Some && out->0@ == record_line(
                old(self).records().len() == 0,
                text@,
            ) && final(self).records() == old(self).records().push(text@),
            final(self).written() == old(self).written() + match out {
                Some(line) => line@,
                None => Seq::empty(),
            },
    {
        proof {
            use_type_invariant(&*self);
        }
        match record {
            Err(_) => {
                proof {
                    lemma_open_array_closes(self.records@);
                }
                assert(self.written() =~= self.written() + Seq::<char>::empty());
                None
            },
            Ok(text) => {
                proof {
                    reveal_strlit(",");
                    reveal_strlit("\n");
                }
                let mut line = if self.started {
                    String::from_str(",")
                } else {
                    String::new()
                };
                line.append(text.as_str());
                line.append("\n");
                assert(line@ =~= record_line(self.records().len() == 0, text@));
                let ghost before = self.records@;
                let ghost after = before.push(text@);
                proof {
                    assert(after.drop_last() =~= before);
                    assert(after.last() == text@);
                    assert(stream_text(after) =~= stream_text(before) + line@);
                    assert forall|i: int| 0 <= i < after.len() implies is_json(
                        #[trigger] after[i],
                    ) by {
                        if i < before.len() {
                            assert(after[i] == before[i]);
                        }
                    }
                    lemma_open_array_closes(after);
                }
                *self = StreamEncoder { started: true, records: Ghost(after) };
                Some(line)
            },
        }
    }

    /// Writes one tick. A tick whose segments are all empty is passed over:
    /// nothing is handed out and the stream stays as it was. Of every other
    /// tick the line is handed out.
    pub fn emit(&mut self, status: &Status) -> (out: Option<String>)
        ensures
            final(self).closes(),
            out is Some <==> present(status@).len() > 0,
            out is None ==> final(self).records() == old(self).records(),
            out matches Some(line) ==> line@ == record_line(
                old(self).records().len() == 0,
                tick_json(status@),
            ) && final(self).records() == old(self).records().push(tick_json(status@)),
            final(self).written() == old(self).written() + match out {
                Some(line) => line@,
                None => Seq::empty(),
            },
    {
        if !has_present(status) {
            proof {
                use_type_invariant(&*self);
                lemma_open_array_closes(self.records@);
            }
            assert(self.written() =~= self.written() + Seq::<char>::empty());
            return None;
        }
        let record = encode_tick(status);
        proof {
            lemma_tick_is_json(status@);
        }
        self.frame(record)
    }
}

/// Whether the tick has a segment that is not empty.
pub fn has_present(status: &Status) -> (any: bool)
    ensures
        any == (present(status@).len() > 0),
{
    let mut i: usize = 0;
    proof {
        assert(status@.take(0) =~= Seq::empty());
    }
    while i < status.data.len()
        invariant
            i <= status.data.len(),
            present(status@.take(i as int)).len() == 0,
        decreases status.data.len() - i,
    {
        proof {
            assert(status@.take(i + 1).drop_last() =~= status@.take(i as int));
            assert(status@.take(i + 1).last() == status.data@[i as int]@);
            lemma_present_grows(status@, i + 1);
        }
        if !status.data[i].is_empty() {
            return true;
        }
        i = i + 1;
    }
    proof {
        assert(status@.take(i as int) =~= status@);
    }
    false
}

/// The texts of the segments, in their order.
pub open spec fn texts_of(items: Seq<StatusDataView>) -> Seq<Seq<char>> {
    items.map_values(|item: StatusDataView| item.full_text)
}

/// Writes the line of a tick in plain text: the texts of its segments as
/// they are, so the markup that colours a text is inside it. A segment that
/// is empty is left out.
pub fn plain_record(status: &Status) -> (line: String)
    ensures
        line@ == plain_text(texts_of(present(status@))),
{
    let mut texts: Vec<String> = Vec::new();
    proof {
        assert(status@.take(0) =~= Seq::empty());
        assert(texts@.map_values(|text: String| text@) =~= texts_of(present(status@.take(0))));
    }
    let mut i: usize = 0;
    while i < status.data.len()
        invariant
            i <= status.data.len(),
            texts@.map_values(|text: String| text@) == texts_of(present(status@.take(i as int))),
        decreases status.data.len() - i,
    {
        proof {
            assert(status@.take(i + 1).drop_last() =~= status@.take(i as int));
            assert(status@.take(i + 1).last() == status.data@[i as int]@);
        }
        if !status.data[i].is_empty() {
            let ghost before = texts@.map_values(|text: String| text@);
            texts.push(status.data[i].full_text.clone());
            assert(texts@.map_values(|text: String| text@) =~= before.push(
                status.data@[i as int]@.full_text,
            ));
            assert(texts@.map_values(|text: String| text@) =~= texts_of(
                present(status@.take(i + 1)),
            ));
        }
        i = i + 1;
    }
    proof {
        assert(status@.take(i as int) =~= status@);
    }
    plain_line(&texts)
}

/// Writes the line of a tick in plain text.
pub fn plain_line(texts: &Vec<String>) -> (line: String)
    ensures
        line@ == plain_text(texts@.map_values(|text: String| text@)),
{
    let mut line = String::from_str("\n");
    let ghost all = texts@.map_values(|text: String| text@);
    let ghost mut done: Seq<Seq<char>> = Seq::empty();
    proof {
        reveal_strlit("\n");
        assert(line@ =~= seq!['\n'] + joined(done, " | "@));
    }
    let mut i: usize = 0;
    while i < texts.len()
        invariant
            i <= texts.len(),
            all == texts@.map_values(|text: String| text@),
            done == all.take(i as int),
            line@ == seq!['\n'] + joined(done, " | "@),
        decreases texts.len() - i,
    {
        proof {
            lemma_joined_push(done, " | "@, texts@[i as int]@);
        }
        if i > 0 {
            line.append(" | ");
        }
        line.append(texts[i].as_str());
        proof {
            assert(line@ =~= seq!['\n'] + joined(done.push(texts@[i as int]@), " | "@));
            done = done.push(texts@[i as int]@);
            assert(done =~= all.take(i + 1));
        }
        i = i + 1;
    }
    proof {
        assert(all.take(i as int) =~= all);
    }
    line
}

} // verus!
