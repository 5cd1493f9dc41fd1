//! Line-by-line reading of JSONL input with a per-line byte limit: what to do with each physical
//! line that the caller reads.

use vstd::prelude::*;

use crate::error::ModelError;

verus! {

/// What reading one physical line gave.
pub enum LineRead {
    /// The input has no more bytes.
    End,
    /// Reading failed.
    Failed(ModelError),
    /// The bytes of the line, with its line ending if it has one.
    Line(Vec<u8>),
}

/// What the caller does next.
pub enum JsonlStep {
    /// The input is done: there are no more records.
    Finished,
    /// The line is blank: read the next one.
    Skip,
    /// Parse the content of the line with this physical line number.
    Parse(usize, Vec<u8>),
    /// Report the error; the input is done.
    Fail(ModelError),
}

/// The state of reading a JSONL input: its path, its line limit, the number of physical lines
/// read so far and whether reading is over.
pub struct JsonlReader {
    path: String,
    max_line_bytes: usize,
    physical_line: usize,
    finished: bool,
}

/// The content of a line without its line ending: a final `\n`, and then a `\r` before it.
pub open spec fn stripped(bytes: Seq<u8>) -> Seq<u8> {
    if bytes.len() > 0 && bytes.last() == 10u8 {
        let b = bytes.drop_last();
        if b.len() > 0 && b.last() == 13u8 {
            b.drop_last()
        } else {
            b
        }
    } else {
        bytes
    }
}

/// Removes the line ending from the bytes of a line.
pub fn strip_line_ending(buffer: &mut Vec<u8>)
    ensures
        final(buffer)@ == stripped(old(buffer)@),
{
    let n = buffer.len();
    if n > 0 && buffer[n - 1] == 10u8 {
        buffer.pop();
        let m = buffer.len();
        if m > 0 && buffer[m - 1] == 13u8 {
            buffer.pop();
        }
    }
}

/// A located error at a path and line: the error wrapped with both.
pub open spec fn at_line_of(e: ModelError, path: Seq<char>, line: usize, inner: ModelError) -> bool {
    &&& e matches ModelError::AtLine { path: p, line: l, source } && p@ == path && l == line && *source == inner
}

impl JsonlReader {
    /// A reader of the input at `path` that accepts lines of at most `max_line_bytes` bytes.
    pub fn new(path: String, max_line_bytes: usize) -> (r: Self)
        ensures
            r.path_view() == path@,
            r.max_bytes() == max_line_bytes,
            r.line_count() == 0,
            !r.is_done(),
    {
        JsonlReader { path, max_line_bytes, physical_line: 0, finished: false }
    }

    pub closed spec fn path_view(&self) -> Seq<char> {
        self.path@
    }

    pub closed spec fn max_bytes(&self) -> usize {
        self.max_line_bytes
    }

    pub closed spec fn line_count(&self) -> usize {
        self.physical_line
    }

    pub closed spec fn is_done(&self) -> bool {
        self.finished
    }

    /// Whether reading is over.
    pub fn is_finished(&self) -> (b: bool)
        ensures
            b == self.is_done(),
    {
        self.finished
    }

    /// How many physical lines were read so far.
    pub fn lines_read(&self) -> (n: usize)
        ensures
            n == self.line_count(),
    {
        self.physical_line
    }

    /// The path of the input.
    pub fn path(&self) -> (p: &str)
        ensures
            p@ == self.path_view(),
    {
        self.path.as_str()
    }

    /// How many bytes to read at most for one physical line: the limit, a line ending and one
    /// byte more, so that a longer line is seen as too long.
    pub fn read_limit(&self) -> (n: u64)
        ensures
            n == if self.max_bytes() as int + 2 <= usize::MAX {
                (self.max_bytes() + 2) as u64
            } else {
                usize::MAX as u64
            },
    {
        self.max_line_bytes.saturating_add(2) as u64
    }

    /// Decides what to do with one physical line. After the end, a failure, an overlong line or a
    /// parse failure nothing more is read. A blank line is skipped; any other line is handed over
    /// for parsing with its physical line number. Errors carry the path and the line number.
    pub fn step(&mut self, read: LineRead) -> (s: JsonlStep)
        requires
            old(self).line_count() < usize::MAX,
        ensures
            final(self).path_view() == old(self).path_view(),
            final(self).max_bytes() == old(self).max_bytes(),
            old(self).is_done() ==> s is Finished && *final(self) == *old(self),
            !old(self).is_done() ==> (match read {
                LineRead::End => {
                    &&& s is Finished
                    &&& final(self).is_done()
                    &&& final(self).line_count() == old(self).line_count()
                },
                LineRead::Failed(err) => {
                    &&& final(self).is_done()
                    &&& final(self).line_count() == old(self).line_count()
                    &&& s matches JsonlStep::Fail(e) && at_line_of(
                        e,
                        old(self).path_view(),
                        (old(self).line_count() + 1) as usize,
                        err,
                    )
                },
                LineRead::Line(bytes) => {
                    let content = stripped(bytes@);
                    let line = (old(self).line_count() + 1) as usize;
                    &&& final(self).line_count() == line
                    &&& if content.len() > old(self).max_bytes() {
                        &&& final(self).is_done()
                        &&& s matches JsonlStep::Fail(e) && at_line_of(
                            e,
                            old(self).path_view(),
                            line,
                            ModelError::LineTooLong {
                                max_bytes: old(self).max_bytes(),
                                observed_at_least: content.len() as usize,
                            },
                        )
                    } else if content.len() == 0 {
                        !final(self).is_done() && s is Skip
                    } else {
                        &&& !final(self).is_done()
                        &&& s matches JsonlStep::Parse(l, c) && l == line && c@ == content
                    }
                },
            }),
    {
        if self.finished {
            return JsonlStep::Finished;
        }
        let next_line = self.physical_line + 1;
        match read {
            LineRead::End => {
                self.finished = true;
                JsonlStep::Finished
            },
            LineRead::Failed(err) => {
                self.finished = true;
                JsonlStep::Fail(err.at_line(self.path.clone(), next_line))
            },
            LineRead::Line(bytes) => {
                self.physical_line = next_line;
                let mut buffer = bytes;
                strip_line_ending(&mut buffer);
                if buffer.len() > self.max_line_bytes {
                    self.finished = true;
                    let observed = buffer.len();
                    return JsonlStep::Fail(
                        ModelError::LineTooLong { max_bytes: self.max_line_bytes, observed_at_least: observed }.at_line(
                            self.path.clone(),
                            next_line,
                        ),
                    );
                }
                if buffer.len() == 0 {
                    return JsonlStep::Skip;
                }
                JsonlStep::Parse(next_line, buffer)
            },
        }
    }

    /// Records that the content handed over for parsing is no valid JSON: reading is over, and
    /// the error carries the path and the line.
    pub fn parse_failed(&mut self, message: String) -> (e: ModelError)
        ensures
            final(self).is_done(),
            final(self).path_view() == old(self).path_view(),
            final(self).max_bytes() == old(self).max_bytes(),
            final(self).line_count() == old(self).line_count(),
            at_line_of(e, old(self).path_view(), old(self).line_count(), ModelError::InvalidJson { message }),
    {
        self.finished = true;
        ModelError::InvalidJson { message }.at_line(self.path.clone(), self.physical_line)
    }
}

} // verus!
