//! The pump that forwards a server's output, line by line.
//!
//! One pump owns one stream of one server. Whoever drives it reads a line,
//! hands the pump what the read gave, and publishes the line that the pump
//! hands back. The pump forwards every line in the order read and closes for
//! good at the first read that gives no line.

use vstd::prelude::*;
use crate::mcp::events::{LineEventView, McpStderrEvent, McpStdoutEvent};

verus! {

/// What one attempt to read a line from a stream gave.
#[derive(Debug)]
pub enum LineRead {
    /// A line, without its line ending.
    Line(String),
    /// The stream has ended.
    Closed,
    /// The read failed; holds the system's reason.
    Failed(String),
}

/// A read with its texts taken by their views.
pub enum LineReadView {
    Line(Seq<char>),
    Closed,
    Failed(Seq<char>),
}

impl View for LineRead {
    type V = LineReadView;

    open spec fn view(&self) -> LineReadView {
        match self {
            LineRead::Line(line) => LineReadView::Line(line@),
            LineRead::Closed => LineReadView::Closed,
            LineRead::Failed(reason) => LineReadView::Failed(reason@),
        }
    }
}

/// The line that a pump forwards for `read`: the line read, while the pump is
/// open; nothing otherwise.
pub open spec fn forwarded(open: bool, read: LineReadView) -> Option<Seq<char>> {
    match read {
        LineReadView::Line(line) if open => Some(line),
        _ => None,
    }
}

/// Whether a pump is open after `read`: it stays open as long as every
/// read gives a line.
pub open spec fn open_after(open: bool, read: LineReadView) -> bool {
    open && read is Line
}

/// All the lines that a pump forwards over the reads `reads`, in order.
pub open spec fn forwarded_lines(open: bool, reads: Seq<LineReadView>) -> Seq<Seq<char>>
    decreases reads.len(),
{
    if reads.len() == 0 {
        Seq::empty()
    } else {
        let rest = forwarded_lines(open_after(open, reads[0]), reads.drop_first());
        match forwarded(open, reads[0]) {
            Some(line) => seq![line] + rest,
            None => rest,
        }
    }
}

/// The reads that give the lines `lines`, one after the other.
pub open spec fn line_reads(lines: Seq<Seq<char>>) -> Seq<LineReadView> {
    Seq::new(lines.len(), |i: int| LineReadView::Line(lines[i]))
}

/// A closed pump forwards nothing, whatever is read.
pub proof fn lemma_closed_pump_is_silent(reads: Seq<LineReadView>)
    ensures
        forwarded_lines(false, reads) == Seq::<Seq<char>>::empty(),
    decreases reads.len(),
{
    if reads.len() > 0 {
        lemma_closed_pump_is_silent(reads.drop_first());
    }
}

/// An open pump forwards the lines read in the order in which they were
/// read, none lost and none added.
pub proof fn lemma_lines_keep_their_order(lines: Seq<Seq<char>>)
    ensures
        forwarded_lines(true, line_reads(lines)) == lines,
    decreases lines.len(),
{
    if lines.len() > 0 {
        assert(line_reads(lines).drop_first() =~= line_reads(lines.drop_first()));
        lemma_lines_keep_their_order(lines.drop_first());
        assert(seq![lines[0]] + lines.drop_first() =~= lines);
    }
}

/// Once a read gives no line, nothing that is read afterwards is forwarded:
/// the pump forwards exactly the lines read before.
pub proof fn lemma_nothing_after_the_end(
    lines: Seq<Seq<char>>,
    end: LineReadView,
    later: Seq<LineReadView>,
)
    requires
        !(end is Line),
    ensures
        forwarded_lines(true, line_reads(lines) + seq![end] + later) == lines,
    decreases lines.len(),
{
    let reads = line_reads(lines) + seq![end] + later;
    if lines.len() == 0 {
        assert(reads[0] == end);
        assert(reads.drop_first() =~= later);
        lemma_closed_pump_is_silent(later);
    } else {
        assert(reads[0] == LineReadView::Line(lines[0]));
        assert(reads.drop_first() =~= line_reads(lines.drop_first()) + seq![end] + later);
        lemma_nothing_after_the_end(lines.drop_first(), end, later);
        assert(seq![lines[0]] + lines.drop_first() =~= lines);
    }
}

/// The pump of one stream of one server.
#[derive(Debug)]
pub struct LinePump {
    server_id: String,
    open: bool,
}

impl LinePump {
    /// The server whose stream this pump forwards.
    pub closed spec fn server(&self) -> Seq<char> {
        self.server_id@
    }

    /// Whether the pump still forwards lines.
    pub closed spec fn is_open(&self) -> bool {
        self.open
    }

    /// An open pump for a stream of the server `server_id`.
    pub fn new(server_id: String) -> (r: Self)
        ensures
            r.server() == server_id@,
            r.is_open(),
    {
        LinePump { server_id, open: true }
    }

    /// Takes what a read gave and hands back the line to publish, if there
    /// is one. After the first `None` the driver stops reading.
    pub fn accept(&mut self, read: LineRead) -> (line: Option<String>)
        ensures
            final(self).server() == old(self).server(),
            final(self).is_open() == open_after(old(self).is_open(), read@),
            match line {
                Some(text) => forwarded(old(self).is_open(), read@) == Some(text@),
                None => forwarded(old(self).is_open(), read@) is None,
            },
    {
        match read {
            LineRead::Line(text) => {
                if self.open {
                    Some(text)
                } else {
                    None
                }
            },
            _ => {
                self.open = false;
                None
            },
        }
    }

    /// The event that publishes `data` as a line of standard output.
    pub fn stdout_event(&self, data: String) -> (event: McpStdoutEvent)
        ensures
            event@ == (LineEventView { server_id: self.server(), data: data@ }),
    {
        McpStdoutEvent { server_id: self.server_id.clone(), data }
    }

    /// The event that publishes `data` as a line of standard error.
    pub fn stderr_event(&self, data: String) -> (event: McpStderrEvent)
        ensures
            event@ == (LineEventView { server_id: self.server(), data: data@ }),
    {
        McpStderrEvent { server_id: self.server_id.clone(), data }
    }
}

} // verus!
