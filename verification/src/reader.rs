//! Where a payroll script is read from: the terminal, a text, a file, or
//! several of these one after the other, with or without echoing each line
//! read back to the terminal.
//!
//! A reader is described here by the sources it reads, in order; doing the
//! reading is left to the caller.
use vstd::prelude::*;

verus! {

/// How a script is read.
#[derive(Debug, PartialEq)]
pub enum LineReader {
    /// Lines typed at the terminal, each after a `> ` prompt.
    Stdin,
    /// The lines of a text.
    Text(String),
    /// The lines of the file at a path.
    File(String),
    /// The lines of the inner reader, each echoed to the terminal as it is read.
    Echo(Box<LineReader>),
    /// The lines of the first reader, then those of the second.
    Join(Box<LineReader>, Box<LineReader>),
}

/// One source of lines.
#[derive(Debug, PartialEq)]
pub enum Source {
    Stdin,
    Text(String),
    File(String),
}

/// A source together with whether its lines are echoed.
#[derive(Debug, PartialEq)]
pub struct Segment {
    pub source: Source,
    pub echo: bool,
}

pub enum SourceModel {
    Stdin,
    Text(Seq<char>),
    File(Seq<char>),
}

pub struct SegmentModel {
    pub source: SourceModel,
    pub echo: bool,
}

impl View for Source {
    type V = SourceModel;

    open spec fn view(&self) -> SourceModel {
        match self {
            Source::Stdin => SourceModel::Stdin,
            Source::Text(t) => SourceModel::Text(t@),
            Source::File(p) => SourceModel::File(p@),
        }
    }
}

impl View for Segment {
    type V = SegmentModel;

    open spec fn view(&self) -> SegmentModel {
        SegmentModel { source: self.source@, echo: self.echo }
    }
}

/// The sources a reader reads, in order; `echo` says whether an enclosing
/// reader echoes.
pub open spec fn segments_of(r: LineReader, echo: bool) -> Seq<SegmentModel>
    decreases r,
{
    match r {
        LineReader::Stdin => seq![SegmentModel { source: SourceModel::Stdin, echo }],
        LineReader::Text(t) => seq![SegmentModel { source: SourceModel::Text(t@), echo }],
        LineReader::File(p) => seq![SegmentModel { source: SourceModel::File(p@), echo }],
        LineReader::Echo(inner) => segments_of(*inner, true),
        LineReader::Join(first, second) => segments_of(*first, echo) + segments_of(*second, echo),
    }
}

/// Reads the lines of a text.
pub fn string_reader(text: String) -> (r: LineReader)
    ensures
        r == LineReader::Text(text),
{
    LineReader::Text(text)
}

/// Reads the lines of the file at a path.
pub fn file_reader(file: &str) -> (r: LineReader)
    ensures
        r matches LineReader::File(p) && p@ == file@,
{
    LineReader::File(file.to_owned())
}

/// Reads lines typed at the terminal, each after a prompt.
pub fn stdin_reader() -> (r: LineReader)
    ensures
        r == LineReader::Stdin,
{
    LineReader::Stdin
}

/// Reads the lines of `reader`, echoing each one.
pub fn with_echo(reader: LineReader) -> (r: LineReader)
    ensures
        r == LineReader::Echo(Box::new(reader)),
{
    LineReader::Echo(Box::new(reader))
}

/// Reads the lines of `reader1`, then those of `reader2`.
pub fn join(reader1: LineReader, reader2: LineReader) -> (r: LineReader)
    ensures
        r == LineReader::Join(Box::new(reader1), Box::new(reader2)),
{
    LineReader::Join(Box::new(reader1), Box::new(reader2))
}

/// Reads lines typed at the terminal and echoes each one.
pub fn interact_reader() -> (r: LineReader)
    ensures
        r == LineReader::Echo(Box::new(LineReader::Stdin)),
        segments_of(r, false) == seq![SegmentModel { source: SourceModel::Stdin, echo: true }],
{
    proof {
        reveal_with_fuel(segments_of, 2);
    }
    with_echo(stdin_reader())
}

fn source_segment(source: Source, echo: bool) -> (r: Vec<Segment>)
    ensures
        r@.len() == 1,
        r@[0]@ == (SegmentModel { source: source@, echo }),
{
    let mut r: Vec<Segment> = Vec::new();
    r.push(Segment { source, echo });
    r
}

impl LineReader {
    fn collect(&self, echo: bool) -> (r: Vec<Segment>)
        ensures
            r@.map_values(|s: Segment| s@) == segments_of(*self, echo),
        decreases self,
    {
        match self {
            LineReader::Stdin => {
                let r = source_segment(Source::Stdin, echo);
                assert(r@.map_values(|s: Segment| s@) =~= segments_of(*self, echo));
                r
            },
            LineReader::Text(t) => {
                let r = source_segment(Source::Text(t.clone()), echo);
                assert(r@.map_values(|s: Segment| s@) =~= segments_of(*self, echo));
                r
            },
            LineReader::File(p) => {
                let r = source_segment(Source::File(p.clone()), echo);
                assert(r@.map_values(|s: Segment| s@) =~= segments_of(*self, echo));
                r
            },
            LineReader::Echo(inner) => inner.collect(true),
            LineReader::Join(first, second) => {
                let mut r = first.collect(echo);
                let mut rest = second.collect(echo);
                let ghost a = r@;
                let ghost b = rest@;
                r.append(&mut rest);
                assert(r@ =~= a + b);
                assert(r@.map_values(|s: Segment| s@) =~= a.map_values(|s: Segment| s@)
                    + b.map_values(|s: Segment| s@));
                r
            },
        }
    }

    /// The sources the reader reads, in order, each with whether its lines are echoed.
    pub fn segments(&self) -> (r: Vec<Segment>)
        ensures
            r@.map_values(|s: Segment| s@) == segments_of(*self, false),
    {
        self.collect(false)
    }
}

/// Joining readers reads their sources one after the other.
pub proof fn law_join_reads_in_order(a: LineReader, b: LineReader, echo: bool)
    ensures
        segments_of(LineReader::Join(Box::new(a), Box::new(b)), echo) == segments_of(a, echo)
            + segments_of(b, echo),
{
}

/// Echoing twice is echoing once.
pub proof fn law_echo_idempotent(r: LineReader, echo: bool)
    ensures
        segments_of(LineReader::Echo(Box::new(LineReader::Echo(Box::new(r)))), echo)
            == segments_of(LineReader::Echo(Box::new(r)), echo),
{
    reveal_with_fuel(segments_of, 2);
}

/// An echoing reader echoes every line it reads, from every source.
pub proof fn law_echo_echoes_everything(r: LineReader, echo: bool)
    ensures
        forall|i: int|
            0 <= i < segments_of(LineReader::Echo(Box::new(r)), echo).len() ==> (
            #[trigger] segments_of(LineReader::Echo(Box::new(r)), echo)[i]).echo,
    decreases r,
{
    lemma_echo_flag(r);
}

proof fn lemma_echo_flag(r: LineReader)
    ensures
        forall|i: int|
            0 <= i < segments_of(r, true).len() ==> (#[trigger] segments_of(r, true)[i]).echo,
    decreases r,
{
    match r {
        LineReader::Echo(inner) => lemma_echo_flag(*inner),
        LineReader::Join(first, second) => {
            lemma_echo_flag(*first);
            lemma_echo_flag(*second);
            let a = segments_of(*first, true);
            let b = segments_of(*second, true);
            assert forall|i: int| 0 <= i < (a + b).len() implies (#[trigger] (a + b)[i]).echo by {
                if i < a.len() {
                    assert((a + b)[i] == a[i]);
                } else {
                    assert((a + b)[i] == b[i - a.len()]);
                }
            }
        },
        _ => {},
    }
}

} // verus!
