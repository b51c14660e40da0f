//! The path extractor: reading the list of file paths out of a native
//! data-transfer object.
//!
//! The object is opaque and lives in the windowing system, so the extractor
//! never touches it. It is a protocol: [`PathExtractor::start`] gives the
//! first [`Query`], the caller puts each query to the object and hands the
//! [`Answer`] to [`PathExtractor::step`], until the query is [`Query::Done`].

use crate::event::paths_view;
use crate::status::{
    native_cf_hdrop, native_dv_e_formatetc, native_dvaspect_content, native_tymed_hglobal, StatusCode,
    CF_HDROP, DVASPECT_CONTENT, DV_E_FORMATETC, TYMED_HGLOBAL,
};
use vstd::prelude::*;

verus! {

/// The index that asks a file list for the number of its entries, not for
/// an entry.
pub const ALL_ENTRIES: u32 = 0xFFFF_FFFF;

/// The native handle of a list of dropped files.
#[derive(Clone, Copy, Debug, PartialEq, Eq, Structural)]
pub struct DropHandle(pub isize);

/// A format in which a data-transfer object is asked for its content.
#[derive(Clone, Copy, Debug, PartialEq, Eq, Structural)]
pub struct FormatRequest {
    /// The clipboard format.
    pub format: u16,
    /// The aspect of the content.
    pub aspect: u32,
    /// The part of the content; -1 is all of it.
    pub index: i32,
    /// The storage medium in which the content is wanted.
    pub medium: u32,
}

/// Why a data-transfer object gave no list of files.
#[derive(Clone, Copy, Debug, PartialEq, Eq, Structural)]
pub enum Diagnostic {
    /// The payload is not a list of files. This is routine: text can be
    /// dragged too.
    NotAFile,
    /// The object failed with this status for another reason.
    Unexpected(StatusCode),
}

/// Where an extraction stands: the answer it waits for.
#[derive(Clone, Copy, Debug, PartialEq, Eq, Structural)]
pub enum Phase {
    /// Waiting to learn whether the object offers a list of files.
    Format,
    /// Waiting for the number of files.
    Count,
    /// Waiting for the length of the next path.
    Length,
    /// Waiting for the next path.
    Path,
    /// Nothing is left to ask.
    Done,
}

/// What the caller is to ask of the data-transfer object.
#[derive(Debug, PartialEq, Eq)]
pub enum Query {
    /// Ask the object for its content in this format.
    Format(FormatRequest),
    /// Ask the file list for the number of its entries.
    Count(DropHandle),
    /// Ask the file list for the length of the entry with this index, in
    /// UTF-16 units, the terminator not counted.
    Length(DropHandle, u32),
    /// Have the file list copy the entry with this index, terminator
    /// included, into this buffer, and hand the buffer back.
    Path(DropHandle, u32, Vec<u16>),
    /// The extraction is complete.
    Done,
    /// The answer just given was to no open query. It was dropped and the
    /// extraction stands where it stood.
    Unasked,
}

/// What the data-transfer object answered.
#[derive(Debug, PartialEq, Eq)]
pub enum Answer {
    /// The handle of the file list, or the status with which the object
    /// declined the format.
    Format(Result<DropHandle, StatusCode>),
    /// The number of entries.
    Count(u32),
    /// The length of the entry asked for.
    Length(u32),
    /// The buffer, as the file list left it.
    Path(Vec<u16>),
}

/// The mathematical value of a [`Query`].
pub enum QueryView {
    Format(FormatRequest),
    Count(DropHandle),
    Length(DropHandle, u32),
    Path(DropHandle, u32, Seq<u16>),
    Done,
    Unasked,
}

/// The mathematical value of an [`Answer`].
pub enum AnswerView {
    Format(Result<DropHandle, StatusCode>),
    Count(u32),
    Length(u32),
    Path(Seq<u16>),
}

impl View for Query {
    type V = QueryView;

    open spec fn view(&self) -> QueryView {
        match self {
            Query::Format(request) => QueryView::Format(*request),
            Query::Count(handle) => QueryView::Count(*handle),
            Query::Length(handle, index) => QueryView::Length(*handle, *index),
            Query::Path(handle, index, buffer) => QueryView::Path(*handle, *index, buffer@),
            Query::Done => QueryView::Done,
            Query::Unasked => QueryView::Unasked,
        }
    }
}

impl View for Answer {
    type V = AnswerView;

    open spec fn view(&self) -> AnswerView {
        match self {
            Answer::Format(result) => AnswerView::Format(*result),
            Answer::Count(count) => AnswerView::Count(*count),
            Answer::Length(length) => AnswerView::Length(*length),
            Answer::Path(buffer) => AnswerView::Path(buffer@),
        }
    }
}

/// The mathematical value of a [`PathExtractor`].
pub struct ExtractorView {
    /// The answer that the extraction waits for.
    pub phase: Phase,
    /// The handle of the file list, once the object has given one.
    pub handle: Option<DropHandle>,
    /// The number of entries that the file list reported.
    pub count: u32,
    /// The length that the file list reported for the entry being fetched.
    pub length: u32,
    /// The paths fetched so far, in the order of their indices.
    pub paths: Seq<Seq<u16>>,
    /// Why there is no file list, if there is none.
    pub diagnostic: Option<Diagnostic>,
}

impl ExtractorView {
    /// The states that an extraction can be in.
    pub open spec fn wf(self) -> bool {
        &&& self.paths.len() <= self.count
        &&& match self.phase {
            Phase::Format => self.handle is None && self.count == 0 && self.diagnostic is None,
            Phase::Count => self.handle is Some && self.count == 0 && self.diagnostic is None,
            Phase::Length | Phase::Path => {
                self.handle is Some && self.paths.len() < self.count && self.diagnostic is None
            },
            Phase::Done => {
                &&& self.handle is Some ==> self.paths.len() == self.count
                &&& self.handle is Some <==> self.diagnostic is None
            },
        }
    }
}

/// The request for a list of dropped files: the whole content, in the
/// file-list clipboard format, held in global memory.
pub open spec fn file_list_format() -> FormatRequest {
    FormatRequest { format: CF_HDROP, aspect: DVASPECT_CONTENT, index: -1i32, medium: TYMED_HGLOBAL }
}

/// The diagnostic for a status with which an object declined the file-list
/// format.
pub open spec fn diagnose(code: StatusCode) -> Diagnostic {
    if code.0 == DV_E_FORMATETC {
        Diagnostic::NotAFile
    } else {
        Diagnostic::Unexpected(code)
    }
}

/// The size of the buffer for a path of `length` units: one more, for the
/// terminator, as far as the 32-bit size of the native call can say it.
pub open spec fn buffer_len(length: u32) -> nat {
    if length < u32::MAX {
        (length + 1) as nat
    } else {
        u32::MAX as nat
    }
}

/// The buffer handed out for a path of `length` units: all zero.
pub open spec fn blank_buffer(length: u32) -> Seq<u16> {
    Seq::new(buffer_len(length), |i: int| 0u16)
}

/// The path in a buffer that came back: its first `length` units, without
/// the terminator and what follows it.
pub open spec fn path_in(buffer: Seq<u16>, length: u32) -> Seq<u16> {
    if length <= buffer.len() {
        buffer.take(length as int)
    } else {
        buffer
    }
}

/// The state in which every extraction starts.
pub open spec fn initial() -> ExtractorView {
    ExtractorView {
        phase: Phase::Format,
        handle: None,
        count: 0,
        length: 0,
        paths: Seq::empty(),
        diagnostic: None,
    }
}

/// The query that is open in a state.
pub open spec fn pending(s: ExtractorView) -> QueryView {
    match s.phase {
        Phase::Format => QueryView::Format(file_list_format()),
        Phase::Count => QueryView::Count(s.handle.unwrap()),
        Phase::Length => QueryView::Length(s.handle.unwrap(), s.paths.len() as u32),
        Phase::Path => QueryView::Path(
            s.handle.unwrap(),
            s.paths.len() as u32,
            blank_buffer(s.length),
        ),
        Phase::Done => QueryView::Done,
    }
}

/// The state after an answer that fits the open query.
pub open spec fn advance(s: ExtractorView, answer: AnswerView) -> ExtractorView {
    match (s.phase, answer) {
        (Phase::Format, AnswerView::Format(Ok(handle))) => ExtractorView {
            phase: Phase::Count,
            handle: Some(handle),
            ..s
        },
        (Phase::Format, AnswerView::Format(Err(code))) => ExtractorView {
            phase: Phase::Done,
            diagnostic: Some(diagnose(code)),
            ..s
        },
        (Phase::Count, AnswerView::Count(count)) => ExtractorView {
            phase: if count == 0 {
                Phase::Done
            } else {
                Phase::Length
            },
            count,
            ..s
        },
        (Phase::Length, AnswerView::Length(length)) => ExtractorView {
            phase: Phase::Path,
            length,
            ..s
        },
        (Phase::Path, AnswerView::Path(buffer)) => ExtractorView {
            phase: if s.paths.len() + 1 == s.count {
                Phase::Done
            } else {
                Phase::Length
            },
            paths: s.paths.push(path_in(buffer, s.length)),
            ..s
        },
        _ => s,
    }
}

/// Whether an answer fits the query that is open in a state.
pub open spec fn fits(s: ExtractorView, answer: AnswerView) -> bool {
    match (s.phase, answer) {
        (Phase::Format, AnswerView::Format(_)) => true,
        (Phase::Count, AnswerView::Count(_)) => true,
        (Phase::Length, AnswerView::Length(_)) => true,
        (Phase::Path, AnswerView::Path(_)) => true,
        _ => false,
    }
}

/// One step of the extraction: the next state and the next query.
///
/// An answer that fits the open query moves the extraction on, and the next
/// query is the one open in the new state. Any other answer is dropped.
pub open spec fn spec_step(s: ExtractorView, answer: AnswerView) -> (ExtractorView, QueryView) {
    if fits(s, answer) {
        (advance(s, answer), pending(advance(s, answer)))
    } else {
        (s, QueryView::Unasked)
    }
}

/// What an extraction has found.
#[derive(Debug, PartialEq, Eq)]
pub struct Extraction {
    /// The paths, in the order in which the file list holds them.
    pub paths: Vec<Vec<u16>>,
    /// The handle of the file list, if the object gave one.
    pub handle: Option<DropHandle>,
    /// Why there is no file list, if there is none.
    pub diagnostic: Option<Diagnostic>,
}

/// The state of one extraction.
#[derive(Debug)]
pub struct PathExtractor {
    phase: Phase,
    handle: Option<DropHandle>,
    count: u32,
    length: u32,
    paths: Vec<Vec<u16>>,
    diagnostic: Option<Diagnostic>,
}

impl View for PathExtractor {
    type V = ExtractorView;

    closed spec fn view(&self) -> ExtractorView {
        ExtractorView {
            phase: self.phase,
            handle: self.handle,
            count: self.count,
            length: self.length,
            paths: paths_view(self.paths),
            diagnostic: self.diagnostic,
        }
    }
}

/// The request for a list of dropped files.
pub fn drop_format() -> (request: FormatRequest)
    ensures
        request == file_list_format(),
{
    FormatRequest {
        format: native_cf_hdrop(),
        aspect: native_dvaspect_content(),
        index: -1,
        medium: native_tymed_hglobal(),
    }
}

/// Tells the routine case of a payload that is no list of files from a
/// failure that nobody expected.
pub fn diagnostic_for(code: StatusCode) -> (diagnostic: Diagnostic)
    ensures
        diagnostic == diagnose(code),
{
    if code.0 == native_dv_e_formatetc().0 {
        Diagnostic::NotAFile
    } else {
        Diagnostic::Unexpected(code)
    }
}

/// The line that a diagnostic is logged with.
pub open spec fn message_of(diagnostic: Diagnostic) -> Seq<char> {
    match diagnostic {
        Diagnostic::NotAFile => {
            "Error occurred while processing dropped/hovered item: item is not a file."@
        },
        Diagnostic::Unexpected(_) => {
            "Unexpected error occurred while processing dropped/hovered item."@
        },
    }
}

impl Diagnostic {
    /// The line to log.
    pub fn message(self) -> (text: &'static str)
        ensures
            text@ == message_of(self),
    {
        match self {
            Diagnostic::NotAFile => {
                "Error occurred while processing dropped/hovered item: item is not a file."
            },
            Diagnostic::Unexpected(_) => {
                "Unexpected error occurred while processing dropped/hovered item."
            },
        }
    }

    /// Whether the diagnostic tells of a failure, to be logged as one, and
    /// not of the routine case.
    pub fn is_failure(self) -> (failure: bool)
        ensures
            failure == (self is Unexpected),
    {
        match self {
            Diagnostic::NotAFile => false,
            Diagnostic::Unexpected(_) => true,
        }
    }
}

/// Allocates the buffer for a path of `length` units and its terminator.
pub fn allocate_buffer(length: u32) -> (buffer: Vec<u16>)
    ensures
        buffer@ == blank_buffer(length),
{
    let size: u32 = length.saturating_add(1);
    let buffer: Vec<u16> = vec![0u16; size as usize];
    assert(buffer@ =~= blank_buffer(length));
    buffer
}

/// Cuts a buffer that came back down to the path in it.
pub fn take_path(buffer: Vec<u16>, length: u32) -> (path: Vec<u16>)
    ensures
        path@ == path_in(buffer@, length),
{
    let mut path = buffer;
    path.truncate(length as usize);
    assert(path@ =~= path_in(buffer@, length));
    path
}

impl PathExtractor {
    #[verifier::type_invariant]
    spec fn inv(self) -> bool {
        self@.wf()
    }

    /// Starts an extraction. The first query asks the object for its content
    /// as a list of files.
    pub fn start() -> (begun: (PathExtractor, Query))
        ensures
            begun.0@ == initial(),
            begun.1@ == pending(initial()),
    {
        let extractor = PathExtractor {
            phase: Phase::Format,
            handle: None,
            count: 0,
            length: 0,
            paths: Vec::new(),
            diagnostic: None,
        };
        assert(paths_view(extractor.paths) =~= Seq::empty());
        (extractor, Query::Format(drop_format()))
    }

    /// The answer that the extraction waits for.
    pub fn phase(&self) -> (phase: Phase)
        ensures
            phase == self@.phase,
    {
        self.phase
    }

    /// Why there is no file list, if the object declined to give one.
    pub fn diagnostic(&self) -> (diagnostic: Option<Diagnostic>)
        ensures
            diagnostic == self@.diagnostic,
    {
        self.diagnostic
    }

    /// Whether nothing is left to ask.
    pub fn is_done(&self) -> (done: bool)
        ensures
            done == (self@.phase is Done),
    {
        match self.phase {
            Phase::Done => true,
            _ => false,
        }
    }

    /// Takes an answer and says what to ask next.
    pub fn step(self, answer: Answer) -> (next: (PathExtractor, Query))
        ensures
            next.0@ == spec_step(self@, answer@).0,
            next.1@ == spec_step(self@, answer@).1,
            self@.wf(),
            next.0@.wf(),
    {
        proof {
            use_type_invariant(&self);
        }
        let PathExtractor { phase, handle, count, length, paths, diagnostic } = self;
        match phase {
            Phase::Format => match answer {
                Answer::Format(Ok(found)) => {
                    let next = PathExtractor {
                        phase: Phase::Count,
                        handle: Some(found),
                        count,
                        length,
                        paths,
                        diagnostic,
                    };
                    (next, Query::Count(found))
                },
                Answer::Format(Err(code)) => {
                    let next = PathExtractor {
                        phase: Phase::Done,
                        handle,
                        count,
                        length,
                        paths,
                        diagnostic: Some(diagnostic_for(code)),
                    };
                    (next, Query::Done)
                },
                _ => (PathExtractor { phase, handle, count, length, paths, diagnostic }, Query::Unasked),
            },
            Phase::Count => match (answer, handle) {
                (Answer::Count(reported), Some(list)) => {
                    if reported == 0 {
                        let next = PathExtractor {
                            phase: Phase::Done,
                            handle,
                            count: reported,
                            length,
                            paths,
                            diagnostic,
                        };
                        (next, Query::Done)
                    } else {
                        let next = PathExtractor {
                            phase: Phase::Length,
                            handle,
                            count: reported,
                            length,
                            paths,
                            diagnostic,
                        };
                        (next, Query::Length(list, 0))
                    }
                },
                _ => (PathExtractor { phase, handle, count, length, paths, diagnostic }, Query::Unasked),
            },
            Phase::Length => match (answer, handle) {
                (Answer::Length(reported), Some(list)) => {
                    let index: u32 = paths.len() as u32;
                    let next = PathExtractor {
                        phase: Phase::Path,
                        handle,
                        count,
                        length: reported,
                        paths,
                        diagnostic,
                    };
                    (next, Query::Path(list, index, allocate_buffer(reported)))
                },
                _ => (PathExtractor { phase, handle, count, length, paths, diagnostic }, Query::Unasked),
            },
            Phase::Path => match (answer, handle) {
                (Answer::Path(buffer), Some(list)) => {
                    let ghost before = paths_view(paths);
                    let path = take_path(buffer, length);
                    let mut paths = paths;
                    paths.push(path);
                    assert(paths_view(paths) =~= before.push(path@));
                    let index: u32 = paths.len() as u32;
                    if index == count {
                        let next = PathExtractor {
                            phase: Phase::Done,
                            handle,
                            count,
                            length,
                            paths,
                            diagnostic,
                        };
                        (next, Query::Done)
                    } else {
                        let next = PathExtractor {
                            phase: Phase::Length,
                            handle,
                            count,
                            length,
                            paths,
                            diagnostic,
                        };
                        (next, Query::Length(list, index))
                    }
                },
                _ => (PathExtractor { phase, handle, count, length, paths, diagnostic }, Query::Unasked),
            },
            Phase::Done => (
                PathExtractor { phase, handle, count, length, paths, diagnostic },
                Query::Unasked,
            ),
        }
    }

    /// Ends the extraction and gives what it has found so far: after
    /// [`Query::Done`], all of it.
    pub fn finish(self) -> (found: Extraction)
        ensures
            paths_view(found.paths) == self@.paths,
            found.handle == self@.handle,
            found.diagnostic == self@.diagnostic,
    {
        Extraction { paths: self.paths, handle: self.handle, diagnostic: self.diagnostic }
    }
}

/// A data-transfer object, as far as an extraction can tell objects apart.
pub enum DataObject {
    /// The object offers a list of files: their handle and their paths, in
    /// the order in which the list holds them.
    Files(DropHandle, Seq<Seq<u16>>),
    /// The object offers no list of files and declines with this status.
    Other(StatusCode),
}

/// A buffer after a file list has copied a path into it: as much of the path
/// as fits before a terminator, the terminator, and the rest as it was.
pub open spec fn filled(buffer: Seq<u16>, path: Seq<u16>) -> Seq<u16> {
    if buffer.len() == 0 {
        buffer
    } else {
        let copied = if path.len() < buffer.len() {
            path.len() as int
        } else {
            buffer.len() - 1
        };
        path.take(copied).push(0u16) + buffer.skip(copied + 1)
    }
}

/// The answer of a data-transfer object to a query, as the windowing system
/// documents it.
pub open spec fn native_answer(data: DataObject, query: QueryView) -> AnswerView {
    match (data, query) {
        (DataObject::Files(handle, _), QueryView::Format(_)) => AnswerView::Format(Ok(handle)),
        (DataObject::Other(code), QueryView::Format(_)) => AnswerView::Format(Err(code)),
        (DataObject::Files(_, files), QueryView::Count(_)) => AnswerView::Count(files.len() as u32),
        (DataObject::Files(_, files), QueryView::Length(_, index)) => AnswerView::Length(
            files[index as int].len() as u32,
        ),
        (DataObject::Files(_, files), QueryView::Path(_, index, buffer)) => AnswerView::Path(
            filled(buffer, files[index as int]),
        ),
        (DataObject::Other(_), QueryView::Length(_, _)) => AnswerView::Length(0),
        (DataObject::Other(_), QueryView::Path(_, _, buffer)) => AnswerView::Path(buffer),
        _ => AnswerView::Count(0),
    }
}

/// How many answers an extraction can still take, at most.
pub open spec fn remaining(s: ExtractorView) -> nat {
    match s.phase {
        Phase::Format => 0x2_0000_0002,
        Phase::Count => 0x2_0000_0001,
        Phase::Length => (2 * (s.count - s.paths.len())) as nat,
        Phase::Path => (2 * (s.count - s.paths.len()) - 1) as nat,
        Phase::Done => 0,
    }
}

/// The state in which an extraction ends when it starts in `s` and every
/// query is answered by `data`.
pub open spec fn run(data: DataObject, s: ExtractorView) -> ExtractorView
    decreases remaining(s),
    when s.wf()
{
    if s.phase is Done {
        s
    } else {
        run(data, spec_step(s, native_answer(data, pending(s))).0)
    }
}

/// A path that is fetched has the length that the file list reported for
/// it, and is what the buffer holds before the terminator: nothing is cut
/// off and no padding is left, as long as the buffer comes back no shorter
/// than it went out.
pub proof fn fetched_path_has_reported_length(s: ExtractorView, buffer: Seq<u16>)
    requires
        s.wf(),
        s.phase is Path,
        s.length < u32::MAX,
        buffer.len() == blank_buffer(s.length).len(),
    ensures
        spec_step(s, AnswerView::Path(buffer)).0.paths == s.paths.push(buffer.take(s.length as int)),
        spec_step(s, AnswerView::Path(buffer)).0.paths.last().len() == s.length,
{
}

/// No entry is ever asked for under the index that asks for the number of
/// entries.
pub proof fn no_entry_is_asked_for_as_the_count(s: ExtractorView)
    requires
        s.wf(),
    ensures
        pending(s) matches QueryView::Length(_, index) ==> index != ALL_ENTRIES && index < s.count,
        pending(s) matches QueryView::Path(_, index, _) ==> index != ALL_ENTRIES && index < s.count,
{
}

/// When an extraction from a file list is done, it holds as many paths as
/// the file list reported.
pub proof fn done_with_every_entry(s: ExtractorView)
    requires
        s.wf(),
        s.phase is Done,
        s.handle is Some,
    ensures
        s.paths.len() == s.count,
{
}

/// A step keeps an extraction among the states that it can be in.
pub proof fn step_keeps_wf(s: ExtractorView, answer: AnswerView)
    requires
        s.wf(),
    ensures
        spec_step(s, answer).0.wf(),
{
}

/// A state of an extraction from a file list in which all is as the list
/// has it: the handle, the count, the paths fetched so far.
pub open spec fn in_step_with(s: ExtractorView, handle: DropHandle, files: Seq<Seq<u16>>) -> bool {
    &&& s.wf()
    &&& s.phase !is Format ==> s.handle == Some(handle)
    &&& s.phase is Format || s.phase is Count || s.count == files.len()
    &&& s.paths.len() <= files.len()
    &&& s.paths == files.take(s.paths.len() as int)
    &&& s.phase is Path ==> s.length == files[s.paths.len() as int].len()
}

/// An answer of the file list keeps an extraction in step with the list: a
/// path that is fetched is the path that the list holds under that index,
/// whole and without its terminator.
pub proof fn answer_keeps_in_step(handle: DropHandle, files: Seq<Seq<u16>>, s: ExtractorView)
    requires
        files.len() <= u32::MAX,
        forall|i: int| 0 <= i < files.len() ==> (#[trigger] files[i]).len() < u32::MAX,
        in_step_with(s, handle, files),
        s.phase !is Done,
    ensures
        in_step_with(
            spec_step(s, native_answer(DataObject::Files(handle, files), pending(s))).0,
            handle,
            files,
        ),
{
    if s.phase is Path {
        let index = s.paths.len() as int;
        let path = files[index];
        assert(path_in(filled(blank_buffer(s.length), path), s.length) =~= path);
        assert(files.take(index + 1) =~= files.take(index).push(path));
    }
}

proof fn lemma_run_in_step(handle: DropHandle, files: Seq<Seq<u16>>, s: ExtractorView)
    requires
        files.len() <= u32::MAX,
        forall|i: int| 0 <= i < files.len() ==> (#[trigger] files[i]).len() < u32::MAX,
        in_step_with(s, handle, files),
    ensures
        run(DataObject::Files(handle, files), s).phase is Done,
        run(DataObject::Files(handle, files), s).paths == files,
        run(DataObject::Files(handle, files), s).handle == Some(handle),
        run(DataObject::Files(handle, files), s).diagnostic is None,
    decreases remaining(s),
{
    let data = DataObject::Files(handle, files);
    if s.phase is Done {
        assert(files.take(files.len() as int) =~= files);
    } else {
        let next = spec_step(s, native_answer(data, pending(s))).0;
        answer_keeps_in_step(handle, files, s);
        lemma_run_in_step(handle, files, next);
    }
}

/// An extraction from an object that offers a list of files ends with all
/// paths of the list, each in full and none twice, in the order of the list,
/// and with the handle of the list.
///
/// A path of `u32::MAX` units is left out: the native call takes the size of
/// the buffer, terminator included, as a 32-bit number.
pub proof fn extraction_yields_every_path(handle: DropHandle, files: Seq<Seq<u16>>)
    requires
        files.len() <= u32::MAX,
        forall|i: int| 0 <= i < files.len() ==> (#[trigger] files[i]).len() < u32::MAX,
    ensures
        run(DataObject::Files(handle, files), initial()).phase is Done,
        run(DataObject::Files(handle, files), initial()).paths == files,
        run(DataObject::Files(handle, files), initial()).handle == Some(handle),
        run(DataObject::Files(handle, files), initial()).diagnostic is None,
{
    assert(files.take(0) =~= Seq::<Seq<u16>>::empty());
    lemma_run_in_step(handle, files, initial());
}

/// An extraction from an object that offers no list of files ends at once,
/// with no path and no handle; the diagnostic tells the routine case from
/// the others.
pub proof fn extraction_of_other_payload_is_empty(code: StatusCode)
    ensures
        run(DataObject::Other(code), initial()).phase is Done,
        run(DataObject::Other(code), initial()).paths == Seq::<Seq<u16>>::empty(),
        run(DataObject::Other(code), initial()).handle is None,
        run(DataObject::Other(code), initial()).diagnostic == Some(diagnose(code)),
{
    let data = DataObject::Other(code);
    let next = spec_step(initial(), native_answer(data, pending(initial()))).0;
    assert(run(data, initial()) == run(data, next));
    assert(run(data, next) == next);
}

} // verus!
