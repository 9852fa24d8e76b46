//! The multipart upload as a state machine.
//!
//! A file is sent to the store in parts: a session is opened, the file is read
//! chunk by chunk, each chunk is sent as the next part, and in the end the
//! session is completed with the list of its parts. A read may give fewer
//! bytes than it was asked for: what it gives is kept, and the rest of the
//! chunk is asked for, until the chunk is full or the file ends. So every part
//! but the last is a full chunk. Reading the file and
//! talking to the store is the caller's work. What is decided here is which
//! call comes next: the caller hands in what the last call gave
//! ([`UploadEvent`]) and is told what to do now ([`UploadAction`]).
//!
//! A failure after the session was opened is followed by one abort call,
//! whose own outcome is not looked at, and then reported. A file without any
//! data is not completed: the session is aborted and an error reported. So an
//! upload that got a session ends with that session completed or aborted.

use crate::error::{Error, ErrorKind, ErrorView};
use vstd::prelude::*;
use vstd::string::*;

verus! {

/// The most bytes asked of the file in one read, and so the largest part: 100 MiB.
pub const MAX_READ_SIZE: usize = 104857600;

/// How a file is cut into parts.
#[derive(Debug, Clone)]
pub struct MultipartUploadConfig {
    /// Bytes per part.
    pub chunk_size: usize,
    /// Parts sent at a time. Parts are sent one after the other whatever this says.
    pub concurrent_parts: usize,
}

impl Default for MultipartUploadConfig {
    fn default() -> (r: Self)
        ensures
            r.chunk_size == MAX_READ_SIZE,
            r.concurrent_parts == 5,
    {
        MultipartUploadConfig { chunk_size: 104857600, concurrent_parts: 5 }
    }
}

impl MultipartUploadConfig {
    /// The bytes asked of the file in one read: the chunk size, but no more
    /// than [`MAX_READ_SIZE`].
    pub open spec fn spec_read_len(&self) -> usize {
        if self.chunk_size <= MAX_READ_SIZE {
            self.chunk_size
        } else {
            MAX_READ_SIZE
        }
    }

    /// The bytes asked of the file in one read.
    #[verifier::when_used_as_spec(spec_read_len)]
    pub fn read_len(&self) -> (r: usize)
        ensures
            r == self.spec_read_len(),
    {
        if self.chunk_size <= MAX_READ_SIZE {
            self.chunk_size
        } else {
            MAX_READ_SIZE
        }
    }
}

/// How far a multipart upload has come.
#[derive(Debug, Clone)]
pub struct MultipartUploadProgress {
    pub upload_id: String,
    pub total_bytes: u64,
    pub uploaded_bytes: u64,
    pub completed_parts: usize,
    pub total_parts: usize,
}

/// A part that the store has taken: its number and the tag the store gave it.
#[derive(Debug, Clone)]
pub struct CompletedPart {
    pub part_number: i32,
    pub etag: String,
}

/// What a [`CompletedPart`] stands for in contracts.
pub struct PartView {
    pub part_number: int,
    pub etag: Seq<char>,
}

impl View for CompletedPart {
    type V = PartView;

    open spec fn view(&self) -> PartView {
        PartView { part_number: self.part_number as int, etag: self.etag@ }
    }
}

/// The parts of a list, for contracts.
pub open spec fn parts_view(parts: Seq<CompletedPart>) -> Seq<PartView> {
    parts.map_values(|p: CompletedPart| p@)
}

/// The number of parts that `file_size` bytes make at `chunk_size` bytes a
/// part: the quotient, rounded up.
pub open spec fn part_count(file_size: nat, chunk_size: nat) -> nat
    recommends
        chunk_size > 0,
{
    ((file_size + chunk_size - 1) / chunk_size as int) as nat
}

/// The number of parts that a file of `file_size` bytes makes at `chunk_size`
/// bytes a part.
pub fn total_parts(file_size: u64, chunk_size: usize) -> (r: usize)
    requires
        chunk_size > 0,
        file_size + chunk_size <= usize::MAX,
    ensures
        r == part_count(file_size as nat, chunk_size as nat),
        r * chunk_size >= file_size,
        file_size > 0 ==> (r - 1) * chunk_size < file_size,
        file_size == 0 ==> r == 0,
{
    let r = (file_size as usize + chunk_size - 1) / chunk_size;
    proof {
        let n = file_size as int;
        let c = chunk_size as int;
        let q = (n + c - 1) / c;
        assert(q * c <= n + c - 1 < (q + 1) * c) by (nonlinear_arith)
            requires
                c > 0,
                q == (n + c - 1) / c,
        ;
        assert((q + 1) * c == q * c + c) by (nonlinear_arith);
        assert((q - 1) * c == q * c - c) by (nonlinear_arith);
        if n == 0 {
            assert(q == 0) by (nonlinear_arith)
                requires
                    c > 0,
                    q * c <= c - 1,
                    0 <= q * c + c,
                    q >= 0,
            ;
        }
    }
    r
}

/// Where an upload stands.
#[derive(Debug, Clone, Copy, PartialEq, Eq, Structural)]
pub enum Phase {
    /// Nothing has been asked of the store yet.
    Idle,
    /// The store has been asked to open a session.
    Opening,
    /// A chunk of the file has been asked for.
    Reading,
    /// A part is on its way to the store, and the file goes on after it.
    Uploading,
    /// The last part of the file is on its way to the store.
    UploadingLast,
    /// The store has been asked to complete the session.
    Completing,
    /// The store has been asked to abort the session.
    Aborting,
    /// Over: the store gave no session.
    Refused,
    /// Over: the session was completed, the object is stored.
    Completed,
    /// Over: the session was aborted, nothing is stored.
    Aborted,
}

impl Phase {
    /// Whether the upload is over.
    pub open spec fn is_final(self) -> bool {
        self == Phase::Refused || self == Phase::Completed || self == Phase::Aborted
    }
}

/// What the caller reports: the outcome of the call it was told to make.
#[derive(Debug)]
pub enum UploadEvent {
    /// The upload is to begin.
    Begin,
    /// The store answered the request for a session: the session's id, `None`
    /// where the answer held none, or the failure.
    SessionOpened(Result<Option<String>, Error>),
    /// The file was read: the bytes that came, which may be fewer than were
    /// asked for but not more, none at the end of the file, or the failure.
    ChunkRead(Result<Vec<u8>, Error>),
    /// The store answered the part: its tag, `None` where the answer held
    /// none, or the failure.
    PartUploaded(Result<Option<String>, Error>),
    /// The abort call came back, well or not.
    AbortReturned,
    /// The store answered the request to complete the session.
    CompletionReturned(Result<(), Error>),
}

/// What the caller is to do next.
#[derive(Debug)]
pub enum UploadAction {
    /// Ask the store for a session for the upload's key and content type.
    OpenSession,
    /// Read this many bytes from the file, from where the last read ended, or
    /// as many of them as the file gives at once.
    ReadChunk(usize),
    /// Send these bytes as the part with this number.
    UploadPart { part_number: i32, body: Vec<u8> },
    /// Ask the store to complete the session with these parts, in this order.
    Complete(Vec<CompletedPart>),
    /// Ask the store to abort the session, and do not mind how that goes.
    Abort,
    /// The upload is over: hand this on.
    Finish(Result<(), Error>),
}

/// An [`UploadEvent`] in contracts.
pub enum EventView {
    Begin,
    SessionOpened(Result<Option<Seq<char>>, ErrorView>),
    ChunkRead(Result<Seq<u8>, ErrorView>),
    PartUploaded(Result<Option<Seq<char>>, ErrorView>),
    AbortReturned,
    CompletionReturned(Result<(), ErrorView>),
}

/// An [`UploadAction`] in contracts.
pub enum ActionView {
    OpenSession,
    ReadChunk(nat),
    UploadPart { part_number: int, body: Seq<u8> },
    Complete(Seq<PartView>),
    Abort,
    Finish(Result<(), ErrorView>),
}

/// An answer that may hold a text, in contracts.
pub open spec fn answer_view(r: Result<Option<String>, Error>) -> Result<
    Option<Seq<char>>,
    ErrorView,
> {
    match r {
        Ok(Some(text)) => Ok(Some(text@)),
        Ok(None) => Ok(None),
        Err(e) => Err(e@),
    }
}

impl View for UploadEvent {
    type V = EventView;

    open spec fn view(&self) -> EventView {
        match self {
            UploadEvent::Begin => EventView::Begin,
            UploadEvent::SessionOpened(r) => EventView::SessionOpened(answer_view(*r)),
            UploadEvent::ChunkRead(r) => EventView::ChunkRead(
                match r {
                    Ok(data) => Ok(data@),
                    Err(e) => Err(e@),
                },
            ),
            UploadEvent::PartUploaded(r) => EventView::PartUploaded(answer_view(*r)),
            UploadEvent::AbortReturned => EventView::AbortReturned,
            UploadEvent::CompletionReturned(r) => EventView::CompletionReturned(
                match r {
                    Ok(_) => Ok(()),
                    Err(e) => Err(e@),
                },
            ),
        }
    }
}

impl View for UploadAction {
    type V = ActionView;

    open spec fn view(&self) -> ActionView {
        match self {
            UploadAction::OpenSession => ActionView::OpenSession,
            UploadAction::ReadChunk(len) => ActionView::ReadChunk(*len as nat),
            UploadAction::UploadPart { part_number, body } => ActionView::UploadPart {
                part_number: *part_number as int,
                body: body@,
            },
            UploadAction::Complete(parts) => ActionView::Complete(parts_view(parts@)),
            UploadAction::Abort => ActionView::Abort,
            UploadAction::Finish(r) => ActionView::Finish(
                match r {
                    Ok(_) => Ok(()),
                    Err(e) => Err(e@),
                },
            ),
        }
    }
}

/// An upload in contracts.
pub struct SessionView {
    /// The key the file is stored under.
    pub key: Seq<char>,
    /// The content type the object gets.
    pub content_type: Seq<char>,
    /// The bytes asked of the file in one read.
    pub read_len: nat,
    /// Where the upload stands.
    pub phase: Phase,
    /// The id of the session, once the store has given one.
    pub upload_id: Option<Seq<char>>,
    /// The parts that the store has taken, in the order in which they were sent.
    pub parts: Seq<PartView>,
    /// The bytes read of the chunk that is being filled, which are not sent yet.
    pub gathered: Seq<u8>,
    /// The failure that is reported once the abort call is back.
    pub failure: Option<ErrorView>,
}

/// The error of this module with the given text.
pub open spec fn upload_error(detail: Seq<char>) -> ErrorView {
    ErrorView { kind: ErrorKind::MultipartUpload, detail }
}

/// The error for an answer to the request for a session that holds no id.
pub open spec fn no_upload_id() -> ErrorView {
    upload_error("No upload ID returned"@)
}

/// The error for an answer to a part that holds no tag.
pub open spec fn no_etag() -> ErrorView {
    upload_error("No ETag returned for part"@)
}

/// The error for a file that holds no data.
pub open spec fn no_data() -> ErrorView {
    upload_error("No data to upload"@)
}

/// The error for a report that the upload does not wait for.
pub open spec fn unexpected_report() -> ErrorView {
    upload_error("Unexpected report"@)
}

impl SessionView {
    /// What holds of every upload: its parts are numbered from 1 on without a
    /// gap, in the order in which they were sent; the session's id is known
    /// from the moment the store has given it and not before; a part in
    /// flight has a number that fits; the bytes gathered are fewer than a
    /// chunk, and none are kept while a part is in flight; a session is
    /// completed only with parts; and while the session is being aborted the
    /// failure to report is kept.
    pub open spec fn wf(self) -> bool {
        &&& 1 <= self.read_len <= MAX_READ_SIZE
        &&& self.parts.len() <= i32::MAX
        &&& forall|i: int|
            0 <= i < self.parts.len() ==> (#[trigger] self.parts[i]).part_number == i + 1
        &&& match self.phase {
            Phase::Idle | Phase::Opening | Phase::Refused => self.upload_id is None
                && self.parts.len() == 0 && self.failure is None && self.gathered.len() == 0,
            Phase::Reading => self.upload_id is Some && self.failure is None && self.gathered.len()
                < self.read_len,
            Phase::Uploading | Phase::UploadingLast => self.upload_id is Some && self.failure
                is None && self.parts.len() < i32::MAX && self.gathered.len() == 0,
            Phase::Completing | Phase::Completed => self.upload_id is Some && self.failure is None
                && self.parts.len() > 0 && self.gathered.len() == 0,
            Phase::Aborting => self.upload_id is Some && self.failure is Some,
            Phase::Aborted => self.upload_id is Some && self.failure is None,
        }
    }

    /// Whether `event` is the report that the upload waits for: the outcome
    /// of the call that was asked for last. A read is waited for only with as
    /// many bytes as were asked for, or fewer.
    pub open spec fn awaits(self, event: EventView) -> bool {
        match (self.phase, event) {
            (Phase::Idle, EventView::Begin) => true,
            (Phase::Opening, EventView::SessionOpened(_)) => true,
            (Phase::Reading, EventView::ChunkRead(Ok(data))) => self.gathered.len() + data.len()
                <= self.read_len,
            (Phase::Reading, EventView::ChunkRead(Err(_))) => true,
            (Phase::Uploading, EventView::PartUploaded(_)) => true,
            (Phase::UploadingLast, EventView::PartUploaded(_)) => true,
            (Phase::Aborting, EventView::AbortReturned) => true,
            (Phase::Completing, EventView::CompletionReturned(_)) => true,
            _ => false,
        }
    }

    /// Whether a read that gave `data` makes a part go out: it does where it
    /// fills the chunk, and where it finds the end of the file with bytes
    /// gathered.
    pub open spec fn starts_part(self, data: Seq<u8>) -> bool {
        ||| data.len() > 0 && self.gathered.len() + data.len() == self.read_len
        ||| data.len() == 0 && self.gathered.len() > 0
    }

    /// Whether the part that `event` starts, if it starts one, gets a number
    /// that fits in 32 bits.
    pub open spec fn fits(self, event: EventView) -> bool {
        match (self.phase, event) {
            (Phase::Reading, EventView::ChunkRead(Ok(data))) => self.starts_part(data)
                ==> self.parts.len() < i32::MAX,
            _ => true,
        }
    }

    /// Whether `event` is the report that the upload waits for, and starts no
    /// part whose number does not fit.
    pub open spec fn accepts(self, event: EventView) -> bool {
        self.awaits(event) && self.fits(event)
    }

    /// The upload in the given phase, all else unchanged.
    pub open spec fn at(self, phase: Phase) -> SessionView {
        SessionView { phase, ..self }
    }

    /// The upload on its way to being aborted because of `failure`.
    pub open spec fn failing(self, failure: ErrorView) -> SessionView {
        SessionView { phase: Phase::Aborting, failure: Some(failure), ..self }
    }

    /// The upload with `etag` for the part in flight added to its parts.
    pub open spec fn with_part(self, etag: Seq<char>) -> Seq<PartView> {
        self.parts.push(PartView { part_number: self.parts.len() as int + 1, etag })
    }

    /// The upload after a read that gave `data`, none at the end of the file,
    /// and what the caller is told to do.
    ///
    /// - Data that fills the chunk goes out as the next part, together with
    ///   what was gathered before.
    /// - Data that does not fill the chunk is gathered, and the rest of the
    ///   chunk is asked for.
    /// - At the end of the file what was gathered goes out as the last part.
    ///   Where nothing was gathered, the session is completed with the parts
    ///   taken, or aborted where there are none.
    pub open spec fn after_read(self, data: Seq<u8>) -> (SessionView, ActionView) {
        let all = self.gathered + data;
        let number = self.parts.len() as int + 1;
        if data.len() > 0 {
            if all.len() == self.read_len {
                (
                    SessionView { phase: Phase::Uploading, gathered: Seq::empty(), ..self },
                    ActionView::UploadPart { part_number: number, body: all },
                )
            } else {
                (
                    SessionView { gathered: all, ..self },
                    ActionView::ReadChunk((self.read_len - all.len()) as nat),
                )
            }
        } else if self.gathered.len() > 0 {
            (
                SessionView { phase: Phase::UploadingLast, gathered: Seq::empty(), ..self },
                ActionView::UploadPart { part_number: number, body: self.gathered },
            )
        } else if self.parts.len() > 0 {
            (self.at(Phase::Completing), ActionView::Complete(self.parts))
        } else {
            (self.failing(no_data()), ActionView::Abort)
        }
    }

    /// The upload after `event`, and what the caller is told to do.
    ///
    /// - At the beginning the store is asked for a session.
    /// - With the session's id the first chunk is asked for. Without one the
    ///   upload is over, with the store's failure or for want of an id.
    /// - A read is dealt with as [`SessionView::after_read`] says: a part
    ///   goes out when its chunk is full or the file ends, numbered one more
    ///   than the parts taken so far. A failed read aborts the session.
    /// - A part that the store took with a tag joins the list. After a part
    ///   in the middle of the file the next chunk is asked for; after the
    ///   last part the session is completed. A part that failed, or came back
    ///   without a tag, aborts the session.
    /// - A completed session ends the upload well; a failed completion aborts
    ///   the session.
    /// - When the abort call is back the upload is over, with the failure
    ///   that led to it.
    ///
    /// A report that the upload does not wait for is answered with an error
    /// and leaves the upload as it is.
    pub open spec fn step(self, event: EventView) -> (SessionView, ActionView) {
        if !self.awaits(event) {
            (self, ActionView::Finish(Err(unexpected_report())))
        } else {
            match event {
                EventView::Begin => (self.at(Phase::Opening), ActionView::OpenSession),
                EventView::SessionOpened(Ok(Some(id))) => (
                    SessionView { phase: Phase::Reading, upload_id: Some(id), ..self },
                    ActionView::ReadChunk(self.read_len),
                ),
                EventView::SessionOpened(Ok(None)) => (
                    self.at(Phase::Refused),
                    ActionView::Finish(Err(no_upload_id())),
                ),
                EventView::SessionOpened(Err(e)) => (
                    self.at(Phase::Refused),
                    ActionView::Finish(Err(e)),
                ),
                EventView::ChunkRead(Ok(data)) => self.after_read(data),
                EventView::ChunkRead(Err(e)) => (self.failing(e), ActionView::Abort),
                EventView::PartUploaded(Ok(Some(etag))) => if self.phase == Phase::Uploading {
                    (
                        SessionView { phase: Phase::Reading, parts: self.with_part(etag), ..self },
                        ActionView::ReadChunk(self.read_len),
                    )
                } else {
                    (
                        SessionView {
                            phase: Phase::Completing,
                            parts: self.with_part(etag),
                            ..self
                        },
                        ActionView::Complete(self.with_part(etag)),
                    )
                },
                EventView::PartUploaded(Ok(None)) => (self.failing(no_etag()), ActionView::Abort),
                EventView::PartUploaded(Err(e)) => (self.failing(e), ActionView::Abort),
                EventView::CompletionReturned(Ok(_)) => (
                    self.at(Phase::Completed),
                    ActionView::Finish(Ok(())),
                ),
                EventView::CompletionReturned(Err(e)) => (self.failing(e), ActionView::Abort),
                EventView::AbortReturned => (
                    SessionView { phase: Phase::Aborted, failure: None, ..self },
                    ActionView::Finish(
                        Err(
                            match self.failure {
                                Some(e) => e,
                                None => no_data(),
                            },
                        ),
                    ),
                ),
            }
        }
    }
}

/// An upload of one file under one key.
pub struct MultipartUpload {
    key: String,
    content_type: String,
    read_len: usize,
    phase: Phase,
    upload_id: Option<String>,
    parts: Vec<CompletedPart>,
    gathered: Vec<u8>,
    failure: Option<Error>,
}

impl View for MultipartUpload {
    type V = SessionView;

    closed spec fn view(&self) -> SessionView {
        SessionView {
            key: self.key@,
            content_type: self.content_type@,
            read_len: self.read_len as nat,
            phase: self.phase,
            upload_id: match self.upload_id {
                Some(id) => Some(id@),
                None => None,
            },
            parts: parts_view(self.parts@),
            gathered: self.gathered@,
            failure: match self.failure {
                Some(e) => Some(e@),
                None => None,
            },
        }
    }
}

/// A copy of a list of parts.
pub fn clone_parts(parts: &Vec<CompletedPart>) -> (r: Vec<CompletedPart>)
    ensures
        parts_view(r@) == parts_view(parts@),
{
    let mut out: Vec<CompletedPart> = Vec::new();
    let mut i: usize = 0;
    while i < parts.len()
        invariant
            i <= parts.len(),
            out.len() == i,
            forall|j: int| 0 <= j < i ==> (#[trigger] out@[j])@ == parts@[j]@,
        decreases parts.len() - i,
    {
        let p = &parts[i];
        out.push(CompletedPart { part_number: p.part_number, etag: p.etag.clone() });
        i += 1;
    }
    assert(parts_view(out@) =~= parts_view(parts@));
    out
}

impl MultipartUpload {
    /// An upload of a file to `key` with the given content type, read in
    /// chunks of `config.read_len()` bytes. Nothing has been asked of the
    /// store: the upload has no session yet and no parts.
    pub fn new(key: &str, content_type: &str, config: &MultipartUploadConfig) -> (r: Self)
        requires
            config.chunk_size > 0,
        ensures
            r@ == (SessionView {
                key: key@,
                content_type: content_type@,
                read_len: config.spec_read_len() as nat,
                phase: Phase::Idle,
                upload_id: None,
                parts: Seq::empty(),
                gathered: Seq::empty(),
                failure: None,
            }),
            r@.wf(),
    {
        let r = MultipartUpload {
            key: String::from_str(key),
            content_type: String::from_str(content_type),
            read_len: config.read_len(),
            phase: Phase::Idle,
            upload_id: None,
            parts: Vec::new(),
            gathered: Vec::new(),
            failure: None,
        };
        assert(parts_view(r.parts@) =~= Seq::empty());
        r
    }

    /// The key the file is stored under.
    pub fn key(&self) -> (r: &str)
        ensures
            r@ == self@.key,
    {
        self.key.as_str()
    }

    /// The content type the object gets.
    pub fn content_type(&self) -> (r: &str)
        ensures
            r@ == self@.content_type,
    {
        self.content_type.as_str()
    }

    /// Where the upload stands.
    pub fn phase(&self) -> (r: Phase)
        ensures
            r == self@.phase,
    {
        self.phase
    }

    /// The id of the session, once the store has given one.
    pub fn upload_id(&self) -> (r: Option<&str>)
        ensures
            match r {
                Some(id) => self@.upload_id == Some(id@),
                None => self@.upload_id is None,
            },
    {
        match &self.upload_id {
            Some(id) => Some(id.as_str()),
            None => None,
        }
    }

    /// The parts that the store has taken so far, in the order in which they
    /// were sent.
    pub fn completed_parts(&self) -> (r: &Vec<CompletedPart>)
        ensures
            parts_view(r@) == self@.parts,
    {
        &self.parts
    }

    /// Whether the upload is over.
    pub fn is_finished(&self) -> (r: bool)
        ensures
            r == self@.phase.is_final(),
    {
        match self.phase {
            Phase::Refused | Phase::Completed | Phase::Aborted => true,
            _ => false,
        }
    }

    /// The number of bytes read of the chunk that is being filled.
    pub fn gathered_len(&self) -> (r: usize)
        ensures
            r == self@.gathered.len(),
    {
        self.gathered.len()
    }

    /// Whether `event` is the report that the upload waits for.
    pub fn awaits(&self, event: &UploadEvent) -> (r: bool)
        ensures
            r == self@.awaits(event@),
    {
        match (self.phase, event) {
            (Phase::Idle, UploadEvent::Begin) => true,
            (Phase::Opening, UploadEvent::SessionOpened(_)) => true,
            (Phase::Reading, UploadEvent::ChunkRead(Ok(data))) => self.gathered.len()
                <= self.read_len && data.len() <= self.read_len - self.gathered.len(),
            (Phase::Reading, UploadEvent::ChunkRead(Err(_))) => true,
            (Phase::Uploading, UploadEvent::PartUploaded(_)) => true,
            (Phase::UploadingLast, UploadEvent::PartUploaded(_)) => true,
            (Phase::Aborting, UploadEvent::AbortReturned) => true,
            (Phase::Completing, UploadEvent::CompletionReturned(_)) => true,
            _ => false,
        }
    }

    /// Whether the part that `event` starts, if it starts one, gets a number
    /// that fits in 32 bits.
    pub fn fits(&self, event: &UploadEvent) -> (r: bool)
        ensures
            r == self@.fits(event@),
    {
        match (self.phase, event) {
            (Phase::Reading, UploadEvent::ChunkRead(Ok(data))) => {
                let kept = self.gathered.len();
                let fills = data.len() > 0 && kept <= self.read_len && data.len() == self.read_len
                    - kept;
                let ends = data.len() == 0 && kept > 0;
                !(fills || ends) || self.parts.len() < 2147483647
            },
            _ => true,
        }
    }

    /// Whether `event` is the report that the upload waits for, and starts no
    /// part whose number does not fit.
    pub fn accepts(&self, event: &UploadEvent) -> (r: bool)
        ensures
            r == self@.accepts(event@),
    {
        self.awaits(event) && self.fits(event)
    }

    fn fail(&mut self, failure: Error) -> (action: UploadAction)
        ensures
            final(self)@ == old(self)@.failing(failure@),
            action@ == ActionView::Abort,
    {
        self.phase = Phase::Aborting;
        self.failure = Some(failure);
        UploadAction::Abort
    }

    fn send_gathered(&mut self, phase: Phase) -> (action: UploadAction)
        requires
            old(self)@.parts.len() < i32::MAX,
        ensures
            final(self)@ == (SessionView { phase, gathered: Seq::empty(), ..old(self)@ }),
            action@ == (ActionView::UploadPart {
                part_number: old(self)@.parts.len() as int + 1,
                body: old(self)@.gathered,
            }),
    {
        let number: i32 = (self.parts.len() + 1) as i32;
        let mut body: Vec<u8> = Vec::new();
        core::mem::swap(&mut self.gathered, &mut body);
        self.phase = phase;
        UploadAction::UploadPart { part_number: number, body }
    }

    fn take_read(&mut self, data: Vec<u8>) -> (action: UploadAction)
        requires
            old(self)@.wf(),
            old(self)@.phase == Phase::Reading,
            old(self)@.gathered.len() + data@.len() <= old(self)@.read_len,
            old(self)@.starts_part(data@) ==> old(self)@.parts.len() < i32::MAX,
        ensures
            (final(self)@, action@) == old(self)@.after_read(data@),
    {
        let mut data = data;
        if data.len() > 0 {
            self.gathered.append(&mut data);
            if self.gathered.len() == self.read_len {
                self.send_gathered(Phase::Uploading)
            } else {
                UploadAction::ReadChunk(self.read_len - self.gathered.len())
            }
        } else if self.gathered.len() > 0 {
            self.send_gathered(Phase::UploadingLast)
        } else if self.parts.len() > 0 {
            self.phase = Phase::Completing;
            UploadAction::Complete(clone_parts(&self.parts))
        } else {
            self.fail(Error::MultipartUpload(String::from_str("No data to upload")))
        }
    }

    fn take_part(&mut self, etag: String) -> (action: UploadAction)
        requires
            old(self)@.wf(),
            old(self)@.phase == Phase::Uploading || old(self)@.phase == Phase::UploadingLast,
        ensures
            (final(self)@, action@) == old(self)@.step(
                EventView::PartUploaded(Ok(Some(etag@))),
            ),
    {
        let number: i32 = (self.parts.len() + 1) as i32;
        let ghost before = self.parts@;
        self.parts.push(CompletedPart { part_number: number, etag });
        assert(parts_view(self.parts@) =~= parts_view(before).push(
            PartView { part_number: before.len() as int + 1, etag: etag@ },
        ));
        match self.phase {
            Phase::Uploading => {
                self.phase = Phase::Reading;
                UploadAction::ReadChunk(self.read_len)
            },
            _ => {
                self.phase = Phase::Completing;
                UploadAction::Complete(clone_parts(&self.parts))
            },
        }
    }

    /// Takes the report of the last call and tells which call comes next. A
    /// report that the upload does not wait for changes nothing and is
    /// answered with an error.
    pub fn step(&mut self, event: UploadEvent) -> (action: UploadAction)
        requires
            old(self)@.wf(),
            old(self)@.fits(event@),
        ensures
            final(self)@.wf(),
            (final(self)@, action@) == old(self)@.step(event@),
    {
        if !self.awaits(&event) {
            return UploadAction::Finish(
                Err(Error::MultipartUpload(String::from_str("Unexpected report"))),
            );
        }
        match event {
            UploadEvent::Begin => {
                self.phase = Phase::Opening;
                UploadAction::OpenSession
            },
            UploadEvent::SessionOpened(answer) => match answer {
                Ok(Some(id)) => {
                    self.upload_id = Some(id);
                    self.phase = Phase::Reading;
                    UploadAction::ReadChunk(self.read_len)
                },
                Ok(None) => {
                    self.phase = Phase::Refused;
                    UploadAction::Finish(
                        Err(Error::MultipartUpload(String::from_str("No upload ID returned"))),
                    )
                },
                Err(e) => {
                    self.phase = Phase::Refused;
                    UploadAction::Finish(Err(e))
                },
            },
            UploadEvent::ChunkRead(read) => match read {
                Ok(data) => self.take_read(data),
                Err(e) => self.fail(e),
            },
            UploadEvent::PartUploaded(answer) => match answer {
                Ok(Some(etag)) => self.take_part(etag),
                Ok(None) => self.fail(
                    Error::MultipartUpload(String::from_str("No ETag returned for part")),
                ),
                Err(e) => self.fail(e),
            },
            UploadEvent::AbortReturned => {
                self.phase = Phase::Aborted;
                match self.failure.take() {
                    Some(e) => UploadAction::Finish(Err(e)),
                    None => UploadAction::Finish(
                        Err(Error::MultipartUpload(String::from_str("No data to upload"))),
                    ),
                }
            },
            UploadEvent::CompletionReturned(answer) => match answer {
                Ok(_) => {
                    self.phase = Phase::Completed;
                    UploadAction::Finish(Ok(()))
                },
                Err(e) => self.fail(e),
            },
        }
    }
}

} // verus!
