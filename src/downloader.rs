use vstd::prelude::*;

use crate::headers::{
    byte_range,
    byte_range_text,
    content_length_value,
    content_range_total,
    extract_size_from_content_length,
    extract_size_from_content_range,
};
use crate::paths::{file_name_from_url, join_path, joined, last_segment};

verus! {

/// What is known of the destination file before a transfer starts.
#[derive(Clone, Copy, Debug, PartialEq, Eq, Structural)]
pub struct LocalFile {
    pub exists: bool,
    /// Its length in bytes; 0 where it does not exist.
    pub size: u64,
}

/// What the probe request learned of the remote object.
#[derive(Clone, Copy, Debug, PartialEq, Eq, Structural)]
pub struct RemoteMetadata {
    /// The object's total length, where the server stated it.
    pub total_size: Option<u64>,
    /// Whether the server answered a range request with partial content.
    pub supports_range: bool,
}

/// How a transfer proceeds, as decided from the local and the remote state.
#[derive(Clone, Copy, Debug, PartialEq, Eq, Structural)]
pub enum TransferMode {
    /// Download the whole object into an emptied file.
    Fresh,
    /// Request only the bytes after those already on disk, and append them.
    Resume,
    /// The local file already holds the whole object: nothing to transfer.
    AlreadyComplete,
}

/// Why a transfer stopped without completing.
#[derive(Clone, Copy, Debug, PartialEq, Eq, Structural)]
pub enum DownloadError {
    /// The probe request was answered with a status that is neither 206 nor 2xx.
    MetadataProbeFailed { status: u16 },
    /// A request could not be sent.
    RequestFailed,
    /// A transfer request was answered with a status that the engine does not
    /// accept at that point.
    UnexpectedStatus { status: u16 },
    /// Reading the body or writing it to disk failed, or it would outgrow a
    /// 64-bit length.
    StreamIoError,
    /// The destination could not be created, opened or inspected.
    FilesystemError,
}

/// Where a transfer stands.
#[derive(Clone, Copy, Debug, PartialEq, Eq, Structural)]
pub enum Phase {
    /// Waiting to learn whether the destination exists, and its size.
    Inspecting,
    /// Waiting for the answer to the probe request.
    Probing,
    /// Waiting for the answer to a transfer request; `range_from` is the offset
    /// that the request asked for, if any, and `restarted` tells whether this is
    /// the one request sent after discarding a partial file.
    Requesting { range_from: Option<u64>, restarted: bool },
    /// Writing the body to the destination.
    Streaming,
    /// Finished: the destination holds the object.
    Completed,
    /// Stopped with an error.
    Failed { error: DownloadError },
}

/// What the caller must do next on behalf of a transfer.
///
/// Only `Stream` and `Write` touch the destination file; every other action
/// leaves it as it is.
#[derive(Clone, Copy, Debug, PartialEq, Eq, Structural)]
pub enum Action {
    /// Send `GET` with the `Range` header from `probe_range_header`.
    Probe,
    /// Send `GET`, carrying `Range: bytes=<from>-` where `range_from` is set
    /// and no `Range` header otherwise. The body of any earlier answer is dropped.
    Request { range_from: Option<u64> },
    /// Open the destination, emptied where `truncate` holds and for appending
    /// otherwise, and start reading the body. Progress starts at `start` bytes of
    /// an expected `total` (0: unknown).
    Stream { truncate: bool, start: u64, total: u64 },
    /// Append the chunk just received to the destination; progress is now at
    /// `position` bytes.
    Write { position: u64 },
    /// Done: the destination holds the whole object, `size` bytes long.
    Finish { size: u64 },
    /// Stop: the transfer failed with `error`. The destination is left in place.
    Fail { error: DownloadError },
}

/// The state of a transfer, apart from its source and destination.
#[derive(Clone, Copy, Debug, PartialEq, Eq, Structural)]
pub struct TransferState {
    pub local: LocalFile,
    pub remote: RemoteMetadata,
    pub mode: TransferMode,
    pub phase: Phase,
    /// Bytes that the destination holds while streaming.
    pub position: u64,
}

/// The characters of an optional header value.
pub open spec fn text_of(h: Option<&str>) -> Option<Seq<char>> {
    match h {
        Some(v) => Some(v@),
        None => None,
    }
}

/// The total size that an optional `Content-Range` value states.
pub open spec fn range_total_of(h: Option<Seq<char>>) -> Option<u64> {
    match h {
        Some(v) => content_range_total(v),
        None => None,
    }
}

/// The size that an optional `Content-Length` value states.
pub open spec fn length_of(h: Option<Seq<char>>) -> Option<u64> {
    match h {
        Some(v) => content_length_value(v),
        None => None,
    }
}

/// What the answer to the probe request says of the remote object: 206 means
/// that ranges are honoured and `Content-Range` gives the total; another 2xx
/// means they are not and `Content-Length` gives it; any other status fails.
pub open spec fn probe_result(
    status: u16,
    content_range: Option<Seq<char>>,
    content_length: Option<Seq<char>>,
) -> Result<RemoteMetadata, DownloadError> {
    if status == 206 {
        Ok(RemoteMetadata { total_size: range_total_of(content_range), supports_range: true })
    } else if 200 <= status < 300 {
        Ok(RemoteMetadata { total_size: length_of(content_length), supports_range: false })
    } else {
        Err(DownloadError::MetadataProbeFailed { status })
    }
}

/// The local file already is the whole remote object.
pub open spec fn is_complete(local: LocalFile, remote_size: Option<u64>) -> bool {
    local.exists && remote_size == Some(local.size)
}

/// The mode that the local and the remote state call for, in order of priority:
/// complete, then resumable, then fresh.
pub open spec fn plan(local: LocalFile, remote: RemoteMetadata) -> TransferMode {
    if is_complete(local, remote.total_size) {
        TransferMode::AlreadyComplete
    } else if local.exists && local.size > 0 && remote.supports_range {
        TransferMode::Resume
    } else {
        TransferMode::Fresh
    }
}

/// The expected size shown by progress: the bytes already on disk when
/// resuming, plus the length that the answer declares (or else the probed
/// total, or else nothing), capped at the largest 64-bit value.
pub open spec fn total_size(
    is_resuming: bool,
    file_size: u64,
    content_length: Option<u64>,
    known_content_length: Option<u64>,
) -> u64 {
    let declared: u64 = match content_length {
        Some(n) => n,
        None => match known_content_length {
            Some(k) => k,
            None => 0,
        },
    };
    let base: u64 = if is_resuming && file_size > 0 {
        file_size
    } else {
        0
    };
    if base + declared > u64::MAX {
        u64::MAX
    } else {
        (base + declared) as u64
    }
}

/// The state in which every transfer starts.
pub open spec fn initial_state() -> TransferState {
    TransferState {
        local: LocalFile { exists: false, size: 0 },
        remote: RemoteMetadata { total_size: None, supports_range: false },
        mode: TransferMode::Fresh,
        phase: Phase::Inspecting,
        position: 0,
    }
}

/// Step: the destination's size is known (`None`: it does not exist).
pub open spec fn after_local_file(s: TransferState, existing_size: Option<u64>) -> (
    TransferState,
    Action,
) {
    let local = match existing_size {
        Some(n) => LocalFile { exists: true, size: n },
        None => LocalFile { exists: false, size: 0 },
    };
    (TransferState { local, phase: Phase::Probing, ..s }, Action::Probe)
}

/// Step: the probe was answered (or failed with the given error). A failed probe
/// ends the transfer: the remote state is not guessed.
pub open spec fn after_probe(s: TransferState, probe: Result<RemoteMetadata, DownloadError>) -> (
    TransferState,
    Action,
) {
    match probe {
        Err(error) => (TransferState { phase: Phase::Failed { error }, ..s }, Action::Fail { error }),
        Ok(remote) => {
            let mode = plan(s.local, remote);
            match mode {
                TransferMode::AlreadyComplete => (
                    TransferState {
                        remote,
                        mode,
                        phase: Phase::Completed,
                        position: s.local.size,
                        ..s
                    },
                    Action::Finish { size: s.local.size },
                ),
                TransferMode::Resume => (
                    TransferState {
                        remote,
                        mode,
                        phase: Phase::Requesting { range_from: Some(s.local.size), restarted: false },
                        ..s
                    },
                    Action::Request { range_from: Some(s.local.size) },
                ),
                TransferMode::Fresh => (
                    TransferState {
                        remote,
                        mode,
                        phase: Phase::Requesting { range_from: None, restarted: false },
                        ..s
                    },
                    Action::Request { range_from: None },
                ),
            }
        },
    }
}

/// The one restart: ask for the whole object again, to be streamed into an
/// emptied file (the file is emptied only once that answer streams, so a failure
/// leaves it as it was). A second call to restart is a failure.
pub open spec fn restart_or_fail(s: TransferState, restarted: bool, status: u16) -> (
    TransferState,
    Action,
) {
    if restarted {
        let error = DownloadError::UnexpectedStatus { status };
        (TransferState { phase: Phase::Failed { error }, ..s }, Action::Fail { error })
    } else {
        (
            TransferState {
                mode: TransferMode::Fresh,
                phase: Phase::Requesting { range_from: None, restarted: true },
                ..s
            },
            Action::Request { range_from: None },
        )
    }
}

/// Start streaming the answer's body at the offset that the request asked for.
pub open spec fn start_stream(
    s: TransferState,
    range_from: Option<u64>,
    content_length: Option<u64>,
) -> (TransferState, Action) {
    let start: u64 = match range_from {
        Some(n) => n,
        None => 0,
    };
    let total = total_size(range_from is Some, start, content_length, s.remote.total_size);
    (
        TransferState { phase: Phase::Streaming, position: start, ..s },
        Action::Stream { truncate: range_from is None, start, total },
    )
}

/// Step: a transfer request was answered with `status`, declaring
/// `content_length` bytes of body.
///
/// 206 streams the body at the requested offset. 200 streams it into an emptied
/// file, unless the request asked for a range, which the server then ignored:
/// that restarts. 416 restarts. A restart happens at most once; any other
/// status fails.
pub open spec fn after_response(s: TransferState, status: u16, content_length: Option<u64>) -> (
    TransferState,
    Action,
) {
    match s.phase {
        Phase::Requesting { range_from, restarted } => {
            if status == 206 {
                start_stream(s, range_from, content_length)
            } else if status == 200 {
                if range_from is Some {
                    restart_or_fail(s, restarted, status)
                } else {
                    start_stream(s, range_from, content_length)
                }
            } else if status == 416 {
                restart_or_fail(s, restarted, status)
            } else {
                let error = DownloadError::UnexpectedStatus { status };
                (TransferState { phase: Phase::Failed { error }, ..s }, Action::Fail { error })
            }
        },
        _ => {
            let error = DownloadError::RequestFailed;
            (TransferState { phase: Phase::Failed { error }, ..s }, Action::Fail { error })
        },
    }
}

/// Step: a chunk of `len` bytes arrived while streaming.
pub open spec fn after_chunk(s: TransferState, len: nat) -> (TransferState, Action) {
    if s.position + len <= u64::MAX {
        let position = (s.position + len) as u64;
        (TransferState { position, ..s }, Action::Write { position })
    } else {
        let error = DownloadError::StreamIoError;
        (TransferState { phase: Phase::Failed { error }, ..s }, Action::Fail { error })
    }
}

/// Step: the body ended.
pub open spec fn after_end(s: TransferState) -> (TransferState, Action) {
    (TransferState { phase: Phase::Completed, ..s }, Action::Finish { size: s.position })
}

/// Step: the caller's own work (a send, a read, a write, a file operation)
/// failed with `error`.
pub open spec fn after_failure(s: TransferState, error: DownloadError) -> (TransferState, Action) {
    (TransferState { phase: Phase::Failed { error }, ..s }, Action::Fail { error })
}

/// A transfer has finished, one way or the other.
pub open spec fn is_finished(p: Phase) -> bool {
    p is Completed || p is Failed
}

/// What holds of every state of a transfer.
pub open spec fn state_invariant(s: TransferState) -> bool {
    &&& !s.local.exists ==> s.local.size == 0
    &&& s.mode is Resume ==> s.local.exists && s.local.size > 0 && s.remote.supports_range
    &&& s.mode is AlreadyComplete ==> is_complete(s.local, s.remote.total_size)
    &&& (s.phase is Inspecting || s.phase is Probing) ==> s.mode is Fresh
    &&& match s.phase {
        Phase::Requesting { range_from, restarted } => match range_from {
            Some(n) => !restarted && s.mode is Resume && n == s.local.size,
            None => s.mode is Fresh,
        },
        _ => true,
    }
}

/// The file that an action leaves behind: `file` is the destination before it,
/// and `chunk` the data received with the event that called for it.
pub open spec fn file_after(file: Seq<u8>, action: Action, chunk: Seq<u8>) -> Seq<u8> {
    match action {
        Action::Stream { truncate, .. } => if truncate {
            Seq::empty()
        } else {
            file
        },
        Action::Write { .. } => file + chunk,
        _ => file,
    }
}

/// Streaming `chunks` one after the other, from state `s` with destination
/// `file`: the state and the file after them. Streaming stops where a step
/// leaves the streaming phase.
pub open spec fn stream_chunks(s: TransferState, file: Seq<u8>, chunks: Seq<Seq<u8>>) -> (
    TransferState,
    Seq<u8>,
)
    decreases chunks.len(),
{
    if chunks.len() == 0 || !(s.phase is Streaming) {
        (s, file)
    } else {
        let (s1, a) = after_chunk(s, chunks[0].len());
        stream_chunks(s1, file_after(file, a, chunks[0]), chunks.drop_first())
    }
}

/// A transfer request answered with `status`, declaring `content_length`,
/// whose body is `chunks`: the state, the last action and the destination
/// after the answer has been handled and, where it was streamed, the body has
/// been read to its end.
pub open spec fn answer(
    s: TransferState,
    status: u16,
    content_length: Option<u64>,
    file: Seq<u8>,
    chunks: Seq<Seq<u8>>,
) -> (TransferState, Action, Seq<u8>) {
    let (s1, a1) = after_response(s, status, content_length);
    let file1 = file_after(file, a1, Seq::empty());
    if a1 is Stream {
        let (s2, file2) = stream_chunks(s1, file1, chunks);
        if s2.phase is Streaming {
            let (s3, a3) = after_end(s2);
            (s3, a3, file2)
        } else {
            (s2, Action::Fail { error: DownloadError::StreamIoError }, file2)
        }
    } else {
        (s1, a1, file1)
    }
}

/// Streaming chunks whose total fits a 64-bit length appends exactly those
/// chunks, in order, and advances the position by their total length.
pub proof fn lemma_stream_appends(s: TransferState, file: Seq<u8>, chunks: Seq<Seq<u8>>)
    requires
        s.phase is Streaming,
        s.position + chunks.flatten().len() <= u64::MAX,
    ensures
        stream_chunks(s, file, chunks) == (
            TransferState { position: (s.position + chunks.flatten().len()) as u64, ..s },
            file + chunks.flatten(),
        ),
    decreases chunks.len(),
{
    if chunks.len() == 0 {
        assert(file + chunks.flatten() =~= file);
    } else {
        let c = chunks[0];
        let rest = chunks.drop_first();
        assert(chunks.flatten() == c + rest.flatten());
        let s1 = TransferState { position: (s.position + c.len()) as u64, ..s };
        lemma_stream_appends(s1, file + c, rest);
        assert(file + c + rest.flatten() =~= file + chunks.flatten());
    }
}

/// When the local file exists and its size equals the remote total size, the
/// answer to the probe ends the transfer at once: nothing is requested and the
/// file is reported complete as it stands.
pub proof fn complete_file_needs_no_transfer(s: TransferState, remote: RemoteMetadata)
    requires
        s.phase is Probing,
        s.local.exists,
        remote.total_size == Some(s.local.size),
    ensures
        after_probe(s, Ok(remote)).1 == (Action::Finish { size: s.local.size }),
        after_probe(s, Ok(remote)).0.phase is Completed,
        after_probe(s, Ok(remote)).0.mode is AlreadyComplete,
{
}

/// Resuming a partial file of `n` bytes, where the server answers 206 with a
/// body of `L` bytes, leaves a file of exactly `n + L` bytes whose first `n`
/// bytes are those it had; the transfer completes with that size.
pub proof fn resume_appends_to_partial_file(
    s: TransferState,
    file: Seq<u8>,
    content_length: Option<u64>,
    chunks: Seq<Seq<u8>>,
)
    requires
        state_invariant(s),
        s.phase == (Phase::Requesting { range_from: Some(file.len() as u64), restarted: false }),
        file.len() + chunks.flatten().len() <= u64::MAX,
    ensures
        answer(s, 206, content_length, file, chunks).2 == file + chunks.flatten(),
        answer(s, 206, content_length, file, chunks).2.len() == file.len()
            + chunks.flatten().len(),
        answer(s, 206, content_length, file, chunks).2.subrange(0, file.len() as int) == file,
        answer(s, 206, content_length, file, chunks).1 == (Action::Finish {
            size: (file.len() + chunks.flatten().len()) as u64,
        }),
        answer(s, 206, content_length, file, chunks).0.phase is Completed,
{
    let (s1, a1) = after_response(s, 206, content_length);
    assert(s1.position == file.len());
    lemma_stream_appends(s1, file, chunks);
    assert((file + chunks.flatten()).subrange(0, file.len() as int) =~= file);
}

/// Where a request for the bytes after offset `n > 0` is answered with 200 (the
/// server ignored the range) or with 416 (it refused it), the transfer asks for
/// the whole object once more, and a 200 answer to that leaves exactly its body
/// in the file: a full fresh download, whatever the file held before.
pub proof fn rejected_range_restarts_fresh(
    s: TransferState,
    status: u16,
    first_length: Option<u64>,
    file: Seq<u8>,
    content_length: Option<u64>,
    chunks: Seq<Seq<u8>>,
)
    requires
        state_invariant(s),
        s.phase is Requesting,
        s.phase->Requesting_range_from is Some,
        status == 200 || status == 416,
        chunks.flatten().len() <= u64::MAX,
    ensures
        after_response(s, status, first_length).1 == (Action::Request { range_from: None }),
        file_after(file, after_response(s, status, first_length).1, Seq::empty()) == file,
        answer(after_response(s, status, first_length).0, 200, content_length, file, chunks).2
            == chunks.flatten(),
        answer(after_response(s, status, first_length).0, 200, content_length, file, chunks).1
            == (Action::Finish { size: chunks.flatten().len() as u64 }),
{
    let (s1, a1) = after_response(s, status, first_length);
    let (s2, a2) = after_response(s1, 200, content_length);
    assert(s2.position == 0);
    lemma_stream_appends(s2, Seq::empty(), chunks);
    assert(Seq::<u8>::empty() + chunks.flatten() =~= chunks.flatten());
}

/// Any answer to a transfer request other than 200, 206 or 416 fails the
/// transfer with that status, and leaves the destination file untouched.
pub proof fn unknown_status_fails(
    s: TransferState,
    status: u16,
    content_length: Option<u64>,
    file: Seq<u8>,
    chunk: Seq<u8>,
)
    requires
        s.phase is Requesting,
        status != 200,
        status != 206,
        status != 416,
    ensures
        after_response(s, status, content_length).1 == (Action::Fail {
            error: DownloadError::UnexpectedStatus { status },
        }),
        after_response(s, status, content_length).0.phase == (Phase::Failed {
            error: DownloadError::UnexpectedStatus { status },
        }),
        file_after(file, after_response(s, status, content_length).1, chunk) == file,
{
}

/// A restart happens at most once: the answer to the request sent after a
/// restart never calls for another request.
pub proof fn restart_happens_at_most_once(
    s: TransferState,
    status: u16,
    content_length: Option<u64>,
)
    requires
        s.phase is Requesting,
        s.phase->Requesting_restarted,
    ensures
        !(after_response(s, status, content_length).1 is Request),
{
}

/// The probe's `Range` header value: the first byte only, `bytes=0-0`.
pub fn probe_range_header() -> (r: String)
    ensures
        r@ == byte_range_text(0, Some(0)),
{
    byte_range(0, Some(0))
}

/// The `Range` header value that asks for everything from `offset` on.
pub fn resume_range_header(offset: u64) -> (r: String)
    ensures
        r@ == byte_range_text(offset, None),
{
    byte_range(offset, None)
}

/// Interprets the answer to the probe request.
pub fn probe_metadata(status: u16, content_range: Option<&str>, content_length: Option<&str>) -> (r:
    Result<RemoteMetadata, DownloadError>)
    ensures
        r == probe_result(status, text_of(content_range), text_of(content_length)),
{
    if status == 206 {
        let total_size = match content_range {
            Some(v) => extract_size_from_content_range(v),
            None => None,
        };
        Ok(RemoteMetadata { total_size, supports_range: true })
    } else if 200 <= status && status < 300 {
        let total_size = match content_length {
            Some(v) => extract_size_from_content_length(v),
            None => None,
        };
        Ok(RemoteMetadata { total_size, supports_range: false })
    } else {
        Err(DownloadError::MetadataProbeFailed { status })
    }
}

/// Whether the local file already is the whole remote object.
pub fn is_download_complete(file_exists: bool, file_size: u64, remote_size: Option<u64>) -> (r:
    bool)
    ensures
        r == is_complete(LocalFile { exists: file_exists, size: file_size }, remote_size),
{
    match remote_size {
        Some(n) => file_exists && file_size == n,
        None => false,
    }
}

/// Decides how a transfer proceeds.
pub fn plan_transfer(local: LocalFile, remote: RemoteMetadata) -> (r: TransferMode)
    ensures
        r == plan(local, remote),
        r is Resume ==> local.size > 0 && remote.supports_range,
        r is AlreadyComplete ==> remote.total_size == Some(local.size),
{
    if is_download_complete(local.exists, local.size, remote.total_size) {
        TransferMode::AlreadyComplete
    } else if local.exists && local.size > 0 && remote.supports_range {
        TransferMode::Resume
    } else {
        TransferMode::Fresh
    }
}

/// The expected size of the destination once the body is written, for progress.
pub fn calculate_total_download_size(
    is_resuming: bool,
    file_size: u64,
    content_length: Option<u64>,
    known_content_length: Option<u64>,
) -> (r: u64)
    ensures
        r == total_size(is_resuming, file_size, content_length, known_content_length),
{
    let declared: u64 = match content_length {
        Some(n) => n,
        None => match known_content_length {
            Some(k) => k,
            None => 0,
        },
    };
    if is_resuming && file_size > 0 {
        file_size.saturating_add(declared)
    } else {
        declared
    }
}

/// One download: a source URL, the file it goes to, and where the transfer
/// stands. The caller performs each `Action` that a step returns and reports
/// what came of it through the next step.
pub struct DownloadTask {
    source_url: String,
    file_name: String,
    destination_path: String,
    state: TransferState,
}

impl View for DownloadTask {
    type V = TransferState;

    closed spec fn view(&self) -> TransferState {
        self.state
    }
}

impl DownloadTask {
    /// The URL that the object is fetched from.
    pub closed spec fn source(&self) -> Seq<char> {
        self.source_url@
    }

    /// The name of the destination file.
    pub closed spec fn name(&self) -> Seq<char> {
        self.file_name@
    }

    /// The path of the destination file.
    pub closed spec fn destination(&self) -> Seq<char> {
        self.destination_path@
    }

    /// Source and destination are those of `other`.
    pub open spec fn same_target(&self, other: &DownloadTask) -> bool {
        &&& self.source() == other.source()
        &&& self.name() == other.name()
        &&& self.destination() == other.destination()
    }

    /// A transfer of `url` into `output_dir`: the destination is named after
    /// the URL's final path segment.
    pub fn new(url: &str, output_dir: &str) -> (r: DownloadTask)
        ensures
            r@ == initial_state(),
            state_invariant(r@),
            r.source() == url@,
            r.name() == last_segment(url@),
            r.destination() == joined(output_dir@, last_segment(url@)),
    {
        let file_name = file_name_from_url(url);
        let destination_path = join_path(output_dir, file_name.as_str());
        DownloadTask {
            source_url: String::from_str(url),
            file_name,
            destination_path,
            state: TransferState {
                local: LocalFile { exists: false, size: 0 },
                remote: RemoteMetadata { total_size: None, supports_range: false },
                mode: TransferMode::Fresh,
                phase: Phase::Inspecting,
                position: 0,
            },
        }
    }

    pub fn source_url(&self) -> (r: &str)
        ensures
            r@ == self.source(),
    {
        self.source_url.as_str()
    }

    pub fn file_name(&self) -> (r: &str)
        ensures
            r@ == self.name(),
    {
        self.file_name.as_str()
    }

    pub fn destination_path(&self) -> (r: &str)
        ensures
            r@ == self.destination(),
    {
        self.destination_path.as_str()
    }

    pub fn state(&self) -> (r: TransferState)
        ensures
            r == self@,
    {
        self.state
    }

    pub fn phase(&self) -> (r: Phase)
        ensures
            r == self@.phase,
    {
        self.state.phase
    }

    /// Reports whether the destination exists, and its size.
    pub fn on_local_file(&mut self, existing_size: Option<u64>) -> (r: Action)
        requires
            old(self)@.phase is Inspecting,
            state_invariant(old(self)@),
        ensures
            (final(self)@, r) == after_local_file(old(self)@, existing_size),
            state_invariant(final(self)@),
            final(self).same_target(old(self)),
    {
        let local = match existing_size {
            Some(n) => LocalFile { exists: true, size: n },
            None => LocalFile { exists: false, size: 0 },
        };
        self.state = TransferState { local, phase: Phase::Probing, ..self.state };
        Action::Probe
    }

    /// Reports the answer to the probe request: its status and its
    /// `Content-Range` and `Content-Length` values, where present.
    pub fn on_probe_response(
        &mut self,
        status: u16,
        content_range: Option<&str>,
        content_length: Option<&str>,
    ) -> (r: Action)
        requires
            old(self)@.phase is Probing,
            state_invariant(old(self)@),
        ensures
            (final(self)@, r) == after_probe(
                old(self)@,
                probe_result(status, text_of(content_range), text_of(content_length)),
            ),
            state_invariant(final(self)@),
            final(self).same_target(old(self)),
    {
        match probe_metadata(status, content_range, content_length) {
            Err(error) => {
                self.state = TransferState { phase: Phase::Failed { error }, ..self.state };
                Action::Fail { error }
            },
            Ok(remote) => {
                let local = self.state.local;
                let mode = plan_transfer(local, remote);
                match mode {
                    TransferMode::AlreadyComplete => {
                        self.state =
                        TransferState {
                            remote,
                            mode,
                            phase: Phase::Completed,
                            position: local.size,
                            ..self.state
                        };
                        Action::Finish { size: local.size }
                    },
                    TransferMode::Resume => {
                        self.state =
                        TransferState {
                            remote,
                            mode,
                            phase: Phase::Requesting {
                                range_from: Some(local.size),
                                restarted: false,
                            },
                            ..self.state
                        };
                        Action::Request { range_from: Some(local.size) }
                    },
                    TransferMode::Fresh => {
                        self.state =
                        TransferState {
                            remote,
                            mode,
                            phase: Phase::Requesting { range_from: None, restarted: false },
                            ..self.state
                        };
                        Action::Request { range_from: None }
                    },
                }
            },
        }
    }

    /// Reports the answer to a transfer request: its status and its
    /// `Content-Length` value, where present.
    pub fn on_response(&mut self, status: u16, content_length: Option<&str>) -> (r: Action)
        requires
            old(self)@.phase is Requesting,
            state_invariant(old(self)@),
        ensures
            (final(self)@, r) == after_response(
                old(self)@,
                status,
                length_of(text_of(content_length)),
            ),
            state_invariant(final(self)@),
            final(self).same_target(old(self)),
    {
        let (range_from, restarted) = match self.state.phase {
            Phase::Requesting { range_from, restarted } => (range_from, restarted),
            _ => (None, false),
        };
        let declared = match content_length {
            Some(v) => extract_size_from_content_length(v),
            None => None,
        };
        if status == 206 || (status == 200 && range_from.is_none()) {
            let start: u64 = match range_from {
                Some(n) => n,
                None => 0,
            };
            let total = calculate_total_download_size(
                range_from.is_some(),
                start,
                declared,
                self.state.remote.total_size,
            );
            self.state = TransferState { phase: Phase::Streaming, position: start, ..self.state };
            Action::Stream { truncate: range_from.is_none(), start, total }
        } else if (status == 200 || status == 416) && !restarted {
            self.state =
            TransferState {
                mode: TransferMode::Fresh,
                phase: Phase::Requesting { range_from: None, restarted: true },
                ..self.state
            };
            Action::Request { range_from: None }
        } else {
            let error = DownloadError::UnexpectedStatus { status };
            self.state = TransferState { phase: Phase::Failed { error }, ..self.state };
            Action::Fail { error }
        }
    }

    /// Reports a chunk of the body as it arrives.
    pub fn on_chunk(&mut self, chunk: &[u8]) -> (r: Action)
        requires
            old(self)@.phase is Streaming,
            state_invariant(old(self)@),
        ensures
            (final(self)@, r) == after_chunk(old(self)@, chunk@.len()),
            state_invariant(final(self)@),
            final(self).same_target(old(self)),
    {
        let len = chunk.len();
        if len as u64 <= u64::MAX - self.state.position {
            let position = self.state.position + len as u64;
            self.state = TransferState { position, ..self.state };
            Action::Write { position }
        } else {
            let error = DownloadError::StreamIoError;
            self.state = TransferState { phase: Phase::Failed { error }, ..self.state };
            Action::Fail { error }
        }
    }

    /// Reports the end of the body.
    pub fn on_stream_end(&mut self) -> (r: Action)
        requires
            old(self)@.phase is Streaming,
            state_invariant(old(self)@),
        ensures
            (final(self)@, r) == after_end(old(self)@),
            state_invariant(final(self)@),
            final(self).same_target(old(self)),
    {
        self.state = TransferState { phase: Phase::Completed, ..self.state };
        Action::Finish { size: self.state.position }
    }

    /// Reports that the caller's part of the current step failed.
    pub fn on_failure(&mut self, error: DownloadError) -> (r: Action)
        requires
            !is_finished(old(self)@.phase),
            state_invariant(old(self)@),
        ensures
            (final(self)@, r) == after_failure(old(self)@, error),
            state_invariant(final(self)@),
            final(self).same_target(old(self)),
    {
        self.state = TransferState { phase: Phase::Failed { error }, ..self.state };
        Action::Fail { error }
    }
}

} // verus!
