//! Byte accounting for a streamed download.
//!
//! The caller opens the transfer, creates the destination file and appends
//! each chunk to it in arrival order; after each append it reports the
//! chunk's length here and passes the returned position to its progress
//! display. At the end of the stream, or when a cancellation signal stops it
//! between chunks, it asks how the transfer ended.

use vstd::prelude::*;

verus! {

/// Why a download did not complete.
#[derive(Clone, Copy, Debug, PartialEq, Eq, Structural)]
pub enum DownloadError {
    /// The request failed or answered with a status other than success.
    Transport,
    /// The response did not announce its length.
    LengthUnknown,
    /// The destination file could not be created or written.
    Io,
    /// The stream ended with a total other than the announced length.
    SizeMismatch,
    /// The transfer was stopped by a cancellation signal between chunks.
    Cancelled,
}

/// A download as numbers: the announced length, the position reported to
/// progress, and the bytes appended to the file.
pub struct DownloadModel {
    pub expected_total_bytes: nat,
    pub bytes_written: nat,
    pub appended: nat,
}

/// The smaller of `a` and `b`.
pub open spec fn min_nat(a: nat, b: nat) -> nat {
    if a <= b { a } else { b }
}

/// A download of `total` bytes before its first chunk.
pub open spec fn started(total: nat) -> DownloadModel {
    DownloadModel { expected_total_bytes: total, bytes_written: 0, appended: 0 }
}

/// The state after a chunk of `len` bytes has been appended: progress moves
/// by the chunk's length but never past the announced total.
pub open spec fn chunk_step(m: DownloadModel, len: nat) -> DownloadModel {
    DownloadModel {
        bytes_written: min_nat(m.bytes_written + len, m.expected_total_bytes),
        appended: m.appended + len,
        ..m
    }
}

/// The state after the chunks `chunks`, in arrival order.
pub open spec fn feed(m: DownloadModel, chunks: Seq<nat>) -> DownloadModel
    decreases chunks.len(),
{
    if chunks.len() == 0 {
        m
    } else {
        chunk_step(feed(m, chunks.drop_last()), chunks.last())
    }
}

/// The sum of the chunk lengths.
pub open spec fn total_of(chunks: Seq<nat>) -> nat
    decreases chunks.len(),
{
    if chunks.len() == 0 {
        0
    } else {
        total_of(chunks.drop_last()) + chunks.last()
    }
}

/// A download succeeds when the file holds exactly the announced length.
pub open spec fn complete(m: DownloadModel) -> bool {
    m.appended == m.expected_total_bytes
}

/// One download: where from, where to, and how far it has come.
pub struct DownloadTask {
    source_url: String,
    destination_path: String,
    expected_total_bytes: u64,
    bytes_written: u64,
    overrun: bool,
    appended: Ghost<nat>,
}

impl View for DownloadTask {
    type V = DownloadModel;

    closed spec fn view(&self) -> DownloadModel {
        DownloadModel {
            expected_total_bytes: self.expected_total_bytes as nat,
            bytes_written: self.bytes_written as nat,
            appended: self.appended@,
        }
    }
}

impl DownloadTask {
    /// Progress is the appended count clamped to the total, and the flag
    /// records whether the file has grown past the total.
    pub closed spec fn wf(&self) -> bool {
        &&& self.bytes_written as nat == min_nat(self.appended@, self.expected_total_bytes as nat)
        &&& self.overrun == (self.appended@ > self.expected_total_bytes)
    }

    /// The address the payload is fetched from.
    pub closed spec fn source_url_spec(&self) -> Seq<char> {
        self.source_url@
    }

    /// The path the payload is written to.
    pub closed spec fn destination_path_spec(&self) -> Seq<char> {
        self.destination_path@
    }

    /// Starts a download once the response has announced its length;
    /// without one it cannot report progress and fails.
    pub fn start(source_url: String, destination_path: String, content_length: Option<u64>) -> (r:
        Result<DownloadTask, DownloadError>)
        ensures
            content_length is None ==> r == Err::<DownloadTask, DownloadError>(
                DownloadError::LengthUnknown,
            ),
            content_length is Some ==> r is Ok,
            r matches Ok(t) ==> {
                &&& t.wf()
                &&& t@ == started(content_length->0 as nat)
                &&& t.source_url_spec() == source_url@
                &&& t.destination_path_spec() == destination_path@
            },
    {
        match content_length {
            None => Err(DownloadError::LengthUnknown),
            Some(total) => Ok(
                DownloadTask {
                    source_url,
                    destination_path,
                    expected_total_bytes: total,
                    bytes_written: 0,
                    overrun: false,
                    appended: Ghost(0),
                },
            ),
        }
    }

    /// The address the payload is fetched from.
    pub fn source_url(&self) -> (r: &String)
        ensures
            r@ == self.source_url_spec(),
    {
        &self.source_url
    }

    /// The path the payload is written to.
    pub fn destination_path(&self) -> (r: &String)
        ensures
            r@ == self.destination_path_spec(),
    {
        &self.destination_path
    }

    /// The announced length.
    pub fn expected_total_bytes(&self) -> (r: u64)
        ensures
            r == self@.expected_total_bytes,
    {
        self.expected_total_bytes
    }

    /// The position last reported to progress.
    pub fn bytes_written(&self) -> (r: u64)
        ensures
            r == self@.bytes_written,
    {
        self.bytes_written
    }

    /// Records that a chunk of `len` bytes was appended to the file, and
    /// returns the position to report to progress.
    pub fn on_chunk(&mut self, len: usize) -> (pos: u64)
        requires
            old(self).wf(),
        ensures
            final(self).wf(),
            final(self)@ == chunk_step(old(self)@, len as nat),
            pos == final(self)@.bytes_written,
            final(self).source_url_spec() == old(self).source_url_spec(),
            final(self).destination_path_spec() == old(self).destination_path_spec(),
    {
        let room: u64 = self.expected_total_bytes - self.bytes_written;
        let n: u64 = len as u64;
        if n > room {
            self.overrun = true;
        }
        if n >= room {
            self.bytes_written = self.expected_total_bytes;
        } else {
            self.bytes_written = self.bytes_written + n;
        }
        self.appended = Ghost(self.appended@ + len as nat);
        self.bytes_written
    }

    /// Ends the transfer. `cancelled` says that a cancellation signal stopped
    /// it between chunks, which is reported as such; otherwise the stream has
    /// ended and the answer is whether it filled the file to exactly the
    /// announced length, and on success the final position.
    pub fn finish(&self, cancelled: bool) -> (r: Result<u64, DownloadError>)
        requires
            self.wf(),
        ensures
            cancelled ==> r == Err::<u64, DownloadError>(DownloadError::Cancelled),
            !cancelled ==> (r is Ok <==> complete(self@)),
            !cancelled && r is Err ==> r == Err::<u64, DownloadError>(DownloadError::SizeMismatch),
            r matches Ok(n) ==> n == self@.expected_total_bytes && n == self@.bytes_written,
    {
        if cancelled {
            Err(DownloadError::Cancelled)
        } else if !self.overrun && self.bytes_written == self.expected_total_bytes {
            Ok(self.bytes_written)
        } else {
            Err(DownloadError::SizeMismatch)
        }
    }
}

/// After the chunks `chunks`, progress stands at their sum clamped to the
/// total and the file holds their sum.
pub proof fn lemma_feed_counts(total: nat, chunks: Seq<nat>)
    ensures
        feed(started(total), chunks) == (DownloadModel {
            expected_total_bytes: total,
            bytes_written: min_nat(total_of(chunks), total),
            appended: total_of(chunks),
        }),
    decreases chunks.len(),
{
    if chunks.len() > 0 {
        lemma_feed_counts(total, chunks.drop_last());
    }
}

/// Byte accounting: a download of `total` bytes fed the chunks `chunks`
/// succeeds exactly when their lengths add up to `total`, and then both the
/// reported position and the file's size equal `total`.
pub proof fn lemma_byte_accounting(total: nat, chunks: Seq<nat>)
    ensures
        complete(feed(started(total), chunks)) <==> total_of(chunks) == total,
        complete(feed(started(total), chunks)) ==> feed(started(total), chunks).bytes_written
            == total && feed(started(total), chunks).appended == total,
{
    lemma_feed_counts(total, chunks);
}

} // verus!
