use vstd::prelude::*;

verus! {

/// Why a download failed.
#[derive(Clone, Copy, Debug, PartialEq, Eq, Structural)]
pub enum DownloadError {
    /// The GET request could not be sent or was answered with a failure.
    RequestFailed,
    /// The response did not advertise its length.
    MissingLength,
    /// Reading a chunk from the network, or writing it to the sink, failed.
    StreamError,
}

/// What became of one chunk of the response body.
#[derive(Clone, Copy, Debug, PartialEq, Eq, Structural)]
pub enum ChunkOutcome {
    /// A chunk of this many bytes was read and written to the sink.
    Written(usize),
    /// The next chunk could not be read from the network.
    ReadFailed,
    /// The chunk was read but could not be written to the sink.
    WriteFailed,
}

/// The position reported after a chunk of `len` bytes, starting from
/// `downloaded`: the running total, clamped to the advertised `total`.
pub open spec fn advance(downloaded: nat, len: nat, total: nat) -> nat {
    if downloaded + len <= total {
        downloaded + len
    } else {
        total
    }
}

/// The positions reported, one per chunk, for chunks of the lengths `lens`,
/// starting from `downloaded`.
pub open spec fn reported(downloaded: nat, total: nat, lens: Seq<nat>) -> Seq<nat>
    decreases lens.len(),
{
    if lens.len() == 0 {
        Seq::empty()
    } else {
        let next = advance(downloaded, lens[0], total);
        seq![next] + reported(next, total, lens.drop_first())
    }
}

/// The progress of a download whose length is known. Only byte counts are
/// kept: the chunks themselves go straight to the sink.
///
/// A stream that ends before the advertised length is accepted as it is:
/// no check compares the final position with the total.
pub struct Progress {
    downloaded: u64,
    total: u64,
}

impl Progress {
    /// Bytes reported so far.
    pub closed spec fn spec_downloaded(&self) -> nat {
        self.downloaded as nat
    }

    /// The length that the response advertised.
    pub closed spec fn spec_total(&self) -> nat {
        self.total as nat
    }

    /// The reported position never passes the advertised length.
    pub open spec fn wf(&self) -> bool {
        self.spec_downloaded() <= self.spec_total()
    }

    /// Bytes reported so far.
    pub fn downloaded(&self) -> (r: u64)
        ensures
            r == self.spec_downloaded(),
    {
        self.downloaded
    }

    /// The length that the response advertised.
    pub fn total(&self) -> (r: u64)
        ensures
            r == self.spec_total(),
    {
        self.total
    }

    /// Records one chunk and returns the position to report. A failed read
    /// or write ends the download with `StreamError` and leaves the
    /// progress as it was.
    pub fn on_chunk(&mut self, chunk: ChunkOutcome) -> (r: Result<u64, DownloadError>)
        requires
            old(self).wf(),
        ensures
            final(self).wf(),
            final(self).spec_total() == old(self).spec_total(),
            match chunk {
                ChunkOutcome::Written(len) => {
                    &&& final(self).spec_downloaded() == advance(
                        old(self).spec_downloaded(),
                        len as nat,
                        old(self).spec_total(),
                    )
                    &&& r == Ok::<u64, DownloadError>(final(self).spec_downloaded() as u64)
                },
                _ => {
                    &&& final(self).spec_downloaded() == old(self).spec_downloaded()
                    &&& r == Err::<u64, DownloadError>(DownloadError::StreamError)
                },
            },
    {
        match chunk {
            ChunkOutcome::Written(len) => {
                let room = self.total - self.downloaded;
                if (len as u64) <= room {
                    self.downloaded = self.downloaded + len as u64;
                } else {
                    self.downloaded = self.total;
                }
                Ok(self.downloaded)
            },
            _ => Err(DownloadError::StreamError),
        }
    }
}

/// Decides, from the response to the GET request, whether the body may be
/// streamed. `request_sent` is false when the request failed; otherwise
/// `content_length` is what the response advertised. Streaming starts at
/// position zero, and only with a known length.
pub fn start_download(request_sent: bool, content_length: Option<u64>) -> (r: Result<
    Progress,
    DownloadError,
>)
    ensures
        !request_sent ==> r == Err::<Progress, DownloadError>(DownloadError::RequestFailed),
        request_sent && content_length is None ==> r == Err::<Progress, DownloadError>(
            DownloadError::MissingLength,
        ),
        request_sent && content_length is Some ==> (r matches Ok(p) && p.wf()
            && p.spec_downloaded() == 0 && p.spec_total() == content_length->0 as nat),
{
    if !request_sent {
        return Err(DownloadError::RequestFailed);
    }
    match content_length {
        None => Err(DownloadError::MissingLength),
        Some(total) => Ok(Progress { downloaded: 0, total }),
    }
}

/// Reported positions never go back and never pass the advertised length,
/// whatever the lengths of the chunks, a last chunk that overshoots
/// included.
pub proof fn lemma_reported_monotone(downloaded: nat, total: nat, lens: Seq<nat>)
    requires
        downloaded <= total,
    ensures
        reported(downloaded, total, lens).len() == lens.len(),
        forall|i: int|
            0 <= i < lens.len() ==> downloaded <= #[trigger] reported(downloaded, total, lens)[i]
                <= total,
        forall|i: int, j: int|
            0 <= i <= j < lens.len() ==> #[trigger] reported(downloaded, total, lens)[i]
                <= #[trigger] reported(downloaded, total, lens)[j],
    decreases lens.len(),
{
    if lens.len() > 0 {
        let next = advance(downloaded, lens[0], total);
        let rest = lens.drop_first();
        lemma_reported_monotone(next, total, rest);
        let r = reported(downloaded, total, lens);
        assert(r == seq![next] + reported(next, total, rest));
        assert forall|i: int| 0 < i < lens.len() implies r[i] == reported(next, total, rest)[i
            - 1] by {}
    }
}

} // verus!
