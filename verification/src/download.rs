//! Progress of the download of an update.
use vstd::prelude::*;

verus! {

/// How far the download has come, as the frontend is told after every chunk.
#[derive(Debug, Clone, Copy, PartialEq, Eq, Structural)]
pub struct UpdateDownloadProgress {
    /// Bytes received so far.
    pub downloaded: u64,
    /// Bytes to receive in all, where the server says so.
    pub total: Option<u64>,
}

/// A number of bytes as the counter shows it: it stops at its largest value.
pub open spec fn counter(bytes: nat) -> u64 {
    if bytes > u64::MAX {
        u64::MAX
    } else {
        bytes as u64
    }
}

/// The number of bytes in all the chunks.
pub open spec fn total_bytes(chunks: Seq<usize>) -> nat
    decreases chunks.len(),
{
    if chunks.len() == 0 {
        0
    } else {
        total_bytes(chunks.drop_last()) + chunks.last() as nat
    }
}

/// The counter after all the chunks, one after the other.
pub open spec fn downloaded_after(downloaded: u64, chunks: Seq<usize>) -> u64
    decreases chunks.len(),
{
    if chunks.len() == 0 {
        downloaded
    } else {
        counter(downloaded_after(downloaded, chunks.drop_last()) as nat + chunks.last() as nat)
    }
}

impl UpdateDownloadProgress {
    /// The progress before the first chunk.
    pub fn start() -> (progress: Self)
        ensures
            progress.downloaded == 0,
            progress.total is None,
    {
        UpdateDownloadProgress { downloaded: 0, total: None }
    }

    /// Takes in one more chunk, together with the total that the server announces by now.
    pub fn advance(&mut self, chunk_len: usize, content_len: Option<u64>)
        ensures
            final(self).downloaded == counter(old(self).downloaded as nat + chunk_len as nat),
            old(self).downloaded + chunk_len <= u64::MAX ==> final(self).downloaded == old(
                self,
            ).downloaded + chunk_len,
            old(self).downloaded + chunk_len > u64::MAX ==> final(self).downloaded == u64::MAX,
            final(self).total == content_len,
    {
        self.downloaded = self.downloaded.saturating_add(chunk_len as u64);
        self.total = content_len;
    }
}

/// The counter shows the sum of the chunks, up to its largest value, however the download was
/// cut into chunks.
pub proof fn law_counter_shows_the_sum(downloaded: u64, chunks: Seq<usize>)
    ensures
        downloaded_after(downloaded, chunks) == counter(downloaded as nat + total_bytes(chunks)),
    decreases chunks.len(),
{
    if chunks.len() > 0 {
        law_counter_shows_the_sum(downloaded, chunks.drop_last());
    }
}

/// The counter never goes back.
pub proof fn law_counter_never_goes_back(downloaded: u64, chunks: Seq<usize>, earlier: nat)
    requires
        earlier <= chunks.len(),
    ensures
        downloaded_after(downloaded, chunks.take(earlier as int)) <= downloaded_after(
            downloaded,
            chunks,
        ),
    decreases chunks.len(),
{
    if earlier == chunks.len() {
        assert(chunks.take(earlier as int) =~= chunks);
    } else {
        law_counter_never_goes_back(downloaded, chunks.drop_last(), earlier);
        assert(chunks.drop_last().take(earlier as int) =~= chunks.take(earlier as int));
    }
}

} // verus!
