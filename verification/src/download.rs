//! Naming and counting of one streamed download: the file a URL is staged
//! under, and the record of how much of it has arrived.

use vstd::prelude::*;
use vstd::string::*;
use crate::error::{Error, ErrorView};
use crate::text::text_view;

verus! {

/// The directory that downloads are staged in.
pub const STAGING_DIR: &'static str = "/tmp/";

/// The file name used where the URL offers none.
pub const FALLBACK_FILE_NAME: &'static str = "tmp.bin";

/// The path of `url` as the `url` crate reads it, or `None` where the text
/// does not parse as a URL.
pub uninterp spec fn url_path(url: Seq<char>) -> Option<Seq<char>>;

/// Calls `reqwest::Url::parse` on the text and `Url::path` on the result.
/// Believed, not proved: the outcome is the one that `url_path` names for
/// this text.
#[verifier::external_body]
fn parsed_path(url: &str) -> (path: Option<String>)
    ensures
        text_view(path) == url_path(url@),
{
    match reqwest::Url::parse(url) {
        Ok(parsed) => Some(String::from(parsed.path())),
        Err(_) => None,
    }
}

/// The position just behind the last `/` of `text`, or 0 where it has none.
pub open spec fn after_last_slash(text: Seq<char>) -> int
    decreases text.len(),
{
    if text.len() == 0 {
        0
    } else if text.last() == '/' {
        text.len() as int
    } else {
        after_last_slash(text.drop_last())
    }
}

/// The last segment of a URL path: a path that does not start with `/` has
/// no segments; else it is what stands behind the last `/`, which may be empty.
pub open spec fn final_segment_of(path: Seq<char>) -> Option<Seq<char>> {
    if path.len() > 0 && path[0] == '/' {
        Some(path.subrange(after_last_slash(path), path.len() as int))
    } else {
        None
    }
}

/// The last path segment of `url`: `None` where the text does not parse as a
/// URL or its path has no segments.
pub open spec fn url_final_segment(url: Seq<char>) -> Option<Seq<char>> {
    match url_path(url) {
        Some(path) => final_segment_of(path),
        None => None,
    }
}

/// What `after_last_slash` finds is a position of the text with no `/` from
/// there on and, unless it is the start, a `/` just before.
pub proof fn lemma_after_last_slash(text: Seq<char>)
    ensures
        0 <= after_last_slash(text) <= text.len(),
        forall|j: int| after_last_slash(text) <= j < text.len() ==> text[j] != '/',
        after_last_slash(text) > 0 ==> text[after_last_slash(text) - 1] == '/',
    decreases text.len(),
{
    if text.len() > 0 && text.last() != '/' {
        let front = text.drop_last();
        lemma_after_last_slash(front);
        assert forall|j: int| after_last_slash(text) <= j < text.len() implies text[j]
            != '/' by {
            if j < front.len() {
                assert(front[j] == text[j]);
            }
        }
        if after_last_slash(text) > 0 {
            assert(front[after_last_slash(text) - 1] == text[after_last_slash(text) - 1]);
        }
    }
}

/// A position with no `/` from there on and, unless it is the start, a `/`
/// just before is the one that `after_last_slash` finds.
pub proof fn lemma_after_last_slash_is_unique(text: Seq<char>, at: int)
    requires
        0 <= at <= text.len(),
        forall|j: int| at <= j < text.len() ==> text[j] != '/',
        at > 0 ==> text[at - 1] == '/',
    ensures
        after_last_slash(text) == at,
{
    lemma_after_last_slash(text);
    let found = after_last_slash(text);
    if at < found {
        assert(text[found - 1] == '/');
    } else if found < at {
        assert(text[at - 1] == '/');
    }
}

/// A path segment holds no `/`.
pub proof fn lemma_segment_is_a_plain_name(path: Seq<char>)
    ensures
        final_segment_of(path) matches Some(segment) ==> !segment.contains('/'),
{
    lemma_after_last_slash(path);
    if final_segment_of(path) is Some {
        let start = after_last_slash(path);
        let segment = path.subrange(start, path.len() as int);
        assert forall|i: int| 0 <= i < segment.len() implies segment[i] != '/' by {
            assert(segment[i] == path[start + i]);
        }
    }
}

/// Whether the character at position `at` of `text` is `/`.
fn is_slash_at(text: &str, at: usize, ascii: bool) -> (slash: bool)
    requires
        at < text@.len(),
        ascii ==> text.is_ascii(),
    ensures
        slash == (text@[at as int] == '/'),
{
    if ascii {
        text.get_ascii(at) == 47u8
    } else {
        text.get_char(at) == '/'
    }
}

/// The last segment of the URL path `path`.
pub fn final_segment(path: &str) -> (segment: Option<String>)
    ensures
        text_view(segment) == final_segment_of(path@),
{
    let len = path.unicode_len();
    if len == 0 {
        return None;
    }
    let ascii = path.is_ascii();
    if !is_slash_at(path, 0, ascii) {
        return None;
    }
    let mut start: usize = len;
    let mut found = false;
    while start > 0 && !found
        invariant
            start <= len,
            len == path@.len(),
            ascii ==> path.is_ascii(),
            forall|j: int| start <= j < len ==> path@[j] != '/',
            found ==> start > 0 && path@[start - 1] == '/',
        decreases start + (if found { 0int } else { 1int }),
    {
        if is_slash_at(path, start - 1, ascii) {
            found = true;
        } else {
            start = start - 1;
        }
    }
    proof {
        lemma_after_last_slash_is_unique(path@, start as int);
    }
    Some(path.substring_char(start, len).to_owned())
}

/// The last path segment of `url`.
fn segment_of_url(url: &str) -> (segment: Option<String>)
    ensures
        text_view(segment) == url_final_segment(url@),
{
    match parsed_path(url) {
        Some(path) => final_segment(path.as_str()),
        None => None,
    }
}

/// The file name that a last path segment gives: the segment itself, or the
/// fallback where there is none or it is empty.
pub open spec fn file_name_of(segment: Option<Seq<char>>) -> Seq<char> {
    match segment {
        Some(name) => if name.len() > 0 {
            name
        } else {
            FALLBACK_FILE_NAME@
        },
        None => FALLBACK_FILE_NAME@,
    }
}

/// The path a file of the given name is staged at.
pub open spec fn staged_at(file_name: Seq<char>) -> Seq<char> {
    STAGING_DIR@ + file_name
}

/// The file name for a download whose URL ends in `segment`.
pub fn file_name_from_segment(segment: Option<String>) -> (name: String)
    ensures
        name@ == file_name_of(text_view(segment)),
{
    match segment {
        Some(text) => {
            if text.as_str().is_empty() {
                String::from_str(FALLBACK_FILE_NAME)
            } else {
                text
            }
        },
        None => String::from_str(FALLBACK_FILE_NAME),
    }
}

/// The file name for a download from `url`: its last path segment, or the
/// fallback where the URL has no usable one (it ends in `/`, say). Either way
/// it is a plain name, so the staged file lies in the staging directory itself.
pub fn staged_file_name(url: &str) -> (name: String)
    ensures
        name@ == file_name_of(url_final_segment(url@)),
        name@.len() > 0,
        !name@.contains('/'),
{
    let segment = segment_of_url(url);
    proof {
        lemma_fallback_is_a_plain_name();
        if url_path(url@) is Some {
            lemma_segment_is_a_plain_name(url_path(url@)->Some_0);
        }
    }
    file_name_from_segment(segment)
}

/// The fallback file name is not empty and holds no `/`.
pub proof fn lemma_fallback_is_a_plain_name()
    ensures
        FALLBACK_FILE_NAME@.len() > 0,
        !FALLBACK_FILE_NAME@.contains('/'),
{
    reveal_strlit("tmp.bin");
    let name = FALLBACK_FILE_NAME@;
    assert(name.len() == 7);
    assert forall|i: int| 0 <= i < name.len() implies name[i] != '/' by {
        assert(name[0] == 't' && name[1] == 'm' && name[2] == 'p' && name[3] == '.' && name[4]
            == 'b' && name[5] == 'i' && name[6] == 'n');
    }
}

/// The path under the staging directory for a file of the given name.
pub fn staging_path(file_name: &str) -> (path: String)
    ensures
        path@ == staged_at(file_name@),
{
    String::from_str(STAGING_DIR).concat(file_name)
}

/// The record of one download: where it comes from, where it is written, how
/// long the server said it is, and how much has been written so far.
#[derive(Debug, Clone, PartialEq, Eq)]
pub struct DownloadStaging {
    pub source_url: String,
    pub local_staging_path: String,
    pub total_bytes: u64,
    pub bytes_transferred: u64,
}

/// A [`DownloadStaging`] over texts and unbounded numbers.
pub ghost struct DownloadStagingView {
    pub source_url: Seq<char>,
    pub local_staging_path: Seq<char>,
    pub total_bytes: nat,
    pub bytes_transferred: nat,
}

impl View for DownloadStaging {
    type V = DownloadStagingView;

    open spec fn view(&self) -> DownloadStagingView {
        DownloadStagingView {
            source_url: self.source_url@,
            local_staging_path: self.local_staging_path@,
            total_bytes: self.total_bytes as nat,
            bytes_transferred: self.bytes_transferred as nat,
        }
    }
}

/// The sum of a run of chunk lengths.
pub open spec fn chunk_total(chunks: Seq<nat>) -> nat
    decreases chunks.len(),
{
    if chunks.len() == 0 {
        0
    } else {
        chunk_total(chunks.drop_last()) + chunks.last()
    }
}

impl DownloadStagingView {
    /// The record at the start of a download.
    pub open spec fn started(
        source_url: Seq<char>,
        segment: Option<Seq<char>>,
        total_bytes: nat,
    ) -> DownloadStagingView {
        DownloadStagingView {
            source_url,
            local_staging_path: staged_at(file_name_of(segment)),
            total_bytes,
            bytes_transferred: 0,
        }
    }

    /// The record after one more chunk of `len` bytes.
    pub open spec fn record(self, len: nat) -> DownloadStagingView {
        DownloadStagingView { bytes_transferred: self.bytes_transferred + len, ..self }
    }

    /// The record after the chunks of the given lengths, in order.
    pub open spec fn record_all(self, chunks: Seq<nat>) -> DownloadStagingView
        decreases chunks.len(),
    {
        if chunks.len() == 0 {
            self
        } else {
            self.record_all(chunks.drop_last()).record(chunks.last())
        }
    }

    /// Whether as many bytes arrived as the server announced.
    pub open spec fn is_complete(self) -> bool {
        self.bytes_transferred == self.total_bytes
    }
}

/// What starting a download gives: without an announced length it is refused,
/// else the record starts at zero bytes.
pub open spec fn start_outcome(
    source_url: Seq<char>,
    segment: Option<Seq<char>>,
    content_length: Option<u64>,
) -> Result<DownloadStagingView, ErrorView> {
    match content_length {
        Some(total) => Ok(DownloadStagingView::started(source_url, segment, total as nat)),
        None => Err(ErrorView::MissingContentLength),
    }
}

/// The view of a start's outcome.
pub open spec fn staging_outcome_view(outcome: Result<DownloadStaging, Error>) -> Result<
    DownloadStagingView,
    ErrorView,
> {
    match outcome {
        Ok(staging) => Ok(staging@),
        Err(error) => Err(error@),
    }
}

impl DownloadStaging {
    /// Starts the record of a download of `source_url` whose response came
    /// from a URL ending in `segment` and announced `content_length` bytes.
    /// A response without a length is refused: progress is shown against the
    /// total, so there is no download without one.
    pub fn begin_with_segment(
        source_url: &str,
        segment: Option<String>,
        content_length: Option<u64>,
    ) -> (outcome: Result<DownloadStaging, Error>)
        ensures
            staging_outcome_view(outcome) == start_outcome(
                source_url@,
                text_view(segment),
                content_length,
            ),
    {
        match content_length {
            None => Err(Error::MissingContentLength),
            Some(total) => {
                let name = file_name_from_segment(segment);
                Ok(
                    DownloadStaging {
                        source_url: String::from_str(source_url),
                        local_staging_path: staging_path(name.as_str()),
                        total_bytes: total,
                        bytes_transferred: 0,
                    },
                )
            },
        }
    }

    /// Starts the record of a download of `source_url` whose response came
    /// from `response_url` and announced `content_length` bytes.
    pub fn begin(source_url: &str, response_url: &str, content_length: Option<u64>) -> (outcome:
        Result<DownloadStaging, Error>)
        ensures
            staging_outcome_view(outcome) == start_outcome(
                source_url@,
                url_final_segment(response_url@),
                content_length,
            ),
    {
        DownloadStaging::begin_with_segment(
            source_url,
            segment_of_url(response_url),
            content_length,
        )
    }

    /// Counts a chunk of `len` bytes that was written to the staged file.
    pub fn record_chunk(&mut self, len: usize)
        requires
            old(self).bytes_transferred + len <= u64::MAX,
        ensures
            final(self)@ == old(self)@.record(len as nat),
    {
        self.bytes_transferred = self.bytes_transferred + len as u64;
    }

    /// What the progress display is told: bytes so far, and the total.
    pub fn progress(&self) -> (report: (u64, u64))
        ensures
            report == (self.bytes_transferred, self.total_bytes),
    {
        (self.bytes_transferred, self.total_bytes)
    }

    /// Whether as many bytes arrived as the server announced.
    pub fn is_complete(&self) -> (complete: bool)
        ensures
            complete == self@.is_complete(),
    {
        self.bytes_transferred == self.total_bytes
    }

    /// Ends the record and hands out the path of the staged file.
    pub fn finish(self) -> (path: String)
        ensures
            path@ == self@.local_staging_path,
    {
        self.local_staging_path
    }
}

/// However the body is cut into chunks, the count after the last chunk is the
/// count at the start plus the sum of the chunk lengths, and nothing else in
/// the record changes.
pub proof fn lemma_transferred_is_sum_of_chunks(start: DownloadStagingView, chunks: Seq<nat>)
    ensures
        start.record_all(chunks).bytes_transferred == start.bytes_transferred + chunk_total(
            chunks,
        ),
        start.record_all(chunks).total_bytes == start.total_bytes,
        start.record_all(chunks).source_url == start.source_url,
        start.record_all(chunks).local_staging_path == start.local_staging_path,
    decreases chunks.len(),
{
    if chunks.len() > 0 {
        lemma_transferred_is_sum_of_chunks(start, chunks.drop_last());
    }
}

/// A download whose chunks add up to the announced length is complete when
/// the last one has been counted.
pub proof fn lemma_full_body_completes(
    source_url: Seq<char>,
    segment: Option<Seq<char>>,
    total_bytes: nat,
    chunks: Seq<nat>,
)
    requires
        chunk_total(chunks) == total_bytes,
    ensures
        DownloadStagingView::started(source_url, segment, total_bytes).record_all(
            chunks,
        ).is_complete(),
{
    lemma_transferred_is_sum_of_chunks(
        DownloadStagingView::started(source_url, segment, total_bytes),
        chunks,
    );
}

} // verus!
