//! The artifact store: canonical cache paths for base images and the
//! resumable acquisition state machine.
//!
//! The machine decides; the caller performs. Every network request,
//! chunk write and rename is an action the machine hands out, and the
//! caller reports each outcome back. The in-progress file carries a
//! distinct suffix, and the single publication point is the rename to
//! the canonical name after a clean end of stream, so no reader ever
//! sees a half-written image under the canonical name.

use crate::strutil::spec_trim_trailing_slashes;
use crate::strutil::trim_trailing_slashes;
use crate::vm::DistroInfo;
use vstd::prelude::*;

verus! {

/// The position of the last occurrence of `c`, or `-1` when there is
/// none.
pub open spec fn spec_rfind_char(s: Seq<char>, c: char) -> int
    decreases s.len(),
{
    if s.len() == 0 {
        -1
    } else if s.last() == c {
        s.len() - 1
    } else {
        spec_rfind_char(s.drop_last(), c)
    }
}

/// The in-progress name of a download target: the final extension
/// replaced by `part`, or `.part` appended when there is no extension.
pub open spec fn spec_part_path(s: Seq<char>) -> Seq<char> {
    let d = spec_rfind_char(s, '.');
    if d >= 0 {
        s.subrange(0, d + 1) + "part"@
    } else {
        s + ".part"@
    }
}

/// The in-progress name for a download target.
pub fn part_path_of(path: &str) -> (r: String)
    ensures
        r@ == spec_part_path(path@),
{
    let ghost s = path@;
    let n = path.unicode_len();
    let mut k: usize = n;
    proof {
        assert(s.subrange(0, n as int) =~= s);
    }
    while k > 0 && path.get_char(k - 1) != '.'
        invariant
            k <= n,
            n == s.len(),
            path@ == s,
            spec_rfind_char(s, '.') == spec_rfind_char(s.subrange(0, k as int), '.'),
        decreases k,
    {
        proof {
            let t = s.subrange(0, k as int);
            assert(t.last() == s[k - 1]);
            assert(t.drop_last() =~= s.subrange(0, k - 1));
        }
        k = k - 1;
    }
    if k == 0 {
        proof {
            assert(s.subrange(0, 0) =~= Seq::<char>::empty());
            assert(spec_rfind_char(s, '.') == -1);
        }
        let r = String::from_str(path).concat(".part");
        proof {
            assert(r@ =~= s + ".part"@);
        }
        r
    } else {
        proof {
            let t = s.subrange(0, k as int);
            assert(t.last() == s[k - 1]);
            assert(spec_rfind_char(s, '.') == k - 1);
        }
        let r = String::from_str(path.substring_char(0, k)).concat("part");
        proof {
            assert(r@ =~= s.subrange(0, spec_rfind_char(s, '.') + 1) + "part"@);
        }
        r
    }
}

/// The download endpoint of a profile's base image: the source prefix,
/// stripped of trailing separators, then the image filename.
pub fn download_url(distro_info: &DistroInfo) -> (r: String)
    ensures
        r@ == spec_trim_trailing_slashes(distro_info.image_url@) + "/"@
            + distro_info.qcow_filename@,
{
    let prefix = trim_trailing_slashes(distro_info.image_url.as_str());
    let r = String::from_str(prefix).concat("/").concat(distro_info.qcow_filename.as_str());
    proof {
        assert(r@ =~= spec_trim_trailing_slashes(distro_info.image_url@) + "/"@
            + distro_info.qcow_filename@);
    }
    r
}

/// Relies on std's Path::exists: whether something exists on disk at
/// the path at this moment. The result depends on the filesystem
/// alone, so nothing is stated of it.
#[verifier::external_body]
fn path_exists(path: &str) -> bool {
    std::path::Path::new(path).exists()
}

/// Relies on std's Path::metadata: the byte length of the file at the
/// path, when it can be read. The result depends on the filesystem
/// alone, so nothing is stated of it.
#[verifier::external_body]
fn file_len(path: &str) -> Option<u64> {
    std::path::Path::new(path).metadata().ok().map(|m| m.len())
}

/// Locates base images in the shared, content-addressed cache
/// directory.
pub struct ImageManager {
    image_dir: String,
}

impl ImageManager {
    /// The cache directory this store serves.
    pub closed spec fn spec_image_dir(self) -> Seq<char> {
        self.image_dir@
    }

    /// The canonical cache path of a profile's base image.
    pub open spec fn spec_image_path(self, distro_info: DistroInfo) -> Seq<char> {
        self.spec_image_dir() + "/"@ + distro_info.qcow_filename@
    }

    /// A store over the given cache directory.
    pub fn new(image_dir: &str) -> (r: ImageManager)
        ensures
            r.spec_image_dir() == image_dir@,
    {
        ImageManager { image_dir: String::from_str(image_dir) }
    }

    /// The canonical cache path of a profile's base image, whether or
    /// not anything is there yet.
    pub fn get_image_path(&self, distro_info: &DistroInfo) -> (r: String)
        ensures
            r@ == self.spec_image_path(*distro_info),
    {
        crate::strutil::path_join(self.image_dir.as_str(), distro_info.qcow_filename.as_str())
    }

    /// The in-progress path of a profile's base image download.
    pub fn get_part_path(&self, distro_info: &DistroInfo) -> (r: String)
        ensures
            r@ == spec_part_path(self.spec_image_path(*distro_info)),
    {
        let p = self.get_image_path(distro_info);
        part_path_of(p.as_str())
    }

    /// Whether a finished image is present at the canonical cache path
    /// right now; the answer depends on the filesystem.
    pub fn image_exists(&self, distro_info: &DistroInfo) -> bool {
        let p = self.get_image_path(distro_info);
        path_exists(p.as_str())
    }

    /// The current length of the in-progress file of a profile's
    /// download, if one is there; the answer depends on the
    /// filesystem.
    pub fn part_file_len(&self, distro_info: &DistroInfo) -> Option<u64> {
        let p = self.get_part_path(distro_info);
        file_len(p.as_str())
    }
}

/// Where one acquisition stands.
#[derive(Debug, PartialEq, Eq, Structural, Clone, Copy)]
pub enum AcquirePhase {
    /// A finished image was already present; nothing is transferred.
    CacheHit,
    /// A full transfer was requested; its response is awaited.
    AwaitingFull,
    /// A byte-range continuation was requested; its response is
    /// awaited.
    AwaitingRange,
    /// Body chunks are being appended to the in-progress file.
    Streaming,
    /// The stream ended cleanly and the in-progress file was renamed
    /// to the canonical name: the sole publication point.
    Published,
    /// The transfer failed; the in-progress file is retained so a
    /// later run can resume.
    Failed,
}

/// What the caller is asked to do next.
#[derive(Debug, PartialEq, Eq, Structural, Clone, Copy)]
pub enum AcquireAction {
    /// Return the canonical path; no network access.
    UseCached,
    /// Issue a plain full request for the image.
    RequestFull,
    /// Issue a request with a byte range starting at the given offset.
    RequestRange(u64),
}

/// How the answer to a range request is to be treated.
#[derive(Debug, PartialEq, Eq, Structural, Clone, Copy)]
pub enum ResumeStep {
    /// The endpoint honored the range: append the body to the
    /// in-progress file.
    AppendBody,
    /// The endpoint did not honor the range: the stale in-progress
    /// bytes are discarded and a fresh full request is issued.
    StartOver,
}

/// One acquisition of one base image, as far as this run has come.
#[derive(Debug, Clone, Copy)]
pub struct Acquisition {
    pub phase: AcquirePhase,
    /// Bytes present in the in-progress file.
    pub written: u64,
    /// The expected final byte size, when the endpoint reported one.
    pub expected_total: Option<u64>,
    /// Network requests issued by this acquisition.
    pub requests: u64,
}

impl Acquisition {
    /// The machine never issues more than two requests: one initial,
    /// and at most one more after a refused range.
    pub open spec fn wf(self) -> bool {
        match self.phase {
            AcquirePhase::CacheHit => self.requests == 0,
            AcquirePhase::AwaitingFull => 1 <= self.requests <= 2,
            AcquirePhase::AwaitingRange => self.requests == 1,
            AcquirePhase::Streaming => self.requests <= 2,
            AcquirePhase::Published => self.requests <= 2,
            AcquirePhase::Failed => self.requests <= 2,
        }
    }
}

/// What beginning an acquisition does: a present image is a cache hit
/// with no request; a present in-progress file of `n` bytes asks for a
/// range continuation at `n`; otherwise a full transfer is requested.
pub open spec fn spec_start(cached: bool, part_len: Option<u64>) -> (Acquisition, AcquireAction) {
    if cached {
        (
            Acquisition {
                phase: AcquirePhase::CacheHit,
                written: 0,
                expected_total: None,
                requests: 0,
            },
            AcquireAction::UseCached,
        )
    } else {
        match part_len {
            Some(n) => (
                Acquisition {
                    phase: AcquirePhase::AwaitingRange,
                    written: n,
                    expected_total: None,
                    requests: 1,
                },
                AcquireAction::RequestRange(n),
            ),
            None => (
                Acquisition {
                    phase: AcquirePhase::AwaitingFull,
                    written: 0,
                    expected_total: None,
                    requests: 1,
                },
                AcquireAction::RequestFull,
            ),
        }
    }
}

/// What the answer to a full request does: a plain success starts
/// streaming from byte zero; any other status is a failure with the
/// in-progress state retained.
pub open spec fn spec_on_full_response(
    m: Acquisition,
    status: u16,
    content_length: Option<u64>,
) -> Acquisition {
    if status == 200 {
        Acquisition { phase: AcquirePhase::Streaming, expected_total: content_length, ..m }
    } else {
        Acquisition { phase: AcquirePhase::Failed, ..m }
    }
}

/// What the answer to a range request does: partial content appends
/// after the retained bytes, and the expected total becomes offset
/// plus the remaining length; any other status discards the stale
/// partial file and issues a fresh full request.
pub open spec fn spec_on_range_response(
    m: Acquisition,
    status: u16,
    content_length: Option<u64>,
) -> (Acquisition, ResumeStep) {
    if status == 206 {
        let total = match content_length {
            Some(l) => if m.written + l <= u64::MAX {
                Some((m.written + l) as u64)
            } else {
                None
            },
            None => None,
        };
        (
            Acquisition { phase: AcquirePhase::Streaming, expected_total: total, ..m },
            ResumeStep::AppendBody,
        )
    } else {
        (
            Acquisition {
                phase: AcquirePhase::AwaitingFull,
                written: 0,
                expected_total: None,
                requests: (m.requests + 1) as u64,
            },
            ResumeStep::StartOver,
        )
    }
}

/// What appending one flushed chunk does.
pub open spec fn spec_on_chunk(m: Acquisition, n: u64) -> Acquisition {
    Acquisition { written: (m.written + n) as u64, ..m }
}

/// What a clean end of stream does: the in-progress file is complete
/// and is renamed to the canonical name.
pub open spec fn spec_on_stream_end(m: Acquisition) -> Acquisition {
    Acquisition { phase: AcquirePhase::Published, ..m }
}

/// What a transfer error does: the acquisition fails and the
/// in-progress bytes stay on disk for a later resume.
pub open spec fn spec_on_transfer_error(m: Acquisition) -> Acquisition {
    Acquisition { phase: AcquirePhase::Failed, ..m }
}

impl Acquisition {
    /// Begins one acquisition from what is on disk: whether a finished
    /// image sits at the canonical path, and how many bytes an
    /// in-progress file retains.
    pub fn start(cached: bool, part_len: Option<u64>) -> (r: (Acquisition, AcquireAction))
        ensures
            r == spec_start(cached, part_len),
            r.0.wf(),
            cached ==> r.1 == AcquireAction::UseCached && r.0.requests == 0,
            !cached ==> r.0.requests == 1,
    {
        if cached {
            (
                Acquisition {
                    phase: AcquirePhase::CacheHit,
                    written: 0,
                    expected_total: None,
                    requests: 0,
                },
                AcquireAction::UseCached,
            )
        } else {
            match part_len {
                Some(n) => (
                    Acquisition {
                        phase: AcquirePhase::AwaitingRange,
                        written: n,
                        expected_total: None,
                        requests: 1,
                    },
                    AcquireAction::RequestRange(n),
                ),
                None => (
                    Acquisition {
                        phase: AcquirePhase::AwaitingFull,
                        written: 0,
                        expected_total: None,
                        requests: 1,
                    },
                    AcquireAction::RequestFull,
                ),
            }
        }
    }

    /// Takes the status of a full request's response: a plain success
    /// streams the body from byte zero, anything else fails the
    /// transfer and keeps the in-progress state for a later resume.
    pub fn on_full_response(&mut self, status: u16, content_length: Option<u64>) -> (r: Result<
        (),
        crate::error::VmError,
    >)
        requires
            old(self).phase == AcquirePhase::AwaitingFull,
            old(self).wf(),
        ensures
            *final(self) == spec_on_full_response(*old(self), status, content_length),
            final(self).wf(),
            status == 200 <==> r is Ok,
            r is Err ==> (r matches Err(e) && e matches crate::error::VmError::TransferFailure(m)
                && m@ == "unexpected status for full download"@),
    {
        if status == 200 {
            self.phase = AcquirePhase::Streaming;
            self.expected_total = content_length;
            Ok(())
        } else {
            self.phase = AcquirePhase::Failed;
            Err(
                crate::error::VmError::TransferFailure(
                    String::from_str("unexpected status for full download"),
                ),
            )
        }
    }

    /// Takes the status and length of a range request's response, and
    /// says whether the body continues the retained bytes or a fresh
    /// full request replaces them.
    pub fn on_range_response(&mut self, status: u16, content_length: Option<u64>) -> (r:
        ResumeStep)
        requires
            old(self).phase == AcquirePhase::AwaitingRange,
            old(self).wf(),
        ensures
            (*final(self), r) == spec_on_range_response(*old(self), status, content_length),
            final(self).wf(),
            status == 206 <==> r == ResumeStep::AppendBody,
            r == ResumeStep::StartOver ==> final(self).written == 0,
    {
        if status == 206 {
            let total = match content_length {
                Some(l) => if l <= u64::MAX - self.written {
                    Some(self.written + l)
                } else {
                    None
                },
                None => None,
            };
            self.phase = AcquirePhase::Streaming;
            self.expected_total = total;
            ResumeStep::AppendBody
        } else {
            self.phase = AcquirePhase::AwaitingFull;
            self.written = 0;
            self.expected_total = None;
            self.requests = self.requests + 1;
            ResumeStep::StartOver
        }
    }

    /// Records one chunk flushed to the in-progress file.
    pub fn on_chunk(&mut self, n: u64)
        requires
            old(self).phase == AcquirePhase::Streaming,
            old(self).written + n <= u64::MAX,
            old(self).wf(),
        ensures
            *final(self) == spec_on_chunk(*old(self), n),
            final(self).wf(),
            final(self).written == old(self).written + n,
    {
        self.written = self.written + n;
    }

    /// Records a clean end of stream whose byte count matches what
    /// the endpoint promised, when it promised one: only then does the
    /// caller rename the in-progress file to the canonical name, the
    /// sole publication point. A short stream is a transfer error,
    /// never published.
    pub fn on_stream_end(&mut self)
        requires
            old(self).phase == AcquirePhase::Streaming,
            old(self).wf(),
            match old(self).expected_total {
                Some(t) => old(self).written == t,
                None => true,
            },
        ensures
            *final(self) == spec_on_stream_end(*old(self)),
            final(self).wf(),
            final(self).phase == AcquirePhase::Published,
            final(self).written == old(self).written,
    {
        self.phase = AcquirePhase::Published;
    }

    /// Records a transfer error: the in-progress file is left
    /// byte-for-byte as flushed, so a later run can resume it.
    pub fn on_transfer_error(&mut self)
        requires
            old(self).phase == AcquirePhase::AwaitingFull || old(self).phase
                == AcquirePhase::AwaitingRange || old(self).phase == AcquirePhase::Streaming,
            old(self).wf(),
        ensures
            *final(self) == spec_on_transfer_error(*old(self)),
            final(self).wf(),
            final(self).written == old(self).written,
    {
        self.phase = AcquirePhase::Failed;
    }
}

/// The machine after a whole sequence of flushed chunks.
pub open spec fn spec_stream_chunks(m: Acquisition, chunks: Seq<u64>) -> Acquisition
    decreases chunks.len(),
{
    if chunks.len() == 0 {
        m
    } else {
        spec_stream_chunks(spec_on_chunk(m, chunks[0]), chunks.drop_first())
    }
}

/// The byte count of a sequence of chunks.
pub open spec fn spec_sum(chunks: Seq<u64>) -> int
    decreases chunks.len(),
{
    if chunks.len() == 0 {
        0
    } else {
        chunks[0] + spec_sum(chunks.drop_first())
    }
}

/// Chunk sums are non-negative.
proof fn lemma_sum_nonneg(chunks: Seq<u64>)
    ensures
        spec_sum(chunks) >= 0,
    decreases chunks.len(),
{
    if chunks.len() > 0 {
        lemma_sum_nonneg(chunks.drop_first());
    }
}

/// Streaming chunks adds exactly their byte count to the in-progress
/// file and changes nothing else.
proof fn lemma_stream_chunks_written(m: Acquisition, chunks: Seq<u64>)
    requires
        m.written + spec_sum(chunks) <= u64::MAX,
    ensures
        spec_stream_chunks(m, chunks).written == m.written + spec_sum(chunks),
        spec_stream_chunks(m, chunks).phase == m.phase,
        spec_stream_chunks(m, chunks).expected_total == m.expected_total,
        spec_stream_chunks(m, chunks).requests == m.requests,
    decreases chunks.len(),
{
    if chunks.len() > 0 {
        lemma_sum_nonneg(chunks.drop_first());
        lemma_stream_chunks_written(spec_on_chunk(m, chunks[0]), chunks.drop_first());
    }
}

/// The on-disk cache state of one artifact, as acquisitions probe it:
/// whether a finished image sits at the canonical path, and how many
/// bytes an in-progress file retains.
pub struct StoreState {
    pub cached: bool,
    pub part_len: Option<u64>,
}

/// What the publishing rename leaves behind: the finished image at
/// the canonical path, and no in-progress file.
pub open spec fn spec_publish(s: StoreState) -> StoreState {
    StoreState { cached: true, part_len: None }
}

/// Law: once an acquisition has published the image under its
/// canonical name, the next acquisition of the same profile finds it
/// there and is a cache hit: it issues no network request at all. Two
/// acquisitions in sequence therefore perform at most one transfer —
/// whatever cache state the first one started from.
pub proof fn lemma_second_acquisition_is_cache_hit(s: StoreState)
    ensures
        ({
            let after = spec_publish(s);
            let (m, action) = spec_start(after.cached, after.part_len);
            &&& action == AcquireAction::UseCached
            &&& m.requests == 0
            &&& m.phase == AcquirePhase::CacheHit
        }),
{
}

/// Law: resuming an interrupted transfer of `n` bytes against an
/// endpoint that honors ranges transfers only the remaining bytes:
/// after the range request at offset `n`, a partial-content answer
/// carrying the remaining `total - n` bytes, and the streaming of
/// exactly those bytes, the in-progress file holds `total` bytes — the
/// endpoint-reported total — and is published at that size.
pub proof fn lemma_resume_transfers_only_remainder(n: u64, total: u64, chunks: Seq<u64>)
    requires
        n <= total,
        spec_sum(chunks) == total - n,
    ensures
        ({
            let (m0, action) = spec_start(false, Some(n));
            let (m1, step) = spec_on_range_response(m0, 206, Some((total - n) as u64));
            let m2 = spec_on_stream_end(spec_stream_chunks(m1, chunks));
            &&& action == AcquireAction::RequestRange(n)
            &&& step == ResumeStep::AppendBody
            &&& m1.expected_total == Some(total)
            &&& m2.written == total
            &&& m2.expected_total == Some(total)
            &&& m2.phase == AcquirePhase::Published
            &&& m2.requests == 1
        }),
{
    let (m0, action) = spec_start(false, Some(n));
    let (m1, step) = spec_on_range_response(m0, 206, Some((total - n) as u64));
    lemma_stream_chunks_written(m1, chunks);
}

/// Law: when the endpoint does not honor ranges on a resume, the stale
/// in-progress bytes are discarded before anything else happens: the
/// retained count drops to zero and a fresh full request is issued, so
/// the transfer restarts from byte zero.
pub proof fn lemma_fallback_restarts_from_zero(n: u64, status: u16, content_length: Option<u64>)
    requires
        status != 206,
    ensures
        ({
            let (m0, action) = spec_start(false, Some(n));
            let (m1, step) = spec_on_range_response(m0, status, content_length);
            &&& step == ResumeStep::StartOver
            &&& m1.written == 0
            &&& m1.phase == AcquirePhase::AwaitingFull
            &&& m1.requests == 2
        }),
{
}

/// The bytes the canonical file holds after a finished acquisition: a
/// honored range appends the remote remainder after the retained
/// prefix; a refused range yields the remote content afresh.
pub open spec fn spec_final_bytes(part: Seq<u8>, remote: Seq<u8>, ranges_honored: bool) -> Seq<
    u8,
> {
    if ranges_honored {
        part + remote.skip(part.len() as int)
    } else {
        remote
    }
}

/// Law: because the in-progress file is always a prefix of the remote
/// content, the published bytes equal the remote content whole in both
/// resume outcomes — an appended continuation is complete, and a
/// fallback is a fresh full copy, never a corrupt concatenation.
pub proof fn lemma_published_bytes_are_remote(part: Seq<u8>, remote: Seq<u8>, ranges_honored: bool)
    requires
        part.len() <= remote.len(),
        part == remote.take(part.len() as int),
    ensures
        spec_final_bytes(part, remote, ranges_honored) == remote,
{
    assert(spec_final_bytes(part, remote, true) =~= remote);
}

} // verus!
