//! The chunked upload engine: a large file goes up as numbered parts, each
//! with the digest of its bytes, and is assembled from the list of digests.

use vstd::prelude::*;
use crate::api::UploadTarget;
use crate::error::Error;
use crate::hasher::{sha1_hex, sha1_hex_digest, HASHABLE_LIMIT};
use crate::media::{chosen_content_type, content_type_for, guessed_media_type, text_of};
use crate::plan::{planned_chunk_count, planned_chunk_size, lemma_chunks_fit, UploadPlan};

verus! {

/// Where a chunked upload stands. Each phase is named after the exchange that
/// is under way.
#[derive(Clone, Copy, Debug, PartialEq, Eq, Structural)]
pub enum Phase {
    /// The large-file session is being opened.
    Started,
    /// The upload URL for the parts is being obtained.
    PartUrlLeased,
    /// Chunks are being read and submitted.
    UploadingParts,
    /// The list of part hashes is being submitted.
    Finalizing,
    Done,
    Failed,
}

/// One submitted part: its 1-based number, the byte range read for it and the
/// digest of those bytes.
#[derive(Debug)]
pub struct PartDescriptor {
    pub part_number: u64,
    pub offset: u64,
    pub length: u64,
    pub content_sha1: String,
}

/// What the caller has to do next for a chunked upload.
#[derive(Debug)]
pub enum UploadAction {
    /// Open a large-file session.
    StartLargeFile { bucket_id: String, file_name: String, content_type: String },
    /// Ask where to send the parts of the session.
    GetUploadPartUrl { file_id: String },
    /// Read up to `length` bytes of the file at `offset`.
    ReadChunk { offset: u64, length: u64 },
    /// Send the bytes just read as the part with the given number.
    UploadPart {
        upload_url: String,
        authorization: String,
        part_number: u64,
        content_length: u64,
        content_sha1: String,
    },
    /// Close the session with the digests of its parts, in part order.
    FinishLargeFile { file_id: String, part_sha1_array: Vec<String> },
    /// Nothing: the upload is complete.
    Finished,
    /// Give up with this error. Parts already accepted stay with the service.
    Abort(Error),
}

/// What happened to a chunked upload since its last action.
#[derive(Debug)]
pub enum UploadEvent {
    /// The large-file session is open under this identifier.
    Started { file_id: String },
    /// The upload URL for the parts is leased. The part size is the one that
    /// the session recommends at this moment.
    PartUrlLeased { target: UploadTarget, recommended_part_size: u64 },
    /// The read that was asked for found these bytes.
    ChunkRead { bytes: Vec<u8> },
    /// The service accepted the part.
    PartAccepted,
    /// The service assembled the file.
    Finished,
    /// A request or a read failed.
    Failed(Error),
}

/// The number of bytes in a sequence of chunks.
pub open spec fn total_bytes(chunks: Seq<Seq<u8>>) -> nat
    decreases chunks.len(),
{
    if chunks.len() == 0 {
        0
    } else {
        total_bytes(chunks.drop_last()) + chunks.last().len()
    }
}

/// The state of one chunked upload.
pub struct ChunkedUpload {
    pub phase: Phase,
    pub bucket_id: String,
    pub file_name: String,
    pub content_type: String,
    pub total_length: u64,
    /// The identifier of the session, once it is open.
    pub file_id: String,
    /// Where the parts go, once the URL is leased.
    pub target: UploadTarget,
    /// The chunk plan, once the URL is leased.
    pub plan: UploadPlan,
    /// How many parts the service has accepted.
    pub accepted: u64,
    /// A part has been handed out and not yet been accepted.
    pub submitting: bool,
    /// The parts handed out so far, in order.
    pub parts: Vec<PartDescriptor>,
    /// The bytes of the accepted parts, counted for progress reports.
    pub uploaded: u128,
    /// The content of each part handed out so far.
    pub chunks: Ghost<Seq<Seq<u8>>>,
}

impl ChunkedUpload {
    /// Part `i` is numbered `i + 1`, starts where chunk `i` starts, and
    /// carries the length and digest of the bytes read for it.
    pub open spec fn part_matches(&self, i: int) -> bool {
        &&& self.parts@[i].part_number == i + 1
        &&& self.parts@[i].offset == self.plan.chunk_size * i
        &&& self.parts@[i].length == self.chunks@[i].len()
        &&& self.parts@[i].content_sha1@ == sha1_hex_digest(self.chunks@[i])
    }

    /// One part is recorded for each chunk handed over, every part matches
    /// its chunk, the byte count is that of the accepted parts, and the
    /// counters agree with the phase.
    pub open spec fn wf(&self) -> bool {
        &&& self.parts@.len() == self.chunks@.len()
        &&& self.parts@.len() == self.accepted + if self.submitting { 1int } else { 0int }
        &&& forall|i: int| 0 <= i < self.parts@.len() ==> #[trigger] self.part_matches(i)
        &&& self.uploaded == total_bytes(self.chunks@.take(self.accepted as int))
        &&& self.uploaded <= self.accepted * u64::MAX
        &&& match self.phase {
            Phase::Started | Phase::PartUrlLeased => self.accepted == 0 && !self.submitting,
            Phase::UploadingParts => self.planned() && self.accepted <= self.plan.chunk_count,
            Phase::Finalizing | Phase::Done => self.planned() && !self.submitting
                && self.accepted == self.plan.chunk_count + 1,
            Phase::Failed => true,
        }
    }

    /// The plan is in place and leaves room for the part numbers.
    pub open spec fn planned(&self) -> bool {
        &&& self.plan.wf()
        &&& self.plan.total_length == self.total_length
        &&& self.plan.chunk_count < u64::MAX
    }

    /// The request, the session and the parts handed out are those of `other`.
    pub open spec fn same_session(&self, other: &ChunkedUpload) -> bool {
        &&& self.bucket_id == other.bucket_id
        &&& self.file_name == other.file_name
        &&& self.content_type == other.content_type
        &&& self.total_length == other.total_length
        &&& self.file_id == other.file_id
        &&& self.target == other.target
        &&& self.plan == other.plan
    }

    /// Parts that match their chunks keep doing so while parts, chunks and
    /// plan stay the same.
    proof fn lemma_parts_carry_over(&self, other: &ChunkedUpload)
        requires
            self.parts == other.parts,
            self.chunks == other.chunks,
            self.plan == other.plan,
            forall|i: int| 0 <= i < self.parts@.len() ==> #[trigger] self.part_matches(i),
        ensures
            forall|i: int| 0 <= i < other.parts@.len() ==> #[trigger] other.part_matches(i),
    {
        assert forall|i: int| 0 <= i < other.parts@.len() implies #[trigger] other.part_matches(
            i,
        ) by {
            assert(self.part_matches(i));
        }
    }

    /// The upload has just begun for the given request, and the action asks
    /// to open its session.
    pub open spec fn begun(
        &self,
        action: UploadAction,
        bucket_id: Seq<char>,
        len: u64,
        dest: Seq<char>,
        content_type: Option<Seq<char>>,
    ) -> bool {
        &&& self.wf()
        &&& self.phase == Phase::Started
        &&& self.bucket_id@ == bucket_id
        &&& self.file_name@ == dest
        &&& self.content_type@ == chosen_content_type(content_type, guessed_media_type(dest))
        &&& self.total_length == len
        &&& self.parts@.len() == 0
        &&& self.uploaded == 0
        &&& action matches UploadAction::StartLargeFile { bucket_id: b, file_name: f, content_type: c }
        &&& b@ == bucket_id
        &&& f@ == dest
        &&& c@ == self.content_type@
    }

    /// The digests of the parts handed out, in part order.
    pub open spec fn digests(&self) -> Seq<Seq<char>> {
        Seq::new(self.chunks@.len(), |i: int| sha1_hex_digest(self.chunks@[i]))
    }

    /// The step from `pre` on the news that the session is open.
    pub open spec fn follows_started(
        &self,
        pre: &ChunkedUpload,
        file_id: String,
        action: UploadAction,
    ) -> bool {
        &&& self.wf()
        &&& self.phase == Phase::PartUrlLeased
        &&& self.file_id == file_id
        &&& self.bucket_id == pre.bucket_id
        &&& self.file_name == pre.file_name
        &&& self.content_type == pre.content_type
        &&& self.total_length == pre.total_length
        &&& self.target == pre.target
        &&& self.plan == pre.plan
        &&& self.parts == pre.parts
        &&& self.chunks == pre.chunks
        &&& self.accepted == 0
        &&& self.uploaded == pre.uploaded
        &&& !self.submitting
        &&& action matches UploadAction::GetUploadPartUrl { file_id: asked }
        &&& asked@ == file_id@
    }

    /// The session is opened: remember its identifier and ask where the parts
    /// go.
    pub fn on_started(&mut self, file_id: String) -> (action: UploadAction)
        requires
            old(self).wf(),
            old(self).phase == Phase::Started,
        ensures
            final(self).follows_started(old(self), file_id, action),
    {
        let asked = file_id.clone();
        self.file_id = file_id;
        self.phase = Phase::PartUrlLeased;
        UploadAction::GetUploadPartUrl { file_id: asked }
    }

    /// The part size can be planned with: it is not zero, and it leaves room
    /// for the part numbers.
    pub open spec fn can_plan(&self, recommended_part_size: u64) -> bool {
        &&& recommended_part_size > 0
        &&& self.total_length < u64::MAX || recommended_part_size > 1
    }

    /// The step from `pre` on the news that the upload URL is leased.
    pub open spec fn follows_part_url(
        &self,
        pre: &ChunkedUpload,
        target: UploadTarget,
        recommended_part_size: u64,
        action: UploadAction,
    ) -> bool {
        &&& self.wf()
        &&& self.bucket_id == pre.bucket_id
        &&& self.file_name == pre.file_name
        &&& self.content_type == pre.content_type
        &&& self.total_length == pre.total_length
        &&& self.file_id == pre.file_id
        &&& self.target == target
        &&& self.parts == pre.parts
        &&& self.chunks == pre.chunks
        &&& self.parts@.len() == 0
        &&& self.accepted == 0
        &&& self.uploaded == 0
        &&& !self.submitting
        &&& planned_chunk_count(pre.total_length as int, recommended_part_size as int) >= 1 ==> {
            &&& self.phase == Phase::UploadingParts
            &&& self.plan.chunk_size == planned_chunk_size(
                pre.total_length as int,
                recommended_part_size as int,
            )
            &&& self.plan.chunk_count == planned_chunk_count(
                pre.total_length as int,
                recommended_part_size as int,
            )
            &&& action == (UploadAction::ReadChunk { offset: 0, length: self.plan.chunk_size })
        }
        &&& planned_chunk_count(pre.total_length as int, recommended_part_size as int) < 1 ==> {
            &&& self.phase == Phase::Failed
            &&& action == UploadAction::Abort(Error::InsufficientData)
        }
    }

    /// The upload URL is leased: plan the chunks with the part size that the
    /// session recommends now, and ask for the first chunk, or give up where
    /// the file is too small.
    pub fn on_part_url(&mut self, target: UploadTarget, recommended_part_size: u64) -> (action:
        UploadAction)
        requires
            old(self).wf(),
            old(self).phase == Phase::PartUrlLeased,
            old(self).can_plan(recommended_part_size),
        ensures
            final(self).follows_part_url(old(self), target, recommended_part_size, action),
    {
        self.target = target;
        match UploadPlan::derive(self.total_length, recommended_part_size) {
            Ok(plan) => {
                proof {
                    lemma_chunks_fit(self.total_length as int, plan.chunk_size as int);
                    if plan.chunk_count == u64::MAX {
                        assert(plan.chunk_size * plan.chunk_count <= u64::MAX) by {
                            vstd::arithmetic::mul::lemma_mul_is_commutative(
                                plan.chunk_size as int,
                                plan.chunk_count as int,
                            );
                        }
                        assert(plan.chunk_size == 1) by (nonlinear_arith)
                            requires
                                plan.chunk_size >= 1,
                                plan.chunk_size * u64::MAX <= u64::MAX,
                        ;
                        assert(self.total_length == u64::MAX);
                    }
                }
                self.plan = plan;
                self.phase = Phase::UploadingParts;
                assert(self.chunks@.take(0) =~= Seq::<Seq<u8>>::empty());
                UploadAction::ReadChunk { offset: 0, length: plan.chunk_size }
            },
            Err(_) => {
                self.phase = Phase::Failed;
                assert(self.chunks@.take(0) =~= Seq::<Seq<u8>>::empty());
                UploadAction::Abort(Error::InsufficientData)
            },
        }
    }

    /// The step from `pre` on the news that a read found `bytes`.
    pub open spec fn follows_chunk(
        &self,
        pre: &ChunkedUpload,
        bytes: Seq<u8>,
        action: UploadAction,
    ) -> bool {
        &&& self.wf()
        &&& self.phase == Phase::UploadingParts
        &&& self.same_session(pre)
        &&& self.accepted == pre.accepted
        &&& self.submitting
        &&& self.uploaded == pre.uploaded
        &&& self.chunks@ == pre.chunks@.push(bytes)
        &&& self.parts@.len() == pre.parts@.len() + 1
        &&& forall|i: int| 0 <= i < pre.parts@.len() ==> self.parts@[i] == pre.parts@[i]
        &&& action matches UploadAction::UploadPart {
            upload_url,
            authorization,
            part_number,
            content_length,
            content_sha1,
        }
        &&& upload_url@ == pre.target.upload_url@
        &&& authorization@ == pre.target.authorization_token@
        &&& part_number == pre.accepted + 1
        &&& content_length == bytes.len()
        &&& content_sha1@ == sha1_hex_digest(bytes)
    }

    /// A chunk has been read, of at most the size asked for: hash it, record
    /// the part and ask for it to be sent. A read of no bytes makes a part
    /// like any other.
    pub fn on_chunk(&mut self, bytes: &[u8]) -> (action: UploadAction)
        requires
            old(self).wf(),
            old(self).phase == Phase::UploadingParts,
            !old(self).submitting,
            bytes@.len() <= old(self).plan.chunk_size,
            bytes@.len() < HASHABLE_LIMIT,
        ensures
            final(self).follows_chunk(old(self), bytes@, action),
    {
        let digest = sha1_hex(bytes);
        let part_number: u64 = self.accepted + 1;
        let offset: u64 = self.plan.offset(self.accepted);
        let length: u64 = bytes.len() as u64;
        let ghost before = *self;
        self.parts.push(
            PartDescriptor { part_number, offset, length, content_sha1: digest.clone() },
        );
        self.submitting = true;
        proof {
            self.chunks@ = self.chunks@.push(bytes@);
            assert(self.chunks@.take(self.accepted as int) =~= before.chunks@.take(
                before.accepted as int,
            ));
            assert forall|i: int| 0 <= i < self.parts@.len() implies #[trigger] self.part_matches(
                i,
            ) by {
                if i < before.parts@.len() {
                    assert(before.part_matches(i));
                }
            }
        }
        UploadAction::UploadPart {
            upload_url: self.target.upload_url.clone(),
            authorization: self.target.authorization_token.clone(),
            part_number,
            content_length: length,
            content_sha1: digest,
        }
    }

    /// The digests of the recorded parts, in part order.
    pub fn part_sha1_array(&self) -> (hashes: Vec<String>)
        requires
            self.wf(),
        ensures
            hashes@.len() == self.parts@.len(),
            forall|i: int|
                0 <= i < hashes@.len() ==> (#[trigger] hashes@[i])@ == self.parts@[i].content_sha1@,
            hashes@.map_values(|h: String| h@) == self.digests(),
    {
        let mut hashes: Vec<String> = Vec::new();
        let mut i: usize = 0;
        while i < self.parts.len()
            invariant
                i <= self.parts@.len(),
                hashes@.len() == i,
                forall|j: int|
                    0 <= j < i ==> (#[trigger] hashes@[j])@ == self.parts@[j].content_sha1@,
            decreases self.parts@.len() - i,
        {
            hashes.push(self.parts[i].content_sha1.clone());
            i = i + 1;
        }
        proof {
            assert forall|j: int| 0 <= j < hashes@.len() implies hashes@.map_values(
                |h: String| h@,
            )[j] == self.digests()[j] by {
                assert(self.part_matches(j));
            }
            assert(hashes@.map_values(|h: String| h@) =~= self.digests());
        }
        hashes
    }

    /// The step from `pre` on the news that the part was accepted.
    pub open spec fn follows_part_accepted(&self, pre: &ChunkedUpload, action: UploadAction) -> bool {
        &&& self.wf()
        &&& self.same_session(pre)
        &&& self.parts == pre.parts
        &&& self.chunks == pre.chunks
        &&& self.accepted == pre.accepted + 1
        &&& !self.submitting
        &&& self.uploaded == pre.uploaded + pre.chunks@.last().len()
        &&& pre.accepted < pre.plan.chunk_count ==> {
            &&& self.phase == Phase::UploadingParts
            &&& action == (UploadAction::ReadChunk {
                offset: (pre.plan.chunk_size * (pre.accepted + 1)) as u64,
                length: pre.plan.chunk_size,
            })
        }
        &&& pre.accepted == pre.plan.chunk_count ==> {
            &&& self.phase == Phase::Finalizing
            &&& action matches UploadAction::FinishLargeFile { file_id, part_sha1_array }
            &&& file_id@ == pre.file_id@
            &&& part_sha1_array@.map_values(|h: String| h@) == pre.digests()
            &&& part_sha1_array@.len() == pre.plan.chunk_count + 1
        }
    }

    /// The service has accepted the part: count its bytes, then ask for the
    /// next chunk or, after the last one, close the session with the digests
    /// of all parts in the order in which they were sent.
    pub fn on_part_accepted(&mut self) -> (action: UploadAction)
        requires
            old(self).wf(),
            old(self).phase == Phase::UploadingParts,
            old(self).submitting,
        ensures
            final(self).follows_part_accepted(old(self), action),
    {
        let ghost before = *self;
        let sent: usize = self.parts.len() - 1;
        proof {
            assert(self.part_matches(sent as int));
            assert(self.chunks@.take(self.accepted + 1) =~= self.chunks@.take(
                self.accepted as int,
            ).push(self.chunks@[self.accepted as int]));
            assert(self.chunks@.take(self.accepted + 1).drop_last() =~= self.chunks@.take(
                self.accepted as int,
            ));
        }
        self.uploaded = self.uploaded + self.parts[sent].length as u128;
        self.accepted = self.accepted + 1;
        self.submitting = false;
        if self.accepted <= self.plan.chunk_count {
            proof {
                before.lemma_parts_carry_over(self);
            }
            let offset: u64 = self.plan.offset(self.accepted);
            UploadAction::ReadChunk { offset, length: self.plan.chunk_size }
        } else {
            self.phase = Phase::Finalizing;
            proof {
                before.lemma_parts_carry_over(self);
            }
            let hashes = self.part_sha1_array();
            UploadAction::FinishLargeFile { file_id: self.file_id.clone(), part_sha1_array: hashes }
        }
    }

    /// The state is that of `pre` but for the phase.
    pub open spec fn moved_to(&self, pre: &ChunkedUpload, phase: Phase) -> bool {
        &&& self.wf()
        &&& self.phase == phase
        &&& self.same_session(pre)
        &&& self.parts == pre.parts
        &&& self.chunks == pre.chunks
        &&& self.accepted == pre.accepted
        &&& self.submitting == pre.submitting
        &&& self.uploaded == pre.uploaded
    }

    /// The service has assembled the file: the upload is complete.
    pub fn on_finished(&mut self) -> (action: UploadAction)
        requires
            old(self).wf(),
            old(self).phase == Phase::Finalizing,
        ensures
            final(self).moved_to(old(self), Phase::Done),
            action == UploadAction::Finished,
    {
        let ghost before = *self;
        self.phase = Phase::Done;
        proof {
            before.lemma_parts_carry_over(self);
        }
        UploadAction::Finished
    }

    /// A request or a read has failed: the upload is given up, whatever its
    /// phase was. Nothing is cleaned up.
    pub fn on_failure(&mut self, error: Error) -> (action: UploadAction)
        requires
            old(self).wf(),
        ensures
            final(self).moved_to(old(self), Phase::Failed),
            action == UploadAction::Abort(error),
    {
        let ghost before = *self;
        self.phase = Phase::Failed;
        proof {
            before.lemma_parts_carry_over(self);
        }
        UploadAction::Abort(error)
    }

    /// The event is one that the phase waits for, and one that can be taken
    /// in: a part size that can be planned with, a chunk that is no longer
    /// than was asked for and can be hashed.
    pub open spec fn expects(&self, event: UploadEvent) -> bool {
        match event {
            UploadEvent::Started { .. } => self.phase == Phase::Started,
            UploadEvent::PartUrlLeased { recommended_part_size, .. } => self.phase
                == Phase::PartUrlLeased && self.can_plan(recommended_part_size),
            UploadEvent::ChunkRead { bytes } => self.phase == Phase::UploadingParts
                && !self.submitting && bytes@.len() <= self.plan.chunk_size && bytes@.len()
                < HASHABLE_LIMIT,
            UploadEvent::PartAccepted => self.phase == Phase::UploadingParts && self.submitting,
            UploadEvent::Finished => self.phase == Phase::Finalizing,
            UploadEvent::Failed(_) => true,
        }
    }

    /// Advances the upload by one event and says what to do next.
    pub fn step(&mut self, event: UploadEvent) -> (action: UploadAction)
        requires
            old(self).wf(),
            old(self).expects(event),
        ensures
            match event {
                UploadEvent::Started { file_id } => final(self).follows_started(
                    old(self),
                    file_id,
                    action,
                ),
                UploadEvent::PartUrlLeased { target, recommended_part_size } => final(self)
                    .follows_part_url(old(self), target, recommended_part_size, action),
                UploadEvent::ChunkRead { bytes } => final(self).follows_chunk(
                    old(self),
                    bytes@,
                    action,
                ),
                UploadEvent::PartAccepted => final(self).follows_part_accepted(old(self), action),
                UploadEvent::Finished => final(self).moved_to(old(self), Phase::Done) && action
                    == UploadAction::Finished,
                UploadEvent::Failed(error) => final(self).moved_to(old(self), Phase::Failed)
                    && action == UploadAction::Abort(error),
            },
    {
        match event {
            UploadEvent::Started { file_id } => self.on_started(file_id),
            UploadEvent::PartUrlLeased { target, recommended_part_size } => self.on_part_url(
                target,
                recommended_part_size,
            ),
            UploadEvent::ChunkRead { bytes } => self.on_chunk(bytes.as_slice()),
            UploadEvent::PartAccepted => self.on_part_accepted(),
            UploadEvent::Finished => self.on_finished(),
            UploadEvent::Failed(error) => self.on_failure(error),
        }
    }
}

/// Begins a chunked upload of `len` bytes to `dest` in the given bucket. The
/// first thing to do is to open the large-file session.
pub fn upload_file_parts(bucket_id: &str, len: u64, dest: &str, content_type: Option<&str>) -> (r: (
    ChunkedUpload,
    UploadAction,
))
    ensures
        r.0.begun(r.1, bucket_id@, len, dest@, text_of(content_type)),
{
    let chosen = content_type_for(content_type, dest);
    let action = UploadAction::StartLargeFile {
        bucket_id: bucket_id.to_owned(),
        file_name: dest.to_owned(),
        content_type: chosen.clone(),
    };
    let upload = ChunkedUpload {
        phase: Phase::Started,
        bucket_id: bucket_id.to_owned(),
        file_name: dest.to_owned(),
        content_type: chosen,
        total_length: len,
        file_id: String::new(),
        target: UploadTarget { upload_url: String::new(), authorization_token: String::new() },
        plan: UploadPlan { total_length: len, chunk_size: 0, chunk_count: 0 },
        accepted: 0,
        submitting: false,
        parts: Vec::new(),
        uploaded: 0,
        chunks: Ghost(Seq::empty()),
    };
    assert(upload.chunks@.take(0) =~= Seq::<Seq<u8>>::empty());
    (upload, action)
}

/// The digest list that closes the session holds, at each position, the
/// digest of the part sent at that position, and the parts are numbered from
/// one in the order in which they were sent.
pub proof fn lemma_digests_in_part_order(upload: &ChunkedUpload, i: int, j: int)
    requires
        upload.wf(),
        0 <= i < j < upload.parts@.len(),
    ensures
        upload.digests().len() == upload.parts@.len(),
        upload.parts@[i].part_number == i + 1,
        upload.parts@[j].part_number == j + 1,
        upload.parts@[i].part_number < upload.parts@[j].part_number,
        upload.digests()[i] == upload.parts@[i].content_sha1@,
        upload.digests()[j] == upload.parts@[j].content_sha1@,
{
    assert(upload.part_matches(i));
    assert(upload.part_matches(j));
}

/// Once the last part is accepted, there is one part for every full chunk
/// and one for the remainder, each read where its chunk starts, and every
/// byte handed over has been counted.
pub proof fn lemma_completed_upload(upload: &ChunkedUpload, i: int)
    requires
        upload.wf(),
        upload.phase == Phase::Finalizing || upload.phase == Phase::Done,
        0 <= i <= upload.plan.chunk_count,
    ensures
        upload.parts@.len() == upload.plan.chunk_count + 1,
        upload.digests().len() == upload.plan.chunk_count + 1,
        upload.parts@[i].part_number == i + 1,
        upload.parts@[i].offset == upload.plan.spec_offset(i),
        upload.parts@[i].content_sha1@ == upload.digests()[i],
        upload.uploaded == total_bytes(upload.chunks@),
{
    assert(upload.part_matches(i));
    assert(upload.chunks@.take(upload.accepted as int) =~= upload.chunks@);
}

/// Chunks that are the reads of a plan on a file hold as many bytes as what
/// those reads find, joined.
proof fn lemma_total_of_tiles(plan: UploadPlan, data: Seq<u8>, chunks: Seq<Seq<u8>>, n: int)
    requires
        0 <= n <= chunks.len(),
        forall|i: int| 0 <= i < n ==> chunks[i] == #[trigger] plan.spec_tile(data, i),
    ensures
        total_bytes(chunks.take(n)) == plan.spec_joined(data, n).len(),
    decreases n,
{
    if n > 0 {
        lemma_total_of_tiles(plan, data, chunks, n - 1);
        assert(chunks.take(n).drop_last() =~= chunks.take(n - 1));
        assert(chunks.take(n).last() == plan.spec_tile(data, n - 1));
    } else {
        assert(chunks.take(0) =~= Seq::<Seq<u8>>::empty());
    }
}

/// Where every read found the bytes of the file at its place, the completed
/// upload has sent the file: the parts joined in order are its content, the
/// digest list holds the digest of each stretch, and the bytes counted are
/// the file's length.
pub proof fn lemma_upload_carries_the_file(upload: &ChunkedUpload, data: Seq<u8>)
    requires
        upload.wf(),
        upload.phase == Phase::Finalizing || upload.phase == Phase::Done,
        data.len() == upload.total_length,
        forall|i: int|
            0 <= i < upload.chunks@.len() ==> upload.chunks@[i] == #[trigger] upload.plan.spec_tile(
                data,
                i,
            ),
    ensures
        upload.plan.spec_joined(data, upload.chunks@.len() as int) == data,
        forall|i: int|
            0 <= i < upload.chunks@.len() ==> #[trigger] upload.digests()[i] == sha1_hex_digest(
                upload.plan.spec_tile(data, i),
            ),
        upload.uploaded == upload.total_length,
{
    crate::plan::lemma_tiles_make_the_file(upload.plan, data);
    lemma_total_of_tiles(upload.plan, data, upload.chunks@, upload.chunks@.len() as int);
    assert(upload.chunks@.take(upload.chunks@.len() as int) =~= upload.chunks@);
    assert(upload.chunks@.take(upload.accepted as int) =~= upload.chunks@);
}

/// The request that closes a session names the session that was opened and
/// lists the digests in part order: after the last part is accepted, position
/// `i` of the list holds the digest that was sent with the part numbered
/// `i + 1`, which is the digest of that part's bytes.
pub proof fn lemma_finalize_lists_parts_in_order(
    before: &ChunkedUpload,
    after: &ChunkedUpload,
    action: UploadAction,
    i: int,
)
    requires
        before.wf(),
        before.phase == Phase::UploadingParts,
        before.submitting,
        before.accepted == before.plan.chunk_count,
        after.follows_part_accepted(before, action),
        0 <= i < before.parts@.len(),
    ensures
        action matches UploadAction::FinishLargeFile { file_id, part_sha1_array } && {
            &&& file_id@ == before.file_id@
            &&& part_sha1_array@.len() == before.parts@.len()
            &&& before.parts@[i].part_number == i + 1
            &&& part_sha1_array@[i]@ == before.parts@[i].content_sha1@
            &&& part_sha1_array@[i]@ == sha1_hex_digest(before.chunks@[i])
        },
{
    assert(before.part_matches(i));
    match action {
        UploadAction::FinishLargeFile { file_id, part_sha1_array } => {
            assert(part_sha1_array@.map_values(|h: String| h@)[i] == before.digests()[i]);
        },
        _ => {},
    }
}

/// The session's identifier is the one that the service gave when the
/// session was opened: no step after that changes it.
pub proof fn lemma_steps_keep_the_session(
    before: &ChunkedUpload,
    after: &ChunkedUpload,
    event: UploadEvent,
    action: UploadAction,
)
    requires
        match event {
            UploadEvent::Started { file_id } => after.follows_started(before, file_id, action),
            UploadEvent::PartUrlLeased { target, recommended_part_size } => after.follows_part_url(
                before,
                target,
                recommended_part_size,
                action,
            ),
            UploadEvent::ChunkRead { bytes } => after.follows_chunk(before, bytes@, action),
            UploadEvent::PartAccepted => after.follows_part_accepted(before, action),
            UploadEvent::Finished => after.moved_to(before, Phase::Done),
            UploadEvent::Failed(_) => after.moved_to(before, Phase::Failed),
        },
    ensures
        event matches UploadEvent::Started { file_id } ==> after.file_id == file_id,
        !(event is Started) ==> after.file_id == before.file_id,
        after.bucket_id == before.bucket_id,
        after.file_name == before.file_name,
        after.content_type == before.content_type,
        after.total_length == before.total_length,
{
}

} // verus!
