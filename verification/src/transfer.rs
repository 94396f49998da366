//! The chunked-transfer state machine.
//!
//! A [`TransferSession`] accumulates the bytes streamed out of the source
//! into a buffer and decides which SharePoint Online write each portion of
//! the input goes into.  An input that fits within the chunk threshold is
//! written by a single one-time save; a larger input first creates the empty
//! destination file, then cuts chunks of exactly the threshold size and
//! sends them through `StartUpload` / `ContinueUpload`, and closes the
//! session with a non-empty `FinishUpload` carrying the remainder.
//!
//! The whole schedule is specified by [`transfer_plan`], a pure function of
//! the concatenated input bytes and the threshold alone — in particular it
//! does not depend on how the input was split into fragments.  The session's
//! contracts state that the calls it hands out are exactly that plan.

use vstd::arithmetic::div_mod::lemma_basic_div;
use vstd::arithmetic::div_mod::lemma_fundamental_div_mod;
use vstd::arithmetic::div_mod::lemma_mod_division_less_than_divisor;
use vstd::prelude::*;

use crate::model::ChunkOutcome;

verus! {

/// The default chunk threshold: 64 MiB per write request.
pub const MAX_CHUNK_SIZE: usize = 64 * 1024 * 1024;

/// Which SharePoint Online write a call is.
#[derive(Clone, Copy, Debug, PartialEq, Eq, Structural)]
pub enum UploadCallKind {
    /// A single save carrying the whole (small) input.
    OneTimeSave,
    /// The save with empty content that creates the destination file before
    /// a chunked upload (SharePoint rejects `StartUpload` against a file
    /// that does not exist).
    CreateEmpty,
    /// The first chunk of an upload session.
    StartUpload,
    /// A middle chunk.
    ContinueUpload,
    /// The final chunk, which closes the session.
    FinishUpload,
}

/// The mathematical content of one write call.
pub struct CallModel {
    pub kind: UploadCallKind,
    pub offset: nat,
    pub data: Seq<u8>,
}

/// One write call the session asks the caller to perform: its kind, the
/// byte offset it writes at, and the bytes it carries.
#[derive(Debug)]
pub struct UploadCall {
    pub kind: UploadCallKind,
    pub offset: u64,
    pub data: Vec<u8>,
}

impl View for UploadCall {
    type V = CallModel;

    open spec fn view(&self) -> CallModel {
        CallModel { kind: self.kind, offset: self.offset as nat, data: self.data@ }
    }
}

/// The models of a sequence of calls.
pub open spec fn models_of(calls: Seq<UploadCall>) -> Seq<CallModel> {
    Seq::new(calls.len(), |i: int| calls[i]@)
}

/// How many exact-threshold chunks are cut from an input of `len` bytes.
/// The remainder `len - cut_count * threshold` always lies in
/// `[1, threshold]` for a non-empty input, so the terminal write is never
/// empty.
pub open spec fn cut_count(len: nat, threshold: nat) -> nat
    recommends
        threshold > 0,
{
    if len == 0 {
        0
    } else {
        ((len - 1) as nat) / threshold
    }
}

/// The single write of a small input.
pub open spec fn one_time_call(data: Seq<u8>) -> CallModel {
    CallModel { kind: UploadCallKind::OneTimeSave, offset: 0, data }
}

/// The write that creates the empty destination file.
pub open spec fn create_empty_call() -> CallModel {
    CallModel { kind: UploadCallKind::CreateEmpty, offset: 0, data: Seq::empty() }
}

/// Chunk `i` of the input: exactly `threshold` bytes starting at
/// `i * threshold`, sent as `StartUpload` for the first chunk and
/// `ContinueUpload` after that.
pub open spec fn chunk_call(data: Seq<u8>, threshold: nat, i: int) -> CallModel {
    CallModel {
        kind: if i == 0 {
            UploadCallKind::StartUpload
        } else {
            UploadCallKind::ContinueUpload
        },
        offset: (i * threshold) as nat,
        data: data.subrange(i * threshold as int, (i + 1) * threshold as int),
    }
}

/// The first `c` chunks of the input, as calls.
pub open spec fn chunk_seq(data: Seq<u8>, threshold: nat, c: nat) -> Seq<CallModel> {
    Seq::new(c, |i: int| chunk_call(data, threshold, i))
}

/// The final write of a chunked transfer: everything after the last cut.
pub open spec fn finish_call(data: Seq<u8>, threshold: nat) -> CallModel {
    let k = cut_count(data.len(), threshold);
    CallModel {
        kind: UploadCallKind::FinishUpload,
        offset: k * threshold,
        data: data.skip(k as int * threshold as int),
    }
}

/// The calls emitted while streaming, after `c` chunks have been cut: none
/// until the first cut; from then on the create-empty write followed by the
/// `c` chunk writes.
pub open spec fn emitted_calls(data: Seq<u8>, threshold: nat, c: nat) -> Seq<CallModel> {
    if c == 0 {
        Seq::empty()
    } else {
        seq![create_empty_call()] + chunk_seq(data, threshold, c)
    }
}

/// The complete write schedule for an input: one one-time save when the
/// input fits within the threshold, and otherwise the create-empty write,
/// the exact-threshold chunks, and the closing `FinishUpload`.
pub open spec fn transfer_plan(data: Seq<u8>, threshold: nat) -> Seq<CallModel>
    recommends
        threshold > 0,
{
    if data.len() <= threshold {
        seq![one_time_call(data)]
    } else {
        emitted_calls(data, threshold, cut_count(data.len(), threshold)) + seq![
            finish_call(data, threshold),
        ]
    }
}

/// The bytes written by a sequence of calls, in order.
pub open spec fn written_concat(calls: Seq<CallModel>) -> Seq<u8>
    decreases calls.len(),
{
    if calls.len() == 0 {
        Seq::empty()
    } else {
        written_concat(calls.drop_last()) + calls.last().data
    }
}

/// The remainder after cutting lies in `[1, threshold]`:
/// `cut_count * threshold < len <= (cut_count + 1) * threshold`.
pub proof fn lemma_cut_count_bounds(len: nat, threshold: nat)
    requires
        threshold > 0,
        len > 0,
    ensures
        cut_count(len, threshold) * threshold < len,
        len <= (cut_count(len, threshold) + 1) * threshold,
{
    let k = cut_count(len, threshold);
    let n1 = (len - 1) as int;
    let t = threshold as int;
    lemma_fundamental_div_mod(n1, t);
    lemma_mod_division_less_than_divisor(n1, t);
    assert(n1 == t * (n1 / t) + n1 % t);
    assert(k as int == n1 / t);
    assert(k * threshold == len - 1 - n1 % t) by (nonlinear_arith)
        requires
            k as int == n1 / t,
            n1 == t * (n1 / t) + n1 % t,
            n1 == len - 1,
            t == threshold,
    ;
    assert((k + 1) * threshold == k * threshold + threshold) by (nonlinear_arith);
}

/// Any `c` whose remainder lies in `[1, threshold]` is the cut count.
pub proof fn lemma_cut_count_unique(len: nat, threshold: nat, c: nat)
    requires
        threshold > 0,
        c * threshold < len,
        len <= (c + 1) * threshold,
    ensures
        c == cut_count(len, threshold),
{
    let k = cut_count(len, threshold);
    lemma_cut_count_bounds(len, threshold);
    if c < k {
        assert((c + 1) * threshold <= k * threshold) by (nonlinear_arith)
            requires
                c + 1 <= k,
                threshold > 0,
        ;
    }
    if c > k {
        assert((k + 1) * threshold <= c * threshold) by (nonlinear_arith)
            requires
                k + 1 <= c,
                threshold > 0,
        ;
    }
}

/// An input within the threshold is never cut.
pub proof fn lemma_cut_count_zero(len: nat, threshold: nat)
    requires
        threshold > 0,
        len <= threshold,
    ensures
        cut_count(len, threshold) == 0,
{
    if len > 0 {
        lemma_basic_div((len - 1) as int, threshold as int);
    }
}

/// The emitted calls depend only on the prefix of the input that the cut
/// chunks cover: extending the input beyond it changes nothing.
proof fn lemma_emitted_calls_stable(d1: Seq<u8>, d2: Seq<u8>, threshold: nat, c: nat)
    requires
        threshold > 0,
        d1.len() <= d2.len(),
        forall|j: int| 0 <= j < d1.len() ==> d1[j] == d2[j],
        c * threshold <= d1.len(),
    ensures
        emitted_calls(d1, threshold, c) == emitted_calls(d2, threshold, c),
{
    if c > 0 {
        assert forall|i: int| 0 <= i < c implies chunk_call(d1, threshold, i) == chunk_call(
            d2,
            threshold,
            i,
        ) by {
            let lo = i * threshold as int;
            let hi = (i + 1) * threshold as int;
            assert(hi == lo + threshold && hi <= c * threshold && 0 <= lo) by (nonlinear_arith)
                requires
                    0 <= i,
                    i + 1 <= c,
                    threshold > 0,
                    lo == i * threshold as int,
                    hi == (i + 1) * threshold as int,
            ;
            assert(d1.subrange(lo, hi) =~= d2.subrange(lo, hi));
        }
        assert(chunk_seq(d1, threshold, c) =~= chunk_seq(d2, threshold, c));
        assert(emitted_calls(d1, threshold, c) =~= emitted_calls(d2, threshold, c));
    }
}

/// The chunking state machine for one source-to-destination file copy.
///
/// Feed it the fragments the source stream yields, in order, with
/// [`TransferSession::push_fragment`]; perform the write calls it returns
/// and report each outcome with [`TransferSession::record_outcome`]; close
/// the stream with [`TransferSession::finish_stream`].  A rejected write
/// fails the session and no further call is ever emitted.
pub struct TransferSession {
    threshold: usize,
    buffer: Vec<u8>,
    offset: u64,
    started: bool,
    failed: bool,
    done: bool,
    fed: Ghost<Seq<u8>>,
    emitted: Ghost<Seq<CallModel>>,
}

impl TransferSession {
    /// The configured chunk threshold.
    pub closed spec fn spec_threshold(&self) -> usize {
        self.threshold
    }

    /// Every byte fed so far, in order.
    pub closed spec fn spec_fed(&self) -> Seq<u8> {
        self.fed@
    }

    /// Every call handed out so far, in order.
    pub closed spec fn spec_emitted(&self) -> Seq<CallModel> {
        self.emitted@
    }

    /// Whether a write was rejected.
    pub closed spec fn spec_failed(&self) -> bool {
        self.failed
    }

    /// Whether the stream was closed.
    pub closed spec fn spec_done(&self) -> bool {
        self.done
    }

    /// The bytes read but not yet handed to a write call.
    pub closed spec fn spec_buffered(&self) -> Seq<u8> {
        self.buffer@
    }

    /// Whether the chunked protocol has begun.
    pub closed spec fn spec_started(&self) -> bool {
        self.started
    }

    /// Well-formedness: while the session is streaming, the buffer holds
    /// exactly the bytes past the last cut, the offset counts the cut
    /// chunks, and the emitted calls are precisely what the plan prescribes
    /// for the bytes fed so far.
    pub closed spec fn wf(&self) -> bool {
        let th = self.threshold as nat;
        let n = self.fed@.len();
        &&& self.threshold > 0
        &&& (!self.failed && !self.done ==> {
            &&& n <= u64::MAX
            &&& self.offset as nat == cut_count(n, th) * th
            &&& self.buffer@ == self.fed@.skip(self.offset as int)
            &&& (self.started <==> self.offset > 0)
            &&& (self.started <==> n > th)
            &&& self.emitted@ == emitted_calls(self.fed@, th, cut_count(n, th))
        })
    }

    /// A fresh session with the given chunk threshold.
    pub fn new(threshold: usize) -> (r: TransferSession)
        requires
            threshold > 0,
        ensures
            r.wf(),
            r.spec_threshold() == threshold,
            r.spec_fed() == Seq::<u8>::empty(),
            r.spec_emitted() == Seq::<CallModel>::empty(),
            !r.spec_failed(),
            !r.spec_done(),
    {
        let r = TransferSession {
            threshold,
            buffer: Vec::new(),
            offset: 0,
            started: false,
            failed: false,
            done: false,
            fed: Ghost(Seq::empty()),
            emitted: Ghost(Seq::empty()),
        };
        proof {
            assert(r.buffer@ =~= r.fed@.skip(0));
            assert(cut_count(0, threshold as nat) == 0);
            assert(0 * (threshold as nat) == 0) by (nonlinear_arith);
            assert(r.emitted@ =~= emitted_calls(r.fed@, threshold as nat, 0));
        }
        r
    }

    /// Feeds the next fragment of the source stream.  Returns the writes
    /// that become due: nothing until the buffered bytes exceed the
    /// threshold, and from then on the create-empty write (once) followed
    /// by one exact-threshold chunk per cut.  A failed or closed session
    /// accepts nothing and emits nothing.
    pub fn push_fragment(&mut self, fragment: &[u8]) -> (calls: Vec<UploadCall>)
        requires
            old(self).wf(),
            old(self).spec_fed().len() + fragment@.len() <= u64::MAX,
        ensures
            final(self).wf(),
            final(self).spec_threshold() == old(self).spec_threshold(),
            final(self).spec_failed() == old(self).spec_failed(),
            final(self).spec_done() == old(self).spec_done(),
            old(self).spec_failed() || old(self).spec_done() ==> calls@.len() == 0 && *final(self)
                == *old(self),
            !old(self).spec_failed() && !old(self).spec_done() ==> {
                &&& final(self).spec_fed() == old(self).spec_fed() + fragment@
                &&& final(self).spec_emitted() == old(self).spec_emitted() + models_of(calls@)
                &&& final(self).spec_buffered().len() <= final(self).spec_threshold()
                &&& (final(self).spec_started() <==> final(self).spec_fed().len() > old(
                self).spec_threshold())
            },
    {
        if self.failed || self.done {
            return Vec::new();
        }
        let ghost old_fed = self.fed@;
        let ghost th = self.threshold as nat;
        let ghost c0 = cut_count(old_fed.len(), th);
        append_bytes(&mut self.buffer, fragment);
        self.fed = Ghost(self.fed@ + fragment@);
        let ghost fed = self.fed@;
        let ghost n = fed.len();
        proof {
            if old_fed.len() <= th {
                lemma_cut_count_zero(old_fed.len(), th);
            } else {
                lemma_cut_count_bounds(old_fed.len(), th);
                if c0 == 0 {
                    assert(old_fed.len() <= (c0 + 1) * th);
                    assert((c0 + 1) * th == th) by (nonlinear_arith)
                        requires
                            c0 == 0,
                    ;
                    assert(false);
                }
            }
            assert(c0 * th <= old_fed.len());
            lemma_emitted_calls_stable(old_fed, fed, th, c0);
            assert(self.buffer@ =~= fed.skip(self.offset as int));
        }
        let ghost emitted0 = self.emitted@;
        let mut calls: Vec<UploadCall> = Vec::new();
        let ghost mut c = c0;
        while self.buffer.len() > self.threshold
            invariant
                self.threshold > 0,
                th == self.threshold as nat,
                self.fed@ == fed,
                n == fed.len(),
                n <= u64::MAX,
                !self.failed,
                !self.done,
                self.offset as nat == c * th,
                c > 0 ==> c * th < n,
                self.buffer@ == fed.skip(self.offset as int),
                self.started <==> c > 0,
                self.emitted@ == emitted_calls(fed, th, c),
                self.emitted@ == emitted0 + models_of(calls@),
            decreases self.buffer.len(),
        {
            let ghost c_old = c;
            let ghost offset_old = self.offset as int;
            // the first `threshold` bytes become the chunk; the rest stays
            let mut chunk = self.buffer.split_off(self.threshold);
            core::mem::swap(&mut self.buffer, &mut chunk);
            proof {
                assert(self.buffer@ =~= fed.skip(offset_old + th));
                assert(chunk@ =~= fed.subrange(offset_old, offset_old + th));
                assert(c * th + th < n);
                assert((c + 1) * th == c * th + th) by (nonlinear_arith);
            }
            let call_offset = self.offset;
            self.offset = self.offset + (self.threshold as u64);
            let ghost pre_calls = calls@;
            if !self.started {
                self.started = true;
                calls.push(
                    UploadCall { kind: UploadCallKind::CreateEmpty, offset: 0, data: Vec::new() },
                );
                calls.push(
                    UploadCall { kind: UploadCallKind::StartUpload, offset: call_offset, data: chunk },
                );
                proof {
                    c = c + 1;
                    assert(models_of(calls@) =~= models_of(pre_calls) + seq![
                        create_empty_call(),
                        chunk_call(fed, th, 0),
                    ]);
                    assert(emitted_calls(fed, th, 1) =~= seq![
                        create_empty_call(),
                        chunk_call(fed, th, 0),
                    ]);
                }
            } else {
                calls.push(
                    UploadCall {
                        kind: UploadCallKind::ContinueUpload,
                        offset: call_offset,
                        data: chunk,
                    },
                );
                proof {
                    c = c + 1;
                    assert(models_of(calls@) =~= models_of(pre_calls) + seq![
                        chunk_call(fed, th, c_old as int),
                    ]);
                    assert(emitted_calls(fed, th, c) =~= emitted_calls(fed, th, c_old) + seq![
                        chunk_call(fed, th, c_old as int),
                    ]);
                }
            }
            self.emitted = Ghost(emitted_calls(fed, th, c));
            proof {
                assert(self.emitted@ =~= emitted0 + models_of(calls@));
            }
        }
        proof {
            if c == 0 {
                lemma_cut_count_zero(n, th);
            } else {
                assert(n - c * th <= th);
                assert(n <= (c + 1) * th) by (nonlinear_arith)
                    requires
                        n - c * th <= th,
                ;
                lemma_cut_count_unique(n, th, c);
                assert(th <= c * th) by (nonlinear_arith)
                    requires
                        1 <= c,
                        th > 0,
                ;
            }
        }
        calls
    }

    /// Records the outcome of one performed write.  A rejection fails the
    /// session permanently; nothing else changes.
    pub fn record_outcome(&mut self, outcome: &ChunkOutcome)
        requires
            old(self).wf(),
        ensures
            final(self).wf(),
            final(self).spec_threshold() == old(self).spec_threshold(),
            final(self).spec_fed() == old(self).spec_fed(),
            final(self).spec_emitted() == old(self).spec_emitted(),
            final(self).spec_done() == old(self).spec_done(),
            final(self).spec_failed() == (old(self).spec_failed() || !(outcome is Accepted)),
    {
        match outcome {
            ChunkOutcome::Accepted => (),
            ChunkOutcome::Rejected { .. } => {
                self.failed = true;
            },
        }
    }

    /// Closes the stream.  On a live session this hands out the terminal
    /// write — the one-time save of the whole input if chunking never
    /// started (even for an empty input), else the closing `FinishUpload` —
    /// and the calls emitted over the session's lifetime are then exactly
    /// `transfer_plan` of the bytes fed.  A failed or already closed
    /// session emits nothing.
    pub fn finish_stream(&mut self) -> (calls: Vec<UploadCall>)
        requires
            old(self).wf(),
        ensures
            final(self).wf(),
            final(self).spec_threshold() == old(self).spec_threshold(),
            final(self).spec_failed() == old(self).spec_failed(),
            final(self).spec_fed() == old(self).spec_fed(),
            old(self).spec_failed() || old(self).spec_done() ==> calls@.len() == 0 && *final(self)
                == *old(self),
            !old(self).spec_failed() && !old(self).spec_done() ==> {
                &&& final(self).spec_done()
                &&& final(self).spec_emitted() == old(self).spec_emitted() + models_of(calls@)
                &&& final(self).spec_emitted() == transfer_plan(
                    old(self).spec_fed(),
                    old(self).spec_threshold() as nat,
                )
            },
    {
        if self.failed || self.done {
            return Vec::new();
        }
        let ghost th = self.threshold as nat;
        let ghost fed = self.fed@;
        let ghost n = fed.len();
        let ghost k = cut_count(n, th);
        self.done = true;
        let mut data: Vec<u8> = Vec::new();
        core::mem::swap(&mut self.buffer, &mut data);
        let mut calls: Vec<UploadCall> = Vec::new();
        if !self.started {
            calls.push(UploadCall { kind: UploadCallKind::OneTimeSave, offset: 0, data });
            proof {
                lemma_cut_count_zero(n, th);
                assert(data@ =~= fed);
                assert(models_of(calls@) =~= seq![one_time_call(fed)]);
            }
        } else {
            calls.push(
                UploadCall { kind: UploadCallKind::FinishUpload, offset: self.offset, data },
            );
            proof {
                lemma_cut_count_bounds(n, th);
                assert(models_of(calls@) =~= seq![finish_call(fed, th)]);
            }
        }
        self.emitted = Ghost(self.emitted@ + models_of(calls@));
        proof {
            assert(self.emitted@ =~= transfer_plan(fed, th));
        }
        calls
    }
}

/// Writing distributes over concatenation of call sequences.
proof fn lemma_written_concat_app(s1: Seq<CallModel>, s2: Seq<CallModel>)
    ensures
        written_concat(s1 + s2) == written_concat(s1) + written_concat(s2),
    decreases s2.len(),
{
    if s2.len() == 0 {
        assert(s1 + s2 =~= s1);
        assert(written_concat(s1) + written_concat(s2) =~= written_concat(s1));
    } else {
        lemma_written_concat_app(s1, s2.drop_last());
        assert((s1 + s2).drop_last() =~= s1 + s2.drop_last());
        assert((s1 + s2).last() == s2.last());
        assert(written_concat(s1) + (written_concat(s2.drop_last()) + s2.last().data) =~= (
        written_concat(s1) + written_concat(s2.drop_last())) + s2.last().data);
    }
}

/// A single call writes its own data.
proof fn lemma_written_concat_single(call: CallModel)
    ensures
        written_concat(seq![call]) == call.data,
{
    let s = seq![call];
    assert(s.drop_last() =~= Seq::<CallModel>::empty());
    assert(written_concat(s.drop_last()) =~= Seq::<u8>::empty());
    assert(s.last() == call);
    assert(Seq::<u8>::empty() + call.data =~= call.data);
}

/// The first `c` chunks write exactly the first `c * threshold` input bytes.
proof fn lemma_chunks_concat(data: Seq<u8>, threshold: nat, c: nat)
    requires
        threshold > 0,
        c * threshold <= data.len(),
    ensures
        written_concat(chunk_seq(data, threshold, c)) == data.take(
            c as int * threshold as int,
        ),
    decreases c,
{
    if c == 0 {
        assert(c as int * threshold as int == 0) by (nonlinear_arith)
            requires
                c == 0,
        ;
        assert(chunk_seq(data, threshold, 0) =~= Seq::<CallModel>::empty());
        assert(data.take(0) =~= Seq::<u8>::empty());
    } else {
        let lo = (c - 1) as int * threshold as int;
        let hi = c as int * threshold as int;
        assert(hi == lo + threshold && 0 <= lo) by (nonlinear_arith)
            requires
                c >= 1,
                threshold > 0,
                lo == (c - 1) as int * threshold as int,
                hi == c as int * threshold as int,
        ;
        lemma_chunks_concat(data, threshold, (c - 1) as nat);
        assert(chunk_seq(data, threshold, c).drop_last() =~= chunk_seq(
            data,
            threshold,
            (c - 1) as nat,
        ));
        assert(chunk_seq(data, threshold, c).last() == chunk_call(data, threshold, c - 1));
        assert(chunk_call(data, threshold, c - 1).data == data.subrange(lo, hi));
        assert(data.take(lo) + data.subrange(lo, hi) =~= data.take(hi));
    }
}

/// An input smaller than the threshold is written by exactly one call: a
/// one-time save carrying the whole input.  No chunked-protocol call occurs.
pub proof fn lemma_small_input_single_write(data: Seq<u8>, threshold: nat)
    requires
        0 < threshold,
        data.len() < threshold,
    ensures
        transfer_plan(data, threshold).len() == 1,
        transfer_plan(data, threshold)[0] == one_time_call(data),
        written_concat(transfer_plan(data, threshold)) == data,
        forall|i: int|
            0 <= i < transfer_plan(data, threshold).len() ==> {
                let kind = (#[trigger] transfer_plan(data, threshold)[i]).kind;
                &&& kind != UploadCallKind::StartUpload
                &&& kind != UploadCallKind::ContinueUpload
                &&& kind != UploadCallKind::FinishUpload
            },
{
    let plan = transfer_plan(data, threshold);
    assert(plan =~= seq![one_time_call(data)]);
    assert(plan.drop_last() =~= Seq::<CallModel>::empty());
    assert(written_concat(plan.drop_last()) =~= Seq::<u8>::empty());
    assert(plan.last() == one_time_call(data));
    assert(Seq::<u8>::empty() + data =~= data);
}

/// A zero-byte input is written by exactly one call, with empty content —
/// never a chunked sequence.
pub proof fn lemma_zero_byte_single_empty_write(threshold: nat)
    requires
        0 < threshold,
    ensures
        transfer_plan(Seq::<u8>::empty(), threshold).len() == 1,
        transfer_plan(Seq::<u8>::empty(), threshold)[0].kind == UploadCallKind::OneTimeSave,
        transfer_plan(Seq::<u8>::empty(), threshold)[0].data.len() == 0,
        transfer_plan(Seq::<u8>::empty(), threshold)[0].offset == 0,
{
    lemma_small_input_single_write(Seq::<u8>::empty(), threshold);
}

/// An input larger than the threshold is written by the chunked protocol,
/// and the protocol covers it exactly: the create-empty write comes first,
/// then `StartUpload` at offset 0, `ContinueUpload` for every middle chunk,
/// and a final non-empty `FinishUpload`; the bytes written, in call order,
/// are exactly the input (so the totals agree); every chunked call's offset
/// equals the number of bytes written before it — no gaps and no overlaps —
/// and the offsets strictly increase.
pub proof fn lemma_chunked_transfer_covers_input(data: Seq<u8>, threshold: nat)
    requires
        0 < threshold,
        data.len() > threshold,
    ensures
        ({
            let plan = transfer_plan(data, threshold);
            &&& plan.len() >= 3
            &&& plan[0] == create_empty_call()
            &&& plan[1].kind == UploadCallKind::StartUpload
            &&& plan[1].offset == 0
            &&& (forall|i: int|
                2 <= i < plan.len() - 1 ==> (#[trigger] plan[i]).kind
                    == UploadCallKind::ContinueUpload)
            &&& plan.last().kind == UploadCallKind::FinishUpload
            &&& written_concat(plan) == data
            &&& (forall|i: int|
                1 <= i < plan.len() - 1 ==> (#[trigger] plan[i]).data.len() == threshold)
            &&& 1 <= plan.last().data.len() <= threshold
            &&& (forall|i: int|
                1 <= i < plan.len() ==> (#[trigger] plan[i]).offset == written_concat(
                    plan.take(i),
                ).len())
            &&& (forall|i: int, j: int|
                1 <= i < j < plan.len() ==> (#[trigger] plan[i]).offset < (
                #[trigger] plan[j]).offset)
        }),
{
    let plan = transfer_plan(data, threshold);
    let th = threshold;
    let n = data.len();
    let k = cut_count(n, th);
    lemma_cut_count_bounds(n, th);
    assert(k >= 1) by {
        if k == 0 {
            assert(n <= (k + 1) * th);
            assert((k + 1) * th == th) by (nonlinear_arith)
                requires
                    k == 0,
            ;
        }
    }
    let chunks = chunk_seq(data, th, k);
    let head = seq![create_empty_call()] + chunks;
    assert(plan =~= head + seq![finish_call(data, th)]);
    assert(plan.len() == k + 2);

    // where each call sits in the plan
    assert(plan[0] == create_empty_call());
    assert forall|i: int| 1 <= i <= k implies plan[i] == chunk_call(data, th, i - 1) by {
        assert(plan[i] == chunks[i - 1]);
    }
    assert(plan.last() == finish_call(data, th));

    // every chunked call's offset is (i - 1) * threshold
    assert forall|i: int| 1 <= i < plan.len() implies (#[trigger] plan[i]).offset == (i - 1)
        * th by {
        if i < plan.len() - 1 {
            assert(plan[i] == chunk_call(data, th, i - 1));
        } else {
            assert(plan[i] == finish_call(data, th));
            assert(plan[i].offset == k * th);
        }
    }

    // the bytes written are exactly the input
    lemma_chunks_concat(data, th, k);
    lemma_written_concat_app(seq![create_empty_call()], chunks);
    lemma_written_concat_single(create_empty_call());
    assert(Seq::<u8>::empty() + written_concat(chunks) =~= written_concat(chunks));
    assert(written_concat(head) =~= data.take(k as int * th as int));
    lemma_written_concat_app(head, seq![finish_call(data, th)]);
    lemma_written_concat_single(finish_call(data, th));
    assert(written_concat(plan) == written_concat(head + seq![finish_call(data, th)]));
    assert(data.take(k as int * th as int) + data.skip(k as int * th as int) =~= data);
    assert(written_concat(plan) =~= data);

    // every chunk carries exactly `threshold` bytes
    assert forall|i: int| 1 <= i < plan.len() - 1 implies (#[trigger] plan[i]).data.len()
        == th by {
        assert(plan[i] == chunk_call(data, th, i - 1));
        let lo = (i - 1) * th as int;
        let hi = i * th as int;
        assert(hi == lo + th && 0 <= lo && hi <= k * th) by (nonlinear_arith)
            requires
                1 <= i <= k,
                th > 0,
                lo == (i - 1) * th as int,
                hi == i * th as int,
        ;
    }
    assert(plan.last().data.len() == n - k * th);
    assert((k + 1) * th == k * th + th) by (nonlinear_arith);

    // every chunked call lands exactly at the end of what was written before
    assert forall|i: int| 1 <= i < plan.len() implies (#[trigger] plan[i]).offset
        == written_concat(plan.take(i)).len() by {
        let c = (i - 1) as nat;
        assert(c * th <= k * th) by (nonlinear_arith)
            requires
                c <= k,
                th > 0,
        ;
        let prefix_chunks = chunk_seq(data, th, c);
        assert(plan.take(i) =~= seq![create_empty_call()] + prefix_chunks);
        lemma_chunks_concat(data, th, c);
        lemma_written_concat_app(seq![create_empty_call()], prefix_chunks);
        lemma_written_concat_single(create_empty_call());
        assert(Seq::<u8>::empty() + written_concat(prefix_chunks) =~= written_concat(
            prefix_chunks,
        ));
        assert(written_concat(plan.take(i)) =~= data.take(c as int * th as int));
        assert(data.take(c as int * th as int).len() == c * th);
    }

    // offsets strictly increase
    assert forall|i: int, j: int| 1 <= i < j < plan.len() implies (#[trigger] plan[i]).offset < (
    #[trigger] plan[j]).offset by {
        assert((i - 1) * th < (j - 1) * th) by (nonlinear_arith)
            requires
                i < j,
                th > 0,
        ;
    }
}

/// Appends a byte slice to a vector.
fn append_bytes(dst: &mut Vec<u8>, src: &[u8])
    ensures
        final(dst)@ == old(dst)@ + src@,
{
    let mut i: usize = 0;
    while i < src.len()
        invariant
            i <= src@.len(),
            dst@ == old(dst)@ + src@.take(i as int),
        decreases src@.len() - i,
    {
        dst.push(src[i]);
        proof {
            assert(old(dst)@ + src@.take(i as int) + seq![src@[i as int]] =~= old(dst)@
                + src@.take(i as int + 1));
        }
        i = i + 1;
    }
    proof {
        assert(old(dst)@ + src@.take(src@.len() as int) =~= old(dst)@ + src@);
    }
}

} // verus!
