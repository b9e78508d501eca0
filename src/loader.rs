//! Loading the sequencer FPGA's configuration image, with bounded retry.
//!
//! An attempt has three phases: begin (enter programming mode and claim the
//! programming port), stream (decompress the compiled-in image chunk by
//! chunk and send each chunk), and finish (leave programming mode and check
//! that the FPGA took the image). A failure in any phase releases the port,
//! ignoring a complaint that it was not claimed, and starts over from the
//! beginning; the third failed attempt is fatal.
use vstd::prelude::*;

verus! {

/// Attempts made before a failure to load the image is fatal.
pub const MAX_ATTEMPTS: u32 = 3;

/// Largest chunk of decompressed image sent in one go.
pub const CHUNK_LEN: usize = 256;

/// Where the loader stands: the work whose outcome it waits for.
#[derive(Copy, Clone, Debug, PartialEq, Eq, Structural)]
pub enum LoadStage {
    /// No attempt started yet.
    Ready,
    /// Programming mode is being entered.
    Beginning,
    /// The next chunk is being decompressed.
    Decompressing,
    /// The last chunk is being sent.
    Sending,
    /// Programming mode is being left and checked.
    Finishing,
    /// The programming port is being released after a failure.
    Releasing,
    /// The image is loaded.
    Loaded,
    /// Every attempt failed.
    Fatal,
}

/// A piece of outside work of the loader.
#[derive(Copy, Clone, Debug, PartialEq, Eq, Structural)]
pub enum LoadWork {
    /// Enter programming mode and claim the port; restart the decompressor
    /// at the beginning of the image.
    Begin,
    /// Decompress up to `CHUNK_LEN` bytes of image.
    Decompress,
    /// Send the chunk just decompressed.
    Send,
    /// Leave programming mode and check that the FPGA is configured.
    Finish,
    /// Release the programming port, whatever it answers.
    Release,
    /// The image is loaded.
    Loaded,
    /// Giving up: this many attempts failed.
    Fatal { attempts: u32 },
}

/// The outcome of a piece of loader work.
#[derive(Copy, Clone, Debug, PartialEq, Eq, Structural)]
pub enum LoadReport {
    /// The work succeeded (a release always reports this or `Failed`).
    Succeeded,
    /// The work failed.
    Failed,
    /// A decompression step ran: `produced` bytes came out, `input_left`
    /// compressed bytes remain, and `idle` tells whether the decompressor
    /// holds no partly emitted run.
    Decompressed { produced: usize, input_left: usize, idle: bool },
}

/// The model of a `BitstreamLoader`.
pub struct LoaderView {
    pub stage: LoadStage,
    /// Attempts begun so far.
    pub attempts: u32,
    /// Length of the compressed image.
    pub image_len: usize,
    /// Compressed bytes not yet consumed in this attempt.
    pub input_left: usize,
    /// Whether the decompressor holds no partly emitted run.
    pub idle: bool,
}

/// The loader engine.
pub struct BitstreamLoader {
    stage: LoadStage,
    attempts: u32,
    image_len: usize,
    input_left: usize,
    idle: bool,
}

impl View for BitstreamLoader {
    type V = LoaderView;

    closed spec fn view(&self) -> LoaderView {
        LoaderView {
            stage: self.stage,
            attempts: self.attempts,
            image_len: self.image_len,
            input_left: self.input_left,
            idle: self.idle,
        }
    }
}

/// The loader's invariant: at most `MAX_ATTEMPTS` attempts, at least one
/// once started, and no more input left than the image holds.
pub open spec fn loader_wf(v: LoaderView) -> bool {
    &&& v.attempts <= MAX_ATTEMPTS
    &&& (v.stage == LoadStage::Ready) == (v.attempts == 0)
    &&& v.input_left <= v.image_len
}

/// Whether the stream phase still has work: compressed input remains, or
/// the decompressor still holds part of a run.
pub open spec fn more_to_stream(v: LoaderView) -> bool {
    v.input_left > 0 || !v.idle
}

/// Whether `r` is an outcome that the work of `v`'s stage can have. A
/// decompression step never has more input left than before, nor more
/// output than a chunk.
pub open spec fn load_report_fits(v: LoaderView, r: LoadReport) -> bool {
    match v.stage {
        LoadStage::Beginning | LoadStage::Sending | LoadStage::Finishing
        | LoadStage::Releasing => r is Succeeded || r is Failed,
        LoadStage::Decompressing => r is Decompressed && r->input_left <= v.input_left
            && r->produced <= CHUNK_LEN,
        _ => false,
    }
}

/// The loader at another stage.
pub open spec fn load_at(v: LoaderView, stage: LoadStage) -> LoaderView {
    LoaderView { stage, ..v }
}

/// After a successful begin or send: decompress more while there is more
/// to stream, else finish.
pub open spec fn continue_stream(v: LoaderView) -> (LoaderView, LoadWork) {
    if more_to_stream(v) {
        (load_at(v, LoadStage::Decompressing), LoadWork::Decompress)
    } else {
        (load_at(v, LoadStage::Finishing), LoadWork::Finish)
    }
}

/// Whether a decompression step made no progress: nothing came out and no
/// input was consumed. The decompressor is then stuck on a truncated image.
pub open spec fn stalled(v: LoaderView, r: LoadReport) -> bool {
    r->produced == 0 && r->input_left == v.input_left
}

/// The loader step on outcome `r`: the loader afterwards and the next work.
pub open spec fn load_step(v: LoaderView, r: LoadReport) -> (LoaderView, LoadWork) {
    match v.stage {
        LoadStage::Beginning | LoadStage::Sending => if r is Succeeded {
            continue_stream(v)
        } else {
            (load_at(v, LoadStage::Releasing), LoadWork::Release)
        },
        LoadStage::Decompressing => if stalled(v, r) {
            (load_at(v, LoadStage::Releasing), LoadWork::Release)
        } else {
            (
                LoaderView {
                    stage: LoadStage::Sending,
                    input_left: r->input_left,
                    idle: r->idle,
                    ..v
                },
                LoadWork::Send,
            )
        },
        LoadStage::Finishing => if r is Succeeded {
            (load_at(v, LoadStage::Loaded), LoadWork::Loaded)
        } else {
            (load_at(v, LoadStage::Releasing), LoadWork::Release)
        },
        LoadStage::Releasing => if v.attempts >= MAX_ATTEMPTS {
            (load_at(v, LoadStage::Fatal), LoadWork::Fatal { attempts: v.attempts })
        } else {
            (
                LoaderView {
                    stage: LoadStage::Beginning,
                    attempts: (v.attempts + 1) as u32,
                    input_left: v.image_len,
                    idle: true,
                    ..v
                },
                LoadWork::Begin,
            )
        },
        _ => (v, LoadWork::Loaded),
    }
}

/// The work handed out by each step of the run `rs` from `v`, in order.
pub open spec fn load_works(v: LoaderView, rs: Seq<LoadReport>) -> Seq<LoadWork>
    decreases rs.len(),
{
    if rs.len() == 0 {
        seq![]
    } else {
        let (next, w) = load_step(v, rs[0]);
        seq![w] + load_works(next, rs.drop_first())
    }
}

/// The loader after the run `rs` from `v`.
pub open spec fn load_run(v: LoaderView, rs: Seq<LoadReport>) -> LoaderView
    decreases rs.len(),
{
    if rs.len() == 0 {
        v
    } else {
        load_run(load_step(v, rs[0]).0, rs.drop_first())
    }
}

/// Whether each outcome of `rs` fits the work it answers, from `v`.
pub open spec fn load_run_fits(v: LoaderView, rs: Seq<LoadReport>) -> bool
    decreases rs.len(),
{
    rs.len() == 0 || (load_report_fits(v, rs[0]) && load_run_fits(load_step(v, rs[0]).0, rs.drop_first()))
}

/// How many attempts the works `ws` begin.
pub open spec fn count_begins(ws: Seq<LoadWork>) -> nat
    decreases ws.len(),
{
    if ws.len() == 0 {
        0
    } else {
        (if ws[0] == LoadWork::Begin { 1nat } else { 0nat }) + count_begins(ws.drop_first())
    }
}

/// One loader step keeps the invariant, counts the attempt it begins, and
/// reaches the releasing stage exactly when it hands out a release.
pub proof fn lemma_load_step(v: LoaderView, r: LoadReport)
    requires
        loader_wf(v),
        load_report_fits(v, r),
    ensures
        loader_wf(load_step(v, r).0),
        load_step(v, r).0.attempts == v.attempts + (if load_step(v, r).1 == LoadWork::Begin {
            1int
        } else {
            0int
        }),
        (load_step(v, r).0.stage == LoadStage::Releasing) == (load_step(v, r).1
            == LoadWork::Release),
        load_step(v, r).1 == LoadWork::Begin ==> v.stage == LoadStage::Releasing,
{
}

/// Over any run, the attempts begun add up to the loader's count, which
/// never passes `MAX_ATTEMPTS`; and every new attempt is handed out right
/// after the release of the port that the failed one held (or, at the
/// start of the run, from a loader that was releasing).
pub proof fn lemma_load_run(v: LoaderView, rs: Seq<LoadReport>)
    requires
        loader_wf(v),
        load_run_fits(v, rs),
    ensures
        loader_wf(load_run(v, rs)),
        load_run(v, rs).attempts == v.attempts + count_begins(load_works(v, rs)),
        v.attempts + count_begins(load_works(v, rs)) <= MAX_ATTEMPTS,
        load_works(v, rs).len() == rs.len(),
        forall|i: int|
            0 < i < rs.len() && #[trigger] load_works(v, rs)[i] == LoadWork::Begin ==> load_works(
                v,
                rs,
            )[i - 1] == LoadWork::Release,
        rs.len() > 0 && load_works(v, rs)[0] == LoadWork::Begin ==> v.stage == LoadStage::Releasing,
        (load_run(v, rs).stage == LoadStage::Releasing) == (if rs.len() == 0 {
            v.stage == LoadStage::Releasing
        } else {
            load_works(v, rs)[rs.len() - 1] == LoadWork::Release
        }),
    decreases rs.len(),
{
    if rs.len() > 0 {
        let (next, w) = load_step(v, rs[0]);
        let rest = rs.drop_first();
        lemma_load_step(v, rs[0]);
        lemma_load_run(next, rest);
        let ws = load_works(v, rs);
        let tail = load_works(next, rest);
        assert(ws == seq![w] + tail);
        assert(ws.drop_first() == tail);
        assert forall|i: int| 0 < i < rs.len() && #[trigger] ws[i] == LoadWork::Begin implies ws[i
            - 1] == LoadWork::Release by {
            assert(ws[i] == tail[i - 1]);
            if i == 1 {
                assert(next.stage == LoadStage::Releasing);
            } else {
                assert(ws[i - 1] == tail[i - 2]);
            }
        }
    }
}

impl BitstreamLoader {
    /// A loader for a compressed image of `image_len` bytes.
    pub fn new(image_len: usize) -> (r: BitstreamLoader)
        ensures
            r@.stage == LoadStage::Ready,
            r@.attempts == 0,
            r@.image_len == image_len,
            r@.input_left == image_len,
            r@.idle,
            loader_wf(r@),
    {
        BitstreamLoader { stage: LoadStage::Ready, attempts: 0, image_len, input_left: image_len, idle: true }
    }

    /// The loader's stage.
    pub fn stage(&self) -> (r: LoadStage)
        ensures
            r == self@.stage,
    {
        self.stage
    }

    /// Starts the first attempt.
    pub fn start(&mut self) -> (r: LoadWork)
        requires
            old(self)@.stage == LoadStage::Ready,
            loader_wf(old(self)@),
        ensures
            final(self)@ == (LoaderView {
                stage: LoadStage::Beginning,
                attempts: 1,
                input_left: old(self)@.image_len,
                idle: true,
                ..old(self)@
            }),
            r == LoadWork::Begin,
            loader_wf(final(self)@),
    {
        self.stage = LoadStage::Beginning;
        self.attempts = 1;
        self.input_left = self.image_len;
        self.idle = true;
        LoadWork::Begin
    }

    /// Takes the outcome of the last work and returns the next.
    ///
    /// Streaming ends exactly when the input is used up and the decompressor
    /// is idle; a decompression step that makes no progress fails the
    /// attempt, so a truncated image cannot keep the loader streaming. A new
    /// attempt begins only after the port was released, and the failure of
    /// attempt `MAX_ATTEMPTS` is fatal.
    pub fn advance(&mut self, report: LoadReport) -> (r: LoadWork)
        requires
            loader_wf(old(self)@),
            load_report_fits(old(self)@, report),
        ensures
            (final(self)@, r) == load_step(old(self)@, report),
            loader_wf(final(self)@),
            (old(self)@.stage == LoadStage::Beginning || old(self)@.stage == LoadStage::Sending)
                && report is Succeeded ==> (r == LoadWork::Finish <==> (old(self)@.input_left == 0
                && old(self)@.idle)),
            r == LoadWork::Send ==> final(self)@.input_left < old(self)@.input_left
                || report->produced > 0,
            r == LoadWork::Begin ==> old(self)@.stage == LoadStage::Releasing
                && final(self)@.attempts == old(self)@.attempts + 1,
            r is Fatal ==> old(self)@.stage == LoadStage::Releasing && old(self)@.attempts
                == MAX_ATTEMPTS && r->attempts == MAX_ATTEMPTS,
    {
        match self.stage {
            LoadStage::Beginning | LoadStage::Sending => {
                if let LoadReport::Succeeded = report {
                    if self.input_left > 0 || !self.idle {
                        self.stage = LoadStage::Decompressing;
                        LoadWork::Decompress
                    } else {
                        self.stage = LoadStage::Finishing;
                        LoadWork::Finish
                    }
                } else {
                    self.stage = LoadStage::Releasing;
                    LoadWork::Release
                }
            },
            LoadStage::Decompressing => {
                match report {
                    LoadReport::Decompressed { produced, input_left, idle } => {
                        if produced == 0 && input_left == self.input_left {
                            self.stage = LoadStage::Releasing;
                            LoadWork::Release
                        } else {
                            self.stage = LoadStage::Sending;
                            self.input_left = input_left;
                            self.idle = idle;
                            LoadWork::Send
                        }
                    },
                    _ => LoadWork::Loaded,
                }
            },
            LoadStage::Finishing => {
                if let LoadReport::Succeeded = report {
                    self.stage = LoadStage::Loaded;
                    LoadWork::Loaded
                } else {
                    self.stage = LoadStage::Releasing;
                    LoadWork::Release
                }
            },
            LoadStage::Releasing => {
                if self.attempts >= MAX_ATTEMPTS {
                    self.stage = LoadStage::Fatal;
                    LoadWork::Fatal { attempts: self.attempts }
                } else {
                    self.stage = LoadStage::Beginning;
                    self.attempts = self.attempts + 1;
                    self.input_left = self.image_len;
                    self.idle = true;
                    LoadWork::Begin
                }
            },
            _ => LoadWork::Loaded,
        }
    }
}

} // verus!
