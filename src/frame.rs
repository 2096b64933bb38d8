//! Frame slots and the per-frame submission protocol.
//!
//! A frame runs through: wait on the slot's in-flight fence, write the camera
//! block into the slot's uniform buffer, acquire a swapchain image, record and
//! submit, present, advance. The device work of each step is done by the
//! caller; `FrameOrchestrator::step` receives the outcome of the last step and
//! answers with the next one.
use vstd::prelude::*;

verus! {

/// Number of frames the CPU may have submitted before it must wait on the GPU.
pub const MAX_FRAMES_IN_FLIGHT: u8 = 2;

/// Index of the frame slot used by the frame being prepared.
#[derive(Debug, Clone, Copy, Default, PartialEq, Eq)]
pub struct CurrentFrame(pub u8);

impl CurrentFrame {
    /// The slot that the following frame uses.
    pub fn next(&self) -> (r: u8)
        requires
            self.0 < u8::MAX,
        ensures
            r == (self.0 + 1) % (MAX_FRAMES_IN_FLIGHT as int),
            r < MAX_FRAMES_IN_FLIGHT,
    {
        (self.0 + 1) % MAX_FRAMES_IN_FLIGHT
    }
}

/// What acquiring the next swapchain image gave.
#[derive(Debug, Clone, Copy, PartialEq, Eq, Structural)]
pub enum AcquireOutcome {
    /// An image was handed out; `suboptimal` is tolerated for this frame.
    Acquired { image_index: u32, suboptimal: bool },
    /// The swapchain no longer matches the surface.
    OutOfDate,
    /// Any other device error code.
    Failed(i32),
}

/// What presenting the rendered image gave.
#[derive(Debug, Clone, Copy, PartialEq, Eq, Structural)]
pub enum PresentOutcome {
    Presented,
    Suboptimal,
    OutOfDate,
    Failed(i32),
}

/// The outcome of the step the orchestrator asked for last.
#[derive(Debug, Clone, Copy, PartialEq, Eq, Structural)]
pub enum FrameEvent {
    /// A new frame is wanted.
    Begin,
    /// The slot's in-flight fence has signaled.
    FenceSignaled,
    /// The camera block was written into the slot's uniform buffer.
    UniformWritten,
    /// The acquire call returned.
    Acquire(AcquireOutcome),
    /// The command buffer was reset, recorded and submitted; its fence was reset.
    Submitted,
    /// The present call returned.
    Present(PresentOutcome),
    /// The swapchain was rebuilt.
    Recreated,
    /// A device call failed with this code.
    DeviceError(i32),
}

/// How a frame ended.
#[derive(Debug, Clone, Copy, PartialEq, Eq, Structural)]
pub enum FrameOutcome {
    /// The frame was submitted and presented.
    Rendered,
    /// The swapchain was stale at acquire; nothing was submitted.
    Skipped,
}

/// The next thing the caller must do.
#[derive(Debug, Clone, Copy, PartialEq, Eq, Structural)]
pub enum FrameAction {
    WaitForFence { slot: u8 },
    WriteUniform { slot: u8 },
    AcquireImage { slot: u8 },
    RecordAndSubmit { slot: u8, image_index: u32 },
    Present { slot: u8, image_index: u32 },
    RecreateSwapchain,
    Finished(FrameOutcome),
    /// A fatal device error; the frame is abandoned and the error propagated.
    Fatal(i32),
    /// The event does not answer the step that was asked for; nothing changed.
    OutOfOrder,
}

/// Where the current frame stands.
#[derive(Debug, Clone, Copy, PartialEq, Eq, Structural)]
pub enum FramePhase {
    Idle,
    AwaitingFence,
    WritingUniform,
    Acquiring,
    Submitting { image_index: u32 },
    Presenting { image_index: u32 },
    RecreatingBeforeRender,
    RecreatingAfterPresent,
}

/// Abstract state of the frame protocol.
#[verifier::ext_equal]
pub struct FrameView {
    pub phase: FramePhase,
    /// Slot of the frame being prepared.
    pub slot: u8,
    /// Per slot: its command buffer was submitted and its fence not yet seen signaled.
    pub in_flight: Seq<bool>,
    /// Per slot: number of the frame whose camera block its uniform buffer holds.
    pub uniform_frame: Seq<u64>,
    /// Per slot: number of the frame last submitted with it.
    pub submitted_frame: Seq<u64>,
    /// Per slot: how many frames were submitted with it.
    pub slot_uses: Seq<u64>,
    /// Frames submitted so far; the number of the frame being prepared.
    pub frames_submitted: u64,
    /// Command buffers submitted whose fence has not been seen signaled.
    pub pending: u8,
    pub recreations: u64,
}

/// Number of `true` entries.
pub open spec fn count_true(s: Seq<bool>) -> nat
    decreases s.len(),
{
    if s.len() == 0 {
        0
    } else {
        count_true(s.drop_last()) + if s.last() {
            1nat
        } else {
            0nat
        }
    }
}

pub open spec fn max_frames() -> nat {
    MAX_FRAMES_IN_FLIGHT as nat
}

/// Number of frames among `0..n` whose slot is `f`.
pub open spec fn uses_of_slot(n: nat, f: nat) -> nat {
    if n <= f {
        0
    } else {
        ((n - f - 1) / (max_frames() as int) + 1) as nat
    }
}

impl FrameView {
    pub open spec fn with_phase(self, phase: FramePhase) -> FrameView {
        FrameView { phase, ..self }
    }

    /// Slot of the frame that was last submitted.
    pub open spec fn last_slot(self) -> u8 {
        ((self.frames_submitted + max_frames() - 1) % (max_frames() as int)) as u8
    }

    pub open spec fn wf(self) -> bool {
        &&& self.in_flight.len() == max_frames()
        &&& self.uniform_frame.len() == max_frames()
        &&& self.submitted_frame.len() == max_frames()
        &&& self.slot_uses.len() == max_frames()
        &&& self.pending as nat == count_true(self.in_flight)
        &&& forall|f: int|
            0 <= f < max_frames() ==> #[trigger] self.slot_uses[f] as nat == uses_of_slot(
                self.frames_submitted as nat,
                f as nat,
            )
        // while a slot's work may still run on the GPU, its uniform buffer
        // holds the camera block of exactly the frame that was submitted
        &&& forall|f: int|
            0 <= f < max_frames() && #[trigger] self.in_flight[f] ==> self.uniform_frame[f]
                == self.submitted_frame[f]
        &&& match self.phase {
            FramePhase::Presenting { .. } | FramePhase::RecreatingAfterPresent => {
                &&& self.frames_submitted > 0
                &&& self.slot == self.last_slot()
            },
            _ => self.slot as nat == self.frames_submitted as nat % max_frames(),
        }
        &&& match self.phase {
            FramePhase::WritingUniform | FramePhase::Acquiring | FramePhase::Submitting { .. }
            | FramePhase::RecreatingBeforeRender => !self.in_flight[self.slot as int],
            _ => true,
        }
        &&& match self.phase {
            FramePhase::Acquiring | FramePhase::Submitting { .. }
            | FramePhase::RecreatingBeforeRender => self.uniform_frame[self.slot as int]
                == self.frames_submitted,
            _ => true,
        }
    }
}

/// The protocol: the state after `e` and the step asked for next.
pub open spec fn frame_step(s: FrameView, e: FrameEvent) -> (FrameView, FrameAction) {
    let slot = s.slot;
    let next_slot = (s.frames_submitted as nat % max_frames()) as u8;
    match e {
        FrameEvent::DeviceError(code) => if s.phase == FramePhase::Idle {
            (s, FrameAction::OutOfOrder)
        } else {
            (
                FrameView {
                    phase: FramePhase::Idle,
                    slot: next_slot,
                    ..s
                },
                FrameAction::Fatal(code),
            )
        },
        _ => match (s.phase, e) {
            (FramePhase::Idle, FrameEvent::Begin) => (
                s.with_phase(FramePhase::AwaitingFence),
                FrameAction::WaitForFence { slot },
            ),
            (FramePhase::AwaitingFence, FrameEvent::FenceSignaled) => (
                FrameView {
                    phase: FramePhase::WritingUniform,
                    in_flight: s.in_flight.update(s.slot as int, false),
                    pending: if s.in_flight[s.slot as int] {
                        (s.pending - 1) as u8
                    } else {
                        s.pending
                    },
                    ..s
                },
                FrameAction::WriteUniform { slot },
            ),
            (FramePhase::WritingUniform, FrameEvent::UniformWritten) => (
                FrameView {
                    phase: FramePhase::Acquiring,
                    uniform_frame: s.uniform_frame.update(s.slot as int, s.frames_submitted),
                    ..s
                },
                FrameAction::AcquireImage { slot },
            ),
            (FramePhase::Acquiring, FrameEvent::Acquire(outcome)) => match outcome {
                AcquireOutcome::Acquired { image_index, suboptimal: _ } => (
                    s.with_phase(FramePhase::Submitting { image_index }),
                    FrameAction::RecordAndSubmit { slot, image_index },
                ),
                AcquireOutcome::OutOfDate => (
                    s.with_phase(FramePhase::RecreatingBeforeRender),
                    FrameAction::RecreateSwapchain,
                ),
                AcquireOutcome::Failed(code) => (
                    s.with_phase(FramePhase::Idle),
                    FrameAction::Fatal(code),
                ),
            },
            (FramePhase::Submitting { image_index }, FrameEvent::Submitted) => (
                FrameView {
                    phase: FramePhase::Presenting { image_index },
                    in_flight: s.in_flight.update(s.slot as int, true),
                    submitted_frame: s.submitted_frame.update(s.slot as int, s.frames_submitted),
                    slot_uses: s.slot_uses.update(
                        s.slot as int,
                        (s.slot_uses[s.slot as int] + 1) as u64,
                    ),
                    frames_submitted: (s.frames_submitted + 1) as u64,
                    pending: (s.pending + 1) as u8,
                    ..s
                },
                FrameAction::Present { slot, image_index },
            ),
            (FramePhase::Presenting { .. }, FrameEvent::Present(outcome)) => {
                let advanced = FrameView { slot: next_slot, ..s };
                match outcome {
                    PresentOutcome::Presented => (
                        advanced.with_phase(FramePhase::Idle),
                        FrameAction::Finished(FrameOutcome::Rendered),
                    ),
                    PresentOutcome::Suboptimal | PresentOutcome::OutOfDate => (
                        s.with_phase(FramePhase::RecreatingAfterPresent),
                        FrameAction::RecreateSwapchain,
                    ),
                    PresentOutcome::Failed(code) => (
                        advanced.with_phase(FramePhase::Idle),
                        FrameAction::Fatal(code),
                    ),
                }
            },
            (FramePhase::RecreatingBeforeRender, FrameEvent::Recreated) => (
                FrameView {
                    phase: FramePhase::Idle,
                    recreations: (s.recreations + 1) as u64,
                    ..s
                },
                FrameAction::Finished(FrameOutcome::Skipped),
            ),
            (FramePhase::RecreatingAfterPresent, FrameEvent::Recreated) => (
                FrameView {
                    phase: FramePhase::Idle,
                    slot: next_slot,
                    recreations: (s.recreations + 1) as u64,
                    ..s
                },
                FrameAction::Finished(FrameOutcome::Rendered),
            ),
            _ => (s, FrameAction::OutOfOrder),
        },
    }
}

proof fn lemma_count_true_update(s: Seq<bool>, i: int, b: bool)
    requires
        0 <= i < s.len(),
    ensures
        count_true(s.update(i, b)) + (if s[i] {
            1int
        } else {
            0int
        }) == count_true(s) + (if b {
            1int
        } else {
            0int
        }),
    decreases s.len(),
{
    let t = s.update(i, b);
    if i == s.len() - 1 {
        assert(t.drop_last() =~= s.drop_last());
    } else {
        lemma_count_true_update(s.drop_last(), i, b);
        assert(t.drop_last() =~= s.drop_last().update(i, b));
    }
}

proof fn lemma_count_true_bound(s: Seq<bool>)
    ensures
        count_true(s) <= s.len(),
    decreases s.len(),
{
    if s.len() > 0 {
        lemma_count_true_bound(s.drop_last());
    }
}

proof fn lemma_uses_of_slot_next(n: nat, f: nat)
    requires
        f < max_frames(),
    ensures
        uses_of_slot(n + 1, f) == uses_of_slot(n, f) + if n % max_frames() == f {
            1nat
        } else {
            0nat
        },
{
    if n > f {
        let k = (n - f - 1) as int;
        assert((k + 1) / 2 == k / 2 + if k % 2 == 1 {
            1int
        } else {
            0int
        }) by (nonlinear_arith)
            requires
                k >= 0,
        ;
        assert(k % 2 == 1 <==> n % 2 == f);
    }
}

/// Every step of the protocol keeps its state well formed.
pub proof fn lemma_frame_step_wf(s: FrameView, e: FrameEvent)
    requires
        s.wf(),
        s.frames_submitted < u64::MAX,
        s.recreations < u64::MAX,
    ensures
        frame_step(s, e).0.wf(),
{
    let t = frame_step(s, e).0;
    let i = s.slot as int;
    assert forall|f: int| 0 <= f < max_frames() implies #[trigger] s.slot_uses[f] as nat
        <= s.frames_submitted by {
        lemma_uses_of_slot_next(s.frames_submitted as nat, f as nat);
    }
    match (s.phase, e) {
        (FramePhase::AwaitingFence, FrameEvent::FenceSignaled) => {
            lemma_count_true_update(s.in_flight, i, false);
        },
        (FramePhase::Submitting { .. }, FrameEvent::Submitted) => {
            lemma_count_true_update(s.in_flight, i, true);
            lemma_count_true_bound(t.in_flight);
            assert forall|f: int| 0 <= f < max_frames() implies #[trigger] t.slot_uses[f] as nat
                == uses_of_slot(t.frames_submitted as nat, f as nat) by {
                lemma_uses_of_slot_next(s.frames_submitted as nat, f as nat);
            }
        },
        _ => {},
    }
}

/// Fence-bounded concurrency: the command buffers submitted and not yet seen
/// complete never outnumber the frame slots.
pub proof fn lemma_in_flight_bounded(s: FrameView)
    requires
        s.wf(),
    ensures
        s.pending <= MAX_FRAMES_IN_FLIGHT,
{
    lemma_count_true_bound(s.in_flight);
}

/// Frame-slot round trip: while a slot's submitted work may still be running,
/// its uniform buffer holds the camera block written for that same frame, and
/// the protocol writes a uniform buffer only once its slot's fence has signaled.
pub proof fn lemma_uniform_round_trip(s: FrameView, e: FrameEvent, f: int)
    requires
        s.wf(),
        0 <= f < max_frames(),
        s.frames_submitted < u64::MAX,
        s.recreations < u64::MAX,
    ensures
        s.in_flight[f] ==> s.uniform_frame[f] == s.submitted_frame[f],
        frame_step(s, e).1 is WriteUniform ==> !frame_step(s, e).0.in_flight[s.slot as int],
        frame_step(s, e).1 is RecordAndSubmit ==> s.uniform_frame[s.slot as int]
            == s.frames_submitted,
        frame_step(s, e).1 is Present ==> frame_step(s, e).0.submitted_frame[s.slot as int]
            == s.frames_submitted && frame_step(s, e).0.uniform_frame[s.slot as int]
            == s.frames_submitted,
{
}

/// Slots are used in turn: after `n` submitted frames slot `f` was used by the
/// frames `f, f + MAX_FRAMES_IN_FLIGHT, ...` below `n`.
pub proof fn lemma_slot_usage(s: FrameView)
    requires
        s.wf(),
    ensures
        s.slot_uses[0] == (s.frames_submitted + 1) / 2,
        s.slot_uses[1] == s.frames_submitted / 2,
{
    assert(s.slot_uses[0] as nat == uses_of_slot(s.frames_submitted as nat, 0));
    assert(s.slot_uses[1] as nat == uses_of_slot(s.frames_submitted as nat, 1));
}

/// Drives the per-frame protocol for the frame slots.
pub struct FrameOrchestrator {
    phase: FramePhase,
    slot: u8,
    in_flight: Vec<bool>,
    uniform_frame: Vec<u64>,
    submitted_frame: Vec<u64>,
    slot_uses: Vec<u64>,
    frames_submitted: u64,
    pending: u8,
    recreations: u64,
}

impl View for FrameOrchestrator {
    type V = FrameView;

    closed spec fn view(&self) -> FrameView {
        FrameView {
            phase: self.phase,
            slot: self.slot,
            in_flight: self.in_flight@,
            uniform_frame: self.uniform_frame@,
            submitted_frame: self.submitted_frame@,
            slot_uses: self.slot_uses@,
            frames_submitted: self.frames_submitted,
            pending: self.pending,
            recreations: self.recreations,
        }
    }
}

impl FrameOrchestrator {
    /// All slots free, no frame submitted yet.
    pub fn new() -> (r: Self)
        ensures
            r@.wf(),
            r@.phase == FramePhase::Idle,
            r@.slot == 0,
            r@.frames_submitted == 0,
            r@.pending == 0,
            r@.recreations == 0,
            r@.in_flight == seq![false, false],
            r@.slot_uses == seq![0u64, 0u64],
    {
        let r = FrameOrchestrator {
            phase: FramePhase::Idle,
            slot: 0,
            in_flight: vec![false, false],
            uniform_frame: vec![0, 0],
            submitted_frame: vec![0, 0],
            slot_uses: vec![0, 0],
            frames_submitted: 0,
            pending: 0,
            recreations: 0,
        };
        proof {
            let s = r@.in_flight;
            assert(s.drop_last() =~= seq![false]);
            assert(s.drop_last().drop_last() =~= Seq::<bool>::empty());
            assert(count_true(s.drop_last().drop_last()) == 0);
            assert(count_true(s.drop_last()) == 0);
            assert(count_true(s) == 0);
            assert(uses_of_slot(0, 0) == 0 && uses_of_slot(0, 1) == 0);
        }
        r
    }

    pub open spec fn wf(&self) -> bool {
        self@.wf()
    }

    /// Takes the outcome of the last step and returns the next step.
    pub fn step(&mut self, event: FrameEvent) -> (action: FrameAction)
        requires
            old(self).wf(),
            old(self)@.frames_submitted < u64::MAX,
            old(self)@.recreations < u64::MAX,
        ensures
            final(self).wf(),
            (final(self)@, action) == frame_step(old(self)@, event),
    {
        proof {
            lemma_frame_step_wf(self@, event);
            lemma_count_true_bound(self.in_flight@);
        }
        let slot = self.slot;
        let i = slot as usize;
        let next_slot = (self.frames_submitted % (MAX_FRAMES_IN_FLIGHT as u64)) as u8;
        if let FrameEvent::DeviceError(code) = event {
            if self.phase == FramePhase::Idle {
                return FrameAction::OutOfOrder;
            }
            self.phase = FramePhase::Idle;
            self.slot = next_slot;
            return FrameAction::Fatal(code);
        }
        match (self.phase, event) {
            (FramePhase::Idle, FrameEvent::Begin) => {
                self.phase = FramePhase::AwaitingFence;
                FrameAction::WaitForFence { slot }
            },
            (FramePhase::AwaitingFence, FrameEvent::FenceSignaled) => {
                proof {
                    lemma_count_true_update(self.in_flight@, i as int, false);
                }
                if self.in_flight[i] {
                    self.pending = self.pending - 1;
                }
                self.in_flight.set(i, false);
                self.phase = FramePhase::WritingUniform;
                FrameAction::WriteUniform { slot }
            },
            (FramePhase::WritingUniform, FrameEvent::UniformWritten) => {
                self.uniform_frame.set(i, self.frames_submitted);
                self.phase = FramePhase::Acquiring;
                FrameAction::AcquireImage { slot }
            },
            (FramePhase::Acquiring, FrameEvent::Acquire(outcome)) => match outcome {
                AcquireOutcome::Acquired { image_index, suboptimal: _ } => {
                    self.phase = FramePhase::Submitting { image_index };
                    FrameAction::RecordAndSubmit { slot, image_index }
                },
                AcquireOutcome::OutOfDate => {
                    self.phase = FramePhase::RecreatingBeforeRender;
                    FrameAction::RecreateSwapchain
                },
                AcquireOutcome::Failed(code) => {
                    self.phase = FramePhase::Idle;
                    FrameAction::Fatal(code)
                },
            },
            (FramePhase::Submitting { image_index }, FrameEvent::Submitted) => {
                proof {
                    assert(self.slot_uses@[i as int] as nat <= self.frames_submitted);
                }
                self.in_flight.set(i, true);
                self.submitted_frame.set(i, self.frames_submitted);
                let uses = self.slot_uses[i] + 1;
                self.slot_uses.set(i, uses);
                self.frames_submitted = self.frames_submitted + 1;
                self.pending = self.pending + 1;
                self.phase = FramePhase::Presenting { image_index };
                FrameAction::Present { slot, image_index }
            },
            (FramePhase::Presenting { .. }, FrameEvent::Present(outcome)) => match outcome {
                PresentOutcome::Presented => {
                    self.slot = next_slot;
                    self.phase = FramePhase::Idle;
                    FrameAction::Finished(FrameOutcome::Rendered)
                },
                PresentOutcome::Suboptimal | PresentOutcome::OutOfDate => {
                    self.phase = FramePhase::RecreatingAfterPresent;
                    FrameAction::RecreateSwapchain
                },
                PresentOutcome::Failed(code) => {
                    self.slot = next_slot;
                    self.phase = FramePhase::Idle;
                    FrameAction::Fatal(code)
                },
            },
            (FramePhase::RecreatingBeforeRender, FrameEvent::Recreated) => {
                self.recreations = self.recreations + 1;
                self.phase = FramePhase::Idle;
                FrameAction::Finished(FrameOutcome::Skipped)
            },
            (FramePhase::RecreatingAfterPresent, FrameEvent::Recreated) => {
                self.recreations = self.recreations + 1;
                self.slot = next_slot;
                self.phase = FramePhase::Idle;
                FrameAction::Finished(FrameOutcome::Rendered)
            },
            _ => FrameAction::OutOfOrder,
        }
    }

    pub fn phase(&self) -> (r: FramePhase)
        ensures
            r == self@.phase,
    {
        self.phase
    }

    /// Slot of the frame being prepared.
    pub fn slot(&self) -> (r: u8)
        ensures
            r == self@.slot,
    {
        self.slot
    }

    pub fn frames_submitted(&self) -> (r: u64)
        ensures
            r == self@.frames_submitted,
    {
        self.frames_submitted
    }

    /// Command buffers submitted whose fence has not been seen signaled.
    pub fn in_flight_count(&self) -> (r: u8)
        ensures
            r == self@.pending,
    {
        self.pending
    }

    /// How many frames were submitted with `slot`.
    pub fn slot_uses(&self, slot: u8) -> (r: u64)
        requires
            self.wf(),
            slot < MAX_FRAMES_IN_FLIGHT,
        ensures
            r == self@.slot_uses[slot as int],
    {
        self.slot_uses[slot as usize]
    }

    /// How many times the protocol asked for the swapchain to be rebuilt and it was.
    pub fn recreations(&self) -> (r: u64)
        ensures
            r == self@.recreations,
    {
        self.recreations
    }
}

} // verus!
