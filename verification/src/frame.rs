//! The per-frame pipeline: routing window events, deciding whether a redraw
//! may acquire a surface frame, retrying past transient outdated
//! acquisitions under a cap, and emitting the frame's single command
//! stream — scene pass, overlay pass with its texture deltas, one submit,
//! one present, in that order.

use vstd::prelude::*;
use vstd::assert_seqs_equal;

verus! {

/// How many acquisition attempts one redraw may make before the frame is
/// skipped instead of retrying further.
pub const MAX_ACQUIRE_ATTEMPTS: u32 = 8;

/// The vertex range of the scene's one draw call.
pub const SCENE_VERTEX_COUNT: u32 = 6;

/// A window event, as far as the pipeline distinguishes events.
#[derive(Clone, Copy, PartialEq, Eq, Structural, Debug)]
pub enum WindowEventKind {
    CloseRequested,
    RedrawRequested,
    Other,
}

/// What the event loop does with an event.
#[derive(Clone, Copy, PartialEq, Eq, Structural, Debug)]
pub enum EventAction {
    Exit,
    RunFrame,
    Ignore,
}

/// A close request exits, a redraw request runs a frame, anything else is
/// ignored.
pub open spec fn route_event_spec(event: WindowEventKind) -> EventAction {
    match event {
        WindowEventKind::CloseRequested => EventAction::Exit,
        WindowEventKind::RedrawRequested => EventAction::RunFrame,
        WindowEventKind::Other => EventAction::Ignore,
    }
}

/// Decide what the event loop does with one window event.
pub fn route_event(event: WindowEventKind) -> (action: EventAction)
    ensures
        action == route_event_spec(event),
{
    match event {
        WindowEventKind::CloseRequested => EventAction::Exit,
        WindowEventKind::RedrawRequested => EventAction::RunFrame,
        WindowEventKind::Other => EventAction::Ignore,
    }
}

/// What one acquisition attempt came back with: a usable frame, the
/// transient outdated condition, or any other (fatal) failure.
#[derive(Clone, Copy, PartialEq, Eq, Structural, Debug)]
pub enum AcquireOutcome {
    Ready,
    Outdated,
    OtherFailure,
}

/// Where the driver stands within the current redraw.
#[derive(Clone, Copy, PartialEq, Eq, Structural, Debug)]
pub enum DriverPhase {
    /// Between redraws: no acquisition in flight, nothing to submit.
    Idle,
    /// A redraw is acquiring a frame; `attempts` acquisitions have already
    /// come back outdated.
    Acquiring { attempts: u32, width: u32, height: u32 },
    /// A frame is acquired and the command stream may be recorded.
    Render { width: u32, height: u32 },
}

/// The decision on a redraw request.
#[derive(Clone, Copy, PartialEq, Eq, Structural, Debug)]
pub enum RedrawDecision {
    /// Zero-sized window: no acquisition; request another redraw and wait.
    Skip,
    /// Reconfigure the surface to this size and attempt acquisition.
    Acquire { width: u32, height: u32 },
}

/// The decision after one acquisition attempt.
#[derive(Clone, Copy, PartialEq, Eq, Structural, Debug)]
pub enum AcquireStep {
    /// Outdated surface: reconfigure and try again within this redraw.
    Retry,
    /// A frame is in hand: record, submit, present.
    Proceed,
    /// The retry cap is exhausted: skip this frame.
    GiveUp,
    /// A non-transient failure: give the error to the caller.
    Fail,
}

/// The acquisition transition: a ready frame moves to `Render`; an outdated
/// surface retries until the cap, then gives the frame up; any other
/// failure abandons the frame.
pub open spec fn acquire_transition(phase: DriverPhase, outcome: AcquireOutcome) -> (DriverPhase,
    AcquireStep) {
    match phase {
        DriverPhase::Acquiring { attempts, width, height } => match outcome {
            AcquireOutcome::Ready => (DriverPhase::Render { width, height }, AcquireStep::Proceed),
            AcquireOutcome::Outdated => if attempts + 1 < MAX_ACQUIRE_ATTEMPTS {
                (
                    DriverPhase::Acquiring { attempts: (attempts + 1) as u32, width, height },
                    AcquireStep::Retry,
                )
            } else {
                (DriverPhase::Idle, AcquireStep::GiveUp)
            },
            AcquireOutcome::OtherFailure => (DriverPhase::Idle, AcquireStep::Fail),
        },
        _ => (phase, AcquireStep::Fail),
    }
}

/// One GPU-facing step of a frame's command stream, in the order the
/// sequencer records them.
#[derive(Clone, Copy, PartialEq, Eq, Structural, Debug)]
pub enum FrameCommand {
    /// Open the scene pass, clearing the color target to the background.
    BeginScenePass,
    /// Bind the scene's render pipeline.
    SetScenePipeline,
    /// The scene's one draw call, over this vertex range.
    SceneDraw { first_vertex: u32, vertex_count: u32 },
    /// Close the scene pass, releasing the encoder for the overlay pass.
    EndScenePass,
    /// Upload one texture the overlay marked "set" this frame.
    UploadTexture { id: u64 },
    /// Upload the overlay's tessellated vertex and index buffers.
    UpdateOverlayBuffers,
    /// Open the overlay pass, loading (not clearing) the color target so
    /// overlay pixels composite over the scene.
    BeginOverlayPass,
    /// The overlay's draw call.
    OverlayDraw,
    /// Close the overlay pass.
    EndOverlayPass,
    /// Release one texture the overlay marked "free" this frame.
    FreeTexture { id: u64 },
    /// The frame's single queue submission.
    Submit,
    /// Present the acquired frame; always after the submit.
    Present,
}

/// The scene pass: clear, bind the pipeline, one draw over the fixed vertex
/// range, close.
pub open spec fn scene_pass_seq() -> Seq<FrameCommand> {
    seq![
        FrameCommand::BeginScenePass,
        FrameCommand::SetScenePipeline,
        FrameCommand::SceneDraw { first_vertex: 0, vertex_count: SCENE_VERTEX_COUNT },
        FrameCommand::EndScenePass,
    ]
}

/// The overlay block up to and including its draw: every "set" texture
/// uploaded first, then the buffers, then the pass around the draw.
pub open spec fn overlay_block_seq(sets: Seq<u64>) -> Seq<FrameCommand> {
    sets.map_values(|id: u64| FrameCommand::UploadTexture { id }) + seq![
        FrameCommand::UpdateOverlayBuffers,
        FrameCommand::BeginOverlayPass,
        FrameCommand::OverlayDraw,
        FrameCommand::EndOverlayPass,
    ]
}

/// One frame's full command stream: the scene pass, the overlay block, the
/// "free" releases only after the overlay draw, then one submit and one
/// present.
pub open spec fn frame_commands_spec(sets: Seq<u64>, frees: Seq<u64>) -> Seq<FrameCommand> {
    scene_pass_seq() + overlay_block_seq(sets) + frees.map_values(
        |id: u64| FrameCommand::FreeTexture { id },
    ) + seq![FrameCommand::Submit, FrameCommand::Present]
}

/// The index of the overlay draw within the frame's command stream.
pub open spec fn overlay_draw_index(sets: Seq<u64>) -> int {
    6 + sets.len() as int
}

/// The frame pipeline driver: holds where the current redraw stands and
/// counts the submissions made, one per rendered frame.
#[derive(Clone, Copy, PartialEq, Eq, Structural, Debug)]
pub struct FrameDriver {
    pub phase: DriverPhase,
    pub submits: u64,
}

impl FrameDriver {
    /// A fresh driver: idle, nothing submitted.
    pub fn new() -> (d: FrameDriver)
        ensures
            d.phase == DriverPhase::Idle,
            d.submits == 0,
    {
        FrameDriver { phase: DriverPhase::Idle, submits: 0 }
    }

    /// Decide a redraw request against the window's reported pixel size.
    /// A zero dimension skips the frame with no acquisition; otherwise the
    /// surface is to be reconfigured to that size and acquisition begins.
    pub fn begin_redraw(&mut self, width: u32, height: u32) -> (decision: RedrawDecision)
        requires
            old(self).phase is Idle,
        ensures
            final(self).submits == old(self).submits,
            (width == 0 || height == 0) ==> decision == RedrawDecision::Skip && final(self).phase
                == DriverPhase::Idle,
            (width > 0 && height > 0) ==> decision == (RedrawDecision::Acquire { width, height })
                && final(self).phase == (DriverPhase::Acquiring { attempts: 0, width, height }),
    {
        if width > 0 && height > 0 {
            self.phase = DriverPhase::Acquiring { attempts: 0, width, height };
            RedrawDecision::Acquire { width, height }
        } else {
            RedrawDecision::Skip
        }
    }

    /// Record what one acquisition attempt came back with and decide the
    /// next step, per `acquire_transition`.
    pub fn acquire_result(&mut self, outcome: AcquireOutcome) -> (step: AcquireStep)
        requires
            old(self).phase is Acquiring,
        ensures
            final(self).submits == old(self).submits,
            final(self).phase == acquire_transition(old(self).phase, outcome).0,
            step == acquire_transition(old(self).phase, outcome).1,
    {
        match self.phase {
            DriverPhase::Acquiring { attempts, width, height } => match outcome {
                AcquireOutcome::Ready => {
                    self.phase = DriverPhase::Render { width, height };
                    AcquireStep::Proceed
                },
                AcquireOutcome::Outdated => {
                    if attempts < MAX_ACQUIRE_ATTEMPTS - 1 {
                        self.phase = DriverPhase::Acquiring {
                            attempts: attempts + 1,
                            width,
                            height,
                        };
                        AcquireStep::Retry
                    } else {
                        self.phase = DriverPhase::Idle;
                        AcquireStep::GiveUp
                    }
                },
                AcquireOutcome::OtherFailure => {
                    self.phase = DriverPhase::Idle;
                    AcquireStep::Fail
                },
            },
            _ => AcquireStep::Fail,
        }
    }

    /// Emit the acquired frame's command stream and close the redraw: the
    /// scene pass, the overlay block with this frame's texture deltas, the
    /// single submit and the present. Counts exactly one submission.
    pub fn finish_frame(&mut self, set_textures: &Vec<u64>, free_textures: &Vec<u64>) -> (cmds: Vec<
        FrameCommand,
    >)
        requires
            old(self).phase is Render,
            old(self).submits < u64::MAX,
        ensures
            final(self).phase == DriverPhase::Idle,
            final(self).submits == old(self).submits + 1,
            cmds@ == frame_commands_spec(set_textures@, free_textures@),
    {
        let cmds = build_frame_commands(set_textures, free_textures);
        self.phase = DriverPhase::Idle;
        self.submits = self.submits + 1;
        cmds
    }
}

/// Where each command class sits in one frame's stream: the scene's draw
/// call comes before the overlay's, every "set" texture upload comes before
/// the overlay draw, every "free" release comes after it, and the stream
/// holds exactly one scene draw, one overlay draw, one submit and one
/// present, with the present last and the submit just before it.
pub proof fn lemma_frame_command_order(sets: Seq<u64>, frees: Seq<u64>)
    ensures
        ({
            let cmds = frame_commands_spec(sets, frees);
            let d = overlay_draw_index(sets);
            let n = cmds.len() as int;
            &&& n == 10 + sets.len() + frees.len()
            &&& cmds[2] == (FrameCommand::SceneDraw {
                first_vertex: 0,
                vertex_count: SCENE_VERTEX_COUNT,
            })
            &&& forall|i: int| 0 <= i < n ==> ((cmds[i] is SceneDraw) <==> i == 2)
            &&& forall|i: int| 0 <= i < n ==> ((cmds[i] is OverlayDraw) <==> i == d)
            &&& forall|i: int| 0 <= i < n && cmds[i] is UploadTexture ==> 4 <= i < d
            &&& forall|i: int| 0 <= i < n && cmds[i] is FreeTexture ==> d < i < n - 2
            &&& forall|i: int| 0 <= i < n ==> ((cmds[i] is Submit) <==> i == n - 2)
            &&& forall|i: int| 0 <= i < n ==> ((cmds[i] is Present) <==> i == n - 1)
            &&& 2 < d < n - 2
        }),
{
    let cmds = frame_commands_spec(sets, frees);
    let s = sets.len() as int;
    let f = frees.len() as int;
    let n = cmds.len() as int;
    let setmap = sets.map_values(|id: u64| FrameCommand::UploadTexture { id });
    let freemap = frees.map_values(|id: u64| FrameCommand::FreeTexture { id });
    assert(n == 10 + s + f);
    assert forall|i: int| 0 <= i < n implies (if i < 4 {
        cmds[i] == scene_pass_seq()[i]
    } else if i < 4 + s {
        cmds[i] == (FrameCommand::UploadTexture { id: sets[i - 4] })
    } else if i < 8 + s {
        cmds[i] == seq![
            FrameCommand::UpdateOverlayBuffers,
            FrameCommand::BeginOverlayPass,
            FrameCommand::OverlayDraw,
            FrameCommand::EndOverlayPass,
        ][i - 4 - s]
    } else if i < 8 + s + f {
        cmds[i] == (FrameCommand::FreeTexture { id: frees[i - 8 - s] })
    } else {
        cmds[i] == seq![FrameCommand::Submit, FrameCommand::Present][i - 8 - s - f]
    }) by {
        assert(setmap.len() == s);
        assert(freemap.len() == f);
        if 4 <= i < 4 + s {
            assert(setmap[i - 4] == (FrameCommand::UploadTexture { id: sets[i - 4] }));
        }
        if 8 + s <= i < 8 + s + f {
            assert(freemap[i - 8 - s] == (FrameCommand::FreeTexture { id: frees[i - 8 - s] }));
        }
    }
}

/// A run of outdated acquisition outcomes, as one redraw may receive them.
pub open spec fn outdated_run(k: nat) -> Seq<AcquireOutcome> {
    Seq::new(k, |i: int| AcquireOutcome::Outdated)
}

/// Fold a sequence of acquisition outcomes over the driver phase.
pub open spec fn drive_phase(phase: DriverPhase, outcomes: Seq<AcquireOutcome>) -> DriverPhase
    decreases outcomes.len(),
{
    if outcomes.len() == 0 {
        phase
    } else {
        drive_phase(acquire_transition(phase, outcomes[0]).0, outcomes.drop_first())
    }
}

/// A run of outdated outcomes keeps the driver acquiring, counting the
/// attempts, as long as the run stays under the cap.
proof fn lemma_outdated_run_counts(width: u32, height: u32, a: nat, k: nat)
    requires
        a + k < MAX_ACQUIRE_ATTEMPTS,
    ensures
        drive_phase(
            DriverPhase::Acquiring { attempts: a as u32, width, height },
            outdated_run(k) + seq![AcquireOutcome::Ready],
        ) == (DriverPhase::Render { width, height }),
    decreases k,
{
    let start = DriverPhase::Acquiring { attempts: a as u32, width, height };
    let run = outdated_run(k) + seq![AcquireOutcome::Ready];
    assert(run.len() == k + 1);
    let next = acquire_transition(start, run[0]).0;
    assert(drive_phase(start, run) == drive_phase(next, run.drop_first()));
    if k == 0 {
        assert(run[0] == AcquireOutcome::Ready);
        assert(next == (DriverPhase::Render { width, height }));
        assert(run.drop_first().len() == 0);
        assert(drive_phase(next, run.drop_first()) == next);
    } else {
        assert(run[0] == AcquireOutcome::Outdated);
        assert(a + 1 < MAX_ACQUIRE_ATTEMPTS);
        assert(next == (DriverPhase::Acquiring { attempts: (a + 1) as u32, width, height }));
        assert(run.drop_first() == outdated_run((k - 1) as nat) + seq![AcquireOutcome::Ready]) by {
            assert_seqs_equal!(
                run.drop_first() == outdated_run((k - 1) as nat) + seq![AcquireOutcome::Ready]
            );
        }
        lemma_outdated_run_counts(width, height, a + 1, (k - 1) as nat);
    }
}

/// For every redraw of a nonzero-sized window whose acquisition comes back
/// outdated any number of times below the retry cap and then succeeds, the
/// driver reaches the render phase exactly once — every proper prefix of
/// the run leaves it still acquiring — and the command stream then emitted
/// holds exactly one submit. Together with `finish_frame`'s contract (one
/// submission counted, phase back to idle) this is the single-render
/// guarantee per redraw request.
pub proof fn lemma_single_render_per_redraw(width: u32, height: u32, k: nat)
    requires
        width > 0,
        height > 0,
        k < MAX_ACQUIRE_ATTEMPTS,
    ensures
        drive_phase(
            DriverPhase::Acquiring { attempts: 0, width, height },
            outdated_run(k) + seq![AcquireOutcome::Ready],
        ) == (DriverPhase::Render { width, height }),
        forall|i: nat|
            i <= k ==> drive_phase(
                DriverPhase::Acquiring { attempts: 0, width, height },
                outdated_run(i),
            ) == (DriverPhase::Acquiring { attempts: i as u32, width, height }),
{
    lemma_outdated_run_counts(width, height, 0, k);
    assert forall|i: nat| i <= k implies drive_phase(
        DriverPhase::Acquiring { attempts: 0, width, height },
        outdated_run(i),
    ) == (DriverPhase::Acquiring { attempts: i as u32, width, height }) by {
        lemma_outdated_prefix(width, height, 0, i);
    }
}

/// A run of outdated outcomes below the cap, with no success yet, leaves
/// the driver still acquiring with the attempts added up.
proof fn lemma_outdated_prefix(width: u32, height: u32, a: nat, k: nat)
    requires
        a + k < MAX_ACQUIRE_ATTEMPTS,
    ensures
        drive_phase(
            DriverPhase::Acquiring { attempts: a as u32, width, height },
            outdated_run(k),
        ) == (DriverPhase::Acquiring { attempts: (a + k) as u32, width, height }),
    decreases k,
{
    let start = DriverPhase::Acquiring { attempts: a as u32, width, height };
    let run = outdated_run(k);
    if k > 0 {
        assert(run[0] == AcquireOutcome::Outdated);
        assert(a + 1 < MAX_ACQUIRE_ATTEMPTS);
        let next = acquire_transition(start, run[0]).0;
        assert(next == (DriverPhase::Acquiring { attempts: (a + 1) as u32, width, height }));
        assert(drive_phase(start, run) == drive_phase(next, run.drop_first()));
        assert(run.drop_first() == outdated_run((k - 1) as nat)) by {
            assert_seqs_equal!(run.drop_first() == outdated_run((k - 1) as nat));
        }
        lemma_outdated_prefix(width, height, a + 1, (k - 1) as nat);
    } else {
        assert(drive_phase(start, run) == start);
    }
}

/// Record one frame's command stream from its texture deltas, exactly as
/// `frame_commands_spec` lays it out.
pub fn build_frame_commands(set_textures: &Vec<u64>, free_textures: &Vec<u64>) -> (cmds: Vec<
    FrameCommand,
>)
    ensures
        cmds@ == frame_commands_spec(set_textures@, free_textures@),
{
    let ghost sets: Seq<u64> = set_textures@;
    let ghost frees: Seq<u64> = free_textures@;
    let mut cmds: Vec<FrameCommand> = Vec::new();
    cmds.push(FrameCommand::BeginScenePass);
    cmds.push(FrameCommand::SetScenePipeline);
    cmds.push(FrameCommand::SceneDraw { first_vertex: 0, vertex_count: SCENE_VERTEX_COUNT });
    cmds.push(FrameCommand::EndScenePass);
    proof {
        assert_seqs_equal!(cmds@ == scene_pass_seq());
    }
    let mut i: usize = 0;
    while i < set_textures.len()
        invariant
            i <= set_textures.len(),
            sets == set_textures@,
            cmds@ == scene_pass_seq() + sets.take(i as int).map_values(
                |id: u64| FrameCommand::UploadTexture { id },
            ),
        decreases set_textures.len() - i,
    {
        cmds.push(FrameCommand::UploadTexture { id: set_textures[i] });
        proof {
            assert_seqs_equal!(
                cmds@ == scene_pass_seq() + sets.take(i as int + 1).map_values(
                    |id: u64| FrameCommand::UploadTexture { id },
                )
            );
        }
        i = i + 1;
    }
    proof {
        assert(sets.take(sets.len() as int) == sets);
    }
    cmds.push(FrameCommand::UpdateOverlayBuffers);
    cmds.push(FrameCommand::BeginOverlayPass);
    cmds.push(FrameCommand::OverlayDraw);
    cmds.push(FrameCommand::EndOverlayPass);
    proof {
        assert_seqs_equal!(cmds@ == scene_pass_seq() + overlay_block_seq(sets));
    }
    let ghost before_frees: Seq<FrameCommand> = cmds@;
    let mut j: usize = 0;
    while j < free_textures.len()
        invariant
            j <= free_textures.len(),
            frees == free_textures@,
            cmds@ == before_frees + frees.take(j as int).map_values(
                |id: u64| FrameCommand::FreeTexture { id },
            ),
        decreases free_textures.len() - j,
    {
        cmds.push(FrameCommand::FreeTexture { id: free_textures[j] });
        proof {
            assert_seqs_equal!(
                cmds@ == before_frees + frees.take(j as int + 1).map_values(
                    |id: u64| FrameCommand::FreeTexture { id },
                )
            );
        }
        j = j + 1;
    }
    proof {
        assert(frees.take(frees.len() as int) == frees);
    }
    cmds.push(FrameCommand::Submit);
    cmds.push(FrameCommand::Present);
    proof {
        assert_seqs_equal!(cmds@ == frame_commands_spec(sets, frees));
    }
    cmds
}

} // verus!
