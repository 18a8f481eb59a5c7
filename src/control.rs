//! The decisions of the worker stages, apart from the waiting, the device
//! and the threads that carry them out: each stage is a function from its
//! state and what just happened to its next state and what to do.

use vstd::prelude::*;
use crate::params::AudioConfig;

verus! {

/// Where the capture stage stands.
#[derive(Debug, Clone, Copy, PartialEq, Eq, Structural)]
pub enum CapturePhase {
    /// No stream is open.
    Idle,
    /// A stream has been asked for and its outcome is awaited.
    Opening,
    /// A stream is playing and the stage is parked until woken.
    Streaming,
    /// The stage has stopped for good.
    Finished,
}

/// What happened since the capture stage last decided.
#[derive(Debug, Clone, Copy, PartialEq, Eq, Structural)]
pub enum CaptureEvent {
    /// The stage has just been started.
    Start,
    /// The stream asked for is open and playing.
    Opened,
    /// No device of the name was found, or the stream could not be built or
    /// started.
    OpenFailed,
    /// The parked stage was woken; `restart` is the restart flag then.
    Woken { restart: bool },
    /// The stream has been closed.
    Closed,
}

/// What the capture stage does next.
pub enum CaptureAction {
    /// Open and play a stream for this snapshot.
    Open(AudioConfig),
    /// Clear the restart flag and wait until it is raised or quit is set.
    Park,
    /// Close the open stream.
    Close,
    /// Stop the stage.
    Exit,
}

/// The capture stage's next phase and action, from its phase, the last event,
/// the quit flag and the configuration visible now.
pub open spec fn capture_next(phase: CapturePhase, event: CaptureEvent, quit: bool, config: AudioConfig) -> (
    CapturePhase,
    CaptureAction,
) {
    match phase {
        CapturePhase::Finished => (CapturePhase::Finished, CaptureAction::Exit),
        CapturePhase::Idle => if quit {
            (CapturePhase::Finished, CaptureAction::Exit)
        } else {
            (CapturePhase::Opening, CaptureAction::Open(config))
        },
        CapturePhase::Opening => match event {
            CaptureEvent::Opened => if quit {
                (CapturePhase::Idle, CaptureAction::Close)
            } else {
                (CapturePhase::Streaming, CaptureAction::Park)
            },
            _ => if quit {
                (CapturePhase::Finished, CaptureAction::Exit)
            } else {
                (CapturePhase::Opening, CaptureAction::Open(config))
            },
        },
        CapturePhase::Streaming => {
            let restart = match event {
                CaptureEvent::Woken { restart } => restart,
                _ => false,
            };
            if quit || restart {
                (CapturePhase::Idle, CaptureAction::Close)
            } else {
                (CapturePhase::Streaming, CaptureAction::Park)
            }
        },
    }
}

/// The capture stage: it opens a stream for the configuration it sees, parks
/// while the stream plays, and reopens after a restart.
pub struct CaptureStage {
    pub phase: CapturePhase,
}

impl CaptureStage {
    /// A stage that has not opened anything yet.
    pub fn new() -> (r: CaptureStage)
        ensures
            r.phase == CapturePhase::Idle,
    {
        CaptureStage { phase: CapturePhase::Idle }
    }

    /// Decides the next action after `event`, with the quit flag and the
    /// configuration read just now.
    pub fn step(&mut self, event: CaptureEvent, quit: bool, config: &AudioConfig) -> (r:
        CaptureAction)
        ensures
            (final(self).phase, r) == capture_next(old(self).phase, event, quit, *config),
    {
        match self.phase {
            CapturePhase::Finished => CaptureAction::Exit,
            CapturePhase::Idle => {
                if quit {
                    self.phase = CapturePhase::Finished;
                    CaptureAction::Exit
                } else {
                    self.phase = CapturePhase::Opening;
                    CaptureAction::Open(config.snapshot())
                }
            },
            CapturePhase::Opening => {
                match event {
                    CaptureEvent::Opened => {
                        if quit {
                            self.phase = CapturePhase::Idle;
                            CaptureAction::Close
                        } else {
                            self.phase = CapturePhase::Streaming;
                            CaptureAction::Park
                        }
                    },
                    _ => {
                        if quit {
                            self.phase = CapturePhase::Finished;
                            CaptureAction::Exit
                        } else {
                            CaptureAction::Open(config.snapshot())
                        }
                    },
                }
            },
            CapturePhase::Streaming => {
                let restart = match event {
                    CaptureEvent::Woken { restart } => restart,
                    _ => false,
                };
                if quit || restart {
                    self.phase = CapturePhase::Idle;
                    CaptureAction::Close
                } else {
                    CaptureAction::Park
                }
            },
        }
    }
}

/// Which input device the capture stage opens.
#[derive(Debug, Clone, Copy, PartialEq, Eq, Structural)]
pub enum DeviceChoice {
    /// No device is named: the host's default input device.
    HostDefault,
    /// The device at this index of those found.
    Listed(usize),
    /// No device found has the name.
    Missing,
}

/// The device the capture stage opens: the host's default where no name is
/// configured, else the first of the devices found whose name is the
/// configured one, if any.
pub fn select_device(names: &Vec<String>, wanted: &String) -> (r: DeviceChoice)
    ensures
        wanted@.len() == 0 <==> r is HostDefault,
        r matches DeviceChoice::Listed(i) ==> i < names@.len() && names@[i as int]@ == wanted@
            && forall|j: int| 0 <= j < i ==> #[trigger] names@[j]@ != wanted@,
        r is Missing ==> forall|j: int| 0 <= j < names@.len() ==> #[trigger] names@[j]@ != wanted@,
        wanted@.len() > 0 && (exists|j: int| 0 <= j < names@.len() && #[trigger] names@[j]@ == wanted@)
            ==> r is Listed,
{
    if wanted.as_str().is_empty() {
        return DeviceChoice::HostDefault;
    }
    let mut i: usize = 0;
    while i < names.len()
        invariant
            i <= names@.len(),
            wanted@.len() > 0,
            forall|j: int| 0 <= j < i ==> #[trigger] names@[j]@ != wanted@,
        decreases names@.len() - i,
    {
        if names[i] == *wanted {
            return DeviceChoice::Listed(i);
        }
        i = i + 1;
    }
    DeviceChoice::Missing
}

/// A parked stage stops waiting once its flag is raised or quit is set.
pub fn wait_is_over(flag: bool, quit: bool) -> (r: bool)
    ensures
        r == (flag || quit),
{
    flag || quit
}

/// What the render consumer does next.
#[derive(Debug, Clone, Copy, PartialEq, Eq, Structural)]
pub enum RenderAction {
    /// Wait for the frame-ready signal.
    Wait,
    /// Clear the frame-ready flag and take the waiting frames.
    Render,
    /// Stop the consumer.
    Exit,
}

/// The render consumer's next action, from the frame-ready and quit flags.
pub open spec fn render_next(frame_ready: bool, quit: bool) -> RenderAction {
    if quit {
        RenderAction::Exit
    } else if frame_ready {
        RenderAction::Render
    } else {
        RenderAction::Wait
    }
}

/// Decides what the render consumer does on waking.
pub fn render_step(frame_ready: bool, quit: bool) -> (r: RenderAction)
    ensures
        r == render_next(frame_ready, quit),
{
    if quit {
        RenderAction::Exit
    } else if frame_ready {
        RenderAction::Render
    } else {
        RenderAction::Wait
    }
}

/// What the transform stage does at the checkpoint before each packet.
#[derive(Debug, Clone, Copy, PartialEq, Eq, Structural)]
pub enum TransformAction {
    /// Feed the packet to the current generation's buffer.
    Continue,
    /// Drop the buffer and derive the parameters anew from the current
    /// configuration.
    Rebuild,
    /// Stop the stage.
    Exit,
}

/// The transform stage's action at a checkpoint: it stops once its input
/// channel has closed or quit is set, and rebuilds when the configuration
/// generation it runs under is no longer the current one.
pub open spec fn transform_next(channel_open: bool, quit: bool, running: u64, current: u64) -> TransformAction {
    if !channel_open || quit {
        TransformAction::Exit
    } else if running != current {
        TransformAction::Rebuild
    } else {
        TransformAction::Continue
    }
}

/// Decides what the transform stage does at a checkpoint.
pub fn transform_step(channel_open: bool, quit: bool, running: u64, current: u64) -> (r:
    TransformAction)
    ensures
        r == transform_next(channel_open, quit, running, current),
{
    if !channel_open || quit {
        TransformAction::Exit
    } else if running != current {
        TransformAction::Rebuild
    } else {
        TransformAction::Continue
    }
}

/// A restart that wakes a parked capture stage makes it close its stream and
/// then open one for the configuration visible after waking, whatever it saw
/// when it parked.
pub proof fn lemma_restart_reads_config_after_wake(
    parked: AudioConfig,
    woken: AudioConfig,
    event: CaptureEvent,
)
    ensures
        capture_next(
            CapturePhase::Streaming,
            CaptureEvent::Woken { restart: true },
            false,
            parked,
        ) == (CapturePhase::Idle, CaptureAction::Close),
        capture_next(CapturePhase::Idle, event, false, woken) == (
            CapturePhase::Opening,
            CaptureAction::Open(woken),
        ),
{
}

/// Once quit is set, every stage stops: the capture stage within two of its
/// decisions whatever events come, closing an open stream first; the
/// transform stage and the render consumer at their next checkpoint.
pub proof fn lemma_quit_stops_every_stage(
    phase: CapturePhase,
    first: CaptureEvent,
    second: CaptureEvent,
    c1: AudioConfig,
    c2: AudioConfig,
    channel_open: bool,
    running: u64,
    current: u64,
    frame_ready: bool,
)
    ensures
        capture_next(phase, first, true, c1).1 is Exit || capture_next(
            capture_next(phase, first, true, c1).0,
            second,
            true,
            c2,
        ).1 is Exit,
        capture_next(phase, first, true, c1).1 is Exit || capture_next(phase, first, true, c1).1 is Close,
        transform_next(channel_open, true, running, current) == TransformAction::Exit,
        render_next(frame_ready, true) == RenderAction::Exit,
{
}

/// A capture stage that has exited stays finished.
pub proof fn lemma_finished_is_final(event: CaptureEvent, quit: bool, config: AudioConfig)
    ensures
        capture_next(CapturePhase::Finished, event, quit, config) == (
            CapturePhase::Finished,
            CaptureAction::Exit,
        ),
{
}

} // verus!
