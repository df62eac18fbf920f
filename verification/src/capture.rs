//! The capture schedule: a clock that advances by a fixed step, a frame
//! counter, and the decision, tick by tick, of what the host has to do:
//! open the encoder, render and submit a frame, finish.
//!
//! The host runs the loop. Each tick it calls
//! [`CapturePipeline::update_capture`] and carries out the plan that comes
//! back; the pipeline itself touches neither a file nor an encoder.

use vstd::prelude::*;

verus! {

/// The step of the virtual clock: one fiftieth of a second.
pub const TICK_MILLIS: u64 = 20;

/// The width of a frame in pixels.
pub const FRAME_WIDTH: u32 = 1920;

/// The height of a frame in pixels.
pub const FRAME_HEIGHT: u32 = 1080;

/// Where the pipeline stands.
#[derive(Clone, Copy, Debug, PartialEq, Eq)]
pub enum CaptureState {
    /// No tick has happened; the encoder is not open.
    Idle,
    /// The encoder is open and frames are still due.
    Capturing,
    /// Every frame has been submitted and the encoder has been told to
    /// finish.
    Finished,
}

/// How many frames have been submitted, out of how many.
#[derive(Clone, Copy, Debug, PartialEq, Eq)]
pub struct FrameCounter {
    pub current: u32,
    pub total: u32,
}

/// The virtual clock. It is advanced by the pipeline alone, never read from
/// the host's clock.
#[derive(Clone, Copy, Debug, PartialEq, Eq)]
pub struct VirtualClock {
    pub elapsed_millis: u64,
}

/// What the host has to do in one tick, in this order: open the encoder,
/// render the scene as it is at `frame_at` milliseconds and submit the
/// frame, finish the encoder and stop.
#[derive(Clone, Copy, Debug, PartialEq, Eq)]
pub struct TickPlan {
    pub open_encoder: bool,
    pub frame_at: Option<u64>,
    pub finish: bool,
}

/// The state of a capture run.
#[derive(Clone, Copy, Debug, PartialEq, Eq)]
pub struct Schedule {
    pub state: CaptureState,
    pub counter: FrameCounter,
    pub clock: VirtualClock,
}

/// A plan together with the progress line to show for the tick.
#[derive(Debug, PartialEq, Eq)]
pub struct TickAction {
    pub plan: TickPlan,
    pub progress: String,
}

impl Schedule {
    /// A run of `total` frames before its first tick.
    pub open spec fn start(total: u32) -> Schedule {
        Schedule {
            state: CaptureState::Idle,
            counter: FrameCounter { current: 0, total },
            clock: VirtualClock { elapsed_millis: 0 },
        }
    }

    /// What holds of every state that a run passes through: no more frames
    /// are counted than are due, the clock shows one step for each frame,
    /// and the state says whether frames are still due.
    pub open spec fn wf(self) -> bool {
        &&& self.counter.current <= self.counter.total
        &&& self.clock.elapsed_millis == TICK_MILLIS * self.counter.current
        &&& self.state is Idle ==> self.counter.current == 0
        &&& self.state is Capturing ==> 0 < self.counter.current < self.counter.total
        &&& self.state is Finished ==> self.counter.current == self.counter.total
    }

    /// Whether this tick renders a frame: the run is not finished and a
    /// frame is still due.
    pub open spec fn frame_due(self) -> bool {
        !(self.state is Finished) && self.counter.current < self.counter.total
    }

    /// The state after one tick. The clock advances and the counter goes up
    /// by one when a frame is due; the run is finished the moment the
    /// counter has reached the total; a finished run stays as it is.
    pub open spec fn next(self) -> Schedule {
        if self.state is Finished {
            self
        } else {
            let current = if self.frame_due() {
                (self.counter.current + 1) as u32
            } else {
                self.counter.current
            };
            let elapsed = if self.frame_due() {
                (self.clock.elapsed_millis + TICK_MILLIS) as u64
            } else {
                self.clock.elapsed_millis
            };
            Schedule {
                state: if current == self.counter.total {
                    CaptureState::Finished
                } else {
                    CaptureState::Capturing
                },
                counter: FrameCounter { current, total: self.counter.total },
                clock: VirtualClock { elapsed_millis: elapsed },
            }
        }
    }

    /// What the host has to do in the tick that leads from this state to
    /// `next`: open the encoder if this is the first tick, render a frame at
    /// the advanced time if one is due, and finish if that was the last.
    pub open spec fn plan(self) -> TickPlan {
        if self.state is Finished {
            TickPlan { open_encoder: false, frame_at: None, finish: false }
        } else {
            TickPlan {
                open_encoder: self.state is Idle,
                frame_at: if self.frame_due() {
                    Some(self.next().clock.elapsed_millis)
                } else {
                    None
                },
                finish: self.next().state is Finished,
            }
        }
    }

    /// The state after `ticks` ticks.
    pub open spec fn run(self, ticks: nat) -> Schedule
        decreases ticks,
    {
        if ticks == 0 {
            self
        } else {
            self.run((ticks - 1) as nat).next()
        }
    }

    /// The plan of tick number `tick`, counting from one.
    pub open spec fn plan_of_tick(self, tick: nat) -> TickPlan
        recommends
            tick >= 1,
    {
        self.run((tick - 1) as nat).plan()
    }
}

/// The character of a decimal digit.
pub open spec fn digit(value: nat) -> char {
    if value == 0 {
        '0'
    } else if value == 1 {
        '1'
    } else if value == 2 {
        '2'
    } else if value == 3 {
        '3'
    } else if value == 4 {
        '4'
    } else if value == 5 {
        '5'
    } else if value == 6 {
        '6'
    } else if value == 7 {
        '7'
    } else if value == 8 {
        '8'
    } else {
        '9'
    }
}

/// A number in decimal digits, with zeros in front to fill `width` places.
pub open spec fn padded(value: nat, width: nat) -> Seq<char>
    decreases value + width,
{
    if value < 10 && width <= 1 {
        seq![digit(value)]
    } else {
        padded(value / 10, if width > 0 { (width - 1) as nat } else { 0 }).push(digit(value % 10))
    }
}

/// The progress line of a tick: `FRAME: ` and the frames submitted so far
/// out of the total, both filled to three places, with ` - FINISH` behind
/// them on the last tick.
pub open spec fn progress_text(current: nat, total: nat, finish: bool) -> Seq<char> {
    "FRAME: "@ + padded(current, 3) + "/"@ + padded(total, 3) + if finish {
        " - FINISH"@
    } else {
        Seq::<char>::empty()
    }
}

/// The text of one decimal digit.
fn digit_text(value: u32) -> (text: &'static str)
    requires
        value < 10,
    ensures
        text@ == seq![digit(value as nat)],
{
    proof {
        reveal_strlit("0");
        reveal_strlit("1");
        reveal_strlit("2");
        reveal_strlit("3");
        reveal_strlit("4");
        reveal_strlit("5");
        reveal_strlit("6");
        reveal_strlit("7");
        reveal_strlit("8");
        reveal_strlit("9");
    }
    let text = if value == 0 {
        "0"
    } else if value == 1 {
        "1"
    } else if value == 2 {
        "2"
    } else if value == 3 {
        "3"
    } else if value == 4 {
        "4"
    } else if value == 5 {
        "5"
    } else if value == 6 {
        "6"
    } else if value == 7 {
        "7"
    } else if value == 8 {
        "8"
    } else {
        "9"
    };
    assert(text@ =~= seq![digit(value as nat)]);
    text
}

/// Appends a number in decimal digits, filled with zeros to `width` places.
fn push_padded(line: &mut String, value: u32, width: u32)
    ensures
        final(line)@ == old(line)@ + padded(value as nat, width as nat),
    decreases value + width,
{
    if value < 10 && width <= 1 {
        line.append(digit_text(value));
    } else {
        push_padded(line, value / 10, if width > 0 { width - 1 } else { 0 });
        line.append(digit_text(value % 10));
        assert(line@ =~= old(line)@ + padded(value as nat, width as nat));
    }
}

/// The progress line of a tick.
pub fn progress_line(current: u32, total: u32, finish: bool) -> (line: String)
    ensures
        line@ == progress_text(current as nat, total as nat, finish),
{
    let mut line = String::from_str("FRAME: ");
    push_padded(&mut line, current, 3);
    line.append("/");
    push_padded(&mut line, total, 3);
    if finish {
        line.append(" - FINISH");
    }
    assert(line@ =~= progress_text(current as nat, total as nat, finish));
    line
}

/// A capture run in progress.
pub struct CapturePipeline {
    schedule: Schedule,
}

impl View for CapturePipeline {
    type V = Schedule;

    closed spec fn view(&self) -> Schedule {
        self.schedule
    }
}

impl CapturePipeline {
    #[verifier::type_invariant]
    spec fn well_formed(self) -> bool {
        self.schedule.wf()
    }

    /// A run of `total` frames, before its first tick.
    pub fn new(total: u32) -> (pipeline: CapturePipeline)
        ensures
            pipeline@ == Schedule::start(total),
            pipeline@.wf(),
    {
        CapturePipeline {
            schedule: Schedule {
                state: CaptureState::Idle,
                counter: FrameCounter { current: 0, total },
                clock: VirtualClock { elapsed_millis: 0 },
            },
        }
    }

    /// The state of the run.
    pub fn schedule(&self) -> (schedule: Schedule)
        ensures
            schedule == self@,
            schedule.wf(),
    {
        proof {
            use_type_invariant(self);
        }
        self.schedule
    }

    /// One tick. Advances the clock and the counter if a frame is due, and
    /// says what the host has to do and show.
    pub fn update_capture(&mut self) -> (action: TickAction)
        ensures
            final(self)@ == old(self)@.next(),
            final(self)@.wf(),
            action.plan == old(self)@.plan(),
            action.progress@ == if old(self)@.state is Finished {
                Seq::<char>::empty()
            } else {
                progress_text(
                    final(self)@.counter.current as nat,
                    final(self)@.counter.total as nat,
                    action.plan.finish,
                )
            },
    {
        proof {
            use_type_invariant(&*self);
        }
        let before = self.schedule;
        match before.state {
            CaptureState::Finished => TickAction {
                plan: TickPlan { open_encoder: false, frame_at: None, finish: false },
                progress: String::new(),
            },
            _ => {
                let open_encoder = match before.state {
                    CaptureState::Idle => true,
                    _ => false,
                };
                let due = before.counter.current < before.counter.total;
                let current: u32 = if due {
                    before.counter.current + 1
                } else {
                    before.counter.current
                };
                let elapsed: u64 = if due {
                    before.clock.elapsed_millis + TICK_MILLIS
                } else {
                    before.clock.elapsed_millis
                };
                let finish = current == before.counter.total;
                self.schedule = Schedule {
                    state: if finish {
                        CaptureState::Finished
                    } else {
                        CaptureState::Capturing
                    },
                    counter: FrameCounter { current, total: before.counter.total },
                    clock: VirtualClock { elapsed_millis: elapsed },
                };
                TickAction {
                    plan: TickPlan {
                        open_encoder,
                        frame_at: if due {
                            Some(elapsed)
                        } else {
                            None
                        },
                        finish,
                    },
                    progress: progress_line(current, before.counter.total, finish),
                }
            },
        }
    }
}

/// The smaller of two numbers.
pub open spec fn least(a: nat, b: nat) -> nat {
    if a <= b {
        a
    } else {
        b
    }
}

/// How many of the first `ticks` ticks of a run render a frame.
pub open spec fn frames_within(start: Schedule, ticks: nat) -> nat
    decreases ticks,
{
    if ticks == 0 {
        0
    } else {
        frames_within(start, (ticks - 1) as nat) + if start.plan_of_tick(ticks).frame_at is Some {
            1nat
        } else {
            0nat
        }
    }
}

/// How many of the first `ticks` ticks of a run tell the host to finish.
pub open spec fn finishes_within(start: Schedule, ticks: nat) -> nat
    decreases ticks,
{
    if ticks == 0 {
        0
    } else {
        finishes_within(start, (ticks - 1) as nat) + if start.plan_of_tick(ticks).finish {
            1nat
        } else {
            0nat
        }
    }
}

/// A tick keeps a well-formed state well-formed.
pub proof fn lemma_next_wf(schedule: Schedule)
    requires
        schedule.wf(),
    ensures
        schedule.next().wf(),
        schedule.next().counter.total == schedule.counter.total,
{
}

/// Where a run of `total` frames stands after `ticks` ticks: it has
/// submitted one frame a tick until all are in, its clock shows twenty
/// milliseconds for each of them, and it is finished from the tick of the
/// last frame on (from the first tick on, if no frame was asked for).
pub proof fn lemma_run_closed_form(total: u32, ticks: nat)
    ensures
        ({
            let reached = Schedule::start(total).run(ticks);
            &&& reached.wf()
            &&& reached.counter.total == total
            &&& reached.counter.current == least(ticks, total as nat)
            &&& reached.clock.elapsed_millis == TICK_MILLIS * least(ticks, total as nat)
            &&& (reached.state is Idle <==> ticks == 0)
            &&& (reached.state is Finished <==> ticks >= 1 && ticks >= total)
        }),
    decreases ticks,
{
    if ticks > 0 {
        lemma_run_closed_form(total, (ticks - 1) as nat);
    }
}

/// What each tick of a run of `total` frames asks of the host. Tick `tick`
/// renders a frame exactly when `tick <= total`, at `20 * tick`
/// milliseconds; the encoder is opened in the first tick and in no other;
/// and the host is told to finish in the tick of the last frame and in no
/// other (in the first tick, if no frame was asked for).
pub proof fn lemma_tick_plans(total: u32, tick: nat)
    requires
        tick >= 1,
    ensures
        ({
            let plan = Schedule::start(total).plan_of_tick(tick);
            &&& plan.frame_at == if tick <= total {
                Some((TICK_MILLIS * tick) as u64)
            } else {
                None
            }
            &&& (plan.open_encoder <==> tick == 1)
            &&& (plan.finish <==> (tick == total || (tick == 1 && total == 0)))
        }),
{
    lemma_run_closed_form(total, (tick - 1) as nat);
    lemma_run_closed_form(total, tick);
}

/// The encoder gets exactly as many frames as were asked for: after `ticks`
/// ticks it has got one for each tick, up to the total, and never more; and
/// the host is told to finish exactly once.
pub proof fn lemma_frame_count_exact(total: u32, ticks: nat)
    ensures
        frames_within(Schedule::start(total), ticks) == least(ticks, total as nat),
        finishes_within(Schedule::start(total), ticks) == if ticks >= 1 && ticks >= total {
            1nat
        } else {
            0nat
        },
        ticks >= total ==> frames_within(Schedule::start(total), ticks) == total,
    decreases ticks,
{
    if ticks > 0 {
        lemma_frame_count_exact(total, (ticks - 1) as nat);
        lemma_tick_plans(total, ticks);
    }
}

/// Frames are rendered in strictly increasing time order: a later tick's
/// frame is later on the virtual clock.
pub proof fn lemma_frames_in_time_order(total: u32, earlier: nat, later: nat)
    requires
        1 <= earlier < later <= total,
    ensures
        Schedule::start(total).plan_of_tick(earlier).frame_at is Some,
        Schedule::start(total).plan_of_tick(later).frame_at is Some,
        Schedule::start(total).plan_of_tick(earlier).frame_at->0 < Schedule::start(
            total,
        ).plan_of_tick(later).frame_at->0,
{
    lemma_tick_plans(total, earlier);
    lemma_tick_plans(total, later);
}

} // verus!
