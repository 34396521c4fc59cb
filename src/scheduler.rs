//! The frame scheduler: turns elapsed wall-clock time into whole timer
//! ticks, each followed by a bounded burst of instructions.
use vstd::prelude::*;
use crate::error::AppError;
use crate::execute::{random_byte, step_spec, StepOutcome};
use crate::keypad::Keypad;
use crate::machine::{tick_spec, ExecutionMode, Machine, MachineView};
use crate::screen::Screen;

verus! {

/// Length of one timer tick, in microseconds (60 Hz).
pub const DEFAULT_TICK_PERIOD_US: u64 = 16_666;

/// Instructions executed per timer tick unless configured otherwise.
pub const DEFAULT_INSTRUCTIONS_PER_TICK: u32 = 15;

/// Accumulated lag and the knobs of the timing model.
pub struct Scheduler {
    /// Elapsed time not yet consumed by ticks, in microseconds.
    pub lag_us: u64,
    /// Length of one tick, in microseconds.
    pub tick_period_us: u64,
    /// Most instructions executed after each tick.
    pub instructions_per_tick: u32,
    /// Whether timers keep counting down while a key wait is pending.
    pub timers_run_while_awaiting_key: bool,
}

/// Whether a machine in `mode` neither ticks timers nor executes.
pub open spec fn suspended_in(timers_run_while_awaiting_key: bool, mode: ExecutionMode) -> bool {
    match mode {
        ExecutionMode::Running => false,
        ExecutionMode::Paused => true,
        ExecutionMode::AwaitingKey(_) => !timers_run_while_awaiting_key,
    }
}

/// Up to `budget` steps from `m`, stopping early when the machine leaves
/// the running mode or a step fails; step `k` uses random byte `rnds[k]`.
/// The result holds the state reached and the error, if a step failed.
pub open spec fn steps_spec(
    m: MachineView,
    cells: Seq<bool>,
    keys: Seq<bool>,
    budget: nat,
    rnds: Seq<u8>,
) -> (MachineView, Seq<bool>, Option<AppError>)
    decreases budget,
{
    if budget == 0 || m.mode != ExecutionMode::Running {
        (m, cells, None)
    } else {
        match step_spec(m, cells, keys, rnds[0]) {
            Err(e) => (m, cells, Some(e)),
            Ok((m2, c2, _)) => steps_spec(m2, c2, keys, (budget - 1) as nat, rnds.drop_first()),
        }
    }
}

/// One tick: the timers count down once, then up to `budget` steps run.
pub open spec fn tick_run_spec(
    m: MachineView,
    cells: Seq<bool>,
    keys: Seq<bool>,
    budget: nat,
    rnds: Seq<u8>,
) -> (MachineView, Seq<bool>, Option<AppError>) {
    steps_spec(tick_spec(m), cells, keys, budget, rnds)
}

/// Ticks run while at least one period of lag is left and the machine is
/// not suspended; tick number `done` uses the random bytes `rnds[done]`.
/// The result holds the state, the lag left, the number of ticks run and
/// the error that stopped them, if any.
pub open spec fn frame_spec(
    s: Scheduler,
    m: MachineView,
    cells: Seq<bool>,
    keys: Seq<bool>,
    lag: int,
    done: nat,
    rnds: Seq<Seq<u8>>,
) -> (MachineView, Seq<bool>, int, nat, Option<AppError>)
    decreases lag,
{
    if s.tick_period_us == 0 || lag < s.tick_period_us || suspended_in(
        s.timers_run_while_awaiting_key,
        m.mode,
    ) {
        (m, cells, lag, done, None)
    } else {
        let (m2, c2, err) = tick_run_spec(m, cells, keys, s.instructions_per_tick as nat, rnds[done as int]);
        match err {
            Some(e) => (m2, c2, lag - s.tick_period_us, done + 1, Some(e)),
            None => frame_spec(s, m2, c2, keys, lag - s.tick_period_us, done + 1, rnds),
        }
    }
}

/// `r`, `m1` and `c1` report the outcome `out` of a run: its state and
/// display, and `Ok` or the error that stopped it.
pub open spec fn ran_as(
    r: Result<(), AppError>,
    out: (MachineView, Seq<bool>, Option<AppError>),
    m1: MachineView,
    c1: Seq<bool>,
) -> bool {
    &&& m1 == out.0
    &&& c1 == out.1
    &&& r == (match out.2 {
        None => Ok::<(), AppError>(()),
        Some(e) => Err(e),
    })
}

/// `r`, `lag1`, `m1` and `c1` report the outcome `out` of a frame: its
/// state, display and remaining lag, and the number of ticks run or the
/// error that stopped them.
pub open spec fn frame_ran_as(
    r: Result<u64, AppError>,
    lag1: u64,
    out: (MachineView, Seq<bool>, int, nat, Option<AppError>),
    m1: MachineView,
    c1: Seq<bool>,
) -> bool {
    &&& m1 == out.0
    &&& c1 == out.1
    &&& lag1 == out.2
    &&& r == (match out.4 {
        None => Ok::<u64, AppError>(out.3 as u64),
        Some(e) => Err(e),
    })
}

/// `n` random bytes.
fn random_bytes(n: u32) -> (r: Vec<u8>)
    ensures
        r@.len() == n,
{
    let mut rnds: Vec<u8> = Vec::new();
    let mut k: u32 = 0;
    while k < n
        invariant
            k <= n,
            rnds@.len() == k,
        decreases n - k,
    {
        rnds.push(random_byte());
        k = k + 1;
    }
    rnds
}

impl Scheduler {
    /// The tick period is positive.
    pub open spec fn wf(&self) -> bool {
        self.tick_period_us > 0
    }

    /// A scheduler with no lag, a 60 Hz tick, the default instruction
    /// budget, and timers that keep running during a key wait.
    pub fn new() -> (s: Scheduler)
        ensures
            s.wf(),
            s.lag_us == 0,
            s.tick_period_us == DEFAULT_TICK_PERIOD_US,
            s.instructions_per_tick == DEFAULT_INSTRUCTIONS_PER_TICK,
            s.timers_run_while_awaiting_key,
    {
        Scheduler {
            lag_us: 0,
            tick_period_us: DEFAULT_TICK_PERIOD_US,
            instructions_per_tick: DEFAULT_INSTRUCTIONS_PER_TICK,
            timers_run_while_awaiting_key: true,
        }
    }

    /// A scheduler with no lag and the given tick period, budget and
    /// key-wait timer policy.
    pub fn with_config(
        tick_period_us: u64,
        instructions_per_tick: u32,
        timers_run_while_awaiting_key: bool,
    ) -> (s: Scheduler)
        requires
            tick_period_us > 0,
        ensures
            s.wf(),
            s.lag_us == 0,
            s.tick_period_us == tick_period_us,
            s.instructions_per_tick == instructions_per_tick,
            s.timers_run_while_awaiting_key == timers_run_while_awaiting_key,
    {
        Scheduler { lag_us: 0, tick_period_us, instructions_per_tick, timers_run_while_awaiting_key }
    }

    /// Sets the number of instructions executed per tick.
    pub fn set_speed(&mut self, instructions_per_tick: u32)
        ensures
            *final(self) == (Scheduler { instructions_per_tick, ..*old(self) }),
    {
        self.instructions_per_tick = instructions_per_tick;
    }

    /// Runs one tick: counts the timers down once, then executes up to
    /// `budget` instructions, step `k` using `rnds[k]` for `Cxkk`.
    pub fn run_tick_with(
        machine: &mut Machine,
        screen: &mut Screen,
        keypad: &Keypad,
        budget: u32,
        rnds: &[u8],
    ) -> (r: Result<(), AppError>)
        requires
            rnds@.len() >= budget,
        ensures
            ran_as(
                r,
                tick_run_spec(old(machine)@, old(screen).pixels@, keypad.keys@, budget as nat, rnds@),
                final(machine)@,
                final(screen).pixels@,
            ),
    {
        machine.tick_timers();
        let ghost start_m = machine@;
        let ghost start_c = screen.pixels@;
        let mut k: u32 = 0;
        assert(rnds@.subrange(0, rnds@.len() as int) =~= rnds@);
        while k < budget
            invariant
                k <= budget <= rnds@.len(),
                start_m == tick_spec(old(machine)@),
                start_c == old(screen).pixels@,
                steps_spec(start_m, start_c, keypad.keys@, budget as nat, rnds@) == steps_spec(
                    machine@,
                    screen.pixels@,
                    keypad.keys@,
                    (budget - k) as nat,
                    rnds@.subrange(k as int, rnds@.len() as int),
                ),
            decreases budget - k,
        {
            let ghost rest = rnds@.subrange(k as int, rnds@.len() as int);
            if !matches!(machine.mode, ExecutionMode::Running) {
                assert(steps_spec(machine@, screen.pixels@, keypad.keys@, (budget - k) as nat, rest)
                    == (machine@, screen.pixels@, None::<AppError>));
                return Ok(());
            }
            let ghost m0 = machine@;
            let ghost c0 = screen.pixels@;
            let outcome = machine.step_with(screen, keypad, rnds[k as usize]);
            assert(rest[0] == rnds@[k as int]);
            assert(rest.drop_first() =~= rnds@.subrange(k + 1, rnds@.len() as int));
            match outcome {
                Err(e) => {
                    assert(steps_spec(m0, c0, keypad.keys@, (budget - k) as nat, rest) == (
                        m0,
                        c0,
                        Some(e),
                    ));
                    return Err(e);
                },
                Ok(_) => {
                    assert(steps_spec(m0, c0, keypad.keys@, (budget - k) as nat, rest) == steps_spec(
                        machine@,
                        screen.pixels@,
                        keypad.keys@,
                        (budget - k - 1) as nat,
                        rest.drop_first(),
                    ));
                },
            }
            k = k + 1;
        }
        assert(steps_spec(machine@, screen.pixels@, keypad.keys@, 0, rnds@.subrange(k as int, rnds@.len() as int))
            == (machine@, screen.pixels@, None::<AppError>));
        Ok(())
    }

    /// Runs one tick, drawing a fresh random byte for each instruction.
    pub fn run_tick(machine: &mut Machine, screen: &mut Screen, keypad: &Keypad, budget: u32) -> (r:
        Result<(), AppError>)
        ensures
            exists|rnds: Seq<u8>|
                ran_as(
                    r,
                    #[trigger] tick_run_spec(
                        old(machine)@,
                        old(screen).pixels@,
                        keypad.keys@,
                        budget as nat,
                        rnds,
                    ),
                    final(machine)@,
                    final(screen).pixels@,
                ),
    {
        let rnds = random_bytes(budget);
        let bytes = rnds.as_slice();
        Self::run_tick_with(machine, screen, keypad, budget, bytes)
    }

    /// Whether a machine in `mode` is suspended under this scheduler's
    /// key-wait policy.
    pub fn suspended(&self, mode: ExecutionMode) -> (r: bool)
        ensures
            r == suspended_in(self.timers_run_while_awaiting_key, mode),
    {
        match mode {
            ExecutionMode::Running => false,
            ExecutionMode::Paused => true,
            ExecutionMode::AwaitingKey(_) => !self.timers_run_while_awaiting_key,
        }
    }

    /// Consumes `elapsed_us` of wall-clock time. While the machine is
    /// suspended nothing happens and no lag builds up. Otherwise the time is
    /// added to the lag, and while a whole period of lag is left and the
    /// machine is not suspended, one period is taken off, the timers tick
    /// once and up to `instructions_per_tick` instructions run. Returns the
    /// number of ticks run, or the error of the step that failed.
    pub fn run_frame(
        &mut self,
        elapsed_us: u64,
        machine: &mut Machine,
        screen: &mut Screen,
        keypad: &Keypad,
    ) -> (r: Result<u64, AppError>)
        requires
            old(self).wf(),
            old(self).lag_us + elapsed_us <= u64::MAX,
        ensures
            final(self).tick_period_us == old(self).tick_period_us,
            final(self).instructions_per_tick == old(self).instructions_per_tick,
            final(self).timers_run_while_awaiting_key == old(self).timers_run_while_awaiting_key,
            suspended_in(old(self).timers_run_while_awaiting_key, old(machine)@.mode) ==> {
                &&& r == Ok::<u64, AppError>(0)
                &&& *final(self) == *old(self)
                &&& final(machine)@ == old(machine)@
                &&& final(screen).pixels@ == old(screen).pixels@
            },
            !suspended_in(old(self).timers_run_while_awaiting_key, old(machine)@.mode) ==> exists|
                rnds: Seq<Seq<u8>>,
            |
                frame_ran_as(
                    r,
                    final(self).lag_us,
                    #[trigger] frame_spec(
                        *old(self),
                        old(machine)@,
                        old(screen).pixels@,
                        keypad.keys@,
                        old(self).lag_us + elapsed_us,
                        0,
                        rnds,
                    ),
                    final(machine)@,
                    final(screen).pixels@,
                ),
    {
        if self.suspended(machine.mode) {
            return Ok(0);
        }
        let ghost s0 = *self;
        let ghost m_start = machine@;
        let ghost c_start = screen.pixels@;
        self.lag_us = self.lag_us + elapsed_us;
        let ghost total = self.lag_us as int;
        let ghost mut rs: Seq<Seq<u8>> = Seq::empty();
        let mut ticks: u64 = 0;
        while self.lag_us >= self.tick_period_us && !self.suspended(machine.mode)
            invariant
                s0.tick_period_us > 0,
                s0 == *old(self),
                m_start == old(machine)@,
                c_start == old(screen).pixels@,
                self.tick_period_us == s0.tick_period_us,
                self.instructions_per_tick == s0.instructions_per_tick,
                self.timers_run_while_awaiting_key == s0.timers_run_while_awaiting_key,
                total <= u64::MAX,
                total == old(self).lag_us + elapsed_us,
                rs.len() == ticks,
                ticks + self.lag_us <= total,
                forall|rr: Seq<Seq<u8>>|
                    rr.len() >= ticks && rr.subrange(0, ticks as int) == rs ==> #[trigger] frame_spec(
                        s0,
                        m_start,
                        c_start,
                        keypad.keys@,
                        total,
                        0,
                        rr,
                    ) == frame_spec(
                        s0,
                        machine@,
                        screen.pixels@,
                        keypad.keys@,
                        self.lag_us as int,
                        ticks as nat,
                        rr,
                    ),
            decreases self.lag_us,
        {
            let ghost lag0 = self.lag_us as int;
            let ghost m0 = machine@;
            let ghost c0 = screen.pixels@;
            self.lag_us = self.lag_us - self.tick_period_us;
            let rnds = random_bytes(self.instructions_per_tick);
            let bytes = rnds.as_slice();
            let res = Self::run_tick_with(machine, screen, keypad, self.instructions_per_tick, bytes);
            let ghost rs1 = rs.push(bytes@);
            assert forall|rr: Seq<Seq<u8>>|
                rr.len() >= ticks + 1 && rr.subrange(0, ticks + 1) == rs1 implies #[trigger] frame_spec(
                    s0,
                    m_start,
                    c_start,
                    keypad.keys@,
                    total,
                    0,
                    rr,
                ) == frame_spec(s0, m0, c0, keypad.keys@, lag0, ticks as nat, rr) && rr[ticks as int]
                == bytes@ by {
                assert(rr.subrange(0, ticks as int) =~= rr.subrange(0, ticks + 1).subrange(0, ticks as int));
                assert(rs1.subrange(0, ticks as int) =~= rs);
                assert(rr[ticks as int] == rr.subrange(0, ticks + 1)[ticks as int]);
            }
            proof {
                rs = rs1;
            }
            ticks = ticks + 1;
            match res {
                Err(e) => {
                    assert(rs1.subrange(0, ticks as int) =~= rs1);
                    assert(rs1[ticks - 1] == bytes@);
                    assert(lag0 >= s0.tick_period_us);
                    assert(!suspended_in(s0.timers_run_while_awaiting_key, m0.mode));
                    assert(frame_spec(s0, m0, c0, keypad.keys@, lag0, (ticks - 1) as nat, rs1) == (
                        machine@,
                        screen.pixels@,
                        lag0 - s0.tick_period_us,
                        ticks as nat,
                        Some(e),
                    ));
                    assert(frame_spec(s0, m_start, c_start, keypad.keys@, total, 0, rs1) == frame_spec(
                        s0,
                        m0,
                        c0,
                        keypad.keys@,
                        lag0,
                        (ticks - 1) as nat,
                        rs1,
                    ));
                    return Err(e);
                },
                Ok(()) => {},
            }
        }
        assert(rs.subrange(0, ticks as int) =~= rs);
        assert(frame_spec(s0, m_start, c_start, keypad.keys@, total, 0, rs) == frame_spec(
            s0,
            machine@,
            screen.pixels@,
            keypad.keys@,
            self.lag_us as int,
            ticks as nat,
            rs,
        ));
        Ok(ticks)
    }
}

} // verus!
