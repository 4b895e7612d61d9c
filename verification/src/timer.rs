//! Timers 0 and 1, the software event scheduler driven by the timer
//! interrupt, blocking-delay arithmetic and the watchdog control word.
//!
//! The scheduler keeps, per channel, a tick counter and ten event slots.
//! Each active slot counts down one per timer interrupt and fires when it
//! reaches its interval, then reloads.  Callbacks are kept by the caller,
//! indexed by slot: [`TimerState::timer_tick`] reports which slots fire.

use vstd::prelude::*;
use crate::bits::lemma_truncate_u64;
use crate::registers::{
    EXTERNAL_CRYSTAL_CLOCK, REG_TCSR0, REG_TCSR1, REG_TICR0, REG_TICR1, TIF0, TIF1, TMR0RST,
    TMR0_CKE, TMR1RST, TMR1_CKE, WDT_INTERVAL_MASK, WDT_WTE, WDT_WTEN, WDT_WTIE, WDT_WTIF, WDT_WTR,
    WDT_WTRE,
};

verus! {

// ============================================================================
// Public Types
// ============================================================================

/// Timer channel selection
#[derive(Clone, Copy, PartialEq, Eq, Debug, Structural)]
pub enum TimerChannel {
    Timer0,
    Timer1,
}

/// Timer operating mode (bits 28:27 of TCSR)
#[derive(Clone, Copy, PartialEq, Eq, Debug, Structural)]
pub enum TimerOpMode {
    /// Fire once, then stop
    OneShot,
    /// Fire repeatedly at the configured interval
    Periodic,
    /// Toggle output on each tick
    Toggle,
    /// Continuous (uninterrupt) mode
    Continuous,
}

impl TimerOpMode {
    /// Hardware encoding of the mode (0..=3).
    pub fn code(self) -> (r: u32)
        ensures
            r == spec_mode_code(self),
            r <= 3,
    {
        match self {
            TimerOpMode::OneShot => 0,
            TimerOpMode::Periodic => 1,
            TimerOpMode::Toggle => 2,
            TimerOpMode::Continuous => 3,
        }
    }
}

pub open spec fn spec_mode_code(m: TimerOpMode) -> u32 {
    match m {
        TimerOpMode::OneShot => 0,
        TimerOpMode::Periodic => 1,
        TimerOpMode::Toggle => 2,
        TimerOpMode::Continuous => 3,
    }
}

/// Timer prescaler value (code 0 = /1, … code 15 = /32768)
#[derive(Clone, Copy, PartialEq, Eq, Debug, Structural)]
pub enum TimerPrescaler {
    Div1,
    Div2,
    Div4,
    Div8,
    Div16,
    Div32,
    Div64,
    Div128,
    Div256,
    Div512,
    Div1024,
    Div2048,
    Div4096,
    Div8192,
    Div16384,
    Div32768,
}

impl TimerPrescaler {
    /// Hardware encoding of the prescaler (0..=15); the divisor is `1 << code`.
    pub fn code(self) -> (r: u32)
        ensures
            r == spec_prescaler_code(self),
            r <= 15,
    {
        match self {
            TimerPrescaler::Div1 => 0,
            TimerPrescaler::Div2 => 1,
            TimerPrescaler::Div4 => 2,
            TimerPrescaler::Div8 => 3,
            TimerPrescaler::Div16 => 4,
            TimerPrescaler::Div32 => 5,
            TimerPrescaler::Div64 => 6,
            TimerPrescaler::Div128 => 7,
            TimerPrescaler::Div256 => 8,
            TimerPrescaler::Div512 => 9,
            TimerPrescaler::Div1024 => 10,
            TimerPrescaler::Div2048 => 11,
            TimerPrescaler::Div4096 => 12,
            TimerPrescaler::Div8192 => 13,
            TimerPrescaler::Div16384 => 14,
            TimerPrescaler::Div32768 => 15,
        }
    }
}

pub open spec fn spec_prescaler_code(p: TimerPrescaler) -> u32 {
    match p {
        TimerPrescaler::Div1 => 0,
        TimerPrescaler::Div2 => 1,
        TimerPrescaler::Div4 => 2,
        TimerPrescaler::Div8 => 3,
        TimerPrescaler::Div16 => 4,
        TimerPrescaler::Div32 => 5,
        TimerPrescaler::Div64 => 6,
        TimerPrescaler::Div128 => 7,
        TimerPrescaler::Div256 => 8,
        TimerPrescaler::Div512 => 9,
        TimerPrescaler::Div1024 => 10,
        TimerPrescaler::Div2048 => 11,
        TimerPrescaler::Div4096 => 12,
        TimerPrescaler::Div8192 => 13,
        TimerPrescaler::Div16384 => 14,
        TimerPrescaler::Div32768 => 15,
    }
}

/// Watchdog timeout interval
#[derive(Clone, Copy, PartialEq, Eq, Debug, Structural)]
pub enum WdtInterval {
    /// 0.5 seconds
    Ms500,
    /// 5 seconds
    Sec5,
    /// 10 seconds
    Sec10,
    /// 20 seconds
    Sec20,
}

impl WdtInterval {
    /// Hardware encoding of the interval (0..=3), placed at bits 5:4 of WTCR.
    pub fn code(self) -> (r: u32)
        ensures
            r == spec_interval_code(self),
            r <= 3,
    {
        match self {
            WdtInterval::Ms500 => 0,
            WdtInterval::Sec5 => 1,
            WdtInterval::Sec10 => 2,
            WdtInterval::Sec20 => 3,
        }
    }
}

pub open spec fn spec_interval_code(i: WdtInterval) -> u32 {
    match i {
        WdtInterval::Ms500 => 0,
        WdtInterval::Sec5 => 1,
        WdtInterval::Sec10 => 2,
        WdtInterval::Sec20 => 3,
    }
}

// ============================================================================
// Constants
// ============================================================================

/// Number of software timer events per channel.
pub const TIMER_EVENT_COUNT: usize = 10;

/// Default timer reference clock rate (external crystal).
pub const TIMER_DEFAULT_CLOCK: u32 = EXTERNAL_CRYSTAL_CLOCK;

// ============================================================================
// Channel registers
// ============================================================================

/// Control/status register of a channel.
pub fn tcsr_reg(ch: TimerChannel) -> (r: u32)
    ensures
        r == (if ch == TimerChannel::Timer0 { REG_TCSR0 } else { REG_TCSR1 }),
{
    match ch {
        TimerChannel::Timer0 => REG_TCSR0,
        TimerChannel::Timer1 => REG_TCSR1,
    }
}

/// Initial-count register of a channel.
pub fn ticr_reg(ch: TimerChannel) -> (r: u32)
    ensures
        r == (if ch == TimerChannel::Timer0 { REG_TICR0 } else { REG_TICR1 }),
{
    match ch {
        TimerChannel::Timer0 => REG_TICR0,
        TimerChannel::Timer1 => REG_TICR1,
    }
}

/// Clock-enable bit of a channel in APBCLK.
pub fn clock_enable_bit(ch: TimerChannel) -> (r: u32)
    ensures
        r == (if ch == TimerChannel::Timer0 { TMR0_CKE } else { TMR1_CKE }),
{
    match ch {
        TimerChannel::Timer0 => TMR0_CKE,
        TimerChannel::Timer1 => TMR1_CKE,
    }
}

/// Reset bit of a channel in APBIPRST.
pub fn reset_bit(ch: TimerChannel) -> (r: u32)
    ensures
        r == (if ch == TimerChannel::Timer0 { TMR0RST } else { TMR1RST }),
{
    match ch {
        TimerChannel::Timer0 => TMR0RST,
        TimerChannel::Timer1 => TMR1RST,
    }
}

/// Interrupt flag of a channel in TISR.
pub fn interrupt_bit(ch: TimerChannel) -> (r: u32)
    ensures
        r == (if ch == TimerChannel::Timer0 { TIF0 } else { TIF1 }),
{
    match ch {
        TimerChannel::Timer0 => TIF0,
        TimerChannel::Timer1 => TIF1,
    }
}

// ============================================================================
// Software event table
// ============================================================================

/// One software timer event slot.
#[derive(Clone, Copy, PartialEq, Eq, Debug, Structural)]
pub struct TimerEvent {
    pub active: bool,
    /// Interval in ticks, reloaded after each firing
    pub init_tick: u32,
    /// Ticks left until the next firing
    pub cur_tick: u32,
}

/// A slot table is well formed: ten slots, and every active slot has
/// 1 <= ticks left <= interval.
pub open spec fn events_wf(evs: Seq<TimerEvent>) -> bool {
    &&& evs.len() == TIMER_EVENT_COUNT
    &&& forall|i: int|
        0 <= i < evs.len() && (#[trigger] evs[i]).active ==> 1 <= evs[i].cur_tick <= evs[i].init_tick
}

/// Whether slot `e` fires on the next tick.
pub open spec fn event_fires(e: TimerEvent) -> bool {
    e.active && e.cur_tick == 1
}

/// A slot after one tick: active slots count down, and reload their
/// interval when they fire.
pub open spec fn tick_event(e: TimerEvent) -> TimerEvent {
    if !e.active {
        e
    } else if e.cur_tick == 1 {
        TimerEvent { cur_tick: e.init_tick, ..e }
    } else {
        TimerEvent { cur_tick: (e.cur_tick - 1) as u32, ..e }
    }
}

/// The slot table after one tick.
pub open spec fn tick_events(evs: Seq<TimerEvent>) -> Seq<TimerEvent> {
    Seq::new(evs.len(), |i: int| tick_event(evs[i]))
}

/// The slot table after `k` ticks.
pub open spec fn ticks_events(evs: Seq<TimerEvent>, k: nat) -> Seq<TimerEvent>
    decreases k,
{
    if k == 0 {
        evs
    } else {
        tick_events(ticks_events(evs, (k - 1) as nat))
    }
}

/// All slots inactive, everything else as it was.
pub open spec fn deactivate_all(evs: Seq<TimerEvent>) -> Seq<TimerEvent> {
    Seq::new(evs.len(), |i: int| TimerEvent { active: false, ..evs[i] })
}

/// The first free slot, if any.
pub open spec fn first_free_slot(evs: Seq<TimerEvent>) -> Option<int> {
    if exists|i: int| 0 <= i < evs.len() && !(#[trigger] evs[i]).active {
        Some(
            choose|i: int|
                0 <= i < evs.len() && !(#[trigger] evs[i]).active && forall|j: int|
                    0 <= j < i ==> (#[trigger] evs[j]).active,
        )
    } else {
        None
    }
}

/// Per-channel timer bookkeeping.
pub struct TimerChannelState {
    pub tick_count: u32,
    pub tick_per_sec: u32,
    /// Reference clock rate in Hz
    pub ref_clock: u32,
    pub initialized: bool,
    pub events: Vec<TimerEvent>,
}

impl TimerChannelState {
    pub open spec fn wf(&self) -> bool {
        events_wf(self.events@)
    }

    fn new() -> (r: TimerChannelState)
        ensures
            r.wf(),
            r.tick_count == 0,
            r.tick_per_sec == 0,
            r.ref_clock == TIMER_DEFAULT_CLOCK,
            !r.initialized,
            forall|i: int|
                0 <= i < r.events@.len() ==> #[trigger] r.events@[i] == (TimerEvent {
                    active: false,
                    init_tick: 0,
                    cur_tick: 0,
                }),
    {
        let mut events: Vec<TimerEvent> = Vec::new();
        let mut i: usize = 0;
        while i < TIMER_EVENT_COUNT
            invariant
                i <= TIMER_EVENT_COUNT,
                events@.len() == i,
                forall|j: int|
                    0 <= j < i ==> #[trigger] events@[j] == (TimerEvent {
                        active: false,
                        init_tick: 0,
                        cur_tick: 0,
                    }),
            decreases TIMER_EVENT_COUNT - i,
        {
            events.push(TimerEvent { active: false, init_tick: 0, cur_tick: 0 });
            i = i + 1;
        }
        TimerChannelState {
            tick_count: 0,
            tick_per_sec: 0,
            ref_clock: TIMER_DEFAULT_CLOCK,
            initialized: false,
            events,
        }
    }

    fn clear_events(&mut self)
        requires
            old(self).wf(),
        ensures
            final(self).wf(),
            final(self).events@ == deactivate_all(old(self).events@),
            final(self).tick_count == old(self).tick_count,
            final(self).tick_per_sec == old(self).tick_per_sec,
            final(self).ref_clock == old(self).ref_clock,
            final(self).initialized == old(self).initialized,
    {
        let ghost evs0 = self.events@;
        let mut i: usize = 0;
        while i < self.events.len()
            invariant
                self.tick_count == old(self).tick_count,
                self.tick_per_sec == old(self).tick_per_sec,
                self.ref_clock == old(self).ref_clock,
                self.initialized == old(self).initialized,
                i <= self.events@.len(),
                self.events@.len() == evs0.len(),
                evs0.len() == TIMER_EVENT_COUNT,
                forall|j: int|
                    0 <= j < i ==> #[trigger] self.events@[j] == (TimerEvent {
                        active: false,
                        ..evs0[j]
                    }),
                forall|j: int| i <= j < evs0.len() ==> #[trigger] self.events@[j] == evs0[j],
            decreases self.events@.len() - i,
        {
            let e = self.events[i];
            self.events.set(i, TimerEvent { active: false, ..e });
            i = i + 1;
        }
        assert(self.events@ =~= deactivate_all(evs0));
    }

    fn set_event(&mut self, tick_interval: u32) -> (r: u32)
        requires
            old(self).wf(),
            tick_interval >= 1,
        ensures
            final(self).wf(),
            final(self).tick_count == old(self).tick_count,
            final(self).tick_per_sec == old(self).tick_per_sec,
            final(self).ref_clock == old(self).ref_clock,
            final(self).initialized == old(self).initialized,
            match first_free_slot(old(self).events@) {
                Some(i) => r == i + 1 && final(self).events@ == old(self).events@.update(
                    i,
                    TimerEvent { active: true, init_tick: tick_interval, cur_tick: tick_interval },
                ),
                None => r == 0 && final(self).events@ == old(self).events@,
            },
    {
        let mut i: usize = 0;
        while i < self.events.len()
            invariant
                self.tick_count == old(self).tick_count,
                self.tick_per_sec == old(self).tick_per_sec,
                self.ref_clock == old(self).ref_clock,
                self.initialized == old(self).initialized,
                self.wf(),
                tick_interval >= 1,
                self.events@ == old(self).events@,
                i <= self.events@.len(),
                forall|j: int| 0 <= j < i ==> (#[trigger] self.events@[j]).active,
            decreases self.events@.len() - i,
        {
            if !self.events[i].active {
                let ghost evs = self.events@;
                proof {
                    assert(exists|k: int| 0 <= k < evs.len() && !(#[trigger] evs[k]).active) by {
                        assert(!evs[i as int].active);
                    }
                    let c = choose|k: int|
                        0 <= k < evs.len() && !(#[trigger] evs[k]).active && forall|j: int|
                            0 <= j < k ==> (#[trigger] evs[j]).active;
                    assert(0 <= i < evs.len() && !evs[i as int].active && forall|j: int|
                        0 <= j < i ==> (#[trigger] evs[j]).active);
                    if c < i {
                        assert(evs[c].active);
                    }
                    if c > i {
                        assert(evs[i as int].active);
                    }
                    assert(first_free_slot(evs) == Some(i as int));
                }
                self.events.set(
                    i,
                    TimerEvent { active: true, init_tick: tick_interval, cur_tick: tick_interval },
                );
                assert forall|j: int|
                    0 <= j < self.events@.len() && (#[trigger] self.events@[j]).active implies 1
                    <= self.events@[j].cur_tick <= self.events@[j].init_tick by {
                    if j != i {
                        assert(self.events@[j] == evs[j]);
                    }
                }
                return (i + 1) as u32;
            }
            i = i + 1;
        }
        proof {
            let evs = self.events@;
            assert(!exists|k: int| 0 <= k < evs.len() && !(#[trigger] evs[k]).active);
        }
        0
    }

    fn clear_event(&mut self, event_id: u32)
        requires
            old(self).wf(),
        ensures
            final(self).wf(),
            final(self).tick_count == old(self).tick_count,
            final(self).tick_per_sec == old(self).tick_per_sec,
            final(self).ref_clock == old(self).ref_clock,
            final(self).initialized == old(self).initialized,
            1 <= event_id <= TIMER_EVENT_COUNT ==> final(self).events@ == old(self).events@.update(
                event_id - 1,
                TimerEvent { active: false, ..old(self).events@[event_id - 1] },
            ),
            !(1 <= event_id <= TIMER_EVENT_COUNT) ==> final(self).events@ == old(self).events@,
    {
        if event_id == 0 || event_id as usize > TIMER_EVENT_COUNT {
            return;
        }
        let k = (event_id - 1) as usize;
        let e = self.events[k];
        self.events.set(k, TimerEvent { active: false, ..e });
    }

    fn tick(&mut self) -> (fired: Vec<usize>)
        requires
            old(self).wf(),
        ensures
            final(self).wf(),
            final(self).tick_count == old(self).tick_count.wrapping_add(1),
            final(self).tick_per_sec == old(self).tick_per_sec,
            final(self).ref_clock == old(self).ref_clock,
            final(self).initialized == old(self).initialized,
            final(self).events@ == tick_events(old(self).events@),
            forall|j: int| 0 <= j < fired@.len() ==> #[trigger] fired@[j] < TIMER_EVENT_COUNT,
            forall|j: int, k: int| 0 <= j < k < fired@.len() ==> fired@[j] < fired@[k],
            forall|s: int|
                0 <= s < TIMER_EVENT_COUNT ==> (fired@.contains(s as usize) <==> event_fires(
                    #[trigger] old(self).events@[s],
                )),
    {
        self.tick_count = self.tick_count.wrapping_add(1);
        let ghost evs0 = self.events@;
        let mut fired: Vec<usize> = Vec::new();
        let mut i: usize = 0;
        while i < self.events.len()
            invariant
                self.tick_count == old(self).tick_count.wrapping_add(1),
                self.tick_per_sec == old(self).tick_per_sec,
                self.ref_clock == old(self).ref_clock,
                self.initialized == old(self).initialized,
                evs0 == old(self).events@,
                i <= self.events@.len(),
                self.events@.len() == evs0.len(),
                events_wf(evs0),
                forall|j: int| 0 <= j < i ==> #[trigger] self.events@[j] == tick_event(evs0[j]),
                forall|j: int| i <= j < evs0.len() ==> #[trigger] self.events@[j] == evs0[j],
                forall|j: int| 0 <= j < fired@.len() ==> #[trigger] fired@[j] < i,
                forall|j: int, k: int| 0 <= j < k < fired@.len() ==> fired@[j] < fired@[k],
                forall|s: int|
                    0 <= s < i ==> (fired@.contains(s as usize) <==> event_fires(
                        #[trigger] evs0[s],
                    )),
            decreases self.events@.len() - i,
        {
            let e = self.events[i];
            let ghost f0 = fired@;
            if e.active {
                if e.cur_tick == 1 {
                    fired.push(i);
                    self.events.set(i, TimerEvent { cur_tick: e.init_tick, ..e });
                } else {
                    self.events.set(i, TimerEvent { cur_tick: e.cur_tick - 1, ..e });
                }
            }
            proof {
                assert(fired@ == f0 || fired@ == f0.push(i));
                assert(fired@ == f0.push(i) <==> event_fires(evs0[i as int]));
                assert forall|s: int|
                    0 <= s < i + 1 implies (fired@.contains(s as usize) <==> event_fires(
                    #[trigger] evs0[s],
                )) by {
                    if fired@.contains(s as usize) {
                        let w = choose|w: int| 0 <= w < fired@.len() && fired@[w] == s as usize;
                        if w < f0.len() {
                            assert(f0[w] == s as usize);
                            assert(f0.contains(s as usize));
                        }
                    }
                    if s < i && f0.contains(s as usize) {
                        let w = choose|w: int| 0 <= w < f0.len() && f0[w] == s as usize;
                        assert(fired@[w] == s as usize);
                    }
                    if s == i && event_fires(evs0[s]) {
                        assert(fired@[fired@.len() - 1] == s as usize);
                    }
                    if s == i && f0.contains(s as usize) {
                        let w = choose|w: int| 0 <= w < f0.len() && f0[w] == s as usize;
                        assert(f0[w] < i);
                    }
                }
            }
            i = i + 1;
        }
        assert(self.events@ =~= tick_events(evs0));
        fired
    }
}

proof fn lemma_start_bits(p: u32, m: u32)
    by (bit_vector)
    requires
        p <= 15,
        m <= 3,
    ensures
        1u32 << p > 0,
        (m | 0xC) <= 15,
{
}

/// Bookkeeping of both timer channels.
pub struct TimerState {
    pub timer0: TimerChannelState,
    pub timer1: TimerChannelState,
}

/// Register values that start a channel.
#[derive(Clone, Copy, Debug, PartialEq, Eq)]
pub struct TimerStartRegs {
    /// Initial count register value
    pub ticr: u32,
    /// Control/status register value
    pub tcsr: u32,
}

impl TimerState {
    pub open spec fn chan(&self, ch: TimerChannel) -> &TimerChannelState {
        match ch {
            TimerChannel::Timer0 => &self.timer0,
            TimerChannel::Timer1 => &self.timer1,
        }
    }

    pub open spec fn wf(&self) -> bool {
        self.timer0.wf() && self.timer1.wf()
    }

    /// Both channels at reset: no ticks, not initialised, reference clock
    /// at the crystal rate, all slots free.
    pub fn new() -> (r: TimerState)
        ensures
            r.wf(),
            forall|ch: TimerChannel|
                {
                    &&& #[trigger] r.chan(ch).tick_count == 0
                    &&& r.chan(ch).tick_per_sec == 0
                    &&& r.chan(ch).ref_clock == TIMER_DEFAULT_CLOCK
                    &&& !r.chan(ch).initialized
                    &&& forall|i: int|
                        0 <= i < TIMER_EVENT_COUNT ==> !(#[trigger] r.chan(ch).events@[i]).active
                },
    {
        TimerState { timer0: TimerChannelState::new(), timer1: TimerChannelState::new() }
    }

    /// Set the reference clock frequency for a timer channel (in Hz).
    pub fn timer_set_ref_clock(&mut self, ch: TimerChannel, clock_hz: u32)
        requires
            old(self).wf(),
        ensures
            final(self).wf(),
            final(self).chan(ch).ref_clock == clock_hz,
            final(self).chan(ch).tick_count == old(self).chan(ch).tick_count,
            final(self).chan(ch).tick_per_sec == old(self).chan(ch).tick_per_sec,
            final(self).chan(ch).initialized == old(self).chan(ch).initialized,
            final(self).chan(ch).events@ == old(self).chan(ch).events@,
            forall|o: TimerChannel| o != ch ==> #[trigger] final(self).chan(o) == old(self).chan(o),
    {
        match ch {
            TimerChannel::Timer0 => self.timer0.ref_clock = clock_hz,
            TimerChannel::Timer1 => self.timer1.ref_clock = clock_hz,
        }
    }

    /// Get the reference clock frequency for a timer channel.
    pub fn timer_get_ref_clock(&self, ch: TimerChannel) -> (r: u32)
        ensures
            r == self.chan(ch).ref_clock,
    {
        match ch {
            TimerChannel::Timer0 => self.timer0.ref_clock,
            TimerChannel::Timer1 => self.timer1.ref_clock,
        }
    }

    /// Read the current tick count.
    pub fn timer_get_ticks(&self, ch: TimerChannel) -> (r: u32)
        ensures
            r == self.chan(ch).tick_count,
    {
        match ch {
            TimerChannel::Timer0 => self.timer0.tick_count,
            TimerChannel::Timer1 => self.timer1.tick_count,
        }
    }

    /// Reset the tick counter to zero.
    pub fn timer_reset_ticks(&mut self, ch: TimerChannel)
        requires
            old(self).wf(),
        ensures
            final(self).wf(),
            final(self).chan(ch).tick_count == 0,
            final(self).chan(ch).ref_clock == old(self).chan(ch).ref_clock,
            final(self).chan(ch).tick_per_sec == old(self).chan(ch).tick_per_sec,
            final(self).chan(ch).initialized == old(self).chan(ch).initialized,
            final(self).chan(ch).events@ == old(self).chan(ch).events@,
            forall|o: TimerChannel| o != ch ==> #[trigger] final(self).chan(o) == old(self).chan(o),
    {
        match ch {
            TimerChannel::Timer0 => self.timer0.tick_count = 0,
            TimerChannel::Timer1 => self.timer1.tick_count = 0,
        }
    }

    /// Check if a timer channel has been initialised.
    pub fn timer_is_initialized(&self, ch: TimerChannel) -> (r: bool)
        ensures
            r == self.chan(ch).initialized,
    {
        match ch {
            TimerChannel::Timer0 => self.timer0.initialized,
            TimerChannel::Timer1 => self.timer1.initialized,
        }
    }

    /// Initialise a timer channel: marks it initialised, records
    /// `ticks_per_sec`, frees every event slot and zeroes the tick counter.
    /// Returns the initial count (reference clock / prescaler divisor /
    /// ticks per second) and the control word built from the current TCSR
    /// value `tcsr`: bits 31, 26:8 kept, prescaler at 27:24... as
    /// `(tcsr & 0x87FF_FF00) | code(prescaler) << 24 | (code(mode) | 0xC) << 27`.
    pub fn timer_start(
        &mut self,
        ch: TimerChannel,
        ticks_per_sec: u32,
        prescaler: TimerPrescaler,
        mode: TimerOpMode,
        tcsr: u32,
    ) -> (r: TimerStartRegs)
        requires
            old(self).wf(),
            ticks_per_sec > 0,
        ensures
            final(self).wf(),
            final(self).chan(ch).initialized,
            final(self).chan(ch).tick_per_sec == ticks_per_sec,
            final(self).chan(ch).tick_count == 0,
            final(self).chan(ch).ref_clock == old(self).chan(ch).ref_clock,
            final(self).chan(ch).events@ == deactivate_all(old(self).chan(ch).events@),
            forall|o: TimerChannel| o != ch ==> #[trigger] final(self).chan(o) == old(self).chan(o),
            r.ticr == old(self).chan(ch).ref_clock / (1u32 << spec_prescaler_code(prescaler))
                / ticks_per_sec,
            r.tcsr == (tcsr & 0x87FF_FF00) | (spec_prescaler_code(prescaler) << 24) | ((
            spec_mode_code(mode) | 0xC) << 27),
    {
        let p = prescaler.code();
        let m = mode.code();
        let ref_clk = match ch {
            TimerChannel::Timer0 => {
                self.timer0.initialized = true;
                self.timer0.tick_per_sec = ticks_per_sec;
                self.timer0.clear_events();
                self.timer0.tick_count = 0;
                self.timer0.ref_clock
            },
            TimerChannel::Timer1 => {
                self.timer1.initialized = true;
                self.timer1.tick_per_sec = ticks_per_sec;
                self.timer1.clear_events();
                self.timer1.tick_count = 0;
                self.timer1.ref_clock
            },
        };
        proof {
            lemma_start_bits(p, m);
        }
        let prescale_div = 1u32 << p;
        let effective_clock = ref_clk / prescale_div;
        let initial_count = effective_clock / ticks_per_sec;
        let tcsr_val = (tcsr & 0x87FF_FF00) | (p << 24) | ((m | 0xC) << 27);
        TimerStartRegs { ticr: initial_count, tcsr: tcsr_val }
    }

    /// Stop a timer channel: no longer initialised, every slot freed.
    pub fn timer_stop(&mut self, ch: TimerChannel)
        requires
            old(self).wf(),
        ensures
            final(self).wf(),
            !final(self).chan(ch).initialized,
            final(self).chan(ch).tick_per_sec == old(self).chan(ch).tick_per_sec,
            final(self).chan(ch).tick_count == old(self).chan(ch).tick_count,
            final(self).chan(ch).ref_clock == old(self).chan(ch).ref_clock,
            final(self).chan(ch).events@ == deactivate_all(old(self).chan(ch).events@),
            forall|o: TimerChannel| o != ch ==> #[trigger] final(self).chan(o) == old(self).chan(o),
    {
        match ch {
            TimerChannel::Timer0 => {
                self.timer0.initialized = false;
                self.timer0.clear_events();
            },
            TimerChannel::Timer1 => {
                self.timer1.initialized = false;
                self.timer1.clear_events();
            },
        }
    }

    /// Register a timer event every `tick_interval` ticks.  Returns the
    /// event slot number (1-based; 0 means no free slot): the first free
    /// slot is taken.  The interval is at least one tick: a slot with an
    /// interval of 0 could not be counted down by the next tick.
    pub fn timer_set_event(&mut self, ch: TimerChannel, tick_interval: u32) -> (r: u32)
        requires
            old(self).wf(),
            tick_interval >= 1,
        ensures
            final(self).wf(),
            final(self).chan(ch).tick_count == old(self).chan(ch).tick_count,
            final(self).chan(ch).tick_per_sec == old(self).chan(ch).tick_per_sec,
            final(self).chan(ch).ref_clock == old(self).chan(ch).ref_clock,
            final(self).chan(ch).initialized == old(self).chan(ch).initialized,
            forall|o: TimerChannel| o != ch ==> #[trigger] final(self).chan(o) == old(self).chan(o),
            match first_free_slot(old(self).chan(ch).events@) {
                Some(i) => r == i + 1 && final(self).chan(ch).events@ == old(self).chan(
                    ch,
                ).events@.update(
                    i,
                    TimerEvent { active: true, init_tick: tick_interval, cur_tick: tick_interval },
                ),
                None => r == 0 && final(self).chan(ch).events@ == old(self).chan(ch).events@,
            },
    {
        match ch {
            TimerChannel::Timer0 => self.timer0.set_event(tick_interval),
            TimerChannel::Timer1 => self.timer1.set_event(tick_interval),
        }
    }

    /// Remove a timer event by its slot number (1-based); other numbers
    /// are ignored.
    pub fn timer_clear_event(&mut self, ch: TimerChannel, event_id: u32)
        requires
            old(self).wf(),
        ensures
            final(self).wf(),
            final(self).chan(ch).tick_count == old(self).chan(ch).tick_count,
            final(self).chan(ch).tick_per_sec == old(self).chan(ch).tick_per_sec,
            final(self).chan(ch).ref_clock == old(self).chan(ch).ref_clock,
            final(self).chan(ch).initialized == old(self).chan(ch).initialized,
            forall|o: TimerChannel| o != ch ==> #[trigger] final(self).chan(o) == old(self).chan(o),
            1 <= event_id <= TIMER_EVENT_COUNT ==> final(self).chan(ch).events@ == old(self).chan(
                ch,
            ).events@.update(
                event_id - 1,
                TimerEvent { active: false, ..old(self).chan(ch).events@[event_id - 1] },
            ),
            !(1 <= event_id <= TIMER_EVENT_COUNT) ==> final(self).chan(ch).events@ == old(
                self,
            ).chan(ch).events@,
    {
        match ch {
            TimerChannel::Timer0 => self.timer0.clear_event(event_id),
            TimerChannel::Timer1 => self.timer1.clear_event(event_id),
        }
    }

    /// One timer interrupt on a channel: the tick counter advances
    /// (wrapping), every active slot counts down, and the slots that reach
    /// their interval fire and reload.  Returns the fired slots in
    /// ascending order.
    pub fn timer_tick(&mut self, ch: TimerChannel) -> (fired: Vec<usize>)
        requires
            old(self).wf(),
        ensures
            final(self).wf(),
            final(self).chan(ch).tick_count == old(self).chan(ch).tick_count.wrapping_add(1),
            final(self).chan(ch).tick_per_sec == old(self).chan(ch).tick_per_sec,
            final(self).chan(ch).ref_clock == old(self).chan(ch).ref_clock,
            final(self).chan(ch).initialized == old(self).chan(ch).initialized,
            final(self).chan(ch).events@ == tick_events(old(self).chan(ch).events@),
            forall|o: TimerChannel| o != ch ==> #[trigger] final(self).chan(o) == old(self).chan(o),
            forall|j: int| 0 <= j < fired@.len() ==> #[trigger] fired@[j] < TIMER_EVENT_COUNT,
            forall|j: int, k: int| 0 <= j < k < fired@.len() ==> fired@[j] < fired@[k],
            forall|s: int|
                0 <= s < TIMER_EVENT_COUNT ==> (fired@.contains(s as usize) <==> event_fires(
                    #[trigger] old(self).chan(ch).events@[s],
                )),
    {
        match ch {
            TimerChannel::Timer0 => self.timer0.tick(),
            TimerChannel::Timer1 => self.timer1.tick(),
        }
    }
}

// ============================================================================
// Event periodicity
// ============================================================================

/// Ticks left on a slot after `k` ticks, for a slot that had `c` left and
/// reloads `n`.
pub open spec fn ticks_left_after(c: int, n: int, k: int) -> int {
    if k < c {
        c - k
    } else {
        n - (k - c) % n
    }
}

proof fn lemma_ticks_left_step(c: int, n: int, k: int)
    requires
        1 <= c <= n,
        k >= 0,
    ensures
        1 <= ticks_left_after(c, n, k) <= n,
        ticks_left_after(c, n, k) == 1 ==> ticks_left_after(c, n, k + 1) == n,
        ticks_left_after(c, n, k) != 1 ==> ticks_left_after(c, n, k + 1) == ticks_left_after(c, n, k) - 1,
        ticks_left_after(c, n, k) == 1 <==> (k + 1 >= c && (k + 1 - c) % n == 0),
{
    if k >= c {
        let d = k - c;
        vstd::arithmetic::div_mod::lemma_fundamental_div_mod(d, n);
        vstd::arithmetic::div_mod::lemma_fundamental_div_mod(d + 1, n);
        let q = d / n;
        let m = d % n;
        let q1 = (d + 1) / n;
        let m1 = (d + 1) % n;
        assert(m == n - 1 ==> m1 == 0) by (nonlinear_arith)
            requires
                d == n * q + m,
                d + 1 == n * q1 + m1,
                0 <= m < n,
                0 <= m1 < n,
        ;
        assert(m < n - 1 ==> m1 == m + 1) by (nonlinear_arith)
            requires
                d == n * q + m,
                d + 1 == n * q1 + m1,
                0 <= m < n,
                0 <= m1 < n,
        ;
        assert(m1 == 0 ==> m == n - 1) by (nonlinear_arith)
            requires
                d == n * q + m,
                d + 1 == n * q1 + m1,
                0 <= m < n,
                0 <= m1 < n,
        ;
    } else if k + 1 == c {
        assert(0int % n == 0) by (nonlinear_arith)
            requires
                n > 0,
        ;
    }
}

/// An active event slot with `c` ticks left and interval `n` fires on its
/// c-th tick and then every `n` ticks: on tick k + 1 (counting from now)
/// it fires exactly when k + 1 >= c and k + 1 - c is a multiple of n.  It
/// stays active with its interval unchanged, with 1..=n ticks left.
pub proof fn lemma_event_period(evs: Seq<TimerEvent>, i: int, k: nat)
    requires
        events_wf(evs),
        0 <= i < evs.len(),
        evs[i].active,
    ensures
        ticks_events(evs, k).len() == evs.len(),
        ticks_events(evs, k)[i].active,
        ticks_events(evs, k)[i].init_tick == evs[i].init_tick,
        ticks_events(evs, k)[i].cur_tick == ticks_left_after(
            evs[i].cur_tick as int,
            evs[i].init_tick as int,
            k as int,
        ),
        event_fires(ticks_events(evs, k)[i]) <==> (k + 1 >= evs[i].cur_tick && (k + 1
            - evs[i].cur_tick) % (evs[i].init_tick as int) == 0),
    decreases k,
{
    let c = evs[i].cur_tick as int;
    let n = evs[i].init_tick as int;
    if k > 0 {
        lemma_event_period(evs, i, (k - 1) as nat);
        lemma_ticks_left_step(c, n, k - 1);
    }
    lemma_ticks_left_step(c, n, k as int);
}

/// How many of the first `k` ticks fire slot `i`.
pub open spec fn fire_count(evs: Seq<TimerEvent>, i: int, k: nat) -> nat
    decreases k,
{
    if k == 0 {
        0
    } else {
        fire_count(evs, i, (k - 1) as nat) + if event_fires(ticks_events(evs, (k - 1) as nat)[i]) {
            1nat
        } else {
            0nat
        }
    }
}

/// A freshly registered event (as many ticks left as its interval `n`)
/// fires exactly `k / n` times in `k` ticks: on the n-th, 2n-th, … tick.
pub proof fn lemma_fresh_event_fire_count(evs: Seq<TimerEvent>, i: int, k: nat)
    requires
        events_wf(evs),
        0 <= i < evs.len(),
        evs[i].active,
        evs[i].cur_tick == evs[i].init_tick,
    ensures
        fire_count(evs, i, k) == k as int / evs[i].init_tick as int,
    decreases k,
{
    let n = evs[i].init_tick as int;
    if k > 0 {
        let j = (k - 1) as nat;
        lemma_fresh_event_fire_count(evs, i, j);
        lemma_event_period(evs, i, j);
        let q = j as int / n;
        let r = j as int % n;
        vstd::arithmetic::div_mod::lemma_fundamental_div_mod(j as int, n);
        if r == n - 1 {
            assert(k as int == (q + 1) * n + 0) by (nonlinear_arith)
                requires
                    j == n * q + r,
                    r == n - 1,
                    k == j + 1,
            ;
            vstd::arithmetic::div_mod::lemma_fundamental_div_mod_converse(k as int, n, q + 1, 0);
            assert(k as int - n == q * n) by (nonlinear_arith)
                requires
                    j == n * q + r,
                    r == n - 1,
                    k == j + 1,
            ;
            assert(q >= 0) by {
                vstd::arithmetic::div_mod::lemma_div_pos_is_pos(j as int, n);
            }
            vstd::arithmetic::div_mod::lemma_fundamental_div_mod_converse(k as int - n, n, q, 0);
            assert(event_fires(ticks_events(evs, j)[i]));
        } else {
            vstd::arithmetic::div_mod::lemma_fundamental_div_mod_converse(k as int, n, q, r + 1);
            if k as int >= n {
                assert(k as int - n == (q - 1) * n + r + 1) by (nonlinear_arith)
                    requires
                        j == n * q + r,
                        k == j + 1,
                ;
                vstd::arithmetic::div_mod::lemma_fundamental_div_mod_converse(
                    k as int - n,
                    n,
                    q - 1,
                    r + 1,
                );
            }
            assert(!event_fires(ticks_events(evs, j)[i]));
        }
    }
}

/// Freeing the slot that a registration took leaves it inactive with the
/// interval that was registered.
pub proof fn lemma_set_then_clear_event(evs: Seq<TimerEvent>, interval: u32)
    requires
        events_wf(evs),
        first_free_slot(evs) is Some,
    ensures
        ({
            let i = first_free_slot(evs)->0;
            let set = evs.update(
                i,
                TimerEvent { active: true, init_tick: interval, cur_tick: interval },
            );
            let cleared = set.update(i, TimerEvent { active: false, ..set[i] });
            &&& 0 <= i < evs.len()
            &&& !evs[i].active
            &&& !cleared[i].active
            &&& cleared[i].init_tick == interval
            &&& forall|j: int| 0 <= j < evs.len() && j != i ==> #[trigger] cleared[j] == evs[j]
        }),
{
    let w = choose|w: int| 0 <= w < evs.len() && !(#[trigger] evs[w]).active;
    lemma_first_free_exists(evs, w);
}

proof fn lemma_first_free_exists(evs: Seq<TimerEvent>, w: int)
    requires
        0 <= w < evs.len(),
        !evs[w].active,
    ensures
        exists|i: int|
            0 <= i < evs.len() && !(#[trigger] evs[i]).active && forall|j: int|
                0 <= j < i ==> (#[trigger] evs[j]).active,
    decreases w,
{
    if exists|j: int| 0 <= j < w && !(#[trigger] evs[j]).active {
        let j = choose|j: int| 0 <= j < w && !(#[trigger] evs[j]).active;
        lemma_first_free_exists(evs, j);
    } else {
        assert(forall|j: int| 0 <= j < w ==> (#[trigger] evs[j]).active);
    }
}

// ============================================================================
// Blocking delay arithmetic
// ============================================================================

/// Number of ticks a delay of `ms` milliseconds waits at `tick_per_sec`
/// ticks per second: `tick_per_sec * ms / 1000`, computed in 64 bits and
/// truncated to 32.
pub fn timer_delay_target(tick_per_sec: u32, ms: u32) -> (r: u32)
    ensures
        r == (tick_per_sec as int * ms as int / 1000) % 0x1_0000_0000,
{
    assert((tick_per_sec as u64) * (ms as u64) <= 0xFFFF_FFFF_FFFF_FFFFu64) by (nonlinear_arith);
    let ticks = tick_per_sec as u64 * ms as u64 / 1000;
    proof {
        lemma_truncate_u64(ticks);
    }
    ticks as u32
}

/// Whether a busy-wait that started at tick `start` is over at tick
/// `current`: more than `target` ticks have passed, counting across the
/// wrap of the counter.
pub fn timer_delay_elapsed(start: u32, current: u32, target: u32) -> (r: bool)
    ensures
        r == ((current as int - start as int) % 0x1_0000_0000 > target as int),
{
    let d = current.wrapping_sub(start);
    assert(d == (current as int - start as int) % 0x1_0000_0000) by {
        if current >= start {
            assert(current - start < 0x1_0000_0000);
        } else {
            assert((current as int - start as int) % 0x1_0000_0000 == current as int - start as int
                + 0x1_0000_0000);
        }
    }
    d > target
}

// ============================================================================
// Watchdog control word
// ============================================================================

/// WTCR value that enables the watchdog with an interval: interval field
/// set, system and timer enable set, reset-on-timeout set when asked.
pub fn wdt_enable(wtcr: u32, interval: WdtInterval, reset_on_timeout: bool) -> (r: u32)
    ensures
        r == (((wtcr & !WDT_INTERVAL_MASK) | (spec_interval_code(interval) << 4) | WDT_WTEN
            | WDT_WTE) | if reset_on_timeout {
            WDT_WTRE
        } else {
            0
        }),
        (r & WDT_INTERVAL_MASK) >> 4 == spec_interval_code(interval),
        r & WDT_WTEN != 0 && r & WDT_WTE != 0,
        (r & WDT_WTRE != 0) == (reset_on_timeout || wtcr & WDT_WTRE != 0),
{
    let code = interval.code();
    let rr: u32 = if reset_on_timeout {
        WDT_WTRE
    } else {
        0
    };
    let w = ((wtcr & !WDT_INTERVAL_MASK) | (code << 4) | WDT_WTEN | WDT_WTE) | rr;
    proof {
        lemma_wdt_enable_bits(wtcr, code, rr);
    }
    w
}

/// WTCR value with the system and timer enables cleared.
pub fn wdt_disable(wtcr: u32) -> (r: u32)
    ensures
        r == wtcr & !WDT_WTEN & !WDT_WTE,
{
    wtcr & !WDT_WTEN & !WDT_WTE
}

/// WTCR value that restarts the watchdog counter.
pub fn wdt_clear(wtcr: u32) -> (r: u32)
    ensures
        r == wtcr | WDT_WTR,
{
    wtcr | WDT_WTR
}

/// WTCR value that clears the watchdog interrupt flag.
pub fn wdt_clear_interrupt(wtcr: u32) -> (r: u32)
    ensures
        r == wtcr | WDT_WTIF,
{
    wtcr | WDT_WTIF
}

/// WTCR value that enables the watchdog interrupt.
pub fn wdt_enable_interrupt(wtcr: u32) -> (r: u32)
    ensures
        r == wtcr | WDT_WTIE,
{
    wtcr | WDT_WTIE
}

/// WTCR value with a new timeout interval; every other bit kept.
pub fn wdt_set_interval(wtcr: u32, interval: WdtInterval) -> (r: u32)
    ensures
        r == (wtcr & !WDT_INTERVAL_MASK) | (spec_interval_code(interval) << 4),
        (r & WDT_INTERVAL_MASK) >> 4 == spec_interval_code(interval),
        r & !WDT_INTERVAL_MASK == wtcr & !WDT_INTERVAL_MASK,
{
    let code = interval.code();
    let r = (wtcr & !WDT_INTERVAL_MASK) | (code << 4);
    proof {
        lemma_wdt_interval_bits(wtcr, code);
    }
    r
}

proof fn lemma_wdt_interval_bits(wtcr: u32, code: u32)
    by (bit_vector)
    requires
        code <= 3,
    ensures
        ((wtcr & !0x30u32) | (code << 4)) & 0x30 == code << 4,
        ((code << 4) >> 4) == code,
        ((wtcr & !0x30u32) | (code << 4)) & !0x30u32 == wtcr & !0x30u32,
{
}

proof fn lemma_wdt_enable_bits(wtcr: u32, code: u32, rr: u32)
    by (bit_vector)
    requires
        code <= 3,
        rr == 0 || rr == 4,
    ensures
        (((wtcr & !0x30u32) | (code << 4) | 0x80 | 0x02) | rr) & 0x30 == code << 4,
        ((code << 4) >> 4) == code,
        (((wtcr & !0x30u32) | (code << 4) | 0x80 | 0x02) | rr) & 0x80 != 0,
        (((wtcr & !0x30u32) | (code << 4) | 0x80 | 0x02) | rr) & 0x02 != 0,
        ((((wtcr & !0x30u32) | (code << 4) | 0x80 | 0x02) | rr) & 0x04 != 0) == (rr == 4 || wtcr
            & 0x04 != 0),
{
}

/// WTCR value with reset-on-timeout disabled.
pub fn wdt_disable_reset(wtcr: u32) -> (r: u32)
    ensures
        r == wtcr & !WDT_WTRE,
{
    wtcr & !WDT_WTRE
}

/// WTCR value with reset-on-timeout enabled.
pub fn wdt_enable_reset(wtcr: u32) -> (r: u32)
    ensures
        r == wtcr | WDT_WTRE,
{
    wtcr | WDT_WTRE
}

} // verus!
