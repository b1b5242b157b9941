use vstd::prelude::*;
use vstd::arithmetic::div_mod::lemma_fundamental_div_mod_converse;

verus! {

pub const DIVIDER_REGISTER: u16 = 0xFF04;
/// Timer counter (TIMA).
pub const TIMA: u16 = 0xFF05;
/// Timer modulo (TMA).
pub const TMA: u16 = 0xFF06;
/// Timer control (TAC): bits 0-1 select the rate, bit 2 enables the timer.
/// 00: 4096 Hz, 01: 262144 Hz, 10: 65536 Hz, 11: 16384 Hz.
pub const TMC: u16 = 0xFF07;

pub const CLOCK_SPEED: u32 = 4194304;

/// Bit mask of the timer interrupt in IF.
pub const TIMER_INTERRUPT_MASK: u8 = 0x04;

/// Whether `addr` is one of the four timer registers.
pub open spec fn is_timer_register(addr: u16) -> bool {
    DIVIDER_REGISTER <= addr <= TMC
}

/// Timer rate in Hz selected by the low two bits of TAC.
pub open spec fn rate_of(tac: u8) -> u32 {
    if tac % 4 == 0 {
        4096
    } else if tac % 4 == 1 {
        262144
    } else if tac % 4 == 2 {
        65536
    } else {
        16384
    }
}

/// CPU cycles per TIMA increment for a TAC value.
pub open spec fn period_of(tac: u8) -> u32 {
    if tac % 4 == 0 {
        1024
    } else if tac % 4 == 1 {
        16
    } else if tac % 4 == 2 {
        64
    } else {
        256
    }
}

/// Bit 2 of TAC: the timer counts.
pub open spec fn tac_enabled(tac: u8) -> bool {
    (tac / 4) % 2 == 1
}

/// One TIMA increment: 0xFF reloads from TMA.
pub open spec fn tick(tima: u8, tma: u8) -> u8 {
    if tima == 0xFF {
        tma
    } else {
        (tima + 1) as u8
    }
}

/// TIMA after `n` increments.
pub open spec fn ticks(tima: u8, tma: u8, n: nat) -> u8
    decreases n,
{
    if n == 0 {
        tima
    } else {
        tick(ticks(tima, tma, (n - 1) as nat), tma)
    }
}

/// Whether one of `n` increments starting at `tima` overflows.
pub open spec fn overflows(tima: u8, tma: u8, n: nat) -> bool
    decreases n,
{
    if n == 0 {
        false
    } else {
        overflows(tima, tma, (n - 1) as nat) || ticks(tima, tma, (n - 1) as nat) == 0xFF
    }
}

/// The DIV/TIMA/TMA/TAC timer.
pub struct Timer {
    pub timer_controller: u8,
    pub timer: u8,
    pub timer_modulo: u8,
    pub timer_cycles: u32,
    pub timer_frequency: u32,
    pub divider_cycles: u32,
    pub divider: u8,
    /// Interrupt bits raised since the bus last drained them.
    pub int_request: u8,
}

impl Timer {
    pub open spec fn wf(&self) -> bool {
        &&& self.timer_frequency == period_of(self.timer_controller)
        &&& self.divider_cycles < 256
    }

    /// DIV.
    pub open spec fn div(&self) -> u8 {
        self.divider
    }

    /// TIMA.
    pub open spec fn tima(&self) -> u8 {
        self.timer
    }

    /// TMA.
    pub open spec fn tma(&self) -> u8 {
        self.timer_modulo
    }

    /// TAC.
    pub open spec fn tac(&self) -> u8 {
        self.timer_controller
    }

    /// Cycles accumulated towards the next DIV increment.
    pub open spec fn divider_cycles(&self) -> u32 {
        self.divider_cycles
    }

    /// Cycles accumulated towards the next TIMA increment.
    pub open spec fn timer_cycles(&self) -> u32 {
        self.timer_cycles
    }

    /// CPU cycles per TIMA increment.
    pub open spec fn timer_frequency(&self) -> u32 {
        self.timer_frequency
    }

    /// The value a read of timer register `addr` returns.
    pub open spec fn read_spec(&self, addr: u16) -> u8 {
        if addr == DIVIDER_REGISTER {
            self.div()
        } else if addr == TIMA {
            self.tima()
        } else if addr == TMA {
            self.tma()
        } else {
            self.tac()
        }
    }

    /// The timer after a write of `value` to register `addr`.
    pub open spec fn write_spec(&self, addr: u16, value: u8) -> Timer {
        if addr == DIVIDER_REGISTER {
            Timer { divider: 0, ..*self }
        } else if addr == TIMA {
            Timer { timer: value, ..*self }
        } else if addr == TMA {
            Timer { timer_modulo: value, ..*self }
        } else if addr == TMC {
            Timer { timer_controller: value, timer_frequency: period_of(value), ..*self }
        } else {
            *self
        }
    }

    /// Every register but the written one keeps its value, and the
    /// counters and the pending interrupt bits are untouched.
    pub proof fn lemma_write_spec(&self, addr: u16, value: u8)
        requires
            self.wf(),
            is_timer_register(addr),
        ensures
            self.write_spec(addr, value).wf(),
            self.write_spec(addr, value).int_request == self.int_request,
            self.write_spec(addr, value).divider_cycles() == self.divider_cycles(),
            self.write_spec(addr, value).timer_cycles() == self.timer_cycles(),
            addr == DIVIDER_REGISTER ==> self.write_spec(addr, value).div() == 0,
            addr != DIVIDER_REGISTER ==> self.write_spec(addr, value).read_spec(addr) == value,
            forall|a: u16|
                is_timer_register(a) && a != addr ==> #[trigger] self.write_spec(addr, value).read_spec(a)
                    == self.read_spec(a),
    {
    }

    /// `after` is the timer once `cycles` cycles have run from `self`.
    pub open spec fn update_post(&self, after: Timer, cycles: u32) -> bool {
        &&& after.wf()
        &&& after.tma() == self.tma()
        &&& after.tac() == self.tac()
        &&& after.divider_cycles() == (self.divider_cycles() + cycles) % 256
        &&& after.div() == (self.div() + (self.divider_cycles() + cycles) / 256) % 256
        &&& (!tac_enabled(self.tac()) ==> {
            &&& after.tima() == self.tima()
            &&& after.timer_cycles() == self.timer_cycles()
            &&& after.int_request == self.int_request
        })
        &&& (tac_enabled(self.tac()) ==> {
            let total = self.timer_cycles() as int + cycles as int;
            let period = self.timer_frequency() as int;
            let n = (total / period) as nat;
            &&& after.timer_cycles() == total % period
            &&& after.tima() == ticks(self.tima(), self.tma(), n)
            &&& after.int_request == if overflows(self.tima(), self.tma(), n) {
                self.int_request | TIMER_INTERRUPT_MASK
            } else {
                self.int_request
            }
        })
    }

    /// State at power-on.
    pub open spec fn is_power_on(&self) -> bool {
        &&& self.div() == 0 && self.tima() == 0 && self.tma() == 0 && self.tac() == 0
        &&& self.divider_cycles() == 0 && self.timer_cycles() == 0
        &&& self.int_request == 0
    }

    /// A timer at power-on: all registers zero, 4096 Hz selected, stopped.
    pub fn new() -> (r: Timer)
        ensures
            r.is_power_on(),
            r.wf(),
    {
        Timer {
            timer_controller: 0,
            timer: 0,
            timer_modulo: 0,
            timer_cycles: 0,
            timer_frequency: 1024,
            divider_cycles: 0,
            divider: 0,
            int_request: 0,
        }
    }

    /// Advances the timer by `cycles` CPU cycles.
    ///
    /// DIV counts every 256 cycles. When TAC enables the timer, TIMA counts
    /// every `period_of(TAC)` cycles; an increment from 0xFF reloads TMA and
    /// raises the timer interrupt.
    pub fn update(&mut self, cycles: u32)
        requires
            old(self).wf(),
        ensures
            old(self).update_post(*final(self), cycles),
    {
        let total_div: u64 = self.divider_cycles as u64 + cycles as u64;
        self.divider = ((self.divider as u64 + total_div / 256) % 256) as u8;
        self.divider_cycles = (total_div % 256) as u32;

        if !self.is_clock_enabled() {
            return;
        }

        let ghost pre = *self;
        let ghost start_tima = self.timer;
        let ghost start_req = self.int_request;
        let total: u64 = self.timer_cycles as u64 + cycles as u64;
        let period: u64 = self.timer_frequency as u64;
        let mut rest: u64 = total;
        let ghost mut n: nat = 0;
        let ghost mut overflowed = false;
        while rest >= period
            invariant
                self.wf(),
                self.timer_modulo == pre.timer_modulo,
                self.timer_controller == pre.timer_controller,
                self.divider == pre.divider,
                self.divider_cycles == pre.divider_cycles,
                self.timer_cycles == pre.timer_cycles,
                period == self.timer_frequency,
                period > 0,
                rest + n * period == total,
                self.timer == ticks(start_tima, self.timer_modulo, n),
                overflowed == overflows(start_tima, self.timer_modulo, n),
                self.int_request == if overflowed { start_req | TIMER_INTERRUPT_MASK } else { start_req },
            decreases rest,
        {
            if self.timer == 0xFF {
                self.timer = self.timer_modulo;
                self.int_request = self.int_request | TIMER_INTERRUPT_MASK;
                proof {
                    if overflowed {
                        assert((start_req | 4u8) | 4u8 == start_req | 4u8) by (bit_vector);
                    }
                }
            } else {
                self.timer = self.timer + 1;
            }
            proof {
                overflowed = overflowed || ticks(start_tima, self.timer_modulo, n) == 0xFF;
                n = n + 1;
            }
            rest = rest - period;
        }
        proof {
            lemma_fundamental_div_mod_converse(total as int, period as int, n as int, rest as int);
        }
        self.timer_cycles = rest as u32;
    }

    fn is_clock_enabled(&self) -> (r: bool)
        ensures
            r == tac_enabled(self.timer_controller),
    {
        (self.timer_controller / 4) % 2 == 1
    }

    /// Reads one of DIV, TIMA, TMA, TAC.
    pub fn readb(&self, addr: u16) -> (r: u8)
        requires
            is_timer_register(addr),
        ensures
            r == self.read_spec(addr),
    {
        if addr == DIVIDER_REGISTER {
            self.divider
        } else if addr == TIMA {
            self.timer
        } else if addr == TMA {
            self.timer_modulo
        } else {
            self.timer_controller
        }
    }

    /// Writes one of DIV, TIMA, TMA, TAC. Any write to DIV resets it to zero.
    pub fn writeb(&mut self, addr: u16, value: u8)
        requires
            old(self).wf(),
            is_timer_register(addr),
        ensures
            *final(self) == old(self).write_spec(addr, value),
            final(self).wf(),
    {
        if addr == DIVIDER_REGISTER {
            self.divider = 0;
        } else if addr == TIMA {
            self.timer = value;
        } else if addr == TMA {
            self.timer_modulo = value;
        } else {
            self.set_clock_freq(value);
        }
    }

    fn set_clock_freq(&mut self, value: u8)
        ensures
            *final(self) == (Timer { timer_controller: value, timer_frequency: period_of(value), ..*old(self) }),
    {
        self.timer_controller = value;
        self.timer_frequency = CLOCK_SPEED / self.get_clock_freq();
    }

    fn get_clock_freq(&self) -> (r: u32)
        ensures
            r == rate_of(self.timer_controller),
            CLOCK_SPEED / r == period_of(self.timer_controller),
    {
        let sel = self.timer_controller % 4;
        if sel == 0 {
            4096
        } else if sel == 1 {
            262144
        } else if sel == 2 {
            65536
        } else {
            16384
        }
    }
}

} // verus!
