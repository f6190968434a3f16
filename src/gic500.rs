//! Interrupt controller: distributor, per-core redistributors and the
//! acknowledge / end-of-interrupt protocol.
//!
//! The controller is modelled by the state of each interrupt line as seen
//! from each core. Lines 0..15 are software-generated (SGI) and lines
//! 16..31 are core-private peripherals (PPI); each core has its own copy of
//! those. Lines 32..1019 are shared peripherals (SPI), one copy for all
//! cores.
use vstd::prelude::*;

use crate::hmp_scheduler::NUM_CPUS;

verus! {

/// Base address of the interrupt controller.
pub const GIC_BASE: u64 = 0xfe600000;

/// Base address of the distributor.
pub const GICD_BASE: u64 = GIC_BASE;

/// Base address of the first redistributor.
pub const GICR_BASE: u64 = GIC_BASE + 0x100000;

/// Software-generated lines.
pub const SGI_RANGE_START: u32 = 0;
pub const SGI_RANGE_END: u32 = 15;

/// Core-private peripheral lines.
pub const PPI_RANGE_START: u32 = 16;
pub const PPI_RANGE_END: u32 = 31;

/// Shared peripheral lines.
pub const SPI_RANGE_START: u32 = 32;
pub const SPI_RANGE_END: u32 = 1019;

/// Number of interrupt ids the controller knows (0..1019).
pub const NUM_IRQS: u32 = 1020;

/// Id returned by an acknowledge when nothing is deliverable.
pub const SPURIOUS_IRQ: u32 = 1023;

/// Priority given to every line at initialisation (lower is more urgent).
pub const LOWEST_PRIORITY: u8 = 0xF0;

/// How a line latches its input.
#[derive(Debug, Clone, Copy, PartialEq, Eq, Structural)]
pub enum TriggerMode {
    Level,
    Edge,
}

/// State of one interrupt line.
#[derive(Debug, Clone, Copy, PartialEq, Eq, Structural)]
pub struct IrqLine {
    pub enabled: bool,
    pub pending: bool,
    pub active: bool,
    pub group: u8,
    pub priority: u8,
    pub trigger: TriggerMode,
}

/// State of line `irq` when the controller leaves reset.
pub open spec fn reset_line(irq: int) -> IrqLine {
    IrqLine {
        enabled: false,
        pending: false,
        active: false,
        group: 0,
        priority: 0,
        trigger: if irq <= SGI_RANGE_END {
            TriggerMode::Edge
        } else {
            TriggerMode::Level
        },
    }
}

/// A shared line after distributor initialisation.
pub open spec fn gicd_line(l: IrqLine) -> IrqLine {
    IrqLine {
        enabled: false,
        pending: false,
        group: 0,
        priority: LOWEST_PRIORITY,
        trigger: TriggerMode::Level,
        ..l
    }
}

/// A core-private line `irq` after redistributor initialisation.
pub open spec fn gicr_line(l: IrqLine, irq: int) -> IrqLine {
    IrqLine {
        enabled: false,
        pending: false,
        active: false,
        priority: LOWEST_PRIORITY,
        trigger: if irq >= PPI_RANGE_START {
            TriggerMode::Level
        } else {
            l.trigger
        },
        ..l
    }
}

/// `irq` is a shared peripheral line.
pub open spec fn is_spi(irq: int) -> bool {
    SPI_RANGE_START <= irq <= SPI_RANGE_END
}

/// Bit `c` of `mask` is set.
pub open spec fn mask_has(mask: u32, c: u32) -> bool {
    (mask >> c) & 1u32 == 1u32
}

/// Writing line `irq` as seen by core `cpu` also changes line `i` as seen
/// by core `c`: the same private line, or the same shared line.
pub open spec fn same_line(cpu: int, irq: int, c: int, i: int) -> bool {
    i == irq && (irq >= SPI_RANGE_START || c == cpu)
}

/// Position of private line `i` of core `c` in the private line table.
pub open spec fn priv_index(c: int, i: int) -> int {
    c * 32 + i
}

pub open spec fn valid_cpu(c: int) -> bool {
    0 <= c < NUM_CPUS
}

pub open spec fn valid_irq(i: int) -> bool {
    0 <= i < NUM_IRQS
}

/// The interrupt controller.
pub struct Gic500 {
    gicd_base: u64,
    gicr_base: u64,
    distributor_enabled: bool,
    /// Shared lines, indexed by `irq - 32`.
    spis: Vec<IrqLine>,
    /// Private lines, indexed by `cpu * 32 + irq`.
    privs: Vec<IrqLine>,
}

impl Gic500 {
    pub closed spec fn wf(&self) -> bool {
        &&& self.spis@.len() == NUM_IRQS - SPI_RANGE_START
        &&& self.privs@.len() == NUM_CPUS * SPI_RANGE_START
    }

    /// Line `irq` as seen by core `cpu`.
    pub closed spec fn line(&self, cpu: int, irq: int) -> IrqLine {
        if irq < SPI_RANGE_START {
            self.privs@[priv_index(cpu, irq)]
        } else {
            self.spis@[irq - 32]
        }
    }

    /// The distributor forwards shared lines.
    pub closed spec fn distributor_enabled(&self) -> bool {
        self.distributor_enabled
    }

    /// Line `irq` can be signalled to core `cpu`: it is pending, enabled
    /// (software-generated lines cannot be masked), and for a shared line the
    /// distributor is on.
    pub open spec fn deliverable(&self, cpu: int, irq: int) -> bool {
        let l = self.line(cpu, irq);
        &&& l.pending
        &&& (irq <= SGI_RANGE_END || l.enabled)
        &&& (irq < SPI_RANGE_START || self.distributor_enabled())
    }

    /// Every line other than those `same_line(cpu, irq, ..)` names is the
    /// same in `self` and `other`.
    pub open spec fn others_unchanged(&self, other: &Gic500, cpu: int, irq: int) -> bool {
        forall|c: int, i: int|
            valid_cpu(c) && valid_irq(i) && !same_line(cpu, irq, c, i) ==> #[trigger] other.line(c, i)
                == self.line(c, i)
    }

    proof fn lemma_index(cpu: int, irq: int)
        requires
            valid_cpu(cpu),
            0 <= irq < SPI_RANGE_START,
        ensures
            0 <= priv_index(cpu, irq) < NUM_CPUS * SPI_RANGE_START,
            forall|c: int, i: int|
                valid_cpu(c) && 0 <= i < SPI_RANGE_START && (c != cpu || i != irq)
                    ==> #[trigger] priv_index(c, i) != priv_index(cpu, irq),
    {
        assert forall|c: int, i: int|
            valid_cpu(c) && 0 <= i < SPI_RANGE_START && (c != cpu || i != irq) implies #[trigger] priv_index(c, i)
            != priv_index(cpu, irq) by {
            if c < cpu {
                assert(c * 32 + i < cpu * 32) by (nonlinear_arith)
                    requires
                        c < cpu,
                        i < 32,
                ;
            } else if c > cpu {
                assert(cpu * 32 + irq < c * 32) by (nonlinear_arith)
                    requires
                        c > cpu,
                        irq < 32,
                ;
            }
        }
        assert(cpu * 32 + irq < NUM_CPUS * SPI_RANGE_START) by (nonlinear_arith)
            requires
                cpu < 8,
                irq < 32,
        ;
    }

    /// Reads line `irq` as seen by core `cpu`.
    fn get_line(&self, cpu: u32, irq: u32) -> (r: IrqLine)
        requires
            self.wf(),
            valid_cpu(cpu as int),
            valid_irq(irq as int),
        ensures
            r == self.line(cpu as int, irq as int),
    {
        if irq < SPI_RANGE_START {
            proof {
                Self::lemma_index(cpu as int, irq as int);
            }
            self.privs[(cpu * 32 + irq) as usize]
        } else {
            self.spis[(irq - SPI_RANGE_START) as usize]
        }
    }

    /// Writes line `irq` as seen by core `cpu`.
    fn set_line(&mut self, cpu: u32, irq: u32, l: IrqLine)
        requires
            old(self).wf(),
            valid_cpu(cpu as int),
            valid_irq(irq as int),
        ensures
            final(self).wf(),
            final(self).distributor_enabled() == old(self).distributor_enabled(),
            old(self).others_unchanged(final(self), cpu as int, irq as int),
            forall|c: int|
                valid_cpu(c) && same_line(cpu as int, irq as int, c, irq as int) ==> #[trigger] final(self).line(c, irq as int) == l,
    {
        if irq < SPI_RANGE_START {
            proof {
                Self::lemma_index(cpu as int, irq as int);
            }
            self.privs[(cpu * 32 + irq) as usize] = l;
        } else {
            self.spis[(irq - SPI_RANGE_START) as usize] = l;
        }
    }

    /// A controller fresh out of reset, distributor off.
    pub fn new() -> (g: Gic500)
        ensures
            g.wf(),
            !g.distributor_enabled(),
            forall|c: int, i: int|
                valid_cpu(c) && valid_irq(i) ==> #[trigger] g.line(c, i) == reset_line(i),
    {
        let mut spis: Vec<IrqLine> = Vec::new();
        let mut k: u32 = 0;
        while k < NUM_IRQS - SPI_RANGE_START
            invariant
                k <= NUM_IRQS - SPI_RANGE_START,
                spis@.len() == k,
                forall|j: int| 0 <= j < k ==> #[trigger] spis@[j] == reset_line(j + 32),
            decreases NUM_IRQS - SPI_RANGE_START - k,
        {
            spis.push(
                IrqLine {
                    enabled: false,
                    pending: false,
                    active: false,
                    group: 0,
                    priority: 0,
                    trigger: TriggerMode::Level,
                },
            );
            k = k + 1;
        }
        let mut privs: Vec<IrqLine> = Vec::new();
        let mut n: u32 = 0;
        while n < NUM_CPUS * SPI_RANGE_START
            invariant
                n <= NUM_CPUS * SPI_RANGE_START,
                privs@.len() == n,
                forall|j: int| 0 <= j < n ==> #[trigger] privs@[j] == reset_line(j % 32),
            decreases NUM_CPUS * SPI_RANGE_START - n,
        {
            let trigger = if n % 32 <= SGI_RANGE_END {
                TriggerMode::Edge
            } else {
                TriggerMode::Level
            };
            privs.push(
                IrqLine { enabled: false, pending: false, active: false, group: 0, priority: 0, trigger },
            );
            n = n + 1;
        }
        let g = Gic500 {
            gicd_base: GICD_BASE,
            gicr_base: GICR_BASE,
            distributor_enabled: false,
            spis,
            privs,
        };
        assert forall|c: int, i: int| valid_cpu(c) && valid_irq(i) implies #[trigger] g.line(c, i)
            == reset_line(i) by {
            if i < 32 {
                Self::lemma_index(c, i);
                assert((c * 32 + i) % 32 == i) by (nonlinear_arith)
                    requires
                        0 <= i < 32,
                        0 <= c,
                ;
            }
        }
        g
    }

    /// Distributor initialisation: every shared line disabled, not pending,
    /// group 0, lowest priority, level-triggered; then the distributor is
    /// switched on. Private lines are untouched.
    pub fn init_gicd(&mut self)
        requires
            old(self).wf(),
        ensures
            final(self).wf(),
            final(self).distributor_enabled(),
            forall|c: int, i: int|
                valid_cpu(c) && valid_irq(i) ==> #[trigger] final(self).line(c, i) == if is_spi(i) {
                    gicd_line(old(self).line(c, i))
                } else {
                    old(self).line(c, i)
                },
    {
        self.distributor_enabled = false;
        let ghost g0 = *self;
        let mut irq: u32 = SPI_RANGE_START;
        while irq < NUM_IRQS
            invariant
                self.wf(),
                SPI_RANGE_START <= irq <= NUM_IRQS,
                forall|c: int, i: int|
                    valid_cpu(c) && valid_irq(i) ==> #[trigger] self.line(c, i) == if is_spi(i)
                        && i < irq {
                        gicd_line(g0.line(c, i))
                    } else {
                        g0.line(c, i)
                    },
            decreases NUM_IRQS - irq,
        {
            let l = self.get_line(0, irq);
            self.set_line(0, irq, gicd_line_exec(l));
            irq = irq + 1;
        }
        let ghost g1 = *self;
        self.distributor_enabled = true;
        assert forall|c: int, i: int| valid_cpu(c) && valid_irq(i) implies #[trigger] self.line(c, i)
            == if is_spi(i) {
            gicd_line(old(self).line(c, i))
        } else {
            old(self).line(c, i)
        } by {
            assert(g0.line(c, i) == old(self).line(c, i));
            assert(g1.line(c, i) == self.line(c, i));
        }
    }

    /// Redistributor initialisation of core `cpu_id`: its software-generated
    /// and private lines disabled, not pending, not active, at the lowest
    /// priority, private peripherals level-triggered. No-op for an unknown
    /// core.
    pub fn init_gicr(&mut self, cpu_id: u32)
        requires
            old(self).wf(),
        ensures
            final(self).wf(),
            final(self).distributor_enabled() == old(self).distributor_enabled(),
            forall|c: int, i: int|
                valid_cpu(c) && valid_irq(i) ==> #[trigger] final(self).line(c, i) == if c
                    == cpu_id && i < SPI_RANGE_START {
                    gicr_line(old(self).line(c, i), i)
                } else {
                    old(self).line(c, i)
                },
    {
        if cpu_id >= NUM_CPUS {
            return;
        }
        let ghost g0 = *self;
        let mut irq: u32 = 0;
        while irq < SPI_RANGE_START
            invariant
                self.wf(),
                cpu_id < NUM_CPUS,
                irq <= SPI_RANGE_START,
                self.distributor_enabled() == g0.distributor_enabled(),
                forall|c: int, i: int|
                    valid_cpu(c) && valid_irq(i) ==> #[trigger] self.line(c, i) == if c == cpu_id
                        && i < irq {
                        gicr_line(g0.line(c, i), i)
                    } else {
                        g0.line(c, i)
                    },
            decreases SPI_RANGE_START - irq,
        {
            let l = self.get_line(cpu_id, irq);
            let trigger = if irq >= PPI_RANGE_START {
                TriggerMode::Level
            } else {
                l.trigger
            };
            let nl = IrqLine {
                enabled: false,
                pending: false,
                active: false,
                priority: LOWEST_PRIORITY,
                trigger,
                ..l
            };
            self.set_line(cpu_id, irq, nl);
            irq = irq + 1;
        }
    }

    /// Writes `l` into shared line `irq`, or does nothing when `irq` is not
    /// a shared line.
    fn update_spi(&mut self, irq: u32, l: IrqLine)
        requires
            old(self).wf(),
        ensures
            final(self).wf(),
            final(self).distributor_enabled() == old(self).distributor_enabled(),
            forall|c: int, i: int|
                valid_cpu(c) && valid_irq(i) ==> #[trigger] final(self).line(c, i) == if i == irq
                    && is_spi(i) {
                    l
                } else {
                    old(self).line(c, i)
                },
    {
        if irq >= SPI_RANGE_START && irq <= SPI_RANGE_END {
            self.set_line(0, irq, l);
        }
    }

    /// Enables shared line `irq`; no-op for any other id.
    pub fn enable_interrupt(&mut self, irq: u32)
        requires
            old(self).wf(),
        ensures
            final(self).wf(),
            final(self).distributor_enabled() == old(self).distributor_enabled(),
            forall|c: int, i: int|
                valid_cpu(c) && valid_irq(i) ==> #[trigger] final(self).line(c, i) == if i == irq
                    && is_spi(i) {
                    IrqLine { enabled: true, ..old(self).line(c, i) }
                } else {
                    old(self).line(c, i)
                },
    {
        if irq >= SPI_RANGE_START && irq <= SPI_RANGE_END {
            let l = self.get_line(0, irq);
            self.update_spi(irq, IrqLine { enabled: true, ..l });
        }
    }

    /// Disables shared line `irq`; no-op for any other id.
    pub fn disable_interrupt(&mut self, irq: u32)
        requires
            old(self).wf(),
        ensures
            final(self).wf(),
            final(self).distributor_enabled() == old(self).distributor_enabled(),
            forall|c: int, i: int|
                valid_cpu(c) && valid_irq(i) ==> #[trigger] final(self).line(c, i) == if i == irq
                    && is_spi(i) {
                    IrqLine { enabled: false, ..old(self).line(c, i) }
                } else {
                    old(self).line(c, i)
                },
    {
        if irq >= SPI_RANGE_START && irq <= SPI_RANGE_END {
            let l = self.get_line(0, irq);
            self.update_spi(irq, IrqLine { enabled: false, ..l });
        }
    }

    /// Sets the priority of shared line `irq`; no-op for any other id.
    pub fn set_priority(&mut self, irq: u32, priority: u8)
        requires
            old(self).wf(),
        ensures
            final(self).wf(),
            final(self).distributor_enabled() == old(self).distributor_enabled(),
            forall|c: int, i: int|
                valid_cpu(c) && valid_irq(i) ==> #[trigger] final(self).line(c, i) == if i == irq
                    && is_spi(i) {
                    IrqLine { priority, ..old(self).line(c, i) }
                } else {
                    old(self).line(c, i)
                },
    {
        if irq >= SPI_RANGE_START && irq <= SPI_RANGE_END {
            let l = self.get_line(0, irq);
            self.update_spi(irq, IrqLine { priority, ..l });
        }
    }

    /// Marks shared line `irq` pending, as a peripheral asserting it does;
    /// no-op for any other id.
    pub fn set_pending(&mut self, irq: u32)
        requires
            old(self).wf(),
        ensures
            final(self).wf(),
            final(self).distributor_enabled() == old(self).distributor_enabled(),
            forall|c: int, i: int|
                valid_cpu(c) && valid_irq(i) ==> #[trigger] final(self).line(c, i) == if i == irq
                    && is_spi(i) {
                    IrqLine { pending: true, ..old(self).line(c, i) }
                } else {
                    old(self).line(c, i)
                },
    {
        if irq >= SPI_RANGE_START && irq <= SPI_RANGE_END {
            let l = self.get_line(0, irq);
            self.update_spi(irq, IrqLine { pending: true, ..l });
        }
    }

    /// Raises software-generated line `irq` on exactly the cores whose bit
    /// is set in `cpu_mask`; no-op when `irq` is not a software-generated
    /// line.
    pub fn send_sgi(&mut self, irq: u32, cpu_mask: u32)
        requires
            old(self).wf(),
        ensures
            final(self).wf(),
            final(self).distributor_enabled() == old(self).distributor_enabled(),
            forall|c: int, i: int|
                valid_cpu(c) && valid_irq(i) ==> #[trigger] final(self).line(c, i) == if i == irq
                    && irq <= SGI_RANGE_END && mask_has(cpu_mask, c as u32) {
                    IrqLine { pending: true, ..old(self).line(c, i) }
                } else {
                    old(self).line(c, i)
                },
    {
        if irq > SGI_RANGE_END {
            return;
        }
        let ghost g0 = *self;
        let mut cpu: u32 = 0;
        while cpu < NUM_CPUS
            invariant
                self.wf(),
                irq <= SGI_RANGE_END,
                cpu <= NUM_CPUS,
                self.distributor_enabled() == g0.distributor_enabled(),
                forall|c: int, i: int|
                    valid_cpu(c) && valid_irq(i) ==> #[trigger] self.line(c, i) == if i == irq && c
                        < cpu && mask_has(cpu_mask, c as u32) {
                        IrqLine { pending: true, ..g0.line(c, i) }
                    } else {
                        g0.line(c, i)
                    },
            decreases NUM_CPUS - cpu,
        {
            if (cpu_mask >> cpu) & 1u32 == 1u32 {
                let l = self.get_line(cpu, irq);
                self.set_line(cpu, irq, IrqLine { pending: true, ..l });
            }
            cpu = cpu + 1;
        }
    }

    /// Acknowledge on core `cpu_id`: returns the most urgent deliverable
    /// line (lowest priority value, lowest id on ties), moving it from
    /// pending to active; `SPURIOUS_IRQ`, changing nothing, when no line is
    /// deliverable.
    pub fn read_iar(&mut self, cpu_id: u32) -> (r: u32)
        requires
            old(self).wf(),
            valid_cpu(cpu_id as int),
        ensures
            final(self).wf(),
            final(self).distributor_enabled() == old(self).distributor_enabled(),
            r == SPURIOUS_IRQ <==> forall|i: int|
                valid_irq(i) ==> !#[trigger] old(self).deliverable(cpu_id as int, i),
            r == SPURIOUS_IRQ ==> forall|c: int, i: int|
                valid_cpu(c) && valid_irq(i) ==> #[trigger] final(self).line(c, i) == old(self).line(c, i),
            r != SPURIOUS_IRQ ==> {
                &&& valid_irq(r as int)
                &&& old(self).deliverable(cpu_id as int, r as int)
                &&& forall|i: int|
                    valid_irq(i) && old(self).deliverable(cpu_id as int, i) ==> old(self).line(
                        cpu_id as int,
                        r as int,
                    ).priority <= #[trigger] old(self).line(cpu_id as int, i).priority
                &&& forall|i: int|
                    0 <= i < r && old(self).deliverable(cpu_id as int, i) ==> old(self).line(
                        cpu_id as int,
                        r as int,
                    ).priority < #[trigger] old(self).line(cpu_id as int, i).priority
                &&& old(self).others_unchanged(final(self), cpu_id as int, r as int)
                &&& forall|c: int|
                    valid_cpu(c) && same_line(cpu_id as int, r as int, c, r as int)
                        ==> #[trigger] final(self).line(c, r as int) == (IrqLine {
                        pending: false,
                        active: true,
                        ..old(self).line(cpu_id as int, r as int)
                    })
            },
    {
        let mut best: u32 = SPURIOUS_IRQ;
        let mut best_prio: u8 = 0;
        let mut irq: u32 = 0;
        while irq < NUM_IRQS
            invariant
                self.wf(),
                valid_cpu(cpu_id as int),
                irq <= NUM_IRQS,
                best == SPURIOUS_IRQ ==> forall|i: int|
                    0 <= i < irq ==> !#[trigger] self.deliverable(cpu_id as int, i),
                best != SPURIOUS_IRQ ==> {
                    &&& best < irq
                    &&& self.deliverable(cpu_id as int, best as int)
                    &&& best_prio == self.line(cpu_id as int, best as int).priority
                    &&& forall|i: int|
                        0 <= i < irq && self.deliverable(cpu_id as int, i) ==> best_prio
                            <= #[trigger] self.line(cpu_id as int, i).priority
                    &&& forall|i: int|
                        0 <= i < best && self.deliverable(cpu_id as int, i) ==> best_prio
                            < #[trigger] self.line(cpu_id as int, i).priority
                },
            decreases NUM_IRQS - irq,
        {
            let l = self.get_line(cpu_id, irq);
            let ok = l.pending && (irq <= SGI_RANGE_END || l.enabled) && (irq < SPI_RANGE_START
                || self.distributor_enabled);
            if ok && (best == SPURIOUS_IRQ || l.priority < best_prio) {
                best = irq;
                best_prio = l.priority;
            }
            irq = irq + 1;
        }
        if best != SPURIOUS_IRQ {
            let l = self.get_line(cpu_id, best);
            self.set_line(cpu_id, best, IrqLine { pending: false, active: true, ..l });
        }
        best
    }

    /// End of interrupt on core `cpu_id`: line `irq` is no longer active.
    /// No-op for an unknown id.
    pub fn write_eoir(&mut self, cpu_id: u32, irq: u32)
        requires
            old(self).wf(),
            valid_cpu(cpu_id as int),
        ensures
            final(self).wf(),
            final(self).distributor_enabled() == old(self).distributor_enabled(),
            old(self).others_unchanged(final(self), cpu_id as int, irq as int),
            valid_irq(irq as int) ==> forall|c: int|
                valid_cpu(c) && same_line(cpu_id as int, irq as int, c, irq as int)
                    ==> #[trigger] final(self).line(c, irq as int) == (IrqLine {
                    active: false,
                    ..old(self).line(cpu_id as int, irq as int)
                }),
    {
        if irq < NUM_IRQS {
            let l = self.get_line(cpu_id, irq);
            self.set_line(cpu_id, irq, IrqLine { active: false, ..l });
        }
    }
}

/// `gicd_line(l)` as executable code.
fn gicd_line_exec(l: IrqLine) -> (r: IrqLine)
    ensures
        r == gicd_line(l),
{
    IrqLine {
        enabled: false,
        pending: false,
        group: 0,
        priority: LOWEST_PRIORITY,
        trigger: TriggerMode::Level,
        ..l
    }
}

/// Brings up the interrupt controller for core `cpu_id`: the boot core
/// (id 0) initialises the distributor first, then every core its own
/// redistributor.
pub fn gic_init(gic: &mut Gic500, cpu_id: u32)
    requires
        old(gic).wf(),
    ensures
        final(gic).wf(),
        final(gic).distributor_enabled() == (cpu_id == 0 || old(gic).distributor_enabled()),
        forall|c: int, i: int|
            valid_cpu(c) && valid_irq(i) ==> #[trigger] final(gic).line(c, i) == {
                let l0 = if cpu_id == 0 && is_spi(i) {
                    gicd_line(old(gic).line(c, i))
                } else {
                    old(gic).line(c, i)
                };
                if c == cpu_id && i < SPI_RANGE_START {
                    gicr_line(l0, i)
                } else {
                    l0
                }
            },
{
    if cpu_id == 0 {
        gic.init_gicd();
    }
    gic.init_gicr(cpu_id);
}

} // verus!
