//! One emulated machine: a processor and its memory bus, explicitly
//! constructed and owned, so several independent instances can run side by
//! side.

use vstd::prelude::*;
use crate::cpu::cpu::CPU;
use crate::cpu::flag::Flag;
use crate::cpu::register::Register;
use crate::memory_bus::memory_bus::MemoryBus;

verus! {

pub struct Gameboy {
    pub cpu: CPU,
    pub memory_bus: MemoryBus,
}

impl Gameboy {
    /// A machine at power-on: every register, counter and memory byte zero,
    /// the processor running.
    pub fn new() -> (r: Gameboy)
        ensures
            r.memory_bus.wf(),
            forall|a: u16| r.memory_bus.spec_read(a) == 0u8,
            r.cpu == (CPU {
                pc: 0,
                sp: 0,
                registers: Register {
                    a: 0,
                    b: 0,
                    c: 0,
                    d: 0,
                    e: 0,
                    f: Flag { c: false, n: false, h: false, z: false },
                    h: 0,
                    l: 0,
                },
                cycles: 0,
                is_running: true,
            }),
    {
        Gameboy { cpu: CPU::new(), memory_bus: MemoryBus::new() }
    }
}

} // verus!

