use vstd::prelude::*;

use crate::cpu::{step_outcome, tick_down, Cpu, Machine};
use crate::error::CpuError;

verus! {

/// The interpreter as driven from a keyboard: space executes one instruction,
/// `s` starts or stops free running, and while running every tick executes
/// an instruction and counts the timers down.
pub struct App {
    /// The machine.
    pub cpu: Cpu,
    /// Whether the machine runs on its own at each tick.
    pub running: bool,
}

impl App {
    /// A stopped app around a machine with `rom` loaded; fails when `rom`
    /// does not fit in memory.
    pub fn new(rom: &[u8]) -> (r: Result<App, CpuError>)
        ensures
            crate::mem::PROG_START + rom@.len() > crate::mem::MEM_SIZE ==> r == Err::<
                App,
                CpuError,
            >(CpuError::ProgramTooLarge),
            crate::mem::PROG_START + rom@.len() <= crate::mem::MEM_SIZE ==> (r matches Ok(app)
                && app.cpu.wf() && app.cpu@ == crate::cpu::initial_machine(rom@)
                && !app.running),
    {
        match Cpu::new(rom) {
            Ok(cpu) => Ok(App { cpu, running: false }),
            Err(e) => Err(e),
        }
    }

    /// Space executes one instruction; `s` toggles free running; any other
    /// key does nothing.
    pub fn on_key(&mut self, c: char) -> (r: Result<(), CpuError>)
        requires
            old(self).cpu.wf(),
        ensures
            final(self).cpu.wf(),
            c == ' ' ==> final(self).running == old(self).running && exists|rnd: u8|
                step_outcome(old(self).cpu@, rnd, r, final(self).cpu@),
            c == 's' ==> final(self).running == !old(self).running && r is Ok
                && final(self).cpu@ == old(self).cpu@,
            c != ' ' && c != 's' ==> final(self).running == old(self).running && r is Ok
                && final(self).cpu@ == old(self).cpu@,
    {
        if c == ' ' {
            self.cpu.step()
        } else if c == 's' {
            self.running = !self.running;
            Ok(())
        } else {
            Ok(())
        }
    }

    /// While running: executes one instruction, then counts the timers down.
    /// Stopped: does nothing.
    pub fn on_tick(&mut self) -> (r: Result<(), CpuError>)
        requires
            old(self).cpu.wf(),
        ensures
            final(self).cpu.wf(),
            final(self).running == old(self).running,
            !old(self).running ==> r is Ok && final(self).cpu@ == old(self).cpu@,
            old(self).running ==> exists|rnd: u8, mid: Machine|
                step_outcome(old(self).cpu@, rnd, r, mid) && final(self).cpu@ == (Machine {
                    delay: tick_down(mid.delay),
                    sound: tick_down(mid.sound),
                    ..mid
                }),
    {
        if !self.running {
            return Ok(());
        }
        let r = self.cpu.step();
        self.cpu.tick();
        r
    }
}

} // verus!
