//! A processor wired to a bus.
use vstd::prelude::*;
use crate::bus::{Bus, BusState};
use crate::cpu::{on_registers, reset_done, stepped, Cpu, CpuState};
use crate::fault::Fault;
use crate::mapped_hardware::MappedHardware;
use crate::registers::RegisterState;

verus! {

/// A machine as a mathematical value: a processor and the bus it drives.
pub struct MachineState<S> {
    pub cpu: CpuState,
    pub bus: BusState<S>,
}

/// What `steps` steps of the engine leave behind; the first fault ends the
/// run.
pub open spec fn run_of<B: MappedHardware>(cpu: CpuState, bus: B::V, steps: nat) -> (
    CpuState,
    B::V,
    Result<(), Fault>,
)
    decreases steps,
{
    if steps == 0 {
        (cpu, bus, Ok(()))
    } else {
        match stepped::<B>(cpu, bus) {
            (c, b, Ok(_)) => run_of::<B>(c, b, (steps - 1) as nat),
            (c, b, Err(fault)) => (c, b, Err(fault)),
        }
    }
}

/// A processor wired to a bus.
pub struct VirtualMachine<D: MappedHardware> {
    cpu: Cpu,
    bus: Bus<D>,
}

impl<D: MappedHardware> View for VirtualMachine<D> {
    type V = MachineState<D::V>;

    closed spec fn view(&self) -> MachineState<D::V> {
        MachineState { cpu: self.cpu@, bus: self.bus@ }
    }
}

impl<D: MappedHardware> VirtualMachine<D> {
    /// A machine with a fresh processor and nothing on its bus. The program
    /// is not loaded here: it is for the caller to map a device that holds it.
    pub fn new(prg: Vec<u8>) -> (r: VirtualMachine<D>)
        ensures
            r@.cpu.regs == RegisterState::zero(),
            r@.cpu.regs.wf(),
            r@.cpu.pending.len() == 0,
            !r@.cpu.stopped,
            r@.bus.devices.len() == 0,
            r@.bus.cycles == 0,
    {
        VirtualMachine { cpu: Cpu::new(), bus: Bus::new() }
    }

    /// Maps one more device to the bus, behind those mapped before.
    pub fn map_hardware(&mut self, hardware: D)
        ensures
            final(self)@.cpu == old(self)@.cpu,
            final(self)@.bus.devices == old(self)@.bus.devices.push(hardware@),
            final(self)@.bus.cycles == old(self)@.bus.cycles,
    {
        self.bus.map_hardware(hardware);
    }

    /// Resets the processor from the bus.
    pub fn init(&mut self) -> (r: Result<(), Fault>)
        ensures
            (final(self)@.cpu, final(self)@.bus, r) == on_registers(
                old(self)@.cpu,
                reset_done::<Bus<D>>(old(self)@.cpu.regs, old(self)@.bus),
            ),
            r is Ok || old(self)@.cpu.regs.wf() ==> final(self)@.cpu.regs.wf(),
    {
        self.cpu.reset(&mut self.bus)
    }

    /// Makes one step of the processor.
    pub fn tick(&mut self) -> (r: Result<(), Fault>)
        ensures
            (final(self)@.cpu, final(self)@.bus, r) == stepped::<Bus<D>>(
                old(self)@.cpu,
                old(self)@.bus,
            ),
            old(self)@.cpu.regs.wf() ==> final(self)@.cpu.regs.wf(),
    {
        self.cpu.execute_next_instruction(&mut self.bus)
    }

    /// Makes `steps` steps of the processor, or fewer where one ends in a
    /// fault, which is returned.
    pub fn run(&mut self, steps: u64) -> (r: Result<(), Fault>)
        ensures
            (final(self)@.cpu, final(self)@.bus, r) == run_of::<Bus<D>>(
                old(self)@.cpu,
                old(self)@.bus,
                steps as nat,
            ),
            old(self)@.cpu.regs.wf() ==> final(self)@.cpu.regs.wf(),
    {
        let mut left: u64 = steps;
        while left > 0
            invariant
                run_of::<Bus<D>>(self@.cpu, self@.bus, left as nat) == run_of::<Bus<D>>(
                    old(self)@.cpu,
                    old(self)@.bus,
                    steps as nat,
                ),
                old(self)@.cpu.regs.wf() ==> self@.cpu.regs.wf(),
            decreases left,
        {
            self.tick()?;
            left = left - 1;
        }
        Ok(())
    }

    /// The processor.
    pub fn cpu(&self) -> (r: &Cpu)
        ensures
            r@ == self@.cpu,
    {
        &self.cpu
    }

    /// The clock cycles that the bus has counted.
    pub fn cycles(&self) -> (r: u64)
        ensures
            r == self@.bus.cycles,
    {
        self.bus.cycles()
    }
}

} // verus!
