//! The bus: an ordered list of mapped devices behind one address decoder.
use vstd::prelude::*;
use crate::mapped_hardware::MappedHardware;

verus! {

/// The clock cycles that the bus charges for one word access.
pub const WORD_ACCESS_CYCLES: usize = 4;

/// A bus as a mathematical value: the devices mapped to it, in the order in
/// which they are asked, and the clock cycles counted so far.
pub struct BusState<S> {
    pub devices: Seq<S>,
    pub cycles: u64,
}

/// The devices after `cycles` clock cycles have passed for each.
pub open spec fn all_ticked<D: MappedHardware>(devices: Seq<D::V>, cycles: usize) -> Seq<D::V> {
    Seq::new(devices.len(), |i: int| D::ticked(devices[i], cycles))
}

/// A word read that asks the devices from number `from` on, one after the
/// other, until one of them is present: the devices after the read, and what
/// the first present device returned, `None` where none was present.
pub open spec fn first_read<D: MappedHardware>(devices: Seq<D::V>, from: int, address: u32) -> (
    Seq<D::V>,
    Option<u16>,
)
    decreases devices.len() - from,
{
    if from < 0 || from >= devices.len() {
        (devices, None)
    } else {
        let (after, found) = D::word_read(devices[from], address);
        let asked = devices.update(from, after);
        if found is Some {
            (asked, found)
        } else {
            first_read::<D>(asked, from + 1, address)
        }
    }
}

/// A word write that offers the word to the devices from number `from` on,
/// one after the other, until one of them takes it.
pub open spec fn first_written<D: MappedHardware>(
    devices: Seq<D::V>,
    from: int,
    address: u32,
    value: u16,
) -> (Seq<D::V>, Option<u16>)
    decreases devices.len() - from,
{
    if from < 0 || from >= devices.len() {
        (devices, None)
    } else {
        let (after, taken) = D::word_written(devices[from], address, value);
        let asked = devices.update(from, after);
        if taken is Some {
            (asked, taken)
        } else {
            first_written::<D>(asked, from + 1, address, value)
        }
    }
}

/// An address decoder: an ordered list of mapped devices, of which the first
/// that is present at an address answers.
pub struct Bus<D: MappedHardware> {
    mapped_hardwares: Vec<D>,
    pub cycles: u64,
}

impl<D: MappedHardware> View for Bus<D> {
    type V = BusState<D::V>;

    closed spec fn view(&self) -> BusState<D::V> {
        BusState {
            devices: Seq::new(self.mapped_hardwares@.len(), |i: int| self.mapped_hardwares@[i]@),
            cycles: self.cycles,
        }
    }
}

impl<D: MappedHardware> Bus<D> {
    /// A bus with no device mapped and no cycle counted.
    pub fn new() -> (r: Bus<D>)
        ensures
            r@.devices.len() == 0,
            r@.cycles == 0,
    {
        Bus { mapped_hardwares: Vec::new(), cycles: 0 }
    }

    /// Maps one more device, which is asked after those mapped before.
    pub fn map_hardware(&mut self, hardware: D)
        ensures
            final(self)@.devices == old(self)@.devices.push(hardware@),
            final(self)@.cycles == old(self)@.cycles,
    {
        self.mapped_hardwares.push(hardware);
        assert(final(self)@.devices =~= old(self)@.devices.push(hardware@));
    }

    /// The clock cycles counted so far.
    pub fn cycles(&self) -> (r: u64)
        ensures
            r == self@.cycles,
    {
        self.cycles
    }
}

impl<D: MappedHardware> Default for Bus<D> {
    fn default() -> (r: Bus<D>)
        ensures
            r@.devices.len() == 0,
            r@.cycles == 0,
    {
        Bus::new()
    }
}

impl<D: MappedHardware> MappedHardware for Bus<D> {
    /// The cycles are counted, wrapping at the end of the counter, and pass
    /// for every device.
    open spec fn ticked(state: BusState<D::V>, cycles: usize) -> BusState<D::V> {
        BusState {
            devices: all_ticked::<D>(state.devices, cycles),
            cycles: state.cycles.wrapping_add(cycles as u64),
        }
    }

    /// A read costs `WORD_ACCESS_CYCLES`; then the devices are asked in order.
    open spec fn word_read(state: BusState<D::V>, address: u32) -> (
        BusState<D::V>,
        Option<u16>,
    ) {
        let charged = Self::ticked(state, WORD_ACCESS_CYCLES);
        let (devices, found) = first_read::<D>(charged.devices, 0, address);
        (BusState { devices, cycles: charged.cycles }, found)
    }

    /// A write costs `WORD_ACCESS_CYCLES`; then the word is offered to the
    /// devices in order.
    open spec fn word_written(state: BusState<D::V>, address: u32, value: u16) -> (
        BusState<D::V>,
        Option<u16>,
    ) {
        let charged = Self::ticked(state, WORD_ACCESS_CYCLES);
        let (devices, taken) = first_written::<D>(charged.devices, 0, address, value);
        (BusState { devices, cycles: charged.cycles }, taken)
    }

    fn tick(&mut self, cycles: usize) {
        self.cycles = self.cycles.wrapping_add(cycles as u64);
        let count: usize = self.mapped_hardwares.len();
        let mut i: usize = 0;
        while i < count
            invariant
                i <= count,
                count == self.mapped_hardwares@.len(),
                count == old(self).mapped_hardwares@.len(),
                self.cycles == old(self).cycles.wrapping_add(cycles as u64),
                forall|j: int|
                    0 <= j < i ==> self.mapped_hardwares@[j]@ == D::ticked(
                        #[trigger] old(self).mapped_hardwares@[j]@,
                        cycles,
                    ),
                forall|j: int|
                    i <= j < count ==> self.mapped_hardwares@[j]@ == #[trigger] old(
                        self,
                    ).mapped_hardwares@[j]@,
            decreases count - i,
        {
            self.mapped_hardwares[i].tick(cycles);
            i = i + 1;
        }
        assert(self@.devices =~= all_ticked::<D>(old(self)@.devices, cycles));
    }

    fn read_word(&mut self, address: u32) -> (r: Option<u16>) {
        self.tick(WORD_ACCESS_CYCLES);
        let ghost charged = self@;
        let count: usize = self.mapped_hardwares.len();
        let mut i: usize = 0;
        while i < count
            invariant
                i <= count,
                count == self.mapped_hardwares@.len(),
                self@.cycles == charged.cycles,
                charged == Self::ticked(old(self)@, WORD_ACCESS_CYCLES),
                first_read::<D>(self@.devices, i as int, address) == first_read::<D>(
                    charged.devices,
                    0,
                    address,
                ),
            decreases count - i,
        {
            let ghost before = self@.devices;
            let found = self.mapped_hardwares[i].read_word(address);
            assert(self@.devices =~= before.update(i as int, self.mapped_hardwares@[i as int]@));
            if found.is_some() {
                assert(first_read::<D>(before, i as int, address) == (self@.devices, found));
                return found;
            }
            i = i + 1;
        }
        None
    }

    fn write_word(&mut self, address: u32, value: u16) -> (r: Option<u16>) {
        self.tick(WORD_ACCESS_CYCLES);
        let ghost charged = self@;
        let count: usize = self.mapped_hardwares.len();
        let mut i: usize = 0;
        while i < count
            invariant
                i <= count,
                count == self.mapped_hardwares@.len(),
                self@.cycles == charged.cycles,
                charged == Self::ticked(old(self)@, WORD_ACCESS_CYCLES),
                first_written::<D>(self@.devices, i as int, address, value) == first_written::<D>(
                    charged.devices,
                    0,
                    address,
                    value,
                ),
            decreases count - i,
        {
            let ghost before = self@.devices;
            let taken = self.mapped_hardwares[i].write_word(address, value);
            assert(self@.devices =~= before.update(i as int, self.mapped_hardwares@[i as int]@));
            if taken.is_some() {
                assert(first_written::<D>(before, i as int, address, value) == (
                    self@.devices,
                    taken,
                ));
                return taken;
            }
            i = i + 1;
        }
        None
    }
}

} // verus!
