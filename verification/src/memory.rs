//! The memory interface that the processor and the picture unit share, and
//! the processor's side of it: the router that sends each address to the one
//! device that owns it.

use vstd::prelude::*;
use vstd::array::spec_array_update;
use crate::ppu::PPU;

verus! {

/// A device on an address bus.
///
/// Reads may change the device (a status port that clears on read), so both
/// operations take the device mutably. The spec functions are the device's
/// transition function, which `read` and `write` must follow. A device
/// whose `read` and `write` are to be verified must define all four: the
/// bodies given here stand for no device, and are there only so that code
/// that is not verified can implement the trait by its two operations.
pub trait Memory: Sized {
    /// What the device keeps true across every access.
    open spec fn inv(self) -> bool {
        true
    }

    /// The byte that a read of `addr` returns in this state.
    open spec fn read_value(self, addr: u16) -> u8 {
        arbitrary()
    }

    /// The state that a read of `addr` leaves behind.
    open spec fn after_read(self, addr: u16) -> Self {
        arbitrary()
    }

    /// The state that a write of `value` to `addr` leaves behind.
    open spec fn after_write(self, addr: u16, value: u8) -> Self {
        arbitrary()
    }

    /// Reads the byte at `addr`.
    fn read(&mut self, addr: u16) -> (value: u8)
        ensures
            value == old(self).read_value(addr),
            *final(self) == old(self).after_read(addr),
            old(self).inv() ==> final(self).inv(),
    ;

    /// Writes `value` to `addr`.
    fn write(&mut self, addr: u16, value: u8)
        ensures
            *final(self) == old(self).after_write(addr, value),
            old(self).inv() ==> final(self).inv(),
    ;
}

/// The devices that the processor's addresses reach.
#[derive(Clone, Copy, Debug, PartialEq, Eq, Structural)]
pub enum Device {
    /// 2 KiB of work memory, mirrored through `0x1FFF`.
    Ram,
    /// The picture unit's eight ports, mirrored through `0x3FFF`.
    PpuPort,
    /// The sprite DMA port at `0x4014`.
    OamDma,
    /// The two controller ports at `0x4016` and `0x4017`.
    Controller,
    /// The cartridge, from `0x6000` up.
    Mapper,
    /// The rest of `0x4000..0x6000`, which nothing in this core answers.
    Unmapped,
}

/// The device that owns `addr`.
pub open spec fn spec_device(addr: u16) -> Device {
    if addr < 0x2000 {
        Device::Ram
    } else if addr < 0x4000 {
        Device::PpuPort
    } else if addr == 0x4014 {
        Device::OamDma
    } else if addr == 0x4016 || addr == 0x4017 {
        Device::Controller
    } else if addr < 0x6000 {
        Device::Unmapped
    } else {
        Device::Mapper
    }
}

/// The port of the picture unit that a mirrored address stands for.
pub open spec fn spec_port(addr: u16) -> u16 {
    (0x2000 + addr % 8) as u16
}

/// The device that owns `addr`.
#[verifier::when_used_as_spec(spec_device)]
pub fn device(addr: u16) -> (owner: Device)
    ensures
        owner == spec_device(addr),
{
    if addr < 0x2000 {
        Device::Ram
    } else if addr < 0x4000 {
        Device::PpuPort
    } else if addr == 0x4014 {
        Device::OamDma
    } else if addr == 0x4016 || addr == 0x4017 {
        Device::Controller
    } else if addr < 0x6000 {
        Device::Unmapped
    } else {
        Device::Mapper
    }
}

/// Everything that the processor reaches through its address bus: the work
/// memory, the picture unit, and through the picture unit the cartridge.
pub struct CPUMemory<M: Memory> {
    pub ram: [u8; 2048],
    pub ppu: PPU<M>,
    /// A sprite DMA ran and the processor has not been stalled for it yet.
    pub dma_pending: bool,
}

impl<M: Memory> CPUMemory<M> {
    /// The ranges that every reachable state of the picture unit keeps.
    pub open spec fn wf(self) -> bool {
        self.ppu.wf()
    }

    /// The bus around a picture unit, with the work memory cleared.
    pub fn new(ppu: PPU<M>) -> (bus: Self)
        ensures
            bus.ppu == ppu,
            !bus.dma_pending,
            forall|i: int| 0 <= i < 2048 ==> bus.ram[i] == 0,
            ppu.wf() ==> bus.wf(),
    {
        CPUMemory { ram: [0u8;2048], ppu, dma_pending: false }
    }

    /// The byte that a read of `addr` returns. Controller ports and
    /// unmapped addresses read as zero.
    pub open spec fn bus_value(self, addr: u16) -> u8 {
        match spec_device(addr) {
            Device::Ram => self.ram[(addr % 0x0800) as int],
            Device::PpuPort => self.ppu.register_value(spec_port(addr)),
            Device::OamDma => self.ppu.register_value(addr),
            Device::Controller => 0,
            Device::Unmapped => 0,
            Device::Mapper => self.ppu.memory.read_value(addr),
        }
    }

    /// The state that a read of `addr` leaves behind: only a port of the
    /// picture unit or the cartridge may change.
    pub open spec fn after_bus_read(self, addr: u16) -> Self {
        match spec_device(addr) {
            Device::PpuPort => CPUMemory {
                ppu: self.ppu.after_read_register(spec_port(addr)),
                ..self
            },
            Device::OamDma => CPUMemory { ppu: self.ppu.after_read_register(addr), ..self },
            Device::Mapper => CPUMemory {
                ppu: PPU { memory: self.ppu.memory.after_read(addr), ..self.ppu },
                ..self
            },
            _ => self,
        }
    }

    /// The state after the first `n` bytes of page `page` are copied to
    /// sprite memory: each is read through the bus, stored under the sprite
    /// cursor, and the cursor moves on.
    pub open spec fn after_dma_copy(self, page: u8, n: nat) -> Self
        decreases n,
    {
        if n == 0 {
            self
        } else {
            self.after_dma_copy(page, (n - 1) as nat).after_dma_byte(
                (page * 256 + (n - 1)) as u16,
            )
        }
    }

    /// The state after one byte of a sprite DMA: the byte at `source` is
    /// read through the bus and stored under the sprite cursor, which moves
    /// on.
    #[verifier::opaque]
    pub open spec fn after_dma_byte(self, source: u16) -> Self {
        let read = self.after_bus_read(source);
        CPUMemory { ppu: read.ppu.after_write_oam_data(self.bus_value(source)), ..read }
    }

    /// Byte `i` of page `page` as a sprite DMA that starts in this state reads
    /// it: through the bus, after the bytes before it were read and stored.
    pub open spec fn dma_byte(self, page: u8, i: nat) -> u8 {
        self.after_dma_copy(page, i).bus_value((page * 256 + i) as u16)
    }

    /// The state after the picture unit has latched a byte written to the
    /// sprite DMA port and the bus has taken the request from it.
    pub open spec fn after_dma_request(self, page: u8) -> Self {
        CPUMemory {
            ppu: PPU { dma_page: None, ..self.ppu.after_write_register(0x4014, page) },
            ..self
        }
    }

    /// The state after a write to the sprite DMA port: the picture unit
    /// latches the byte, the 256 bytes of that page are copied, and the
    /// stall that the copy costs the processor is left pending.
    pub open spec fn after_dma(self, page: u8) -> Self {
        CPUMemory { dma_pending: true, ..self.after_dma_request(page).after_dma_copy(page, 256) }
    }

    /// The state that a write of `value` to `addr` leaves behind. Writes to
    /// controller ports and unmapped addresses are dropped.
    pub open spec fn after_bus_write(self, addr: u16, value: u8) -> Self {
        match spec_device(addr) {
            Device::Ram => CPUMemory {
                ram: spec_array_update(self.ram, (addr % 0x0800) as int, value),
                ..self
            },
            Device::PpuPort => CPUMemory {
                ppu: self.ppu.after_write_register(spec_port(addr), value),
                ..self
            },
            Device::OamDma => self.after_dma(value),
            Device::Controller => self,
            Device::Unmapped => self,
            Device::Mapper => CPUMemory {
                ppu: PPU { memory: self.ppu.memory.after_write(addr, value), ..self.ppu },
                ..self
            },
        }
    }

    /// Copies the 256 bytes of page `page` to sprite memory, in order.
    #[verifier::rlimit(50)]
    pub fn copy_sprites(&mut self, page: u8)
        ensures
            *final(self) == old(self).after_dma_copy(page, 256),
            old(self).wf() ==> final(self).wf(),
    {
        let mut i: u16 = 0;
        while i < 256
            invariant
                i <= 256,
                *self == old(self).after_dma_copy(page, i as nat),
                old(self).wf() ==> self.wf(),
            decreases 256 - i,
        {
            let source: u16 = (page as u16) * 256 + i;
            proof {
                reveal(CPUMemory::after_dma_byte);
            }
            let value: u8 = self.read(source);
            self.ppu.write_oam_data(value);
            i = i + 1;
        }
    }

    /// Whether a sprite DMA ran since the last call; the caller owes the
    /// processor its stall.
    pub fn take_dma(&mut self) -> (pending: bool)
        ensures
            pending == old(self).dma_pending,
            *final(self) == (CPUMemory { dma_pending: false, ..*old(self) }),
            old(self).wf() ==> final(self).wf(),
    {
        let pending = self.dma_pending;
        self.dma_pending = false;
        pending
    }
}

impl<M: Memory> Memory for CPUMemory<M> {
    open spec fn inv(self) -> bool {
        self.wf()
    }

    open spec fn read_value(self, addr: u16) -> u8 {
        self.bus_value(addr)
    }

    open spec fn after_read(self, addr: u16) -> Self {
        self.after_bus_read(addr)
    }

    open spec fn after_write(self, addr: u16, value: u8) -> Self {
        self.after_bus_write(addr, value)
    }

    fn read(&mut self, addr: u16) -> (value: u8) {
        match device(addr) {
            Device::Ram => self.ram[(addr % 0x0800) as usize],
            Device::PpuPort => self.ppu.read_register(0x2000 + addr % 8),
            Device::OamDma => self.ppu.read_register(addr),
            Device::Controller => 0,
            Device::Unmapped => 0,
            Device::Mapper => self.ppu.memory.read(addr),
        }
    }

    #[verifier::rlimit(50)]
    fn write(&mut self, addr: u16, value: u8) {
        match device(addr) {
            Device::Ram => {
                self.ram[(addr % 0x0800) as usize] = value;
            },
            Device::PpuPort => {
                self.ppu.write_register(0x2000 + addr % 8, value);
            },
            Device::OamDma => {
                self.ppu.write_register(addr, value);
                match self.ppu.take_dma() {
                    Some(page) => {
                        self.copy_sprites(page);
                        self.dma_pending = true;
                    },
                    None => {},
                }
            },
            Device::Controller => {},
            Device::Unmapped => {},
            Device::Mapper => {
                self.ppu.memory.write(addr, value);
            },
        }
    }
}

/// Work memory reads back what was written, at the address and at its
/// mirrors 2 KiB apart, and nowhere else; neither the write nor a read
/// touches anything but the work memory.
#[verifier::rlimit(50)]
pub proof fn lemma_ram_write_then_read<M: Memory>(
    bus: CPUMemory<M>,
    addr: u16,
    value: u8,
    other: u16,
)
    requires
        addr < 0x2000,
        other < 0x2000,
    ensures
        bus.after_write(addr, value).read_value(other) == (if other % 0x0800 == addr % 0x0800 {
            value
        } else {
            bus.read_value(other)
        }),
        bus.after_read(other) == bus,
        bus.after_write(addr, value) == (CPUMemory {
            ram: bus.after_write(addr, value).ram,
            ..bus
        }),
{
}

/// Each port of the picture unit answers at every eighth address up to
/// `0x3FFF`.
#[verifier::rlimit(50)]
pub proof fn lemma_ports_are_mirrored<M: Memory>(bus: CPUMemory<M>, addr: u16, value: u8)
    requires
        0x2000 <= addr < 0x4000,
    ensures
        bus.read_value(addr) == bus.read_value(spec_port(addr)),
        bus.after_read(addr) == bus.after_read(spec_port(addr)),
        bus.after_write(addr, value) == bus.after_write(spec_port(addr), value),
        0x2000 <= spec_port(addr) < 0x2008,
{
}

/// One byte of a sprite DMA, whatever its source: the byte read is stored
/// under the cursor and the cursor moves on. No read, of a port or of the
/// cartridge, touches sprite memory, its cursor or the work memory.
#[verifier::rlimit(50)]
pub proof fn lemma_dma_byte<M: Memory>(bus: CPUMemory<M>, source: u16)
    ensures
        ({
            let next = bus.after_dma_byte(source);
            &&& next.ppu.oam_data == spec_array_update(
                bus.ppu.oam_data,
                bus.ppu.oam_addr as int,
                bus.bus_value(source),
            )
            &&& next.ppu.oam_addr == (bus.ppu.oam_addr + 1) % 256
            &&& next.ram == bus.ram
            &&& next.dma_pending == bus.dma_pending
        }),
{
    reveal(CPUMemory::after_dma_byte);
}

/// Where a sprite DMA from any page leaves the cursor after `n` bytes, and
/// that it leaves the work memory as it was.
pub proof fn lemma_dma_cursor<M: Memory>(bus: CPUMemory<M>, page: u8, n: nat)
    requires
        n <= 256,
    ensures
        bus.after_dma_copy(page, n).ppu.oam_addr == (bus.ppu.oam_addr + n) % 256,
        bus.after_dma_copy(page, n).ram == bus.ram,
        bus.after_dma_copy(page, n).dma_pending == bus.dma_pending,
    decreases n,
{
    if n > 0 {
        let m = (n - 1) as nat;
        lemma_dma_cursor(bus, page, m);
        lemma_dma_byte(bus.after_dma_copy(page, m), (page * 256 + m) as u16);
        lemma_cursor_on(bus.ppu.oam_addr as int, m as int);
    }
}

/// The cursor one entry on.
pub proof fn lemma_cursor_on(start: int, m: int)
    requires
        0 <= start < 256,
        0 <= m,
    ensures
        ((start + m) % 256 + 1) % 256 == (start + m + 1) % 256,
{
}

/// After `n` bytes of a sprite DMA from any page, byte `i` of the page, as
/// the copy read it, lies `i` entries after the start.
pub proof fn lemma_dma_entry<M: Memory>(bus: CPUMemory<M>, page: u8, n: nat, i: int)
    requires
        n <= 256,
        0 <= i < n,
    ensures
        bus.after_dma_copy(page, n).ppu.oam_data[(bus.ppu.oam_addr + i) % 256] == bus.dma_byte(
            page,
            i as nat,
        ),
    decreases n,
{
    let m = (n - 1) as nat;
    let copied = bus.after_dma_copy(page, m);
    lemma_dma_cursor(bus, page, m);
    lemma_dma_byte(copied, (page * 256 + m) as u16);
    if i < m {
        lemma_dma_entry(bus, page, m, i);
        lemma_entries_apart(bus.ppu.oam_addr as int, i, m as int);
    }
}

/// Sprite DMA from any page copies exactly the 256 bytes of the page, in
/// the order in which it reads them through the bus, to sprite memory from
/// the cursor on, wrapping at its end; the cursor returns to where it stood,
/// the work memory is untouched, and the stall is left pending.
pub proof fn lemma_dma_copies_in_order<M: Memory>(bus: CPUMemory<M>, page: u8)
    ensures
        ({
            let end = bus.after_write(0x4014, page);
            &&& forall|i: int|
                0 <= i < 256 ==> #[trigger] end.ppu.oam_data[(bus.ppu.oam_addr + i) % 256]
                    == bus.after_dma_request(page).dma_byte(page, i as nat)
            &&& end.ppu.oam_addr == bus.ppu.oam_addr
            &&& end.ram == bus.ram
            &&& end.dma_pending
        }),
{
    let requested = bus.after_dma_request(page);
    assert(requested.ppu.oam_addr == bus.ppu.oam_addr && requested.ram == bus.ram) by {
        lemma_dma_request(bus, page);
    }
    lemma_dma_cursor(requested, page, 256);
    let end = bus.after_write(0x4014, page);
    assert(end.ppu.oam_data == requested.after_dma_copy(page, 256).ppu.oam_data);
    assert forall|i: int| 0 <= i < 256 implies #[trigger] end.ppu.oam_data[(bus.ppu.oam_addr
        + i) % 256] == requested.dma_byte(page, i as nat) by {
        lemma_dma_entry(requested, page, 256, i);
    }
}

/// Latching the request touches neither sprite memory, nor its cursor, nor
/// the work memory.
#[verifier::rlimit(50)]
pub proof fn lemma_dma_request<M: Memory>(bus: CPUMemory<M>, page: u8)
    ensures
        bus.after_dma_request(page).ppu.oam_addr == bus.ppu.oam_addr,
        bus.after_dma_request(page).ppu.oam_data == bus.ppu.oam_data,
        bus.after_dma_request(page).ppu.memory == bus.ppu.memory,
        bus.after_dma_request(page).ram == bus.ram,
{
}

/// Fewer than 256 entries apart, two entries of sprite memory are not the
/// same entry.
pub proof fn lemma_entries_apart(start: int, i: int, j: int)
    requires
        0 <= i < j < 256,
    ensures
        (start + i) % 256 != (start + j) % 256,
        0 <= (start + i) % 256 < 256,
        0 <= (start + j) % 256 < 256,
{
}

/// Sprite DMA from work memory copies exactly the 256 bytes of the page, in
/// source order, to sprite memory from the cursor on, wrapping at its end;
/// the cursor returns to where it stood, the work memory is untouched, and
/// the stall is left pending.
pub proof fn lemma_dma_from_ram<M: Memory>(bus: CPUMemory<M>, page: u8)
    requires
        page < 0x20,
    ensures
        ({
            let end = bus.after_write(0x4014, page);
            &&& forall|i: int|
                0 <= i < 256 ==> #[trigger] end.ppu.oam_data[(bus.ppu.oam_addr + i) % 256]
                    == bus.ram[(page * 256 + i) % 2048]
            &&& end.ppu.oam_addr == bus.ppu.oam_addr
            &&& end.ram == bus.ram
            &&& end.dma_pending
        }),
{
    lemma_dma_copies_in_order(bus, page);
    lemma_dma_request(bus, page);
    let requested = bus.after_dma_request(page);
    let end = bus.after_write(0x4014, page);
    assert forall|i: int| 0 <= i < 256 implies #[trigger] end.ppu.oam_data[(bus.ppu.oam_addr
        + i) % 256] == bus.ram[(page * 256 + i) % 2048] by {
        lemma_dma_cursor(requested, page, i as nat);
        lemma_ram_byte(requested.after_dma_copy(page, i as nat), (page * 256 + i) as u16);
    }
}

/// What the bus returns for an address of the work memory.
pub proof fn lemma_ram_byte<M: Memory>(bus: CPUMemory<M>, addr: u16)
    requires
        addr < 0x2000,
    ensures
        bus.bus_value(addr) == bus.ram[(addr % 2048) as int],
{
}

/// The cartridge after the first `n` bytes of its page `page` are read, in
/// order.
pub open spec fn cartridge_after_reads<M: Memory>(cartridge: M, page: u8, n: nat) -> M
    decreases n,
{
    if n == 0 {
        cartridge
    } else {
        cartridge_after_reads(cartridge, page, (n - 1) as nat).after_read(
            (page * 256 + (n - 1)) as u16,
        )
    }
}

/// Byte `i` of page `page` as the cartridge returns it when the bytes before
/// it were read first.
pub open spec fn cartridge_byte<M: Memory>(cartridge: M, page: u8, i: nat) -> u8 {
    cartridge_after_reads(cartridge, page, i).read_value((page * 256 + i) as u16)
}

/// One byte of a sprite DMA whose source is the cartridge: the cartridge is
/// read once.
#[verifier::rlimit(50)]
pub proof fn lemma_dma_byte_from_cartridge<M: Memory>(bus: CPUMemory<M>, source: u16)
    requires
        source >= 0x6000,
    ensures
        bus.after_dma_byte(source).ppu.memory == bus.ppu.memory.after_read(source),
        bus.bus_value(source) == bus.ppu.memory.read_value(source),
{
    reveal(CPUMemory::after_dma_byte);
}

/// A sprite DMA from the cartridge reads the cartridge once for each byte,
/// in order, and nothing else of it.
pub proof fn lemma_dma_reads_cartridge<M: Memory>(bus: CPUMemory<M>, page: u8, n: nat)
    requires
        page >= 0x60,
        n <= 256,
    ensures
        bus.after_dma_copy(page, n).ppu.memory == cartridge_after_reads(bus.ppu.memory, page, n),
        n < 256 ==> bus.dma_byte(page, n) == cartridge_byte(bus.ppu.memory, page, n),
    decreases n,
{
    if n > 0 {
        let m = (n - 1) as nat;
        lemma_dma_reads_cartridge(bus, page, m);
        lemma_dma_byte_from_cartridge(bus.after_dma_copy(page, m), (page * 256 + m) as u16);
    }
    if n < 256 {
        lemma_dma_byte_from_cartridge(bus.after_dma_copy(page, n), (page * 256 + n) as u16);
    }
}

/// Sprite DMA from the cartridge copies exactly the 256 bytes of the page,
/// in source order, to sprite memory from the cursor on, wrapping at its
/// end; the cursor returns to where it stood, and the stall is left pending.
pub proof fn lemma_dma_from_cartridge<M: Memory>(bus: CPUMemory<M>, page: u8)
    requires
        page >= 0x60,
    ensures
        ({
            let end = bus.after_write(0x4014, page);
            &&& forall|i: int|
                0 <= i < 256 ==> #[trigger] end.ppu.oam_data[(bus.ppu.oam_addr + i) % 256]
                    == cartridge_byte(bus.ppu.memory, page, i as nat)
            &&& end.ppu.oam_addr == bus.ppu.oam_addr
            &&& end.ppu.memory == cartridge_after_reads(bus.ppu.memory, page, 256)
            &&& end.ram == bus.ram
            &&& end.dma_pending
        }),
{
    lemma_dma_copies_in_order(bus, page);
    lemma_dma_request(bus, page);
    let requested = bus.after_dma_request(page);
    lemma_dma_reads_cartridge(requested, page, 256);
    let end = bus.after_write(0x4014, page);
    assert(end.ppu.memory == requested.after_dma_copy(page, 256).ppu.memory);
    assert forall|i: int| 0 <= i < 256 implies #[trigger] end.ppu.oam_data[(bus.ppu.oam_addr
        + i) % 256] == cartridge_byte(bus.ppu.memory, page, i as nat) by {
        lemma_dma_reads_cartridge(requested, page, i as nat);
    }
}

/// No read of any address changes the work memory.
#[verifier::rlimit(50)]
pub proof fn lemma_read_keeps_ram<M: Memory>(bus: CPUMemory<M>, addr: u16, other: u16)
    requires
        other < 0x2000,
    ensures
        bus.after_read(addr).ram == bus.ram,
        bus.after_read(addr).read_value(other) == bus.read_value(other),
{
}

} // verus!
