use vstd::prelude::*;
use crate::error::Chip8Error;

verus! {

/// Number of bytes of addressable memory.
pub const RAM_SIZE: usize = 4096;

/// First address that programs may write to; programs are loaded here.
pub const RAM_START: usize = 0x200;

/// Number of bytes that the hexadecimal digit sprites occupy.
pub const FONT_SIZE: usize = 80;

/// Number of bytes of one digit sprite.
pub const GLYPH_SIZE: usize = 5;

/// The sprites of the hexadecimal digits 0 to F, five bytes each.
pub const FONT: [u8; 80] = [
    0xF0, 0x90, 0x90, 0x90, 0xF0,
    0x20, 0x60, 0x20, 0x20, 0x70,
    0xF0, 0x10, 0xF0, 0x80, 0xF0,
    0xF0, 0x10, 0xF0, 0x10, 0xF0,
    0x90, 0x90, 0xF0, 0x10, 0x10,
    0xF0, 0x80, 0xF0, 0x10, 0xF0,
    0xF0, 0x80, 0xF0, 0x90, 0xF0,
    0xF0, 0x10, 0x20, 0x40, 0x40,
    0xF0, 0x90, 0xF0, 0x90, 0xF0,
    0xF0, 0x90, 0xF0, 0x10, 0xF0,
    0xF0, 0x90, 0xF0, 0x90, 0x90,
    0xE0, 0x90, 0xE0, 0x90, 0xE0,
    0xF0, 0x80, 0x80, 0x80, 0xF0,
    0xE0, 0x90, 0x90, 0x90, 0xE0,
    0xF0, 0x80, 0xF0, 0x80, 0xF0,
    0xF0, 0x80, 0xF0, 0x80, 0x80,
];

/// Memory as it is before any program is loaded: the font at the bottom,
/// zero everywhere else.
pub open spec fn fresh_memory() -> Seq<u8> {
    Seq::new(RAM_SIZE as nat, |a: int| if a < FONT_SIZE { FONT@[a] } else { 0u8 })
}

/// Address of the first byte of the sprite of `digit`.
pub open spec fn font_address(digit: int) -> int {
    digit * GLYPH_SIZE
}

/// What reading `addr` yields.
pub open spec fn read_at(mem: Seq<u8>, addr: int) -> Result<u8, Chip8Error> {
    if 0 <= addr < RAM_SIZE {
        Ok(mem[addr])
    } else {
        Err(Chip8Error::AddressOutOfRange)
    }
}

/// What writing `value` to `addr` yields: the new memory, or the reason
/// for which the write is refused.
pub open spec fn write_at(mem: Seq<u8>, addr: int, value: u8) -> Result<Seq<u8>, Chip8Error> {
    if addr < RAM_START {
        Err(Chip8Error::MemoryProtectionViolation)
    } else if addr >= RAM_SIZE {
        Err(Chip8Error::AddressOutOfRange)
    } else {
        Ok(mem.update(addr, value))
    }
}

/// Memory with `bytes` copied in from `addr` on.
pub open spec fn overlay(mem: Seq<u8>, addr: int, bytes: Seq<u8>) -> Seq<u8> {
    Seq::new(
        mem.len(),
        |a: int| if addr <= a < addr + bytes.len() { bytes[a - addr] } else { mem[a] },
    )
}

/// What loading `rom` yields: memory with the program at the program
/// start, unless the program is too long.
pub open spec fn load_at(mem: Seq<u8>, rom: Seq<u8>) -> Result<Seq<u8>, Chip8Error> {
    if rom.len() > RAM_SIZE - RAM_START {
        Err(Chip8Error::InvalidROMSize)
    } else {
        Ok(overlay(mem, RAM_START as int, rom))
    }
}

/// What reading `len` bytes from `addr` on yields. Reading nothing always
/// succeeds.
pub open spec fn read_range_at(mem: Seq<u8>, addr: int, len: int) -> Result<Seq<u8>, Chip8Error> {
    if len <= 0 {
        Ok(Seq::empty())
    } else if addr + len > RAM_SIZE {
        Err(Chip8Error::AddressOutOfRange)
    } else {
        Ok(mem.subrange(addr, addr + len))
    }
}

/// What writing `bytes` from `addr` on yields. The first byte that cannot
/// be written decides the error: a start in the protected region is a
/// protection violation, an end past memory an address out of range.
/// Writing nothing always succeeds.
pub open spec fn write_range_at(mem: Seq<u8>, addr: int, bytes: Seq<u8>) -> Result<
    Seq<u8>,
    Chip8Error,
> {
    if bytes.len() == 0 {
        Ok(mem)
    } else if addr < RAM_START {
        Err(Chip8Error::MemoryProtectionViolation)
    } else if addr + bytes.len() > RAM_SIZE {
        Err(Chip8Error::AddressOutOfRange)
    } else {
        Ok(overlay(mem, addr, bytes))
    }
}

/// Whether the protected region of `mem` is as it is in fresh memory.
pub open spec fn protected_intact(mem: Seq<u8>) -> bool {
    &&& mem.len() == RAM_SIZE
    &&& forall|a: int| 0 <= a < RAM_START ==> mem[a] == #[trigger] fresh_memory()[a]
}

/// The 4096-byte address space. Its first 512 bytes hold the font and can
/// be read but never written.
#[derive(Debug)]
pub struct Ram {
    data: [u8; 4096],
}

impl View for Ram {
    type V = Seq<u8>;

    closed spec fn view(&self) -> Seq<u8> {
        self.data@
    }
}

impl Ram {
    #[verifier::type_invariant]
    spec fn inv(&self) -> bool {
        protected_intact(self.data@)
    }

    /// Memory with the font loaded and nothing else.
    pub fn new() -> (ram: Ram)
        ensures
            ram@ == fresh_memory(),
    {
        let mut data = [0u8; 4096];
        let mut a: usize = 0;
        while a < FONT_SIZE
            invariant
                a <= FONT_SIZE,
                forall|j: int| 0 <= j < a ==> data@[j] == FONT@[j],
                forall|j: int| a <= j < RAM_SIZE ==> data@[j] == 0,
            decreases FONT_SIZE - a,
        {
            data[a] = FONT[a];
            a += 1;
        }
        Ram { data }
    }

    /// The byte at `addr`. Any address inside memory can be read, and the
    /// protected region always reads as it does in fresh memory.
    pub fn read(&self, addr: u16) -> (r: Result<u8, Chip8Error>)
        ensures
            r == read_at(self@, addr as int),
            self@.len() == RAM_SIZE,
            addr < RAM_START ==> r == Ok::<u8, Chip8Error>(fresh_memory()[addr as int]),
    {
        proof {
            use_type_invariant(self);
        }
        if addr as usize >= RAM_SIZE {
            return Err(Chip8Error::AddressOutOfRange);
        }
        Ok(self.data[addr as usize])
    }

    /// Stores `value` at `addr`, unless `addr` lies in the protected region
    /// or outside memory; then nothing changes.
    pub fn write(&mut self, addr: u16, value: u8) -> (r: Result<(), Chip8Error>)
        ensures
            match write_at(old(self)@, addr as int, value) {
                Ok(mem) => r.is_ok() && final(self)@ == mem,
                Err(e) => r == Err::<(), Chip8Error>(e) && final(self)@ == old(self)@,
            },
            addr < RAM_START ==> r == Err::<(), Chip8Error>(Chip8Error::MemoryProtectionViolation),
    {
        proof {
            use_type_invariant(&*self);
        }
        if (addr as usize) < RAM_START {
            return Err(Chip8Error::MemoryProtectionViolation);
        }
        if addr as usize >= RAM_SIZE {
            return Err(Chip8Error::AddressOutOfRange);
        }
        self.data[addr as usize] = value;
        Ok(())
    }

    /// Copies `rom` into memory from the program start on, unless it does
    /// not fit; then nothing changes.
    pub fn read_rom(&mut self, rom: &Vec<u8>) -> (r: Result<(), Chip8Error>)
        ensures
            match load_at(old(self)@, rom@) {
                Ok(mem) => r.is_ok() && final(self)@ == mem,
                Err(e) => r == Err::<(), Chip8Error>(e) && final(self)@ == old(self)@,
            },
    {
        proof {
            use_type_invariant(&*self);
        }
        if rom.len() > RAM_SIZE - RAM_START {
            return Err(Chip8Error::InvalidROMSize);
        }
        let mut idx: usize = 0;
        while idx < rom.len()
            invariant
                idx <= rom.len() <= RAM_SIZE - RAM_START,
                self.data@.len() == RAM_SIZE,
                protected_intact(self.data@),
                forall|a: int|
                    RAM_START <= a < RAM_START + idx ==> self.data@[a] == rom@[a - RAM_START],
                forall|a: int|
                    !(RAM_START <= a < RAM_START + idx) && 0 <= a < RAM_SIZE ==> self.data@[a]
                        == old(self).data@[a],
            decreases rom.len() - idx,
        {
            self.data[idx + RAM_START] = rom[idx];
            idx += 1;
        }
        Ok(())
    }

    /// The `len` bytes from `addr` on, if all of them lie inside memory.
    pub fn read_range(&self, addr: u16, len: usize) -> (r: Result<Vec<u8>, Chip8Error>)
        ensures
            match read_range_at(self@, addr as int, len as int) {
                Ok(bytes) => r.is_ok() && r.unwrap()@ == bytes,
                Err(e) => r == Err::<Vec<u8>, Chip8Error>(e),
            },
            self@.len() == RAM_SIZE,
    {
        let mut bytes: Vec<u8> = Vec::new();
        if len == 0 {
            return Ok(bytes);
        }
        if len > RAM_SIZE || addr as usize + len > RAM_SIZE {
            return Err(Chip8Error::AddressOutOfRange);
        }
        let start: usize = addr as usize;
        let mut k: usize = 0;
        while k < len
            invariant
                k <= len,
                start + len <= RAM_SIZE,
                bytes@ == self.data@.subrange(start as int, start + k),
            decreases len - k,
        {
            bytes.push(self.data[start + k]);
            k += 1;
        }
        Ok(bytes)
    }

    /// Stores `bytes` from `addr` on, unless one of them would land in the
    /// protected region or outside memory; then nothing changes.
    pub fn write_range(&mut self, addr: u16, bytes: &Vec<u8>) -> (r: Result<(), Chip8Error>)
        ensures
            match write_range_at(old(self)@, addr as int, bytes@) {
                Ok(mem) => r.is_ok() && final(self)@ == mem,
                Err(e) => r == Err::<(), Chip8Error>(e) && final(self)@ == old(self)@,
            },
    {
        proof {
            use_type_invariant(&*self);
        }
        let len = bytes.len();
        if len == 0 {
            return Ok(());
        }
        if (addr as usize) < RAM_START {
            return Err(Chip8Error::MemoryProtectionViolation);
        }
        if len > RAM_SIZE || addr as usize + len > RAM_SIZE {
            return Err(Chip8Error::AddressOutOfRange);
        }
        let start: usize = addr as usize;
        let mut k: usize = 0;
        while k < len
            invariant
                k <= len,
                len == bytes@.len(),
                RAM_START <= start,
                start + len <= RAM_SIZE,
                protected_intact(self.data@),
                forall|a: int| start <= a < start + k ==> self.data@[a] == bytes@[a - start],
                forall|a: int|
                    !(start <= a < start + k) && 0 <= a < RAM_SIZE ==> self.data@[a]
                        == old(self).data@[a],
            decreases len - k,
        {
            self.data[start + k] = bytes[k];
            k += 1;
        }
        Ok(())
    }
}

/// A byte written to program memory is the byte read back from there, and
/// no other address changes.
pub proof fn law_read_after_write(mem: Seq<u8>, addr: int, value: u8)
    requires
        mem.len() == RAM_SIZE,
        RAM_START <= addr < RAM_SIZE,
    ensures
        write_at(mem, addr, value) is Ok,
        read_at(write_at(mem, addr, value)->Ok_0, addr) == Ok::<u8, Chip8Error>(value),
        forall|other: int|
            0 <= other < RAM_SIZE && other != addr ==> read_at(
                write_at(mem, addr, value)->Ok_0,
                other,
            ) == read_at(mem, other),
{
}

/// No write reaches the protected region: one aimed below the program
/// start is refused as a protection violation.
pub proof fn law_protected_write_refused(mem: Seq<u8>, addr: int, value: u8)
    requires
        addr < RAM_START,
    ensures
        write_at(mem, addr, value) == Err::<Seq<u8>, Chip8Error>(
            Chip8Error::MemoryProtectionViolation,
        ),
{
}

/// In fresh memory the five bytes from a digit's font address on are the
/// five rows of that digit's sprite, and the font fills the first 80 bytes
/// exactly.
pub proof fn law_font_layout(digit: int, row: int)
    requires
        0 <= digit < 16,
        0 <= row < GLYPH_SIZE,
    ensures
        0 <= font_address(digit) + row < FONT_SIZE,
        read_at(fresh_memory(), font_address(digit) + row) == Ok::<u8, Chip8Error>(
            FONT@[digit * GLYPH_SIZE + row],
        ),
        fresh_memory().subrange(0, FONT_SIZE as int) == FONT@,
        protected_intact(fresh_memory()),
{
}

/// Neither loading a program nor a write changes the protected region.
pub proof fn law_protected_region_kept(mem: Seq<u8>, rom: Seq<u8>, addr: int, value: u8)
    requires
        protected_intact(mem),
    ensures
        load_at(mem, rom) is Ok ==> protected_intact(load_at(mem, rom)->Ok_0),
        write_at(mem, addr, value) is Ok ==> protected_intact(write_at(mem, addr, value)->Ok_0),
{
}

/// Storing a run of bytes is storing them one after the other from the
/// first on. It succeeds exactly where each single write would, and then
/// each byte reads back from its place and no other address has changed.
/// Where it fails, it fails with the error of the first single write that
/// would.
pub proof fn law_write_range_as_single_writes(mem: Seq<u8>, addr: int, bytes: Seq<u8>)
    requires
        mem.len() == RAM_SIZE,
        0 <= addr,
    ensures
        write_range_at(mem, addr, bytes) is Ok <==> (forall|k: int|
            0 <= k < bytes.len() ==> write_at(mem, addr + k, #[trigger] bytes[k]) is Ok),
        write_range_at(mem, addr, bytes) is Ok ==> (forall|a: int|
            0 <= a < RAM_SIZE ==> #[trigger] read_at(write_range_at(mem, addr, bytes)->Ok_0, a)
                == if addr <= a < addr + bytes.len() {
                Ok::<u8, Chip8Error>(bytes[a - addr])
            } else {
                read_at(mem, a)
            }),
        write_range_at(mem, addr, bytes) is Err ==> (exists|k: int|
            0 <= k < bytes.len() && write_at(mem, addr + k, #[trigger] bytes[k]) == Err::<
                Seq<u8>,
                Chip8Error,
            >(write_range_at(mem, addr, bytes)->Err_0) && (forall|j: int|
                0 <= j < k ==> write_at(mem, addr + j, #[trigger] bytes[j]) is Ok)),
{
    if bytes.len() > 0 {
        if addr < RAM_START {
            assert(write_at(mem, addr + 0, bytes[0]) is Err);
        } else if addr + bytes.len() > RAM_SIZE {
            let k = if addr >= RAM_SIZE {
                0
            } else {
                RAM_SIZE - addr
            };
            assert(write_at(mem, addr + k, bytes[k]) == Err::<Seq<u8>, Chip8Error>(
                Chip8Error::AddressOutOfRange,
            ));
        }
    }
}

/// Reading a run of bytes succeeds exactly where each single read would,
/// and yields what the single reads yield, in order.
pub proof fn law_read_range_as_single_reads(mem: Seq<u8>, addr: int, len: int)
    requires
        mem.len() == RAM_SIZE,
        0 <= addr,
        0 <= len,
    ensures
        read_range_at(mem, addr, len) is Ok <==> (forall|k: int|
            0 <= k < len ==> #[trigger] read_at(mem, addr + k) is Ok),
        read_range_at(mem, addr, len) is Ok ==> read_range_at(mem, addr, len)->Ok_0.len() == len
            && (forall|k: int|
            0 <= k < len ==> #[trigger] read_at(mem, addr + k) == Ok::<u8, Chip8Error>(
                read_range_at(mem, addr, len)->Ok_0[k],
            )),
{
    if len > 0 && addr + len > RAM_SIZE {
        assert(read_at(mem, addr + (len - 1)) is Err);
    }
}

} // verus!
