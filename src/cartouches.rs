use vstd::prelude::*;

verus! {

/// Why a cartridge image could not be loaded.
#[derive(Clone, Copy, Debug, PartialEq, Eq, Structural)]
pub enum CartridgeError {
    /// The image is too short to hold the header bytes.
    MissingHeader,
    /// The type byte names no supported controller.
    UnsupportedType(u8),
    /// The RAM-size byte names no supported size.
    UnsupportedRamSize(u8),
}

/// The address of the header byte that selects the cartridge type.
pub const TYPE_ADDR: usize = 0x147;

/// The address of the header byte that sizes the cartridge RAM.
pub const RAM_SIZE_ADDR: usize = 0x149;

/// A cartridge whose first 32K of ROM are mapped as they are; writes are ignored.
pub struct RomOnly {
    pub rom: Vec<u8>,
}

/// A bank-switching cartridge: window 0 shows ROM bank 0, window 1 the selected bank;
/// external RAM is reachable while enabled.
pub struct MemoireBankController {
    pub rom: Vec<u8>,
    pub ram: Vec<u8>,
    pub rom_bank: u8,
    pub ram_bank: u8,
    pub ram_enable: bool,
}

/// The two cartridge variants.
pub enum Cartouche {
    RomOnly(RomOnly),
    Mbc(MemoireBankController),
}

/// The number of `size`-byte banks that `len` bytes fill (at least one).
pub open spec fn bank_count(len: int, size: int) -> int {
    let n = len / size + if len % size != 0 { 1int } else { 0int };
    if n == 0 { 1 } else { n }
}

/// Byte `idx` of `s`, or the fill value outside it.
pub open spec fn byte_or_fill(s: Seq<u8>, idx: int) -> u8 {
    if 0 <= idx < s.len() { s[idx] } else { 0 }
}

/// What a fixed-mapping cartridge reads at `addr`.
pub open spec fn rom_only_read(rom: Seq<u8>, addr: u16) -> u8 {
    if addr < 0x8000 { byte_or_fill(rom, addr as int) } else { 0 }
}

/// The ROM index that window 1 shows at `addr` with bank `bank` selected.
pub open spec fn banked_rom_index(len: int, bank: u8, addr: u16) -> int {
    (bank as int % bank_count(len, 0x4000)) * 0x4000 + (addr - 0x4000)
}

/// The RAM index that `addr` reaches with RAM bank `bank` selected.
pub open spec fn banked_ram_index(len: int, bank: u8, addr: u16) -> int {
    (bank as int % bank_count(len, 0x2000)) * 0x2000 + (addr - 0xA000)
}

/// What a bank-switching cartridge reads at `addr`.
pub open spec fn mbc_read(rom: Seq<u8>, ram: Seq<u8>, rom_bank: u8, ram_bank: u8, ram_enable: bool, addr: u16) -> u8 {
    if addr < 0x4000 {
        byte_or_fill(rom, addr as int)
    } else if addr < 0x8000 {
        byte_or_fill(rom, banked_rom_index(rom.len() as int, rom_bank, addr))
    } else if 0xA000 <= addr < 0xC000 && ram_enable {
        byte_or_fill(ram, banked_ram_index(ram.len() as int, ram_bank, addr))
    } else {
        0
    }
}

/// The ROM bank that a write of `value` to the bank-select range selects:
/// seven bits, with zero standing for bank 1.
pub open spec fn selected_rom_bank(value: u8) -> u8 {
    if value & 0x7F == 0 { 1 } else { value & 0x7F }
}

/// The cartridge as the contracts see it.
pub struct CartView {
    pub banked: bool,
    pub rom: Seq<u8>,
    pub ram: Seq<u8>,
    pub rom_bank: u8,
    pub ram_bank: u8,
    pub ram_enable: bool,
}

/// What the cartridge reads at `addr`.
pub open spec fn cart_read(c: CartView, addr: u16) -> u8 {
    if c.banked {
        mbc_read(c.rom, c.ram, c.rom_bank, c.ram_bank, c.ram_enable, addr)
    } else {
        rom_only_read(c.rom, addr)
    }
}

/// The cartridge after a write of `value` at `addr`.
pub open spec fn cart_write(c: CartView, addr: u16, value: u8) -> CartView {
    if !c.banked {
        c
    } else if 0xA000 <= addr < 0xC000 {
        let idx = banked_ram_index(c.ram.len() as int, c.ram_bank, addr);
        if c.ram_enable && 0 <= idx < c.ram.len() {
            CartView { ram: c.ram.update(idx, value), ..c }
        } else {
            c
        }
    } else if addr < 0x2000 {
        CartView { ram_enable: value & 0x0F == 0x0A, ..c }
    } else if addr < 0x4000 {
        CartView { rom_bank: selected_rom_bank(value), ..c }
    } else if addr < 0x6000 {
        CartView { ram_bank: value & 0x0F, ..c }
    } else {
        c
    }
}

/// Selecting a ROM bank beyond the physical count reads the bank that the selection
/// wraps to: the index taken modulo the number of banks.
pub proof fn lemma_rom_bank_wraps(c: CartView, bank: u8, addr: u16)
    requires
        c.banked,
        0x4000 <= addr < 0x8000,
    ensures
        cart_read(CartView { rom_bank: bank, ..c }, addr) == cart_read(
            CartView { rom_bank: (bank as int % bank_count(c.rom.len() as int, 0x4000)) as u8, ..c },
            addr,
        ),
{
    let n = bank_count(c.rom.len() as int, 0x4000);
    assert(n >= 1);
    let m = bank as int % n;
    assert(0 <= m < n && m <= bank) by (nonlinear_arith)
        requires
            n >= 1,
            m == bank as int % n,
            bank >= 0,
    ;
    assert(m % n == m) by (nonlinear_arith)
        requires
            0 <= m < n,
    ;
}

/// The RAM size that a RAM-size header byte names, if any.
pub open spec fn ram_size_of(byte: u8) -> Option<usize> {
    if byte == 0x00 {
        Some(0)
    } else if byte == 0x01 {
        Some(2048)
    } else if byte == 0x02 {
        Some(8192)
    } else if byte == 0x03 {
        Some(32768)
    } else if byte == 0x04 {
        Some(131072)
    } else if byte == 0x05 {
        Some(65536)
    } else {
        None
    }
}

/// Type bytes of bank-switching cartridges without RAM.
pub open spec fn is_mbc_without_ram(t: u8) -> bool {
    t == 0x01 || t == 0x0F || t == 0x11 || t == 0x19
}

/// Type bytes of bank-switching cartridges with RAM.
pub open spec fn is_mbc_with_ram(t: u8) -> bool {
    t == 0x02 || t == 0x05 || t == 0x12 || t == 0x1A || t == 0x03 || t == 0x06 || t == 0x10
        || t == 0x13 || t == 0x1B
}

/// The cartridge that a loadable image `rom` gives: fixed mapping for type 0x00, else
/// bank switching, with zeroed RAM of the size that the header names for the types
/// that have RAM; bank 1 selected, RAM disabled.
pub open spec fn loaded_cart(rom: Seq<u8>) -> CartView {
    let t = rom[TYPE_ADDR as int];
    let s = rom[RAM_SIZE_ADDR as int];
    CartView {
        banked: t != 0x00,
        rom,
        ram: if is_mbc_with_ram(t) && ram_size_of(s) is Some {
            Seq::new(ram_size_of(s)->Some_0 as nat, |i: int| 0u8)
        } else {
            Seq::empty()
        },
        rom_bank: 1,
        ram_bank: 0,
        ram_enable: false,
    }
}

/// Whether loading image `rom` fails with error `e`.
pub open spec fn new_spec_error(rom: Seq<u8>, e: CartridgeError) -> bool {
    if rom.len() <= RAM_SIZE_ADDR {
        e == CartridgeError::MissingHeader
    } else {
        let t = rom[TYPE_ADDR as int];
        let s = rom[RAM_SIZE_ADDR as int];
        if t == 0x00 || is_mbc_without_ram(t) {
            false
        } else if is_mbc_with_ram(t) {
            ram_size_of(s) is None && e == CartridgeError::UnsupportedRamSize(s)
        } else {
            e == CartridgeError::UnsupportedType(t)
        }
    }
}

/// The RAM size named by the header of `rom`.
pub fn get_taille_ram(rom: &Vec<u8>) -> (r: Result<usize, CartridgeError>)
    requires
        rom@.len() > RAM_SIZE_ADDR,
    ensures
        ram_size_of(rom@[RAM_SIZE_ADDR as int]) matches Some(n) ==> r == Ok::<usize, CartridgeError>(n),
        ram_size_of(rom@[RAM_SIZE_ADDR as int]) is None ==> r == Err::<usize, CartridgeError>(
            CartridgeError::UnsupportedRamSize(rom@[RAM_SIZE_ADDR as int]),
        ),
{
    let byte = rom[RAM_SIZE_ADDR];
    if byte == 0x00 {
        Ok(0)
    } else if byte == 0x01 {
        Ok(2048)
    } else if byte == 0x02 {
        Ok(8192)
    } else if byte == 0x03 {
        Ok(32768)
    } else if byte == 0x04 {
        Ok(131072)
    } else if byte == 0x05 {
        Ok(65536)
    } else {
        Err(CartridgeError::UnsupportedRamSize(byte))
    }
}

/// Loads a cartridge image: the type byte selects the variant, the RAM-size byte
/// sizes the RAM of the variants that have it.
pub fn new(rom: Vec<u8>) -> (r: Result<Cartouche, CartridgeError>)
    ensures
        r matches Err(e) ==> new_spec_error(rom@, e),
        r is Ok ==> r->Ok_0@ == loaded_cart(rom@) && forall|e: CartridgeError| !new_spec_error(rom@, e),
        rom@.len() <= RAM_SIZE_ADDR ==> r == Err::<Cartouche, CartridgeError>(CartridgeError::MissingHeader),
        rom@.len() > RAM_SIZE_ADDR ==> {
            let t = rom@[TYPE_ADDR as int];
            let s = rom@[RAM_SIZE_ADDR as int];
            &&& t == 0x00 ==> r is Ok && r->Ok_0@ == (CartView {
                banked: false,
                rom: rom@,
                ram: Seq::empty(),
                rom_bank: 1,
                ram_bank: 0,
                ram_enable: false,
            })
            &&& is_mbc_without_ram(t) ==> r is Ok && r->Ok_0@ == (CartView {
                banked: true,
                rom: rom@,
                ram: Seq::empty(),
                rom_bank: 1,
                ram_bank: 0,
                ram_enable: false,
            })
            &&& is_mbc_with_ram(t) && ram_size_of(s) is Some ==> r is Ok && r->Ok_0@ == (CartView {
                banked: true,
                rom: rom@,
                ram: Seq::new(ram_size_of(s)->Some_0 as nat, |i: int| 0u8),
                rom_bank: 1,
                ram_bank: 0,
                ram_enable: false,
            })
            &&& is_mbc_with_ram(t) && ram_size_of(s) is None ==> r == Err::<Cartouche, CartridgeError>(
                CartridgeError::UnsupportedRamSize(s),
            )
            &&& t != 0x00 && !is_mbc_without_ram(t) && !is_mbc_with_ram(t) ==> r == Err::<
                Cartouche,
                CartridgeError,
            >(CartridgeError::UnsupportedType(t))
        },
{
    if rom.len() <= RAM_SIZE_ADDR {
        return Err(CartridgeError::MissingHeader);
    }
    let t = rom[TYPE_ADDR];
    if t == 0x00 {
        Ok(Cartouche::RomOnly(RomOnly::new(rom)))
    } else if t == 0x01 || t == 0x0F || t == 0x11 || t == 0x19 {
        Ok(Cartouche::Mbc(MemoireBankController::new(rom, Vec::new())))
    } else if t == 0x02 || t == 0x05 || t == 0x12 || t == 0x1A || t == 0x03 || t == 0x06 || t == 0x10
        || t == 0x13 || t == 0x1B {
        match get_taille_ram(&rom) {
            Ok(size) => {
                let ram = zeroed(size);
                Ok(Cartouche::Mbc(MemoireBankController::new(rom, ram)))
            },
            Err(e) => Err(e),
        }
    } else {
        Err(CartridgeError::UnsupportedType(t))
    }
}

/// A vector of `n` zero bytes.
pub fn zeroed(n: usize) -> (r: Vec<u8>)
    ensures
        r@ == Seq::new(n as nat, |i: int| 0u8),
{
    let mut v: Vec<u8> = Vec::with_capacity(n);
    let mut i: usize = 0;
    while i < n
        invariant
            i <= n,
            v@ == Seq::new(i as nat, |j: int| 0u8),
        decreases n - i,
    {
        v.push(0);
        i = i + 1;
        assert(v@ =~= Seq::new(i as nat, |j: int| 0u8));
    }
    v
}

/// Byte `idx` of `v`, or the fill value when `idx` lies outside it.
fn byte_at(v: &Vec<u8>, idx: usize) -> (r: u8)
    ensures
        r == byte_or_fill(v@, idx as int),
{
    if idx < v.len() { v[idx] } else { 0 }
}

/// The number of `size`-byte banks in `len` bytes (at least one).
fn banks(len: usize, size: usize) -> (r: usize)
    requires
        size == 0x4000 || size == 0x2000,
    ensures
        r as int == bank_count(len as int, size as int),
        r >= 1,
{
    let n = len / size + if len % size != 0 { 1usize } else { 0usize };
    if n == 0 { 1 } else { n }
}

/// The index that a bank number and an offset into the window reach, or `None` when
/// it lies outside `len` bytes.
fn banked_index(len: usize, bank: u8, size: usize, offset: usize) -> (r: Option<usize>)
    requires
        size == 0x4000 || size == 0x2000,
        offset < size,
    ensures
        match r {
            Some(i) => i as int == (bank as int % bank_count(len as int, size as int)) * size + offset
                && i < len,
            None => (bank as int % bank_count(len as int, size as int)) * size + offset >= len,
        },
{
    let n = banks(len, size);
    let eff = (bank as usize) % n;
    assert(eff < 256) by (nonlinear_arith)
        requires
            eff == (bank as usize) % n,
            n >= 1,
            bank < 256,
    ;
    assert(eff * size <= 255 * 0x4000) by (nonlinear_arith)
        requires
            eff < 256,
            size <= 0x4000,
    ;
    let base = eff * size;
    if base < len && offset < len - base {
        Some(base + offset)
    } else {
        None
    }
}

impl RomOnly {
    pub fn new(rom: Vec<u8>) -> (r: RomOnly)
        ensures
            r.rom@ == rom@,
    {
        RomOnly { rom }
    }

    pub fn get_octet(&self, addr: u16) -> (r: u8)
        ensures
            r == rom_only_read(self.rom@, addr),
    {
        if addr < 0x8000 { byte_at(&self.rom, addr as usize) } else { 0 }
    }

    /// Writes to a fixed-mapping cartridge are ignored.
    pub fn set_octet(&mut self, addr: u16, value: u8)
        ensures
            final(self).rom@ == old(self).rom@,
    {
    }
}

impl MemoireBankController {
    /// ROM bank 1 selected in window 1, RAM bank 0, RAM disabled.
    pub fn new(rom: Vec<u8>, ram: Vec<u8>) -> (r: MemoireBankController)
        ensures
            r.rom@ == rom@,
            r.ram@ == ram@,
            r.rom_bank == 1,
            r.ram_bank == 0,
            !r.ram_enable,
    {
        MemoireBankController { rom, ram, rom_bank: 1, ram_bank: 0, ram_enable: false }
    }

    pub fn get_octet(&self, addr: u16) -> (r: u8)
        ensures
            r == mbc_read(self.rom@, self.ram@, self.rom_bank, self.ram_bank, self.ram_enable, addr),
    {
        if addr < 0x4000 {
            byte_at(&self.rom, addr as usize)
        } else if addr < 0x8000 {
            match banked_index(self.rom.len(), self.rom_bank, 0x4000, (addr - 0x4000) as usize) {
                Some(i) => self.rom[i],
                None => 0,
            }
        } else if 0xA000 <= addr && addr < 0xC000 && self.ram_enable {
            match banked_index(self.ram.len(), self.ram_bank, 0x2000, (addr - 0xA000) as usize) {
                Some(i) => self.ram[i],
                None => 0,
            }
        } else {
            0
        }
    }

    pub fn set_octet(&mut self, addr: u16, value: u8)
        ensures
            final(self)@ == cart_write(old(self)@, addr, value),
    {
        if 0xA000 <= addr && addr < 0xC000 {
            if self.ram_enable {
                match banked_index(self.ram.len(), self.ram_bank, 0x2000, (addr - 0xA000) as usize) {
                    Some(i) => {
                        self.ram.set(i, value);
                    },
                    None => {},
                }
            }
        } else if addr < 0x2000 {
            self.ram_enable = value & 0x0F == 0x0A;
        } else if addr < 0x4000 {
            self.rom_bank = if value & 0x7F == 0 { 1 } else { value & 0x7F };
        } else if addr < 0x6000 {
            self.ram_bank = value & 0x0F;
        }
    }
}

impl View for MemoireBankController {
    type V = CartView;

    open spec fn view(&self) -> CartView {
        CartView {
            banked: true,
            rom: self.rom@,
            ram: self.ram@,
            rom_bank: self.rom_bank,
            ram_bank: self.ram_bank,
            ram_enable: self.ram_enable,
        }
    }
}

impl View for Cartouche {
    type V = CartView;

    open spec fn view(&self) -> CartView {
        match self {
            Cartouche::RomOnly(c) => CartView {
                banked: false,
                rom: c.rom@,
                ram: Seq::empty(),
                rom_bank: 1,
                ram_bank: 0,
                ram_enable: false,
            },
            Cartouche::Mbc(m) => m@,
        }
    }
}

impl Cartouche {
    pub fn get_octet(&self, addr: u16) -> (r: u8)
        ensures
            r == cart_read(self@, addr),
    {
        match self {
            Cartouche::RomOnly(c) => c.get_octet(addr),
            Cartouche::Mbc(m) => m.get_octet(addr),
        }
    }

    pub fn set_octet(&mut self, addr: u16, value: u8)
        ensures
            final(self)@ == cart_write(old(self)@, addr, value),
    {
        match self {
            Cartouche::RomOnly(c) => c.set_octet(addr, value),
            Cartouche::Mbc(m) => m.set_octet(addr, value),
        }
    }
}

} // verus!
