//! The memory interface of the engine, and the default memory made of a code
//! slice and a RAM slice.
use crate::error::EmbiveError;
use vstd::prelude::*;

verus! {

/// Address at which RAM begins. Guest programs are linked with their data at
/// this address; code begins at address 0.
pub const RAM_OFFSET: u32 = 0x8000_0000;

/// A byte-addressable store over the 32-bit address space.
///
/// An implementation describes itself by its view and by two pure functions
/// of that view: what a load returns and what a store leaves behind. The
/// executable `load` and `store` must agree with them, and must report every
/// refused access as `InvalidMemory` without changing anything. All that the
/// engine proves about loads and stores is stated over these two functions.
///
/// Multi-byte values are little-endian; the interface moves raw bytes only.
pub trait Memory: View {
    /// The `len` bytes at `address`, lowest address first, or `None` where
    /// the access is refused.
    spec fn load_spec(mem: Self::V, address: u32, len: nat) -> Option<Seq<u8>>;

    /// The memory after `data` was stored at `address`, or `None` where the
    /// access is refused.
    spec fn store_spec(mem: Self::V, address: u32, data: Seq<u8>) -> Option<Self::V>;

    /// Loads `N` bytes from `address`.
    fn load<const N: usize>(&self, address: u32) -> (r: Result<[u8; N], EmbiveError>)
        ensures
            match Self::load_spec(self@, address, N as nat) {
                Some(bytes) => r is Ok && r->Ok_0@ == bytes,
                None => r == Err::<[u8; N], EmbiveError>(EmbiveError::InvalidMemory),
            },
    ;

    /// Stores the `N` bytes of `data` at `address`.
    fn store<const N: usize>(&mut self, address: u32, data: [u8; N]) -> (r: Result<
        (),
        EmbiveError,
    >)
        ensures
            match Self::store_spec(old(self)@, address, data@) {
                Some(mem) => r == Ok::<(), EmbiveError>(()) && final(self)@ == mem,
                None => r == Err::<(), EmbiveError>(EmbiveError::InvalidMemory) && final(self)@
                    == old(self)@,
            },
    ;
}

/// The 16-bit number that two bytes spell, lowest byte first.
pub open spec fn half_of(bytes: Seq<u8>) -> u16 {
    (bytes[0] + 0x100 * bytes[1]) as u16
}

/// The 32-bit number that four bytes spell, lowest byte first.
pub open spec fn word_of(bytes: Seq<u8>) -> u32 {
    (bytes[0] + 0x100 * bytes[1] + 0x1_0000 * bytes[2] + 0x100_0000 * bytes[3]) as u32
}

/// Byte `i` of `value`, counted from the lowest.
pub open spec fn byte_of(value: u32, i: int) -> u8 {
    if i == 0 {
        (value % 0x100) as u8
    } else if i == 1 {
        ((value / 0x100) % 0x100) as u8
    } else if i == 2 {
        ((value / 0x1_0000) % 0x100) as u8
    } else {
        (value / 0x100_0000) as u8
    }
}

/// The lowest `len` bytes of `value`, lowest byte first (`len` is at most 4).
pub open spec fn bytes_of(value: u32, len: nat) -> Seq<u8> {
    Seq::new(len, |i: int| byte_of(value, i))
}

/// Assembles a 16-bit number from its little-endian bytes.
pub fn half_from_bytes(bytes: [u8; 2]) -> (r: u16)
    ensures
        r == half_of(bytes@),
{
    bytes[0] as u16 + 0x100 * (bytes[1] as u16)
}

/// Assembles a 32-bit number from its little-endian bytes.
pub fn word_from_bytes(bytes: [u8; 4]) -> (r: u32)
    ensures
        r == word_of(bytes@),
{
    bytes[0] as u32 + 0x100 * (bytes[1] as u32) + 0x1_0000 * (bytes[2] as u32) + 0x100_0000 * (
    bytes[3] as u32)
}

/// The lowest byte of `value`.
pub fn low_byte(value: u32) -> (r: [u8; 1])
    ensures
        r@ == bytes_of(value, 1),
{
    let r: [u8; 1] = [(value % 0x100) as u8];
    assert(r@ =~= bytes_of(value, 1));
    r
}

/// The two lowest bytes of `value`, lowest first.
pub fn low_half(value: u32) -> (r: [u8; 2])
    ensures
        r@ == bytes_of(value, 2),
{
    let r: [u8; 2] = [(value % 0x100) as u8, ((value / 0x100) % 0x100) as u8];
    assert(r@ =~= bytes_of(value, 2));
    r
}

/// The four bytes of `value`, lowest first.
pub fn word_to_bytes(value: u32) -> (r: [u8; 4])
    ensures
        r@ == bytes_of(value, 4),
{
    let r: [u8; 4] = [
        (value % 0x100) as u8,
        ((value / 0x100) % 0x100) as u8,
        ((value / 0x1_0000) % 0x100) as u8,
        (value / 0x100_0000) as u8,
    ];
    assert(r@ =~= bytes_of(value, 4));
    r
}

/// Taking a word apart and putting it together again gives the word.
pub proof fn lemma_word_round_trip(value: u32)
    ensures
        word_of(bytes_of(value, 4)) == value,
        half_of(bytes_of(value, 2)) == value % 0x1_0000,
        bytes_of(value, 1)[0] == value % 0x100,
{
}

/// The contents of a [`SliceMemory`]: the code bytes and the RAM bytes.
pub struct Regions {
    /// The bytes of the code region; `code[i]` is at address `i`.
    pub code: Seq<u8>,
    /// The bytes of the RAM region; `ram[i]` is at address `RAM_OFFSET + i`.
    pub ram: Seq<u8>,
}

impl Regions {
    /// First address after the code region. Code never reaches into RAM:
    /// bytes of the code slice at `RAM_OFFSET` and above have no address.
    pub open spec fn code_end(self) -> int {
        if self.code.len() <= RAM_OFFSET {
            self.code.len() as int
        } else {
            RAM_OFFSET as int
        }
    }

    /// First address after the RAM region. Bytes of the RAM slice that would
    /// lie above the 32-bit address space have no address.
    pub open spec fn ram_end(self) -> int {
        if RAM_OFFSET + self.ram.len() <= 0x1_0000_0000 {
            RAM_OFFSET + self.ram.len()
        } else {
            0x1_0000_0000
        }
    }

    /// The `len` bytes from `address` on all lie in the code region.
    pub open spec fn in_code(self, address: u32, len: nat) -> bool {
        address + len <= self.code_end()
    }

    /// The `len` bytes from `address` on all lie in the RAM region.
    pub open spec fn in_ram(self, address: u32, len: nat) -> bool {
        RAM_OFFSET <= address && address + len <= self.ram_end()
    }

    /// What a load of `len` bytes from `address` gives: the bytes, where all
    /// of them lie in one region, and `None` otherwise.
    pub open spec fn load(self, address: u32, len: nat) -> Option<Seq<u8>> {
        if self.in_ram(address, len) {
            Some(self.ram.subrange(address - RAM_OFFSET, address - RAM_OFFSET + len))
        } else if self.in_code(address, len) {
            Some(self.code.subrange(address as int, address + len))
        } else {
            None
        }
    }

    /// What a store of `data` at `address` leaves: RAM with `data` in place
    /// of the bytes from `address` on, where all of them lie in RAM, and
    /// `None` otherwise. Code is never written.
    pub open spec fn store(self, address: u32, data: Seq<u8>) -> Option<Regions> {
        if self.in_ram(address, data.len()) {
            Some(
                Regions {
                    code: self.code,
                    ram: Seq::new(
                        self.ram.len(),
                        |i: int|
                            if address - RAM_OFFSET <= i < address - RAM_OFFSET + data.len() {
                                data[i - (address - RAM_OFFSET)]
                            } else {
                                self.ram[i]
                            },
                    ),
                },
            )
        } else {
            None
        }
    }
}

/// A memory made of two slices of the host: read-only code at address 0 and
/// writable RAM at [`RAM_OFFSET`].
pub struct SliceMemory<'a> {
    code: &'a [u8],
    ram: &'a mut [u8],
}

impl<'a> View for SliceMemory<'a> {
    type V = Regions;

    closed spec fn view(&self) -> Regions {
        Regions { code: self.code@, ram: self.ram@ }
    }
}

impl<'a> SliceMemory<'a> {
    /// A memory over the given code and RAM.
    pub fn new(code: &'a [u8], ram: &'a mut [u8]) -> (memory: SliceMemory<'a>)
        ensures
            memory@.code == code@,
            memory@.ram == old(ram)@,
    {
        SliceMemory { code, ram }
    }
}

impl<'a> Memory for SliceMemory<'a> {
    open spec fn load_spec(mem: Regions, address: u32, len: nat) -> Option<Seq<u8>> {
        mem.load(address, len)
    }

    open spec fn store_spec(mem: Regions, address: u32, data: Seq<u8>) -> Option<Regions> {
        mem.store(address, data)
    }

    fn load<const N: usize>(&self, address: u32) -> (r: Result<[u8; N], EmbiveError>) {
        let mut bytes: [u8; N] = [0u8; N];
        if address >= RAM_OFFSET {
            let offset: usize = (address - RAM_OFFSET) as usize;
            let room: usize = 0x8000_0000usize - offset;
            if N > room || N > self.ram.len() || offset > self.ram.len() - N {
                return Err(EmbiveError::InvalidMemory);
            }
            let mut i: usize = 0;
            while i < N
                invariant
                    i <= N,
                    offset + N <= usize::MAX,
                    offset + N <= self.ram@.len(),
                    forall|j: int| 0 <= j < i ==> bytes@[j] == self.ram@[offset + j],
                decreases N - i,
            {
                bytes[i] = self.ram[offset + i];
                i += 1;
            }
            assert(bytes@ =~= self@.ram.subrange(offset as int, offset + N));
            Ok(bytes)
        } else {
            let offset: usize = address as usize;
            let room: usize = 0x8000_0000usize - offset;
            if N > room || N > self.code.len() || offset > self.code.len() - N {
                return Err(EmbiveError::InvalidMemory);
            }
            let mut i: usize = 0;
            while i < N
                invariant
                    i <= N,
                    offset + N <= usize::MAX,
                    offset + N <= self.code@.len(),
                    forall|j: int| 0 <= j < i ==> bytes@[j] == self.code@[offset + j],
                decreases N - i,
            {
                bytes[i] = self.code[offset + i];
                i += 1;
            }
            assert(bytes@ =~= self@.code.subrange(offset as int, offset + N));
            Ok(bytes)
        }
    }

    fn store<const N: usize>(&mut self, address: u32, data: [u8; N]) -> (r: Result<
        (),
        EmbiveError,
    >) {
        if address < RAM_OFFSET {
            return Err(EmbiveError::InvalidMemory);
        }
        let offset: usize = (address - RAM_OFFSET) as usize;
        let room: usize = 0x8000_0000usize - offset;
        if N > room || N > self.ram.len() || offset > self.ram.len() - N {
            return Err(EmbiveError::InvalidMemory);
        }
        let mut i: usize = 0;
        while i < N
            invariant
                i <= N,
                offset + N <= usize::MAX,
                offset + N <= self.ram@.len(),
                self.ram@.len() == old(self).ram@.len(),
                self.code@ == old(self).code@,
                forall|j: int| 0 <= j < offset + i ==> self.ram@[j] == if offset <= j {
                    data@[j - offset]
                } else {
                    old(self).ram@[j]
                },
                forall|j: int| offset + i <= j < self.ram@.len() ==> self.ram@[j] == old(self).ram@[j],
            decreases N - i,
        {
            self.ram[offset + i] = data[i];
            i += 1;
        }
        assert(self@.ram =~= old(self)@.store(address, data@)->Some_0.ram);
        Ok(())
    }
}

/// A store into the code region is refused, whatever is stored, and no
/// store changes a byte of code. So a load from the code region gives the
/// bytes that the memory was made with.
pub proof fn lemma_code_is_read_only(mem: Regions, address: u32, data: Seq<u8>)
    ensures
        address < RAM_OFFSET ==> mem.store(address, data) is None,
        mem.store(address, data) matches Some(after) ==> after.code == mem.code,
        mem.store(address, data) matches Some(after) ==> forall|a: u32, len: nat|
            mem.in_code(a, len) && !mem.in_ram(a, len) ==> #[trigger] after.load(a, len)
                == Some(mem.code.subrange(a as int, a + len)),
{
}

/// A load succeeds exactly where all its bytes lie in the code region or all
/// of them lie in the RAM region, and a store exactly where all its bytes
/// lie in the RAM region.
pub proof fn lemma_access_needs_one_region(mem: Regions, address: u32, data: Seq<u8>)
    ensures
        mem.load(address, data.len()) is Some <==> mem.in_code(address, data.len()) || mem.in_ram(
            address,
            data.len(),
        ),
        mem.store(address, data) is Some <==> mem.in_ram(address, data.len()),
        mem.load(address, data.len()) matches Some(bytes) ==> bytes.len() == data.len(),
{
}

/// A load that ends with the last byte of RAM succeeds, and the same load
/// one byte further up is refused.
pub proof fn lemma_load_at_end_of_ram(mem: Regions, len: nat)
    requires
        1 <= len <= mem.ram.len(),
        RAM_OFFSET + mem.ram.len() < 0x1_0000_0000,
    ensures
        mem.load((RAM_OFFSET + mem.ram.len() - len) as u32, len) == Some(
            mem.ram.subrange(mem.ram.len() - len, mem.ram.len() as int),
        ),
        mem.load((RAM_OFFSET + mem.ram.len() - len + 1) as u32, len) is None,
{
}

/// What was stored is what a load of the same length from the same address
/// gives back.
pub proof fn lemma_load_after_store(mem: Regions, address: u32, data: Seq<u8>)
    ensures
        mem.store(address, data) matches Some(after) ==> after.load(address, data.len())
            == Some(data),
{
    if let Some(after) = mem.store(address, data) {
        assert(after.load(address, data.len())->Some_0 =~= data);
    }
}

} // verus!
