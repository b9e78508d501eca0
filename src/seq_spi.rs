//! The byte-register protocol spoken with the design loaded into the
//! sequencer FPGA.
//!
//! Every transaction starts with a three-byte header: the command, then the
//! register address, high byte first. A write, bit-set or bit-clear carries
//! its data bytes after the header; a read clocks out as many filler bytes
//! and the design answers with the register contents in the same positions.
use vstd::prelude::*;

verus! {

/// The largest transaction the link carries, header included.
pub const MAX_TRANSFER: usize = 16;

/// Bytes of header in front of every transaction.
pub const HEADER_LEN: usize = 3;

/// Register commands understood by the design.
#[derive(Copy, Clone, Debug, PartialEq, Eq, Structural)]
pub enum Cmd {
    /// Replace the addressed bytes.
    Write,
    /// Return the addressed bytes.
    Read,
    /// OR the given bits into the addressed bytes.
    BitSet,
    /// Clear the given bits in the addressed bytes.
    BitClear,
}

/// The command byte of a command.
pub open spec fn cmd_code(c: Cmd) -> u8 {
    match c {
        Cmd::Write => 0,
        Cmd::Read => 1,
        Cmd::BitSet => 2,
        Cmd::BitClear => 3,
    }
}

impl Cmd {
    /// The command byte that opens a transaction of this kind.
    pub fn code(self) -> (r: u8)
        ensures
            r == cmd_code(self),
    {
        match self {
            Cmd::Write => 0,
            Cmd::Read => 1,
            Cmd::BitSet => 2,
            Cmd::BitClear => 3,
        }
    }
}

/// Register addresses, named bits and identity signature of the loaded
/// design. They come from the design's register map, so a board supplies
/// them as one value.
#[derive(Copy, Clone, Debug, PartialEq, Eq, Structural)]
pub struct RegisterMap {
    /// First of the four identity registers.
    pub ident: u16,
    /// Power control.
    pub pwrctrl: u16,
    /// Status of the first power group's state machine (two bytes).
    pub a1smstatus: u16,
    /// Status of the operating-phase state machine.
    pub a0smstatus: u16,
    /// Early power control, holding the fan enable.
    pub early_power_ctrl: u16,
    /// Power-control bit: enable the first power group.
    pub a1pwren: u8,
    /// Power-control bit: start the operating-phase sequence.
    pub a0a_en: u8,
    /// Power-control bit: disable the operating phase.
    pub a0c_dis: u8,
    /// Early-power-control bit: fan power enable.
    pub fanpwren: u8,
    /// Identity value that the expected design reports.
    pub expected_ident: u32,
}

/// The header of a transaction: command byte, address high byte, address
/// low byte.
pub open spec fn header_of(cmd: Cmd, addr: u16) -> Seq<u8> {
    seq![cmd_code(cmd), (addr >> 8u16) as u8, (addr & 0xffu16) as u8]
}

/// The bytes sent for `cmd` at `addr` with `data`.
pub open spec fn frame_of(cmd: Cmd, addr: u16, data: Seq<u8>) -> Seq<u8> {
    header_of(cmd, addr) + data
}

/// Builds the transaction for `cmd` at `addr` carrying `data`.
pub fn command_frame(cmd: Cmd, addr: u16, data: &[u8]) -> (r: Vec<u8>)
    requires
        data@.len() + HEADER_LEN <= MAX_TRANSFER,
    ensures
        r@ == frame_of(cmd, addr, data@),
{
    let mut out: Vec<u8> = Vec::new();
    out.push(cmd.code());
    out.push((addr >> 8u16) as u8);
    out.push((addr & 0xffu16) as u8);
    let mut i: usize = 0;
    while i < data.len()
        invariant
            i <= data@.len(),
            out@ == header_of(cmd, addr) + data@.subrange(0, i as int),
        decreases data@.len() - i,
    {
        out.push(data[i]);
        i = i + 1;
        assert(data@.subrange(0, i as int) == data@.subrange(0, i - 1 as int).push(
            data@[i - 1 as int],
        ));
    }
    assert(data@.subrange(0, data@.len() as int) == data@);
    out
}

/// Builds the transaction that reads `n` bytes at `addr`: the read header
/// and `n` zero filler bytes.
pub fn read_frame(addr: u16, n: usize) -> (r: Vec<u8>)
    requires
        n + HEADER_LEN <= MAX_TRANSFER,
    ensures
        r@ == frame_of(Cmd::Read, addr, Seq::new(n as nat, |i: int| 0u8)),
{
    let mut out: Vec<u8> = Vec::new();
    out.push(Cmd::Read.code());
    out.push((addr >> 8u16) as u8);
    out.push((addr & 0xffu16) as u8);
    let mut i: usize = 0;
    while i < n
        invariant
            i <= n,
            out@ == header_of(Cmd::Read, addr) + Seq::new(i as nat, |j: int| 0u8),
        decreases n - i,
    {
        out.push(0u8);
        i = i + 1;
        assert(Seq::new(i as nat, |j: int| 0u8) == Seq::new((i - 1) as nat, |j: int| 0u8).push(
            0u8,
        ));
    }
    out
}

/// The `n` register bytes in the answer to a read: those after the header.
/// `None` when the answer is too short to hold them.
pub fn reply_data(reply: &[u8], n: usize) -> (r: Option<Vec<u8>>)
    ensures
        match r {
            Some(v) => reply@.len() >= HEADER_LEN + n && v@ == reply@.subrange(
                HEADER_LEN as int,
                HEADER_LEN + n,
            ),
            None => reply@.len() < HEADER_LEN + n,
        },
{
    if reply.len() < HEADER_LEN || reply.len() - HEADER_LEN < n {
        return None;
    }
    let mut out: Vec<u8> = Vec::new();
    let mut i: usize = 0;
    while i < n
        invariant
            i <= n,
            reply@.len() >= HEADER_LEN + n,
            HEADER_LEN + n <= usize::MAX,
            out@ == reply@.subrange(HEADER_LEN as int, HEADER_LEN + i),
        decreases n - i,
    {
        out.push(reply[HEADER_LEN + i]);
        i = i + 1;
        assert(reply@.subrange(HEADER_LEN as int, HEADER_LEN + i) == reply@.subrange(
            HEADER_LEN as int,
            HEADER_LEN + i - 1,
        ).push(reply@[HEADER_LEN + i - 1]));
    }
    Some(out)
}

/// The identity value held in four register bytes, most significant first.
pub open spec fn ident_of(b: Seq<u8>) -> u32 {
    ((b[0] as u32) << 24u32) | ((b[1] as u32) << 16u32) | ((b[2] as u32) << 8u32) | (b[3] as u32)
}

/// The identity value read from the four identity registers.
pub fn read_ident(bytes: &[u8]) -> (r: u32)
    requires
        bytes@.len() == 4,
    ensures
        r == ident_of(bytes@),
{
    ((bytes[0] as u32) << 24u32) | ((bytes[1] as u32) << 16u32) | ((bytes[2] as u32) << 8u32) | (
    bytes[3] as u32)
}

/// Whether the four identity bytes name the expected design.
pub fn valid_ident(map: &RegisterMap, bytes: &[u8]) -> (r: bool)
    requires
        bytes@.len() == 4,
    ensures
        r == (ident_of(bytes@) == map.expected_ident),
{
    read_ident(bytes) == map.expected_ident
}

/// One single-byte register command.
#[derive(Copy, Clone, Debug, PartialEq, Eq, Structural)]
pub struct RegisterOp {
    pub cmd: Cmd,
    pub addr: u16,
    pub value: u8,
}

impl RegisterOp {
    /// The transaction that carries this command.
    pub fn frame(&self) -> (r: Vec<u8>)
        ensures
            r@ == frame_of(self.cmd, self.addr, seq![self.value]),
    {
        let data: [u8; 1] = [self.value];
        assert(data@ == seq![self.value]);
        command_frame(self.cmd, self.addr, &data)
    }
}

/// A byte with the bits of `mask` set.
pub open spec fn set_bits(v: u8, mask: u8) -> u8 {
    v | mask
}

/// A byte with the bits of `mask` cleared.
pub open spec fn clear_bits(v: u8, mask: u8) -> u8 {
    v & !mask
}

/// What the design's registers hold after it carries out `op`.
pub open spec fn apply_op(regs: Map<u16, u8>, op: RegisterOp) -> Map<u16, u8> {
    match op.cmd {
        Cmd::Write => regs.insert(op.addr, op.value),
        Cmd::Read => regs,
        Cmd::BitSet => regs.insert(op.addr, set_bits(regs[op.addr], op.value)),
        Cmd::BitClear => regs.insert(op.addr, clear_bits(regs[op.addr], op.value)),
    }
}

} // verus!
