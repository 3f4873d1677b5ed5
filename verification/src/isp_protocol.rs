//! Frames of the STM32 USART bootloader protocol (AN3155) and the reading
//! of its replies. The bytes go over a serial port opened 8E1 by the caller;
//! this module decides what is sent and what a reply means.

use vstd::prelude::*;
use crate::numfmt::{decimal_text, hex_text, push_decimal, push_hex};

verus! {

/// Acknowledge byte.
pub const ACK: u8 = 0x79;

/// Not-acknowledge byte.
pub const NACK: u8 = 0x1F;

/// Byte sent to let the bootloader measure the baud rate.
pub const SYNC_BYTE: u8 = 0x7F;

/// Get ID command.
pub const CMD_GET_ID: u8 = 0x02;

/// Extended Erase command.
pub const CMD_EXTENDED_ERASE: u8 = 0x44;

/// Write Memory command.
pub const CMD_WRITE_MEMORY: u8 = 0x31;

/// Go command.
pub const CMD_GO: u8 = 0x21;

/// Largest payload of one Write Memory command.
pub const MAX_WRITE_LEN: usize = 256;

/// XOR of all bytes of `s`.
pub open spec fn xor_all(s: Seq<u8>) -> u8
    decreases s.len(),
{
    if s.len() == 0 {
        0
    } else {
        xor_all(s.drop_last()) ^ s.last()
    }
}

/// XOR checksum of a byte slice.
pub fn xor_checksum(data: &[u8]) -> (c: u8)
    ensures
        c == xor_all(data@),
{
    let mut acc: u8 = 0;
    let mut i: usize = 0;
    proof {
        assert(data@.take(0) =~= Seq::<u8>::empty());
    }
    while i < data.len()
        invariant
            i <= data@.len(),
            acc == xor_all(data@.take(i as int)),
        decreases data@.len() - i,
    {
        proof {
            assert(data@.take(i + 1).drop_last() =~= data@.take(i as int));
        }
        acc = acc ^ data[i];
        i = i + 1;
    }
    proof {
        assert(data@.take(i as int) =~= data@);
    }
    acc
}

proof fn lemma_xor_self(a: u8)
    ensures
        a ^ a == 0u8,
        a ^ 0u8 == a,
{
    assert(a ^ a == 0u8) by (bit_vector);
    assert(a ^ 0u8 == a) by (bit_vector);
}

proof fn lemma_xor_assoc(a: u8, b: u8, c: u8)
    ensures
        (a ^ b) ^ c == a ^ (b ^ c),
{
    assert((a ^ b) ^ c == a ^ (b ^ c)) by (bit_vector);
}

/// The XOR of a concatenation is the XOR of the two XORs.
pub proof fn lemma_xor_all_concat(a: Seq<u8>, b: Seq<u8>)
    ensures
        xor_all(a + b) == xor_all(a) ^ xor_all(b),
    decreases b.len(),
{
    if b.len() == 0 {
        assert(a + b =~= a);
        lemma_xor_self(xor_all(a));
    } else {
        assert((a + b).drop_last() =~= a + b.drop_last());
        lemma_xor_all_concat(a, b.drop_last());
        lemma_xor_assoc(xor_all(a), xor_all(b.drop_last()), b.last());
    }
}

/// A command frame: the command byte and its complement.
pub open spec fn command_frame_bytes(cmd: u8) -> Seq<u8> {
    seq![cmd, (0xFF - cmd) as u8]
}

/// The two bytes that start command `cmd`.
pub fn command_frame(cmd: u8) -> (f: Vec<u8>)
    ensures
        f@ == command_frame_bytes(cmd),
{
    let complement = 0xFF - cmd;
    let f = vec![cmd, complement];
    proof {
        assert(f@ =~= command_frame_bytes(cmd));
    }
    f
}

/// Big-endian bytes of a 32-bit value.
pub open spec fn be_bytes(a: u32) -> Seq<u8> {
    seq![
        (a / 0x100_0000) as u8,
        ((a / 0x1_0000) % 0x100) as u8,
        ((a / 0x100) % 0x100) as u8,
        (a % 0x100) as u8,
    ]
}

/// An address frame: the address big-endian, then the XOR of those bytes.
pub open spec fn address_frame_bytes(address: u32) -> Seq<u8> {
    be_bytes(address).push(xor_all(be_bytes(address)))
}

/// The five bytes that send `address` to the bootloader.
pub fn address_frame(address: u32) -> (f: Vec<u8>)
    ensures
        f@ == address_frame_bytes(address),
{
    let bytes = vec![
        (address / 0x100_0000) as u8,
        ((address / 0x1_0000) % 0x100) as u8,
        ((address / 0x100) % 0x100) as u8,
        (address % 0x100) as u8,
    ];
    proof {
        assert(bytes@ =~= be_bytes(address));
    }
    let c = xor_checksum(bytes.as_slice());
    let mut f = bytes;
    f.push(c);
    f
}

/// The mass-erase parameter of Extended Erase: `0xFFFF` and its checksum.
pub open spec fn mass_erase_bytes() -> Seq<u8> {
    seq![0xFFu8, 0xFFu8, 0x00u8]
}

/// The three bytes that ask for a mass erase.
pub fn mass_erase_frame() -> (f: Vec<u8>)
    ensures
        f@ == mass_erase_bytes(),
{
    let f = vec![0xFFu8, 0xFFu8, 0x00u8];
    proof {
        assert(f@ =~= mass_erase_bytes());
    }
    f
}

/// Number of `0xFF` bytes that bring a length to a multiple of four.
pub open spec fn padding_len(n: nat) -> nat {
    if n % 4 == 0 {
        0
    } else {
        (4 - n % 4) as nat
    }
}

/// The data padded with `0xFF` to a multiple of four bytes.
pub open spec fn padded(data: Seq<u8>) -> Seq<u8> {
    data + Seq::new(padding_len(data.len()), |i: int| 0xFFu8)
}

/// The data frame of Write Memory: `N` (the padded length minus one), the
/// padded data, and the XOR of `N` and the padded data.
pub open spec fn write_frame_bytes(data: Seq<u8>) -> Seq<u8> {
    let p = padded(data);
    let n = (p.len() - 1) as u8;
    (seq![n] + p).push(n ^ xor_all(p))
}

/// Why a Write Memory payload was refused before anything was sent.
#[derive(Debug, Clone, Copy, PartialEq, Eq, Structural)]
pub struct WriteSizeError {
    pub len: usize,
}

impl WriteSizeError {
    /// The error's message.
    pub fn message(&self) -> (m: String)
        ensures
            m@ == "write_chunk: data must be 1\u{2013}256 bytes (got "@ + decimal_text(
                self.len as nat,
            ) + ")"@,
    {
        let mut m = String::from_str("write_chunk: data must be 1\u{2013}256 bytes (got ");
        push_decimal(&mut m, self.len as u64);
        m.append(")");
        m
    }
}

/// The data frame that writes `data` (1 to 256 bytes).
pub fn write_frame(data: &[u8]) -> (r: Result<Vec<u8>, WriteSizeError>)
    ensures
        1 <= data@.len() <= 256 ==> r is Ok && r->Ok_0@ == write_frame_bytes(data@),
        !(1 <= data@.len() <= 256) ==> r == Err::<Vec<u8>, WriteSizeError>(
            WriteSizeError { len: data@.len() as usize },
        ),
{
    if data.len() == 0 || data.len() > MAX_WRITE_LEN {
        return Err(WriteSizeError { len: data.len() });
    }
    let mut p: Vec<u8> = Vec::new();
    let mut i: usize = 0;
    while i < data.len()
        invariant
            i <= data@.len(),
            p@ == data@.take(i as int),
        decreases data@.len() - i,
    {
        p.push(data[i]);
        proof {
            assert(p@ =~= data@.take(i + 1));
        }
        i = i + 1;
    }
    proof {
        assert(data@.take(i as int) =~= data@);
    }
    let ghost base = p@;
    while p.len() % 4 != 0
        invariant
            base == data@,
            1 <= base.len() <= 256,
            base.len() <= p@.len() <= base.len() + 3,
            p@.len() <= 256,
            p@ == base + Seq::new((p@.len() - base.len()) as nat, |i: int| 0xFFu8),
            p@.len() % 4 == 0 ==> p@.len() - base.len() == padding_len(base.len()),
            p@.len() % 4 != 0 ==> p@.len() - base.len() < padding_len(base.len()),
        decreases 256 - p@.len(),
    {
        p.push(0xFF);
        proof {
            assert(p@ =~= base + Seq::new((p@.len() - base.len()) as nat, |i: int| 0xFFu8));
        }
    }
    proof {
        assert(p@ =~= padded(data@));
    }
    let n = (p.len() - 1) as u8;
    let checksum = n ^ xor_checksum(p.as_slice());
    let mut f: Vec<u8> = Vec::new();
    f.push(n);
    f.append(&mut p);
    f.push(checksum);
    proof {
        assert(f@ =~= write_frame_bytes(data@));
    }
    Ok(f)
}

/// A reply byte that was not the expected ACK.
#[derive(Debug, Clone, Copy, PartialEq, Eq, Structural)]
pub enum AckError {
    Nack,
    Unexpected(u8),
}

/// Reads one reply byte as an acknowledgement.
pub fn check_ack(reply: u8) -> (r: Result<(), AckError>)
    ensures
        reply == ACK ==> r is Ok,
        reply == NACK ==> r == Err::<(), AckError>(AckError::Nack),
        reply != ACK && reply != NACK ==> r == Err::<(), AckError>(AckError::Unexpected(reply)),
{
    if reply == ACK {
        Ok(())
    } else if reply == NACK {
        Err(AckError::Nack)
    } else {
        Err(AckError::Unexpected(reply))
    }
}

impl AckError {
    /// The error's message.
    pub fn message(&self) -> (m: String)
        ensures
            *self == AckError::Nack ==> m@ == "Bootloader returned NACK"@,
            self matches AckError::Unexpected(b) ==> m@ == "Unexpected byte: 0x"@ + hex_text(
                b as nat,
                2,
            ) + " (expected ACK 0x79)"@,
    {
        match self {
            AckError::Nack => String::from_str("Bootloader returned NACK"),
            AckError::Unexpected(b) => {
                let mut m = String::from_str("Unexpected byte: 0x");
                push_hex(&mut m, *b as u64, 2);
                m.append(" (expected ACK 0x79)");
                m
            },
        }
    }
}

/// The product ID in a Get ID reply: its first two bytes, big-endian, or
/// `Err` with the number of bytes when there are fewer than two.
pub fn product_id(id_bytes: &[u8]) -> (r: Result<u16, usize>)
    ensures
        id_bytes@.len() >= 2 ==> r == Ok::<u16, usize>(
            (id_bytes@[0] as int * 0x100 + id_bytes@[1] as int) as u16,
        ),
        id_bytes@.len() < 2 ==> r == Err::<u16, usize>(id_bytes@.len() as usize),
{
    if id_bytes.len() < 2 {
        return Err(id_bytes.len());
    }
    Ok((id_bytes[0] as u16) * 0x100 + (id_bytes[1] as u16))
}

/// Message for a Get ID reply with too few bytes.
pub fn too_few_id_bytes_message(len: usize) -> (m: String)
    ensures
        m@ == "GetID returned too few bytes ("@ + decimal_text(len as nat)
            + "), expected at least 2"@,
{
    let mut m = String::from_str("GetID returned too few bytes (");
    push_decimal(&mut m, len as u64);
    m.append("), expected at least 2");
    m
}

/// The frame of a Write Memory data block hashes to zero: XOR-ing every
/// byte sent after the address, checksum included, gives `0`; its length
/// is the padded length plus two and the padded length is a multiple of
/// four; the data comes first, unchanged, after the count byte.
pub proof fn law_write_frame_checksum(data: Seq<u8>)
    requires
        1 <= data.len() <= 256,
    ensures
        xor_all(write_frame_bytes(data)) == 0,
        padded(data).len() % 4 == 0,
        write_frame_bytes(data).len() == padded(data).len() + 2,
        write_frame_bytes(data).subrange(1, data.len() as int + 1) == data,
        write_frame_bytes(data)[0] as int == padded(data).len() - 1,
{
    let p = padded(data);
    let n = (p.len() - 1) as u8;
    lemma_xor_all_concat(seq![n], p);
    reveal_with_fuel(xor_all, 2);
    assert(seq![n].drop_last() =~= Seq::<u8>::empty());
    let body = seq![n] + p;
    let f = body.push(n ^ xor_all(p));
    assert(f.drop_last() =~= body);
    lemma_xor_self(0);
    assert(xor_all(seq![n]) == 0u8 ^ n);
    assert(0u8 ^ n == n) by (bit_vector);
    let x = xor_all(p);
    assert((n ^ x) ^ (n ^ x) == 0u8) by (bit_vector);
    assert(f.subrange(1, data.len() as int + 1) =~= data);
}

/// An address frame hashes to zero: the checksum byte cancels the XOR of
/// the four address bytes.
pub proof fn law_address_frame_checksum(address: u32)
    ensures
        xor_all(address_frame_bytes(address)) == 0,
        address_frame_bytes(address).len() == 5,
{
    let b = be_bytes(address);
    let f = address_frame_bytes(address);
    assert(f.drop_last() =~= b);
    let x = xor_all(b);
    assert(x ^ x == 0u8) by (bit_vector);
}

} // verus!
