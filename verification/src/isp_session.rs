//! The decisions of a USART ISP flash session: which baud rate to try,
//! when to re-enter the bootloader or step down to a slower rate, when to
//! give up, how to read sync and erase replies, and the progress shown
//! while writing. The caller performs each step on the serial port and
//! reports how it went.

use vstd::prelude::*;
use crate::flashing::IspBootMode;
use crate::numfmt::{decimal_text, hex_text, push_decimal, push_hex};
use crate::isp_protocol::{ACK, NACK};

verus! {

/// Number of baud rates the bootloader session may use.
pub const ISP_BAUD_PRESET_COUNT: usize = 10;

/// Baud rates valid for the STM32 USART bootloader (AN3155), slowest first.
pub open spec fn isp_baud_presets() -> Seq<u32> {
    seq![1200u32, 2400, 4800, 9600, 19200, 38400, 57600, 115200, 230400, 460800]
}

/// The baud rate at `idx` in the preset list.
pub fn isp_baud_preset(idx: usize) -> (b: u32)
    requires
        idx < ISP_BAUD_PRESET_COUNT,
    ensures
        b == isp_baud_presets()[idx as int],
{
    match idx {
        0 => 1200,
        1 => 2400,
        2 => 4800,
        3 => 9600,
        4 => 19200,
        5 => 38400,
        6 => 57600,
        7 => 115200,
        8 => 230400,
        _ => 460800,
    }
}

/// Index of `baud` in the preset list, or 0 (the slowest) when it is not a
/// preset.
pub open spec fn preset_index(baud: u32) -> nat {
    if isp_baud_presets().contains(baud) {
        isp_baud_presets().index_of(baud) as nat
    } else {
        0
    }
}

/// Where the session starts in the preset list for the chosen baud rate.
pub fn isp_start_index(baud: u32) -> (i: usize)
    ensures
        i == preset_index(baud),
        i < ISP_BAUD_PRESET_COUNT,
{
    let mut i: usize = 0;
    while i < ISP_BAUD_PRESET_COUNT
        invariant
            i <= ISP_BAUD_PRESET_COUNT,
            forall|j: int| 0 <= j < i ==> isp_baud_presets()[j] != baud,
        decreases ISP_BAUD_PRESET_COUNT - i,
    {
        if isp_baud_preset(i) == baud {
            proof {
                assert(isp_baud_presets().contains(baud));
                let k = isp_baud_presets().index_of(baud);
                assert(isp_baud_presets()[k] == baud);
                assert(k == i as int);
            }
            return i;
        }
        i = i + 1;
    }
    proof {
        assert(!isp_baud_presets().contains(baud));
    }
    0
}

/// The step the session waits to perform next.
#[derive(Debug, Clone, Copy, PartialEq, Eq, Structural)]
pub enum IspPhase {
    /// Switch the port to the current (slower) baud rate.
    SetBaud,
    /// Put the target into its bootloader.
    EnterBootloader,
    /// Send the sync byte.
    Sync,
    /// Ask for the chip ID.
    GetId,
    /// Mass-erase the flash.
    Erase,
    /// Erased: the firmware can be written.
    Erased,
    /// Every rate failed twice.
    GaveUp,
    /// A step failed in a way that ends the session.
    Aborted,
}

/// How the last step went.
#[derive(Debug, Clone, Copy, PartialEq, Eq, Structural)]
pub enum StepResult {
    Success,
    /// The erase command itself was rejected, before erasing started.
    SetupRejected,
    Failure,
}

/// Where a bootloader session stands: the rate it started from, the rate
/// and attempt (0 or 1) it is at, and its next step.
#[derive(Debug, Clone, Copy, PartialEq, Eq, Structural)]
pub struct IspSession {
    pub start_idx: usize,
    pub rate_idx: usize,
    pub attempt: u8,
    pub phase: IspPhase,
}

/// The session ends in these phases.
pub open spec fn is_final(p: IspPhase) -> bool {
    p == IspPhase::Erased || p == IspPhase::GaveUp || p == IspPhase::Aborted
}

impl IspSession {
    /// The session's fields are in range.
    pub open spec fn wf(self) -> bool {
        &&& self.start_idx < ISP_BAUD_PRESET_COUNT
        &&& self.rate_idx <= self.start_idx
        &&& self.attempt <= 1
    }

    /// After a failed attempt: a second attempt at the same rate, or the
    /// next slower rate, or giving up after the slowest. The second value
    /// is the rate that has just failed both attempts, if any.
    pub open spec fn after_failed_attempt(self) -> (IspSession, Option<u32>) {
        if self.attempt == 0 {
            (IspSession { attempt: 1, phase: IspPhase::EnterBootloader, ..self }, None)
        } else if self.rate_idx == 0 {
            (
                IspSession { phase: IspPhase::GaveUp, ..self },
                Some(isp_baud_presets()[self.rate_idx as int]),
            )
        } else {
            (
                IspSession {
                    rate_idx: (self.rate_idx - 1) as usize,
                    attempt: 0,
                    phase: IspPhase::SetBaud,
                    ..self
                },
                Some(isp_baud_presets()[self.rate_idx as int]),
            )
        }
    }

    /// The session after its current step ended with `result`.
    pub open spec fn after(self, result: StepResult) -> (IspSession, Option<u32>) {
        match self.phase {
            IspPhase::SetBaud => if result == StepResult::Success {
                (IspSession { phase: IspPhase::EnterBootloader, ..self }, None)
            } else {
                (IspSession { phase: IspPhase::Aborted, ..self }, None)
            },
            IspPhase::EnterBootloader => if result == StepResult::Success {
                (IspSession { phase: IspPhase::Sync, ..self }, None)
            } else {
                (IspSession { phase: IspPhase::Aborted, ..self }, None)
            },
            IspPhase::Sync => if result == StepResult::Success {
                (IspSession { phase: IspPhase::GetId, ..self }, None)
            } else {
                self.after_failed_attempt()
            },
            IspPhase::GetId => if result == StepResult::Success {
                (IspSession { phase: IspPhase::Erase, ..self }, None)
            } else {
                self.after_failed_attempt()
            },
            IspPhase::Erase => match result {
                StepResult::Success => (IspSession { phase: IspPhase::Erased, ..self }, None),
                StepResult::SetupRejected => self.after_failed_attempt(),
                StepResult::Failure => (IspSession { phase: IspPhase::Aborted, ..self }, None),
            },
            _ => (self, None),
        }
    }

    /// A session at the preset `baud` (or the slowest rate when `baud` is
    /// not a preset), first attempt, starting by entering the bootloader.
    pub fn begin(baud: u32) -> (s: IspSession)
        ensures
            s.wf(),
            s.start_idx == preset_index(baud),
            s.rate_idx == s.start_idx,
            s.attempt == 0,
            s.phase == IspPhase::EnterBootloader,
    {
        let start = isp_start_index(baud);
        IspSession { start_idx: start, rate_idx: start, attempt: 0, phase: IspPhase::EnterBootloader }
    }

    /// The baud rate of the current rate.
    pub fn baud(&self) -> (b: u32)
        requires
            self.wf(),
        ensures
            b == isp_baud_presets()[self.rate_idx as int],
    {
        isp_baud_preset(self.rate_idx)
    }

    /// The session's first step at this rate on its first attempt enters the
    /// bootloader without a new rate having been set: the initial entry.
    pub fn is_initial_entry(&self) -> (b: bool)
        ensures
            b == (self.rate_idx == self.start_idx && self.attempt == 0),
    {
        self.rate_idx == self.start_idx && self.attempt == 0
    }

    /// Moves the session on after its current step ended with `result`;
    /// also returns the rate that has just failed both attempts, if any.
    pub fn advance(self, result: StepResult) -> (r: (IspSession, Option<u32>))
        requires
            self.wf(),
        ensures
            r == self.after(result),
            r.0.wf(),
    {
        match self.phase {
            IspPhase::SetBaud | IspPhase::EnterBootloader => {
                if result != StepResult::Success {
                    return (IspSession { phase: IspPhase::Aborted, ..self }, None);
                }
                let next = if self.phase == IspPhase::SetBaud {
                    IspPhase::EnterBootloader
                } else {
                    IspPhase::Sync
                };
                (IspSession { phase: next, ..self }, None)
            },
            IspPhase::Sync | IspPhase::GetId => {
                if result == StepResult::Success {
                    let next = if self.phase == IspPhase::Sync {
                        IspPhase::GetId
                    } else {
                        IspPhase::Erase
                    };
                    (IspSession { phase: next, ..self }, None)
                } else {
                    self.failed_attempt()
                }
            },
            IspPhase::Erase => match result {
                StepResult::Success => (IspSession { phase: IspPhase::Erased, ..self }, None),
                StepResult::SetupRejected => self.failed_attempt(),
                StepResult::Failure => (IspSession { phase: IspPhase::Aborted, ..self }, None),
            },
            _ => (self, None),
        }
    }

    fn failed_attempt(self) -> (r: (IspSession, Option<u32>))
        requires
            self.wf(),
        ensures
            r == self.after_failed_attempt(),
    {
        if self.attempt == 0 {
            (IspSession { attempt: 1, phase: IspPhase::EnterBootloader, ..self }, None)
        } else if self.rate_idx == 0 {
            (IspSession { phase: IspPhase::GaveUp, ..self }, Some(self.baud()))
        } else {
            let failed = self.baud();
            (IspSession { rate_idx: self.rate_idx - 1, attempt: 0, phase: IspPhase::SetBaud, ..self }, Some(failed))
        }
    }
}

/// Rank of the pending step within an attempt.
pub open spec fn phase_rank(p: IspPhase) -> nat {
    match p {
        IspPhase::SetBaud => 4,
        IspPhase::EnterBootloader => 3,
        IspPhase::Sync => 2,
        IspPhase::GetId => 1,
        _ => 0,
    }
}

/// How much work a session can still do: it shrinks with every step.
pub open spec fn session_measure(s: IspSession) -> nat {
    (s.rate_idx * 10 + (1 - s.attempt) * 5 + phase_rank(s.phase)) as nat
}

/// A session always ends: every step that does not end it leaves strictly
/// less work; it never goes back to a faster rate, and the rate it works at
/// never exceeds the one it started from; it gives up only after the
/// slowest rate failed its second attempt; a rate is reported as failed
/// exactly when the session leaves it or gives up.
pub proof fn law_isp_session_progress(s: IspSession, result: StepResult)
    requires
        s.wf(),
        !is_final(s.phase),
    ensures
        is_final(s.after(result).0.phase) || session_measure(s.after(result).0) < session_measure(s),
        s.after(result).0.wf(),
        s.after(result).0.start_idx == s.start_idx,
        s.after(result).0.rate_idx <= s.rate_idx,
        s.after(result).0.phase == IspPhase::GaveUp ==> s.rate_idx == 0 && s.attempt == 1,
        s.after(result).1 is Some <==> (s.after(result).0.rate_idx < s.rate_idx
            || s.after(result).0.phase == IspPhase::GaveUp),
{
}

/// A finished session stays as it is.
pub proof fn law_isp_session_final(s: IspSession, result: StepResult)
    requires
        is_final(s.phase),
    ensures
        s.after(result) == (s, None::<u32>),
{
}

/// What one read during sync means for the sync loop.
#[derive(Debug, Clone, Copy, PartialEq, Eq, Structural)]
pub enum SyncStep {
    /// The bootloader answered ACK.
    Synced,
    /// Send the sync byte again.
    NextAttempt,
    /// Nothing yet; read again.
    KeepWaiting,
    /// Give up sync with this failure.
    Failed(SyncFailure),
}

/// Why sync failed.
#[derive(Debug, Clone, Copy, PartialEq, Eq, Structural)]
pub enum SyncFailure {
    Nack,
    UnexpectedByte(u8),
    Timeout,
}

/// The sync loop's decision for one read: `reply` is the byte read (`None`
/// when the read timed out or failed), `before_deadline` whether the 2 s
/// window of this attempt is still open, `attempt` counts from 0 up to
/// `retries`.
pub fn sync_read_step(reply: Option<u8>, before_deadline: bool, attempt: u8, retries: u8) -> (s:
    SyncStep)
    ensures
        reply == Some(ACK) ==> s == SyncStep::Synced,
        reply == Some(NACK) ==> s == (if attempt < retries {
            SyncStep::NextAttempt
        } else {
            SyncStep::Failed(SyncFailure::Nack)
        }),
        reply matches Some(b) ==> (b != ACK && b != NACK ==> s == SyncStep::Failed(
            SyncFailure::UnexpectedByte(b),
        )),
        reply is None ==> s == (if before_deadline {
            SyncStep::KeepWaiting
        } else if attempt < retries {
            SyncStep::NextAttempt
        } else {
            SyncStep::Failed(SyncFailure::Timeout)
        }),
{
    match reply {
        Some(b) => {
            if b == ACK {
                SyncStep::Synced
            } else if b == NACK {
                if attempt < retries {
                    SyncStep::NextAttempt
                } else {
                    SyncStep::Failed(SyncFailure::Nack)
                }
            } else {
                SyncStep::Failed(SyncFailure::UnexpectedByte(b))
            }
        },
        None => {
            if before_deadline {
                SyncStep::KeepWaiting
            } else if attempt < retries {
                SyncStep::NextAttempt
            } else {
                SyncStep::Failed(SyncFailure::Timeout)
            }
        },
    }
}

impl SyncFailure {
    /// The failure's message.
    pub fn message(&self) -> (m: String)
        ensures
            *self == SyncFailure::Nack ==> m@ == "Bootloader returned NACK during sync"@,
            self matches SyncFailure::UnexpectedByte(b) ==> m@ == "Unexpected sync byte: 0x"@
                + hex_text(b as nat, 2),
            *self == SyncFailure::Timeout ==> m@ == "Sync timeout"@,
    {
        match self {
            SyncFailure::Nack => String::from_str("Bootloader returned NACK during sync"),
            SyncFailure::UnexpectedByte(b) => {
                let mut m = String::from_str("Unexpected sync byte: 0x");
                push_hex(&mut m, *b as u64, 2);
                m
            },
            SyncFailure::Timeout => String::from_str("Sync timeout"),
        }
    }
}

/// Message when every sync attempt ran out without an answer.
pub fn sync_exhausted_message(retries: u8) -> (m: String)
    ensures
        m@ == "Sync failed after "@ + decimal_text(retries as nat + 1) + " attempts"@,
{
    let mut m = String::from_str("Sync failed after ");
    push_decimal(&mut m, retries as u64 + 1);
    m.append(" attempts");
    m
}

/// What one read while waiting for the mass erase gave.
#[derive(Debug, Clone, Copy, PartialEq, Eq, Structural)]
pub enum EraseRead {
    Byte(u8),
    /// The read timed out (the port polls every 500 ms).
    TimedOut,
    /// The read failed otherwise.
    OtherError,
}

/// What the erase wait loop does after one read.
#[derive(Debug, Clone, Copy, PartialEq, Eq, Structural)]
pub enum EraseStep {
    Erased,
    /// Report progress, ask whether to go on, and read again.
    Poll,
    Failed(EraseFailure),
}

/// Why the mass erase failed.
#[derive(Debug, Clone, Copy, PartialEq, Eq, Structural)]
pub enum EraseFailure {
    Nack,
    UnexpectedByte(u8),
    ReadError,
    TimedOut,
    Cancelled,
}

/// The erase wait loop's decision for one read; `before_deadline` tells
/// whether the 30 s erase window is still open.
pub fn erase_read_step(read: EraseRead, before_deadline: bool) -> (s: EraseStep)
    ensures
        read == EraseRead::Byte(ACK) ==> s == EraseStep::Erased,
        read == EraseRead::Byte(NACK) ==> s == EraseStep::Failed(EraseFailure::Nack),
        read matches EraseRead::Byte(b) ==> (b != ACK && b != NACK ==> s == EraseStep::Failed(
            EraseFailure::UnexpectedByte(b),
        )),
        read == EraseRead::TimedOut && before_deadline ==> s == EraseStep::Poll,
        read == EraseRead::OtherError && before_deadline ==> s == EraseStep::Failed(
            EraseFailure::ReadError,
        ),
        read !is Byte && !before_deadline ==> s == EraseStep::Failed(EraseFailure::TimedOut),
{
    match read {
        EraseRead::Byte(b) => {
            if b == ACK {
                EraseStep::Erased
            } else if b == NACK {
                EraseStep::Failed(EraseFailure::Nack)
            } else {
                EraseStep::Failed(EraseFailure::UnexpectedByte(b))
            }
        },
        EraseRead::TimedOut => {
            if before_deadline {
                EraseStep::Poll
            } else {
                EraseStep::Failed(EraseFailure::TimedOut)
            }
        },
        EraseRead::OtherError => {
            if before_deadline {
                EraseStep::Failed(EraseFailure::ReadError)
            } else {
                EraseStep::Failed(EraseFailure::TimedOut)
            }
        },
    }
}

/// The erase wait loop after a poll found no reply yet: it keeps waiting
/// while the operation is still wanted, and is cancelled otherwise.
pub fn erase_after_poll(still_wanted: bool) -> (s: EraseStep)
    ensures
        still_wanted ==> s == EraseStep::Poll,
        !still_wanted ==> s == EraseStep::Failed(EraseFailure::Cancelled),
{
    if still_wanted {
        EraseStep::Poll
    } else {
        EraseStep::Failed(EraseFailure::Cancelled)
    }
}

impl EraseFailure {
    /// The failure's message.
    pub fn message(&self) -> (m: String)
        ensures
            *self == EraseFailure::Nack ==> m@ == "Mass erase returned NACK"@,
            self matches EraseFailure::UnexpectedByte(b) ==> m@ == "Unexpected erase response: 0x"@
                + hex_text(b as nat, 2),
            *self == EraseFailure::ReadError ==> m@ == "Erase error"@,
            *self == EraseFailure::TimedOut ==> m@ == "Erase timed out"@,
            *self == EraseFailure::Cancelled ==> m@ == "Operation cancelled by user"@,
    {
        match self {
            EraseFailure::Nack => String::from_str("Mass erase returned NACK"),
            EraseFailure::UnexpectedByte(b) => {
                let mut m = String::from_str("Unexpected erase response: 0x");
                push_hex(&mut m, *b as u64, 2);
                m
            },
            EraseFailure::ReadError => String::from_str("Erase error"),
            EraseFailure::TimedOut => String::from_str("Erase timed out"),
            EraseFailure::Cancelled => String::from_str("Operation cancelled by user"),
        }
    }
}

/// Bytes written per Write Memory command.
pub const CHUNK_SIZE: usize = 256;

/// Address of the `chunk_idx`-th 256-byte chunk of a segment, computed in
/// 32 bits (wrapping at 4 GiB).
pub fn chunk_address(segment_address: u32, chunk_idx: usize) -> (a: u32)
    requires
        chunk_idx * 256 <= usize::MAX,
    ensures
        a == ((segment_address + chunk_idx * 256) % 0x1_0000_0000) as u32,
{
    let offset = ((chunk_idx * CHUNK_SIZE) as u64 % 0x1_0000_0000) as u32;
    let a = segment_address.wrapping_add(offset);
    proof {
        let m: int = 0x1_0000_0000;
        vstd::arithmetic::div_mod::lemma_add_mod_noop(segment_address as int, chunk_idx * 256, m);
        vstd::arithmetic::div_mod::lemma_small_mod(segment_address as nat, m as nat);
        if segment_address + offset < m {
            vstd::arithmetic::div_mod::lemma_small_mod((segment_address + offset) as nat, m as nat);
        } else {
            vstd::arithmetic::div_mod::lemma_small_mod((segment_address + offset - m) as nat, m as nat);
            vstd::arithmetic::div_mod::lemma_mod_add_multiples_vanish(
                (segment_address + offset - m) as int,
                m,
            );
        }
    }
    a
}

/// Number of 256-byte chunks a segment of `len` bytes is written in.
pub open spec fn chunk_count(len: nat) -> nat {
    (len + 255) / 256
}

/// The `k`-th chunk of a segment's bytes: 256 bytes from offset `256 * k`,
/// fewer for the last one.
pub open spec fn chunk_of(data: Seq<u8>, k: int) -> Seq<u8> {
    let start = k * 256;
    let end = if start + 256 <= data.len() {
        start + 256
    } else {
        data.len() as int
    };
    data.subrange(start, end)
}

/// The first `n` chunks of a segment, one after the other.
pub open spec fn chunks_joined(data: Seq<u8>, n: nat) -> Seq<u8>
    decreases n,
{
    if n == 0 {
        Seq::empty()
    } else {
        chunks_joined(data, (n - 1) as nat) + chunk_of(data, n - 1)
    }
}

/// The `k`-th Write Memory step of a segment at `address`: the chunk's
/// address (wrapping at 4 GiB) and its bytes.
pub open spec fn chunk_step_ok(address: u32, data: Seq<u8>, k: int, step: (u32, Vec<u8>)) -> bool {
    &&& step.0 == ((address + k * 256) % 0x1_0000_0000) as u32
    &&& step.1@ == chunk_of(data, k)
}

/// The Write Memory steps that write a segment at `address`: its bytes cut
/// into 256-byte chunks (the last one shorter), each with its address.
pub fn segment_chunks(address: u32, data: &[u8]) -> (v: Vec<(u32, Vec<u8>)>)
    ensures
        v@.len() == chunk_count(data@.len()),
        forall|k: int| 0 <= k < v@.len() ==> #[trigger] chunk_step_ok(address, data@, k, v@[k]),
{
    let len = data.len();
    let mut v: Vec<(u32, Vec<u8>)> = Vec::new();
    let mut start: usize = 0;
    let mut k: usize = 0;
    while start < len
        invariant
            len == data@.len(),
            v@.len() == k,
            start <= len,
            start < len ==> start == k * 256,
            start == len ==> k * 256 >= len,
            k == 0 || (k - 1) * 256 < len,
            forall|j: int| 0 <= j < k ==> #[trigger] chunk_step_ok(address, data@, j, v@[j]),
        decreases len - start,
    {
        let end = if len - start > CHUNK_SIZE {
            start + CHUNK_SIZE
        } else {
            len
        };
        let mut chunk: Vec<u8> = Vec::new();
        let mut i = start;
        while i < end
            invariant
                start <= i <= end <= len == data@.len(),
                chunk@ == data@.subrange(start as int, i as int),
            decreases end - i,
        {
            chunk.push(data[i]);
            proof {
                assert(data@.subrange(start as int, i + 1) =~= data@.subrange(start as int, i as int).push(
                    data@[i as int],
                ));
            }
            i = i + 1;
        }
        let addr = chunk_address(address, k);
        let ghost before = v@;
        proof {
            assert(chunk@ =~= chunk_of(data@, k as int));
        }
        let step = (addr, chunk);
        proof {
            assert(chunk_step_ok(address, data@, k as int, step));
        }
        v.push(step);
        proof {
            assert forall|j: int| 0 <= j < k + 1 implies #[trigger] chunk_step_ok(address, data@, j, v@[j]) by {
                if j < k {
                    assert(v@[j] == before[j]);
                } else {
                    assert(v@[j] == step);
                }
            }
        }
        start = end;
        k = k + 1;
    }
    proof {
        assert(k == (len + 255) / 256) by (nonlinear_arith)
            requires
                k * 256 >= len,
                k == 0 || (k - 1) * 256 < len,
        ;
    }
    v
}

proof fn lemma_chunks_joined_prefix(data: Seq<u8>, n: nat)
    requires
        n == 0 || (n - 1) * 256 < data.len(),
    ensures
        chunks_joined(data, n) == data.subrange(
            0,
            if n * 256 <= data.len() {
                n * 256 as int
            } else {
                data.len() as int
            },
        ),
    decreases n,
{
    if n == 0 {
        assert(data.subrange(0, 0) =~= Seq::<u8>::empty());
    } else {
        let m = (n - 1) as nat;
        if m > 0 {
            assert((m - 1) * 256 < data.len());
        }
        lemma_chunks_joined_prefix(data, m);
        assert(m * 256 <= data.len());
        assert(chunks_joined(data, n) =~= data.subrange(
            0,
            if n * 256 <= data.len() {
                n * 256 as int
            } else {
                data.len() as int
            },
        ));
    }
}

/// Writing a segment chunk by chunk writes exactly its bytes, in order:
/// every chunk holds 1 to 256 bytes (what a Write Memory command takes),
/// and the chunks one after the other are the segment.
pub proof fn law_chunks_cover_segment(data: Seq<u8>)
    ensures
        chunks_joined(data, chunk_count(data.len())) == data,
        forall|k: int|
            0 <= k < chunk_count(data.len()) ==> 1 <= #[trigger] chunk_of(data, k).len() <= 256,
{
    let n = chunk_count(data.len());
    assert(n == 0 || (n - 1) * 256 < data.len()) by (nonlinear_arith)
        requires
            n == (data.len() + 255) / 256,
    ;
    assert(n * 256 >= data.len()) by (nonlinear_arith)
        requires
            n == (data.len() + 255) / 256,
    ;
    lemma_chunks_joined_prefix(data, n);
    assert(data.subrange(0, data.len() as int) =~= data);
    assert forall|k: int| 0 <= k < n implies 1 <= #[trigger] chunk_of(data, k).len() <= 256 by {
        assert(k * 256 < data.len()) by (nonlinear_arith)
            requires
                0 <= k < n,
                n == 0 || (n - 1) * 256 < data.len(),
        ;
    }
}

/// Progress shown while writing: 10 % when erasing is done, then the
/// share of the bytes written so far, scaled into the 89 points above it.
pub open spec fn write_progress(written: nat, total: nat) -> int {
    10 + (written as int * 89) / (total as int)
}

/// The progress percentage after `written` of `total` bytes.
pub fn progress_percent(written: usize, total: usize) -> (p: u8)
    requires
        0 < total,
        written <= total,
        written * 89 <= usize::MAX,
    ensures
        p == write_progress(written as nat, total as nat),
        10 <= p <= 99,
{
    proof {
        assert(written * 89 <= total * 89) by (nonlinear_arith)
            requires
                written <= total,
        ;
        assert((written as int * 89) / (total as int) <= 89) by (nonlinear_arith)
            requires
                written * 89 <= total * 89,
                0 < total,
        ;
    }
    (10 + written * 89 / total) as u8
}

/// Progress never goes back as more bytes are written, and it stays
/// between 10 and 99.
pub proof fn law_progress_monotonic(a: nat, b: nat, total: nat)
    requires
        0 < total,
        a <= b <= total,
    ensures
        write_progress(a, total) <= write_progress(b, total),
        10 <= write_progress(a, total) <= 99,
{
    assert((a as int * 89) / (total as int) <= (b as int * 89) / (total as int)) by (nonlinear_arith)
        requires
            a <= b,
            0 < total,
    ;
    assert((b as int * 89) / (total as int) <= 89) by (nonlinear_arith)
        requires
            b <= total,
            0 < total,
    ;
}

/// The hint added when every rate failed.
pub fn boot_hint(mode: IspBootMode) -> (h: &'static str)
    ensures
        mode == IspBootMode::Manual ==> h@
            == "Hint: ensure BOOT0=HIGH and target has been reset into ROM bootloader."@,
        mode == IspBootMode::Auto ==> h@ == "Hint: check RTS->BOOT0 and DTR->RESET wiring."@,
{
    match mode {
        IspBootMode::Manual => "Hint: ensure BOOT0=HIGH and target has been reset into ROM bootloader.",
        IspBootMode::Auto => "Hint: check RTS->BOOT0 and DTR->RESET wiring.",
    }
}

/// The message of a session that gave up.
pub fn gave_up_message(mode: IspBootMode) -> (m: String)
    ensures
        m@ == "Sync/GetID/erase-setup failed after multiple retries. "@ + boot_hint_text(mode),
{
    let mut m = String::from_str("Sync/GetID/erase-setup failed after multiple retries. ");
    m.append(boot_hint(mode));
    m
}

pub open spec fn boot_hint_text(mode: IspBootMode) -> Seq<char> {
    match mode {
        IspBootMode::Manual => "Hint: ensure BOOT0=HIGH and target has been reset into ROM bootloader."@,
        IspBootMode::Auto => "Hint: check RTS->BOOT0 and DTR->RESET wiring."@,
    }
}

} // verus!
