//! The requests that user code makes through the system-call gate.
use crate::bootstrap::HEAP_SIZE;
use crate::colors::ColorCode;
use vstd::prelude::*;

verus! {

/// A decoded system call.
#[derive(Debug, Clone, Copy, PartialEq, Eq, Structural)]
pub enum Syscall {
    /// Number 0: put `byte` in `color` at `row`, `col`.
    WriteByteAt { row: usize, col: usize, byte: u8, color: ColorCode },
    /// Number 1: put the NUL-terminated string at address `text` in `color`
    /// along `row` from `col`.
    WriteStringAt { row: usize, col: usize, text: u64, color: ColorCode },
    /// Number 2: the number of timer ticks so far.
    Ticks,
    /// Number 0x10: the size of the kernel heap.
    HeapSize,
    /// Any other number; the call returns 0.
    Unknown,
}

/// Decodes call `num`: `arg1` is the column, `arg2` the row, `arg3` the
/// character or the string's address, and the low byte of `arg4` the colour.
pub fn decode_syscall(num: u64, arg1: u64, arg2: u64, arg3: u64, arg4: u64) -> (r: Syscall)
    ensures
        num == 0 ==> (r matches Syscall::WriteByteAt { row, col, byte, color } && row == arg2 as usize
            && col == arg1 as usize && byte == arg3 as u8 && color@ == arg4 as u8),
        num == 1 ==> (r matches Syscall::WriteStringAt { row, col, text, color } && row == arg2 as usize
            && col == arg1 as usize && text == arg3 && color@ == arg4 as u8),
        num == 2 ==> r is Ticks,
        num == 0x10 ==> r is HeapSize,
        num != 0 && num != 1 && num != 2 && num != 0x10 ==> r is Unknown,
{
    match num {
        0 => Syscall::WriteByteAt {
            row: arg2 as usize,
            col: arg1 as usize,
            byte: arg3 as u8,
            color: ColorCode::from_code(arg4),
        },
        1 => Syscall::WriteStringAt {
            row: arg2 as usize,
            col: arg1 as usize,
            text: arg3,
            color: ColorCode::from_code(arg4),
        },
        2 => Syscall::Ticks,
        0x10 => Syscall::HeapSize,
        _ => Syscall::Unknown,
    }
}

/// The value a call returns, `ticks` being the timer ticks so far: the tick
/// count for `Ticks`, the heap size for `HeapSize`, and 0 otherwise.
pub fn syscall_result(call: Syscall, ticks: u64) -> (r: u64)
    ensures
        call is Ticks ==> r == ticks,
        call is HeapSize ==> r == HEAP_SIZE,
        !(call is Ticks) && !(call is HeapSize) ==> r == 0,
{
    match call {
        Syscall::Ticks => ticks,
        Syscall::HeapSize => HEAP_SIZE,
        _ => 0,
    }
}

} // verus!
