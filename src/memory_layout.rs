//! Physical addresses of the devices of the bare-metal machine that embeds
//! the decoder.
use vstd::prelude::*;

verus! {

pub const UART0: u64 = 0x1000_0000;

pub const UART0_IRQ: u64 = 10;

pub const VIRTIO0: u64 = 0x1000_1000;

pub const VIRTIO0_IRQ: u64 = 1;

/// The core-local interruptor.
pub const CLINT: u64 = 0x200_0000;

/// The machine timer register.
pub const CLINT_MTINE: u64 = 0x200_bff8;

/// The platform-level interrupt controller.
pub const PLIC: u64 = 0x0c00_0000;

pub const PLIC_PRIORITY: u64 = 0x0c00_0000;

pub const PLIC_PENDING: u64 = 0x0c00_1000;

/// Where the kernel is loaded.
pub const KERNBASE: u64 = 0x8000_0000;

/// The end of RAM: 128 MiB above `KERNBASE`.
pub const PHYSTOP: u64 = 0x8800_0000;

/// The timer-compare register of hart `hartid`.
pub fn clint_mtimecmp(hartid: u64) -> (r: u64)
    requires
        CLINT + 0x4000 + 8 * hartid <= u64::MAX,
    ensures
        r == CLINT + 0x4000 + 8 * hartid,
{
    CLINT + 0x4000 + 8 * hartid
}

/// The machine-mode interrupt-enable bits of hart `hart`.
pub fn plic_menable(hart: u64) -> (r: u64)
    requires
        PLIC + 0x2000 + hart * 0x100 <= u64::MAX,
    ensures
        r == PLIC + 0x2000 + hart * 0x100,
{
    PLIC + 0x2000 + hart * 0x100
}

/// The supervisor-mode interrupt-enable bits of hart `hart`.
pub fn plic_senable(hart: u64) -> (r: u64)
    requires
        PLIC + 0x2080 + hart * 0x100 <= u64::MAX,
    ensures
        r == PLIC + 0x2080 + hart * 0x100,
{
    PLIC + 0x2080 + hart * 0x100
}

/// The machine-mode priority threshold of hart `hart`.
pub fn plic_mpriority(hart: u64) -> (r: u64)
    requires
        PLIC + 0x20_0000 + hart * 0x2000 <= u64::MAX,
    ensures
        r == PLIC + 0x20_0000 + hart * 0x2000,
{
    PLIC + 0x20_0000 + hart * 0x2000
}

/// The supervisor-mode priority threshold of hart `hart`.
pub fn plic_spriority(hart: u64) -> (r: u64)
    requires
        PLIC + 0x20_1000 + hart * 0x2000 <= u64::MAX,
    ensures
        r == PLIC + 0x20_1000 + hart * 0x2000,
{
    PLIC + 0x20_1000 + hart * 0x2000
}

/// The machine-mode claim/complete register of hart `hart`.
pub fn plic_mclaim(hart: u64) -> (r: u64)
    requires
        PLIC + 0x20_0004 + hart * 0x2000 <= u64::MAX,
    ensures
        r == PLIC + 0x20_0004 + hart * 0x2000,
{
    PLIC + 0x20_0004 + hart * 0x2000
}

/// The supervisor-mode claim/complete register of hart `hart`.
pub fn plic_sclaim(hart: u64) -> (r: u64)
    requires
        PLIC + 0x20_1004 + hart * 0x2000 <= u64::MAX,
    ensures
        r == PLIC + 0x20_1004 + hart * 0x2000,
{
    PLIC + 0x20_1004 + hart * 0x2000
}

} // verus!
