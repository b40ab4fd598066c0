use vstd::prelude::*;
use crate::nsf_header::NsfHeader;

verus! {

/// Writes of 0 to every address in `lo..hi`, in order.
pub open spec fn clear_range(lo: int, hi: int) -> Seq<(u16, u8)> {
    Seq::new((hi - lo) as nat, |i: int| ((lo + i) as u16, 0u8))
}

/// The address the play routine returns through, minus one, as the 6502's
/// `RTS` expects it; wraps at 0.
pub open spec fn return_address(play_address: u16) -> u16 {
    if play_address == 0 {
        0xFFFF
    } else {
        (play_address - 1) as u16
    }
}

/// The memory writes that prepare the console before a tune's init routine
/// runs: work RAM and cartridge RAM cleared, sound registers cleared, the
/// four tone channels enabled, frame IRQ inhibited, the header's bankswitch
/// values written to 0x5FF8..=0x5FFF, and the play routine's return address
/// pushed just above the stack pointer `sp` (low byte first).
pub open spec fn init_writes_spec(h: NsfHeader, sp: u8) -> Seq<(u16, u8)> {
    let ret = return_address(h.play_address);
    clear_range(0x0000, 0x0800) + clear_range(0x6000, 0x8000) + clear_range(0x4000, 0x4014)
        + seq![(0x4015u16, 0x00u8), (0x4015u16, 0x0Fu8), (0x4017u16, 0x40u8)] + Seq::new(
        8,
        |i: int| ((0x5FF8 + i) as u16, h.bankswitch_init@[i]),
    ) + seq![
        ((0x0100 + sp + 1) as u16, (ret % 256) as u8),
        ((0x0100 + sp + 2) as u16, (ret / 256) as u8),
    ]
}

fn push_cleared(out: &mut Vec<(u16, u8)>, lo: u16, hi: u16)
    requires
        lo <= hi,
    ensures
        final(out)@ == old(out)@ + clear_range(lo as int, hi as int),
{
    let ghost start = out@;
    let mut a = lo;
    while a < hi
        invariant
            lo <= a <= hi,
            out@ == start + clear_range(lo as int, a as int),
        decreases hi - a,
    {
        out.push((a, 0));
        proof {
            assert(out@ =~= start + clear_range(lo as int, a + 1));
        }
        a = a + 1;
    }
}

/// The memory writes that set up a tune described by `header`, given the
/// CPU's stack pointer `sp`, in the order they are to be made.
pub fn init_writes(header: &NsfHeader, sp: u8) -> (r: Vec<(u16, u8)>)
    ensures
        r@ == init_writes_spec(*header, sp),
{
    let mut out: Vec<(u16, u8)> = Vec::new();
    push_cleared(&mut out, 0x0000, 0x0800);
    push_cleared(&mut out, 0x6000, 0x8000);
    push_cleared(&mut out, 0x4000, 0x4014);
    out.push((0x4015, 0x00));
    out.push((0x4015, 0x0F));
    out.push((0x4017, 0x40));
    let ghost before_banks = out@;
    let mut i: usize = 0;
    while i < 8
        invariant
            i <= 8,
            out@ == before_banks + Seq::new(
                i as nat,
                |k: int| ((0x5FF8 + k) as u16, header.bankswitch_init@[k]),
            ),
        decreases 8 - i,
    {
        out.push((0x5FF8 + i as u16, header.bankswitch_init[i]));
        proof {
            assert(out@ =~= before_banks + Seq::new(
                (i + 1) as nat,
                |k: int| ((0x5FF8 + k) as u16, header.bankswitch_init@[k]),
            ));
        }
        i = i + 1;
    }
    let ret: u16 = if header.play_address == 0 {
        0xFFFF
    } else {
        header.play_address - 1
    };
    let stack: u16 = 0x0100 + sp as u16;
    out.push((stack + 1, (ret % 256) as u8));
    out.push((stack + 2, (ret / 256) as u8));
    proof {
        assert(out@ =~= init_writes_spec(*header, sp));
    }
    out
}

} // verus!
