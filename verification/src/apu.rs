//! The sound-register sink seen from the bus.
//!
//! The actual waveform synthesis is an external collaborator: the bus
//! forwards register writes verbatim, and this type records them, address
//! and value unchanged, for the host to hand to its sound engine. The
//! channel-status byte the engine would report back is held here so the
//! bus can serve reads of the status register.
use vstd::prelude::*;

verus! {

/// Forwarded sound-register state.
pub struct Apu {
    /// Register writes forwarded by the bus, in order: (address, value).
    pub pending: Vec<(u16, u8)>,
    /// The channel-status byte, as last reported by the host's engine.
    pub channel_status: u8,
}

impl Apu {
    pub fn new() -> (apu: Apu)
        ensures
            apu.pending@.len() == 0,
            apu.channel_status == 0,
    {
        Apu { pending: Vec::new(), channel_status: 0 }
    }

    /// Records one forwarded register write.
    pub fn forward(&mut self, addr: u16, value: u8)
        ensures
            final(self).pending@ == old(self).pending@.push((addr, value)),
            final(self).channel_status == old(self).channel_status,
    {
        self.pending.push((addr, value));
    }

    pub fn write_sq1_vol(&mut self, value: u8)
        ensures
            final(self).pending@ == old(self).pending@.push((0x4000u16, value)),
            final(self).channel_status == old(self).channel_status,
    {
        self.forward(0x4000, value);
    }

    pub fn write_sq1_sweep(&mut self, value: u8)
        ensures
            final(self).pending@ == old(self).pending@.push((0x4001u16, value)),
            final(self).channel_status == old(self).channel_status,
    {
        self.forward(0x4001, value);
    }

    pub fn write_sq1_lo(&mut self, value: u8)
        ensures
            final(self).pending@ == old(self).pending@.push((0x4002u16, value)),
            final(self).channel_status == old(self).channel_status,
    {
        self.forward(0x4002, value);
    }

    pub fn write_sq1_hi(&mut self, value: u8)
        ensures
            final(self).pending@ == old(self).pending@.push((0x4003u16, value)),
            final(self).channel_status == old(self).channel_status,
    {
        self.forward(0x4003, value);
    }

    pub fn write_sq2_vol(&mut self, value: u8)
        ensures
            final(self).pending@ == old(self).pending@.push((0x4004u16, value)),
            final(self).channel_status == old(self).channel_status,
    {
        self.forward(0x4004, value);
    }

    pub fn write_sq2_sweep(&mut self, value: u8)
        ensures
            final(self).pending@ == old(self).pending@.push((0x4005u16, value)),
            final(self).channel_status == old(self).channel_status,
    {
        self.forward(0x4005, value);
    }

    pub fn write_sq2_lo(&mut self, value: u8)
        ensures
            final(self).pending@ == old(self).pending@.push((0x4006u16, value)),
            final(self).channel_status == old(self).channel_status,
    {
        self.forward(0x4006, value);
    }

    pub fn write_sq2_hi(&mut self, value: u8)
        ensures
            final(self).pending@ == old(self).pending@.push((0x4007u16, value)),
            final(self).channel_status == old(self).channel_status,
    {
        self.forward(0x4007, value);
    }

    pub fn write_tri_linear(&mut self, value: u8)
        ensures
            final(self).pending@ == old(self).pending@.push((0x4008u16, value)),
            final(self).channel_status == old(self).channel_status,
    {
        self.forward(0x4008, value);
    }

    pub fn write_tri_lo(&mut self, value: u8)
        ensures
            final(self).pending@ == old(self).pending@.push((0x400au16, value)),
            final(self).channel_status == old(self).channel_status,
    {
        self.forward(0x400a, value);
    }

    pub fn write_tri_hi(&mut self, value: u8)
        ensures
            final(self).pending@ == old(self).pending@.push((0x400bu16, value)),
            final(self).channel_status == old(self).channel_status,
    {
        self.forward(0x400b, value);
    }

    pub fn write_noise_vol(&mut self, value: u8)
        ensures
            final(self).pending@ == old(self).pending@.push((0x400cu16, value)),
            final(self).channel_status == old(self).channel_status,
    {
        self.forward(0x400c, value);
    }

    pub fn write_noise_lo(&mut self, value: u8)
        ensures
            final(self).pending@ == old(self).pending@.push((0x400eu16, value)),
            final(self).channel_status == old(self).channel_status,
    {
        self.forward(0x400e, value);
    }

    pub fn write_noise_hi(&mut self, value: u8)
        ensures
            final(self).pending@ == old(self).pending@.push((0x400fu16, value)),
            final(self).channel_status == old(self).channel_status,
    {
        self.forward(0x400f, value);
    }

    /// Delta-channel frequency writes are dropped: the channel is out of
    /// scope, as is its engine.
    pub fn write_dmc_freq(&mut self, _value: u8)
        ensures
            *final(self) == *old(self),
    {
    }

    pub fn write_dmc_raw(&mut self, _value: u8)
        ensures
            *final(self) == *old(self),
    {
    }

    pub fn write_dmc_start(&mut self, _value: u8)
        ensures
            *final(self) == *old(self),
    {
    }

    pub fn write_dmc_len(&mut self, _value: u8)
        ensures
            *final(self) == *old(self),
    {
    }

    pub fn read_snd_chn(&mut self) -> (r: u8)
        ensures
            r == old(self).channel_status,
            *final(self) == *old(self),
    {
        self.channel_status
    }

    pub fn write_snd_chn(&mut self, value: u8)
        ensures
            final(self).pending@ == old(self).pending@.push((0x4015u16, value)),
            final(self).channel_status == old(self).channel_status,
    {
        self.forward(0x4015, value);
    }

    pub fn write_joy2(&mut self, value: u8)
        ensures
            final(self).pending@ == old(self).pending@.push((0x4017u16, value)),
            final(self).channel_status == old(self).channel_status,
    {
        self.forward(0x4017, value);
    }

    /// Hands the forwarded writes to the host, oldest first, and clears
    /// the queue.
    pub fn take_pending(&mut self) -> (writes: Vec<(u16, u8)>)
        ensures
            writes@ == old(self).pending@,
            final(self).pending@.len() == 0,
            final(self).channel_status == old(self).channel_status,
    {
        let mut writes: Vec<(u16, u8)> = Vec::new();
        core::mem::swap(&mut writes, &mut self.pending);
        writes
    }

    /// Stores the channel-status byte the host's engine reported.
    pub fn set_channel_status(&mut self, status: u8)
        ensures
            *final(self) == (Apu { channel_status: status, ..*old(self) }),
    {
        self.channel_status = status;
    }

    /// Pads a partially filled interleaved stereo buffer: the host's
    /// engine filled the first `filled` samples, and the final sample
    /// pair repeats over every remaining slot, left values in even
    /// slots and right values in odd ones.
    pub fn tick(buf: &mut Vec<i16>, filled: usize)
        requires
            2 <= filled <= old(buf)@.len(),
            filled % 2 == 0,
        ensures
            final(buf)@.len() == old(buf)@.len(),
            forall|k: int| 0 <= k < filled ==> final(buf)@[k] == old(buf)@[k],
            forall|k: int|
                filled <= k < old(buf)@.len() ==> final(buf)@[k] == (if k % 2 == 0 {
                    old(buf)@[filled - 2]
                } else {
                    old(buf)@[filled - 1]
                }),
    {
        let left: i16 = buf[filled - 2];
        let right: i16 = buf[filled - 1];
        let n: usize = buf.len();
        let mut k: usize = filled;
        while k < n
            invariant
                buf@.len() == n,
                filled <= k <= n,
                filled % 2 == 0,
                forall|m: int| 0 <= m < filled ==> buf@[m] == old(buf)@[m],
                left == old(buf)@[filled - 2],
                right == old(buf)@[filled - 1],
                forall|m: int|
                    filled <= m < k ==> buf@[m] == (if m % 2 == 0 {
                        old(buf)@[filled - 2]
                    } else {
                        old(buf)@[filled - 1]
                    }),
            decreases n - k,
        {
            if k % 2 == 0 {
                buf.set(k, left);
            } else {
                buf.set(k, right);
            }
            k = k + 1;
        }
    }
}

} // verus!
