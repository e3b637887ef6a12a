//! The embedded controller's register file: 256 byte registers, read and
//! written by address. The file holds an image of the registers and a log of
//! the writes made to it, in order, so that the same writes can be carried
//! out on the device.

use vstd::prelude::*;

use crate::fw::{spec_bit_set, spec_set_bit_state, Bit, BitSet};

verus! {

/// The number of registers.
pub const EC_SIZE: usize = 256;

/// The registers `mem` after `data` is written from register `addr` on.
pub open spec fn write_block(mem: Seq<u8>, addr: int, data: Seq<u8>) -> Seq<u8> {
    Seq::new(
        mem.len(),
        |i: int|
            if addr <= i < addr + data.len() {
                data[i - addr]
            } else {
                mem[i]
            },
    )
}

/// Whether `len` registers from `addr` on stay within the register file
/// (an empty span always does).
pub open spec fn span_fits(addr: u8, len: nat) -> bool {
    len == 0 || addr + (len - 1) <= 0xFF
}

#[derive(Debug)]
pub enum EcSysError {
    /// The `ec_sys` driver is loaded without write support.
    NoWriteSupport,
    /// The `ec_sys` driver is not loaded.
    NotLoaded,
    /// The device could not be read or written.
    OtherIo { message: String },
    /// A system call failed.
    OtherErrno { errno: i32 },
    /// `len` registers from `addr` on run past the last register.
    Overflow { addr: u8, len: usize },
}

/// One write to the register file: `data` stored from register `addr` on.
#[derive(Debug, Clone)]
pub struct EcWrite {
    pub addr: u8,
    pub data: Vec<u8>,
}

impl EcWrite {
    pub open spec fn view(self) -> (u8, Seq<u8>) {
        (self.addr, self.data@)
    }
}

pub struct EcSys {
    mem: [u8; 256],
    log: Vec<EcWrite>,
}

impl EcSys {

    /// The register values.
    pub closed spec fn mem(&self) -> Seq<u8> {
        self.mem@
    }

    /// There are always 256 registers.
    pub proof fn lemma_mem_len(&self)
        ensures
            self.mem().len() == EC_SIZE,
    {
    }

    /// The writes made so far, in order, each as its address and bytes.
    pub closed spec fn log(&self) -> Seq<(u8, Seq<u8>)> {
        self.log@.map_values(|w: EcWrite| w.view())
    }

    /// A register file holding `image`, with no writes made yet.
    pub fn from_image(image: [u8; 256]) -> (r: EcSys)
        ensures
            r.mem() == image@,
            r.log() == Seq::<(u8, Seq<u8>)>::empty(),
    {
        let r = EcSys { mem: image, log: Vec::new() };
        assert(r.log() =~= Seq::<(u8, Seq<u8>)>::empty());
        r
    }

    /// The register values (256 of them).
    pub fn image(&self) -> (r: &[u8])
        ensures
            r@ == self.mem(),
            r@.len() == EC_SIZE,
    {
        self.mem.as_slice()
    }

    /// A copy of the register values.
    pub fn image_array(&self) -> (r: [u8; 256])
        ensures
            r@ == self.mem(),
    {
        self.mem
    }

    /// The writes made so far, in order.
    pub fn writes(&self) -> (r: &[EcWrite])
        ensures
            r@.map_values(|w: EcWrite| w.view()) == self.log(),
    {
        self.log.as_slice()
    }

    /// Hands out the writes made so far and forgets them; the registers keep
    /// their values.
    pub fn take_writes(&mut self) -> (r: Vec<EcWrite>)
        ensures
            r@.map_values(|w: EcWrite| w.view()) == old(self).log(),
            final(self).log() == Seq::<(u8, Seq<u8>)>::empty(),
            final(self).mem() == old(self).mem(),
    {
        let mut r: Vec<EcWrite> = Vec::new();
        std::mem::swap(&mut r, &mut self.log);
        assert(self.log() =~= Seq::<(u8, Seq<u8>)>::empty());
        r
    }

    /// The value of register `addr`.
    pub fn ec_read(&self, addr: u8) -> (r: u8)
        ensures
            r == self.mem()[addr as int],
            self.mem().len() == EC_SIZE,
    {
        self.mem[addr as usize]
    }

    /// The values of `len` registers from `addr` on.
    pub fn ec_read_seq(&self, addr: u8, len: usize) -> (r: Result<Vec<u8>, EcSysError>)
        ensures
            self.mem().len() == EC_SIZE,
            span_fits(addr, len as nat) ==> (r matches Ok(v) && v@ == self.mem().subrange(
                addr as int,
                addr + len,
            )),
            !span_fits(addr, len as nat) ==> (r matches Err(EcSysError::Overflow { addr: a, len: l })
                && a == addr && l == len),
    {
        if len > 0 && len - 1 > (0xFF - addr) as usize {
            return Err(EcSysError::Overflow { addr, len });
        }
        let start = addr as usize;
        let mut v: Vec<u8> = Vec::new();
        let mut i: usize = 0;
        while i < len
            invariant
                self.mem@.len() == EC_SIZE,
                start + len <= EC_SIZE,
                i <= len,
                v@ == self.mem@.subrange(start as int, start + i),
            decreases len - i,
        {
            v.push(self.mem[start + i]);
            i = i + 1;
            assert(v@ =~= self.mem@.subrange(start as int, start + i));
        }
        Ok(v)
    }

    /// Whether `bit` of register `addr` is set.
    pub fn ec_read_bit(&self, addr: u8, bit: Bit) -> (r: bool)
        ensures
            r == spec_bit_set(self.mem()[addr as int], bit),
            self.mem().len() == EC_SIZE,
    {
        let val = self.ec_read(addr);
        val.bit_set(bit)
    }

    /// Stores `val` in register `addr`.
    pub fn ec_write(&mut self, addr: u8, val: u8)
        ensures
            final(self).mem() == write_block(old(self).mem(), addr as int, seq![val]),
            final(self).mem() == old(self).mem().update(addr as int, val),
            final(self).log() == old(self).log().push((addr, seq![val])),
            final(self).mem().len() == EC_SIZE,
    {
        self.mem[addr as usize] = val;
        let w = EcWrite { addr, data: vec![val] };
        self.log.push(w);
        proof {
            assert(self.mem() =~= write_block(old(self).mem(), addr as int, seq![val]));
            assert(w.data@ =~= seq![val]);
            assert(self.log() =~= old(self).log().push((addr, seq![val])));
        }
    }

    /// Stores `vals` in the registers from `addr` on.
    pub fn ec_write_seq(&mut self, addr: u8, vals: &[u8]) -> (r: Result<(), EcSysError>)
        ensures
            final(self).mem().len() == EC_SIZE,
            span_fits(addr, vals@.len()) ==> {
                &&& r is Ok
                &&& final(self).mem() == write_block(old(self).mem(), addr as int, vals@)
                &&& final(self).log() == old(self).log().push((addr, vals@))
            },
            !span_fits(addr, vals@.len()) ==> {
                &&& r matches Err(EcSysError::Overflow { addr: a, len: l })
                &&& a == addr && l == vals@.len()
                &&& *final(self) == *old(self)
            },
    {
        let len = vals.len();
        if len > 0 && len - 1 > (0xFF - addr) as usize {
            return Err(EcSysError::Overflow { addr, len });
        }
        let start = addr as usize;
        let mut i: usize = 0;
        while i < len
            invariant
                self.mem@.len() == EC_SIZE,
                start + len <= EC_SIZE,
                len == vals@.len(),
                i <= len,
                self.log == old(self).log,
                self.mem@ == write_block(old(self).mem@, start as int, vals@.subrange(0, i as int)),
            decreases len - i,
        {
            self.mem[start + i] = vals[i];
            i = i + 1;
            assert(self.mem@ =~= write_block(
                old(self).mem@,
                start as int,
                vals@.subrange(0, i as int),
            ));
        }
        assert(vals@.subrange(0, len as int) =~= vals@);
        let mut data: Vec<u8> = Vec::new();
        let mut j: usize = 0;
        while j < len
            invariant
                len == vals@.len(),
                j <= len,
                data@ == vals@.subrange(0, j as int),
            decreases len - j,
        {
            data.push(vals[j]);
            j = j + 1;
            assert(data@ =~= vals@.subrange(0, j as int));
        }
        let w = EcWrite { addr, data };
        self.log.push(w);
        proof {
            assert(self.log() =~= old(self).log().push((addr, vals@)));
        }
        Ok(())
    }

    /// Sets `bit` of register `addr` to `state`, keeping its other bits: reads
    /// the register, then writes it.
    pub fn ec_write_bit(&mut self, addr: u8, bit: Bit, state: bool)
        ensures
            final(self).mem() == write_block(
                old(self).mem(),
                addr as int,
                seq![spec_set_bit_state(old(self).mem()[addr as int], bit, state)],
            ),
            final(self).mem() == old(self).mem().update(
                addr as int,
                spec_set_bit_state(old(self).mem()[addr as int], bit, state),
            ),
            final(self).log() == old(self).log().push(
                (addr, seq![spec_set_bit_state(old(self).mem()[addr as int], bit, state)]),
            ),
            final(self).mem().len() == EC_SIZE,
    {
        let mut val = self.ec_read(addr);
        val.set_bit_state(bit, state);
        self.ec_write(addr, val);
    }
}

} // verus!
