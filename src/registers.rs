//! The register file: A, the four flags of F, B, C, D, E, H, L, SP and PC.
use vstd::prelude::*;

verus! {

/// The word whose high byte is `hi` and low byte is `lo`.
pub open spec fn join(hi: u8, lo: u8) -> u16 {
    ((hi as u16) << 8) | (lo as u16)
}

pub open spec fn hi(v: u16) -> u8 {
    (v >> 8) as u8
}

pub open spec fn lo(v: u16) -> u8 {
    v as u8
}

/// F keeps only its four flags; its low nibble has no storage and reads as
/// zero.
#[derive(Clone, Copy, Debug)]
pub struct Registers {
    pub a: u8,
    pub b: u8,
    pub c: u8,
    pub d: u8,
    pub e: u8,
    pub h: u8,
    pub l: u8,
    pub zf: bool,
    pub nf: bool,
    pub hf: bool,
    pub cf: bool,
    pub sp: u16,
    pub pc: u16,
}

impl Registers {
    /// The flag byte: Z, N, H, C in bits 7 to 4.
    pub open spec fn f(self) -> u8 {
        (if self.zf {
            0x80u8
        } else {
            0u8
        }) | (if self.nf {
            0x40u8
        } else {
            0u8
        }) | (if self.hf {
            0x20u8
        } else {
            0u8
        }) | (if self.cf {
            0x10u8
        } else {
            0u8
        })
    }

    /// The flags taken from bits 7 to 4 of `v`; its low nibble is dropped.
    pub open spec fn with_f(self, v: u8) -> Registers {
        Registers {
            zf: v & 0x80 != 0,
            nf: v & 0x40 != 0,
            hf: v & 0x20 != 0,
            cf: v & 0x10 != 0,
            ..self
        }
    }

    pub open spec fn af(self) -> u16 {
        join(self.a, self.f())
    }

    pub open spec fn bc(self) -> u16 {
        join(self.b, self.c)
    }

    pub open spec fn de(self) -> u16 {
        join(self.d, self.e)
    }

    pub open spec fn hl(self) -> u16 {
        join(self.h, self.l)
    }

    pub open spec fn with_hl(self, v: u16) -> Registers {
        Registers { h: hi(v), l: lo(v), ..self }
    }

    /// The byte register of an `r8` index other than (HL).
    pub open spec fn r8(self, idx: u8) -> u8 {
        if idx == 0 {
            self.b
        } else if idx == 1 {
            self.c
        } else if idx == 2 {
            self.d
        } else if idx == 3 {
            self.e
        } else if idx == 4 {
            self.h
        } else if idx == 5 {
            self.l
        } else {
            self.a
        }
    }

    pub open spec fn with_r8(self, idx: u8, v: u8) -> Registers {
        if idx == 0 {
            Registers { b: v, ..self }
        } else if idx == 1 {
            Registers { c: v, ..self }
        } else if idx == 2 {
            Registers { d: v, ..self }
        } else if idx == 3 {
            Registers { e: v, ..self }
        } else if idx == 4 {
            Registers { h: v, ..self }
        } else if idx == 5 {
            Registers { l: v, ..self }
        } else {
            Registers { a: v, ..self }
        }
    }

    /// The word of an `r16` index: BC, DE, HL, SP.
    pub open spec fn r16(self, idx: u8) -> u16 {
        if idx == 0 {
            self.bc()
        } else if idx == 1 {
            self.de()
        } else if idx == 2 {
            self.hl()
        } else {
            self.sp
        }
    }

    pub open spec fn with_r16(self, idx: u8, v: u16) -> Registers {
        if idx == 0 {
            Registers { b: hi(v), c: lo(v), ..self }
        } else if idx == 1 {
            Registers { d: hi(v), e: lo(v), ..self }
        } else if idx == 2 {
            self.with_hl(v)
        } else {
            Registers { sp: v, ..self }
        }
    }

    /// The word of an `r16stk` index: BC, DE, HL, AF.
    pub open spec fn r16stk(self, idx: u8) -> u16 {
        if idx == 3 {
            self.af()
        } else {
            self.r16(idx)
        }
    }

    pub open spec fn with_r16stk(self, idx: u8, v: u16) -> Registers {
        if idx == 3 {
            Registers { a: hi(v), ..self }.with_f(lo(v))
        } else {
            self.with_r16(idx, v)
        }
    }

    /// The flag that mask `f` names.
    pub open spec fn flag(self, f: u8) -> bool {
        if f == 0x80 {
            self.zf
        } else if f == 0x40 {
            self.nf
        } else if f == 0x20 {
            self.hf
        } else {
            self.cf
        }
    }

    pub open spec fn with_flag(self, f: u8, v: bool) -> Registers {
        if f == 0x80 {
            Registers { zf: v, ..self }
        } else if f == 0x40 {
            Registers { nf: v, ..self }
        } else if f == 0x20 {
            Registers { hf: v, ..self }
        } else {
            Registers { cf: v, ..self }
        }
    }

    /// The four flags at once.
    pub open spec fn with_flags(self, z: bool, n: bool, h: bool, c: bool) -> Registers {
        Registers { zf: z, nf: n, hf: h, cf: c, ..self }
    }

    /// Condition code `cc`: NZ, Z, NC, C.
    pub open spec fn cond(self, cc: u8) -> bool {
        if cc == 0 {
            !self.zf
        } else if cc == 1 {
            self.zf
        } else if cc == 2 {
            !self.cf
        } else {
            self.cf
        }
    }
}

/// The flag byte never has a bit of its low nibble set.
pub proof fn lemma_f_low_nibble(r: Registers)
    ensures
        r.f() & 0x0F == 0,
{
    let (z, n, h, c) = (r.zf, r.nf, r.hf, r.cf);
    let f = r.f();
    assert(f == (if z {
        0x80u8
    } else {
        0u8
    }) | (if n {
        0x40u8
    } else {
        0u8
    }) | (if h {
        0x20u8
    } else {
        0u8
    }) | (if c {
        0x10u8
    } else {
        0u8
    }));
    assert(((if z {
        0x80u8
    } else {
        0u8
    }) | (if n {
        0x40u8
    } else {
        0u8
    }) | (if h {
        0x20u8
    } else {
        0u8
    }) | (if c {
        0x10u8
    } else {
        0u8
    })) & 0x0F == 0) by (bit_vector);
}

} // verus!
