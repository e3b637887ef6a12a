//! Laptop models: how many fans a model has, whether it has a discrete GPU,
//! and the model-specific registers ("methods") it exposes.

use vstd::prelude::*;

use crate::fw::{Addr, Bit};
use crate::text::str_eq;

pub mod titan_gt77_12uhs;

verus! {

#[derive(Debug, Copy, Clone, PartialEq, Eq, Structural, PartialOrd, Ord)]
pub enum Fans {
    One,
    Two,
    Three,
    Four,
}

impl Fans {
    /// How many fans this is.
    pub open spec fn spec_count(self) -> u8 {
        match self {
            Fans::One => 1,
            Fans::Two => 2,
            Fans::Three => 3,
            Fans::Four => 4,
        }
    }

    pub fn count(&self) -> (r: u8)
        ensures
            r == self.spec_count(),
    {
        match self {
            Fans::One => 1,
            Fans::Two => 2,
            Fans::Three => 3,
            Fans::Four => 4,
        }
    }
}

impl Default for Fans {
    fn default() -> (r: Fans)
        ensures
            r == Fans::One,
    {
        Fans::One
    }
}

#[derive(Debug, Copy, Clone)]
pub struct FanConfig {
    pub max_speed: u8,
    /// The highest number fan, i.e. how many fans total there are
    pub count: Fans,
}

/// A model-specific register and what may be done with it.
#[derive(Debug, Clone)]
pub struct Method {
    /// Display name.
    pub name: &'static str,
    /// Name by which the method is called.
    pub method: &'static str,
    pub addr: Addr,
    pub ty: Vec<MethodTy>,
}

#[derive(Debug, Copy, Clone, PartialEq, Eq, Structural)]
pub enum MethodTy {
    // single bit read/write
    // requires addr to be Addr::Single
    ReadBit { bit: Bit, invert: bool },
    WriteBit { bit: Bit, invert: bool },
    // Single byte read/write
    Read,
    Write,
    // Range of bytes read/write
    ReadRange,
    WriteRange,
}

/// The kind of a `MethodTy`, without its bit.
#[derive(Debug, Copy, Clone, PartialEq, Eq, Structural)]
pub enum MethodOp {
    ReadBit,
    WriteBit,
    Read,
    Write,
    ReadRange,
    WriteRange,
}

impl MethodTy {
    pub open spec fn spec_op(self) -> MethodOp {
        match self {
            MethodTy::ReadBit { .. } => MethodOp::ReadBit,
            MethodTy::WriteBit { .. } => MethodOp::WriteBit,
            MethodTy::Read => MethodOp::Read,
            MethodTy::Write => MethodOp::Write,
            MethodTy::ReadRange => MethodOp::ReadRange,
            MethodTy::WriteRange => MethodOp::WriteRange,
        }
    }

    pub fn op(&self) -> (r: MethodOp)
        ensures
            r == self.spec_op(),
    {
        match self {
            MethodTy::ReadBit { .. } => MethodOp::ReadBit,
            MethodTy::WriteBit { .. } => MethodOp::WriteBit,
            MethodTy::Read => MethodOp::Read,
            MethodTy::Write => MethodOp::Write,
            MethodTy::ReadRange => MethodOp::ReadRange,
            MethodTy::WriteRange => MethodOp::WriteRange,
        }
    }
}

impl MethodOp {
    /// Whether the operation reads.
    pub open spec fn spec_is_read(self) -> bool {
        self is Read || self is ReadBit || self is ReadRange
    }

    /// Whether the operation writes.
    pub open spec fn spec_is_write(self) -> bool {
        self is Write || self is WriteBit || self is WriteRange
    }

    pub fn is_read(&self) -> (r: bool)
        ensures
            r == self.spec_is_read(),
    {
        match self {
            MethodOp::Read | MethodOp::ReadBit | MethodOp::ReadRange => true,
            _ => false,
        }
    }

    pub fn is_write(&self) -> (r: bool)
        ensures
            r == self.spec_is_write(),
    {
        match self {
            MethodOp::Write | MethodOp::WriteBit | MethodOp::WriteRange => true,
            _ => false,
        }
    }
}

impl Method {
    /// The method has a register, a span runs forwards, and the address suits
    /// each capability: a single register for byte and bit access, a span for
    /// range access.
    pub open spec fn wf(self) -> bool {
        &&& self.addr.spec_is_supported()
        &&& (self.addr matches Addr::Range(s, e) ==> s <= e)
        &&& forall|i: int|
            0 <= i < self.ty@.len() ==> match #[trigger] self.ty@[i] {
                MethodTy::ReadRange | MethodTy::WriteRange => self.addr is Range,
                _ => self.addr is Single,
            }
    }
}

/// The first method in `methods` called `name`.
pub open spec fn find_method(methods: Seq<Method>, name: Seq<char>) -> Option<int>
    decreases methods.len(),
{
    if methods.len() == 0 {
        None
    } else if methods[0].method@ == name {
        Some(0)
    } else {
        match find_method(methods.subrange(1, methods.len() as int), name) {
            Some(i) => Some(i + 1),
            None => None,
        }
    }
}

/// The first capability in `tys` that performs `op`.
pub open spec fn find_capability(tys: Seq<MethodTy>, op: MethodOp) -> Option<int>
    decreases tys.len(),
{
    if tys.len() == 0 {
        None
    } else if tys[0].spec_op() == op {
        Some(0)
    } else {
        match find_capability(tys.subrange(1, tys.len() as int), op) {
            Some(i) => Some(i + 1),
            None => None,
        }
    }
}

proof fn lemma_find_method_bounds(methods: Seq<Method>, name: Seq<char>)
    ensures
        find_method(methods, name) matches Some(i) ==> 0 <= i < methods.len() && methods[i].method@ == name,
    decreases methods.len(),
{
    if methods.len() > 0 && methods[0].method@ != name {
        lemma_find_method_bounds(methods.subrange(1, methods.len() as int), name);
    }
}

proof fn lemma_find_capability_bounds(tys: Seq<MethodTy>, op: MethodOp)
    ensures
        find_capability(tys, op) matches Some(i) ==> 0 <= i < tys.len() && tys[i].spec_op() == op,
    decreases tys.len(),
{
    if tys.len() > 0 && tys[0].spec_op() != op {
        lemma_find_capability_bounds(tys.subrange(1, tys.len() as int), op);
    }
}

/// The index of the first method called `name`.
pub fn method_index(methods: &Vec<Method>, name: &str) -> (r: Option<usize>)
    ensures
        r matches Some(i) ==> find_method(methods@, name@) == Some(i as int),
        r is None ==> find_method(methods@, name@) is None,
        r matches Some(i) ==> i < methods@.len() && methods@[i as int].method@ == name@,
{
    proof {
        lemma_find_method_bounds(methods@, name@);
    }
    let mut i: usize = 0;
    assert(methods@.subrange(0, methods@.len() as int) =~= methods@);
    while i < methods.len()
        invariant
            i <= methods@.len(),
            find_method(methods@, name@) == match find_method(methods@.subrange(i as int, methods@.len() as int), name@) {
                Some(j) => Some(j + i),
                None => None::<int>,
            },
        decreases methods@.len() - i,
    {
        let ghost rest = methods@.subrange(i as int, methods@.len() as int);
        assert(rest.subrange(1, rest.len() as int) =~= methods@.subrange(i + 1, methods@.len() as int));
        if str_eq(methods[i].method, name) {
            return Some(i);
        }
        i = i + 1;
    }
    None
}

/// The index of the first capability in `tys` that performs `op`.
pub fn capability_index(tys: &Vec<MethodTy>, op: MethodOp) -> (r: Option<usize>)
    ensures
        r matches Some(i) ==> find_capability(tys@, op) == Some(i as int),
        r is None ==> find_capability(tys@, op) is None,
        r matches Some(i) ==> i < tys@.len() && tys@[i as int].spec_op() == op,
{
    proof {
        lemma_find_capability_bounds(tys@, op);
    }
    let mut i: usize = 0;
    assert(tys@.subrange(0, tys@.len() as int) =~= tys@);
    while i < tys.len()
        invariant
            i <= tys@.len(),
            find_capability(tys@, op) == match find_capability(tys@.subrange(i as int, tys@.len() as int), op) {
                Some(j) => Some(j + i),
                None => None::<int>,
            },
        decreases tys@.len() - i,
    {
        let ghost rest = tys@.subrange(i as int, tys@.len() as int);
        assert(rest.subrange(1, rest.len() as int) =~= tys@.subrange(i + 1, tys@.len() as int));
        if tys[i].op() == op {
            return Some(i);
        }
        i = i + 1;
    }
    None
}

#[derive(Debug, Clone)]
pub struct ModelConfig {
    pub name: &'static str,
    pub has_dgpu: bool,
    pub fans: FanConfig,
    pub methods: Vec<Method>,
}

impl ModelConfig {
    /// Every method of the model is well formed.
    pub open spec fn wf(self) -> bool {
        forall|i: int| 0 <= i < self.methods@.len() ==> (#[trigger] self.methods@[i]).wf()
    }

    /// The config of the model named `name` (as read from the BIOS), if known.
    pub fn from_name(name: &str) -> (r: Option<ModelConfig>)
        ensures
            r is Some <==> name@ == titan_gt77_12uhs::spec_name(),
            r matches Some(cfg) ==> titan_gt77_12uhs::is_titan_gt77_12uhs(cfg) && cfg.wf(),
    {
        let cfg = titan_gt77_12uhs::config();
        if str_eq(cfg.name, name) {
            Some(cfg)
        } else {
            None
        }
    }
}

} // verus!
