//! MSI Titan GT77 12UHS.

use vstd::prelude::*;

use super::{FanConfig, Fans, Method, MethodTy, ModelConfig};
use crate::fw::{Addr, Bit};

verus! {

/// The model name as the BIOS reports it.
pub open spec fn spec_name() -> Seq<char> {
    "Titan GT77 12UHS"@
}

/// What the model config holds.
pub open spec fn is_titan_gt77_12uhs(cfg: ModelConfig) -> bool {
    &&& cfg.name@ == spec_name()
    &&& cfg.has_dgpu
    &&& cfg.fans.max_speed == 150
    &&& cfg.fans.count == Fans::Four
    &&& cfg.methods@.len() == 2
    &&& cfg.methods@[0].name@ == "Display Overdrive"@
    &&& cfg.methods@[0].method@ == "display_overdrive"@
    &&& cfg.methods@[0].addr == Addr::Single(0x2E)
    &&& cfg.methods@[0].ty@ == seq![
        MethodTy::ReadBit { bit: Bit::_4, invert: false },
        MethodTy::WriteBit { bit: Bit::_4, invert: false },
    ]
    &&& cfg.methods@[1].name@ == "USB Power Share"@
    &&& cfg.methods@[1].method@ == "usb_power_share"@
    &&& cfg.methods@[1].addr == Addr::Single(0xBF)
    &&& cfg.methods@[1].ty@ == seq![
        MethodTy::ReadBit { bit: Bit::_5, invert: false },
        MethodTy::WriteBit { bit: Bit::_5, invert: false },
    ]
}

pub fn config() -> (r: ModelConfig)
    ensures
        is_titan_gt77_12uhs(r),
        r.wf(),
{
    let overdrive = Method {
        name: "Display Overdrive",
        method: "display_overdrive",
        addr: Addr::Single(0x2E),
        ty: vec![
            MethodTy::ReadBit { bit: Bit::_4, invert: false },
            MethodTy::WriteBit { bit: Bit::_4, invert: false },
        ],
    };
    let usb = Method {
        name: "USB Power Share",
        method: "usb_power_share",
        addr: Addr::Single(0xBF),
        ty: vec![
            MethodTy::ReadBit { bit: Bit::_5, invert: false },
            MethodTy::WriteBit { bit: Bit::_5, invert: false },
        ],
    };
    let r = ModelConfig {
        name: "Titan GT77 12UHS",
        has_dgpu: true,
        fans: FanConfig { max_speed: 150, count: Fans::Four },
        methods: vec![overdrive, usb],
    };
    assert(r.methods@[0].wf());
    assert(r.methods@[1].wf());
    r
}

} // verus!
