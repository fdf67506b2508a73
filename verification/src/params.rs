//! The parameter store: a fixed pair of named, normalized control values.
//!
//! Each value is kept as the 32-bit pattern of the host's normalized float, so
//! a store followed by a fetch returns the value bit for bit. Out-of-range
//! indices never fail: reads return the zero pattern (the float zero), names
//! and display texts come back empty, and writes are silently dropped.

use vstd::prelude::*;

verus! {

/// Bit pattern of the normalized midpoint one half, the default of every
/// parameter at construction.
pub const HALF_BITS: u32 = 0x3F00_0000;

/// The two control values, addressed by index 0 and 1.
pub struct RustVstTemplateParameters {
    /// Value at index 0, as a 32-bit float pattern.
    pub param1: u32,
    /// Value at index 1, as a 32-bit float pattern.
    pub param2: u32,
}

/// The value read at an index: the stored word at 0 or 1, zero elsewhere.
pub open spec fn spec_get(ps: RustVstTemplateParameters, index: int) -> u32 {
    if index == 0 {
        ps.param1
    } else if index == 1 {
        ps.param2
    } else {
        0u32
    }
}

/// The store after a write: changed only at a valid index.
pub open spec fn spec_set(ps: RustVstTemplateParameters, index: int, val: u32) -> RustVstTemplateParameters {
    if index == 0 {
        RustVstTemplateParameters { param1: val, param2: ps.param2 }
    } else if index == 1 {
        RustVstTemplateParameters { param1: ps.param1, param2: val }
    } else {
        ps
    }
}

/// The display name of an index; empty outside the valid set.
pub open spec fn spec_name(index: int) -> Seq<char> {
    if index == 0 {
        "parameter1"@
    } else if index == 1 {
        "parameter2"@
    } else {
        Seq::<char>::empty()
    }
}

impl RustVstTemplateParameters {
    /// Current value at `index`; the zero pattern for an invalid index.
    pub fn get_parameter(&self, index: i32) -> (val: u32)
        ensures
            val == spec_get(*self, index as int),
    {
        if index == 0 {
            self.param1
        } else if index == 1 {
            self.param2
        } else {
            0
        }
    }

    /// Stores `val` at `index`; a write through an invalid index is a no-op.
    pub fn set_parameter(&mut self, index: i32, val: u32)
        ensures
            *final(self) == spec_set(*old(self), index as int, val),
    {
        if index == 0 {
            self.param1 = val;
        } else if index == 1 {
            self.param2 = val;
        }
    }

    /// The parameter's display name; empty for an invalid index.
    pub fn get_parameter_name(&self, index: i32) -> (name: String)
        ensures
            name@ == spec_name(index as int),
    {
        if index == 0 {
            String::from_str("parameter1")
        } else if index == 1 {
            String::from_str("parameter2")
        } else {
            let name = String::from_str("");
            proof {
                reveal_strlit("");
                assert(name@ =~= Seq::<char>::empty());
            }
            name
        }
    }

    /// Human-facing text for the value at `index`, rendered by `fmt` (the
    /// caller's floating-point formatting step); empty for an invalid index.
    pub fn get_parameter_text<F: Fn(u32) -> String>(&self, index: i32, fmt: F) -> (text: String)
        requires
            forall|bits: u32| #[trigger] call_requires(fmt, (bits,)),
        ensures
            index == 0 || index == 1 ==> call_ensures(fmt, (spec_get(*self, index as int),), text),
            !(index == 0 || index == 1) ==> text@ == Seq::<char>::empty(),
    {
        if index == 0 {
            fmt(self.param1)
        } else if index == 1 {
            fmt(self.param2)
        } else {
            let text = String::from_str("");
            proof {
                reveal_strlit("");
                assert(text@ =~= Seq::<char>::empty());
            }
            text
        }
    }
}

impl Default for RustVstTemplateParameters {
    /// Both parameters start at the normalized midpoint.
    fn default() -> (ps: Self)
        ensures
            ps.param1 == HALF_BITS,
            ps.param2 == HALF_BITS,
    {
        RustVstTemplateParameters { param1: HALF_BITS, param2: HALF_BITS }
    }
}

/// Storing a value at a valid index and then reading that index gives the
/// stored value back unchanged.
pub proof fn lemma_set_then_get(ps: RustVstTemplateParameters, index: int, val: u32)
    requires
        index == 0 || index == 1,
    ensures
        spec_get(spec_set(ps, index, val), index) == val,
{
}

/// An invalid index reads as the zero pattern, has an empty name, and a write
/// through it leaves the whole store unchanged.
pub proof fn lemma_invalid_index(ps: RustVstTemplateParameters, index: int, val: u32)
    requires
        index != 0,
        index != 1,
    ensures
        spec_get(ps, index) == 0,
        spec_set(ps, index, val) == ps,
        spec_name(index) == Seq::<char>::empty(),
{
}

} // verus!
