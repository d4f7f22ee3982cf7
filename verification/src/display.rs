//! The text of a type, as it stands in printed code.

use crate::decimal::{decimal_digits, decimal_string};
use crate::types::Type;
use vstd::prelude::*;
use vstd::string::StringExecFns;

verus! {

impl Type {
    /// The text of a scalar type: `void`, or the letter of its family (`b` for booleans,
    /// `i` for integers, `f` for floats) and then its width in bits. A byte that names no
    /// scalar type has no text.
    pub open spec fn scalar_text(self) -> Seq<char> {
        if self.is_void() {
            seq!['v', 'o', 'i', 'd']
        } else if self.is_bool() {
            seq!['b'] + decimal_digits(self.lane_bits() as u16)
        } else if self.is_int() {
            seq!['i'] + decimal_digits(self.lane_bits() as u16)
        } else if self.is_float() {
            seq!['f'] + decimal_digits(self.lane_bits() as u16)
        } else {
            Seq::empty()
        }
    }

    /// The text of a type: that of a scalar as it is, that of a vector as the text of its
    /// lane type, an `x`, and the number of lanes.
    pub open spec fn text(self) -> Seq<char> {
        if self.is_scalar() {
            self.scalar_text()
        } else {
            self.lane_type().scalar_text() + seq!['x'] + decimal_digits(self.lane_count())
        }
    }

    /// The letter and the width of a scalar type that is not `VOID`.
    fn named(letter: &str, bits: u8) -> (s: String)
        ensures
            s@ == letter@ + decimal_digits(bits as u16),
    {
        let mut s = String::from_str(letter);
        s.append(decimal_string(bits as u16).as_str());
        s
    }

    /// Write the type as it stands in printed code: `i32`, `b1`, `f64x2`, `void`.
    pub fn to_string(self) -> (s: String)
        ensures
            s@ == self.text(),
        decreases self.log2_lane_count(),
    {
        proof {
            use_type_invariant(&self);
            reveal_strlit("void");
            reveal_strlit("b");
            reveal_strlit("i");
            reveal_strlit("f");
            reveal_strlit("x");
        }
        if self.is_void() {
            String::from_str("void")
        } else if self.is_bool() {
            Type::named("b", self.lane_bits())
        } else if self.is_int() {
            Type::named("i", self.lane_bits())
        } else if self.is_float() {
            Type::named("f", self.lane_bits())
        } else {
            let mut s = self.lane_type().to_string();
            s.append("x");
            s.append(decimal_string(self.lane_count()).as_str());
            s
        }
    }
}

} // verus!
