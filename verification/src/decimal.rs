//! Exact decimal numbers: an integer and the number of its decimal places.

use vstd::prelude::*;

verus! {

/// The most decimal places that a decimal number can have.
pub const MAX_SCALE: u32 = 28;

/// The decimal number `mantissa × 10^-scale`, held exactly. The scale is at
/// most [`MAX_SCALE`].
#[derive(Clone, Copy, Debug, PartialEq, Eq)]
pub struct ExactDecimal {
    mantissa: i64,
    scale: u32,
}

/// The text of the decimal number `mantissa × 10^-scale`, as `rust_decimal`
/// writes it.
pub uninterp spec fn decimal_text(mantissa: int, scale: nat) -> Seq<char>;

/// `rust_decimal::Decimal::new` followed by the number's `Display`: the text
/// of `mantissa × 10^-scale`. The outside function panics on a scale
/// above 28.
#[verifier::external_body]
fn display_decimal(mantissa: i64, scale: u32) -> (res: String)
    requires
        scale <= MAX_SCALE,
    ensures
        res@ == decimal_text(mantissa as int, scale as nat),
{
    rust_decimal::Decimal::new(mantissa, scale).to_string()
}

impl View for ExactDecimal {
    type V = (int, nat);

    /// The mantissa and the scale.
    open spec fn view(&self) -> (int, nat) {
        (self.spec_mantissa(), self.spec_scale())
    }
}

impl DeepView for ExactDecimal {
    type V = (int, nat);

    open spec fn deep_view(&self) -> (int, nat) {
        self@
    }
}

impl ExactDecimal {
    #[verifier::type_invariant]
    spec fn well_formed(self) -> bool {
        self.scale <= MAX_SCALE
    }

    /// The integer that holds the digits of the number.
    pub closed spec fn spec_mantissa(self) -> int {
        self.mantissa as int
    }

    /// The number of decimal places.
    pub closed spec fn spec_scale(self) -> nat {
        self.scale as nat
    }

    /// The number `mantissa × 10^-scale`, unless `scale` is above
    /// [`MAX_SCALE`].
    pub fn new(mantissa: i64, scale: u32) -> (r: Option<ExactDecimal>)
        ensures
            r is Some <==> scale <= MAX_SCALE,
            r matches Some(d) ==> d.spec_mantissa() == mantissa && d.spec_scale() == scale,
    {
        if scale <= MAX_SCALE {
            Some(ExactDecimal { mantissa, scale })
        } else {
            None
        }
    }

    /// The integer that holds the digits of the number.
    pub fn mantissa(&self) -> (r: i64)
        ensures
            r == self.spec_mantissa(),
    {
        self.mantissa
    }

    /// The number of decimal places.
    pub fn scale(&self) -> (r: u32)
        ensures
            r == self.spec_scale(),
            r <= MAX_SCALE,
    {
        proof {
            use_type_invariant(self);
        }
        self.scale
    }

    /// The number in decimal notation.
    pub fn to_string(&self) -> (r: String)
        ensures
            r@ == decimal_text(self.spec_mantissa(), self.spec_scale()),
    {
        proof {
            use_type_invariant(self);
        }
        display_decimal(self.mantissa, self.scale)
    }
}

} // verus!
