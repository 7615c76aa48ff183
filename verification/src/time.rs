//! Unit value types and their conversions.
//!
//! Each type wraps an unsigned 32-bit magnitude. Construction never
//! transforms the value; the coarse-to-fine frequency conversions multiply
//! by the fixed scale factor with unsigned 32-bit wraparound semantics.

use vstd::prelude::*;

verus! {

use core::cmp::Ordering;
use vstd::std_specs::cmp::PartialOrdSpec;
use vstd::std_specs::convert::FromSpec;

/// The ordering of two magnitudes: every unit type compares its values by
/// this total order on the wrapped integers.
pub open spec fn magnitude_order(a: u32, b: u32) -> Option<Ordering> {
    if a < b {
        Some(Ordering::Less)
    } else if a == b {
        Some(Ordering::Equal)
    } else {
        Some(Ordering::Greater)
    }
}

/// Multiplication of a magnitude by a scale factor with unsigned 32-bit
/// wraparound: the mathematical product, reduced modulo 2^32.
pub open spec fn scale_wrapped(v: u32, factor: u32) -> u32 {
    ((v * factor) % 0x1_0000_0000) as u32
}

/// Bits per second
#[derive(Copy, Clone, PartialEq, Eq, Structural, Ord, Debug)]
pub struct Bps(pub u32);

/// Frequency in hertz
#[derive(Copy, Clone, PartialEq, Eq, Structural, Ord, Debug)]
pub struct Hertz(pub u32);

/// Frequency in kilohertz
#[derive(Copy, Clone, PartialEq, Eq, Structural, Ord, Debug)]
pub struct KiloHertz(pub u32);

/// Frequency in megahertz
#[derive(Copy, Clone, PartialEq, Eq, Structural, Ord, Debug)]
pub struct MegaHertz(pub u32);

/// Time unit in milliseconds
#[derive(Copy, Clone, PartialEq, Eq, Structural, Debug)]
pub struct MilliSeconds(pub u32);

/// Extension trait that adds convenience methods to the `u32` type.
///
/// Every method wraps the raw magnitude unchanged: no transformation, no
/// range validation, no failure mode.
pub trait U32Ext: Sized {
    /// The raw magnitude that the constructors wrap.
    spec fn magnitude(self) -> u32;

    /// Wrap in `Bps`
    fn bps(self) -> (r: Bps)
        ensures
            r.0 == self.magnitude(),
    ;

    /// Wrap in `Hertz`
    fn hz(self) -> (r: Hertz)
        ensures
            r.0 == self.magnitude(),
    ;

    /// Wrap in `KiloHertz`
    fn khz(self) -> (r: KiloHertz)
        ensures
            r.0 == self.magnitude(),
    ;

    /// Wrap in `MegaHertz`
    fn mhz(self) -> (r: MegaHertz)
        ensures
            r.0 == self.magnitude(),
    ;

    /// Wrap in `MilliSeconds`
    fn ms(self) -> (r: MilliSeconds)
        ensures
            r.0 == self.magnitude(),
    ;
}

impl U32Ext for u32 {
    open spec fn magnitude(self) -> u32 {
        self
    }

    fn bps(self) -> (r: Bps)
        ensures
            r.0 == self,
    {
        Bps(self)
    }

    fn hz(self) -> (r: Hertz)
        ensures
            r.0 == self,
    {
        Hertz(self)
    }

    fn khz(self) -> (r: KiloHertz)
        ensures
            r.0 == self,
    {
        KiloHertz(self)
    }

    fn mhz(self) -> (r: MegaHertz)
        ensures
            r.0 == self,
    {
        MegaHertz(self)
    }

    fn ms(self) -> (r: MilliSeconds)
        ensures
            r.0 == self,
    {
        MilliSeconds(self)
    }
}

impl PartialOrd for Bps {
    fn partial_cmp(&self, other: &Bps) -> (r: Option<Ordering>) {
        if self.0 < other.0 {
            Some(Ordering::Less)
        } else if self.0 == other.0 {
            Some(Ordering::Equal)
        } else {
            Some(Ordering::Greater)
        }
    }
}

impl vstd::std_specs::cmp::PartialOrdSpecImpl for Bps {
    open spec fn obeys_partial_cmp_spec() -> bool {
        true
    }

    open spec fn partial_cmp_spec(&self, other: &Bps) -> Option<Ordering> {
        magnitude_order(self.0, other.0)
    }
}

impl PartialOrd for Hertz {
    fn partial_cmp(&self, other: &Hertz) -> (r: Option<Ordering>) {
        if self.0 < other.0 {
            Some(Ordering::Less)
        } else if self.0 == other.0 {
            Some(Ordering::Equal)
        } else {
            Some(Ordering::Greater)
        }
    }
}

impl vstd::std_specs::cmp::PartialOrdSpecImpl for Hertz {
    open spec fn obeys_partial_cmp_spec() -> bool {
        true
    }

    open spec fn partial_cmp_spec(&self, other: &Hertz) -> Option<Ordering> {
        magnitude_order(self.0, other.0)
    }
}

impl PartialOrd for KiloHertz {
    fn partial_cmp(&self, other: &KiloHertz) -> (r: Option<Ordering>) {
        if self.0 < other.0 {
            Some(Ordering::Less)
        } else if self.0 == other.0 {
            Some(Ordering::Equal)
        } else {
            Some(Ordering::Greater)
        }
    }
}

impl vstd::std_specs::cmp::PartialOrdSpecImpl for KiloHertz {
    open spec fn obeys_partial_cmp_spec() -> bool {
        true
    }

    open spec fn partial_cmp_spec(&self, other: &KiloHertz) -> Option<Ordering> {
        magnitude_order(self.0, other.0)
    }
}

impl PartialOrd for MegaHertz {
    fn partial_cmp(&self, other: &MegaHertz) -> (r: Option<Ordering>) {
        if self.0 < other.0 {
            Some(Ordering::Less)
        } else if self.0 == other.0 {
            Some(Ordering::Equal)
        } else {
            Some(Ordering::Greater)
        }
    }
}

impl vstd::std_specs::cmp::PartialOrdSpecImpl for MegaHertz {
    open spec fn obeys_partial_cmp_spec() -> bool {
        true
    }

    open spec fn partial_cmp_spec(&self, other: &MegaHertz) -> Option<Ordering> {
        magnitude_order(self.0, other.0)
    }
}

impl PartialOrd for MilliSeconds {
    fn partial_cmp(&self, other: &MilliSeconds) -> (r: Option<Ordering>) {
        if self.0 < other.0 {
            Some(Ordering::Less)
        } else if self.0 == other.0 {
            Some(Ordering::Equal)
        } else {
            Some(Ordering::Greater)
        }
    }
}

impl vstd::std_specs::cmp::PartialOrdSpecImpl for MilliSeconds {
    open spec fn obeys_partial_cmp_spec() -> bool {
        true
    }

    open spec fn partial_cmp_spec(&self, other: &MilliSeconds) -> Option<Ordering> {
        magnitude_order(self.0, other.0)
    }
}

impl From<u32> for Hertz {
    fn from(t: u32) -> Hertz {
        t.hz()
    }
}

impl vstd::std_specs::convert::FromSpecImpl<u32> for Hertz {
    open spec fn obeys_from_spec() -> bool {
        true
    }

    open spec fn from_spec(t: u32) -> Hertz {
        Hertz(t)
    }
}

impl From<KiloHertz> for Hertz {
    fn from(khz: KiloHertz) -> Hertz {
        Hertz(khz.0.wrapping_mul(1_000))
    }
}

impl vstd::std_specs::convert::FromSpecImpl<KiloHertz> for Hertz {
    open spec fn obeys_from_spec() -> bool {
        true
    }

    open spec fn from_spec(khz: KiloHertz) -> Hertz {
        Hertz(scale_wrapped(khz.0, 1_000))
    }
}

impl From<MegaHertz> for Hertz {
    fn from(mhz: MegaHertz) -> Hertz {
        Hertz(mhz.0.wrapping_mul(1_000_000))
    }
}

impl vstd::std_specs::convert::FromSpecImpl<MegaHertz> for Hertz {
    open spec fn obeys_from_spec() -> bool {
        true
    }

    open spec fn from_spec(mhz: MegaHertz) -> Hertz {
        Hertz(scale_wrapped(mhz.0, 1_000_000))
    }
}

impl From<MegaHertz> for KiloHertz {
    fn from(mhz: MegaHertz) -> KiloHertz {
        KiloHertz(mhz.0.wrapping_mul(1_000))
    }
}

impl vstd::std_specs::convert::FromSpecImpl<MegaHertz> for KiloHertz {
    open spec fn obeys_from_spec() -> bool {
        true
    }

    open spec fn from_spec(mhz: MegaHertz) -> KiloHertz {
        KiloHertz(scale_wrapped(mhz.0, 1_000))
    }
}

/// Converting kilohertz to hertz multiplies the magnitude by 1000, with
/// unsigned 32-bit wraparound.
pub proof fn lemma_khz_to_hz_scales(khz: KiloHertz)
    ensures
        <Hertz as FromSpec<KiloHertz>>::from_spec(khz).0 == (khz.0 * 1_000) % 0x1_0000_0000,
{
}

/// Converting megahertz to hertz multiplies the magnitude by 1,000,000,
/// with unsigned 32-bit wraparound.
pub proof fn lemma_mhz_to_hz_scales(mhz: MegaHertz)
    ensures
        <Hertz as FromSpec<MegaHertz>>::from_spec(mhz).0 == (mhz.0 * 1_000_000) % 0x1_0000_0000,
{
}

/// Converting megahertz to kilohertz multiplies the magnitude by 1000, with
/// unsigned 32-bit wraparound.
pub proof fn lemma_mhz_to_khz_scales(mhz: MegaHertz)
    ensures
        <KiloHertz as FromSpec<MegaHertz>>::from_spec(mhz).0 == (mhz.0 * 1_000) % 0x1_0000_0000,
{
}

/// Converting megahertz to kilohertz and then to hertz yields the same value
/// as converting megahertz to hertz directly, whenever neither step wraps
/// around.
pub proof fn lemma_mhz_conversion_transitive(mhz: MegaHertz)
    requires
        mhz.0 * 1_000_000 < 0x1_0000_0000,
    ensures
        <Hertz as FromSpec<KiloHertz>>::from_spec(<KiloHertz as FromSpec<MegaHertz>>::from_spec(mhz))
            == <Hertz as FromSpec<MegaHertz>>::from_spec(mhz),
{
    assert(mhz.0 * 1_000 <= mhz.0 * 1_000_000) by (nonlinear_arith);
    let khz: u32 = scale_wrapped(mhz.0, 1_000);
    assert(khz == mhz.0 * 1_000);
    vstd::arithmetic::mul::lemma_mul_is_associative(mhz.0 as int, 1_000, 1_000);
    assert(khz * 1_000 == mhz.0 * 1_000_000);
}

/// Ordering on `Bps` agrees with the integer ordering of the magnitudes.
pub proof fn lemma_bps_order_consistent(a: Bps, b: Bps)
    ensures
        (a.partial_cmp_spec(&b) == Some(Ordering::Less)) <==> a.0 < b.0,
        (a.partial_cmp_spec(&b) == Some(Ordering::Equal)) <==> a.0 == b.0,
        (a.partial_cmp_spec(&b) == Some(Ordering::Greater)) <==> a.0 > b.0,
{
}

/// Ordering on `Hertz` agrees with the integer ordering of the magnitudes.
pub proof fn lemma_hertz_order_consistent(a: Hertz, b: Hertz)
    ensures
        (a.partial_cmp_spec(&b) == Some(Ordering::Less)) <==> a.0 < b.0,
        (a.partial_cmp_spec(&b) == Some(Ordering::Equal)) <==> a.0 == b.0,
        (a.partial_cmp_spec(&b) == Some(Ordering::Greater)) <==> a.0 > b.0,
{
}

/// Ordering on `KiloHertz` agrees with the integer ordering of the
/// magnitudes.
pub proof fn lemma_khz_order_consistent(a: KiloHertz, b: KiloHertz)
    ensures
        (a.partial_cmp_spec(&b) == Some(Ordering::Less)) <==> a.0 < b.0,
        (a.partial_cmp_spec(&b) == Some(Ordering::Equal)) <==> a.0 == b.0,
        (a.partial_cmp_spec(&b) == Some(Ordering::Greater)) <==> a.0 > b.0,
{
}

/// Ordering on `MegaHertz` agrees with the integer ordering of the
/// magnitudes.
pub proof fn lemma_mhz_order_consistent(a: MegaHertz, b: MegaHertz)
    ensures
        (a.partial_cmp_spec(&b) == Some(Ordering::Less)) <==> a.0 < b.0,
        (a.partial_cmp_spec(&b) == Some(Ordering::Equal)) <==> a.0 == b.0,
        (a.partial_cmp_spec(&b) == Some(Ordering::Greater)) <==> a.0 > b.0,
{
}

/// Ordering on `MilliSeconds` agrees with the integer ordering of the
/// magnitudes.
pub proof fn lemma_ms_order_consistent(a: MilliSeconds, b: MilliSeconds)
    ensures
        (a.partial_cmp_spec(&b) == Some(Ordering::Less)) <==> a.0 < b.0,
        (a.partial_cmp_spec(&b) == Some(Ordering::Equal)) <==> a.0 == b.0,
        (a.partial_cmp_spec(&b) == Some(Ordering::Greater)) <==> a.0 > b.0,
{
}

} // verus!
