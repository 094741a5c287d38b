use vstd::prelude::*;
use std::ops::Range;

verus! {

/// One of the two radio bands of the board.
#[derive(PartialEq, Eq, Structural, Debug, Clone, Copy)]
pub enum Band {
    HB,
    LB,
}

/// The name of a band as it appears in file names and in reports.
pub open spec fn band_name(b: Band) -> Seq<char> {
    match b {
        Band::HB => seq!['H', 'B'],
        Band::LB => seq!['L', 'B'],
    }
}

impl Band {
    /// The band's name, "HB" or "LB".
    pub fn name(&self) -> (r: String)
        ensures
            r@ == band_name(*self),
    {
        proof {
            reveal_strlit("HB");
            reveal_strlit("LB");
        }
        match self {
            Band::HB => String::from_str("HB"),
            Band::LB => String::from_str("LB"),
        }
    }
}

/// A gain stage, with the half-open range of byte values to sweep it over.
pub enum GainType {
    Fem(Range<u8>),
    Lna(Range<u8>),
    Vga(Range<u8>),
}

/// Which of the three stages a `GainType` is, ignoring its range.
#[derive(PartialEq, Eq, Structural, Debug, Clone, Copy)]
pub enum Stage {
    Fem,
    Lna,
    Vga,
}

impl GainType {
    pub open spec fn stage(&self) -> Stage {
        match self {
            GainType::Fem(_) => Stage::Fem,
            GainType::Lna(_) => Stage::Lna,
            GainType::Vga(_) => Stage::Vga,
        }
    }

    pub open spec fn range(&self) -> Range<u8> {
        match self {
            GainType::Fem(r) => *r,
            GainType::Lna(r) => *r,
            GainType::Vga(r) => *r,
        }
    }

    /// The range of values this stage is swept over.
    pub fn return_iter(&self) -> (r: Range<u8>)
        ensures
            r.start == self.range().start,
            r.end == self.range().end,
    {
        match self {
            GainType::Fem(item) => item.start..item.end,
            GainType::Lna(item) => item.start..item.end,
            GainType::Vga(item) => item.start..item.end,
        }
    }

    /// The same stage with an empty range.
    pub fn return_type(&self) -> (r: GainType)
        ensures
            r.stage() == self.stage(),
            r.range().start == 0,
            r.range().end == 0,
    {
        match self {
            GainType::Fem(_) => GainType::Fem(0..0),
            GainType::Lna(_) => GainType::Lna(0..0),
            GainType::Vga(_) => GainType::Vga(0..0),
        }
    }

    /// Which stage this is.
    pub fn get_stage(&self) -> (r: Stage)
        ensures
            r == self.stage(),
    {
        match self {
            GainType::Fem(_) => Stage::Fem,
            GainType::Lna(_) => Stage::Lna,
            GainType::Vga(_) => Stage::Vga,
        }
    }
}

/// A sweep of one gain stage on one band.
pub enum TestBand {
    HB(GainType),
    LB(GainType),
}

impl TestBand {
    pub open spec fn band(&self) -> Band {
        match self {
            TestBand::HB(_) => Band::HB,
            TestBand::LB(_) => Band::LB,
        }
    }

    pub open spec fn gain(&self) -> GainType {
        match self {
            TestBand::HB(g) => *g,
            TestBand::LB(g) => *g,
        }
    }

    /// The swept stage, with an empty range.
    pub fn return_gain_type(&self) -> (r: GainType)
        ensures
            r.stage() == self.gain().stage(),
            r.range().start == 0,
            r.range().end == 0,
    {
        match self {
            TestBand::HB(item) => item.return_type(),
            TestBand::LB(item) => item.return_type(),
        }
    }

    /// The swept stage, with an empty range.
    pub fn get_gain_type(&self) -> (r: GainType)
        ensures
            r.stage() == self.gain().stage(),
            r.range().start == 0,
            r.range().end == 0,
    {
        self.return_gain_type()
    }

    /// The values the sweep runs over.
    pub fn traverse(&self) -> (r: Range<u8>)
        ensures
            r.start == self.gain().range().start,
            r.end == self.gain().range().end,
    {
        match self {
            TestBand::HB(item) => item.return_iter(),
            TestBand::LB(item) => item.return_iter(),
        }
    }

    /// The band the sweep runs on.
    pub fn get_band(&self) -> (r: Band)
        ensures
            r == self.band(),
    {
        match self {
            TestBand::HB(_) => Band::HB,
            TestBand::LB(_) => Band::LB,
        }
    }
}

/// The index of the kernel's "phy" device of each band.
///
/// Each time a band is brought up, the driver registers a new phy whose index is
/// one past the largest index in use; this service tracks those indices.
pub struct GlobPhyNum {
    hb: u8,
    lb: u8,
}

impl GlobPhyNum {
    pub closed spec fn hb_spec(&self) -> nat {
        self.hb as nat
    }

    pub closed spec fn lb_spec(&self) -> nat {
        self.lb as nat
    }

    /// The indices at power-on: phy1 for the high band, phy0 for the low band.
    pub fn new() -> (r: GlobPhyNum)
        ensures
            r.hb_spec() == 1,
            r.lb_spec() == 0,
    {
        GlobPhyNum { hb: 1, lb: 0 }
    }

    /// The phy index of the high band.
    pub fn hb(&self) -> (r: u8)
        ensures
            r == self.hb_spec(),
    {
        self.hb
    }

    /// The phy index of the low band.
    pub fn lb(&self) -> (r: u8)
        ensures
            r == self.lb_spec(),
    {
        self.lb
    }

    /// Records that the high band was brought up again.
    pub fn add_hb(&mut self)
        requires
            old(self).hb_spec() < 255,
            old(self).lb_spec() < 255,
        ensures
            final(self).hb_spec() == vstd::math::max(old(self).hb_spec() as int, old(self).lb_spec() as int) + 1,
            final(self).lb_spec() == old(self).lb_spec(),
    {
        let m = if self.hb >= self.lb { self.hb } else { self.lb };
        self.hb = m + 1;
    }

    /// Records that the low band was brought up again.
    pub fn add_lb(&mut self)
        requires
            old(self).hb_spec() < 255,
            old(self).lb_spec() < 255,
        ensures
            final(self).lb_spec() == vstd::math::max(old(self).hb_spec() as int, old(self).lb_spec() as int) + 1,
            final(self).hb_spec() == old(self).hb_spec(),
    {
        let m = if self.lb >= self.hb { self.lb } else { self.hb };
        self.lb = m + 1;
    }

    pub open spec fn phy_spec(&self, band: Band) -> nat {
        match band {
            Band::HB => self.hb_spec(),
            Band::LB => self.lb_spec(),
        }
    }

    /// The phy index of `band`.
    pub fn phy(&self, band: Band) -> (r: u8)
        ensures
            r == self.phy_spec(band),
    {
        match band {
            Band::HB => self.hb,
            Band::LB => self.lb,
        }
    }

    /// Records that `band` was brought up again, when its new index fits in a
    /// byte; otherwise leaves the indices as they are and returns false.
    pub fn try_advance(&mut self, band: Band) -> (r: bool)
        ensures
            r == (vstd::math::max(old(self).hb_spec() as int, old(self).lb_spec() as int) < 255),
            r ==> final(self).phy_spec(band) == vstd::math::max(
                old(self).hb_spec() as int,
                old(self).lb_spec() as int,
            ) + 1,
            r ==> forall|b: Band| b != band ==> final(self).phy_spec(b) == old(self).phy_spec(b),
            !r ==> final(self).hb_spec() == old(self).hb_spec() && final(self).lb_spec()
                == old(self).lb_spec(),
    {
        if self.hb < 255 && self.lb < 255 {
            self.advance(band);
            true
        } else {
            false
        }
    }

    /// Records that `band` was brought up again.
    pub fn advance(&mut self, band: Band)
        requires
            old(self).hb_spec() < 255,
            old(self).lb_spec() < 255,
        ensures
            final(self).phy_spec(band) == vstd::math::max(old(self).hb_spec() as int, old(self).lb_spec() as int) + 1,
            forall|b: Band| b != band ==> final(self).phy_spec(b) == old(self).phy_spec(b),
    {
        match band {
            Band::HB => self.add_hb(),
            Band::LB => self.add_lb(),
        }
    }
}

} // verus!
