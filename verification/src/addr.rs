//! The addressing resolver: maps a directive to the grid location or
//! external port each input rail of a gate is bound to.

use vstd::prelude::*;

verus! {

/// An absolute grid position, as a signed coordinate pair. Bounds checking
/// against a concrete grid is the circuit builder's responsibility, not
/// the resolver's.
#[derive(Clone, Copy, Debug, PartialEq, Eq, Structural)]
pub struct Loc {
    pub lat: i64,
    pub lon: i64,
}

/// An addressing directive: where a gate's reference location moves, or
/// which external port one of its rails is bound to.
#[derive(Clone, Copy, Debug, PartialEq, Eq, Structural)]
pub enum ModOp {
    /// Replace the latitude of the reference location outright.
    LocaleLat(i16),
    /// Replace both coordinates of the reference location outright.
    LocaleLatLon(i16, i16),
    /// Shift the latitude by a signed offset.
    JumperLat(i16),
    /// Shift the longitude by a signed offset.
    JumperLon(i16),
    /// Bind rail A to the external input port with this index.
    PortIn(u16),
    /// Drive rail A to the external output port with this index.
    PortOut(u16),
}

/// What one rail is bound to after resolution: the output last written at
/// a grid location during the opposite phase, or an external port.
#[derive(Clone, Copy, Debug, PartialEq, Eq, Structural)]
pub enum RailBinding {
    /// Read the node at this location; a location never written in the
    /// required phase reads as floating, not as a fault.
    Grid(Loc),
    /// Read the external input port with this index.
    ReadPort(u16),
    /// Drive the external output port with this index.
    WritePort(u16),
}

/// The outcome of one directive: a gate's reference location after it,
/// and the binding of each input rail.
#[derive(Clone, Copy, Debug, PartialEq, Eq, Structural)]
pub struct Resolution {
    pub loc: Loc,
    pub rail_a: RailBinding,
    pub rail_b: RailBinding,
}

impl ModOp {
    /// The latitude of the reference location after this directive, as an
    /// unbounded integer. Port directives leave the location untouched.
    pub open spec fn target_lat(self, cur: Loc) -> int {
        match self {
            ModOp::LocaleLat(x) => x as int,
            ModOp::LocaleLatLon(x, _) => x as int,
            ModOp::JumperLat(d) => cur.lat + d,
            ModOp::JumperLon(_) => cur.lat as int,
            ModOp::PortIn(_) => cur.lat as int,
            ModOp::PortOut(_) => cur.lat as int,
        }
    }

    /// The longitude of the reference location after this directive.
    pub open spec fn target_lon(self, cur: Loc) -> int {
        match self {
            ModOp::LocaleLat(_) => cur.lon as int,
            ModOp::LocaleLatLon(_, y) => y as int,
            ModOp::JumperLat(_) => cur.lon as int,
            ModOp::JumperLon(d) => cur.lon + d,
            ModOp::PortIn(_) => cur.lon as int,
            ModOp::PortOut(_) => cur.lon as int,
        }
    }

    /// The shifted location still lies inside the coordinate type. Only a
    /// relative directive at the very edge of the coordinate range can
    /// leave it; the builder never constructs such a circuit.
    pub open spec fn fits(self, cur: Loc) -> bool {
        &&& i64::MIN <= self.target_lat(cur) <= i64::MAX
        &&& i64::MIN <= self.target_lon(cur) <= i64::MAX
    }

    /// Resolve this directive against the current reference location.
    ///
    /// A locale or jumper directive moves the reference location and binds
    /// both rails to the node there. A port directive leaves the location
    /// alone, binds rail A to the named external port, and keeps rail B on
    /// the node at the current location.
    pub fn resolve(self, cur: Loc) -> (r: Resolution)
        requires
            self.fits(cur),
        ensures
            r.loc.lat == self.target_lat(cur),
            r.loc.lon == self.target_lon(cur),
            match self {
                ModOp::PortIn(p) => r.rail_a == RailBinding::ReadPort(p)
                    && r.rail_b == RailBinding::Grid(cur),
                ModOp::PortOut(p) => r.rail_a == RailBinding::WritePort(p)
                    && r.rail_b == RailBinding::Grid(cur),
                _ => r.rail_a == RailBinding::Grid(r.loc) && r.rail_b == RailBinding::Grid(r.loc),
            },
    {
        match self {
            ModOp::LocaleLat(x) => {
                let loc = Loc { lat: x as i64, lon: cur.lon };
                Resolution { loc, rail_a: RailBinding::Grid(loc), rail_b: RailBinding::Grid(loc) }
            },
            ModOp::LocaleLatLon(x, y) => {
                let loc = Loc { lat: x as i64, lon: y as i64 };
                Resolution { loc, rail_a: RailBinding::Grid(loc), rail_b: RailBinding::Grid(loc) }
            },
            ModOp::JumperLat(d) => {
                let loc = Loc { lat: cur.lat + d as i64, lon: cur.lon };
                Resolution { loc, rail_a: RailBinding::Grid(loc), rail_b: RailBinding::Grid(loc) }
            },
            ModOp::JumperLon(d) => {
                let loc = Loc { lat: cur.lat, lon: cur.lon + d as i64 };
                Resolution { loc, rail_a: RailBinding::Grid(loc), rail_b: RailBinding::Grid(loc) }
            },
            ModOp::PortIn(p) => Resolution {
                loc: cur,
                rail_a: RailBinding::ReadPort(p),
                rail_b: RailBinding::Grid(cur),
            },
            ModOp::PortOut(p) => Resolution {
                loc: cur,
                rail_a: RailBinding::WritePort(p),
                rail_b: RailBinding::Grid(cur),
            },
        }
    }
}

/// A latitude jumper of `k` followed by one of `-k` returns to the
/// original latitude, and never moves the longitude.
pub proof fn lemma_jumper_lat_round_trip(origin: Loc, mid: Loc, k: i16, back: i16)
    requires
        back as int == -(k as int),
        mid.lat as int == ModOp::JumperLat(k).target_lat(origin),
        mid.lon as int == ModOp::JumperLat(k).target_lon(origin),
    ensures
        ModOp::JumperLat(back).target_lat(mid) == origin.lat as int,
        ModOp::JumperLat(back).target_lon(mid) == origin.lon as int,
        ModOp::JumperLat(back).fits(mid),
{
}

/// An absolute locale directive resolves to the same location whatever the
/// reference location was before the call.
pub proof fn lemma_locale_ignores_origin(cur1: Loc, cur2: Loc, x: i16, y: i16)
    ensures
        ModOp::LocaleLatLon(x, y).target_lat(cur1) == ModOp::LocaleLatLon(x, y).target_lat(cur2),
        ModOp::LocaleLatLon(x, y).target_lon(cur1) == ModOp::LocaleLatLon(x, y).target_lon(cur2),
        ModOp::LocaleLatLon(x, y).target_lat(cur1) == x as int,
        ModOp::LocaleLatLon(x, y).target_lon(cur1) == y as int,
{
}

} // verus!
