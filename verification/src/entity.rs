//! Entities and their components.
//!
//! An entity is an opaque identity carrying a set of independently
//! attachable components: a transform (position), a velocity, a bounding
//! box used for overlap tests, a fuel scalar, and four marker tags
//! (player, rigid, wrap-around, pickup cell).  Presence flags say which
//! components an entity carries; a component's value is meaningful only
//! while its flag is set.
//!
//! Units: positions and box extents in micro-units, velocities in
//! milli-units per second, fuel in milli-units.

use vstd::prelude::*;

verus! {

/// Mathematical model of one entity: the same record over unbounded
/// integers, which the contracts of every system speak about.
#[verifier::ext_equal]
pub ghost struct EModel {
    pub id: int,
    /// Position (micro-units); meaningful iff `has_pos`.
    pub px: int,
    pub py: int,
    /// Velocity (milli-units per second); meaningful iff `has_vel`.
    pub vx: int,
    pub vy: int,
    /// Bounding-box full extents (micro-units); meaningful iff `has_box`.
    pub bx: int,
    pub by: int,
    /// Fuel (milli-units); meaningful iff `has_fuel`.
    pub fuel: int,
    pub has_pos: bool,
    pub has_vel: bool,
    pub has_box: bool,
    pub has_fuel: bool,
    pub player: bool,
    pub rigid: bool,
    pub wrap: bool,
    pub pickup: bool,
}

/// One entity of the store, as executable data.
#[derive(Clone, Copy, Debug, PartialEq, Eq, Structural)]
pub struct Entity {
    pub id: u64,
    pub px: i64,
    pub py: i64,
    pub vx: i64,
    pub vy: i64,
    pub bx: i64,
    pub by: i64,
    pub fuel: i64,
    pub has_pos: bool,
    pub has_vel: bool,
    pub has_box: bool,
    pub has_fuel: bool,
    pub player: bool,
    pub rigid: bool,
    pub wrap: bool,
    pub pickup: bool,
}

impl View for Entity {
    type V = EModel;

    open spec fn view(&self) -> EModel {
        EModel {
            id: self.id as int,
            px: self.px as int,
            py: self.py as int,
            vx: self.vx as int,
            vy: self.vy as int,
            bx: self.bx as int,
            by: self.by as int,
            fuel: self.fuel as int,
            has_pos: self.has_pos,
            has_vel: self.has_vel,
            has_box: self.has_box,
            has_fuel: self.has_fuel,
            player: self.player,
            rigid: self.rigid,
            wrap: self.wrap,
            pickup: self.pickup,
        }
    }
}

/// The models of a sequence of entities, elementwise.
pub open spec fn models(s: Seq<Entity>) -> Seq<EModel> {
    s.map_values(|e: Entity| e@)
}

impl Entity {
    /// An entity with no components attached; builders start from this.
    pub fn blank() -> (e: Entity)
        ensures
            e@ == blank_model(),
    {
        Entity {
            id: 0,
            px: 0,
            py: 0,
            vx: 0,
            vy: 0,
            bx: 0,
            by: 0,
            fuel: 0,
            has_pos: false,
            has_vel: false,
            has_box: false,
            has_fuel: false,
            player: false,
            rigid: false,
            wrap: false,
            pickup: false,
        }
    }
}

/// Model of the blank entity.
pub open spec fn blank_model() -> EModel {
    EModel {
        id: 0,
        px: 0,
        py: 0,
        vx: 0,
        vy: 0,
        bx: 0,
        by: 0,
        fuel: 0,
        has_pos: false,
        has_vel: false,
        has_box: false,
        has_fuel: false,
        player: false,
        rigid: false,
        wrap: false,
        pickup: false,
    }
}

} // verus!
