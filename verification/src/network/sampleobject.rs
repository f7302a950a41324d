//! Value types for simulated objects and server metadata.
//!
//! Every number that the server reports as a real (a position, a radius, a
//! capacity) is held as an `i64` in thousandths of a world unit.

use vstd::prelude::*;

verus! {

/// Name, status and tick rate of a server.
#[derive(Clone, Debug)]
pub struct ServerInfo {
    pub name: String,
    pub status: String,
    pub tps: u16,
}

impl ServerInfo {
    /// Overwrites every field with that of `new_info`.
    pub fn replace(&mut self, new_info: ServerInfo)
        ensures
            *final(self) == new_info,
    {
        self.name = new_info.name;
        self.status = new_info.status;
        self.tps = new_info.tps;
    }
}

/// Width and height of the simulated world, in thousandths of a world unit.
#[derive(Clone, Copy, Debug, PartialEq, Eq, Structural)]
pub struct WorldSize {
    pub width: i64,
    pub height: i64,
}

impl WorldSize {
    /// Overwrites both extents with those of `new_size`.
    pub fn replace(&mut self, new_size: WorldSize)
        ensures
            *final(self) == new_size,
    {
        self.width = new_size.width;
        self.height = new_size.height;
    }
}

/// What kind of thing an object is.
#[derive(Clone, Copy, Debug, PartialEq, Eq, Structural)]
pub enum ObjectType {
    Asteroid,
    Builder,
    Harvester,
    Battlecruiser,
}

/// The radar that an object carries.
#[derive(Clone, Copy, Debug, PartialEq, Eq, Structural)]
pub enum RadarType {
    /// No radar is fitted.
    NoRadar,
    Simple,
    Middle,
    Military,
}

/// The weapon that an object carries.
#[derive(Clone, Copy, Debug, PartialEq, Eq, Structural)]
pub enum WeaponType {
    /// No weapon is fitted.
    NoWeapon,
    Mining,
    Laser,
}

/// The hold that an object carries.
#[derive(Clone, Copy, Debug, PartialEq, Eq, Structural)]
pub enum CargoType {
    /// No hold is fitted.
    NoCargo,
    Mining,
    Battery,
}

/// The shell that protects an object.
#[derive(Clone, Copy, Debug, PartialEq, Eq, Structural)]
pub enum ArmorType {
    Asteroid,
    Light,
    Middle,
    Heavy,
    Building,
}

/// One record of a bulk listing: the part of an object that the registry keeps.
#[derive(Clone, Debug)]
pub struct ObjectResponse {
    pub name: String,
    pub owner: String,
    pub x: i64,
    pub y: i64,
    pub otype: ObjectType,
}

/// The body of a detail request: the name of the object asked for.
#[derive(Clone, Debug)]
pub struct ObjectInfoRequest {
    pub name: String,
}

/// The full description of one simulated object.
///
/// Decoding enforces neither `0 <= cargo_current <= cargo_max` nor any tie
/// between `weapon_active` and `weapon_type`; `cargo_in_range` states the
/// first for callers that rely on it.
#[derive(Clone, Debug)]
pub struct SampleObject {
    pub owner: String,
    pub name: String,
    pub otype: ObjectType,
    pub x: i64,
    pub y: i64,
    pub drive_speed: i64,
    pub drive_dest_x: i64,
    pub drive_dest_y: i64,
    pub radar_radius: i64,
    pub radar_type: RadarType,
    pub weapon_active: bool,
    pub weapon_type: WeaponType,
    pub weapon_radius: i64,
    pub weapon_target_x: i64,
    pub weapon_target_y: i64,
    pub cargo_type: CargoType,
    pub cargo_max: i64,
    pub cargo_current: i64,
    pub shell_health: i64,
    pub shell_type: ArmorType,
}

impl SampleObject {
    /// The cargo hold is filled to no less than nothing and no more than its capacity.
    pub open spec fn cargo_in_range(self) -> bool {
        0 <= self.cargo_current <= self.cargo_max
    }

    /// The weapon is active only where there is one.
    pub open spec fn weapon_consistent(self) -> bool {
        self.weapon_active ==> self.weapon_type != WeaponType::NoWeapon
    }

    /// Says whether this object meets what decoding does not enforce: a
    /// cargo within its capacity, and no active weapon where none is fitted.
    pub fn is_valid(&self) -> (valid: bool)
        ensures
            valid == (self.cargo_in_range() && self.weapon_consistent()),
    {
        let weapon_ok = match self.weapon_type {
            WeaponType::NoWeapon => !self.weapon_active,
            _ => true,
        };
        0 <= self.cargo_current && self.cargo_current <= self.cargo_max && weapon_ok
    }

    /// The object that stands for "nothing selected".
    pub open spec fn is_empty_object(self) -> bool {
        &&& self.owner@ == "none"@
        &&& self.name@ == "none"@
        &&& self.otype == ObjectType::Asteroid
        &&& self.x == 0
        &&& self.y == 0
        &&& self.drive_speed == 0
        &&& self.drive_dest_x == 0
        &&& self.drive_dest_y == 0
        &&& self.radar_radius == 0
        &&& self.radar_type == RadarType::NoRadar
        &&& !self.weapon_active
        &&& self.weapon_type == WeaponType::NoWeapon
        &&& self.weapon_radius == 0
        &&& self.weapon_target_x == 0
        &&& self.weapon_target_y == 0
        &&& self.cargo_type == CargoType::NoCargo
        &&& self.cargo_max == 0
        &&& self.cargo_current == 0
        &&& self.shell_health == 0
        &&& self.shell_type == ArmorType::Asteroid
    }

    /// An asteroid named "none" that belongs to "none", at the origin, with
    /// every number zero and every piece of equipment absent.
    pub fn new_empty() -> (obj: Self)
        ensures
            obj.is_empty_object(),
            obj.cargo_in_range(),
            obj.weapon_consistent(),
    {
        SampleObject {
            owner: "none".to_owned(),
            name: "none".to_owned(),
            otype: ObjectType::Asteroid,
            x: 0,
            y: 0,
            drive_speed: 0,
            drive_dest_x: 0,
            drive_dest_y: 0,
            radar_radius: 0,
            radar_type: RadarType::NoRadar,
            weapon_active: false,
            weapon_type: WeaponType::NoWeapon,
            weapon_radius: 0,
            weapon_target_x: 0,
            weapon_target_y: 0,
            cargo_type: CargoType::NoCargo,
            cargo_max: 0,
            cargo_current: 0,
            shell_health: 0,
            shell_type: ArmorType::Asteroid,
        }
    }

    /// Puts `new` in the place of this object.
    pub fn replace_object(&mut self, new: SampleObject)
        ensures
            *final(self) == new,
    {
        *self = new;
    }
}

impl ObjectType {
    /// The fixed name under which this kind is shown.
    pub open spec fn display_name(self) -> Seq<char> {
        match self {
            ObjectType::Asteroid => "Asteroid"@,
            ObjectType::Builder => "Builder"@,
            ObjectType::Harvester => "Harvester"@,
            ObjectType::Battlecruiser => "Battlecruiser"@,
        }
    }

    /// The display name as an owned string.
    pub fn to_string(&self) -> (s: String)
        ensures
            s@ == self.display_name(),
    {
        match *self {
            ObjectType::Asteroid => "Asteroid".to_owned(),
            ObjectType::Builder => "Builder".to_owned(),
            ObjectType::Harvester => "Harvester".to_owned(),
            ObjectType::Battlecruiser => "Battlecruiser".to_owned(),
        }
    }
}

impl RadarType {
    /// The fixed name under which this kind is shown.
    pub open spec fn display_name(self) -> Seq<char> {
        match self {
            RadarType::NoRadar => "None"@,
            RadarType::Simple => "Simple"@,
            RadarType::Middle => "Middle"@,
            RadarType::Military => "Military"@,
        }
    }

    /// The display name as an owned string.
    pub fn to_string(&self) -> (s: String)
        ensures
            s@ == self.display_name(),
    {
        match *self {
            RadarType::NoRadar => "None".to_owned(),
            RadarType::Middle => "Middle".to_owned(),
            RadarType::Military => "Military".to_owned(),
            RadarType::Simple => "Simple".to_owned(),
        }
    }
}

impl WeaponType {
    /// The fixed name under which this kind is shown.
    pub open spec fn display_name(self) -> Seq<char> {
        match self {
            WeaponType::NoWeapon => "None"@,
            WeaponType::Mining => "Mining"@,
            WeaponType::Laser => "Laser"@,
        }
    }

    /// The display name as an owned string.
    pub fn to_string(&self) -> (s: String)
        ensures
            s@ == self.display_name(),
    {
        match *self {
            WeaponType::NoWeapon => "None".to_owned(),
            WeaponType::Laser => "Laser".to_owned(),
            WeaponType::Mining => "Mining".to_owned(),
        }
    }
}

impl CargoType {
    /// The fixed name under which this kind is shown.
    pub open spec fn display_name(self) -> Seq<char> {
        match self {
            CargoType::NoCargo => "None"@,
            CargoType::Mining => "Mining"@,
            CargoType::Battery => "Battery"@,
        }
    }

    /// The display name as an owned string.
    pub fn to_string(&self) -> (s: String)
        ensures
            s@ == self.display_name(),
    {
        match *self {
            CargoType::NoCargo => "None".to_owned(),
            CargoType::Battery => "Battery".to_owned(),
            CargoType::Mining => "Mining".to_owned(),
        }
    }
}

impl ArmorType {
    /// The fixed name under which this kind is shown.
    pub open spec fn display_name(self) -> Seq<char> {
        match self {
            ArmorType::Asteroid => "Asteroid"@,
            ArmorType::Light => "Light"@,
            ArmorType::Middle => "Middle"@,
            ArmorType::Heavy => "Heavy"@,
            ArmorType::Building => "Building"@,
        }
    }

    /// The display name as an owned string.
    pub fn to_string(&self) -> (s: String)
        ensures
            s@ == self.display_name(),
    {
        match *self {
            ArmorType::Asteroid => "Asteroid".to_owned(),
            ArmorType::Building => "Building".to_owned(),
            ArmorType::Heavy => "Heavy".to_owned(),
            ArmorType::Light => "Light".to_owned(),
            ArmorType::Middle => "Middle".to_owned(),
        }
    }
}

} // verus!
