use vstd::prelude::*;
use crate::lock::{Lock, LockModel};

verus! {

/// A free-text note of a team.
#[derive(Clone, Debug, PartialEq, Eq, Hash, Default)]
pub struct Note {
    pub team: u32,
    pub name: String,
    pub content: String,
}

/// A member of a team: a name and a role. Duplicates are allowed.
#[derive(Clone, Debug, PartialEq, Eq, Hash, Default)]
pub struct Person {
    pub team: u32,
    pub name: String,
    pub role: String,
}

/// Whether a robot is in service.
#[derive(Clone, Copy, Debug, PartialEq, Eq, Structural, Hash)]
pub enum RobotStatus {
    Active,
    Inactive,
}

impl Default for RobotStatus {
    fn default() -> (r: RobotStatus)
        ensures
            r == RobotStatus::Active,
    {
        RobotStatus::Active
    }
}

/// An autonomous routine of a robot and the points it scores.
#[derive(Clone, Debug, PartialEq, Eq, Hash, Default)]
pub struct RobotAuton {
    pub robot: String,
    pub points: i32,
    pub description: String,
}

/// A robot of a team, with its image names and autonomous routines.
#[derive(Clone, Debug, PartialEq, Eq, Hash, Default)]
pub struct Robot {
    pub team: u32,
    pub images: Vec<String>,
    pub status: RobotStatus,
    pub features: String,
    pub autons: Vec<RobotAuton>,
}

/// Where a social account lives.
#[derive(Clone, Copy, Debug, PartialEq, Eq, Structural, Hash)]
pub enum SocialPlatform {
    Instagram,
    Youtube,
}

/// A team's account on a social platform.
#[derive(Clone, Debug, PartialEq, Eq, Hash)]
pub struct SocialAcc {
    pub platform: SocialPlatform,
    pub url: String,
    pub name: String,
    pub profile_pic_url: Option<String>,
}

/// Largest magnitude of a coordinate, in millionths of a degree.
pub const COORD_LIMIT: i32 = 180_000_000;

/// Where a team is based. Latitude and longitude are held in millionths of a
/// degree, each within `[-COORD_LIMIT, COORD_LIMIT]`.
#[derive(Clone, Debug, PartialEq, Eq, Hash)]
pub struct Location {
    pub city: String,
    pub region: Option<String>,
    pub postcode: Option<String>,
    pub country: String,
    pub latitude: i32,
    pub longitude: i32,
}

/// The identity and profile of a team.
#[derive(Clone, Debug, PartialEq, Eq, Hash, Default)]
pub struct TeamData {
    pub id: u32,
    pub number: String,
    pub name: String,
    pub organization: Option<String>,
    pub location: Location,
    pub socials: Vec<SocialAcc>,
}

/// The collaboratively edited part of a team's record, guarded by `lock`.
#[derive(Clone, Debug, PartialEq, Eq, Hash, Default)]
pub struct TeamNotes {
    pub robots: Vec<Robot>,
    pub members: Vec<Person>,
    pub entries: Vec<Note>,
    pub driving: String,
    pub strategy: String,
    pub notes: String,
    pub lock: Lock,
}

/// A team's record in the current schema.
#[derive(Clone, Debug, PartialEq, Eq, Hash, Default)]
pub struct Team {
    pub data: TeamData,
    pub notes: TeamNotes,
}

pub struct RobotModel {
    pub team: u32,
    pub images: Seq<Seq<char>>,
    pub status: RobotStatus,
    pub features: Seq<char>,
    pub autons: Seq<RobotAuton>,
}

impl View for Robot {
    type V = RobotModel;

    open spec fn view(&self) -> RobotModel {
        RobotModel {
            team: self.team,
            images: self.images@.map_values(|s: String| s@),
            status: self.status,
            features: self.features@,
            autons: self.autons@,
        }
    }
}

pub struct LocationModel {
    pub city: Seq<char>,
    pub region: Option<Seq<char>>,
    pub postcode: Option<Seq<char>>,
    pub country: Seq<char>,
    pub latitude: int,
    pub longitude: int,
}

pub open spec fn opt_view(s: Option<String>) -> Option<Seq<char>> {
    match s {
        Some(t) => Some(t@),
        None => None,
    }
}

impl View for Location {
    type V = LocationModel;

    open spec fn view(&self) -> LocationModel {
        LocationModel {
            city: self.city@,
            region: opt_view(self.region),
            postcode: opt_view(self.postcode),
            country: self.country@,
            latitude: self.latitude as int,
            longitude: self.longitude as int,
        }
    }
}

impl LocationModel {
    /// The location a record gets when it had none: empty text, no region or
    /// postcode, coordinates at zero.
    pub open spec fn empty() -> LocationModel {
        LocationModel {
            city: Seq::empty(),
            region: None,
            postcode: None,
            country: Seq::empty(),
            latitude: 0,
            longitude: 0,
        }
    }

    pub open spec fn valid(self) -> bool {
        -COORD_LIMIT <= self.latitude <= COORD_LIMIT && -COORD_LIMIT <= self.longitude
            <= COORD_LIMIT
    }
}

impl Default for Location {
    fn default() -> (r: Location)
        ensures
            r@ == LocationModel::empty(),
    {
        Location {
            city: String::new(),
            region: None,
            postcode: None,
            country: String::new(),
            latitude: 0,
            longitude: 0,
        }
    }
}

pub struct SocialAccModel {
    pub platform: SocialPlatform,
    pub url: Seq<char>,
    pub name: Seq<char>,
    pub profile_pic_url: Option<Seq<char>>,
}

impl View for SocialAcc {
    type V = SocialAccModel;

    open spec fn view(&self) -> SocialAccModel {
        SocialAccModel {
            platform: self.platform,
            url: self.url@,
            name: self.name@,
            profile_pic_url: opt_view(self.profile_pic_url),
        }
    }
}

pub struct TeamDataModel {
    pub id: u32,
    pub number: Seq<char>,
    pub name: Seq<char>,
    pub organization: Option<Seq<char>>,
    pub location: LocationModel,
    pub socials: Seq<SocialAccModel>,
}

impl View for TeamData {
    type V = TeamDataModel;

    open spec fn view(&self) -> TeamDataModel {
        TeamDataModel {
            id: self.id,
            number: self.number@,
            name: self.name@,
            organization: opt_view(self.organization),
            location: self.location@,
            socials: self.socials@.map_values(|a: SocialAcc| a@),
        }
    }
}

pub struct TeamNotesModel {
    pub robots: Seq<RobotModel>,
    pub members: Seq<Person>,
    pub entries: Seq<Note>,
    pub driving: Seq<char>,
    pub strategy: Seq<char>,
    pub notes: Seq<char>,
    pub lock: LockModel,
}

impl View for TeamNotes {
    type V = TeamNotesModel;

    open spec fn view(&self) -> TeamNotesModel {
        TeamNotesModel {
            robots: self.robots@.map_values(|r: Robot| r@),
            members: self.members@,
            entries: self.entries@,
            driving: self.driving@,
            strategy: self.strategy@,
            notes: self.notes@,
            lock: self.lock@,
        }
    }
}

pub struct TeamModel {
    pub data: TeamDataModel,
    pub notes: TeamNotesModel,
}

impl View for Team {
    type V = TeamModel;

    open spec fn view(&self) -> TeamModel {
        TeamModel { data: self.data@, notes: self.notes@ }
    }
}

impl TeamModel {
    /// A well-formed team: its location is in range.
    pub open spec fn valid(self) -> bool {
        self.data.location.valid()
    }
}

impl TeamNotesModel {
    /// Notes of a new team: no entities, empty text, unlocked.
    pub open spec fn empty() -> TeamNotesModel {
        TeamNotesModel {
            robots: Seq::empty(),
            members: Seq::empty(),
            entries: Seq::empty(),
            driving: Seq::empty(),
            strategy: Seq::empty(),
            notes: Seq::empty(),
            lock: LockModel::Unlocked,
        }
    }
}

impl TeamNotes {
    /// Notes of a new team: no entities, empty text, unlocked.
    pub fn new() -> (r: TeamNotes)
        ensures
            r@ == TeamNotesModel::empty(),
    {
        let r = TeamNotes {
            robots: Vec::new(),
            members: Vec::new(),
            entries: Vec::new(),
            driving: String::new(),
            strategy: String::new(),
            notes: String::new(),
            lock: Lock::Unlocked,
        };
        assert(r@.robots =~= Seq::<RobotModel>::empty());
        r
    }
}

impl Team {
    /// The record of a newly registered team: its identity, and notes that
    /// start empty and unlocked.
    pub fn new(data: TeamData) -> (r: Team)
        ensures
            r@ == (TeamModel { data: data@, notes: TeamNotesModel::empty() }),
    {
        Team { data, notes: TeamNotes::new() }
    }
}

} // verus!
