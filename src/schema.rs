use vstd::prelude::*;
use crate::lock::{Lock, LockModel};
use crate::model::{
    opt_view, Note, Person, RobotStatus, SocialPlatform, Team, TeamModel,
    TeamNotes, TeamNotesModel,
};

verus! {

/// The newest schema version; records are upgraded towards it.
pub const LATEST_VERSION: u32 = 5;

/// A robot as the first schemas stored it: all images in one string.
#[derive(Clone, Debug, PartialEq, Eq, Hash, Default)]
pub struct RobotV1 {
    pub team: u32,
    pub images: String,
    pub status: RobotStatus,
    pub features: String,
}

/// A social account before profile pictures were recorded.
#[derive(Clone, Debug, PartialEq, Eq, Hash)]
pub struct SocialAccV1 {
    pub platform: SocialPlatform,
    pub url: String,
    pub name: String,
}

/// Team identity in versions 1 and 2: a required organization and no name.
#[derive(Clone, Debug, PartialEq, Eq, Hash, Default)]
pub struct TeamDataV1 {
    pub id: u32,
    pub number: String,
    pub organization: String,
    pub socials: Vec<SocialAccV1>,
}

/// Team identity in versions 3 and 4: a name, an optional organization, no
/// location yet.
#[derive(Clone, Debug, PartialEq, Eq, Hash, Default)]
pub struct TeamDataV3 {
    pub id: u32,
    pub number: String,
    pub name: String,
    pub organization: Option<String>,
    pub socials: Vec<SocialAccV1>,
}

/// A team as version 1 stored it: its identity and the lock on its notes.
#[derive(Clone, Debug, PartialEq, Eq, Hash, Default)]
pub struct TeamV1 {
    pub data: TeamDataV1,
    pub lock: Lock,
}

/// Version 1: a store of teams, with notes, members and robots standing
/// beside them, each tagged with the id of the team it belongs to.
#[derive(Clone, Debug, PartialEq, Eq, Hash, Default)]
pub struct RecordV1 {
    pub teams: Vec<TeamV1>,
    pub notes: Vec<Note>,
    pub members: Vec<Person>,
    pub robots: Vec<RobotV1>,
}

/// Notes of versions 2 and 3, nested under the team, robots still of the
/// single-string shape.
#[derive(Clone, Debug, PartialEq, Eq, Hash, Default)]
pub struct TeamNotesV2 {
    pub robots: Vec<RobotV1>,
    pub members: Vec<Person>,
    pub entries: Vec<Note>,
    pub driving: String,
    pub strategy: String,
    pub notes: String,
    pub lock: Lock,
}

/// A team in version 2: its entities nested under its notes.
#[derive(Clone, Debug, PartialEq, Eq, Hash, Default)]
pub struct RecordV2 {
    pub data: TeamDataV1,
    pub notes: TeamNotesV2,
}

/// A team in version 3: name added, organization optional.
#[derive(Clone, Debug, PartialEq, Eq, Hash, Default)]
pub struct RecordV3 {
    pub data: TeamDataV3,
    pub notes: TeamNotesV2,
}

/// A team in version 4: robot images as a list, autonomous routines added.
#[derive(Clone, Debug, PartialEq, Eq, Hash, Default)]
pub struct RecordV4 {
    pub data: TeamDataV3,
    pub notes: TeamNotes,
}

/// A stored record together with the schema version it was written in.
/// Version 1 is a flat store; from version 2 on a record is a list of teams,
/// and version 5 is the current shape, `Team`.
#[derive(Clone, Debug, PartialEq, Eq, Hash)]
pub enum VersionedRecord {
    V1(RecordV1),
    V2(Vec<RecordV2>),
    V3(Vec<RecordV3>),
    V4(Vec<RecordV4>),
    V5(Vec<Team>),
}

pub struct SocialAccV1Model {
    pub platform: SocialPlatform,
    pub url: Seq<char>,
    pub name: Seq<char>,
}

impl View for SocialAccV1 {
    type V = SocialAccV1Model;

    open spec fn view(&self) -> SocialAccV1Model {
        SocialAccV1Model { platform: self.platform, url: self.url@, name: self.name@ }
    }
}

pub struct TeamDataV1Model {
    pub id: u32,
    pub number: Seq<char>,
    pub organization: Seq<char>,
    pub socials: Seq<SocialAccV1Model>,
}

impl View for TeamDataV1 {
    type V = TeamDataV1Model;

    open spec fn view(&self) -> TeamDataV1Model {
        TeamDataV1Model {
            id: self.id,
            number: self.number@,
            organization: self.organization@,
            socials: self.socials@.map_values(|a: SocialAccV1| a@),
        }
    }
}

pub struct TeamDataV3Model {
    pub id: u32,
    pub number: Seq<char>,
    pub name: Seq<char>,
    pub organization: Option<Seq<char>>,
    pub socials: Seq<SocialAccV1Model>,
}

impl View for TeamDataV3 {
    type V = TeamDataV3Model;

    open spec fn view(&self) -> TeamDataV3Model {
        TeamDataV3Model {
            id: self.id,
            number: self.number@,
            name: self.name@,
            organization: opt_view(self.organization),
            socials: self.socials@.map_values(|a: SocialAccV1| a@),
        }
    }
}

pub struct TeamV1Model {
    pub data: TeamDataV1Model,
    pub lock: LockModel,
}

impl View for TeamV1 {
    type V = TeamV1Model;

    open spec fn view(&self) -> TeamV1Model {
        TeamV1Model { data: self.data@, lock: self.lock@ }
    }
}

pub struct RecordV1Model {
    pub teams: Seq<TeamV1Model>,
    pub notes: Seq<Note>,
    pub members: Seq<Person>,
    pub robots: Seq<RobotV1>,
}

impl View for RecordV1 {
    type V = RecordV1Model;

    open spec fn view(&self) -> RecordV1Model {
        RecordV1Model {
            teams: self.teams@.map_values(|t: TeamV1| t@),
            notes: self.notes@,
            members: self.members@,
            robots: self.robots@,
        }
    }
}

pub struct TeamNotesV2Model {
    pub robots: Seq<RobotV1>,
    pub members: Seq<Person>,
    pub entries: Seq<Note>,
    pub driving: Seq<char>,
    pub strategy: Seq<char>,
    pub notes: Seq<char>,
    pub lock: LockModel,
}

impl View for TeamNotesV2 {
    type V = TeamNotesV2Model;

    open spec fn view(&self) -> TeamNotesV2Model {
        TeamNotesV2Model {
            robots: self.robots@,
            members: self.members@,
            entries: self.entries@,
            driving: self.driving@,
            strategy: self.strategy@,
            notes: self.notes@,
            lock: self.lock@,
        }
    }
}

pub struct RecordV2Model {
    pub data: TeamDataV1Model,
    pub notes: TeamNotesV2Model,
}

impl View for RecordV2 {
    type V = RecordV2Model;

    open spec fn view(&self) -> RecordV2Model {
        RecordV2Model { data: self.data@, notes: self.notes@ }
    }
}

pub struct RecordV3Model {
    pub data: TeamDataV3Model,
    pub notes: TeamNotesV2Model,
}

impl View for RecordV3 {
    type V = RecordV3Model;

    open spec fn view(&self) -> RecordV3Model {
        RecordV3Model { data: self.data@, notes: self.notes@ }
    }
}

pub struct RecordV4Model {
    pub data: TeamDataV3Model,
    pub notes: TeamNotesModel,
}

impl View for RecordV4 {
    type V = RecordV4Model;

    open spec fn view(&self) -> RecordV4Model {
        RecordV4Model { data: self.data@, notes: self.notes@ }
    }
}

/// A record of any version, as contracts see it.
pub enum RecordModel {
    V1(RecordV1Model),
    V2(Seq<RecordV2Model>),
    V3(Seq<RecordV3Model>),
    V4(Seq<RecordV4Model>),
    V5(Seq<TeamModel>),
}

impl View for VersionedRecord {
    type V = RecordModel;

    open spec fn view(&self) -> RecordModel {
        match self {
            VersionedRecord::V1(r) => RecordModel::V1(r@),
            VersionedRecord::V2(v) => RecordModel::V2(v@.map_values(|r: RecordV2| r@)),
            VersionedRecord::V3(v) => RecordModel::V3(v@.map_values(|r: RecordV3| r@)),
            VersionedRecord::V4(v) => RecordModel::V4(v@.map_values(|r: RecordV4| r@)),
            VersionedRecord::V5(v) => RecordModel::V5(v@.map_values(|t: Team| t@)),
        }
    }
}

impl RecordModel {
    /// The schema version the record is written in.
    pub open spec fn version(self) -> u32 {
        match self {
            RecordModel::V1(_) => 1,
            RecordModel::V2(_) => 2,
            RecordModel::V3(_) => 3,
            RecordModel::V4(_) => 4,
            RecordModel::V5(_) => 5,
        }
    }

    /// The record matches the shape of its version: every location, where
    /// there is one, is in range.
    pub open spec fn valid(self) -> bool {
        match self {
            RecordModel::V5(ts) => forall|i: int|
                0 <= i < ts.len() ==> (#[trigger] ts[i]).valid(),
            _ => true,
        }
    }
}

} // verus!
