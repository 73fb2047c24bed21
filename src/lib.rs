//! Shared team notes: an optimistic lock over the collaboratively edited
//! notes, a versioned record schema with a step-by-step migration engine,
//! and a seeded generator of randomised records.

pub mod generate;
pub mod lock;
pub mod migrate;
pub mod model;
pub mod schema;
pub mod text;

pub use generate::{
    social_url, FakeLock, FakeNotes, FakePerson, FakeRobot, FakeRobotAuton, FakeRobotStatus,
    FakeSocialAcc, FakeSocialPlatform, FakeStatistics, ROBOT_ID_LEN, TEAM_ID_BOUND,
};
pub use lock::{acquire, commit_edit, force_unlock, release, Lock, LockError};
pub use migrate::{migrate, MigrationError};
pub use model::{
    Location, Note, Person, Robot, RobotAuton, RobotStatus, SocialAcc, SocialPlatform, Team,
    TeamData, TeamNotes, COORD_LIMIT,
};
pub use schema::{
    RecordV1, RecordV2, RecordV3, RecordV4, RobotV1, SocialAccV1, TeamDataV1, TeamDataV3, TeamV1,
    TeamNotesV2, VersionedRecord, LATEST_VERSION,
};
pub use text::{concat_all, decimal, underscore_spaces};
