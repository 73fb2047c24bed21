use team_notes::{
    migrate, Location, Lock, MigrationError, Note, Person, RecordV1, RecordV2, RecordV3, RobotStatus,
    RobotV1, SocialAccV1, SocialPlatform, TeamDataV1, TeamDataV3, TeamNotesV2, TeamV1,
    VersionedRecord, COORD_LIMIT, LATEST_VERSION,
};

fn v1_robot(team: u32, images: &str) -> RobotV1 {
    RobotV1 {
        team,
        images: String::from(images),
        status: RobotStatus::Inactive,
        features: String::from("fast"),
    }
}

fn note(team: u32, name: &str) -> Note {
    Note { team, name: String::from(name), content: String::from("c") }
}

fn person(team: u32, name: &str) -> Person {
    Person { team, name: String::from(name), role: String::from("r") }
}

fn acme_v2() -> RecordV2 {
    RecordV2 {
        data: TeamDataV1 {
            id: 42,
            number: String::from("4242"),
            organization: String::from("Acme"),
            socials: vec![SocialAccV1 {
                platform: SocialPlatform::Youtube,
                url: String::from("https://www.youtube.com/@acme/"),
                name: String::from("acme"),
            }],
        },
        notes: TeamNotesV2 {
            robots: vec![v1_robot(42, "foo.png")],
            members: vec![person(42, "Ann")],
            entries: vec![],
            driving: String::from("d"),
            strategy: String::from("s"),
            notes: String::from("n"),
            lock: Lock::Locked(String::from("tok")),
        },
    }
}

#[test]
fn version_two_to_five_keeps_organization() {
    let out = migrate(VersionedRecord::V2(vec![acme_v2()]), 2, 5).unwrap();
    let VersionedRecord::V5(teams) = out else { panic!("not the latest version") };
    let team = &teams[0];
    assert_eq!(teams.len(), 1);
    assert_eq!(team.data.organization, Some(String::from("Acme")));
    assert_eq!(team.data.name, "");
    assert_eq!(team.data.location, Location::default());
    assert_eq!(team.data.id, 42);
    assert_eq!(team.data.number, "4242");
    assert_eq!(team.data.socials.len(), 1);
    assert_eq!(team.data.socials[0].name, "acme");
    assert_eq!(team.data.socials[0].profile_pic_url, None);
    assert_eq!(team.notes.robots[0].images, vec![String::from("foo.png")]);
    assert_eq!(team.notes.lock, Lock::Locked(String::from("tok")));
    assert_eq!(team.notes.driving, "d");
}

fn v3_with_images(images: &str) -> RecordV3 {
    RecordV3 {
        data: TeamDataV3 {
            id: 1,
            number: String::from("1"),
            name: String::from("One"),
            organization: None,
            socials: vec![],
        },
        notes: TeamNotesV2 { robots: vec![v1_robot(1, images)], ..TeamNotesV2::default() },
    }
}

#[test]
fn single_image_string_becomes_one_element_list() {
    let out = migrate(VersionedRecord::V3(vec![v3_with_images("foo.png")]), 3, 4).unwrap();
    let VersionedRecord::V4(r) = out else { panic!("not version 4") };
    assert_eq!(r[0].notes.robots[0].images, vec![String::from("foo.png")]);
    assert!(r[0].notes.robots[0].autons.is_empty());
    assert_eq!(r[0].notes.robots[0].status, RobotStatus::Inactive);
    assert_eq!(r[0].notes.robots[0].features, "fast");
}

#[test]
fn empty_image_string_becomes_empty_list() {
    let out = migrate(VersionedRecord::V3(vec![v3_with_images("")]), 3, 5).unwrap();
    let VersionedRecord::V5(r) = out else { panic!("not version 5") };
    assert!(r[0].notes.robots[0].images.is_empty());
}

#[test]
fn images_convert_from_version_one() {
    let store = RecordV1 {
        teams: vec![],
        notes: vec![],
        members: vec![],
        robots: vec![v1_robot(3, "foo.png"), v1_robot(3, "")],
    };
    let VersionedRecord::V5(r) = migrate(VersionedRecord::V1(store), 1, 5).unwrap() else {
        panic!("not version 5")
    };
    assert_eq!(r[0].notes.robots[0].images, vec![String::from("foo.png")]);
    assert!(r[0].notes.robots[1].images.is_empty());
}

fn team_v1(id: u32, org: &str) -> TeamV1 {
    TeamV1 {
        data: TeamDataV1 {
            id,
            number: id.to_string(),
            organization: String::from(org),
            socials: vec![],
        },
        lock: Lock::Unlocked,
    }
}

fn flat_v1() -> RecordV1 {
    RecordV1 {
        teams: vec![team_v1(9, "Nine"), team_v1(4, "Four")],
        notes: vec![note(4, "a"), note(9, "b"), note(4, "c"), note(99999, "d")],
        members: vec![person(9, "Bo"), person(9, "Bo"), person(7, "Cy")],
        robots: vec![v1_robot(9, "a.png"), v1_robot(4, "")],
    }
}

#[test]
fn flat_entities_are_grouped_by_team_in_order() {
    let out = migrate(VersionedRecord::V1(flat_v1()), 1, 2).unwrap();
    let VersionedRecord::V2(teams) = out else { panic!("not version 2") };
    let ids: Vec<u32> = teams.iter().map(|t| t.data.id).collect();
    assert_eq!(ids, vec![9, 4, 99999, 7]);
    let names = |i: usize| -> Vec<String> {
        teams[i].notes.entries.iter().map(|n| n.name.clone()).collect()
    };
    assert_eq!(names(0), vec![String::from("b")]);
    assert_eq!(names(1), vec![String::from("a"), String::from("c")]);
    assert_eq!(names(2), vec![String::from("d")]);
    assert!(names(3).is_empty());
    assert_eq!(teams[0].notes.members.len(), 2);
    assert_eq!(teams[3].notes.members[0].name, "Cy");
    assert_eq!(teams[0].notes.robots[0].images, "a.png");
    assert_eq!(teams[1].notes.robots[0].images, "");
    assert_eq!(teams[0].data.organization, "Nine");
    assert_eq!(teams[2].data.organization, "");
    assert_eq!(teams[2].data.number, "");
    assert_eq!(teams[2].notes.lock, Lock::Unlocked);
    assert_eq!(teams[1].notes.driving, "");
}

#[test]
fn duplicate_team_ids_keep_both_teams() {
    let store = RecordV1 {
        teams: vec![team_v1(5, "First"), team_v1(5, "Second")],
        notes: vec![note(5, "x")],
        members: vec![],
        robots: vec![],
    };
    let VersionedRecord::V2(teams) = migrate(VersionedRecord::V1(store), 1, 2).unwrap() else {
        panic!("not version 2")
    };
    assert_eq!(teams.len(), 2);
    assert_eq!(teams[0].notes.entries.len(), 1);
    assert!(teams[1].notes.entries.is_empty());
    assert_eq!(teams[1].data.organization, "Second");
}

#[test]
fn every_step_succeeds_from_version_one() {
    let mut rec = VersionedRecord::V1(flat_v1());
    for k in 1..LATEST_VERSION {
        rec = migrate(rec, k, k + 1).unwrap();
    }
    let VersionedRecord::V5(teams) = rec else { panic!("not the latest version") };
    assert_eq!(teams.len(), 4);
    assert_eq!(teams[0].notes.robots[0].images, vec![String::from("a.png")]);
    assert!(teams[1].notes.robots[0].images.is_empty());
    assert_eq!(teams[1].data.organization, Some(String::from("Four")));
}

#[test]
fn empty_store_migrates_to_no_teams() {
    let out = migrate(VersionedRecord::V1(RecordV1::default()), 1, 5).unwrap();
    assert_eq!(out, VersionedRecord::V5(vec![]));
}

#[test]
fn migrating_to_same_version_is_identity() {
    let once = migrate(VersionedRecord::V2(vec![acme_v2()]), 2, 3).unwrap();
    let twice = migrate(once.clone(), 3, 3).unwrap();
    assert_eq!(once, twice);
    let latest = migrate(VersionedRecord::V2(vec![acme_v2()]), 2, 5).unwrap();
    assert_eq!(migrate(latest.clone(), 5, 5).unwrap(), latest);
    let flat = VersionedRecord::V1(flat_v1());
    assert_eq!(migrate(flat.clone(), 1, 1).unwrap(), flat);
}

#[test]
fn downgrade_is_refused() {
    assert_eq!(
        migrate(VersionedRecord::V3(vec![v3_with_images("")]), 3, 2),
        Err(MigrationError::UnsupportedDirection)
    );
}

#[test]
fn unknown_target_is_refused() {
    assert_eq!(
        migrate(VersionedRecord::V3(vec![v3_with_images("")]), 3, 6),
        Err(MigrationError::UnsupportedDirection)
    );
}

#[test]
fn wrong_declared_version_is_invalid_source() {
    assert_eq!(
        migrate(VersionedRecord::V3(vec![v3_with_images("")]), 2, 5),
        Err(MigrationError::InvalidSource)
    );
    assert_eq!(
        migrate(VersionedRecord::V4(vec![]), 3, 4),
        Err(MigrationError::InvalidSource)
    );
}

#[test]
fn location_out_of_range_is_invalid_source() {
    let latest = migrate(VersionedRecord::V2(vec![acme_v2()]), 2, 5).unwrap();
    let VersionedRecord::V5(mut teams) = latest else { panic!("not the latest version") };
    teams[0].data.location.latitude = COORD_LIMIT;
    teams[0].data.location.longitude = -COORD_LIMIT;
    assert!(migrate(VersionedRecord::V5(teams.clone()), 5, 5).is_ok());
    teams[0].data.location.latitude = COORD_LIMIT + 1;
    assert_eq!(migrate(VersionedRecord::V5(teams), 5, 5), Err(MigrationError::InvalidSource));
}

#[test]
fn version_reports_the_tag() {
    assert_eq!(VersionedRecord::V1(flat_v1()).version(), 1);
    assert_eq!(VersionedRecord::V2(vec![acme_v2()]).version(), 2);
    assert!(VersionedRecord::V1(flat_v1()).is_valid());
}
