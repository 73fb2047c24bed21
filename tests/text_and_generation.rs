use team_notes::generate::{
    lock_of_draw, platform_of_draw, robot_id_of, robot_of_draws, status_of_draw,
};
use rand::rngs::StdRng;
use rand::SeedableRng;
use team_notes::{
    concat_all, decimal, social_url, underscore_spaces, FakeLock, FakeNotes, FakePerson, FakeRobot,
    FakeRobotAuton, FakeRobotStatus, FakeSocialAcc, FakeSocialPlatform, Lock, Note, Person, Robot,
    RobotAuton, RobotStatus, SocialAcc, SocialPlatform, ROBOT_ID_LEN, TEAM_ID_BOUND,
};

#[test]
fn decimal_renders_numbers() {
    assert_eq!(decimal(0), "0");
    assert_eq!(decimal(7), "7");
    assert_eq!(decimal(10), "10");
    assert_eq!(decimal(1234567890), "1234567890");
    assert_eq!(decimal(u64::MAX), "18446744073709551615");
}

#[test]
fn concat_joins_without_separator() {
    assert_eq!(concat_all(&vec![]), "");
    assert_eq!(concat_all(&vec![String::from("ab"), String::new(), String::from("c.")]), "abc.");
}

#[test]
fn spaces_become_underscores() {
    assert_eq!(underscore_spaces("Acme Robotics  Inc"), "Acme_Robotics__Inc");
    assert_eq!(underscore_spaces(""), "");
    assert_eq!(underscore_spaces("é ü"), "é_ü");
}

#[test]
fn social_urls_per_platform() {
    assert_eq!(social_url(SocialPlatform::Instagram, "Acme Co"), "https://www.instagram.com/Acme_Co/");
    assert_eq!(social_url(SocialPlatform::Youtube, "Acme Co"), "https://www.youtube.com/@Acme_Co/");
}

#[test]
fn generated_notes_and_people_have_bounded_teams() {
    let mut rng = StdRng::seed_from_u64(1);
    for _ in 0..50 {
        let n = Note::dummy_with_rng(&FakeNotes, &mut rng);
        assert!(n.team < TEAM_ID_BOUND);
        let p = Person::dummy_with_rng(&FakePerson, &mut rng);
        assert!(p.team < TEAM_ID_BOUND);
    }
}

#[test]
fn generated_robots_have_named_images() {
    let mut rng = StdRng::seed_from_u64(2);
    for _ in 0..50 {
        let r = Robot::dummy_with_rng(&FakeRobot, &mut rng);
        assert!(r.team < TEAM_ID_BOUND);
        assert!(r.images.len() < 9);
        assert!(r.autons.is_empty());
        for image in &r.images {
            let (id, ext) = image.split_once('.').unwrap();
            assert!(id.parse::<u64>().is_ok());
            assert!(!ext.is_empty());
        }
    }
}

#[test]
fn generated_routines_have_ids_and_points_in_range() {
    let mut rng = StdRng::seed_from_u64(3);
    for _ in 0..50 {
        let a = RobotAuton::dummy_with_rng(&FakeRobotAuton, &mut rng);
        assert_eq!(a.robot.chars().count(), ROBOT_ID_LEN);
        assert!(a.robot.chars().all(|c| c.is_ascii_lowercase() || c.is_ascii_digit()));
        assert!((0..100).contains(&a.points));
    }
}

#[test]
fn generated_locks_hold_decimal_tokens() {
    let mut rng = StdRng::seed_from_u64(4);
    let mut locked = 0;
    for _ in 0..200 {
        if let Lock::Locked(t) = Lock::dummy_with_rng(&FakeLock, &mut rng) {
            assert!(t.parse::<u64>().is_ok());
            locked += 1;
        }
    }
    assert!(locked > 0 && locked < 200);
}

#[test]
fn generated_statuses_are_mostly_active() {
    let mut rng = StdRng::seed_from_u64(5);
    let active = (0..500)
        .filter(|_| RobotStatus::dummy_with_rng(&FakeRobotStatus, &mut rng) == RobotStatus::Active)
        .count();
    assert!(active > 300 && active < 480);
}

#[test]
fn generated_accounts_link_to_their_name() {
    let mut rng = StdRng::seed_from_u64(6);
    let mut seen_both = (false, false);
    for _ in 0..50 {
        let a = SocialAcc::dummy_with_rng(&FakeSocialAcc, &mut rng);
        assert_eq!(a.url, social_url(a.platform, &a.name));
        assert_eq!(a.profile_pic_url, None);
        match SocialPlatform::dummy_with_rng(&FakeSocialPlatform, &mut rng) {
            SocialPlatform::Instagram => seen_both.0 = true,
            SocialPlatform::Youtube => seen_both.1 = true,
        }
    }
    assert_eq!(seen_both, (true, true));
}

#[test]
fn same_seed_gives_same_records() {
    let mut a = StdRng::seed_from_u64(77);
    let mut b = StdRng::seed_from_u64(77);
    assert_eq!(Robot::dummy_with_rng(&FakeRobot, &mut a), Robot::dummy_with_rng(&FakeRobot, &mut b));
    assert_eq!(Note::dummy_with_rng(&FakeNotes, &mut a), Note::dummy_with_rng(&FakeNotes, &mut b));
}

#[test]
fn draws_map_to_values() {
    assert_eq!(status_of_draw(true), RobotStatus::Active);
    assert_eq!(status_of_draw(false), RobotStatus::Inactive);
    assert_eq!(platform_of_draw(0), SocialPlatform::Instagram);
    assert_eq!(platform_of_draw(1), SocialPlatform::Youtube);
    assert_eq!(lock_of_draw(None), Lock::Unlocked);
    assert_eq!(lock_of_draw(Some(305)), Lock::Locked(String::from("305")));
    let picks: Vec<u64> = (0..20).map(|i| (i * 7) % 36).collect();
    assert_eq!(robot_id_of(&picks), "ahov29gnu18fmt07elsz");
    let r = robot_of_draws(
        12,
        &vec![7, 40],
        &vec![String::from("png"), String::from("jpg")],
        RobotStatus::Inactive,
        &vec![String::from("quick"), String::from("bot")],
    );
    assert_eq!(r.team, 12);
    assert_eq!(r.images, vec![String::from("7.png"), String::from("40.jpg")]);
    assert_eq!(r.status, RobotStatus::Inactive);
    assert_eq!(r.features, "quickbot");
    assert!(r.autons.is_empty());
}
