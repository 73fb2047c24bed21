use vstd::prelude::*;
use fake::faker::company::en::{Buzzword, CompanyName, Profession};
use fake::faker::filesystem::en::FileExtension;
use fake::faker::lorem::en::{Sentences, Words};
use fake::faker::name::en::Name;
use fake::Fake;
use rand::rngs::StdRng;
use rand::Rng;
use crate::lock::{Lock, LockModel};
use crate::model::{Note, Person, Robot, RobotAuton, RobotStatus, SocialAcc, SocialPlatform};
use crate::text::{concat_all, decimal, decimal_of, spaces_to_underscores, underscore_spaces};

verus! {

#[verifier::external_type_specification]
#[verifier::external_body]
pub struct ExStdRng(StdRng);

/// Relies on rand's `Rng::gen_range`: a value of `lo..hi`; an empty range
/// panics, hence `lo < hi`.
#[verifier::external_body]
fn draw_in(rng: &mut StdRng, lo: u64, hi: u64) -> (r: u64)
    requires
        lo < hi,
    ensures
        lo <= r < hi,
{
    rng.gen_range(lo..hi)
}

/// Relies on rand's `Rng::gen` for `u64`: any value.
#[verifier::external_body]
fn draw_u64(rng: &mut StdRng) -> (r: u64) {
    rng.gen::<u64>()
}

/// Relies on rand's `Rng::gen_ratio`: true with chance `num / den`, always
/// false for `num == 0` and always true for `num == den`; it panics when
/// `den == 0` or `num > den`.
#[verifier::external_body]
fn draw_ratio(rng: &mut StdRng, num: u32, den: u32) -> (r: bool)
    requires
        0 < den,
        num <= den,
    ensures
        num == 0 ==> !r,
        num == den ==> r,
{
    rng.gen_ratio(num, den)
}

/// Relies on fake's English `Buzzword` faker.
#[verifier::external_body]
fn fake_buzzword(rng: &mut StdRng) -> (r: String) {
    Buzzword().fake_with_rng(rng)
}

/// Relies on fake's English `Sentences` faker: a count drawn from `lo..hi`,
/// which panics when empty.
#[verifier::external_body]
fn fake_sentences(rng: &mut StdRng, lo: usize, hi: usize) -> (r: Vec<String>)
    requires
        lo < hi,
    ensures
        lo <= r@.len() < hi,
{
    Sentences(lo..hi).fake_with_rng(rng)
}

/// Relies on fake's English `Words` faker: a count drawn from `lo..hi`, which
/// panics when empty.
#[verifier::external_body]
fn fake_words(rng: &mut StdRng, lo: usize, hi: usize) -> (r: Vec<String>)
    requires
        lo < hi,
    ensures
        lo <= r@.len() < hi,
{
    Words(lo..hi).fake_with_rng(rng)
}

/// Relies on fake's English `Name` faker.
#[verifier::external_body]
fn fake_name(rng: &mut StdRng) -> (r: String) {
    Name().fake_with_rng(rng)
}

/// Relies on fake's English `Profession` faker.
#[verifier::external_body]
fn fake_profession(rng: &mut StdRng) -> (r: String) {
    Profession().fake_with_rng(rng)
}

/// Relies on fake's English `FileExtension` faker.
#[verifier::external_body]
fn fake_file_extension(rng: &mut StdRng) -> (r: String) {
    FileExtension().fake_with_rng(rng)
}

/// Relies on fake's English `CompanyName` faker.
#[verifier::external_body]
fn fake_company_name(rng: &mut StdRng) -> (r: String) {
    CompanyName().fake_with_rng(rng)
}

/// Settings for generating a `Note`.
pub struct FakeNotes;

/// Settings for generating a `Person`.
pub struct FakePerson;

/// Settings for generating a `Robot`.
pub struct FakeRobot;

/// Settings for generating a `RobotStatus`.
pub struct FakeRobotStatus;

/// Settings for generating a `RobotAuton`.
pub struct FakeRobotAuton;

/// Settings for generating a `Lock`.
pub struct FakeLock;

/// Settings for generating statistics.
pub struct FakeStatistics;

/// Settings for generating a `SocialPlatform`.
pub struct FakeSocialPlatform;

/// Settings for generating a `SocialAcc`.
pub struct FakeSocialAcc;

/// Team ids are drawn below this bound.
pub const TEAM_ID_BOUND: u32 = 99999;

/// Number of characters of a generated robot id.
pub const ROBOT_ID_LEN: usize = 20;

/// A lower-case ASCII letter or a decimal digit.
pub open spec fn is_robot_id_char(c: char) -> bool {
    ('a' <= c && c <= 'z') || ('0' <= c && c <= '9')
}

/// An image name as generated: a number, a dot, an extension.
pub open spec fn is_image_name(s: Seq<char>) -> bool {
    exists|id: u64, ext: Seq<char>| s == decimal_of(id as nat) + seq!['.'] + ext
}

/// The profile address of an account called `name` on `platform`.
pub open spec fn profile_url(platform: SocialPlatform, name: Seq<char>) -> Seq<char> {
    match platform {
        SocialPlatform::Instagram => "https://www.instagram.com/"@ + spaces_to_underscores(name)
            + seq!['/'],
        SocialPlatform::Youtube => "https://www.youtube.com/@"@ + spaces_to_underscores(name)
            + seq!['/'],
    }
}

/// Builds the profile address of an account called `name` on `platform`.
pub fn social_url(platform: SocialPlatform, name: &str) -> (r: String)
    ensures
        r@ == profile_url(platform, name@),
{
    let mut out = match platform {
        SocialPlatform::Instagram => String::from_str("https://www.instagram.com/"),
        SocialPlatform::Youtube => String::from_str("https://www.youtube.com/@"),
    };
    let handle = underscore_spaces(name);
    out.append(handle.as_str());
    proof { reveal_strlit("/"); }
    out.append("/");
    assert("/"@ =~= seq!['/']);
    out
}

impl Note {
    /// A note of a random team, with a buzzword for a name and one to nine
    /// sentences of text.
    pub fn dummy_with_rng(_config: &FakeNotes, rng: &mut StdRng) -> (r: Note)
        ensures
            r.team < TEAM_ID_BOUND,
    {
        let team = draw_in(rng, 0, TEAM_ID_BOUND as u64) as u32;
        let name = fake_buzzword(rng);
        let count = draw_in(rng, 1, 10) as usize;
        let sentences = fake_sentences(rng, 0, count);
        Note { team, name, content: concat_all(&sentences) }
    }
}

impl Person {
    /// A member of a random team, with a person's name and a profession.
    pub fn dummy_with_rng(_config: &FakePerson, rng: &mut StdRng) -> (r: Person)
        ensures
            r.team < TEAM_ID_BOUND,
    {
        let team = draw_in(rng, 0, TEAM_ID_BOUND as u64) as u32;
        let name = fake_name(rng);
        let role = fake_profession(rng);
        Person { team, name, role }
    }
}

/// Active when the draw came out true.
pub open spec fn status_of(active: bool) -> RobotStatus {
    if active {
        RobotStatus::Active
    } else {
        RobotStatus::Inactive
    }
}

/// Instagram for a draw of 0, YouTube otherwise.
pub open spec fn platform_of(d: u64) -> SocialPlatform {
    if d == 0 {
        SocialPlatform::Instagram
    } else {
        SocialPlatform::Youtube
    }
}

/// The status a draw stands for: active when the draw came out true.
pub fn status_of_draw(active: bool) -> (r: RobotStatus)
    ensures
        r == status_of(active),
{
    if active {
        RobotStatus::Active
    } else {
        RobotStatus::Inactive
    }
}

impl RobotStatus {
    /// Active four times in five.
    pub fn dummy_with_rng(_config: &FakeRobotStatus, rng: &mut StdRng) -> (r: RobotStatus)
        ensures
            exists|active: bool| r == #[trigger] status_of(active),
    {
        let active = draw_ratio(rng, 4, 5);
        status_of_draw(active)
    }
}

fn image_name(id: u64, extension: &str) -> (r: String)
    ensures
        r@ == decimal_of(id as nat) + seq!['.'] + extension@,
{
    let mut out = decimal(id);
    proof { reveal_strlit("."); }
    out.append(".");
    out.append(extension);
    assert("."@ =~= seq!['.']);
    out
}

/// The robot that a set of draws stands for: image `i` is named by `ids[i]`
/// in decimal, a dot and `exts[i]`; the features are the words joined; there
/// are no routines.
pub fn robot_of_draws(
    team: u32,
    ids: &Vec<u64>,
    exts: &Vec<String>,
    status: RobotStatus,
    words: &Vec<String>,
) -> (r: Robot)
    requires
        ids@.len() == exts@.len(),
    ensures
        r.team == team,
        r.images@.len() == ids@.len(),
        forall|i: int|
            0 <= i < ids@.len() ==> (#[trigger] r.images@[i])@ == decimal_of(ids@[i] as nat)
                + seq!['.'] + exts@[i]@,
        r.status == status,
        r.features@ == words@.map_values(|s: String| s@).flatten(),
        r.autons@.len() == 0,
{
    let mut images: Vec<String> = Vec::new();
    let mut k: usize = 0;
    while k < ids.len()
        invariant
            ids@.len() == exts@.len(),
            k <= ids@.len(),
            images@.len() == k,
            forall|i: int|
                0 <= i < k ==> (#[trigger] images@[i])@ == decimal_of(ids@[i] as nat) + seq!['.']
                    + exts@[i]@,
        decreases ids.len() - k,
    {
        images.push(image_name(ids[k], exts[k].as_str()));
        k = k + 1;
    }
    Robot { team, images, status, features: concat_all(words), autons: Vec::new() }
}

impl Robot {
    /// A robot of a random team with up to eight images, each named by a
    /// random number and file extension, a random status, a few words of
    /// features and no routines.
    pub fn dummy_with_rng(_config: &FakeRobot, rng: &mut StdRng) -> (r: Robot)
        ensures
            r.team < TEAM_ID_BOUND,
            r.images@.len() < 9,
            forall|i: int| 0 <= i < r.images@.len() ==> is_image_name(#[trigger] r.images@[i]@),
            r.autons@.len() == 0,
    {
        let team = draw_in(rng, 0, TEAM_ID_BOUND as u64) as u32;
        let bound = draw_in(rng, 0, 10);
        let mut ids: Vec<u64> = Vec::new();
        let mut exts: Vec<String> = Vec::new();
        let mut k: u64 = 1;
        while k < bound
            invariant
                1 <= k,
                k <= bound || k == 1,
                bound < 10,
                ids@.len() == k - 1,
                exts@.len() == k - 1,
            decreases bound - k,
        {
            ids.push(draw_u64(rng));
            exts.push(fake_file_extension(rng));
            k = k + 1;
        }
        let status = RobotStatus::dummy_with_rng(&FakeRobotStatus, rng);
        let count = draw_in(rng, 1, 5) as usize;
        let words = fake_words(rng, 0, count);
        let r = robot_of_draws(team, &ids, &exts, status, &words);
        assert forall|i: int| 0 <= i < r.images@.len() implies is_image_name(
            #[trigger] r.images@[i]@,
        ) by {
            let id = ids@[i];
            let ext = exts@[i]@;
            assert(r.images@[i]@ == decimal_of(id as nat) + seq!['.'] + ext);
        }
        r
    }
}

/// The characters a generated robot id is made of, in the order draws pick
/// them.
pub open spec fn robot_id_alphabet() -> Seq<char> {
    "abcdefghijklmnopqrstuvwxyz0123456789"@
}

/// The robot id that a set of picks stands for: character `i` is the
/// alphabet's character at `picks[i]`.
pub fn robot_id_of(picks: &Vec<u64>) -> (r: String)
    requires
        picks@.len() == ROBOT_ID_LEN,
        forall|i: int| 0 <= i < picks@.len() ==> #[trigger] picks@[i] < 36,
    ensures
        r@.len() == ROBOT_ID_LEN,
        forall|i: int|
            0 <= i < ROBOT_ID_LEN ==> #[trigger] r@[i] == robot_id_alphabet()[picks@[i] as int],
        forall|i: int| 0 <= i < r@.len() ==> is_robot_id_char(#[trigger] r@[i]),
{
    let alphabet: &str = "abcdefghijklmnopqrstuvwxyz0123456789";
    proof { reveal_strlit("abcdefghijklmnopqrstuvwxyz0123456789"); }
    let mut robot = String::new();
    let mut k: usize = 0;
    while k < ROBOT_ID_LEN
        invariant
            alphabet@ == robot_id_alphabet(),
            picks@.len() == ROBOT_ID_LEN,
            forall|i: int| 0 <= i < picks@.len() ==> #[trigger] picks@[i] < 36,
            k <= ROBOT_ID_LEN,
            robot@.len() == k,
            forall|i: int| 0 <= i < k ==> #[trigger] robot@[i] == robot_id_alphabet()[picks@[i] as int],
            forall|i: int| 0 <= i < robot@.len() ==> is_robot_id_char(#[trigger] robot@[i]),
        decreases ROBOT_ID_LEN - k,
    {
        let pick = picks[k] as usize;
        proof {
            reveal_strlit("abcdefghijklmnopqrstuvwxyz0123456789");
            assert(alphabet@.len() == 36);
            assert(is_robot_id_char(alphabet@[pick as int]));
        }
        let c = alphabet.substring_char(pick, pick + 1);
        assert(c@ =~= seq![alphabet@[pick as int]]);
        robot.append(c);
        k = k + 1;
    }
    robot
}

impl RobotAuton {
    /// A routine of a robot with a random twenty-character id of lower-case
    /// letters and digits, worth up to 99 points, described in up to four
    /// sentences.
    pub fn dummy_with_rng(_config: &FakeRobotAuton, rng: &mut StdRng) -> (r: RobotAuton)
        ensures
            r.robot@.len() == ROBOT_ID_LEN,
            forall|i: int| 0 <= i < r.robot@.len() ==> is_robot_id_char(#[trigger] r.robot@[i]),
            0 <= r.points < 100,
    {
        let mut picks: Vec<u64> = Vec::new();
        let mut k: usize = 0;
        while k < ROBOT_ID_LEN
            invariant
                k <= ROBOT_ID_LEN,
                picks@.len() == k,
                forall|i: int| 0 <= i < picks@.len() ==> #[trigger] picks@[i] < 36,
            decreases ROBOT_ID_LEN - k,
        {
            picks.push(draw_in(rng, 0, 36));
            k = k + 1;
        }
        let robot = robot_id_of(&picks);
        let points = draw_in(rng, 0, 100) as i32;
        let count = draw_in(rng, 1, 5) as usize;
        let sentences = fake_sentences(rng, 0, count);
        RobotAuton { robot, points, description: concat_all(&sentences) }
    }
}

/// The lock that a draw stands for: unlocked when nothing was drawn, else
/// held by the drawn number written in decimal.
pub fn lock_of_draw(held: Option<u64>) -> (r: Lock)
    ensures
        held is None ==> r@ == LockModel::Unlocked,
        held matches Some(o) ==> r@ == LockModel::Locked(decimal_of(o as nat)),
{
    match held {
        None => Lock::Unlocked,
        Some(o) => Lock::Locked(decimal(o)),
    }
}

impl Lock {
    /// Unlocked four times in five; otherwise held by a random number
    /// written in decimal.
    pub fn dummy_with_rng(_config: &FakeLock, rng: &mut StdRng) -> (r: Lock)
        ensures
            r@ == LockModel::Unlocked || exists|o: u64|
                r@ == LockModel::Locked(#[trigger] decimal_of(o as nat)),
    {
        let held = if draw_ratio(rng, 4, 5) {
            None
        } else {
            Some(draw_u64(rng))
        };
        lock_of_draw(held)
    }
}

/// The platform that a draw from `0..2` stands for.
pub fn platform_of_draw(d: u64) -> (r: SocialPlatform)
    requires
        d < 2,
    ensures
        r == platform_of(d),
{
    if d == 0 {
        SocialPlatform::Instagram
    } else {
        SocialPlatform::Youtube
    }
}

impl SocialPlatform {
    /// Either platform, with even chances.
    pub fn dummy_with_rng(_config: &FakeSocialPlatform, rng: &mut StdRng) -> (r: SocialPlatform)
        ensures
            exists|d: u64| d < 2 && r == #[trigger] platform_of(d),
    {
        let d = draw_in(rng, 0, 2);
        platform_of_draw(d)
    }
}

impl SocialAcc {
    /// An account of a company name on a random platform, its address built
    /// from the name, with no profile picture.
    pub fn dummy_with_rng(_config: &FakeSocialAcc, rng: &mut StdRng) -> (r: SocialAcc)
        ensures
            r.url@ == profile_url(r.platform, r.name@),
            r.profile_pic_url is None,
    {
        let platform = SocialPlatform::dummy_with_rng(&FakeSocialPlatform, rng);
        let name = fake_company_name(rng);
        let url = social_url(platform, name.as_str());
        SocialAcc { platform, url, name, profile_pic_url: None }
    }
}

} // verus!
