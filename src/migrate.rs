use vstd::prelude::*;
use crate::lock::{Lock, LockModel};
use crate::model::{
    Location, LocationModel, Note, Person, Robot, RobotAuton, RobotModel, SocialAcc,
    SocialAccModel, Team, TeamData, TeamDataModel, TeamModel, TeamNotes, TeamNotesModel,
    COORD_LIMIT,
};
use crate::schema::{
    RecordModel, RecordV1, RecordV1Model, RecordV2, RecordV2Model, RecordV3, RecordV3Model,
    RecordV4, RecordV4Model, RobotV1, SocialAccV1, SocialAccV1Model, TeamDataV1, TeamDataV1Model,
    TeamDataV3, TeamDataV3Model, TeamNotesV2, TeamNotesV2Model, TeamV1Model, VersionedRecord,
    LATEST_VERSION,
};

verus! {

broadcast use vstd::seq_lib::group_seq_properties;

/// Why a record could not be migrated.
#[derive(Clone, Copy, Debug, PartialEq, Eq, Structural, Hash)]
pub enum MigrationError {
    /// The record is not of the declared version, or does not match its shape.
    InvalidSource,
    /// The target is older than the source, or newer than any known version.
    UnsupportedDirection,
}

/// An entity of the flat first version, tagged with the id of its team.
pub trait Tagged {
    spec fn tag(&self) -> u32;

    fn team_id(&self) -> (r: u32)
        ensures
            r == self.tag(),
    ;
}

impl Tagged for Note {
    open spec fn tag(&self) -> u32 {
        self.team
    }

    fn team_id(&self) -> (r: u32) {
        self.team
    }
}

impl Tagged for Person {
    open spec fn tag(&self) -> u32 {
        self.team
    }

    fn team_id(&self) -> (r: u32) {
        self.team
    }
}

impl Tagged for RobotV1 {
    open spec fn tag(&self) -> u32 {
        self.team
    }

    fn team_id(&self) -> (r: u32) {
        self.team
    }
}

/// Group `j` is the first group whose key is `id`: entities tagged `id` go there.
pub open spec fn owns(keys: Seq<u32>, j: int, id: u32) -> bool {
    &&& 0 <= j < keys.len()
    &&& keys[j] == id
    &&& forall|i: int| 0 <= i < j ==> keys[i] != id
}

/// The ids of `s` that are not in `seen`, each once, in order of first appearance.
pub open spec fn new_ids(seen: Seq<u32>, s: Seq<u32>) -> Seq<u32>
    decreases s.len(),
{
    if s.len() == 0 {
        Seq::empty()
    } else {
        let r = new_ids(seen, s.drop_last());
        if seen.contains(s.last()) || r.contains(s.last()) {
            r
        } else {
            r.push(s.last())
        }
    }
}

pub open spec fn team_ids(r: RecordV1Model) -> Seq<u32> {
    r.teams.map_values(|t: TeamV1Model| t.data.id)
}

/// The team tags of all flat entities: notes, then members, then robots.
pub open spec fn entity_ids(r: RecordV1Model) -> Seq<u32> {
    r.notes.map_values(|n: Note| n.team) + r.members.map_values(|p: Person| p.team)
        + r.robots.map_values(|x: RobotV1| x.team)
}

/// One key per team of the version 2 result: the stored teams in order, then
/// each id that only entities carry, in order of first appearance.
pub open spec fn group_keys(r: RecordV1Model) -> Seq<u32> {
    team_ids(r) + new_ids(team_ids(r), entity_ids(r))
}

/// The entities of group `j`, in input order.
pub open spec fn grouped<T: Tagged>(s: Seq<T>, keys: Seq<u32>, j: int) -> Seq<T> {
    s.filter(|x: T| owns(keys, j, x.tag()))
}

/// Team `j` of the version 2 result: a stored team keeps its identity and
/// lock; a team that only entities name gets empty data under that id and is
/// unlocked. Its notes, members and robots are those of its group.
pub open spec fn group_1_2(r: RecordV1Model, j: int) -> RecordV2Model {
    let keys = group_keys(r);
    RecordV2Model {
        data: if j < r.teams.len() {
            r.teams[j].data
        } else {
            TeamDataV1Model {
                id: keys[j],
                number: Seq::empty(),
                organization: Seq::empty(),
                socials: Seq::empty(),
            }
        },
        notes: TeamNotesV2Model {
            robots: grouped(r.robots, keys, j),
            members: grouped(r.members, keys, j),
            entries: grouped(r.notes, keys, j),
            driving: Seq::empty(),
            strategy: Seq::empty(),
            notes: Seq::empty(),
            lock: if j < r.teams.len() {
                r.teams[j].lock
            } else {
                LockModel::Unlocked
            },
        },
    }
}

/// Version 1 to 2: the flat entities are grouped by team id and nested
/// under their team, and the free-text fields start empty.
pub open spec fn step_1_2(r: RecordV1Model) -> Seq<RecordV2Model> {
    Seq::new(group_keys(r).len(), |j: int| group_1_2(r, j))
}

/// Version 2 to 3: the organization becomes optional and keeps its value; the
/// new name starts empty.
pub open spec fn step_2_3(r: RecordV2Model) -> RecordV3Model {
    RecordV3Model {
        data: TeamDataV3Model {
            id: r.data.id,
            number: r.data.number,
            name: Seq::empty(),
            organization: Some(r.data.organization),
            socials: r.data.socials,
        },
        notes: r.notes,
    }
}

/// The image list that a single image string stands for: nothing for an
/// empty string, else that one name.
pub open spec fn images_of(s: Seq<char>) -> Seq<Seq<char>> {
    if s.len() == 0 {
        Seq::empty()
    } else {
        seq![s]
    }
}

pub open spec fn upgrade_robot(r: RobotV1) -> RobotModel {
    RobotModel {
        team: r.team,
        images: images_of(r.images@),
        status: r.status,
        features: r.features@,
        autons: Seq::empty(),
    }
}

/// Version 3 to 4: robot images become a list, with no routines yet.
pub open spec fn step_3_4(r: RecordV3Model) -> RecordV4Model {
    RecordV4Model {
        data: r.data,
        notes: TeamNotesModel {
            robots: r.notes.robots.map_values(|x: RobotV1| upgrade_robot(x)),
            members: r.notes.members,
            entries: r.notes.entries,
            driving: r.notes.driving,
            strategy: r.notes.strategy,
            notes: r.notes.notes,
            lock: r.notes.lock,
        },
    }
}

pub open spec fn upgrade_social(a: SocialAccV1Model) -> SocialAccModel {
    SocialAccModel { platform: a.platform, url: a.url, name: a.name, profile_pic_url: None }
}

/// Version 4 to 5: an empty location is added, and accounts get no picture.
pub open spec fn step_4_5(r: RecordV4Model) -> TeamModel {
    TeamModel {
        data: TeamDataModel {
            id: r.data.id,
            number: r.data.number,
            name: r.data.name,
            organization: r.data.organization,
            location: LocationModel::empty(),
            socials: r.data.socials.map_values(|a: SocialAccV1Model| upgrade_social(a)),
        },
        notes: r.notes,
    }
}

/// One version up; the latest version stays as it is.
pub open spec fn step(m: RecordModel) -> RecordModel {
    match m {
        RecordModel::V1(r) => RecordModel::V2(step_1_2(r)),
        RecordModel::V2(s) => RecordModel::V3(s.map_values(|r: RecordV2Model| step_2_3(r))),
        RecordModel::V3(s) => RecordModel::V4(s.map_values(|r: RecordV3Model| step_3_4(r))),
        RecordModel::V4(s) => RecordModel::V5(s.map_values(|r: RecordV4Model| step_4_5(r))),
        RecordModel::V5(s) => RecordModel::V5(s),
    }
}

/// The record after one step at a time up to version `to`.
pub open spec fn upgrade_to(m: RecordModel, to: int) -> RecordModel
    decreases to - m.version(),
{
    if m.version() >= to || m.version() >= LATEST_VERSION {
        m
    } else {
        upgrade_to(step(m), to)
    }
}

/// What `migrate` gives for a record declared at version `from`.
pub open spec fn migrate_spec(m: RecordModel, from: int, to: int) -> Result<
    RecordModel,
    MigrationError,
> {
    if m.version() != from || !m.valid() {
        Err(MigrationError::InvalidSource)
    } else if to < from || to > LATEST_VERSION {
        Err(MigrationError::UnsupportedDirection)
    } else {
        Ok(upgrade_to(m, to))
    }
}

/// Every id of `s` is a key: among `seen` or among the new ids.
pub proof fn lemma_new_ids_cover(seen: Seq<u32>, s: Seq<u32>)
    ensures
        forall|i: int| 0 <= i < s.len() ==> (seen + new_ids(seen, s)).contains(#[trigger] s[i]),
    decreases s.len(),
{
    if s.len() > 0 {
        let d = s.drop_last();
        lemma_new_ids_cover(seen, d);
        let r = new_ids(seen, d);
        assert forall|i: int| 0 <= i < s.len() implies (seen + new_ids(seen, s)).contains(
            #[trigger] s[i],
        ) by {
            let all = seen + new_ids(seen, s);
            if i < d.len() {
                assert(d[i] == s[i]);
                let k = choose|k: int| 0 <= k < (seen + r).len() && (seen + r)[k] == d[i];
                if k < seen.len() {
                    assert(all[k] == s[i]);
                } else {
                    assert(all[k] == s[i]);
                }
            } else {
                if seen.contains(s.last()) {
                    let k = choose|k: int| 0 <= k < seen.len() && seen[k] == s.last();
                    assert(all[k] == s[i]);
                } else if r.contains(s.last()) {
                    let k = choose|k: int| 0 <= k < r.len() && r[k] == s.last();
                    assert(all[seen.len() + k] == s[i]);
                } else {
                    assert(all[all.len() - 1] == s[i]);
                }
            }
        }
    }
}

/// A key that occurs has a first occurrence.
pub proof fn lemma_first_owner(keys: Seq<u32>, id: u32)
    requires
        keys.contains(id),
    ensures
        exists|j: int| owns(keys, j, id),
    decreases keys.len(),
{
    let d = keys.drop_last();
    if d.contains(id) {
        lemma_first_owner(d, id);
        let j = choose|j: int| owns(d, j, id);
        assert forall|i: int| 0 <= i < j implies keys[i] != id by {
            assert(keys[i] == d[i]);
        }
        assert(owns(keys, j, id));
    } else {
        assert(owns(keys, keys.len() - 1, id));
    }
}

/// Entities tagged `id` have a group, and its team carries `id`.
pub open spec fn lands(r: RecordV1Model, id: u32) -> bool {
    exists|j: int| owns(group_keys(r), j, id) && step_1_2(r)[j].data.id == id
}

/// Grouping is exact: every flat entity's team id has exactly one group,
/// that group's team carries the id, and each group holds its entities in
/// input order.
pub proof fn lemma_grouping_exact(r: RecordV1Model)
    ensures
        forall|i: int| 0 <= i < entity_ids(r).len() ==> lands(r, #[trigger] entity_ids(r)[i]),
        forall|j1: int, j2: int, id: u32|
            owns(group_keys(r), j1, id) && owns(group_keys(r), j2, id) ==> j1 == j2,
        forall|j: int|
            0 <= j < step_1_2(r).len() ==> (#[trigger] step_1_2(r)[j]).data.id == group_keys(r)[j]
                && step_1_2(r)[j].notes.entries == grouped(r.notes, group_keys(r), j)
                && step_1_2(r)[j].notes.members == grouped(r.members, group_keys(r), j)
                && step_1_2(r)[j].notes.robots == grouped(r.robots, group_keys(r), j),
{
    let keys = group_keys(r);
    let ents = entity_ids(r);
    lemma_new_ids_cover(team_ids(r), ents);
    assert forall|j: int| 0 <= j < step_1_2(r).len() implies (#[trigger] step_1_2(r)[j]).data.id
        == keys[j] by {
        if j < r.teams.len() {
            assert(keys[j] == team_ids(r)[j]);
        }
    }
    assert forall|i: int| 0 <= i < entity_ids(r).len() implies lands(
        r,
        #[trigger] entity_ids(r)[i],
    ) by {
        let id = entity_ids(r)[i];
        assert(keys.contains(id));
        lemma_first_owner(keys, id);
        let j = choose|j: int| owns(keys, j, id);
        assert(step_1_2(r)[j].data.id == keys[j]);
        assert(owns(group_keys(r), j, id) && step_1_2(r)[j].data.id == id);
    }
    assert forall|j1: int, j2: int, id: u32|
        owns(keys, j1, id) && owns(keys, j2, id) implies j1 == j2 by {
        if j1 < j2 {
            assert(keys[j1] != id);
        } else if j2 < j1 {
            assert(keys[j2] != id);
        }
    }
}

/// Where `id` first occurs among the keys, if at all.
fn position(keys: &Vec<u32>, id: u32) -> (r: Option<usize>)
    ensures
        match r {
            Some(j) => owns(keys@, j as int, id),
            None => !keys@.contains(id),
        },
{
    let mut k: usize = 0;
    while k < keys.len()
        invariant
            k <= keys@.len(),
            forall|i: int| 0 <= i < k ==> keys@[i] != id,
        decreases keys.len() - k,
    {
        if keys[k] == id {
            return Some(k);
        }
        k = k + 1;
    }
    None
}

fn collect_keys(r: &RecordV1) -> (keys: Vec<u32>)
    ensures
        keys@ == group_keys(r@),
{
    let ghost m = r@;
    let ghost tids = team_ids(m);
    let ghost ents = entity_ids(m);
    let mut keys: Vec<u32> = Vec::new();
    let mut i: usize = 0;
    while i < r.teams.len()
        invariant
            m == r@,
            tids == team_ids(m),
            i <= r.teams@.len(),
            keys@ == tids.subrange(0, i as int),
        decreases r.teams.len() - i,
    {
        keys.push(r.teams[i].data.id);
        assert(keys@ =~= tids.subrange(0, i + 1));
        i = i + 1;
    }
    assert(keys@ =~= tids);
    let mut all: Vec<u32> = Vec::new();
    let nn = r.notes.len();
    let nm = r.members.len();
    let nr = r.robots.len();
    assert(ents.len() == nn + nm + nr);
    i = 0;
    while i < nn
        invariant
            m == r@,
            ents == entity_ids(m),
            nn == r.notes@.len(),
            i <= nn,
            all@ == ents.subrange(0, i as int),
        decreases nn - i,
    {
        all.push(r.notes[i].team_id());
        assert(ents[i as int] == r.notes@[i as int].team);
        assert(all@ =~= ents.subrange(0, i + 1));
        i = i + 1;
    }
    i = 0;
    while i < nm
        invariant
            m == r@,
            ents == entity_ids(m),
            nn == r.notes@.len(),
            nm == r.members@.len(),
            i <= nm,
            all@ == ents.subrange(0, nn + i),
        decreases nm - i,
    {
        all.push(r.members[i].team_id());
        assert(ents[nn + i] == r.members@[i as int].team);
        assert(all@ =~= ents.subrange(0, nn + i + 1));
        i = i + 1;
    }
    i = 0;
    while i < nr
        invariant
            m == r@,
            ents == entity_ids(m),
            nn == r.notes@.len(),
            nm == r.members@.len(),
            nr == r.robots@.len(),
            i <= nr,
            all@ == ents.subrange(0, nn + nm + i),
        decreases nr - i,
    {
        all.push(r.robots[i].team_id());
        assert(ents[nn + nm + i] == r.robots@[i as int].team);
        assert(all@ =~= ents.subrange(0, nn + nm + i + 1));
        i = i + 1;
    }
    assert(all@ =~= ents);
    i = 0;
    while i < all.len()
        invariant
            i <= all@.len(),
            keys@ == tids + new_ids(tids, all@.subrange(0, i as int)),
        decreases all.len() - i,
    {
        let x = all[i];
        let ghost before = all@.subrange(0, i as int);
        let ghost after = all@.subrange(0, i + 1);
        assert(after.drop_last() =~= before);
        assert(after.last() == x);
        let ghost rest = new_ids(tids, before);
        match position(&keys, x) {
            Some(j) => {
                proof {
                    if (j as int) < tids.len() {
                        assert(tids[j as int] == x);
                        assert(tids.contains(x));
                    } else {
                        assert(rest[j - tids.len()] == x);
                        assert(rest.contains(x));
                    }
                }
            },
            None => {
                proof {
                    if tids.contains(x) {
                        let k = choose|k: int| 0 <= k < tids.len() && tids[k] == x;
                        assert(keys@[k] == x);
                    }
                    if rest.contains(x) {
                        let k = choose|k: int| 0 <= k < rest.len() && rest[k] == x;
                        assert(keys@[tids.len() + k] == x);
                    }
                }
                keys.push(x);
                assert(keys@ =~= tids + rest.push(x));
            },
        }
        i = i + 1;
    }
    assert(all@.subrange(0, all@.len() as int) =~= all@);
    keys
}

/// Splits tagged entities into one list per key, each entity going to the
/// first key equal to its tag, keeping input order within each list.
fn group<T: Tagged>(items: Vec<T>, keys: &Vec<u32>) -> (g: Vec<Vec<T>>)
    requires
        forall|i: int| 0 <= i < items@.len() ==> keys@.contains(#[trigger] items@[i].tag()),
    ensures
        g@.len() == keys@.len(),
        forall|j: int| 0 <= j < keys@.len() ==> (#[trigger] g@[j])@ == grouped(items@, keys@, j),
{
    let mut g: Vec<Vec<T>> = Vec::new();
    let mut k: usize = 0;
    while k < keys.len()
        invariant
            k <= keys@.len(),
            g@.len() == k,
            forall|j: int| 0 <= j < k ==> (#[trigger] g@[j])@ == Seq::<T>::empty(),
        decreases keys.len() - k,
    {
        g.push(Vec::new());
        k = k + 1;
    }
    let ghost orig = items@;
    let n = items.len();
    let mut rest = items;
    let mut done: usize = 0;
    while rest.len() > 0
        invariant
            n == orig.len(),
            done + rest@.len() == orig.len(),
            rest@ == orig.subrange(done as int, orig.len() as int),
            forall|i: int| 0 <= i < orig.len() ==> keys@.contains(#[trigger] orig[i].tag()),
            g@.len() == keys@.len(),
            forall|j: int|
                0 <= j < keys@.len() ==> (#[trigger] g@[j])@ == grouped(
                    orig.subrange(0, done as int),
                    keys@,
                    j,
                ),
        decreases rest.len(),
    {
        let x = rest.remove(0);
        assert(x == orig[done as int]);
        let id = x.team_id();
        let pos = position(keys, id);
        let j = match pos {
            Some(j) => j,
            None => {
                assert(keys@.contains(orig[done as int].tag()));
                0
            },
        };
        let ghost prev = orig.subrange(0, done as int);
        assert(orig.subrange(0, done + 1) =~= prev.push(x));
        let ghost old_g = g@;
        let mut bucket = g.remove(j);
        bucket.push(x);
        g.insert(j, bucket);
        assert forall|jj: int| 0 <= jj < keys@.len() implies (#[trigger] g@[jj])@ == grouped(
            orig.subrange(0, done + 1),
            keys@,
            jj,
        ) by {
            let p = |y: T| owns(keys@, jj, y.tag());
            prev.lemma_filter_push(x, p);
            if jj == j {
                assert(g@[jj]@ == old_g[jj]@.push(x));
            } else {
                assert(g@[jj] == old_g[jj]);
                assert(!owns(keys@, jj, x.tag())) by {
                    if jj < j {
                        assert(keys@[jj] != id);
                    } else {
                        assert(keys@[j as int] == id);
                    }
                }
            }
        }
        done = done + 1;
    }
    assert(orig.subrange(0, orig.len() as int) =~= orig);
    g
}

fn upgrade_1_2(r: RecordV1) -> (o: Vec<RecordV2>)
    ensures
        o@.map_values(|x: RecordV2| x@) == step_1_2(r@),
{
    let ghost m = r@;
    let keys = collect_keys(&r);
    let nn = r.notes.len();
    let nm = r.members.len();
    proof {
        let ents = entity_ids(m);
        lemma_new_ids_cover(team_ids(m), ents);
        assert forall|i: int| 0 <= i < r.notes@.len() implies keys@.contains(
            #[trigger] r.notes@[i].tag(),
        ) by {
            assert(ents[i] == r.notes@[i].team);
        }
        assert forall|i: int| 0 <= i < r.members@.len() implies keys@.contains(
            #[trigger] r.members@[i].tag(),
        ) by {
            assert(ents[nn + i] == r.members@[i].team);
        }
        assert forall|i: int| 0 <= i < r.robots@.len() implies keys@.contains(
            #[trigger] r.robots@[i].tag(),
        ) by {
            assert(ents[nn + nm + i] == r.robots@[i].team);
        }
    }
    let RecordV1 { teams, notes, members, robots } = r;
    let mut gn = group(notes, &keys);
    let mut gm = group(members, &keys);
    let mut gr = group(robots, &keys);
    let ghost gn0 = gn@;
    let ghost gm0 = gm@;
    let ghost gr0 = gr@;
    let ghost teams0 = teams@;
    let nt = teams.len();
    let mut teams = teams;
    let mut out: Vec<RecordV2> = Vec::new();
    let mut j: usize = 0;
    while j < keys.len()
        invariant
            keys@ == group_keys(m),
            nt == m.teams.len(),
            teams0.map_values(|t: crate::schema::TeamV1| t@) == m.teams,
            nt <= keys@.len(),
            j <= keys@.len(),
            gn0.len() == keys@.len(),
            gm0.len() == keys@.len(),
            gr0.len() == keys@.len(),
            forall|jj: int| 0 <= jj < keys@.len() ==> (#[trigger] gn0[jj])@ == grouped(m.notes, keys@, jj),
            forall|jj: int| 0 <= jj < keys@.len() ==> (#[trigger] gm0[jj])@ == grouped(m.members, keys@, jj),
            forall|jj: int| 0 <= jj < keys@.len() ==> (#[trigger] gr0[jj])@ == grouped(m.robots, keys@, jj),
            gn@ == gn0.subrange(j as int, keys@.len() as int),
            gm@ == gm0.subrange(j as int, keys@.len() as int),
            gr@ == gr0.subrange(j as int, keys@.len() as int),
            j <= nt ==> teams@ == teams0.subrange(j as int, nt as int),
            j >= nt ==> teams@.len() == 0,
            out@.len() == j,
            forall|i: int| 0 <= i < j ==> (#[trigger] out@[i])@ == group_1_2(m, i),
        decreases keys.len() - j,
    {
        let ghost jj = j as int;
        let (data, lock) = if teams.len() > 0 {
            let t = teams.remove(0);
            assert(t@ == m.teams[jj]);
            (t.data, t.lock)
        } else {
            let d = TeamDataV1 {
                id: keys[j],
                number: String::new(),
                organization: String::new(),
                socials: Vec::new(),
            };
            assert(d@.socials =~= Seq::<SocialAccV1Model>::empty());
            (d, Lock::Unlocked)
        };
        let entries = gn.remove(0);
        let mem = gm.remove(0);
        let rob = gr.remove(0);
        let rec = RecordV2 {
            data,
            notes: TeamNotesV2 {
                robots: rob,
                members: mem,
                entries,
                driving: String::new(),
                strategy: String::new(),
                notes: String::new(),
                lock,
            },
        };
        assert(rec@.notes.driving =~= Seq::<char>::empty());
        assert(rec@.notes.strategy =~= Seq::<char>::empty());
        assert(rec@.notes.notes =~= Seq::<char>::empty());
        assert(rec@.data == group_1_2(m, jj).data);
        assert(rec@.notes == group_1_2(m, jj).notes);
        out.push(rec);
        j = j + 1;
    }
    assert(out@.map_values(|x: RecordV2| x@) =~= step_1_2(m));
    out
}

fn upgrade_robot_exec(r: RobotV1) -> (o: Robot)
    ensures
        o@ == upgrade_robot(r),
{
    let images: Vec<String> = if r.images.as_str().is_empty() {
        Vec::new()
    } else {
        vec![r.images]
    };
    let o = Robot {
        team: r.team,
        images,
        status: r.status,
        features: r.features,
        autons: Vec::new(),
    };
    assert(o@.images =~= upgrade_robot(r).images);
    assert(o@.autons =~= Seq::<RobotAuton>::empty());
    o
}

fn upgrade_robots(robots: Vec<RobotV1>) -> (o: Vec<Robot>)
    ensures
        o@.map_values(|x: Robot| x@) == robots@.map_values(|x: RobotV1| upgrade_robot(x)),
{
    let ghost orig = robots@;
    let mut rest = robots;
    let mut out: Vec<Robot> = Vec::new();
    while rest.len() > 0
        invariant
            out@.len() + rest@.len() == orig.len(),
            rest@ == orig.subrange(out@.len() as int, orig.len() as int),
            forall|i: int| 0 <= i < out@.len() ==> (#[trigger] out@[i])@ == upgrade_robot(orig[i]),
        decreases rest.len(),
    {
        let r = rest.remove(0);
        out.push(upgrade_robot_exec(r));
    }
    assert(out@.map_values(|x: Robot| x@) =~= orig.map_values(|x: RobotV1| upgrade_robot(x)));
    out
}

fn upgrade_socials(socials: Vec<SocialAccV1>) -> (o: Vec<SocialAcc>)
    ensures
        o@.map_values(|x: SocialAcc| x@) == socials@.map_values(|x: SocialAccV1| x@).map_values(
            |x: SocialAccV1Model| upgrade_social(x),
        ),
{
    let ghost orig = socials@;
    let mut rest = socials;
    let mut out: Vec<SocialAcc> = Vec::new();
    while rest.len() > 0
        invariant
            out@.len() + rest@.len() == orig.len(),
            rest@ == orig.subrange(out@.len() as int, orig.len() as int),
            forall|i: int| 0 <= i < out@.len() ==> (#[trigger] out@[i])@ == upgrade_social(orig[i]@),
        decreases rest.len(),
    {
        let a = rest.remove(0);
        out.push(SocialAcc { platform: a.platform, url: a.url, name: a.name, profile_pic_url: None });
    }
    assert(out@.map_values(|x: SocialAcc| x@) =~= orig.map_values(|x: SocialAccV1| x@).map_values(
        |x: SocialAccV1Model| upgrade_social(x),
    ));
    out
}

fn team_2_3(r: RecordV2) -> (o: RecordV3)
    ensures
        o@ == step_2_3(r@),
{
    RecordV3 {
        data: TeamDataV3 {
            id: r.data.id,
            number: r.data.number,
            name: String::new(),
            organization: Some(r.data.organization),
            socials: r.data.socials,
        },
        notes: r.notes,
    }
}

fn team_3_4(r: RecordV3) -> (o: RecordV4)
    ensures
        o@ == step_3_4(r@),
{
    let n = r.notes;
    RecordV4 {
        data: r.data,
        notes: TeamNotes {
            robots: upgrade_robots(n.robots),
            members: n.members,
            entries: n.entries,
            driving: n.driving,
            strategy: n.strategy,
            notes: n.notes,
            lock: n.lock,
        },
    }
}

fn team_4_5(r: RecordV4) -> (o: Team)
    ensures
        o@ == step_4_5(r@),
{
    let d = r.data;
    Team {
        data: TeamData {
            id: d.id,
            number: d.number,
            name: d.name,
            organization: d.organization,
            location: Location::default(),
            socials: upgrade_socials(d.socials),
        },
        notes: r.notes,
    }
}

fn upgrade_2_3(v: Vec<RecordV2>) -> (o: Vec<RecordV3>)
    ensures
        o@.map_values(|x: RecordV3| x@) == v@.map_values(|x: RecordV2| x@).map_values(
            |x: RecordV2Model| step_2_3(x),
        ),
{
    let ghost orig = v@;
    let mut rest = v;
    let mut out: Vec<RecordV3> = Vec::new();
    while rest.len() > 0
        invariant
            out@.len() + rest@.len() == orig.len(),
            rest@ == orig.subrange(out@.len() as int, orig.len() as int),
            forall|i: int| 0 <= i < out@.len() ==> (#[trigger] out@[i])@ == step_2_3(orig[i]@),
        decreases rest.len(),
    {
        let x = rest.remove(0);
        out.push(team_2_3(x));
    }
    assert(out@.map_values(|x: RecordV3| x@) =~= orig.map_values(|x: RecordV2| x@).map_values(
        |x: RecordV2Model| step_2_3(x),
    ));
    out
}

fn upgrade_3_4(v: Vec<RecordV3>) -> (o: Vec<RecordV4>)
    ensures
        o@.map_values(|x: RecordV4| x@) == v@.map_values(|x: RecordV3| x@).map_values(
            |x: RecordV3Model| step_3_4(x),
        ),
{
    let ghost orig = v@;
    let mut rest = v;
    let mut out: Vec<RecordV4> = Vec::new();
    while rest.len() > 0
        invariant
            out@.len() + rest@.len() == orig.len(),
            rest@ == orig.subrange(out@.len() as int, orig.len() as int),
            forall|i: int| 0 <= i < out@.len() ==> (#[trigger] out@[i])@ == step_3_4(orig[i]@),
        decreases rest.len(),
    {
        let x = rest.remove(0);
        out.push(team_3_4(x));
    }
    assert(out@.map_values(|x: RecordV4| x@) =~= orig.map_values(|x: RecordV3| x@).map_values(
        |x: RecordV3Model| step_3_4(x),
    ));
    out
}

fn upgrade_4_5(v: Vec<RecordV4>) -> (o: Vec<Team>)
    ensures
        o@.map_values(|x: Team| x@) == v@.map_values(|x: RecordV4| x@).map_values(
            |x: RecordV4Model| step_4_5(x),
        ),
{
    let ghost orig = v@;
    let mut rest = v;
    let mut out: Vec<Team> = Vec::new();
    while rest.len() > 0
        invariant
            out@.len() + rest@.len() == orig.len(),
            rest@ == orig.subrange(out@.len() as int, orig.len() as int),
            forall|i: int| 0 <= i < out@.len() ==> (#[trigger] out@[i])@ == step_4_5(orig[i]@),
        decreases rest.len(),
    {
        let x = rest.remove(0);
        out.push(team_4_5(x));
    }
    assert(out@.map_values(|x: Team| x@) =~= orig.map_values(|x: RecordV4| x@).map_values(
        |x: RecordV4Model| step_4_5(x),
    ));
    out
}

fn locations_valid(teams: &Vec<Team>) -> (b: bool)
    ensures
        b == forall|i: int| 0 <= i < teams@.len() ==> (#[trigger] teams@[i])@.valid(),
{
    let mut k: usize = 0;
    while k < teams.len()
        invariant
            k <= teams@.len(),
            forall|i: int| 0 <= i < k ==> (#[trigger] teams@[i])@.valid(),
        decreases teams.len() - k,
    {
        let loc = &teams[k].data.location;
        if !(-COORD_LIMIT <= loc.latitude && loc.latitude <= COORD_LIMIT && -COORD_LIMIT
            <= loc.longitude && loc.longitude <= COORD_LIMIT) {
            return false;
        }
        k = k + 1;
    }
    true
}

impl VersionedRecord {
    /// The schema version the record is written in.
    pub fn version(&self) -> (v: u32)
        ensures
            v == self@.version(),
    {
        match self {
            VersionedRecord::V1(_) => 1,
            VersionedRecord::V2(_) => 2,
            VersionedRecord::V3(_) => 3,
            VersionedRecord::V4(_) => 4,
            VersionedRecord::V5(_) => 5,
        }
    }

    /// Whether the record matches the shape of its version.
    pub fn is_valid(&self) -> (b: bool)
        ensures
            b == self@.valid(),
    {
        match self {
            VersionedRecord::V5(teams) => {
                let b = locations_valid(teams);
                proof {
                    let ts = teams@.map_values(|t: Team| t@);
                    assert(forall|i: int|
                        #![trigger ts[i]]
                        #![trigger teams@[i]]
                        0 <= i < teams@.len() ==> ts[i] == teams@[i]@);
                }
                b
            },
            _ => true,
        }
    }

    /// Moves the record one version up; a record of the latest version is
    /// returned as it is.
    pub fn step(self) -> (o: VersionedRecord)
        ensures
            o@ == step(self@),
    {
        match self {
            VersionedRecord::V1(r) => VersionedRecord::V2(upgrade_1_2(r)),
            VersionedRecord::V2(v) => VersionedRecord::V3(upgrade_2_3(v)),
            VersionedRecord::V3(v) => VersionedRecord::V4(upgrade_3_4(v)),
            VersionedRecord::V4(v) => VersionedRecord::V5(upgrade_4_5(v)),
            VersionedRecord::V5(v) => VersionedRecord::V5(v),
        }
    }
}

/// Upgrades a record declared at version `from` to version `to`, one version
/// at a time. Fails with `InvalidSource` when the record is not of version
/// `from` or holds a location out of range, and with `UnsupportedDirection`
/// when `to` is older than `from` or newer than the latest version.
pub fn migrate(record: VersionedRecord, from: u32, to: u32) -> (r: Result<
    VersionedRecord,
    MigrationError,
>)
    ensures
        match r {
            Ok(o) => migrate_spec(record@, from as int, to as int) == Ok::<
                RecordModel,
                MigrationError,
            >(o@),
            Err(e) => migrate_spec(record@, from as int, to as int) == Err::<
                RecordModel,
                MigrationError,
            >(e),
        },
{
    if record.version() != from || !record.is_valid() {
        return Err(MigrationError::InvalidSource);
    }
    if to < from || to > LATEST_VERSION {
        return Err(MigrationError::UnsupportedDirection);
    }
    let ghost start = record@;
    let mut cur = record;
    let mut v: u32 = from;
    while v < to
        invariant
            from <= v <= to <= LATEST_VERSION,
            cur@.version() == v,
            upgrade_to(cur@, to as int) == upgrade_to(start, to as int),
        decreases to - v,
    {
        cur = cur.step();
        v = v + 1;
    }
    Ok(cur)
}

/// One step up keeps a record well-formed and raises its version by one.
pub proof fn lemma_step_valid(m: RecordModel)
    requires
        m.valid(),
        m.version() < LATEST_VERSION,
    ensures
        step(m).valid(),
        step(m).version() == m.version() + 1,
{
}

/// Migration is total: every record that is well-formed at version `k` below
/// the latest migrates to version `k + 1`, and the result is well-formed there.
pub proof fn lemma_migration_total(m: RecordModel, k: int)
    requires
        m.valid(),
        m.version() == k,
        k < LATEST_VERSION,
    ensures
        migrate_spec(m, k, k + 1) matches Ok(o) && o.valid() && o.version() == k + 1
            && o == step(m),
{
    lemma_step_valid(m);
    assert(upgrade_to(step(m), k + 1) == step(m));
    assert(upgrade_to(m, k + 1) == step(m));
}

/// Migrating a record to its own version gives it back unchanged.
pub proof fn lemma_migrate_same_version(m: RecordModel)
    requires
        m.valid(),
    ensures
        migrate_spec(m, m.version() as int, m.version() as int) == Ok::<
            RecordModel,
            MigrationError,
        >(m),
{
}

/// Migration is idempotent at the target: migrating the result of a step
/// from `k` to `k + 1` again, from `k + 1` to `k + 1`, changes nothing.
pub proof fn lemma_migration_idempotent(m: RecordModel, k: int)
    requires
        m.valid(),
        m.version() == k,
        k < LATEST_VERSION,
    ensures
        migrate_spec(m, k, k + 1) matches Ok(o) && migrate_spec(o, k + 1, k + 1) == migrate_spec(
            m,
            k,
            k + 1,
        ),
{
    lemma_migration_total(m, k);
    lemma_migrate_same_version(step(m));
}

/// The image conversion, for every team and robot: a single image string
/// becomes the one-element list of it, and an empty string the empty list;
/// the next step up keeps that list.
pub proof fn lemma_images_wrapped(s: Seq<RecordV3Model>, i: int, x: int)
    requires
        0 <= i < s.len(),
        0 <= x < s[i].notes.robots.len(),
    ensures
        step(RecordModel::V3(s)) == RecordModel::V4(
            s.map_values(|r: RecordV3Model| step_3_4(r)),
        ),
        step_3_4(s[i]).notes.robots[x].images == images_of(s[i].notes.robots[x].images@),
        step_4_5(step_3_4(s[i])).notes.robots[x].images == images_of(
            s[i].notes.robots[x].images@,
        ),
        s[i].notes.robots[x].images@.len() == 0 ==> images_of(s[i].notes.robots[x].images@)
            == Seq::<Seq<char>>::empty(),
        s[i].notes.robots[x].images@.len() > 0 ==> images_of(s[i].notes.robots[x].images@)
            == seq![s[i].notes.robots[x].images@],
{
}

} // verus!
