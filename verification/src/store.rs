//! The artifact store: records kept under their ids, in the order in which
//! they were created.

use vstd::prelude::*;
use vstd::string::StringExecFns;
use crate::error::AppError;
use crate::schemas::artifact::{Artifact, ArtifactSummary, ArtifactSummaryView, ArtifactView};
use crate::schemas::project::{opt_project, Project, ProjectView};

verus! {

/// Whether some record has the id.
pub open spec fn holds_id(records: Seq<ArtifactView>, id: Seq<char>) -> bool {
    exists|i: int| 0 <= i < records.len() && (#[trigger] records[i]).id == id
}

/// No two records share an id.
pub open spec fn distinct_ids(records: Seq<ArtifactView>) -> bool {
    forall|i: int, j: int|
        0 <= i < j < records.len() ==> (#[trigger] records[i]).id != (#[trigger] records[j]).id
}

/// The place of the record with the id, where there is one.
pub open spec fn position_of(records: Seq<ArtifactView>, id: Seq<char>) -> int {
    choose|i: int| 0 <= i < records.len() && (#[trigger] records[i]).id == id
}

/// The record with the id, if there is one.
pub open spec fn lookup(records: Seq<ArtifactView>, id: Seq<char>) -> Option<ArtifactView> {
    if holds_id(records, id) {
        Some(records[position_of(records, id)])
    } else {
        None
    }
}

/// The views of a list of artifacts, in order.
pub open spec fn views(list: Seq<Artifact>) -> Seq<ArtifactView> {
    list.map_values(|a: Artifact| a@)
}

/// The views of a list of projects, in order.
pub open spec fn project_views(list: Seq<Project>) -> Seq<ProjectView> {
    list.map_values(|p: Project| p@)
}

/// Whether `i` is the place of the first project with the id.
pub open spec fn is_first_project(projects: Seq<ProjectView>, id: Seq<char>, i: int) -> bool {
    &&& 0 <= i < projects.len()
    &&& projects[i].id == id
    &&& forall|j: int| 0 <= j < i ==> (#[trigger] projects[j]).id != id
}

/// The first project with the id, if there is one.
pub open spec fn find_project(projects: Seq<ProjectView>, id: Seq<char>) -> Option<ProjectView> {
    if exists|i: int| is_first_project(projects, id, i) {
        Some(projects[choose|i: int| is_first_project(projects, id, i)])
    } else {
        None
    }
}

/// Among records with distinct ids, the record at a place is the one that
/// its id finds.
pub proof fn lemma_lookup_at(records: Seq<ArtifactView>, i: int)
    requires
        distinct_ids(records),
        0 <= i < records.len(),
    ensures
        holds_id(records, records[i].id),
        position_of(records, records[i].id) == i,
        lookup(records, records[i].id) == Some(records[i]),
{
    let id = records[i].id;
    assert(holds_id(records, id));
    let j = position_of(records, id);
    assert(0 <= j < records.len() && records[j].id == id);
    if j < i {
        assert(records[j].id != records[i].id);
    } else if i < j {
        assert(records[i].id != records[j].id);
    }
}

/// One branch of a project in a listing: the branch and the artifacts filed
/// under it.
#[derive(Debug)]
pub struct BranchGroup {
    pub branch: String,
    pub artifacts: Vec<ArtifactSummary>,
}

/// What a `BranchGroup` holds, as plain values.
pub struct BranchGroupView {
    pub branch: Seq<char>,
    pub artifacts: Seq<ArtifactSummaryView>,
}

/// The views of a list of summaries, in order.
pub open spec fn summary_views(list: Seq<ArtifactSummary>) -> Seq<ArtifactSummaryView> {
    list.map_values(|a: ArtifactSummary| a@)
}

impl View for BranchGroup {
    type V = BranchGroupView;

    open spec fn view(&self) -> BranchGroupView {
        BranchGroupView { branch: self.branch@, artifacts: summary_views(self.artifacts@) }
    }
}

/// The views of a list of groups, in order.
pub open spec fn group_views(list: Seq<BranchGroup>) -> Seq<BranchGroupView> {
    list.map_values(|g: BranchGroup| g@)
}

/// Whether the record belongs to the branch of the project.
pub open spec fn in_group(record: ArtifactView, project_id: Seq<char>, branch: Seq<char>) -> bool {
    record.project_id == project_id && record.branch == branch
}

/// Whether some record belongs to the branch of the project.
pub open spec fn branch_occurs(
    records: Seq<ArtifactView>,
    project_id: Seq<char>,
    branch: Seq<char>,
) -> bool {
    exists|i: int| 0 <= i < records.len() && in_group(#[trigger] records[i], project_id, branch)
}

/// Whether `summary` is the summary of a record of the branch of the
/// project.
pub open spec fn is_summary_in_group(
    records: Seq<ArtifactView>,
    project_id: Seq<char>,
    branch: Seq<char>,
    summary: ArtifactSummaryView,
) -> bool {
    exists|i: int|
        0 <= i < records.len() && in_group(#[trigger] records[i], project_id, branch)
            && records[i].summary() == summary
}

/// Whether the record at place `i` is listed before the record at place
/// `j`: it was created earlier, or at the same time and stored earlier.
pub open spec fn comes_before(records: Seq<ArtifactView>, i: int, j: int) -> bool {
    records[i].created_at < records[j].created_at || (records[i].created_at
        == records[j].created_at && i < j)
}

/// Whether `order` lists the places of exactly those of the first `n`
/// records that belong to the branch of the project, each before every
/// record that it comes before.
pub open spec fn is_group_order_of_first(
    records: Seq<ArtifactView>,
    project_id: Seq<char>,
    branch: Seq<char>,
    order: Seq<int>,
    n: int,
) -> bool {
    &&& forall|k: int|
        0 <= k < order.len() ==> 0 <= #[trigger] order[k] < n && in_group(
            records[order[k]],
            project_id,
            branch,
        )
    &&& forall|k: int, l: int|
        0 <= k < l < order.len() ==> comes_before(records, #[trigger] order[k], #[trigger] order[l])
    &&& forall|i: int|
        0 <= i < n && in_group(#[trigger] records[i], project_id, branch) ==> order.contains(i)
}

/// Whether `order` lists the places of exactly the records of the branch of
/// the project, by ascending creation time, records of one creation time in
/// the order in which they were stored.
pub open spec fn is_group_order(
    records: Seq<ArtifactView>,
    project_id: Seq<char>,
    branch: Seq<char>,
    order: Seq<int>,
) -> bool {
    is_group_order_of_first(records, project_id, branch, order, records.len() as int)
}

/// The summaries of the records at the places that `order` lists.
pub open spec fn summaries_in_order(records: Seq<ArtifactView>, order: Seq<int>) -> Seq<
    ArtifactSummaryView,
> {
    order.map_values(|i: int| records[i].summary())
}

/// Whether `group` holds the summaries of exactly the records of its branch
/// of the project, by ascending creation time.
pub open spec fn is_group(
    records: Seq<ArtifactView>,
    project_id: Seq<char>,
    group: BranchGroupView,
) -> bool {
    exists|order: Seq<int>| #[trigger]
        is_group_order(records, project_id, group.branch, order) && group.artifacts
            == summaries_in_order(records, order)
}

/// Whether `i` is the place of the first record of the branch of the
/// project.
pub open spec fn is_first_place(
    records: Seq<ArtifactView>,
    project_id: Seq<char>,
    branch: Seq<char>,
    i: int,
) -> bool {
    &&& 0 <= i < records.len()
    &&& in_group(records[i], project_id, branch)
    &&& forall|k: int| 0 <= k < i ==> !in_group(#[trigger] records[k], project_id, branch)
}

/// The place of the first record of the branch of the project, where the
/// project has a record under the branch.
pub open spec fn first_place(
    records: Seq<ArtifactView>,
    project_id: Seq<char>,
    branch: Seq<char>,
) -> int {
    choose|i: int| is_first_place(records, project_id, branch, i)
}

/// Whether `groups` is the listing of the project: one group for each branch
/// under which the project has a record, none empty, each holding exactly
/// the records of its branch by ascending creation time, and the groups in
/// the order in which their branches first occur in the store.
pub open spec fn is_listing(
    records: Seq<ArtifactView>,
    project_id: Seq<char>,
    groups: Seq<BranchGroupView>,
) -> bool {
    &&& forall|g: int|
        0 <= g < groups.len() ==> (#[trigger] groups[g]).artifacts.len() > 0 && is_group(
            records,
            project_id,
            groups[g],
        )
    &&& forall|g: int, h: int|
        0 <= g < h < groups.len() ==> (#[trigger] groups[g]).branch != (#[trigger] groups[h]).branch
    &&& forall|g: int, h: int|
        0 <= g < h < groups.len() ==> first_place(
            records,
            project_id,
            (#[trigger] groups[g]).branch,
        ) < first_place(records, project_id, (#[trigger] groups[h]).branch)
    &&& forall|i: int|
        0 <= i < records.len() && (#[trigger] records[i]).project_id == project_id
            ==> exists|g: int|
            0 <= g < groups.len() && (#[trigger] groups[g]).branch == records[i].branch
}

/// A branch has one first place only.
pub proof fn lemma_first_place(
    records: Seq<ArtifactView>,
    project_id: Seq<char>,
    branch: Seq<char>,
    i: int,
)
    requires
        is_first_place(records, project_id, branch, i),
    ensures
        first_place(records, project_id, branch) == i,
{
    let c = first_place(records, project_id, branch);
    assert(is_first_place(records, project_id, branch, c));
    if c < i {
        assert(!in_group(records[c], project_id, branch));
    } else if i < c {
        assert(!in_group(records[i], project_id, branch));
    }
}

/// The artifact store.
#[derive(Debug)]
pub struct ArtifactStore {
    records: Vec<Artifact>,
}

impl View for ArtifactStore {
    type V = Seq<ArtifactView>;

    closed spec fn view(&self) -> Seq<ArtifactView> {
        views(self.records@)
    }
}

impl ArtifactStore {
    #[verifier::type_invariant]
    spec fn holds_invariant(self) -> bool {
        distinct_ids(self@)
    }

    /// An empty store.
    pub fn new() -> (r: ArtifactStore)
        ensures
            r@ == Seq::<ArtifactView>::empty(),
    {
        let r = ArtifactStore { records: Vec::new() };
        assert(r@ =~= Seq::<ArtifactView>::empty());
        r
    }

    /// The number of records.
    pub fn len(&self) -> (r: usize)
        ensures
            r == self@.len(),
            distinct_ids(self@),
    {
        proof {
            use_type_invariant(self);
        }
        self.records.len()
    }

    fn position(&self, artifact_id: &String) -> (r: Option<usize>)
        ensures
            match r {
                Some(i) => i < self@.len() && self@[i as int].id == artifact_id@,
                None => !holds_id(self@, artifact_id@),
            },
    {
        let mut i: usize = 0;
        while i < self.records.len()
            invariant
                i <= self.records.len(),
                forall|j: int| 0 <= j < i ==> (#[trigger] self@[j]).id != artifact_id@,
            decreases self.records.len() - i,
        {
            if *self.records[i].get_id() == *artifact_id {
                return Some(i);
            }
            i = i + 1;
        }
        None
    }

    /// Persists `data` under its id and returns the stored record.
    ///
    /// Refused with `SurrealInternalError` exactly where a record with the
    /// id exists already; the store then stays as it was.
    pub fn create(&mut self, data: Artifact) -> (r: Result<Artifact, AppError>)
        ensures
            match r {
                Ok(a) => {
                    &&& !holds_id(old(self)@, data@.id)
                    &&& final(self)@ == old(self)@.push(data@)
                    &&& a@ == data@
                },
                Err(AppError::SurrealInternalError(_)) => {
                    &&& holds_id(old(self)@, data@.id)
                    &&& final(self)@ == old(self)@
                },
                Err(_) => false,
            },
            distinct_ids(final(self)@),
    {
        proof {
            use_type_invariant(&*self);
        }
        match self.position(data.get_id()) {
            Some(_) => Err(
                AppError::SurrealInternalError(String::from_str("record already exists")),
            ),
            None => {
                let stored = data.clone();
                let ghost before = self@;
                // The list is taken out while it changes: the store holds
                // a list with distinct ids at every step.
                let mut records: Vec<Artifact> = Vec::new();
                proof {
                    assert(views(records@) =~= Seq::<ArtifactView>::empty());
                }
                std::mem::swap(&mut self.records, &mut records);
                records.push(data);
                proof {
                    let after = views(records@);
                    assert(after =~= before.push(data@));
                    assert forall|i: int, j: int| 0 <= i < j < after.len() implies (
                    #[trigger] after[i]).id != (#[trigger] after[j]).id by {
                        if j == before.len() {
                            assert(before[i].id != data@.id);
                        } else {
                            assert(before[i].id != before[j].id);
                        }
                    }
                }
                std::mem::swap(&mut self.records, &mut records);
                Ok(stored)
            },
        }
    }

    /// The record with the id; `NotFound` exactly where there is none.
    pub fn get(&self, artifact_id: &String) -> (r: Result<Artifact, AppError>)
        ensures
            match r {
                Ok(a) => lookup(self@, artifact_id@) == Some(a@),
                Err(AppError::NotFound) => lookup(self@, artifact_id@) is None,
                Err(_) => false,
            },
    {
        proof {
            use_type_invariant(self);
        }
        match self.position(artifact_id) {
            Some(i) => {
                proof {
                    lemma_lookup_at(self@, i as int);
                }
                Ok(self.records[i].clone())
            },
            None => Err(AppError::NotFound),
        }
    }

    /// Every record, in the order of creation.
    pub fn get_all(&self) -> (r: Vec<Artifact>)
        ensures
            views(r@) == self@,
    {
        let mut out: Vec<Artifact> = Vec::new();
        let mut i: usize = 0;
        while i < self.records.len()
            invariant
                i <= self.records.len(),
                views(out@) == self@.take(i as int),
            decreases self.records.len() - i,
        {
            let ghost before = out@;
            let copy = self.records[i].clone();
            out.push(copy);
            proof {
                assert(views(out@) =~= views(before).push(copy@));
                assert(self@[i as int] == copy@);
                assert(self@.take(i + 1) =~= self@.take(i as int).push(self@[i as int]));
            }
            i = i + 1;
        }
        proof {
            assert(self@.take(self.records.len() as int) =~= self@);
        }
        out
    }

    /// Sets the QR code of the record with the id and returns the record as
    /// it then is. No other field and no other record changes.
    ///
    /// `NotFound` exactly where no record has the id; the store then stays
    /// as it was.
    pub fn update_qrcode(&mut self, artifact_id: &String, qrcode: String) -> (r: Result<
        Artifact,
        AppError,
    >)
        ensures
            match r {
                Ok(a) => {
                    &&& lookup(old(self)@, artifact_id@) matches Some(before)
                    &&& a@ == before.with_qrcode(qrcode@)
                    &&& final(self)@ == old(self)@.update(
                        position_of(old(self)@, artifact_id@),
                        a@,
                    )
                },
                Err(AppError::NotFound) => {
                    &&& lookup(old(self)@, artifact_id@) is None
                    &&& final(self)@ == old(self)@
                },
                Err(_) => false,
            },
            distinct_ids(final(self)@),
    {
        proof {
            use_type_invariant(&*self);
        }
        match self.position(artifact_id) {
            Some(i) => {
                let ghost before = self@;
                proof {
                    lemma_lookup_at(before, i as int);
                }
                let updated = self.records[i].clone().with_qrcode(qrcode);
                let copy = updated.clone();
                // The list is taken out while it changes: the store holds
                // a list with distinct ids at every step.
                let mut records: Vec<Artifact> = Vec::new();
                proof {
                    assert(views(records@) =~= Seq::<ArtifactView>::empty());
                }
                std::mem::swap(&mut self.records, &mut records);
                records[i] = updated;
                proof {
                    let after = views(records@);
                    assert(after =~= before.update(i as int, copy@));
                    assert forall|k: int, l: int| 0 <= k < l < after.len() implies (
                    #[trigger] after[k]).id != (#[trigger] after[l]).id by {
                        assert(before[k].id != before[l].id);
                    }
                }
                std::mem::swap(&mut self.records, &mut records);
                Ok(copy)
            },
            None => Err(AppError::NotFound),
        }
    }
}

/// The first project of `projects` with the id, if there is one.
pub fn first_project(projects: &Vec<Project>, project_id: &String) -> (r: Option<Project>)
    ensures
        opt_project(r) == find_project(project_views(projects@), project_id@),
{
    let ghost all = project_views(projects@);
    let mut i: usize = 0;
    while i < projects.len()
        invariant
            i <= projects.len(),
            all == project_views(projects@),
            forall|j: int| 0 <= j < i ==> (#[trigger] all[j]).id != project_id@,
        decreases projects.len() - i,
    {
        if projects[i].id == *project_id {
            proof {
                assert(all[i as int] == projects@[i as int]@);
                assert(is_first_project(all, project_id@, i as int));
                let c = choose|c: int| is_first_project(all, project_id@, c);
                if c < i {
                    assert(all[c].id != project_id@);
                } else if i < c {
                    assert(all[i as int].id != project_id@);
                }
            }
            return Some(projects[i].clone());
        }
        i = i + 1;
    }
    proof {
        assert forall|c: int| !is_first_project(all, project_id@, c) by {
            if 0 <= c < all.len() {
                assert(all[c].id != project_id@);
            }
        }
    }
    None
}

impl ArtifactStore {
    /// The record with the id, joined with the first of `projects` that has
    /// the record's project id; the record is returned without a project
    /// where none has. `NotFound` exactly where no record has the id.
    pub fn get_with_project(&self, artifact_id: &String, projects: &Vec<Project>) -> (r: Result<
        Artifact,
        AppError,
    >)
        ensures
            match r {
                Ok(a) => {
                    &&& lookup(self@, artifact_id@) matches Some(record)
                    &&& a@ == record.with_project(
                        find_project(project_views(projects@), record.project_id),
                    )
                },
                Err(AppError::NotFound) => lookup(self@, artifact_id@) is None,
                Err(_) => false,
            },
    {
        match self.get(artifact_id) {
            Ok(artifact) => {
                let project = first_project(projects, artifact.get_project_id());
                Ok(artifact.with_project(project))
            },
            Err(e) => Err(e),
        }
    }
}

/// A record that does not belong to the branch leaves the order of the
/// branch as it is.
proof fn lemma_order_skips(
    records: Seq<ArtifactView>,
    project_id: Seq<char>,
    branch: Seq<char>,
    order: Seq<int>,
    j: int,
)
    requires
        0 <= j < records.len(),
        is_group_order_of_first(records, project_id, branch, order, j),
        !in_group(records[j], project_id, branch),
    ensures
        is_group_order_of_first(records, project_id, branch, order, j + 1),
{
    assert forall|i: int|
        0 <= i < j + 1 && in_group(#[trigger] records[i], project_id, branch) implies order.contains(
        i,
    ) by {
        assert(i < j);
    }
}

/// A record of the branch enters the order of the branch after every record
/// that was not created later, and before every record that was.
proof fn lemma_order_inserts(
    records: Seq<ArtifactView>,
    project_id: Seq<char>,
    branch: Seq<char>,
    order: Seq<int>,
    j: int,
    p: int,
)
    requires
        0 <= j < records.len(),
        is_group_order_of_first(records, project_id, branch, order, j),
        in_group(records[j], project_id, branch),
        0 <= p <= order.len(),
        p > 0 ==> records[order[p - 1]].created_at <= records[j].created_at,
        forall|k: int|
            p <= k < order.len() ==> records[#[trigger] order[k]].created_at
                > records[j].created_at,
    ensures
        is_group_order_of_first(records, project_id, branch, order.insert(p, j), j + 1),
{
    let next = order.insert(p, j);
    assert(next.len() == order.len() + 1);
    assert forall|k: int| 0 <= k < next.len() implies 0 <= #[trigger] next[k] < j + 1 && in_group(
        records[next[k]],
        project_id,
        branch,
    ) by {
        if k < p {
            assert(next[k] == order[k]);
        } else if k == p {
            assert(next[k] == j);
        } else {
            assert(next[k] == order[k - 1]);
        }
    }
    assert forall|k: int, l: int| 0 <= k < l < next.len() implies comes_before(
        records,
        #[trigger] next[k],
        #[trigger] next[l],
    ) by {
        if l < p {
            assert(next[k] == order[k] && next[l] == order[l]);
        } else if l == p {
            assert(next[k] == order[k] && next[l] == j);
            assert(order[k] < j);
            if k < p - 1 {
                assert(comes_before(records, order[k], order[p - 1]));
            }
        } else if k < p {
            assert(next[k] == order[k] && next[l] == order[l - 1]);
        } else if k == p {
            assert(next[k] == j && next[l] == order[l - 1]);
        } else {
            assert(next[k] == order[k - 1] && next[l] == order[l - 1]);
        }
    }
    assert forall|i: int|
        0 <= i < j + 1 && in_group(#[trigger] records[i], project_id, branch) implies next.contains(
        i,
    ) by {
        if i == j {
            assert(next[p] == j);
        } else {
            assert(order.contains(i));
            let k = choose|k: int| 0 <= k < order.len() && order[k] == i;
            if k < p {
                assert(next[k] == i);
            } else {
                assert(next[k + 1] == i);
            }
        }
    }
}

/// Whether `list` holds the text.
fn holds_text(list: &Vec<String>, text: &String) -> (r: bool)
    ensures
        r == exists|g: int| 0 <= g < list@.len() && (#[trigger] list@[g])@ == text@,
{
    let mut g: usize = 0;
    while g < list.len()
        invariant
            g <= list.len(),
            forall|h: int| 0 <= h < g ==> (#[trigger] list@[h])@ != text@,
        decreases list.len() - g,
    {
        if list[g] == *text {
            return true;
        }
        g = g + 1;
    }
    false
}

impl ArtifactStore {
    /// The branches under which the project has a record, each once, in the
    /// order in which they first occur, and the place at which each first
    /// occurs.
    fn branches_of(&self, project_id: &String) -> (r: (Vec<String>, Ghost<Seq<int>>))
        ensures
            r.1@.len() == r.0@.len(),
            forall|g: int|
                0 <= g < r.0@.len() ==> is_first_place(
                    self@,
                    project_id@,
                    (#[trigger] r.0@[g])@,
                    r.1@[g],
                ),
            forall|g: int, h: int| 0 <= g < h < r.1@.len() ==> #[trigger] r.1@[g] < #[trigger] r.1@[h],
            forall|i: int|
                0 <= i < self@.len() && (#[trigger] self@[i]).project_id == project_id@
                    ==> exists|g: int| 0 <= g < r.0@.len() && (#[trigger] r.0@[g])@ == self@[i].branch,
    {
        let mut out: Vec<String> = Vec::new();
        let ghost mut firsts: Seq<int> = Seq::empty();
        let mut i: usize = 0;
        while i < self.records.len()
            invariant
                i <= self.records.len(),
                self.records@.len() == self@.len(),
                firsts.len() == out@.len(),
                forall|g: int|
                    0 <= g < out@.len() ==> is_first_place(
                        self@,
                        project_id@,
                        (#[trigger] out@[g])@,
                        firsts[g],
                    ),
                forall|g: int| 0 <= g < firsts.len() ==> #[trigger] firsts[g] < i,
                forall|g: int, h: int|
                    0 <= g < h < firsts.len() ==> #[trigger] firsts[g] < #[trigger] firsts[h],
                forall|k: int|
                    0 <= k < i && (#[trigger] self@[k]).project_id == project_id@
                        ==> exists|g: int|
                        0 <= g < out@.len() && (#[trigger] out@[g])@ == self@[k].branch,
            decreases self.records.len() - i,
        {
            let record = &self.records[i];
            proof {
                assert(self@[i as int] == record@);
            }
            if *record.get_project_id() == *project_id {
                if !holds_text(&out, record.get_branch()) {
                    let ghost before = out@;
                    let ghost old_firsts = firsts;
                    let branch = record.get_branch().clone();
                    out.push(branch);
                    proof {
                        let n = before.len() as int;
                        firsts = old_firsts.push(i as int);
                        assert(out@[n]@ == record@.branch);
                        assert forall|k: int| 0 <= k < i implies !in_group(
                            #[trigger] self@[k],
                            project_id@,
                            record@.branch,
                        ) by {
                            if self@[k].project_id == project_id@ {
                                let g = choose|g: int|
                                    0 <= g < before.len() && (#[trigger] before[g])@
                                        == self@[k].branch;
                                assert(before[g]@ != record@.branch);
                            }
                        }
                        assert(is_first_place(self@, project_id@, record@.branch, i as int));
                        assert forall|g: int| 0 <= g < out@.len() implies is_first_place(
                            self@,
                            project_id@,
                            (#[trigger] out@[g])@,
                            firsts[g],
                        ) by {
                            if g < n {
                                assert(out@[g] == before[g]);
                                assert(firsts[g] == old_firsts[g]);
                            } else {
                                assert(out@[g]@ == record@.branch);
                                assert(firsts[g] == i);
                            }
                        }
                        assert forall|g: int| 0 <= g < firsts.len() implies #[trigger] firsts[g]
                            <= i by {
                            if g < n {
                                assert(firsts[g] == old_firsts[g]);
                            }
                        }
                        assert forall|g: int, h: int| 0 <= g < h < firsts.len() implies #[trigger] firsts[g]
                            < #[trigger] firsts[h] by {
                            assert(firsts[g] == old_firsts[g]);
                            if h < n {
                                assert(firsts[h] == old_firsts[h]);
                            }
                        }
                        assert forall|k: int|
                            0 <= k < i + 1 && (#[trigger] self@[k]).project_id
                                == project_id@ implies exists|g: int|
                            0 <= g < out@.len() && (#[trigger] out@[g])@ == self@[k].branch by {
                            if k == i {
                                assert(out@[n]@ == self@[k].branch);
                            } else {
                                let g = choose|g: int|
                                    0 <= g < before.len() && (#[trigger] before[g])@
                                        == self@[k].branch;
                                assert(out@[g]@ == self@[k].branch);
                            }
                        }
                    }
                }
            }
            i = i + 1;
        }
        let r = (out, Ghost(firsts));
        proof {
            assert forall|k: int|
                0 <= k < self@.len() && (#[trigger] self@[k]).project_id
                    == project_id@ implies exists|g: int|
                0 <= g < r.0@.len() && (#[trigger] r.0@[g])@ == self@[k].branch by {
                let g = choose|g: int|
                    0 <= g < out@.len() && (#[trigger] out@[g])@ == self@[k].branch;
                assert(r.0@[g]@ == self@[k].branch);
            }
        }
        r
    }

    /// The summaries of the records of the branch of the project, by
    /// ascending creation time.
    fn group_members(&self, project_id: &String, branch: &String) -> (r: Vec<ArtifactSummary>)
        ensures
            is_group(
                self@,
                project_id@,
                BranchGroupView { branch: branch@, artifacts: summary_views(r@) },
            ),
            branch_occurs(self@, project_id@, branch@) ==> r@.len() > 0,
    {
        let mut items: Vec<ArtifactSummary> = Vec::new();
        let ghost mut order: Seq<int> = Seq::empty();
        let mut j: usize = 0;
        proof {
            assert(summary_views(items@) =~= summaries_in_order(self@, order));
        }
        while j < self.records.len()
            invariant
                j <= self.records.len(),
                self.records@.len() == self@.len(),
                is_group_order_of_first(self@, project_id@, branch@, order, j as int),
                summary_views(items@) == summaries_in_order(self@, order),
                items@.len() == order.len(),
            decreases self.records.len() - j,
        {
            let record = &self.records[j];
            proof {
                assert(self@[j as int] == record@);
            }
            if *record.get_project_id() == *project_id && *record.get_branch() == *branch {
                let created_at = record.get_created_at();
                let mut p: usize = items.len();
                while p > 0 && items[p - 1].created_at > created_at
                    invariant
                        p <= items.len(),
                        forall|q: int| p <= q < items@.len() ==> (#[trigger] items@[q]).created_at
                            > created_at,
                    decreases p,
                {
                    p = p - 1;
                }
                let summary = record.summary();
                let ghost before = items@;
                let ghost old_order = order;
                proof {
                    assert forall|k: int| 0 <= k < old_order.len() implies self@[#[trigger] old_order[k]].created_at
                        == before[k].created_at by {
                        assert(summary_views(before)[k] == summaries_in_order(
                            self@,
                            old_order,
                        )[k]);
                    }
                    if p > 0 {
                        assert(self@[old_order[p - 1]].created_at == before[p - 1].created_at);
                    }
                    assert forall|k: int| p <= k < old_order.len() implies self@[#[trigger] old_order[k]].created_at
                        > self@[j as int].created_at by {
                        assert(before[k].created_at > created_at);
                    }
                    lemma_order_inserts(
                        self@,
                        project_id@,
                        branch@,
                        old_order,
                        j as int,
                        p as int,
                    );
                    order = old_order.insert(p as int, j as int);
                }
                items.insert(p, summary);
                proof {
                    let a = summary_views(items@);
                    let b = summaries_in_order(self@, order);
                    assert(a.len() == b.len());
                    assert forall|k: int| 0 <= k < a.len() implies a[k] == b[k] by {
                        if k < p {
                            assert(items@[k] == before[k] && order[k] == old_order[k]);
                            assert(summary_views(before)[k] == summaries_in_order(
                                self@,
                                old_order,
                            )[k]);
                        } else if k == p {
                            assert(items@[k] == summary && order[k] == j);
                        } else {
                            assert(items@[k] == before[k - 1] && order[k] == old_order[k - 1]);
                            assert(summary_views(before)[k - 1] == summaries_in_order(
                                self@,
                                old_order,
                            )[k - 1]);
                        }
                    }
                    assert(a =~= b);
                }
            } else {
                proof {
                    lemma_order_skips(self@, project_id@, branch@, order, j as int);
                }
            }
            j = j + 1;
        }
        proof {
            let group = BranchGroupView { branch: branch@, artifacts: summary_views(items@) };
            assert(is_group_order(self@, project_id@, group.branch, order));
            assert(group.artifacts == summaries_in_order(self@, order));
            assert(is_group(self@, project_id@, group));
            if branch_occurs(self@, project_id@, branch@) {
                let i = choose|i: int|
                    0 <= i < self@.len() && in_group(#[trigger] self@[i], project_id@, branch@);
                assert(order.contains(i));
            }
        }
        items
    }

    /// The artifacts of the project, grouped by branch: one group for each
    /// branch under which the project has a record, in the order in which
    /// the branches first occur, and within each group the summaries of its
    /// records by ascending creation time.
    #[verifier::loop_isolation(false)]
    pub fn get_by_project(&self, project_id: &String) -> (r: Vec<BranchGroup>)
        ensures
            is_listing(self@, project_id@, group_views(r@)),
    {
        let (branches, Ghost(firsts)) = self.branches_of(project_id);
        let mut groups: Vec<BranchGroup> = Vec::new();
        let mut g: usize = 0;
        while g < branches.len()
            invariant
                g <= branches.len(),
                groups@.len() == g,
                forall|h: int|
                    0 <= h < g ==> {
                        &&& (#[trigger] groups@[h]).branch@ == branches@[h]@
                        &&& groups@[h].artifacts@.len() > 0
                        &&& is_group(self@, project_id@, groups@[h]@)
                    },
            decreases branches.len() - g,
        {
            let artifacts = self.group_members(project_id, &branches[g]);
            let group = BranchGroup { branch: branches[g].clone(), artifacts };
            proof {
                assert(is_first_place(
                    self@,
                    project_id@,
                    branches@[g as int]@,
                    firsts[g as int],
                ));
                assert(in_group(self@[firsts[g as int]], project_id@, branches@[g as int]@));
                assert(branch_occurs(self@, project_id@, branches@[g as int]@));
                assert(group@ == BranchGroupView {
                    branch: branches@[g as int]@,
                    artifacts: summary_views(artifacts@),
                });
            }
            let ghost before = groups@;
            groups.push(group);
            proof {
                assert forall|h: int| 0 <= h < g + 1 implies {
                    &&& (#[trigger] groups@[h]).branch@ == branches@[h]@
                    &&& groups@[h].artifacts@.len() > 0
                    &&& is_group(self@, project_id@, groups@[h]@)
                } by {
                    if h < g {
                        assert(groups@[h] == before[h]);
                    }
                }
            }
            g = g + 1;
        }
        proof {
            let listing = group_views(groups@);
            assert forall|h: int| 0 <= h < listing.len() implies (
            #[trigger] listing[h]).artifacts.len() > 0 && is_group(
                self@,
                project_id@,
                listing[h],
            ) by {
                assert(listing[h] == groups@[h]@);
            }
            assert forall|a: int| 0 <= a < listing.len() implies first_place(
                self@,
                project_id@,
                (#[trigger] listing[a]).branch,
            ) == firsts[a] by {
                assert(listing[a] == groups@[a]@);
                assert(is_first_place(self@, project_id@, branches@[a]@, firsts[a]));
                lemma_first_place(self@, project_id@, branches@[a]@, firsts[a]);
            }
            assert forall|a: int, b: int| 0 <= a < b < listing.len() implies first_place(
                self@,
                project_id@,
                (#[trigger] listing[a]).branch,
            ) < first_place(self@, project_id@, (#[trigger] listing[b]).branch) by {
                assert(firsts[a] < firsts[b]);
            }
            assert forall|a: int, b: int| 0 <= a < b < listing.len() implies (
            #[trigger] listing[a]).branch != (#[trigger] listing[b]).branch by {
                assert(firsts[a] < firsts[b]);
            }
            assert forall|i: int|
                0 <= i < self@.len() && (#[trigger] self@[i]).project_id
                    == project_id@ implies exists|h: int|
                0 <= h < listing.len() && (#[trigger] listing[h]).branch == self@[i].branch by {
                let h = choose|h: int|
                    0 <= h < branches@.len() && (#[trigger] branches@[h])@ == self@[i].branch;
                assert(listing[h] == groups@[h]@);
                assert(listing[h].branch == self@[i].branch);
            }
        }
        groups
    }
}

/// After a record with a fresh id was created, its id finds it with every
/// field as it was handed in, every other id finds what it found before,
/// and the ids are still distinct.
pub proof fn lemma_create_then_get(records: Seq<ArtifactView>, data: ArtifactView)
    requires
        distinct_ids(records),
        !holds_id(records, data.id),
    ensures
        distinct_ids(records.push(data)),
        lookup(records.push(data), data.id) == Some(data),
        forall|id: Seq<char>| id != data.id ==> lookup(records.push(data), id) == lookup(records, id),
{
    let after = records.push(data);
    let n = records.len() as int;
    assert forall|i: int, j: int| 0 <= i < j < after.len() implies (#[trigger] after[i]).id != (
    #[trigger] after[j]).id by {
        if j == n {
            assert(records[i].id != data.id);
        } else {
            assert(records[i].id != records[j].id);
        }
    }
    assert(after[n] == data);
    lemma_lookup_at(after, n);
    assert forall|id: Seq<char>| id != data.id implies lookup(after, id) == lookup(records, id) by {
        if holds_id(records, id) {
            let i = position_of(records, id);
            assert(after[i] == records[i]);
            lemma_lookup_at(after, i);
            lemma_lookup_at(records, i);
        } else {
            if holds_id(after, id) {
                let i = position_of(after, id);
                assert(i < n);
                assert(records[i].id == id);
            }
        }
    }
}

/// After the QR code of a record was set, its id finds the record with the
/// new QR code and every other field as before, every other id finds what
/// it found before, and the ids are still distinct.
pub proof fn lemma_update_then_get(records: Seq<ArtifactView>, id: Seq<char>, qrcode: Seq<char>)
    requires
        distinct_ids(records),
        holds_id(records, id),
    ensures
        ({
            let i = position_of(records, id);
            let after = records.update(i, records[i].with_qrcode(qrcode));
            &&& distinct_ids(after)
            &&& lookup(after, id) == Some(records[i].with_qrcode(qrcode))
            &&& forall|other: Seq<char>| other != id ==> lookup(after, other) == lookup(records, other)
        }),
{
    let i = position_of(records, id);
    let after = records.update(i, records[i].with_qrcode(qrcode));
    assert forall|k: int, l: int| 0 <= k < l < after.len() implies (#[trigger] after[k]).id != (
    #[trigger] after[l]).id by {
        assert(records[k].id != records[l].id);
    }
    lemma_lookup_at(after, i);
    assert forall|other: Seq<char>| other != id implies lookup(after, other) == lookup(
        records,
        other,
    ) by {
        if holds_id(records, other) {
            let k = position_of(records, other);
            assert(after[k] == records[k]);
            lemma_lookup_at(after, k);
            lemma_lookup_at(records, k);
        } else {
            if holds_id(after, other) {
                let k = position_of(after, other);
                assert(records[k].id == other);
            }
        }
    }
}

/// Two orders of one branch agree up to every place of the first.
proof fn lemma_orders_agree(
    records: Seq<ArtifactView>,
    project_id: Seq<char>,
    branch: Seq<char>,
    first: Seq<int>,
    second: Seq<int>,
    k: int,
)
    requires
        is_group_order(records, project_id, branch, first),
        is_group_order(records, project_id, branch, second),
        0 <= k <= first.len(),
    ensures
        k <= second.len(),
        forall|j: int| 0 <= j < k ==> first[j] == second[j],
    decreases k,
{
    if k > 0 {
        lemma_orders_agree(records, project_id, branch, first, second, k - 1);
        let x = first[k - 1];
        assert(in_group(records[x], project_id, branch));
        assert(second.contains(x));
        let m = choose|m: int| 0 <= m < second.len() && second[m] == x;
        if m < k - 1 {
            assert(first[m] == second[m]);
            assert(comes_before(records, first[m], first[k - 1]));
        }
        assert(k - 1 < second.len());
        let y = second[k - 1];
        assert(in_group(records[y], project_id, branch));
        assert(first.contains(y));
        let n = choose|n: int| 0 <= n < first.len() && first[n] == y;
        if n < k - 1 {
            assert(first[n] == second[n]);
            assert(comes_before(records, second[n], second[k - 1]));
        }
        if m > k - 1 {
            assert(comes_before(records, second[k - 1], second[m]));
            if n > k - 1 {
                assert(comes_before(records, first[k - 1], first[n]));
            }
        }
    }
}

/// A branch of a project has one order only, so a listing holds one
/// sequence of summaries for it.
pub proof fn lemma_group_is_unique(
    records: Seq<ArtifactView>,
    project_id: Seq<char>,
    first: BranchGroupView,
    second: BranchGroupView,
)
    requires
        is_group(records, project_id, first),
        is_group(records, project_id, second),
        first.branch == second.branch,
    ensures
        first.artifacts == second.artifacts,
{
    let a = choose|order: Seq<int>| #[trigger]
        is_group_order(records, project_id, first.branch, order) && first.artifacts
            == summaries_in_order(records, order);
    let b = choose|order: Seq<int>| #[trigger]
        is_group_order(records, project_id, second.branch, order) && second.artifacts
            == summaries_in_order(records, order);
    lemma_orders_agree(records, project_id, first.branch, a, b, a.len() as int);
    lemma_orders_agree(records, project_id, first.branch, b, a, b.len() as int);
    assert(a =~= b);
}

/// What a group of a listing holds: every entry is the summary of a record
/// of the group's branch of the project, every such record has an entry,
/// and the entries stand by ascending creation time.
pub proof fn lemma_group_is_sorted(
    records: Seq<ArtifactView>,
    project_id: Seq<char>,
    group: BranchGroupView,
)
    requires
        is_group(records, project_id, group),
    ensures
        forall|k: int|
            0 <= k < group.artifacts.len() ==> (#[trigger] group.artifacts[k]).branch
                == group.branch,
        forall|k: int|
            0 <= k < group.artifacts.len() ==> is_summary_in_group(
                records,
                project_id,
                group.branch,
                #[trigger] group.artifacts[k],
            ),
        forall|i: int|
            0 <= i < records.len() && in_group(#[trigger] records[i], project_id, group.branch)
                ==> group.artifacts.contains(records[i].summary()),
        forall|k: int, l: int|
            0 <= k < l < group.artifacts.len() ==> (#[trigger] group.artifacts[k]).created_at <= (
            #[trigger] group.artifacts[l]).created_at,
{
    let order = choose|order: Seq<int>| #[trigger]
        is_group_order(records, project_id, group.branch, order) && group.artifacts
            == summaries_in_order(records, order);
    assert forall|k: int| 0 <= k < group.artifacts.len() implies (
    #[trigger] group.artifacts[k]).branch == group.branch by {
        assert(in_group(records[order[k]], project_id, group.branch));
    }
    assert forall|k: int| 0 <= k < group.artifacts.len() implies is_summary_in_group(
        records,
        project_id,
        group.branch,
        #[trigger] group.artifacts[k],
    ) by {
        let i = order[k];
        assert(in_group(records[i], project_id, group.branch));
        assert(records[i].summary() == group.artifacts[k]);
    }
    assert forall|i: int|
        0 <= i < records.len() && in_group(
            #[trigger] records[i],
            project_id,
            group.branch,
        ) implies group.artifacts.contains(records[i].summary()) by {
        assert(order.contains(i));
        let k = choose|k: int| 0 <= k < order.len() && order[k] == i;
        assert(group.artifacts[k] == records[i].summary());
    }
    assert forall|k: int, l: int| 0 <= k < l < group.artifacts.len() implies (
    #[trigger] group.artifacts[k]).created_at <= (#[trigger] group.artifacts[l]).created_at by {
        assert(comes_before(records, order[k], order[l]));
    }
}

/// Every group of a listing has a branch under which the project has a
/// record.
proof fn lemma_listed_branch_occurs(
    records: Seq<ArtifactView>,
    project_id: Seq<char>,
    groups: Seq<BranchGroupView>,
    g: int,
)
    requires
        is_listing(records, project_id, groups),
        0 <= g < groups.len(),
    ensures
        branch_occurs(records, project_id, groups[g].branch),
{
    let group = groups[g];
    assert(is_group(records, project_id, group));
    let order = choose|order: Seq<int>| #[trigger]
        is_group_order(records, project_id, group.branch, order) && group.artifacts
            == summaries_in_order(records, order);
    assert(order.len() > 0);
    assert(in_group(records[order[0]], project_id, group.branch));
}

/// Two listings of one project agree on their branches up to every place
/// of the first.
proof fn lemma_branches_agree(
    records: Seq<ArtifactView>,
    project_id: Seq<char>,
    first: Seq<BranchGroupView>,
    second: Seq<BranchGroupView>,
    k: int,
)
    requires
        is_listing(records, project_id, first),
        is_listing(records, project_id, second),
        0 <= k <= first.len(),
    ensures
        k <= second.len(),
        forall|j: int| 0 <= j < k ==> (#[trigger] first[j]).branch == second[j].branch,
    decreases k,
{
    if k > 0 {
        lemma_branches_agree(records, project_id, first, second, k - 1);
        let x = first[k - 1].branch;
        lemma_listed_branch_occurs(records, project_id, first, k - 1);
        let i = choose|i: int|
            0 <= i < records.len() && in_group(#[trigger] records[i], project_id, x);
        assert(records[i].project_id == project_id);
        let m = choose|m: int| 0 <= m < second.len() && (#[trigger] second[m]).branch == x;
        if m < k - 1 {
            assert(first[m].branch == second[m].branch);
            assert(first[m].branch != first[k - 1].branch);
        }
        assert(k - 1 < second.len());
        let y = second[k - 1].branch;
        lemma_listed_branch_occurs(records, project_id, second, k - 1);
        let i2 = choose|i2: int|
            0 <= i2 < records.len() && in_group(#[trigger] records[i2], project_id, y);
        assert(records[i2].project_id == project_id);
        let n = choose|n: int| 0 <= n < first.len() && (#[trigger] first[n]).branch == y;
        if n < k - 1 {
            assert(first[n].branch == second[n].branch);
            assert(second[n].branch != second[k - 1].branch);
        }
        if m > k - 1 {
            assert(first_place(records, project_id, second[k - 1].branch) < first_place(
                records,
                project_id,
                second[m].branch,
            ));
            if n > k - 1 {
                assert(first_place(records, project_id, first[k - 1].branch) < first_place(
                    records,
                    project_id,
                    first[n].branch,
                ));
            }
        }
    }
}

/// A project has one listing only: what `is_listing` says of a listing
/// leaves nothing of it open.
pub proof fn lemma_listing_is_unique(
    records: Seq<ArtifactView>,
    project_id: Seq<char>,
    first: Seq<BranchGroupView>,
    second: Seq<BranchGroupView>,
)
    requires
        is_listing(records, project_id, first),
        is_listing(records, project_id, second),
    ensures
        first == second,
{
    lemma_branches_agree(records, project_id, first, second, first.len() as int);
    lemma_branches_agree(records, project_id, second, first, second.len() as int);
    assert forall|g: int| 0 <= g < first.len() implies first[g] == second[g] by {
        assert(first[g].branch == second[g].branch);
        lemma_group_is_unique(records, project_id, first[g], second[g]);
    }
    assert(first =~= second);
}

} // verus!
