use vstd::prelude::*;

verus! {

/// An entry found by listing a directory: its name there, and whether it is
/// a directory.
#[derive(Debug, Clone)]
pub struct Entry {
    pub name: String,
    pub is_dir: bool,
}

/// What one step of a reconciliation does to the entry it names.
#[derive(Debug, Clone, Copy, PartialEq, Eq, Structural)]
pub enum StepKind {
    /// Remove a file from the target.
    RemoveFile,
    /// Remove a directory from the target, with everything under it.
    RemoveDir,
    /// Create an empty directory in the target.
    CreateDir,
    /// Copy a source file into the target.
    CopyFile,
}

/// One operation of a reconciliation, on the entry of the given name directly
/// under the source or target root.
#[derive(Debug, Clone)]
pub struct Step {
    pub name: String,
    pub kind: StepKind,
}

pub type StepView = (Seq<char>, StepKind);

impl View for Step {
    type V = StepView;

    open spec fn view(&self) -> StepView {
        (self.name@, self.kind)
    }
}

pub open spec fn steps_view(v: Seq<Step>) -> Seq<StepView> {
    v.map_values(|s: Step| s@)
}

pub open spec fn has_name(entries: Seq<Entry>, n: Seq<char>) -> bool {
    exists|i: int| 0 <= i < entries.len() && #[trigger] entries[i].name@ == n
}

/// The names of a listing.
pub open spec fn names(entries: Seq<Entry>) -> Set<Seq<char>> {
    Set::new(|n: Seq<char>| has_name(entries, n))
}

pub open spec fn removal_step(e: Entry) -> StepView {
    (e.name@, if e.is_dir { StepKind::RemoveDir } else { StepKind::RemoveFile })
}

pub open spec fn creation_step(e: Entry) -> StepView {
    (e.name@, if e.is_dir { StepKind::CreateDir } else { StepKind::CopyFile })
}

/// A removal for each target entry, in listing order, whose name the source
/// lacks.
pub open spec fn removals(source: Seq<Entry>, target: Seq<Entry>) -> Seq<StepView>
    decreases target.len(),
{
    if target.len() == 0 {
        Seq::empty()
    } else {
        let rest = removals(source, target.drop_last());
        if has_name(source, target.last().name@) {
            rest
        } else {
            rest.push(removal_step(target.last()))
        }
    }
}

/// A creation for each source entry, in listing order, whose name the target
/// lacks.
pub open spec fn creations(source: Seq<Entry>, target: Seq<Entry>) -> Seq<StepView>
    decreases source.len(),
{
    if source.len() == 0 {
        Seq::empty()
    } else {
        let rest = creations(source.drop_last(), target);
        if has_name(target, source.last().name@) {
            rest
        } else {
            rest.push(creation_step(source.last()))
        }
    }
}

/// The whole reconciliation: first the removals, then the creations.
pub open spec fn plan(source: Seq<Entry>, target: Seq<Entry>) -> Seq<StepView> {
    removals(source, target) + creations(source, target)
}

/// The names directly under the target root once a step has succeeded.
pub open spec fn apply_step(names: Set<Seq<char>>, s: StepView) -> Set<Seq<char>> {
    match s.1 {
        StepKind::RemoveFile | StepKind::RemoveDir => names.remove(s.0),
        StepKind::CreateDir | StepKind::CopyFile => names.insert(s.0),
    }
}

/// The names directly under the target root once all the steps have succeeded.
pub open spec fn apply_all(names: Set<Seq<char>>, steps: Seq<StepView>) -> Set<Seq<char>>
    decreases steps.len(),
{
    if steps.len() == 0 {
        names
    } else {
        apply_step(apply_all(names, steps.drop_last()), steps.last())
    }
}

proof fn lemma_names_last(t: Seq<Entry>)
    requires
        t.len() > 0,
    ensures
        names(t) == names(t.drop_last()).insert(t.last().name@),
{
    let t0 = t.drop_last();
    assert forall|n: Seq<char>| has_name(t, n) implies #[trigger] names(t0).insert(
        t.last().name@,
    ).contains(n) by {
        let i = choose|i: int| 0 <= i < t.len() && #[trigger] t[i].name@ == n;
        if i < t.len() - 1 {
            assert(t0[i].name@ == n);
        }
    }
    assert forall|n: Seq<char>| #[trigger] names(t0).insert(t.last().name@).contains(n) implies has_name(
        t,
        n,
    ) by {
        if n == t.last().name@ {
            assert(t[t.len() - 1].name@ == n);
        } else {
            let i = choose|i: int| 0 <= i < t0.len() && #[trigger] t0[i].name@ == n;
            assert(t[i].name@ == n);
        }
    }
    assert(names(t) =~= names(t0).insert(t.last().name@));
}

proof fn lemma_apply_push(names: Set<Seq<char>>, a: Seq<StepView>, s: StepView)
    ensures
        apply_all(names, a.push(s)) == apply_step(apply_all(names, a), s),
{
    assert(a.push(s).drop_last() =~= a);
}

proof fn lemma_apply_concat(names: Set<Seq<char>>, a: Seq<StepView>, b: Seq<StepView>)
    ensures
        apply_all(names, a + b) == apply_all(apply_all(names, a), b),
    decreases b.len(),
{
    if b.len() == 0 {
        assert(a + b =~= a);
    } else {
        lemma_apply_concat(names, a, b.drop_last());
        assert((a + b).drop_last() =~= a + b.drop_last());
        assert((a + b).last() == b.last());
    }
}

proof fn lemma_apply_removals(source: Seq<Entry>, target: Seq<Entry>, start: Set<Seq<char>>)
    ensures
        apply_all(start, removals(source, target)) == start.difference(
            names(target).difference(names(source)),
        ),
    decreases target.len(),
{
    if target.len() == 0 {
        assert(names(target) =~= Set::empty());
        assert(start.difference(names(target).difference(names(source))) =~= start);
    } else {
        let t0 = target.drop_last();
        let e = target.last();
        lemma_apply_removals(source, t0, start);
        lemma_names_last(target);
        if !has_name(source, e.name@) {
            lemma_apply_push(start, removals(source, t0), removal_step(e));
        } else {
            assert(names(source).contains(e.name@));
        }
        assert(apply_all(start, removals(source, target)) =~= start.difference(
            names(target).difference(names(source)),
        ));
    }
}

proof fn lemma_apply_creations(source: Seq<Entry>, target: Seq<Entry>, start: Set<Seq<char>>)
    ensures
        apply_all(start, creations(source, target)) == start.union(
            names(source).difference(names(target)),
        ),
    decreases source.len(),
{
    if source.len() == 0 {
        assert(names(source) =~= Set::empty());
        assert(start.union(names(source).difference(names(target))) =~= start);
    } else {
        let s0 = source.drop_last();
        let e = source.last();
        lemma_apply_creations(s0, target, start);
        lemma_names_last(source);
        if !has_name(target, e.name@) {
            lemma_apply_push(start, creations(s0, target), creation_step(e));
        } else {
            assert(names(target).contains(e.name@));
        }
        assert(apply_all(start, creations(source, target)) =~= start.union(
            names(source).difference(names(target)),
        ));
    }
}

/// Once every step of a reconciliation has succeeded, the names directly
/// under the target root are exactly those directly under the source root:
/// each source entry has a counterpart in the target, and no target entry is
/// left without one in the source.
pub proof fn lemma_reconcile_mirrors(source: Seq<Entry>, target: Seq<Entry>)
    ensures
        apply_all(names(target), plan(source, target)) == names(source),
{
    let t = names(target);
    lemma_apply_concat(t, removals(source, target), creations(source, target));
    lemma_apply_removals(source, target, t);
    lemma_apply_creations(source, target, t.difference(t.difference(names(source))));
    assert(apply_all(names(target), plan(source, target)) =~= names(source));
}

proof fn lemma_no_removals(source: Seq<Entry>, target: Seq<Entry>)
    requires
        names(target).subset_of(names(source)),
    ensures
        removals(source, target) == Seq::<StepView>::empty(),
    decreases target.len(),
{
    if target.len() > 0 {
        lemma_names_last(target);
        lemma_no_removals(source, target.drop_last());
        assert(names(target).contains(target.last().name@));
    }
}

proof fn lemma_no_creations(source: Seq<Entry>, target: Seq<Entry>)
    requires
        names(source).subset_of(names(target)),
    ensures
        creations(source, target) == Seq::<StepView>::empty(),
    decreases source.len(),
{
    if source.len() > 0 {
        lemma_names_last(source);
        lemma_no_creations(source.drop_last(), target);
        assert(names(source).contains(source.last().name@));
    }
}

/// Where the target already holds, by name, exactly the entries of the
/// source, a reconciliation has nothing to do.
pub proof fn lemma_plan_empty_when_mirrored(source: Seq<Entry>, target: Seq<Entry>)
    requires
        names(target) == names(source),
    ensures
        plan(source, target) == Seq::<StepView>::empty(),
{
    lemma_no_removals(source, target);
    lemma_no_creations(source, target);
    assert(plan(source, target) =~= Seq::<StepView>::empty());
}

/// Reconciling twice with no change to the source in between: once the first
/// pass has fully succeeded, the target listing that the second pass sees
/// needs no operation at all.
pub proof fn lemma_reconcile_idempotent(source: Seq<Entry>, target: Seq<Entry>, after: Seq<Entry>)
    requires
        names(after) == apply_all(names(target), plan(source, target)),
    ensures
        plan(source, after) == Seq::<StepView>::empty(),
{
    lemma_reconcile_mirrors(source, target);
    lemma_plan_empty_when_mirrored(source, after);
}

/// Whether some entry of the listing has the given name.
pub fn contains_name(entries: &Vec<Entry>, name: &String) -> (r: bool)
    ensures
        r == has_name(entries@, name@),
{
    let mut i: usize = 0;
    while i < entries.len()
        invariant
            i <= entries.len(),
            forall|j: int| 0 <= j < i ==> entries@[j].name@ != name@,
        decreases entries.len() - i,
    {
        if entries[i].name == *name {
            assert(entries@[i as int].name@ == name@);
            return true;
        }
        i += 1;
    }
    false
}

/// The operations that make the entries directly under the target root match,
/// by name, those directly under the source root: each target entry that the
/// source lacks is removed, then each source entry that the target lacks is
/// created, both in the order of the listings.
pub fn plan_sync(source: &Vec<Entry>, target: &Vec<Entry>) -> (r: Vec<Step>)
    ensures
        steps_view(r@) == plan(source@, target@),
{
    let mut r: Vec<Step> = Vec::new();
    let mut i: usize = 0;
    while i < target.len()
        invariant
            i <= target.len(),
            steps_view(r@) == removals(source@, target@.subrange(0, i as int)),
        decreases target.len() - i,
    {
        let e = &target[i];
        assert(target@.subrange(0, i + 1).drop_last() =~= target@.subrange(0, i as int));
        if !contains_name(source, &e.name) {
            let kind = if e.is_dir {
                StepKind::RemoveDir
            } else {
                StepKind::RemoveFile
            };
            r.push(Step { name: e.name.clone(), kind });
            assert(steps_view(r@) =~= removals(source@, target@.subrange(0, i + 1)));
        }
        i += 1;
    }
    assert(target@.subrange(0, target.len() as int) =~= target@);
    let mut j: usize = 0;
    while j < source.len()
        invariant
            j <= source.len(),
            steps_view(r@) == removals(source@, target@) + creations(
                source@.subrange(0, j as int),
                target@,
            ),
        decreases source.len() - j,
    {
        let e = &source[j];
        assert(source@.subrange(0, j + 1).drop_last() =~= source@.subrange(0, j as int));
        if !contains_name(target, &e.name) {
            let kind = if e.is_dir {
                StepKind::CreateDir
            } else {
                StepKind::CopyFile
            };
            let ghost before = steps_view(r@);
            r.push(Step { name: e.name.clone(), kind });
            assert(steps_view(r@) =~= before.push(creation_step(*e)));
            assert(creations(source@.subrange(0, j + 1), target@) == creations(
                source@.subrange(0, j as int),
                target@,
            ).push(creation_step(*e)));
            assert(steps_view(r@) =~= removals(source@, target@) + creations(
                source@.subrange(0, j + 1),
                target@,
            ));
        }
        j += 1;
    }
    assert(source@.subrange(0, source.len() as int) =~= source@);
    r
}

} // verus!
