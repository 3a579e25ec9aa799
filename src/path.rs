use vstd::prelude::*;

verus! {

/// A path as the sequence of its components.
pub type PathView = Seq<Seq<char>>;

/// `p` starts with the components of `prefix`.
pub open spec fn is_prefix_of(prefix: PathView, p: PathView) -> bool {
    prefix.len() <= p.len() && p.subrange(0, prefix.len() as int) == prefix
}

/// What remains of `p` once the components of `prefix` are taken off.
pub open spec fn strip(prefix: PathView, p: PathView) -> PathView {
    p.subrange(prefix.len() as int, p.len() as int)
}

/// The place under `target` that mirrors `p`, a path under `source`.
pub open spec fn map_path(source: PathView, target: PathView, p: PathView) -> PathView {
    target + strip(source, p)
}

/// A path that does not lie under the root it was expected under.
#[derive(Debug, Clone, Copy, PartialEq, Eq, Structural)]
pub enum MappingError {
    NotUnderRoot,
}

/// Whether the components of `prefix` open those of `p`.
pub fn starts_with(prefix: &Vec<String>, p: &Vec<String>) -> (r: bool)
    ensures
        r == is_prefix_of(prefix.deep_view(), p.deep_view()),
{
    if prefix.len() > p.len() {
        return false;
    }
    let mut i: usize = 0;
    while i < prefix.len()
        invariant
            prefix.len() <= p.len(),
            i <= prefix.len(),
            forall|j: int| 0 <= j < i ==> prefix.deep_view()[j] == p.deep_view()[j],
        decreases prefix.len() - i,
    {
        if prefix[i] != p[i] {
            assert(prefix.deep_view()[i as int] != p.deep_view()[i as int]);
            assert(p.deep_view().subrange(0, prefix.len() as int)[i as int] != prefix.deep_view()[i as int]);
            return false;
        }
        i += 1;
    }
    assert(p.deep_view().subrange(0, prefix.len() as int) =~= prefix.deep_view());
    true
}

/// Takes the components of `prefix` off `p`; `None` where `p` does not lie
/// under `prefix`.
pub fn strip_prefix(prefix: &Vec<String>, p: &Vec<String>) -> (r: Option<Vec<String>>)
    ensures
        r.is_some() == is_prefix_of(prefix.deep_view(), p.deep_view()),
        r matches Some(rest) ==> rest.deep_view() == strip(prefix.deep_view(), p.deep_view()),
{
    if !starts_with(prefix, p) {
        return None;
    }
    let mut rest: Vec<String> = Vec::new();
    let mut i: usize = prefix.len();
    while i < p.len()
        invariant
            prefix.len() <= i <= p.len(),
            rest.deep_view() == p.deep_view().subrange(prefix.len() as int, i as int),
        decreases p.len() - i,
    {
        assert(rest.deep_view().len() == rest@.len());
        rest.push(p[i].clone());
        assert(rest.deep_view() =~= p.deep_view().subrange(prefix.len() as int, i + 1));
        i += 1;
    }
    Some(rest)
}

/// Appends the components of `rest` to a copy of `root`.
pub fn join(root: &Vec<String>, rest: &Vec<String>) -> (r: Vec<String>)
    ensures
        r.deep_view() == root.deep_view() + rest.deep_view(),
{
    let mut r: Vec<String> = Vec::new();
    let mut i: usize = 0;
    while i < root.len()
        invariant
            i <= root.len(),
            r.deep_view() == root.deep_view().subrange(0, i as int),
        decreases root.len() - i,
    {
        assert(r.deep_view().len() == r@.len());
        r.push(root[i].clone());
        assert(r.deep_view() =~= root.deep_view().subrange(0, i + 1));
        i += 1;
    }
    let mut j: usize = 0;
    while j < rest.len()
        invariant
            j <= rest.len(),
            r.deep_view() == root.deep_view() + rest.deep_view().subrange(0, j as int),
        decreases rest.len() - j,
    {
        assert(r.deep_view().len() == r@.len());
        let ghost before = r.deep_view();
        r.push(rest[j].clone());
        assert(r.deep_view() =~= before.push(rest.deep_view()[j as int]));
        assert(rest.deep_view().subrange(0, j + 1) =~= rest.deep_view().subrange(0, j as int).push(
            rest.deep_view()[j as int],
        ));
        assert(r.deep_view() =~= root.deep_view() + rest.deep_view().subrange(0, j + 1));
        j += 1;
    }
    assert(rest.deep_view().subrange(0, rest.len() as int) =~= rest.deep_view());
    r
}

/// Strip then re-root: mapping a path under `source` onto `target` and taking
/// the `target` components off again gives back the part of the path below
/// `source`.
pub proof fn lemma_map_round_trip(source: PathView, target: PathView, p: PathView)
    requires
        is_prefix_of(source, p),
    ensures
        is_prefix_of(target, map_path(source, target, p)),
        strip(target, map_path(source, target, p)) == strip(source, p),
{
    let m = map_path(source, target, p);
    assert(m.subrange(0, target.len() as int) =~= target);
    assert(strip(target, m) =~= strip(source, p));
}

} // verus!
