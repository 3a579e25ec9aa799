use vstd::prelude::*;

use crate::path::{is_prefix_of, join, map_path, strip_prefix, MappingError, PathView};

verus! {

/// A source tree and the target tree that mirrors it, each given by the
/// components of its root.
#[derive(Debug, Clone)]
pub struct Directory {
    pub source: Vec<String>,
    pub target: Vec<String>,
}

impl Directory {
    pub open spec fn source_view(&self) -> PathView {
        self.source.deep_view()
    }

    pub open spec fn target_view(&self) -> PathView {
        self.target.deep_view()
    }

    /// The mirror of `p` under the target root, for a path under the source root.
    pub open spec fn mirror_of(&self, p: PathView) -> PathView {
        map_path(self.source_view(), self.target_view(), p)
    }

    pub fn new(source: Vec<String>, target: Vec<String>) -> (r: Directory)
        ensures
            r.source_view() == source.deep_view(),
            r.target_view() == target.deep_view(),
    {
        Directory { source, target }
    }

    /// Maps a path under the source root to the path under the target root
    /// that mirrors it; a path outside the source root is refused.
    pub fn build_target_path(&self, path: &Vec<String>) -> (r: Result<Vec<String>, MappingError>)
        ensures
            r.is_ok() == is_prefix_of(self.source_view(), path.deep_view()),
            r matches Ok(t) ==> t.deep_view() == self.mirror_of(path.deep_view()),
            r matches Err(e) ==> e == MappingError::NotUnderRoot,
    {
        match strip_prefix(&self.source, path) {
            Some(rest) => Ok(join(&self.target, &rest)),
            None => Err(MappingError::NotUnderRoot),
        }
    }
}

} // verus!
