use vstd::prelude::*;

use crate::directory::Directory;
use crate::path::{is_prefix_of, MappingError, PathView};

verus! {

/// One change reported for the source tree.
#[derive(Debug, Clone)]
pub enum ChangeEvent {
    Created(Vec<String>),
    Modified(Vec<String>),
    PermissionsChanged(Vec<String>),
    Removed(Vec<String>),
    Renamed(Vec<String>, Vec<String>),
    WatchError(String),
}

/// A change event with its paths seen as component sequences.
pub enum EventView {
    Created(PathView),
    Modified(PathView),
    PermissionsChanged(PathView),
    Removed(PathView),
    Renamed(PathView, PathView),
    WatchError(Seq<char>),
}

impl View for ChangeEvent {
    type V = EventView;

    open spec fn view(&self) -> EventView {
        match self {
            ChangeEvent::Created(p) => EventView::Created(p.deep_view()),
            ChangeEvent::Modified(p) => EventView::Modified(p.deep_view()),
            ChangeEvent::PermissionsChanged(p) => EventView::PermissionsChanged(p.deep_view()),
            ChangeEvent::Removed(p) => EventView::Removed(p.deep_view()),
            ChangeEvent::Renamed(a, b) => EventView::Renamed(a.deep_view(), b.deep_view()),
            ChangeEvent::WatchError(d) => EventView::WatchError(d@),
        }
    }
}

/// The single operation on the target tree that mirrors one event.
#[derive(Debug, Clone)]
pub enum MirrorOp {
    /// Copy the bytes of the source file over the target path.
    CopyFile { from: Vec<String>, to: Vec<String> },
    /// Create an empty directory at the target path.
    CreateDir { path: Vec<String> },
    /// Give the target path the permission bits of the source path.
    SetPermissions { from: Vec<String>, to: Vec<String> },
    /// Remove the target path, a directory with all it holds, if it exists.
    Remove { path: Vec<String> },
    /// Move the target entry from one place to another.
    Rename { from: Vec<String>, to: Vec<String> },
    /// Nothing to mirror.
    Skip,
    /// Not mirrored; the detail is reported as a diagnostic.
    Report { detail: String },
}

pub enum OpView {
    CopyFile(PathView, PathView),
    CreateDir(PathView),
    SetPermissions(PathView, PathView),
    Remove(PathView),
    Rename(PathView, PathView),
    Skip,
    Report(Seq<char>),
}

impl View for MirrorOp {
    type V = OpView;

    open spec fn view(&self) -> OpView {
        match self {
            MirrorOp::CopyFile { from, to } => OpView::CopyFile(from.deep_view(), to.deep_view()),
            MirrorOp::CreateDir { path } => OpView::CreateDir(path.deep_view()),
            MirrorOp::SetPermissions { from, to } => OpView::SetPermissions(
                from.deep_view(),
                to.deep_view(),
            ),
            MirrorOp::Remove { path } => OpView::Remove(path.deep_view()),
            MirrorOp::Rename { from, to } => OpView::Rename(from.deep_view(), to.deep_view()),
            MirrorOp::Skip => OpView::Skip,
            MirrorOp::Report { detail } => OpView::Report(detail@),
        }
    }
}

/// How a target entry is taken away.
#[derive(Debug, Clone, Copy, PartialEq, Eq, Structural)]
pub enum Removal {
    /// The entry does not exist: nothing to do.
    Nothing,
    /// Remove a file.
    File,
    /// Remove a directory together with everything under it.
    DirAll,
}

/// The removal that suits an entry: none where it is missing, a recursive one
/// for a directory, a plain one for a file.
pub fn removal_for(exists: bool, is_dir: bool) -> (r: Removal)
    ensures
        !exists ==> r == Removal::Nothing,
        exists && is_dir ==> r == Removal::DirAll,
        exists && !is_dir ==> r == Removal::File,
{
    if !exists {
        Removal::Nothing
    } else if is_dir {
        Removal::DirAll
    } else {
        Removal::File
    }
}

impl Directory {
    /// Every path that `e` names lies under the source root.
    pub open spec fn event_in_source(&self, e: EventView) -> bool {
        match e {
            EventView::Created(p) => is_prefix_of(self.source_view(), p),
            EventView::Modified(p) => is_prefix_of(self.source_view(), p),
            EventView::PermissionsChanged(p) => is_prefix_of(self.source_view(), p),
            EventView::Removed(p) => is_prefix_of(self.source_view(), p),
            EventView::Renamed(a, b) => is_prefix_of(self.source_view(), a) && is_prefix_of(
                self.source_view(),
                b,
            ),
            EventView::WatchError(_) => true,
        }
    }

    /// The operation that mirrors `e`; `source_is_dir` tells whether the
    /// source entry that a created or modified event names is a directory.
    pub open spec fn effect_of(&self, e: EventView, source_is_dir: bool) -> OpView {
        match e {
            EventView::Created(p) => if source_is_dir {
                OpView::CreateDir(self.mirror_of(p))
            } else {
                OpView::CopyFile(p, self.mirror_of(p))
            },
            EventView::Modified(p) => if source_is_dir {
                OpView::Skip
            } else {
                OpView::CopyFile(p, self.mirror_of(p))
            },
            EventView::PermissionsChanged(p) => OpView::SetPermissions(p, self.mirror_of(p)),
            EventView::Removed(p) => OpView::Remove(self.mirror_of(p)),
            EventView::Renamed(a, b) => OpView::Rename(self.mirror_of(a), self.mirror_of(b)),
            EventView::WatchError(d) => OpView::Report(d),
        }
    }

    /// Translates one change of the source tree into the operation that
    /// mirrors it on the target tree. An event that names a path outside the
    /// source root is refused.
    pub fn translate(&self, event: &ChangeEvent, source_is_dir: bool) -> (r: Result<MirrorOp, MappingError>)
        ensures
            r.is_ok() == self.event_in_source(event@),
            r matches Ok(op) ==> op@ == self.effect_of(event@, source_is_dir),
            r matches Err(e) ==> e == MappingError::NotUnderRoot,
    {
        match event {
            ChangeEvent::Created(p) => {
                let to = self.build_target_path(p)?;
                if source_is_dir {
                    Ok(MirrorOp::CreateDir { path: to })
                } else {
                    Ok(MirrorOp::CopyFile { from: p.clone(), to })
                }
            },
            ChangeEvent::Modified(p) => {
                let to = self.build_target_path(p)?;
                if source_is_dir {
                    Ok(MirrorOp::Skip)
                } else {
                    Ok(MirrorOp::CopyFile { from: p.clone(), to })
                }
            },
            ChangeEvent::PermissionsChanged(p) => {
                let to = self.build_target_path(p)?;
                Ok(MirrorOp::SetPermissions { from: p.clone(), to })
            },
            ChangeEvent::Removed(p) => {
                let path = self.build_target_path(p)?;
                Ok(MirrorOp::Remove { path })
            },
            ChangeEvent::Renamed(a, b) => {
                let from = self.build_target_path(a)?;
                let to = self.build_target_path(b)?;
                Ok(MirrorOp::Rename { from, to })
            },
            ChangeEvent::WatchError(d) => Ok(MirrorOp::Report { detail: d.clone() }),
        }
    }
}

} // verus!
