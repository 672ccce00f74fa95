//! Placing the tidy file where `clang-tidy` finds it.
//!
//! `clang-tidy` reads the `.clang-tidy` file of the directory it works in,
//! so the configured tidy file is copied into the tidy root for the run and
//! removed afterwards. A `.clang-tidy` file that is already there is left
//! alone: with the same content nothing needs to be done, with another
//! content the run must not go on.
//!
//! The caller looks at the destination and hands in what it found;
//! [`place_tidy_file`] says what to do; the caller copies and hands in how
//! that went; [`copied`] says what is to be removed at the end.

use vstd::prelude::*;
use crate::paths::{join, path_join};
use crate::text::{join2, join3, same_text};

verus! {

/// What the caller found at the destination.
#[derive(Debug, PartialEq, Eq)]
pub enum Destination {
    /// No file is there.
    Absent,
    /// A file is there. The caller has read it and the tidy file; a read
    /// that failed holds the reason.
    Present { source: Result<String, String>, existing: Result<String, String> },
}

/// What is to be done about the tidy file.
#[derive(Debug, PartialEq, Eq)]
pub enum Placement {
    /// No tidy file is configured.
    Nothing,
    /// The destination holds the tidy file's content already.
    Keep { dst: String },
    /// The tidy file is to be copied from `src` to `dst`.
    Copy { src: String, dst: String },
}

/// A [`Placement`] with its texts as sequences.
pub enum PlacementView {
    Nothing,
    Keep { dst: Seq<char> },
    Copy { src: Seq<char>, dst: Seq<char> },
}

/// Why the tidy file could not be placed.
#[derive(Debug, PartialEq, Eq)]
pub enum StageError {
    /// The tidy file could not be read.
    ReadSource { src: String, reason: String },
    /// The file at the destination could not be read.
    ReadExisting { dst: String, reason: String },
    /// The file at the destination holds another content.
    Conflict { src: String, dst: String },
    /// The copy failed.
    Copy { dst_root: String, reason: String },
}

/// A [`StageError`] with its texts as sequences.
pub enum StageErrorView {
    ReadSource { src: Seq<char>, reason: Seq<char> },
    ReadExisting { dst: Seq<char>, reason: Seq<char> },
    Conflict { src: Seq<char>, dst: Seq<char> },
    Copy { dst_root: Seq<char>, reason: Seq<char> },
}

/// What the caller found at the destination, with its texts as sequences.
pub enum DestinationView {
    Absent,
    Present { source: Result<Seq<char>, Seq<char>>, existing: Result<Seq<char>, Seq<char>> },
}

/// A read with its text as a sequence.
pub open spec fn read_view(read: Result<String, String>) -> Result<Seq<char>, Seq<char>> {
    match read {
        Ok(content) => Ok(content@),
        Err(reason) => Err(reason@),
    }
}

impl View for Destination {
    type V = DestinationView;

    open spec fn view(&self) -> DestinationView {
        match *self {
            Destination::Absent => DestinationView::Absent,
            Destination::Present { source, existing } => DestinationView::Present {
                source: read_view(source),
                existing: read_view(existing),
            },
        }
    }
}

impl View for Placement {
    type V = PlacementView;

    open spec fn view(&self) -> PlacementView {
        match *self {
            Placement::Nothing => PlacementView::Nothing,
            Placement::Keep { dst } => PlacementView::Keep { dst: dst@ },
            Placement::Copy { src, dst } => PlacementView::Copy { src: src@, dst: dst@ },
        }
    }
}

impl View for StageError {
    type V = StageErrorView;

    open spec fn view(&self) -> StageErrorView {
        match *self {
            StageError::ReadSource { src, reason } => StageErrorView::ReadSource {
                src: src@,
                reason: reason@,
            },
            StageError::ReadExisting { dst, reason } => StageErrorView::ReadExisting {
                dst: dst@,
                reason: reason@,
            },
            StageError::Conflict { src, dst } => StageErrorView::Conflict { src: src@, dst: dst@ },
            StageError::Copy { dst_root, reason } => StageErrorView::Copy {
                dst_root: dst_root@,
                reason: reason@,
            },
        }
    }
}

impl StageErrorView {
    /// The text shown for the error.
    pub open spec fn message(self) -> Seq<char> {
        match self {
            StageErrorView::ReadSource { src, reason } => "Failed to read '"@ + src + "': "@
                + reason,
            StageErrorView::ReadExisting { dst, reason } =>
                "Error while trying to compare existing tidy file: Failed to read '"@ + dst
                    + "': "@ + reason,
            StageErrorView::Conflict { src, dst } => "Existing tidy file "@ + dst
                + " does not match provided tidy file "@ + src,
            StageErrorView::Copy { dst_root, reason } => "Failed to copy tidy file to "@ + dst_root
                + ": "@ + reason,
        }
    }

    /// What the user is advised to do about the error.
    pub open spec fn suggestion(self) -> Option<Seq<char>> {
        match self {
            StageErrorView::ReadSource { .. } => None,
            StageErrorView::ReadExisting { dst, .. } => Some(
                "Please delete or fix the existing tidy file "@ + dst,
            ),
            StageErrorView::Conflict { src, dst } => Some(
                "Please either delete the file "@ + dst + " or align the contents with "@ + src,
            ),
            StageErrorView::Copy { dst_root, .. } => Some(
                "Please check the permissions for the folder "@ + dst_root,
            ),
        }
    }
}

impl StageError {
    /// The text shown for the error.
    pub fn message(&self) -> (text: String)
        ensures
            text@ == self@.message(),
    {
        match self {
            StageError::ReadSource { src, reason } => {
                let text = join2(
                    join3("Failed to read '", src.as_str(), "': ").as_str(),
                    reason.as_str(),
                );
                assert(text@ =~= self@.message());
                text
            },
            StageError::ReadExisting { dst, reason } => {
                let text = join2(
                    join3(
                        "Error while trying to compare existing tidy file: Failed to read '",
                        dst.as_str(),
                        "': ",
                    ).as_str(),
                    reason.as_str(),
                );
                assert(text@ =~= self@.message());
                text
            },
            StageError::Conflict { src, dst } => {
                let text = join2(
                    join3(
                        "Existing tidy file ",
                        dst.as_str(),
                        " does not match provided tidy file ",
                    ).as_str(),
                    src.as_str(),
                );
                assert(text@ =~= self@.message());
                text
            },
            StageError::Copy { dst_root, reason } => {
                let text = join2(
                    join3("Failed to copy tidy file to ", dst_root.as_str(), ": ").as_str(),
                    reason.as_str(),
                );
                assert(text@ =~= self@.message());
                text
            },
        }
    }

    /// What the user is advised to do about the error.
    pub fn suggestion(&self) -> (text: Option<String>)
        ensures
            text.deep_view() == self@.suggestion(),
    {
        match self {
            StageError::ReadSource { .. } => None,
            StageError::ReadExisting { dst, .. } => Some(
                join2("Please delete or fix the existing tidy file ", dst.as_str()),
            ),
            StageError::Conflict { src, dst } => {
                let text = join2(
                    join3(
                        "Please either delete the file ",
                        dst.as_str(),
                        " or align the contents with ",
                    ).as_str(),
                    src.as_str(),
                );
                assert(text@ =~= self@.suggestion()->0);
                Some(text)
            },
            StageError::Copy { dst_root, .. } => Some(
                join2("Please check the permissions for the folder ", dst_root.as_str()),
            ),
        }
    }
}

/// The name under which `clang-tidy` looks for its configuration.
pub open spec fn staged_name() -> Seq<char> {
    ".clang-tidy"@
}

/// Where the tidy file goes: the file named `.clang-tidy` in the tidy
/// root, whatever the tidy file itself is called.
pub open spec fn spec_target(dst_root: Seq<char>) -> Seq<char> {
    path_join(dst_root, staged_name())
}

/// What [`place_tidy_file`] returns.
pub open spec fn spec_place(
    file_and_root: Option<(Seq<char>, Seq<char>)>,
    found: DestinationView,
) -> Result<PlacementView, StageErrorView> {
    match file_and_root {
        None => Ok(PlacementView::Nothing),
        Some((src, dst_root)) => match found {
            DestinationView::Absent => Ok(PlacementView::Copy { src, dst: spec_target(dst_root) }),
            DestinationView::Present { source, existing } => match source {
                Err(reason) => Err(StageErrorView::ReadSource { src, reason }),
                Ok(content) => match existing {
                    Err(reason) => Err(
                        StageErrorView::ReadExisting { dst: spec_target(dst_root), reason },
                    ),
                    Ok(other) => if content == other {
                        Ok(PlacementView::Keep { dst: spec_target(dst_root) })
                    } else {
                        Err(StageErrorView::Conflict { src, dst: spec_target(dst_root) })
                    },
                },
            },
        },
    }
}

/// What [`copied`] returns.
pub open spec fn spec_copied(
    dst_root: Seq<char>,
    outcome: Result<(), Seq<char>>,
) -> Result<Seq<char>, StageErrorView> {
    match outcome {
        Ok(_) => Ok(spec_target(dst_root)),
        Err(reason) => Err(StageErrorView::Copy { dst_root, reason }),
    }
}

/// Where the tidy file goes in the tidy root `dst_root`.
pub fn target(dst_root: &str) -> (dst: String)
    ensures
        dst@ == spec_target(dst_root@),
{
    join(dst_root, ".clang-tidy")
}

/// Says what is to be done about the tidy file, given what the caller
/// found at [`target`]. Nothing, where no tidy file is configured. A copy,
/// where no file is there. Nothing again, where the file that is there
/// holds what the tidy file holds. Where it holds something else, or one
/// of the two cannot be read, the run must stop, and nothing is written.
pub fn place_tidy_file(file_and_root: &Option<(String, String)>, found: &Destination) -> (r:
    Result<Placement, StageError>)
    ensures
        match r {
            Ok(placement) => spec_place(file_and_root.deep_view(), found@) == Ok::<
                PlacementView,
                StageErrorView,
            >(placement@),
            Err(e) => spec_place(file_and_root.deep_view(), found@) == Err::<
                PlacementView,
                StageErrorView,
            >(e@),
        },
{
    let (src, dst_root) = match file_and_root {
        None => {
            return Ok(Placement::Nothing);
        },
        Some(pair) => (&pair.0, &pair.1),
    };
    assert(file_and_root.deep_view() == Some((src@, dst_root@)));
    let dst = target(dst_root.as_str());
    match found {
        Destination::Absent => Ok(Placement::Copy { src: src.clone(), dst }),
        Destination::Present { source, existing } => {
            let content = match source {
                Ok(content) => content,
                Err(reason) => {
                    return Err(StageError::ReadSource { src: src.clone(), reason: reason.clone() });
                },
            };
            let other = match existing {
                Ok(other) => other,
                Err(reason) => {
                    return Err(StageError::ReadExisting { dst, reason: reason.clone() });
                },
            };
            if same_text(content.as_str(), other.as_str()) {
                Ok(Placement::Keep { dst })
            } else {
                Err(StageError::Conflict { src: src.clone(), dst })
            }
        },
    }
}

/// Takes how the copy into `dst_root` went: the path to remove at the end
/// of the run, or the error that stops the run.
pub fn copied(dst_root: &str, outcome: &Result<(), String>) -> (r: Result<String, StageError>)
    ensures
        match r {
            Ok(staged) => outcome is Ok && staged@ == spec_target(dst_root@),
            Err(e) => outcome matches Err(reason) && e@ == (StageErrorView::Copy {
                dst_root: dst_root@,
                reason: reason@,
            }),
        },
{
    match outcome {
        Ok(_) => Ok(target(dst_root)),
        Err(reason) => Err(
            StageError::Copy { dst_root: dst_root.to_owned(), reason: reason.clone() },
        ),
    }
}

/// What the caller finds at the destination on a disk that holds `disk`:
/// the files that can be read, each with its content.
pub open spec fn looked_at(
    disk: Map<Seq<char>, Seq<char>>,
    src: Seq<char>,
    dst_root: Seq<char>,
) -> DestinationView {
    if disk.contains_key(spec_target(dst_root)) {
        DestinationView::Present {
            source: if disk.contains_key(src) {
                Ok(disk[src])
            } else {
                Err(Seq::empty())
            },
            existing: Ok(disk[spec_target(dst_root)]),
        }
    } else {
        DestinationView::Absent
    }
}

/// The disk after the caller has done what `step` asks for.
pub open spec fn carried_out(
    disk: Map<Seq<char>, Seq<char>>,
    step: Result<PlacementView, StageErrorView>,
) -> Map<Seq<char>, Seq<char>> {
    match step {
        Ok(PlacementView::Copy { src, dst }) => if disk.contains_key(src) {
            disk.insert(dst, disk[src])
        } else {
            disk
        },
        _ => disk,
    }
}

/// Placing a tidy file a second time does nothing: once the first
/// placement has been carried out, the second one finds the tidy file's
/// content at the destination and asks for no copy.
pub proof fn staging_is_idempotent(
    disk: Map<Seq<char>, Seq<char>>,
    src: Seq<char>,
    dst_root: Seq<char>,
)
    requires
        disk.contains_key(src),
    ensures
        ({
            let first = spec_place(Some((src, dst_root)), looked_at(disk, src, dst_root));
            let after = carried_out(disk, first);
            let second = spec_place(Some((src, dst_root)), looked_at(after, src, dst_root));
            first is Ok ==> second == Ok::<PlacementView, StageErrorView>(
                PlacementView::Keep { dst: spec_target(dst_root) },
            ) && carried_out(after, second) == after && after[src] == disk[src]
        }),
{
}

/// A destination that holds another content than the tidy file stops the
/// placement, and the disk stays as it is.
pub proof fn staging_conflict_changes_nothing(
    disk: Map<Seq<char>, Seq<char>>,
    src: Seq<char>,
    dst_root: Seq<char>,
)
    requires
        disk.contains_key(src),
        disk.contains_key(spec_target(dst_root)),
        disk[spec_target(dst_root)] != disk[src],
    ensures
        ({
            let step = spec_place(Some((src, dst_root)), looked_at(disk, src, dst_root));
            step == Err::<PlacementView, StageErrorView>(
                StageErrorView::Conflict { src, dst: spec_target(dst_root) },
            ) && carried_out(disk, step) == disk
        }),
{
}

/// Only a placement that succeeds with a copy ever changes the disk, and
/// then only the destination.
pub proof fn staging_writes_only_the_destination(
    disk: Map<Seq<char>, Seq<char>>,
    file_and_root: Option<(Seq<char>, Seq<char>)>,
    found: DestinationView,
    path: Seq<char>,
)
    requires
        file_and_root matches Some((_, dst_root)) ==> path != spec_target(dst_root),
    ensures
        carried_out(disk, spec_place(file_and_root, found)).contains_key(path)
            == disk.contains_key(path),
        disk.contains_key(path) ==> carried_out(disk, spec_place(file_and_root, found))[path]
            == disk[path],
{
}

} // verus!
