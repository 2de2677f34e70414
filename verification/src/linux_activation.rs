//! Making a runtime the active one on Linux: the marker of the active
//! runtime becomes a symbolic link to the runtime's manifest, after what
//! lay there has been moved aside.
//!
//! The library decides; its caller touches the file system. Activation
//! begins with `LinuxRuntime::make_active`, which hands out the first
//! action. The caller performs each action and reports what came of it
//! to `LinuxActivation::advance`, until the action is `Done`. The
//! sequence is best effort: nothing undoes the steps taken when a later
//! one fails.

use vstd::prelude::*;
use vstd::string::*;
use crate::error::{outcome_view, Error, ErrorView};
use crate::linux::{
    active_file,
    join_path,
    joined,
    make_path_suffix,
    path_suffix,
    LinuxRuntime,
};
use crate::text::{decimal, decimal_text, join_text};
use crate::ACTIVE_RUNTIME_FILENAME;

verus! {

/// What the caller is to do next.
#[derive(Debug, PartialEq, Eq)]
pub enum ActivationAction {
    /// Find the place for a configuration file with this path relative
    /// to the most important configuration directory, creating the
    /// directories that lead to it.
    PlaceConfigFile { relative: String },
    /// Rename the file `from` to `to`.
    Rename { from: String, to: String },
    /// Find out whether `path` is a symbolic link.
    QuerySymlink { path: String },
    /// Remove the file `path`.
    RemoveFile { path: String },
    /// Create the symbolic link `link` that points to `target`.
    Symlink { target: String, link: String },
    /// Activation has ended, with this outcome.
    Done(Result<(), Error>),
}

/// What came of the action that was handed out last.
#[derive(Debug, PartialEq, Eq)]
pub enum ActivationEvent {
    /// The place of the configuration file, or the cause for which
    /// there is none.
    Placed(Result<String, String>),
    /// Whether the file was renamed.
    Renamed(bool),
    /// Whether the path is a symbolic link; nothing where that could
    /// not be found out.
    SymlinkQueried(Option<bool>),
    /// Whether the file was removed.
    Removed(bool),
    /// That the symbolic link was created, or the cause for which it
    /// was not.
    Linked(Result<(), String>),
}

/// How far an activation has come.
#[derive(Debug, PartialEq, Eq)]
pub enum Stage {
    /// Waiting for the place of the marker.
    PlacingMarker,
    /// Waiting for the place of the backup.
    PlacingBackup { marker: String },
    /// Waiting for the old marker to be moved aside.
    MovingAside { marker: String, backup: String },
    /// Waiting to learn whether the backup is a symbolic link.
    InspectingBackup { marker: String, backup: String },
    /// Waiting for the backup, a symbolic link, to be removed.
    RemovingBackup { marker: String },
    /// Waiting for the new link.
    Linking,
    /// Ended.
    Finished,
}

/// An activation under way.
#[derive(Debug, PartialEq, Eq)]
pub struct LinuxActivation {
    manifest_path: String,
    timestamp: u64,
    stage: Stage,
}

/// An action, as plain values.
pub enum ActionView {
    PlaceConfigFile { relative: Seq<char> },
    Rename { from: Seq<char>, to: Seq<char> },
    QuerySymlink { path: Seq<char> },
    RemoveFile { path: Seq<char> },
    Symlink { target: Seq<char>, link: Seq<char> },
    Done(Result<(), ErrorView>),
}

/// A stage, as plain values.
pub enum StageView {
    PlacingMarker,
    PlacingBackup { marker: Seq<char> },
    MovingAside { marker: Seq<char>, backup: Seq<char> },
    InspectingBackup { marker: Seq<char>, backup: Seq<char> },
    RemovingBackup { marker: Seq<char> },
    Linking,
    Finished,
}

/// An activation, as plain values.
pub struct ActivationView {
    /// The manifest that is to become the active one.
    pub manifest_path: Seq<char>,
    /// The time of the activation, in seconds, which names the backup.
    pub timestamp: nat,
    pub stage: StageView,
}

impl View for ActivationAction {
    type V = ActionView;

    open spec fn view(&self) -> ActionView {
        match *self {
            ActivationAction::PlaceConfigFile { relative } => ActionView::PlaceConfigFile {
                relative: relative@,
            },
            ActivationAction::Rename { from, to } => ActionView::Rename { from: from@, to: to@ },
            ActivationAction::QuerySymlink { path } => ActionView::QuerySymlink { path: path@ },
            ActivationAction::RemoveFile { path } => ActionView::RemoveFile { path: path@ },
            ActivationAction::Symlink { target, link } => ActionView::Symlink {
                target: target@,
                link: link@,
            },
            ActivationAction::Done(outcome) => ActionView::Done(outcome_view(outcome)),
        }
    }
}

impl View for Stage {
    type V = StageView;

    open spec fn view(&self) -> StageView {
        match *self {
            Stage::PlacingMarker => StageView::PlacingMarker,
            Stage::PlacingBackup { marker } => StageView::PlacingBackup { marker: marker@ },
            Stage::MovingAside { marker, backup } => StageView::MovingAside {
                marker: marker@,
                backup: backup@,
            },
            Stage::InspectingBackup { marker, backup } => StageView::InspectingBackup {
                marker: marker@,
                backup: backup@,
            },
            Stage::RemovingBackup { marker } => StageView::RemovingBackup { marker: marker@ },
            Stage::Linking => StageView::Linking,
            Stage::Finished => StageView::Finished,
        }
    }
}

impl View for LinuxActivation {
    type V = ActivationView;

    closed spec fn view(&self) -> ActivationView {
        ActivationView {
            manifest_path: self.manifest_path@,
            timestamp: self.timestamp as nat,
            stage: self.stage@,
        }
    }
}

/// The name of the backup made at `timestamp`, relative to a
/// configuration directory.
pub open spec fn backup_file(timestamp: nat) -> Seq<char> {
    joined(path_suffix(), "old_active_runtime"@ + decimal(timestamp) + ".json"@)
}

/// The cause given where an event does not answer the action that was
/// handed out.
pub const OUT_OF_TURN: &'static str = "event does not answer the action handed out";

/// The outcome of an activation whose link was made, or was not made
/// for the given cause.
pub open spec fn linked_view(outcome: Result<(), String>) -> Result<(), ErrorView> {
    match outcome {
        Ok(_) => Ok(()),
        Err(cause) => Err(ErrorView::SetActiveError(cause@)),
    }
}

/// The stage and the action that follow when `event` is reported to
/// `activation`.
///
/// The marker is placed, then the backup; what lay at the marker is
/// moved to the backup, and a failure to move is passed over; a backup
/// that is a symbolic link is removed, and a failure to remove is
/// passed over; then the marker is linked to the manifest. A failure to
/// place or to link ends the activation with a `SetActiveError` that
/// holds its cause.
pub open spec fn next_step(activation: ActivationView, event: ActivationEvent) -> (
    StageView,
    ActionView,
) {
    let link = |marker: Seq<char>|
        (
            StageView::Linking,
            ActionView::Symlink { target: activation.manifest_path, link: marker },
        );
    match (activation.stage, event) {
        (StageView::PlacingMarker, ActivationEvent::Placed(Ok(marker))) => (
            StageView::PlacingBackup { marker: marker@ },
            ActionView::PlaceConfigFile { relative: backup_file(activation.timestamp) },
        ),
        (StageView::PlacingMarker, ActivationEvent::Placed(Err(cause))) => (
            StageView::Finished,
            ActionView::Done(Err(ErrorView::SetActiveError(cause@))),
        ),
        (StageView::PlacingBackup { marker }, ActivationEvent::Placed(Ok(backup))) => (
            StageView::MovingAside { marker, backup: backup@ },
            ActionView::Rename { from: marker, to: backup@ },
        ),
        (StageView::PlacingBackup { marker }, ActivationEvent::Placed(Err(cause))) => (
            StageView::Finished,
            ActionView::Done(Err(ErrorView::SetActiveError(cause@))),
        ),
        (StageView::MovingAside { marker, backup }, ActivationEvent::Renamed(true)) => (
            StageView::InspectingBackup { marker, backup },
            ActionView::QuerySymlink { path: backup },
        ),
        (StageView::MovingAside { marker, backup }, ActivationEvent::Renamed(false)) => link(
            marker,
        ),
        (
            StageView::InspectingBackup { marker, backup },
            ActivationEvent::SymlinkQueried(Some(true)),
        ) => (StageView::RemovingBackup { marker }, ActionView::RemoveFile { path: backup }),
        (StageView::InspectingBackup { marker, backup }, ActivationEvent::SymlinkQueried(_)) => link(
            marker,
        ),
        (StageView::RemovingBackup { marker }, ActivationEvent::Removed(_)) => link(marker),
        (StageView::Linking, ActivationEvent::Linked(outcome)) => (
            StageView::Finished,
            ActionView::Done(linked_view(outcome)),
        ),
        _ => (
            StageView::Finished,
            ActionView::Done(Err(ErrorView::SetActiveError(OUT_OF_TURN@))),
        ),
    }
}

/// The action that ends an activation with a failure of the given
/// cause.
fn fail(cause: String) -> (step: (Stage, ActivationAction))
    ensures
        step.0@ == StageView::Finished,
        step.1@ == ActionView::Done(Err(ErrorView::SetActiveError(cause@))),
{
    (Stage::Finished, ActivationAction::Done(Err(Error::SetActiveError(cause))))
}

impl LinuxActivation {
    /// The action that links the marker to the manifest.
    fn link(&self, marker: String) -> (step: (Stage, ActivationAction))
        ensures
            step.0@ == StageView::Linking,
            step.1@ == (ActionView::Symlink { target: self@.manifest_path, link: marker@ }),
    {
        (
            Stage::Linking,
            ActivationAction::Symlink { target: self.manifest_path.clone(), link: marker },
        )
    }

    /// The place of the backup, relative to a configuration directory.
    fn backup_name(&self) -> (relative: String)
        ensures
            relative@ == backup_file(self@.timestamp),
    {
        let mut name = join_text("old_active_runtime", decimal_text(self.timestamp).as_str());
        name.append(".json");
        join_path(make_path_suffix().as_str(), name.as_str())
    }

    /// Has the activation ended?
    pub fn is_finished(&self) -> (finished: bool)
        ensures
            finished == (self@.stage == StageView::Finished),
    {
        matches!(self.stage, Stage::Finished)
    }

    /// Take the report of what came of the last action, and hand out
    /// the next one. An event that does not answer the last action ends
    /// the activation with a `SetActiveError`.
    pub fn advance(self, event: ActivationEvent) -> (step: (LinuxActivation, ActivationAction))
        ensures
            step.0@.manifest_path == self@.manifest_path,
            step.0@.timestamp == self@.timestamp,
            (step.0@.stage, step.1@) == next_step(self@, event),
    {
        let LinuxActivation { manifest_path, timestamp, stage } = self;
        let this = LinuxActivation { manifest_path, timestamp, stage: Stage::Finished };
        let (stage, action) = match (stage, event) {
            (Stage::PlacingMarker, ActivationEvent::Placed(Ok(marker))) => (
                Stage::PlacingBackup { marker },
                ActivationAction::PlaceConfigFile { relative: this.backup_name() },
            ),
            (Stage::PlacingMarker, ActivationEvent::Placed(Err(cause))) => fail(cause),
            (Stage::PlacingBackup { marker }, ActivationEvent::Placed(Ok(backup))) => (
                Stage::MovingAside { marker: marker.clone(), backup: backup.clone() },
                ActivationAction::Rename { from: marker, to: backup },
            ),
            (Stage::PlacingBackup { marker: _ }, ActivationEvent::Placed(Err(cause))) => fail(
                cause,
            ),
            (Stage::MovingAside { marker, backup }, ActivationEvent::Renamed(true)) => (
                Stage::InspectingBackup { marker, backup: backup.clone() },
                ActivationAction::QuerySymlink { path: backup },
            ),
            (Stage::MovingAside { marker, backup: _ }, ActivationEvent::Renamed(false)) => this.link(
                marker,
            ),
            (
                Stage::InspectingBackup { marker, backup },
                ActivationEvent::SymlinkQueried(Some(true)),
            ) => (Stage::RemovingBackup { marker }, ActivationAction::RemoveFile { path: backup }),
            (
                Stage::InspectingBackup { marker, backup: _ },
                ActivationEvent::SymlinkQueried(_),
            ) => this.link(marker),
            (Stage::RemovingBackup { marker }, ActivationEvent::Removed(_)) => this.link(marker),
            (Stage::Linking, ActivationEvent::Linked(Ok(_))) => (
                Stage::Finished,
                ActivationAction::Done(Ok(())),
            ),
            (Stage::Linking, ActivationEvent::Linked(Err(cause))) => fail(cause),
            _ => fail(String::from_str(OUT_OF_TURN)),
        };
        (LinuxActivation { manifest_path: this.manifest_path, timestamp, stage }, action)
    }
}

impl LinuxRuntime {
    /// Begin to make this runtime active, at the time `timestamp` in
    /// seconds: hands out the activation and its first action, which
    /// asks for the place of the marker.
    pub fn make_active(&self, timestamp: u64) -> (begun: (LinuxActivation, ActivationAction))
        ensures
            begun.0@ == (ActivationView {
                manifest_path: self@.manifest_path,
                timestamp: timestamp as nat,
                stage: StageView::PlacingMarker,
            }),
            begun.1@ == (ActionView::PlaceConfigFile { relative: active_file(path_suffix()) }),
    {
        let manifest_path = String::from_str(self.get_base().get_manifest_path());
        let relative = join_path(make_path_suffix().as_str(), ACTIVE_RUNTIME_FILENAME);
        (
            LinuxActivation { manifest_path, timestamp, stage: Stage::PlacingMarker },
            ActivationAction::PlaceConfigFile { relative },
        )
    }
}

/// Nothing is removed but a backup that was found to be a symbolic
/// link: what was moved aside and holds data of its own stays.
pub proof fn lemma_only_symlink_backup_is_removed(activation: ActivationView, event: ActivationEvent)
    ensures
        next_step(activation, event).1 is RemoveFile ==> (activation.stage matches StageView::InspectingBackup {
            backup,
            ..
        } && event == ActivationEvent::SymlinkQueried(Some(true)) && next_step(
            activation,
            event,
        ).1 == (ActionView::RemoveFile { path: backup })),
{
}

/// Whatever is linked is the marker, and it is linked to the manifest
/// of the runtime that is being activated.
pub proof fn lemma_link_points_to_manifest(activation: ActivationView, event: ActivationEvent)
    ensures
        next_step(activation, event).1 matches ActionView::Symlink { target, link } ==> target
            == activation.manifest_path && (match activation.stage {
            StageView::MovingAside { marker, .. } => link == marker,
            StageView::InspectingBackup { marker, .. } => link == marker,
            StageView::RemovingBackup { marker } => link == marker,
            _ => false,
        }),
{
}

/// A failure to move the old marker aside, or to remove the backup, does
/// not end the activation: the link is made next.
pub proof fn lemma_failures_to_tidy_are_passed_over(marker: Seq<char>, backup: Seq<char>, activation: ActivationView)
    ensures
        activation.stage == (StageView::MovingAside { marker, backup }) ==> next_step(
            activation,
            ActivationEvent::Renamed(false),
        ).1 == (ActionView::Symlink { target: activation.manifest_path, link: marker }),
        activation.stage == (StageView::RemovingBackup { marker }) ==> next_step(
            activation,
            ActivationEvent::Removed(false),
        ).1 == (ActionView::Symlink { target: activation.manifest_path, link: marker }),
{
}

/// `activation` at the stage `stage`.
pub open spec fn at_stage(activation: ActivationView, stage: StageView) -> ActivationView {
    ActivationView { stage, ..activation }
}

/// Once the marker and the backup are placed, the marker is linked to
/// the manifest whatever comes of moving the old marker aside, of
/// inspecting the backup and of removing it; and the activation
/// succeeds exactly when the link is made.
pub proof fn lemma_placed_activation_links_marker(
    activation: ActivationView,
    marker: String,
    backup: String,
    renamed: bool,
    queried: Option<bool>,
    removed: bool,
    linked: Result<(), String>,
)
    requires
        activation.stage == StageView::PlacingMarker,
    ensures
        ({
            let link = ActionView::Symlink { target: activation.manifest_path, link: marker@ };
            let placed = next_step(activation, ActivationEvent::Placed(Ok(marker)));
            let moving = next_step(
                at_stage(activation, placed.0),
                ActivationEvent::Placed(Ok(backup)),
            );
            let moved = next_step(at_stage(activation, moving.0), ActivationEvent::Renamed(renamed));
            let inspected = next_step(
                at_stage(activation, moved.0),
                ActivationEvent::SymlinkQueried(queried),
            );
            let tidied = next_step(
                at_stage(activation, inspected.0),
                ActivationEvent::Removed(removed),
            );
            &&& placed.1 == (ActionView::PlaceConfigFile {
                relative: backup_file(activation.timestamp),
            })
            &&& moving.1 == (ActionView::Rename { from: marker@, to: backup@ })
            &&& !renamed ==> moved.1 == link
            &&& renamed ==> moved.1 == (ActionView::QuerySymlink { path: backup@ })
            &&& renamed && queried != Some(true) ==> inspected.1 == link
            &&& renamed && queried == Some(true) ==> inspected.1 == (ActionView::RemoveFile {
                path: backup@,
            }) && tidied.1 == link
            &&& next_step(
                at_stage(activation, StageView::Linking),
                ActivationEvent::Linked(linked),
            ).1 == ActionView::Done(linked_view(linked))
        }),
{
}

/// However an activation fails, it fails with a `SetActiveError`.
pub proof fn lemma_failure_is_set_active_error(activation: ActivationView, event: ActivationEvent)
    ensures
        next_step(activation, event).1 matches ActionView::Done(Err(e)) ==> e
            is SetActiveError,
{
}

/// An activation succeeds only by making the link: the outcome is `Ok`
/// only when the link was reported as made.
pub proof fn lemma_success_means_linked(activation: ActivationView, event: ActivationEvent)
    ensures
        next_step(activation, event).1 == ActionView::Done(Ok(())) ==> activation.stage
            == StageView::Linking && event matches ActivationEvent::Linked(Ok(_)),
{
}

} // verus!
