use xrpicker::linux::LinuxRuntime;
use xrpicker::linux_activation::{ActivationAction, ActivationEvent, LinuxActivation};
use xrpicker::manifest::{Runtime, RuntimeManifest};
use xrpicker::Error;

const MARKER: &str = "/home/u/.config/openxr/1/active_runtime.json";
const BACKUP: &str = "/home/u/.config/openxr/1/old_active_runtime1700000000.json";
const MANIFEST: &str = "/usr/share/openxr/1/monado.json";

fn begin() -> (LinuxActivation, ActivationAction) {
    let runtime = LinuxRuntime::new(
        "/etc/openxr/1/monado.json",
        MANIFEST,
        Ok(RuntimeManifest::new(
            "1.0.0".to_string(),
            Runtime {
                library_path: "libmonado.so".to_string(),
                name: None,
                functions: None,
            },
        )),
    )
    .unwrap();
    runtime.make_active(1700000000)
}

fn placed(path: &str) -> ActivationEvent {
    ActivationEvent::Placed(Ok(path.to_string()))
}

fn link() -> ActivationAction {
    ActivationAction::Symlink {
        target: MANIFEST.to_string(),
        link: MARKER.to_string(),
    }
}

fn until_moving_aside() -> LinuxActivation {
    let (activation, _) = begin();
    let (activation, _) = activation.advance(placed(MARKER));
    let (activation, action) = activation.advance(placed(BACKUP));
    assert_eq!(
        action,
        ActivationAction::Rename {
            from: MARKER.to_string(),
            to: BACKUP.to_string()
        }
    );
    activation
}

#[test]
fn activation_places_marker_then_backup() {
    let (activation, action) = begin();
    assert_eq!(
        action,
        ActivationAction::PlaceConfigFile {
            relative: "openxr/1/active_runtime.json".to_string()
        }
    );
    assert!(!activation.is_finished());
    let (_, action) = activation.advance(placed(MARKER));
    assert_eq!(
        action,
        ActivationAction::PlaceConfigFile {
            relative: "openxr/1/old_active_runtime1700000000.json".to_string()
        }
    );
}

#[test]
fn old_regular_file_is_kept_as_backup() {
    let activation = until_moving_aside();
    let (activation, action) = activation.advance(ActivationEvent::Renamed(true));
    assert_eq!(
        action,
        ActivationAction::QuerySymlink {
            path: BACKUP.to_string()
        }
    );
    let (activation, action) = activation.advance(ActivationEvent::SymlinkQueried(Some(false)));
    assert_eq!(action, link());
    let (activation, action) = activation.advance(ActivationEvent::Linked(Ok(())));
    assert_eq!(action, ActivationAction::Done(Ok(())));
    assert!(activation.is_finished());
}

#[test]
fn old_symlink_is_removed() {
    let activation = until_moving_aside();
    let (activation, _) = activation.advance(ActivationEvent::Renamed(true));
    let (activation, action) = activation.advance(ActivationEvent::SymlinkQueried(Some(true)));
    assert_eq!(
        action,
        ActivationAction::RemoveFile {
            path: BACKUP.to_string()
        }
    );
    let (_, action) = activation.advance(ActivationEvent::Removed(true));
    assert_eq!(action, link());
}

#[test]
fn failures_to_tidy_are_tolerated() {
    let (_, action) = until_moving_aside().advance(ActivationEvent::Renamed(false));
    assert_eq!(action, link());

    let (activation, _) = until_moving_aside().advance(ActivationEvent::Renamed(true));
    let (_, action) = activation.advance(ActivationEvent::SymlinkQueried(None));
    assert_eq!(action, link());

    let (activation, _) = until_moving_aside().advance(ActivationEvent::Renamed(true));
    let (activation, _) = activation.advance(ActivationEvent::SymlinkQueried(Some(true)));
    let (_, action) = activation.advance(ActivationEvent::Removed(false));
    assert_eq!(action, link());
}

#[test]
fn failures_to_place_or_link_end_the_activation_with_set_active_error() {
    let (activation, _) = begin();
    let (activation, action) =
        activation.advance(ActivationEvent::Placed(Err("no home directory".to_string())));
    assert_eq!(
        action,
        ActivationAction::Done(Err(Error::SetActiveError("no home directory".to_string())))
    );
    assert!(activation.is_finished());

    let (activation, _) = begin();
    let (activation, _) = activation.advance(placed(MARKER));
    let (_, action) = activation.advance(ActivationEvent::Placed(Err("read only".to_string())));
    assert_eq!(
        action,
        ActivationAction::Done(Err(Error::SetActiveError("read only".to_string())))
    );

    let (activation, _) = until_moving_aside().advance(ActivationEvent::Renamed(false));
    let (_, action) = activation.advance(ActivationEvent::Linked(Err("exists".to_string())));
    assert_eq!(
        action,
        ActivationAction::Done(Err(Error::SetActiveError("exists".to_string())))
    );
}

#[test]
fn an_event_out_of_turn_ends_the_activation() {
    let (activation, _) = begin();
    let (activation, action) = activation.advance(ActivationEvent::Renamed(true));
    assert!(matches!(
        action,
        ActivationAction::Done(Err(Error::SetActiveError(_)))
    ));
    assert!(activation.is_finished());
    let (_, action) = activation.advance(ActivationEvent::Linked(Ok(())));
    assert!(matches!(
        action,
        ActivationAction::Done(Err(Error::SetActiveError(_)))
    ));
}
