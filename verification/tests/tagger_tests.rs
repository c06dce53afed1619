use espflash::connection::{Command, ConnectionError, TimedOutCommand};
use espflash::error::{flashing, for_command, Error};

fn sync_command() -> Command {
    Command {
        code: 0x08,
        name: String::from("sync"),
        payload: vec![0x07, 0x07, 0x12, 0x20],
    }
}

fn bare_timeout() -> Error {
    Error::Connection(ConnectionError::Timeout(TimedOutCommand { command: None }))
}

#[test]
fn mark_flashing_rewraps_connection_failures() {
    let r: Result<(), Error> = Err(Error::Connection(ConnectionError::ConnectionFailed));
    assert_eq!(
        flashing(r),
        Err(Error::Flashing(ConnectionError::ConnectionFailed))
    );
}

#[test]
fn mark_flashing_is_idempotent() {
    let once = flashing::<()>(Err(bare_timeout()));
    let twice = flashing::<()>(flashing::<()>(Err(bare_timeout())));
    assert_eq!(once, twice);

    let other: Result<(), Error> = Err(Error::FlashConnect);
    assert_eq!(flashing(other.clone()), flashing(flashing(other)));
}

#[test]
fn mark_flashing_leaves_success_and_other_errors_alone() {
    let ok: Result<u32, Error> = Ok(7);
    assert_eq!(flashing(ok), Ok(7));
    let other: Result<u32, Error> = Err(Error::UnsupportedDirectBoot);
    assert_eq!(flashing(other), Err(Error::UnsupportedDirectBoot));
}

#[test]
fn for_command_annotates_timeouts_under_either_phase() {
    let cmd = sync_command();
    let connecting: Result<(), Error> = Err(bare_timeout());
    assert_eq!(
        for_command(connecting, cmd.clone()),
        Err(Error::Connection(ConnectionError::Timeout(
            TimedOutCommand {
                command: Some(cmd.clone())
            }
        )))
    );

    let mid_flash: Result<(), Error> = Err(Error::Flashing(ConnectionError::Timeout(
        TimedOutCommand { command: None },
    )));
    assert_eq!(
        for_command(mid_flash, cmd.clone()),
        Err(Error::Flashing(ConnectionError::Timeout(TimedOutCommand {
            command: Some(cmd)
        })))
    );
}

#[test]
fn for_command_leaves_non_timeouts_unchanged() {
    let cmd = sync_command();
    let refused: Result<(), Error> = Err(Error::Connection(ConnectionError::ConnectionFailed));
    assert_eq!(
        for_command(refused, cmd.clone()),
        Err(Error::Connection(ConnectionError::ConnectionFailed))
    );
    let ok: Result<u8, Error> = Ok(1);
    assert_eq!(for_command(ok, cmd), Ok(1));
}

#[test]
fn describe_names_the_stalled_command() {
    let tagged = TimedOutCommand {
        command: Some(sync_command()),
    };
    assert_eq!(tagged.describe(), "sync ");
    let bare = TimedOutCommand { command: None };
    assert_eq!(bare.describe(), "");
}

#[test]
fn remediation_hints_name_a_remedy_where_one_exists() {
    assert_eq!(
        Error::Connection(ConnectionError::DeviceNotFound).remediation_hint(),
        Some("Ensure that the device is connected and your host recognizes the serial adapter")
    );
    assert_eq!(
        Error::Flashing(ConnectionError::FramingError).remediation_hint(),
        Some("Try hard-resetting the device and try again, if the error persists your rom might be corrupted")
    );
    assert_eq!(
        Error::ElfNotRamLoadable.remediation_hint(),
        Some("Either build the binary to be all in ram or remove the `--ram` option to load the image to flash")
    );
    assert_eq!(bare_timeout().remediation_hint(), None);
    assert_eq!(Error::UnsupportedDirectBoot.remediation_hint(), None);
}
