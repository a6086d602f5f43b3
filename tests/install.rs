use sp1_circuits_install::fetch::DownloadError;
use sp1_circuits_install::install::{Event, InstallError, Installer, Step};

/// A simulated machine: whether the install directory exists, how many
/// times the server was contacted, and what the archive holds.
struct World {
    dir_exists: bool,
    files: Vec<String>,
    server_hits: usize,
    archive_ok: bool,
    served_path: String,
}

fn ensure(world: &mut World, home: &str, version: &str) -> Result<String, InstallError> {
    let mut installer = Installer::new(home, version, true);
    let mut fetched: Option<Vec<String>> = None;
    loop {
        if let Some(outcome) = installer.outcome() {
            return outcome;
        }
        let event = match installer.step() {
            Step::CheckExisting => Event::Exists(world.dir_exists),
            Step::CreateDir => {
                world.dir_exists = true;
                Event::DirCreated(true)
            }
            Step::Download => {
                world.server_hits += 1;
                if installer.url().ends_with(&world.served_path) {
                    fetched = Some(vec!["hello.txt".to_string()]);
                    Event::Fetched
                } else {
                    Event::FetchFailed(DownloadError::RequestFailed)
                }
            }
            Step::Extract => {
                if world.archive_ok {
                    world.files.extend(fetched.take().unwrap_or_default());
                    Event::Extracted(true)
                } else {
                    Event::Extracted(false)
                }
            }
            other => panic!("no action for final step {:?}", other),
        };
        installer.advance(event);
    }
}

fn empty_world(archive_ok: bool) -> World {
    World {
        dir_exists: false,
        files: Vec::new(),
        server_hits: 0,
        archive_ok,
        served_path: "/v1.0.0.tar.gz".to_string(),
    }
}

#[test]
fn end_to_end_install_then_cached() {
    let mut world = empty_world(true);
    let first = ensure(&mut world, "/home/alice", "v1.0.0").unwrap();
    assert_eq!(first, "/home/alice/.sp1/circuits/v1.0.0");
    assert_eq!(world.files, vec!["hello.txt".to_string()]);
    assert_eq!(world.server_hits, 1);
    let second = ensure(&mut world, "/home/alice", "v1.0.0").unwrap();
    assert_eq!(second, first);
    assert_eq!(world.server_hits, 1);
}

#[test]
fn corrupt_archive_fails_with_extraction_error() {
    let mut world = empty_world(false);
    assert_eq!(ensure(&mut world, "/home/alice", "v1.0.0"), Err(InstallError::Extraction));
    assert_eq!(world.server_hits, 1);
    assert!(world.files.is_empty());
}

#[test]
fn existing_dir_skips_everything() {
    let mut installer = Installer::new("/home/bob", "v3.1.0", true);
    installer.advance(Event::Exists(true));
    assert_eq!(installer.step(), Step::AlreadyInstalled);
    assert_eq!(installer.outcome(), Some(Ok("/home/bob/.sp1/circuits/v3.1.0".to_string())));
}

#[test]
fn full_sequence_reaches_installed() {
    let mut installer = Installer::new("/h", "v1", true);
    assert_eq!(installer.step(), Step::CheckExisting);
    assert_eq!(installer.outcome(), None);
    installer.advance(Event::Exists(false));
    assert_eq!(installer.step(), Step::CreateDir);
    installer.advance(Event::DirCreated(true));
    assert_eq!(installer.step(), Step::Download);
    installer.advance(Event::Fetched);
    assert_eq!(installer.step(), Step::Extract);
    installer.advance(Event::Extracted(true));
    assert_eq!(installer.step(), Step::Installed);
    assert_eq!(installer.outcome(), Some(Ok("/h/.sp1/circuits/v1".to_string())));
}

#[test]
fn directory_creation_failure() {
    let mut installer = Installer::new("/h", "v1", true);
    installer.advance(Event::Exists(false));
    installer.advance(Event::DirCreated(false));
    assert_eq!(installer.step(), Step::Failed(InstallError::DirectoryCreation));
    assert_eq!(installer.outcome(), Some(Err(InstallError::DirectoryCreation)));
}

#[test]
fn download_failures_are_propagated() {
    for err in [
        DownloadError::RequestFailed,
        DownloadError::MissingLength,
        DownloadError::StreamError,
    ] {
        let mut installer = Installer::new("/h", "v1", true);
        installer.advance(Event::Exists(false));
        installer.advance(Event::DirCreated(true));
        installer.advance(Event::FetchFailed(err));
        assert_eq!(installer.outcome(), Some(Err(InstallError::Download(err))));
        installer.advance(Event::Fetched);
        assert_eq!(installer.outcome(), Some(Err(InstallError::Download(err))));
    }
}

#[test]
fn extraction_failure_is_final() {
    let mut installer = Installer::new("/h", "v1", true);
    installer.advance(Event::Exists(false));
    installer.advance(Event::DirCreated(true));
    installer.advance(Event::Fetched);
    installer.advance(Event::Extracted(false));
    installer.advance(Event::Extracted(true));
    assert_eq!(installer.step(), Step::Failed(InstallError::Extraction));
    assert_eq!(installer.outcome(), Some(Err(InstallError::Extraction)));
}

#[test]
fn without_download_capability_only_checks() {
    let mut installer = Installer::new("/h", "v1", false);
    installer.advance(Event::Exists(false));
    assert_eq!(installer.step(), Step::NotInstalled);
    assert_eq!(installer.outcome(), Some(Ok("/h/.sp1/circuits/v1".to_string())));
}

#[test]
fn unrelated_event_is_ignored() {
    let mut installer = Installer::new("/h", "v1", true);
    installer.advance(Event::Fetched);
    installer.advance(Event::Extracted(true));
    assert_eq!(installer.step(), Step::CheckExisting);
    installer.advance(Event::Exists(false));
    installer.advance(Event::Exists(true));
    assert_eq!(installer.step(), Step::CreateDir);
}

#[test]
fn installer_exposes_dir_and_url() {
    let installer = Installer::new("/home/carol", "v0.9", true);
    assert_eq!(installer.dir(), "/home/carol/.sp1/circuits/v0.9");
    assert_eq!(
        installer.url(),
        "https://sp1-circuits.s3-us-east-2.amazonaws.com/v0.9.tar.gz"
    );
}
