use vstd::prelude::*;

use crate::fetch::DownloadError;
use crate::layout::{artifacts_dir, artifacts_url, circuit_artifacts_url, install_circuit_artifacts_dir};

verus! {

/// Why an installation failed.
#[derive(Clone, Copy, Debug, PartialEq, Eq, Structural)]
pub enum InstallError {
    /// The install directory could not be created.
    DirectoryCreation,
    /// The archive could not be downloaded.
    Download(DownloadError),
    /// The archive could not be extracted into the install directory.
    Extraction,
}

/// Where an installation stands. The first four steps each wait for one
/// outside action; the others are final.
#[derive(Clone, Copy, Debug, PartialEq, Eq, Structural)]
pub enum Step {
    /// Check whether the install directory exists.
    CheckExisting,
    /// Create the install directory and its parents.
    CreateDir,
    /// Download the archive into a temporary file.
    Download,
    /// Extract the downloaded archive into the install directory.
    Extract,
    /// The directory was already there; nothing was fetched.
    AlreadyInstalled,
    /// The directory was absent and downloading is not available: the path
    /// is handed back and supplying the artifacts is left to the caller.
    NotInstalled,
    /// The archive was downloaded and extracted.
    Installed,
    /// The installation failed.
    Failed(InstallError),
}

/// The result of the outside action that the current step asked for.
#[derive(Clone, Copy, Debug)]
pub enum Event {
    /// Whether the install directory exists.
    Exists(bool),
    /// Whether the install directory could be created.
    DirCreated(bool),
    /// The archive was downloaded.
    Fetched,
    /// The download failed.
    FetchFailed(DownloadError),
    /// Whether extraction succeeded.
    Extracted(bool),
}

/// The steps in the order in which an installation passes them.
pub open spec fn rank(s: Step) -> nat {
    match s {
        Step::CheckExisting => 0,
        Step::CreateDir => 1,
        Step::Download => 2,
        Step::Extract => 3,
        _ => 4,
    }
}

/// A step after which nothing more happens.
pub open spec fn is_final(s: Step) -> bool {
    rank(s) == 4
}

/// The step that follows `s` once `e` is known. An event that does not
/// answer the action of `s` leaves the step as it is.
pub open spec fn next_step(s: Step, e: Event, can_download: bool) -> Step {
    match (s, e) {
        (Step::CheckExisting, Event::Exists(true)) => Step::AlreadyInstalled,
        (Step::CheckExisting, Event::Exists(false)) => if can_download {
            Step::CreateDir
        } else {
            Step::NotInstalled
        },
        (Step::CreateDir, Event::DirCreated(true)) => Step::Download,
        (Step::CreateDir, Event::DirCreated(false)) => Step::Failed(InstallError::DirectoryCreation),
        (Step::Download, Event::Fetched) => Step::Extract,
        (Step::Download, Event::FetchFailed(err)) => Step::Failed(InstallError::Download(err)),
        (Step::Extract, Event::Extracted(true)) => Step::Installed,
        (Step::Extract, Event::Extracted(false)) => Step::Failed(InstallError::Extraction),
        _ => s,
    }
}

/// The step reached from `s` after the events `events`, in order.
pub open spec fn run(s: Step, events: Seq<Event>, can_download: bool) -> Step
    decreases events.len(),
{
    if events.len() == 0 {
        s
    } else {
        run(next_step(s, events[0], can_download), events.drop_first(), can_download)
    }
}

/// How many downloads are performed from `s` on: each event that answers a
/// `Download` step is the outcome of one download.
pub open spec fn downloads(s: Step, events: Seq<Event>, can_download: bool) -> nat
    decreases events.len(),
{
    if events.len() == 0 {
        0
    } else {
        let answered: nat = if s == Step::Download && (events[0] is Fetched
            || events[0] is FetchFailed) {
            1
        } else {
            0
        };
        answered + downloads(next_step(s, events[0], can_download), events.drop_first(), can_download)
    }
}

/// Whether the events from `s` on show the install directory present:
/// found by the check, or created.
pub open spec fn dir_present_after(s: Step, events: Seq<Event>, can_download: bool) -> bool
    decreases events.len(),
{
    if events.len() == 0 {
        false
    } else {
        ||| (s == Step::CheckExisting && events[0] == Event::Exists(true))
        ||| (s == Step::CreateDir && events[0] == Event::DirCreated(true))
        ||| dir_present_after(
            next_step(s, events[0], can_download),
            events.drop_first(),
            can_download,
        )
    }
}

/// One installation of one version: the install directory, the archive's
/// URL, and the step reached so far.
pub struct Installer {
    dir: String,
    url: String,
    can_download: bool,
    step: Step,
}

impl Installer {
    /// The install directory.
    pub closed spec fn spec_dir(&self) -> Seq<char> {
        self.dir@
    }

    /// The URL of the archive.
    pub closed spec fn spec_url(&self) -> Seq<char> {
        self.url@
    }

    /// Whether this installer may download.
    pub closed spec fn spec_can_download(&self) -> bool {
        self.can_download
    }

    /// The step reached so far.
    pub closed spec fn spec_step(&self) -> Step {
        self.step
    }

    /// An installation of `version` below the home directory `home`, at its
    /// first step. Without `can_download` it only checks for the directory.
    pub fn new(home: &str, version: &str, can_download: bool) -> (r: Installer)
        ensures
            r.spec_dir() == artifacts_dir(home@, version@),
            r.spec_url() == artifacts_url(version@),
            r.spec_can_download() == can_download,
            r.spec_step() == Step::CheckExisting,
    {
        Installer {
            dir: install_circuit_artifacts_dir(home, version),
            url: circuit_artifacts_url(version),
            can_download,
            step: Step::CheckExisting,
        }
    }

    /// The install directory.
    pub fn dir(&self) -> (r: &str)
        ensures
            r@ == self.spec_dir(),
    {
        self.dir.as_str()
    }

    /// The URL of the archive.
    pub fn url(&self) -> (r: &str)
        ensures
            r@ == self.spec_url(),
    {
        self.url.as_str()
    }

    /// The step reached so far.
    pub fn step(&self) -> (r: Step)
        ensures
            r == self.spec_step(),
    {
        self.step
    }

    /// Moves on with the outcome `event` of the action that the current step
    /// asked for.
    pub fn advance(&mut self, event: Event)
        ensures
            final(self).spec_step() == next_step(
                old(self).spec_step(),
                event,
                old(self).spec_can_download(),
            ),
            final(self).spec_dir() == old(self).spec_dir(),
            final(self).spec_url() == old(self).spec_url(),
            final(self).spec_can_download() == old(self).spec_can_download(),
    {
        let next = match (self.step, event) {
            (Step::CheckExisting, Event::Exists(true)) => Step::AlreadyInstalled,
            (Step::CheckExisting, Event::Exists(false)) => if self.can_download {
                Step::CreateDir
            } else {
                Step::NotInstalled
            },
            (Step::CreateDir, Event::DirCreated(true)) => Step::Download,
            (Step::CreateDir, Event::DirCreated(false)) => Step::Failed(
                InstallError::DirectoryCreation,
            ),
            (Step::Download, Event::Fetched) => Step::Extract,
            (Step::Download, Event::FetchFailed(err)) => Step::Failed(InstallError::Download(err)),
            (Step::Extract, Event::Extracted(true)) => Step::Installed,
            (Step::Extract, Event::Extracted(false)) => Step::Failed(InstallError::Extraction),
            (s, _) => s,
        };
        self.step = next;
    }

    /// What the installation returns once its step is final: the install
    /// directory on success, the error on failure; `None` while an action is
    /// still pending.
    pub fn outcome(&self) -> (r: Option<Result<String, InstallError>>)
        ensures
            !is_final(self.spec_step()) ==> r is None,
            self.spec_step() matches Step::Failed(err) ==> r == Some(
                Err::<String, InstallError>(err),
            ),
            (self.spec_step() == Step::AlreadyInstalled || self.spec_step() == Step::NotInstalled
                || self.spec_step() == Step::Installed) ==> (r matches Some(Ok(dir)) && dir@
                == self.spec_dir()),
    {
        match self.step {
            Step::AlreadyInstalled | Step::NotInstalled | Step::Installed => Some(
                Ok(self.dir.clone()),
            ),
            Step::Failed(err) => Some(Err(err)),
            _ => None,
        }
    }
}

proof fn lemma_final_stays(s: Step, events: Seq<Event>, can_download: bool)
    requires
        is_final(s),
    ensures
        run(s, events, can_download) == s,
        downloads(s, events, can_download) == 0,
    decreases events.len(),
{
    if events.len() > 0 {
        lemma_final_stays(s, events.drop_first(), can_download);
    }
}

proof fn lemma_downloads_bounded(s: Step, events: Seq<Event>, can_download: bool)
    ensures
        downloads(s, events, can_download) <= 1,
        rank(s) > 2 ==> downloads(s, events, can_download) == 0,
        rank(s) <= 2 && run(s, events, can_download) == Step::Installed ==> downloads(
            s,
            events,
            can_download,
        ) == 1,
        s == Step::CheckExisting && run(s, events, can_download) == Step::AlreadyInstalled
            ==> downloads(s, events, can_download) == 0,
        rank(s) >= 1 && s != Step::AlreadyInstalled ==> run(s, events, can_download)
            != Step::AlreadyInstalled,
    decreases events.len(),
{
    if events.len() > 0 {
        let next = next_step(s, events[0], can_download);
        let rest = events.drop_first();
        lemma_downloads_bounded(next, rest, can_download);
        if is_final(next) {
            lemma_final_stays(next, rest, can_download);
        }
    }
}

proof fn lemma_success_leaves_dir(s: Step, events: Seq<Event>, can_download: bool)
    requires
        rank(s) <= 1,
        run(s, events, can_download) == Step::Installed || run(s, events, can_download)
            == Step::AlreadyInstalled,
    ensures
        dir_present_after(s, events, can_download),
    decreases events.len(),
{
    if events.len() == 0 {
        assert(false);
    } else {
        let next = next_step(s, events[0], can_download);
        let rest = events.drop_first();
        if is_final(next) {
            lemma_final_stays(next, rest, can_download);
        } else if rank(next) <= 1 {
            lemma_success_leaves_dir(next, rest, can_download);
        }
    }
}

/// Installing is idempotent. An installation that succeeds has downloaded
/// at most once (exactly once where it installed) and leaves the install
/// directory present. A second installation of the same version, whose check
/// reports the directory as the first one left it, downloads nothing and
/// succeeds at once.
pub proof fn lemma_install_idempotent(first: Seq<Event>, second: Seq<Event>, can_download: bool)
    requires
        run(Step::CheckExisting, first, can_download) == Step::Installed || run(
            Step::CheckExisting,
            first,
            can_download,
        ) == Step::AlreadyInstalled,
        second.len() > 0,
        second[0] == Event::Exists(dir_present_after(Step::CheckExisting, first, can_download)),
    ensures
        dir_present_after(Step::CheckExisting, first, can_download),
        run(Step::CheckExisting, first, can_download) == Step::Installed ==> downloads(
            Step::CheckExisting,
            first,
            can_download,
        ) == 1,
        run(Step::CheckExisting, first, can_download) == Step::AlreadyInstalled ==> downloads(
            Step::CheckExisting,
            first,
            can_download,
        ) == 0,
        downloads(Step::CheckExisting, second, can_download) == 0,
        run(Step::CheckExisting, second, can_download) == Step::AlreadyInstalled,
{
    lemma_success_leaves_dir(Step::CheckExisting, first, can_download);
    lemma_downloads_bounded(Step::CheckExisting, first, can_download);
    lemma_no_download_when_present(second, can_download);
}

/// When the check finds the install directory, the installation succeeds
/// with the directory as it is and performs no download.
pub proof fn lemma_no_download_when_present(events: Seq<Event>, can_download: bool)
    requires
        events.len() > 0,
        events[0] == Event::Exists(true),
    ensures
        run(Step::CheckExisting, events, can_download) == Step::AlreadyInstalled,
        downloads(Step::CheckExisting, events, can_download) == 0,
{
    lemma_final_stays(Step::AlreadyInstalled, events.drop_first(), can_download);
}

/// A failed extraction fails the installation with `Extraction`, whatever
/// comes after it: success is never reported.
pub proof fn lemma_extraction_failure_is_final(rest: Seq<Event>, can_download: bool)
    ensures
        run(Step::Extract, seq![Event::Extracted(false)] + rest, can_download) == Step::Failed(
            InstallError::Extraction,
        ),
{
    let events = seq![Event::Extracted(false)] + rest;
    assert(events.drop_first() =~= rest);
    lemma_final_stays(Step::Failed(InstallError::Extraction), rest, can_download);
}

} // verus!
