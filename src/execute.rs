use vstd::prelude::*;

use crate::browser::{
    answer_text, browser_query, catalog_page, driver_name, driver_path_query, opt_view,
    resolved_url, Browser, BrowserDriver, BrowserEnum,
};
use crate::shell::{Shell, ShellCommand};
use crate::version::{get_version, main_version_of, version_of};

verus! {

/// Where a run stands: each step names the action that was handed out last and
/// whose answer the run waits for.
#[derive(Clone, Copy, Debug, PartialEq, Eq, Structural)]
pub enum Step {
    Start,
    BrowserVersion,
    DriverVersion,
    DriverPath,
    CheckCurrent,
    Resolve,
    Download,
    Unzip,
    StopDriver,
    Copy,
    DeleteArchive,
    DeleteExtracted,
    DeleteExtractedExe,
    Finished,
}

/// How a successful run ended.
#[derive(Clone, Copy, Debug, PartialEq, Eq, Structural)]
pub enum Finish {
    /// The installed driver is the newest build for the browser's main version.
    UpToDate,
    /// A new driver was installed.
    Updated,
}

/// Why a run stopped.
#[derive(Clone, Copy, Debug, PartialEq, Eq, Structural)]
pub enum RunError {
    BrowserVersionNotFound,
    DriverPathNotFound,
    DriverVersionNotFound,
    UpdateNotExecuted,
    UrlNotFound,
    DownloadFailed,
    UnzipFailed,
    CopyFailed,
    TempFileDeleteFailed,
    TempPathDeleteFailed,
}

/// What the caller is to do next, and then answer with `Some(text)` on success or
/// `None` on failure.
#[derive(Debug)]
pub enum Action {
    /// Run a command that only reads; answer with its output.
    Query(ShellCommand),
    /// Fetch a page; answer with its text where the server reports success.
    Fetch(String),
    /// Fetch `url` and write its body to `path`; answer with any text on success.
    Download { url: String, path: String },
    /// Run a command that changes files.
    Modify(ShellCommand),
    /// Run a command that stops the running driver; its answer is not looked at.
    Stop(ShellCommand),
    /// Install the new driver executable over the old one.
    Install(ShellCommand),
    /// The run is over.
    Done(Result<Finish, RunError>),
}

/// The action changes something on the host.
pub open spec fn changes_host(a: Action) -> bool {
    a is Download || a is Modify || a is Stop || a is Install
}

/// How many catalog fetches `h` holds.
pub open spec fn fetch_count(h: Seq<Action>) -> nat
    decreases h.len(),
{
    if h.len() == 0 {
        0
    } else {
        fetch_count(h.drop_last()) + if h.last() is Fetch {
            1nat
        } else {
            0nat
        }
    }
}

/// How many downloads `h` holds.
pub open spec fn download_count(h: Seq<Action>) -> nat
    decreases h.len(),
{
    if h.len() == 0 {
        0
    } else {
        download_count(h.drop_last()) + if h.last() is Download {
            1nat
        } else {
            0nat
        }
    }
}

/// How many installs `h` holds.
pub open spec fn install_count(h: Seq<Action>) -> nat
    decreases h.len(),
{
    if h.len() == 0 {
        0
    } else {
        install_count(h.drop_last()) + if h.last() is Install {
            1nat
        } else {
            0nat
        }
    }
}

proof fn lemma_counts_push(h: Seq<Action>, a: Action)
    ensures
        fetch_count(h.push(a)) == fetch_count(h) + if a is Fetch {
            1nat
        } else {
            0nat
        },
        download_count(h.push(a)) == download_count(h) + if a is Download {
            1nat
        } else {
            0nat
        },
        install_count(h.push(a)) == install_count(h) + if a is Install {
            1nat
        } else {
            0nat
        },
{
    assert(h.push(a).drop_last() =~= h);
}

/// A run that reconciles one browser's driver with the browser.
pub struct Run {
    pub step: Step,
    pub browser: Browser,
    pub driver: BrowserDriver,
    /// The answer to the driver's version query, kept until its path is known.
    pub driver_answer: Option<String>,
    /// The download link, once one was chosen.
    pub url: String,
    pub outcome: Option<Result<Finish, RunError>>,
    /// Every action handed out so far.
    pub history: Ghost<Seq<Action>>,
}

/// The steps before the run has fetched the catalog.
pub open spec fn detecting(s: Step) -> bool {
    s is Start || s is BrowserVersion || s is DriverVersion || s is DriverPath
}

/// The steps after the download was handed out and before the install was.
pub open spec fn fetching_archive(s: Step) -> bool {
    s is Download || s is Unzip || s is StopDriver
}

/// The steps after the install was handed out.
pub open spec fn installing(s: Step) -> bool {
    s is Copy || s is DeleteArchive || s is DeleteExtracted || s is DeleteExtractedExe
}

/// Outcomes reached before any catalog fetch.
pub open spec fn ends_undetected(o: Result<Finish, RunError>) -> bool {
    o == Err::<Finish, RunError>(RunError::BrowserVersionNotFound) || o == Err::<
        Finish,
        RunError,
    >(RunError::DriverPathNotFound) || o == Err::<Finish, RunError>(
        RunError::DriverVersionNotFound,
    )
}

/// Outcomes reached right after the catalog fetch, with nothing changed on the host.
pub open spec fn ends_after_resolution(o: Result<Finish, RunError>) -> bool {
    o == Ok::<Finish, RunError>(Finish::UpToDate) || o == Err::<Finish, RunError>(
        RunError::UpdateNotExecuted,
    ) || o == Err::<Finish, RunError>(RunError::UrlNotFound)
}

/// Outcomes reached after the download and before the install.
pub open spec fn ends_before_install(o: Result<Finish, RunError>) -> bool {
    o == Err::<Finish, RunError>(RunError::DownloadFailed) || o == Err::<Finish, RunError>(
        RunError::UnzipFailed,
    )
}

/// Outcomes reached after the install was handed out.
pub open spec fn ends_after_install(o: Result<Finish, RunError>) -> bool {
    o == Err::<Finish, RunError>(RunError::CopyFailed) || o == Err::<Finish, RunError>(
        RunError::TempFileDeleteFailed,
    ) || o == Err::<Finish, RunError>(RunError::TempPathDeleteFailed) || o == Ok::<
        Finish,
        RunError,
    >(Finish::Updated)
}

impl Run {
    /// The family of the run.
    pub open spec fn family(&self) -> BrowserEnum {
        self.browser.browser
    }

    /// Nothing in the history has changed anything on the host.
    pub open spec fn host_untouched(&self) -> bool {
        forall|i: int| 0 <= i < self.history@.len() ==> !changes_host(#[trigger] self.history@[i])
    }

    /// How many fetches, downloads and installs the history holds.
    pub open spec fn counts(&self) -> (nat, nat, nat) {
        (
            fetch_count(self.history@),
            download_count(self.history@),
            install_count(self.history@),
        )
    }

    /// The state of a run.
    pub open spec fn wf(&self) -> bool {
        &&& self.driver.browser == self.family()
        &&& self.driver.name@ == driver_name(self.family())
        &&& (self.step is Finished <==> self.outcome is Some)
        &&& (detecting(self.step) ==> self.counts() == (0nat, 0nat, 0nat) && self.host_untouched())
        &&& (self.step is CheckCurrent || self.step is Resolve ==> {
            &&& self.counts() == (1nat, 0nat, 0nat)
            &&& self.host_untouched()
            &&& self.driver.driver_path@.len() > 0
            &&& (self.step is CheckCurrent <==> self.browser.main_version@
                == self.driver.main_version@)
        })
        &&& (fetching_archive(self.step) ==> self.counts() == (1nat, 1nat, 0nat)
            && self.url@.len() > 0)
        &&& (installing(self.step) ==> self.counts() == (1nat, 1nat, 1nat) && self.url@.len()
            > 0)
        &&& (self.step is DeleteExtractedExe ==> self.family() == BrowserEnum::Edge)
        &&& (self.outcome matches Some(o) ==> {
            &&& ends_undetected(o) || ends_after_resolution(o) || ends_before_install(o)
                || ends_after_install(o)
            &&& ends_undetected(o) ==> self.counts() == (0nat, 0nat, 0nat)
                && self.host_untouched()
            &&& ends_after_resolution(o) ==> self.counts() == (1nat, 0nat, 0nat)
                && self.host_untouched()
            &&& ends_before_install(o) ==> self.counts() == (1nat, 1nat, 0nat)
            &&& ends_after_install(o) ==> self.counts() == (1nat, 1nat, 1nat)
        })
        &&& forall|i: int|
            0 <= i < self.history@.len() && #[trigger] self.history@[i] is Download ==> {
                &&& fetch_count(self.history@.take(i)) == 1
                &&& self.history@[i]->Download_url@.len() > 0
            }
    }

    /// A run of family `browser_enum` that has not started.
    pub fn new(browser_enum: BrowserEnum) -> (r: Run)
        ensures
            r.wf(),
            r.step == Step::Start,
            r.family() == browser_enum,
            r.history@ == Seq::<Action>::empty(),
    {
        let browser = Browser::new(&browser_enum, None);
        let driver = BrowserDriver::new(&browser_enum, None, None);
        Run {
            step: Step::Start,
            browser,
            driver,
            driver_answer: None,
            url: String::new(),
            outcome: None,
            history: Ghost(Seq::empty()),
        }
    }

    /// Ends the run with `o`.
    fn finish(&mut self, o: Result<Finish, RunError>) -> (a: Action)
        ensures
            a == Action::Done(o),
            final(self).step == Step::Finished,
            final(self).outcome == Some(o),
            final(self).browser == old(self).browser,
            final(self).driver == old(self).driver,
            final(self).url == old(self).url,
            final(self).history == old(self).history,
    {
        self.step = Step::Finished;
        self.outcome = Some(o);
        Action::Done(o)
    }
}

/// The text of an answer, or empty where the action failed.
pub open spec fn text_of(o: Option<Seq<char>>) -> Seq<char> {
    match o {
        Some(t) => t,
        None => Seq::empty(),
    }
}

impl Run {
    /// The step and outcome that the answer `answer` to the current action leads to.
    pub open spec fn next(&self, answer: Option<Seq<char>>) -> (Step, Option<
        Result<Finish, RunError>,
    >) {
        let fail = |e: RunError| (Step::Finished, Some(Err::<Finish, RunError>(e)));
        match self.step {
            Step::Start => (Step::BrowserVersion, None),
            Step::BrowserVersion => if main_version_of(text_of(answer)).len() == 0 {
                fail(RunError::BrowserVersionNotFound)
            } else {
                (Step::DriverVersion, None)
            },
            Step::DriverVersion => (Step::DriverPath, None),
            Step::DriverPath => if text_of(answer).len() == 0 {
                fail(RunError::DriverPathNotFound)
            } else if version_of(answer_text(self.driver_answer)).len() == 0 {
                fail(RunError::DriverVersionNotFound)
            } else if self.browser.main_version@ == main_version_of(
                answer_text(self.driver_answer),
            ) {
                (Step::CheckCurrent, None)
            } else {
                (Step::Resolve, None)
            },
            Step::CheckCurrent => {
                let u = resolved_url(
                    self.family(),
                    self.browser.main_version@,
                    self.browser.version@,
                    answer,
                );
                if u.len() == 0 {
                    fail(RunError::UpdateNotExecuted)
                } else if version_of(u) == self.driver.version@ {
                    (Step::Finished, Some(Ok::<Finish, RunError>(Finish::UpToDate)))
                } else {
                    (Step::Download, None)
                }
            },
            Step::Resolve => if resolved_url(
                self.family(),
                self.browser.main_version@,
                self.browser.version@,
                answer,
            ).len() == 0 {
                fail(RunError::UrlNotFound)
            } else {
                (Step::Download, None)
            },
            Step::Download => if answer is None {
                fail(RunError::DownloadFailed)
            } else {
                (Step::Unzip, None)
            },
            Step::Unzip => if answer is None {
                fail(RunError::UnzipFailed)
            } else {
                (Step::StopDriver, None)
            },
            Step::StopDriver => (Step::Copy, None),
            Step::Copy => if answer is None {
                fail(RunError::CopyFailed)
            } else {
                (Step::DeleteArchive, None)
            },
            Step::DeleteArchive => if answer is None {
                fail(RunError::TempFileDeleteFailed)
            } else {
                (Step::DeleteExtracted, None)
            },
            Step::DeleteExtracted => if answer is None {
                fail(RunError::TempPathDeleteFailed)
            } else if self.family() == BrowserEnum::Edge {
                (Step::DeleteExtractedExe, None)
            } else {
                (Step::Finished, Some(Ok::<Finish, RunError>(Finish::Updated)))
            },
            Step::DeleteExtractedExe => if answer is None {
                fail(RunError::TempPathDeleteFailed)
            } else {
                (Step::Finished, Some(Ok::<Finish, RunError>(Finish::Updated)))
            },
            Step::Finished => (Step::Finished, self.outcome),
        }
    }

    /// `a` is the action that the run hands out on entering its step.
    pub open spec fn entry_action(&self, a: Action) -> bool {
        let name = driver_name(self.family());
        match self.step {
            Step::Start => false,
            Step::BrowserVersion => a matches Action::Query(c) && c.shell == Shell::Powershell
                && c.command@ == browser_query(self.family()),
            Step::DriverVersion => a matches Action::Query(c) && c.shell == Shell::Powershell
                && c.command@ == name + " --version"@,
            Step::DriverPath => a matches Action::Query(c) && c.shell == Shell::Cmd
                && c.command@ == "where "@ + name,
            Step::CheckCurrent | Step::Resolve => a matches Action::Fetch(u) && u@
                == catalog_page(self.family()),
            Step::Download => a matches Action::Download { url, path } && url@ == self.url@
                && path@ == name + ".zip"@,
            Step::Unzip => a matches Action::Modify(c) && c.shell == Shell::Powershell
                && c.command@ == "Expand-Archive -Path '"@ + name + ".zip' -Destination ."@,
            Step::StopDriver => a matches Action::Stop(c) && c.shell == Shell::Cmd && c.command@
                == "taskkill /f /im "@ + name + ".exe"@,
            Step::Copy => a matches Action::Install(c) && c.shell == Shell::Powershell
                && c.command@ == match self.family() {
                BrowserEnum::Chrome => "Copy-Item -Path 'chromedriver-win64\\chromedriver.exe' -Destination '"@,
                BrowserEnum::Edge => "Copy-Item -Path 'msedgedriver.exe' -Destination '"@,
            } + self.driver.driver_path@ + "'"@,
            Step::DeleteArchive => a matches Action::Modify(c) && c.shell == Shell::Powershell
                && c.command@ == "Remove-Item -Path '"@ + name + ".zip'"@,
            Step::DeleteExtracted => a matches Action::Modify(c) && c.shell == Shell::Powershell
                && c.command@ == match self.family() {
                BrowserEnum::Chrome => "Remove-Item -Path chromedriver-win64 -Recurse"@,
                BrowserEnum::Edge => "Remove-Item -Path Driver_Notes -Recurse"@,
            },
            Step::DeleteExtractedExe => a matches Action::Modify(c) && c.shell
                == Shell::Powershell && c.command@ == "Remove-Item -Path msedgedriver.exe"@,
            Step::Finished => a == Action::Done(self.outcome->0),
        }
    }

    /// Takes the answer to the action handed out last (`None` where it failed; the
    /// first call's answer is not looked at) and hands out the next action.
    pub fn advance(&mut self, answer: Option<String>) -> (a: Action)
        requires
            old(self).wf(),
        ensures
            final(self).wf(),
            final(self).family() == old(self).family(),
            final(self).history@ == old(self).history@.push(a),
            (final(self).step, final(self).outcome) == old(self).next(opt_view(answer)),
            final(self).entry_action(a),
            old(self).step is BrowserVersion ==> {
                &&& final(self).browser.raw_version@ == answer_text(answer)
                &&& final(self).browser.version@ == version_of(answer_text(answer))
                &&& final(self).browser.main_version@ == main_version_of(answer_text(answer))
            },
            !(old(self).step is BrowserVersion) ==> final(self).browser == old(self).browser,
            old(self).step is DriverPath ==> {
                &&& final(self).driver.raw_version@ == answer_text(old(self).driver_answer)
                &&& final(self).driver.version@ == version_of(
                    answer_text(old(self).driver_answer),
                )
                &&& final(self).driver.main_version@ == main_version_of(
                    answer_text(old(self).driver_answer),
                )
                &&& final(self).driver.driver_path@ == answer_text(answer)
            },
            !(old(self).step is DriverPath) ==> final(self).driver == old(self).driver,
            (old(self).step is CheckCurrent || old(self).step is Resolve) ==> final(self).url@
                == resolved_url(
                old(self).family(),
                old(self).browser.main_version@,
                old(self).browser.version@,
                opt_view(answer),
            ),
    {
        let ghost h = self.history@;
        let family = self.browser.browser;
        let a = match self.step {
            Step::Start => {
                self.step = Step::BrowserVersion;
                Action::Query(Browser::version_query(&family))
            },
            Step::BrowserVersion => {
                self.browser = Browser::new(&family, answer);
                if self.browser.main_version.as_str().is_empty() {
                    self.finish(Err(RunError::BrowserVersionNotFound))
                } else {
                    self.step = Step::DriverVersion;
                    Action::Query(BrowserDriver::version_query(&family))
                }
            },
            Step::DriverVersion => {
                self.driver_answer = answer;
                self.step = Step::DriverPath;
                Action::Query(driver_path_query(self.driver.name.as_str()))
            },
            Step::DriverPath => {
                let mut version_answer: Option<String> = None;
                std::mem::swap(&mut version_answer, &mut self.driver_answer);
                self.driver = self.browser.get_browser_driver(version_answer, answer);
                if self.driver.driver_path.as_str().is_empty() {
                    self.finish(Err(RunError::DriverPathNotFound))
                } else if self.driver.version.as_str().is_empty() {
                    self.finish(Err(RunError::DriverVersionNotFound))
                } else {
                    if self.browser.main_version == self.driver.main_version {
                        self.step = Step::CheckCurrent;
                    } else {
                        self.step = Step::Resolve;
                    }
                    Action::Fetch(self.driver.catalog_url())
                }
            },
            Step::CheckCurrent => {
                self.url = self.driver.get_driver_url(&self.browser, &answer);
                if self.url.as_str().is_empty() {
                    self.finish(Err(RunError::UpdateNotExecuted))
                } else {
                    let remote = get_version(self.url.as_str());
                    if remote == self.driver.version {
                        self.finish(Ok(Finish::UpToDate))
                    } else {
                        self.step = Step::Download;
                        Action::Download { url: self.url.clone(), path: self.driver.archive_path() }
                    }
                }
            },
            Step::Resolve => {
                self.url = self.driver.get_driver_url(&self.browser, &answer);
                if self.url.as_str().is_empty() {
                    self.finish(Err(RunError::UrlNotFound))
                } else {
                    self.step = Step::Download;
                    Action::Download { url: self.url.clone(), path: self.driver.archive_path() }
                }
            },
            Step::Download => {
                if answer.is_none() {
                    self.finish(Err(RunError::DownloadFailed))
                } else {
                    self.step = Step::Unzip;
                    Action::Modify(self.driver.unzip_driver())
                }
            },
            Step::Unzip => {
                if answer.is_none() {
                    self.finish(Err(RunError::UnzipFailed))
                } else {
                    self.step = Step::StopDriver;
                    Action::Stop(self.driver.close_driver())
                }
            },
            Step::StopDriver => {
                self.step = Step::Copy;
                Action::Install(self.driver.copy_driver(self.driver.driver_path.as_str()))
            },
            Step::Copy => {
                if answer.is_none() {
                    self.finish(Err(RunError::CopyFailed))
                } else {
                    self.step = Step::DeleteArchive;
                    Action::Modify(self.driver.del_temp_file())
                }
            },
            Step::DeleteArchive => {
                if answer.is_none() {
                    self.finish(Err(RunError::TempFileDeleteFailed))
                } else {
                    self.step = Step::DeleteExtracted;
                    Action::Modify(self.driver.del_temp_path())
                }
            },
            Step::DeleteExtracted => {
                if answer.is_none() {
                    self.finish(Err(RunError::TempPathDeleteFailed))
                } else {
                    match self.driver.del_temp_exe() {
                        Some(c) => {
                            self.step = Step::DeleteExtractedExe;
                            Action::Modify(c)
                        },
                        None => self.finish(Ok(Finish::Updated)),
                    }
                }
            },
            Step::DeleteExtractedExe => {
                if answer.is_none() {
                    self.finish(Err(RunError::TempPathDeleteFailed))
                } else {
                    self.finish(Ok(Finish::Updated))
                }
            },
            Step::Finished => {
                match self.outcome {
                    Some(o) => Action::Done(o),
                    // a finished run always holds its outcome
                    None => {
                        proof {
                            assert(false);
                        }
                        self.finish(Err(RunError::UpdateNotExecuted))
                    },
                }
            },
        };
        self.history = Ghost(h.push(a));
        proof {
            lemma_counts_push(h, a);
            let h2 = h.push(a);
            assert forall|i: int| 0 <= i < h.len() implies #[trigger] h2.take(i) == h.take(i) by {
                assert(h2.take(i) =~= h.take(i));
            }
            assert(h2.take(h.len() as int) =~= h);
            assert(h2[h.len() as int] == a);
        }
        a
    }
}

/// When the browser's and the driver's main versions agree (the run checks the catalog
/// for the current build) and the link that the catalog gives names the installed
/// driver's own version, the run ends up to date, having changed nothing on the host
/// and downloaded nothing.
pub proof fn lemma_current_driver_left_alone(run: &Run, page: Option<Seq<char>>)
    requires
        run.wf(),
        run.step is CheckCurrent,
        resolved_url(
            run.family(),
            run.browser.main_version@,
            run.browser.version@,
            page,
        ).len() > 0,
        version_of(
            resolved_url(run.family(), run.browser.main_version@, run.browser.version@, page),
        ) == run.driver.version@,
    ensures
        run.browser.main_version@ == run.driver.main_version@,
        run.next(page) == (Step::Finished, Some(Ok::<Finish, RunError>(Finish::UpToDate))),
        run.host_untouched(),
        download_count(run.history@) == 0,
{
}

/// A run that ended up to date changed nothing on the host, fetched the catalog once
/// and downloaded nothing.
pub proof fn lemma_up_to_date_changes_nothing(run: &Run)
    requires
        run.wf(),
        run.outcome == Some(Ok::<Finish, RunError>(Finish::UpToDate)),
    ensures
        run.host_untouched(),
        run.counts() == (1nat, 0nat, 0nat),
{
}

/// The catalog is fetched at most once in a run; every download comes after exactly one
/// fetch and has a non-empty link; where resolution finds no link the run ends at once,
/// and a run that ended so downloaded nothing and changed nothing on the host.
pub proof fn lemma_resolution_once(run: &Run, page: Option<Seq<char>>)
    requires
        run.wf(),
    ensures
        fetch_count(run.history@) <= 1,
        forall|i: int|
            0 <= i < run.history@.len() && #[trigger] run.history@[i] is Download ==> {
                &&& fetch_count(run.history@.take(i)) == 1
                &&& run.history@[i]->Download_url@.len() > 0
            },
        run.step is Resolve && resolved_url(
            run.family(),
            run.browser.main_version@,
            run.browser.version@,
            page,
        ).len() == 0 ==> run.next(page) == (Step::Finished, Some(
            Err::<Finish, RunError>(RunError::UrlNotFound),
        )),
        run.outcome == Some(Err::<Finish, RunError>(RunError::UrlNotFound)) ==> {
            &&& run.counts() == (1nat, 0nat, 0nat)
            &&& run.host_untouched()
        },
{
}

/// Once the new driver has been handed to be installed, the run fetches, downloads and
/// installs nothing more: a failure to clean up ends it with the driver in place.
pub proof fn lemma_cleanup_failure_keeps_install(run: &Run, answer: Option<Seq<char>>)
    requires
        run.wf(),
    ensures
        installing(run.step) ==> run.counts() == (1nat, 1nat, 1nat),
        installing(run.step) && !(run.step is Copy) && answer is None ==> run.next(answer).0
            is Finished,
        run.outcome == Some(Err::<Finish, RunError>(RunError::TempFileDeleteFailed))
            || run.outcome == Some(Err::<Finish, RunError>(RunError::TempPathDeleteFailed))
            ==> run.counts() == (1nat, 1nat, 1nat),
{
}

/// A run that found no browser version, no installed driver path or no driver version
/// ended before any fetch or download, with nothing changed on the host.
pub proof fn lemma_undetected_run_stays_local(run: &Run)
    requires
        run.wf(),
        run.outcome == Some(Err::<Finish, RunError>(RunError::BrowserVersionNotFound))
            || run.outcome == Some(Err::<Finish, RunError>(RunError::DriverPathNotFound))
            || run.outcome == Some(Err::<Finish, RunError>(RunError::DriverVersionNotFound)),
    ensures
        run.counts() == (0nat, 0nat, 0nat),
        run.host_untouched(),
{
}

} // verus!
