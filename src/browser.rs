use vstd::prelude::*;
use vstd::string::StringExecFns;

use crate::catalog::{chrome_driver_url, chrome_url_of, edge_driver_url, edge_url_of};
use crate::html::{healthy_row_selector, healthy_rows, selected_texts};
use crate::shell::{run_cmd, run_powershell, Shell, ShellCommand};
use crate::version::{get_main_version, get_version, main_version_of, version_of};

verus! {

/// The browser families whose driver this library keeps in step.
#[derive(Clone, Copy, Debug, PartialEq, Eq, Structural)]
pub enum BrowserEnum {
    Chrome,
    Edge,
}

/// The display name of a family.
pub open spec fn family_name(b: BrowserEnum) -> Seq<char> {
    match b {
        BrowserEnum::Chrome => "Chrome"@,
        BrowserEnum::Edge => "Edge"@,
    }
}

/// The name of a family's driver executable.
pub open spec fn driver_name(b: BrowserEnum) -> Seq<char> {
    match b {
        BrowserEnum::Chrome => "chromedriver"@,
        BrowserEnum::Edge => "msedgedriver"@,
    }
}

/// The PowerShell query that prints the installed browser's product version.
pub open spec fn browser_query(b: BrowserEnum) -> Seq<char> {
    match b {
        BrowserEnum::Chrome => "(Get-Item 'C:\\Program Files\\Google\\Chrome\\Application\\chrome.exe').VersionInfo.ProductVersion"@,
        BrowserEnum::Edge => "(Get-Item 'C:\\Program Files (x86)\\Microsoft\\Edge\\Application\\msedge.exe').VersionInfo.ProductVersion"@,
    }
}

/// The page that lists a family's driver downloads.
pub open spec fn catalog_page(b: BrowserEnum) -> Seq<char> {
    match b {
        BrowserEnum::Chrome => "https://googlechromelabs.github.io/chrome-for-testing/"@,
        BrowserEnum::Edge => "https://developer.microsoft.com/zh-cn/microsoft-edge/tools/webdriver/?form=MA13LH"@,
    }
}

/// What a query answered: its text, or empty where it failed.
pub open spec fn answer_text(o: Option<String>) -> Seq<char> {
    match o {
        Some(s) => s@,
        None => Seq::empty(),
    }
}

/// The view of an optional string.
pub open spec fn opt_view(o: Option<String>) -> Option<Seq<char>> {
    match o {
        Some(s) => Some(s@),
        None => None,
    }
}

/// The driver link that a catalog page gives: for Chrome the first link for the
/// browser's main version held by a healthy row, for Edge the link for the browser's
/// full version; empty where the page was not fetched or holds none.
pub open spec fn resolved_url(
    b: BrowserEnum,
    main: Seq<char>,
    version: Seq<char>,
    page: Option<Seq<char>>,
) -> Seq<char> {
    match page {
        None => Seq::empty(),
        Some(body) => match b {
            BrowserEnum::Chrome => match selected_texts(body, healthy_row_selector()) {
                Some(rows) => chrome_url_of(body, main, rows),
                None => Seq::empty(),
            },
            BrowserEnum::Edge => edge_url_of(body, version),
        },
    }
}

/// `a` and then `b`.
fn concat2(a: &str, b: &str) -> (r: String)
    ensures
        r@ == a@ + b@,
{
    let mut r = a.to_owned();
    r.append(b);
    r
}

/// `a`, `b` and `c` one after the other.
fn concat3(a: &str, b: &str, c: &str) -> (r: String)
    ensures
        r@ == a@ + b@ + c@,
{
    let mut r = a.to_owned();
    r.append(b);
    r.append(c);
    r
}

impl BrowserEnum {
    /// The display name of the family.
    pub fn name(&self) -> (r: String)
        ensures
            r@ == family_name(*self),
    {
        match self {
            BrowserEnum::Chrome => "Chrome".to_owned(),
            BrowserEnum::Edge => "Edge".to_owned(),
        }
    }

    /// The name of the family's driver executable.
    pub fn driver_name(&self) -> (r: String)
        ensures
            r@ == driver_name(*self),
    {
        match self {
            BrowserEnum::Chrome => "chromedriver".to_owned(),
            BrowserEnum::Edge => "msedgedriver".to_owned(),
        }
    }
}

/// What was observed of the installed browser.
#[derive(Clone, Debug)]
pub struct Browser {
    pub browser: BrowserEnum,
    /// The product version as the system reported it; empty where it was not found.
    pub raw_version: String,
    pub version: String,
    pub main_version: String,
}

impl Browser {
    /// The query whose answer `new` takes.
    pub fn version_query(browser_enum: &BrowserEnum) -> (r: ShellCommand)
        ensures
            r.shell == Shell::Powershell,
            r.command@ == browser_query(*browser_enum),
    {
        match browser_enum {
            BrowserEnum::Chrome => run_powershell(
                "(Get-Item 'C:\\Program Files\\Google\\Chrome\\Application\\chrome.exe').VersionInfo.ProductVersion",
            ),
            BrowserEnum::Edge => run_powershell(
                "(Get-Item 'C:\\Program Files (x86)\\Microsoft\\Edge\\Application\\msedge.exe').VersionInfo.ProductVersion",
            ),
        }
    }

    /// The browser of family `browser_enum`, from the answer to `version_query`
    /// (`None` where the query failed).
    pub fn new(browser_enum: &BrowserEnum, answer: Option<String>) -> (r: Browser)
        ensures
            r.browser == *browser_enum,
            r.raw_version@ == answer_text(answer),
            r.version@ == version_of(answer_text(answer)),
            r.main_version@ == main_version_of(answer_text(answer)),
    {
        let raw_version = match answer {
            Some(s) => s,
            None => String::new(),
        };
        let version = get_version(raw_version.as_str());
        let main_version = get_main_version(raw_version.as_str());
        Browser { browser: *browser_enum, raw_version, version, main_version }
    }

    /// The driver of the same family, from the answers to its version query and to its
    /// path lookup.
    pub fn get_browser_driver(&self, version_answer: Option<String>, path_answer: Option<
        String,
    >) -> (r: BrowserDriver)
        ensures
            r.browser == self.browser,
            r.name@ == driver_name(self.browser),
            r.raw_version@ == answer_text(version_answer),
            r.version@ == version_of(answer_text(version_answer)),
            r.main_version@ == main_version_of(answer_text(version_answer)),
            r.driver_path@ == answer_text(path_answer),
    {
        BrowserDriver::new(&self.browser, version_answer, path_answer)
    }
}

/// What was observed of the installed driver.
#[derive(Clone, Debug)]
pub struct BrowserDriver {
    pub browser: BrowserEnum,
    pub name: String,
    /// What `<name> --version` printed; empty where it failed.
    pub raw_version: String,
    pub version: String,
    pub main_version: String,
    /// Where the driver executable is installed; empty where it was not found.
    pub driver_path: String,
}

/// The query that finds where the executable `name` is installed.
pub fn driver_path_query(name: &str) -> (r: ShellCommand)
    ensures
        r.shell == Shell::Cmd,
        r.command@ == "where "@ + name@,
{
    let c = concat2("where ", name);
    run_cmd(c.as_str())
}

/// The installed path, from the answer to `driver_path_query`: empty where it failed.
pub fn get_browser_driver_path(answer: Option<String>) -> (r: String)
    ensures
        r@ == answer_text(answer),
{
    match answer {
        Some(s) => s,
        None => String::new(),
    }
}

impl BrowserDriver {
    /// The query that prints the installed driver's version.
    pub fn version_query(browser_enum: &BrowserEnum) -> (r: ShellCommand)
        ensures
            r.shell == Shell::Powershell,
            r.command@ == driver_name(*browser_enum) + " --version"@,
    {
        let name = browser_enum.driver_name();
        let c = concat2(name.as_str(), " --version");
        run_powershell(c.as_str())
    }

    /// The driver of family `browser_enum`, from the answers to `version_query` and to
    /// `driver_path_query` (`None` where a query failed).
    pub fn new(browser_enum: &BrowserEnum, version_answer: Option<String>, path_answer: Option<
        String,
    >) -> (r: BrowserDriver)
        ensures
            r.browser == *browser_enum,
            r.name@ == driver_name(*browser_enum),
            r.raw_version@ == answer_text(version_answer),
            r.version@ == version_of(answer_text(version_answer)),
            r.main_version@ == main_version_of(answer_text(version_answer)),
            r.driver_path@ == answer_text(path_answer),
    {
        let name = browser_enum.driver_name();
        let raw_version = match version_answer {
            Some(s) => s,
            None => String::new(),
        };
        let version = get_version(raw_version.as_str());
        let main_version = get_main_version(raw_version.as_str());
        let driver_path = get_browser_driver_path(path_answer);
        BrowserDriver {
            browser: *browser_enum,
            name,
            raw_version,
            version,
            main_version,
            driver_path,
        }
    }

    /// The page to fetch for `get_driver_url`.
    pub fn catalog_url(&self) -> (r: String)
        ensures
            r@ == catalog_page(self.browser),
    {
        match self.browser {
            BrowserEnum::Chrome => "https://googlechromelabs.github.io/chrome-for-testing/".to_owned(),
            BrowserEnum::Edge => "https://developer.microsoft.com/zh-cn/microsoft-edge/tools/webdriver/?form=MA13LH".to_owned(),
        }
    }

    /// The download link for `browser`, from the catalog page (`None` where it could
    /// not be fetched with success); empty where none is found.
    pub fn get_driver_url(&self, browser: &Browser, page: &Option<String>) -> (r: String)
        ensures
            r@ == resolved_url(
                self.browser,
                browser.main_version@,
                browser.version@,
                opt_view(*page),
            ),
    {
        match page {
            None => String::new(),
            Some(body) => match self.browser {
                BrowserEnum::Chrome => match healthy_rows(body.as_str()) {
                    Some(rows) => chrome_driver_url(
                        body.as_str(),
                        browser.main_version.as_str(),
                        &rows,
                    ),
                    None => String::new(),
                },
                BrowserEnum::Edge => edge_driver_url(body.as_str(), browser.version.as_str()),
            },
        }
    }

    /// Where the downloaded archive is written.
    pub fn archive_path(&self) -> (r: String)
        ensures
            r@ == self.name@ + ".zip"@,
    {
        concat2(self.name.as_str(), ".zip")
    }

    /// The command that expands the archive into the working directory.
    pub fn unzip_driver(&self) -> (r: ShellCommand)
        ensures
            r.shell == Shell::Powershell,
            r.command@ == "Expand-Archive -Path '"@ + self.name@ + ".zip' -Destination ."@,
    {
        let c = concat3("Expand-Archive -Path '", self.name.as_str(), ".zip' -Destination .");
        run_powershell(c.as_str())
    }

    /// The command that stops any running driver; its failure is of no account.
    pub fn close_driver(&self) -> (r: ShellCommand)
        ensures
            r.shell == Shell::Cmd,
            r.command@ == "taskkill /f /im "@ + self.name@ + ".exe"@,
    {
        let c = concat3("taskkill /f /im ", self.name.as_str(), ".exe");
        run_cmd(c.as_str())
    }

    /// The command that copies the expanded driver executable over `driver_path`.
    pub fn copy_driver(&self, driver_path: &str) -> (r: ShellCommand)
        ensures
            r.shell == Shell::Powershell,
            r.command@ == match self.browser {
                BrowserEnum::Chrome => "Copy-Item -Path 'chromedriver-win64\\chromedriver.exe' -Destination '"@,
                BrowserEnum::Edge => "Copy-Item -Path 'msedgedriver.exe' -Destination '"@,
            } + driver_path@ + "'"@,
    {
        let head = match self.browser {
            BrowserEnum::Chrome => "Copy-Item -Path 'chromedriver-win64\\chromedriver.exe' -Destination '",
            BrowserEnum::Edge => "Copy-Item -Path 'msedgedriver.exe' -Destination '",
        };
        let c = concat3(head, driver_path, "'");
        run_powershell(c.as_str())
    }

    /// The command that removes the downloaded archive.
    pub fn del_temp_file(&self) -> (r: ShellCommand)
        ensures
            r.shell == Shell::Powershell,
            r.command@ == "Remove-Item -Path '"@ + self.name@ + ".zip'"@,
    {
        let c = concat3("Remove-Item -Path '", self.name.as_str(), ".zip'");
        run_powershell(c.as_str())
    }

    /// The command that removes the directory that expanding the archive made.
    pub fn del_temp_path(&self) -> (r: ShellCommand)
        ensures
            r.shell == Shell::Powershell,
            r.command@ == match self.browser {
                BrowserEnum::Chrome => "Remove-Item -Path chromedriver-win64 -Recurse"@,
                BrowserEnum::Edge => "Remove-Item -Path Driver_Notes -Recurse"@,
            },
    {
        match self.browser {
            BrowserEnum::Chrome => run_powershell("Remove-Item -Path chromedriver-win64 -Recurse"),
            BrowserEnum::Edge => run_powershell("Remove-Item -Path Driver_Notes -Recurse"),
        }
    }

    /// The command that removes the executable that expanding the archive left in the
    /// working directory, for the family whose archive holds it at top level.
    pub fn del_temp_exe(&self) -> (r: Option<ShellCommand>)
        ensures
            match self.browser {
                BrowserEnum::Chrome => r is None,
                BrowserEnum::Edge => r matches Some(c) && c.shell == Shell::Powershell
                    && c.command@ == "Remove-Item -Path msedgedriver.exe"@,
            },
    {
        match self.browser {
            BrowserEnum::Chrome => None,
            BrowserEnum::Edge => Some(run_powershell("Remove-Item -Path msedgedriver.exe")),
        }
    }
}

} // verus!
