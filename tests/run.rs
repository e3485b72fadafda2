use driver_updater::browser::{driver_path_query, get_browser_driver_path, BrowserEnum};
use driver_updater::execute::{Action, Finish, Run, RunError, Step};
use driver_updater::shell::{run_cmd, run_powershell, Shell};

const CHROME_CATALOG: &str = "https://googlechromelabs.github.io/chrome-for-testing/";
const CHROME_LINK: &str =
    "https://storage.googleapis.com/chrome-for-testing-public/124.0.6367.91/win64/chromedriver-win64.zip";
const EDGE_LINK: &str = "https://msedgedriver.azureedge.net/124.0.2478.80/edgedriver_win64.zip";

fn chrome_page() -> String {
    format!(
        "<html><body><table>\
         <tr class=\"status-not-ok\"><td><code>https://storage.googleapis.com/chrome-for-testing-public/124.0.6367.95/win64/chromedriver-win64.zip</code></td></tr>\
         <tr class=\"status-ok\"><td><code>{}</code></td><td>200</td></tr>\
         </table></body></html>",
        CHROME_LINK
    )
}

fn edge_page() -> String {
    format!("<html><body><a href=\"{}\">x64</a></body></html>", EDGE_LINK)
}

fn some(s: &str) -> Option<String> {
    Some(s.to_string())
}

fn command(a: &Action) -> (Shell, String) {
    match a {
        Action::Query(c) | Action::Modify(c) | Action::Stop(c) | Action::Install(c) => {
            (c.shell, c.command.clone())
        }
        other => panic!("not a command: {:?}", other),
    }
}

fn done(a: &Action) -> Result<Finish, RunError> {
    match a {
        Action::Done(r) => *r,
        other => panic!("not finished: {:?}", other),
    }
}

/// Answers the three detection queries and returns the action that follows them.
fn detect(run: &mut Run, browser: Option<&str>, driver: &str, path: Option<&str>) -> Action {
    let first = run.advance(None);
    assert!(matches!(first, Action::Query(_)));
    let second = run.advance(browser.map(|s| s.to_string()));
    if let Action::Done(_) = second {
        return second;
    }
    let third = run.advance(some(driver));
    let (shell, text) = command(&third);
    assert_eq!(shell, Shell::Cmd);
    assert!(text.starts_with("where "));
    run.advance(path.map(|s| s.to_string()))
}

#[test]
fn shell_invocations() {
    let p = run_powershell("Get-Date");
    assert_eq!(p.shell, Shell::Powershell);
    assert_eq!(p.command, "Get-Date");
    assert_eq!(p.program(), "powershell");
    assert_eq!(p.switch(), "-Command");
    let c = run_cmd("where chromedriver");
    assert_eq!(c.shell, Shell::Cmd);
    assert_eq!(c.program(), "cmd");
    assert_eq!(c.switch(), "/C");
}

#[test]
fn detection_queries() {
    let mut run = Run::new(BrowserEnum::Chrome);
    let a = run.advance(None);
    assert_eq!(
        command(&a),
        (
            Shell::Powershell,
            "(Get-Item 'C:\\Program Files\\Google\\Chrome\\Application\\chrome.exe').VersionInfo.ProductVersion".to_string()
        )
    );
    let b = run.advance(some("124.0.6367.78"));
    assert_eq!(command(&b), (Shell::Powershell, "chromedriver --version".to_string()));
    assert_eq!(run.browser.main_version, "124");
    assert_eq!(run.browser.version, "124.0.6367.78");
    let c = run.advance(some("ChromeDriver 124.0.6367.60 (abc)"));
    assert_eq!(command(&c), (Shell::Cmd, "where chromedriver".to_string()));
    let d = run.advance(some("C:\\tools\\chromedriver.exe"));
    assert!(matches!(d, Action::Fetch(ref u) if u == CHROME_CATALOG));
    assert_eq!(run.driver.version, "124.0.6367.60");
    assert_eq!(run.driver.main_version, "124");
    assert_eq!(run.driver.driver_path, "C:\\tools\\chromedriver.exe");
    assert_eq!(run.step, Step::CheckCurrent);
}

#[test]
fn same_main_newer_build_updates() {
    let mut run = Run::new(BrowserEnum::Chrome);
    let a = detect(
        &mut run,
        Some("124.0.6367.78"),
        "ChromeDriver 124.0.6367.60 (abc)",
        Some("C:\\tools\\chromedriver.exe"),
    );
    assert!(matches!(a, Action::Fetch(_)));
    let dl = run.advance(Some(chrome_page()));
    match &dl {
        Action::Download { url, path } => {
            assert_eq!(url, CHROME_LINK);
            assert!(url.contains("124.0.6367.91"));
            assert_eq!(path, "chromedriver.zip");
        }
        other => panic!("expected a download: {:?}", other),
    }
    let unzip = run.advance(some(""));
    assert_eq!(
        command(&unzip),
        (Shell::Powershell, "Expand-Archive -Path 'chromedriver.zip' -Destination .".to_string())
    );
    let stop = run.advance(some(""));
    assert!(matches!(stop, Action::Stop(_)));
    assert_eq!(command(&stop), (Shell::Cmd, "taskkill /f /im chromedriver.exe".to_string()));
    let install = run.advance(None);
    assert!(matches!(install, Action::Install(_)));
    assert_eq!(
        command(&install).1,
        "Copy-Item -Path 'chromedriver-win64\\chromedriver.exe' -Destination 'C:\\tools\\chromedriver.exe'"
    );
    let del_file = run.advance(some(""));
    assert_eq!(command(&del_file).1, "Remove-Item -Path 'chromedriver.zip'");
    let del_path = run.advance(some(""));
    assert_eq!(command(&del_path).1, "Remove-Item -Path chromedriver-win64 -Recurse");
    let end = run.advance(some(""));
    assert_eq!(done(&end), Ok(Finish::Updated));
    assert_eq!(run.url, CHROME_LINK);
}

#[test]
fn current_driver_is_left_alone() {
    let mut run = Run::new(BrowserEnum::Chrome);
    let a = detect(
        &mut run,
        Some("124.0.6367.78"),
        "ChromeDriver 124.0.6367.91 (abc)",
        Some("C:\\tools\\chromedriver.exe"),
    );
    assert!(matches!(a, Action::Fetch(_)));
    let end = run.advance(Some(chrome_page()));
    assert_eq!(done(&end), Ok(Finish::UpToDate));
    let again = run.advance(None);
    assert_eq!(done(&again), Ok(Finish::UpToDate));
}

#[test]
fn missing_driver_path_stops_before_network() {
    let mut run = Run::new(BrowserEnum::Chrome);
    let a = detect(&mut run, Some("124.0.6367.78"), "ChromeDriver 124.0.6367.60 (abc)", None);
    assert_eq!(done(&a), Err(RunError::DriverPathNotFound));
    assert_eq!(run.step, Step::Finished);
}

#[test]
fn missing_browser_version_stops() {
    let mut run = Run::new(BrowserEnum::Edge);
    let a = detect(&mut run, None, "", None);
    assert_eq!(done(&a), Err(RunError::BrowserVersionNotFound));
    let mut run = Run::new(BrowserEnum::Edge);
    let a = detect(&mut run, Some("99.0.1.2"), "", None);
    assert_eq!(done(&a), Err(RunError::BrowserVersionNotFound));
}

#[test]
fn same_main_without_link_is_not_executed() {
    let mut run = Run::new(BrowserEnum::Chrome);
    detect(&mut run, Some("124.0.6367.78"), "ChromeDriver 124.0.6367.60", Some("C:\\d.exe"));
    let end = run.advance(None);
    assert_eq!(done(&end), Err(RunError::UpdateNotExecuted));
}

#[test]
fn mismatch_without_link_fails_before_download() {
    let mut run = Run::new(BrowserEnum::Chrome);
    let a = detect(&mut run, Some("125.0.6422.60"), "ChromeDriver 124.0.6367.60", Some("C:\\d.exe"));
    assert!(matches!(a, Action::Fetch(_)));
    assert_eq!(run.step, Step::Resolve);
    let end = run.advance(Some(chrome_page()));
    assert_eq!(done(&end), Err(RunError::UrlNotFound));
}

#[test]
fn mismatch_resolves_and_downloads() {
    let mut run = Run::new(BrowserEnum::Chrome);
    detect(&mut run, Some("124.0.6367.78"), "ChromeDriver 123.0.6312.122", Some("C:\\d.exe"));
    assert_eq!(run.step, Step::Resolve);
    let dl = run.advance(Some(chrome_page()));
    assert!(matches!(dl, Action::Download { ref url, .. } if url == CHROME_LINK));
}

fn to_copy(run: &mut Run) {
    detect(run, Some("124.0.6367.78"), "ChromeDriver 123.0.6312.122", Some("C:\\d.exe"));
    run.advance(Some(chrome_page()));
    run.advance(some(""));
    run.advance(some(""));
    let install = run.advance(None);
    assert!(matches!(install, Action::Install(_)));
}

#[test]
fn download_failure() {
    let mut run = Run::new(BrowserEnum::Chrome);
    detect(&mut run, Some("124.0.6367.78"), "ChromeDriver 123.0.6312.122", Some("C:\\d.exe"));
    run.advance(Some(chrome_page()));
    assert_eq!(done(&run.advance(None)), Err(RunError::DownloadFailed));
}

#[test]
fn unzip_failure() {
    let mut run = Run::new(BrowserEnum::Chrome);
    detect(&mut run, Some("124.0.6367.78"), "ChromeDriver 123.0.6312.122", Some("C:\\d.exe"));
    run.advance(Some(chrome_page()));
    run.advance(some(""));
    assert_eq!(done(&run.advance(None)), Err(RunError::UnzipFailed));
}

#[test]
fn copy_failure() {
    let mut run = Run::new(BrowserEnum::Chrome);
    to_copy(&mut run);
    assert_eq!(done(&run.advance(None)), Err(RunError::CopyFailed));
}

#[test]
fn cleanup_failure_after_install_ends_run() {
    let mut run = Run::new(BrowserEnum::Chrome);
    to_copy(&mut run);
    run.advance(some(""));
    let end = run.advance(None);
    assert_eq!(done(&end), Err(RunError::TempFileDeleteFailed));
    let again = run.advance(some(""));
    assert_eq!(done(&again), Err(RunError::TempFileDeleteFailed));

    let mut run = Run::new(BrowserEnum::Chrome);
    to_copy(&mut run);
    run.advance(some(""));
    run.advance(some(""));
    assert_eq!(done(&run.advance(None)), Err(RunError::TempPathDeleteFailed));
}

#[test]
fn edge_update_removes_extracted_files() {
    let mut run = Run::new(BrowserEnum::Edge);
    let a = detect(
        &mut run,
        Some("124.0.2478.80"),
        "Microsoft Edge WebDriver 123.0.2420.97 (abc)",
        Some("C:\\tools\\msedgedriver.exe"),
    );
    assert!(matches!(a, Action::Fetch(ref u) if u.starts_with("https://developer.microsoft.com/")));
    let dl = run.advance(Some(edge_page()));
    match &dl {
        Action::Download { url, path } => {
            assert_eq!(url, EDGE_LINK);
            assert_eq!(path, "msedgedriver.zip");
        }
        other => panic!("expected a download: {:?}", other),
    }
    run.advance(some(""));
    run.advance(some(""));
    let install = run.advance(some(""));
    assert_eq!(
        command(&install).1,
        "Copy-Item -Path 'msedgedriver.exe' -Destination 'C:\\tools\\msedgedriver.exe'"
    );
    run.advance(some(""));
    let del_notes = run.advance(some(""));
    assert_eq!(command(&del_notes).1, "Remove-Item -Path Driver_Notes -Recurse");
    let del_exe = run.advance(some(""));
    assert_eq!(command(&del_exe).1, "Remove-Item -Path msedgedriver.exe");
    assert_eq!(done(&run.advance(some(""))), Ok(Finish::Updated));
}

#[test]
fn edge_second_cleanup_failure() {
    let mut run = Run::new(BrowserEnum::Edge);
    detect(&mut run, Some("124.0.2478.80"), "123.0.2420.97", Some("C:\\e.exe"));
    for _ in 0..7 {
        run.advance(Some(edge_page()));
    }
    assert_eq!(run.step, Step::DeleteExtractedExe);
    assert_eq!(done(&run.advance(None)), Err(RunError::TempPathDeleteFailed));
}

#[test]
fn driver_path_from_answer() {
    assert_eq!(get_browser_driver_path(some("C:\\d.exe")), "C:\\d.exe");
    assert_eq!(get_browser_driver_path(None), "");
    let q = driver_path_query("msedgedriver");
    assert_eq!((q.shell, q.command.as_str()), (Shell::Cmd, "where msedgedriver"));
}

#[test]
fn family_names() {
    assert_eq!(BrowserEnum::Chrome.name(), "Chrome");
    assert_eq!(BrowserEnum::Edge.name(), "Edge");
    assert_eq!(BrowserEnum::Edge.driver_name(), "msedgedriver");
}

#[test]
fn missing_driver_version_stops_before_network() {
    let mut run = Run::new(BrowserEnum::Chrome);
    let a = detect(&mut run, Some("124.0.6367.78"), "", Some("C:\\tools\\chromedriver.exe"));
    assert_eq!(done(&a), Err(RunError::DriverVersionNotFound));
    assert_eq!(run.step, Step::Finished);

    let mut run = Run::new(BrowserEnum::Edge);
    let a = detect(&mut run, Some("124.0.2478.80"), "msedgedriver: no version", Some("C:\\e.exe"));
    assert_eq!(done(&a), Err(RunError::DriverVersionNotFound));
}

#[test]
fn missing_driver_path_reported_before_version() {
    let mut run = Run::new(BrowserEnum::Chrome);
    let a = detect(&mut run, Some("124.0.6367.78"), "", None);
    assert_eq!(done(&a), Err(RunError::DriverPathNotFound));
}
