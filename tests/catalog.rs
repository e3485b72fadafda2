use driver_updater::catalog::{chrome_driver_url, edge_driver_url};
use driver_updater::html::{any_row_contains, check_url, healthy_rows, join_pieces};

const CHROME_PAGE: &str = "<html><body><table>\
<tr class=\"status-not-ok\"><td>chromedriver</td><td>win64</td>\
<td><code>https://storage.googleapis.com/chrome-for-testing-public/124.0.6367.95/win64/chromedriver-win64.zip</code></td><td>404</td></tr>\
<tr class=\"status-ok\"><td>chromedriver</td><td>win64</td>\
<td><code>https://storage.googleapis.com/chrome-for-testing-public/124.0.6367.91/win64/chromedriver-win64.zip</code></td><td>200</td></tr>\
<tr class=\"status-ok\"><td>chromedriver</td><td>win64</td>\
<td><code>https://storage.googleapis.com/chrome-for-testing-public/125.0.6422.60/win64/chromedriver-win64.zip</code></td><td>200</td></tr>\
</table></body></html>";

const EDGE_PAGE: &str = "<html><body>\
<a href=\"https://msedgedriver.azureedge.net/124.0.2478.80/edgedriver_win64.zip\">x64</a>\
<a href=\"https://msedgedriver.azureedge.net/124.0.2478.80/edgedriver_arm64.zip\">arm64</a>\
</body></html>";

#[test]
fn healthy_rows_are_the_status_ok_rows() {
    let rows = healthy_rows(CHROME_PAGE).unwrap();
    assert_eq!(rows.len(), 2);
    let text: String = join_pieces(&rows[0]).into_iter().collect();
    assert_eq!(
        text,
        "chromedriver win64 https://storage.googleapis.com/chrome-for-testing-public/124.0.6367.91/win64/chromedriver-win64.zip 200"
    );
}

#[test]
fn join_pieces_puts_single_spaces() {
    let parts = vec!["a".to_string(), "bc".to_string(), "".to_string(), "d".to_string()];
    let text: String = join_pieces(&parts).into_iter().collect();
    assert_eq!(text, "a bc  d");
    let none: Vec<String> = Vec::new();
    assert!(join_pieces(&none).is_empty());
}

#[test]
fn any_row_contains_finds_a_piece() {
    let rows = vec![vec!["abc".to_string()], vec!["x".to_string(), "yz".to_string()]];
    assert!(any_row_contains(&rows, "x yz"));
    assert!(any_row_contains(&rows, "bc"));
    assert!(!any_row_contains(&rows, "abcx"));
}

#[test]
fn check_url_ignores_broken_rows() {
    let ok = "https://storage.googleapis.com/chrome-for-testing-public/124.0.6367.91/win64/chromedriver-win64.zip";
    let broken = "https://storage.googleapis.com/chrome-for-testing-public/124.0.6367.95/win64/chromedriver-win64.zip";
    assert!(check_url(CHROME_PAGE, ok));
    assert!(!check_url(CHROME_PAGE, broken));
}

#[test]
fn chrome_url_first_healthy_match() {
    let rows = healthy_rows(CHROME_PAGE).unwrap();
    assert_eq!(
        chrome_driver_url(CHROME_PAGE, "124", &rows),
        "https://storage.googleapis.com/chrome-for-testing-public/124.0.6367.91/win64/chromedriver-win64.zip"
    );
    assert_eq!(
        chrome_driver_url(CHROME_PAGE, "125", &rows),
        "https://storage.googleapis.com/chrome-for-testing-public/125.0.6422.60/win64/chromedriver-win64.zip"
    );
}

#[test]
fn chrome_url_absent_for_other_main_version() {
    let rows = healthy_rows(CHROME_PAGE).unwrap();
    assert_eq!(chrome_driver_url(CHROME_PAGE, "126", &rows), "");
    assert_eq!(chrome_driver_url(CHROME_PAGE, "12", &rows), "");
    let none: Vec<Vec<String>> = Vec::new();
    assert_eq!(chrome_driver_url(CHROME_PAGE, "124", &none), "");
}

#[test]
fn edge_url_exact_version() {
    assert_eq!(
        edge_driver_url(EDGE_PAGE, "124.0.2478.80"),
        "https://msedgedriver.azureedge.net/124.0.2478.80/edgedriver_win64.zip"
    );
    assert_eq!(edge_driver_url(EDGE_PAGE, "124.0.2478.81"), "");
    assert_eq!(edge_driver_url("", "124.0.2478.80"), "");
}
