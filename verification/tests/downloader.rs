use campus_network_assistant::backend::downloader::Download;
use campus_network_assistant::backend::downloader::DownloadError;
use campus_network_assistant::backend::downloader::DownloadEvent;
use campus_network_assistant::backend::downloader::DownloadPhase;
use campus_network_assistant::backend::downloader::DownloadStep;
use campus_network_assistant::backend::downloader::Downloader;
use campus_network_assistant::backend::downloader::EntryAction;
use campus_network_assistant::backend::downloader::InstallError;
use campus_network_assistant::backend::downloader::InstallPlan;
use campus_network_assistant::backend::downloader::InstallStep;
use campus_network_assistant::backend::downloader::UrlError;
use campus_network_assistant::backend::downloader::CHROMEDRIVER_DOWNLOAD_URL;
use campus_network_assistant::backend::downloader::CHROMEDRIVER_VERSION;
use campus_network_assistant::backend::downloader::CHROME_DOWNLOAD_URL;
use campus_network_assistant::backend::downloader::CHROME_VERSION;
use campus_network_assistant::backend::downloader::MAX_RETRIES;

#[test]
fn test_url_parsing() {
    let chrome_url = reqwest::Url::parse(CHROME_DOWNLOAD_URL).unwrap();
    assert_eq!(chrome_url.host_str().unwrap(), "storage.googleapis.com");
    assert!(chrome_url.path().contains("chrome-win32.zip"));

    let chromedriver_url = reqwest::Url::parse(CHROMEDRIVER_DOWNLOAD_URL).unwrap();
    assert_eq!(chromedriver_url.host_str().unwrap(), "storage.googleapis.com");
    assert!(chromedriver_url.path().contains("chromedriver-win32.zip"));
}

#[test]
fn test_version_constants() {
    assert!(CHROME_VERSION.split('.').count() >= 3, "Chrome版本号格式不正确");
    assert!(CHROMEDRIVER_VERSION.split('.').count() >= 3, "ChromeDriver版本号格式不正确");
    assert_eq!(CHROME_VERSION, CHROMEDRIVER_VERSION, "Chrome和ChromeDriver版本号应该匹配");
}

#[test]
fn test_download_urls() {
    assert!(CHROME_DOWNLOAD_URL.contains(CHROME_VERSION), "Chrome下载URL应该包含正确的版本号");
    assert!(
        CHROMEDRIVER_DOWNLOAD_URL.contains(CHROMEDRIVER_VERSION),
        "ChromeDriver下载URL应该包含正确的版本号"
    );
    assert!(CHROME_DOWNLOAD_URL.contains("win32"), "Chrome下载URL应该包含平台信息");
    assert!(CHROMEDRIVER_DOWNLOAD_URL.contains("win32"), "ChromeDriver下载URL应该包含平台信息");
}

#[test]
fn host_to_probe() {
    assert_eq!(
        Downloader::check_url_accessibility(CHROME_DOWNLOAD_URL),
        Ok("storage.googleapis.com".to_string())
    );
    assert_eq!(
        Downloader::check_url_accessibility("https://user@Example.COM:8443/a?b"),
        Ok("example.com".to_string())
    );
    assert_eq!(Downloader::check_url_accessibility("not a url"), Err(UrlError::Malformed));
    assert_eq!(Downloader::check_url_accessibility("data:text/plain,x"), Err(UrlError::NoHost));
    assert_eq!(Downloader::host_from(None), Err(UrlError::Malformed));
    assert_eq!(Downloader::host_from(Some(None)), Err(UrlError::NoHost));
    assert_eq!(Downloader::host_from(Some(Some("h".to_string()))), Ok("h".to_string()));
    assert_eq!(Downloader::ping_arguments("h.example"), vec!["-n", "1", "h.example"]);
}

#[test]
fn what_has_to_be_fetched() {
    assert_eq!(
        Downloader::ensure_chrome_and_driver_async(false, false),
        InstallPlan { chrome: true, chromedriver: true }
    );
    assert_eq!(
        Downloader::ensure_chrome_and_driver_async(true, false),
        InstallPlan { chrome: false, chromedriver: true }
    );
    assert_eq!(
        Downloader::ensure_chrome_and_driver_async(true, true),
        InstallPlan { chrome: false, chromedriver: false }
    );
}

#[test]
fn archive_entries() {
    assert_eq!(Downloader::chrome_entry_action(false, "../evil"), EntryAction::Skip);
    assert_eq!(Downloader::chrome_entry_action(true, "chrome-win32/"), EntryAction::CreateDir);
    assert_eq!(
        Downloader::chrome_entry_action(true, "chrome-win32/chrome.exe"),
        EntryAction::WriteFile
    );
    assert!(Downloader::is_chromedriver_entry("chromedriver-win32/chromedriver.exe"));
    assert!(!Downloader::is_chromedriver_entry("chromedriver-win32/LICENSE.chromedriver"));
    let names: Vec<String> = ["a/", "a/LICENSE", "a/chromedriver.exe", "b/chromedriver.exe"]
        .iter()
        .map(|name| name.to_string())
        .collect();
    assert_eq!(Downloader::find_chromedriver(&names), Some(2));
    assert_eq!(Downloader::find_chromedriver(&names[..2].to_vec()), None);
}

#[test]
fn download_in_one_attempt() {
    let mut download = Download::new(MAX_RETRIES);
    assert_eq!(download.pending(), DownloadStep::Begin);
    assert_eq!(download.step(DownloadEvent::Proceed), DownloadStep::SendRequest);
    assert_eq!(download.attempts(), 1);
    assert_eq!(download.step(DownloadEvent::Started { total_size: 5 }), DownloadStep::ReadChunk);
    assert_eq!(download.chunk(b"ab"), DownloadStep::ReadChunk);
    assert_eq!(download.chunk(b"cde"), DownloadStep::ReadChunk);
    assert_eq!(download.downloaded(), 5);
    assert_eq!(download.step(DownloadEvent::StreamEnded), DownloadStep::Done);
    assert_eq!(download.phase(), DownloadPhase::Finished);
    assert_eq!(&download.take().unwrap()[..], b"abcde");
}

#[test]
fn download_is_retried_with_growing_waits_and_given_up() {
    let mut download = Download::new(3);
    download.step(DownloadEvent::Proceed);
    assert_eq!(download.step(DownloadEvent::RequestFailed), DownloadStep::Wait { secs: 5 });
    assert_eq!(download.step(DownloadEvent::Proceed), DownloadStep::SendRequest);
    assert_eq!(download.step(DownloadEvent::BadStatus), DownloadStep::Wait { secs: 10 });
    assert_eq!(download.step(DownloadEvent::Proceed), DownloadStep::SendRequest);
    assert_eq!(download.attempts(), 3);
    download.step(DownloadEvent::Started { total_size: 10 });
    download.chunk(b"abc");
    assert_eq!(
        download.step(DownloadEvent::StreamEnded),
        DownloadStep::GiveUp(DownloadError::Incomplete)
    );
    assert_eq!(download.step(DownloadEvent::Proceed), DownloadStep::GiveUp(DownloadError::Incomplete));
    assert!(download.take().is_none());

    for (event, error) in [
        (DownloadEvent::RequestFailed, DownloadError::RequestFailed),
        (DownloadEvent::BadStatus, DownloadError::BadStatus),
    ] {
        let mut download = Download::new(1);
        download.step(DownloadEvent::Proceed);
        assert_eq!(download.step(event), DownloadStep::GiveUp(error));
    }
    let mut download = Download::new(0);
    download.step(DownloadEvent::Proceed);
    download.step(DownloadEvent::Started { total_size: 0 });
    assert_eq!(
        download.step(DownloadEvent::ChunkFailed),
        DownloadStep::GiveUp(DownloadError::StreamBroken)
    );
}

#[test]
fn new_attempt_starts_with_an_empty_buffer() {
    let mut download = Download::new(2);
    download.step(DownloadEvent::Proceed);
    download.step(DownloadEvent::Started { total_size: 4 });
    download.chunk(b"xy");
    assert_eq!(download.step(DownloadEvent::ChunkFailed), DownloadStep::Wait { secs: 5 });
    // A chunk outside the stream changes nothing.
    assert_eq!(download.chunk(b"zz"), DownloadStep::Wait { secs: 5 });
    download.step(DownloadEvent::Proceed);
    download.step(DownloadEvent::Started { total_size: 4 });
    assert_eq!(download.downloaded(), 0);
    download.chunk(b"abcd");
    assert_eq!(download.step(DownloadEvent::StreamEnded), DownloadStep::Done);
    assert_eq!(&download.take().unwrap()[..], b"abcd");
}

#[test]
fn unannounced_length_is_complete_when_the_stream_stops() {
    let mut download = Download::new(3);
    download.step(DownloadEvent::Proceed);
    download.step(DownloadEvent::Started { total_size: 0 });
    download.chunk(b"abc");
    assert_eq!(download.step(DownloadEvent::ChunkFailed), DownloadStep::Done);
    assert_eq!(&download.take().unwrap()[..], b"abc");
}

#[test]
fn events_that_do_not_fit_change_nothing() {
    let mut download = Download::new(3);
    assert_eq!(download.step(DownloadEvent::StreamEnded), DownloadStep::Begin);
    assert_eq!(download.step(DownloadEvent::Started { total_size: 1 }), DownloadStep::Begin);
    assert_eq!(download.attempts(), 0);
    download.step(DownloadEvent::Proceed);
    assert_eq!(download.step(DownloadEvent::Proceed), DownloadStep::SendRequest);
    assert_eq!(download.attempts(), 1);
}

#[test]
fn driver_is_not_tried_after_the_browser_failed() {
    let plan = Downloader::ensure_chrome_and_driver_async(false, false);
    assert_eq!(plan.next(None, None), InstallStep::FetchChrome);
    assert_eq!(plan.next(Some(false), None), InstallStep::Failed(InstallError::Chrome));
    assert_eq!(plan.next(Some(false), Some(true)), InstallStep::Failed(InstallError::Chrome));
    assert_eq!(plan.next(Some(true), None), InstallStep::FetchChromeDriver);
    assert_eq!(plan.next(Some(true), Some(false)), InstallStep::Failed(InstallError::ChromeDriver));
    assert_eq!(plan.next(Some(true), Some(true)), InstallStep::Finished);
    assert_eq!(plan.next(None, Some(true)), InstallStep::FetchChrome);
}

#[test]
fn only_what_is_missing_is_fetched() {
    let nothing = Downloader::ensure_chrome_and_driver_async(true, true);
    assert_eq!(nothing.next(None, None), InstallStep::Finished);
    assert_eq!(nothing.next(Some(false), Some(false)), InstallStep::Finished);

    let driver_only = Downloader::ensure_chrome_and_driver_async(true, false);
    assert_eq!(driver_only.next(None, None), InstallStep::FetchChromeDriver);
    assert_eq!(driver_only.next(Some(false), None), InstallStep::FetchChromeDriver);
    assert_eq!(driver_only.next(None, Some(false)), InstallStep::Failed(InstallError::ChromeDriver));
    assert_eq!(driver_only.next(None, Some(true)), InstallStep::Finished);

    let browser_only = Downloader::ensure_chrome_and_driver_async(false, true);
    assert_eq!(browser_only.next(None, None), InstallStep::FetchChrome);
    assert_eq!(browser_only.next(Some(true), None), InstallStep::Finished);
    assert_eq!(browser_only.next(Some(false), None), InstallStep::Failed(InstallError::Chrome));
}
