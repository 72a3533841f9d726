use url::Url;
use urls2disk::destination::Destination;
use urls2disk::document::Document;
use urls2disk::error::{Error, ErrorKind};
use urls2disk::job::{Job, ResourceClass};
use urls2disk::locator::Locator;
use urls2disk::simple_document::SimpleDocument;

#[test]
fn locator_holds_the_serialized_url() {
    let locator = Locator::parse("HTTPS://Example.COM/a b/c/../d?q=1#top").unwrap();
    assert_eq!(locator.as_str(), "https://example.com/a%20b/d?q=1#top");
}

#[test]
fn locator_of_a_serialized_url_is_that_url() {
    let text = "https://www.sec.gov/Archives/edgar/data/320193/000032019318000007/a10-qq1201812302017.htm";
    assert_eq!(Locator::parse(text).unwrap().as_str(), text);
}

#[test]
fn locator_adds_the_root_path() {
    assert_eq!(Locator::parse("http://example.net").unwrap().as_str(), "http://example.net/");
}

#[test]
fn locator_rejects_what_is_no_absolute_url() {
    assert_eq!(Locator::parse("not a url"), None);
    assert_eq!(Locator::parse("/relative/path"), None);
    assert_eq!(Locator::parse(""), None);
    assert_eq!(Locator::parse("http://"), None);
}

#[test]
fn destination_of_text_is_its_own_argument() {
    let destination = Destination::from_text("./data/Apple 10-K 2010.pdf");
    assert_eq!(destination.as_bytes(), "./data/Apple 10-K 2010.pdf".as_bytes());
    assert_eq!(destination.argument(), Ok("./data/Apple 10-K 2010.pdf".to_string()));
}

#[test]
fn destination_keeps_text_beyond_ascii() {
    let destination = Destination::from_bytes("données/été.html".as_bytes().to_vec());
    assert_eq!(destination.argument(), Ok("données/été.html".to_string()));
    assert_eq!(destination, Destination::from_text("données/été.html"));
}

#[test]
fn destination_that_is_not_text_is_a_configuration_error() {
    let destination = Destination::from_bytes(vec![b'a', 0xff, b'b']);
    assert_eq!(destination.argument(), Err(Error::Config));
    let cut_short = Destination::from_bytes(vec![b'a', 0xc3]);
    assert_eq!(cut_short.argument(), Err(Error::Config));
    assert_eq!(Error::Config.kind(), ErrorKind::Config);
}

#[test]
fn empty_destination_is_empty_text() {
    assert_eq!(Destination::from_bytes(Vec::new()).argument(), Ok(String::new()));
}

#[test]
fn simple_document_starts_without_bytes() {
    let path = Destination::from_text("out/a.html");
    let url = Locator::parse("https://example.com/a").unwrap();
    let document = SimpleDocument::new(path.clone(), url.clone(), true);
    assert_eq!(document.bytes(), None);
    assert_eq!(document.path(), &path);
    assert_eq!(document.url(), &url);
    assert!(document.wkhtmltopdf());
}

#[test]
fn simple_document_set_bytes_overwrites_and_clears() {
    let path = Destination::from_text("out/a.html");
    let url = Locator::parse("https://example.com/a").unwrap();
    let mut document = SimpleDocument::new(path.clone(), url.clone(), false);
    document.set_bytes(Some(vec![1, 2, 3]));
    assert_eq!(document.bytes(), Some(&[1u8, 2, 3][..]));
    document.set_bytes(Some(vec![9]));
    assert_eq!(document.bytes(), Some(&[9u8][..]));
    document.set_bytes(Some(Vec::new()));
    assert_eq!(document.bytes(), Some(&[][..]));
    document.set_bytes(None);
    assert_eq!(document.bytes(), None);
    assert_eq!(document.path(), &path);
    assert_eq!(document.url(), &url);
    assert!(!document.wkhtmltopdf());
}

#[test]
fn errors_belong_to_their_families() {
    assert_eq!(Error::Io.kind(), ErrorKind::Io);
    assert_eq!(Error::TransportFailure.kind(), ErrorKind::Transport);
    assert_eq!(Error::TransportStatus(404).kind(), ErrorKind::Transport);
    assert_eq!(Error::ProcessSpawn.kind(), ErrorKind::Process);
    assert_eq!(Error::ProcessExit(1).kind(), ErrorKind::Process);
    assert_eq!(Error::ProcessNoExitCode.kind(), ErrorKind::Process);
    assert_eq!(Error::Config.kind(), ErrorKind::Config);
}

#[test]
fn job_stands_for_the_document_it_refers_to() {
    let path = Destination::from_text("out/a.pdf");
    let url = Locator::parse("https://example.com/a").unwrap();
    let mut job = Job::new(7, ResourceClass::Cpu, url.clone(), path.clone());
    assert_eq!(job.document(), 7);
    assert_eq!(job.class(), ResourceClass::Cpu);
    assert!(job.wkhtmltopdf());
    assert_eq!(job.path(), &path);
    assert_eq!(job.url(), &url);
    assert_eq!(job.bytes(), None);
    job.set_bytes(Some(vec![5, 6]));
    assert_eq!(job.bytes(), Some(&[5u8, 6][..]));
    assert_eq!(job.into_bytes(), Some(vec![5, 6]));

    let raw = Job::new(0, ResourceClass::Io, url, path);
    assert!(!raw.wkhtmltopdf());
    assert_eq!(raw.into_bytes(), None);
}

#[test]
fn locator_of_a_parsed_url_is_its_serialization() {
    let url = Url::parse("HTTPS://Example.COM/a b/c/../d?q=1#top").unwrap();
    let locator = Locator::of(&url);
    assert_eq!(locator.as_str(), "https://example.com/a%20b/d?q=1#top");
    assert_eq!(locator.as_str(), url.as_str());
    assert_eq!(Some(locator), Locator::parse("HTTPS://Example.COM/a b/c/../d?q=1#top"));
}

#[test]
fn locator_follows_a_url_that_was_changed_after_parsing() {
    let mut url = Url::parse("https://example.com/old").unwrap();
    url.set_path("/new path");
    url.set_query(Some("year=2017"));
    assert_eq!(Locator::of(&url).as_str(), "https://example.com/new%20path?year=2017");
}
