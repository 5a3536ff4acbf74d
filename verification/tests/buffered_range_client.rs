//! Tests of the buffered range reader against a deterministic in-memory
//! fetcher serving the same bytes as the remote resources the reader is
//! meant for.

use http_range_client::HttpError;
use http_range_client::IoError;
use http_range_client::SeekFrom;
use http_range_client::SyncBufferedHttpRangeClient;
use http_range_client::SyncHttpRangeClient;

struct MockClient {
    data: Vec<u8>,
}

impl MockClient {
    /// The test resource `countries.fgb`: 205680 bytes, starting with the
    /// magic `fgb\x03fgb\x00` and ending with ten known bytes.
    fn countries() -> MockClient {
        let mut data = vec![1u8; 205680];
        data[..8].copy_from_slice(b"fgb\x03fgb\x00");
        let last = [78u8, 192, 205, 204, 204, 204, 204, 236, 73, 192];
        data[205670..].copy_from_slice(&last);
        MockClient { data }
    }

    /// A small PNG-like resource: signature bytes then a little payload.
    fn png() -> MockClient {
        let mut data = vec![7u8; 64];
        data[..8].copy_from_slice(&[0x89, b'P', b'N', b'G', 0x0D, 0x0A, 0x1A, 0x0A]);
        MockClient { data }
    }
}

impl SyncHttpRangeClient for MockClient {
    fn get_range(&self, _url: &str, range: &str) -> Result<Vec<u8>, HttpError> {
        let spec = range.strip_prefix("bytes=").expect("range spec prefix");
        let (a, b) = spec.split_once('-').expect("range spec separator");
        let start: usize = a.parse().expect("range start");
        let end: usize = b.parse().expect("range end");
        if start >= self.data.len() {
            return Err(HttpError::HttpStatus(416));
        }
        let stop = (end + 1).min(self.data.len());
        if stop <= start {
            return Ok(Vec::new());
        }
        Ok(self.data[start..stop].to_vec())
    }

    fn head_response_header(&self, _url: &str, header: &str) -> Result<Option<String>, HttpError> {
        if header == "content-length" {
            Ok(Some(self.data.len().to_string()))
        } else {
            Ok(None)
        }
    }
}

const URL: &str = "https://flatgeobuf.org/test/data/countries.fgb";

#[test]
fn http_read_sync() {
    let mut client = SyncBufferedHttpRangeClient::with(MockClient::countries(), URL);
    let bytes = client.min_req_size(256).get_range(0, 3).unwrap();
    assert_eq!(bytes, b"fgb");

    let version = client.get_bytes(1).unwrap();
    assert_eq!(version, [3]);

    let bytes = client.get_bytes(3).unwrap();
    assert_eq!(bytes, b"fgb");
}

#[test]
fn http_read_sync_zero_range() {
    let mut client = SyncBufferedHttpRangeClient::with(MockClient::countries(), URL);
    let bytes = client.min_req_size(256).get_range(0, 0).unwrap();
    assert_eq!(bytes, []);
}

#[test]
fn io_read() {
    let mut reader = SyncBufferedHttpRangeClient::with(MockClient::countries(), URL);
    reader.seek(SeekFrom::Start(3)).ok();
    let mut version = vec![0u8; 1];
    reader.min_req_size(256).read(&mut version).unwrap();
    assert_eq!(version, [3]);

    let mut bytes = vec![0u8; 3];
    reader.read(&mut bytes).unwrap();
    assert_eq!(&bytes[..], b"fgb");
}

#[test]
fn io_read_over_min_req_size() {
    let mut reader = SyncBufferedHttpRangeClient::with(MockClient::countries(), URL);
    let mut bytes = vec![0u8; 8];
    reader.min_req_size(4).read(&mut bytes).unwrap();
    assert_eq!(bytes, [b'f', b'g', b'b', 3, b'f', b'g', b'b', 0]);
}

#[test]
fn io_read_non_exact() {
    let mut reader = SyncBufferedHttpRangeClient::with(MockClient::countries(), URL);
    let mut bytes = vec![0u8; 8];
    reader.min_req_size(4).read(&mut bytes).unwrap();
    assert_eq!(bytes, [b'f', b'g', b'b', 3, b'f', b'g', b'b', 0]);
}

#[test]
fn after_end() {
    // countries.fgb has 205680 bytes
    let mut reader = SyncBufferedHttpRangeClient::with(MockClient::countries(), URL);
    reader.seek(SeekFrom::Start(205670)).ok();
    let mut bytes = vec![0u8; 10];
    reader.read(&mut bytes).unwrap();
    assert_eq!(bytes, [78, 192, 205, 204, 204, 204, 204, 236, 73, 192]);

    let result = reader.read(&mut bytes);
    assert_eq!(result.unwrap_err(), IoError::UnexpectedEof);

    reader.seek(SeekFrom::Start(205670)).ok();
    let mut bytes = vec![0u8; 20];
    reader.read(&mut bytes).unwrap();
    assert_eq!(
        bytes,
        [78, 192, 205, 204, 204, 204, 204, 236, 73, 192, 0, 0, 0, 0, 0, 0, 0, 0, 0, 0]
    );
}

#[test]
fn seek_current() {
    let mut reader = SyncBufferedHttpRangeClient::with(MockClient::countries(), URL);
    let mut bytes = vec![0u8; 8];
    reader.read(&mut bytes).unwrap();

    assert_eq!(reader.seek(SeekFrom::Current(0)).unwrap(), 8);

    reader.seek(SeekFrom::Current(-8)).unwrap();
    reader.read(&mut bytes).unwrap();
    assert_eq!(bytes, [b'f', b'g', b'b', 3, b'f', b'g', b'b', 0]);
}

#[test]
fn seek_end() {
    let mut reader = SyncBufferedHttpRangeClient::with(MockClient::countries(), URL);

    let size = reader.seek(SeekFrom::End(0)).unwrap();
    assert_eq!(size, 205680);

    reader.seek(SeekFrom::End(-205680)).unwrap();

    let mut bytes = vec![0u8; 8];
    reader.read(&mut bytes).unwrap();
    assert_eq!(bytes, [b'f', b'g', b'b', 3, b'f', b'g', b'b', 0]);
}

#[test]
fn bufread() {
    let mut reader = SyncBufferedHttpRangeClient::with(MockClient::countries(), URL);
    reader.set_min_req_size(5);
    let mut bytes: Vec<u8> = vec![];
    // read until the delimiter 0, as a buffered-line consumer would:
    // fill_buf, scan, consume
    let mut num_bytes = 0usize;
    loop {
        let available = reader.fill_buf().unwrap().to_vec();
        if available.is_empty() {
            break;
        }
        match available.iter().position(|&b| b == 0) {
            Some(i) => {
                bytes.extend_from_slice(&available[..=i]);
                reader.consume(i + 1);
                num_bytes += i + 1;
                break;
            }
            None => {
                bytes.extend_from_slice(&available);
                let n = available.len();
                reader.consume(n);
                num_bytes += n;
            }
        }
    }
    assert_eq!(num_bytes, 8);
    assert_eq!(bytes, [b'f', b'g', b'b', 3, b'f', b'g', b'b', 0]);
}

#[test]
fn remote_png() {
    let mut reader = SyncBufferedHttpRangeClient::with(
        MockClient::png(),
        "https://www.rust-lang.org/static/images/favicon-32x32.png",
    );
    reader.seek(SeekFrom::Start(1)).ok();
    let mut bytes = vec![0u8; 3];
    reader.read(&mut bytes).unwrap();
    assert_eq!(&bytes[..], b"PNG");
}

#[test]
fn http_read_async() {
    let mut client = SyncBufferedHttpRangeClient::with(MockClient::countries(), URL);
    let bytes = client.min_req_size(256).get_range(0, 3).unwrap();
    assert_eq!(bytes, b"fgb");
    let version = client.get_bytes(1).unwrap();
    assert_eq!(version, [3]);
}

#[test]
fn read_over_min_req_size() {
    let mut client = SyncBufferedHttpRangeClient::with(MockClient::countries(), URL);
    let bytes = client.min_req_size(4).get_range(0, 8).unwrap();
    assert_eq!(bytes, [b'f', b'g', b'b', 3, b'f', b'g', b'b', 0]);
}

#[test]
fn zero_range() {
    let mut client = SyncBufferedHttpRangeClient::with(MockClient::countries(), URL);
    let bytes = client.get_range(100, 0).unwrap();
    assert_eq!(bytes, []);
}

#[test]
fn buffer_overlap() {
    let mut client = SyncBufferedHttpRangeClient::with(MockClient::countries(), URL);
    let bytes = client.min_req_size(4).get_range(0, 3).unwrap();
    assert_eq!(bytes, [b'f', b'g', b'b']);
    let bytes = client.get_range(3, 4).unwrap();
    assert_eq!(bytes, [3, b'f', b'g', b'b']);
    let bytes = client.get_bytes(1).unwrap();
    assert_eq!(bytes, [0]);
}

#[test]
fn buffered_range_client_after_end() {
    // countries.fgb has 205680 bytes
    let mut client = SyncBufferedHttpRangeClient::with(MockClient::countries(), URL);
    let bytes = client.get_range(205670, 10).unwrap();
    assert_eq!(bytes, [78, 192, 205, 204, 204, 204, 204, 236, 73, 192]);

    let err = client.get_bytes(10).unwrap_err();
    assert_eq!(&err.message(), "http status 416");

    let bytes = client.get_range(205670, 20).unwrap();
    assert_eq!(bytes, [78, 192, 205, 204, 204, 204, 204, 236, 73, 192]);
}
