use http_range_client::HttpError;
use http_range_client::SyncBufferedHttpRangeClient;
use http_range_client::SyncHttpRangeClient;

struct MockClient {
    data: Vec<u8>,
}

impl SyncHttpRangeClient for MockClient {
    fn get_range(&self, _url: &str, range: &str) -> Result<Vec<u8>, HttpError> {
        let spec = range.strip_prefix("bytes=").expect("range spec prefix");
        let (a, b) = spec.split_once('-').expect("range spec separator");
        let start: usize = a.parse().expect("range start");
        let end: usize = b.parse().expect("range end");
        if start >= self.data.len() {
            return Err(HttpError::HttpStatus(416));
        }
        let stop = (end + 1).min(self.data.len());
        if stop <= start {
            return Ok(Vec::new());
        }
        Ok(self.data[start..stop].to_vec())
    }

    fn head_response_header(&self, _url: &str, header: &str) -> Result<Option<String>, HttpError> {
        if header == "content-length" {
            Ok(Some(self.data.len().to_string()))
        } else {
            Ok(None)
        }
    }
}

#[test]
fn http_read() {
    let url = "https://github.com/flatgeobuf/flatgeobuf/raw/master/test/data/countries.fgb";
    let mut data = vec![1u8; 205680];
    data[..8].copy_from_slice(b"fgb\x03fgb\x00");
    let mut client = SyncBufferedHttpRangeClient::with(MockClient { data }, url);
    client.set_min_req_size(16);
    let bytes = client.get_range(0, 8).unwrap();
    assert_eq!(bytes, [102, 103, 98, 3, 102, 103, 98, 0]);
}
