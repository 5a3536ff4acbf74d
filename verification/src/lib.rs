//! HTTP client core for HTTP Range requests with a buffer optimized for
//! sequential reading: a single contiguous window over a remote byte
//! stream, with verified window planning, merging, slicing, and stream
//! reader semantics (`read`, `seek`, `fill_buf`/`consume`).

use vstd::prelude::*;

mod buffered_range_client;
mod decimal;
mod error;
mod model;
mod range_buffer;
mod range_client;

pub use buffered_range_client::content_length_outcome;
pub use buffered_range_client::interpret_content_length;
pub use buffered_range_client::sat_add_signed;
pub use buffered_range_client::sat_add_signed_u64;
pub use buffered_range_client::SeekFrom;
pub use buffered_range_client::SyncBufferedHttpRangeClient;
pub use decimal::dec_chars;
pub use decimal::dec_val;
pub use decimal::parse_u64;
pub use decimal::spec_parse_u64;
pub use decimal::u64_to_string;
pub use error::io_error_for;
pub use error::is_io_error_for;
pub use error::message_chars;
pub use error::HttpError;
pub use error::IoError;
pub use model::lemma_idempotent_reread;
pub use model::lemma_seek_then_read;
pub use model::lemma_short_read;
pub use model::read_outcome;
pub use model::seek_start;
pub use model::BufModel;
pub use range_buffer::range_end;
pub use range_buffer::range_header_chars;
pub use range_buffer::HttpRangeBuffer;
pub use range_client::SyncHttpRangeClient;
