//! Typed client library for Gazelle-family JSON/HTTP music-tracker APIs.
//!
//! The core of the crate is a sliding-window rate limiter and a response
//! classifier that maps inconsistent upstream error signalling onto a closed
//! error taxonomy.  Transport plumbing lives outside the verified library.

mod client;
mod error;
mod factory;
mod options;
mod rate;
mod rate_limiter;
mod schema;
mod search;
mod text;

pub use client::action_query;
pub use client::ajax_path;
pub use client::both_silent;
pub use client::classified;
pub use client::classify_body;
pub use client::deserialize;
pub use client::empty_response_marker;
pub use client::envelope_error;
pub use client::envelope_has_payload;
pub use client::envelope_status;
pub use client::envelope_wellformed;
pub use client::get_result;
pub use client::is_success_code;
pub use client::is_torrent_content_type;
pub use client::spec_is_success;
pub use client::lemma_empty_envelope_is_error;
pub use client::lemma_silent_success_returns_payload;
pub use client::lemma_message_wins_over_status;
pub use client::lemma_status_fallback;
pub use client::lexicon_match;
pub use client::message_error_of;
pub use client::normalized_body;
pub use factory::GazelleClientFactory;
pub use factory::ALLOWED_REQUESTS_PER_DURATION;
pub use factory::REQUEST_LIMIT_DURATION;
pub use options::GazelleClientOptions;
pub use schema::ApiResponse;
pub use schema::Community;
pub use schema::Credit;
pub use schema::Credits;
pub use schema::Group;
pub use schema::GroupResponse;
pub use schema::MusicInfo;
pub use schema::Personal;
pub use schema::Torrent;
pub use schema::TorrentResponse;
pub use schema::collect_flacs;
pub use schema::entry_flac_name;
pub use schema::flacs_of;
pub use schema::split_entries;
pub use schema::NewSourceUploadArtist;
pub use schema::NewSourceUploadEdition;
pub use schema::NewSourceUploadForm;
pub use schema::artist_fields;
pub use schema::UploadForm;
pub use schema::UploadResponse;
pub use schema::preferred_id;
pub use error::GazelleError;
pub use error::message_error;
pub use error::reason_of;
pub use error::spec_message;
pub use error::status_code_text;
pub use error::status_error;
pub use rate::Rate;
pub use search::contains_sub_spec;
pub use search::strip_sub_spec;
pub use search::sub_at;
pub use text::dec_digits;
pub use text::digit_char;
pub use text::joined_comma;
pub use text::strings_view;
pub use rate_limiter::RateLimiter;
pub use rate_limiter::burst;
pub use rate_limiter::drop_stale;
pub use rate_limiter::is_fresh;
pub use rate_limiter::lemma_acquire_step_bounds;
pub use rate_limiter::lemma_burst_window;
pub use rate_limiter::lemma_drop_stale;
pub use rate_limiter::lemma_stale_all_evicted;
pub use rate_limiter::sorted_ts;
pub use rate_limiter::wait_of;
