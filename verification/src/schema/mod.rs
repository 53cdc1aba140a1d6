pub use api_response::ApiResponse;
pub use credit::Credit;
pub use credits::Credits;
pub use group::Group;
pub use group_response::GroupResponse;
pub use music_info::MusicInfo;
pub use new_source_upload_form::NewSourceUploadArtist;
pub use new_source_upload_form::NewSourceUploadEdition;
pub use new_source_upload_form::NewSourceUploadForm;
pub use new_source_upload_form::artist_fields;
pub use torrent::Torrent;
pub use torrent::collect_flacs;
pub use torrent::entry_flac_name;
pub use torrent::flacs_of;
pub use torrent::split_entries;
pub use torrent_response::TorrentResponse;
pub use upload_form::UploadForm;
pub use upload_response::UploadResponse;
pub use upload_response::preferred_id;
pub use user::Community;
pub use user::Personal;

mod api_response;
mod credit;
mod credits;
mod group;
mod group_response;
mod music_info;
mod new_source_upload_form;
mod torrent;
mod torrent_response;
mod upload_form;
mod upload_response;
mod user;
