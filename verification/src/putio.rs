//! The library's model of the remote download service's data: transfers, the
//! account, and file listings. The unverified shell deserializes the service's
//! JSON responses into its own copies of these shapes and converts.

use vstd::prelude::*;

verus! {

/// Status a remote transfer reports.
#[derive(Debug, Clone, Copy, PartialEq, Eq, Structural)]
pub enum PutIOTransferStatus {
    InQueue,
    Waiting,
    PreparingDownload,
    Downloading,
    Completing,
    Seeding,
    Completed,
    Error,
}

/// Kind of a remote transfer.
#[derive(Debug, Clone, Copy, PartialEq, Eq, Structural)]
pub enum PutIOTransferType {
    Torrent,
    Url,
    Playlist,
    LiveStream,
    NA,
}

/// One remote transfer, reduced to the attributes the pipeline reads.
#[derive(Debug, Clone)]
pub struct PutIOTransfer {
    pub id: u64,
    pub name: String,
    pub status: PutIOTransferStatus,
    pub file_id: Option<u64>,
    pub hash: Option<String>,
    pub save_parent_id: Option<u64>,
}

impl PutIOTransfer {
    /// A transfer is downloadable once the remote side exposes a root file id.
    pub fn is_downloadable(&self) -> (r: bool)
        ensures
            r == self.file_id is Some,
    {
        self.file_id.is_some()
    }
}

/// Response shape of the remote transfer-list call.
pub struct ListTransferResponse {
    pub transfers: Vec<PutIOTransfer>,
}

/// Response shape of the remote get-transfer call.
pub struct GetTransferResponse {
    pub transfer: PutIOTransfer,
}

/// Account identity returned by the out-of-band token flow.
#[derive(Debug, Clone)]
pub struct PutIOAccountInfo {
    pub username: String,
    pub mail: String,
    pub account_active: bool,
}

/// Envelope around [`PutIOAccountInfo`].
pub struct PutIOAccountResponse {
    pub info: PutIOAccountInfo,
}

/// Disk usage of the remote account.
#[derive(Debug, Clone, Copy)]
pub struct Disk {
    pub avail: u64,
    pub size: u64,
    pub used: u64,
}

/// Remote account settings.
#[derive(Debug, Clone)]
pub struct Settings {
    pub beta_user: bool,
    pub callback_url: Option<String>,
    pub dark_theme: bool,
    pub default_download_folder: u32,
    pub dont_autoselect_subtitles: bool,
    pub fluid_layout: bool,
    pub hide_subtitles: bool,
    pub history_enabled: bool,
    pub is_invisible: bool,
    pub locale: Option<String>,
    pub login_mails_enabled: bool,
    pub next_episode: bool,
    pub pushover_token: Option<String>,
    pub show_optimistic_usage: bool,
    pub sort_by: String,
    pub start_from: bool,
    pub subtitle_languages: Vec<String>,
    pub theater_mode: bool,
    pub theme: String,
    pub transfer_sort_by: Option<String>,
    pub trash_enabled: bool,
    pub tunnel_route_name: String,
    pub two_factor_enabled: bool,
    pub use_private_download_ip: bool,
    pub use_start_from: bool,
    pub video_player: Option<String>,
}

/// Remote account details, reduced to plain values.
pub struct Info {
    pub account_active: bool,
    pub account_status: String,
    pub avatar_url: String,
    pub can_create_sub_account: bool,
    pub disk: Disk,
    pub family_owner: Option<String>,
    pub files_will_be_deleted_at: Option<String>,
    pub is_eligible_for_friend_invitation: bool,
    pub is_sub_account: bool,
    pub mail: String,
    pub monthly_bandwidth_usage: u64,
    pub password_last_changed_at: Option<String>,
    pub private_download_host_ip: Option<String>,
    pub settings: Settings,
    pub trash_size: u64,
    pub user_id: u32,
    pub username: String,
}

/// Envelope around [`Info`].
pub struct AccountInfoResponse {
    pub info: Info,
    pub status: String,
}

/// Response shape of the remote download-url call.
pub struct UrlResponse {
    pub url: String,
}

/// Response shape of the remote url call, as the files endpoint frames it.
pub struct URLResponse {
    pub url: String,
}

/// One entry of a remote folder listing.
#[derive(Debug, Clone)]
pub struct FileResponse {
    pub content_type: String,
    pub id: u64,
    pub name: String,
    pub file_type: String,
}

/// Response shape of the remote list-children call: the parent's own
/// metadata and its immediate children.
#[derive(Debug, Clone)]
pub struct ListFileResponse {
    pub files: Vec<FileResponse>,
    pub parent: FileResponse,
}

} // verus!
