//! Per-torrent records.

use crate::proto::{overlaid, overlay};
use crate::scalar::Scalar;
use vstd::prelude::*;

verus! {

/// The state a torrent is in, as the backend reports it.
#[derive(Clone, Copy, Debug, PartialEq, Eq, Structural)]
pub enum TorrentStatus {
    /// Some error occurred, applies to paused torrents.
    Error,
    /// Torrent data files is missing.
    MissingFiles,
    /// Torrent is being seeded and data is being transferred.
    Uploading,
    /// Torrent is paused and has finished downloading.
    PausedUP,
    /// Queuing is enabled and torrent is queued for upload.
    QueuedUP,
    /// Torrent is being seeded, but no connection were made.
    StalledUP,
    /// Torrent has finished downloading and is being checked.
    CheckingUP,
    /// Torrent is forced to uploading and ignore queue limit.
    ForcedUP,
    /// Torrent is allocating disk space for download.
    Allocating,
    /// Torrent is being downloaded and data is being transferred.
    Downloading,
    /// Torrent has just started downloading and is fetching metadata.
    MetaDL,
    /// Torrent is paused and has NOT finished downloading.
    PausedDL,
    /// Queuing is enabled and torrent is queued for download.
    QueuedDL,
    /// Torrent is being downloaded, but no connection were made.
    StalledDL,
    /// Same as checkingUP, but torrent has NOT finished downloading.
    CheckingDL,
    /// Torrent is forced to downloading to ignore queue limit.
    ForcedDL,
    /// Checking resume data on backend startup.
    CheckingResumeData,
    /// Torrent is moving to another location.
    Moving,
    /// Unknown status.
    Unknown,
}

impl TorrentStatus {
    /// The name the backend uses for the state on the wire.
    pub open spec fn name(self) -> Seq<char> {
        match self {
            TorrentStatus::Error => "error"@,
            TorrentStatus::MissingFiles => "missingFiles"@,
            TorrentStatus::Uploading => "uploading"@,
            TorrentStatus::PausedUP => "pausedUP"@,
            TorrentStatus::QueuedUP => "queuedUP"@,
            TorrentStatus::StalledUP => "stalledUP"@,
            TorrentStatus::CheckingUP => "checkingUP"@,
            TorrentStatus::ForcedUP => "forcedUP"@,
            TorrentStatus::Allocating => "allocating"@,
            TorrentStatus::Downloading => "downloading"@,
            TorrentStatus::MetaDL => "metaDL"@,
            TorrentStatus::PausedDL => "pausedDL"@,
            TorrentStatus::QueuedDL => "queuedDL"@,
            TorrentStatus::StalledDL => "stalledDL"@,
            TorrentStatus::CheckingDL => "checkingDL"@,
            TorrentStatus::ForcedDL => "forcedDL"@,
            TorrentStatus::CheckingResumeData => "checkingResumeData"@,
            TorrentStatus::Moving => "moving"@,
            TorrentStatus::Unknown => "unknown"@,
        }
    }

    /// The wire name of the state.
    pub fn as_str(&self) -> (s: &'static str)
        ensures
            s@ == self.name(),
    {
        match self {
            TorrentStatus::Error => "error",
            TorrentStatus::MissingFiles => "missingFiles",
            TorrentStatus::Uploading => "uploading",
            TorrentStatus::PausedUP => "pausedUP",
            TorrentStatus::QueuedUP => "queuedUP",
            TorrentStatus::StalledUP => "stalledUP",
            TorrentStatus::CheckingUP => "checkingUP",
            TorrentStatus::ForcedUP => "forcedUP",
            TorrentStatus::Allocating => "allocating",
            TorrentStatus::Downloading => "downloading",
            TorrentStatus::MetaDL => "metaDL",
            TorrentStatus::PausedDL => "pausedDL",
            TorrentStatus::QueuedDL => "queuedDL",
            TorrentStatus::StalledDL => "stalledDL",
            TorrentStatus::CheckingDL => "checkingDL",
            TorrentStatus::ForcedDL => "forcedDL",
            TorrentStatus::CheckingResumeData => "checkingResumeData",
            TorrentStatus::Moving => "moving",
            TorrentStatus::Unknown => "unknown",
        }
    }
}

/// The short form of a torrent record.
#[derive(Clone, Debug)]
pub struct TorrentSummary {
    pub name: String,
    pub infohash_v1: String,
    pub progress: Scalar,
    pub state: TorrentStatus,
}

/// The mathematical value of a [`TorrentSummary`]: each string by its characters.
pub struct TorrentSummaryView {
    pub name: Seq<char>,
    pub infohash_v1: Seq<char>,
    pub progress: Scalar,
    pub state: TorrentStatus,
}

impl View for TorrentSummary {
    type V = TorrentSummaryView;

    open spec fn view(&self) -> TorrentSummaryView {
        TorrentSummaryView {
            name: self.name@,
            infohash_v1: self.infohash_v1@,
            progress: self.progress,
            state: self.state,
        }
    }
}

/// A delta of a [`TorrentSummary`]: `None` marks a field as unchanged.
#[derive(Clone, Debug)]
pub struct TorrentSummaryPartial {
    pub name: Option<String>,
    pub infohash_v1: Option<String>,
    pub progress: Option<Scalar>,
    pub state: Option<TorrentStatus>,
}

/// The mathematical value of a [`TorrentSummaryPartial`]: each string by its characters.
pub struct TorrentSummaryPartialView {
    pub name: Option<Seq<char>>,
    pub infohash_v1: Option<Seq<char>>,
    pub progress: Option<Scalar>,
    pub state: Option<TorrentStatus>,
}

impl View for TorrentSummaryPartial {
    type V = TorrentSummaryPartialView;

    open spec fn view(&self) -> TorrentSummaryPartialView {
        TorrentSummaryPartialView {
            name: match self.name { Some(s) => Some(s@), None => None },
            infohash_v1: match self.infohash_v1 { Some(s) => Some(s@), None => None },
            progress: self.progress,
            state: self.state,
        }
    }
}

/// Everything the backend reports of one torrent.
#[derive(Clone, Debug)]
pub struct TorrentInfo {
    /// Time (Unix Epoch) when the torrent was added to the client.
    pub added_on: Scalar,
    /// Amount of data left to download (bytes).
    pub amount_left: Scalar,
    /// Whether this torrent is managed by Automatic Torrent Management.
    pub auto_tmm: bool,
    /// Share of file pieces currently available.
    pub availability: Scalar,
    /// Category of the torrent.
    pub category: String,
    /// Amount of transfer data completed (bytes).
    pub completed: Scalar,
    /// Time (Unix Epoch) when the torrent completed.
    pub completion_on: Scalar,
    /// Absolute path of torrent content.
    pub content_path: String,
    /// Torrent download speed limit (bytes/s), -1 if unlimited.
    pub dl_limit: Scalar,
    /// Torrent download speed (bytes/s).
    pub dlspeed: Scalar,
    /// Amount of data downloaded.
    pub downloaded: Scalar,
    /// Amount of data downloaded this session.
    pub downloaded_session: Scalar,
    /// Torrent ETA (seconds).
    pub eta: Scalar,
    /// Torrent hash.
    pub infohash_v1: String,
    /// True if first and last piece are prioritized.
    pub f_l_piece_prio: bool,
    /// True if force start is enabled for this torrent.
    pub force_start: bool,
    /// Last time (Unix Epoch) when a chunk was downloaded or uploaded.
    pub last_activity: Scalar,
    /// Magnet URI corresponding to this torrent.
    pub magnet_uri: String,
    /// Maximum share ratio until torrent is stopped from seeding.
    pub max_ratio: Scalar,
    /// Maximum seeding time (seconds) until torrent is stopped from seeding.
    pub max_seeding_time: Scalar,
    /// Torrent name.
    pub name: String,
    /// Number of seeds in the swarm.
    pub num_complete: Scalar,
    /// Number of leechers in the swarm.
    pub num_incomplete: Scalar,
    /// Number of leechers connected to.
    pub num_leechs: Scalar,
    /// Number of seeds connected to.
    pub num_seeds: Scalar,
    /// Torrent priority, -1 if queuing is disabled or the torrent is in seed mode.
    pub priority: Scalar,
    /// Torrent progress (fraction of 1).
    pub progress: Scalar,
    /// Torrent share ratio, at most 9999.
    pub ratio: Scalar,
    /// Per-torrent share ratio limit.
    pub ratio_limit: Scalar,
    /// Path where this torrent's data is stored.
    pub save_path: String,
    /// Torrent elapsed time while complete (seconds).
    pub seeding_time: Scalar,
    /// Per-torrent seeding time limit.
    pub seeding_time_limit: Scalar,
    /// Time (Unix Epoch) when this torrent was last seen complete.
    pub seen_complete: Scalar,
    /// True if sequential download is enabled.
    pub seq_dl: bool,
    /// Total size (bytes) of files selected for download.
    pub size: Scalar,
    /// Torrent state.
    pub state: TorrentStatus,
    /// True if super seeding is enabled.
    pub super_seeding: bool,
    /// Comma-concatenated tag list of the torrent.
    pub tags: String,
    /// Total active time (seconds).
    pub time_active: Scalar,
    /// Total size (bytes) of all files in this torrent.
    pub total_size: Scalar,
    /// The first tracker with working status, empty if none is working.
    pub tracker: String,
    /// Torrent upload speed limit (bytes/s), -1 if unlimited.
    pub up_limit: Scalar,
    /// Amount of data uploaded.
    pub uploaded: Scalar,
    /// Amount of data uploaded this session.
    pub uploaded_session: Scalar,
    /// Torrent upload speed (bytes/s).
    pub upspeed: Scalar,
}

/// The mathematical value of a [`TorrentInfo`]: each string by its characters.
pub struct TorrentInfoView {
    pub added_on: Scalar,
    pub amount_left: Scalar,
    pub auto_tmm: bool,
    pub availability: Scalar,
    pub category: Seq<char>,
    pub completed: Scalar,
    pub completion_on: Scalar,
    pub content_path: Seq<char>,
    pub dl_limit: Scalar,
    pub dlspeed: Scalar,
    pub downloaded: Scalar,
    pub downloaded_session: Scalar,
    pub eta: Scalar,
    pub infohash_v1: Seq<char>,
    pub f_l_piece_prio: bool,
    pub force_start: bool,
    pub last_activity: Scalar,
    pub magnet_uri: Seq<char>,
    pub max_ratio: Scalar,
    pub max_seeding_time: Scalar,
    pub name: Seq<char>,
    pub num_complete: Scalar,
    pub num_incomplete: Scalar,
    pub num_leechs: Scalar,
    pub num_seeds: Scalar,
    pub priority: Scalar,
    pub progress: Scalar,
    pub ratio: Scalar,
    pub ratio_limit: Scalar,
    pub save_path: Seq<char>,
    pub seeding_time: Scalar,
    pub seeding_time_limit: Scalar,
    pub seen_complete: Scalar,
    pub seq_dl: bool,
    pub size: Scalar,
    pub state: TorrentStatus,
    pub super_seeding: bool,
    pub tags: Seq<char>,
    pub time_active: Scalar,
    pub total_size: Scalar,
    pub tracker: Seq<char>,
    pub up_limit: Scalar,
    pub uploaded: Scalar,
    pub uploaded_session: Scalar,
    pub upspeed: Scalar,
}

impl View for TorrentInfo {
    type V = TorrentInfoView;

    open spec fn view(&self) -> TorrentInfoView {
        TorrentInfoView {
            added_on: self.added_on,
            amount_left: self.amount_left,
            auto_tmm: self.auto_tmm,
            availability: self.availability,
            category: self.category@,
            completed: self.completed,
            completion_on: self.completion_on,
            content_path: self.content_path@,
            dl_limit: self.dl_limit,
            dlspeed: self.dlspeed,
            downloaded: self.downloaded,
            downloaded_session: self.downloaded_session,
            eta: self.eta,
            infohash_v1: self.infohash_v1@,
            f_l_piece_prio: self.f_l_piece_prio,
            force_start: self.force_start,
            last_activity: self.last_activity,
            magnet_uri: self.magnet_uri@,
            max_ratio: self.max_ratio,
            max_seeding_time: self.max_seeding_time,
            name: self.name@,
            num_complete: self.num_complete,
            num_incomplete: self.num_incomplete,
            num_leechs: self.num_leechs,
            num_seeds: self.num_seeds,
            priority: self.priority,
            progress: self.progress,
            ratio: self.ratio,
            ratio_limit: self.ratio_limit,
            save_path: self.save_path@,
            seeding_time: self.seeding_time,
            seeding_time_limit: self.seeding_time_limit,
            seen_complete: self.seen_complete,
            seq_dl: self.seq_dl,
            size: self.size,
            state: self.state,
            super_seeding: self.super_seeding,
            tags: self.tags@,
            time_active: self.time_active,
            total_size: self.total_size,
            tracker: self.tracker@,
            up_limit: self.up_limit,
            uploaded: self.uploaded,
            uploaded_session: self.uploaded_session,
            upspeed: self.upspeed,
        }
    }
}


impl TorrentInfoView {
    /// The record of a torrent of which nothing is known: every text empty,
    /// every quantity zero, every flag off, the state unknown.
    pub open spec fn blank() -> TorrentInfoView {
        TorrentInfoView {
            added_on: Scalar { bits: 0 },
            amount_left: Scalar { bits: 0 },
            auto_tmm: false,
            availability: Scalar { bits: 0 },
            category: Seq::empty(),
            completed: Scalar { bits: 0 },
            completion_on: Scalar { bits: 0 },
            content_path: Seq::empty(),
            dl_limit: Scalar { bits: 0 },
            dlspeed: Scalar { bits: 0 },
            downloaded: Scalar { bits: 0 },
            downloaded_session: Scalar { bits: 0 },
            eta: Scalar { bits: 0 },
            infohash_v1: Seq::empty(),
            f_l_piece_prio: false,
            force_start: false,
            last_activity: Scalar { bits: 0 },
            magnet_uri: Seq::empty(),
            max_ratio: Scalar { bits: 0 },
            max_seeding_time: Scalar { bits: 0 },
            name: Seq::empty(),
            num_complete: Scalar { bits: 0 },
            num_incomplete: Scalar { bits: 0 },
            num_leechs: Scalar { bits: 0 },
            num_seeds: Scalar { bits: 0 },
            priority: Scalar { bits: 0 },
            progress: Scalar { bits: 0 },
            ratio: Scalar { bits: 0 },
            ratio_limit: Scalar { bits: 0 },
            save_path: Seq::empty(),
            seeding_time: Scalar { bits: 0 },
            seeding_time_limit: Scalar { bits: 0 },
            seen_complete: Scalar { bits: 0 },
            seq_dl: false,
            size: Scalar { bits: 0 },
            state: TorrentStatus::Unknown,
            super_seeding: false,
            tags: Seq::empty(),
            time_active: Scalar { bits: 0 },
            total_size: Scalar { bits: 0 },
            tracker: Seq::empty(),
            up_limit: Scalar { bits: 0 },
            uploaded: Scalar { bits: 0 },
            uploaded_session: Scalar { bits: 0 },
            upspeed: Scalar { bits: 0 },
        }
    }
}

impl Default for TorrentInfo {
    fn default() -> (info: TorrentInfo)
        ensures
            info@ == TorrentInfoView::blank(),
    {
        TorrentInfo {
            added_on: Scalar::zero(),
            amount_left: Scalar::zero(),
            auto_tmm: false,
            availability: Scalar::zero(),
            category: String::new(),
            completed: Scalar::zero(),
            completion_on: Scalar::zero(),
            content_path: String::new(),
            dl_limit: Scalar::zero(),
            dlspeed: Scalar::zero(),
            downloaded: Scalar::zero(),
            downloaded_session: Scalar::zero(),
            eta: Scalar::zero(),
            infohash_v1: String::new(),
            f_l_piece_prio: false,
            force_start: false,
            last_activity: Scalar::zero(),
            magnet_uri: String::new(),
            max_ratio: Scalar::zero(),
            max_seeding_time: Scalar::zero(),
            name: String::new(),
            num_complete: Scalar::zero(),
            num_incomplete: Scalar::zero(),
            num_leechs: Scalar::zero(),
            num_seeds: Scalar::zero(),
            priority: Scalar::zero(),
            progress: Scalar::zero(),
            ratio: Scalar::zero(),
            ratio_limit: Scalar::zero(),
            save_path: String::new(),
            seeding_time: Scalar::zero(),
            seeding_time_limit: Scalar::zero(),
            seen_complete: Scalar::zero(),
            seq_dl: false,
            size: Scalar::zero(),
            state: TorrentStatus::Unknown,
            super_seeding: false,
            tags: String::new(),
            time_active: Scalar::zero(),
            total_size: Scalar::zero(),
            tracker: String::new(),
            up_limit: Scalar::zero(),
            uploaded: Scalar::zero(),
            uploaded_session: Scalar::zero(),
            upspeed: Scalar::zero(),
        }
    }
}

/// A delta of a torrent record: `None` marks a field as unchanged.
#[derive(Clone, Debug)]
pub struct TorrentInfoPartial {
    pub name: Option<String>,
    pub progress: Option<Scalar>,
    pub downloaded: Option<Scalar>,
    pub uploaded: Option<Scalar>,
    pub dlspeed: Option<Scalar>,
    pub upspeed: Option<Scalar>,
    pub num_seeds: Option<Scalar>,
    pub num_leechs: Option<Scalar>,
    pub size: Option<Scalar>,
    pub total_size: Option<Scalar>,
    pub availability: Option<Scalar>,
    pub eta: Option<Scalar>,
    pub state: Option<TorrentStatus>,
}

/// The mathematical value of a [`TorrentInfoPartial`]: each string by its characters.
pub struct TorrentInfoPartialView {
    pub name: Option<Seq<char>>,
    pub progress: Option<Scalar>,
    pub downloaded: Option<Scalar>,
    pub uploaded: Option<Scalar>,
    pub dlspeed: Option<Scalar>,
    pub upspeed: Option<Scalar>,
    pub num_seeds: Option<Scalar>,
    pub num_leechs: Option<Scalar>,
    pub size: Option<Scalar>,
    pub total_size: Option<Scalar>,
    pub availability: Option<Scalar>,
    pub eta: Option<Scalar>,
    pub state: Option<TorrentStatus>,
}

impl View for TorrentInfoPartial {
    type V = TorrentInfoPartialView;

    open spec fn view(&self) -> TorrentInfoPartialView {
        TorrentInfoPartialView {
            name: match self.name { Some(s) => Some(s@), None => None },
            progress: self.progress,
            downloaded: self.downloaded,
            uploaded: self.uploaded,
            dlspeed: self.dlspeed,
            upspeed: self.upspeed,
            num_seeds: self.num_seeds,
            num_leechs: self.num_leechs,
            size: self.size,
            total_size: self.total_size,
            availability: self.availability,
            eta: self.eta,
            state: self.state,
        }
    }
}

impl TorrentInfoPartial {
    /// The delta that changes nothing.
    pub fn unchanged() -> (p: TorrentInfoPartial)
        ensures
            p@ == (TorrentInfoPartialView {
                name: None,
                progress: None,
                downloaded: None,
                uploaded: None,
                dlspeed: None,
                upspeed: None,
                num_seeds: None,
                num_leechs: None,
                size: None,
                total_size: None,
                availability: None,
                eta: None,
                state: None,
            }),
    {
        TorrentInfoPartial {
            name: None,
            progress: None,
            downloaded: None,
            uploaded: None,
            dlspeed: None,
            upspeed: None,
            num_seeds: None,
            num_leechs: None,
            size: None,
            total_size: None,
            availability: None,
            eta: None,
            state: None,
        }
    }
}

impl TorrentInfoView {
    /// The record after `partial` is merged in: every field that the delta
    /// names is overwritten, every other field is kept.
    pub open spec fn merged(self, partial: TorrentInfoPartialView) -> TorrentInfoView {
        TorrentInfoView {
            availability: overlay(self.availability, partial.availability),
            dlspeed: overlay(self.dlspeed, partial.dlspeed),
            downloaded: overlay(self.downloaded, partial.downloaded),
            eta: overlay(self.eta, partial.eta),
            name: overlay(self.name, partial.name),
            num_leechs: overlay(self.num_leechs, partial.num_leechs),
            num_seeds: overlay(self.num_seeds, partial.num_seeds),
            progress: overlay(self.progress, partial.progress),
            size: overlay(self.size, partial.size),
            state: overlay(self.state, partial.state),
            total_size: overlay(self.total_size, partial.total_size),
            uploaded: overlay(self.uploaded, partial.uploaded),
            upspeed: overlay(self.upspeed, partial.upspeed),
            ..self
        }
    }
}

impl TorrentInfo {
    /// Overwrites every field that `partial` names and leaves the others.
    pub fn apply_partial(&mut self, partial: TorrentInfoPartial)
        ensures
            final(self)@ == old(self)@.merged(partial@),
    {
        if let Some(new_value) = partial.name {
            self.name = new_value;
        }
        self.progress = overlaid(self.progress, partial.progress);
        self.downloaded = overlaid(self.downloaded, partial.downloaded);
        self.uploaded = overlaid(self.uploaded, partial.uploaded);
        self.dlspeed = overlaid(self.dlspeed, partial.dlspeed);
        self.upspeed = overlaid(self.upspeed, partial.upspeed);
        self.num_seeds = overlaid(self.num_seeds, partial.num_seeds);
        self.num_leechs = overlaid(self.num_leechs, partial.num_leechs);
        self.size = overlaid(self.size, partial.size);
        self.total_size = overlaid(self.total_size, partial.total_size);
        self.availability = overlaid(self.availability, partial.availability);
        self.eta = overlaid(self.eta, partial.eta);
        self.state = overlaid(self.state, partial.state);
    }
}

} // verus!
