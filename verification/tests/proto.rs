use bittower::proto::torrents::{TorrentInfo, TorrentInfoPartial, TorrentStatus};
use bittower::proto::transfer::{ConnectionStatus, ServerStateFull, ServerStatePartial};
use bittower::scalar::Scalar;
use bittower::syncstate::{ServerState, SyncState, Torrent};

fn num(x: f64) -> Scalar {
    Scalar::from_bits(x.to_bits())
}

#[test]
fn scalar_round_trip() {
    assert_eq!(f64::from_bits(num(0.75).to_bits()), 0.75);
    assert_eq!(Scalar::zero().to_bits(), 0);
    assert_eq!(Scalar::default(), Scalar::zero());
    assert_eq!(f64::from_bits(Scalar::zero().to_bits()), 0.0);
}

#[test]
fn status_wire_names() {
    assert_eq!(TorrentStatus::Error.as_str(), "error");
    assert_eq!(TorrentStatus::MissingFiles.as_str(), "missingFiles");
    assert_eq!(TorrentStatus::PausedUP.as_str(), "pausedUP");
    assert_eq!(TorrentStatus::MetaDL.as_str(), "metaDL");
    assert_eq!(TorrentStatus::CheckingResumeData.as_str(), "checkingResumeData");
    assert_eq!(TorrentStatus::Unknown.as_str(), "unknown");
    assert_eq!(ConnectionStatus::Connected.as_str(), "connected");
    assert_eq!(ConnectionStatus::Firewalled.as_str(), "firewalled");
    assert_eq!(ConnectionStatus::Disconnected.as_str(), "disconnected");
}

#[test]
fn connection_status_text_is_json_quoted() {
    assert_eq!(ConnectionStatus::Connected.to_string(), "\"connected\"");
    assert_eq!(ConnectionStatus::Firewalled.to_string(), "\"firewalled\"");
    assert_eq!(ConnectionStatus::Disconnected.to_string(), "\"disconnected\"");
    assert_eq!(ConnectionStatus::default(), ConnectionStatus::Disconnected);
}

#[test]
fn server_state_full_merge() {
    let mut s = ServerStateFull::default();
    s.dl_info_speed = num(10.0);
    s.up_rate_limit = num(5.0);
    let mut p = ServerStatePartial::unchanged();
    p.dl_info_speed = Some(num(20.0));
    p.dht_nodes = Some(num(3.0));
    p.connection_status = Some(ConnectionStatus::Connected);
    s.apply_partial(p);
    assert_eq!(s.dl_info_speed, num(20.0));
    assert_eq!(s.up_rate_limit, num(5.0));
    assert_eq!(s.dht_nodes, num(3.0));
    assert_eq!(s.dl_info_data, Scalar::zero());
    assert_eq!(s.connection_status, ConnectionStatus::Connected);
    let before = s;
    s.apply_partial(ServerStatePartial::unchanged());
    assert_eq!(s, before);
}

#[test]
fn server_state_merge_and_conversion() {
    let mut full = ServerStateFull::default();
    full.up_info_data = num(77.0);
    full.connection_status = ConnectionStatus::Firewalled;
    let mut s = ServerState::from(full);
    assert_eq!(s.up_info_data, num(77.0));
    assert_eq!(s.connection_status, ConnectionStatus::Firewalled);
    let mut p = ServerStatePartial::unchanged();
    p.up_info_data = Some(num(78.0));
    s.apply_partial(p);
    assert_eq!(s.up_info_data, num(78.0));
    assert_eq!(s.connection_status, ConnectionStatus::Firewalled);
    assert_eq!(ServerState::default().connection_status, ConnectionStatus::Disconnected);
}

#[test]
fn torrent_from_info_projects_fields() {
    let mut info = TorrentInfo::default();
    info.infohash_v1 = "abc".to_string();
    info.name = "n".to_string();
    info.progress = num(0.5);
    info.downloaded = num(1.0);
    info.uploaded = num(2.0);
    info.dlspeed = num(3.0);
    info.upspeed = num(4.0);
    info.num_seeds = num(5.0);
    info.num_leechs = num(6.0);
    info.size = num(7.0);
    info.total_size = num(8.0);
    info.availability = num(0.9);
    info.eta = num(10.0);
    info.state = TorrentStatus::Uploading;
    info.category = "ignored".to_string();
    let by_ref = Torrent::from_info(&info);
    let t = Torrent::from(info);
    assert!(t == by_ref);
    assert_eq!(t.infohash_v1, "abc");
    assert_eq!(t.name, "n");
    assert_eq!(t.progress, num(0.5));
    assert_eq!(t.downloaded, num(1.0));
    assert_eq!(t.uploaded, num(2.0));
    assert_eq!(t.dlspeed, num(3.0));
    assert_eq!(t.upspeed, num(4.0));
    assert_eq!(t.num_seeds, num(5.0));
    assert_eq!(t.num_leechs, num(6.0));
    assert_eq!(t.size, num(7.0));
    assert_eq!(t.total_size, num(8.0));
    assert_eq!(t.availability, num(0.9));
    assert_eq!(t.eta, num(10.0));
    assert_eq!(t.state, TorrentStatus::Uploading);
}

#[test]
fn torrent_merge_example() {
    let mut t = Torrent::default();
    t.progress = num(0.5);
    t.dlspeed = num(100.0);
    let mut p = TorrentInfoPartial::unchanged();
    p.progress = Some(num(0.75));
    t.apply_partial(p);
    assert_eq!(t.progress, num(0.75));
    assert_eq!(t.dlspeed, num(100.0));
    let mut expected = Torrent::default();
    expected.progress = num(0.75);
    expected.dlspeed = num(100.0);
    assert!(t == expected);
    t.apply_partial(TorrentInfoPartial::unchanged());
    assert!(t == expected);
}

#[test]
fn torrent_merge_every_field() {
    let mut t = Torrent::default();
    t.infohash_v1 = "h".to_string();
    let p = TorrentInfoPartial {
        name: Some("x".to_string()),
        progress: Some(num(1.0)),
        downloaded: Some(num(2.0)),
        uploaded: Some(num(3.0)),
        dlspeed: Some(num(4.0)),
        upspeed: Some(num(5.0)),
        num_seeds: Some(num(6.0)),
        num_leechs: Some(num(7.0)),
        size: Some(num(8.0)),
        total_size: Some(num(9.0)),
        availability: Some(num(10.0)),
        eta: Some(num(11.0)),
        state: Some(TorrentStatus::Moving),
    };
    t.apply_partial(p);
    assert_eq!(t.infohash_v1, "h");
    assert_eq!(t.name, "x");
    assert_eq!(t.progress, num(1.0));
    assert_eq!(t.downloaded, num(2.0));
    assert_eq!(t.uploaded, num(3.0));
    assert_eq!(t.dlspeed, num(4.0));
    assert_eq!(t.upspeed, num(5.0));
    assert_eq!(t.num_seeds, num(6.0));
    assert_eq!(t.num_leechs, num(7.0));
    assert_eq!(t.size, num(8.0));
    assert_eq!(t.total_size, num(9.0));
    assert_eq!(t.availability, num(10.0));
    assert_eq!(t.eta, num(11.0));
    assert_eq!(t.state, TorrentStatus::Moving);
}

#[test]
fn empty_states_are_equal() {
    assert!(SyncState::default() == SyncState::default());
}
