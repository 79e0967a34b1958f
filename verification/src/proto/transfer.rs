//! Global transfer statistics.

use crate::proto::overlay;
use crate::scalar::Scalar;
use vstd::prelude::*;

verus! {

/// How the backend reaches its peers.
#[derive(Clone, Copy, Debug, PartialEq, Eq, Structural)]
pub enum ConnectionStatus {
    Connected,
    Firewalled,
    Disconnected,
}

impl ConnectionStatus {
    /// The name the backend uses for the status on the wire.
    pub open spec fn name(self) -> Seq<char> {
        match self {
            ConnectionStatus::Connected => "connected"@,
            ConnectionStatus::Firewalled => "firewalled"@,
            ConnectionStatus::Disconnected => "disconnected"@,
        }
    }

    /// The status as a JSON string literal: its wire name between double
    /// quotes.
    pub open spec fn quoted(self) -> Seq<char> {
        match self {
            ConnectionStatus::Connected => "\"connected\""@,
            ConnectionStatus::Firewalled => "\"firewalled\""@,
            ConnectionStatus::Disconnected => "\"disconnected\""@,
        }
    }

    /// The wire name of the status.
    pub fn as_str(&self) -> (s: &'static str)
        ensures
            s@ == self.name(),
    {
        match self {
            ConnectionStatus::Connected => "connected",
            ConnectionStatus::Firewalled => "firewalled",
            ConnectionStatus::Disconnected => "disconnected",
        }
    }

    /// The text shown for the status: its JSON encoding, quotes included.
    pub fn to_string(&self) -> (s: String)
        ensures
            s@ == self.quoted(),
    {
        match self {
            ConnectionStatus::Connected => "\"connected\"".to_owned(),
            ConnectionStatus::Firewalled => "\"firewalled\"".to_owned(),
            ConnectionStatus::Disconnected => "\"disconnected\"".to_owned(),
        }
    }
}

impl Default for ConnectionStatus {
    fn default() -> (r: ConnectionStatus)
        ensures
            r == ConnectionStatus::Disconnected,
    {
        ConnectionStatus::Disconnected
    }
}

/// The complete global statistics, as a full frame carries them.
#[derive(Clone, Copy, Debug, PartialEq, Eq, Structural)]
pub struct ServerStateFull {
    /// Global download rate (bytes/s).
    pub dl_info_speed: Scalar,
    /// Data downloaded this session (bytes).
    pub dl_info_data: Scalar,
    /// Global upload rate (bytes/s).
    pub up_info_speed: Scalar,
    /// Data uploaded this session (bytes).
    pub up_info_data: Scalar,
    /// Download rate limit (bytes/s).
    pub dl_rate_limit: Scalar,
    /// Upload rate limit (bytes/s).
    pub up_rate_limit: Scalar,
    /// DHT nodes connected to.
    pub dht_nodes: Scalar,
    /// Connection status.
    pub connection_status: ConnectionStatus,
}

/// A delta of the global statistics: `None` marks a field as unchanged.
#[derive(Clone, Copy, Debug, PartialEq, Eq)]
pub struct ServerStatePartial {
    pub dl_info_speed: Option<Scalar>,
    pub dl_info_data: Option<Scalar>,
    pub up_info_speed: Option<Scalar>,
    pub up_info_data: Option<Scalar>,
    pub dl_rate_limit: Option<Scalar>,
    pub up_rate_limit: Option<Scalar>,
    pub dht_nodes: Option<Scalar>,
    pub connection_status: Option<ConnectionStatus>,
}

impl ServerStatePartial {
    /// The delta that changes nothing.
    pub fn unchanged() -> (p: ServerStatePartial)
        ensures
            p == (ServerStatePartial {
                dl_info_speed: None,
                dl_info_data: None,
                up_info_speed: None,
                up_info_data: None,
                dl_rate_limit: None,
                up_rate_limit: None,
                dht_nodes: None,
                connection_status: None,
            }),
    {
        ServerStatePartial {
            dl_info_speed: None,
            dl_info_data: None,
            up_info_speed: None,
            up_info_data: None,
            dl_rate_limit: None,
            up_rate_limit: None,
            dht_nodes: None,
            connection_status: None,
        }
    }
}

impl ServerStateFull {
    /// The statistics after `partial` is merged in, field by field.
    pub open spec fn merged(self, partial: ServerStatePartial) -> ServerStateFull {
        ServerStateFull {
            dl_info_speed: overlay(self.dl_info_speed, partial.dl_info_speed),
            dl_info_data: overlay(self.dl_info_data, partial.dl_info_data),
            up_info_speed: overlay(self.up_info_speed, partial.up_info_speed),
            up_info_data: overlay(self.up_info_data, partial.up_info_data),
            dl_rate_limit: overlay(self.dl_rate_limit, partial.dl_rate_limit),
            up_rate_limit: overlay(self.up_rate_limit, partial.up_rate_limit),
            dht_nodes: overlay(self.dht_nodes, partial.dht_nodes),
            connection_status: overlay(self.connection_status, partial.connection_status),
        }
    }

    /// Overwrites every field that `partial` names and leaves the others.
    pub fn apply_partial(&mut self, partial: ServerStatePartial)
        ensures
            *final(self) == old(self).merged(partial),
    {
        if let Some(cs) = partial.connection_status {
            self.connection_status = cs;
        }
        if let Some(v) = partial.dl_info_speed {
            self.dl_info_speed = v;
        }
        if let Some(v) = partial.up_info_speed {
            self.up_info_speed = v;
        }
        if let Some(v) = partial.dl_info_data {
            self.dl_info_data = v;
        }
        if let Some(v) = partial.up_info_data {
            self.up_info_data = v;
        }
        if let Some(v) = partial.dl_rate_limit {
            self.dl_rate_limit = v;
        }
        if let Some(v) = partial.up_rate_limit {
            self.up_rate_limit = v;
        }
        if let Some(v) = partial.dht_nodes {
            self.dht_nodes = v;
        }
    }
}

impl ServerStateFull {
    /// The statistics before anything is known: every quantity zero, the
    /// backend disconnected.
    pub open spec fn default_value() -> ServerStateFull {
        ServerStateFull {
            dl_info_speed: Scalar { bits: 0 },
            dl_info_data: Scalar { bits: 0 },
            up_info_speed: Scalar { bits: 0 },
            up_info_data: Scalar { bits: 0 },
            dl_rate_limit: Scalar { bits: 0 },
            up_rate_limit: Scalar { bits: 0 },
            dht_nodes: Scalar { bits: 0 },
            connection_status: ConnectionStatus::Disconnected,
        }
    }
}

impl Default for ServerStateFull {
    fn default() -> (r: ServerStateFull)
        ensures
            r == ServerStateFull::default_value(),
    {
        ServerStateFull {
            dl_info_speed: Scalar::zero(),
            dl_info_data: Scalar::zero(),
            up_info_speed: Scalar::zero(),
            up_info_data: Scalar::zero(),
            dl_rate_limit: Scalar::zero(),
            up_rate_limit: Scalar::zero(),
            dht_nodes: Scalar::zero(),
            connection_status: ConnectionStatus::Disconnected,
        }
    }
}

} // verus!
