//! The WiFi coordinator: a state machine over link, IP and credential
//! events, with reconnect backoff and the indicator-LED mapping.
//!
//! The coordinator decides; the surrounding task talks to the radio. Each
//! returned [`WifiAction`] names the one radio operation to perform, and
//! every outcome comes back in as the next [`NetEvent`].

use vstd::prelude::*;

use crate::retry::{spec_after_wait, ExpBackoff};

verus! {

/// Station credentials supplied through the HTTP form.
#[derive(Clone, Debug, PartialEq)]
pub struct Credentials {
    /// The network name.
    pub ssid: String,
    /// The network password.
    pub password: String,
}

impl Default for Credentials {
    /// Empty credentials.
    fn default() -> (r: Credentials)
        ensures
            r.ssid@ == Seq::<char>::empty(),
            r.password@ == Seq::<char>::empty(),
    {
        Credentials { ssid: String::new(), password: String::new() }
    }
}

/// One network found by the scan.
#[derive(Clone, Debug)]
pub struct AccessPoint {
    /// The network name.
    pub ssid: String,
    /// The network's channel.
    pub channel: u8,
}

/// The on-device access point's configuration.
#[derive(Clone, Debug)]
pub struct ApConfig {
    /// The softAP network name.
    pub ssid: String,
    /// The softAP channel.
    pub channel: u8,
}

/// A station configuration.
#[derive(Clone, Debug)]
pub struct ClientConfig {
    /// The network to join.
    pub ssid: String,
    /// The network password.
    pub password: String,
    /// The network's channel, when the scan knows it.
    pub channel: Option<u8>,
}

/// The radio's configuration.
#[derive(Clone, Debug)]
pub enum WifiConfiguration {
    /// No configuration at all.
    Unset,
    /// Only the on-device access point runs.
    AccessPoint(ApConfig),
    /// Only the station runs.
    Client(ClientConfig),
    /// The station and the on-device access point run together.
    Mixed(ClientConfig, ApConfig),
}

/// The coordinator's state.
#[derive(Copy, Clone, Debug, PartialEq, Eq, Structural)]
pub enum WifiState {
    /// Waiting for an access point to be selected.
    Unconfigured,
    /// Waiting to successfully connect to an access point.
    Connecting,
    /// Connected to an access point; IP assigned.
    Connected,
    /// Disconnected from an access point; trying to reconnect.
    Disconnected,
    /// Fell back to access-point-only after a hard failure.
    Error,
}

/// A link event from the radio's event bus.
#[derive(Copy, Clone, Debug, PartialEq, Eq, Structural)]
pub enum WifiEvent {
    /// The station associated with an access point.
    StaConnected,
    /// The station lost its association.
    StaDisconnected,
    /// A client associated with the on-device access point.
    ApStaConnected,
    /// A client left the on-device access point.
    ApStaDisconnected,
    /// Any other link event.
    Other,
}

/// An address event from the network interface.
#[derive(Copy, Clone, Debug, PartialEq, Eq, Structural)]
pub enum IpEvent {
    /// The DHCP lease was taken away.
    DhcpIpDeassigned,
    /// An address was assigned, by any means.
    Assigned,
}

/// Anything the coordinator reacts to.
#[derive(Clone, Debug)]
pub enum NetEvent {
    /// A link event.
    Wifi(WifiEvent),
    /// An address event.
    Ip(IpEvent),
    /// New credentials from the HTTP form.
    Credentials(Credentials),
    /// The armed reconnect timer fired.
    ReconnectTimer,
    /// The radio refused to start connecting.
    ConnectFailed,
}

/// The one radio operation to perform after a step.
#[derive(Clone, Debug)]
pub enum WifiAction {
    /// Nothing to do.
    Stay,
    /// Apply the coordinator's configuration (now access-point-only).
    ConfigureAccessPoint,
    /// Apply the coordinator's configuration and start connecting.
    Connect,
    /// Arm the reconnect timer for this many milliseconds, replacing any
    /// armed timer.
    ArmReconnect {
        /// Milliseconds until the reconnect attempt.
        delay_ms: u64,
    },
    /// Cancel any armed reconnect timer.
    DisarmReconnect,
}

/// Why supplied credentials were refused.
#[derive(Copy, Clone, Debug, PartialEq, Eq, Structural)]
pub enum CredentialsError {
    /// The network name exceeds the radio's bound of 32 characters.
    SsidTooLong,
    /// The password exceeds the radio's bound of 64 characters.
    PasswordTooLong,
}

/// The channel of the first scanned network with the given name.
pub open spec fn spec_find_channel(aps: Seq<AccessPoint>, ssid: Seq<char>) -> Option<u8>
    decreases aps.len(),
{
    if aps.len() == 0 {
        None
    } else if aps[0].ssid@ == ssid {
        Some(aps[0].channel)
    } else {
        spec_find_channel(aps.drop_first(), ssid)
    }
}

/// The indicator color for a state: orange while unconfigured or
/// disconnected, red on error, yellow while connecting, green when
/// connected.
pub open spec fn spec_indicator_color(s: WifiState) -> (u8, u8, u8) {
    match s {
        WifiState::Unconfigured => (255u8, 165u8, 0u8),
        WifiState::Error => (255u8, 0u8, 0u8),
        WifiState::Disconnected => (255u8, 165u8, 0u8),
        WifiState::Connecting => (255u8, 255u8, 0u8),
        WifiState::Connected => (0u8, 255u8, 0u8),
    }
}

/// The WiFi coordinator: the sole owner of the radio's configuration.
#[derive(Debug)]
pub struct EclssWifi {
    /// The coordinator's state.
    pub state: WifiState,
    /// Backoff between reconnect attempts.
    pub backoff: ExpBackoff,
    /// Whether a client is associated with the on-device access point.
    pub has_ap_client: bool,
    /// The scan's snapshot of nearby networks.
    pub access_points: Vec<AccessPoint>,
    /// The configuration the radio is meant to hold.
    pub config: WifiConfiguration,
}

/// The softAP configuration the appliance always runs.
pub fn access_point_config() -> (r: ApConfig)
    ensures
        r.ssid@ == "eclss"@,
        r.channel == 1,
{
    ApConfig { ssid: "eclss".to_owned(), channel: 1 }
}

impl EclssWifi {
    /// Build the coordinator from the saved station configuration and the
    /// scan snapshot. A saved station configuration is promoted to a mixed
    /// one so the on-device access point keeps running, and the coordinator
    /// starts connecting; with nothing readable saved, it starts
    /// access-point-only, waiting for credentials.
    pub fn new(saved: Option<WifiConfiguration>, access_points: Vec<AccessPoint>) -> (r: EclssWifi)
        ensures
            match saved {
                Some(WifiConfiguration::Client(c)) => r.config matches WifiConfiguration::Mixed(
                    rc,
                    ap,
                ) && rc == c && ap.ssid@ == "eclss"@ && ap.channel == 1,
                Some(WifiConfiguration::Unset) | None => r.config
                    matches WifiConfiguration::AccessPoint(ap) && ap.ssid@ == "eclss"@ && ap.channel
                    == 1,
                Some(other) => r.config == other,
            },
            r.state == (if r.config matches WifiConfiguration::AccessPoint(_) {
                WifiState::Unconfigured
            } else {
                WifiState::Connecting
            }),
            !r.has_ap_client,
            r.access_points == access_points,
            r.backoff.initial == 500,
            r.backoff.current == 500,
            r.backoff.max == crate::retry::DEFAULT_MAX_BACKOFF_MS,
    {
        let config = match saved {
            Some(WifiConfiguration::Client(c)) => WifiConfiguration::Mixed(
                c,
                access_point_config(),
            ),
            Some(WifiConfiguration::Unset) | None => WifiConfiguration::AccessPoint(
                access_point_config(),
            ),
            Some(other) => other,
        };
        let state = match &config {
            WifiConfiguration::AccessPoint(_) => WifiState::Unconfigured,
            _ => WifiState::Connecting,
        };
        EclssWifi {
            state,
            backoff: ExpBackoff::new(500).with_target("eclss::net"),
            has_ap_client: false,
            access_points,
            config,
        }
    }

    /// The indicator color the LED must show now.
    pub fn indicator_color(&self) -> (r: (u8, u8, u8))
        ensures
            r == spec_indicator_color(self.state),
    {
        match self.state {
            WifiState::Unconfigured => (255, 165, 0),
            WifiState::Error => (255, 0, 0),
            WifiState::Disconnected => (255, 165, 0),
            WifiState::Connecting => (255, 255, 0),
            WifiState::Connected => (0, 255, 0),
        }
    }

    /// Start-of-iteration duty: in `Error`, fall back to access-point-only
    /// and cancel any reconnect timer; in `Disconnected`, arm the reconnect
    /// timer with the current backoff delay (which then doubles, capped);
    /// every other state cancels any armed timer.
    pub fn prepare(&mut self) -> (action: WifiAction)
        ensures
            final(self).state == old(self).state,
            final(self).has_ap_client == old(self).has_ap_client,
            final(self).access_points == old(self).access_points,
            match old(self).state {
                WifiState::Error => {
                    &&& action matches WifiAction::ConfigureAccessPoint
                    &&& final(self).config matches WifiConfiguration::AccessPoint(ap) && ap.ssid@
                        == "eclss"@ && ap.channel == 1
                    &&& final(self).backoff == old(self).backoff
                },
                WifiState::Disconnected => {
                    &&& action matches WifiAction::ArmReconnect { delay_ms } && delay_ms == old(
                        self,
                    ).backoff.current
                    &&& final(self).backoff.current == spec_after_wait(
                        old(self).backoff.current,
                        old(self).backoff.max,
                    )
                    &&& final(self).backoff.initial == old(self).backoff.initial
                    &&& final(self).backoff.max == old(self).backoff.max
                    &&& final(self).config == old(self).config
                },
                _ => {
                    &&& action matches WifiAction::DisarmReconnect
                    &&& final(self).backoff == old(self).backoff
                    &&& final(self).config == old(self).config
                },
            },
    {
        match self.state {
            WifiState::Error => {
                self.config = WifiConfiguration::AccessPoint(access_point_config());
                WifiAction::ConfigureAccessPoint
            },
            WifiState::Disconnected => {
                let delay_ms = self.backoff.wait();
                WifiAction::ArmReconnect { delay_ms }
            },
            _ => WifiAction::DisarmReconnect,
        }
    }

    /// React to one event.
    ///
    /// Association moves the state to `Connecting` and resets the backoff;
    /// losing the association moves it to `Disconnected`; softAP clients are
    /// only tracked; a lost DHCP lease is a hard failure; any address
    /// assignment means `Connected`; fresh credentials reconfigure the radio
    /// and start connecting, or fail hard when malformed; the reconnect
    /// timer starts a connection attempt unless a softAP client would be cut
    /// off; a refused connect is a hard failure.
    pub fn handle_event(&mut self, ev: NetEvent) -> (action: WifiAction)
        ensures
            final(self).access_points == old(self).access_points,
            match ev {
                NetEvent::Wifi(WifiEvent::StaConnected) => {
                    &&& final(self).state == WifiState::Connecting
                    &&& final(self).backoff.current == old(self).backoff.initial
                    &&& final(self).has_ap_client == old(self).has_ap_client
                    &&& final(self).config == old(self).config
                    &&& action matches WifiAction::Stay
                },
                NetEvent::Wifi(WifiEvent::StaDisconnected) => {
                    &&& final(self).state == WifiState::Disconnected
                    &&& final(self).backoff == old(self).backoff
                    &&& final(self).has_ap_client == old(self).has_ap_client
                    &&& final(self).config == old(self).config
                    &&& action matches WifiAction::Stay
                },
                NetEvent::Wifi(WifiEvent::ApStaConnected) => {
                    &&& final(self).state == old(self).state
                    &&& final(self).backoff == old(self).backoff
                    &&& final(self).has_ap_client
                    &&& final(self).config == old(self).config
                    &&& action matches WifiAction::Stay
                },
                NetEvent::Wifi(WifiEvent::ApStaDisconnected) => {
                    &&& final(self).state == old(self).state
                    &&& final(self).backoff == old(self).backoff
                    &&& !final(self).has_ap_client
                    &&& final(self).config == old(self).config
                    &&& action matches WifiAction::Stay
                },
                NetEvent::Wifi(WifiEvent::Other) => {
                    &&& *final(self) == *old(self)
                    &&& action matches WifiAction::Stay
                },
                NetEvent::Ip(IpEvent::DhcpIpDeassigned) => {
                    &&& final(self).state == WifiState::Error
                    &&& final(self).backoff == old(self).backoff
                    &&& final(self).has_ap_client == old(self).has_ap_client
                    &&& final(self).config == old(self).config
                    &&& action matches WifiAction::Stay
                },
                NetEvent::Ip(IpEvent::Assigned) => {
                    &&& final(self).state == WifiState::Connected
                    &&& final(self).backoff == old(self).backoff
                    &&& final(self).has_ap_client == old(self).has_ap_client
                    &&& final(self).config == old(self).config
                    &&& action matches WifiAction::Stay
                },
                NetEvent::Credentials(c) => {
                    &&& final(self).backoff == old(self).backoff
                    &&& final(self).has_ap_client == old(self).has_ap_client
                    &&& if c.ssid@.len() <= 32 && c.password@.len() <= 64 {
                        &&& final(self).state == WifiState::Connecting
                        &&& action matches WifiAction::Connect
                        &&& final(self).config matches WifiConfiguration::Mixed(cc, ap) && cc.ssid@
                            == c.ssid@ && cc.password@ == c.password@ && cc.channel
                            == spec_find_channel(old(self).access_points@, c.ssid@) && ap.ssid@
                            == "eclss"@ && ap.channel == 1
                    } else {
                        &&& final(self).state == WifiState::Error
                        &&& final(self).config == old(self).config
                        &&& action matches WifiAction::Stay
                    }
                },
                NetEvent::ReconnectTimer => {
                    &&& final(self).backoff == old(self).backoff
                    &&& final(self).has_ap_client == old(self).has_ap_client
                    &&& final(self).config == old(self).config
                    &&& if old(self).has_ap_client {
                        final(self).state == old(self).state && action matches WifiAction::Stay
                    } else {
                        final(self).state == WifiState::Connecting && action
                            matches WifiAction::Connect
                    }
                },
                NetEvent::ConnectFailed => {
                    &&& final(self).state == WifiState::Error
                    &&& final(self).backoff == old(self).backoff
                    &&& final(self).has_ap_client == old(self).has_ap_client
                    &&& final(self).config == old(self).config
                    &&& action matches WifiAction::Stay
                },
            },
    {
        match ev {
            NetEvent::Wifi(WifiEvent::StaConnected) => {
                self.state = WifiState::Connecting;
                self.backoff.reset();
                WifiAction::Stay
            },
            NetEvent::Wifi(WifiEvent::StaDisconnected) => {
                self.state = WifiState::Disconnected;
                WifiAction::Stay
            },
            NetEvent::Wifi(WifiEvent::ApStaConnected) => {
                self.has_ap_client = true;
                WifiAction::Stay
            },
            NetEvent::Wifi(WifiEvent::ApStaDisconnected) => {
                self.has_ap_client = false;
                WifiAction::Stay
            },
            NetEvent::Wifi(WifiEvent::Other) => WifiAction::Stay,
            NetEvent::Ip(IpEvent::DhcpIpDeassigned) => {
                self.state = WifiState::Error;
                WifiAction::Stay
            },
            NetEvent::Ip(IpEvent::Assigned) => {
                self.state = WifiState::Connected;
                WifiAction::Stay
            },
            NetEvent::Credentials(c) => {
                match self.connect_to(c) {
                    Ok(()) => {
                        self.state = WifiState::Connecting;
                        WifiAction::Connect
                    },
                    Err(_) => {
                        self.state = WifiState::Error;
                        WifiAction::Stay
                    },
                }
            },
            NetEvent::ReconnectTimer => {
                if self.has_ap_client {
                    WifiAction::Stay
                } else {
                    self.state = WifiState::Connecting;
                    WifiAction::Connect
                }
            },
            NetEvent::ConnectFailed => {
                self.state = WifiState::Error;
                WifiAction::Stay
            },
        }
    }

    /// Adopt credentials: look the network's channel up in the scan
    /// snapshot, and set a mixed configuration keeping the on-device access
    /// point. Succeeds exactly when the name fits in 32 characters and the
    /// password in 64.
    pub fn connect_to(&mut self, credentials: Credentials) -> (r: Result<(), CredentialsError>)
        ensures
            final(self).state == old(self).state,
            final(self).backoff == old(self).backoff,
            final(self).has_ap_client == old(self).has_ap_client,
            final(self).access_points == old(self).access_points,
            match r {
                Ok(()) => {
                    &&& credentials.ssid@.len() <= 32
                    &&& credentials.password@.len() <= 64
                    &&& final(self).config matches WifiConfiguration::Mixed(cc, ap) && cc.ssid@
                        == credentials.ssid@ && cc.password@ == credentials.password@ && cc.channel
                        == spec_find_channel(old(self).access_points@, credentials.ssid@)
                        && ap.ssid@ == "eclss"@ && ap.channel == 1
                },
                Err(CredentialsError::SsidTooLong) => {
                    &&& credentials.ssid@.len() > 32
                    &&& final(self).config == old(self).config
                },
                Err(CredentialsError::PasswordTooLong) => {
                    &&& credentials.ssid@.len() <= 32
                    &&& credentials.password@.len() > 64
                    &&& final(self).config == old(self).config
                },
            },
    {
        if credentials.ssid.as_str().unicode_len() > 32 {
            return Err(CredentialsError::SsidTooLong);
        }
        if credentials.password.as_str().unicode_len() > 64 {
            return Err(CredentialsError::PasswordTooLong);
        }

        let channel = self.find_channel(&credentials.ssid);

        self.config = WifiConfiguration::Mixed(
            ClientConfig { ssid: credentials.ssid, password: credentials.password, channel },
            access_point_config(),
        );
        Ok(())
    }

    /// The channel of the first scanned network with the given name.
    fn find_channel(&self, ssid: &String) -> (r: Option<u8>)
        ensures
            r == spec_find_channel(self.access_points@, ssid@),
    {
        let n = self.access_points.len();
        let mut i: usize = 0;
        proof {
            assert(self.access_points@.skip(0) =~= self.access_points@);
        }
        while i < n
            invariant
                n == self.access_points@.len(),
                i <= n,
                spec_find_channel(self.access_points@, ssid@) == spec_find_channel(
                    self.access_points@.skip(i as int),
                    ssid@,
                ),
            decreases n - i,
        {
            let ap = &self.access_points[i];
            proof {
                assert(self.access_points@.skip(i as int)[0] == self.access_points@[i as int]);
                assert(self.access_points@.skip(i as int).drop_first() =~= self.access_points@.skip(
                    i + 1,
                ));
            }
            if ap.ssid == *ssid {
                return Some(ap.channel);
            }
            i += 1;
        }
        proof {
            assert(self.access_points@.skip(n as int) =~= Seq::<AccessPoint>::empty());
        }
        None
    }
}

} // verus!
