//! Service discovery: the hosts that have been found on the local
//! network, by whatever means the caller finds them.

use vstd::prelude::*;

use crate::network::PeerAddr;
use crate::protocol::message::ScreenInfo;
use crate::text::{joined, same_text};

verus! {

/// Service type under which hosts announce themselves.
pub const SERVICE_TYPE: &'static str = "_corenet._tcp.local.";

/// Discovery errors.
#[derive(Debug)]
pub enum DiscoveryError {
    Mdns(String),
    Registration(String),
    AlreadyRunning,
    NotRunning,
}

impl DiscoveryError {
    /// The error in words.
    pub open spec fn spec_message(&self) -> Seq<char> {
        match *self {
            DiscoveryError::Mdns(cause) => "mDNS error: "@ + cause@,
            DiscoveryError::Registration(cause) => "Service registration failed: "@ + cause@,
            DiscoveryError::AlreadyRunning => "Already running"@,
            DiscoveryError::NotRunning => "Not running"@,
        }
    }

    /// The error in words.
    pub fn message(&self) -> (text: String)
        ensures
            text@ == self.spec_message(),
    {
        match self {
            DiscoveryError::Mdns(cause) => joined("mDNS error: ", cause.as_str()),
            DiscoveryError::Registration(cause) => joined(
                "Service registration failed: ",
                cause.as_str(),
            ),
            DiscoveryError::AlreadyRunning => String::from_str("Already running"),
            DiscoveryError::NotRunning => String::from_str("Not running"),
        }
    }
}

/// An IP address, as plain values.
#[derive(Debug, Clone, Copy, PartialEq, Eq, Structural)]
pub struct IpAddress {
    /// Whether `ip` is an IPv6 address; else it is an IPv4 address in the
    /// low 32 bits.
    pub v6: bool,
    pub ip: u128,
}

/// Information about a discovered host.
#[derive(Debug, Clone)]
pub struct DiscoveredHost {
    /// Host identifier.
    pub host_id: String,
    /// Human-readable name.
    pub host_name: String,
    /// IP addresses.
    pub addresses: Vec<IpAddress>,
    /// Port number.
    pub port: u16,
    /// Screen dimensions.
    pub screen_width: u32,
    pub screen_height: u32,
    /// Additional properties, as pairs of key and value.
    pub properties: Vec<(String, String)>,
}

impl DiscoveredHost {
    /// Get a socket address for connection: the host's first address, at
    /// its port.
    pub fn socket_addr(&self) -> (addr: Option<PeerAddr>)
        ensures
            addr == (if self.addresses@.len() == 0 {
                None
            } else {
                Some(
                    PeerAddr {
                        v6: self.addresses@[0].v6,
                        ip: self.addresses@[0].ip,
                        port: self.port,
                    },
                )
            }),
    {
        if self.addresses.len() == 0 {
            None
        } else {
            Some(PeerAddr { v6: self.addresses[0].v6, ip: self.addresses[0].ip, port: self.port })
        }
    }

    /// Convert to `ScreenInfo`.
    pub fn to_screen_info(&self) -> (info: ScreenInfo)
        ensures
            info == (ScreenInfo {
                host_id: self.host_id,
                host_name: self.host_name,
                width: self.screen_width,
                height: self.screen_height,
                dpi_x: crate::protocol::message::DEFAULT_DPI,
                dpi_y: crate::protocol::message::DEFAULT_DPI,
            }),
    {
        ScreenInfo::new(
            self.host_id.clone(),
            self.host_name.clone(),
            self.screen_width,
            self.screen_height,
        )
    }
}

/// Events from the discovery service.
#[derive(Debug, Clone)]
pub enum DiscoveryEvent {
    /// A new host was discovered.
    HostDiscovered(DiscoveredHost),
    /// A host is no longer available; the text is its identifier.
    HostLost(String),
    /// A host's information was updated.
    HostUpdated(DiscoveredHost),
}

/// Whether one of the hosts has the identifier.
pub open spec fn found(hosts: Seq<DiscoveredHost>, host_id: Seq<char>) -> bool {
    exists|i: int| 0 <= i < hosts.len() && (#[trigger] hosts[i]).host_id@ == host_id
}

/// No two of the hosts have the same identifier.
pub open spec fn distinct_hosts(hosts: Seq<DiscoveredHost>) -> bool {
    forall|i: int, j: int|
        0 <= i < j < hosts.len() ==> (#[trigger] hosts[i]).host_id@ != (#[trigger] hosts[j]).host_id@
}

/// The state of the discovery service.
pub struct Discovery {
    /// Local screen information.
    screen_info: ScreenInfo,
    /// Port we're listening on.
    port: u16,
    /// Discovered hosts, no two with the same identifier.
    hosts: Vec<DiscoveredHost>,
    /// Whether discovery is running.
    running: bool,
}

impl Discovery {
    /// The hosts discovered.
    pub closed spec fn hosts(&self) -> Seq<DiscoveredHost> {
        self.hosts@
    }

    /// Whether discovery is running.
    pub closed spec fn running(&self) -> bool {
        self.running
    }

    /// The local screen, which the service announces.
    pub closed spec fn screen_info(&self) -> ScreenInfo {
        self.screen_info
    }

    /// The port that the service announces.
    pub closed spec fn port(&self) -> u16 {
        self.port
    }

    /// No two discovered hosts have the same identifier.
    pub closed spec fn wf(&self) -> bool {
        distinct_hosts(self.hosts@)
    }

    /// Create a new discovery service: not running, with no host.
    pub fn new(screen_info: ScreenInfo, port: u16) -> (discovery: Discovery)
        ensures
            discovery.wf(),
            !discovery.running(),
            discovery.hosts() == Seq::<DiscoveredHost>::empty(),
            discovery.screen_info() == screen_info,
            discovery.port() == port,
    {
        Discovery { screen_info, port, hosts: Vec::new(), running: false }
    }

    /// Whether discovery is running.
    pub fn is_running(&self) -> (running: bool)
        ensures
            running == self.running(),
    {
        self.running
    }

    /// Start the discovery service. Starting it twice is an error.
    pub fn start(&mut self) -> (result: Result<(), DiscoveryError>)
        ensures
            final(self).hosts() == old(self).hosts(),
            final(self).screen_info() == old(self).screen_info(),
            final(self).port() == old(self).port(),
            old(self).wf() ==> final(self).wf(),
            final(self).running(),
            match result {
                Ok(()) => !old(self).running(),
                Err(error) => old(self).running() && error == DiscoveryError::AlreadyRunning,
            },
    {
        if self.running {
            return Err(DiscoveryError::AlreadyRunning);
        }
        self.running = true;
        Ok(())
    }

    /// Stop the discovery service. Stopping it when it does not run is an
    /// error.
    pub fn stop(&mut self) -> (result: Result<(), DiscoveryError>)
        ensures
            final(self).hosts() == old(self).hosts(),
            final(self).screen_info() == old(self).screen_info(),
            final(self).port() == old(self).port(),
            old(self).wf() ==> final(self).wf(),
            !final(self).running(),
            match result {
                Ok(()) => old(self).running(),
                Err(error) => !old(self).running() && error == DiscoveryError::NotRunning,
            },
    {
        if !self.running {
            return Err(DiscoveryError::NotRunning);
        }
        self.running = false;
        Ok(())
    }

    /// Get all discovered hosts.
    pub fn discovered_hosts(&self) -> (hosts: &Vec<DiscoveredHost>)
        ensures
            hosts@ == self.hosts(),
    {
        &self.hosts
    }

    fn position_of(&self, host_id: &str) -> (place: Option<usize>)
        ensures
            match place {
                Some(i) => i < self.hosts@.len() && self.hosts@[i as int].host_id@ == host_id@,
                None => !found(self.hosts@, host_id@),
            },
    {
        let mut i: usize = 0;
        while i < self.hosts.len()
            invariant
                i <= self.hosts@.len(),
                forall|k: int| 0 <= k < i ==> (#[trigger] self.hosts@[k]).host_id@ != host_id@,
            decreases self.hosts@.len() - i,
        {
            if same_text(self.hosts[i].host_id.as_str(), host_id) {
                return Some(i);
            }
            i += 1;
        }
        None
    }

    /// Get a specific host by ID.
    pub fn get_host(&self, host_id: &str) -> (host: Option<&DiscoveredHost>)
        ensures
            match host {
                Some(known) => known.host_id@ == host_id@ && self.hosts().contains(*known),
                None => !found(self.hosts(), host_id@),
            },
    {
        match self.position_of(host_id) {
            Some(i) => Some(&self.hosts[i]),
            None => None,
        }
    }

    /// Add a host, in place of any with its identifier. What comes back
    /// says whether the host is new; the event to emit is then
    /// `HostDiscovered`, and `HostUpdated` otherwise.
    pub fn add_manual_host(&mut self, host: DiscoveredHost) -> (is_new: bool)
        requires
            old(self).wf(),
        ensures
            final(self).wf(),
            final(self).running() == old(self).running(),
            final(self).screen_info() == old(self).screen_info(),
            final(self).port() == old(self).port(),
            is_new == !found(old(self).hosts(), host.host_id@),
            final(self).hosts() == (if found(old(self).hosts(), host.host_id@) {
                old(self).hosts().update(
                    choose|i: int|
                        0 <= i < old(self).hosts().len() && (#[trigger] old(self).hosts()[i]).host_id@
                            == host.host_id@,
                    host,
                )
            } else {
                old(self).hosts().push(host)
            }),
    {
        let ghost before = self.hosts@;
        match self.position_of(host.host_id.as_str()) {
            Some(i) => {
                self.hosts[i] = host;
                proof {
                    let after = self.hosts@;
                    let chosen = choose|k: int|
                        0 <= k < before.len() && (#[trigger] before[k]).host_id@ == host.host_id@;
                    if chosen < i {
                        assert(before[chosen].host_id@ != before[i as int].host_id@);
                    }
                    if i < chosen {
                        assert(before[i as int].host_id@ != before[chosen].host_id@);
                    }
                    assert forall|a: int, b: int| 0 <= a < b < after.len() implies (
                    #[trigger] after[a]).host_id@ != (#[trigger] after[b]).host_id@ by {
                        assert(before[a].host_id@ != before[b].host_id@);
                    }
                }
                false
            },
            None => {
                self.hosts.push(host);
                proof {
                    let after = self.hosts@;
                    assert forall|a: int, b: int| 0 <= a < b < after.len() implies (
                    #[trigger] after[a]).host_id@ != (#[trigger] after[b]).host_id@ by {
                        if b < before.len() {
                            assert(before[a].host_id@ != before[b].host_id@);
                        } else {
                            assert(before[a].host_id@ != host.host_id@);
                        }
                    }
                }
                true
            },
        }
    }

    /// Remove a host. The event, if there is one, says that a host of
    /// that identifier was known and is lost.
    pub fn remove_host(&mut self, host_id: &str) -> (event: Option<DiscoveryEvent>)
        requires
            old(self).wf(),
        ensures
            final(self).wf(),
            final(self).running() == old(self).running(),
            final(self).screen_info() == old(self).screen_info(),
            final(self).port() == old(self).port(),
            !found(final(self).hosts(), host_id@),
            match event {
                Some(DiscoveryEvent::HostLost(lost)) => lost@ == host_id@ && found(
                    old(self).hosts(),
                    host_id@,
                ) && exists|i: int|
                    0 <= i < old(self).hosts().len() && (#[trigger] old(self).hosts()[i]).host_id@
                        == host_id@ && final(self).hosts() == old(self).hosts().remove(i),
                Some(_) => false,
                None => !found(old(self).hosts(), host_id@) && final(self).hosts() == old(
                    self,
                ).hosts(),
            },
    {
        let ghost before = self.hosts@;
        match self.position_of(host_id) {
            Some(i) => {
                self.hosts.remove(i);
                proof {
                    let after = self.hosts@;
                    assert(after == before.remove(i as int));
                    assert forall|k: int| 0 <= k < after.len() implies (#[trigger] after[k])
                        == before[if k < i {
                        k
                    } else {
                        k + 1
                    }] by {}
                    assert forall|a: int, b: int| 0 <= a < b < after.len() implies (
                    #[trigger] after[a]).host_id@ != (#[trigger] after[b]).host_id@ by {
                        let a0 = if a < i { a } else { a + 1 };
                        let b0 = if b < i { b } else { b + 1 };
                        assert(before[a0].host_id@ != before[b0].host_id@);
                    }
                    if found(after, host_id@) {
                        let k = choose|k: int|
                            0 <= k < after.len() && (#[trigger] after[k]).host_id@ == host_id@;
                        let k0 = if k < i { k } else { k + 1 };
                        if k0 < i {
                            assert(before[k0].host_id@ != before[i as int].host_id@);
                        } else {
                            assert(before[i as int].host_id@ != before[k0].host_id@);
                        }
                    }
                }
                Some(DiscoveryEvent::HostLost(host_id.to_owned()))
            },
            None => None,
        }
    }
}

} // verus!
