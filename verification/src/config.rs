//! Configuration: the settings of a host, with their defaults.
//!
//! Reading and writing the configuration file is the caller's business;
//! the types here are what the file holds once it has been read.

use vstd::prelude::*;

use crate::protocol::message::{ScreenEdge, ScreenInfo};
use crate::protocol::DEFAULT_PORT;
use crate::screen::edge_detector::{EdgeDetectorConfig, EdgeMask};
use crate::text::same_text;

verus! {

/// The system's host name through `hostname::get`, lossily turned into
/// text; `None` where the system gives none. The name depends on the
/// machine: nothing is claimed of it.
#[verifier::external_body]
fn system_hostname() -> (name: Option<String>) {
    hostname::get().ok().map(|name| name.to_string_lossy().into_owned())
}

/// Whether a text has the shape in which an identifier is generated: 36
/// characters, of which the 9th, 14th, 19th and 24th are hyphens.
pub open spec fn hyphenated(text: Seq<char>) -> bool {
    &&& text.len() == 36
    &&& text[8] == '-'
    &&& text[13] == '-'
    &&& text[18] == '-'
    &&& text[23] == '-'
}

/// A random identifier through `uuid::Uuid::new_v4`, turned into text as
/// the identifier prints: in lower-case hyphenated form, which is 36
/// characters with hyphens at fixed places. Which identifier it is
/// depends on chance: nothing more is claimed of it.
#[verifier::external_body]
fn random_uuid() -> (id: String)
    ensures
        hyphenated(id@),
{
    uuid::Uuid::new_v4().to_string()
}

/// General configuration.
#[derive(Debug)]
pub struct GeneralConfig {
    /// Unique host identifier (generated if not set).
    pub host_id: Option<String>,
    /// Human-readable name for this host.
    pub name: String,
    /// Enable verbose logging.
    pub verbose: bool,
    /// Log file path (optional).
    pub log_file: Option<String>,
}

/// The name of a host whose system gives `system_name`.
pub open spec fn spec_name_or_unknown(system_name: Option<String>) -> Seq<char> {
    match system_name {
        Some(name) => name@,
        None => "unknown"@,
    }
}

/// The name of a host whose system gives `system_name`: that name, or
/// "unknown" where the system gives none.
pub fn name_or_unknown(system_name: Option<String>) -> (name: String)
    ensures
        name@ == spec_name_or_unknown(system_name),
{
    match system_name {
        Some(name) => name,
        None => String::from_str("unknown"),
    }
}

impl GeneralConfig {
    /// The general configuration of a host with the given name and every
    /// other setting at its default.
    pub fn named(name: String) -> (config: GeneralConfig)
        ensures
            config == (GeneralConfig { host_id: None, name, verbose: false, log_file: None }),
    {
        GeneralConfig { host_id: None, name, verbose: false, log_file: None }
    }
}

impl Default for GeneralConfig {
    /// The defaults, under the name that the system gives this host.
    fn default() -> (config: GeneralConfig)
        ensures
            config.host_id is None,
            !config.verbose,
            config.log_file is None,
    {
        GeneralConfig::named(name_or_unknown(system_hostname()))
    }
}

/// Screen configuration.
#[derive(Debug, Clone, Copy, PartialEq, Eq, Structural)]
pub struct ScreenConfig {
    /// Screen width override (detected if not set).
    pub width: Option<u32>,
    /// Screen height override (detected if not set).
    pub height: Option<u32>,
    /// Edge detection margin in pixels.
    pub edge_margin: u32,
    /// Dwell time before transition (ms).
    pub dwell_time_ms: u64,
    /// Require double tap at edge to transition.
    pub require_double_tap: bool,
}

pub fn default_edge_margin() -> (margin: u32)
    ensures
        margin == 1,
{
    1
}

impl Default for ScreenConfig {
    fn default() -> (config: ScreenConfig)
        ensures
            config == (ScreenConfig {
                width: None,
                height: None,
                edge_margin: 1,
                dwell_time_ms: 0,
                require_double_tap: false,
            }),
    {
        ScreenConfig {
            width: None,
            height: None,
            edge_margin: default_edge_margin(),
            dwell_time_ms: 0,
            require_double_tap: false,
        }
    }
}

impl ScreenConfig {
    /// The size of the screen: what is configured, and what was detected
    /// where nothing is.
    pub fn dimensions(&self, detected: (u32, u32)) -> (size: (u32, u32))
        ensures
            size.0 == (match self.width {
                Some(width) => width,
                None => detected.0,
            }),
            size.1 == (match self.height {
                Some(height) => height,
                None => detected.1,
            }),
    {
        (
            match self.width {
                Some(width) => width,
                None => detected.0,
            },
            match self.height {
                Some(height) => height,
                None => detected.1,
            },
        )
    }

    /// The edge detection of the primary host: margin, dwell time and
    /// double tap as configured, every edge enabled.
    pub fn controller_detection(&self) -> (config: EdgeDetectorConfig)
        ensures
            config.edge_margin == self.edge_margin,
            config.dwell_time_ms == self.dwell_time_ms,
            config.require_double_tap == self.require_double_tap,
            config.double_tap_window_ms == 500,
            config.enabled_edges.wf(),
            forall|edge: ScreenEdge| config.enabled_edges.enables(edge),
    {
        EdgeDetectorConfig {
            edge_margin: self.edge_margin,
            dwell_time_ms: self.dwell_time_ms,
            require_double_tap: self.require_double_tap,
            double_tap_window_ms: 500,
            enabled_edges: EdgeMask::all(),
        }
    }

    /// The edge detection of a secondary host: margin and dwell time as
    /// configured, no double tap, every edge enabled.
    pub fn follower_detection(&self) -> (config: EdgeDetectorConfig)
        ensures
            config.edge_margin == self.edge_margin,
            config.dwell_time_ms == self.dwell_time_ms,
            !config.require_double_tap,
            config.double_tap_window_ms == 500,
            config.enabled_edges.wf(),
            forall|edge: ScreenEdge| config.enabled_edges.enables(edge),
    {
        EdgeDetectorConfig {
            edge_margin: self.edge_margin,
            dwell_time_ms: self.dwell_time_ms,
            require_double_tap: false,
            double_tap_window_ms: 500,
            enabled_edges: EdgeMask::all(),
        }
    }
}

/// Network configuration.
#[derive(Debug)]
pub struct NetworkConfig {
    /// Port to listen on.
    pub port: u16,
    /// Interface to bind to (default: all).
    pub bind_address: Option<String>,
    /// Connection timeout in ms.
    pub connect_timeout_ms: u64,
    /// Heartbeat interval in ms.
    pub heartbeat_interval_ms: u64,
    /// Enable mDNS discovery.
    pub enable_discovery: bool,
}

pub fn default_port() -> (port: u16)
    ensures
        port == DEFAULT_PORT,
{
    DEFAULT_PORT
}

pub fn default_connect_timeout() -> (ms: u64)
    ensures
        ms == 5000,
{
    5000
}

pub fn default_heartbeat_interval() -> (ms: u64)
    ensures
        ms == 1000,
{
    1000
}

pub fn default_true() -> (on: bool)
    ensures
        on,
{
    true
}

impl Default for NetworkConfig {
    fn default() -> (config: NetworkConfig)
        ensures
            config == (NetworkConfig {
                port: DEFAULT_PORT,
                bind_address: None,
                connect_timeout_ms: 5000,
                heartbeat_interval_ms: 1000,
                enable_discovery: true,
            }),
    {
        NetworkConfig {
            port: default_port(),
            bind_address: None,
            connect_timeout_ms: default_connect_timeout(),
            heartbeat_interval_ms: default_heartbeat_interval(),
            enable_discovery: default_true(),
        }
    }
}

/// Security configuration.
#[derive(Debug)]
pub struct SecurityConfig {
    /// Require TLS for connections.
    pub require_tls: bool,
    /// Path to TLS certificate.
    pub certificate: Option<String>,
    /// Path to TLS private key.
    pub key: Option<String>,
    /// Allowed hosts (empty = allow all).
    pub allowed_hosts: Vec<String>,
}

impl Default for SecurityConfig {
    /// TLS is not required by default, for easier setup.
    fn default() -> (config: SecurityConfig)
        ensures
            !config.require_tls,
            config.certificate is None,
            config.key is None,
            config.allowed_hosts@ == Seq::<String>::empty(),
    {
        SecurityConfig { require_tls: false, certificate: None, key: None, allowed_hosts: Vec::new() }
    }
}

/// Clipboard configuration.
#[derive(Debug)]
pub struct ClipboardConfig {
    /// Enable clipboard synchronization.
    pub enabled: bool,
    /// Maximum clipboard size.
    pub max_size_bytes: usize,
    /// Allowed MIME types (empty = allow all).
    pub allowed_types: Vec<String>,
}

pub fn default_max_clipboard_size() -> (bytes: usize)
    ensures
        bytes == 10 * 1024 * 1024,
{
    10 * 1024 * 1024
}

impl Default for ClipboardConfig {
    fn default() -> (config: ClipboardConfig)
        ensures
            config.enabled,
            config.max_size_bytes == 10 * 1024 * 1024,
            config.allowed_types@ == Seq::<String>::empty(),
    {
        ClipboardConfig {
            enabled: default_true(),
            max_size_bytes: default_max_clipboard_size(),
            allowed_types: Vec::new(),
        }
    }
}

/// The name under which the configuration file files the neighbor beyond
/// an edge.
pub open spec fn spec_edge_name(edge: ScreenEdge) -> Seq<char> {
    match edge {
        ScreenEdge::Left => "left"@,
        ScreenEdge::Right => "right"@,
        ScreenEdge::Top => "top"@,
        ScreenEdge::Bottom => "bottom"@,
    }
}

/// The name under which the configuration file files the neighbor beyond
/// an edge.
pub fn edge_name(edge: ScreenEdge) -> (name: &'static str)
    ensures
        name@ == spec_edge_name(edge),
{
    match edge {
        ScreenEdge::Left => "left",
        ScreenEdge::Right => "right",
        ScreenEdge::Top => "top",
        ScreenEdge::Bottom => "bottom",
    }
}

/// The edge that a name of the configuration file stands for, if any.
pub fn edge_named(name: &str) -> (edge: Option<ScreenEdge>)
    ensures
        match edge {
            Some(found) => name@ == spec_edge_name(found),
            None => forall|any: ScreenEdge| name@ != spec_edge_name(any),
        },
{
    if same_text(name, "left") {
        Some(ScreenEdge::Left)
    } else if same_text(name, "right") {
        Some(ScreenEdge::Right)
    } else if same_text(name, "top") {
        Some(ScreenEdge::Top)
    } else if same_text(name, "bottom") {
        Some(ScreenEdge::Bottom)
    } else {
        None
    }
}

/// Main application configuration.
#[derive(Debug)]
pub struct Config {
    /// General settings.
    pub general: GeneralConfig,
    /// Screen settings.
    pub screen: ScreenConfig,
    /// Network settings.
    pub network: NetworkConfig,
    /// Neighbor configuration: the host beyond each edge, one slot per
    /// edge in the order of the edges' codes.
    pub neighbors: [Option<String>; 4],
    /// Security settings.
    pub security: SecurityConfig,
    /// Clipboard settings.
    pub clipboard: ClipboardConfig,
}

impl Default for Config {
    fn default() -> (config: Config)
        ensures
            config.general.host_id is None,
            config.screen == (ScreenConfig {
                width: None,
                height: None,
                edge_margin: 1,
                dwell_time_ms: 0,
                require_double_tap: false,
            }),
            config.network == (NetworkConfig {
                port: DEFAULT_PORT,
                bind_address: None,
                connect_timeout_ms: 5000,
                heartbeat_interval_ms: 1000,
                enable_discovery: true,
            }),
            forall|edge: ScreenEdge| config.spec_neighbor(edge) is None,
            !config.general.verbose,
            config.general.log_file is None,
            !config.security.require_tls,
            config.security.certificate is None,
            config.security.key is None,
            config.security.allowed_hosts@ == Seq::<String>::empty(),
            config.clipboard.enabled,
            config.clipboard.max_size_bytes == 10 * 1024 * 1024,
            config.clipboard.allowed_types@ == Seq::<String>::empty(),
    {
        Config {
            general: GeneralConfig::default(),
            screen: ScreenConfig::default(),
            network: NetworkConfig::default(),
            neighbors: [None, None, None, None],
            security: SecurityConfig::default(),
            clipboard: ClipboardConfig::default(),
        }
    }
}

impl Config {
    /// The neighbor configured beyond an edge.
    pub open spec fn spec_neighbor(&self, edge: ScreenEdge) -> Option<String> {
        self.neighbors@[edge.spec_code() as int]
    }

    /// The identifier to use where the configuration may give one and
    /// `generated` is a fresh one: the configured identifier where there
    /// is one.
    pub fn host_id_or(&self, generated: String) -> (id: String)
        ensures
            id == (match self.general.host_id {
                Some(configured) => configured,
                None => generated,
            }),
    {
        match &self.general.host_id {
            Some(configured) => configured.clone(),
            None => generated,
        }
    }

    /// Get the host ID, generating one if not set: the configured
    /// identifier where there is one, and only otherwise a random one, in
    /// hyphenated form.
    pub fn host_id(&self) -> (id: String)
        ensures
            self.general.host_id matches Some(configured) ==> id == configured,
            self.general.host_id is None ==> id@.len() == 36 && hyphenated(id@),
    {
        match &self.general.host_id {
            Some(configured) => configured.clone(),
            None => random_uuid(),
        }
    }

    /// Get neighbor for a specific edge.
    pub fn get_neighbor(&self, edge: ScreenEdge) -> (neighbor: Option<&String>)
        ensures
            match neighbor {
                Some(host) => self.spec_neighbor(edge) == Some(*host),
                None => self.spec_neighbor(edge) is None,
            },
    {
        self.neighbors[edge.code() as usize].as_ref()
    }

    /// Set neighbor for a specific edge.
    pub fn set_neighbor(&mut self, edge: ScreenEdge, host: String)
        ensures
            forall|other: ScreenEdge|
                final(self).spec_neighbor(other) == (if other == edge {
                    Some(host)
                } else {
                    old(self).spec_neighbor(other)
                }),
            final(self).general == old(self).general,
            final(self).screen == old(self).screen,
            final(self).network == old(self).network,
            final(self).security == old(self).security,
            final(self).clipboard == old(self).clipboard,
    {
        let slot: usize = edge.code() as usize;
        self.neighbors[slot] = Some(host);
    }

    /// The screen that this host presents to its peers: identified by
    /// `host_id`, named `name` or else as configured, of the configured
    /// size or else the detected one.
    pub fn screen_info(&self, host_id: String, name: Option<String>, detected: (u32, u32)) -> (info:
        ScreenInfo)
        ensures
            info.host_id == host_id,
            info.host_name == (match name {
                Some(given) => given,
                None => self.general.name,
            }),
            info.width == (match self.screen.width {
                Some(width) => width,
                None => detected.0,
            }),
            info.height == (match self.screen.height {
                Some(height) => height,
                None => detected.1,
            }),
            info.dpi_x == crate::protocol::message::DEFAULT_DPI,
            info.dpi_y == crate::protocol::message::DEFAULT_DPI,
    {
        let host_name = match name {
            Some(given) => given,
            None => self.general.name.clone(),
        };
        let size = self.screen.dimensions(detected);
        ScreenInfo::new(host_id, host_name, size.0, size.1)
    }
}

} // verus!
