use vstd::prelude::*;
use vstd::string::*;

verus! {

/// Default TCP port the API server listens on.
pub fn default_port() -> (r: u16)
    ensures
        r == 3000,
{
    3000
}

/// Default path of the database file.
pub fn default_db_path() -> (r: String)
    ensures
        r@ == "traffic.db"@,
{
    String::from_str("traffic.db")
}

/// Default idle time, in seconds, after which a connection counts as stale.
pub fn default_connection_timeout() -> (r: u64)
    ensures
        r == 60,
{
    60
}

/// Application configuration, merged from a file and the command line.
#[derive(Clone, Debug)]
pub struct Config {
    /// Network interface to capture on.
    pub interface: Option<String>,
    /// API server port.
    pub port: u16,
    /// Database path.
    pub db_path: String,
    /// Filter by port (only capture traffic on this port).
    pub filter_port: Option<u16>,
    /// Filter by IP (only capture traffic to/from this IP).
    pub filter_ip: Option<String>,
    /// Filter by protocol (TCP, UDP).
    pub filter_protocol: Option<String>,
    /// Connection timeout in seconds (for stale connection cleanup).
    pub connection_timeout: u64,
    /// Enable DNS resolution for IPs.
    pub resolve_dns: bool,
    /// Quiet mode (suppress non-error logs).
    pub quiet: bool,
}

impl Default for Config {
    fn default() -> (r: Config)
        ensures
            r.interface is None,
            r.port == 3000,
            r.db_path@ == "traffic.db"@,
            r.filter_port is None,
            r.filter_ip is None,
            r.filter_protocol is None,
            r.connection_timeout == 60,
            r.resolve_dns == false,
            r.quiet == false,
    {
        Config {
            interface: None,
            port: default_port(),
            db_path: default_db_path(),
            filter_port: None,
            filter_ip: None,
            filter_protocol: None,
            connection_timeout: default_connection_timeout(),
            resolve_dns: false,
            quiet: false,
        }
    }
}

/// Command-line arguments, as parsed by the startup wiring.
#[derive(Clone, Debug)]
pub struct CliArgs {
    /// Network interface to capture on. Auto-detects if not provided.
    pub interface: Option<String>,
    /// Port to serve the API on.
    pub port: u16,
    /// Database path.
    pub db_path: String,
    /// Path to a YAML config file.
    pub config: Option<String>,
    /// Filter: only capture traffic on this port.
    pub filter_port: Option<u16>,
    /// Filter: only capture traffic to/from this IP.
    pub filter_ip: Option<String>,
    /// Filter: only capture this protocol (TCP, UDP).
    pub filter_protocol: Option<String>,
    /// Connection timeout in seconds for stale cleanup.
    pub connection_timeout: u64,
    /// Enable DNS resolution for IPs.
    pub resolve_dns: bool,
    /// Quiet mode (suppress non-error logs).
    pub quiet: bool,
}

impl Config {
    /// Merge CLI args into the config; the CLI takes precedence. A scalar
    /// CLI value that still equals its built-in default is treated as "not
    /// given" and leaves the config value alone.
    pub fn merge_cli(&mut self, cli: &CliArgs)
        ensures
            final(self).interface == (if cli.interface is Some {
                cli.interface
            } else {
                old(self).interface
            }),
            final(self).port == (if cli.port != 3000 {
                cli.port
            } else {
                old(self).port
            }),
            final(self).db_path == (if cli.db_path@ != "traffic.db"@ {
                cli.db_path
            } else {
                old(self).db_path
            }),
            final(self).filter_port == (if cli.filter_port is Some {
                cli.filter_port
            } else {
                old(self).filter_port
            }),
            final(self).filter_ip == (if cli.filter_ip is Some {
                cli.filter_ip
            } else {
                old(self).filter_ip
            }),
            final(self).filter_protocol == (if cli.filter_protocol is Some {
                cli.filter_protocol
            } else {
                old(self).filter_protocol
            }),
            final(self).connection_timeout == (if cli.connection_timeout != 60 {
                cli.connection_timeout
            } else {
                old(self).connection_timeout
            }),
            final(self).resolve_dns == (old(self).resolve_dns || cli.resolve_dns),
            final(self).quiet == (old(self).quiet || cli.quiet),
    {
        match &cli.interface {
            Some(s) => {
                self.interface = Some(s.clone());
            },
            None => {},
        }
        if cli.port != 3000 {
            self.port = cli.port;
        }
        let dflt = default_db_path();
        if !(cli.db_path == dflt) {
            self.db_path = cli.db_path.clone();
        }
        match &cli.filter_port {
            Some(p) => {
                self.filter_port = Some(*p);
            },
            None => {},
        }
        match &cli.filter_ip {
            Some(s) => {
                self.filter_ip = Some(s.clone());
            },
            None => {},
        }
        match &cli.filter_protocol {
            Some(s) => {
                self.filter_protocol = Some(s.clone());
            },
            None => {},
        }
        if cli.connection_timeout != 60 {
            self.connection_timeout = cli.connection_timeout;
        }
        if cli.resolve_dns {
            self.resolve_dns = true;
        }
        if cli.quiet {
            self.quiet = true;
        }
    }
}

} // verus!
