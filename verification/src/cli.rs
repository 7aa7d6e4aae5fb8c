//! The command line of the toolkit: one subcommand and its arguments.
use vstd::prelude::*;

verus! {

/// The parsed command line.
#[derive(Clone, Debug)]
pub struct Cli {
    pub command: Commands,
}

/// The subcommands and their arguments.
#[derive(Clone, Debug)]
pub enum Commands {
    /// Perform a check of layers 1-4 and 7 for a given IP or hostname by
    /// running most of the other subcommands.
    Analyze { ip: String, web_lookup_mac: bool, ignore_certs: bool, use_http: bool },
    /// Establish TCP connections to a remote host in order to scrape it for
    /// banner responses.
    Banner { ip: String },
    /// Discover IP and MAC addresses adjacent to this machine using ARP.
    Discover { interface: Option<String>, collection_time: u64 },
    /// Perform an HTTP GET on the provided URL or IP address.
    Fetch {
        url: String,
        no_content: bool,
        ignore_certs: bool,
        use_http: bool,
        download: bool,
        download_path: Option<String>,
        show_headers: bool,
        num_hops: u8,
    },
    /// Display the default network interface and gateway of this device.
    Gateway { first_match: bool, gateways_only: bool, interface_only: bool },
    /// List all interfaces, their addresses and their states.
    Interface { down_only: bool, up_only: bool },
    /// Look up the DNS name of an IP address, or the addresses of a name.
    Lookup { ip: String, name_lookup: bool },
    /// Look up the vendor of a MAC address (at least its first three octets).
    MacVendor { address: String, ignore_certs: bool },
    /// Ping (or trace the route to) an IP address using ICMP.
    Ping { ip: String, trace: bool, count: u8, packet_ttl: u8, timeout: u8 },
    /// Reveal open ports of an IP address.
    Scan {
        ip: String,
        lookup_name: bool,
        reset: bool,
        delay: u64,
        start_range: Option<u16>,
        end_range: Option<u16>,
        timeout: u8,
        ack_probe: bool,
        fin_probe: bool,
        full_handshake: bool,
        source_port: Option<u16>,
    },
    /// Watch the IPv4 and ARP traffic of an interface.
    View { interface: String },
}

} // verus!
