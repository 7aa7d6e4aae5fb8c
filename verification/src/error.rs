//! The errors of the toolkit and the message each one is reported with.
//!
//! An error that comes from the operating system or from another library is
//! held here by its text, so that every message can be built and checked here.
use vstd::prelude::*;
use crate::text::push_str;

verus! {

/// Everything that can stop a subcommand.
#[derive(Debug)]
pub enum NtkError {
    DnsLookup(String),
    DnsResolve(String),
    NetDevGatewayFailure(String),
    NetDevDefaultInterfaceFailure(String),
    IfNameNotFound(String),
    IfNameHasNoAssignedIps(String),
    SourceMacAddressFailure(String),
    DatalinkOpenFailure(String),
    DatalinkUnsupportedChannel,
    Ipv6FoundError,
    PacketBufferTooSmall,
    PacketSendFailure(String),
    PacketTtlSetFailure(String),
    FetchFileCreationError(String),
    FetchFileWriteError(String),
    FetchFailedToGetJson(String),
    FetchFailedToGetTextBody(String),
    /// An unsuccessful status: its code and, when the status has one, its
    /// canonical reason.
    FetchResponseFailure { status: String, reason: Option<String> },
    ReqwestClientBuildFailure(String),
    ReqwestSendFailure(String),
    HttpGetChunkFailure(String),
    HttpHeaderToStringFailure(String),
    UrlParseFailure(String),
    SemaphoreAquirePermitFailure(String),
    GatewayResolutionFailure(String),
    GatewayMacUnresolved,
    ArpResolutionTimeout(String),
    IcmpReceive(String),
    WrongBinaryInUse(String),
    IpIfAssociationError(String),
    LibPacketCaptureFailure(String),
    TaskJoinError,
    UnexpectedHandle,
    JsonParseFailure(String),
}

/// The message that reports `e`.
pub open spec fn error_message(e: NtkError) -> Seq<char> {
    match e {
        NtkError::DnsLookup(s) => "DNS lookup of IP address failed: "@ + s@,
        NtkError::DnsResolve(s) => "DNS resolution of hostname to IP failed: "@ + s@,
        NtkError::NetDevGatewayFailure(s) => "Failed to find the default gateway: "@ + s@,
        NtkError::NetDevDefaultInterfaceFailure(s) => "Failed to find the default interface: "@ + s@,
        NtkError::IfNameNotFound(s) => "No interface exists with the name: "@ + s@,
        NtkError::IfNameHasNoAssignedIps(s) => "Interface name does not have any IPv4 addresses assigned to it: "@
            + s@,
        NtkError::SourceMacAddressFailure(s) => "Was unable to find a MAC address for interface with name: '"@
            + s@ + "'"@,
        NtkError::DatalinkOpenFailure(s) => "Failed to open datalink channels for transmit and receive: "@
            + s@,
        NtkError::DatalinkUnsupportedChannel => "Unexpected datalink channel provided while trying to open transmit and receive channels."@,
        NtkError::Ipv6FoundError => "Found an IPv6 while trying to process IPv6 data, which is unexpected an unhandled by ntk."@,
        NtkError::PacketBufferTooSmall => "Buffer provided was too small to construct ethernet packet."@,
        NtkError::PacketSendFailure(s) => "Failed to send packet through the transmit channel: "@ + s@,
        NtkError::PacketTtlSetFailure(s) => "Failed to set the TTL (time to live) of the packet: "@ + s@,
        NtkError::FetchFileCreationError(s) => "Failed to create a file on the operating system to store the fetch data in: "@
            + s@,
        NtkError::FetchFileWriteError(s) => "Failed to write the fetch data to the provided file path: "@
            + s@,
        NtkError::FetchFailedToGetJson(s) => "Failed to get or deserialize the JSON body from the response: "@
            + s@,
        NtkError::FetchFailedToGetTextBody(s) => "Failed to get the text body from the response: "@ + s@,
        NtkError::FetchResponseFailure { status, reason } => "Unsuccessful response code from remote server: '"@
            + status@ + "', reason: '"@ + match reason {
            Some(r) => r@,
            None => "Unknown"@,
        } + "'"@,
        NtkError::ReqwestClientBuildFailure(s) => "Failed to build HTTP (reqwest) client required to send request: "@
            + s@,
        NtkError::ReqwestSendFailure(s) => "Failed to send HTTP request using (reqwest) client: "@ + s@,
        NtkError::HttpGetChunkFailure(s) => "Failed to get/collect download chunk: "@ + s@,
        NtkError::HttpHeaderToStringFailure(s) => "Failed to convert HTTP header to a string: "@ + s@,
        NtkError::UrlParseFailure(s) => "Failed to parse URL: "@ + s@,
        NtkError::SemaphoreAquirePermitFailure(s) => "A thread failure to acquire a lock required to perform work: "@
            + s@,
        NtkError::GatewayResolutionFailure(s) => "Unable to find the default gateway on the interface in order to send packets: "@
            + s@,
        NtkError::GatewayMacUnresolved => "The default gateway was detected but its MAC Address is 'the zero address' and is unusable as a destination."@,
        NtkError::ArpResolutionTimeout(s) => "Timeout waiting for an ARP reply from a remote IP: "@ + s@,
        NtkError::IcmpReceive(s) => "Failed to receive ICMP ping packet: "@ + s@,
        NtkError::WrongBinaryInUse(s) => s@,
        NtkError::IpIfAssociationError(s) => "No interface exists with the assigned source IP: "@ + s@,
        NtkError::LibPacketCaptureFailure(s) => "Failure to receive or setting up to receive packets: "@
            + s@,
        NtkError::TaskJoinError => "Failed to gracefully join (shutdown) async thread."@,
        NtkError::UnexpectedHandle => "A function expected a thread handle or an async tokio handle but rx the wrong one."@,
        NtkError::JsonParseFailure(s) => "Failed to parse JSON: "@ + s@,
    }
}

/// `prefix` followed by `detail`.
fn joined(prefix: &str, detail: &str) -> (r: String)
    ensures
        r@ == prefix@ + detail@,
{
    let mut r = String::new();
    push_str(&mut r, prefix);
    push_str(&mut r, detail);
    proof {
        assert(r@ =~= prefix@ + detail@);
    }
    r
}

/// A copy of `s`.
fn text_of(s: &str) -> (r: String)
    ensures
        r@ == s@,
{
    let mut r = String::new();
    push_str(&mut r, s);
    proof {
        assert(r@ =~= s@);
    }
    r
}

impl NtkError {
    /// The message that reports this error (see `error_message`).
    pub fn message(&self) -> (r: String)
        ensures
            r@ == error_message(*self),
    {
        match self {
            NtkError::DnsLookup(s) => joined("DNS lookup of IP address failed: ", s.as_str()),
            NtkError::DnsResolve(s) => joined("DNS resolution of hostname to IP failed: ", s.as_str()),
            NtkError::NetDevGatewayFailure(s) => joined("Failed to find the default gateway: ", s.as_str()),
            NtkError::NetDevDefaultInterfaceFailure(s) => joined(
                "Failed to find the default interface: ",
                s.as_str(),
            ),
            NtkError::IfNameNotFound(s) => joined("No interface exists with the name: ", s.as_str()),
            NtkError::IfNameHasNoAssignedIps(s) => joined(
                "Interface name does not have any IPv4 addresses assigned to it: ",
                s.as_str(),
            ),
            NtkError::SourceMacAddressFailure(s) => {
                let mut r = joined(
                    "Was unable to find a MAC address for interface with name: '",
                    s.as_str(),
                );
                push_str(&mut r, "'");
                r
            },
            NtkError::DatalinkOpenFailure(s) => joined(
                "Failed to open datalink channels for transmit and receive: ",
                s.as_str(),
            ),
            NtkError::DatalinkUnsupportedChannel => text_of(
                "Unexpected datalink channel provided while trying to open transmit and receive channels.",
            ),
            NtkError::Ipv6FoundError => text_of(
                "Found an IPv6 while trying to process IPv6 data, which is unexpected an unhandled by ntk.",
            ),
            NtkError::PacketBufferTooSmall => text_of(
                "Buffer provided was too small to construct ethernet packet.",
            ),
            NtkError::PacketSendFailure(s) => joined(
                "Failed to send packet through the transmit channel: ",
                s.as_str(),
            ),
            NtkError::PacketTtlSetFailure(s) => joined(
                "Failed to set the TTL (time to live) of the packet: ",
                s.as_str(),
            ),
            NtkError::FetchFileCreationError(s) => joined(
                "Failed to create a file on the operating system to store the fetch data in: ",
                s.as_str(),
            ),
            NtkError::FetchFileWriteError(s) => joined(
                "Failed to write the fetch data to the provided file path: ",
                s.as_str(),
            ),
            NtkError::FetchFailedToGetJson(s) => joined(
                "Failed to get or deserialize the JSON body from the response: ",
                s.as_str(),
            ),
            NtkError::FetchFailedToGetTextBody(s) => joined(
                "Failed to get the text body from the response: ",
                s.as_str(),
            ),
            NtkError::FetchResponseFailure { status, reason } => {
                let mut r = joined(
                    "Unsuccessful response code from remote server: '",
                    status.as_str(),
                );
                push_str(&mut r, "', reason: '");
                match reason {
                    Some(why) => push_str(&mut r, why.as_str()),
                    None => push_str(&mut r, "Unknown"),
                }
                push_str(&mut r, "'");
                r
            },
            NtkError::ReqwestClientBuildFailure(s) => joined(
                "Failed to build HTTP (reqwest) client required to send request: ",
                s.as_str(),
            ),
            NtkError::ReqwestSendFailure(s) => joined(
                "Failed to send HTTP request using (reqwest) client: ",
                s.as_str(),
            ),
            NtkError::HttpGetChunkFailure(s) => joined(
                "Failed to get/collect download chunk: ",
                s.as_str(),
            ),
            NtkError::HttpHeaderToStringFailure(s) => joined(
                "Failed to convert HTTP header to a string: ",
                s.as_str(),
            ),
            NtkError::UrlParseFailure(s) => joined("Failed to parse URL: ", s.as_str()),
            NtkError::SemaphoreAquirePermitFailure(s) => joined(
                "A thread failure to acquire a lock required to perform work: ",
                s.as_str(),
            ),
            NtkError::GatewayResolutionFailure(s) => joined(
                "Unable to find the default gateway on the interface in order to send packets: ",
                s.as_str(),
            ),
            NtkError::GatewayMacUnresolved => text_of(
                "The default gateway was detected but its MAC Address is 'the zero address' and is unusable as a destination.",
            ),
            NtkError::ArpResolutionTimeout(s) => joined(
                "Timeout waiting for an ARP reply from a remote IP: ",
                s.as_str(),
            ),
            NtkError::IcmpReceive(s) => joined("Failed to receive ICMP ping packet: ", s.as_str()),
            NtkError::WrongBinaryInUse(s) => text_of(s.as_str()),
            NtkError::IpIfAssociationError(s) => joined(
                "No interface exists with the assigned source IP: ",
                s.as_str(),
            ),
            NtkError::LibPacketCaptureFailure(s) => joined(
                "Failure to receive or setting up to receive packets: ",
                s.as_str(),
            ),
            NtkError::TaskJoinError => text_of("Failed to gracefully join (shutdown) async thread."),
            NtkError::UnexpectedHandle => text_of(
                "A function expected a thread handle or an async tokio handle but rx the wrong one.",
            ),
            NtkError::JsonParseFailure(s) => joined("Failed to parse JSON: ", s.as_str()),
        }
    }
}

} // verus!
