//! The settings that connections are set up with.

use vstd::prelude::*;

verus! {

/// The limits of the QUIC transport.
#[derive(Debug, Clone, Copy, PartialEq, Eq, Structural)]
pub struct TransportLimits {
    /// After how many milliseconds without traffic a connection is given up.
    pub max_idle_timeout: u64,
    /// The largest UDP payload, in bytes, that is received.
    pub recv_udp_payload_size: u16,
    /// How many bytes may be in flight on a connection at first.
    pub initial_max_data: u64,
    /// How many bytes may be in flight at first on a stream opened on this side.
    pub initial_max_stream_data_bidi_local: u64,
    /// How many bytes may be in flight at first on a stream opened on the other side.
    pub initial_max_stream_data_bidi_remote: u64,
    /// How many streams in both directions the other side may open at first.
    pub initial_max_streams_bidi: u64,
    /// How many streams in one direction the other side may open at first.
    pub initial_max_streams_uni: u64,
}

/// How TLS is set up on one side.
#[derive(Debug)]
pub enum TlsRole {
    /// A server shows a certificate.
    Server {
        /// The file that holds the certificate.
        certificate_path: String,
        /// The file that holds the private key.
        key_path: String,
    },
    /// A client may verify the certificate that it is shown.
    Client {
        /// Whether it does.
        verify: bool,
    },
}

/// The settings that connections of one side are set up with.
#[derive(Debug)]
pub struct TransportConfig {
    /// The limits of the transport.
    pub limits: TransportLimits,
    /// How TLS is set up.
    pub tls: TlsRole,
    /// The application protocols that are offered, in the order of preference.
    pub protocols: Vec<Vec<u8>>,
    /// Whether data may be sent before the handshake is complete.
    pub early_data: bool,
}

/// The limits that both sides use.
pub open spec fn service_limits() -> TransportLimits {
    TransportLimits {
        max_idle_timeout: 30_000,
        recv_udp_payload_size: 1350,
        initial_max_data: 10_000_000,
        initial_max_stream_data_bidi_local: 1_000_000,
        initial_max_stream_data_bidi_remote: 1_000_000,
        initial_max_streams_bidi: 100,
        initial_max_streams_uni: 100,
    }
}

/// What both sides have in common: the limits, HTTP/3 as the only protocol, and no early data.
pub open spec fn is_service_config(config: TransportConfig) -> bool {
    &&& config.limits == service_limits()
    &&& config.protocols@.len() == 1
    &&& config.protocols@[0]@ == vstd::utf8::encode_utf8("h3"@)
    &&& !config.early_data
}

fn service_config(tls: TlsRole) -> (config: TransportConfig)
    ensures
        is_service_config(config),
        config.tls == tls,
{
    let mut protocols: Vec<Vec<u8>> = Vec::new();
    protocols.push("h3".as_bytes_vec());
    TransportConfig {
        limits: TransportLimits {
            max_idle_timeout: 30_000,
            recv_udp_payload_size: 1350,
            initial_max_data: 10_000_000,
            initial_max_stream_data_bidi_local: 1_000_000,
            initial_max_stream_data_bidi_remote: 1_000_000,
            initial_max_streams_bidi: 100,
            initial_max_streams_uni: 100,
        },
        tls,
        protocols,
        early_data: false,
    }
}

/// The configuration is that of a server.
pub open spec fn is_server_config(config: TransportConfig) -> bool {
    &&& is_service_config(config)
    &&& config.tls matches TlsRole::Server { certificate_path, key_path }
    &&& certificate_path@ == "temp_cert.der"@
    &&& key_path@ == "temp_key.der"@
}

/// The configuration is that of a client, which takes any certificate.
pub open spec fn is_client_config(config: TransportConfig) -> bool {
    &&& is_service_config(config)
    &&& config.tls == TlsRole::Client { verify: false }
}

/// The settings of a server.
pub fn create_server_config() -> (config: TransportConfig)
    ensures
        is_server_config(config),
{
    service_config(
        TlsRole::Server {
            certificate_path: "temp_cert.der".to_owned(),
            key_path: "temp_key.der".to_owned(),
        },
    )
}

/// The settings of a client.
pub fn create_client_config() -> (config: TransportConfig)
    ensures
        is_client_config(config),
{
    service_config(TlsRole::Client { verify: false })
}

/// A server and a client work with the same limits and offer the same protocol.
pub proof fn both_sides_agree(server: TransportConfig, client: TransportConfig)
    requires
        is_server_config(server),
        is_client_config(client),
    ensures
        server.limits == client.limits,
        server.protocols@.len() == client.protocols@.len(),
        server.protocols@[0]@ == client.protocols@[0]@,
        server.early_data == client.early_data,
{
}

/// A server shows the certificate that was made for it: it reads the files that
/// `generate_temp_certificate` has written.
pub proof fn server_uses_the_generated_files(
    config: TransportConfig,
    files: crate::certificate::CertificateFiles,
    certificate: Seq<u8>,
    key: Seq<u8>,
)
    requires
        is_server_config(config),
        crate::certificate::are_files(
            files,
            "temp_cert.der"@,
            certificate,
            "temp_key.der"@,
            key,
        ),
    ensures
        config.tls matches TlsRole::Server { certificate_path, key_path } && certificate_path@
            == files.certificate.path@ && key_path@ == files.key.path@,
{
}

} // verus!
