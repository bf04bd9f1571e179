//! The gateway's configuration: its settings, the builder methods that change
//! them, the getters that read them, and the default locations of its keys and
//! storage, which live under `<root>/<id>/data` and `<root>/<id>/config`.

use vstd::prelude::*;
use std::time::Duration;
use url::Url;
use bip39::Mnemonic;
use crate::ip::{IpAddress, ip_text};
use crate::paths::{path_join, join_path, lemma_join_nonempty};
use crate::outside::{
    parsed_url,
    parse_url,
    clone_url,
    generate_mnemonic,
    clone_mnemonic,
    home_directory,
    millis_duration,
    duration_millis,
    duration_from_millis,
    mnemonic_word_count,
};

verus! {

/// Text that stands for a value the configuration file does not give.
pub const MISSING_VALUE: &'static str = "MISSING VALUE";

/// Port on which a gateway listens for mixnet traffic unless told otherwise.
pub const DEFAULT_MIX_LISTENING_PORT: u16 = 1789;

/// Port on which a gateway listens for client traffic unless told otherwise.
pub const DEFAULT_CLIENT_LISTENING_PORT: u16 = 9000;

/// The mainnet API from which a gateway learns the network, unless told otherwise.
pub const NYM_API: &'static str = "https://validator.nymtech.net/api/";

/// The mainnet validator endpoint used to check for double spending, unless told otherwise.
pub const NYXD_URL: &'static str = "https://rpc.nymtech.net";

/// The mainnet statistics service, unless told otherwise.
pub const STATISTICS_SERVICE_DOMAIN_ADDRESS: &'static str = "https://mainnet-stats.nymte.ch:8090";

/// The version that a fresh configuration records: this crate's version.
pub const GATEWAY_VERSION: &'static str = "0.1.0";

/// The address announced to clients unless told otherwise.
pub const DEFAULT_ANNOUNCE_ADDRESS: &'static str = "127.0.0.1";

/// File name of the configuration file inside the configuration directory.
pub const CONFIG_FILE_NAME: &'static str = "config.toml";

/// Number of words of the cosmos wallet mnemonic that a fresh configuration generates.
pub const MNEMONIC_WORD_COUNT: usize = 24;

/// Default delay between two presence announcements, in milliseconds.
pub const DEFAULT_PRESENCE_SENDING_DELAY_MS: u64 = 10_000;

/// Default initial backoff when forwarding to a dropped connection, in milliseconds.
pub const DEFAULT_PACKET_FORWARDING_INITIAL_BACKOFF_MS: u64 = 10_000;

/// Default maximum backoff when forwarding to a dropped connection, in milliseconds.
pub const DEFAULT_PACKET_FORWARDING_MAXIMUM_BACKOFF_MS: u64 = 300_000;

/// Default timeout for establishing a forwarding connection, in milliseconds.
pub const DEFAULT_INITIAL_CONNECTION_TIMEOUT_MS: u64 = 1_500;

/// Default number of packets that may wait for one connection.
pub const DEFAULT_MAXIMUM_CONNECTION_BUFFER_SIZE: usize = 128;

/// Default length of the file names of stored client messages.
pub const DEFAULT_STORED_MESSAGE_FILENAME_LENGTH: u16 = 16;

/// Default number of stored messages handed out at once.
pub const DEFAULT_MESSAGE_RETRIEVAL_LIMIT: i64 = 100;

/// Why a configuration could not be made.
#[derive(Clone, Copy, Debug, PartialEq, Eq)]
pub enum ConfigError {
    /// One of the built-in default URLs does not parse.
    InvalidDefaultUrl,
    /// The home directory, under which the default root directory lies, is unknown.
    HomeDirectoryUnavailable,
}

/// The `[gateway]` settings, as mathematical values.
#[verifier::ext_equal]
pub struct GatewayView {
    pub version: Seq<char>,
    pub id: Seq<char>,
    pub only_coconut_credentials: bool,
    pub listening_address: IpAddress,
    pub announce_address: Seq<char>,
    pub mix_port: u16,
    pub clients_port: u16,
    pub private_identity_key_file: Seq<char>,
    pub public_identity_key_file: Seq<char>,
    pub private_sphinx_key_file: Seq<char>,
    pub public_sphinx_key_file: Seq<char>,
    pub enabled_statistics: bool,
    pub statistics_service_url: Url,
    pub nym_api_urls: Seq<Url>,
    pub nyxd_urls: Seq<Url>,
    pub cosmos_mnemonic: Mnemonic,
    pub nym_root_directory: Seq<char>,
    pub persistent_storage: Seq<char>,
    pub wallet_address: Option<Seq<char>>,
}

/// The `[debug]` settings, as mathematical values.
#[verifier::ext_equal]
pub struct DebugView {
    pub packet_forwarding_initial_backoff: Duration,
    pub packet_forwarding_maximum_backoff: Duration,
    pub initial_connection_timeout: Duration,
    pub maximum_connection_buffer_size: usize,
    pub presence_sending_delay: Duration,
    pub stored_messages_filename_length: u16,
    pub message_retrieval_limit: i64,
    pub use_legacy_framed_packet_version: bool,
}

/// A whole configuration, as mathematical values (the `[logging]` section holds nothing).
#[verifier::ext_equal]
pub struct ConfigView {
    pub gateway: GatewayView,
    pub debug: DebugView,
}

/// The settings of the gateway itself.
pub struct Gateway {
    /// Version of the gateway for which this configuration was created.
    pub version: String,
    /// Human readable ID of this particular gateway.
    pub id: String,
    /// Whether the gateway accepts only coconut credentials, or also non-paying clients.
    pub only_coconut_credentials: bool,
    /// Address on which the gateway listens for packets.
    pub listening_address: IpAddress,
    /// Address announced to the validator for the clients to connect to.
    pub announce_address: String,
    /// Port used for listening for all mixnet traffic.
    pub mix_port: u16,
    /// Port used for listening for all client-related traffic.
    pub clients_port: u16,
    /// Path to file containing the private identity key.
    pub private_identity_key_file: String,
    /// Path to file containing the public identity key.
    pub public_identity_key_file: String,
    /// Path to file containing the private sphinx key.
    pub private_sphinx_key_file: String,
    /// Path to file containing the public sphinx key.
    pub public_sphinx_key_file: String,
    /// Whether the gateway collects and sends anonymized statistics.
    pub enabled_statistics: bool,
    /// Domain address of the statistics service.
    pub statistics_service_url: Url,
    /// Addresses of the APIs from which the node gets the view of the network.
    pub nym_api_urls: Vec<Url>,
    /// Addresses of the validators used to check for double spending.
    pub nyxd_urls: Vec<Url>,
    /// Mnemonic of the cosmos wallet used in checking for double spending.
    pub cosmos_mnemonic: Mnemonic,
    /// Root directory of all gateways' files.
    pub nym_root_directory: String,
    /// Path to the database holding all persistent data.
    pub persistent_storage: String,
    /// Bech32 text of the cosmos wallet address that controls this gateway, if given.
    pub wallet_address: Option<String>,
}

/// The logging settings (none at present).
pub struct Logging {}

/// Settings that tune the gateway's behaviour.
pub struct DebugSettings {
    /// Initial value of the exponential backoff when reconnecting to forward sphinx packets.
    pub packet_forwarding_initial_backoff: Duration,
    /// Maximum value of that backoff.
    pub packet_forwarding_maximum_backoff: Duration,
    /// Timeout for establishing the initial connection when forwarding a sphinx packet.
    pub initial_connection_timeout: Duration,
    /// Maximum number of packets that can wait for one connection.
    pub maximum_connection_buffer_size: usize,
    /// Delay between two presence announcements.
    pub presence_sending_delay: Duration,
    /// Length of the file names of new client messages.
    pub stored_messages_filename_length: u16,
    /// Number of stored messages of an offline client handed out at once.
    pub message_retrieval_limit: i64,
    /// Whether the legacy framing is used for sphinx packets.
    pub use_legacy_framed_packet_version: bool,
}

/// A gateway's whole configuration.
pub struct Config {
    pub gateway: Gateway,
    pub logging: Logging,
    pub debug: DebugSettings,
}

impl View for Gateway {
    type V = GatewayView;

    open spec fn view(&self) -> GatewayView {
        GatewayView {
            version: self.version@,
            id: self.id@,
            only_coconut_credentials: self.only_coconut_credentials,
            listening_address: self.listening_address,
            announce_address: self.announce_address@,
            mix_port: self.mix_port,
            clients_port: self.clients_port,
            private_identity_key_file: self.private_identity_key_file@,
            public_identity_key_file: self.public_identity_key_file@,
            private_sphinx_key_file: self.private_sphinx_key_file@,
            public_sphinx_key_file: self.public_sphinx_key_file@,
            enabled_statistics: self.enabled_statistics,
            statistics_service_url: self.statistics_service_url,
            nym_api_urls: self.nym_api_urls@,
            nyxd_urls: self.nyxd_urls@,
            cosmos_mnemonic: self.cosmos_mnemonic,
            nym_root_directory: self.nym_root_directory@,
            persistent_storage: self.persistent_storage@,
            wallet_address: match self.wallet_address {
                Some(w) => Some(w@),
                None => None,
            },
        }
    }
}

impl View for DebugSettings {
    type V = DebugView;

    open spec fn view(&self) -> DebugView {
        DebugView {
            packet_forwarding_initial_backoff: self.packet_forwarding_initial_backoff,
            packet_forwarding_maximum_backoff: self.packet_forwarding_maximum_backoff,
            initial_connection_timeout: self.initial_connection_timeout,
            maximum_connection_buffer_size: self.maximum_connection_buffer_size,
            presence_sending_delay: self.presence_sending_delay,
            stored_messages_filename_length: self.stored_messages_filename_length,
            message_retrieval_limit: self.message_retrieval_limit,
            use_legacy_framed_packet_version: self.use_legacy_framed_packet_version,
        }
    }
}

impl View for Config {
    type V = ConfigView;

    open spec fn view(&self) -> ConfigView {
        ConfigView { gateway: self.gateway@, debug: self.debug@ }
    }
}

/// `<root>/<id>/data`: where a gateway's keys and database live by default.
pub open spec fn data_directory_of(root: Seq<char>, id: Seq<char>) -> Seq<char> {
    path_join(path_join(root, id), "data"@)
}

/// `<root>/<id>/config`: where a gateway's configuration file lives.
pub open spec fn config_directory_of(root: Seq<char>, id: Seq<char>) -> Seq<char> {
    path_join(path_join(root, id), "config"@)
}

/// `<home>/.nym/gateways`: the default root directory under a home directory.
pub open spec fn default_root_under(home: Seq<char>) -> Seq<char> {
    path_join(path_join(home, ".nym"@), "gateways"@)
}

/// A path setting kept where it is set, and otherwise `<dir>/<file>`.
pub open spec fn path_or_default(current: Seq<char>, dir: Seq<char>, file: Seq<char>) -> Seq<char> {
    if current.len() == 0 {
        path_join(dir, file)
    } else {
        current
    }
}

impl DebugView {
    /// The default `[debug]` settings.
    pub open spec fn default_view() -> DebugView {
        DebugView {
            packet_forwarding_initial_backoff: millis_duration(
                DEFAULT_PACKET_FORWARDING_INITIAL_BACKOFF_MS,
            ),
            packet_forwarding_maximum_backoff: millis_duration(
                DEFAULT_PACKET_FORWARDING_MAXIMUM_BACKOFF_MS,
            ),
            initial_connection_timeout: millis_duration(DEFAULT_INITIAL_CONNECTION_TIMEOUT_MS),
            maximum_connection_buffer_size: DEFAULT_MAXIMUM_CONNECTION_BUFFER_SIZE,
            presence_sending_delay: millis_duration(DEFAULT_PRESENCE_SENDING_DELAY_MS),
            stored_messages_filename_length: DEFAULT_STORED_MESSAGE_FILENAME_LENGTH,
            message_retrieval_limit: DEFAULT_MESSAGE_RETRIEVAL_LIMIT,
            use_legacy_framed_packet_version: true,
        }
    }
}

impl GatewayView {
    /// The default `[gateway]` settings, given the default URLs, a wallet mnemonic
    /// and the root directory.
    pub open spec fn default_with(
        statistics_service_url: Url,
        nym_api_url: Url,
        nyxd_url: Url,
        cosmos_mnemonic: Mnemonic,
        nym_root_directory: Seq<char>,
    ) -> GatewayView {
        GatewayView {
            version: GATEWAY_VERSION@,
            id: Seq::empty(),
            only_coconut_credentials: false,
            listening_address: IpAddress::spec_unspecified_v4(),
            announce_address: DEFAULT_ANNOUNCE_ADDRESS@,
            mix_port: DEFAULT_MIX_LISTENING_PORT,
            clients_port: DEFAULT_CLIENT_LISTENING_PORT,
            private_identity_key_file: Seq::empty(),
            public_identity_key_file: Seq::empty(),
            private_sphinx_key_file: Seq::empty(),
            public_sphinx_key_file: Seq::empty(),
            enabled_statistics: false,
            statistics_service_url,
            nym_api_urls: seq![nym_api_url],
            nyxd_urls: seq![nyxd_url],
            cosmos_mnemonic,
            nym_root_directory,
            persistent_storage: Seq::empty(),
            wallet_address: None,
        }
    }
}

impl ConfigView {
    /// The default configuration, given the default URLs, a wallet mnemonic and
    /// the root directory.
    pub open spec fn default_with(
        statistics_service_url: Url,
        nym_api_url: Url,
        nyxd_url: Url,
        cosmos_mnemonic: Mnemonic,
        nym_root_directory: Seq<char>,
    ) -> ConfigView {
        ConfigView {
            gateway: GatewayView::default_with(
                statistics_service_url,
                nym_api_url,
                nyxd_url,
                cosmos_mnemonic,
                nym_root_directory,
            ),
            debug: DebugView::default_view(),
        }
    }

    /// Whether a key file or the database path is still unset (empty).
    pub open spec fn has_unset_key_path(self) -> bool {
        ||| self.gateway.private_identity_key_file.len() == 0
        ||| self.gateway.public_identity_key_file.len() == 0
        ||| self.gateway.private_sphinx_key_file.len() == 0
        ||| self.gateway.public_sphinx_key_file.len() == 0
        ||| self.gateway.persistent_storage.len() == 0
    }

    /// The configuration given the id `id`: every unset key file and the unset
    /// database path become files of `<root>/<id>/data`; paths already set stay.
    pub open spec fn id_set_under(self, id: Seq<char>, root: Seq<char>) -> ConfigView {
        let dir = data_directory_of(root, id);
        ConfigView {
            gateway: GatewayView {
                id: id,
                private_sphinx_key_file: path_or_default(
                    self.gateway.private_sphinx_key_file,
                    dir,
                    "private_sphinx.pem"@,
                ),
                public_sphinx_key_file: path_or_default(
                    self.gateway.public_sphinx_key_file,
                    dir,
                    "public_sphinx.pem"@,
                ),
                private_identity_key_file: path_or_default(
                    self.gateway.private_identity_key_file,
                    dir,
                    "private_identity.pem"@,
                ),
                public_identity_key_file: path_or_default(
                    self.gateway.public_identity_key_file,
                    dir,
                    "public_identity.pem"@,
                ),
                persistent_storage: path_or_default(
                    self.gateway.persistent_storage,
                    dir,
                    "db.sqlite"@,
                ),
                ..self.gateway
            },
            ..self
        }
    }

    pub open spec fn set_only_coconut_credentials(self, v: bool) -> ConfigView {
        ConfigView { gateway: GatewayView { only_coconut_credentials: v, ..self.gateway }, ..self }
    }

    pub open spec fn set_enabled_statistics(self, v: bool) -> ConfigView {
        ConfigView { gateway: GatewayView { enabled_statistics: v, ..self.gateway }, ..self }
    }

    pub open spec fn set_statistics_service_url(self, v: Url) -> ConfigView {
        ConfigView { gateway: GatewayView { statistics_service_url: v, ..self.gateway }, ..self }
    }

    pub open spec fn set_nym_api_urls(self, v: Seq<Url>) -> ConfigView {
        ConfigView { gateway: GatewayView { nym_api_urls: v, ..self.gateway }, ..self }
    }

    pub open spec fn set_nyxd_urls(self, v: Seq<Url>) -> ConfigView {
        ConfigView { gateway: GatewayView { nyxd_urls: v, ..self.gateway }, ..self }
    }

    pub open spec fn set_cosmos_mnemonic(self, v: Mnemonic) -> ConfigView {
        ConfigView { gateway: GatewayView { cosmos_mnemonic: v, ..self.gateway }, ..self }
    }

    pub open spec fn set_listening_address(self, v: IpAddress) -> ConfigView {
        ConfigView { gateway: GatewayView { listening_address: v, ..self.gateway }, ..self }
    }

    pub open spec fn set_announce_address(self, v: Seq<char>) -> ConfigView {
        ConfigView { gateway: GatewayView { announce_address: v, ..self.gateway }, ..self }
    }

    pub open spec fn set_mix_port(self, v: u16) -> ConfigView {
        ConfigView { gateway: GatewayView { mix_port: v, ..self.gateway }, ..self }
    }

    pub open spec fn set_clients_port(self, v: u16) -> ConfigView {
        ConfigView { gateway: GatewayView { clients_port: v, ..self.gateway }, ..self }
    }

    pub open spec fn set_persistent_storage(self, v: Seq<char>) -> ConfigView {
        ConfigView { gateway: GatewayView { persistent_storage: v, ..self.gateway }, ..self }
    }

    pub open spec fn set_version(self, v: Seq<char>) -> ConfigView {
        ConfigView { gateway: GatewayView { version: v, ..self.gateway }, ..self }
    }

    pub open spec fn set_wallet_address(self, v: Seq<char>) -> ConfigView {
        ConfigView { gateway: GatewayView { wallet_address: Some(v), ..self.gateway }, ..self }
    }

    /// The root directory of all gateways' files.
    pub open spec fn root_directory(self) -> Seq<char> {
        self.gateway.nym_root_directory
    }

    /// `<root>/<id>/config`.
    pub open spec fn config_directory(self) -> Seq<char> {
        config_directory_of(self.gateway.nym_root_directory, self.gateway.id)
    }

    /// `<root>/<id>/data`.
    pub open spec fn data_directory(self) -> Seq<char> {
        data_directory_of(self.gateway.nym_root_directory, self.gateway.id)
    }

    /// `<root>/<id>/config/config.toml`.
    pub open spec fn config_file_save_location(self) -> Seq<char> {
        path_join(self.config_directory(), CONFIG_FILE_NAME@)
    }
}

/// The text `"MISSING VALUE"`, used where the configuration file gives no value.
pub fn missing_string_value() -> (res: String)
    ensures
        res@ == "MISSING VALUE"@,
{
    MISSING_VALUE.to_owned()
}

/// The unspecified IPv4 address `0.0.0.0`, on which a gateway listens by default.
pub fn bind_all_address() -> (res: IpAddress)
    ensures
        res == IpAddress::spec_unspecified_v4(),
{
    IpAddress::V4([0u8, 0u8, 0u8, 0u8])
}

/// The default mixnet port.
pub fn default_mix_port() -> (res: u16)
    ensures
        res == DEFAULT_MIX_LISTENING_PORT,
{
    DEFAULT_MIX_LISTENING_PORT
}

/// The default client port.
pub fn default_clients_port() -> (res: u16)
    ensures
        res == DEFAULT_CLIENT_LISTENING_PORT,
{
    DEFAULT_CLIENT_LISTENING_PORT
}

/// `<home>/.nym/gateways`.
pub fn default_root_directory_under(home: &str) -> (res: String)
    ensures
        res@ == default_root_under(home@),
{
    let nym = join_path(home, ".nym");
    join_path(nym.as_str(), "gateways")
}

/// The default root directory, `<home>/.nym/gateways`, where the home directory
/// is known; `None` where it is not.
pub fn try_default_root_directory() -> (res: Option<String>)
    ensures
        res matches Some(r) ==> exists|home: Seq<char>| r@ == #[trigger] default_root_under(home),
{
    match home_directory() {
        Some(home) => {
            let root = default_root_directory_under(home.as_str());
            assert(root@ == default_root_under(home@));
            Some(root)
        },
        None => None,
    }
}

/// `<root>/<id>/data`.
pub fn data_directory_under(root: &str, id: &str) -> (res: String)
    ensures
        res@ == data_directory_of(root@, id@),
{
    let gateway_dir = join_path(root, id);
    join_path(gateway_dir.as_str(), "data")
}

/// `<root>/<id>/config`.
pub fn config_directory_under(root: &str, id: &str) -> (res: String)
    ensures
        res@ == config_directory_of(root@, id@),
{
    let gateway_dir = join_path(root, id);
    join_path(gateway_dir.as_str(), "config")
}

fn clone_urls(v: &Vec<Url>) -> (res: Vec<Url>)
    ensures
        res@ == v@,
{
    let mut out: Vec<Url> = Vec::new();
    let mut i: usize = 0;
    while i < v.len()
        invariant
            i <= v.len(),
            out@ == v@.subrange(0, i as int),
        decreases v.len() - i,
    {
        out.push(clone_url(&v[i]));
        i = i + 1;
        assert(out@ =~= v@.subrange(0, i as int));
    }
    assert(v@.subrange(0, v.len() as int) =~= v@);
    out
}

impl Default for DebugSettings {
    fn default() -> (res: DebugSettings)
        ensures
            res@ == DebugView::default_view(),
            has_default_durations(res@),
    {
        DebugSettings {
            packet_forwarding_initial_backoff: duration_from_millis(
                DEFAULT_PACKET_FORWARDING_INITIAL_BACKOFF_MS,
            ),
            packet_forwarding_maximum_backoff: duration_from_millis(
                DEFAULT_PACKET_FORWARDING_MAXIMUM_BACKOFF_MS,
            ),
            initial_connection_timeout: duration_from_millis(DEFAULT_INITIAL_CONNECTION_TIMEOUT_MS),
            maximum_connection_buffer_size: DEFAULT_MAXIMUM_CONNECTION_BUFFER_SIZE,
            presence_sending_delay: duration_from_millis(DEFAULT_PRESENCE_SENDING_DELAY_MS),
            stored_messages_filename_length: DEFAULT_STORED_MESSAGE_FILENAME_LENGTH,
            message_retrieval_limit: DEFAULT_MESSAGE_RETRIEVAL_LIMIT,
            use_legacy_framed_packet_version: true,
        }
    }
}

impl Gateway {
    /// `<root>/<id>/data/private_sphinx.pem`.
    pub fn default_private_sphinx_key_file(root: &str, id: &str) -> (res: String)
        ensures
            res@ == path_join(data_directory_of(root@, id@), "private_sphinx.pem"@),
    {
        let dir = data_directory_under(root, id);
        join_path(dir.as_str(), "private_sphinx.pem")
    }

    /// `<root>/<id>/data/public_sphinx.pem`.
    pub fn default_public_sphinx_key_file(root: &str, id: &str) -> (res: String)
        ensures
            res@ == path_join(data_directory_of(root@, id@), "public_sphinx.pem"@),
    {
        let dir = data_directory_under(root, id);
        join_path(dir.as_str(), "public_sphinx.pem")
    }

    /// `<root>/<id>/data/private_identity.pem`.
    pub fn default_private_identity_key_file(root: &str, id: &str) -> (res: String)
        ensures
            res@ == path_join(data_directory_of(root@, id@), "private_identity.pem"@),
    {
        let dir = data_directory_under(root, id);
        join_path(dir.as_str(), "private_identity.pem")
    }

    /// `<root>/<id>/data/public_identity.pem`.
    pub fn default_public_identity_key_file(root: &str, id: &str) -> (res: String)
        ensures
            res@ == path_join(data_directory_of(root@, id@), "public_identity.pem"@),
    {
        let dir = data_directory_under(root, id);
        join_path(dir.as_str(), "public_identity.pem")
    }

    /// `<root>/<id>/data/db.sqlite`.
    pub fn default_database_path(root: &str, id: &str) -> (res: String)
        ensures
            res@ == path_join(data_directory_of(root@, id@), "db.sqlite"@),
    {
        let dir = data_directory_under(root, id);
        join_path(dir.as_str(), "db.sqlite")
    }

    /// The default gateway settings, given the parsed default URLs, a wallet
    /// mnemonic and the root directory.
    pub fn default_with(
        statistics_service_url: Url,
        nym_api_url: Url,
        nyxd_url: Url,
        cosmos_mnemonic: Mnemonic,
        nym_root_directory: String,
    ) -> (res: Gateway)
        ensures
            res@ == GatewayView::default_with(
                statistics_service_url,
                nym_api_url,
                nyxd_url,
                cosmos_mnemonic,
                nym_root_directory@,
            ),
    {
        let mut nym_api_urls: Vec<Url> = Vec::new();
        nym_api_urls.push(nym_api_url);
        let mut nyxd_urls: Vec<Url> = Vec::new();
        nyxd_urls.push(nyxd_url);
        let res = Gateway {
            version: GATEWAY_VERSION.to_owned(),
            id: String::new(),
            only_coconut_credentials: false,
            listening_address: bind_all_address(),
            announce_address: DEFAULT_ANNOUNCE_ADDRESS.to_owned(),
            mix_port: DEFAULT_MIX_LISTENING_PORT,
            clients_port: DEFAULT_CLIENT_LISTENING_PORT,
            private_identity_key_file: String::new(),
            public_identity_key_file: String::new(),
            private_sphinx_key_file: String::new(),
            public_sphinx_key_file: String::new(),
            enabled_statistics: false,
            statistics_service_url,
            nym_api_urls,
            nyxd_urls,
            cosmos_mnemonic,
            nym_root_directory,
            persistent_storage: String::new(),
            wallet_address: None,
        };
        assert(res.nym_api_urls@ =~= seq![nym_api_url]);
        assert(res.nyxd_urls@ =~= seq![nyxd_url]);
        res
    }
}

impl Config {
    /// Whether a key file or the database path is still unset (empty).
    pub fn has_unset_key_path(&self) -> (res: bool)
        ensures
            res == self@.has_unset_key_path(),
    {
        self.gateway.private_identity_key_file.as_str().is_empty()
            || self.gateway.public_identity_key_file.as_str().is_empty()
            || self.gateway.private_sphinx_key_file.as_str().is_empty()
            || self.gateway.public_sphinx_key_file.as_str().is_empty()
            || self.gateway.persistent_storage.as_str().is_empty()
    }

    /// The default configuration, given the parsed default URLs, a wallet
    /// mnemonic and the root directory.
    pub fn default_with(
        statistics_service_url: Url,
        nym_api_url: Url,
        nyxd_url: Url,
        cosmos_mnemonic: Mnemonic,
        nym_root_directory: String,
    ) -> (res: Config)
        ensures
            res@ == ConfigView::default_with(
                statistics_service_url,
                nym_api_url,
                nyxd_url,
                cosmos_mnemonic,
                nym_root_directory@,
            ),
            has_default_durations(res@.debug),
    {
        Config {
            gateway: Gateway::default_with(
                statistics_service_url,
                nym_api_url,
                nyxd_url,
                cosmos_mnemonic,
                nym_root_directory,
            ),
            logging: Logging {  },
            debug: DebugSettings::default(),
        }
    }

    /// The outside inputs of a default configuration: the three built-in URLs,
    /// parsed; a freshly generated 24-word wallet mnemonic; and the default root
    /// directory `<home>/.nym/gateways`.
    fn default_parts() -> (res: Result<(Url, Url, Url, Mnemonic, String), ConfigError>)
        ensures
            res matches Err(ConfigError::InvalidDefaultUrl) <==> !default_urls_parse(),
            res matches Ok(parts) ==> {
                &&& default_urls_parse()
                &&& parts.0 == parsed_url(STATISTICS_SERVICE_DOMAIN_ADDRESS@).unwrap()
                &&& parts.1 == parsed_url(NYM_API@).unwrap()
                &&& parts.2 == parsed_url(NYXD_URL@).unwrap()
                &&& mnemonic_word_count(parts.3) == 24
                &&& exists|home: Seq<char>| parts.4@ == #[trigger] default_root_under(home)
            },
    {
        let statistics_service_url = match parse_url(STATISTICS_SERVICE_DOMAIN_ADDRESS) {
            Ok(u) => u,
            Err(_) => {
                return Err(ConfigError::InvalidDefaultUrl);
            },
        };
        let nym_api_url = match parse_url(NYM_API) {
            Ok(u) => u,
            Err(_) => {
                return Err(ConfigError::InvalidDefaultUrl);
            },
        };
        let nyxd_url = match parse_url(NYXD_URL) {
            Ok(u) => u,
            Err(_) => {
                return Err(ConfigError::InvalidDefaultUrl);
            },
        };
        let cosmos_mnemonic = match generate_mnemonic(MNEMONIC_WORD_COUNT) {
            Ok(m) => m,
            Err(_) => vstd::pervasive::unreached(),
        };
        match try_default_root_directory() {
            Some(root) => Ok((statistics_service_url, nym_api_url, nyxd_url, cosmos_mnemonic, root)),
            None => Err(ConfigError::HomeDirectoryUnavailable),
        }
    }

    /// The default configuration: the built-in URLs, a freshly generated
    /// 24-word wallet mnemonic and the root directory `<home>/.nym/gateways`.
    /// Fails with `InvalidDefaultUrl` exactly when a built-in URL does not parse,
    /// and otherwise with `HomeDirectoryUnavailable` where the home directory is unknown.
    pub fn try_default() -> (res: Result<Config, ConfigError>)
        ensures
            res matches Err(ConfigError::InvalidDefaultUrl) <==> !default_urls_parse(),
            res matches Err(ConfigError::HomeDirectoryUnavailable) ==> default_urls_parse(),
            res matches Ok(c) ==> exists|m: Mnemonic, home: Seq<char>|
                c@ == #[trigger] default_config_view(m, default_root_under(home)),
            res matches Ok(c) ==> mnemonic_word_count(c@.gateway.cosmos_mnemonic) == 24,
            res matches Ok(c) ==> has_default_durations(c@.debug),
    {
        match Config::default_parts() {
            Ok((statistics_service_url, nym_api_url, nyxd_url, cosmos_mnemonic, root)) => {
                let ghost mnemonic = cosmos_mnemonic;
                let ghost root_view = root@;
                let res = Config::default_with(
                    statistics_service_url,
                    nym_api_url,
                    nyxd_url,
                    cosmos_mnemonic,
                    root,
                );
                proof {
                    let home = choose|h: Seq<char>| root_view == #[trigger] default_root_under(h);
                    assert(res@ == default_config_view(mnemonic, default_root_under(home)));
                }
                Ok(res)
            },
            Err(e) => Err(e),
        }
    }

    /// A default configuration for the gateway `id`: as `try_default`, then
    /// `with_id`, with the root directory read once for both.
    pub fn new(id: String) -> (res: Result<Config, ConfigError>)
        ensures
            res matches Err(ConfigError::InvalidDefaultUrl) <==> !default_urls_parse(),
            res matches Err(ConfigError::HomeDirectoryUnavailable) ==> default_urls_parse(),
            res matches Ok(c) ==> mnemonic_word_count(c@.gateway.cosmos_mnemonic) == 24,
            res matches Ok(c) ==> has_default_durations(c@.debug),
            res matches Ok(c) ==> exists|m: Mnemonic, home: Seq<char>|
                c@ == #[trigger] default_config_view(m, default_root_under(home)).id_set_under(
                    id@,
                    default_root_under(home),
                ),
    {
        match Config::default_parts() {
            Ok((statistics_service_url, nym_api_url, nyxd_url, cosmos_mnemonic, root)) => {
                let ghost mnemonic = cosmos_mnemonic;
                let ghost id_view = id@;
                let config = Config::default_with(
                    statistics_service_url,
                    nym_api_url,
                    nyxd_url,
                    cosmos_mnemonic,
                    root.clone(),
                );
                let res = config.with_id_under(id, root.as_str());
                proof {
                    let home = choose|h: Seq<char>| root@ == #[trigger] default_root_under(h);
                    assert(res@ == default_config_view(mnemonic, default_root_under(home)).id_set_under(
                        id_view,
                        default_root_under(home),
                    ));
                }
                Ok(res)
            },
            Err(e) => Err(e),
        }
    }

    /// Gives the gateway the id `id`. Every unset key file and the unset database
    /// path become files of `<root>/<id>/data`; paths already set stay.
    pub fn with_id_under(self, id: String, root: &str) -> (res: Config)
        ensures
            res@ == self@.id_set_under(id@, root@),
    {
        let mut this = self;
        if this.gateway.private_sphinx_key_file.as_str().is_empty() {
            this.gateway.private_sphinx_key_file =
                Gateway::default_private_sphinx_key_file(root, id.as_str());
        }
        if this.gateway.public_sphinx_key_file.as_str().is_empty() {
            this.gateway.public_sphinx_key_file =
                Gateway::default_public_sphinx_key_file(root, id.as_str());
        }
        if this.gateway.private_identity_key_file.as_str().is_empty() {
            this.gateway.private_identity_key_file =
                Gateway::default_private_identity_key_file(root, id.as_str());
        }
        if this.gateway.public_identity_key_file.as_str().is_empty() {
            this.gateway.public_identity_key_file =
                Gateway::default_public_identity_key_file(root, id.as_str());
        }
        if this.gateway.persistent_storage.as_str().is_empty() {
            this.gateway.persistent_storage = Gateway::default_database_path(root, id.as_str());
        }
        this.gateway.id = id;
        this
    }

    /// Gives the gateway the id `id`, with unset key files and database path
    /// placed under the default root directory `<home>/.nym/gateways`. The home
    /// directory is read only where some such path is unset, and the call fails
    /// only where it is needed and unknown.
    pub fn with_id(self, id: String) -> (res: Result<Config, ConfigError>)
        ensures
            !self@.has_unset_key_path() ==> (res matches Ok(c) && c@ == self@.id_set_under(
                id@,
                Seq::empty(),
            )),
            res matches Ok(c) ==> exists|home: Seq<char>|
                c@ == #[trigger] self@.id_set_under(id@, default_root_under(home)),
            res matches Err(e) ==> self@.has_unset_key_path() && e
                == ConfigError::HomeDirectoryUnavailable,
    {
        if self.has_unset_key_path() {
            match try_default_root_directory() {
                Some(root) => Ok(self.with_id_under(id, root.as_str())),
                None => Err(ConfigError::HomeDirectoryUnavailable),
            }
        } else {
            let ghost before = self@;
            let res = self.with_id_under(id, "");
            proof {
                lemma_with_id_ignores_root_when_paths_set(before, id@, ""@, Seq::empty());
                lemma_with_id_ignores_root_when_paths_set(
                    before,
                    id@,
                    Seq::empty(),
                    default_root_under(Seq::empty()),
                );
                assert(res@ == before.id_set_under(id@, default_root_under(Seq::empty())));
            }
            Ok(res)
        }
    }

    pub fn with_only_coconut_credentials(self, only_coconut_credentials: bool) -> (res: Config)
        ensures
            res@ == self@.set_only_coconut_credentials(only_coconut_credentials),
    {
        let mut this = self;
        this.gateway.only_coconut_credentials = only_coconut_credentials;
        this
    }

    pub fn with_enabled_statistics(self, enabled_statistics: bool) -> (res: Config)
        ensures
            res@ == self@.set_enabled_statistics(enabled_statistics),
    {
        let mut this = self;
        this.gateway.enabled_statistics = enabled_statistics;
        this
    }

    pub fn with_custom_statistics_service_url(self, statistics_service_url: Url) -> (res: Config)
        ensures
            res@ == self@.set_statistics_service_url(statistics_service_url),
    {
        let mut this = self;
        this.gateway.statistics_service_url = statistics_service_url;
        this
    }

    pub fn with_custom_nym_apis(self, nym_api_urls: Vec<Url>) -> (res: Config)
        ensures
            res@ == self@.set_nym_api_urls(nym_api_urls@),
    {
        let mut this = self;
        this.gateway.nym_api_urls = nym_api_urls;
        this
    }

    pub fn with_custom_validator_nyxd(self, validator_nyxd_urls: Vec<Url>) -> (res: Config)
        ensures
            res@ == self@.set_nyxd_urls(validator_nyxd_urls@),
    {
        let mut this = self;
        this.gateway.nyxd_urls = validator_nyxd_urls;
        this
    }

    pub fn with_cosmos_mnemonic(self, cosmos_mnemonic: Mnemonic) -> (res: Config)
        ensures
            res@ == self@.set_cosmos_mnemonic(cosmos_mnemonic),
    {
        let mut this = self;
        this.gateway.cosmos_mnemonic = cosmos_mnemonic;
        this
    }

    pub fn with_listening_address(self, listening_address: IpAddress) -> (res: Config)
        ensures
            res@ == self@.set_listening_address(listening_address),
    {
        let mut this = self;
        this.gateway.listening_address = listening_address;
        this
    }

    pub fn with_announce_address(self, announce_address: String) -> (res: Config)
        ensures
            res@ == self@.set_announce_address(announce_address@),
    {
        let mut this = self;
        this.gateway.announce_address = announce_address;
        this
    }

    pub fn with_mix_port(self, port: u16) -> (res: Config)
        ensures
            res@ == self@.set_mix_port(port),
    {
        let mut this = self;
        this.gateway.mix_port = port;
        this
    }

    pub fn with_clients_port(self, port: u16) -> (res: Config)
        ensures
            res@ == self@.set_clients_port(port),
    {
        let mut this = self;
        this.gateway.clients_port = port;
        this
    }

    /// Announces the listening address, in its textual form.
    pub fn announce_host_from_listening_host(self) -> (res: Config)
        ensures
            res@ == self@.set_announce_address(ip_text(self@.gateway.listening_address)),
    {
        let mut this = self;
        this.gateway.announce_address = this.gateway.listening_address.to_string();
        this
    }

    pub fn with_custom_persistent_store(self, store_dir: String) -> (res: Config)
        ensures
            res@ == self@.set_persistent_storage(store_dir@),
    {
        let mut this = self;
        this.gateway.persistent_storage = store_dir;
        this
    }

    pub fn with_custom_version(self, version: String) -> (res: Config)
        ensures
            res@ == self@.set_version(version@),
    {
        let mut this = self;
        this.gateway.version = version;
        this
    }

    pub fn with_wallet_address(self, wallet_address: String) -> (res: Config)
        ensures
            res@ == self@.set_wallet_address(wallet_address@),
    {
        let mut this = self;
        this.gateway.wallet_address = Some(wallet_address);
        this
    }

    /// The root directory of all gateways' files.
    pub fn root_directory(&self) -> (res: String)
        ensures
            res@ == self@.root_directory(),
    {
        self.gateway.nym_root_directory.clone()
    }

    /// `<root>/<id>/config`.
    pub fn config_directory(&self) -> (res: String)
        ensures
            res@ == self@.config_directory(),
    {
        config_directory_under(self.gateway.nym_root_directory.as_str(), self.gateway.id.as_str())
    }

    /// `<root>/<id>/data`.
    pub fn data_directory(&self) -> (res: String)
        ensures
            res@ == self@.data_directory(),
    {
        data_directory_under(self.gateway.nym_root_directory.as_str(), self.gateway.id.as_str())
    }

    /// `<root>/<id>/config/config.toml`.
    pub fn get_config_file_save_location(&self) -> (res: String)
        ensures
            res@ == self@.config_file_save_location(),
    {
        let dir = self.config_directory();
        join_path(dir.as_str(), CONFIG_FILE_NAME)
    }

    pub fn get_only_coconut_credentials(&self) -> (res: bool)
        ensures
            res == self@.gateway.only_coconut_credentials,
    {
        self.gateway.only_coconut_credentials
    }

    pub fn get_private_identity_key_file(&self) -> (res: String)
        ensures
            res@ == self@.gateway.private_identity_key_file,
    {
        self.gateway.private_identity_key_file.clone()
    }

    pub fn get_public_identity_key_file(&self) -> (res: String)
        ensures
            res@ == self@.gateway.public_identity_key_file,
    {
        self.gateway.public_identity_key_file.clone()
    }

    pub fn get_private_sphinx_key_file(&self) -> (res: String)
        ensures
            res@ == self@.gateway.private_sphinx_key_file,
    {
        self.gateway.private_sphinx_key_file.clone()
    }

    pub fn get_public_sphinx_key_file(&self) -> (res: String)
        ensures
            res@ == self@.gateway.public_sphinx_key_file,
    {
        self.gateway.public_sphinx_key_file.clone()
    }

    pub fn get_enabled_statistics(&self) -> (res: bool)
        ensures
            res == self@.gateway.enabled_statistics,
    {
        self.gateway.enabled_statistics
    }

    pub fn get_statistics_service_url(&self) -> (res: Url)
        ensures
            res == self@.gateway.statistics_service_url,
    {
        clone_url(&self.gateway.statistics_service_url)
    }

    pub fn get_nym_api_endpoints(&self) -> (res: Vec<Url>)
        ensures
            res@ == self@.gateway.nym_api_urls,
    {
        clone_urls(&self.gateway.nym_api_urls)
    }

    pub fn get_nyxd_urls(&self) -> (res: Vec<Url>)
        ensures
            res@ == self@.gateway.nyxd_urls,
    {
        clone_urls(&self.gateway.nyxd_urls)
    }

    pub fn get_cosmos_mnemonic(&self) -> (res: Mnemonic)
        ensures
            res == self@.gateway.cosmos_mnemonic,
    {
        clone_mnemonic(&self.gateway.cosmos_mnemonic)
    }

    pub fn get_listening_address(&self) -> (res: IpAddress)
        ensures
            res == self@.gateway.listening_address,
    {
        self.gateway.listening_address
    }

    pub fn get_announce_address(&self) -> (res: String)
        ensures
            res@ == self@.gateway.announce_address,
    {
        self.gateway.announce_address.clone()
    }

    pub fn get_mix_port(&self) -> (res: u16)
        ensures
            res == self@.gateway.mix_port,
    {
        self.gateway.mix_port
    }

    pub fn get_clients_port(&self) -> (res: u16)
        ensures
            res == self@.gateway.clients_port,
    {
        self.gateway.clients_port
    }

    pub fn get_persistent_store_path(&self) -> (res: String)
        ensures
            res@ == self@.gateway.persistent_storage,
    {
        self.gateway.persistent_storage.clone()
    }

    pub fn get_packet_forwarding_initial_backoff(&self) -> (res: Duration)
        ensures
            res == self@.debug.packet_forwarding_initial_backoff,
    {
        self.debug.packet_forwarding_initial_backoff
    }

    pub fn get_packet_forwarding_maximum_backoff(&self) -> (res: Duration)
        ensures
            res == self@.debug.packet_forwarding_maximum_backoff,
    {
        self.debug.packet_forwarding_maximum_backoff
    }

    pub fn get_initial_connection_timeout(&self) -> (res: Duration)
        ensures
            res == self@.debug.initial_connection_timeout,
    {
        self.debug.initial_connection_timeout
    }

    pub fn get_maximum_connection_buffer_size(&self) -> (res: usize)
        ensures
            res == self@.debug.maximum_connection_buffer_size,
    {
        self.debug.maximum_connection_buffer_size
    }

    pub fn get_use_legacy_sphinx_framing(&self) -> (res: bool)
        ensures
            res == self@.debug.use_legacy_framed_packet_version,
    {
        self.debug.use_legacy_framed_packet_version
    }

    pub fn get_message_retrieval_limit(&self) -> (res: i64)
        ensures
            res == self@.debug.message_retrieval_limit,
    {
        self.debug.message_retrieval_limit
    }

    pub fn get_version(&self) -> (res: &str)
        ensures
            res@ == self@.gateway.version,
    {
        self.gateway.version.as_str()
    }

    pub fn get_wallet_address(&self) -> (res: Option<String>)
        ensures
            match res {
                Some(w) => self@.gateway.wallet_address == Some(w@),
                None => self@.gateway.wallet_address is None,
            },
    {
        match &self.gateway.wallet_address {
            Some(w) => Some(w.clone()),
            None => None,
        }
    }
}

/// Whether the three built-in URLs parse.
pub open spec fn default_urls_parse() -> bool {
    &&& parsed_url(STATISTICS_SERVICE_DOMAIN_ADDRESS@) is Some
    &&& parsed_url(NYM_API@) is Some
    &&& parsed_url(NYXD_URL@) is Some
}

/// The durations of `[debug]` hold their default numbers of milliseconds.
pub open spec fn has_default_durations(d: DebugView) -> bool {
    &&& duration_millis(d.packet_forwarding_initial_backoff)
        == DEFAULT_PACKET_FORWARDING_INITIAL_BACKOFF_MS
    &&& duration_millis(d.packet_forwarding_maximum_backoff)
        == DEFAULT_PACKET_FORWARDING_MAXIMUM_BACKOFF_MS
    &&& duration_millis(d.initial_connection_timeout) == DEFAULT_INITIAL_CONNECTION_TIMEOUT_MS
    &&& duration_millis(d.presence_sending_delay) == DEFAULT_PRESENCE_SENDING_DELAY_MS
}

/// In the default `[debug]` settings the initial forwarding backoff is no longer
/// than the maximum one, and the buffer size, the retrieval limit and the
/// file-name length are positive.
pub proof fn lemma_default_debug_settings_are_consistent(d: DebugView)
    requires
        has_default_durations(d),
        d == DebugView::default_view(),
    ensures
        duration_millis(d.packet_forwarding_initial_backoff) <= duration_millis(
            d.packet_forwarding_maximum_backoff,
        ),
        d.maximum_connection_buffer_size > 0,
        d.message_retrieval_limit > 0,
        d.stored_messages_filename_length > 0,
{
}

/// The default configuration built from the parsed built-in URLs, a wallet
/// mnemonic and a root directory.
pub open spec fn default_config_view(cosmos_mnemonic: Mnemonic, root: Seq<char>) -> ConfigView {
    ConfigView::default_with(
        parsed_url(STATISTICS_SERVICE_DOMAIN_ADDRESS@).unwrap(),
        parsed_url(NYM_API@).unwrap(),
        parsed_url(NYXD_URL@).unwrap(),
        cosmos_mnemonic,
        root,
    )
}

/// When no key file and no database path is unset, giving the gateway an id
/// does not depend on the root directory.
pub proof fn lemma_with_id_ignores_root_when_paths_set(
    c: ConfigView,
    id: Seq<char>,
    root1: Seq<char>,
    root2: Seq<char>,
)
    requires
        !c.has_unset_key_path(),
    ensures
        c.id_set_under(id, root1) == c.id_set_under(id, root2),
{
    assert(c.id_set_under(id, root1) =~= c.id_set_under(id, root2));
}

/// After `with_id`, no key file and no database path is unset.
pub proof fn lemma_with_id_sets_every_key_path(c: ConfigView, id: Seq<char>, root: Seq<char>)
    ensures
        !c.id_set_under(id, root).has_unset_key_path(),
{
    reveal_strlit("private_sphinx.pem");
    reveal_strlit("public_sphinx.pem");
    reveal_strlit("private_identity.pem");
    reveal_strlit("public_identity.pem");
    reveal_strlit("db.sqlite");
    let dir = data_directory_of(root, id);
    lemma_join_nonempty(dir, "private_sphinx.pem"@);
    lemma_join_nonempty(dir, "public_sphinx.pem"@);
    lemma_join_nonempty(dir, "private_identity.pem"@);
    lemma_join_nonempty(dir, "public_identity.pem"@);
    lemma_join_nonempty(dir, "db.sqlite"@);
}

/// Key files and database path, once given, survive any later `with_id`: a
/// second `with_id` changes the id and nothing else.
pub proof fn lemma_with_id_keeps_given_paths(
    c: ConfigView,
    id1: Seq<char>,
    root1: Seq<char>,
    id2: Seq<char>,
    root2: Seq<char>,
)
    ensures
        c.id_set_under(id1, root1).id_set_under(id2, root2) == (ConfigView {
            gateway: GatewayView { id: id2, ..c.id_set_under(id1, root1).gateway },
            ..c.id_set_under(id1, root1)
        }),
{
    lemma_with_id_sets_every_key_path(c, id1, root1);
    let once = c.id_set_under(id1, root1);
    assert(once.id_set_under(id2, root2) =~= (ConfigView {
        gateway: GatewayView { id: id2, ..once.gateway },
        ..once
    }));
}

/// For a fresh configuration made by `new`, every key file and the database lie
/// in the configuration's own data directory `<root>/<id>/data`, and the
/// configuration file in `<root>/<id>/config`.
pub proof fn lemma_new_places_files_in_own_directories(
    cosmos_mnemonic: Mnemonic,
    home: Seq<char>,
    id: Seq<char>,
)
    ensures
        ({
            let root = default_root_under(home);
            let c = default_config_view(cosmos_mnemonic, root).id_set_under(id, root);
            &&& c.gateway.id == id
            &&& c.root_directory() == root
            &&& c.gateway.private_sphinx_key_file == path_join(
                c.data_directory(),
                "private_sphinx.pem"@,
            )
            &&& c.gateway.public_sphinx_key_file == path_join(
                c.data_directory(),
                "public_sphinx.pem"@,
            )
            &&& c.gateway.private_identity_key_file == path_join(
                c.data_directory(),
                "private_identity.pem"@,
            )
            &&& c.gateway.public_identity_key_file == path_join(
                c.data_directory(),
                "public_identity.pem"@,
            )
            &&& c.gateway.persistent_storage == path_join(c.data_directory(), "db.sqlite"@)
            &&& c.config_file_save_location() == path_join(
                config_directory_of(root, id),
                "config.toml"@,
            )
        }),
{
}

/// Each builder sets its own setting and leaves every other one as it was, so
/// a getter gives back what its builder last set; builders of different settings
/// commute, and of the same setting the last one wins.
pub proof fn lemma_builders_set_their_own_setting(
    c: ConfigView,
    port1: u16,
    port2: u16,
    text: Seq<char>,
    a: IpAddress,
)
    ensures
        c.set_mix_port(port1).gateway.mix_port == port1,
        c.set_mix_port(port1).set_clients_port(port2) == c.set_clients_port(port2).set_mix_port(
            port1,
        ),
        c.set_mix_port(port1).set_mix_port(port2) == c.set_mix_port(port2),
        c.set_announce_address(text).set_listening_address(a) == c.set_listening_address(
            a,
        ).set_announce_address(text),
        c.set_listening_address(a).set_announce_address(
            ip_text(c.set_listening_address(a).gateway.listening_address),
        ).gateway.announce_address == ip_text(a),
        c.set_version(text).gateway.version == text,
        c.set_wallet_address(text).gateway.wallet_address == Some(text),
{
    assert(c.set_mix_port(port1).set_clients_port(port2) =~= c.set_clients_port(
        port2,
    ).set_mix_port(port1));
    assert(c.set_mix_port(port1).set_mix_port(port2) =~= c.set_mix_port(port2));
    assert(c.set_announce_address(text).set_listening_address(a) =~= c.set_listening_address(
        a,
    ).set_announce_address(text));
}

/// A root that is a directory name: non-empty and not ending in `/`.
pub open spec fn is_plain_root(root: Seq<char>) -> bool {
    root.len() > 0 && root.last() != '/'
}

/// An id that is one plain path component's worth of text at its ends: non-empty,
/// not starting with `/` (so not absolute) and not ending in `/`.
pub open spec fn is_plain_id(id: Seq<char>) -> bool {
    id.len() > 0 && id[0] != '/' && id.last() != '/'
}

/// The data directory of a gateway is the root, then the whole id, then `data`,
/// each separated by one `/`; the configuration directory likewise ends in `config`.
pub proof fn lemma_directories_spell_root_and_whole_id(root: Seq<char>, id: Seq<char>)
    requires
        is_plain_root(root),
        is_plain_id(id),
    ensures
        data_directory_of(root, id) =~= root + seq!['/'] + id + seq!['/', 'd', 'a', 't', 'a'],
        config_directory_of(root, id) =~= root + seq!['/'] + id + seq![
            '/',
            'c',
            'o',
            'n',
            'f',
            'i',
            'g',
        ],
{
    reveal_strlit("data");
    reveal_strlit("config");
    assert("data"@ =~= seq!['d', 'a', 't', 'a']);
    assert("config"@ =~= seq!['c', 'o', 'n', 'f', 'i', 'g']);
    let gateway_dir = path_join(root, id);
    assert(gateway_dir =~= root + seq!['/'] + id);
    assert(gateway_dir.last() == id.last());
}

/// Giving a gateway the id `id` under `root`: the id is `id`; each key file and
/// the database path that was unset becomes `<root>/<id>/data/<file>`, spelled out
/// character by character; each that was set stays as it was.
pub proof fn lemma_with_id_places_unset_paths_under_whole_id(
    c: ConfigView,
    id: Seq<char>,
    root: Seq<char>,
)
    requires
        is_plain_root(root),
        is_plain_id(id),
    ensures
        ({
            let r = c.id_set_under(id, root).gateway;
            let dir = root + seq!['/'] + id + seq!['/', 'd', 'a', 't', 'a', '/'];
            &&& r.id == id
            &&& r.private_sphinx_key_file == if c.gateway.private_sphinx_key_file.len() == 0 {
                dir + "private_sphinx.pem"@
            } else {
                c.gateway.private_sphinx_key_file
            }
            &&& r.public_sphinx_key_file == if c.gateway.public_sphinx_key_file.len() == 0 {
                dir + "public_sphinx.pem"@
            } else {
                c.gateway.public_sphinx_key_file
            }
            &&& r.private_identity_key_file == if c.gateway.private_identity_key_file.len() == 0 {
                dir + "private_identity.pem"@
            } else {
                c.gateway.private_identity_key_file
            }
            &&& r.public_identity_key_file == if c.gateway.public_identity_key_file.len() == 0 {
                dir + "public_identity.pem"@
            } else {
                c.gateway.public_identity_key_file
            }
            &&& r.persistent_storage == if c.gateway.persistent_storage.len() == 0 {
                dir + "db.sqlite"@
            } else {
                c.gateway.persistent_storage
            }
            &&& c.id_set_under(id, root).debug == c.debug
            &&& r.nym_root_directory == c.gateway.nym_root_directory
            &&& r.mix_port == c.gateway.mix_port
        }),
{
    lemma_directories_spell_root_and_whole_id(root, id);
    let d = data_directory_of(root, id);
    let dir = root + seq!['/'] + id + seq!['/', 'd', 'a', 't', 'a', '/'];
    assert(d.last() == 'a');
    reveal_strlit("private_sphinx.pem");
    reveal_strlit("public_sphinx.pem");
    reveal_strlit("private_identity.pem");
    reveal_strlit("public_identity.pem");
    reveal_strlit("db.sqlite");
    assert(path_join(d, "private_sphinx.pem"@) =~= dir + "private_sphinx.pem"@);
    assert(path_join(d, "public_sphinx.pem"@) =~= dir + "public_sphinx.pem"@);
    assert(path_join(d, "private_identity.pem"@) =~= dir + "private_identity.pem"@);
    assert(path_join(d, "public_identity.pem"@) =~= dir + "public_identity.pem"@);
    assert(path_join(d, "db.sqlite"@) =~= dir + "db.sqlite"@);
}

/// Each builder's setting reads back as given; setting the old value again gives
/// back the configuration it started from (so nothing else was touched); and of
/// two settings of the same field the last one wins.
pub proof fn lemma_builders_read_back(
    c: ConfigView,
    b: bool,
    u: Url,
    us: Seq<Url>,
    m: Mnemonic,
    a: IpAddress,
    t: Seq<char>,
    t2: Seq<char>,
    p: u16,
)
    ensures
        c.set_only_coconut_credentials(b).gateway.only_coconut_credentials == b,
        c.set_only_coconut_credentials(b).set_only_coconut_credentials(
            c.gateway.only_coconut_credentials,
        ) == c,
        c.set_enabled_statistics(b).gateway.enabled_statistics == b,
        c.set_enabled_statistics(b).set_enabled_statistics(c.gateway.enabled_statistics) == c,
        c.set_statistics_service_url(u).gateway.statistics_service_url == u,
        c.set_statistics_service_url(u).set_statistics_service_url(
            c.gateway.statistics_service_url,
        ) == c,
        c.set_nym_api_urls(us).gateway.nym_api_urls == us,
        c.set_nym_api_urls(us).gateway.nym_api_urls.len() == us.len(),
        c.set_nym_api_urls(us).set_nym_api_urls(c.gateway.nym_api_urls) == c,
        c.set_nyxd_urls(us).gateway.nyxd_urls == us,
        c.set_nyxd_urls(us).gateway.nyxd_urls.len() == us.len(),
        forall|i: int| 0 <= i < us.len() ==> #[trigger] c.set_nyxd_urls(us).gateway.nyxd_urls[i] == us[i],
        c.set_nyxd_urls(us).set_nyxd_urls(c.gateway.nyxd_urls) == c,
        c.set_cosmos_mnemonic(m).gateway.cosmos_mnemonic == m,
        c.set_cosmos_mnemonic(m).set_cosmos_mnemonic(c.gateway.cosmos_mnemonic) == c,
        c.set_listening_address(a).gateway.listening_address == a,
        c.set_listening_address(a).set_listening_address(c.gateway.listening_address) == c,
        c.set_announce_address(t).gateway.announce_address == t,
        c.set_announce_address(t).set_announce_address(c.gateway.announce_address) == c,
        c.set_mix_port(p).gateway.mix_port == p,
        c.set_mix_port(p).set_mix_port(c.gateway.mix_port) == c,
        c.set_clients_port(p).gateway.clients_port == p,
        c.set_clients_port(p).set_clients_port(c.gateway.clients_port) == c,
        c.set_persistent_storage(t).gateway.persistent_storage == t,
        c.set_persistent_storage(t).set_persistent_storage(c.gateway.persistent_storage) == c,
        c.set_version(t).gateway.version == t,
        c.set_version(t).set_version(c.gateway.version) == c,
        c.set_wallet_address(t).gateway.wallet_address == Some(t),
        c.set_wallet_address(t2).set_wallet_address(t) == c.set_wallet_address(t),
        c.gateway.wallet_address == Some(t) ==> c.set_wallet_address(t) == c,
{
    assert(c.set_only_coconut_credentials(b).set_only_coconut_credentials(
        c.gateway.only_coconut_credentials,
    ) =~= c);
    assert(c.set_enabled_statistics(b).set_enabled_statistics(c.gateway.enabled_statistics) =~= c);
    assert(c.set_statistics_service_url(u).set_statistics_service_url(
        c.gateway.statistics_service_url,
    ) =~= c);
    assert(c.set_nym_api_urls(us).set_nym_api_urls(c.gateway.nym_api_urls) =~= c);
    assert(c.set_nyxd_urls(us).set_nyxd_urls(c.gateway.nyxd_urls) =~= c);
    assert(c.set_cosmos_mnemonic(m).set_cosmos_mnemonic(c.gateway.cosmos_mnemonic) =~= c);
    assert(c.set_listening_address(a).set_listening_address(c.gateway.listening_address) =~= c);
    assert(c.set_announce_address(t).set_announce_address(c.gateway.announce_address) =~= c);
    assert(c.set_mix_port(p).set_mix_port(c.gateway.mix_port) =~= c);
    assert(c.set_clients_port(p).set_clients_port(c.gateway.clients_port) =~= c);
    assert(c.set_persistent_storage(t).set_persistent_storage(c.gateway.persistent_storage) =~= c);
    assert(c.set_version(t).set_version(c.gateway.version) =~= c);
    assert(c.set_wallet_address(t2).set_wallet_address(t) =~= c.set_wallet_address(t));
    if c.gateway.wallet_address == Some(t) {
        assert(c.set_wallet_address(t) =~= c);
    }
}

} // verus!
