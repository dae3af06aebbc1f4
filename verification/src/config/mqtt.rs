use crate::text::opt_text;
use rumqttc::{AsyncClient, EventLoop, MqttOptions};
use vstd::prelude::*;

verus! {

/// Where the broker is.
pub struct MqttConfig {
    pub host: String,
    pub port: u16,
}

impl Default for MqttConfig {
    fn default() -> (c: Self)
        ensures
            c.host@ == "localhost"@,
            c.port == 1883,
    {
        MqttConfig { host: "localhost".to_string(), port: 1883 }
    }
}

/// A user name and its password.
pub struct Credentials {
    pub username: String,
    pub password: String,
}

/// Everything the client is made from.
pub struct MqttSettings {
    pub client_id: String,
    pub host: String,
    pub port: u16,
    pub credentials: Option<Credentials>,
    /// Capacity of the channel between the client and its event loop.
    pub capacity: usize,
}

pub open spec fn credentials_text(c: Option<Credentials>) -> Option<(Seq<char>, Seq<char>)> {
    match c {
        Some(c) => Some((c.username@, c.password@)),
        None => None,
    }
}

/// The login sent to the broker: only when a user name is given, with an empty password
/// when none is.
pub open spec fn spec_login(username: Option<Seq<char>>, password: Option<Seq<char>>) -> Option<
    (Seq<char>, Seq<char>),
> {
    match username {
        Some(u) => Some(
            (
                u,
                match password {
                    Some(p) => p,
                    None => Seq::empty(),
                },
            ),
        ),
        None => None,
    }
}

/// The settings of the client, for the broker of `config` and the credentials found in
/// the environment (`MQTT_USERNAME`, `MQTT_PASSWORD`); the file holds no credentials.
pub fn mqtt_settings(config: &MqttConfig, username: Option<String>, password: Option<String>) -> (s:
    MqttSettings)
    ensures
        s.client_id@ == "rust-cli"@,
        s.host@ == config.host@,
        s.port == config.port,
        credentials_text(s.credentials) == spec_login(opt_text(username), opt_text(password)),
        s.capacity == 10,
{
    let credentials = match username {
        Some(u) => {
            let p = match password {
                Some(p) => p,
                None => String::new(),
            };
            Some(Credentials { username: u, password: p })
        },
        None => None,
    };
    MqttSettings {
        client_id: "rust-cli".to_string(),
        host: config.host.clone(),
        port: config.port,
        credentials,
        capacity: 10,
    }
}

/// `rumqttc::MqttOptions`, opaque here.
#[verifier::external_type_specification]
#[verifier::external_body]
pub struct ExMqttOptions(MqttOptions);

/// `rumqttc::AsyncClient`, opaque here.
#[verifier::external_type_specification]
#[verifier::external_body]
pub struct ExAsyncClient(AsyncClient);

/// `rumqttc::EventLoop`, opaque here.
#[verifier::external_type_specification]
#[verifier::external_body]
pub struct ExEventLoop(EventLoop);

/// What `rumqttc::MqttOptions` holds of the connection, as its getters give it back:
/// the client id (`client_id()`), the broker's host and port (`broker_address()`) and
/// the login (`credentials()`, as user name and password).
pub uninterp spec fn options_connection(options: MqttOptions) -> (
    Seq<char>,
    Seq<char>,
    u16,
    Option<(Seq<char>, Seq<char>)>,
);

/// What the `rumqttc::EventLoop` connects with: `options_connection` of the options it
/// holds in its public field `mqtt_options`.
pub uninterp spec fn event_loop_connection(event_loop: EventLoop) -> (
    Seq<char>,
    Seq<char>,
    u16,
    Option<(Seq<char>, Seq<char>)>,
);

/// Whether `client` sends its requests to `event_loop`: `rumqttc::AsyncClient::new` gives
/// the client a clone of the sender of the channel that the loop reads.
pub uninterp spec fn serves(client: AsyncClient, event_loop: EventLoop) -> bool;

/// The capacity of the channel of requests that `event_loop` reads, as
/// `rumqttc::EventLoop::new` makes it (`bounded(cap)`).
pub uninterp spec fn request_capacity(event_loop: EventLoop) -> usize;

/// `rumqttc::MqttOptions::new`: options for the given client id, broker host and port,
/// with no login (its source sets `credentials: None`) and rumqttc's defaults for the rest,
/// which no clause states.
#[verifier::external_body]
fn mqtt_options(client_id: &str, host: &str, port: u16) -> (options: MqttOptions)
    ensures
        options_connection(options) == (client_id@, host@, port, None::<(Seq<char>, Seq<char>)>),
{
    MqttOptions::new(client_id, host, port)
}

/// `rumqttc::MqttOptions::set_credentials`: stores the login in the options and leaves
/// the client id and the broker as they were; what else the options hold is not stated.
#[verifier::external_body]
fn mqtt_set_credentials(options: &mut MqttOptions, username: &str, password: &str)
    ensures
        options_connection(*final(options)) == (
            options_connection(*old(options)).0,
            options_connection(*old(options)).1,
            options_connection(*old(options)).2,
            Some((username@, password@)),
        ),
{
    options.set_credentials(username, password);
}

/// `rumqttc::AsyncClient::new`: a client and the event loop that serves it, joined by a
/// channel of the given capacity; no connection is made before the loop is polled. The
/// event loop keeps the options as they were given (its source moves them into its field
/// `mqtt_options`).
#[verifier::external_body]
fn mqtt_client(options: MqttOptions, capacity: usize) -> (made: (AsyncClient, EventLoop))
    ensures
        event_loop_connection(made.1) == options_connection(options),
        serves(made.0, made.1),
        request_capacity(made.1) == capacity,
{
    AsyncClient::new(options, capacity)
}

/// Makes the client and its event loop from `mqtt_settings(config, username, password)`:
/// the loop connects as `rust-cli` to the configured broker, with the login of the
/// environment's credentials, and serves the returned client through a channel of
/// capacity 10.
pub fn create_mqtt_client(config: &MqttConfig, username: Option<String>, password: Option<String>) -> (made: (
    AsyncClient,
    EventLoop,
))
    ensures
        event_loop_connection(made.1) == ("rust-cli"@, config.host@, config.port, spec_login(
            opt_text(username),
            opt_text(password),
        )),
        serves(made.0, made.1),
        request_capacity(made.1) == 10,
{
    let settings = mqtt_settings(config, username, password);
    let mut options = mqtt_options(settings.client_id.as_str(), settings.host.as_str(), settings.port);
    match &settings.credentials {
        Some(c) => mqtt_set_credentials(&mut options, c.username.as_str(), c.password.as_str()),
        None => {},
    }
    mqtt_client(options, settings.capacity)
}

} // verus!
