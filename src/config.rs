//! Build-time settings of the device and the fixed MQTT endpoint.
use vstd::prelude::*;

verus! {

/// Address of the broker.
pub const MQTT_URL: &'static str = "mqtt://broker.emqx.io:1883";

/// Identifier the broker knows this session by.
pub const MQTT_CLIENT_ID: &'static str = "esp-mqtt-demo";

/// The one topic used for both subscribing and publishing.
pub const MQTT_TOPIC: &'static str = "esp-mqtt-demo";

/// Text published on every round.
pub const PAYLOAD: &'static str = "Hello from esp-mqtt-demo!";

/// Stack allowance of the listener task, in bytes.
pub const LISTENER_STACK_SIZE: usize = 6000;

/// Network credentials supplied at build time.
pub struct Config {
    ssid: &'static str,
    password: &'static str,
}

impl Config {
    /// Credentials for the network named `ssid`.
    pub fn new(ssid: &'static str, password: &'static str) -> (r: Config)
        ensures
            r.spec_ssid() == ssid,
            r.spec_password() == password,
    {
        Config { ssid, password }
    }

    pub closed spec fn spec_ssid(&self) -> &'static str {
        self.ssid
    }

    pub closed spec fn spec_password(&self) -> &'static str {
        self.password
    }

    /// Name of the network to join.
    pub fn ssid(&self) -> (r: &'static str)
        ensures
            r == self.spec_ssid(),
    {
        self.ssid
    }

    /// Passphrase of the network.
    pub fn password(&self) -> (r: &'static str)
        ensures
            r == self.spec_password(),
    {
        self.password
    }
}

impl Default for Config {
    /// Both values empty, as when nothing was configured.
    fn default() -> (r: Config)
        ensures
            r.spec_ssid()@ == Seq::<char>::empty(),
            r.spec_password()@ == Seq::<char>::empty(),
    {
        proof {
            reveal_strlit("");
        }
        Config { ssid: "", password: "" }
    }
}

} // verus!
