//! The connection settings for the MQTT broker.
use vstd::prelude::*;

use crate::networking::mqtt::mqtt_handler::MqttError;
use crate::text::{join_dir, join_path};

verus! {

/// The persisted MQTT settings.
pub struct MqttConfigCache {
    /// Id that identifies this station at the broker.
    pub id: String,
    /// Address of the broker.
    pub broker_ip: String,
    /// Port of the broker.
    pub broker_port: u32,
}

/// The MQTT settings of the station.
pub struct MqttConfig {
    mqtt_config_cache: MqttConfigCache,
    mqtt_topic_prefix: String,
}

impl MqttConfig {
    pub closed spec fn id(&self) -> Seq<char> {
        self.mqtt_config_cache.id@
    }

    pub closed spec fn broker_ip(&self) -> Seq<char> {
        self.mqtt_config_cache.broker_ip@
    }

    pub closed spec fn broker_port(&self) -> u32 {
        self.mqtt_config_cache.broker_port
    }

    pub closed spec fn topic_prefix(&self) -> Seq<char> {
        self.mqtt_topic_prefix@
    }

    /// The settings read from disk (or the defaults, a broker on this machine
    /// at port 1883), with the station's `hostname` as id. The flag says whether
    /// the settings have to be written back: when there were none on disk or
    /// their id was not the hostname.
    pub fn new(loaded: Option<MqttConfigCache>, hostname: &str) -> (r: (Self, bool))
        ensures
            r.0.id() == hostname@,
            r.0.broker_ip() == (match loaded {
                Some(c) => c.broker_ip@,
                None => "127.0.0.1"@,
            }),
            r.0.broker_port() == (match loaded {
                Some(c) => c.broker_port,
                None => 1883u32,
            }),
            r.0.topic_prefix() == Seq::<char>::empty(),
            r.1 == (match loaded {
                Some(c) => c.id@ != hostname@,
                None => true,
            }),
    {
        let from_disk = loaded.is_some();
        let mut cache = match loaded {
            Some(c) => c,
            None => MqttConfigCache { id: String::new(), broker_ip: "127.0.0.1".to_owned(), broker_port: 1883 },
        };
        let hostname = hostname.to_owned();
        let must_save = !from_disk || cache.id != hostname;
        if must_save {
            cache.id = hostname;
        }
        (MqttConfig { mqtt_config_cache: cache, mqtt_topic_prefix: String::new() }, must_save)
    }

    /// The settings, for writing them back to disk.
    pub fn cache(&self) -> (r: &MqttConfigCache)
        ensures
            r.id@ == self.id(),
            r.broker_ip@ == self.broker_ip(),
            r.broker_port == self.broker_port(),
    {
        &self.mqtt_config_cache
    }

    /// The id under which the station connects.
    pub fn client_id(&self) -> (r: &str)
        ensures
            r@ == self.id(),
    {
        self.mqtt_config_cache.id.as_str()
    }

    pub fn get_broker_ip(&self) -> (r: &str)
        ensures
            r@ == self.broker_ip(),
    {
        self.mqtt_config_cache.broker_ip.as_str()
    }

    /// The broker's port as a TCP port; a value above 65535 is refused.
    pub fn get_broker_port(&self) -> (r: Result<u16, MqttError>)
        ensures
            match r {
                Ok(p) => self.broker_port() <= u16::MAX && p == self.broker_port(),
                Err(e) => self.broker_port() > u16::MAX && e == MqttError::InvalidPort,
            },
    {
        if self.mqtt_config_cache.broker_port > 65535 {
            Err(MqttError::InvalidPort)
        } else {
            Ok(self.mqtt_config_cache.broker_port as u16)
        }
    }

    /// The prefix of every topic the station uses.
    pub fn mqtt_topic_prefix(&self) -> (r: &str)
        ensures
            r@ == self.topic_prefix(),
    {
        self.mqtt_topic_prefix.as_str()
    }
}

/// The MQTT settings below the project directory `base_dir`:
/// `config/mqtt.json`.
pub fn setup_path(base_dir: &str) -> (r: String)
    ensures
        r@ == join_path(join_path(base_dir@, "config"@), "mqtt.json"@),
{
    let config = join_dir(base_dir, "config");
    join_dir(config.as_str(), "mqtt.json")
}

} // verus!
