use vstd::prelude::*;
use vstd::string::*;

use crate::text::{decimal_of, parse_decimal};

verus! {

pub const DEFAULT_BROKER_HOST: &'static str = "aio-broker.azure-iot-operations.svc.cluster.local";

pub const DEFAULT_INPUT_TOPIC: &'static str = "azure-iot-operations/data/welding-stations";

pub const DEFAULT_OUTPUT_TOPIC: &'static str = "azure-iot-operations/alerts/quality-control";

pub const DEFAULT_MODULE_PATH: &'static str = "wasm_quality_filter.wasm";

pub const CLIENT_ID_PREFIX: &'static str = "wasm-quality-filter-";

pub const DEFAULT_BROKER_PORT: u16 = 1883;

#[derive(Debug, Clone, PartialEq)]
pub struct AppConfig {
    pub mqtt: MqttConfig,
    pub wasm: WasmConfig,
    pub health: HealthConfig,
}

#[derive(Debug, Clone, PartialEq)]
pub struct MqttConfig {
    pub broker_host: String,
    pub broker_port: u16,
    pub client_id: String,
    pub input_topic: String,
    pub output_topic: String,
    pub qos: u8,
    pub keep_alive: u64,
}

#[derive(Debug, Clone, PartialEq)]
pub struct WasmConfig {
    pub module_file: String,
    pub max_memory_mb: u64,
    pub timeout_seconds: u64,
}

#[derive(Debug, Clone, PartialEq, Eq, Structural)]
pub struct HealthConfig {
    pub check_interval_seconds: u64,
    pub unhealthy_threshold: u32,
}

/// The settings read from the environment; `None` where a variable is unset.
#[derive(Debug, Clone, PartialEq)]
pub struct EnvSettings {
    pub mqtt_broker: Option<String>,
    pub mqtt_port: Option<String>,
    pub mqtt_client_id: Option<String>,
    pub input_topic: Option<String>,
    pub output_topic: Option<String>,
    pub wasm_module_file: Option<String>,
}

/// Why a configuration was refused.
#[derive(Debug, Clone, PartialEq)]
pub enum ConfigError {
    InvalidPort(String),
    EmptyBrokerHost,
    EmptyInputTopic,
    EmptyOutputTopic,
    ModuleMissing(String),
    ZeroMemory,
}

/// A port number in decimal, as `u16`'s `FromStr` reads it.
pub open spec fn port_of(s: Seq<char>) -> Option<u16> {
    match decimal_of(s, 65535) {
        Some(v) => Some(v as u16),
        None => None,
    }
}

/// Reads a port number in decimal.
pub fn parse_port(s: &str) -> (r: Option<u16>)
    ensures
        r == port_of(s@),
{
    match parse_decimal(s, 65535) {
        Some(v) => Some(v as u16),
        None => None,
    }
}

/// Relies on uuid's `Uuid::new_v4` and its `Display`: a random identifier in
/// hyphenated form, 36 characters.
#[verifier::external_body]
fn random_uuid_text() -> (r: String)
    ensures
        r@.len() == 36,
{
    uuid::Uuid::new_v4().to_string()
}

pub open spec fn or_default(v: Option<String>, d: Seq<char>) -> Seq<char> {
    match v {
        Some(s) => s@,
        None => d,
    }
}

fn value_or(v: &Option<String>, d: &str) -> (r: String)
    ensures
        r@ == or_default(*v, d@),
{
    match v {
        Some(s) => s.clone(),
        None => String::from_str(d),
    }
}

/// The fixed settings that every configuration built here carries.
pub open spec fn has_standard_limits(c: AppConfig) -> bool {
    &&& c.mqtt.qos == 1
    &&& c.mqtt.keep_alive == 60
    &&& c.wasm.max_memory_mb == 64
    &&& c.wasm.timeout_seconds == 30
    &&& c.health.check_interval_seconds == 30
    &&& c.health.unhealthy_threshold == 3
}

/// The configuration that the environment gives, with `client_id` used when
/// no client identifier is set.
pub open spec fn env_config_matches(env: EnvSettings, client_id: Seq<char>, c: AppConfig) -> bool {
    &&& c.mqtt.broker_host@ == or_default(env.mqtt_broker, DEFAULT_BROKER_HOST@)
    &&& c.mqtt.client_id@ == or_default(env.mqtt_client_id, client_id)
    &&& c.mqtt.input_topic@ == or_default(env.input_topic, DEFAULT_INPUT_TOPIC@)
    &&& c.mqtt.output_topic@ == or_default(env.output_topic, DEFAULT_OUTPUT_TOPIC@)
    &&& c.wasm.module_file@ == or_default(env.wasm_module_file, DEFAULT_MODULE_PATH@)
    &&& has_standard_limits(c)
}

/// The port that the environment gives, if it gives a readable one.
pub open spec fn env_port(env: EnvSettings) -> Option<u16> {
    match env.mqtt_port {
        Some(p) => port_of(p@),
        None => Some(DEFAULT_BROKER_PORT),
    }
}

fn standard_config(
    broker_host: String,
    broker_port: u16,
    client_id: String,
    input_topic: String,
    output_topic: String,
    module_file: String,
) -> (r: AppConfig)
    ensures
        r.mqtt.broker_host == broker_host,
        r.mqtt.broker_port == broker_port,
        r.mqtt.client_id == client_id,
        r.mqtt.input_topic == input_topic,
        r.mqtt.output_topic == output_topic,
        r.wasm.module_file == module_file,
        has_standard_limits(r),
{
    AppConfig {
        mqtt: MqttConfig {
            broker_host,
            broker_port,
            client_id,
            input_topic,
            output_topic,
            qos: 1,
            keep_alive: 60,
        },
        wasm: WasmConfig { module_file, max_memory_mb: 64, timeout_seconds: 30 },
        health: HealthConfig { check_interval_seconds: 30, unhealthy_threshold: 3 },
    }
}

impl AppConfig {
    /// Prefers the configuration read from the configuration file; without
    /// one, builds it from the environment.
    pub fn load(from_file: Option<AppConfig>, env: &EnvSettings) -> (r: Result<AppConfig, ConfigError>)
        ensures
            from_file matches Some(c) ==> r == Ok::<AppConfig, ConfigError>(c),
            from_file is None ==> (r is Ok <==> env_port(*env) is Some),
            from_file is None ==> (r matches Err(e) ==> e == ConfigError::InvalidPort(
                env.mqtt_port.unwrap(),
            )),
            from_file is None ==> (r matches Ok(c) ==> Some(c.mqtt.broker_port) == env_port(*env)
                && exists|id: Seq<char>| env_config_matches(*env, id, c)),
    {
        match from_file {
            Some(c) => Ok(c),
            None => Self::load_from_env(env),
        }
    }

    /// Builds the configuration from the environment, drawing a fresh client
    /// identifier when none is set.
    pub fn load_from_env(env: &EnvSettings) -> (r: Result<AppConfig, ConfigError>)
        ensures
            r is Ok <==> env_port(*env) is Some,
            r matches Err(e) ==> e == ConfigError::InvalidPort(env.mqtt_port.unwrap()),
            r matches Ok(c) ==> Some(c.mqtt.broker_port) == env_port(*env) && exists|
                id: Seq<char>,
            | env_config_matches(*env, id, c),
    {
        let suffix = if env.mqtt_client_id.is_some() {
            String::new()
        } else {
            random_uuid_text()
        };
        let generated = String::from_str(CLIENT_ID_PREFIX).concat(suffix.as_str());
        let r = Self::config_from_env(env, generated);
        proof {
            if r is Ok {
                let c = r->Ok_0;
                assert(env_config_matches(*env, generated@, c));
            }
        }
        r
    }

    /// Builds the configuration from the environment, with `generated_client_id`
    /// used when no client identifier is set.
    pub fn config_from_env(env: &EnvSettings, generated_client_id: String) -> (r: Result<
        AppConfig,
        ConfigError,
    >)
        ensures
            r is Ok <==> env_port(*env) is Some,
            r matches Err(e) ==> e == ConfigError::InvalidPort(env.mqtt_port.unwrap()),
            r matches Ok(c) ==> Some(c.mqtt.broker_port) == env_port(*env) && env_config_matches(
                *env,
                generated_client_id@,
                c,
            ),
    {
        let port = match &env.mqtt_port {
            Some(p) => match parse_port(p.as_str()) {
                Some(v) => v,
                None => {
                    return Err(ConfigError::InvalidPort(p.clone()));
                },
            },
            None => DEFAULT_BROKER_PORT,
        };
        let client_id = match &env.mqtt_client_id {
            Some(c) => c.clone(),
            None => generated_client_id,
        };
        Ok(
            standard_config(
                value_or(&env.mqtt_broker, DEFAULT_BROKER_HOST),
                port,
                client_id,
                value_or(&env.input_topic, DEFAULT_INPUT_TOPIC),
                value_or(&env.output_topic, DEFAULT_OUTPUT_TOPIC),
                value_or(&env.wasm_module_file, DEFAULT_MODULE_PATH),
            ),
        )
    }

    /// Checks the configuration; `module_exists` tells whether the module file
    /// at `wasm.module_file` exists.
    pub fn validate(&self, module_exists: bool) -> (r: Result<(), ConfigError>)
        ensures
            self.mqtt.broker_host@.len() == 0 ==> r == Err::<(), ConfigError>(
                ConfigError::EmptyBrokerHost,
            ),
            self.mqtt.broker_host@.len() > 0 && self.mqtt.input_topic@.len() == 0 ==> r == Err::<
                (),
                ConfigError,
            >(ConfigError::EmptyInputTopic),
            self.mqtt.broker_host@.len() > 0 && self.mqtt.input_topic@.len() > 0
                && self.mqtt.output_topic@.len() == 0 ==> r == Err::<(), ConfigError>(
                ConfigError::EmptyOutputTopic,
            ),
            self.mqtt.broker_host@.len() > 0 && self.mqtt.input_topic@.len() > 0
                && self.mqtt.output_topic@.len() > 0 && !module_exists ==> (r matches Err(
                ConfigError::ModuleMissing(p),
            ) && p@ == self.wasm.module_file@),
            self.mqtt.broker_host@.len() > 0 && self.mqtt.input_topic@.len() > 0
                && self.mqtt.output_topic@.len() > 0 && module_exists && self.wasm.max_memory_mb
                == 0 ==> r == Err::<(), ConfigError>(ConfigError::ZeroMemory),
            r is Ok <==> (self.mqtt.broker_host@.len() > 0 && self.mqtt.input_topic@.len() > 0
                && self.mqtt.output_topic@.len() > 0 && module_exists && self.wasm.max_memory_mb
                > 0),
    {
        if self.mqtt.broker_host.as_str().is_empty() {
            return Err(ConfigError::EmptyBrokerHost);
        }
        if self.mqtt.input_topic.as_str().is_empty() {
            return Err(ConfigError::EmptyInputTopic);
        }
        if self.mqtt.output_topic.as_str().is_empty() {
            return Err(ConfigError::EmptyOutputTopic);
        }
        if !module_exists {
            return Err(ConfigError::ModuleMissing(self.wasm.module_file.clone()));
        }
        if self.wasm.max_memory_mb == 0 {
            return Err(ConfigError::ZeroMemory);
        }
        Ok(())
    }
}

impl Default for AppConfig {
    fn default() -> (r: AppConfig)
        ensures
            r.mqtt.broker_host@ == DEFAULT_BROKER_HOST@,
            r.mqtt.broker_port == DEFAULT_BROKER_PORT,
            r.mqtt.client_id@.len() == CLIENT_ID_PREFIX@.len() + 36,
            r.mqtt.client_id@.subrange(0, CLIENT_ID_PREFIX@.len() as int) == CLIENT_ID_PREFIX@,
            r.mqtt.input_topic@ == DEFAULT_INPUT_TOPIC@,
            r.mqtt.output_topic@ == DEFAULT_OUTPUT_TOPIC@,
            r.wasm.module_file@ == DEFAULT_MODULE_PATH@,
            has_standard_limits(r),
    {
        let id = String::from_str(CLIENT_ID_PREFIX).concat(random_uuid_text().as_str());
        proof {
            assert(id@.subrange(0, CLIENT_ID_PREFIX@.len() as int) =~= CLIENT_ID_PREFIX@);
        }
        standard_config(
            String::from_str(DEFAULT_BROKER_HOST),
            DEFAULT_BROKER_PORT,
            id,
            String::from_str(DEFAULT_INPUT_TOPIC),
            String::from_str(DEFAULT_OUTPUT_TOPIC),
            String::from_str(DEFAULT_MODULE_PATH),
        )
    }
}

} // verus!
