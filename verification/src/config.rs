//! The configuration of the service and its resolution from three layers:
//! built-in defaults, the external configuration store, and the process
//! environment, each overriding the one before it field by field.

use crate::models::ConnectionType;
use crate::overlay::{
    connection_type_from_env, connection_type_from_store, env_connection_type, env_number,
    env_text, store_connection_type, store_text, text_from_env, text_from_store, u16_from_env,
    u32_from_env,
};
use crate::sources::{
    EnvValues, EnvValuesView, EnvVar, StoreKey, StoreValues, StoreValuesView,
};
use vstd::prelude::*;

verus! {

/// The complete configuration of the service.
#[derive(Debug, PartialEq, Eq)]
pub struct Config {
    pub at_config: AtConfig,
    pub notification_config: NotificationConfig,
    pub websocket_port: u16,
}

/// How the modem is reached. Both transports are always filled in;
/// `connection_type` says which of them is in use.
#[derive(Debug, PartialEq, Eq)]
pub struct AtConfig {
    pub connection_type: ConnectionType,
    pub network: NetworkConfig,
    pub serial: SerialConfig,
}

/// Settings of the network transport.
#[derive(Debug, PartialEq, Eq)]
pub struct NetworkConfig {
    pub host: String,
    pub port: u16,
    pub timeout: u64,
}

/// Settings of the serial transport.
#[derive(Debug, PartialEq, Eq)]
pub struct SerialConfig {
    pub port: String,
    pub baudrate: u32,
    pub timeout: u64,
}

/// Where notifications go and which events raise one.
#[derive(Debug, PartialEq, Eq)]
pub struct NotificationConfig {
    pub wechat_webhook: Option<String>,
    pub log_file: String,
    pub notify_sms: bool,
    pub notify_call: bool,
    pub notify_memory_full: bool,
    pub notify_signal: bool,
}

/// Mathematical model of [`NetworkConfig`].
pub struct NetworkConfigView {
    pub host: Seq<char>,
    pub port: u16,
    pub timeout: u64,
}

/// Mathematical model of [`SerialConfig`].
pub struct SerialConfigView {
    pub port: Seq<char>,
    pub baudrate: u32,
    pub timeout: u64,
}

/// Mathematical model of [`AtConfig`].
pub struct AtConfigView {
    pub connection_type: ConnectionType,
    pub network: NetworkConfigView,
    pub serial: SerialConfigView,
}

/// Mathematical model of [`NotificationConfig`].
pub struct NotificationConfigView {
    pub wechat_webhook: Option<Seq<char>>,
    pub log_file: Seq<char>,
    pub notify_sms: bool,
    pub notify_call: bool,
    pub notify_memory_full: bool,
    pub notify_signal: bool,
}

/// Mathematical model of [`Config`].
pub struct ConfigView {
    pub at_config: AtConfigView,
    pub notification_config: NotificationConfigView,
    pub websocket_port: u16,
}

impl View for NetworkConfig {
    type V = NetworkConfigView;

    open spec fn view(&self) -> NetworkConfigView {
        NetworkConfigView { host: self.host@, port: self.port, timeout: self.timeout }
    }
}

impl View for SerialConfig {
    type V = SerialConfigView;

    open spec fn view(&self) -> SerialConfigView {
        SerialConfigView { port: self.port@, baudrate: self.baudrate, timeout: self.timeout }
    }
}

impl View for AtConfig {
    type V = AtConfigView;

    open spec fn view(&self) -> AtConfigView {
        AtConfigView {
            connection_type: self.connection_type,
            network: self.network@,
            serial: self.serial@,
        }
    }
}

impl View for NotificationConfig {
    type V = NotificationConfigView;

    open spec fn view(&self) -> NotificationConfigView {
        NotificationConfigView {
            wechat_webhook: self.wechat_webhook.deep_view(),
            log_file: self.log_file@,
            notify_sms: self.notify_sms,
            notify_call: self.notify_call,
            notify_memory_full: self.notify_memory_full,
            notify_signal: self.notify_signal,
        }
    }
}

impl View for Config {
    type V = ConfigView;

    open spec fn view(&self) -> ConfigView {
        ConfigView {
            at_config: self.at_config@,
            notification_config: self.notification_config@,
            websocket_port: self.websocket_port,
        }
    }
}

impl Clone for NetworkConfig {
    fn clone(&self) -> (copy: NetworkConfig)
        ensures
            copy == *self,
    {
        NetworkConfig { host: self.host.clone(), port: self.port, timeout: self.timeout }
    }
}

impl Clone for SerialConfig {
    fn clone(&self) -> (copy: SerialConfig)
        ensures
            copy == *self,
    {
        SerialConfig { port: self.port.clone(), baudrate: self.baudrate, timeout: self.timeout }
    }
}

impl Clone for AtConfig {
    fn clone(&self) -> (copy: AtConfig)
        ensures
            copy == *self,
    {
        AtConfig {
            connection_type: self.connection_type,
            network: self.network.clone(),
            serial: self.serial.clone(),
        }
    }
}

impl Clone for NotificationConfig {
    fn clone(&self) -> (copy: NotificationConfig)
        ensures
            copy == *self,
    {
        NotificationConfig {
            wechat_webhook: self.wechat_webhook.clone(),
            log_file: self.log_file.clone(),
            notify_sms: self.notify_sms,
            notify_call: self.notify_call,
            notify_memory_full: self.notify_memory_full,
            notify_signal: self.notify_signal,
        }
    }
}

impl Clone for Config {
    fn clone(&self) -> (copy: Config)
        ensures
            copy == *self,
    {
        Config {
            at_config: self.at_config.clone(),
            notification_config: self.notification_config.clone(),
            websocket_port: self.websocket_port,
        }
    }
}

impl ConfigView {
    /// The built-in defaults: the lowest layer, which gives every field a
    /// value.
    pub open spec fn baseline() -> ConfigView {
        ConfigView {
            at_config: AtConfigView {
                connection_type: ConnectionType::Network,
                network: NetworkConfigView { host: "192.168.8.1"@, port: 20249, timeout: 10 },
                serial: SerialConfigView { port: "/dev/ttyUSB2"@, baudrate: 115200, timeout: 10 },
            },
            notification_config: NotificationConfigView {
                wechat_webhook: None,
                log_file: "/var/log/at-notifications.log"@,
                notify_sms: true,
                notify_call: true,
                notify_memory_full: true,
                notify_signal: true,
            },
            websocket_port: 8765,
        }
    }

    /// This configuration overridden by the answers of the external store.
    /// The store reaches the connection type and the network host.
    pub open spec fn with_store(self, store: StoreValuesView) -> ConfigView {
        ConfigView {
            at_config: AtConfigView {
                connection_type: store_connection_type(
                    self.at_config.connection_type,
                    store.answer(StoreKey::ConnectionType),
                ),
                network: NetworkConfigView {
                    host: store_text(
                        self.at_config.network.host,
                        store.answer(StoreKey::NetworkHost),
                    ),
                    ..self.at_config.network
                },
                ..self.at_config
            },
            ..self
        }
    }

    /// This configuration overridden by the environment variables, each of
    /// which reaches one field.
    pub open spec fn with_env(self, env: EnvValuesView) -> ConfigView {
        ConfigView {
            at_config: AtConfigView {
                connection_type: env_connection_type(
                    self.at_config.connection_type,
                    env.answer(EnvVar::ConnectionType),
                ),
                network: NetworkConfigView {
                    host: env_text(self.at_config.network.host, env.answer(EnvVar::NetworkHost)),
                    port: env_number(
                        self.at_config.network.port as nat,
                        env.answer(EnvVar::NetworkPort),
                        u16::MAX as nat,
                    ) as u16,
                    ..self.at_config.network
                },
                serial: SerialConfigView {
                    port: env_text(self.at_config.serial.port, env.answer(EnvVar::SerialPort)),
                    baudrate: env_number(
                        self.at_config.serial.baudrate as nat,
                        env.answer(EnvVar::SerialBaudrate),
                        u32::MAX as nat,
                    ) as u32,
                    ..self.at_config.serial
                },
            },
            notification_config: NotificationConfigView {
                log_file: env_text(
                    self.notification_config.log_file,
                    env.answer(EnvVar::LogFile),
                ),
                ..self.notification_config
            },
            ..self
        }
    }

    /// The configuration that the three layers resolve to: the defaults,
    /// overridden by the store, overridden by the environment.
    pub open spec fn resolved(store: StoreValuesView, env: EnvValuesView) -> ConfigView {
        Self::baseline().with_store(store).with_env(env)
    }
}

impl Default for Config {
    /// The built-in defaults.
    fn default() -> (config: Config)
        ensures
            config@ == ConfigView::baseline(),
    {
        Config {
            at_config: AtConfig {
                connection_type: ConnectionType::Network,
                network: NetworkConfig {
                    host: "192.168.8.1".to_string(),
                    port: 20249,
                    timeout: 10,
                },
                serial: SerialConfig {
                    port: "/dev/ttyUSB2".to_string(),
                    baudrate: 115200,
                    timeout: 10,
                },
            },
            notification_config: NotificationConfig {
                wechat_webhook: None,
                log_file: "/var/log/at-notifications.log".to_string(),
                notify_sms: true,
                notify_call: true,
                notify_memory_full: true,
                notify_signal: true,
            },
            websocket_port: 8765,
        }
    }
}

impl Config {
    /// Overrides this configuration with the answers of the external store.
    pub fn with_store(self, store: StoreValues) -> (config: Config)
        ensures
            config@ == self@.with_store(store@),
    {
        let at = self.at_config;
        let connection_type = connection_type_from_store(
            at.connection_type,
            &store.connection_type,
        );
        let host = text_from_store(at.network.host, &store.network_host);
        Config {
            at_config: AtConfig {
                connection_type,
                network: NetworkConfig {
                    host,
                    port: at.network.port,
                    timeout: at.network.timeout,
                },
                serial: at.serial,
            },
            notification_config: self.notification_config,
            websocket_port: self.websocket_port,
        }
    }

    /// Overrides this configuration with the environment variables.
    pub fn with_env(self, env: EnvValues) -> (config: Config)
        ensures
            config@ == self@.with_env(env@),
    {
        let at = self.at_config;
        let notification = self.notification_config;
        let connection_type = connection_type_from_env(at.connection_type, &env.connection_type);
        let network_port = u16_from_env(at.network.port, &env.network_port);
        let baudrate = u32_from_env(at.serial.baudrate, &env.serial_baudrate);
        let host = text_from_env(at.network.host, env.network_host);
        let serial_port = text_from_env(at.serial.port, env.serial_port);
        let log_file = text_from_env(notification.log_file, env.log_file);
        Config {
            at_config: AtConfig {
                connection_type,
                network: NetworkConfig { host, port: network_port, timeout: at.network.timeout },
                serial: SerialConfig { port: serial_port, baudrate, timeout: at.serial.timeout },
            },
            notification_config: NotificationConfig {
                wechat_webhook: notification.wechat_webhook,
                log_file,
                notify_sms: notification.notify_sms,
                notify_call: notification.notify_call,
                notify_memory_full: notification.notify_memory_full,
                notify_signal: notification.notify_signal,
            },
            websocket_port: self.websocket_port,
        }
    }

    /// Resolves the configuration from the answers of the two outside
    /// sources, starting from the built-in defaults.
    pub fn load(store: StoreValues, env: EnvValues) -> (config: Config)
        ensures
            config@ == ConfigView::resolved(store@, env@),
    {
        Config::default().with_store(store).with_env(env)
    }
}

} // verus!
