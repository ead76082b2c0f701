use at_webserver::config::{AtConfig, Config, NetworkConfig, NotificationConfig, SerialConfig};
use at_webserver::models::ConnectionType;
use at_webserver::sources::{EnvValues, StoreValues};

fn text(s: &str) -> Option<String> {
    Some(s.to_string())
}

fn defaults() -> Config {
    Config {
        at_config: AtConfig {
            connection_type: ConnectionType::Network,
            network: NetworkConfig { host: "192.168.8.1".to_string(), port: 20249, timeout: 10 },
            serial: SerialConfig {
                port: "/dev/ttyUSB2".to_string(),
                baudrate: 115200,
                timeout: 10,
            },
        },
        notification_config: NotificationConfig {
            wechat_webhook: None,
            log_file: "/var/log/at-notifications.log".to_string(),
            notify_sms: true,
            notify_call: true,
            notify_memory_full: true,
            notify_signal: true,
        },
        websocket_port: 8765,
    }
}

fn serial_prior() -> Config {
    let mut config = defaults();
    config.at_config.connection_type = ConnectionType::Serial;
    config
}

#[test]
fn default_holds_the_built_in_values() {
    let config = Config::default();
    assert_eq!(config.at_config.connection_type, ConnectionType::Network);
    assert_eq!(config.at_config.network.host, "192.168.8.1");
    assert_eq!(config.at_config.network.port, 20249);
    assert_eq!(config.at_config.network.timeout, 10);
    assert_eq!(config.at_config.serial.port, "/dev/ttyUSB2");
    assert_eq!(config.at_config.serial.baudrate, 115200);
    assert_eq!(config.at_config.serial.timeout, 10);
    assert_eq!(config.notification_config.wechat_webhook, None);
    assert_eq!(config.notification_config.log_file, "/var/log/at-notifications.log");
    assert!(config.notification_config.notify_sms);
    assert!(config.notification_config.notify_call);
    assert!(config.notification_config.notify_memory_full);
    assert!(config.notification_config.notify_signal);
    assert_eq!(config.websocket_port, 8765);
}

#[test]
fn load_without_sources_returns_the_defaults() {
    let config = Config::load(StoreValues::unavailable(), EnvValues::unset());
    assert_eq!(config, defaults());
    assert_eq!(config, Config::default());
}

#[test]
fn absent_layers_keep_a_prior_configuration() {
    let mut prior = serial_prior();
    prior.at_config.network.host = "modem.lan".to_string();
    prior.at_config.network.port = 1;
    prior.at_config.serial.baudrate = 9600;
    prior.notification_config.wechat_webhook = text("https://example.invalid/hook");
    prior.notification_config.notify_call = false;
    prior.websocket_port = 9;
    assert_eq!(prior.clone().with_store(StoreValues::unavailable()), prior);
    assert_eq!(prior.clone().with_env(EnvValues::unset()), prior);
}

#[test]
fn env_port_overrides_the_default() {
    let mut env = EnvValues::unset();
    env.network_port = text("9000");
    let config = Config::load(StoreValues::unavailable(), env);
    assert_eq!(config.at_config.network.port, 9000);
    let mut expected = defaults();
    expected.at_config.network.port = 9000;
    assert_eq!(config, expected);
}

#[test]
fn env_port_that_is_no_number_keeps_the_prior_port() {
    let mut env = EnvValues::unset();
    env.network_port = text("notanumber");
    let config = Config::load(StoreValues::unavailable(), env.clone());
    assert_eq!(config.at_config.network.port, 20249);
    let mut prior = defaults();
    prior.at_config.network.port = 4242;
    assert_eq!(prior.with_env(env).at_config.network.port, 4242);
}

#[test]
fn env_port_out_of_range_keeps_the_prior_port() {
    for bad in ["65536", "70000", "-1", "", "+", " 9000", "9000 ", "9_000", "0x10", "9000\n"] {
        let mut env = EnvValues::unset();
        env.network_port = text(bad);
        let config = Config::load(StoreValues::unavailable(), env);
        assert_eq!(config.at_config.network.port, 20249, "input {:?}", bad);
    }
}

#[test]
fn env_port_accepts_sign_and_leading_zeros() {
    for (good, value) in [("+9000", 9000u16), ("0009000", 9000), ("0", 0), ("65535", 65535)] {
        let mut env = EnvValues::unset();
        env.network_port = text(good);
        let config = Config::load(StoreValues::unavailable(), env);
        assert_eq!(config.at_config.network.port, value, "input {:?}", good);
    }
}

#[test]
fn env_baudrate_overrides_within_32_bits() {
    let mut env = EnvValues::unset();
    env.serial_baudrate = text("4294967295");
    let config = Config::load(StoreValues::unavailable(), env);
    assert_eq!(config.at_config.serial.baudrate, 4294967295);
    let mut env = EnvValues::unset();
    env.serial_baudrate = text("4294967296");
    let config = Config::load(StoreValues::unavailable(), env);
    assert_eq!(config.at_config.serial.baudrate, 115200);
    let mut env = EnvValues::unset();
    env.serial_baudrate = text("9600");
    let config = Config::load(StoreValues::unavailable(), env);
    assert_eq!(config.at_config.serial.baudrate, 9600);
}

#[test]
fn env_wins_over_store_for_connection_type() {
    let store = StoreValues { connection_type: text("SERIAL"), network_host: None };
    let mut env = EnvValues::unset();
    env.connection_type = text("NETWORK");
    let config = Config::load(store, env);
    assert_eq!(config.at_config.connection_type, ConnectionType::Network);

    let store = StoreValues { connection_type: text("NETWORK"), network_host: None };
    let mut env = EnvValues::unset();
    env.connection_type = text("SERIAL");
    let config = Config::load(store, env);
    assert_eq!(config.at_config.connection_type, ConnectionType::Serial);
}

#[test]
fn env_wins_over_store_for_host() {
    let store = StoreValues { connection_type: None, network_host: text("10.0.0.1\n") };
    let mut env = EnvValues::unset();
    env.network_host = text("10.0.0.2");
    let config = Config::load(store, env);
    assert_eq!(config.at_config.network.host, "10.0.0.2");
}

#[test]
fn store_serial_token_selects_serial() {
    for raw in ["SERIAL", "SERIAL\n", "  SERIAL\r\n", "\tSERIAL ", "\u{3000}SERIAL\u{a0}"] {
        let store = StoreValues { connection_type: text(raw), network_host: None };
        let config = Config::load(store, EnvValues::unset());
        assert_eq!(config.at_config.connection_type, ConnectionType::Serial, "input {:?}", raw);
    }
}

#[test]
fn store_unrecognized_token_selects_network() {
    for raw in ["banana", "", "\n", "serial", "Serial", "NETWORK", "SERIAL X", "SER IAL", "SERIALS"] {
        let store = StoreValues { connection_type: text(raw), network_host: None };
        let config = Config::load(store, EnvValues::unset());
        assert_eq!(config.at_config.connection_type, ConnectionType::Network, "input {:?}", raw);
    }
}

#[test]
fn store_unrecognized_token_forces_network_over_a_serial_prior() {
    for raw in ["banana", "", "serial", "NETWORK"] {
        let store = StoreValues { connection_type: text(raw), network_host: None };
        let config = serial_prior().with_store(store);
        assert_eq!(config.at_config.connection_type, ConnectionType::Network, "input {:?}", raw);
    }
}

#[test]
fn store_without_answer_keeps_the_prior_connection_type() {
    let config = serial_prior().with_store(StoreValues::unavailable());
    assert_eq!(config.at_config.connection_type, ConnectionType::Serial);
    let config = defaults().with_store(StoreValues::unavailable());
    assert_eq!(config.at_config.connection_type, ConnectionType::Network);
}

#[test]
fn failed_host_query_leaves_the_store_connection_type() {
    let store = StoreValues { connection_type: text("SERIAL\n"), network_host: None };
    let config = Config::load(store, EnvValues::unset());
    assert_eq!(config.at_config.connection_type, ConnectionType::Serial);
    assert_eq!(config.at_config.network.host, "192.168.8.1");

    let store = StoreValues { connection_type: text("SERIAL\n"), network_host: text("  \n") };
    let config = Config::load(store, EnvValues::unset());
    assert_eq!(config.at_config.connection_type, ConnectionType::Serial);
    assert_eq!(config.at_config.network.host, "192.168.8.1");
}

#[test]
fn store_host_is_trimmed() {
    let store = StoreValues { connection_type: None, network_host: text("  modem.lan \r\n") };
    let config = Config::load(store, EnvValues::unset());
    assert_eq!(config.at_config.network.host, "modem.lan");
    let mut expected = defaults();
    expected.at_config.network.host = "modem.lan".to_string();
    assert_eq!(config, expected);
}

#[test]
fn store_host_keeps_inner_whitespace() {
    let store = StoreValues { connection_type: None, network_host: text("\ta b\u{2003}c\n") };
    let config = Config::load(store, EnvValues::unset());
    assert_eq!(config.at_config.network.host, "a b\u{2003}c");
}

#[test]
fn empty_store_host_keeps_the_prior_host() {
    for raw in ["", "\n", " \t\r\n", "\u{a0}\u{2028}"] {
        let store = StoreValues { connection_type: None, network_host: text(raw) };
        let config = Config::load(store, EnvValues::unset());
        assert_eq!(config.at_config.network.host, "192.168.8.1", "input {:?}", raw);
    }
}

#[test]
fn env_unrecognized_connection_type_keeps_a_serial_prior() {
    for raw in ["garbage", "", "serial", "network", " SERIAL", "SERIAL\n", "NETWORK "] {
        let store = StoreValues { connection_type: text("SERIAL"), network_host: None };
        let mut env = EnvValues::unset();
        env.connection_type = text(raw);
        let config = Config::load(store, env);
        assert_eq!(config.at_config.connection_type, ConnectionType::Serial, "input {:?}", raw);
    }
}

#[test]
fn env_unrecognized_connection_type_keeps_a_network_prior() {
    let mut env = EnvValues::unset();
    env.connection_type = text("garbage");
    let config = Config::load(StoreValues::unavailable(), env);
    assert_eq!(config.at_config.connection_type, ConnectionType::Network);
}

#[test]
fn env_text_fields_are_taken_as_they_stand() {
    let mut env = EnvValues::unset();
    env.network_host = text(" spaced host \n");
    env.serial_port = text("");
    env.log_file = text("/tmp/at.log");
    let config = Config::load(StoreValues::unavailable(), env);
    assert_eq!(config.at_config.network.host, " spaced host \n");
    assert_eq!(config.at_config.serial.port, "");
    assert_eq!(config.notification_config.log_file, "/tmp/at.log");
}

#[test]
fn malformed_baudrate_does_not_disturb_other_fields() {
    let store = StoreValues { connection_type: text("SERIAL"), network_host: text("10.1.1.1") };
    let mut env = EnvValues::unset();
    env.serial_baudrate = text("fast");
    env.network_port = text("9000");
    env.serial_port = text("/dev/pts/4");
    env.log_file = text("/tmp/at.log");
    let config = Config::load(store, env);
    let mut expected = defaults();
    expected.at_config.connection_type = ConnectionType::Serial;
    expected.at_config.network.host = "10.1.1.1".to_string();
    expected.at_config.network.port = 9000;
    expected.at_config.serial.port = "/dev/pts/4".to_string();
    expected.notification_config.log_file = "/tmp/at.log".to_string();
    assert_eq!(config, expected);
}

#[test]
fn each_env_variable_reaches_only_its_field() {
    let base = Config::load(StoreValues::unavailable(), EnvValues::unset());

    let mut env = EnvValues::unset();
    env.connection_type = text("SERIAL");
    let mut expected = base.clone();
    expected.at_config.connection_type = ConnectionType::Serial;
    assert_eq!(Config::load(StoreValues::unavailable(), env), expected);

    let mut env = EnvValues::unset();
    env.network_host = text("h");
    let mut expected = base.clone();
    expected.at_config.network.host = "h".to_string();
    assert_eq!(Config::load(StoreValues::unavailable(), env), expected);

    let mut env = EnvValues::unset();
    env.network_port = text("1");
    let mut expected = base.clone();
    expected.at_config.network.port = 1;
    assert_eq!(Config::load(StoreValues::unavailable(), env), expected);

    let mut env = EnvValues::unset();
    env.serial_port = text("p");
    let mut expected = base.clone();
    expected.at_config.serial.port = "p".to_string();
    assert_eq!(Config::load(StoreValues::unavailable(), env), expected);

    let mut env = EnvValues::unset();
    env.serial_baudrate = text("2");
    let mut expected = base.clone();
    expected.at_config.serial.baudrate = 2;
    assert_eq!(Config::load(StoreValues::unavailable(), env), expected);

    let mut env = EnvValues::unset();
    env.log_file = text("l");
    let mut expected = base.clone();
    expected.notification_config.log_file = "l".to_string();
    assert_eq!(Config::load(StoreValues::unavailable(), env), expected);
}

#[test]
fn layers_leave_unmapped_fields_alone() {
    let mut prior = defaults();
    prior.at_config.network.timeout = 3;
    prior.at_config.serial.timeout = 4;
    prior.notification_config.wechat_webhook = text("https://example.invalid/hook");
    prior.notification_config.notify_sms = false;
    prior.notification_config.notify_signal = false;
    prior.websocket_port = 1234;
    let store = StoreValues { connection_type: text("SERIAL"), network_host: text("h") };
    let env = EnvValues {
        connection_type: text("NETWORK"),
        network_host: text("e"),
        network_port: text("1"),
        serial_port: text("p"),
        serial_baudrate: text("2"),
        log_file: text("l"),
    };
    let config = prior.with_store(store).with_env(env);
    assert_eq!(config.at_config.network.timeout, 3);
    assert_eq!(config.at_config.serial.timeout, 4);
    assert_eq!(config.notification_config.wechat_webhook, text("https://example.invalid/hook"));
    assert!(!config.notification_config.notify_sms);
    assert!(config.notification_config.notify_call);
    assert!(config.notification_config.notify_memory_full);
    assert!(!config.notification_config.notify_signal);
    assert_eq!(config.websocket_port, 1234);
}

#[test]
fn load_is_repeatable() {
    let store = StoreValues { connection_type: text("SERIAL\n"), network_host: text("10.0.0.9\n") };
    let env = EnvValues {
        connection_type: text("garbage"),
        network_host: None,
        network_port: text("9000"),
        serial_port: text("/dev/pts/4"),
        serial_baudrate: text("nope"),
        log_file: None,
    };
    let first = Config::load(store.clone(), env.clone());
    let second = Config::load(store, env);
    assert_eq!(first, second);
    assert_eq!(first.at_config.connection_type, ConnectionType::Serial);
    assert_eq!(first.at_config.network.host, "10.0.0.9");
    assert_eq!(first.at_config.network.port, 9000);
    assert_eq!(first.at_config.serial.port, "/dev/pts/4");
    assert_eq!(first.at_config.serial.baudrate, 115200);
}

#[test]
fn applying_a_layer_twice_changes_nothing() {
    let store = StoreValues { connection_type: text("x"), network_host: text(" h \n") };
    let env = EnvValues {
        connection_type: text("SERIAL"),
        network_host: text("e"),
        network_port: text("+7"),
        serial_port: None,
        serial_baudrate: text("bad"),
        log_file: text("l"),
    };
    let once = serial_prior().with_store(store.clone());
    assert_eq!(once.clone().with_store(store), once);
    let once = defaults().with_env(env.clone());
    assert_eq!(once.clone().with_env(env), once);
}

#[test]
fn load_is_defaults_then_store_then_env() {
    let store = StoreValues { connection_type: text("SERIAL"), network_host: text("s") };
    let mut env = EnvValues::unset();
    env.network_port = text("5");
    let layered = Config::default().with_store(store.clone()).with_env(env.clone());
    assert_eq!(Config::load(store, env), layered);
}
