//! Laws of the layered resolution, stated over the models of the
//! configuration and of its sources.

use crate::config::{Config, ConfigView};
use crate::models::ConnectionType;
use crate::sources::{
    EnvValues, EnvValuesView, EnvVar, StoreKey, StoreReply, StoreValues, StoreValuesView,
};
use crate::text::{parse_unsigned, trimmed};
use vstd::prelude::*;

verus! {

/// Recording an answer changes the answer held for that key or variable
/// and no other.
pub proof fn lemma_recorded_answers(
    store: StoreValuesView,
    key: StoreKey,
    env: EnvValuesView,
    var: EnvVar,
    answer: Option<Seq<char>>,
)
    ensures
        store.with_answer(key, answer).answer(key) == answer,
        forall|k: StoreKey|
            k != key ==> #[trigger] store.with_answer(key, answer).answer(k) == store.answer(k),
        env.with_answer(var, answer).answer(var) == answer,
        forall|v: EnvVar|
            v != var ==> #[trigger] env.with_answer(var, answer).answer(v) == env.answer(v),
{
}

/// A layer that has nothing to say leaves every field as it was: an
/// unreachable store and an environment without any of the variables each
/// return the configuration they were given, so together they resolve to
/// the built-in defaults.
pub proof fn lemma_absent_layers_keep_prior(prior: ConfigView)
    ensures
        prior.with_store(StoreValuesView::unavailable()) == prior,
        prior.with_env(EnvValuesView::unset()) == prior,
        ConfigView::resolved(StoreValuesView::unavailable(), EnvValuesView::unset())
            == ConfigView::baseline(),
{
}

/// A query that could not be run, or that ended with a failure status,
/// leaves its field at the value of the lower layers, whatever it printed.
pub proof fn lemma_failed_query_keeps_field(
    prior: ConfigView,
    store: StoreValuesView,
    key: StoreKey,
    reply: StoreReply,
)
    requires
        reply matches StoreReply::Exited { success, .. } ==> !success,
    ensures
        reply.answer_spec() is None,
        key == StoreKey::ConnectionType ==> prior.with_store(
            store.with_answer(key, reply.answer_spec()),
        ).at_config.connection_type == prior.at_config.connection_type,
        key == StoreKey::NetworkHost ==> prior.with_store(
            store.with_answer(key, reply.answer_spec()),
        ).at_config.network.host == prior.at_config.network.host,
{
}

/// The port variable overrides the network port exactly where its text
/// denotes a 16-bit number; unset or malformed, it leaves the port at the
/// value of the lower layers. The store has no say in the port, so the
/// lower value of a full resolution is the default.
pub proof fn lemma_env_network_port(prior: ConfigView, store: StoreValuesView, env: EnvValuesView)
    ensures
        match env.network_port {
            Some(text) => match parse_unsigned(text, u16::MAX as nat) {
                Some(value) => {
                    &&& prior.with_env(env).at_config.network.port == value
                    &&& ConfigView::resolved(store, env).at_config.network.port == value
                },
                None => {
                    &&& prior.with_env(env).at_config.network.port == prior.at_config.network.port
                    &&& ConfigView::resolved(store, env).at_config.network.port
                        == ConfigView::baseline().at_config.network.port
                },
            },
            None => {
                &&& prior.with_env(env).at_config.network.port == prior.at_config.network.port
                &&& ConfigView::resolved(store, env).at_config.network.port
                    == ConfigView::baseline().at_config.network.port
            },
        },
{
}

/// The environment is applied last: where the connection-type variable
/// holds one of its two tokens, that token decides the resolved connection
/// type, whatever the store answered.
pub proof fn lemma_env_connection_type_wins(store: StoreValuesView, env: EnvValuesView)
    ensures
        env.connection_type == Some("NETWORK"@) ==> ConfigView::resolved(
            store,
            env,
        ).at_config.connection_type == ConnectionType::Network,
        env.connection_type == Some("SERIAL"@) ==> ConfigView::resolved(
            store,
            env,
        ).at_config.connection_type == ConnectionType::Serial,
{
    reveal_strlit("NETWORK");
    reveal_strlit("SERIAL");
    assert("NETWORK"@.len() != "SERIAL"@.len());
}

/// The environment is applied last: a text variable that is set decides
/// its field, whatever the store answered.
pub proof fn lemma_env_text_wins(store: StoreValuesView, env: EnvValuesView)
    ensures
        env.network_host matches Some(text) ==> ConfigView::resolved(
            store,
            env,
        ).at_config.network.host == text,
        env.serial_port matches Some(text) ==> ConfigView::resolved(
            store,
            env,
        ).at_config.serial.port == text,
        env.log_file matches Some(text) ==> ConfigView::resolved(
            store,
            env,
        ).notification_config.log_file == text,
{
}

/// The store's reading of the connection type is fail-safe: whatever the
/// lower layers chose, an answer other than the `SERIAL` token selects the
/// network, the token selects the serial line, and only a missing answer
/// keeps the prior choice.
pub proof fn lemma_store_connection_type_fail_safe(prior: ConfigView, store: StoreValuesView)
    ensures
        match store.connection_type {
            Some(raw) => prior.with_store(store).at_config.connection_type == if trimmed(raw)
                == "SERIAL"@ {
                ConnectionType::Serial
            } else {
                ConnectionType::Network
            },
            None => prior.with_store(store).at_config.connection_type
                == prior.at_config.connection_type,
        },
{
}

/// The environment's reading of the connection type is strict: a variable
/// that holds neither of the two tokens keeps the choice of the lower
/// layers, as an unset variable does.
pub proof fn lemma_env_connection_type_strict(prior: ConfigView, env: EnvValuesView)
    requires
        env.connection_type matches Some(text) ==> text != "SERIAL"@ && text != "NETWORK"@,
    ensures
        prior.with_env(env).at_config.connection_type == prior.at_config.connection_type,
{
}

/// Each field that the environment reaches is resolved from its own prior
/// value and its own variable alone: two resolutions that agree on these
/// two agree on the field, however the other variables and fields differ.
pub proof fn lemma_env_fields_independent(
    p: ConfigView,
    q: ConfigView,
    a: EnvValuesView,
    b: EnvValuesView,
)
    ensures
        p.at_config.connection_type == q.at_config.connection_type && a.connection_type
            == b.connection_type ==> p.with_env(a).at_config.connection_type == q.with_env(
            b,
        ).at_config.connection_type,
        p.at_config.network.host == q.at_config.network.host && a.network_host == b.network_host
            ==> p.with_env(a).at_config.network.host == q.with_env(b).at_config.network.host,
        p.at_config.network.port == q.at_config.network.port && a.network_port == b.network_port
            ==> p.with_env(a).at_config.network.port == q.with_env(b).at_config.network.port,
        p.at_config.serial.port == q.at_config.serial.port && a.serial_port == b.serial_port
            ==> p.with_env(a).at_config.serial.port == q.with_env(b).at_config.serial.port,
        p.at_config.serial.baudrate == q.at_config.serial.baudrate && a.serial_baudrate
            == b.serial_baudrate ==> p.with_env(a).at_config.serial.baudrate == q.with_env(
            b,
        ).at_config.serial.baudrate,
        p.notification_config.log_file == q.notification_config.log_file && a.log_file
            == b.log_file ==> p.with_env(a).notification_config.log_file == q.with_env(
            b,
        ).notification_config.log_file,
{
}

/// The fields that no variable is mapped to pass through the environment
/// layer untouched.
pub proof fn lemma_env_leaves_unmapped_fields(prior: ConfigView, env: EnvValuesView)
    ensures
        prior.with_env(env).at_config.network.timeout == prior.at_config.network.timeout,
        prior.with_env(env).at_config.serial.timeout == prior.at_config.serial.timeout,
        prior.with_env(env).websocket_port == prior.websocket_port,
        prior.with_env(env).notification_config.wechat_webhook
            == prior.notification_config.wechat_webhook,
        prior.with_env(env).notification_config.notify_sms == prior.notification_config.notify_sms,
        prior.with_env(env).notification_config.notify_call
            == prior.notification_config.notify_call,
        prior.with_env(env).notification_config.notify_memory_full
            == prior.notification_config.notify_memory_full,
        prior.with_env(env).notification_config.notify_signal
            == prior.notification_config.notify_signal,
{
}

/// Each of the two fields that the store reaches is resolved from its own
/// prior value and its own answer alone, and every other field passes
/// through the store layer untouched.
pub proof fn lemma_store_fields_independent(
    p: ConfigView,
    q: ConfigView,
    a: StoreValuesView,
    b: StoreValuesView,
)
    ensures
        p.at_config.connection_type == q.at_config.connection_type && a.connection_type
            == b.connection_type ==> p.with_store(a).at_config.connection_type == q.with_store(
            b,
        ).at_config.connection_type,
        p.at_config.network.host == q.at_config.network.host && a.network_host == b.network_host
            ==> p.with_store(a).at_config.network.host == q.with_store(b).at_config.network.host,
        p.with_store(a).at_config.network.port == p.at_config.network.port,
        p.with_store(a).at_config.network.timeout == p.at_config.network.timeout,
        p.with_store(a).at_config.serial == p.at_config.serial,
        p.with_store(a).notification_config == p.notification_config,
        p.with_store(a).websocket_port == p.websocket_port,
{
}

/// Resolution is a function of what the sources answered: two runs that
/// were given the same answers return the same configuration.
pub proof fn lemma_load_is_repeatable(
    first: Config,
    second: Config,
    store_a: StoreValues,
    env_a: EnvValues,
    store_b: StoreValues,
    env_b: EnvValues,
)
    requires
        store_a@ == store_b@,
        env_a@ == env_b@,
        first@ == ConfigView::resolved(store_a@, env_a@),
        second@ == ConfigView::resolved(store_b@, env_b@),
    ensures
        first@ == second@,
{
}

/// Applying a layer a second time changes nothing.
pub proof fn lemma_layers_are_idempotent(
    prior: ConfigView,
    store: StoreValuesView,
    env: EnvValuesView,
)
    ensures
        prior.with_store(store).with_store(store) == prior.with_store(store),
        prior.with_env(env).with_env(env) == prior.with_env(env),
{
}

} // verus!
