//! The two outside sources of configuration: what to ask them, and what
//! they answered, as plain text.

use vstd::prelude::*;

verus! {

/// A field that the external configuration store can override.
#[derive(Debug, Clone, Copy, PartialEq, Eq, Structural)]
pub enum StoreKey {
    ConnectionType,
    NetworkHost,
}

impl StoreKey {
    /// Every key, in the order in which the store is asked.
    pub open spec fn all_spec() -> Seq<StoreKey> {
        seq![StoreKey::ConnectionType, StoreKey::NetworkHost]
    }

    /// The key under which the store holds the field.
    pub open spec fn name_spec(self) -> Seq<char> {
        match self {
            StoreKey::ConnectionType => "at-webserver.config.connection_type"@,
            StoreKey::NetworkHost => "at-webserver.config.network_host"@,
        }
    }

    /// The command that asks the store for the field: the program,
    /// followed by its arguments.
    pub open spec fn command_spec(self) -> Seq<Seq<char>> {
        seq!["uci"@, "get"@, self.name_spec()]
    }

    /// Every key, in the order in which the store is asked.
    pub fn all() -> (keys: Vec<StoreKey>)
        ensures
            keys@ == Self::all_spec(),
    {
        vec![StoreKey::ConnectionType, StoreKey::NetworkHost]
    }

    /// The key under which the store holds the field.
    pub fn name(self) -> (key: &'static str)
        ensures
            key@ == self.name_spec(),
    {
        match self {
            StoreKey::ConnectionType => "at-webserver.config.connection_type",
            StoreKey::NetworkHost => "at-webserver.config.network_host",
        }
    }

    /// The command that asks the store for the field: the program,
    /// followed by its arguments.
    pub fn command(self) -> (words: Vec<&'static str>)
        ensures
            words.deep_view() == self.command_spec(),
    {
        let words = vec!["uci", "get", self.name()];
        assert(words.deep_view() =~= self.command_spec());
        words
    }
}

/// How one query of the external store ended.
#[derive(Debug, PartialEq, Eq)]
pub enum StoreReply {
    /// The command could not be run.
    NotRun,
    /// The command ran to its end; `success` is its exit status and
    /// `output` what it wrote to its standard output.
    Exited { success: bool, output: String },
}

impl StoreReply {
    /// The answer that a reply carries: the output of a command that
    /// reported success, and nothing in every other case.
    pub open spec fn answer_spec(self) -> Option<Seq<char>> {
        match self {
            StoreReply::Exited { success: true, output } => Some(output@),
            _ => None,
        }
    }

    /// The answer that this reply carries.
    pub fn answer(self) -> (answer: Option<String>)
        ensures
            answer.deep_view() == self.answer_spec(),
    {
        match self {
            StoreReply::Exited { success: true, output } => Some(output),
            _ => None,
        }
    }
}

/// The answers of the external configuration store, one per key.
///
/// An entry is `Some` with the raw output of the query where the query ran
/// and reported success, and `None` where it could not be run or failed:
/// the answer of its [`StoreReply`].
#[derive(Debug, PartialEq, Eq)]
pub struct StoreValues {
    pub connection_type: Option<String>,
    pub network_host: Option<String>,
}

/// Mathematical model of [`StoreValues`].
pub struct StoreValuesView {
    pub connection_type: Option<Seq<char>>,
    pub network_host: Option<Seq<char>>,
}

impl View for StoreValues {
    type V = StoreValuesView;

    open spec fn view(&self) -> StoreValuesView {
        StoreValuesView {
            connection_type: self.connection_type.deep_view(),
            network_host: self.network_host.deep_view(),
        }
    }
}

impl Clone for StoreValues {
    fn clone(&self) -> (copy: StoreValues)
        ensures
            copy == *self,
    {
        StoreValues {
            connection_type: self.connection_type.clone(),
            network_host: self.network_host.clone(),
        }
    }
}

impl StoreValuesView {
    /// A store that answered nothing.
    pub open spec fn unavailable() -> StoreValuesView {
        StoreValuesView { connection_type: None, network_host: None }
    }

    /// The answer held for `key`.
    pub open spec fn answer(self, key: StoreKey) -> Option<Seq<char>> {
        match key {
            StoreKey::ConnectionType => self.connection_type,
            StoreKey::NetworkHost => self.network_host,
        }
    }

    /// These answers with the one for `key` replaced.
    pub open spec fn with_answer(self, key: StoreKey, answer: Option<Seq<char>>) -> StoreValuesView {
        match key {
            StoreKey::ConnectionType => StoreValuesView { connection_type: answer, ..self },
            StoreKey::NetworkHost => StoreValuesView { network_host: answer, ..self },
        }
    }
}

impl StoreValues {
    /// The answers of a store that cannot be reached.
    pub fn unavailable() -> (store: StoreValues)
        ensures
            store@ == StoreValuesView::unavailable(),
    {
        StoreValues { connection_type: None, network_host: None }
    }

    /// Records what the store answered for `key`.
    pub fn with_answer(self, key: StoreKey, answer: Option<String>) -> (store: StoreValues)
        ensures
            store@ == self@.with_answer(key, answer.deep_view()),
    {
        let mut store = self;
        match key {
            StoreKey::ConnectionType => store.connection_type = answer,
            StoreKey::NetworkHost => store.network_host = answer,
        }
        store
    }
}

/// A field that the process environment can override.
#[derive(Debug, Clone, Copy, PartialEq, Eq, Structural)]
pub enum EnvVar {
    ConnectionType,
    NetworkHost,
    NetworkPort,
    SerialPort,
    SerialBaudrate,
    LogFile,
}

impl EnvVar {
    /// Every variable, in the order in which the environment is read.
    pub open spec fn all_spec() -> Seq<EnvVar> {
        seq![
            EnvVar::ConnectionType,
            EnvVar::NetworkHost,
            EnvVar::NetworkPort,
            EnvVar::SerialPort,
            EnvVar::SerialBaudrate,
            EnvVar::LogFile,
        ]
    }

    /// The name of the environment variable that carries the field.
    pub open spec fn name_spec(self) -> Seq<char> {
        match self {
            EnvVar::ConnectionType => "AT_CONNECTION_TYPE"@,
            EnvVar::NetworkHost => "AT_NETWORK_HOST"@,
            EnvVar::NetworkPort => "AT_NETWORK_PORT"@,
            EnvVar::SerialPort => "AT_SERIAL_PORT"@,
            EnvVar::SerialBaudrate => "AT_SERIAL_BAUDRATE"@,
            EnvVar::LogFile => "AT_LOG_FILE"@,
        }
    }

    /// Every variable, in the order in which the environment is read.
    pub fn all() -> (vars: Vec<EnvVar>)
        ensures
            vars@ == Self::all_spec(),
    {
        vec![
            EnvVar::ConnectionType,
            EnvVar::NetworkHost,
            EnvVar::NetworkPort,
            EnvVar::SerialPort,
            EnvVar::SerialBaudrate,
            EnvVar::LogFile,
        ]
    }

    /// The name of the environment variable that carries the field.
    pub fn name(self) -> (name: &'static str)
        ensures
            name@ == self.name_spec(),
    {
        match self {
            EnvVar::ConnectionType => "AT_CONNECTION_TYPE",
            EnvVar::NetworkHost => "AT_NETWORK_HOST",
            EnvVar::NetworkPort => "AT_NETWORK_PORT",
            EnvVar::SerialPort => "AT_SERIAL_PORT",
            EnvVar::SerialBaudrate => "AT_SERIAL_BAUDRATE",
            EnvVar::LogFile => "AT_LOG_FILE",
        }
    }
}

/// The values of the environment variables, one per variable.
///
/// An entry is `Some` with the variable's text where the variable is set,
/// and `None` where it is not.
#[derive(Debug, PartialEq, Eq)]
pub struct EnvValues {
    pub connection_type: Option<String>,
    pub network_host: Option<String>,
    pub network_port: Option<String>,
    pub serial_port: Option<String>,
    pub serial_baudrate: Option<String>,
    pub log_file: Option<String>,
}

/// Mathematical model of [`EnvValues`].
pub struct EnvValuesView {
    pub connection_type: Option<Seq<char>>,
    pub network_host: Option<Seq<char>>,
    pub network_port: Option<Seq<char>>,
    pub serial_port: Option<Seq<char>>,
    pub serial_baudrate: Option<Seq<char>>,
    pub log_file: Option<Seq<char>>,
}

impl View for EnvValues {
    type V = EnvValuesView;

    open spec fn view(&self) -> EnvValuesView {
        EnvValuesView {
            connection_type: self.connection_type.deep_view(),
            network_host: self.network_host.deep_view(),
            network_port: self.network_port.deep_view(),
            serial_port: self.serial_port.deep_view(),
            serial_baudrate: self.serial_baudrate.deep_view(),
            log_file: self.log_file.deep_view(),
        }
    }
}

impl Clone for EnvValues {
    fn clone(&self) -> (copy: EnvValues)
        ensures
            copy == *self,
    {
        EnvValues {
            connection_type: self.connection_type.clone(),
            network_host: self.network_host.clone(),
            network_port: self.network_port.clone(),
            serial_port: self.serial_port.clone(),
            serial_baudrate: self.serial_baudrate.clone(),
            log_file: self.log_file.clone(),
        }
    }
}

impl EnvValuesView {
    /// An environment in which none of the variables is set.
    pub open spec fn unset() -> EnvValuesView {
        EnvValuesView {
            connection_type: None,
            network_host: None,
            network_port: None,
            serial_port: None,
            serial_baudrate: None,
            log_file: None,
        }
    }

    /// The value held for `var`.
    pub open spec fn answer(self, var: EnvVar) -> Option<Seq<char>> {
        match var {
            EnvVar::ConnectionType => self.connection_type,
            EnvVar::NetworkHost => self.network_host,
            EnvVar::NetworkPort => self.network_port,
            EnvVar::SerialPort => self.serial_port,
            EnvVar::SerialBaudrate => self.serial_baudrate,
            EnvVar::LogFile => self.log_file,
        }
    }

    /// These values with the one for `var` replaced.
    pub open spec fn with_answer(self, var: EnvVar, answer: Option<Seq<char>>) -> EnvValuesView {
        match var {
            EnvVar::ConnectionType => EnvValuesView { connection_type: answer, ..self },
            EnvVar::NetworkHost => EnvValuesView { network_host: answer, ..self },
            EnvVar::NetworkPort => EnvValuesView { network_port: answer, ..self },
            EnvVar::SerialPort => EnvValuesView { serial_port: answer, ..self },
            EnvVar::SerialBaudrate => EnvValuesView { serial_baudrate: answer, ..self },
            EnvVar::LogFile => EnvValuesView { log_file: answer, ..self },
        }
    }
}

impl EnvValues {
    /// An environment in which none of the variables is set.
    pub fn unset() -> (env: EnvValues)
        ensures
            env@ == EnvValuesView::unset(),
    {
        EnvValues {
            connection_type: None,
            network_host: None,
            network_port: None,
            serial_port: None,
            serial_baudrate: None,
            log_file: None,
        }
    }

    /// Records the value of `var`, or that it is not set.
    pub fn with_answer(self, var: EnvVar, answer: Option<String>) -> (env: EnvValues)
        ensures
            env@ == self@.with_answer(var, answer.deep_view()),
    {
        let mut env = self;
        match var {
            EnvVar::ConnectionType => env.connection_type = answer,
            EnvVar::NetworkHost => env.network_host = answer,
            EnvVar::NetworkPort => env.network_port = answer,
            EnvVar::SerialPort => env.serial_port = answer,
            EnvVar::SerialBaudrate => env.serial_baudrate = answer,
            EnvVar::LogFile => env.log_file = answer,
        }
        env
    }
}

} // verus!
