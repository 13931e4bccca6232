use vstd::prelude::*;

verus! {

/// Where the persistent store lives on disk.
pub struct DatabaseConfig {
    pub path: String,
}

/// How often the background ingestion loop runs, and through which proxy.
pub struct ProducerConfig {
    pub polling_frequency: u64,
    pub proxy: Option<String>,
}

/// Daemon-mode process settings.
pub struct DaemonConfig {
    pub pid_file: String,
    pub error_log: Option<String>,
}

/// Server configuration; `Default` gives the production settings used when
/// no configuration file overrides them.
pub struct Config {
    pub stage: String,
    pub database: DatabaseConfig,
    pub producer: ProducerConfig,
    pub daemon: DaemonConfig,
}

impl Default for Config {
    fn default() -> (c: Self)
        ensures
            c.stage@ == "production"@,
            c.database.path@ == "/etc/collied/collie.db"@,
            c.producer.polling_frequency == 600,
            c.producer.proxy is None,
            c.daemon.pid_file@ == "/tmp/collied.pid"@,
            c.daemon.error_log is None,
    {
        Config {
            stage: String::from_str("production"),
            database: DatabaseConfig { path: String::from_str("/etc/collied/collie.db") },
            producer: ProducerConfig { polling_frequency: 600, proxy: None },
            daemon: DaemonConfig { pid_file: String::from_str("/tmp/collied.pid"), error_log: None },
        }
    }
}

} // verus!
