//! Process configuration: the plain values the rest of the pipeline is wired
//! with. Loading the values from a configuration file is left to the caller;
//! the library only holds them and hands them out.
use vstd::prelude::*;

verus! {

#[derive(Clone, Debug)]
pub struct IpConfig {
    pub name: String,
    pub ip: String,
    pub port: String,
}

#[derive(Clone, Debug)]
pub struct RedisConfig {
    pub url: String,
}

#[derive(Clone, Debug)]
pub struct MysqlConfig {
    pub url: String,
}

#[derive(Clone, Debug)]
pub struct BinanceApiConfig {
    pub api_key: String,
    pub secret_key: String,
}

#[derive(Clone, Debug)]
pub struct Conf {
    pub redis: RedisConfig,
    pub mysql: MysqlConfig,
    pub ip_config: Vec<IpConfig>,
    pub binance_api_config: BinanceApiConfig,
}

impl Conf {
    /// The credential pair for the exchange's private endpoints.
    pub fn get_binance_api_config(&self) -> (r: (String, String))
        ensures
            r.0@ == self.binance_api_config.api_key@,
            r.1@ == self.binance_api_config.secret_key@,
    {
        (self.binance_api_config.api_key.clone(), self.binance_api_config.secret_key.clone())
    }
}

} // verus!
