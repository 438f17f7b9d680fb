//! Listener and device settings.

use crate::router::EndpointTable;
use vstd::prelude::*;

verus! {

/// Port on which the listener binds when the configuration names none.
pub const DEFAULT_BIND_PORT: u16 = 9001;

/// Address on which the listener binds when the configuration names none.
pub fn default_bind_address() -> (address: String)
    ensures
        address@ == "0.0.0.0"@,
{
    "0.0.0.0".to_owned()
}

/// Port on which the listener binds when the configuration names none.
pub fn default_bind_port() -> (port: u16)
    ensures
        port == DEFAULT_BIND_PORT,
{
    DEFAULT_BIND_PORT
}

/// How to open one serial device.
#[derive(Debug)]
pub struct SerialConfig {
    /// Operating-system name of the device.
    pub port: String,
    /// Line speed in baud.
    pub baud_rate: u32,
}

/// A [`SerialConfig`] as a mathematical value.
pub ghost struct SerialConfigView {
    pub port: Seq<char>,
    pub baud_rate: u32,
}

impl View for SerialConfig {
    type V = SerialConfigView;

    open spec fn view(&self) -> SerialConfigView {
        SerialConfigView { port: self.port@, baud_rate: self.baud_rate }
    }
}

impl Clone for SerialConfig {
    fn clone(&self) -> (copy: Self)
        ensures
            copy@ == self@,
    {
        SerialConfig { port: self.port.clone(), baud_rate: self.baud_rate }
    }
}

impl PartialEq for SerialConfig {
    fn eq(&self, other: &Self) -> (equal: bool)
    {
        self.port == other.port && self.baud_rate == other.baud_rate
    }
}

impl vstd::std_specs::cmp::PartialEqSpecImpl for SerialConfig {
    open spec fn obeys_eq_spec() -> bool {
        true
    }

    open spec fn eq_spec(&self, other: &Self) -> bool {
        self@ == other@
    }
}

/// What the listener is started with.
pub struct Config {
    /// Address on which the listener binds.
    pub bind_address: String,
    /// Port on which the listener binds.
    pub bind_port: u16,
    /// The endpoints that the listener serves.
    pub endpoints: EndpointTable,
}

impl Config {
    /// A configuration for `endpoints`. An address or a port that is not
    /// given is the default one.
    pub fn new(
        bind_address: Option<String>,
        bind_port: Option<u16>,
        endpoints: EndpointTable,
    ) -> (config: Self)
        ensures
            config.bind_address@ == match bind_address {
                Some(address) => address@,
                None => "0.0.0.0"@,
            },
            config.bind_port == match bind_port {
                Some(port) => port,
                None => DEFAULT_BIND_PORT,
            },
            config.endpoints@ == endpoints@,
    {
        Config {
            bind_address: match bind_address {
                Some(address) => address,
                None => default_bind_address(),
            },
            bind_port: match bind_port {
                Some(port) => port,
                None => default_bind_port(),
            },
            endpoints,
        }
    }
}

} // verus!
