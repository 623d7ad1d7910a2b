//! How to reach the device: the service that fronts it and the device's
//! place on the bus.

use vstd::prelude::*;
use vstd::string::*;
use crate::text::{push_signed, signed_decimal};

verus! {

/// Where the device service listens and which device to talk to.
#[derive(Clone, Debug, PartialEq, Eq)]
pub struct Config {
    /// Whether to talk to the service over HTTPS rather than HTTP.
    pub https: bool,
    pub host: String,
    pub port: String,
    /// The I2C bus the device sits on.
    pub bus: i32,
    /// The device's address on that bus.
    pub addr: i32,
}

/// The settings with their texts as sequences of characters.
pub struct ConfigView {
    pub https: bool,
    pub host: Seq<char>,
    pub port: Seq<char>,
    pub bus: i32,
    pub addr: i32,
}

impl View for Config {
    type V = ConfigView;

    open spec fn view(&self) -> ConfigView {
        ConfigView {
            https: self.https,
            host: self.host@,
            port: self.port@,
            bus: self.bus,
            addr: self.addr,
        }
    }
}

/// How a flag is written out.
pub open spec fn bool_text(flag: bool) -> Seq<char> {
    if flag {
        "true"@
    } else {
        "false"@
    }
}

/// One line for each setting, name first, each ending in a line break.
pub open spec fn arg_lines(conf: ConfigView) -> Seq<Seq<char>> {
    seq![
        "Arg https: "@ + bool_text(conf.https) + "\n"@,
        "Arg host:  "@ + conf.host + "\n"@,
        "Arg port:  "@ + conf.port + "\n"@,
        "Arg bus:   "@ + signed_decimal(conf.bus as int) + "\n"@,
        "Arg addr:  "@ + signed_decimal(conf.addr as int) + "\n"@,
    ]
}

/// The address of the device service: scheme, host and port.
pub open spec fn base_url_text(conf: ConfigView) -> Seq<char> {
    (if conf.https {
        "https"@
    } else {
        "http"@
    }) + "://"@ + conf.host + ":"@ + conf.port
}

/// A line that names a setting and gives its value.
fn arg_line(name: &str, value: &str) -> (line: String)
    ensures
        line@ == name@ + value@ + "\n"@,
{
    let mut line = String::from_str(name);
    line.append(value);
    line.append("\n");
    line
}

/// A line that names a setting and gives its numeric value.
fn numeric_arg_line(name: &str, value: i32) -> (line: String)
    ensures
        line@ == name@ + signed_decimal(value as int) + "\n"@,
{
    let mut line = String::from_str(name);
    push_signed(&mut line, value);
    line.append("\n");
    line
}

/// The settings in effect, one line each, for the log.
pub fn dump_args(conf: &Config) -> (lines: Vec<String>)
    ensures
        lines.deep_view() == arg_lines(conf@),
{
    let mut lines: Vec<String> = Vec::new();
    lines.push(arg_line("Arg https: ", if conf.https { "true" } else { "false" }));
    lines.push(arg_line("Arg host:  ", conf.host.as_str()));
    lines.push(arg_line("Arg port:  ", conf.port.as_str()));
    lines.push(numeric_arg_line("Arg bus:   ", conf.bus));
    lines.push(numeric_arg_line("Arg addr:  ", conf.addr));
    assert(lines.deep_view() =~= arg_lines(conf@));
    lines
}

/// The address at which to reach the device service.
pub fn base_url(conf: &Config) -> (url: String)
    ensures
        url@ == base_url_text(conf@),
{
    let mut url = String::from_str(if conf.https { "https" } else { "http" });
    url.append("://");
    url.append(conf.host.as_str());
    url.append(":");
    url.append(conf.port.as_str());
    url
}

} // verus!
