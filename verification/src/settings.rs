//! The settings of the server.
use crate::number::{decimal, decimal_text, law_decimal_is_read_back, law_what_is_read_as_a_number,
    parse_u16, parse_unsigned, unsigned};
use crate::text::repeated;
use vstd::prelude::*;

verus! {

/// The settings of the server.
#[derive(Clone, Debug, PartialEq, Eq)]
pub struct Settings {
    pub host: String,
    pub port: u16,
    pub txtme_url: Option<String>,
    pub interval_secs: u64,
}

/// A number up to `max` out of a setting, or `default` where the setting is missing or is no such
/// number.
pub open spec fn number_or(setting: Option<Seq<char>>, max: nat, default: nat) -> nat {
    match setting {
        Some(text) => match unsigned(text, max) {
            Some(n) => n,
            None => default,
        },
        None => default,
    }
}

/// The address that the server listens on.
pub open spec fn address_text(host: Seq<char>, port: u16) -> Seq<char> {
    host + ":"@ + decimal(port as nat)
}

/// The settings, out of `HOST`, `PORT`, `TXTME_URL` and `POLL_INTERVAL_SECS`.
pub fn settings(
    host: Option<String>,
    port: Option<String>,
    txtme_url: Option<String>,
    interval: Option<String>,
) -> (r: Settings)
    ensures
        r.host@ == match host.deep_view() {
            Some(h) => h,
            None => "127.0.0.1"@,
        },
        r.port == number_or(port.deep_view(), u16::MAX as nat, 9090),
        r.txtme_url == txtme_url,
        r.interval_secs == number_or(interval.deep_view(), u64::MAX as nat, 30),
{
    let host = match host {
        Some(h) => h,
        None => "127.0.0.1".to_owned(),
    };
    let port: u16 = match port {
        Some(text) => match parse_u16(text.as_str()) {
            Some(n) => n,
            None => 9090,
        },
        None => 9090,
    };
    let interval_secs: u64 = match interval {
        Some(text) => match parse_unsigned(text.as_str(), u64::MAX) {
            Some(n) => n,
            None => 30,
        },
        None => 30,
    };
    Settings { host, port, txtme_url, interval_secs }
}

/// The address that the server listens on.
pub fn address(settings: &Settings) -> (r: String)
    ensures
        r@ == address_text(settings.host@, settings.port),
{
    let mut r = settings.host.clone();
    r.append(":");
    r.append(decimal_text(settings.port as u64).as_str());
    r
}

/// A setting is the number that it writes, if that is at most `max`, and the usual one if it writes
/// none or is missing.
pub proof fn law_settings_are_numbers(text: Seq<char>, max: nat, default: nat, n: nat)
    ensures
        n <= max ==> number_or(Some(decimal(n)), max, default) == n,
        (exists|k: nat|
            n <= max && (text == #[trigger] repeated('0', k) + decimal(n) || text == seq!['+'] + (
            repeated('0', k) + decimal(n)))) ==> number_or(Some(text), max, default) == n,
        number_or(Some(text), max, default) != default ==> number_or(Some(text), max, default)
            <= max,
        unsigned(text, max) is None ==> number_or(Some(text), max, default) == default,
        number_or(None, max, default) == default,
{
    if n <= max {
        law_decimal_is_read_back(n, max);
    }
    law_what_is_read_as_a_number(text, max, n);
    if let Some(m) = unsigned(text, max) {
        law_what_is_read_as_a_number(text, max, m);
    }
}

/// What the settings are, in full: the usual host, port and interval where nothing else is set, and
/// an address made of the host and the port.
pub proof fn law_settings_in_full(
    host: Option<String>,
    port: Option<String>,
    txtme_url: Option<String>,
    interval: Option<String>,
    made: Settings,
    text: String,
    usual: Settings,
)
    requires
        call_ensures(settings, (host, port, txtme_url, interval), made),
        call_ensures(address, (&made,), text),
        call_ensures(settings, (None, None, None, None), usual),
    ensures
        host is Some ==> made.host@ == host->0@,
        host is None ==> made.host@ == "127.0.0.1"@,
        port is None ==> made.port == 9090,
        port is Some && unsigned(port->0@, 65535) is Some ==> made.port == unsigned(
            port->0@,
            65535,
        )->0,
        port is Some && unsigned(port->0@, 65535) is None ==> made.port == 9090,
        made.txtme_url.deep_view() == txtme_url.deep_view(),
        interval is None ==> made.interval_secs == 30,
        interval is Some && unsigned(interval->0@, 0xffff_ffff_ffff_ffff) is Some
            ==> made.interval_secs == unsigned(interval->0@, 0xffff_ffff_ffff_ffff)->0,
        interval is Some && unsigned(interval->0@, 0xffff_ffff_ffff_ffff) is None
            ==> made.interval_secs == 30,
        text@ == made.host@ + seq![':'] + decimal(made.port as nat),
        usual.host@ == "127.0.0.1"@,
        usual.port == 9090,
        usual.txtme_url is None,
        usual.interval_secs == 30,
{
    reveal_strlit(":");
    assert(":"@ =~= seq![':']);
}

} // verus!
