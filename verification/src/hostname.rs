//! The host name under which the site is reached from other devices.

use crate::config::{Config, ConfigView};
use crate::text::same;
use vstd::prelude::*;

verus! {

/// A host name as the user is offered it.
#[derive(Debug)]
pub struct HostChoice {
    /// What is chosen.
    pub value: String,
    /// The name under which it is shown.
    pub label: String,
    /// A word of explanation.
    pub hint: String,
}

/// The mathematical value of a [`HostChoice`].
pub struct HostChoiceView {
    pub value: Seq<char>,
    pub label: Seq<char>,
    pub hint: Seq<char>,
}

impl View for HostChoice {
    type V = HostChoiceView;

    open spec fn view(&self) -> HostChoiceView {
        HostChoiceView { value: self.value@, label: self.label@, hint: self.hint@ }
    }
}

impl DeepView for HostChoice {
    type V = HostChoiceView;

    open spec fn deep_view(&self) -> HostChoiceView {
        self@
    }
}

/// The address that stands for this machine on its network: the one that
/// was found, or the loopback address where none was.
pub open spec fn address_or_loopback(detected: Option<Seq<char>>) -> Seq<char> {
    match detected {
        Some(address) => address,
        None => "127.0.0.1"@,
    }
}

/// The host names on offer on a machine with the address `local_ip`:
/// `localhost`, the address itself, the address of the host as an Android
/// emulator sees it, and `other` for a name that the user types.
pub open spec fn host_choices(local_ip: Seq<char>) -> Seq<HostChoiceView> {
    seq![
        HostChoiceView { value: "localhost"@, label: "localhost"@, hint: "default"@ },
        HostChoiceView {
            value: local_ip,
            label: local_ip,
            hint: "Your private IP address, for accessing from other devices on your local network"@,
        },
        HostChoiceView {
            value: "10.0.2.2"@,
            label: "10.0.2.2"@,
            hint: "For accessing from an Android emulator running on this machine"@,
        },
        HostChoiceView { value: "other"@, label: "Other"@, hint: "Enter a custom hostname"@ },
    ]
}

/// The record with the site at `hostname`, port 8080, over plain HTTP.
pub open spec fn with_hostname(config: ConfigView, hostname: Seq<char>) -> ConfigView {
    ConfigView {
        lila_domain: Some(hostname + ":8080"@),
        lila_url: Some("http://"@ + hostname + ":8080"@),
        ..config
    }
}

/// `local_ip_address::local_ip`: the IPv4 address of this machine on its
/// local network, as text, or `None` where the lookup fails. Nothing is
/// claimed of the address.
#[verifier::external_body]
fn detect_local_ip() -> (r: Option<String>) {
    match local_ip_address::local_ip() {
        Ok(address) => Some(address.to_string()),
        Err(_) => None,
    }
}

/// The address that stands for this machine: the detected one, or
/// `127.0.0.1` where none was detected.
pub fn local_ip_or_loopback(detected: Option<String>) -> (r: String)
    ensures
        r@ == address_or_loopback(detected.deep_view()),
{
    match detected {
        Some(address) => address,
        None => String::from_str("127.0.0.1"),
    }
}

/// The host names on offer on a machine with the address `local_ip`.
pub fn hostname_choices(local_ip: &str) -> (r: Vec<HostChoice>)
    ensures
        r.deep_view() == host_choices(local_ip@),
{
    let mut list: Vec<HostChoice> = Vec::new();
    list.push(
        HostChoice {
            value: String::from_str("localhost"),
            label: String::from_str("localhost"),
            hint: String::from_str("default"),
        },
    );
    list.push(
        HostChoice {
            value: String::from_str(local_ip),
            label: String::from_str(local_ip),
            hint: String::from_str(
                "Your private IP address, for accessing from other devices on your local network",
            ),
        },
    );
    list.push(
        HostChoice {
            value: String::from_str("10.0.2.2"),
            label: String::from_str("10.0.2.2"),
            hint: String::from_str(
                "For accessing from an Android emulator running on this machine",
            ),
        },
    );
    list.push(
        HostChoice {
            value: String::from_str("other"),
            label: String::from_str("Other"),
            hint: String::from_str("Enter a custom hostname"),
        },
    );
    assert(list.deep_view() =~= host_choices(local_ip@));
    list
}

/// The host names on offer on this machine. Its address is looked up; where
/// that fails, the loopback address takes its place.
pub fn local_hostname_choices() -> (r: Vec<HostChoice>)
    ensures
        exists|detected: Option<Seq<char>>|
            r.deep_view() == host_choices(#[trigger] address_or_loopback(detected)),
{
    let detected = detect_local_ip();
    let ghost found = detected.deep_view();
    let address = local_ip_or_loopback(detected);
    let list = hostname_choices(address.as_str());
    assert(list.deep_view() == host_choices(address_or_loopback(found)));
    list
}

/// Whether the user has to type the host name: where `other` was chosen.
pub fn asks_for_custom_hostname(selection: &str) -> (r: bool)
    ensures
        r == (selection@ == "other"@),
{
    same(selection, "other")
}

/// Whether the host name can be chosen at all: not in a Gitpod workspace,
/// which has an address of its own.
pub fn can_set_hostname(on_gitpod: bool) -> (r: bool)
    ensures
        r == !on_gitpod,
{
    !on_gitpod
}

impl Config {
    /// Puts the site at `hostname`: the domain becomes `HOSTNAME:8080`, the
    /// address `http://HOSTNAME:8080`; the other fields stay.
    pub fn set_hostname(&mut self, hostname: &str)
        ensures
            final(self)@ == with_hostname(old(self)@, hostname@),
    {
        let mut domain = String::from_str(hostname);
        domain.append(":8080");
        let mut url = String::from_str("http://");
        url.append(hostname);
        url.append(":8080");
        self.lila_domain = Some(domain);
        self.lila_url = Some(url);
    }
}

} // verus!
