//! Network interfaces of the host, and the choice of the address to publish.

use vstd::prelude::*;
use crate::search::{
    first_where, is_first_where, lemma_first_where_absent, lemma_first_where_found,
    lemma_first_where_sound,
};

verus! {

/// The family of an IP address.
#[derive(Clone, Copy, Debug, PartialEq, Eq)]
pub enum IpFamily {
    V4,
    V6,
}

/// One address assigned to an interface: its family and its text form.
#[derive(Clone, Debug, PartialEq, Eq)]
pub struct IpAddress {
    pub family: IpFamily,
    pub text: String,
}

/// An `IpAddress` as a mathematical value: its texts as sequences of characters.
pub ghost struct IpAddressView {
    pub family: IpFamily,
    pub text: Seq<char>,
}

impl View for IpAddress {
    type V = IpAddressView;

    open spec fn view(&self) -> IpAddressView {
        IpAddressView { family: self.family, text: self.text@ }
    }
}

/// A network interface of the host: its name and its addresses, in the
/// order in which the host reports them.
#[derive(Clone, Debug, PartialEq, Eq)]
pub struct NetworkInterface {
    pub name: String,
    pub ips: Vec<IpAddress>,
}

/// A `NetworkInterface` as a mathematical value: its texts as sequences of characters.
pub ghost struct NetworkInterfaceView {
    pub name: Seq<char>,
    pub ips: Seq<IpAddressView>,
}

impl View for NetworkInterface {
    type V = NetworkInterfaceView;

    open spec fn view(&self) -> NetworkInterfaceView {
        NetworkInterfaceView { name: self.name@, ips: addresses_view(self.ips@) }
    }
}

/// The views of the addresses, in their order.
pub open spec fn addresses_view(ips: Seq<IpAddress>) -> Seq<IpAddressView> {
    ips.map_values(|a: IpAddress| a@)
}

/// The views of the interfaces, in their order.
pub open spec fn interfaces_view(interfaces: Seq<NetworkInterface>) -> Seq<NetworkInterfaceView> {
    interfaces.map_values(|f: NetworkInterface| f@)
}

/// The interfaces called `name`, exactly and with case.
pub open spec fn called(name: Seq<char>) -> spec_fn(NetworkInterfaceView) -> bool {
    |f: NetworkInterfaceView| f.name == name
}

/// The addresses of family IPv4.
pub open spec fn is_ipv4() -> spec_fn(IpAddressView) -> bool {
    |a: IpAddressView| a.family == IpFamily::V4
}

/// The address to publish for the device `name`: the first IPv4 address of
/// the first interface of that name. An interface of the same name further
/// on is not looked at.
pub open spec fn select_ipv4(interfaces: Seq<NetworkInterfaceView>, name: Seq<char>) -> Option<
    IpAddressView,
> {
    match first_where(interfaces, called(name)) {
        Some(i) => match first_where(interfaces[i].ips, is_ipv4()) {
            Some(k) => Some(interfaces[i].ips[k]),
            None => None,
        },
        None => None,
    }
}

/// The interface `f` has no IPv4 address.
pub open spec fn lacks_ipv4(f: NetworkInterfaceView) -> bool {
    forall|k: int| 0 <= k < f.ips.len() ==> (#[trigger] f.ips[k]).family != IpFamily::V4
}

/// No address is found exactly where no interface has the device's name, or
/// the first interface of that name has no IPv4 address. An address that is
/// found is an IPv4 address of the first interface of that name, and no
/// address before it on that interface is one.
pub proof fn law_select_ipv4(interfaces: Seq<NetworkInterfaceView>, name: Seq<char>)
    ensures
        select_ipv4(interfaces, name) is None <==> {
            ||| forall|i: int| 0 <= i < interfaces.len() ==> (#[trigger] interfaces[i]).name != name
            ||| exists|i: int|
                is_first_where(interfaces, called(name), i) && lacks_ipv4(interfaces[i])
        },
        select_ipv4(interfaces, name) matches Some(a) ==> a.family == IpFamily::V4 && exists|
            i: int,
            k: int,
        |
            is_first_where(interfaces, called(name), i) && is_first_where(
                interfaces[i].ips,
                is_ipv4(),
                k,
            ) && interfaces[i].ips[k] == a,
{
    lemma_first_where_sound(interfaces, called(name));
    match first_where(interfaces, called(name)) {
        Some(i) => {
            lemma_first_where_sound(interfaces[i].ips, is_ipv4());
            assert forall|j: int| is_first_where(interfaces, called(name), j) implies j == i by {
                lemma_first_where_found(interfaces, called(name), j);
            }
            assert(called(name)(interfaces[i]));
            match first_where(interfaces[i].ips, is_ipv4()) {
                Some(k) => {
                    assert(is_ipv4()(interfaces[i].ips[k]));
                    assert(!lacks_ipv4(interfaces[i]));
                },
                None => {
                    assert(lacks_ipv4(interfaces[i])) by {
                        assert forall|k: int| 0 <= k < interfaces[i].ips.len() implies (
                        #[trigger] interfaces[i].ips[k]).family != IpFamily::V4 by {
                            assert(!is_ipv4()(interfaces[i].ips[k]));
                        }
                    }
                },
            }
        },
        None => {
            assert forall|i: int| 0 <= i < interfaces.len() implies (
            #[trigger] interfaces[i]).name != name by {
                assert(!called(name)(interfaces[i]));
            }
        },
    }
}

/// The view of an address that may be missing.
pub open spec fn option_address_view(a: Option<IpAddress>) -> Option<IpAddressView> {
    match a {
        Some(a) => Some(a@),
        None => None,
    }
}

/// Position of the first interface called `name`.
pub fn find_interface(interfaces: &Vec<NetworkInterface>, name: &String) -> (res: Option<usize>)
    ensures
        match res {
            Some(i) => first_where(interfaces_view(interfaces@), called(name@)) == Some(i as int),
            None => first_where(interfaces_view(interfaces@), called(name@)) is None,
        },
{
    let ghost s = interfaces_view(interfaces@);
    let mut i: usize = 0;
    while i < interfaces.len()
        invariant
            i <= interfaces.len(),
            s == interfaces_view(interfaces@),
            forall|j: int| 0 <= j < i ==> !called(name@)(#[trigger] s[j]),
        decreases interfaces.len() - i,
    {
        if interfaces[i].name == *name {
            proof {
                assert(is_first_where(s, called(name@), i as int));
                lemma_first_where_found(s, called(name@), i as int);
            }
            return Some(i);
        }
        i += 1;
    }
    proof {
        lemma_first_where_absent(s, called(name@));
    }
    None
}

/// Position of the first IPv4 address among `ips`.
pub fn find_ipv4(ips: &Vec<IpAddress>) -> (res: Option<usize>)
    ensures
        match res {
            Some(k) => first_where(addresses_view(ips@), is_ipv4()) == Some(k as int),
            None => first_where(addresses_view(ips@), is_ipv4()) is None,
        },
{
    let ghost s = addresses_view(ips@);
    let mut k: usize = 0;
    while k < ips.len()
        invariant
            k <= ips.len(),
            s == addresses_view(ips@),
            forall|j: int| 0 <= j < k ==> !is_ipv4()(#[trigger] s[j]),
        decreases ips.len() - k,
    {
        match ips[k].family {
            IpFamily::V4 => {
                proof {
                    assert(is_first_where(s, is_ipv4(), k as int));
                    lemma_first_where_found(s, is_ipv4(), k as int);
                }
                return Some(k);
            },
            IpFamily::V6 => {},
        }
        k += 1;
    }
    proof {
        lemma_first_where_absent(s, is_ipv4());
    }
    None
}

/// The IPv4 address of the device `dev_name` among `interfaces`: that of
/// `select_ipv4`, or nothing where no interface has that name or the first
/// one of that name has no IPv4 address.
pub fn get_ip_by_device_name(interfaces: &Vec<NetworkInterface>, dev_name: &String) -> (res: Option<
    IpAddress,
>)
    ensures
        option_address_view(res) == select_ipv4(interfaces_view(interfaces@), dev_name@),
{
    match find_interface(interfaces, dev_name) {
        Some(i) => {
            let iface = &interfaces[i];
            match find_ipv4(&iface.ips) {
                Some(k) => {
                    let a = &iface.ips[k];
                    Some(IpAddress { family: a.family, text: a.text.clone() })
                },
                None => None,
            }
        },
        None => None,
    }
}

} // verus!
