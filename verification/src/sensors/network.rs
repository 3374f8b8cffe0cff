//! The network-interface reading served by a platform metric source.
use vstd::prelude::*;

verus! {

/// All network interfaces, enumerated at call time.
#[derive(Debug)]
pub struct NetworkData {
    pub interfaces: Vec<NetworkInterface>,
}

/// One interface. Byte counters are raw monotonically increasing totals;
/// the consumer applies its own unit handling.
#[derive(Debug)]
pub struct NetworkInterface {
    pub name: String,
    pub mac_address: String,
    pub received_bytes: u64,
    pub transmitted_bytes: u64,
    pub ip_addresses: Vec<String>,
}

#[verifier::ext_equal]
pub struct NetworkDataView {
    pub interfaces: Seq<NetworkInterfaceView>,
}

#[verifier::ext_equal]
pub struct NetworkInterfaceView {
    pub name: Seq<char>,
    pub mac_address: Seq<char>,
    pub received_bytes: u64,
    pub transmitted_bytes: u64,
    pub ip_addresses: Seq<Seq<char>>,
}

impl View for NetworkInterface {
    type V = NetworkInterfaceView;

    open spec fn view(&self) -> NetworkInterfaceView {
        NetworkInterfaceView {
            name: self.name@,
            mac_address: self.mac_address@,
            received_bytes: self.received_bytes,
            transmitted_bytes: self.transmitted_bytes,
            ip_addresses: self.ip_addresses.deep_view(),
        }
    }
}

impl DeepView for NetworkInterface {
    type V = NetworkInterfaceView;

    open spec fn deep_view(&self) -> NetworkInterfaceView {
        self.view()
    }
}

impl View for NetworkData {
    type V = NetworkDataView;

    open spec fn view(&self) -> NetworkDataView {
        NetworkDataView { interfaces: self.interfaces.deep_view() }
    }
}

impl DeepView for NetworkData {
    type V = NetworkDataView;

    open spec fn deep_view(&self) -> NetworkDataView {
        self.view()
    }
}

} // verus!
