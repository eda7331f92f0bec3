//! Bus configuration: the closed set of backend variants and the named
//! parameters each one hands to the `python-can` `Bus` constructor.

use vstd::prelude::*;
use vstd::string::StringExecFns;

verus! {

/// One CAN transport, with every parameter required to open it.
///
/// Exactly one variant is chosen when an interface is created and it is
/// stored unchanged for the interface's whole lifetime; no partially
/// specified backend is representable.
#[derive(Debug)]
pub enum PyCanBusType {
    /// A USB CAN-to-generic-serial-bus adapter, identified by USB bus and
    /// address.
    Gsusb { bitrate: u32, usb_channel: String, usb_bus: u32, usb_address: u32 },
    /// A USB-serial CAN adapter on a serial port such as `/dev/ttyUSB0`.
    Slcan { bitrate: u32, serial_port: String },
    /// A native OS socket-CAN network interface.
    Socketcan { channel: String },
    /// A CAN bus relayed over TCP.
    Socketcand { host: String, channel: String, port: u16 },
}

/// The value of one named backend parameter, as the `Bus` constructor
/// receives it: either a string or an unsigned integer.
#[derive(Debug)]
pub enum BusParam {
    Text(String),
    Unsigned(u32),
}

/// Mathematical image of a [`BusParam`]: text becomes a character sequence.
pub enum BusParamModel {
    Text(Seq<char>),
    Unsigned(u32),
}

impl View for BusParam {
    type V = BusParamModel;

    open spec fn view(&self) -> BusParamModel {
        match self {
            BusParam::Text(s) => BusParamModel::Text(s@),
            BusParam::Unsigned(n) => BusParamModel::Unsigned(*n),
        }
    }
}

/// The exact named parameters, in order, that each backend variant passes to
/// the `Bus` constructor.
pub open spec fn spec_bus_kwargs(kind: PyCanBusType) -> Seq<(Seq<char>, BusParamModel)> {
    match kind {
        PyCanBusType::Gsusb { bitrate, usb_channel, usb_bus, usb_address } => seq![
            ("bustype"@, BusParamModel::Text("gs_usb"@)),
            ("bitrate"@, BusParamModel::Unsigned(bitrate)),
            ("channel"@, BusParamModel::Text(usb_channel@)),
            ("bus"@, BusParamModel::Unsigned(usb_bus)),
            ("address"@, BusParamModel::Unsigned(usb_address)),
        ],
        PyCanBusType::Slcan { bitrate, serial_port } => seq![
            ("bustype"@, BusParamModel::Text("slcan"@)),
            ("channel"@, BusParamModel::Text(serial_port@)),
            ("bitrate"@, BusParamModel::Unsigned(bitrate)),
        ],
        PyCanBusType::Socketcan { channel } => seq![
            ("bustype"@, BusParamModel::Text("socketcan"@)),
            ("channel"@, BusParamModel::Text(channel@)),
        ],
        PyCanBusType::Socketcand { host, channel, port } => seq![
            ("bustype"@, BusParamModel::Text("socketcand"@)),
            ("host"@, BusParamModel::Text(host@)),
            ("channel"@, BusParamModel::Text(channel@)),
            ("port"@, BusParamModel::Unsigned(port as u32)),
        ],
    }
}

/// The image of a built keyword list under [`View`], for comparing it with
/// [`spec_bus_kwargs`].
pub open spec fn kwargs_model(kw: Seq<(String, BusParam)>) -> Seq<(Seq<char>, BusParamModel)> {
    kw.map_values(|p: (String, BusParam)| (p.0@, p.1@))
}

/// Builds the keyword list a backend is opened with: exactly the named
/// parameters of [`spec_bus_kwargs`], in the same order.
pub fn bus_kwargs(kind: &PyCanBusType) -> (kw: Vec<(String, BusParam)>)
    ensures
        kwargs_model(kw@) == spec_bus_kwargs(*kind),
{
    let mut kw: Vec<(String, BusParam)> = Vec::new();
    match kind {
        PyCanBusType::Gsusb { bitrate, usb_channel, usb_bus, usb_address } => {
            kw.push((String::from_str("bustype"), BusParam::Text(String::from_str("gs_usb"))));
            kw.push((String::from_str("bitrate"), BusParam::Unsigned(*bitrate)));
            kw.push((String::from_str("channel"), BusParam::Text(usb_channel.clone())));
            kw.push((String::from_str("bus"), BusParam::Unsigned(*usb_bus)));
            kw.push((String::from_str("address"), BusParam::Unsigned(*usb_address)));
        }
        PyCanBusType::Slcan { bitrate, serial_port } => {
            kw.push((String::from_str("bustype"), BusParam::Text(String::from_str("slcan"))));
            kw.push((String::from_str("channel"), BusParam::Text(serial_port.clone())));
            kw.push((String::from_str("bitrate"), BusParam::Unsigned(*bitrate)));
        }
        PyCanBusType::Socketcan { channel } => {
            kw.push((String::from_str("bustype"), BusParam::Text(String::from_str("socketcan"))));
            kw.push((String::from_str("channel"), BusParam::Text(channel.clone())));
        }
        PyCanBusType::Socketcand { host, channel, port } => {
            kw.push((String::from_str("bustype"), BusParam::Text(String::from_str("socketcand"))));
            kw.push((String::from_str("host"), BusParam::Text(host.clone())));
            kw.push((String::from_str("channel"), BusParam::Text(channel.clone())));
            kw.push((String::from_str("port"), BusParam::Unsigned(*port as u32)));
        }
    }
    proof {
        assert(kwargs_model(kw@) =~~= spec_bus_kwargs(*kind));
    }
    kw
}

} // verus!
