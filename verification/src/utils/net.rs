//! What the network monitor reports.

use vstd::prelude::*;

verus! {

/// The wireless network that the machine is connected to.
#[derive(Clone, Debug, PartialEq, Eq)]
pub struct Wifi {
    pub ssid: String,
}

/// Mathematical model of a `Wifi`.
#[verifier::ext_equal]
pub struct WifiView {
    pub ssid: Seq<char>,
}

impl View for Wifi {
    type V = WifiView;

    open spec fn view(&self) -> WifiView {
        WifiView { ssid: self.ssid@ }
    }
}

/// The model of an optional network.
pub open spec fn wifi_option_view(wifi: Option<Wifi>) -> Option<WifiView> {
    match wifi {
        Some(w) => Some(w@),
        None => None,
    }
}

} // verus!
