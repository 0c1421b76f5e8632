//! The settings of a live capture: which interface, whether in wireless
//! monitor mode, and which packet filter. Opening the device and running the
//! capture happen outside the library.
use vstd::prelude::*;
use vstd::string::StringExecFns;

verus! {

/// What drives the capture loop.
#[derive(Debug, Clone, Copy, PartialEq, Eq, Structural)]
pub enum Event {
    Key,
    Tick,
    Paused,
    Selected,
    Disconnected,
}

/// The interface a capture opens when none is named.
pub const DEFAULT_INTERFACE: &'static str = "eth0";

/// Capture settings. Wireless captures also use monitor mode, so that raw
/// 802.11 frames are seen rather than frames converted to Ethernet.
#[derive(Debug)]
pub struct Capture {
    interface: String,
    wireless: bool,
    monitor: bool,
    filter: String,
}

impl Capture {
    pub closed spec fn spec_interface(&self) -> Seq<char> {
        self.interface@
    }

    pub closed spec fn spec_wireless(&self) -> bool {
        self.wireless
    }

    pub closed spec fn spec_monitor(&self) -> bool {
        self.monitor
    }

    pub closed spec fn spec_filter(&self) -> Seq<char> {
        self.filter@
    }

    /// Settings for a wired capture on the default interface, unfiltered.
    pub fn new() -> (r: Capture)
        ensures
            r.spec_interface() == DEFAULT_INTERFACE@,
            !r.spec_wireless(),
            !r.spec_monitor(),
            r.spec_filter().len() == 0,
    {
        Capture {
            interface: String::from_str(DEFAULT_INTERFACE),
            wireless: false,
            monitor: false,
            filter: String::new(),
        }
    }

    /// The same settings as `new`.
    pub fn create_capture() -> (r: Capture)
        ensures
            r.spec_interface() == DEFAULT_INTERFACE@,
            !r.spec_wireless(),
            !r.spec_monitor(),
            r.spec_filter().len() == 0,
    {
        Self::new()
    }

    /// Names the interface to capture on.
    pub fn with_interface(&mut self, interface: String) -> (r: &Self)
        ensures
            final(self).spec_interface() == interface@,
            final(self).spec_wireless() == old(self).spec_wireless(),
            final(self).spec_monitor() == old(self).spec_monitor(),
            final(self).spec_filter() == old(self).spec_filter(),
            *r == *final(self),
    {
        self.interface = interface;
        self
    }

    /// Turns wireless capture, and with it monitor mode, on or off.
    pub fn with_wireless(&mut self, wireless: bool) -> (r: &Self)
        ensures
            final(self).spec_interface() == old(self).spec_interface(),
            final(self).spec_wireless() == wireless,
            final(self).spec_monitor() == wireless,
            final(self).spec_filter() == old(self).spec_filter(),
            *r == *final(self),
    {
        self.wireless = wireless;
        self.monitor = wireless;
        self
    }

    /// Sets the packet filter expression, handed to the capture device as is.
    pub fn with_filter(&mut self, filter: String) -> (r: &Self)
        ensures
            final(self).spec_interface() == old(self).spec_interface(),
            final(self).spec_wireless() == old(self).spec_wireless(),
            final(self).spec_monitor() == old(self).spec_monitor(),
            final(self).spec_filter() == filter@,
            *r == *final(self),
    {
        self.filter = filter;
        self
    }

    pub fn interface(&self) -> (r: &str)
        ensures
            r@ == self.spec_interface(),
    {
        self.interface.as_str()
    }

    pub fn wireless(&self) -> (r: bool)
        ensures
            r == self.spec_wireless(),
    {
        self.wireless
    }

    pub fn monitor(&self) -> (r: bool)
        ensures
            r == self.spec_monitor(),
    {
        self.monitor
    }

    pub fn filter(&self) -> (r: &str)
        ensures
            r@ == self.spec_filter(),
    {
        self.filter.as_str()
    }
}

} // verus!
