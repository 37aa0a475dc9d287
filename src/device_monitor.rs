//! The device watcher's decisions. Every few seconds the caller lists the
//! outputs, reads the saved device and the system default, and hands them
//! here; what comes back is what to tell the user and whether to move the
//! engine back to the default device.

use vstd::prelude::*;
use crate::models::AudioDevice;
use crate::player::{device_listed, device_present};
use crate::sink::same_text;

verus! {

/// What a poll of the outputs calls for.
#[derive(Debug, Clone, PartialEq)]
pub enum MonitorAction {
    /// The number of outputs changed.
    DeviceListUpdated,
    /// The saved device is gone: forget it in the store and, once forgotten,
    /// send the engine to the default device.
    SavedDeviceRemoved(String),
    /// The system default moved to the named device.
    DefaultDeviceChanged(String),
    /// A system default appeared, the named device.
    DefaultDeviceAppeared(String),
    /// The system default disappeared.
    DefaultDeviceRemoved,
    /// Send the engine to the default device again.
    FollowDefault,
}

pub struct DeviceMonitor {
    last_device_count: usize,
    last_default: Option<String>,
}

/// Two optional names are the same name.
pub open spec fn same_name(a: Option<String>, b: Option<String>) -> bool {
    match (a, b) {
        (Some(x), Some(y)) => x@ == y@,
        (None, None) => true,
        _ => false,
    }
}

/// What a change of the system default calls for, while no device is saved.
pub open spec fn default_actions(last: Option<String>, now: Option<String>) -> Seq<MonitorAction> {
    if same_name(last, now) {
        Seq::empty()
    } else {
        match (last, now) {
            (Some(_), Some(n)) => seq![MonitorAction::DefaultDeviceChanged(n), MonitorAction::FollowDefault],
            (None, Some(n)) => seq![MonitorAction::DefaultDeviceAppeared(n), MonitorAction::FollowDefault],
            (Some(_), None) => seq![MonitorAction::DefaultDeviceRemoved, MonitorAction::FollowDefault],
            (None, None) => Seq::empty(),
        }
    }
}

/// What a change in the number of outputs calls for.
pub open spec fn count_actions(changed: bool, devices: Seq<AudioDevice>, saved: Option<String>) -> Seq<MonitorAction> {
    if changed {
        seq![MonitorAction::DeviceListUpdated] + match saved {
            Some(s) => if device_listed(devices, s) {
                Seq::empty()
            } else {
                seq![MonitorAction::SavedDeviceRemoved(s)]
            },
            None => Seq::<MonitorAction>::empty(),
        }
    } else {
        Seq::empty()
    }
}

fn same_option(a: &Option<String>, b: &Option<String>) -> (r: bool)
    ensures
        r == same_name(*a, *b),
{
    match (a, b) {
        (Some(x), Some(y)) => same_text(x.as_str(), y.as_str()),
        (None, None) => true,
        _ => false,
    }
}

impl DeviceMonitor {
    pub closed spec fn device_count(self) -> usize {
        self.last_device_count
    }

    pub closed spec fn default_device(self) -> Option<String> {
        self.last_default
    }

    /// A watcher that has seen no outputs and no default yet.
    pub fn new() -> (r: DeviceMonitor)
        ensures
            r.device_count() == 0,
            r.default_device() is None,
    {
        DeviceMonitor { last_device_count: 0, last_default: None }
    }

    /// One poll: the outputs listed, the saved device, and the system default.
    pub fn observe(&mut self, devices: &Vec<AudioDevice>, saved: &Option<String>, system_default: Option<String>)
        -> (r: Vec<MonitorAction>)
        ensures
            final(self).device_count() == devices@.len(),
            final(self).default_device() == system_default,
            r@ == count_actions(devices@.len() != old(self).device_count(), devices@, *saved) + if saved is None {
                default_actions(old(self).default_device(), system_default)
            } else {
                Seq::<MonitorAction>::empty()
            },
    {
        let mut r: Vec<MonitorAction> = Vec::new();
        let count = devices.len();
        if count != self.last_device_count {
            self.last_device_count = count;
            r.push(MonitorAction::DeviceListUpdated);
            match saved {
                Some(s) => {
                    if !device_present(devices, s) {
                        r.push(MonitorAction::SavedDeviceRemoved(s.clone()));
                    }
                },
                None => {},
            }
        }
        let ghost counted = r@;
        assert(counted =~= count_actions(devices@.len() != old(self).device_count(), devices@, *saved));
        if saved.is_none() && !same_option(&self.last_default, &system_default) {
            match (&self.last_default, &system_default) {
                (Some(_), Some(n)) => {
                    r.push(MonitorAction::DefaultDeviceChanged(n.clone()));
                    r.push(MonitorAction::FollowDefault);
                },
                (None, Some(n)) => {
                    r.push(MonitorAction::DefaultDeviceAppeared(n.clone()));
                    r.push(MonitorAction::FollowDefault);
                },
                (Some(_), None) => {
                    r.push(MonitorAction::DefaultDeviceRemoved);
                    r.push(MonitorAction::FollowDefault);
                },
                (None, None) => {},
            }
        }
        self.last_default = system_default;
        assert(r@ =~= counted + if saved is None {
            default_actions(old(self).default_device(), self.last_default)
        } else {
            Seq::<MonitorAction>::empty()
        });
        r
    }
}

} // verus!
