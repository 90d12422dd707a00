//! Tunnel device lifecycle: create, configure, bring up, tear down.
//!
//! The handle models the device's externally observable state; the embedding
//! runtime mirrors every transition onto the real device and the host's
//! forwarding rules, and reports privilege failures back as events.

use vstd::prelude::*;
use vstd::string::*;

verus! {

/// Lifecycle state of the tunnel device.
#[derive(Clone, Copy, Debug, PartialEq, Eq, Structural)]
pub enum TunnelState {
    /// Device exists but carries no configuration yet.
    Created,
    /// Keys, port and peers are applied; device is not passing traffic.
    Configured,
    /// Device is up and passing traffic.
    Up,
    /// Device is torn down and released.
    Down,
}

/// One peer entry of the tunnel configuration.
pub struct TunnelPeer {
    /// The peer's tunnel public key.
    pub public_key: String,
    /// The address the peer is reached at.
    pub endpoint: String,
    /// Address ranges routed to this peer.
    pub allowed_ips: String,
}

/// The configuration applied to the tunnel device.
pub struct TunnelConfig {
    /// This node's tunnel private key.
    pub private_key: String,
    /// The UDP port the device listens on.
    pub listen_port: u16,
    /// The peers the device accepts traffic from.
    pub peers: Vec<TunnelPeer>,
    /// Address ranges carried by the tunnel.
    pub allowed_ip_ranges: Vec<String>,
}

/// A configuration the device accepts: a key that is present and a usable
/// listen port. Anything else is rejected before it reaches the device.
pub open spec fn config_ok(c: TunnelConfig) -> bool {
    &&& c.private_key@.len() > 0
    &&& c.listen_port > 0
}

/// A device name the host accepts: non-empty and within the interface-name
/// length limit.
pub open spec fn device_name_ok(n: Seq<char>) -> bool {
    1 <= n.len() <= 15
}

/// Errors of the tunnel lifecycle.
#[derive(Clone, Copy, Debug, PartialEq, Eq, Structural)]
pub enum TunnelError {
    /// The host refused to create the device.
    DeviceCreationFailed,
    /// The configuration carried an invalid key or port.
    ConfigurationRejected,
    /// Forwarding rules could not be applied for want of host privilege;
    /// non-fatal, the tunnel still carries this node's own traffic.
    PrivilegeDenied,
}

/// Handle to the tunnel device; exclusively owned by the lifecycle manager.
pub struct TunnelHandle {
    /// The host interface name of the device.
    pub device_name: String,
    /// Lifecycle state of the device.
    pub state: TunnelState,
    /// The configuration currently applied, if any.
    pub applied: Option<TunnelConfig>,
    /// Whether host NAT/forwarding rules are active for this device.
    pub forwarding_active: bool,
}

/// The state a handle has after teardown: device released, configuration
/// gone, forwarding rules reversed.
pub open spec fn spec_down(t: TunnelHandle) -> TunnelHandle {
    TunnelHandle {
        state: TunnelState::Down,
        applied: None,
        forwarding_active: false,
        ..t
    }
}

impl TunnelHandle {
    /// A handle carries configuration and forwarding rules only between its
    /// first configuration and its teardown.
    pub open spec fn wf(self) -> bool {
        &&& (self.state is Down ==> self.applied is None && !self.forwarding_active)
        &&& (self.state is Created ==> self.applied is None && !self.forwarding_active)
    }

    /// Create the device model under `device_name`. A name the host cannot
    /// accept fails as `DeviceCreationFailed` before any resource is touched.
    pub fn create(device_name: String) -> (r: Result<TunnelHandle, TunnelError>)
        ensures
            device_name_ok(device_name@) ==> {
                &&& r matches Ok(t)
                &&& t.wf()
                &&& t.device_name@ == device_name@
                &&& t.state is Created
                &&& t.applied is None
                &&& !t.forwarding_active
            },
            !device_name_ok(device_name@) ==> r matches Err(TunnelError::DeviceCreationFailed),
    {
        if device_name.as_str().unicode_len() == 0 || device_name.as_str().unicode_len() > 15 {
            return Err(TunnelError::DeviceCreationFailed);
        }
        Ok(
            TunnelHandle {
                device_name,
                state: TunnelState::Created,
                applied: None,
                forwarding_active: false,
            },
        )
    }

    /// Apply a configuration to the device. An invalid key or port is
    /// rejected with the device untouched. Reapplying the configuration the
    /// device already carries produces no observable change, so configuring
    /// is idempotent.
    pub fn configure(&mut self, cfg: TunnelConfig) -> (r: Result<(), TunnelError>)
        requires
            old(self).wf(),
            !(old(self).state is Down),
        ensures
            final(self).wf(),
            !config_ok(cfg) ==> {
                &&& r matches Err(TunnelError::ConfigurationRejected)
                &&& *final(self) == *old(self)
            },
            config_ok(cfg) ==> {
                &&& r is Ok
                &&& final(self).applied == Some(cfg)
                &&& final(self).state == (if old(self).state is Created {
                    TunnelState::Configured
                } else {
                    old(self).state
                })
                &&& final(self).device_name == old(self).device_name
                &&& final(self).forwarding_active == old(self).forwarding_active
            },
            old(self).applied == Some(cfg) ==> *final(self) == *old(self),
    {
        if cfg.private_key.as_str().unicode_len() == 0 || cfg.listen_port == 0 {
            return Err(TunnelError::ConfigurationRejected);
        }
        if matches!(self.state, TunnelState::Created) {
            self.state = TunnelState::Configured;
        }
        self.applied = Some(cfg);
        proof {
            if old(self).applied == Some(cfg) {
                assert(*self =~= *old(self));
            }
        }
        Ok(())
    }

    /// Bring the device up. Host forwarding rules are applied best-effort by
    /// the runtime, which reports whether they took: a privilege failure is
    /// downgraded to a warning and never fails bring-up, since a node may be
    /// a pure client with nothing to forward for.
    pub fn up(&mut self, forwarding_applied: bool) -> (warned: bool)
        requires
            old(self).wf(),
            old(self).state is Configured,
        ensures
            final(self).wf(),
            final(self).state is Up,
            final(self).applied == old(self).applied,
            final(self).device_name == old(self).device_name,
            final(self).forwarding_active == forwarding_applied,
            warned == !forwarding_applied,
    {
        self.state = TunnelState::Up;
        self.forwarding_active = forwarding_applied;
        !forwarding_applied
    }

    /// Tear the device down: release it, drop its configuration and reverse
    /// its forwarding rules, from any state. Tearing down a device that is
    /// already down changes nothing, so the device is torn down exactly once
    /// however often the shutdown path runs.
    pub fn down(&mut self)
        requires
            old(self).wf(),
        ensures
            final(self).wf(),
            *final(self) == spec_down(*old(self)),
            final(self).state is Down,
            final(self).applied is None,
            !final(self).forwarding_active,
            old(self).state is Down ==> *final(self) == *old(self),
    {
        self.state = TunnelState::Down;
        self.applied = None;
        self.forwarding_active = false;
        proof {
            assert(*self =~= spec_down(*old(self)));
            if old(self).state is Down {
                assert(*self =~= *old(self));
            }
        }
    }
}

/// Teardown happens exactly once: running the teardown transition a second
/// time leaves the handle exactly where the first run left it.
pub proof fn lemma_down_idempotent(t: TunnelHandle)
    ensures
        spec_down(spec_down(t)) == spec_down(t),
{
    assert(spec_down(spec_down(t)) =~= spec_down(t));
}

} // verus!
