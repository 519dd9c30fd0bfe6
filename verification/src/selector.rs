//! Which backend a call runs on.

use vstd::prelude::*;

verus! {

/// Batches shorter than this stay on the host: below it, moving the data
/// to the device costs more than the device saves.
pub const GPU_THRESHOLD: usize = 65536;

/// A backend that satisfies the native compute contract.
#[derive(Debug, Clone, Copy, PartialEq, Eq, Structural)]
pub enum Backend {
    Cpu,
    Gpu,
}

/// The state that selection reads: whether a device backend was built in,
/// the process-wide off-switch, and the answer of the device probe once it
/// has been asked.
///
/// The embedding program keeps one selector for the process, records the
/// probe's answer in it once, and guards it against concurrent writes.
#[derive(Debug, Clone, Copy, PartialEq, Eq)]
pub struct BackendSelector {
    pub compiled_in: bool,
    pub switched_off: bool,
    pub probe: Option<bool>,
}

impl BackendSelector {
    /// Whether calls may go to the device at all.
    pub open spec fn device_enabled(&self) -> bool {
        self.compiled_in && !self.switched_off && self.probe == Some(true)
    }

    /// The backend of a one-shot call over `npoints` points.
    pub open spec fn choice(self, npoints: nat) -> Backend {
        if self.device_enabled() && npoints >= GPU_THRESHOLD {
            Backend::Gpu
        } else {
            Backend::Cpu
        }
    }

    /// Whether the device probe still has to be run.
    pub open spec fn probe_pending(&self) -> bool {
        self.compiled_in && self.probe is None
    }

    /// A selector with the switch on and the probe not yet asked.
    pub fn new(compiled_in: bool) -> (s: BackendSelector)
        ensures
            s == (BackendSelector { compiled_in, switched_off: false, probe: None }),
    {
        BackendSelector { compiled_in, switched_off: false, probe: None }
    }

    /// The selector of a build without a device backend.
    pub fn host_only() -> (s: BackendSelector)
        ensures
            s == (BackendSelector { compiled_in: false, switched_off: false, probe: None }),
            !s.device_enabled(),
    {
        BackendSelector { compiled_in: false, switched_off: false, probe: None }
    }

    /// Sets the off-switch. Calls already issued are not affected: they
    /// hold the backend they resolved to.
    pub fn set_switched_off(&mut self, off: bool)
        ensures
            *final(self) == (BackendSelector { switched_off: off, ..*old(self) }),
    {
        self.switched_off = off;
    }

    #[verifier::when_used_as_spec(probe_pending)]
    pub fn needs_probe(&self) -> (r: bool)
        ensures
            r == self.probe_pending(),
    {
        self.compiled_in && self.probe.is_none()
    }

    /// Records what the device probe answered. The first answer stays:
    /// a later one is ignored.
    pub fn record_probe(&mut self, device_present: bool)
        ensures
            old(self).probe is None ==> *final(self) == (BackendSelector {
                probe: Some(device_present),
                ..*old(self)
            }),
            old(self).probe is Some ==> *final(self) == *old(self),
    {
        if self.probe.is_none() {
            self.probe = Some(device_present);
        }
    }

    #[verifier::when_used_as_spec(device_enabled)]
    pub fn device_ready(&self) -> (r: bool)
        ensures
            r == self.device_enabled(),
    {
        self.compiled_in && !self.switched_off && match self.probe {
            Some(present) => present,
            None => false,
        }
    }

    /// Decides the backend of a one-shot call: the device if and only if
    /// one was built in, the switch is on, the probe found a device, and
    /// the batch reaches the threshold.
    pub fn select(&self, npoints: usize) -> (b: Backend)
        ensures
            b == self.choice(npoints as nat),
            b == Backend::Gpu <==> self.compiled_in && !self.switched_off && self.probe == Some(
                true,
            ) && npoints >= GPU_THRESHOLD,
    {
        if self.device_ready() && npoints >= GPU_THRESHOLD {
            Backend::Gpu
        } else {
            Backend::Cpu
        }
    }
}

} // verus!
