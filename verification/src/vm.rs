//! Virtual-machine domain model and the host-isolation policy.
//!
//! A VM cannot be provisioned unless its policy keeps every guarantee.

use crate::error::Error;
use crate::ids::{InstanceId, VmId};
use vstd::prelude::*;

verus! {

/// The role a VM plays in a session.
#[derive(Debug, Clone, Copy, PartialEq, Eq, Structural)]
pub enum VmRole {
    /// The network gateway.
    Gateway,
    /// The browser workstation.
    Browser,
}

impl VmRole {
    /// The name of the role in audit records.
    pub open spec fn name(self) -> Seq<char> {
        match self {
            VmRole::Gateway => "gateway"@,
            VmRole::Browser => "browser"@,
        }
    }

    /// The name of the role in audit records.
    #[must_use]
    pub fn as_str(self) -> (r: &'static str)
        ensures
            r@ == self.name(),
    {
        match self {
            VmRole::Gateway => "gateway",
            VmRole::Browser => "browser",
        }
    }
}

/// The GPU backend exposed to a VM.
#[derive(Debug, Clone, Copy, PartialEq, Eq, Structural)]
pub enum GpuBackend {
    /// `virtio-gpu`.
    VirtioGpu,
    /// Pure software rendering.
    Software,
}

impl Default for GpuBackend {
    fn default() -> (r: GpuBackend)
        ensures
            r == GpuBackend::VirtioGpu,
    {
        GpuBackend::VirtioGpu
    }
}

/// A disk layer: a throwaway overlay on a read-only base image.
#[derive(Debug, PartialEq, Eq)]
pub struct DiskLayer {
    /// Path to the read-only backing image.
    pub backing_image: String,
    /// Path to the writable overlay.
    pub overlay_path: String,
    /// Whether the overlay must be destroyed with the VM.
    pub destroy_on_close: bool,
    /// Whether the backing image is mounted read-only inside the guest.
    pub read_only_root: bool,
}

/// The host-isolation policy; `true` means the guarantee holds.
#[derive(Debug, Clone, Copy, PartialEq, Eq, Structural)]
pub struct IsolationPolicy {
    /// No shared clipboard between host and guest.
    pub no_shared_clipboard: bool,
    /// No drag-and-drop channel.
    pub no_drag_and_drop: bool,
    /// No shared folders.
    pub no_shared_folders: bool,
    /// No automatic mounting of host disks.
    pub no_host_disk_automount: bool,
    /// No USB passthrough.
    pub no_usb_passthrough: bool,
    /// No PCI or GPU passthrough.
    pub no_pci_passthrough: bool,
    /// No camera or microphone exposed to the guest.
    pub no_camera_microphone: bool,
    /// No access to the host SSH agent.
    pub no_host_ssh_agent: bool,
    /// No guest tools that provide desktop integration.
    pub no_desktop_integration_tools: bool,
    /// Root filesystem is read-only inside the guest.
    pub read_only_root: bool,
    /// A locally generated random instance id.
    pub random_instance_id: bool,
    /// A fresh virtual NIC per instance.
    pub fresh_network_device: bool,
}

/// The complaint of the first guarantee that does not hold.
pub open spec fn first_unmet(guarantees: Seq<(bool, Seq<char>)>) -> Option<Seq<char>>
    decreases guarantees.len(),
{
    if guarantees.len() == 0 {
        None
    } else if !guarantees[0].0 {
        Some(guarantees[0].1)
    } else {
        first_unmet(guarantees.skip(1))
    }
}

impl IsolationPolicy {
    /// Whether every guarantee holds.
    pub open spec fn hard(self) -> bool {
        &&& self.no_shared_clipboard
        &&& self.no_drag_and_drop
        &&& self.no_shared_folders
        &&& self.no_host_disk_automount
        &&& self.no_usb_passthrough
        &&& self.no_pci_passthrough
        &&& self.no_camera_microphone
        &&& self.no_host_ssh_agent
        &&& self.no_desktop_integration_tools
        &&& self.read_only_root
        &&& self.random_instance_id
        &&& self.fresh_network_device
    }

    /// The guarantees in the order in which they are checked, each with its
    /// complaint.
    pub open spec fn guarantees(self) -> Seq<(bool, Seq<char>)> {
        seq![
            (self.no_shared_clipboard, "shared clipboard must be disabled"@),
            (self.no_drag_and_drop, "drag-and-drop must be disabled"@),
            (self.no_shared_folders, "shared folders must be disabled"@),
            (self.no_host_disk_automount, "host disk automount must be disabled"@),
            (self.no_usb_passthrough, "USB passthrough must be disabled"@),
            (self.no_pci_passthrough, "PCI/GPU passthrough must be disabled"@),
            (self.no_camera_microphone, "camera/microphone must be disabled"@),
            (self.no_host_ssh_agent, "host SSH agent forwarding must be disabled"@),
            (self.no_desktop_integration_tools, "desktop integration tools must be absent"@),
            (self.read_only_root, "root filesystem must be read-only"@),
            (self.random_instance_id, "instance id must be locally randomized"@),
            (self.fresh_network_device, "a fresh virtual NIC must be used"@),
        ]
    }

    /// The complaint of the first guarantee that does not hold.
    pub open spec fn violation(self) -> Option<Seq<char>> {
        first_unmet(self.guarantees())
    }

    /// The policy used for every VM: all guarantees hold.
    #[must_use]
    pub fn hardened() -> (r: IsolationPolicy)
        ensures
            r.hard(),
    {
        IsolationPolicy {
            no_shared_clipboard: true,
            no_drag_and_drop: true,
            no_shared_folders: true,
            no_host_disk_automount: true,
            no_usb_passthrough: true,
            no_pci_passthrough: true,
            no_camera_microphone: true,
            no_host_ssh_agent: true,
            no_desktop_integration_tools: true,
            read_only_root: true,
            random_instance_id: true,
            fresh_network_device: true,
        }
    }

    /// The first violated guarantee, or `None` if fully hardened.
    #[must_use]
    pub fn validate(&self) -> (r: Option<&'static str>)
        ensures
            match r {
                Some(m) => self.violation() == Some(m@),
                None => self.violation() is None,
            },
    {
        let checks: [(bool, &'static str); 12] = [
            (self.no_shared_clipboard, "shared clipboard must be disabled"),
            (self.no_drag_and_drop, "drag-and-drop must be disabled"),
            (self.no_shared_folders, "shared folders must be disabled"),
            (self.no_host_disk_automount, "host disk automount must be disabled"),
            (self.no_usb_passthrough, "USB passthrough must be disabled"),
            (self.no_pci_passthrough, "PCI/GPU passthrough must be disabled"),
            (self.no_camera_microphone, "camera/microphone must be disabled"),
            (self.no_host_ssh_agent, "host SSH agent forwarding must be disabled"),
            (self.no_desktop_integration_tools, "desktop integration tools must be absent"),
            (self.read_only_root, "root filesystem must be read-only"),
            (self.random_instance_id, "instance id must be locally randomized"),
            (self.fresh_network_device, "a fresh virtual NIC must be used"),
        ];
        let ghost list = self.guarantees();
        assert(list =~= checks@.map_values(|c: (bool, &'static str)| (c.0, c.1@)));
        assert(list.skip(0) =~= list);
        let mut i: usize = 0;
        while i < 12
            invariant
                i <= 12,
                list == self.guarantees(),
                list == checks@.map_values(|c: (bool, &'static str)| (c.0, c.1@)),
                self.violation() == first_unmet(list.skip(i as int)),
            decreases 12 - i,
        {
            assert(list[i as int] == (checks@[i as int].0, checks@[i as int].1@));
            let (holds, complaint) = checks[i];
            if !holds {
                return Some(complaint);
            }
            assert(list.skip(i as int).skip(1) =~= list.skip(i + 1));
            i += 1;
        }
        None
    }

    /// Whether this policy is fully hardened.
    #[must_use]
    pub fn is_hardened(&self) -> (r: bool)
        ensures
            r == self.hard(),
    {
        proof {
            law_hardened_iff_no_violation(*self);
        }
        self.validate().is_none()
    }
}

/// A policy is fully hardened exactly where validation finds nothing: weakening
/// any single guarantee is rejected.
pub proof fn law_hardened_iff_no_violation(p: IsolationPolicy)
    ensures
        p.hard() <==> p.violation() is None,
{
    reveal_with_fuel(first_unmet, 13);
    let g = p.guarantees();
    assert(g.skip(1).skip(1) =~= g.skip(2));
    assert(g.skip(2).skip(1) =~= g.skip(3));
    assert(g.skip(3).skip(1) =~= g.skip(4));
    assert(g.skip(4).skip(1) =~= g.skip(5));
    assert(g.skip(5).skip(1) =~= g.skip(6));
    assert(g.skip(6).skip(1) =~= g.skip(7));
    assert(g.skip(7).skip(1) =~= g.skip(8));
    assert(g.skip(8).skip(1) =~= g.skip(9));
    assert(g.skip(9).skip(1) =~= g.skip(10));
    assert(g.skip(10).skip(1) =~= g.skip(11));
    assert(g.skip(11).skip(1) =~= g.skip(12));
}

impl Default for IsolationPolicy {
    fn default() -> (r: IsolationPolicy)
        ensures
            r.hard(),
    {
        IsolationPolicy::hardened()
    }
}

/// Static resource sizing for a VM.
#[derive(Debug, Clone, Copy, PartialEq, Eq, Structural)]
pub struct VmResources {
    /// Virtual CPUs.
    pub vcpus: u32,
    /// Memory in MiB.
    pub memory_mib: u32,
}

impl VmResources {
    /// The sizing of a VM in the given role.
    pub open spec fn sized_for(role: VmRole) -> VmResources {
        match role {
            VmRole::Gateway => VmResources { vcpus: 1, memory_mib: 512 },
            VmRole::Browser => VmResources { vcpus: 2, memory_mib: 4096 },
        }
    }

    /// Defaults for a gateway.
    #[must_use]
    pub fn gateway() -> (r: VmResources)
        ensures
            r == VmResources::sized_for(VmRole::Gateway),
    {
        VmResources { vcpus: 1, memory_mib: 512 }
    }

    /// Defaults for a browser workstation.
    #[must_use]
    pub fn browser() -> (r: VmResources)
        ensures
            r == VmResources::sized_for(VmRole::Browser),
    {
        VmResources { vcpus: 2, memory_mib: 4096 }
    }
}

/// A request to provision a VM.
#[derive(Debug, PartialEq, Eq)]
pub struct VmProvisionRequest {
    /// Locally generated instance id.
    pub instance_id: InstanceId,
    /// The VM's role.
    pub role: VmRole,
    /// Resource sizing.
    pub resources: VmResources,
    /// Disk layering.
    pub disk: DiskLayer,
    /// GPU backend.
    pub gpu: GpuBackend,
    /// Host-isolation policy.
    pub isolation: IsolationPolicy,
    /// Name of the isolated network the downstream NIC attaches to.
    pub isolated_network: String,
}

impl VmProvisionRequest {
    /// The complaint about the request, if any.
    pub open spec fn violation(self) -> Option<Seq<char>> {
        if self.isolation.violation() is Some {
            self.isolation.violation()
        } else if self.role == VmRole::Browser && !self.disk.read_only_root {
            Some("browser VM must have a read-only root filesystem"@)
        } else {
            None
        }
    }

    /// Checks the request before provisioning.
    pub fn validate(&self) -> (r: Result<(), Error>)
        ensures
            match r {
                Ok(_) => self.violation() is None,
                Err(e) => e matches Error::Isolation(m) && self.violation() == Some(m@),
            },
    {
        if let Some(reason) = self.isolation.validate() {
            return Err(Error::Isolation(reason.to_owned()));
        }
        if self.role == VmRole::Browser && !self.disk.read_only_root {
            return Err(
                Error::Isolation("browser VM must have a read-only root filesystem".to_owned()),
            );
        }
        Ok(())
    }
}

/// Runtime state of a VM.
#[derive(Debug, Clone, Copy, PartialEq, Eq, Structural)]
pub enum VmState {
    /// Defined but not started.
    Defined,
    /// Booting.
    Starting,
    /// Running.
    Running,
    /// Shutting down.
    Stopping,
    /// Stopped, still defined.
    Stopped,
    /// Destroyed and cleaned up.
    Destroyed,
    /// In an error state.
    Failed,
}

impl VmState {
    /// Whether the VM is actively running.
    #[must_use]
    pub fn is_running(self) -> (r: bool)
        ensures
            r == (self == VmState::Running),
    {
        matches!(self, VmState::Running)
    }
}

/// How a VM is shut down.
#[derive(Debug, Clone, Copy, PartialEq, Eq, Structural)]
pub enum ShutdownMode {
    /// Ask the guest to power off.
    Graceful,
    /// Power off at once.
    Forced,
}

/// A handle to a provisioned VM.
#[derive(Debug, PartialEq, Eq)]
pub struct VmHandle {
    /// The controller-assigned id.
    pub id: VmId,
    /// The instance id from the request.
    pub instance_id: InstanceId,
    /// The role.
    pub role: VmRole,
    /// The domain name.
    pub domain_name: String,
    /// State when the handle was produced.
    pub state: VmState,
}

/// The report returned after destroying a VM.
#[derive(Debug, Clone, Copy, PartialEq, Eq, Structural)]
pub struct DestroyReport {
    /// The VM that was destroyed.
    pub id: VmId,
    /// Whether the writable overlay was removed.
    pub overlay_shredded: bool,
    /// Whether the domain definition was removed.
    pub domain_undefined: bool,
}

impl DestroyReport {
    /// Whether the teardown left no writable residue.
    #[must_use]
    pub fn is_clean(&self) -> (r: bool)
        ensures
            r == (self.overlay_shredded && self.domain_undefined),
    {
        self.overlay_shredded && self.domain_undefined
    }
}

/// An isolation policy passes exactly where it gives every one of its guarantees;
/// where it lacks one alone, the refusal is about that one.
pub proof fn law_every_guarantee_counts(p: IsolationPolicy)
    ensures
        p.violation() is None <==> {
            &&& p.no_shared_clipboard
            &&& p.no_drag_and_drop
            &&& p.no_shared_folders
            &&& p.no_host_disk_automount
            &&& p.no_usb_passthrough
            &&& p.no_pci_passthrough
            &&& p.no_camera_microphone
            &&& p.no_host_ssh_agent
            &&& p.no_desktop_integration_tools
            &&& p.read_only_root
            &&& p.random_instance_id
            &&& p.fresh_network_device
        },
{
    law_hardened_iff_no_violation(p);
}

/// A browser VM without a read-only root is refused, whatever its isolation, and
/// so is any VM with less than full isolation.
pub proof fn law_weak_vms_are_refused(req: VmProvisionRequest)
    ensures
        req.violation() is None <==> req.isolation.violation() is None && (req.role is Browser
            ==> req.disk.read_only_root),
        VmRole::Gateway.name() == "gateway"@,
        VmRole::Browser.name() == "browser"@,
{
}

} // verus!
