//! Virtualization and container environment description.
//!
//! String-keyed maps of the platform layer are carried as vectors of
//! key/value records so their contents stay plain data.

use vstd::prelude::*;
use vstd::string::StringExecFns;

verus! {

/// Type of virtualization environment
#[derive(Debug, Clone, Copy, PartialEq, Eq, Structural)]
pub enum VirtualizationType {
    /// Running on bare metal
    Native,
    /// Docker container
    Docker,
    /// Kubernetes pod
    Kubernetes,
    /// LXC/LXD container
    LXC,
    /// Podman container
    Podman,
    /// Full virtual machine
    VirtualMachine,
    /// Windows Subsystem for Linux
    WSL,
    /// Windows Subsystem for Linux 2
    WSL2,
    /// Wine compatibility layer
    Wine,
    /// macOS virtualization
    MacOSVirtualization,
    /// Unknown virtualization
    Unknown,
}

impl VirtualizationType {
    /// The text this environment type renders as.
    pub open spec fn spec_label(&self) -> Seq<char> {
        match self {
            VirtualizationType::Native => "Native"@,
            VirtualizationType::Docker => "Docker"@,
            VirtualizationType::Kubernetes => "Kubernetes"@,
            VirtualizationType::LXC => "LXC"@,
            VirtualizationType::Podman => "Podman"@,
            VirtualizationType::VirtualMachine => "Virtual Machine"@,
            VirtualizationType::WSL => "WSL"@,
            VirtualizationType::WSL2 => "WSL2"@,
            VirtualizationType::Wine => "Wine"@,
            VirtualizationType::MacOSVirtualization => "macOS Virtualization"@,
            VirtualizationType::Unknown => "Unknown"@,
        }
    }

    /// Render the environment type as text.
    pub fn label(&self) -> (r: String)
        ensures
            r@ == self.spec_label(),
    {
        match self {
            VirtualizationType::Native => String::from_str("Native"),
            VirtualizationType::Docker => String::from_str("Docker"),
            VirtualizationType::Kubernetes => String::from_str("Kubernetes"),
            VirtualizationType::LXC => String::from_str("LXC"),
            VirtualizationType::Podman => String::from_str("Podman"),
            VirtualizationType::VirtualMachine => String::from_str("Virtual Machine"),
            VirtualizationType::WSL => String::from_str("WSL"),
            VirtualizationType::WSL2 => String::from_str("WSL2"),
            VirtualizationType::Wine => String::from_str("Wine"),
            VirtualizationType::MacOSVirtualization => String::from_str("macOS Virtualization"),
            VirtualizationType::Unknown => String::from_str("Unknown"),
        }
    }
}

/// Container isolation level
#[derive(Debug, Clone, Copy, PartialEq, Eq, Structural)]
pub enum IsolationLevel {
    /// Full isolation
    Full,
    /// Partial isolation
    Partial,
    /// Minimal isolation
    Minimal,
    /// No isolation (dangerous)
    NoIsolation,
}

/// Access control type
#[derive(Debug, Clone, Copy, PartialEq, Eq, Structural)]
pub enum AccessType {
    Allow,
    Deny,
}

/// Type of GPU passthrough
#[derive(Debug, Clone, Copy, PartialEq, Eq, Structural)]
pub enum GPUPassthroughType {
    /// Full GPU passthrough
    Full,
    /// SR-IOV virtual functions
    SRIOV,
    /// GPU sharing/virtualization
    Shared,
    /// Software-only GPU emulation
    Emulated,
    /// No GPU access
    NoAccess,
}

/// Security features enabled in virtualization
#[derive(Debug, Clone, Copy, PartialEq, Eq, Structural)]
pub enum SecurityFeature {
    /// Secure Boot enabled
    SecureBoot,
    /// Intel TXT/AMD SVM
    TrustedExecution,
    /// Intel VT-d/AMD-Vi
    IOMMU,
    /// Kernel Guard Technology
    KGT,
    /// Control Flow Integrity
    CFI,
    /// Address Space Layout Randomization
    ASLR,
    /// Data Execution Prevention
    DEP,
    /// Hypervisor-protected Code Integrity
    HVCI,
    /// Memory Protection Keys
    MPK,
    /// Intel CET
    CET,
}

/// Security context for containers.
#[derive(Debug)]
pub struct SecurityContext {
    /// Running as privileged container
    pub privileged: bool,
    /// User namespace mapping
    pub user_namespace: bool,
    /// AppArmor/SELinux profile
    pub security_profile: Option<String>,
    /// Capabilities granted
    pub capabilities: Vec<String>,
    /// Resource isolation level
    pub isolation_level: IsolationLevel,
}

/// Field-by-field equality of two security contexts, over views.
pub open spec fn security_context_eq(a: &SecurityContext, b: &SecurityContext) -> bool {
    &&& a.privileged == b.privileged
    &&& a.user_namespace == b.user_namespace
    &&& a.security_profile == b.security_profile
    &&& a.capabilities@ == b.capabilities@
    &&& a.isolation_level == b.isolation_level
}

impl Clone for SecurityContext {
    fn clone(&self) -> (r: Self)
        ensures
            security_context_eq(&r, self),
    {
        let r = SecurityContext {
            privileged: self.privileged,
            user_namespace: self.user_namespace,
            security_profile: self.security_profile.clone(),
            capabilities: self.capabilities.clone(),
            isolation_level: self.isolation_level,
        };
        proof {
            assert(r.capabilities@ =~= self.capabilities@);
        }
        r
    }
}

/// Container runtime information.
#[derive(Debug)]
pub struct ContainerRuntime {
    /// Runtime name (docker, containerd, cri-o, etc.)
    pub name: String,
    /// Runtime version
    pub version: Option<String>,
    /// Container ID
    pub container_id: Option<String>,
    /// Container image
    pub image: Option<String>,
    /// Container orchestrator (if any)
    pub orchestrator: Option<String>,
    /// Security context
    pub security_context: SecurityContext,
}

/// Field-by-field equality of two container runtimes, over views.
pub open spec fn container_runtime_eq(a: &ContainerRuntime, b: &ContainerRuntime) -> bool {
    &&& a.name@ == b.name@
    &&& a.version == b.version
    &&& a.container_id == b.container_id
    &&& a.image == b.image
    &&& a.orchestrator == b.orchestrator
    &&& security_context_eq(&a.security_context, &b.security_context)
}

impl Clone for ContainerRuntime {
    fn clone(&self) -> (r: Self)
        ensures
            container_runtime_eq(&r, self),
    {
        ContainerRuntime {
            name: self.name.clone(),
            version: self.version.clone(),
            container_id: self.container_id.clone(),
            image: self.image.clone(),
            orchestrator: self.orchestrator.clone(),
            security_context: self.security_context.clone(),
        }
    }
}

/// CPU resource limits.
#[derive(Debug)]
pub struct CPULimits {
    /// Maximum CPU cores available
    pub max_cores: Option<u32>,
    /// CPU quota in whole percent
    pub quota_percent: Option<u32>,
    /// CPU shares/weight
    pub shares: Option<u32>,
    /// CPU affinity mask
    pub affinity_mask: Option<String>,
    /// Specific CPU features disabled
    pub disabled_features: Vec<String>,
}

/// Field-by-field equality of two CPU limit sets, over views.
pub open spec fn cpu_limits_eq(a: &CPULimits, b: &CPULimits) -> bool {
    &&& a.max_cores == b.max_cores
    &&& a.quota_percent == b.quota_percent
    &&& a.shares == b.shares
    &&& a.affinity_mask == b.affinity_mask
    &&& a.disabled_features@ == b.disabled_features@
}

impl Clone for CPULimits {
    fn clone(&self) -> (r: Self)
        ensures
            cpu_limits_eq(&r, self),
    {
        let r = CPULimits {
            max_cores: self.max_cores,
            quota_percent: self.quota_percent,
            shares: self.shares,
            affinity_mask: self.affinity_mask.clone(),
            disabled_features: self.disabled_features.clone(),
        };
        proof {
            assert(r.disabled_features@ =~= self.disabled_features@);
        }
        r
    }
}

/// Memory resource limits.
#[derive(Debug)]
pub struct MemoryLimits {
    /// Maximum memory in bytes
    pub max_memory_bytes: Option<u64>,
    /// Maximum swap in bytes
    pub max_swap_bytes: Option<u64>,
    /// Memory reservation in bytes
    pub reservation_bytes: Option<u64>,
    /// OOM killer disabled
    pub oom_kill_disabled: bool,
    /// NUMA policy restrictions
    pub numa_policy: Option<String>,
}

/// Field-by-field equality of two memory limit sets, over views.
pub open spec fn memory_limits_eq(a: &MemoryLimits, b: &MemoryLimits) -> bool {
    &&& a.max_memory_bytes == b.max_memory_bytes
    &&& a.max_swap_bytes == b.max_swap_bytes
    &&& a.reservation_bytes == b.reservation_bytes
    &&& a.oom_kill_disabled == b.oom_kill_disabled
    &&& a.numa_policy == b.numa_policy
}

impl Clone for MemoryLimits {
    fn clone(&self) -> (r: Self)
        ensures
            memory_limits_eq(&r, self),
    {
        MemoryLimits {
            max_memory_bytes: self.max_memory_bytes,
            max_swap_bytes: self.max_swap_bytes,
            reservation_bytes: self.reservation_bytes,
            oom_kill_disabled: self.oom_kill_disabled,
            numa_policy: self.numa_policy.clone(),
        }
    }
}

/// Weight assigned to one block device.
#[derive(Debug)]
pub struct DeviceWeight {
    /// Device name
    pub device: String,
    /// Weight assigned to it
    pub weight: u32,
}

/// Field-by-field equality of two device weights, over views.
pub open spec fn device_weight_eq(a: DeviceWeight, b: DeviceWeight) -> bool {
    a.device@ == b.device@ && a.weight == b.weight
}

/// Pointwise `device_weight_eq` over two sequences.
pub open spec fn device_weights_eq(a: Seq<DeviceWeight>, b: Seq<DeviceWeight>) -> bool {
    a.len() == b.len() && forall|i: int|
        0 <= i < a.len() ==> device_weight_eq(#[trigger] a[i], b[i])
}

impl Clone for DeviceWeight {
    fn clone(&self) -> (r: Self)
        ensures
            device_weight_eq(r, *self),
    {
        DeviceWeight { device: self.device.clone(), weight: self.weight }
    }
}

/// I/O resource limits.
#[derive(Debug)]
pub struct IOLimits {
    /// Maximum read IOPS
    pub max_read_iops: Option<u64>,
    /// Maximum write IOPS
    pub max_write_iops: Option<u64>,
    /// Maximum read bandwidth (bytes/sec)
    pub max_read_bps: Option<u64>,
    /// Maximum write bandwidth (bytes/sec)
    pub max_write_bps: Option<u64>,
    /// Block device weights
    pub device_weights: Vec<DeviceWeight>,
}

/// Field-by-field equality of two I/O limit sets, over views.
pub open spec fn io_limits_eq(a: &IOLimits, b: &IOLimits) -> bool {
    &&& a.max_read_iops == b.max_read_iops
    &&& a.max_write_iops == b.max_write_iops
    &&& a.max_read_bps == b.max_read_bps
    &&& a.max_write_bps == b.max_write_bps
    &&& device_weights_eq(a.device_weights@, b.device_weights@)
}

impl Clone for IOLimits {
    fn clone(&self) -> (r: Self)
        ensures
            io_limits_eq(&r, self),
    {
        let weights = self.device_weights.clone();
        proof {
            assert forall|i: int| 0 <= i < weights@.len() implies device_weight_eq(
                #[trigger] weights@[i],
                self.device_weights@[i],
            ) by {
                assert(cloned::<DeviceWeight>(self.device_weights@[i], weights@[i]));
            }
        }
        IOLimits {
            max_read_iops: self.max_read_iops,
            max_write_iops: self.max_write_iops,
            max_read_bps: self.max_read_bps,
            max_write_bps: self.max_write_bps,
            device_weights: weights,
        }
    }
}

/// Port access restriction.
#[derive(Debug)]
pub struct PortRestriction {
    /// Port number or range
    pub port: String,
    /// Protocol (TCP/UDP)
    pub protocol: String,
    /// Access type (allow/deny)
    pub access: AccessType,
}

/// Field-by-field equality of two port restrictions, over views.
pub open spec fn port_restriction_eq(a: PortRestriction, b: PortRestriction) -> bool {
    a.port@ == b.port@ && a.protocol@ == b.protocol@ && a.access == b.access
}

/// Pointwise `port_restriction_eq` over two sequences.
pub open spec fn port_restrictions_eq(a: Seq<PortRestriction>, b: Seq<PortRestriction>) -> bool {
    a.len() == b.len() && forall|i: int|
        0 <= i < a.len() ==> port_restriction_eq(#[trigger] a[i], b[i])
}

impl Clone for PortRestriction {
    fn clone(&self) -> (r: Self)
        ensures
            port_restriction_eq(r, *self),
    {
        PortRestriction {
            port: self.port.clone(),
            protocol: self.protocol.clone(),
            access: self.access,
        }
    }
}

/// Network resource limits.
#[derive(Debug)]
pub struct NetworkLimits {
    /// Maximum bandwidth (bits/sec)
    pub max_bandwidth_bps: Option<u64>,
    /// Network namespace isolation
    pub network_namespace: bool,
    /// Port mapping restrictions
    pub port_restrictions: Vec<PortRestriction>,
    /// Network policies
    pub network_policies: Vec<String>,
}

/// Field-by-field equality of two network limit sets, over views.
pub open spec fn network_limits_eq(a: &NetworkLimits, b: &NetworkLimits) -> bool {
    &&& a.max_bandwidth_bps == b.max_bandwidth_bps
    &&& a.network_namespace == b.network_namespace
    &&& port_restrictions_eq(a.port_restrictions@, b.port_restrictions@)
    &&& a.network_policies@ == b.network_policies@
}

impl Clone for NetworkLimits {
    fn clone(&self) -> (r: Self)
        ensures
            network_limits_eq(&r, self),
    {
        let ports = self.port_restrictions.clone();
        let policies = self.network_policies.clone();
        proof {
            assert forall|i: int| 0 <= i < ports@.len() implies port_restriction_eq(
                #[trigger] ports@[i],
                self.port_restrictions@[i],
            ) by {
                assert(cloned::<PortRestriction>(self.port_restrictions@[i], ports@[i]));
            }
            assert(policies@ =~= self.network_policies@);
        }
        NetworkLimits {
            max_bandwidth_bps: self.max_bandwidth_bps,
            network_namespace: self.network_namespace,
            port_restrictions: ports,
            network_policies: policies,
        }
    }
}

/// Memory limit granted to one GPU device.
#[derive(Debug)]
pub struct GPUMemoryLimit {
    /// Device name
    pub device: String,
    /// Limit in bytes
    pub limit_bytes: u64,
}

/// Field-by-field equality of two GPU memory limits, over views.
pub open spec fn gpu_memory_limit_eq(a: GPUMemoryLimit, b: GPUMemoryLimit) -> bool {
    a.device@ == b.device@ && a.limit_bytes == b.limit_bytes
}

/// Pointwise `gpu_memory_limit_eq` over two sequences.
pub open spec fn gpu_memory_limits_eq(a: Seq<GPUMemoryLimit>, b: Seq<GPUMemoryLimit>) -> bool {
    a.len() == b.len() && forall|i: int|
        0 <= i < a.len() ==> gpu_memory_limit_eq(#[trigger] a[i], b[i])
}

impl Clone for GPUMemoryLimit {
    fn clone(&self) -> (r: Self)
        ensures
            gpu_memory_limit_eq(r, *self),
    {
        GPUMemoryLimit { device: self.device.clone(), limit_bytes: self.limit_bytes }
    }
}

/// GPU access limitations.
#[derive(Debug)]
pub struct GPULimits {
    /// GPU access allowed
    pub gpu_access: bool,
    /// Specific GPU devices accessible
    pub accessible_devices: Vec<String>,
    /// GPU memory limits
    pub memory_limits: Vec<GPUMemoryLimit>,
    /// Compute capability restrictions
    pub capability_restrictions: Vec<String>,
}

/// Field-by-field equality of two GPU limit sets, over views.
pub open spec fn gpu_limits_eq(a: &GPULimits, b: &GPULimits) -> bool {
    &&& a.gpu_access == b.gpu_access
    &&& a.accessible_devices@ == b.accessible_devices@
    &&& gpu_memory_limits_eq(a.memory_limits@, b.memory_limits@)
    &&& a.capability_restrictions@ == b.capability_restrictions@
}

impl Clone for GPULimits {
    fn clone(&self) -> (r: Self)
        ensures
            gpu_limits_eq(&r, self),
    {
        let devices = self.accessible_devices.clone();
        let limits = self.memory_limits.clone();
        let caps = self.capability_restrictions.clone();
        proof {
            assert(devices@ =~= self.accessible_devices@);
            assert(caps@ =~= self.capability_restrictions@);
            assert forall|i: int| 0 <= i < limits@.len() implies gpu_memory_limit_eq(
                #[trigger] limits@[i],
                self.memory_limits@[i],
            ) by {
                assert(cloned::<GPUMemoryLimit>(self.memory_limits@[i], limits@[i]));
            }
        }
        GPULimits {
            gpu_access: self.gpu_access,
            accessible_devices: devices,
            memory_limits: limits,
            capability_restrictions: caps,
        }
    }
}

/// Resource limits imposed by virtualization.
#[derive(Debug)]
pub struct ResourceLimits {
    /// CPU limits
    pub cpu_limits: CPULimits,
    /// Memory limits
    pub memory_limits: MemoryLimits,
    /// I/O limits
    pub io_limits: IOLimits,
    /// Network limits
    pub network_limits: NetworkLimits,
    /// GPU access restrictions
    pub gpu_limits: GPULimits,
}

/// Field-by-field equality of two resource limit sets, over views.
pub open spec fn resource_limits_eq(a: &ResourceLimits, b: &ResourceLimits) -> bool {
    &&& cpu_limits_eq(&a.cpu_limits, &b.cpu_limits)
    &&& memory_limits_eq(&a.memory_limits, &b.memory_limits)
    &&& io_limits_eq(&a.io_limits, &b.io_limits)
    &&& network_limits_eq(&a.network_limits, &b.network_limits)
    &&& gpu_limits_eq(&a.gpu_limits, &b.gpu_limits)
}

impl Clone for ResourceLimits {
    fn clone(&self) -> (r: Self)
        ensures
            resource_limits_eq(&r, self),
    {
        ResourceLimits {
            cpu_limits: self.cpu_limits.clone(),
            memory_limits: self.memory_limits.clone(),
            io_limits: self.io_limits.clone(),
            network_limits: self.network_limits.clone(),
            gpu_limits: self.gpu_limits.clone(),
        }
    }
}

/// Passthrough device information.
#[derive(Debug)]
pub struct PassthroughDevice {
    /// Device ID
    pub device_id: String,
    /// Device name
    pub device_name: String,
    /// PCI address
    pub pci_address: Option<String>,
    /// Driver used
    pub driver: Option<String>,
}

/// Field-by-field equality of two passthrough devices, over views.
pub open spec fn passthrough_device_eq(a: PassthroughDevice, b: PassthroughDevice) -> bool {
    &&& a.device_id@ == b.device_id@
    &&& a.device_name@ == b.device_name@
    &&& a.pci_address == b.pci_address
    &&& a.driver == b.driver
}

/// Pointwise `passthrough_device_eq` over two sequences.
pub open spec fn passthrough_devices_eq(
    a: Seq<PassthroughDevice>,
    b: Seq<PassthroughDevice>,
) -> bool {
    a.len() == b.len() && forall|i: int|
        0 <= i < a.len() ==> passthrough_device_eq(#[trigger] a[i], b[i])
}

impl Clone for PassthroughDevice {
    fn clone(&self) -> (r: Self)
        ensures
            passthrough_device_eq(r, *self),
    {
        PassthroughDevice {
            device_id: self.device_id.clone(),
            device_name: self.device_name.clone(),
            pci_address: self.pci_address.clone(),
            driver: self.driver.clone(),
        }
    }
}

/// GPU passthrough information.
#[derive(Debug)]
pub struct GPUPassthroughInfo {
    /// GPU passthrough available
    pub available: bool,
    /// Type of GPU passthrough
    pub passthrough_type: GPUPassthroughType,
    /// Passed-through devices
    pub devices: Vec<PassthroughDevice>,
    /// Performance overhead in whole percent
    pub performance_overhead_percent: u32,
}

/// Field-by-field equality of two GPU passthrough descriptions, over views.
pub open spec fn gpu_passthrough_eq(a: &GPUPassthroughInfo, b: &GPUPassthroughInfo) -> bool {
    &&& a.available == b.available
    &&& a.passthrough_type == b.passthrough_type
    &&& passthrough_devices_eq(a.devices@, b.devices@)
    &&& a.performance_overhead_percent == b.performance_overhead_percent
}

impl Clone for GPUPassthroughInfo {
    fn clone(&self) -> (r: Self)
        ensures
            gpu_passthrough_eq(&r, self),
    {
        let devices = self.devices.clone();
        proof {
            assert forall|i: int| 0 <= i < devices@.len() implies passthrough_device_eq(
                #[trigger] devices@[i],
                self.devices@[i],
            ) by {
                assert(cloned::<PassthroughDevice>(self.devices@[i], devices@[i]));
            }
        }
        GPUPassthroughInfo {
            available: self.available,
            passthrough_type: self.passthrough_type,
            devices,
            performance_overhead_percent: self.performance_overhead_percent,
        }
    }
}

/// One platform-specific key/value detail.
#[derive(Debug)]
pub struct PlatformDetail {
    /// Detail name
    pub key: String,
    /// Detail value
    pub value: String,
}

/// Field-by-field equality of two platform details, over views.
pub open spec fn platform_detail_eq(a: PlatformDetail, b: PlatformDetail) -> bool {
    a.key@ == b.key@ && a.value@ == b.value@
}

/// Pointwise `platform_detail_eq` over two sequences.
pub open spec fn platform_details_eq(a: Seq<PlatformDetail>, b: Seq<PlatformDetail>) -> bool {
    a.len() == b.len() && forall|i: int|
        0 <= i < a.len() ==> platform_detail_eq(#[trigger] a[i], b[i])
}

impl Clone for PlatformDetail {
    fn clone(&self) -> (r: Self)
        ensures
            platform_detail_eq(r, *self),
    {
        PlatformDetail { key: self.key.clone(), value: self.value.clone() }
    }
}

/// Virtualization environment information.
#[derive(Debug)]
pub struct VirtualizationInfo {
    /// Type of virtualization environment
    pub environment_type: VirtualizationType,
    /// Hypervisor name and version (if applicable)
    pub hypervisor: Option<String>,
    /// Container runtime information (if applicable)
    pub container_runtime: Option<ContainerRuntime>,
    /// Resource limits imposed by the virtualization layer
    pub resource_limits: ResourceLimits,
    /// GPU passthrough capabilities
    pub gpu_passthrough: GPUPassthroughInfo,
    /// Native performance kept, in whole percent (100 is bare metal)
    pub performance_percent: u32,
    /// Nested virtualization support
    pub nested_virtualization: bool,
    /// Security features enabled
    pub security_features: Vec<SecurityFeature>,
    /// Platform-specific virtualization details
    pub platform_specific: Vec<PlatformDetail>,
}

/// Field-by-field equality of two virtualization descriptions, over views.
pub open spec fn virtualization_eq(a: &VirtualizationInfo, b: &VirtualizationInfo) -> bool {
    &&& a.environment_type == b.environment_type
    &&& a.hypervisor == b.hypervisor
    &&& match (&a.container_runtime, &b.container_runtime) {
        (Option::None, Option::None) => true,
        (Option::Some(x), Option::Some(y)) => container_runtime_eq(x, y),
        _ => false,
    }
    &&& resource_limits_eq(&a.resource_limits, &b.resource_limits)
    &&& gpu_passthrough_eq(&a.gpu_passthrough, &b.gpu_passthrough)
    &&& a.performance_percent == b.performance_percent
    &&& a.nested_virtualization == b.nested_virtualization
    &&& a.security_features@ == b.security_features@
    &&& platform_details_eq(a.platform_specific@, b.platform_specific@)
}

impl Clone for VirtualizationInfo {
    fn clone(&self) -> (r: Self)
        ensures
            virtualization_eq(&r, self),
    {
        let runtime = match &self.container_runtime {
            Option::Some(c) => Option::Some(c.clone()),
            Option::None => Option::None,
        };
        let features = self.security_features.clone();
        let details = self.platform_specific.clone();
        proof {
            assert(features@ =~= self.security_features@);
            assert forall|i: int| 0 <= i < details@.len() implies platform_detail_eq(
                #[trigger] details@[i],
                self.platform_specific@[i],
            ) by {
                assert(cloned::<PlatformDetail>(self.platform_specific@[i], details@[i]));
            }
        }
        VirtualizationInfo {
            environment_type: self.environment_type,
            hypervisor: self.hypervisor.clone(),
            container_runtime: runtime,
            resource_limits: self.resource_limits.clone(),
            gpu_passthrough: self.gpu_passthrough.clone(),
            performance_percent: self.performance_percent,
            nested_virtualization: self.nested_virtualization,
            security_features: features,
            platform_specific: details,
        }
    }
}

impl VirtualizationInfo {
    /// Native performance kept under this environment, in whole percent.
    pub fn get_performance_factor_percent(&self) -> (r: u32)
        ensures
            r == self.performance_percent,
    {
        self.performance_percent
    }

    /// Is the environment a container?
    pub fn is_containerized(&self) -> (r: bool)
        ensures
            r == (self.environment_type == VirtualizationType::Docker || self.environment_type
                == VirtualizationType::Kubernetes || self.environment_type
                == VirtualizationType::LXC || self.environment_type == VirtualizationType::Podman),
    {
        match self.environment_type {
            VirtualizationType::Docker => true,
            VirtualizationType::Kubernetes => true,
            VirtualizationType::LXC => true,
            VirtualizationType::Podman => true,
            _ => false,
        }
    }

    /// Is GPU acceleration reachable, through passthrough or direct access?
    pub fn has_gpu_access(&self) -> (r: bool)
        ensures
            r == (self.gpu_passthrough.available || self.resource_limits.gpu_limits.gpu_access),
    {
        self.gpu_passthrough.available || self.resource_limits.gpu_limits.gpu_access
    }
}

} // verus!
