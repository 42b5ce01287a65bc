//! The OCI runtime configuration (`config.json`) of a container.

use crate::oci::runtime;
use std::collections::HashMap;
use vstd::prelude::*;

verus! {
/// The OCI container configuration.
#[derive(Debug, Clone)]
pub struct OciSpec {
    pub oci_version: String,
    pub root: Option<OciRoot>,
    pub mounts: Option<Vec<OciMount>>,
    pub process: Option<Process>,
    pub hostname: Option<String>,
    pub domainname: Option<String>,
    pub linux: Option<Linux>,
}

/// The root filesystem of a container.
#[derive(Debug, Clone)]
pub struct OciRoot {
    pub path: String,
    pub readonly: Option<bool>,
}

/// One mount of a container.
#[derive(Debug, Clone)]
pub struct OciMount {
    pub destination: String,
    pub source: Option<String>,
    pub options: Option<MountOption>,
    pub type_: Option<MountType>,
    pub uid_mappings: Option<Vec<UidMapping>>,
    pub gid_mappings: Option<Vec<GidMapping>>,
}

/// The Linux mount options supported so far.
#[derive(Debug, Clone, Copy, PartialEq, Eq)]
pub enum MountOption {
    Bind,
    Rbind,
    Ro,
    Rw,
    Noexec,
    Exec,
    Nosuid,
    Suid,
    Nodev,
    Dev,
    Private,
    Rprivate,
}

/// The filesystem type of a mount.
#[derive(Debug, Clone, Copy, PartialEq, Eq)]
pub enum MountType {
    Proc,
    Tmpfs,
    Devpts,
    Sysfs,
    Mqueue,
    Cgroup,
    NoneFs,
}

/// A range of user ids mapped from the container to the host.
#[derive(Debug, Clone)]
pub struct UidMapping {
    pub container_id: u32,
    pub host_id: u32,
    pub size: u32,
}

/// A range of group ids mapped from the container to the host.
#[derive(Debug, Clone)]
pub struct GidMapping {
    pub container_id: u32,
    pub host_id: u32,
    pub size: u32,
}

/// The process that a container runs.
#[derive(Debug, Clone)]
pub struct Process {
    pub terminal: Option<bool>,
    pub console_size: Option<ConsoleSize>,
    pub cwd: Option<String>,
    pub env: Option<Vec<String>>,
    pub args: Option<Vec<String>>,
    pub command_line: Option<String>,
    pub rlimits: Option<Vec<Rlimit>>,
    pub apparmor_profile: Option<String>,
    pub capabilities: Option<Capabilities>,
    pub no_new_privileges: Option<bool>,
    pub oom_score_adj: Option<i64>,
    pub scheduler: Option<Scheduler>,
    pub selinux_label: Option<String>,
    pub io_priority: Option<IoPriority>,

    pub exec_cpu_affinity: Option<ExecCPUAffinity>,
    pub uid: u32,
    pub gid: u32,
    pub umask: u32,
    pub additional_gids: Option<Vec<u32>>
}

/// The size of a console, in characters.
#[derive(Debug, Clone)]
pub struct ConsoleSize {
    pub height: u64,
    pub width : u64,
}

/// A resource limit of the container process.
#[derive(Debug, Clone)]
pub struct Rlimit {
    pub type_: String,
    pub soft: u64,
    pub hard: u64,
}

/// The capability sets of the container process.
#[derive(Debug, Clone)]
pub struct Capabilities {
    pub effective: Option<Vec<Capability>>,
    pub bounding: Option<Vec<Capability>>,
    pub inheritable: Option<Vec<Capability>>,
    pub permitted: Option<Vec<Capability>>,
    pub ambient: Option<Vec<Capability>>,
}

/// A Linux capability.
#[derive(Debug, Clone, Copy, PartialEq, Eq)]
pub enum Capability {
    CapAuditControl,
    CapAuditRead,
    CapAuditWrite,
    CapBlockSuspend,
    CapBpf,
    CapCheckpointRestore,
    CapChown,
    CapDacOverride,
    CapDacReadSearch,
    CapFowner,
    CapFsetid,
    CapIpcLock,
    CapIpcOwner,
    CapKill,
    CapLease,
    CapLinuxImmutable,
    CapMacAdmin,
    CapMacOverride,
    CapMknod,
    CapNetAdmin,
    CapNetBindService,
    CapNetBroadcast,
    CapNetRaw,
    CapPerfmon,
    CapSetGid,
    CapSetfcap,
    CapSetpcap,
    CapSetUid,
    CapSysAdmin,
    CapSysBoot,
    CapSysChroot,
    CapSysModule,
    CapSysNice,
    CapSysPactt,
    CapSysPtrace,
    CapSysRawio,
    CapSysResource,
    CapSysTime,
    CapSysTtyConfig,
    CapSysLog,
    CapWakeAlarm,
}

/// The scheduling parameters of the container process.
#[derive(Debug, Clone)]
pub struct Scheduler {
    pub policy: SchedulerPolicy,
    pub nice: Option<i32>,
    pub priority: Option<i32>,
    pub flags: Option<Vec<SchedulerFlags>>,
    pub runtime: Option<u64>,
    pub deadline: Option<u64>,
    pub period: Option<u64>,
}

/// A Linux scheduling policy.
#[derive(Debug, Clone, Copy, PartialEq, Eq)]
pub enum SchedulerPolicy {
    SchedOther,
    SchedFifo,
    SchedRr,
    SchedBatch,
    SchedIso,
    SchedIdle,
    SchedDeadline
}

/// A Linux scheduling flag.
#[derive(Debug, Clone, Copy, PartialEq, Eq)]
pub enum SchedulerFlags {
    SchedFlagResetOnFork,
    SchedFlagReclaim,
    SchedFlagDlOverrun,
    SchedFlagKeepPolicy,
    SchedFlagKeepParams,
    SchedFlagUtilCapMin,
    SchedFlagUtilCapMax,
}

/// The I/O priority of the container process.
#[derive(Debug, Clone)]
pub struct IoPriority {
    pub class: IoPriorityClass,
    pub priority: u8
}

/// A Linux I/O priority class.
#[derive(Debug, Clone, Copy, PartialEq, Eq)]
pub enum IoPriorityClass {
    IoprioClassRt,
    IoprioClassBe,
    IoprioClassIdle,
}

/// The CPU affinity of the container process, before and after exec.
#[derive(Debug, Clone)]
pub struct ExecCPUAffinity {
    pub initial: Option<String>,
    pub final_: Option<String>
}

/// The Linux-specific part of the configuration.
#[derive(Debug, Clone)]
pub struct Linux {
    pub namespaces: Vec<LinuxNamespace>,
    pub uid_mappings: Option<Vec<UidMapping>>,
    pub gid_mappings: Option<Vec<GidMapping>>,
    pub timeoffsets: Option<LinuxTimeOffset>,
    pub devices: Option<LinuxDevice>,
    pub net_devices: Option<HashMap<String, LinuxNetDevice>>,
    pub cgroups_path: Option<String>,
    pub resources: Option<LinuxResources>,
    pub unified: Option<HashMap<String, String>>,
    pub intel_rdt: Option<LinuxIntelRdt>,
    pub memory_policy: Option<LinuxMemoryPolicy>,
    pub sysctl: Option<HashMap<String, String>>,
    pub seccomp: Option<LinuxSeccomp>,
    pub rootfs_propagation: Option<LinuxRootFsPropagation>,
    pub masked_paths: Option<Vec<String>>,
    pub readonly_paths: Option<Vec<String>>,
    pub mount_label: Option<String>,
    pub personality: Option<LinuxPersonality>
}

/// A namespace that the container joins or creates.
#[derive(Debug, Clone)]
pub struct LinuxNamespace {
    pub type_: LinuxNamespaceType,
    pub path: Option<String>,
}

/// A kind of Linux namespace.
#[derive(Debug, Clone, Copy, PartialEq, Eq)]
pub enum LinuxNamespaceType {
    Pid,
    Network,
    Mount,
    Ipc,
    Uts,
    User,
    Cgroup,
    Time
}

/// An offset of the time namespace.
#[derive(Debug, Clone)]
pub struct LinuxTimeOffset {
    pub secs: Option<i64>,
    pub nanosecs: Option<i64>,
}

/// A device node made available in the container.
#[derive(Debug, Clone)]
pub struct LinuxDevice {
    pub type_: LinuxDeviceType,
    pub path: String,
    pub major: Option<i64>,
    pub minor: Option<i64>,
    pub file_mode: Option<u32>,
    pub uid: Option<u32>,
    pub gid: Option<u32>,
}

/// A kind of device node.
#[derive(Debug, Clone, Copy, PartialEq, Eq)]
pub enum LinuxDeviceType {
    C,
    B,
    U,
    P,
}

/// A network device moved into the container.
#[derive(Debug, Clone)]
pub struct LinuxNetDevice {
    pub name: Option<String>,
}

/// The cgroup resource limits of the container.
#[derive(Debug, Clone)]
pub struct LinuxResources {
    pub devices: Option<Vec<LinuxResourceDevice>>,
    pub memory: Option<LinuxResourceMemory>,
    pub cpu: Option<LinuxResourceCPU>,
    pub block_io: Option<LinuxResourceBlockIO>,
    pub hugepage_limits: Option<Vec<LinuxResourceHugePageLimit>>,
    pub network: Option<LinuxResourceBlockIONetwork>,
    pub pids: Option<LinuxResourcePid>,
    pub rdma: Option<HashMap<String, LinuxResourceRdma>>,
}

/// A device cgroup rule.
#[derive(Debug, Clone)]
pub struct LinuxResourceDevice {
    pub allow: bool,
    pub type_: LinuxDeviceType,
    pub major: Option<i64>,
    pub minor: Option<i64>,
    pub access: Option<String>,
}

/// The memory cgroup limits.
#[derive(Debug, Clone)]
pub struct LinuxResourceMemory {
    pub limit: Option<i64>,
    pub reservation: Option<i64>,
    pub swap: Option<i64>,
    pub kernel: Option<i64>,
    pub kernel_tcp: Option<i64>,
    pub swappiness: Option<u64>,
    pub disable_oom_killer: Option<bool>,
    pub user_hierarchy: Option<bool>,
    pub check_before_update: Option<bool>,
}

/// The CPU cgroup limits.
#[derive(Debug, Clone)]
pub struct LinuxResourceCPU {
    pub shares: Option<u64>,
    pub quota: Option<i64>,
    pub burst: Option<u64>,
    pub period: Option<u64>,
    pub realtime_runtime: Option<i64>,
    pub realtime_period: Option<u64>,
    pub cpus: Option<String>,
    pub mems: Option<String>,
    pub idle: Option<i64>,
}

/// The block I/O cgroup limits.
#[derive(Debug, Clone)]
pub struct LinuxResourceBlockIO {
    pub weight: Option<u16>,
    pub leaf_weight: Option<u16>,
    pub weight_device: Option<Vec<LinuxResourceBlockIOWeightDevice>>,
    pub throttle_read_bps_device: Option<Vec<LinuxResourceBlockIOThrottleDevice>>,
    pub throttle_write_bps_device: Option<Vec<LinuxResourceBlockIOThrottleDevice>>,
    pub throttle_read_iops_device: Option<Vec<LinuxResourceBlockIOThrottleDevice>>,
    pub throttle_write_iops_device: Option<Vec<LinuxResourceBlockIOThrottleDevice>>,
}

/// A per-device block I/O weight.
#[derive(Debug, Clone)]
pub struct LinuxResourceBlockIOWeightDevice {
    pub major: i64,
    pub minor: i64,
    pub weight: u16,
    pub leaf_weight: u16,
}

/// A per-device block I/O rate limit.
#[derive(Debug, Clone)]
pub struct LinuxResourceBlockIOThrottleDevice {
    pub major: i64,
    pub minor: i64,
    pub rate: u64,
}

/// A huge page limit for one page size.
#[derive(Debug, Clone)]
pub struct LinuxResourceHugePageLimit {
    pub page_size: String,
    pub limit: u64,
}

/// The network cgroup settings.
#[derive(Debug, Clone)]
pub struct LinuxResourceBlockIONetwork {
    pub class_id: Option<u32>,
    pub priorities: Option<Vec<LinuxResourceHugePageLimit>>,
}

/// A network interface priority.
#[derive(Debug, Clone)]
pub struct LinuxResourceBlockIONetworkPriority {
    pub name: String,
    pub priority: u32
}

/// The pids cgroup limit.
#[derive(Debug, Clone)]
pub struct LinuxResourcePid {
    pub limits: Option<i64>,
}

/// The RDMA cgroup limits of one device.
#[derive(Debug, Clone)]
pub struct LinuxResourceRdma{
    pub hca_handles: Option<u32>,
    pub hca_objects: Option<u32>,
}

/// The Intel RDT settings.
#[derive(Debug, Clone)]
pub struct LinuxIntelRdt {
    pub clos_id: Option<String>,
    pub l3_cache_schema: Option<String>,
    pub mem_bw_schema: Option<String>,
    pub schemata: Option<Vec<String>>,
    pub enable_monitoring: Option<bool>
}

/// The NUMA memory policy.
#[derive(Debug, Clone)]
pub struct LinuxMemoryPolicy {
    pub mode: LinuxMemoryPolicyMode,
    pub nodes: Option<String>,
    pub flags: Option<Vec<LinuxMemoryPolicyFlags>>,
}

/// A NUMA memory policy mode.
#[derive(Debug, Clone, Copy, PartialEq, Eq)]
pub enum LinuxMemoryPolicyMode {
    MpolDefault,
    MpolBind,
    MpolInterleave,
    MpolWeightedInterleave,
    MpolPreferredMany,
    MpolLocal,
}

/// A NUMA memory policy flag.
#[derive(Debug, Clone, Copy, PartialEq, Eq)]
pub enum LinuxMemoryPolicyFlags {
    MpolFNumaBalancing,
    MpolFRelativeNodes,
    MpolFStaticNodes,
}

/// The seccomp filter of the container.
#[derive(Debug, Clone)]
pub struct LinuxSeccomp {
    pub default_action: String,
    pub default_errno_ret: Option<u16>,
    pub architectures: Option<Vec<LinuxSeccompArch>>,
    pub flags: Option<Vec<LinuxSeccompFlags>>,
    pub listener_path: Option<String>,
    pub listener_metadata: Option<String>,
    pub syscalls: Option<Vec<LinuxSeccompSyscall>>,
    pub oci_version: String,
    pub fds: Option<Vec<String>>,
    pub pid: u8,
    pub metadata: Option<String>,
    pub state: Option<runtime::ContainerState>,
}

/// An architecture a seccomp filter applies to.
#[derive(Debug, Clone, Copy, PartialEq, Eq)]
pub enum LinuxSeccompArch {
    ScmpArchX86,
    ScmpArchX8664,
    ScmpArchX32,
    ScmpArchArm,
    ScmpArchAarch64,
    ScmpArchMips,
    ScmpArchMips64,
    ScmpArchMips64N32,
    ScmpArchMipsel,
    ScmpArchMipsel64,
    ScmpArchMipsel64N32,
    ScmpArchPpc,
    ScmpArchPpc64,
    ScmpArchPpc64Le,
    ScmpArchS390,
    ScmpArchS390X,
    ScmpArchParisc,
    ScmpArchParisc64,
    ScmpArchRiscv64,
    ScmpArchLoongarch64,
    ScmpArchM68K,
    ScmpArchSh,
    ScmpArchSheb,
}

/// A seccomp filter flag.
#[derive(Debug, Clone, Copy, PartialEq, Eq)]
pub enum LinuxSeccompFlags {
    SeccompFilterFlagTsync,
    SeccompFilterFlagLog,
    SeccompFilterFlagSpecAllow,
    SeccompFilterFlagWaitKillableRecv,
}

/// A seccomp rule for a set of system calls.
#[derive(Debug, Clone)]
pub struct LinuxSeccompSyscall {
    pub names: Vec<String>,
    pub action: LinuxSeccompSyscallAction,
    pub errno_ret: Option<u16>,
    pub args: Option<Vec<LinuxSeccompSyscallArg>>
}

/// The action of a seccomp rule.
#[derive(Debug, Clone, Copy, PartialEq, Eq)]
pub enum LinuxSeccompSyscallAction {
    ScmpActKill,
    ScmpActKillProcess,
    ScmpActKillThread,
    ScmpActTrap,
    ScmpActErrno,
    ScmpActTrace,
    ScmpActAllow,
    ScmpActLog,
    ScmpActNotify
}

/// A comparison operator of a seccomp argument rule.
#[derive(Debug, Clone, Copy, PartialEq, Eq)]
pub enum LinuxSeccompSyscallArg {
    ScmpCmpNe,
    ScmpCmpLT,
    ScmpCmpLe,
    ScmpCmpEq,
    ScmpCmpGe,
    ScmpCmpGt,
    ScmpCmpMaskedEq,
}

/// The mount propagation of the root filesystem.
#[derive(Debug, Clone, Copy, PartialEq, Eq)]
pub enum LinuxRootFsPropagation {
    Shared,
    Slave,
    Private,
    Unbindable,
}

/// The execution domain of the container process.
#[derive(Debug, Clone)]
pub struct LinuxPersonality {
    pub domain: LinuxPersonalityDomain,
    pub flags: Option<String>,
}

/// An execution domain.
#[derive(Debug, Clone, Copy, PartialEq, Eq)]
#[allow(non_camel_case_types)]
pub enum LinuxPersonalityDomain {
    LINUX,
    LINUX32
}

} // verus!
