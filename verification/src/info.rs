//! The system-information call: a list of typed requests, each processed
//! independently against host-derived values and the subsystem registry,
//! continuing past per-entry failure when the entry carries the
//! ignore-failure flag. The host values themselves (host name, CPU
//! features) are read by the caller and handed in; the version identifiers
//! derived from them are name-based UUIDs computed by an outside library.

use vstd::prelude::*;

use crate::dispatch::Registry;
use crate::error::Error;
use crate::uid::Uuid;

verus! {

/// The flag on a request head that asks for its failure to be ignored.
pub const INFO_FLAG_IGNORE_FAILURE: u32 = 0x0001;

/// The head-flag bit that marks a request as unrecognized-but-tolerated.
pub const INFO_FLAG_UNKNOWN: u32 = 0x0001_0000;

/// The namespace UUID that the runtime's derived identifiers live in.
pub open spec fn spec_info_namespace() -> Uuid {
    Uuid { hi: 0xbf5db4a1fd7d5785, lo: 0x822ad18ea774625d }
}

/// The name-based (SHA-1) UUID of a name within a namespace, as the
/// outside library computes it from those bytes alone.
pub uninterp spec fn uuid_v5_of(ns_hi: u64, ns_lo: u64, name: Seq<u8>) -> (u64, u64);

/// Relies on `uuid::Uuid::new_v5`: the name-based (SHA-1) UUID of a
/// namespace and name, a function of those bytes alone.
#[verifier::external_body]
fn uuid_v5_call(ns_hi: u64, ns_lo: u64, name: &[u8]) -> (r: (u64, u64))
    ensures
        r == uuid_v5_of(ns_hi, ns_lo, name@),
{
    let ns = uuid::Uuid::from_u64_pair(ns_hi, ns_lo);
    uuid::Uuid::new_v5(&ns, name).as_u64_pair()
}

/// The build identifier derived from the runtime's version string.
pub fn build_id_for(version: &[u8]) -> (r: Uuid)
    ensures
        (r.hi, r.lo) == uuid_v5_of(
            spec_info_namespace().hi,
            spec_info_namespace().lo,
            version@,
        ),
{
    let (hi, lo) = uuid_v5_call(0xbf5db4a1fd7d5785, 0x822ad18ea774625d, version);
    Uuid { hi, lo }
}

/// The system identifier derived from the host's name.
pub fn computer_id_for(hostname: &[u8]) -> (r: Uuid)
    ensures
        (r.hi, r.lo) == uuid_v5_of(
            spec_info_namespace().hi,
            spec_info_namespace().lo,
            hostname@,
        ),
{
    let (hi, lo) = uuid_v5_call(0xbf5db4a1fd7d5785, 0x822ad18ea774625d, hostname);
    Uuid { hi, lo }
}

/// The architecture tier a processor reports, from which of the three
/// cumulative feature sets it supports: each implies the one below it.
pub fn x86_march_version(has_v2: bool, has_v3: bool, has_v4: bool) -> (r: u32)
    ensures
        !has_v2 ==> r == 1,
        has_v2 && !has_v3 ==> r == 2,
        has_v2 && has_v3 && !has_v4 ==> r == 3,
        has_v2 && has_v3 && has_v4 ==> r == 4,
{
    if has_v2 {
        if has_v3 {
            if has_v4 {
                4
            } else {
                3
            }
        } else {
            2
        }
    } else {
        1
    }
}

/// What one info request asks for, with any output capacities the caller
/// declared for the strings it receives.
pub enum InfoRequestKind {
    /// Operating-system version and vendor name.
    OsVersion {
        /// Capacity of the vendor-name output.
        vendor_cap: usize,
    },
    /// Kernel vendor, build identifier and kernel version.
    KernelVendor {
        /// Capacity of the vendor-name output.
        vendor_cap: usize,
    },
    /// Architecture type and tier.
    ArchInfo,
    /// Host name, display name, label and system identifier.
    ComputerName {
        /// Capacity of the host-name output.
        hostname_cap: usize,
        /// Capacity of the display-name output.
        display_cap: usize,
        /// Capacity of the label output.
        label_cap: usize,
    },
    /// Any other type tag: answered when it names a registered
    /// subsystem's UUID, otherwise unknown.
    Other(Uuid),
}

/// One entry of an info-request list.
pub struct InfoRequest {
    /// What the entry asks for.
    pub kind: InfoRequestKind,
    /// The entry's head flags.
    pub flags: u32,
    /// The head's reserved bytes, which must all be zero.
    pub reserved: Vec<u8>,
}

/// The host-derived values the requests are answered from; the caller
/// collects them (host name and architecture from the host, version
/// constants from the build).
pub struct SysInfoSource {
    /// The OS vendor name.
    pub os_vendor: Vec<u8>,
    /// OS major version.
    pub os_major: u32,
    /// OS minor version.
    pub os_minor: u32,
    /// The kernel vendor name.
    pub kvendor: Vec<u8>,
    /// The build identifier.
    pub build_id: Uuid,
    /// Kernel major version.
    pub kernel_major: u32,
    /// Kernel minor version.
    pub kernel_minor: u32,
    /// The architecture's type identifier.
    pub arch_type: Uuid,
    /// The architecture tier.
    pub arch_version: u32,
    /// The host's name.
    pub hostname: Vec<u8>,
    /// The system identifier derived from the host's name.
    pub sys_id: Uuid,
}

/// What processing one request wrote back.
pub enum InfoResponse {
    /// Nothing: the entry failed ignorably or was tolerated as unknown.
    Ignored,
    /// OS version fields.
    OsVersion {
        /// The vendor name, truncated to the declared capacity.
        vendor_name: Vec<u8>,
        /// OS major version.
        os_major: u32,
        /// OS minor version.
        os_minor: u32,
    },
    /// Kernel vendor fields.
    KernelVendor {
        /// The vendor name, truncated to the declared capacity.
        vendor_name: Vec<u8>,
        /// The build identifier.
        build_id: Uuid,
        /// Kernel major version.
        kernel_major: u32,
        /// Kernel minor version.
        kernel_minor: u32,
    },
    /// Architecture fields.
    ArchInfo {
        /// The architecture's type identifier.
        arch_type: Uuid,
        /// The architecture tier.
        arch_version: u32,
    },
    /// Computer-name fields.
    ComputerName {
        /// The host name, truncated.
        hostname: Vec<u8>,
        /// The display name, truncated.
        display_name: Vec<u8>,
        /// The label, truncated.
        label: Vec<u8>,
        /// The system identifier.
        sys_id: Uuid,
    },
    /// Supported-subsystem fields.
    SupportedSubsystem {
        /// The slot the subsystem occupies.
        subsystem_no: u16,
        /// The subsystem's version.
        subsys_version: u64,
        /// The highest local syscall number it answers.
        max_sysno: u16,
    },
}

/// Whether a request head is acceptable: reserved bytes all zero and no
/// flag outside the permitted mask.
pub open spec fn spec_head_ok(req: InfoRequest, tbits: u16) -> bool {
    &&& forall|j: int| 0 <= j < req.reserved@.len() ==> req.reserved@[j] == 0
    &&& req.flags & !(INFO_FLAG_IGNORE_FAILURE | ((tbits as u32) << 16)) == 0
}

/// Validates a request's option head: the reserved bytes must be zero and
/// the flags confined to the ignore-failure bit plus the caller-permitted
/// type bits.
pub fn validate_option_head(req: &InfoRequest, tbits: u16) -> (r: Result<(), Error>)
    ensures
        r is Ok <==> spec_head_ok(*req, tbits),
        r is Err ==> r == Err::<(), Error>(Error::InvalidOption),
{
    let mut j: usize = 0;
    while j < req.reserved.len()
        invariant
            j <= req.reserved@.len(),
            forall|k: int| 0 <= k < j ==> req.reserved@[k] == 0,
        decreases req.reserved@.len() - j,
    {
        if req.reserved[j] != 0 {
            return Err(Error::InvalidOption);
        }
        j += 1;
    }
    if req.flags & !(INFO_FLAG_IGNORE_FAILURE | ((tbits as u32) << 16)) != 0 {
        return Err(Error::InvalidOption);
    }
    Ok(())
}

/// The truncation a string output undergoes: the source cut to the
/// declared capacity, and an error exactly when it did not fit.
pub open spec fn spec_filled(src: Seq<u8>, cap: int) -> Seq<u8> {
    if src.len() <= cap {
        src
    } else {
        src.take(cap)
    }
}

/// Copies `src` into an output of capacity `cap`, reporting truncation.
fn fill_str(src: &[u8], cap: usize) -> (r: (Vec<u8>, Result<(), Error>))
    ensures
        r.0@ == spec_filled(src@, cap as int),
        r.1 is Ok <==> src@.len() <= cap,
        r.1 is Err ==> r.1 == Err::<(), Error>(Error::InsufficientLength),
{
    if src.len() <= cap {
        proof {
            assert(spec_filled(src@, cap as int) == src@);
        }
        (vstd::slice::slice_to_vec(src), Ok(()))
    } else {
        let cut = vstd::slice::slice_to_vec(vstd::slice::slice_subrange(src, 0, cap));
        (cut, Err(Error::InsufficientLength))
    }
}

/// The result code one request produces: a malformed head or an
/// unignored unknown entry is an invalid option; string outputs too short
/// for their values report insufficient length; everything else succeeds.
pub open spec fn spec_request_result<F>(
    reg: Registry<F>,
    req: InfoRequest,
    src: SysInfoSource,
) -> Result<(), Error> {
    if !spec_head_ok(req, 1) {
        Err(Error::InvalidOption)
    } else if req.flags & INFO_FLAG_UNKNOWN != 0 {
        if req.flags & INFO_FLAG_IGNORE_FAILURE == 0 {
            Err(Error::InvalidOption)
        } else {
            Ok(())
        }
    } else {
        match req.kind {
            InfoRequestKind::OsVersion { vendor_cap } => if src.os_vendor@.len() <= vendor_cap {
                Ok(())
            } else {
                Err(Error::InsufficientLength)
            },
            InfoRequestKind::KernelVendor { vendor_cap } => if src.kvendor@.len() <= vendor_cap {
                Ok(())
            } else {
                Err(Error::InsufficientLength)
            },
            InfoRequestKind::ArchInfo => Ok(()),
            InfoRequestKind::ComputerName { hostname_cap, display_cap, label_cap } => if src.hostname@.len()
                <= hostname_cap && src.hostname@.len() <= display_cap && src.hostname@.len()
                <= label_cap {
                Ok(())
            } else {
                Err(Error::InsufficientLength)
            },
            InfoRequestKind::Other(uuid) => match crate::dispatch::spec_registry_find(reg, uuid) {
                Some(_) => Ok(()),
                None => if req.flags & INFO_FLAG_IGNORE_FAILURE == 0 {
                    Err(Error::InvalidOption)
                } else {
                    Ok(())
                },
            },
        }
    }
}

/// The first failure among the requests from position `i` on; later
/// entries are still processed, but the earliest failure is what the call
/// reports.
pub open spec fn spec_info_fold<F>(
    reg: Registry<F>,
    reqs: Seq<InfoRequest>,
    src: SysInfoSource,
    i: int,
) -> Result<(), Error>
    decreases reqs.len() - i,
{
    if i < 0 || i >= reqs.len() {
        Ok(())
    } else {
        match spec_request_result(reg, reqs[i], src) {
            Err(e) => Err(e),
            Ok(()) => spec_info_fold(reg, reqs, src, i + 1),
        }
    }
}

/// What the response to one request must hold: a malformed, tolerated or
/// unmatched entry writes nothing back; each known type carries the host
/// values with its strings truncated to the declared capacities; a type
/// tag naming a registered subsystem carries that subsystem's slot,
/// version and syscall ceiling.
pub open spec fn spec_response_ok<F>(
    reg: Registry<F>,
    req: InfoRequest,
    src: SysInfoSource,
    resp: InfoResponse,
) -> bool {
    if !spec_head_ok(req, 1) || req.flags & INFO_FLAG_UNKNOWN != 0 {
        resp is Ignored
    } else {
        match req.kind {
            InfoRequestKind::OsVersion { vendor_cap } => resp matches InfoResponse::OsVersion {
                vendor_name,
                os_major,
                os_minor,
            } && vendor_name@ == spec_filled(src.os_vendor@, vendor_cap as int) && os_major
                == src.os_major && os_minor == src.os_minor,
            InfoRequestKind::KernelVendor { vendor_cap } => resp
                matches InfoResponse::KernelVendor {
                vendor_name,
                build_id,
                kernel_major,
                kernel_minor,
            } && vendor_name@ == spec_filled(src.kvendor@, vendor_cap as int) && build_id
                == src.build_id && kernel_major == src.kernel_major && kernel_minor
                == src.kernel_minor,
            InfoRequestKind::ArchInfo => resp == (InfoResponse::ArchInfo {
                arch_type: src.arch_type,
                arch_version: src.arch_version,
            }),
            InfoRequestKind::ComputerName { hostname_cap, display_cap, label_cap } => resp
                matches InfoResponse::ComputerName {
                hostname,
                display_name,
                label,
                sys_id,
            } && hostname@ == spec_filled(src.hostname@, hostname_cap as int) && display_name@
                == spec_filled(src.hostname@, display_cap as int) && label@ == spec_filled(
                src.hostname@,
                label_cap as int,
            ) && sys_id == src.sys_id,
            InfoRequestKind::Other(uuid) => match crate::dispatch::spec_registry_find(reg, uuid) {
                Some(s) => resp == (InfoResponse::SupportedSubsystem {
                    subsystem_no: s,
                    subsys_version: reg.infos@[s as int]->Some_0.subsys_version,
                    max_sysno: reg.infos@[s as int]->Some_0.max_sysno,
                }),
                None => resp is Ignored,
            },
        }
    }
}

impl<F: Fn(u64, u64, u64, u64, u64, u64) -> i64> Registry<F> {
    /// Processes one info request: a malformed head is an invalid option;
    /// an entry marked unknown-but-tolerated succeeds only with the
    /// ignore-failure flag; each known type is answered from the host
    /// values with its strings truncated to the declared capacities (a
    /// truncation is reported, the last one winning); any other type tag
    /// is answered when it names a registered subsystem, and otherwise
    /// succeeds only with the ignore-failure flag.
    pub fn process_request(&self, req: &InfoRequest, src: &SysInfoSource) -> (r: (
        InfoResponse,
        Result<(), Error>,
    ))
        requires
            self.wf(),
        ensures
            r.1 is Ok <==> spec_request_result(*self, *req, *src) is Ok,
            spec_request_result(*self, *req, *src) matches Err(e) ==> r.1 == Err::<(), Error>(e),
            spec_response_ok(*self, *req, *src, r.0),
    {
        match validate_option_head(req, 1) {
            Ok(()) => {},
            Err(e) => {
                return (InfoResponse::Ignored, Err(e));
            },
        }
        if req.flags & INFO_FLAG_UNKNOWN != 0 {
            if req.flags & INFO_FLAG_IGNORE_FAILURE == 0 {
                return (InfoResponse::Ignored, Err(Error::InvalidOption));
            } else {
                return (InfoResponse::Ignored, Ok(()));
            }
        }
        match &req.kind {
            InfoRequestKind::OsVersion { vendor_cap } => {
                let (vendor_name, res) = fill_str(self_slice(&src.os_vendor), *vendor_cap);
                (
                    InfoResponse::OsVersion {
                        vendor_name,
                        os_major: src.os_major,
                        os_minor: src.os_minor,
                    },
                    res,
                )
            },
            InfoRequestKind::KernelVendor { vendor_cap } => {
                let (vendor_name, res) = fill_str(self_slice(&src.kvendor), *vendor_cap);
                (
                    InfoResponse::KernelVendor {
                        vendor_name,
                        build_id: src.build_id,
                        kernel_major: src.kernel_major,
                        kernel_minor: src.kernel_minor,
                    },
                    res,
                )
            },
            InfoRequestKind::ArchInfo => (
                InfoResponse::ArchInfo {
                    arch_type: src.arch_type,
                    arch_version: src.arch_version,
                },
                Ok(()),
            ),
            InfoRequestKind::ComputerName { hostname_cap, display_cap, label_cap } => {
                let (hostname, r1) = fill_str(self_slice(&src.hostname), *hostname_cap);
                let (display_name, r2) = fill_str(self_slice(&src.hostname), *display_cap);
                let (label, r3) = fill_str(self_slice(&src.hostname), *label_cap);
                let res = if r3.is_err() {
                    r3
                } else if r2.is_err() {
                    r2
                } else {
                    r1
                };
                (
                    InfoResponse::ComputerName { hostname, display_name, label, sys_id: src.sys_id },
                    res,
                )
            },
            InfoRequestKind::Other(uuid) => {
                match self.find_subsystem(*uuid) {
                    Some(s) => {
                        match self.subsys_info(s) {
                            Some(info) => (
                                InfoResponse::SupportedSubsystem {
                                    subsystem_no: s,
                                    subsys_version: info.subsys_version,
                                    max_sysno: info.max_sysno,
                                },
                                Ok(()),
                            ),
                            None => vstd::pervasive::unreached(),
                        }
                    },
                    None => {
                        if req.flags & INFO_FLAG_IGNORE_FAILURE == 0 {
                            (InfoResponse::Ignored, Err(Error::InvalidOption))
                        } else {
                            (InfoResponse::Ignored, Ok(()))
                        }
                    },
                }
            },
        }
    }

    /// Processes a request list: every entry is processed independently,
    /// and the overall result is the first failure (later entries still
    /// run).
    pub fn get_system_info(&self, reqs: &Vec<InfoRequest>, src: &SysInfoSource) -> (r: (
        Vec<InfoResponse>,
        Result<(), Error>,
    ))
        requires
            self.wf(),
        ensures
            r.0@.len() == reqs@.len(),
            forall|i: int|
                0 <= i < reqs@.len() ==> spec_response_ok(*self, reqs@[i], *src, #[trigger] r.0@[i]),
            r.1 is Ok <==> spec_info_fold(*self, reqs@, *src, 0) is Ok,
            spec_info_fold(*self, reqs@, *src, 0) matches Err(e) ==> r.1 == Err::<(), Error>(e),
    {
        let mut responses: Vec<InfoResponse> = Vec::new();
        let mut res: Result<(), Error> = Ok(());
        let mut i: usize = 0;
        while i < reqs.len()
            invariant
                self.wf(),
                i <= reqs@.len(),
                responses@.len() == i,
                forall|j: int|
                    0 <= j < i ==> spec_response_ok(
                        *self,
                        reqs@[j],
                        *src,
                        #[trigger] responses@[j],
                    ),
                match res {
                    Ok(()) => spec_info_fold(*self, reqs@, *src, 0) == spec_info_fold(
                        *self,
                        reqs@,
                        *src,
                        i as int,
                    ),
                    Err(e) => spec_info_fold(*self, reqs@, *src, 0) == Err::<(), Error>(e),
                },
            decreases reqs@.len() - i,
        {
            let (resp, r1) = self.process_request(&reqs[i], src);
            responses.push(resp);
            if res.is_ok() {
                res = r1;
            }
            i += 1;
        }
        (responses, res)
    }
}

/// Borrows a byte vector as a slice.
fn self_slice(v: &Vec<u8>) -> (r: &[u8])
    ensures
        r@ == v@,
{
    v.as_slice()
}

} // verus!
