use winter_lily::error::Error;
use winter_lily::loader::{
    map_phdrs, read_at_step, read_progress, segment_perms, FdLoader, MapStep, Phdr, ReadStep,
    SearchType, PF_W, PF_X, PROT_EXEC, PROT_READ, PROT_WRITE,
};

#[test]
fn permissions_from_segment_flags() {
    assert_eq!(segment_perms(0), PROT_READ);
    assert_eq!(segment_perms(PF_X), PROT_READ | PROT_EXEC);
    assert_eq!(segment_perms(PF_W), PROT_READ | PROT_WRITE);
    // Writable wins over executable.
    assert_eq!(segment_perms(PF_W | PF_X), PROT_READ | PROT_WRITE);
}

#[test]
fn base_addresses_advance_per_region() {
    let mut l = FdLoader { native_base: 0x1000_0000, winter_base: 0x7000_0000 };
    let a = l.alloc_base_addr(SearchType::Host, 5000);
    assert_eq!(a, 0x1000_0000);
    assert_eq!(l.native_base, 0x1000_2000);
    let b = l.alloc_base_addr(SearchType::Winter, 1);
    assert_eq!(b, 0x7000_0000);
    assert_eq!(l.winter_base, 0x7000_1000);
    // The regions never interleave.
    assert_eq!(l.native_base, 0x1000_2000);
}

#[test]
fn plan_maps_content_writable_then_tightens() {
    let phdrs = vec![Phdr {
        p_paddr: 0,
        p_memsz: 0x2500,
        p_filesz: 0x2000,
        p_offset: 0x1000,
        p_flags: PF_X,
    }];
    let plan = map_phdrs(&phdrs, 0x40_0000);
    assert_eq!(
        plan,
        vec![
            MapStep::MapFile {
                addr: 0x40_0000,
                len: 0x2000,
                offset: 0x1000,
                prot: PROT_READ | PROT_WRITE,
            },
            MapStep::ZeroFill { addr: 0x40_0000, len: 0 },
            MapStep::ZeroFill { addr: 0x40_2000, len: 0x500 },
            MapStep::Protect { addr: 0x40_0000, len: 0x2500, prot: PROT_READ | PROT_EXEC },
        ]
    );
}

#[test]
fn plan_coalesces_boundary_page() {
    // The second segment begins in the page the first one ended in: its
    // head up to the page boundary is read into the shared page under a
    // temporary writable protection that is then restored to the union of
    // both segments' permissions, and the file mapping continues at the
    // boundary with exactly the remaining declared bytes.
    let phdrs = vec![
        Phdr { p_paddr: 0, p_memsz: 0x1800, p_filesz: 0x1800, p_offset: 0, p_flags: PF_X },
        Phdr {
            p_paddr: 0x1800,
            p_memsz: 0x2000,
            p_filesz: 0x2000,
            p_offset: 0x1800,
            p_flags: PF_W,
        },
    ];
    let plan = map_phdrs(&phdrs, 0x40_0000);
    let rw = PROT_READ | PROT_WRITE;
    let rx = PROT_READ | PROT_EXEC;
    assert_eq!(plan.len(), 4 + 4 + 4);
    assert_eq!(plan[4], MapStep::Protect { addr: 0x40_1000, len: 4096, prot: rw });
    assert_eq!(plan[5], MapStep::ReadAt { addr: 0x40_1800, len: 0x800, offset: 0x1800 });
    assert_eq!(plan[6], MapStep::ZeroFill { addr: 0x40_2000, len: 0 });
    assert_eq!(plan[7], MapStep::Protect { addr: 0x40_1000, len: 4096, prot: rw | rx });
    // The head placed 0x800 of the segment's 0x2000 file bytes; the
    // mapping carries the remaining 0x1800 from the matching file offset,
    // so no declared content is dropped.
    assert_eq!(
        plan[8],
        MapStep::MapFile { addr: 0x40_2000, len: 0x1800, offset: 0x2000, prot: rw }
    );
    assert_eq!(plan[11], MapStep::Protect { addr: 0x40_2000, len: 0x1800, prot: rw });
}

#[test]
fn plan_zeroes_boundary_gap_when_content_ends_early() {
    // A coalesced segment whose file content ends before the page
    // boundary has the rest of its boundary span zero-filled.
    let phdrs = vec![
        Phdr { p_paddr: 0, p_memsz: 0x1800, p_filesz: 0x1800, p_offset: 0, p_flags: 0 },
        Phdr {
            p_paddr: 0x1800,
            p_memsz: 0x600,
            p_filesz: 0x200,
            p_offset: 0x1800,
            p_flags: 0,
        },
    ];
    let plan = map_phdrs(&phdrs, 0x40_0000);
    assert_eq!(plan.len(), 4 + 4);
    assert_eq!(plan[5], MapStep::ReadAt { addr: 0x40_1800, len: 0x200, offset: 0x1800 });
    assert_eq!(plan[6], MapStep::ZeroFill { addr: 0x40_1A00, len: 0x400 });
}

#[test]
fn empty_plan_for_no_segments() {
    let plan = map_phdrs(&Vec::new(), 0x40_0000);
    assert!(plan.is_empty());
}

#[test]
fn short_read_is_hard_error_only_at_zero() {
    assert_eq!(read_progress(0, 100), Err(Error::ReadError));
    assert_eq!(read_progress(40, 100), Ok(60));
    assert_eq!(read_progress(100, 100), Ok(0));
    assert_eq!(read_progress(0, 0), Ok(0));
}

#[test]
fn read_loop_retries_only_interrupted_calls() {
    assert_eq!(read_at_step(Ok(40), 100), ReadStep::Advance(60));
    assert_eq!(read_at_step(Ok(100), 100), ReadStep::Advance(0));
    // A zero-length read mid-transfer is a hard error.
    assert_eq!(read_at_step(Ok(0), 100), ReadStep::Fail(Error::ReadError));
    assert_eq!(read_at_step(Ok(0), 0), ReadStep::Advance(0));
    // Only the interrupted-call indication is retried.
    assert_eq!(read_at_step(Err(4), 100), ReadStep::Retry);
    assert_eq!(read_at_step(Err(5), 100), ReadStep::Fail(Error::ReadError));
}
