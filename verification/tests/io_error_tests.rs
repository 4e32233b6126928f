use winter_lily::error::{linux_error_to_lilium, Error, UNSUPPORTED_KERNEL_FUNCTION};
use winter_lily::io::{seek_args, BufFdReader, LineStep, SeekFrom, SEEK_CUR, SEEK_END, SEEK_SET};
use winter_lily::sysret::SyscallRet;

#[test]
fn buffered_reader_window() {
    let mut r = BufFdReader::new(3);
    assert_eq!(r.buf(), &[] as &[u8]);
    r.refill(b"hello world");
    assert_eq!(r.buf(), b"hello world");
    let mut out = vec![0u8; 5];
    let n = r.read(&mut out);
    assert_eq!(n, 5);
    assert_eq!(out, b"hello".to_vec());
    assert_eq!(r.buf(), b" world");
    r.consume(1);
    assert_eq!(r.buf(), b"world");
    // A larger output than the window yields a short read.
    let mut out = vec![0u8; 64];
    let n = r.read(&mut out);
    assert_eq!(n, 5);
    assert_eq!(&out[..5], b"world");
    assert_eq!(r.buf(), &[] as &[u8]);
    r.refill(b"next");
    r.discard();
    assert_eq!(r.buf(), &[] as &[u8]);
}

#[test]
fn seek_request_translation() {
    assert_eq!(seek_args(SeekFrom::Start(10)), (SEEK_SET, 10));
    assert_eq!(seek_args(SeekFrom::End(-4)), (SEEK_END, -4));
    assert_eq!(seek_args(SeekFrom::Current(7)), (SEEK_CUR, 7));
}

#[test]
fn error_codes_are_distinct_and_negative() {
    let all = [
        Error::InvalidHandle,
        Error::InvalidOption,
        Error::ResourceLimitExhausted,
        Error::UnsupportedKernelFunction,
        Error::Interrupted,
        Error::Permission,
        Error::InsufficientLength,
        Error::InvalidMemory,
        Error::ObjectNotFound,
        Error::AllocError,
        Error::LoadError,
        Error::ReadError,
        Error::AssumePresent,
        Error::Unknown,
    ];
    for (i, a) in all.iter().enumerate() {
        assert!(a.into_code() < 0);
        for b in &all[i + 1..] {
            assert_ne!(a.into_code(), b.into_code());
        }
    }
    assert_eq!(Error::UnsupportedKernelFunction.into_code(), UNSUPPORTED_KERNEL_FUNCTION);
    assert_eq!(Error::Unknown.into_code(), -0x800);
}

#[test]
fn host_errno_translation() {
    assert_eq!(linux_error_to_lilium(4), Error::Interrupted);
    assert_eq!(linux_error_to_lilium(1), Error::Permission);
    assert_eq!(linux_error_to_lilium(2), Error::Unknown);
    assert_eq!(linux_error_to_lilium(0), Error::Unknown);
}

#[test]
fn syscall_result_marshaling() {
    let ok: Result<(), Error> = Ok(());
    assert_eq!(ok.into_sys(), 0);
    let err: Result<(), Error> = Err(Error::InvalidHandle);
    assert_eq!(err.into_sys(), Error::InvalidHandle.into_code());
    let val: Result<u32, Error> = Ok(77);
    assert_eq!(val.into_sys(), 77);
    let verr: Result<u32, Error> = Err(Error::Permission);
    assert_eq!(verr.into_sys(), Error::Permission.into_code());
}

#[test]
fn line_step_splits_on_newline() {
    let mut r = BufFdReader::new(0);
    r.refill(b"first line\nsecond");
    let mut out: Vec<u8> = Vec::new();
    let step = r.take_line_step(&mut out, 64);
    assert_eq!(step, LineStep::Done);
    assert_eq!(out, b"first line".to_vec());
    // The newline itself was consumed.
    assert_eq!(r.buf(), b"second");
    let mut out: Vec<u8> = Vec::new();
    let step = r.take_line_step(&mut out, 64);
    assert_eq!(step, LineStep::NeedMore);
    assert_eq!(out, b"second".to_vec());
    assert_eq!(r.buf(), &[] as &[u8]);
    // A refill continues the same line.
    r.refill(b" part\nrest");
    let step = r.take_line_step(&mut out, 64);
    assert_eq!(step, LineStep::Done);
    assert_eq!(out, b"second part".to_vec());
    assert_eq!(r.buf(), b"rest");
}

#[test]
fn line_step_stops_at_capacity() {
    let mut r = BufFdReader::new(0);
    r.refill(b"abcdefgh\n");
    let mut out: Vec<u8> = Vec::new();
    let step = r.take_line_step(&mut out, 4);
    assert_eq!(step, LineStep::Done);
    assert_eq!(out, b"abcd".to_vec());
}
