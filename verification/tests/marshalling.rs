use hdfs_util::err::HdfsErr;
use hdfs_util::path::CPath;
use hdfs_util::util::{HdfsUtil, NativeFn};

#[test]
fn copy_marshals_null_terminated_paths() {
    let call = HdfsUtil::copy("/data/a.txt", "/backup/a.txt").unwrap();
    assert_eq!(call.op, NativeFn::HdfsCopy);
    assert_eq!(call.src.as_bytes_with_nul().as_slice(), b"/data/a.txt\0");
    assert_eq!(call.dst.as_bytes_with_nul().as_slice(), b"/backup/a.txt\0");
}

#[test]
fn mv_marshals_null_terminated_paths() {
    let call = HdfsUtil::mv("/data/a.txt", "/archive/a.txt").unwrap();
    assert_eq!(call.op, NativeFn::HdfsMove);
    assert_eq!(call.src.as_bytes_with_nul().as_slice(), b"/data/a.txt\0");
    assert_eq!(call.dst.as_bytes_with_nul().as_slice(), b"/archive/a.txt\0");
}

#[test]
fn cpath_exact_buffer() {
    let p = CPath::new("/tmp/x").unwrap();
    assert_eq!(p.as_bytes_with_nul().as_slice(), &[47u8, 116, 109, 112, 47, 120, 0]);
}

#[test]
fn cpath_empty_path() {
    let p = CPath::new("").unwrap();
    assert_eq!(p.as_bytes_with_nul().as_slice(), &[0u8]);
}

#[test]
fn cpath_multibyte_path() {
    let path = "/caf\u{e9}";
    let p = CPath::new(path).unwrap();
    let mut expected = path.as_bytes().to_vec();
    expected.push(0);
    assert_eq!(p.as_bytes_with_nul().as_slice(), expected.as_slice());
}

#[test]
fn embedded_null_fails_conversion() {
    assert_eq!(CPath::new("a\0b").unwrap_err(), HdfsErr::InvalidPath);
    assert_eq!(CPath::new("\0").unwrap_err(), HdfsErr::InvalidPath);
    assert_eq!(HdfsUtil::copy("a\0b", "/dst").unwrap_err(), HdfsErr::InvalidPath);
    assert_eq!(HdfsUtil::copy("/src", "a\0b").unwrap_err(), HdfsErr::InvalidPath);
    assert_eq!(HdfsUtil::mv("\0", "/dst").unwrap_err(), HdfsErr::InvalidPath);
    assert_eq!(HdfsUtil::mv("/src", "dst\0").unwrap_err(), HdfsErr::InvalidPath);
}

#[test]
fn zero_status_is_success() {
    assert_eq!(HdfsUtil::interpret_status(0), Ok(true));
}

#[test]
fn nonzero_status_is_generic_failure() {
    assert_eq!(HdfsUtil::interpret_status(1), Err(HdfsErr::Unknown));
    assert_eq!(HdfsUtil::interpret_status(-1), Err(HdfsErr::Unknown));
    assert_eq!(HdfsUtil::interpret_status(255), Err(HdfsErr::Unknown));
    assert_eq!(HdfsUtil::interpret_status(i32::MIN), Err(HdfsErr::Unknown));
    assert_eq!(HdfsUtil::interpret_status(i32::MAX), Err(HdfsErr::Unknown));
}

// The marshalling half of the local-file scenario: copy a local file `A` to
// `/A` on a target filesystem, then move it there. The native calls and the
// filesystem effects belong to the native client; what this layer owes the
// scenario is two well-formed calls and the right reading of the statuses.
#[test]
fn local_file_scenario_marshalling() {
    let copy_call = HdfsUtil::copy("A", "/A").unwrap();
    assert_eq!(copy_call.op, NativeFn::HdfsCopy);
    assert_eq!(copy_call.src.as_bytes_with_nul().as_slice(), b"A\0");
    assert_eq!(copy_call.dst.as_bytes_with_nul().as_slice(), b"/A\0");
    assert_eq!(HdfsUtil::interpret_status(0), Ok(true));

    let mv_call = HdfsUtil::mv("A", "/A").unwrap();
    assert_eq!(mv_call.op, NativeFn::HdfsMove);
    assert_eq!(mv_call.src.as_bytes_with_nul().as_slice(), b"A\0");
    assert_eq!(mv_call.dst.as_bytes_with_nul().as_slice(), b"/A\0");
    assert_eq!(HdfsUtil::interpret_status(0), Ok(true));
}
