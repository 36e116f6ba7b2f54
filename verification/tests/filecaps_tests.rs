use capctl::cap::Cap;
use capctl::capset::CapSet;
use capctl::error::sc_res_decode;
use capctl::filecaps::FileCaps;

#[test]
fn test_filecaps_empty() {
    let empty_caps = FileCaps::empty();
    assert!(!empty_caps.effective);
    assert!(empty_caps.permitted.is_empty());
    assert!(empty_caps.inheritable.is_empty());
    assert!(empty_caps.rootid.is_none());
}

#[test]
fn test_filecaps_pack_unpack() {
    assert_eq!(
        FileCaps::unpack_attrs(b"").unwrap_err().code(),
        libc::EINVAL
    );
    assert_eq!(
        FileCaps::unpack_attrs(b"\x00\x00\x00").unwrap_err().code(),
        libc::EINVAL
    );
    assert_eq!(
        FileCaps::unpack_attrs(b"\x00\x00\x00\x00").unwrap_err().code(),
        libc::EINVAL
    );

    // Version 1
    assert_eq!(
        FileCaps::unpack_attrs(b"\x00\x00\x00\x01\x01\x00\x00\x00\x01\x00\x00\x00").unwrap(),
        FileCaps {
            effective: false,
            permitted: CapSet::from_caps(&[Cap::CHOWN]),
            inheritable: CapSet::from_caps(&[Cap::CHOWN]),
            rootid: None,
        },
    );

    // Round-tripping Version 2 and Version 3 capabilities

    for (attr_data, fcaps) in [
        // Version 2 (real example, from Wireshark's /usr/bin/dumpcap)
        (
            b"\x01\x00\x00\x02\x020\x00\x00\x020\x00\x00\x00\x00\x00\x00\x00\x00\x00\x00".as_ref(),
            FileCaps {
                effective: true,
                permitted: CapSet::from_caps(&[Cap::DAC_OVERRIDE, Cap::NET_ADMIN, Cap::NET_RAW]),
                inheritable: CapSet::from_caps(&[
                    Cap::DAC_OVERRIDE,
                    Cap::NET_ADMIN,
                    Cap::NET_RAW,
                ]),
                rootid: None,
            },
        ),
        // Version 3
        (
            b"\x00\x00\x00\x03\x020\x00\x00\x020\x00\x00\x04\x00\x00\x00\x08\x00\x00\x00\xe8\x03\x00\x00".as_ref(),
            FileCaps {
                effective: false,
                permitted: CapSet::from_caps(&[
                    Cap::DAC_OVERRIDE,
                    Cap::NET_ADMIN,
                    Cap::NET_RAW,
                    Cap::SYSLOG,
                ]),
                inheritable: CapSet::from_caps(&[
                    Cap::DAC_OVERRIDE,
                    Cap::NET_ADMIN,
                    Cap::NET_RAW,
                    Cap::WAKE_ALARM,
                ]),
                rootid: Some(1000),
            },
        ),
    ]
    .iter()
    {
        assert_eq!(FileCaps::unpack_attrs(attr_data).unwrap(), *fcaps);

        assert_eq!(&fcaps.pack_attrs(), attr_data);
    }
}

#[test]
fn test_filecaps_version_length_mismatch() {
    // A recognized version with the wrong exact length is malformed.
    let mut v2_short = b"\x01\x00\x00\x02\x020\x00\x00\x020\x00\x00\x00\x00\x00\x00".to_vec();
    assert_eq!(v2_short.len(), 16);
    assert_eq!(FileCaps::unpack_attrs(&v2_short).unwrap_err().code(), libc::EINVAL);
    v2_short.push(0);
    v2_short.push(0);
    v2_short.push(0);
    v2_short.push(0);
    v2_short.push(0);
    assert_eq!(v2_short.len(), 21);
    assert_eq!(FileCaps::unpack_attrs(&v2_short).unwrap_err().code(), libc::EINVAL);

    // An unrecognized version is malformed whatever the length.
    let v9 = b"\x00\x00\x00\x09\x01\x00\x00\x00\x01\x00\x00\x00";
    assert_eq!(FileCaps::unpack_attrs(v9).unwrap_err().code(), libc::EINVAL);

    // Version 1 bytes with a version-2 length are malformed.
    let v1_long = b"\x00\x00\x00\x01\x01\x00\x00\x00\x01\x00\x00\x00\x00\x00\x00\x00\x00\x00\x00\x00";
    assert_eq!(FileCaps::unpack_attrs(v1_long).unwrap_err().code(), libc::EINVAL);
}

#[test]
fn test_filecaps_v1_upgrades_on_encode() {
    // A version-1 attribute decodes, but re-encoding upgrades it to the
    // version-2 layout with the same capability membership.
    let v1 = b"\x00\x00\x00\x01\x01\x00\x00\x00\x01\x00\x00\x00";
    let fcaps = FileCaps::unpack_attrs(v1).unwrap();
    let packed = fcaps.pack_attrs();
    assert_ne!(&packed[..], &v1[..]);
    assert_eq!(packed.len(), 20);
    assert_eq!(packed[3], 0x02);
    assert_eq!(FileCaps::unpack_attrs(&packed).unwrap(), fcaps);
}

#[test]
fn test_filecaps_encode_version_selection() {
    // No root id: version 2, 20 bytes. With a root id: version 3, 24 bytes,
    // the id in the trailing word.
    let mut fcaps = FileCaps::empty();
    fcaps.effective = true;
    fcaps.permitted.add(Cap::CHOWN);
    let packed = fcaps.pack_attrs();
    assert_eq!(packed.len(), 20);
    assert_eq!(packed[3], 0x02);
    assert_eq!(packed[0], 0x01);
    assert_eq!(FileCaps::unpack_attrs(&packed).unwrap(), fcaps);

    fcaps.rootid = Some(1000);
    let packed = fcaps.pack_attrs();
    assert_eq!(packed.len(), 24);
    assert_eq!(packed[3], 0x03);
    assert_eq!(&packed[20..24], &[0xe8, 0x03, 0x00, 0x00]);
    assert_eq!(FileCaps::unpack_attrs(&packed).unwrap(), fcaps);
}

#[test]
fn test_filecaps_high_words() {
    // Capabilities above bit 31 live in the high words at offsets 12 and 16.
    let mut fcaps = FileCaps::empty();
    fcaps.permitted.add(Cap::SYSLOG);
    fcaps.inheritable.add(Cap::WAKE_ALARM);
    let packed = fcaps.pack_attrs();
    assert_eq!(&packed[4..8], &[0, 0, 0, 0]);
    assert_eq!(&packed[8..12], &[0, 0, 0, 0]);
    assert_eq!(&packed[12..16], &[0x04, 0, 0, 0]);
    assert_eq!(&packed[16..20], &[0x08, 0, 0, 0]);
    assert_eq!(FileCaps::unpack_attrs(&packed).unwrap(), fcaps);
}

#[test]
fn test_sc_res_decode() {
    assert_eq!(sc_res_decode(0), Ok(0));
    assert_eq!(sc_res_decode(7), Ok(7));
    assert_eq!(sc_res_decode(usize::MAX - 4095), Ok(usize::MAX - 4095));
    assert_eq!(sc_res_decode(usize::MAX).unwrap_err().code(), 1);
    assert_eq!(
        sc_res_decode(usize::MAX - (libc::EINVAL as usize) + 1).unwrap_err().code(),
        libc::EINVAL
    );
}
