//! File capabilities: the record attached to a file, and the versioned
//! binary codec for the raw bytes of its capability extended attribute.

use vstd::prelude::*;

use crate::cap::CAP_BITMASK;
use crate::capset::CapSet;
use crate::error::{Error, EINVAL};

verus! {

broadcast use CapSet::lemma_from_bits;

/// Mask of the magic word's version discriminant.
pub const VFS_CAP_REVISION_MASK: u32 = 0xFF00_0000;

/// Mask of the magic word's flags field.
pub const VFS_CAP_FLAGS_MASK: u32 = 0x00FF_FFFF;

/// Flag marking capabilities as effective immediately on exec.
pub const VFS_CAP_FLAGS_EFFECTIVE: u32 = 0x0000_0001;

/// Version discriminant of the legacy, decode-only layout.
pub const VFS_CAP_REVISION_1: u32 = 0x0100_0000;

/// Version discriminant of the two-word-per-set layout.
pub const VFS_CAP_REVISION_2: u32 = 0x0200_0000;

/// Version discriminant of the layout with a root-namespace id.
pub const VFS_CAP_REVISION_3: u32 = 0x0300_0000;

/// Exact byte length of a version-1 attribute.
pub const XATTR_CAPS_SZ_1: usize = 12;

/// Exact byte length of a version-2 attribute.
pub const XATTR_CAPS_SZ_2: usize = 20;

/// Exact byte length of a version-3 attribute.
pub const XATTR_CAPS_SZ_3: usize = 24;

/// The largest byte length any attribute version uses.
pub const XATTR_CAPS_MAX_SIZE: usize = 24;

/// The capabilities attached to a file.
#[derive(Clone, Copy, Debug, PartialEq, Eq, Hash, Structural)]
pub struct FileCaps {
    /// The "effective" bit. If this is set on a file, then during an
    /// `execve()` the kernel will raise all the capabilities from the file's
    /// `permitted` set in the process's new effective capability set.
    pub effective: bool,
    /// The permitted capability set. These capabilities are automatically
    /// added to the process's new permitted capability set.
    pub permitted: CapSet,
    /// The inheritable capability set. These capabilities are automatically
    /// added to the process's new inheritable capability set.
    pub inheritable: CapSet,
    /// The root user ID of the user namespace in which file capabilities
    /// were added to this file. This is only set to a non-`None` value for
    /// version 3 file capabilities, and its presence selects version 3 on
    /// re-encoding.
    pub rootid: Option<u32>,
}

/// The 32-bit little-endian word at byte offset `off` of `s`.
pub open spec fn spec_le32(s: Seq<u8>, off: int) -> u32
    recommends
        0 <= off,
        off + 4 <= s.len(),
{
    (s[off] as u32) | ((s[off + 1] as u32) << 8u32) | ((s[off + 2] as u32) << 16u32) | ((s[off
        + 3] as u32) << 24u32)
}

/// The four bytes of `x` in little-endian order.
pub open spec fn spec_word_bytes(x: u32) -> Seq<u8> {
    seq![
        (x & 0xFF) as u8,
        ((x >> 8u32) & 0xFF) as u8,
        ((x >> 16u32) & 0xFF) as u8,
        ((x >> 24u32) & 0xFF) as u8,
    ]
}

/// The capability bitmask held in a low and a high 32-bit word, truncated to
/// the valid capability positions.
pub open spec fn spec_combine(lo: u32, hi: u32) -> u64 {
    (((hi as u64) << 32u64) | (lo as u64)) & CAP_BITMASK
}

/// What the raw bytes of a capability attribute mean: the decoded record,
/// or nothing when the bytes are malformed. The layout is selected by the
/// version discriminant of the first four bytes together with the exact
/// total length; any other combination is malformed.
pub open spec fn decode_spec(s: Seq<u8>) -> Option<FileCaps> {
    if s.len() < 4 {
        None
    } else {
        let magic = spec_le32(s, 0);
        let version = magic & VFS_CAP_REVISION_MASK;
        let effective = (magic & VFS_CAP_FLAGS_MASK) & VFS_CAP_FLAGS_EFFECTIVE != 0;
        if version == VFS_CAP_REVISION_2 && s.len() == XATTR_CAPS_SZ_2 {
            Some(
                FileCaps {
                    effective,
                    permitted: CapSet::from_bits(spec_combine(spec_le32(s, 4), spec_le32(s, 12))),
                    inheritable: CapSet::from_bits(
                        spec_combine(spec_le32(s, 8), spec_le32(s, 16)),
                    ),
                    rootid: None,
                },
            )
        } else if version == VFS_CAP_REVISION_3 && s.len() == XATTR_CAPS_SZ_3 {
            Some(
                FileCaps {
                    effective,
                    permitted: CapSet::from_bits(spec_combine(spec_le32(s, 4), spec_le32(s, 12))),
                    inheritable: CapSet::from_bits(
                        spec_combine(spec_le32(s, 8), spec_le32(s, 16)),
                    ),
                    rootid: Some(spec_le32(s, 20)),
                },
            )
        } else if version == VFS_CAP_REVISION_1 && s.len() == XATTR_CAPS_SZ_1 {
            Some(
                FileCaps {
                    effective,
                    permitted: CapSet::from_bits((spec_le32(s, 4) as u64) & CAP_BITMASK),
                    inheritable: CapSet::from_bits((spec_le32(s, 8) as u64) & CAP_BITMASK),
                    rootid: None,
                },
            )
        } else {
            None
        }
    }
}

/// The raw bytes that encode a record: the version-3 layout when a
/// root-namespace id is present, else the version-2 layout. Version 1 is
/// decode-only and never produced.
pub open spec fn encode_spec(fc: FileCaps) -> Seq<u8> {
    let version = if fc.rootid is Some {
        VFS_CAP_REVISION_3
    } else {
        VFS_CAP_REVISION_2
    };
    let magic = if fc.effective {
        version | VFS_CAP_FLAGS_EFFECTIVE
    } else {
        version
    };
    let body = spec_word_bytes(magic) + spec_word_bytes(
        (fc.permitted.bits() & 0xFFFF_FFFF) as u32,
    ) + spec_word_bytes((fc.inheritable.bits() & 0xFFFF_FFFF) as u32) + spec_word_bytes(
        ((fc.permitted.bits() >> 32u64) & 0xFFFF_FFFF) as u32,
    ) + spec_word_bytes(((fc.inheritable.bits() >> 32u64) & 0xFFFF_FFFF) as u32);
    match fc.rootid {
        Some(rid) => body + spec_word_bytes(rid),
        None => body,
    }
}

/// The 32-bit halves of a word and the bytes of a 32-bit word stay within
/// their widths.
proof fn lemma_width_bounds(b: u64, x: u32)
    ensures
        b & 0xFFFF_FFFF <= 0xFFFF_FFFFu64,
        (b >> 32u64) & 0xFFFF_FFFF <= 0xFFFF_FFFFu64,
        x & 0xFF < 256,
        (x >> 8u32) & 0xFF < 256,
        (x >> 16u32) & 0xFF < 256,
        (x >> 24u32) & 0xFF < 256,
{
    assert(b & 0xFFFF_FFFF <= 0xFFFF_FFFFu64 && (b >> 32u64) & 0xFFFF_FFFF <= 0xFFFF_FFFFu64)
        by (bit_vector);
    assert(x & 0xFF < 256 && (x >> 8u32) & 0xFF < 256 && (x >> 16u32) & 0xFF < 256 && (x
        >> 24u32) & 0xFF < 256) by (bit_vector);
}

/// Reading back the little-endian bytes of a word yields the word.
proof fn lemma_word_roundtrip(x: u32)
    ensures
        spec_le32(spec_word_bytes(x), 0) == x,
{
    lemma_width_bounds(0, x);
    assert((x & 0xFF) | (((x >> 8u32) & 0xFF) << 8u32) | (((x >> 16u32) & 0xFF) << 16u32) | (((x
        >> 24u32) & 0xFF) << 24u32) == x) by (bit_vector);
}

/// Splitting a masked bitmask into 32-bit halves and recombining them yields
/// the bitmask.
proof fn lemma_split_combine(b: u64)
    requires
        b & CAP_BITMASK == b,
    ensures
        spec_combine((b & 0xFFFF_FFFF) as u32, ((b >> 32u64) & 0xFFFF_FFFF) as u32) == b,
{
    lemma_width_bounds(b, 0);
    assert(b & 0x1FF_FFFF_FFFFu64 == b ==> ((((b >> 32u64) & 0xFFFF_FFFF) << 32u64) | (b
        & 0xFFFF_FFFF)) & 0x1FF_FFFF_FFFFu64 == b) by (bit_vector);
}

/// The version discriminant and the effective flag are recovered exactly
/// from a magic word built from a version and, possibly, the flag.
proof fn lemma_magic_fields()
    ensures
        0x0200_0000u32 & 0xFF00_0000 == 0x0200_0000u32,
        (0x0200_0000u32 & 0x00FF_FFFF) & 1 == 0,
        (0x0200_0000u32 | 1) & 0xFF00_0000 == 0x0200_0000u32,
        ((0x0200_0000u32 | 1) & 0x00FF_FFFF) & 1 == 1,
        0x0300_0000u32 & 0xFF00_0000 == 0x0300_0000u32,
        (0x0300_0000u32 & 0x00FF_FFFF) & 1 == 0,
        (0x0300_0000u32 | 1) & 0xFF00_0000 == 0x0300_0000u32,
        ((0x0300_0000u32 | 1) & 0x00FF_FFFF) & 1 == 1,
{
    assert(0x0200_0000u32 & 0xFF00_0000 == 0x0200_0000u32 && (0x0200_0000u32 & 0x00FF_FFFF) & 1
        == 0 && (0x0200_0000u32 | 1) & 0xFF00_0000 == 0x0200_0000u32 && ((0x0200_0000u32 | 1)
        & 0x00FF_FFFF) & 1 == 1 && 0x0300_0000u32 & 0xFF00_0000 == 0x0300_0000u32 && (
    0x0300_0000u32 & 0x00FF_FFFF) & 1 == 0 && (0x0300_0000u32 | 1) & 0xFF00_0000
        == 0x0300_0000u32 && ((0x0300_0000u32 | 1) & 0x00FF_FFFF) & 1 == 1) by (bit_vector);
}

/// The 32-bit little-endian word at byte offset `off`, as an executable value.
fn read_le32(s: &[u8], off: usize) -> (r: u32)
    requires
        off + 4 <= s@.len(),
    ensures
        r == spec_le32(s@, off as int),
{
    (s[off] as u32) | ((s[off + 1] as u32) << 8u32) | ((s[off + 2] as u32) << 16u32) | ((s[off
        + 3] as u32) << 24u32)
}

/// Append the four little-endian bytes of `x`.
fn push_le32(v: &mut Vec<u8>, x: u32)
    ensures
        final(v)@ == old(v)@ + spec_word_bytes(x),
{
    proof {
        lemma_width_bounds(0, x);
    }
    v.push((x & 0xFF) as u8);
    v.push(((x >> 8u32) & 0xFF) as u8);
    v.push(((x >> 16u32) & 0xFF) as u8);
    v.push(((x >> 24u32) & 0xFF) as u8);
    proof {
        assert(v@ =~= old(v)@ + spec_word_bytes(x));
    }
}

impl FileCaps {
    /// Well-formedness: both embedded capability sets are well formed.
    pub open spec fn wf(self) -> bool {
        self.permitted.wf() && self.inheritable.wf()
    }

    /// Construct an empty `FileCaps` object.
    pub fn empty() -> (r: Self)
        ensures
            !r.effective,
            r.permitted.bits() == 0,
            r.inheritable.bits() == 0,
            r.rootid is None,
            r.wf(),
    {
        Self {
            effective: false,
            permitted: CapSet::empty(),
            inheritable: CapSet::empty(),
            rootid: None,
        }
    }

    /// From the raw data of the `security.capability` extended attribute of
    /// a file, construct a new `FileCaps` object representing the same data.
    ///
    /// Succeeds exactly on the well-formed byte layouts and yields exactly
    /// their decoding; every malformed input is reported as invalid, with no
    /// partial result.
    pub fn unpack_attrs(attrs: &[u8]) -> (r: Result<Self, Error>)
        ensures
            r matches Ok(fc) ==> decode_spec(attrs@) == Some(fc) && fc.wf(),
            r matches Err(e) ==> decode_spec(attrs@) is None && e.spec_code() == EINVAL,
    {
        let len = attrs.len();

        if len < 4 {
            return Err(Error::from_code(EINVAL));
        }
        let magic = read_le32(attrs, 0);
        let version = magic & VFS_CAP_REVISION_MASK;
        let flags = magic & VFS_CAP_FLAGS_MASK;

        let effective = (flags & VFS_CAP_FLAGS_EFFECTIVE) != 0;

        if version == VFS_CAP_REVISION_2 && len == XATTR_CAPS_SZ_2 {
            let permitted = CapSet::from_bitmasks_u32(read_le32(attrs, 4), read_le32(attrs, 12));
            let inheritable = CapSet::from_bitmasks_u32(read_le32(attrs, 8), read_le32(attrs, 16));
            proof {
                CapSet::lemma_bits_inj(
                    permitted,
                    CapSet::from_bits(spec_combine(spec_le32(attrs@, 4), spec_le32(attrs@, 12))),
                );
                CapSet::lemma_bits_inj(
                    inheritable,
                    CapSet::from_bits(spec_combine(spec_le32(attrs@, 8), spec_le32(attrs@, 16))),
                );
            }
            Ok(FileCaps { effective, permitted, inheritable, rootid: None })
        } else if version == VFS_CAP_REVISION_3 && len == XATTR_CAPS_SZ_3 {
            let permitted = CapSet::from_bitmasks_u32(read_le32(attrs, 4), read_le32(attrs, 12));
            let inheritable = CapSet::from_bitmasks_u32(read_le32(attrs, 8), read_le32(attrs, 16));
            proof {
                CapSet::lemma_bits_inj(
                    permitted,
                    CapSet::from_bits(spec_combine(spec_le32(attrs@, 4), spec_le32(attrs@, 12))),
                );
                CapSet::lemma_bits_inj(
                    inheritable,
                    CapSet::from_bits(spec_combine(spec_le32(attrs@, 8), spec_le32(attrs@, 16))),
                );
            }
            Ok(
                FileCaps {
                    effective,
                    permitted,
                    inheritable,
                    rootid: Some(read_le32(attrs, 20)),
                },
            )
        } else if version == VFS_CAP_REVISION_1 && len == XATTR_CAPS_SZ_1 {
            let permitted = CapSet::from_bitmask_truncate(read_le32(attrs, 4) as u64);
            let inheritable = CapSet::from_bitmask_truncate(read_le32(attrs, 8) as u64);
            proof {
                CapSet::lemma_bits_inj(
                    permitted,
                    CapSet::from_bits((spec_le32(attrs@, 4) as u64) & CAP_BITMASK),
                );
                CapSet::lemma_bits_inj(
                    inheritable,
                    CapSet::from_bits((spec_le32(attrs@, 8) as u64) & CAP_BITMASK),
                );
            }
            Ok(FileCaps { effective, permitted, inheritable, rootid: None })
        } else {
            Err(Error::from_code(EINVAL))
        }
    }

    /// "Pack" the file capabilities represented by this object: convert it
    /// to the raw binary data as stored in the extended attribute.
    ///
    /// This is the reverse of [`FileCaps::unpack_attrs`]: "packing" an
    /// object and then "unpacking" the bytes always returns an equal object
    /// (see [`lemma_encode_decode`]). The reverse does not always hold:
    /// version 1 attributes can be unpacked, but they are packed as version
    /// 2, so the binary data differs.
    pub fn pack_attrs(&self) -> (r: Vec<u8>)
        ensures
            r@ == encode_spec(*self),
    {
        let version = if self.rootid.is_some() {
            VFS_CAP_REVISION_3
        } else {
            VFS_CAP_REVISION_2
        };
        let magic = if self.effective {
            version | VFS_CAP_FLAGS_EFFECTIVE
        } else {
            version
        };

        proof {
            lemma_width_bounds(self.permitted.bits(), 0);
            lemma_width_bounds(self.inheritable.bits(), 0);
        }

        let mut buf: Vec<u8> = Vec::new();
        push_le32(&mut buf, magic);
        push_le32(&mut buf, (self.permitted.bitmask() & 0xFFFF_FFFF) as u32);
        push_le32(&mut buf, (self.inheritable.bitmask() & 0xFFFF_FFFF) as u32);
        push_le32(&mut buf, ((self.permitted.bitmask() >> 32u64) & 0xFFFF_FFFF) as u32);
        push_le32(&mut buf, ((self.inheritable.bitmask() >> 32u64) & 0xFFFF_FFFF) as u32);
        match self.rootid {
            Some(rid) => {
                push_le32(&mut buf, rid);
            },
            None => {},
        }
        proof {
            assert(buf@ =~= encode_spec(*self));
        }
        buf
    }
}

/// Law: decoding what encoding produced yields the encoded record; the codec
/// round-trips every well-formed record.
pub proof fn lemma_encode_decode(fc: FileCaps)
    requires
        fc.wf(),
    ensures
        decode_spec(encode_spec(fc)) == Some(fc),
{
    let s = encode_spec(fc);
    let version = if fc.rootid is Some {
        VFS_CAP_REVISION_3
    } else {
        VFS_CAP_REVISION_2
    };
    let magic = if fc.effective {
        version | VFS_CAP_FLAGS_EFFECTIVE
    } else {
        version
    };
    let p = fc.permitted.bits();
    let i = fc.inheritable.bits();
    let w0 = spec_word_bytes(magic);
    let w1 = spec_word_bytes((p & 0xFFFF_FFFF) as u32);
    let w2 = spec_word_bytes((i & 0xFFFF_FFFF) as u32);
    let w3 = spec_word_bytes(((p >> 32u64) & 0xFFFF_FFFF) as u32);
    let w4 = spec_word_bytes(((i >> 32u64) & 0xFFFF_FFFF) as u32);

    lemma_word_roundtrip(magic);
    lemma_word_roundtrip((p & 0xFFFF_FFFF) as u32);
    lemma_word_roundtrip((i & 0xFFFF_FFFF) as u32);
    lemma_word_roundtrip(((p >> 32u64) & 0xFFFF_FFFF) as u32);
    lemma_word_roundtrip(((i >> 32u64) & 0xFFFF_FFFF) as u32);
    lemma_magic_fields();
    lemma_split_combine(p);
    lemma_split_combine(i);

    assert(spec_le32(s, 0) == spec_le32(w0, 0));
    assert(spec_le32(s, 4) == spec_le32(w1, 0));
    assert(spec_le32(s, 8) == spec_le32(w2, 0));
    assert(spec_le32(s, 12) == spec_le32(w3, 0));
    assert(spec_le32(s, 16) == spec_le32(w4, 0));

    CapSet::lemma_bits_inj(
        CapSet::from_bits(spec_combine(spec_le32(s, 4), spec_le32(s, 12))),
        fc.permitted,
    );
    CapSet::lemma_bits_inj(
        CapSet::from_bits(spec_combine(spec_le32(s, 8), spec_le32(s, 16))),
        fc.inheritable,
    );
    match fc.rootid {
        Some(rid) => {
            lemma_word_roundtrip(rid);
            assert(spec_le32(s, 20) == spec_le32(spec_word_bytes(rid), 0));
            assert(decode_spec(s) == Some(fc));
        },
        None => {
            assert(decode_spec(s) == Some(fc));
        },
    }
}

} // verus!
