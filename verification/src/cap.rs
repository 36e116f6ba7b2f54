//! The capability catalog: a fixed, ordered, append-only enumeration of
//! Linux capabilities, each with a stable bit position.

use vstd::prelude::*;

verus! {

/// The number of capabilities in the catalog. Bit positions are an ABI
/// contract with the kernel: new capabilities are only ever appended.
pub const NUM_CAPS: u8 = 41;

/// Bitmask with one bit set for every valid capability position,
/// i.e. the low `NUM_CAPS` bits of a `u64`.
pub const CAP_BITMASK: u64 = 0x1FF_FFFF_FFFFu64;

/// A Linux capability: a named, independently grantable unit of
/// kernel-enforced privilege, identified by a fixed bit position.
#[allow(non_camel_case_types)]
#[derive(Clone, Copy, Debug, PartialEq, Eq, Hash, Structural)]
pub enum Cap {
    CHOWN,
    DAC_OVERRIDE,
    DAC_READ_SEARCH,
    FOWNER,
    FSETID,
    KILL,
    SETGID,
    SETUID,
    SETPCAP,
    LINUX_IMMUTABLE,
    NET_BIND_SERVICE,
    NET_BROADCAST,
    NET_ADMIN,
    NET_RAW,
    IPC_LOCK,
    IPC_OWNER,
    SYS_MODULE,
    SYS_RAWIO,
    SYS_CHROOT,
    SYS_PTRACE,
    SYS_PACCT,
    SYS_ADMIN,
    SYS_BOOT,
    SYS_NICE,
    SYS_RESOURCE,
    SYS_TIME,
    SYS_TTY_CONFIG,
    MKNOD,
    LEASE,
    AUDIT_WRITE,
    AUDIT_CONTROL,
    SETFCAP,
    MAC_OVERRIDE,
    MAC_ADMIN,
    SYSLOG,
    WAKE_ALARM,
    BLOCK_SUSPEND,
    AUDIT_READ,
    PERFMON,
    BPF,
    CHECKPOINT_RESTORE,
}

impl Cap {
    /// The bit position of this capability.
    pub open spec fn spec_index(self) -> u64 {
        match self {
            Cap::CHOWN => 0,
            Cap::DAC_OVERRIDE => 1,
            Cap::DAC_READ_SEARCH => 2,
            Cap::FOWNER => 3,
            Cap::FSETID => 4,
            Cap::KILL => 5,
            Cap::SETGID => 6,
            Cap::SETUID => 7,
            Cap::SETPCAP => 8,
            Cap::LINUX_IMMUTABLE => 9,
            Cap::NET_BIND_SERVICE => 10,
            Cap::NET_BROADCAST => 11,
            Cap::NET_ADMIN => 12,
            Cap::NET_RAW => 13,
            Cap::IPC_LOCK => 14,
            Cap::IPC_OWNER => 15,
            Cap::SYS_MODULE => 16,
            Cap::SYS_RAWIO => 17,
            Cap::SYS_CHROOT => 18,
            Cap::SYS_PTRACE => 19,
            Cap::SYS_PACCT => 20,
            Cap::SYS_ADMIN => 21,
            Cap::SYS_BOOT => 22,
            Cap::SYS_NICE => 23,
            Cap::SYS_RESOURCE => 24,
            Cap::SYS_TIME => 25,
            Cap::SYS_TTY_CONFIG => 26,
            Cap::MKNOD => 27,
            Cap::LEASE => 28,
            Cap::AUDIT_WRITE => 29,
            Cap::AUDIT_CONTROL => 30,
            Cap::SETFCAP => 31,
            Cap::MAC_OVERRIDE => 32,
            Cap::MAC_ADMIN => 33,
            Cap::SYSLOG => 34,
            Cap::WAKE_ALARM => 35,
            Cap::BLOCK_SUSPEND => 36,
            Cap::AUDIT_READ => 37,
            Cap::PERFMON => 38,
            Cap::BPF => 39,
            Cap::CHECKPOINT_RESTORE => 40,
        }
    }

    /// The bit position of this capability, as an executable value.
    pub fn index(self) -> (r: u8)
        ensures
            r as u64 == self.spec_index(),
            r < NUM_CAPS,
    {
        match self {
            Cap::CHOWN => 0,
            Cap::DAC_OVERRIDE => 1,
            Cap::DAC_READ_SEARCH => 2,
            Cap::FOWNER => 3,
            Cap::FSETID => 4,
            Cap::KILL => 5,
            Cap::SETGID => 6,
            Cap::SETUID => 7,
            Cap::SETPCAP => 8,
            Cap::LINUX_IMMUTABLE => 9,
            Cap::NET_BIND_SERVICE => 10,
            Cap::NET_BROADCAST => 11,
            Cap::NET_ADMIN => 12,
            Cap::NET_RAW => 13,
            Cap::IPC_LOCK => 14,
            Cap::IPC_OWNER => 15,
            Cap::SYS_MODULE => 16,
            Cap::SYS_RAWIO => 17,
            Cap::SYS_CHROOT => 18,
            Cap::SYS_PTRACE => 19,
            Cap::SYS_PACCT => 20,
            Cap::SYS_ADMIN => 21,
            Cap::SYS_BOOT => 22,
            Cap::SYS_NICE => 23,
            Cap::SYS_RESOURCE => 24,
            Cap::SYS_TIME => 25,
            Cap::SYS_TTY_CONFIG => 26,
            Cap::MKNOD => 27,
            Cap::LEASE => 28,
            Cap::AUDIT_WRITE => 29,
            Cap::AUDIT_CONTROL => 30,
            Cap::SETFCAP => 31,
            Cap::MAC_OVERRIDE => 32,
            Cap::MAC_ADMIN => 33,
            Cap::SYSLOG => 34,
            Cap::WAKE_ALARM => 35,
            Cap::BLOCK_SUSPEND => 36,
            Cap::AUDIT_READ => 37,
            Cap::PERFMON => 38,
            Cap::BPF => 39,
            Cap::CHECKPOINT_RESTORE => 40,
        }
    }

    /// A bitmask with exactly this capability's bit set.
    pub fn to_single_bitfield(self) -> (r: u64)
        ensures
            r == 1u64 << self.spec_index(),
    {
        1u64 << (self.index() as u64)
    }

    /// The capability at a given bit position, if the position is valid.
    pub fn from_u8(v: u8) -> (r: Option<Cap>)
        ensures
            r.is_some() == (v < NUM_CAPS),
            r.is_some() ==> r.unwrap() == cap_at(v as u64) && r.unwrap().spec_index() == v as u64,
    {
        if v == 0 {
            Some(Cap::CHOWN)
        } else if v == 1 {
            Some(Cap::DAC_OVERRIDE)
        } else if v == 2 {
            Some(Cap::DAC_READ_SEARCH)
        } else if v == 3 {
            Some(Cap::FOWNER)
        } else if v == 4 {
            Some(Cap::FSETID)
        } else if v == 5 {
            Some(Cap::KILL)
        } else if v == 6 {
            Some(Cap::SETGID)
        } else if v == 7 {
            Some(Cap::SETUID)
        } else if v == 8 {
            Some(Cap::SETPCAP)
        } else if v == 9 {
            Some(Cap::LINUX_IMMUTABLE)
        } else if v == 10 {
            Some(Cap::NET_BIND_SERVICE)
        } else if v == 11 {
            Some(Cap::NET_BROADCAST)
        } else if v == 12 {
            Some(Cap::NET_ADMIN)
        } else if v == 13 {
            Some(Cap::NET_RAW)
        } else if v == 14 {
            Some(Cap::IPC_LOCK)
        } else if v == 15 {
            Some(Cap::IPC_OWNER)
        } else if v == 16 {
            Some(Cap::SYS_MODULE)
        } else if v == 17 {
            Some(Cap::SYS_RAWIO)
        } else if v == 18 {
            Some(Cap::SYS_CHROOT)
        } else if v == 19 {
            Some(Cap::SYS_PTRACE)
        } else if v == 20 {
            Some(Cap::SYS_PACCT)
        } else if v == 21 {
            Some(Cap::SYS_ADMIN)
        } else if v == 22 {
            Some(Cap::SYS_BOOT)
        } else if v == 23 {
            Some(Cap::SYS_NICE)
        } else if v == 24 {
            Some(Cap::SYS_RESOURCE)
        } else if v == 25 {
            Some(Cap::SYS_TIME)
        } else if v == 26 {
            Some(Cap::SYS_TTY_CONFIG)
        } else if v == 27 {
            Some(Cap::MKNOD)
        } else if v == 28 {
            Some(Cap::LEASE)
        } else if v == 29 {
            Some(Cap::AUDIT_WRITE)
        } else if v == 30 {
            Some(Cap::AUDIT_CONTROL)
        } else if v == 31 {
            Some(Cap::SETFCAP)
        } else if v == 32 {
            Some(Cap::MAC_OVERRIDE)
        } else if v == 33 {
            Some(Cap::MAC_ADMIN)
        } else if v == 34 {
            Some(Cap::SYSLOG)
        } else if v == 35 {
            Some(Cap::WAKE_ALARM)
        } else if v == 36 {
            Some(Cap::BLOCK_SUSPEND)
        } else if v == 37 {
            Some(Cap::AUDIT_READ)
        } else if v == 38 {
            Some(Cap::PERFMON)
        } else if v == 39 {
            Some(Cap::BPF)
        } else if v == 40 {
            Some(Cap::CHECKPOINT_RESTORE)
        } else {
            None
        }
    }

    /// The display name of this capability.
    pub open spec fn spec_name(self) -> Seq<char> {
        match self {
            Cap::CHOWN => "CHOWN"@,
            Cap::DAC_OVERRIDE => "DAC_OVERRIDE"@,
            Cap::DAC_READ_SEARCH => "DAC_READ_SEARCH"@,
            Cap::FOWNER => "FOWNER"@,
            Cap::FSETID => "FSETID"@,
            Cap::KILL => "KILL"@,
            Cap::SETGID => "SETGID"@,
            Cap::SETUID => "SETUID"@,
            Cap::SETPCAP => "SETPCAP"@,
            Cap::LINUX_IMMUTABLE => "LINUX_IMMUTABLE"@,
            Cap::NET_BIND_SERVICE => "NET_BIND_SERVICE"@,
            Cap::NET_BROADCAST => "NET_BROADCAST"@,
            Cap::NET_ADMIN => "NET_ADMIN"@,
            Cap::NET_RAW => "NET_RAW"@,
            Cap::IPC_LOCK => "IPC_LOCK"@,
            Cap::IPC_OWNER => "IPC_OWNER"@,
            Cap::SYS_MODULE => "SYS_MODULE"@,
            Cap::SYS_RAWIO => "SYS_RAWIO"@,
            Cap::SYS_CHROOT => "SYS_CHROOT"@,
            Cap::SYS_PTRACE => "SYS_PTRACE"@,
            Cap::SYS_PACCT => "SYS_PACCT"@,
            Cap::SYS_ADMIN => "SYS_ADMIN"@,
            Cap::SYS_BOOT => "SYS_BOOT"@,
            Cap::SYS_NICE => "SYS_NICE"@,
            Cap::SYS_RESOURCE => "SYS_RESOURCE"@,
            Cap::SYS_TIME => "SYS_TIME"@,
            Cap::SYS_TTY_CONFIG => "SYS_TTY_CONFIG"@,
            Cap::MKNOD => "MKNOD"@,
            Cap::LEASE => "LEASE"@,
            Cap::AUDIT_WRITE => "AUDIT_WRITE"@,
            Cap::AUDIT_CONTROL => "AUDIT_CONTROL"@,
            Cap::SETFCAP => "SETFCAP"@,
            Cap::MAC_OVERRIDE => "MAC_OVERRIDE"@,
            Cap::MAC_ADMIN => "MAC_ADMIN"@,
            Cap::SYSLOG => "SYSLOG"@,
            Cap::WAKE_ALARM => "WAKE_ALARM"@,
            Cap::BLOCK_SUSPEND => "BLOCK_SUSPEND"@,
            Cap::AUDIT_READ => "AUDIT_READ"@,
            Cap::PERFMON => "PERFMON"@,
            Cap::BPF => "BPF"@,
            Cap::CHECKPOINT_RESTORE => "CHECKPOINT_RESTORE"@,
        }
    }

    /// The display name of this capability, as an executable value.
    pub fn name(self) -> (r: &'static str)
        ensures
            r@ == self.spec_name(),
    {
        match self {
            Cap::CHOWN => "CHOWN",
            Cap::DAC_OVERRIDE => "DAC_OVERRIDE",
            Cap::DAC_READ_SEARCH => "DAC_READ_SEARCH",
            Cap::FOWNER => "FOWNER",
            Cap::FSETID => "FSETID",
            Cap::KILL => "KILL",
            Cap::SETGID => "SETGID",
            Cap::SETUID => "SETUID",
            Cap::SETPCAP => "SETPCAP",
            Cap::LINUX_IMMUTABLE => "LINUX_IMMUTABLE",
            Cap::NET_BIND_SERVICE => "NET_BIND_SERVICE",
            Cap::NET_BROADCAST => "NET_BROADCAST",
            Cap::NET_ADMIN => "NET_ADMIN",
            Cap::NET_RAW => "NET_RAW",
            Cap::IPC_LOCK => "IPC_LOCK",
            Cap::IPC_OWNER => "IPC_OWNER",
            Cap::SYS_MODULE => "SYS_MODULE",
            Cap::SYS_RAWIO => "SYS_RAWIO",
            Cap::SYS_CHROOT => "SYS_CHROOT",
            Cap::SYS_PTRACE => "SYS_PTRACE",
            Cap::SYS_PACCT => "SYS_PACCT",
            Cap::SYS_ADMIN => "SYS_ADMIN",
            Cap::SYS_BOOT => "SYS_BOOT",
            Cap::SYS_NICE => "SYS_NICE",
            Cap::SYS_RESOURCE => "SYS_RESOURCE",
            Cap::SYS_TIME => "SYS_TIME",
            Cap::SYS_TTY_CONFIG => "SYS_TTY_CONFIG",
            Cap::MKNOD => "MKNOD",
            Cap::LEASE => "LEASE",
            Cap::AUDIT_WRITE => "AUDIT_WRITE",
            Cap::AUDIT_CONTROL => "AUDIT_CONTROL",
            Cap::SETFCAP => "SETFCAP",
            Cap::MAC_OVERRIDE => "MAC_OVERRIDE",
            Cap::MAC_ADMIN => "MAC_ADMIN",
            Cap::SYSLOG => "SYSLOG",
            Cap::WAKE_ALARM => "WAKE_ALARM",
            Cap::BLOCK_SUSPEND => "BLOCK_SUSPEND",
            Cap::AUDIT_READ => "AUDIT_READ",
            Cap::PERFMON => "PERFMON",
            Cap::BPF => "BPF",
            Cap::CHECKPOINT_RESTORE => "CHECKPOINT_RESTORE",
        }
    }
}

/// The capability whose bit position is `i` (meaningful for `i < NUM_CAPS`).
pub open spec fn cap_at(i: u64) -> Cap {
    if i == 0 {
        Cap::CHOWN
    } else if i == 1 {
        Cap::DAC_OVERRIDE
    } else if i == 2 {
        Cap::DAC_READ_SEARCH
    } else if i == 3 {
        Cap::FOWNER
    } else if i == 4 {
        Cap::FSETID
    } else if i == 5 {
        Cap::KILL
    } else if i == 6 {
        Cap::SETGID
    } else if i == 7 {
        Cap::SETUID
    } else if i == 8 {
        Cap::SETPCAP
    } else if i == 9 {
        Cap::LINUX_IMMUTABLE
    } else if i == 10 {
        Cap::NET_BIND_SERVICE
    } else if i == 11 {
        Cap::NET_BROADCAST
    } else if i == 12 {
        Cap::NET_ADMIN
    } else if i == 13 {
        Cap::NET_RAW
    } else if i == 14 {
        Cap::IPC_LOCK
    } else if i == 15 {
        Cap::IPC_OWNER
    } else if i == 16 {
        Cap::SYS_MODULE
    } else if i == 17 {
        Cap::SYS_RAWIO
    } else if i == 18 {
        Cap::SYS_CHROOT
    } else if i == 19 {
        Cap::SYS_PTRACE
    } else if i == 20 {
        Cap::SYS_PACCT
    } else if i == 21 {
        Cap::SYS_ADMIN
    } else if i == 22 {
        Cap::SYS_BOOT
    } else if i == 23 {
        Cap::SYS_NICE
    } else if i == 24 {
        Cap::SYS_RESOURCE
    } else if i == 25 {
        Cap::SYS_TIME
    } else if i == 26 {
        Cap::SYS_TTY_CONFIG
    } else if i == 27 {
        Cap::MKNOD
    } else if i == 28 {
        Cap::LEASE
    } else if i == 29 {
        Cap::AUDIT_WRITE
    } else if i == 30 {
        Cap::AUDIT_CONTROL
    } else if i == 31 {
        Cap::SETFCAP
    } else if i == 32 {
        Cap::MAC_OVERRIDE
    } else if i == 33 {
        Cap::MAC_ADMIN
    } else if i == 34 {
        Cap::SYSLOG
    } else if i == 35 {
        Cap::WAKE_ALARM
    } else if i == 36 {
        Cap::BLOCK_SUSPEND
    } else if i == 37 {
        Cap::AUDIT_READ
    } else if i == 38 {
        Cap::PERFMON
    } else if i == 39 {
        Cap::BPF
    } else {
        Cap::CHECKPOINT_RESTORE
    }
}

/// Bit positions determine capabilities uniquely: `cap_at` inverts `spec_index`.
pub proof fn lemma_cap_at_index(c: Cap)
    ensures
        cap_at(c.spec_index()) == c,
        c.spec_index() < NUM_CAPS as u64,
{
}

} // verus!
