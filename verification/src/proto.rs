//! The closed set of netlink protocol discriminants.
//!
//! Each variant identifies the kernel subsystem a channel talks to. The
//! numeric codes are wire-stable: they must match the kernel's netlink
//! protocol numbering exactly, because they cross the socket-creation
//! boundary unchanged. Value 1 is reserved by the kernel and has no
//! variant here.

use vstd::prelude::*;

verus! {

/// A netlink protocol discriminant: which kernel subsystem the channel
/// talks to. Purely a tag passed at creation time; message content is
/// never interpreted here.
#[derive(Clone, Copy, Debug, PartialEq, Eq, Structural)]
pub enum NetlinkProtocol {
    /// Routing and link updates (`NETLINK_ROUTE`).
    Route,
    /// User-mode socket protocols (`NETLINK_USERSOCK`).
    Usersock,
    /// The obsolete ip_queue firewall interface (`NETLINK_FIREWALL`).
    Firewall,
    /// Socket monitoring (`NETLINK_SOCK_DIAG`, once `NETLINK_INET_DIAG`).
    InetDiag,
    /// Netfilter ULOG logging (`NETLINK_NFLOG`).
    NFlog,
    /// IPsec transforms (`NETLINK_XFRM`).
    Xfrm,
    /// SELinux event notifications (`NETLINK_SELINUX`).
    SELinux,
    /// Open-iSCSI (`NETLINK_ISCSI`).
    ISCSI,
    /// Auditing (`NETLINK_AUDIT`).
    Audit,
    /// FIB lookup queries (`NETLINK_FIB_LOOKUP`).
    FibLookup,
    /// Kernel connector (`NETLINK_CONNECTOR`).
    Connector,
    /// Netfilter subsystem (`NETLINK_NETFILTER`).
    Netfilter,
    /// The obsolete ip6_queue firewall interface (`NETLINK_IP6_FW`).
    IP6Fw,
    /// DECnet routing messages (`NETLINK_DNRTMSG`).
    Dnrtmsg,
    /// Kernel object uevents to user space (`NETLINK_KOBJECT_UEVENT`).
    KObjectUevent,
    /// Generic netlink (`NETLINK_GENERIC`).
    Generic,
    /// SCSI transports (`NETLINK_SCSITRANSPORT`).
    SCSItransport,
    /// eCryptfs (`NETLINK_ECRYPTFS`).
    Ecryptfs,
    /// Infiniband RDMA (`NETLINK_RDMA`).
    Rdma,
    /// Kernel crypto API queries (`NETLINK_CRYPTO`).
    Crypto,
}

impl NetlinkProtocol {
    /// The wire-stable numeric code of each discriminant, exactly as the
    /// kernel numbers the netlink protocol families.
    pub open spec fn spec_code(self) -> int {
        match self {
            NetlinkProtocol::Route => 0,
            NetlinkProtocol::Usersock => 2,
            NetlinkProtocol::Firewall => 3,
            NetlinkProtocol::InetDiag => 4,
            NetlinkProtocol::NFlog => 5,
            NetlinkProtocol::Xfrm => 6,
            NetlinkProtocol::SELinux => 7,
            NetlinkProtocol::ISCSI => 8,
            NetlinkProtocol::Audit => 9,
            NetlinkProtocol::FibLookup => 10,
            NetlinkProtocol::Connector => 11,
            NetlinkProtocol::Netfilter => 12,
            NetlinkProtocol::IP6Fw => 13,
            NetlinkProtocol::Dnrtmsg => 14,
            NetlinkProtocol::KObjectUevent => 15,
            NetlinkProtocol::Generic => 16,
            NetlinkProtocol::SCSItransport => 18,
            NetlinkProtocol::Ecryptfs => 19,
            NetlinkProtocol::Rdma => 20,
            NetlinkProtocol::Crypto => 21,
        }
    }

    /// Returns the numeric protocol code passed to the OS socket-creation
    /// call.
    pub fn code(self) -> (c: i32)
        ensures
            c as int == self.spec_code(),
            0 <= c <= 21,
            c != 1,
    {
        match self {
            NetlinkProtocol::Route => 0,
            NetlinkProtocol::Usersock => 2,
            NetlinkProtocol::Firewall => 3,
            NetlinkProtocol::InetDiag => 4,
            NetlinkProtocol::NFlog => 5,
            NetlinkProtocol::Xfrm => 6,
            NetlinkProtocol::SELinux => 7,
            NetlinkProtocol::ISCSI => 8,
            NetlinkProtocol::Audit => 9,
            NetlinkProtocol::FibLookup => 10,
            NetlinkProtocol::Connector => 11,
            NetlinkProtocol::Netfilter => 12,
            NetlinkProtocol::IP6Fw => 13,
            NetlinkProtocol::Dnrtmsg => 14,
            NetlinkProtocol::KObjectUevent => 15,
            NetlinkProtocol::Generic => 16,
            NetlinkProtocol::SCSItransport => 18,
            NetlinkProtocol::Ecryptfs => 19,
            NetlinkProtocol::Rdma => 20,
            NetlinkProtocol::Crypto => 21,
        }
    }
}

} // verus!
