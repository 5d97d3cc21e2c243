//! Checks on the DRM lease handed over by Gamescope: the reply that carries
//! the lease fd, and the DRM version query used to verify it.
use vstd::prelude::*;

verus! {

/// Default socket path. Override with `--lease-socket`.
pub const DEFAULT_SOCKET_PATH: &'static str = "/tmp/gamescope-lease.sock";

/// The lease socket to connect to for a `--lease-socket` value: the default
/// path when the value is empty.
pub fn lease_socket_path(arg: &str) -> (r: &str)
    ensures
        r@ == (if arg@.len() == 0 { DEFAULT_SOCKET_PATH@ } else { arg@ }),
{
    if arg.is_empty() {
        DEFAULT_SOCKET_PATH
    } else {
        arg
    }
}

/// Why no lease fd could be taken from Gamescope's reply.
#[derive(Debug, Clone, Copy, PartialEq, Eq)]
pub enum LeaseError {
    /// `recvmsg` failed (the OS error is reported separately).
    Recv,
    /// The peer closed the connection before sending the fd.
    Closed,
    /// The reply carried no control message.
    NoControlMessage,
    /// The control message was not an `SCM_RIGHTS` message at `SOL_SOCKET`.
    UnexpectedControlMessage { level: i32, kind: i32 },
    /// The fd received is negative.
    InvalidFd { fd: i32 },
}

/// The header of the reply's control message: its level and type.
#[derive(Debug, Clone, Copy, PartialEq, Eq)]
pub struct ControlHeader {
    pub level: i32,
    pub kind: i32,
}

/// Check a `recvmsg` reply that returned `n`, with control message header
/// `cmsg` (if any), before the fd it carries is read; `sol_socket` and
/// `scm_rights` are the platform's values of `SOL_SOCKET` and `SCM_RIGHTS`.
pub fn check_lease_reply(n: isize, cmsg: Option<ControlHeader>, sol_socket: i32, scm_rights: i32) -> (r: Result<(), LeaseError>)
    ensures
        n < 0 ==> r == Err::<(), LeaseError>(LeaseError::Recv),
        n == 0 ==> r == Err::<(), LeaseError>(LeaseError::Closed),
        n > 0 ==> r == match cmsg {
            None => Err(LeaseError::NoControlMessage),
            Some(m) => if m.level != sol_socket || m.kind != scm_rights {
                Err(LeaseError::UnexpectedControlMessage { level: m.level, kind: m.kind })
            } else {
                Ok(())
            },
        },
{
    if n < 0 {
        return Err(LeaseError::Recv);
    }
    if n == 0 {
        return Err(LeaseError::Closed);
    }
    let m = match cmsg {
        None => return Err(LeaseError::NoControlMessage),
        Some(m) => m,
    };
    if m.level != sol_socket || m.kind != scm_rights {
        return Err(LeaseError::UnexpectedControlMessage { level: m.level, kind: m.kind });
    }
    Ok(())
}

/// The fd read from an `SCM_RIGHTS` message, refused when negative.
pub fn check_lease_fd(fd: i32) -> (r: Result<i32, LeaseError>)
    ensures
        r == (if fd < 0 {
            Err(LeaseError::InvalidFd { fd })
        } else {
            Ok(fd)
        }),
{
    if fd < 0 {
        return Err(LeaseError::InvalidFd { fd });
    }
    Ok(fd)
}

/// The ioctl type letter of the DRM interface.
pub const DRM_IOCTL_BASE: u64 = 0x64;

/// `DRM_IOCTL_VERSION` for a `struct drm_version` of `size` bytes:
/// `_IOWR('d', 0x00, struct drm_version)`, i.e. direction bits 0xC0 from
/// bit 24, the size from bit 16, the type letter from bit 8, number 0, all in
/// 64-bit arithmetic (bits shifted past the top are lost).
pub fn drm_ioctl_version_nr(size: u64) -> (nr: u64)
    ensures
        nr == (0xC0u64 << 24u64) | (size << 16u64) | (DRM_IOCTL_BASE << 8u64),
        size < 0x4000 ==> nr == 0xC000_0000 + size * 0x1_0000 + DRM_IOCTL_BASE * 0x100,
{
    let nr: u64 = (0xC0 << 24) | (size << 16) | (DRM_IOCTL_BASE << 8) | 0x00;
    assert(nr == (0xC0u64 << 24u64) | (size << 16u64) | (0x64u64 << 8u64)) by (bit_vector)
        requires
            nr == (0xC0u64 << 24u64) | (size << 16u64) | (0x64u64 << 8u64) | 0x00u64,
    ;
    assert(size < 0x4000 ==> nr == 0xC000_0000 + size * 0x1_0000 + 0x6400) by (bit_vector)
        requires
            nr == (0xC0u64 << 24u64) | (size << 16u64) | (0x64u64 << 8u64),
    ;
    nr
}

/// Why a DRM lease cannot be driven.
#[derive(Debug, Clone, Copy, PartialEq, Eq)]
pub enum LeaseLayoutError {
    /// The lease holds no connector or no CRTC.
    NoConnectorOrCrtc,
    /// The leased connector offers no display mode.
    NoModes,
}

/// The lease is usable when it holds at least one connector and one CRTC
/// (the first of each is driven).
pub fn check_lease_resources(n_connectors: usize, n_crtcs: usize) -> (r: Result<(), LeaseLayoutError>)
    ensures
        r == (if n_connectors == 0 || n_crtcs == 0 {
            Err(LeaseLayoutError::NoConnectorOrCrtc)
        } else {
            Ok(())
        }),
{
    if n_connectors == 0 || n_crtcs == 0 {
        Err(LeaseLayoutError::NoConnectorOrCrtc)
    } else {
        Ok(())
    }
}

/// The connector is usable when it offers a mode (the first is used).
pub fn check_connector_modes(n_modes: usize) -> (r: Result<(), LeaseLayoutError>)
    ensures
        r == (if n_modes == 0 {
            Err(LeaseLayoutError::NoModes)
        } else {
            Ok(())
        }),
{
    if n_modes == 0 {
        Err(LeaseLayoutError::NoModes)
    } else {
        Ok(())
    }
}

/// The landscape size the UI is laid out in for a portrait panel mode: the
/// panel's width and height swapped.
pub fn landscape_size(phys_width: u32, phys_height: u32) -> (r: (u32, u32))
    ensures
        r == (phys_height, phys_width),
{
    (phys_height, phys_width)
}

} // verus!
