//! Key transport and the persisted byte layout.
//!
//! A validated request is handed to the SEV-SNP guest firmware, which
//! answers with exactly 32 key bytes or refuses. The persisted form of the
//! key is fixed here byte for byte: an 8-byte little-endian length field
//! holding 32, followed by the 32 raw key bytes. That length prefix is a
//! deliberate format break from key files holding the bare 32 key bytes
//! and nothing else: such a file is not in this layout, and a loader that
//! strips the prefix does not recover a key from it.

use vstd::prelude::*;

use crate::request::DerivationRequest;
use crate::request::RootKeyKind;

verus! {

/// Failure of the hardware key-derivation exchange.
#[derive(Clone, Copy, Debug, PartialEq, Eq, Structural)]
pub enum DeriveError {
    /// No handle to the firmware key-derivation interface could be opened,
    /// e.g. outside a supported confidential-computing guest.
    FirmwareUnavailable,
    /// The firmware refused the request, e.g. an SVN or TCB constraint.
    DerivationRejected,
}

/// The number of bytes of a derived key.
pub const KEY_LEN: usize = 32;

/// A derived key: 32 opaque bytes returned by the firmware, treated as an
/// atomic secret with no internal structure.
pub struct DerivedKey {
    bytes: Vec<u8>,
}

impl View for DerivedKey {
    type V = Seq<u8>;

    closed spec fn view(&self) -> Seq<u8> {
        self.bytes@
    }
}

impl DerivedKey {
    /// A key always holds exactly 32 bytes.
    pub open spec fn well_formed(self) -> bool {
        self@.len() == KEY_LEN
    }

    /// Wraps 32 raw key bytes; anything of another length is refused.
    pub fn from_bytes(bytes: Vec<u8>) -> (r: Option<DerivedKey>)
        ensures
            bytes@.len() == KEY_LEN ==> (r matches Some(k) && k@ == bytes@ && k.well_formed()),
            bytes@.len() != KEY_LEN ==> r is None,
    {
        if bytes.len() == KEY_LEN {
            Some(DerivedKey { bytes })
        } else {
            None
        }
    }

    /// The raw key bytes.
    pub fn as_bytes(&self) -> (r: &Vec<u8>)
        ensures
            r@ == self@,
    {
        &self.bytes
    }
}

/// Issues a derivation request to the SEV-SNP guest firmware.
///
/// Relies on sev's `Firmware::open`, which opens a handle to the guest
/// device and fails where none is available, and `Firmware::get_derived_key`,
/// which exchanges the request for exactly 32 key bytes or a refusal. The
/// root key is selected as the interface defines it: false for VCEK, true
/// for VMRK.
#[verifier::external_body]
fn firmware_derive(
    root_key_select: bool,
    field_mask: u64,
    vmpl: u32,
    guest_svn: u32,
    tcb_version: u64,
) -> (r: Result<Vec<u8>, DeriveError>)
    ensures
        r matches Ok(key) ==> key@.len() == KEY_LEN,
{
    let select = sev::firmware::guest::GuestFieldSelect(field_mask);
    let request = sev::firmware::guest::DerivedKey::new(
        root_key_select, select, vmpl, guest_svn, tcb_version, None,
    );
    let mut fw = match sev::firmware::guest::Firmware::open() {
        Ok(fw) => fw,
        Err(_) => return Err(DeriveError::FirmwareUnavailable),
    };
    match fw.get_derived_key(Some(1), request) {
        Ok(key) => Ok(key.to_vec()),
        Err(_) => Err(DeriveError::DerivationRejected),
    }
}

/// The root-key selector bit as the firmware interface defines it:
/// 0 (false) selects VCEK, 1 (true) selects VMRK.
pub fn root_key_select_bit(kind: RootKeyKind) -> (b: bool)
    ensures
        b == (kind == RootKeyKind::Vmrk),
{
    match kind {
        RootKeyKind::Vcek => false,
        RootKeyKind::Vmrk => true,
    }
}

/// Hands a validated request to the firmware and returns the derived key.
///
/// Whether the exchange succeeds is the hardware's decision: a missing
/// device fails with `FirmwareUnavailable`, a refused request with
/// `DerivationRejected`. Whatever comes back, a key that is returned holds
/// exactly 32 bytes. No retry is made: repeating an identical request
/// cannot change the outcome.
pub fn derive(request: &DerivationRequest) -> (r: Result<DerivedKey, DeriveError>)
    requires
        request.well_formed(),
    ensures
        r matches Ok(key) ==> key.well_formed(),
{
    let bytes = match firmware_derive(
        root_key_select_bit(request.root_key_kind),
        request.field_mask,
        request.privilege_level,
        request.guest_svn,
        request.tcb_version,
    ) {
        Ok(bytes) => bytes,
        Err(e) => {
            return Err(e);
        },
    };
    Ok(DerivedKey { bytes })
}

/// The eight bytes of `n` in little-endian order.
pub open spec fn le_u64_bytes(n: u64) -> Seq<u8> {
    seq![
        (n & 0xff) as u8,
        ((n >> 8) & 0xff) as u8,
        ((n >> 16) & 0xff) as u8,
        ((n >> 24) & 0xff) as u8,
        ((n >> 32) & 0xff) as u8,
        ((n >> 40) & 0xff) as u8,
        ((n >> 48) & 0xff) as u8,
        ((n >> 56) & 0xff) as u8,
    ]
}

/// The persisted form of a byte string: its length as a fixed-width
/// little-endian 8-byte field, followed by the bytes themselves.
pub open spec fn encoded_bytes(data: Seq<u8>) -> Seq<u8> {
    le_u64_bytes(data.len() as u64) + data
}

/// Serializes a byte vector into its persisted form.
///
/// Relies on bincode's `serialize` under its default fixed-width
/// little-endian configuration: a byte vector is written as its length as a
/// little-endian u64 followed by the raw bytes, and writing into the
/// returned in-memory buffer cannot fail.
#[verifier::external_body]
fn bincode_encode_bytes(data: &Vec<u8>) -> (r: Vec<u8>)
    ensures
        r@ == encoded_bytes(data@),
{
    match bincode::serialize(data) {
        Ok(out) => out,
        // dead: serializing bytes into memory with no size limit cannot fail
        Err(_) => Vec::new(),
    }
}

/// The exact bytes under which a key is persisted: an 8-byte little-endian
/// length field holding 32, then the 32 raw key bytes. A file holding a
/// persisted key consists of these 40 bytes and nothing else.
pub fn encode_key(key: &DerivedKey) -> (r: Vec<u8>)
    requires
        key.well_formed(),
    ensures
        r@ == encoded_bytes(key@),
        r@.len() == 40,
{
    bincode_encode_bytes(key.as_bytes())
}

/// Law: persisting and then loading gives the key back bit for bit. The
/// load is verbatim, so what it returns is exactly the encoded form; that
/// form holds the key unchanged after its fixed 8-byte length prefix, and
/// the prefix itself is the little-endian length 32.
pub proof fn lemma_encode_load_round_trip(key: Seq<u8>)
    requires
        key.len() == KEY_LEN,
    ensures
        encoded_bytes(key).len() == 40,
        encoded_bytes(key).subrange(8, 40) == key,
        encoded_bytes(key).subrange(0, 8) == le_u64_bytes(32),
{
    assert(encoded_bytes(key).subrange(8, 40) =~= key);
    assert(encoded_bytes(key).subrange(0, 8) =~= le_u64_bytes(32));
}

} // verus!
