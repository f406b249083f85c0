//! Validation of caller input and construction of the hardware request.
//!
//! Every parameter is checked against the hardware's accepted domain before
//! any firmware interaction: the root-key selector must be one of the two
//! known tokens, the privilege level must lie in `[0, 3]`, and the guest
//! field-selection mask must be a binary string whose value fits in six bits.

use vstd::prelude::*;

verus! {

/// Which hardware root key seeds the derivation.
#[derive(Clone, Copy, Debug, PartialEq, Eq, Structural)]
pub enum RootKeyKind {
    /// Versioned Chip Endorsement Key, tied to the firmware version.
    Vcek,
    /// Virtual Machine Root Key, tied to the guest instance.
    Vmrk,
}

/// Rejection of caller input, detected before any firmware interaction.
#[derive(Clone, Copy, Debug, PartialEq, Eq, Structural)]
pub enum ValidationError {
    /// The root-key selector is neither "vcek" nor "vmrk" (case-insensitive).
    InvalidRootKeySelector,
    /// The privilege level lies outside `[0, 3]`.
    PrivilegeLevelOutOfRange,
    /// The field-selection mask is not a binary numeral with value at most 63.
    InvalidFieldMask,
}

/// True when `s` spells "vcek", ignoring ASCII case.
pub open spec fn is_vcek_token(s: Seq<char>) -> bool {
    &&& s.len() == 4
    &&& (s[0] == 'v' || s[0] == 'V')
    &&& (s[1] == 'c' || s[1] == 'C')
    &&& (s[2] == 'e' || s[2] == 'E')
    &&& (s[3] == 'k' || s[3] == 'K')
}

/// True when `s` spells "vmrk", ignoring ASCII case.
pub open spec fn is_vmrk_token(s: Seq<char>) -> bool {
    &&& s.len() == 4
    &&& (s[0] == 'v' || s[0] == 'V')
    &&& (s[1] == 'm' || s[1] == 'M')
    &&& (s[2] == 'r' || s[2] == 'R')
    &&& (s[3] == 'k' || s[3] == 'K')
}

/// Maps the caller's root-key selector to the root key it names.
///
/// The two accepted tokens are "vcek" and "vmrk", compared ignoring ASCII
/// case; every other string is rejected.
pub fn select_root_key(s: &str) -> (r: Result<RootKeyKind, ValidationError>)
    ensures
        r == (if is_vcek_token(s@) {
            Ok::<RootKeyKind, ValidationError>(RootKeyKind::Vcek)
        } else if is_vmrk_token(s@) {
            Ok::<RootKeyKind, ValidationError>(RootKeyKind::Vmrk)
        } else {
            Err::<RootKeyKind, ValidationError>(ValidationError::InvalidRootKeySelector)
        }),
{
    if s.unicode_len() != 4 {
        return Err(ValidationError::InvalidRootKeySelector);
    }
    let c0 = s.get_char(0);
    let c1 = s.get_char(1);
    let c2 = s.get_char(2);
    let c3 = s.get_char(3);
    if (c0 == 'v' || c0 == 'V') && (c3 == 'k' || c3 == 'K') {
        if (c1 == 'c' || c1 == 'C') && (c2 == 'e' || c2 == 'E') {
            return Ok(RootKeyKind::Vcek);
        }
        if (c1 == 'm' || c1 == 'M') && (c2 == 'r' || c2 == 'R') {
            return Ok(RootKeyKind::Vmrk);
        }
    }
    Err(ValidationError::InvalidRootKeySelector)
}

/// Checks the guest privilege level against the hardware's accepted range.
///
/// Levels 0 through 3 pass through unchanged; anything above is rejected.
/// An absent level defaults to 1.
pub fn validate_privilege_level(vmpl: Option<u32>) -> (r: Result<u32, ValidationError>)
    ensures
        r == (match vmpl {
            Some(level) => if level <= 3 {
                Ok::<u32, ValidationError>(level)
            } else {
                Err::<u32, ValidationError>(ValidationError::PrivilegeLevelOutOfRange)
            },
            None => Ok::<u32, ValidationError>(1u32),
        }),
{
    match vmpl {
        Some(level) => {
            if level <= 3 {
                Ok(level)
            } else {
                Err(ValidationError::PrivilegeLevelOutOfRange)
            }
        },
        None => Ok(1),
    }
}

/// True when `c` is a binary digit.
pub open spec fn is_binary_digit(c: char) -> bool {
    c == '0' || c == '1'
}

/// The numeric value of one binary digit.
pub open spec fn bit_value(c: char) -> nat {
    if c == '1' {
        1
    } else {
        0
    }
}

/// True when `s` is a non-empty string of binary digits.
pub open spec fn is_binary_string(s: Seq<char>) -> bool {
    s.len() > 0 && (forall|i: int| 0 <= i < s.len() ==> is_binary_digit(#[trigger] s[i]))
}

/// The value of `s` read as a base-2 numeral, most significant digit first.
pub open spec fn binary_value(s: Seq<char>) -> nat
    decreases s.len(),
{
    if s.len() == 0 {
        0
    } else {
        binary_value(s.drop_last()) * 2 + bit_value(s.last())
    }
}

/// A longer prefix of a binary numeral never has a smaller value.
proof fn lemma_binary_value_prefix_le(s: Seq<char>, i: int)
    requires
        0 <= i <= s.len(),
    ensures
        binary_value(s.take(i)) <= binary_value(s),
    decreases s.len() - i,
{
    if i == s.len() {
        assert(s.take(i) =~= s);
    } else {
        assert(s.take(i + 1).drop_last() =~= s.take(i));
        assert(binary_value(s.take(i)) <= binary_value(s.take(i + 1)));
        lemma_binary_value_prefix_le(s, i + 1);
    }
}

/// Parses the guest field-selection mask.
///
/// The mask arrives as a string of binary digits, read base-2 with the most
/// significant digit first; its value must fit in the six mask bits, so at
/// most 63. An empty string, a non-binary character, or a value above 63 is
/// rejected. An absent mask defaults to 0: no field is included.
pub fn parse_field_mask(gfs: Option<&str>) -> (r: Result<u64, ValidationError>)
    ensures
        r == (match gfs {
            Some(s) => if is_binary_string(s@) && binary_value(s@) <= 63 {
                Ok::<u64, ValidationError>(binary_value(s@) as u64)
            } else {
                Err::<u64, ValidationError>(ValidationError::InvalidFieldMask)
            },
            None => Ok::<u64, ValidationError>(0u64),
        }),
{
    let s = match gfs {
        Some(s) => s,
        None => {
            return Ok(0);
        },
    };
    let n = s.unicode_len();
    if n == 0 {
        return Err(ValidationError::InvalidFieldMask);
    }
    let mut value: u64 = 0;
    let mut i: usize = 0;
    while i < n
        invariant
            gfs matches Some(t) && t@ == s@,
            n == s@.len(),
            0 <= i <= n,
            forall|j: int| 0 <= j < i ==> is_binary_digit(#[trigger] s@[j]),
            value == binary_value(s@.take(i as int)),
            value <= 63,
        decreases n - i,
    {
        let c = s.get_char(i);
        if c != '0' && c != '1' {
            proof {
                assert(!is_binary_digit(s@[i as int]));
            }
            return Err(ValidationError::InvalidFieldMask);
        }
        let bit: u64 = if c == '1' {
            1
        } else {
            0
        };
        proof {
            assert(s@.take(i + 1).drop_last() =~= s@.take(i as int));
            assert(s@.take(i + 1).last() == s@[i as int]);
        }
        if value > 31 {
            proof {
                lemma_binary_value_prefix_le(s@, i + 1);
            }
            return Err(ValidationError::InvalidFieldMask);
        }
        value = value * 2 + bit;
        i = i + 1;
    }
    proof {
        assert(s@.take(n as int) =~= s@);
    }
    Ok(value)
}

/// Returns the value when one was given, and the fallback otherwise.
///
/// The optional numeric inputs (guest SVN, TCB version) default silently;
/// their range checks against launch-time values are the firmware's business,
/// not performed here.
pub fn default_or<T>(value: Option<T>, fallback: T) -> (r: T)
    ensures
        r == (match value {
            Some(v) => v,
            None => fallback,
        }),
{
    match value {
        Some(v) => v,
        None => fallback,
    }
}

/// The raw caller input: a path for the persisted key and the derivation
/// parameters, the optional ones still absent where the caller gave none.
pub struct KeyArgs {
    /// Where the derived key will be saved.
    pub key_path: String,
    /// The root key to derive from: "vcek" or "vmrk", in any case.
    pub root_key_select: String,
    /// The guest privilege level, 0 through 3; absent means 1.
    pub vmpl: Option<u32>,
    /// The guest field-selection mask as a binary string; absent means none.
    pub gfs: Option<String>,
    /// The guest SVN to mix into the key; absent means 0.
    pub gsvn: Option<u32>,
    /// The TCB version to mix into the key; absent means 0.
    pub tcbv: Option<u64>,
}

/// A validated, hardware-ready derivation request.
#[derive(Clone, Copy, Debug, PartialEq, Eq, Structural)]
pub struct DerivationRequest {
    /// Which hardware root key seeds the derivation.
    pub root_key_kind: RootKeyKind,
    /// The guest privilege level the key is scoped to, in `[0, 3]`.
    pub privilege_level: u32,
    /// Which measured fields are mixed into the derivation, in `[0, 63]`.
    pub field_mask: u64,
    /// The security-version number mixed into the derivation.
    pub guest_svn: u32,
    /// The TCB version mixed into the derivation.
    pub tcb_version: u64,
}

impl DerivationRequest {
    /// The ranges the hardware accepts: four privilege levels and six mask bits.
    pub open spec fn well_formed(self) -> bool {
        self.privilege_level <= 3 && self.field_mask <= 63
    }
}

/// Composes already-validated parameters into the immutable request value.
/// Once its inputs have passed validation this cannot fail.
pub fn build(
    root_key_kind: RootKeyKind,
    privilege_level: u32,
    field_mask: u64,
    guest_svn: u32,
    tcb_version: u64,
) -> (r: DerivationRequest)
    requires
        privilege_level <= 3,
        field_mask <= 63,
    ensures
        r == (DerivationRequest {
            root_key_kind,
            privilege_level,
            field_mask,
            guest_svn,
            tcb_version,
        }),
        r.well_formed(),
{
    DerivationRequest { root_key_kind, privilege_level, field_mask, guest_svn, tcb_version }
}

/// What validation yields for given caller input: the first field out of its
/// domain decides the error, fields checked in the order root-key selector,
/// privilege level, field mask; the optional numeric fields default to 0.
pub open spec fn spec_build_request(args: KeyArgs) -> Result<DerivationRequest, ValidationError> {
    if !is_vcek_token(args.root_key_select@) && !is_vmrk_token(args.root_key_select@) {
        Err(ValidationError::InvalidRootKeySelector)
    } else if !(match args.vmpl {
        Some(level) => level <= 3,
        None => true,
    }) {
        Err(ValidationError::PrivilegeLevelOutOfRange)
    } else if !(match args.gfs {
        Some(s) => is_binary_string(s@) && binary_value(s@) <= 63,
        None => true,
    }) {
        Err(ValidationError::InvalidFieldMask)
    } else {
        Ok(
            DerivationRequest {
                root_key_kind: if is_vcek_token(args.root_key_select@) {
                    RootKeyKind::Vcek
                } else {
                    RootKeyKind::Vmrk
                },
                privilege_level: match args.vmpl {
                    Some(level) => level,
                    None => 1,
                },
                field_mask: match args.gfs {
                    Some(s) => binary_value(s@) as u64,
                    None => 0,
                },
                guest_svn: match args.gsvn {
                    Some(v) => v,
                    None => 0,
                },
                tcb_version: match args.tcbv {
                    Some(v) => v,
                    None => 0,
                },
            },
        )
    }
}

/// Validates the caller input field by field and builds the request.
///
/// The fields are checked independently, in the order root-key selector,
/// privilege level, field mask; the first one outside its domain decides the
/// error, and nothing is accumulated. A request that comes back `Ok` is
/// within the hardware's accepted ranges.
pub fn build_request(args: &KeyArgs) -> (r: Result<DerivationRequest, ValidationError>)
    ensures
        r == spec_build_request(*args),
        r matches Ok(req) ==> req.well_formed(),
{
    let root_key_kind = match select_root_key(args.root_key_select.as_str()) {
        Ok(kind) => kind,
        Err(e) => {
            return Err(e);
        },
    };
    let privilege_level = match validate_privilege_level(args.vmpl) {
        Ok(level) => level,
        Err(e) => {
            return Err(e);
        },
    };
    let field_mask = match parse_field_mask(match &args.gfs {
        Some(s) => Some(s.as_str()),
        None => None,
    }) {
        Ok(mask) => mask,
        Err(e) => {
            return Err(e);
        },
    };
    let guest_svn = default_or(args.gsvn, 0);
    let tcb_version = default_or(args.tcbv, 0);
    Ok(build(root_key_kind, privilege_level, field_mask, guest_svn, tcb_version))
}

} // verus!
