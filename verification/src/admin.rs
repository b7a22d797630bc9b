//! Administrative bootstrap and the signature-threshold authorization
//! check that gates juror assignment, verdict execution and reputation
//! updates.

use vstd::prelude::*;

use crate::errors::P2PExchangeError;
use crate::state::{AccountId, Admin};

verus! {

/// Creates the administrative record: one primary authority, no secondary
/// authorities yet, and a single required signature.
pub fn initialize_admin(authority: AccountId) -> (a: Admin)
    ensures
        a.authority == authority,
        a.secondary_authorities[0].is_unassigned(),
        a.secondary_authorities[1].is_unassigned(),
        a.required_signatures == 1,
{
    Admin {
        authority,
        secondary_authorities: [AccountId(0), AccountId(0)],
        required_signatures: 1,
    }
}

/// The error `update_admin_authorities` returns, or `None` where it
/// succeeds: only the primary authority may reconfigure, and the threshold
/// must lie between 1 and 3.
pub open spec fn update_admin_authorities_error(
    admin: Admin,
    authority: AccountId,
    required_signatures: u8,
) -> Option<P2PExchangeError> {
    if admin.authority != authority {
        Some(P2PExchangeError::AdminRequired)
    } else if required_signatures == 0 || required_signatures > 3 {
        Some(P2PExchangeError::InvalidAmount)
    } else {
        None
    }
}

/// Installs the secondary authorities and the signature threshold.
pub fn update_admin_authorities(
    admin: &mut Admin,
    authority: AccountId,
    secondary_authorities: [AccountId; 2],
    required_signatures: u8,
) -> (r: Result<(), P2PExchangeError>)
    ensures
        (r is Ok) <==> update_admin_authorities_error(*old(admin), authority, required_signatures)
            is None,
        r matches Err(e) ==> {
            &&& Some(e) == update_admin_authorities_error(
                *old(admin),
                authority,
                required_signatures,
            )
            &&& *final(admin) == *old(admin)
        },
        r is Ok ==> *final(admin) == (Admin {
            secondary_authorities,
            required_signatures,
            ..*old(admin)
        }),
{
    if admin.authority != authority {
        return Err(P2PExchangeError::AdminRequired);
    }
    if required_signatures == 0 || required_signatures > 3 {
        return Err(P2PExchangeError::InvalidAmount);
    }
    admin.secondary_authorities = secondary_authorities;
    admin.required_signatures = required_signatures;
    Ok(())
}

/// How many of the admin's authorities appear among the signers: the
/// primary counts always, each secondary only if its slot is assigned.
pub open spec fn valid_signature_count(admin: Admin, signers: Seq<AccountId>) -> int {
    (if signers.contains(admin.authority) {
        1int
    } else {
        0int
    }) + (if !admin.secondary_authorities[0].is_unassigned() && signers.contains(
        admin.secondary_authorities[0],
    ) {
        1int
    } else {
        0int
    }) + (if !admin.secondary_authorities[1].is_unassigned() && signers.contains(
        admin.secondary_authorities[1],
    ) {
        1int
    } else {
        0int
    })
}

/// Decides whether `x` appears in `v`.
fn contains_id(v: &Vec<AccountId>, x: AccountId) -> (b: bool)
    ensures
        b == v@.contains(x),
{
    let n = v.len();
    let mut i: usize = 0;
    while i < n
        invariant
            0 <= i <= n,
            n == v@.len(),
            forall|k: int| 0 <= k < i ==> v@[k] != x,
        decreases n - i,
    {
        if v[i] == x {
            assert(v@[i as int] == x);
            return true;
        }
        i = i + 1;
    }
    false
}

/// The multi-signature authorization check: succeeds exactly when at least
/// `required_signatures` of the admin's authorities signed.
pub fn validate_admin_authority(admin: &Admin, signers: &Vec<AccountId>) -> (r: Result<
    (),
    P2PExchangeError,
>)
    ensures
        (r is Ok) <==> valid_signature_count(*admin, signers@) >= admin.required_signatures,
        r matches Err(e) ==> e == P2PExchangeError::AdminRequired,
{
    let mut valid_signatures: u8 = 0;
    if contains_id(signers, admin.authority) {
        valid_signatures = valid_signatures + 1;
    }
    let secondary0 = admin.secondary_authorities[0];
    if secondary0 != AccountId(0) && contains_id(signers, secondary0) {
        valid_signatures = valid_signatures + 1;
    }
    let secondary1 = admin.secondary_authorities[1];
    if secondary1 != AccountId(0) && contains_id(signers, secondary1) {
        valid_signatures = valid_signatures + 1;
    }
    if valid_signatures >= admin.required_signatures {
        Ok(())
    } else {
        Err(P2PExchangeError::AdminRequired)
    }
}

} // verus!
