use vstd::prelude::*;
use crate::address::Address;
use crate::constants::{MAX_TREASURY_ADMINS, MAX_TREASURY_ROLES, MIN_TREASURY_ADMINS};
use crate::error::ErrorCode;
use crate::state::{is_role, RoleType, TreasuryRole, TreasuryRoles};

verus! {

pub open spec fn has_role(roles: Seq<TreasuryRole>, role_type: RoleType, pubkey: Address) -> bool {
    exists|i: int| 0 <= i < roles.len() && is_role(#[trigger] roles[i], role_type, pubkey)
}

/// Index of the first role of kind `role_type` held by `pubkey`.
pub open spec fn first_role_index(roles: Seq<TreasuryRole>, role_type: RoleType, pubkey: Address) -> int {
    choose|i: int|
        0 <= i < roles.len() && is_role(roles[i], role_type, pubkey) && forall|j: int|
            0 <= j < i ==> !is_role(#[trigger] roles[j], role_type, pubkey)
}

/// The roles that are not the role of kind `role_type` held by `pubkey`.
pub open spec fn without_role(roles: Seq<TreasuryRole>, role_type: RoleType, pubkey: Address) -> Seq<TreasuryRole> {
    roles.filter(|r: TreasuryRole| !is_role(r, role_type, pubkey))
}

/// The administrators other than `admin`.
pub open spec fn without_admin(authorities: Seq<Address>, admin: Address) -> Seq<Address> {
    authorities.filter(|a: Address| a != admin)
}

fn is_authority(authorities: &Vec<Address>, key: &Address) -> (r: bool)
    ensures
        r == authorities@.contains(*key),
{
    let mut i: usize = 0;
    while i < authorities.len()
        invariant
            0 <= i <= authorities@.len(),
            forall|j: int| 0 <= j < i ==> authorities@[j] != *key,
        decreases authorities@.len() - i,
    {
        if authorities[i] == *key {
            return true;
        }
        i = i + 1;
    }
    false
}

fn find_role(roles: &Vec<TreasuryRole>, role_type: RoleType, pubkey: &Address) -> (r: Option<usize>)
    ensures
        match r {
            Some(i) => i < roles@.len() && has_role(roles@, role_type, *pubkey) && i == first_role_index(
                roles@,
                role_type,
                *pubkey,
            )
                && is_role(roles@[i as int], role_type, *pubkey),
            None => !has_role(roles@, role_type, *pubkey),
        },
{
    let mut i: usize = 0;
    while i < roles.len()
        invariant
            0 <= i <= roles@.len(),
            forall|j: int| 0 <= j < i ==> !is_role(#[trigger] roles@[j], role_type, *pubkey),
        decreases roles@.len() - i,
    {
        if roles[i].pubkey == *pubkey && roles[i].role_type == role_type {
            let ghost k = first_role_index(roles@, role_type, *pubkey);
            assert(is_role(roles@[i as int], role_type, *pubkey));
            assert(k == i) by {
                if k < i {
                    assert(!is_role(roles@[k], role_type, *pubkey));
                }
            }
            return Some(i);
        }
        i = i + 1;
    }
    None
}

/// The first check that rejects a new role, if any.
pub open spec fn add_role_error(r: TreasuryRoles, authority: Address, role_type: RoleType, pubkey: Address) -> Option<ErrorCode> {
    if !r.authorities@.contains(authority) {
        Some(ErrorCode::Unauthorized)
    } else if has_role(r.roles@, role_type, pubkey) {
        Some(ErrorCode::RoleAlreadyExists)
    } else if r.roles@.len() >= MAX_TREASURY_ROLES {
        Some(ErrorCode::RolesCapacityExceeded)
    } else {
        None
    }
}

/// Gives `pubkey` a treasury role; only an administrator may.
pub fn add_treasury_role(
    treasury_roles: &mut TreasuryRoles,
    authority: &Address,
    role_type: RoleType,
    pubkey: Address,
    withdrawal_limit: Option<u64>,
    withdrawal_period: Option<i64>,
) -> (r: Result<(), ErrorCode>)
    ensures
        match add_role_error(*old(treasury_roles), *authority, role_type, pubkey) {
            Some(e) => r == Err::<(), ErrorCode>(e) && *final(treasury_roles) == *old(treasury_roles),
            None => r is Ok && final(treasury_roles).authorities@ == old(treasury_roles).authorities@
                && final(treasury_roles).roles@ == old(treasury_roles).roles@.push(
                TreasuryRole { role_type, pubkey, withdrawal_limit, withdrawal_period },
            ),
        },
        old(treasury_roles).wf() ==> final(treasury_roles).wf(),
{
    if !is_authority(&treasury_roles.authorities, authority) {
        return Err(ErrorCode::Unauthorized);
    }
    if find_role(&treasury_roles.roles, role_type, &pubkey).is_some() {
        return Err(ErrorCode::RoleAlreadyExists);
    }
    if treasury_roles.roles.len() >= MAX_TREASURY_ROLES {
        return Err(ErrorCode::RolesCapacityExceeded);
    }
    let new_role = TreasuryRole { role_type, pubkey, withdrawal_limit, withdrawal_period };
    treasury_roles.roles.push(new_role);
    proof {
        let os = old(treasury_roles).roles@;
        let rs = treasury_roles.roles@;
        assert(rs[rs.len() - 1] == new_role);
        if old(treasury_roles).wf() {
            assert forall|i: int, j: int| 0 <= i < j < rs.len() implies !is_role(
                #[trigger] rs[i],
                rs[j].role_type,
                #[trigger] rs[j].pubkey,
            ) by {
                assert(rs[i] == os[i]);
                if j == rs.len() - 1 {
                    if is_role(rs[i], role_type, pubkey) {
                        assert(is_role(os[i], role_type, pubkey));
                    }
                } else {
                    assert(rs[j] == os[j]);
                }
            }
        }
    }
    Ok(())
}

/// Takes a role away; a role that is not there is no error.
pub fn remove_treasury_role(
    treasury_roles: &mut TreasuryRoles,
    authority: &Address,
    role_type: RoleType,
    pubkey: Address,
) -> (r: Result<(), ErrorCode>)
    ensures
        !old(treasury_roles).authorities@.contains(*authority) ==> r == Err::<(), ErrorCode>(
            ErrorCode::Unauthorized,
        ) && *final(treasury_roles) == *old(treasury_roles),
        old(treasury_roles).authorities@.contains(*authority) ==> r is Ok
            && final(treasury_roles).authorities@ == old(treasury_roles).authorities@
            && final(treasury_roles).roles@ == without_role(old(treasury_roles).roles@, role_type, pubkey),
        old(treasury_roles).wf() ==> final(treasury_roles).wf(),
{
    if !is_authority(&treasury_roles.authorities, authority) {
        return Err(ErrorCode::Unauthorized);
    }
    let ghost before = treasury_roles.roles@;
    let ghost wf = old(treasury_roles).wf();
    let ghost idx: Seq<int> = Seq::empty();
    let mut kept: Vec<TreasuryRole> = Vec::new();
    let mut i: usize = 0;
    while i < treasury_roles.roles.len()
        invariant
            0 <= i <= before.len(),
            treasury_roles.roles@ == before,
            treasury_roles.authorities@ == old(treasury_roles).authorities@,
            before == old(treasury_roles).roles@,
            wf == old(treasury_roles).wf(),
            kept@ == without_role(before.subrange(0, i as int), role_type, pubkey),
            idx.len() == kept@.len(),
            forall|k: int| 0 <= k < kept@.len() ==> 0 <= #[trigger] idx[k] < i && kept@[k] == before[idx[k]],
            forall|a: int, b: int| 0 <= a < b < kept@.len() ==> idx[a] < idx[b],
        decreases before.len() - i,
    {
        let role = treasury_roles.roles[i];
        proof {
            lemma_without_role_step(before, i as int, role_type, pubkey);
        }
        if !(role.pubkey == pubkey && role.role_type == role_type) {
            kept.push(role);
            proof {
                idx = idx.push(i as int);
            }
        }
        i = i + 1;
    }
    assert(before.subrange(0, before.len() as int) =~= before);
    proof {
        if wf {
            let ks = kept@;
            assert forall|a: int, b: int| 0 <= a < b < ks.len() implies !is_role(
                #[trigger] ks[a],
                ks[b].role_type,
                #[trigger] ks[b].pubkey,
            ) by {
                assert(ks[a] == before[idx[a]] && ks[b] == before[idx[b]]);
                assert(idx[a] < idx[b]);
            }
            before.lemma_filter_len(|r: TreasuryRole| !is_role(r, role_type, pubkey));
        }
    }
    treasury_roles.roles = kept;
    Ok(())
}

proof fn lemma_without_role_step(s: Seq<TreasuryRole>, i: int, role_type: RoleType, pubkey: Address)
    requires
        0 <= i < s.len(),
    ensures
        without_role(s.subrange(0, i + 1), role_type, pubkey) == if is_role(s[i], role_type, pubkey) {
            without_role(s.subrange(0, i), role_type, pubkey)
        } else {
            without_role(s.subrange(0, i), role_type, pubkey).push(s[i])
        },
{
    reveal(Seq::filter);
    assert(s.subrange(0, i + 1).drop_last() =~= s.subrange(0, i));
}

proof fn lemma_without_admin_step(s: Seq<Address>, i: int, admin: Address)
    requires
        0 <= i < s.len(),
    ensures
        without_admin(s.subrange(0, i + 1), admin) == if s[i] == admin {
            without_admin(s.subrange(0, i), admin)
        } else {
            without_admin(s.subrange(0, i), admin).push(s[i])
        },
{
    reveal(Seq::filter);
    assert(s.subrange(0, i + 1).drop_last() =~= s.subrange(0, i));
}

/// Removing a role twice leaves the same roles as removing it once, so a retried
/// removal is harmless.
pub proof fn lemma_remove_role_idempotent(roles: Seq<TreasuryRole>, role_type: RoleType, pubkey: Address)
    ensures
        without_role(without_role(roles, role_type, pubkey), role_type, pubkey) == without_role(
            roles,
            role_type,
            pubkey,
        ),
    decreases roles.len(),
{
    reveal(Seq::filter);
    if roles.len() > 0 {
        let rest = roles.drop_last();
        lemma_remove_role_idempotent(rest, role_type, pubkey);
        let f = without_role(rest, role_type, pubkey);
        if !is_role(roles.last(), role_type, pubkey) {
            assert(f.push(roles.last()).drop_last() =~= f);
        }
    }
}

/// The first check that rejects an update, if any.
pub open spec fn update_role_error(r: TreasuryRoles, authority: Address, role_type: RoleType, pubkey: Address) -> Option<ErrorCode> {
    if !r.authorities@.contains(authority) {
        Some(ErrorCode::Unauthorized)
    } else if !has_role(r.roles@, role_type, pubkey) {
        Some(ErrorCode::CustomError)
    } else {
        None
    }
}

/// Sets the withdrawal limit and period of an existing role.
pub fn update_treasury_role(
    treasury_roles: &mut TreasuryRoles,
    authority: &Address,
    role_type: RoleType,
    pubkey: Address,
    withdrawal_limit: Option<u64>,
    withdrawal_period: Option<i64>,
) -> (r: Result<(), ErrorCode>)
    ensures
        match update_role_error(*old(treasury_roles), *authority, role_type, pubkey) {
            Some(e) => r == Err::<(), ErrorCode>(e) && *final(treasury_roles) == *old(treasury_roles),
            None => r is Ok && final(treasury_roles).authorities@ == old(treasury_roles).authorities@
                && final(treasury_roles).roles@ == old(treasury_roles).roles@.update(
                first_role_index(old(treasury_roles).roles@, role_type, pubkey),
                TreasuryRole {
                    withdrawal_limit,
                    withdrawal_period,
                    ..old(treasury_roles).roles@[first_role_index(old(treasury_roles).roles@, role_type, pubkey)]
                },
            ),
        },
        old(treasury_roles).wf() ==> final(treasury_roles).wf(),
{
    if !is_authority(&treasury_roles.authorities, authority) {
        return Err(ErrorCode::Unauthorized);
    }
    let i = match find_role(&treasury_roles.roles, role_type, &pubkey) {
        Some(i) => i,
        None => return Err(ErrorCode::CustomError),
    };
    let role = TreasuryRole { withdrawal_limit, withdrawal_period, ..treasury_roles.roles[i] };
    treasury_roles.roles.set(i, role);
    proof {
        let rs = treasury_roles.roles@;
        let os = old(treasury_roles).roles@;
        if old(treasury_roles).wf() {
            assert forall|a: int, b: int| 0 <= a < b < rs.len() implies !is_role(
                #[trigger] rs[a],
                rs[b].role_type,
                #[trigger] rs[b].pubkey,
            ) by {
                assert(rs[a].pubkey == os[a].pubkey && rs[a].role_type == os[a].role_type);
                assert(rs[b].pubkey == os[b].pubkey && rs[b].role_type == os[b].role_type);
            }
        }
    }
    Ok(())
}

/// The first check that rejects a new administrator, if any.
pub open spec fn add_admin_error(r: TreasuryRoles, authority: Address, new_admin: Address) -> Option<ErrorCode> {
    if !r.authorities@.contains(authority) {
        Some(ErrorCode::Unauthorized)
    } else if r.authorities@.contains(new_admin) {
        Some(ErrorCode::RoleAlreadyExists)
    } else if r.authorities@.len() >= MAX_TREASURY_ADMINS {
        Some(ErrorCode::CustomError)
    } else {
        None
    }
}

/// Adds an administrator, up to three.
pub fn add_admin(treasury_roles: &mut TreasuryRoles, authority: &Address, new_admin: Address) -> (r: Result<(), ErrorCode>)
    ensures
        match add_admin_error(*old(treasury_roles), *authority, new_admin) {
            Some(e) => r == Err::<(), ErrorCode>(e) && *final(treasury_roles) == *old(treasury_roles),
            None => r is Ok && final(treasury_roles).authorities@ == old(treasury_roles).authorities@.push(
                new_admin,
            ) && final(treasury_roles).roles@ == old(treasury_roles).roles@,
        },
        old(treasury_roles).wf() ==> final(treasury_roles).wf(),
{
    if !is_authority(&treasury_roles.authorities, authority) {
        return Err(ErrorCode::Unauthorized);
    }
    if is_authority(&treasury_roles.authorities, &new_admin) {
        return Err(ErrorCode::RoleAlreadyExists);
    }
    if treasury_roles.authorities.len() >= MAX_TREASURY_ADMINS {
        return Err(ErrorCode::CustomError);
    }
    treasury_roles.authorities.push(new_admin);
    Ok(())
}

/// The first check that rejects the removal of an administrator, if any: the
/// signer must be one, and the removal must take one away and leave one.
pub open spec fn remove_admin_error(r: TreasuryRoles, authority: Address, admin: Address) -> Option<ErrorCode> {
    let kept = without_admin(r.authorities@, admin);
    if !r.authorities@.contains(authority) {
        Some(ErrorCode::Unauthorized)
    } else if r.authorities@.len() <= MIN_TREASURY_ADMINS {
        Some(ErrorCode::CustomError)
    } else if kept.len() == r.authorities@.len() || kept.len() < MIN_TREASURY_ADMINS {
        Some(ErrorCode::CustomError)
    } else {
        None
    }
}

/// Removes an administrator; at least one always remains.
pub fn remove_admin(treasury_roles: &mut TreasuryRoles, authority: &Address, admin_to_remove: Address) -> (r: Result<(), ErrorCode>)
    ensures
        match remove_admin_error(*old(treasury_roles), *authority, admin_to_remove) {
            Some(e) => r == Err::<(), ErrorCode>(e) && *final(treasury_roles) == *old(treasury_roles),
            None => r is Ok && final(treasury_roles).authorities@ == without_admin(
                old(treasury_roles).authorities@,
                admin_to_remove,
            ) && final(treasury_roles).roles@ == old(treasury_roles).roles@,
        },
        final(treasury_roles).authorities@.len() >= MIN_TREASURY_ADMINS
            || *final(treasury_roles) == *old(treasury_roles),
        old(treasury_roles).wf() ==> final(treasury_roles).wf(),
{
    if !is_authority(&treasury_roles.authorities, authority) {
        return Err(ErrorCode::Unauthorized);
    }
    if treasury_roles.authorities.len() <= MIN_TREASURY_ADMINS {
        return Err(ErrorCode::CustomError);
    }
    let ghost before = treasury_roles.authorities@;
    let mut kept: Vec<Address> = Vec::new();
    let mut i: usize = 0;
    while i < treasury_roles.authorities.len()
        invariant
            0 <= i <= before.len(),
            treasury_roles.authorities@ == before,
            before == old(treasury_roles).authorities@,
            *treasury_roles == *old(treasury_roles),
            kept@ == without_admin(before.subrange(0, i as int), admin_to_remove),
        decreases before.len() - i,
    {
        let a = treasury_roles.authorities[i];
        proof {
            lemma_without_admin_step(before, i as int, admin_to_remove);
        }
        if a != admin_to_remove {
            kept.push(a);
        }
        i = i + 1;
    }
    assert(before.subrange(0, before.len() as int) =~= before);
    proof {
        before.lemma_filter_len(|a: Address| a != admin_to_remove);
    }
    if kept.len() == treasury_roles.authorities.len() || kept.len() < MIN_TREASURY_ADMINS {
        return Err(ErrorCode::CustomError);
    }
    treasury_roles.authorities = kept;
    Ok(())
}

/// A new registry with the given administrators and no roles.
pub fn initialize_treasury_roles(authorities: Vec<Address>) -> (r: Result<TreasuryRoles, ErrorCode>)
    ensures
        MIN_TREASURY_ADMINS <= authorities@.len() <= MAX_TREASURY_ADMINS ==> r is Ok && r->Ok_0.authorities@
            == authorities@ && r->Ok_0.roles@.len() == 0 && r->Ok_0.wf(),
        !(MIN_TREASURY_ADMINS <= authorities@.len() <= MAX_TREASURY_ADMINS) ==> r == Err::<
            TreasuryRoles,
            ErrorCode,
        >(ErrorCode::CustomError),
{
    if authorities.len() < MIN_TREASURY_ADMINS || authorities.len() > MAX_TREASURY_ADMINS {
        return Err(ErrorCode::CustomError);
    }
    Ok(TreasuryRoles { authorities, roles: Vec::new() })
}

} // verus!
