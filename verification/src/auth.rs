//! Multi-signature confirmation for changes to system boundary settings.

use vstd::prelude::*;

use crate::ledger::{ContractEnv, EnvModel, InstanceModel};
use crate::model::is_signer;
use crate::types::{Address, ContractError};

verus! {

/// Distinct approvals a multi-signature confirmation needs.
pub const MULTISIG_MIN_APPROVALS: usize = 2;

/// The candidates that count as approvals: those that are registered signers
/// or the admin, each once, in the order of their first occurrence.
pub open spec fn multisig_approvals(candidates: Seq<Address>, i: InstanceModel, admin: Address) -> Seq<
    Address,
>
    decreases candidates.len(),
{
    if candidates.len() == 0 {
        Seq::empty()
    } else {
        let prev = multisig_approvals(candidates.drop_last(), i, admin);
        let c = candidates.last();
        if (is_signer(i, c) || c == admin) && !prev.contains(c) {
            prev.push(c)
        } else {
            prev
        }
    }
}

/// What `require_multisig` does: each approving candidate's authorization is
/// demanded, and the confirmation passes with at least two approvals.
pub open spec fn require_multisig_step(e: EnvModel, candidates: Seq<Address>) -> (
    EnvModel,
    Result<(), ContractError>,
) {
    match e.instance.data {
        None => (e, Err(ContractError::NotInitialized)),
        Some(d) => {
            let approvals = multisig_approvals(candidates, e.instance, d.admin);
            let e1 = EnvModel { auths: e.auths + approvals, ..e };
            if approvals.len() < MULTISIG_MIN_APPROVALS {
                (e1, Err(ContractError::ThresholdNotReached))
            } else {
                (e1, Ok(()))
            }
        },
    }
}

/// Multi-signature barrier: requires at least two distinct approvals among
/// `signers`, an approval being a registered signer or the admin whose
/// authorization the call demands.
pub fn require_multisig(env: &mut ContractEnv, signers: &Vec<Address>) -> (r: Result<
    (),
    ContractError,
>)
    ensures
        final(env)@ == require_multisig_step(old(env)@, signers@).0,
        r == require_multisig_step(old(env)@, signers@).1,
{
    let data = match env.instance.data {
        Some(d) => d,
        None => return Err(ContractError::NotInitialized),
    };
    let ghost pre = env@;
    let mut valid_count: usize = 0;
    let mut verified: Vec<Address> = Vec::new();
    let n = signers.len();
    let mut i: usize = 0;
    while i < n
        invariant
            n == signers@.len(),
            i <= n,
            pre.instance == env@.instance,
            pre.instance.data == Some(data),
            env@ == (EnvModel { auths: pre.auths + verified@, ..pre }),
            verified@ == multisig_approvals(signers@.take(i as int), pre.instance, data.admin),
            valid_count == verified@.len(),
            valid_count <= i,
        decreases n - i,
    {
        let signer = signers[i];
        proof {
            assert(signers@.take(i + 1).drop_last() =~= signers@.take(i as int));
        }
        let is_authorized = crate::contract::contains_address(&env.instance.signers, &signer)
            || data.admin == signer;
        if is_authorized && !crate::contract::contains_address(&verified, &signer) {
            env.auths.push(signer);
            verified.push(signer);
            valid_count = valid_count + 1;
            proof {
                assert(env@.auths =~= pre.auths + verified@);
            }
        }
        i = i + 1;
    }
    proof {
        assert(signers@.take(n as int) =~= signers@);
        assert(env@ =~= (EnvModel { auths: pre.auths + verified@, ..pre }));
    }
    if valid_count < MULTISIG_MIN_APPROVALS {
        return Err(ContractError::ThresholdNotReached);
    }
    Ok(())
}

} // verus!
