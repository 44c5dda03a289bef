use vstd::prelude::*;
use crate::address_info::{zero_info, AddressInfo};
use crate::admins::{other_than, with_admin, without_admin};
use crate::error::ClaimError;
use crate::model::{Call, ContractView};
use crate::repair::REPAIR_STREAK_PRICE;

verus! {

/// An operation that can change an account's record.
pub enum StreakOp {
    Claim(Call),
    /// A claim with repair: the call, the payment's token, nonce and amount,
    /// and whether the ledger allows the burn.
    Repair(Call, Seq<u8>, u64, u128, bool),
    /// An admin override of the record of an account.
    Update(Call, u64, AddressInfo),
}

/// The state after `op`, whether or not it succeeds.
pub open spec fn after_op(v: ContractView, op: StreakOp) -> ContractView {
    match op {
        StreakOp::Claim(c) => v.after_claim(c),
        StreakOp::Repair(c, token, nonce, amount, burn) => v.after_repair(c, token, nonce, amount, burn),
        StreakOp::Update(c, address, info) => v.after_update(c, address, info),
    }
}

/// The state after the operations `ops`, in order.
pub open spec fn run(v: ContractView, ops: Seq<StreakOp>) -> ContractView
    decreases ops.len(),
{
    if ops.len() == 0 {
        v
    } else {
        after_op(run(v, ops.drop_last()), ops.last())
    }
}

/// Whether `op`, applied to `v`, is no admin override that sets the best
/// streak of `a` below its current value.
pub open spec fn keeps_best_of(v: ContractView, op: StreakOp, a: u64) -> bool {
    match op {
        StreakOp::Update(c, address, info) => (address == a && v.admin_check(c) is Ok)
            ==> info.best_streak >= v.info_of(a).best_streak,
        _ => true,
    }
}

/// An account that has never claimed reads as all zeros.
pub proof fn lemma_unclaimed_reads_zero(v: ContractView, a: u64)
    requires
        !v.infos.contains_key(a),
    ensures
        v.info_of(a) == zero_info(),
        v.info_of(a).current_streak == 0 && v.info_of(a).last_epoch_claimed == 0,
        v.info_of(a).total_epochs_claimed == 0 && v.info_of(a).best_streak == 0,
{
}

/// A second claim in the same epoch fails as already claimed, and leaves the
/// state as the first claim left it.
pub proof fn lemma_double_claim(v: ContractView, c: Call)
    requires
        v.claim_outcome(c) is Ok,
    ensures
        v.after_claim(c).claim_outcome(c) == Err::<AddressInfo, ClaimError>(ClaimError::AlreadyClaimed),
        v.after_claim(c).after_claim(c) == v.after_claim(c),
{
}

/// A first claim at `e` followed by one at `e + 1` gives a streak of two.
pub proof fn lemma_consecutive_claims(v: ContractView, caller: u64, e: u64)
    requires
        !v.infos.contains_key(caller),
        e < u64::MAX,
    ensures
        ({
            let c1 = Call { caller, caller_shard: v.shard, epoch: e };
            let c2 = Call { caller, caller_shard: v.shard, epoch: (e + 1) as u64 };
            v.after_claim(c1).after_claim(c2).info_of(caller) == (AddressInfo {
                current_streak: 2,
                best_streak: 2,
                total_epochs_claimed: 2,
                last_epoch_claimed: (e + 1) as u64,
            })
        }),
{
}

/// A first claim at `e` followed by one at `e + 2` starts the streak again.
pub proof fn lemma_claims_with_gap(v: ContractView, caller: u64, e: u64)
    requires
        !v.infos.contains_key(caller),
        e < u64::MAX - 1,
    ensures
        ({
            let c1 = Call { caller, caller_shard: v.shard, epoch: e };
            let c2 = Call { caller, caller_shard: v.shard, epoch: (e + 2) as u64 };
            v.after_claim(c1).after_claim(c2).info_of(caller) == (AddressInfo {
                current_streak: 1,
                best_streak: 1,
                total_epochs_claimed: 2,
                last_epoch_claimed: (e + 2) as u64,
            })
        }),
{
}

/// One operation does not lower the best streak of `a`, unless it is an
/// admin override that sets a lower one.
pub proof fn lemma_op_keeps_best_streak(v: ContractView, op: StreakOp, a: u64)
    requires
        keeps_best_of(v, op, a),
    ensures
        after_op(v, op).info_of(a).best_streak >= v.info_of(a).best_streak,
{
}

/// The best streak of `a` never decreases over a sequence of operations,
/// where no admin override lowers it.
pub proof fn lemma_best_streak_never_decreases(v: ContractView, ops: Seq<StreakOp>, a: u64)
    requires
        forall|i: int| 0 <= i < ops.len() ==> keeps_best_of(run(v, ops.take(i)), #[trigger] ops[i], a),
    ensures
        run(v, ops).info_of(a).best_streak >= v.info_of(a).best_streak,
    decreases ops.len(),
{
    if ops.len() > 0 {
        let prefix = ops.drop_last();
        assert forall|i: int| 0 <= i < prefix.len() implies keeps_best_of(run(v, prefix.take(i)), #[trigger] prefix[i], a) by {
            assert(prefix.take(i) =~= ops.take(i));
            assert(prefix[i] == ops[i]);
        }
        lemma_best_streak_never_decreases(v, prefix, a);
        let last = ops.len() - 1;
        assert(ops.take(last) =~= prefix);
        assert(keeps_best_of(run(v, ops.take(last)), ops[last], a));
        lemma_op_keeps_best_streak(run(v, prefix), ops.last(), a);
    }
}

/// A claim adds one to the caller's total when it succeeds, and changes
/// nothing when it fails.
pub proof fn lemma_claim_counts_once(v: ContractView, c: Call)
    ensures
        v.claim_outcome(c) is Ok ==> v.after_claim(c).info_of(c.caller).total_epochs_claimed
            == v.info_of(c.caller).total_epochs_claimed + 1,
        v.claim_outcome(c) is Err ==> v.after_claim(c) == v,
{
}

/// A claim with repair adds one to the caller's total when it succeeds, and
/// changes nothing when it fails.
pub proof fn lemma_repair_counts_once(v: ContractView, c: Call, token: Seq<u8>, nonce: u64, amount: u128, burn_allowed: bool)
    ensures
        v.repair_outcome(c, token, nonce, amount, burn_allowed) is Ok
            ==> v.after_repair(c, token, nonce, amount, burn_allowed).info_of(c.caller).total_epochs_claimed
            == v.info_of(c.caller).total_epochs_claimed + 1,
        v.repair_outcome(c, token, nonce, amount, burn_allowed) is Err
            ==> v.after_repair(c, token, nonce, amount, burn_allowed) == v,
{
}

/// An admin override that sets the total one above the stored one adds one
/// to it; a rejected override changes nothing.
pub proof fn lemma_update_counts_once(v: ContractView, c: Call, address: u64, info: AddressInfo)
    requires
        info.total_epochs_claimed == v.info_of(address).total_epochs_claimed + 1,
    ensures
        v.admin_check(c) is Ok ==> v.after_update(c, address, info).info_of(address).total_epochs_claimed
            == v.info_of(address).total_epochs_claimed + 1,
        v.admin_check(c) is Err ==> v.after_update(c, address, info) == v,
{
}

/// A repair paid with any amount but the price fails as a bad payment and
/// leaves the state unchanged.
pub proof fn lemma_wrong_amount_rejected(v: ContractView, c: Call, token: Seq<u8>, nonce: u64, amount: u128, burn_allowed: bool)
    requires
        v.same_shard(c),
        amount != REPAIR_STREAK_PRICE,
    ensures
        v.repair_outcome(c, token, nonce, amount, burn_allowed) == Err::<AddressInfo, ClaimError>(ClaimError::BadPayment),
        v.after_repair(c, token, nonce, amount, burn_allowed) == v,
{
}

/// A call from another shard fails as wrong origin in every operation, and
/// changes nothing.
pub proof fn lemma_wrong_shard_rejected(
    v: ContractView,
    c: Call,
    token: Seq<u8>,
    nonce: u64,
    amount: u128,
    burn_allowed: bool,
    address: u64,
    info: AddressInfo,
)
    requires
        !v.same_shard(c),
    ensures
        v.claim_outcome(c) == Err::<AddressInfo, ClaimError>(ClaimError::WrongOrigin),
        v.after_claim(c) == v,
        v.repair_outcome(c, token, nonce, amount, burn_allowed) == Err::<AddressInfo, ClaimError>(ClaimError::WrongOrigin),
        v.after_repair(c, token, nonce, amount, burn_allowed) == v,
        v.admin_check(c) == Err::<(), ClaimError>(ClaimError::WrongOrigin),
        v.after_update(c, address, info) == v,
        v.owner_check(c) == Err::<(), ClaimError>(ClaimError::WrongOrigin),
{
}

/// An override by a non-admin fails as not authorized; one by an admin sets
/// all four fields of the record to the given values.
pub proof fn lemma_update_state_access(v: ContractView, c: Call, address: u64, info: AddressInfo)
    requires
        v.same_shard(c),
    ensures
        !v.is_admin(c.caller) ==> v.admin_check(c) == Err::<(), ClaimError>(ClaimError::NotAuthorized)
            && v.after_update(c, address, info) == v,
        v.is_admin(c.caller) ==> v.admin_check(c) is Ok
            && v.after_update(c, address, info).info_of(address) == info,
{
}

/// A change to the admin list made by the owner.
pub enum AdminOp {
    Add(u64),
    Remove(u64),
}

/// The admin list after `ops`, in order.
pub open spec fn run_admin_ops(admins: Seq<u64>, ops: Seq<AdminOp>) -> Seq<u64>
    decreases ops.len(),
{
    if ops.len() == 0 {
        admins
    } else {
        let before = run_admin_ops(admins, ops.drop_last());
        match ops.last() {
            AdminOp::Add(a) => with_admin(before, a),
            AdminOp::Remove(a) => without_admin(before, a),
        }
    }
}

/// Whether `x` is an admin after `ops`: the last operation on `x` decides,
/// and with none it is an admin when it was one at the start.
pub open spec fn admin_after(admins: Seq<u64>, ops: Seq<AdminOp>, x: u64) -> bool
    decreases ops.len(),
{
    if ops.len() == 0 {
        admins.contains(x)
    } else {
        match ops.last() {
            AdminOp::Add(a) => a == x || admin_after(admins, ops.drop_last(), x),
            AdminOp::Remove(a) => a != x && admin_after(admins, ops.drop_last(), x),
        }
    }
}

/// The admin list after a sequence of adds and removes holds each admin
/// once, and holds exactly the accounts whose last operation was an add (or
/// that were admins and were never touched).
pub proof fn lemma_admin_list_tracks_ops(admins: Seq<u64>, ops: Seq<AdminOp>, x: u64)
    requires
        admins.no_duplicates(),
    ensures
        run_admin_ops(admins, ops).no_duplicates(),
        run_admin_ops(admins, ops).contains(x) == admin_after(admins, ops, x),
    decreases ops.len(),
{
    if ops.len() > 0 {
        let prefix = ops.drop_last();
        lemma_admin_list_tracks_ops(admins, prefix, x);
        let before = run_admin_ops(admins, prefix);
        match ops.last() {
            AdminOp::Add(a) => {
                if !before.contains(a) {
                    assert forall|i: int, j: int| 0 <= i < j < before.push(a).len() implies
                        before.push(a)[i] != before.push(a)[j] by {
                        if j == before.len() {
                            assert(before[i] == before.push(a)[i]);
                        }
                    }
                    if x != a && before.push(a).contains(x) {
                        let k = choose|k: int| 0 <= k < before.push(a).len() && before.push(a)[k] == x;
                        assert(before[k] == x);
                    }
                    assert(before.push(a)[before.len() as int] == a);
                    if before.contains(x) {
                        let k = choose|k: int| 0 <= k < before.len() && before[k] == x;
                        assert(before.push(a)[k] == x);
                    }
                }
            },
            AdminOp::Remove(a) => {
                lemma_filter_keeps_distinct(before, a);
                if x != a && before.contains(x) {
                    let k = choose|k: int| 0 <= k < before.len() && before[k] == x;
                    before.lemma_filter_contains(other_than(a), k);
                }
                if without_admin(before, a).contains(x) {
                    before.lemma_filter_contains_rev(other_than(a), x);
                    let k = choose|k: int| 0 <= k < without_admin(before, a).len() && without_admin(before, a)[k] == x;
                    before.lemma_filter_pred(other_than(a), k);
                }
            },
        }
    }
}

/// Adding a new admin appends it after the others; removing an admin takes
/// out its one entry and leaves the others in their order.
pub proof fn lemma_admin_list_order(admins: Seq<u64>, a: u64)
    requires
        admins.no_duplicates(),
    ensures
        !admins.contains(a) ==> with_admin(admins, a) == admins.push(a),
        admins.contains(a) ==> with_admin(admins, a) == admins,
        !admins.contains(a) ==> without_admin(admins, a) == admins,
        forall|k: int| 0 <= k < admins.len() && admins[k] == a ==> without_admin(admins, a) == admins.remove(k),
    decreases admins.len(),
{
    if !admins.contains(a) {
        lemma_filter_without_absent(admins, a);
    }
    assert forall|k: int| 0 <= k < admins.len() && admins[k] == a implies without_admin(admins, a) == admins.remove(k) by {
        let init = admins.drop_last();
        assert(init.push(admins.last()) =~= admins);
        init.lemma_filter_push(admins.last(), other_than(a));
        if k == admins.len() - 1 {
            assert forall|j: int| 0 <= j < init.len() implies init[j] != a by {
                assert(admins[j] == init[j]);
            }
            lemma_filter_without_absent(init, a);
            assert(admins.remove(k) =~= init);
        } else {
            assert(init.no_duplicates());
            assert(init[k] == a);
            lemma_admin_list_order(init, a);
            assert(admins.last() != a) by {
                assert(admins[admins.len() - 1] != admins[k]);
            }
            assert(admins.remove(k) =~= init.remove(k).push(admins.last()));
        }
    }
}

proof fn lemma_filter_without_absent(s: Seq<u64>, a: u64)
    requires
        !s.contains(a),
    ensures
        without_admin(s, a) == s,
    decreases s.len(),
{
    if s.len() > 0 {
        let init = s.drop_last();
        assert(init.push(s.last()) =~= s);
        assert(!init.contains(a)) by {
            if init.contains(a) {
                let k = choose|k: int| 0 <= k < init.len() && init[k] == a;
                assert(s[k] == a);
            }
        }
        lemma_filter_without_absent(init, a);
        init.lemma_filter_push(s.last(), other_than(a));
        assert(s[s.len() - 1] != a);
    } else {
        assert(s.filter(other_than(a)) =~= s);
    }
}

proof fn lemma_filter_keeps_distinct(s: Seq<u64>, a: u64)
    requires
        s.no_duplicates(),
    ensures
        without_admin(s, a).no_duplicates(),
    decreases s.len(),
{
    if s.len() > 0 {
        let init = s.drop_last();
        assert(init.no_duplicates());
        lemma_filter_keeps_distinct(init, a);
        assert(init.push(s.last()) =~= s);
        init.lemma_filter_push(s.last(), other_than(a));
        if s.last() != a {
            let f = without_admin(init, a);
            if f.contains(s.last()) {
                init.lemma_filter_contains_rev(other_than(a), s.last());
                let k = choose|k: int| 0 <= k < init.len() && init[k] == s.last();
                assert(s[k] == s[s.len() - 1]);
            }
            assert forall|i: int, j: int| 0 <= i < j < f.push(s.last()).len() implies
                f.push(s.last())[i] != f.push(s.last())[j] by {
                if j == f.len() {
                    assert(f.push(s.last())[i] == f[i]);
                    assert(f.contains(f[i]));
                }
            }
        }
    }
}

} // verus!
