//! What the calls on values do: addresses, amounts, bytes, tables, keys, texts.
use crate::address::Address;
use crate::amount::saturating_difference;
use crate::bytes::{copy_bytes, same_bytes};
use crate::call::Call;
use crate::effect::{bump_instance_ttl, Effect, LiquidationReason};
use crate::error::Revert;
use crate::laws::signed;
use crate::table::{Key, Table};
use crate::types::{
    Attestation, AttestationDedupKey, AttestationModel, DedupModel, IdempotencyKey,
    IdempotencyModel,
};
use vstd::prelude::*;

verus! {

/// An address is zero exactly where its payload is, and a call is authorized by exactly those who
/// signed it.
pub proof fn law_addresses_and_signers(a: Address, call: Call, zero: bool, authorized: bool)
    requires
        call_ensures(Address::is_zero, (&a,), zero),
        call_ensures(Call::authorized, (&call, &a), authorized),
    ensures
        zero <==> a.hi == 0 && a.lo == 0,
        authorized <==> exists|i: int| 0 <= i < call.signers@.len() && call.signers@[i] == a,
        authorized <==> signed(call, a),
        a@ == a,
{
}

/// The difference of two amounts is exact where it is an amount, and held at the near end of the
/// range where it is not.
pub proof fn law_difference_is_held_in_range(a: i128, b: i128, d: i128)
    requires
        call_ensures(saturating_difference, (a, b), d),
    ensures
        a - b > i128::MAX ==> d == i128::MAX,
        a - b < i128::MIN ==> d == i128::MIN,
        i128::MIN <= a - b <= i128::MAX ==> d == a - b,
{
}

/// Byte strings are compared and copied by what they hold.
pub proof fn law_bytes_are_compared_and_copied(
    a: Vec<u8>,
    b: Vec<u8>,
    same: bool,
    copy: Vec<u8>,
)
    requires
        call_ensures(same_bytes, (&a, &b), same),
        call_ensures(copy_bytes, (&a,), copy),
    ensures
        same <==> a@ =~= b@,
        copy@ =~= a@,
{
}

/// Records and keys are seen by all that they hold, and an attestation is copied as it is and
/// found again by its attester, its subject and its payload.
pub proof fn law_records_are_seen_in_full(
    a: Attestation,
    copy: Attestation,
    key: AttestationDedupKey,
    submission: IdempotencyKey,
)
    requires
        call_ensures(Attestation::duplicate, (&a,), copy),
        call_ensures(Attestation::dedup_key, (&a,), key),
    ensures
        a@ == (AttestationModel {
            id: a.id,
            verifier: a.verifier,
            identity: a.identity,
            timestamp: a.timestamp,
            weight: a.weight,
            attestation_data: a.attestation_data@,
            revoked: a.revoked,
        }),
        copy.id == a.id && copy.verifier == a.verifier && copy.identity == a.identity
            && copy.timestamp == a.timestamp && copy.weight == a.weight && copy.attestation_data@
            == a.attestation_data@ && copy.revoked == a.revoked,
        key@ == (DedupModel {
            verifier: key.verifier,
            identity: key.identity,
            attestation_data: key.attestation_data@,
        }),
        key.verifier == a.verifier && key.identity == a.identity && key.attestation_data@
            == a.attestation_data@,
        submission@ == (IdempotencyModel {
            actor: submission.actor,
            operation: submission.operation,
            salt: submission.salt@,
        }),
{
}

/// Keys are the same exactly where all that they hold is.
pub proof fn law_keys_are_told_apart(
    a: Address,
    b: Address,
    i: u64,
    j: u64,
    k: AttestationDedupKey,
    l: AttestationDedupKey,
    m: IdempotencyKey,
    n: IdempotencyKey,
    addresses: bool,
    ids: bool,
    triples: bool,
    submissions: bool,
)
    requires
        call_ensures(Address::same, (&a, &b), addresses),
        call_ensures(u64::same, (&i, &j), ids),
        call_ensures(AttestationDedupKey::same, (&k, &l), triples),
        call_ensures(IdempotencyKey::same, (&m, &n), submissions),
    ensures
        addresses <==> a.kind == b.kind && a.hi == b.hi && a.lo == b.lo,
        ids <==> i == j,
        triples <==> k.verifier == l.verifier && k.identity == l.identity && k.attestation_data@
            =~= l.attestation_data@,
        submissions <==> m.actor == n.actor && m.operation == n.operation && m.salt@ =~= n.salt@,
{
}

/// A table gives back what was last put under a key, nothing after it was taken out or where
/// nothing was ever put, and keeps the keys apart.
pub proof fn law_tables_give_back_what_was_put<K: Key, V: View>(
    blank: Table<K, V>,
    put_in: &mut Table<K, V>,
    taken_from: &mut Table<K, V>,
    seen: Table<K, V>,
    key: K,
    value: V,
    other: K,
    u: (),
    w: (),
    found: Option<&V>,
    has: bool,
)
    requires
        call_ensures(Table::<K, V>::new, (), blank),
        call_ensures(Table::<K, V>::insert, (put_in, key, value), u),
        call_ensures(Table::<K, V>::remove, (taken_from, &key), w),
        call_ensures(Table::<K, V>::get, (&seen, &key), found),
        call_ensures(Table::<K, V>::contains, (&seen, &key), has),
        other@ != key@,
    ensures
        !blank@.contains_key(key@),
        final(put_in)@.contains_key(key@) && final(put_in)@[key@] == value@,
        final(put_in)@.contains_key(other@) <==> old(put_in)@.contains_key(other@),
        old(put_in)@.contains_key(other@) ==> final(put_in)@[other@] == old(put_in)@[other@],
        !final(taken_from)@.contains_key(key@),
        final(taken_from)@.contains_key(other@) <==> old(taken_from)@.contains_key(other@),
        old(taken_from)@.contains_key(other@) ==> final(taken_from)@[other@]
            == old(taken_from)@[other@],
        found is Some <==> seen@.contains_key(key@),
        found is Some ==> found->0@ == seen@[key@],
        has <==> found is Some,
{
}

/// The extension of the entries' life, and the symbols of the reasons for a liquidation, are the
/// ones that are promised.
pub proof fn law_lifetimes_and_symbols(
    e: Effect,
    reason: LiquidationReason,
    symbol: &'static str,
)
    requires
        call_ensures(bump_instance_ttl, (), e),
        call_ensures(LiquidationReason::symbol, (&reason,), symbol),
    ensures
        e == (Effect::ExtendTtl { threshold: 15_768_000, extend_to: 31_536_000 }),
        reason is FullySlashed ==> symbol@ == "fully_slashed"@,
        reason is ExpiredUnrenewed ==> symbol@ == "expired_unrenewed"@,
{
}

/// Each refusal without a code aborts with its own text.
pub proof fn law_refusals_have_their_texts(why: Revert, text: Option<&'static str>)
    requires
        call_ensures(Revert::message, (&why,), text),
    ensures
        why is PauseNotInitialized ==> text is Some && text->0@ == "not initialized"@,
        why is PauseNotAdmin ==> text is Some && text->0@ == "not admin"@,
        why is AmountNotPositive ==> text is Some && text->0@ == "amount must be positive"@,
        why is BondEndWouldOverflow ==> text is Some && text->0@
            == "bond end timestamp would overflow"@,
        why is BondEndOverflow ==> text is Some && text->0@ == "bond end timestamp overflow"@,
        why is NoticePeriodOverflow ==> text is Some && text->0@ == "notice period overflow"@,
        why is LockupRunning ==> text is Some && text->0@
            == "lock-up not expired; use withdraw_early"@,
        why is WithdrawalNotRequested ==> text is Some && text->0@ == "withdrawal not requested"@,
        why is NoticeNotStarted ==> text is Some && text->0@ == "notice not started"@,
        why is NoticePeriodNotElapsed ==> text is Some && text->0@ == "notice period not elapsed"@,
        why is NotEligibleForLiquidation ==> text is Some && text->0@
            == "bond is not eligible for liquidation: must be fully slashed or expired (non-rolling) without renewal"@,
        why is DuplicateAttesterInBatch ==> text is Some && text->0@
            == "duplicate attester in batch"@,
        why is SelfTransfer ==> text is Some && text->0@
            == "recipient cannot be the contract itself"@,
        why is TotalAmountOverflow ==> text is Some && text->0@ == "total amount overflow"@,
        why is Contract || why is Paused || why is Unauthorized || why is BorrowFrozen
            || why is InvalidNonce || why is EmptyTokenList || why is PenaltyRateOutOfRange
            || why is EmergencyConfigNotSet || why is UnknownDrainRecord
            || why is ArithmeticOverflow || why is Subsystem ==> text is None,
{
}

} // verus!
