//! What holds of every ledger, proved of the model that the executable
//! ledger is specified against.

use vstd::prelude::*;
use crate::model::{
    both, bounded_check, data_source_check, items_check, metadata_check, not_empty_check,
    not_zero_check, Checked, LedgerView, Operation,
};
use crate::types::{
    AccountId, AssetCO2EmissionsError, AssetDetailsView, AssetId, EmissionsView, Limits,
    ParentDetails,
};
use crate::validate::lemma_items_check_ok;

verus! {

/// The empty ledger is well-formed, whatever its limits.
pub proof fn lemma_init_wf(contract_owner: AccountId, limits: Limits)
    ensures
        LedgerView::init(contract_owner, limits).wf(),
{
}

/// Handing the contract on keeps a ledger well-formed.
pub proof fn lemma_set_contract_owner_wf(l: LedgerView, new_owner: AccountId)
    requires
        l.wf(),
    ensures
        l.set_contract_owner_post(new_owner).wf(),
{
    let post = l.set_contract_owner_post(new_owner);
    assert forall|owner: AccountId, id: AssetId| #[trigger]
        post.list_assets(owner).contains(id) <==> post.owner_of(id) == Some(owner) by {
        assert(l.list_assets(owner).contains(id) <==> l.owner_of(id) == Some(owner));
    }
}

/// A list of valid records followed by another is a list of valid records.
pub proof fn lemma_items_check_concat(
    limits: Limits,
    a: Seq<EmissionsView>,
    b: Seq<EmissionsView>,
)
    requires
        items_check(limits, a) is Ok,
        items_check(limits, b) is Ok,
    ensures
        items_check(limits, a + b) is Ok,
{
    lemma_items_check_ok(limits, a);
    lemma_items_check_ok(limits, b);
    lemma_items_check_ok(limits, a + b);
}

/// A successful creation keeps a ledger well-formed.
pub proof fn lemma_blast_wf(
    l: LedgerView,
    caller: AccountId,
    to: AccountId,
    metadata: Seq<u8>,
    emissions: Seq<EmissionsView>,
    parent: ParentDetails,
)
    requires
        l.wf(),
        l.blast_check(caller, metadata, emissions, parent) is Ok,
    ensures
        l.blast_post(to, metadata, emissions, parent).wf(),
{
    let post = l.blast_post(to, metadata, emissions, parent);
    let id = l.next_id;
    assert(!l.emissions.contains_key(id));
    assert(post.emissions[id] =~= emissions);
    assert(post.parents_wf()) by {
        assert forall|x: AssetId| #[trigger] post.parents.contains_key(x) implies match post.parents[x] {
            None => true,
            Some((parent_id, relation)) => {
                &&& 1 <= parent_id < x
                &&& relation != 0
                &&& post.has_paused(parent_id) == Some(true)
            },
        } by {
            if x != id {
                assert(l.parents.contains_key(x));
            } else {
                match parent {
                    None => {},
                    Some((parent_id, relation)) => {
                        assert(l.owners.contains_key(parent_id));
                    },
                }
            }
        }
    }
    assert forall|owner: AccountId, x: AssetId| #[trigger]
        post.list_assets(owner).contains(x) <==> post.owner_of(x) == Some(owner) by {
        assert(l.list_assets(owner).contains(x) <==> l.owner_of(x) == Some(owner));
    }
}

/// A successful transfer keeps a ledger well-formed.
pub proof fn lemma_transfer_wf(
    l: LedgerView,
    caller: AccountId,
    to: AccountId,
    id: AssetId,
    emissions: Seq<EmissionsView>,
)
    requires
        l.wf(),
        l.transfer_check(caller, id, emissions) is Ok,
    ensures
        l.transfer_post(caller, to, id, emissions).wf(),
{
    let post = l.transfer_post(caller, to, id, emissions);
    assert(l.emissions.contains_key(id));
    assert(post.emissions[id] =~= l.emissions[id] + emissions);
    lemma_items_check_concat(l.limits, l.emissions[id], emissions);
    assert forall|owner: AccountId, x: AssetId| #[trigger]
        post.list_assets(owner).contains(x) <==> post.owner_of(x) == Some(owner) by {
        assert(l.list_assets(owner).contains(x) <==> l.owner_of(x) == Some(owner));
    }
}

/// A successful pause keeps a ledger well-formed.
pub proof fn lemma_pause_wf(l: LedgerView, caller: AccountId, id: AssetId)
    requires
        l.wf(),
        l.pause_check(caller, id) is Ok,
    ensures
        l.pause_post(id).wf(),
{
    let post = l.pause_post(id);
    assert forall|owner: AccountId, x: AssetId| #[trigger]
        post.list_assets(owner).contains(x) <==> post.owner_of(x) == Some(owner) by {
        assert(l.list_assets(owner).contains(x) <==> l.owner_of(x) == Some(owner));
    }
}

/// Successfully adding a record keeps a ledger well-formed.
pub proof fn lemma_add_emissions_wf(
    l: LedgerView,
    caller: AccountId,
    id: AssetId,
    item: EmissionsView,
)
    requires
        l.wf(),
        l.add_emissions_check(caller, id, item) is Ok,
    ensures
        l.add_emissions_post(id, item).wf(),
{
    let post = l.add_emissions_post(id, item);
    assert(l.emissions.contains_key(id));
    assert(post.emissions[id] =~= l.emissions[id] + seq![item]);
    lemma_items_check_ok(l.limits, seq![item]);
    lemma_items_check_concat(l.limits, l.emissions[id], seq![item]);
    assert forall|owner: AccountId, x: AssetId| #[trigger]
        post.list_assets(owner).contains(x) <==> post.owner_of(x) == Some(owner) by {
        assert(l.list_assets(owner).contains(x) <==> l.owner_of(x) == Some(owner));
    }
}

/// Every operation keeps a ledger well-formed, whether it succeeds or not.
pub proof fn lemma_apply_wf(l: LedgerView, op: Operation)
    requires
        l.wf(),
    ensures
        l.apply(op).wf(),
{
    if l.check(op) is Ok {
        match op {
            Operation::SetContractOwner { caller, new_owner } => {
                lemma_set_contract_owner_wf(l, new_owner);
            },
            Operation::Blast { caller, to, metadata, emissions, parent } => {
                lemma_blast_wf(l, caller, to, metadata, emissions, parent);
            },
            Operation::Transfer { caller, to, id, emissions } => {
                lemma_transfer_wf(l, caller, to, id, emissions);
            },
            Operation::Pause { caller, id } => {
                lemma_pause_wf(l, caller, id);
            },
            Operation::AddEmissions { caller, id, item } => {
                lemma_add_emissions_wf(l, caller, id, item);
            },
        }
    }
}

/// Every run of operations keeps a ledger well-formed.
pub proof fn lemma_run_wf(l: LedgerView, ops: Seq<Operation>)
    requires
        l.wf(),
    ensures
        l.run(ops).wf(),
    decreases ops.len(),
{
    if ops.len() > 0 {
        lemma_run_wf(l, ops.drop_last());
        lemma_apply_wf(l.run(ops.drop_last()), ops.last());
    }
}

/// The limits of a ledger stay what they were set up as over any run of
/// operations.
pub proof fn lemma_run_keeps_limits(l: LedgerView, ops: Seq<Operation>)
    ensures
        l.run(ops).limits == l.limits,
    decreases ops.len(),
{
    if ops.len() > 0 {
        lemma_run_keeps_limits(l, ops.drop_last());
    }
}

/// A successful creation assigns the identifier at the counter, which no
/// asset had before, and moves the counter on by one. The new asset has
/// what it was created with, and is not paused.
pub proof fn lemma_blast_creates(
    l: LedgerView,
    caller: AccountId,
    to: AccountId,
    metadata: Seq<u8>,
    emissions: Seq<EmissionsView>,
    parent: ParentDetails,
)
    requires
        l.wf(),
        l.blast_check(caller, metadata, emissions, parent) is Ok,
    ensures
        !l.contains(l.next_id),
        l.blast_post(to, metadata, emissions, parent).next_id == l.next_id + 1,
        l.blast_post(to, metadata, emissions, parent).owner_of(l.next_id) == Some(to),
        l.blast_post(to, metadata, emissions, parent).has_paused(l.next_id) == Some(false),
        l.blast_post(to, metadata, emissions, parent).get_asset(l.next_id) == Some(
            AssetDetailsView { asset_id: l.next_id, metadata, emissions, parent },
        ),
{
    let post = l.blast_post(to, metadata, emissions, parent);
    assert(!l.emissions.contains_key(l.next_id));
    assert(post.emissions[l.next_id] =~= emissions);
}

/// In a well-formed ledger the identifier at the counter is free: a creation
/// is never refused because its asset exists already.
pub proof fn lemma_blast_finds_id_free(
    l: LedgerView,
    caller: AccountId,
    metadata: Seq<u8>,
    emissions: Seq<EmissionsView>,
    parent: ParentDetails,
)
    requires
        l.wf(),
    ensures
        l.ensure_not_exist(l.next_id) is Ok,
        l.blast_check(caller, metadata, emissions, parent) != Err::<(), _>(
            AssetCO2EmissionsError::AssetAlreadyExists,
        ),
{
    assert(!l.owners.contains_key(l.next_id));
    if let Some((parent_id, relation)) = parent {
        assert(l.ensure_proper_parent(parent, caller) != Err::<(), _>(
            AssetCO2EmissionsError::AssetAlreadyExists,
        ));
    }
    lemma_items_check_no(l.limits, emissions, AssetCO2EmissionsError::AssetAlreadyExists);
}

/// The records of a list are refused for their data source or their value
/// only.
proof fn lemma_items_check_no(
    limits: Limits,
    items: Seq<EmissionsView>,
    e: AssetCO2EmissionsError,
)
    requires
        e != AssetCO2EmissionsError::DataSourceOverflow,
        e != AssetCO2EmissionsError::ZeroEmissionsItem,
    ensures
        items_check(limits, items) != Err::<(), _>(e),
    decreases items.len(),
{
    if items.len() > 0 {
        lemma_items_check_no(limits, items.drop_last(), e);
    }
}

/// Only a successful creation moves the counter, and by one.
pub proof fn lemma_apply_next_id(l: LedgerView, op: Operation)
    ensures
        l.apply(op).next_id == if op is Blast && l.check(op) is Ok {
            l.next_id + 1
        } else {
            l.next_id as int
        },
{
}

/// Identifiers are assigned in order, without gaps and never twice: in any
/// run of operations, the successful creations get the identifiers from the
/// counter on, one after the other, and the counter ends behind the last.
pub proof fn lemma_created_ids(l: LedgerView, ops: Seq<Operation>)
    ensures
        l.run(ops).next_id == l.next_id + l.created(ops).len(),
        forall|k: int| 0 <= k < l.created(ops).len() ==> #[trigger] l.created(ops)[k] == l.next_id + k,
    decreases ops.len(),
{
    if ops.len() > 0 {
        lemma_created_ids(l, ops.drop_last());
        lemma_apply_next_id(l.run(ops.drop_last()), ops.last());
    }
}

/// No operation removes an asset or shortens its emissions history: what
/// the history held before is the beginning of what it holds after.
pub proof fn lemma_apply_appends(l: LedgerView, op: Operation, id: AssetId)
    requires
        l.wf(),
        l.contains(id),
    ensures
        l.apply(op).contains(id),
        l.apply(op).emissions.contains_key(id),
        l.emissions[id].is_prefix_of(l.apply(op).emissions[id]),
{
    let post = l.apply(op);
    assert(l.emissions.contains_key(id));
    assert(l.emissions[id] =~= l.emissions[id].subrange(0, l.emissions[id].len() as int));
    if l.check(op) is Ok {
        match op {
            Operation::SetContractOwner { caller, new_owner } => {},
            Operation::Blast { caller, to, metadata, emissions, parent } => {
                assert(id != l.next_id);
            },
            Operation::Transfer { caller, to, id: target, emissions } => {
                if target == id {
                    assert(post.emissions[id] =~= l.emissions[id] + emissions);
                    assert(l.emissions[id] =~= post.emissions[id].subrange(
                        0,
                        l.emissions[id].len() as int,
                    ));
                }
            },
            Operation::Pause { caller, id: target } => {},
            Operation::AddEmissions { caller, id: target, item } => {
                if target == id {
                    assert(post.emissions[id] =~= l.emissions[id] + seq![item]);
                    assert(l.emissions[id] =~= post.emissions[id].subrange(
                        0,
                        l.emissions[id].len() as int,
                    ));
                }
            },
        }
    }
}

/// Over any run of operations the emissions history of an asset only grows
/// at its end.
pub proof fn lemma_run_appends(l: LedgerView, ops: Seq<Operation>, id: AssetId)
    requires
        l.wf(),
        l.contains(id),
    ensures
        l.run(ops).contains(id),
        l.run(ops).emissions.contains_key(id),
        l.emissions[id].is_prefix_of(l.run(ops).emissions[id]),
    decreases ops.len(),
{
    assert(l.emissions.contains_key(id));
    if ops.len() == 0 {
        assert(l.emissions[id] =~= l.emissions[id].subrange(0, l.emissions[id].len() as int));
    } else {
        let before = l.run(ops.drop_last());
        lemma_run_appends(l, ops.drop_last(), id);
        lemma_run_wf(l, ops.drop_last());
        lemma_apply_appends(before, ops.last(), id);
        let a = l.emissions[id];
        let b = before.emissions[id];
        let c = l.run(ops).emissions[id];
        assert(a =~= c.subrange(0, a.len() as int)) by {
            assert(a =~= b.subrange(0, a.len() as int));
            assert(b =~= c.subrange(0, b.len() as int));
        }
    }
}

/// A paused asset is frozen: no operation changes its details, its owner or
/// its pause.
pub proof fn lemma_apply_frozen(l: LedgerView, op: Operation, id: AssetId)
    requires
        l.wf(),
        l.has_paused(id) == Some(true),
    ensures
        l.apply(op).has_paused(id) == Some(true),
        l.apply(op).owner_of(id) == l.owner_of(id),
        l.apply(op).get_asset(id) == l.get_asset(id),
{
    assert(l.paused.contains_key(id));
    assert(l.contains(id));
    if l.check(op) is Ok {
        match op {
            Operation::Blast { caller, to, metadata, emissions, parent } => {
                assert(id != l.next_id);
            },
            _ => {},
        }
    }
}

/// Once an asset is paused, it stays paused and as it is over any run of
/// operations.
pub proof fn lemma_run_frozen(l: LedgerView, ops: Seq<Operation>, id: AssetId)
    requires
        l.wf(),
        l.has_paused(id) == Some(true),
    ensures
        l.run(ops).has_paused(id) == Some(true),
        l.run(ops).owner_of(id) == l.owner_of(id),
        l.run(ops).get_asset(id) == l.get_asset(id),
    decreases ops.len(),
{
    if ops.len() > 0 {
        lemma_run_frozen(l, ops.drop_last(), id);
        lemma_run_wf(l, ops.drop_last());
        lemma_apply_frozen(l.run(ops.drop_last()), ops.last(), id);
    }
}

/// The history of a paused asset is final: no operation changes what the
/// walk from it returns.
pub proof fn lemma_apply_keeps_history(l: LedgerView, op: Operation, id: AssetId)
    requires
        l.wf(),
        l.has_paused(id) == Some(true),
    ensures
        l.apply(op).tree_path(id) == l.tree_path(id),
    decreases id,
{
    lemma_apply_frozen(l, op, id);
    assert(l.paused.contains_key(id));
    assert(l.parents.contains_key(id));
    if let Some((parent_id, _)) = l.parents[id] {
        lemma_apply_keeps_history(l, op, parent_id);
    }
}

/// What the walk from a paused asset returns stays the same over any run of
/// operations.
pub proof fn lemma_run_keeps_history(l: LedgerView, ops: Seq<Operation>, id: AssetId)
    requires
        l.wf(),
        l.has_paused(id) == Some(true),
    ensures
        l.run(ops).tree_path(id) == l.tree_path(id),
    decreases ops.len(),
{
    if ops.len() > 0 {
        lemma_run_keeps_history(l, ops.drop_last(), id);
        lemma_run_wf(l, ops.drop_last());
        lemma_run_frozen(l, ops.drop_last(), id);
        lemma_apply_keeps_history(l.run(ops.drop_last()), ops.last(), id);
    }
}

/// Pausing a paused asset fails: with `AlreadyPaused` for its owner, and for
/// any other caller with `NotOwner`, which is checked first.
pub proof fn lemma_pause_twice(l: LedgerView, caller: AccountId, id: AssetId)
    requires
        l.wf(),
        l.has_paused(id) == Some(true),
    ensures
        l.pause_check(caller, id) == Err::<(), _>(
            if l.owner_of(id) == Some(caller) {
                AssetCO2EmissionsError::AlreadyPaused
            } else {
                AssetCO2EmissionsError::NotOwner
            },
        ),
{
    assert(l.paused.contains_key(id));
    assert(l.owners.contains_key(id));
}

/// Metadata and parent of an asset never change.
pub proof fn lemma_apply_keeps_origin(l: LedgerView, op: Operation, id: AssetId)
    requires
        l.wf(),
        l.contains(id),
    ensures
        l.apply(op).get_metadata(id) == l.get_metadata(id),
        l.apply(op).get_parent_details(id) == l.get_parent_details(id),
{
    if l.check(op) is Ok {
        match op {
            Operation::Blast { caller, to, metadata, emissions, parent } => {
                assert(id != l.next_id);
            },
            _ => {},
        }
    }
}

/// Metadata and parent of an asset stay what they were over any run of
/// operations.
pub proof fn lemma_run_keeps_origin(l: LedgerView, ops: Seq<Operation>, id: AssetId)
    requires
        l.wf(),
        l.contains(id),
    ensures
        l.run(ops).get_metadata(id) == l.get_metadata(id),
        l.run(ops).get_parent_details(id) == l.get_parent_details(id),
    decreases ops.len(),
{
    if ops.len() > 0 {
        lemma_run_keeps_origin(l, ops.drop_last(), id);
        lemma_run_wf(l, ops.drop_last());
        lemma_run_appends(l, ops.drop_last(), id);
        lemma_apply_keeps_origin(l.run(ops.drop_last()), ops.last(), id);
    }
}

/// After any run of operations, the index files an asset under an account
/// exactly if the account owns the asset.
pub proof fn lemma_run_index(l: LedgerView, ops: Seq<Operation>, owner: AccountId, id: AssetId)
    requires
        l.wf(),
    ensures
        l.run(ops).list_assets(owner).contains(id) <==> l.run(ops).owner_of(id) == Some(owner),
{
    lemma_run_wf(l, ops);
}

/// An asset has one owner at a time: it is never filed under two accounts.
pub proof fn lemma_one_owner(l: LedgerView, first: AccountId, second: AccountId, id: AssetId)
    requires
        l.wf(),
        l.list_assets(first).contains(id),
        l.list_assets(second).contains(id),
    ensures
        first == second,
{
    assert(l.owner_of(id) == Some(first));
    assert(l.owner_of(id) == Some(second));
}

/// The walk from the newest asset of a chain, in which each asset but the
/// first was split from the one before it, returns one entry for each asset
/// of the chain, from the newest back to the first, and each entry holds
/// the details of its asset.
pub proof fn lemma_tree_path_chain(l: LedgerView, chain: Seq<AssetId>)
    requires
        l.wf(),
        chain.len() >= 1,
        forall|i: int| 0 <= i < chain.len() ==> l.contains(#[trigger] chain[i]),
        l.get_parent_details(chain[0]) == Some(None::<(AssetId, AssetId)>),
        forall|i: int| 1 <= i < chain.len() ==> l.split_from(#[trigger] chain[i], chain[i - 1]),
    ensures
        l.query_emissions(chain.last()) == Some(l.tree_path(chain.last())),
        l.tree_path(chain.last()).len() == chain.len(),
        forall|k: int|
            0 <= k < chain.len() ==> Some(#[trigger] l.tree_path(chain.last())[k]) == l.get_asset(
                chain[chain.len() - 1 - k],
            ),
    decreases chain.len(),
{
    let last = chain.last();
    assert(l.contains(last));
    assert(l.metadata.contains_key(last));
    assert(l.parents.contains_key(last));
    let details = l.get_asset(last)->0;
    if chain.len() == 1 {
        assert(l.tree_path(last) =~= seq![details]);
    } else {
        let rest = chain.drop_last();
        assert(l.split_from(chain[chain.len() - 1], rest.last()));
        assert forall|i: int| 1 <= i < rest.len() implies l.split_from(
            #[trigger] rest[i],
            rest[i - 1],
        ) by {
            assert(l.split_from(chain[i], chain[i - 1]));
        }
        assert forall|i: int| 0 <= i < rest.len() implies l.contains(#[trigger] rest[i]) by {
            assert(rest[i] == chain[i]);
        }
        lemma_tree_path_chain(l, rest);
        assert(l.tree_path(last) =~= seq![details] + l.tree_path(rest.last()));
        assert forall|k: int| 0 <= k < chain.len() implies Some(
            #[trigger] l.tree_path(chain.last())[k],
        ) == l.get_asset(chain[chain.len() - 1 - k]) by {
            if k > 0 {
                assert(l.tree_path(last)[k] == l.tree_path(rest.last())[k - 1]);
                assert(rest[rest.len() - 1 - (k - 1)] == chain[chain.len() - 1 - k]);
            }
        }
    }
}

/// The first error in a list of checks, if any has one.
pub open spec fn first_error(checks: Seq<Checked>) -> Checked
    decreases checks.len(),
{
    if checks.len() == 0 {
        Ok(())
    } else {
        both(checks[0], first_error(checks.drop_first()))
    }
}

/// Where several checks of a list fail, the earliest of them decides.
pub proof fn lemma_first_error_is_earliest(checks: Seq<Checked>, i: int)
    requires
        0 <= i < checks.len(),
        checks[i] is Err,
        forall|j: int| 0 <= j < i ==> checks[j] is Ok,
    ensures
        first_error(checks) == checks[i],
    decreases i,
{
    if i > 0 {
        let rest = checks.drop_first();
        assert forall|j: int| 0 <= j < i - 1 implies rest[j] is Ok by {
            assert(rest[j] == checks[j + 1]);
        }
        lemma_first_error_is_earliest(rest, i - 1);
    }
}

/// A list of checks passes exactly if each of them does.
pub proof fn lemma_first_error_ok(checks: Seq<Checked>)
    ensures
        first_error(checks) is Ok <==> forall|i: int| 0 <= i < checks.len() ==> checks[i] is Ok,
    decreases checks.len(),
{
    if checks.len() > 0 {
        let rest = checks.drop_first();
        lemma_first_error_ok(rest);
        if first_error(checks) is Ok {
            assert forall|i: int| 0 <= i < checks.len() implies checks[i] is Ok by {
                if i > 0 {
                    assert(rest[i - 1] == checks[i]);
                }
            }
        } else if checks[0] is Ok {
            let i = choose|i: int| 0 <= i < rest.len() && !(rest[i] is Ok);
            assert(rest[i] == checks[i + 1]);
        }
    }
}

/// One check before a list of others.
proof fn lemma_first_error_cons(head: Checked, tail: Seq<Checked>)
    ensures
        first_error(seq![head] + tail) == both(head, first_error(tail)),
{
    assert((seq![head] + tail).drop_first() =~= tail);
}

/// The checks of a creation, in their order.
pub open spec fn blast_checks(
    l: LedgerView,
    caller: AccountId,
    metadata: Seq<u8>,
    emissions: Seq<EmissionsView>,
    parent: ParentDetails,
) -> Seq<Checked> {
    seq![
        metadata_check(l.limits, metadata),
        not_empty_check(emissions.len()),
        bounded_check(l.limits, emissions.len()),
        items_check(l.limits, emissions),
        l.ensure_proper_parent(parent, caller),
        l.next_id_check(),
        l.ensure_not_exist(l.next_id),
    ]
}

/// The checks of a parent named for a new asset, in their order.
pub open spec fn parent_checks(
    l: LedgerView,
    parent_id: AssetId,
    relation: AssetId,
    caller: AccountId,
) -> Seq<Checked> {
    seq![
        l.ensure_owner(parent_id, caller),
        if relation == 0 {
            Err(AssetCO2EmissionsError::InvalidAssetRelation)
        } else {
            Ok(())
        },
        l.ensure_paused(parent_id),
    ]
}

/// The checks of a transfer, in their order.
pub open spec fn transfer_checks(
    l: LedgerView,
    caller: AccountId,
    id: AssetId,
    emissions: Seq<EmissionsView>,
) -> Seq<Checked> {
    seq![
        l.ensure_exists(id),
        l.ensure_owner(id, caller),
        l.ensure_not_paused(id),
        not_empty_check(emissions.len()),
        bounded_check(l.limits, l.emissions_len(id) + emissions.len()),
        items_check(l.limits, emissions),
    ]
}

/// The checks of a pause, in their order.
pub open spec fn pause_checks(l: LedgerView, caller: AccountId, id: AssetId) -> Seq<Checked> {
    seq![l.ensure_owner(id, caller), l.ensure_not_paused(id)]
}

/// The checks of adding one emissions record, in their order.
pub open spec fn add_emissions_checks(
    l: LedgerView,
    caller: AccountId,
    id: AssetId,
    item: EmissionsView,
) -> Seq<Checked> {
    seq![
        l.ensure_exists(id),
        l.ensure_owner(id, caller),
        l.ensure_not_paused(id),
        data_source_check(l.limits, item.data_source),
        not_zero_check(item.value),
        bounded_check(l.limits, l.emissions_len(id) + 1),
    ]
}

/// A creation reports the first error among its checks in their order.
pub proof fn lemma_blast_order(
    l: LedgerView,
    caller: AccountId,
    metadata: Seq<u8>,
    emissions: Seq<EmissionsView>,
    parent: ParentDetails,
)
    ensures
        l.blast_check(caller, metadata, emissions, parent) == first_error(
            blast_checks(l, caller, metadata, emissions, parent),
        ),
{
    let c = blast_checks(l, caller, metadata, emissions, parent);
    let t6 = seq![c[6]];
    let t5 = seq![c[5]] + t6;
    let t4 = seq![c[4]] + t5;
    let t3 = seq![c[3]] + t4;
    let t2 = seq![c[2]] + t3;
    let t1 = seq![c[1]] + t2;
    assert(c =~= seq![c[0]] + t1);
    assert(t6 =~= seq![c[6]] + Seq::<Checked>::empty());
    lemma_first_error_cons(c[6], Seq::empty());
    lemma_first_error_cons(c[5], t6);
    lemma_first_error_cons(c[4], t5);
    lemma_first_error_cons(c[3], t4);
    lemma_first_error_cons(c[2], t3);
    lemma_first_error_cons(c[1], t2);
    lemma_first_error_cons(c[0], t1);
}

/// The parent named for a new asset is reported with the first error among
/// its checks in their order.
pub proof fn lemma_parent_order(
    l: LedgerView,
    parent_id: AssetId,
    relation: AssetId,
    caller: AccountId,
)
    ensures
        l.ensure_proper_parent(Some((parent_id, relation)), caller) == first_error(
            parent_checks(l, parent_id, relation, caller),
        ),
{
    let c = parent_checks(l, parent_id, relation, caller);
    let t2 = seq![c[2]];
    let t1 = seq![c[1]] + t2;
    assert(c =~= seq![c[0]] + t1);
    assert(t2 =~= seq![c[2]] + Seq::<Checked>::empty());
    lemma_first_error_cons(c[2], Seq::empty());
    lemma_first_error_cons(c[1], t2);
    lemma_first_error_cons(c[0], t1);
}

/// A transfer reports the first error among its checks in their order.
pub proof fn lemma_transfer_order(
    l: LedgerView,
    caller: AccountId,
    id: AssetId,
    emissions: Seq<EmissionsView>,
)
    ensures
        l.transfer_check(caller, id, emissions) == first_error(
            transfer_checks(l, caller, id, emissions),
        ),
{
    let c = transfer_checks(l, caller, id, emissions);
    let t5 = seq![c[5]];
    let t4 = seq![c[4]] + t5;
    let t3 = seq![c[3]] + t4;
    let t2 = seq![c[2]] + t3;
    let t1 = seq![c[1]] + t2;
    assert(c =~= seq![c[0]] + t1);
    assert(t5 =~= seq![c[5]] + Seq::<Checked>::empty());
    lemma_first_error_cons(c[5], Seq::empty());
    lemma_first_error_cons(c[4], t5);
    lemma_first_error_cons(c[3], t4);
    lemma_first_error_cons(c[2], t3);
    lemma_first_error_cons(c[1], t2);
    lemma_first_error_cons(c[0], t1);
}

/// A pause reports the first error among its checks in their order.
pub proof fn lemma_pause_order(l: LedgerView, caller: AccountId, id: AssetId)
    ensures
        l.pause_check(caller, id) == first_error(pause_checks(l, caller, id)),
{
    let c = pause_checks(l, caller, id);
    let t1 = seq![c[1]];
    assert(c =~= seq![c[0]] + t1);
    assert(t1 =~= seq![c[1]] + Seq::<Checked>::empty());
    lemma_first_error_cons(c[1], Seq::empty());
    lemma_first_error_cons(c[0], t1);
}

/// Adding one emissions record reports the first error among its checks in
/// their order.
pub proof fn lemma_add_emissions_order(
    l: LedgerView,
    caller: AccountId,
    id: AssetId,
    item: EmissionsView,
)
    ensures
        l.add_emissions_check(caller, id, item) == first_error(
            add_emissions_checks(l, caller, id, item),
        ),
{
    let c = add_emissions_checks(l, caller, id, item);
    let t5 = seq![c[5]];
    let t4 = seq![c[4]] + t5;
    let t3 = seq![c[3]] + t4;
    let t2 = seq![c[2]] + t3;
    let t1 = seq![c[1]] + t2;
    assert(c =~= seq![c[0]] + t1);
    assert(t5 =~= seq![c[5]] + Seq::<Checked>::empty());
    lemma_first_error_cons(c[5], Seq::empty());
    lemma_first_error_cons(c[4], t5);
    lemma_first_error_cons(c[3], t4);
    lemma_first_error_cons(c[2], t3);
    lemma_first_error_cons(c[1], t2);
    lemma_first_error_cons(c[0], t1);
}

/// A caller who does not own an asset is told so, whether or not the asset
/// is paused, by each of the three operations on an asset.
pub proof fn lemma_not_owner_wins(
    l: LedgerView,
    caller: AccountId,
    id: AssetId,
    emissions: Seq<EmissionsView>,
    item: EmissionsView,
)
    requires
        l.contains(id),
        l.owner_of(id) != Some(caller),
    ensures
        l.pause_check(caller, id) == Err::<(), _>(AssetCO2EmissionsError::NotOwner),
        l.transfer_check(caller, id, emissions) == Err::<(), _>(AssetCO2EmissionsError::NotOwner),
        l.add_emissions_check(caller, id, item) == Err::<(), _>(
            AssetCO2EmissionsError::NotOwner,
        ),
{
}

} // verus!
