//! The library's general laws, stated over the same ghost table contents
//! that the record operations' contracts use.
//!
//! Each law composes with those contracts: `insert` ensures the table gained
//! exactly the inserted record, `delete` ensures it lost exactly the removed
//! one, `get` ensures the returned fields are the stored ones, and
//! `secret_exists` ensures its answer equals membership in the table — so
//! the lemmas below carry the round-trip facts between those operations.

use vstd::prelude::*;

use crate::objects::SecretType;
use crate::ops::kind_contains;
use crate::store::EncryptedStore;

verus! {

/// Inserting a record under a name not previously present and then looking
/// that name up in the resulting table yields exactly the inserted record.
/// Composed with the contracts of `insert` and `get`, an insertion of a
/// fresh `(kind, name)` followed by `get(kind, name)` returns the same
/// fields that were inserted.
pub proof fn lemma_insert_then_get<V>(m: Map<Seq<char>, V>, name: Seq<char>, record: V)
    requires
        !m.dom().contains(name),
    ensures
        m.insert(name, record).dom().contains(name),
        m.insert(name, record)[name] == record,
{
}

/// An insertion never disturbs another name's record.  Composed with the
/// contract of `insert`, every record other than the inserted one keeps its
/// fields.
pub proof fn lemma_insert_preserves_others<V>(
    m: Map<Seq<char>, V>,
    name: Seq<char>,
    record: V,
    other: Seq<char>,
)
    requires
        other != name,
    ensures
        m.insert(name, record).dom().contains(other) == m.dom().contains(other),
        m.dom().contains(other) ==> m.insert(name, record)[other] == m[other],
{
}

/// After a record is removed from a table, its name is no longer present.
/// Composed with the contracts of `delete` and `get`, a `delete` followed by
/// a `get` of the same `(kind, name)` fails with `NotFound`.
pub proof fn lemma_delete_then_get<V>(m: Map<Seq<char>, V>, name: Seq<char>)
    ensures
        !m.remove(name).dom().contains(name),
        forall|other: Seq<char>|
            other != name && m.dom().contains(other) ==> m.remove(name).dom().contains(other)
                && m.remove(name)[other] == m[other],
{
}

/// A failed record operation leaves every stored record retrievable
/// unchanged.  The operations ensure that on every failure both tables are
/// unchanged — in particular when inserting a taken, non-reserved name fails
/// with `DuplicateName`, and when updating an existing record's field
/// outside its kind's mutable set fails with `InvalidField` — so with
/// `get`'s contract a following retrieval of any present name returns the
/// same record as before the failed call.
pub proof fn lemma_failed_operation_preserves_record<V>(
    pre: Map<Seq<char>, V>,
    post: Map<Seq<char>, V>,
    name: Seq<char>,
)
    requires
        post == pre,
        pre.dom().contains(name),
    ensures
        post.dom().contains(name),
        post[name] == pre[name],
{
}

/// Existence of a `(kind, name)` is a function of the store's contents
/// alone: any two answers drawn from the same contents agree.  Composed with
/// the contract of `secret_exists` (whose `Ok` answer equals membership in
/// the kind's table, and which borrows the store immutably), any number of
/// existence checks without an intervening mutation return the same boolean.
pub proof fn lemma_exists_idempotent(
    s: EncryptedStore,
    kind: SecretType,
    name: Seq<char>,
    r1: bool,
    r2: bool,
)
    requires
        r1 == kind_contains(s, kind, name),
        r2 == kind_contains(s, kind, name),
    ensures
        r1 == r2,
{
}

} // verus!
