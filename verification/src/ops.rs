//! Record operations against an open [`EncryptedStore`]: existence checks,
//! insertion, field updates, deletion and retrieval, enforcing the secret
//! model's invariants (name uniqueness per kind, the reserved master name,
//! and each kind's fixed mutable field set).
//!
//! Every contract is stated over the ghost table contents [`store_logins`]
//! and [`store_apikeys`].  The storage engine can fail at any point, so no
//! operation promises success outright; each states exactly which validation
//! error comes on which inputs, that success is owed whenever no validation
//! error applies and storage does not fail, and that the tables are unchanged
//! on every failure.

use vstd::prelude::*;

use crate::errors::CMError;
use crate::objects::{
    api_field_ok, field_ok, login_field_ok, secret_kind, secret_name, APIObj, AccountObj,
    FieldType, Secret, SecretType, SecretView,
};
use crate::store::{
    storage_error_of, store_apikeys, store_logins, ApiEntry, EncryptedStore, LoginEntry,
};
use crate::strutil::{lemma_views_push, str_eq, views};

verus! {

/// The one name no secret may carry: it is reserved for the master password.
pub open spec fn is_reserved(name: Seq<char>) -> bool {
    name == "master"@
}

/// Whether the table of `kind` has a record named `name`.
pub open spec fn kind_contains(s: EncryptedStore, kind: SecretType, name: Seq<char>) -> bool {
    match kind {
        SecretType::Login => store_logins(s).dom().contains(name),
        SecretType::Api => store_apikeys(s).dom().contains(name),
    }
}

/// The login record an `AccountObj` stands for.
pub open spec fn login_entry_of(a: AccountObj) -> LoginEntry {
    LoginEntry { user_name: a.user_name@, password: a.password@ }
}

/// The API-key record an `APIObj` stands for.
pub open spec fn api_entry_of(a: APIObj) -> ApiEntry {
    ApiEntry { description: a.description@, user_name: a.user_name@, api_key: a.api_key@ }
}

/// The login table after `update_field` changes `field` of the record named
/// `name` to `v`.
pub open spec fn login_after_update(
    m: Map<Seq<char>, LoginEntry>,
    name: Seq<char>,
    field: FieldType,
    v: Seq<char>,
) -> Map<Seq<char>, LoginEntry> {
    match field {
        FieldType::User => m.insert(name, (LoginEntry { user_name: v, password: m[name].password })),
        FieldType::Pass => m.insert(
            name,
            (LoginEntry { user_name: m[name].user_name, password: v }),
        ),
        FieldType::Secname => m.remove(name).insert(v, m[name]),
        _ => m,
    }
}

/// The API-key table after `update_field` changes `field` of the record named
/// `name` to `v`.
pub open spec fn api_after_update(
    m: Map<Seq<char>, ApiEntry>,
    name: Seq<char>,
    field: FieldType,
    v: Seq<char>,
) -> Map<Seq<char>, ApiEntry> {
    match field {
        FieldType::User => m.insert(
            name,
            (ApiEntry {
                description: m[name].description,
                user_name: v,
                api_key: m[name].api_key,
            }),
        ),
        FieldType::Desc => m.insert(
            name,
            (ApiEntry {
                description: v,
                user_name: m[name].user_name,
                api_key: m[name].api_key,
            }),
        ),
        FieldType::Key => m.insert(
            name,
            (ApiEntry {
                description: m[name].description,
                user_name: m[name].user_name,
                api_key: v,
            }),
        ),
        FieldType::Secname => m.remove(name).insert(v, m[name]),
        _ => m,
    }
}

/// Both tables unchanged between two store states.
pub open spec fn tables_unchanged(pre: EncryptedStore, post: EncryptedStore) -> bool {
    store_logins(post) == store_logins(pre) && store_apikeys(post) == store_apikeys(pre)
}

/// The table of the kind *not* named is unchanged.
pub open spec fn other_kind_unchanged(
    pre: EncryptedStore,
    post: EncryptedStore,
    kind: SecretType,
) -> bool {
    match kind {
        SecretType::Login => store_apikeys(post) == store_apikeys(pre),
        SecretType::Api => store_logins(post) == store_logins(pre),
    }
}

/// The table of `kind` gained exactly the record `sv` under its name.
pub open spec fn kind_after_insert(pre: EncryptedStore, post: EncryptedStore, sv: SecretView) -> bool {
    match sv {
        SecretView::Account(a) => store_logins(post) == store_logins(pre).insert(
            a.account_name,
            (LoginEntry { user_name: a.user_name, password: a.password }),
        ),
        SecretView::API(a) => store_apikeys(post) == store_apikeys(pre).insert(
            a.api_name,
            (ApiEntry { description: a.description, user_name: a.user_name, api_key: a.api_key }),
        ),
    }
}

/// The table of `kind` lost exactly the record named `name`.
pub open spec fn kind_after_delete(
    pre: EncryptedStore,
    post: EncryptedStore,
    kind: SecretType,
    name: Seq<char>,
) -> bool {
    match kind {
        SecretType::Login => store_logins(post) == store_logins(pre).remove(name),
        SecretType::Api => store_apikeys(post) == store_apikeys(pre).remove(name),
    }
}

/// The table of `kind` after one field update, per [`login_after_update`]
/// and [`api_after_update`].
pub open spec fn kind_after_update(
    pre: EncryptedStore,
    post: EncryptedStore,
    kind: SecretType,
    name: Seq<char>,
    field: FieldType,
    v: Seq<char>,
) -> bool {
    match kind {
        SecretType::Login => store_logins(post) == login_after_update(
            store_logins(pre),
            name,
            field,
            v,
        ),
        SecretType::Api => store_apikeys(post) == api_after_update(
            store_apikeys(pre),
            name,
            field,
            v,
        ),
    }
}

/// The names present in the table of `kind`.
pub open spec fn kind_dom(s: EncryptedStore, kind: SecretType) -> Set<Seq<char>> {
    match kind {
        SecretType::Login => store_logins(s).dom(),
        SecretType::Api => store_apikeys(s).dom(),
    }
}

/// The record stored under `sv`'s name carries exactly `sv`'s fields.
pub open spec fn secret_matches_store(s: EncryptedStore, sv: SecretView) -> bool {
    match sv {
        SecretView::Account(a) => store_logins(s)[a.account_name] == (LoginEntry {
            user_name: a.user_name,
            password: a.password,
        }),
        SecretView::API(a) => store_apikeys(s)[a.api_name] == (ApiEntry {
            description: a.description,
            user_name: a.user_name,
            api_key: a.api_key,
        }),
    }
}

/// Whether a login credential named `account_name` exists.  Never fails
/// except on a storage error.
pub fn check_account_exists(account_name: &str, store: &EncryptedStore) -> (r: Result<
    bool,
    CMError,
>)
    ensures
        r matches Ok(b) ==> b == store_logins(*store).dom().contains(account_name@),
        r matches Err(e) ==> e is StorageError,
{
    match store.login_exists_raw(account_name) {
        Ok(v) => Ok(v != 0),
        Err(f) => Err(storage_error_of(f)),
    }
}

/// Whether an API key named `apikey_name` exists.  Never fails except on a
/// storage error.
pub fn check_apikey_exists(apikey_name: &str, store: &EncryptedStore) -> (r: Result<bool, CMError>)
    ensures
        r matches Ok(b) ==> b == store_apikeys(*store).dom().contains(apikey_name@),
        r matches Err(e) ==> e is StorageError,
{
    match store.api_exists_raw(apikey_name) {
        Ok(v) => Ok(v != 0),
        Err(f) => Err(storage_error_of(f)),
    }
}

/// Insert a login credential: fails with `ReservedName` exactly when the name
/// is the reserved master name, with `DuplicateName` when a login credential
/// with that name already exists, and otherwise adds exactly that record.
pub fn add_account_to_db(account: &AccountObj, store: &mut EncryptedStore) -> (r: Result<
    (),
    CMError,
>)
    ensures
        is_reserved(account.account_name@) <==> (r matches Err(e) && e is ReservedName),
        r is Ok ==> !store_logins(*old(store)).dom().contains(account.account_name@),
        r is Ok ==> store_logins(*final(store)) == store_logins(*old(store)).insert(
            account.account_name@,
            login_entry_of(*account),
        ),
        r matches Err(e) && e is DuplicateName ==> !is_reserved(account.account_name@)
            && store_logins(*old(store)).dom().contains(account.account_name@),
        !is_reserved(account.account_name@) && store_logins(*old(store)).dom().contains(
            account.account_name@,
        ) ==> (r matches Err(e) && (e is DuplicateName || e is StorageError)),
        !is_reserved(account.account_name@) && !store_logins(*old(store)).dom().contains(
            account.account_name@,
        ) ==> (r is Ok || (r matches Err(e) && e is StorageError)),
        r is Err ==> store_logins(*final(store)) == store_logins(*old(store)),
        store_apikeys(*final(store)) == store_apikeys(*old(store)),
        r matches Err(e) ==> e is ReservedName || e is DuplicateName || e is StorageError,
{
    if str_eq(account.account_name.as_str(), "master") {
        return Err(CMError::ReservedName);
    }
    let exists = match check_account_exists(account.account_name.as_str(), store) {
        Ok(b) => b,
        Err(e) => return Err(e),
    };
    if exists {
        return Err(CMError::DuplicateName);
    }
    match store.insert_login_raw(account) {
        Ok(()) => Ok(()),
        Err(f) => Err(storage_error_of(f)),
    }
}

/// Insert an API key: fails with `ReservedName` exactly when the name is the
/// reserved master name, with `DuplicateName` when an API key with that name
/// already exists, and otherwise adds exactly that record.
pub fn add_apikey_to_db(api: &APIObj, store: &mut EncryptedStore) -> (r: Result<(), CMError>)
    ensures
        is_reserved(api.api_name@) <==> (r matches Err(e) && e is ReservedName),
        r is Ok ==> !store_apikeys(*old(store)).dom().contains(api.api_name@),
        r is Ok ==> store_apikeys(*final(store)) == store_apikeys(*old(store)).insert(
            api.api_name@,
            api_entry_of(*api),
        ),
        r matches Err(e) && e is DuplicateName ==> !is_reserved(api.api_name@) && store_apikeys(
            *old(store),
        ).dom().contains(api.api_name@),
        !is_reserved(api.api_name@) && store_apikeys(*old(store)).dom().contains(api.api_name@)
            ==> (r matches Err(e) && (e is DuplicateName || e is StorageError)),
        !is_reserved(api.api_name@) && !store_apikeys(*old(store)).dom().contains(api.api_name@)
            ==> (r is Ok || (r matches Err(e) && e is StorageError)),
        r is Err ==> store_apikeys(*final(store)) == store_apikeys(*old(store)),
        store_logins(*final(store)) == store_logins(*old(store)),
        r matches Err(e) ==> e is ReservedName || e is DuplicateName || e is StorageError,
{
    if str_eq(api.api_name.as_str(), "master") {
        return Err(CMError::ReservedName);
    }
    let exists = match check_apikey_exists(api.api_name.as_str(), store) {
        Ok(b) => b,
        Err(e) => return Err(e),
    };
    if exists {
        return Err(CMError::DuplicateName);
    }
    match store.insert_api_raw(api) {
        Ok(()) => Ok(()),
        Err(f) => Err(storage_error_of(f)),
    }
}

/// Delete the login credential named `account_name`: fails with `NotFound`
/// when it is absent, and otherwise removes exactly that record.
pub fn delete_account_from_db(account_name: &str, store: &mut EncryptedStore) -> (r: Result<
    (),
    CMError,
>)
    ensures
        r is Ok ==> store_logins(*old(store)).dom().contains(account_name@),
        r is Ok ==> store_logins(*final(store)) == store_logins(*old(store)).remove(account_name@),
        r matches Err(e) && e is NotFound ==> !store_logins(*old(store)).dom().contains(
            account_name@,
        ),
        !store_logins(*old(store)).dom().contains(account_name@) ==> (r matches Err(e) && (
        e is NotFound || e is StorageError)),
        store_logins(*old(store)).dom().contains(account_name@) ==> (r is Ok || (r matches Err(e)
            && e is StorageError)),
        r is Err ==> store_logins(*final(store)) == store_logins(*old(store)),
        store_apikeys(*final(store)) == store_apikeys(*old(store)),
        r matches Err(e) ==> e is NotFound || e is StorageError,
{
    let exists = match check_account_exists(account_name, store) {
        Ok(b) => b,
        Err(e) => return Err(e),
    };
    if !exists {
        return Err(CMError::NotFound);
    }
    match store.delete_login_raw(account_name) {
        Ok(()) => Ok(()),
        Err(f) => Err(storage_error_of(f)),
    }
}

/// Delete the API key named `apikey_name`: fails with `NotFound` when it is
/// absent, and otherwise removes exactly that record.
pub fn delete_apikey_from_db(apikey_name: &str, store: &mut EncryptedStore) -> (r: Result<
    (),
    CMError,
>)
    ensures
        r is Ok ==> store_apikeys(*old(store)).dom().contains(apikey_name@),
        r is Ok ==> store_apikeys(*final(store)) == store_apikeys(*old(store)).remove(apikey_name@),
        r matches Err(e) && e is NotFound ==> !store_apikeys(*old(store)).dom().contains(
            apikey_name@,
        ),
        !store_apikeys(*old(store)).dom().contains(apikey_name@) ==> (r matches Err(e) && (
        e is NotFound || e is StorageError)),
        store_apikeys(*old(store)).dom().contains(apikey_name@) ==> (r is Ok || (r matches Err(e)
            && e is StorageError)),
        r is Err ==> store_apikeys(*final(store)) == store_apikeys(*old(store)),
        store_logins(*final(store)) == store_logins(*old(store)),
        r matches Err(e) ==> e is NotFound || e is StorageError,
{
    let exists = match check_apikey_exists(apikey_name, store) {
        Ok(b) => b,
        Err(e) => return Err(e),
    };
    if !exists {
        return Err(CMError::NotFound);
    }
    match store.delete_api_raw(apikey_name) {
        Ok(()) => Ok(()),
        Err(f) => Err(storage_error_of(f)),
    }
}

/// Retrieve the login credential named `account_name` in full: fails with
/// `NotFound` when it is absent.
pub fn get_account_from_db(account_name: &str, store: &EncryptedStore) -> (r: Result<
    Secret,
    CMError,
>)
    ensures
        r matches Ok(s) ==> (s matches Secret::Account(a) && a.account_name@ == account_name@
            && store_logins(*store).dom().contains(account_name@) && store_logins(
            *store,
        )[account_name@] == login_entry_of(a)),
        r matches Err(e) && e is NotFound ==> !store_logins(*store).dom().contains(account_name@),
        !store_logins(*store).dom().contains(account_name@) ==> (r matches Err(e) && (e is NotFound
            || e is StorageError)),
        store_logins(*store).dom().contains(account_name@) ==> (r is Ok || (r matches Err(e)
            && e is StorageError)),
        r matches Err(e) ==> e is NotFound || e is StorageError,
{
    match store.get_login_raw(account_name) {
        Ok(Some(acc)) => Ok(Secret::Account(acc)),
        Ok(None) => Err(CMError::NotFound),
        Err(f) => Err(storage_error_of(f)),
    }
}

/// Retrieve the API key named `apikey_name` in full: fails with `NotFound`
/// when it is absent.
pub fn get_apikey_from_db(apikey_name: &str, store: &EncryptedStore) -> (r: Result<Secret, CMError>)
    ensures
        r matches Ok(s) ==> (s matches Secret::API(a) && a.api_name@ == apikey_name@
            && store_apikeys(*store).dom().contains(apikey_name@) && store_apikeys(
            *store,
        )[apikey_name@] == api_entry_of(a)),
        r matches Err(e) && e is NotFound ==> !store_apikeys(*store).dom().contains(apikey_name@),
        !store_apikeys(*store).dom().contains(apikey_name@) ==> (r matches Err(e) && (e is NotFound
            || e is StorageError)),
        store_apikeys(*store).dom().contains(apikey_name@) ==> (r is Ok || (r matches Err(e)
            && e is StorageError)),
        r matches Err(e) ==> e is NotFound || e is StorageError,
{
    match store.get_api_raw(apikey_name) {
        Ok(Some(api)) => Ok(Secret::API(api)),
        Ok(None) => Err(CMError::NotFound),
        Err(f) => Err(storage_error_of(f)),
    }
}

/// Retrieve every login credential, in storage order: each record of the
/// table exactly once.  An empty table yields an empty sequence, not an
/// error.
pub fn get_all_accounts_from_db(store: &EncryptedStore) -> (r: Result<Vec<Secret>, CMError>)
    ensures
        r matches Ok(v) ==> {
            &&& store_logins(*store).dom().finite()
            &&& v@.len() == store_logins(*store).dom().len()
            &&& forall|i: int|
                0 <= i < v@.len() ==> (#[trigger] v@[i] matches Secret::Account(a)
                    && store_logins(*store).dom().contains(a.account_name@) && store_logins(
                    *store,
                )[a.account_name@] == login_entry_of(a))
            &&& forall|i: int, j: int|
                0 <= i < j < v@.len() ==> #[trigger] secret_name(v@[i]@)
                    != #[trigger] secret_name(v@[j]@)
            &&& forall|k: Seq<char>|
                #[trigger] store_logins(*store).dom().contains(k) ==> exists|i: int|
                    0 <= i < v@.len() && #[trigger] secret_name(v@[i]@) == k
        },
        r matches Err(e) ==> e is StorageError,
{
    let raw = match store.all_logins_raw() {
        Ok(v) => v,
        Err(f) => return Err(storage_error_of(f)),
    };
    let mut out: Vec<Secret> = Vec::new();
    let mut i: usize = 0;
    while i < raw.len()
        invariant
            i <= raw.len(),
            out@.len() == i as int,
            forall|j: int| 0 <= j < i as int ==> #[trigger] out@[j] == Secret::Account(raw@[j]),
        decreases raw.len() - i,
    {
        out.push(Secret::Account(raw[i].clone()));
        i += 1;
    }
    proof {
        assert forall|j: int| 0 <= j < out@.len() implies #[trigger] secret_name(out@[j]@)
            == raw@[j].account_name@ by {
            assert(out@[j] == Secret::Account(raw@[j]));
        }
        assert forall|k: Seq<char>| #[trigger] store_logins(*store).dom().contains(k) implies exists|
            i: int,
        | 0 <= i < out@.len() && #[trigger] secret_name(out@[i]@) == k by {
            let i = choose|i: int| 0 <= i < raw@.len() && #[trigger] raw@[i].account_name@ == k;
            assert(secret_name(out@[i]@) == k);
        }
    }
    Ok(out)
}

/// Retrieve every API key, in storage order: each record of the table
/// exactly once.  An empty table yields an empty sequence, not an error.
pub fn get_all_apikeys_from_db(store: &EncryptedStore) -> (r: Result<Vec<Secret>, CMError>)
    ensures
        r matches Ok(v) ==> {
            &&& store_apikeys(*store).dom().finite()
            &&& v@.len() == store_apikeys(*store).dom().len()
            &&& forall|i: int|
                0 <= i < v@.len() ==> (#[trigger] v@[i] matches Secret::API(a) && store_apikeys(
                    *store,
                ).dom().contains(a.api_name@) && store_apikeys(*store)[a.api_name@]
                    == api_entry_of(a))
            &&& forall|i: int, j: int|
                0 <= i < j < v@.len() ==> #[trigger] secret_name(v@[i]@)
                    != #[trigger] secret_name(v@[j]@)
            &&& forall|k: Seq<char>|
                #[trigger] store_apikeys(*store).dom().contains(k) ==> exists|i: int|
                    0 <= i < v@.len() && #[trigger] secret_name(v@[i]@) == k
        },
        r matches Err(e) ==> e is StorageError,
{
    let raw = match store.all_apis_raw() {
        Ok(v) => v,
        Err(f) => return Err(storage_error_of(f)),
    };
    let mut out: Vec<Secret> = Vec::new();
    let mut i: usize = 0;
    while i < raw.len()
        invariant
            i <= raw.len(),
            out@.len() == i as int,
            forall|j: int| 0 <= j < i as int ==> #[trigger] out@[j] == Secret::API(raw@[j]),
        decreases raw.len() - i,
    {
        out.push(Secret::API(raw[i].clone()));
        i += 1;
    }
    proof {
        assert forall|j: int| 0 <= j < out@.len() implies #[trigger] secret_name(out@[j]@)
            == raw@[j].api_name@ by {
            assert(out@[j] == Secret::API(raw@[j]));
        }
        assert forall|k: Seq<char>| #[trigger] store_apikeys(*store).dom().contains(k) implies exists|
            i: int,
        | 0 <= i < out@.len() && #[trigger] secret_name(out@[i]@) == k by {
            let i = choose|i: int| 0 <= i < raw@.len() && #[trigger] raw@[i].api_name@ == k;
            assert(secret_name(out@[i]@) == k);
        }
    }
    Ok(out)
}

/// How a multi-name login fetch relates the requested names to the found
/// records and the recorded errors: the requests are handled in request
/// order, each yielding either the stored record under exactly that name
/// (next in `found`) or an error (next in `errors`), with `NotFound` only
/// for a name the table lacks.
pub open spec fn login_fetch_partition(
    requests: Seq<Seq<char>>,
    found: Seq<Secret>,
    errors: Seq<CMError>,
    m: Map<Seq<char>, LoginEntry>,
) -> bool
    decreases requests.len(),
{
    if requests.len() == 0 {
        found.len() == 0 && errors.len() == 0
    } else {
        ||| (found.len() > 0 && (found[0] matches Secret::Account(a) && a.account_name@
            == requests[0] && m.dom().contains(requests[0]) && m[requests[0]] == login_entry_of(a))
            && login_fetch_partition(requests.drop_first(), found.drop_first(), errors, m))
        ||| (errors.len() > 0 && ((errors[0] is NotFound && !m.dom().contains(requests[0]))
            || errors[0] is StorageError) && login_fetch_partition(
            requests.drop_first(),
            found,
            errors.drop_first(),
            m,
        ))
    }
}

/// How a multi-name API-key fetch relates the requested names to the found
/// records and the recorded errors, exactly as [`login_fetch_partition`]
/// does for logins.
pub open spec fn api_fetch_partition(
    requests: Seq<Seq<char>>,
    found: Seq<Secret>,
    errors: Seq<CMError>,
    m: Map<Seq<char>, ApiEntry>,
) -> bool
    decreases requests.len(),
{
    if requests.len() == 0 {
        found.len() == 0 && errors.len() == 0
    } else {
        ||| (found.len() > 0 && (found[0] matches Secret::API(a) && a.api_name@ == requests[0]
            && m.dom().contains(requests[0]) && m[requests[0]] == api_entry_of(a))
            && api_fetch_partition(requests.drop_first(), found.drop_first(), errors, m))
        ||| (errors.len() > 0 && ((errors[0] is NotFound && !m.dom().contains(requests[0]))
            || errors[0] is StorageError) && api_fetch_partition(
            requests.drop_first(),
            found,
            errors.drop_first(),
            m,
        ))
    }
}

proof fn lemma_login_partition_push_found(
    requests: Seq<Seq<char>>,
    found: Seq<Secret>,
    errors: Seq<CMError>,
    m: Map<Seq<char>, LoginEntry>,
    q: Seq<char>,
    f: Secret,
)
    requires
        login_fetch_partition(requests, found, errors, m),
        f matches Secret::Account(a) && a.account_name@ == q && m.dom().contains(q) && m[q]
            == login_entry_of(a),
    ensures
        login_fetch_partition(requests.push(q), found.push(f), errors, m),
    decreases requests.len(),
{
    if requests.len() == 0 {
        assert(requests.push(q)[0] == q);
        assert(found.push(f)[0] == f);
        assert(requests.push(q).drop_first() =~= Seq::<Seq<char>>::empty());
        assert(found.push(f).drop_first() =~= Seq::<Secret>::empty());
        assert(found.len() == 0 && errors.len() == 0);
        assert(login_fetch_partition(
            requests.push(q).drop_first(),
            found.push(f).drop_first(),
            errors,
            m,
        ));
    } else {
        assert(requests.push(q)[0] == requests[0]);
        assert(requests.push(q).drop_first() =~= requests.drop_first().push(q));
        if found.len() > 0 && (found[0] matches Secret::Account(a) && a.account_name@
            == requests[0] && m.dom().contains(requests[0]) && m[requests[0]] == login_entry_of(a))
            && login_fetch_partition(requests.drop_first(), found.drop_first(), errors, m) {
            lemma_login_partition_push_found(
                requests.drop_first(),
                found.drop_first(),
                errors,
                m,
                q,
                f,
            );
            assert(found.push(f)[0] == found[0]);
            assert(found.push(f).drop_first() =~= found.drop_first().push(f));
        } else {
            lemma_login_partition_push_found(
                requests.drop_first(),
                found,
                errors.drop_first(),
                m,
                q,
                f,
            );
        }
    }
}

proof fn lemma_login_partition_push_error(
    requests: Seq<Seq<char>>,
    found: Seq<Secret>,
    errors: Seq<CMError>,
    m: Map<Seq<char>, LoginEntry>,
    q: Seq<char>,
    e: CMError,
)
    requires
        login_fetch_partition(requests, found, errors, m),
        (e is NotFound && !m.dom().contains(q)) || e is StorageError,
    ensures
        login_fetch_partition(requests.push(q), found, errors.push(e), m),
    decreases requests.len(),
{
    if requests.len() == 0 {
        assert(requests.push(q)[0] == q);
        assert(errors.push(e)[0] == e);
        assert(requests.push(q).drop_first() =~= Seq::<Seq<char>>::empty());
        assert(errors.push(e).drop_first() =~= Seq::<CMError>::empty());
        assert(found.len() == 0 && errors.len() == 0);
        assert(login_fetch_partition(
            requests.push(q).drop_first(),
            found,
            errors.push(e).drop_first(),
            m,
        ));
    } else {
        assert(requests.push(q)[0] == requests[0]);
        assert(requests.push(q).drop_first() =~= requests.drop_first().push(q));
        if found.len() > 0 && (found[0] matches Secret::Account(a) && a.account_name@
            == requests[0] && m.dom().contains(requests[0]) && m[requests[0]] == login_entry_of(a))
            && login_fetch_partition(requests.drop_first(), found.drop_first(), errors, m) {
            lemma_login_partition_push_error(
                requests.drop_first(),
                found.drop_first(),
                errors,
                m,
                q,
                e,
            );
        } else {
            lemma_login_partition_push_error(
                requests.drop_first(),
                found,
                errors.drop_first(),
                m,
                q,
                e,
            );
            assert(errors.push(e)[0] == errors[0]);
            assert(errors.push(e).drop_first() =~= errors.drop_first().push(e));
        }
    }
}

proof fn lemma_api_partition_push_found(
    requests: Seq<Seq<char>>,
    found: Seq<Secret>,
    errors: Seq<CMError>,
    m: Map<Seq<char>, ApiEntry>,
    q: Seq<char>,
    f: Secret,
)
    requires
        api_fetch_partition(requests, found, errors, m),
        f matches Secret::API(a) && a.api_name@ == q && m.dom().contains(q) && m[q]
            == api_entry_of(a),
    ensures
        api_fetch_partition(requests.push(q), found.push(f), errors, m),
    decreases requests.len(),
{
    if requests.len() == 0 {
        assert(requests.push(q)[0] == q);
        assert(found.push(f)[0] == f);
        assert(requests.push(q).drop_first() =~= Seq::<Seq<char>>::empty());
        assert(found.push(f).drop_first() =~= Seq::<Secret>::empty());
        assert(found.len() == 0 && errors.len() == 0);
        assert(api_fetch_partition(
            requests.push(q).drop_first(),
            found.push(f).drop_first(),
            errors,
            m,
        ));
    } else {
        assert(requests.push(q)[0] == requests[0]);
        assert(requests.push(q).drop_first() =~= requests.drop_first().push(q));
        if found.len() > 0 && (found[0] matches Secret::API(a) && a.api_name@ == requests[0]
            && m.dom().contains(requests[0]) && m[requests[0]] == api_entry_of(a))
            && api_fetch_partition(requests.drop_first(), found.drop_first(), errors, m) {
            lemma_api_partition_push_found(
                requests.drop_first(),
                found.drop_first(),
                errors,
                m,
                q,
                f,
            );
            assert(found.push(f)[0] == found[0]);
            assert(found.push(f).drop_first() =~= found.drop_first().push(f));
        } else {
            lemma_api_partition_push_found(
                requests.drop_first(),
                found,
                errors.drop_first(),
                m,
                q,
                f,
            );
        }
    }
}

proof fn lemma_api_partition_push_error(
    requests: Seq<Seq<char>>,
    found: Seq<Secret>,
    errors: Seq<CMError>,
    m: Map<Seq<char>, ApiEntry>,
    q: Seq<char>,
    e: CMError,
)
    requires
        api_fetch_partition(requests, found, errors, m),
        (e is NotFound && !m.dom().contains(q)) || e is StorageError,
    ensures
        api_fetch_partition(requests.push(q), found, errors.push(e), m),
    decreases requests.len(),
{
    if requests.len() == 0 {
        assert(requests.push(q)[0] == q);
        assert(errors.push(e)[0] == e);
        assert(requests.push(q).drop_first() =~= Seq::<Seq<char>>::empty());
        assert(errors.push(e).drop_first() =~= Seq::<CMError>::empty());
        assert(found.len() == 0 && errors.len() == 0);
        assert(api_fetch_partition(
            requests.push(q).drop_first(),
            found,
            errors.push(e).drop_first(),
            m,
        ));
    } else {
        assert(requests.push(q)[0] == requests[0]);
        assert(requests.push(q).drop_first() =~= requests.drop_first().push(q));
        if found.len() > 0 && (found[0] matches Secret::API(a) && a.api_name@ == requests[0]
            && m.dom().contains(requests[0]) && m[requests[0]] == api_entry_of(a))
            && api_fetch_partition(requests.drop_first(), found.drop_first(), errors, m) {
            lemma_api_partition_push_error(
                requests.drop_first(),
                found.drop_first(),
                errors,
                m,
                q,
                e,
            );
        } else {
            lemma_api_partition_push_error(
                requests.drop_first(),
                found,
                errors.drop_first(),
                m,
                q,
                e,
            );
            assert(errors.push(e)[0] == errors[0]);
            assert(errors.push(e).drop_first() =~= errors.drop_first().push(e));
        }
    }
}

/// Retrieve the login credentials with the given names, in order, together
/// with the errors for the names that could not be retrieved: one outcome
/// per requested name, per [`login_fetch_partition`] — each found record
/// carries its requested name, in request order.
pub fn get_accounts(accounts: &Vec<String>, store: &EncryptedStore) -> (r: (
    Vec<Secret>,
    Vec<CMError>,
))
    ensures
        login_fetch_partition(views(accounts@), r.0@, r.1@, store_logins(*store)),
        r.0@.len() + r.1@.len() == accounts@.len(),
        forall|i: int|
            0 <= i < r.0@.len() ==> (#[trigger] r.0@[i] matches Secret::Account(a)
                && store_logins(*store).dom().contains(a.account_name@) && store_logins(
                *store,
            )[a.account_name@] == login_entry_of(a)),
        forall|i: int|
            0 <= i < r.1@.len() ==> (#[trigger] r.1@[i] is NotFound || r.1@[i] is StorageError),
{
    let mut found: Vec<Secret> = Vec::new();
    let mut errors: Vec<CMError> = Vec::new();
    proof {
        assert(accounts@.take(0) =~= Seq::<String>::empty());
        assert(views(Seq::<String>::empty()) =~= Seq::<Seq<char>>::empty());
    }
    let mut i: usize = 0;
    while i < accounts.len()
        invariant
            i <= accounts@.len(),
            found@.len() + errors@.len() == i as int,
            login_fetch_partition(
                views(accounts@.take(i as int)),
                found@,
                errors@,
                store_logins(*store),
            ),
            forall|j: int|
                0 <= j < found@.len() ==> (#[trigger] found@[j] matches Secret::Account(a)
                    && store_logins(*store).dom().contains(a.account_name@) && store_logins(
                    *store,
                )[a.account_name@] == login_entry_of(a)),
            forall|j: int|
                0 <= j < errors@.len() ==> (#[trigger] errors@[j] is NotFound
                    || errors@[j] is StorageError),
        decreases accounts@.len() - i,
    {
        proof {
            assert(accounts@.take(i as int + 1) =~= accounts@.take(i as int).push(
                accounts@[i as int],
            ));
            lemma_views_push(accounts@.take(i as int), accounts@[i as int]);
        }
        match get_account_from_db(accounts[i].as_str(), store) {
            Ok(secret) => {
                proof {
                    lemma_login_partition_push_found(
                        views(accounts@.take(i as int)),
                        found@,
                        errors@,
                        store_logins(*store),
                        accounts@[i as int]@,
                        secret,
                    );
                }
                found.push(secret);
            },
            Err(e) => {
                proof {
                    lemma_login_partition_push_error(
                        views(accounts@.take(i as int)),
                        found@,
                        errors@,
                        store_logins(*store),
                        accounts@[i as int]@,
                        e,
                    );
                }
                errors.push(e);
            },
        }
        i += 1;
    }
    proof {
        assert(accounts@.take(accounts@.len() as int) =~= accounts@);
    }
    (found, errors)
}

/// Retrieve the API keys with the given names, in order, together with the
/// errors for the names that could not be retrieved: one outcome per
/// requested name, per [`api_fetch_partition`] — each found record carries
/// its requested name, in request order.
pub fn get_apikeys(apikeys: &Vec<String>, store: &EncryptedStore) -> (r: (
    Vec<Secret>,
    Vec<CMError>,
))
    ensures
        api_fetch_partition(views(apikeys@), r.0@, r.1@, store_apikeys(*store)),
        r.0@.len() + r.1@.len() == apikeys@.len(),
        forall|i: int|
            0 <= i < r.0@.len() ==> (#[trigger] r.0@[i] matches Secret::API(a) && store_apikeys(
                *store,
            ).dom().contains(a.api_name@) && store_apikeys(*store)[a.api_name@] == api_entry_of(
                a,
            )),
        forall|i: int|
            0 <= i < r.1@.len() ==> (#[trigger] r.1@[i] is NotFound || r.1@[i] is StorageError),
{
    let mut found: Vec<Secret> = Vec::new();
    let mut errors: Vec<CMError> = Vec::new();
    proof {
        assert(apikeys@.take(0) =~= Seq::<String>::empty());
        assert(views(Seq::<String>::empty()) =~= Seq::<Seq<char>>::empty());
    }
    let mut i: usize = 0;
    while i < apikeys.len()
        invariant
            i <= apikeys@.len(),
            found@.len() + errors@.len() == i as int,
            api_fetch_partition(
                views(apikeys@.take(i as int)),
                found@,
                errors@,
                store_apikeys(*store),
            ),
            forall|j: int|
                0 <= j < found@.len() ==> (#[trigger] found@[j] matches Secret::API(a)
                    && store_apikeys(*store).dom().contains(a.api_name@) && store_apikeys(
                    *store,
                )[a.api_name@] == api_entry_of(a)),
            forall|j: int|
                0 <= j < errors@.len() ==> (#[trigger] errors@[j] is NotFound
                    || errors@[j] is StorageError),
        decreases apikeys@.len() - i,
    {
        proof {
            assert(apikeys@.take(i as int + 1) =~= apikeys@.take(i as int).push(
                apikeys@[i as int],
            ));
            lemma_views_push(apikeys@.take(i as int), apikeys@[i as int]);
        }
        match get_apikey_from_db(apikeys[i].as_str(), store) {
            Ok(secret) => {
                proof {
                    lemma_api_partition_push_found(
                        views(apikeys@.take(i as int)),
                        found@,
                        errors@,
                        store_apikeys(*store),
                        apikeys@[i as int]@,
                        secret,
                    );
                }
                found.push(secret);
            },
            Err(e) => {
                proof {
                    lemma_api_partition_push_error(
                        views(apikeys@.take(i as int)),
                        found@,
                        errors@,
                        store_apikeys(*store),
                        apikeys@[i as int]@,
                        e,
                    );
                }
                errors.push(e);
            },
        }
        i += 1;
    }
    proof {
        assert(apikeys@.take(apikeys@.len() as int) =~= apikeys@);
    }
    (found, errors)
}

/// Change one field of the login credential named `account_name` to
/// `new_value`: fails with `NotFound` when the record is absent and with
/// `InvalidField` for a field outside the login field set; renaming
/// additionally fails with `DuplicateName` when the new name is taken and
/// with `ReservedName` when it is the reserved master name.  Exactly one
/// record's one field changes; everything else is untouched.
pub fn change_db_account_field(
    account_name: &str,
    field: FieldType,
    new_value: &str,
    store: &mut EncryptedStore,
) -> (r: Result<(), CMError>)
    ensures
        r is Ok ==> store_logins(*old(store)).dom().contains(account_name@) && login_field_ok(
            field,
        ),
        r is Ok ==> store_logins(*final(store)) == login_after_update(
            store_logins(*old(store)),
            account_name@,
            field,
            new_value@,
        ),
        r is Ok && field == FieldType::Secname ==> !store_logins(*old(store)).dom().contains(
            new_value@,
        ) && !is_reserved(new_value@),
        r matches Err(e) && e is NotFound ==> !store_logins(*old(store)).dom().contains(
            account_name@,
        ),
        !store_logins(*old(store)).dom().contains(account_name@) ==> (r matches Err(e) && (
        e is NotFound || e is StorageError)),
        r matches Err(e) && e is InvalidField ==> store_logins(*old(store)).dom().contains(
            account_name@,
        ) && !login_field_ok(field),
        store_logins(*old(store)).dom().contains(account_name@) && !login_field_ok(field) ==> (
        r matches Err(e) && (e is InvalidField || e is StorageError)),
        r matches Err(e) && e is DuplicateName ==> field == FieldType::Secname && store_logins(
            *old(store),
        ).dom().contains(account_name@) && store_logins(*old(store)).dom().contains(new_value@),
        r matches Err(e) && e is ReservedName ==> field == FieldType::Secname && store_logins(
            *old(store),
        ).dom().contains(account_name@) && !store_logins(*old(store)).dom().contains(new_value@)
            && is_reserved(new_value@),
        store_logins(*old(store)).dom().contains(account_name@) && login_field_ok(field) && (field
            != FieldType::Secname || (!store_logins(*old(store)).dom().contains(new_value@)
            && !is_reserved(new_value@))) ==> (r is Ok || (r matches Err(e) && e is StorageError)),
        r is Err ==> store_logins(*final(store)) == store_logins(*old(store)),
        store_apikeys(*final(store)) == store_apikeys(*old(store)),
        r matches Err(e) ==> e is NotFound || e is InvalidField || e is DuplicateName
            || e is ReservedName || e is StorageError,
{
    let exists = match check_account_exists(account_name, store) {
        Ok(b) => b,
        Err(e) => return Err(e),
    };
    if !exists {
        return Err(CMError::NotFound);
    }
    match field {
        FieldType::User => {
            match store.update_login_user_raw(account_name, new_value) {
                Ok(()) => Ok(()),
                Err(f) => Err(storage_error_of(f)),
            }
        },
        FieldType::Pass => {
            match store.update_login_pass_raw(account_name, new_value) {
                Ok(()) => Ok(()),
                Err(f) => Err(storage_error_of(f)),
            }
        },
        FieldType::Secname => {
            let taken = match check_account_exists(new_value, store) {
                Ok(b) => b,
                Err(e) => return Err(e),
            };
            if taken {
                return Err(CMError::DuplicateName);
            }
            if str_eq(new_value, "master") {
                return Err(CMError::ReservedName);
            }
            match store.rename_login_raw(account_name, new_value) {
                Ok(()) => Ok(()),
                Err(f) => Err(storage_error_of(f)),
            }
        },
        _ => Err(CMError::InvalidField),
    }
}

/// Change one field of the API key named `api_name` to `new_value`: fails
/// with `NotFound` when the record is absent and with `InvalidField` for a
/// field outside the API-key field set; renaming additionally fails with
/// `DuplicateName` when the new name is taken and with `ReservedName` when it
/// is the reserved master name.  Exactly one record's one field changes;
/// everything else is untouched.
pub fn change_db_apikey_field(
    api_name: &str,
    field: FieldType,
    new_value: &str,
    store: &mut EncryptedStore,
) -> (r: Result<(), CMError>)
    ensures
        r is Ok ==> store_apikeys(*old(store)).dom().contains(api_name@) && api_field_ok(field),
        r is Ok ==> store_apikeys(*final(store)) == api_after_update(
            store_apikeys(*old(store)),
            api_name@,
            field,
            new_value@,
        ),
        r is Ok && field == FieldType::Secname ==> !store_apikeys(*old(store)).dom().contains(
            new_value@,
        ) && !is_reserved(new_value@),
        r matches Err(e) && e is NotFound ==> !store_apikeys(*old(store)).dom().contains(api_name@),
        !store_apikeys(*old(store)).dom().contains(api_name@) ==> (r matches Err(e) && (
        e is NotFound || e is StorageError)),
        r matches Err(e) && e is InvalidField ==> store_apikeys(*old(store)).dom().contains(
            api_name@,
        ) && !api_field_ok(field),
        store_apikeys(*old(store)).dom().contains(api_name@) && !api_field_ok(field) ==> (
        r matches Err(e) && (e is InvalidField || e is StorageError)),
        r matches Err(e) && e is DuplicateName ==> field == FieldType::Secname && store_apikeys(
            *old(store),
        ).dom().contains(api_name@) && store_apikeys(*old(store)).dom().contains(new_value@),
        r matches Err(e) && e is ReservedName ==> field == FieldType::Secname && store_apikeys(
            *old(store),
        ).dom().contains(api_name@) && !store_apikeys(*old(store)).dom().contains(new_value@)
            && is_reserved(new_value@),
        store_apikeys(*old(store)).dom().contains(api_name@) && api_field_ok(field) && (field
            != FieldType::Secname || (!store_apikeys(*old(store)).dom().contains(new_value@)
            && !is_reserved(new_value@))) ==> (r is Ok || (r matches Err(e) && e is StorageError)),
        r is Err ==> store_apikeys(*final(store)) == store_apikeys(*old(store)),
        store_logins(*final(store)) == store_logins(*old(store)),
        r matches Err(e) ==> e is NotFound || e is InvalidField || e is DuplicateName
            || e is ReservedName || e is StorageError,
{
    let exists = match check_apikey_exists(api_name, store) {
        Ok(b) => b,
        Err(e) => return Err(e),
    };
    if !exists {
        return Err(CMError::NotFound);
    }
    match field {
        FieldType::User => {
            match store.update_api_user_raw(api_name, new_value) {
                Ok(()) => Ok(()),
                Err(f) => Err(storage_error_of(f)),
            }
        },
        FieldType::Desc => {
            match store.update_api_desc_raw(api_name, new_value) {
                Ok(()) => Ok(()),
                Err(f) => Err(storage_error_of(f)),
            }
        },
        FieldType::Key => {
            match store.update_api_key_raw(api_name, new_value) {
                Ok(()) => Ok(()),
                Err(f) => Err(storage_error_of(f)),
            }
        },
        FieldType::Secname => {
            let taken = match check_apikey_exists(new_value, store) {
                Ok(b) => b,
                Err(e) => return Err(e),
            };
            if taken {
                return Err(CMError::DuplicateName);
            }
            if str_eq(new_value, "master") {
                return Err(CMError::ReservedName);
            }
            match store.rename_api_raw(api_name, new_value) {
                Ok(()) => Ok(()),
                Err(f) => Err(storage_error_of(f)),
            }
        },
        _ => Err(CMError::InvalidField),
    }
}

impl EncryptedStore {
    /// Whether a record of `kind` named `name` exists.  Without an
    /// intervening mutation the answer is a function of the store's
    /// contents, so repeated calls agree.
    pub fn secret_exists(&self, kind: SecretType, name: &str) -> (r: Result<bool, CMError>)
        ensures
            r matches Ok(b) ==> b == kind_contains(*self, kind, name@),
            r matches Err(e) ==> e is StorageError,
    {
        match kind {
            SecretType::Login => check_account_exists(name, self),
            SecretType::Api => check_apikey_exists(name, self),
        }
    }

    /// Insert a secret into its kind's table: fails with `ReservedName`
    /// exactly when its name is the reserved master name, fails with
    /// `DuplicateName` when its name is already taken within its kind, and
    /// otherwise persists all fields as one record.  The other kind's table
    /// is untouched; on failure nothing changes.
    pub fn insert(&mut self, secret: &Secret) -> (r: Result<(), CMError>)
        ensures
            is_reserved(secret_name(secret@)) <==> (r matches Err(e) && e is ReservedName),
            r is Ok ==> !kind_contains(*old(self), secret_kind(secret@), secret_name(secret@)),
            r is Ok ==> kind_after_insert(*old(self), *final(self), secret@),
            r matches Err(e) && e is DuplicateName ==> !is_reserved(secret_name(secret@))
                && kind_contains(*old(self), secret_kind(secret@), secret_name(secret@)),
            !is_reserved(secret_name(secret@)) && kind_contains(
                *old(self),
                secret_kind(secret@),
                secret_name(secret@),
            ) ==> (r matches Err(e) && (e is DuplicateName || e is StorageError)),
            !is_reserved(secret_name(secret@)) && !kind_contains(
                *old(self),
                secret_kind(secret@),
                secret_name(secret@),
            ) ==> (r is Ok || (r matches Err(e) && e is StorageError)),
            r is Err ==> tables_unchanged(*old(self), *final(self)),
            other_kind_unchanged(*old(self), *final(self), secret_kind(secret@)),
            r matches Err(e) ==> e is ReservedName || e is DuplicateName || e is StorageError,
    {
        match secret {
            Secret::Account(acc) => add_account_to_db(acc, self),
            Secret::API(api) => add_apikey_to_db(api, self),
        }
    }

    /// Retrieve the record of `kind` named `name` in full: fails with
    /// `NotFound` when it is absent.
    pub fn get(&self, kind: SecretType, name: &str) -> (r: Result<Secret, CMError>)
        ensures
            r matches Ok(s) ==> secret_kind(s@) == kind && secret_name(s@) == name@
                && kind_contains(*self, kind, name@) && secret_matches_store(*self, s@),
            r matches Err(e) && e is NotFound ==> !kind_contains(*self, kind, name@),
            !kind_contains(*self, kind, name@) ==> (r matches Err(e) && (e is NotFound
                || e is StorageError)),
            kind_contains(*self, kind, name@) ==> (r is Ok || (r matches Err(e)
                && e is StorageError)),
            r matches Err(e) ==> e is NotFound || e is StorageError,
    {
        match kind {
            SecretType::Login => get_account_from_db(name, self),
            SecretType::Api => get_apikey_from_db(name, self),
        }
    }

    /// Change one field of the record of `kind` named `name` to `new_value`:
    /// fails with `NotFound` when the record is absent, with `InvalidField`
    /// for a field outside the kind's mutable set, and on a rename with
    /// `DuplicateName` or `ReservedName` as the new name demands.  Exactly
    /// one record's one field changes; everything else is untouched.
    pub fn update_field(
        &mut self,
        kind: SecretType,
        name: &str,
        field: FieldType,
        new_value: &str,
    ) -> (r: Result<(), CMError>)
        ensures
            r is Ok ==> kind_contains(*old(self), kind, name@) && field_ok(kind, field),
            r is Ok ==> kind_after_update(*old(self), *final(self), kind, name@, field, new_value@),
            r is Ok && field == FieldType::Secname ==> !kind_contains(*old(self), kind, new_value@)
                && !is_reserved(new_value@),
            r matches Err(e) && e is NotFound ==> !kind_contains(*old(self), kind, name@),
            !kind_contains(*old(self), kind, name@) ==> (r matches Err(e) && (e is NotFound
                || e is StorageError)),
            r matches Err(e) && e is InvalidField ==> kind_contains(*old(self), kind, name@)
                && !field_ok(kind, field),
            kind_contains(*old(self), kind, name@) && !field_ok(kind, field) ==> (r matches Err(e)
                && (e is InvalidField || e is StorageError)),
            r matches Err(e) && e is DuplicateName ==> field == FieldType::Secname
                && kind_contains(*old(self), kind, name@) && kind_contains(
                *old(self),
                kind,
                new_value@,
            ),
            r matches Err(e) && e is ReservedName ==> field == FieldType::Secname && kind_contains(
                *old(self),
                kind,
                name@,
            ) && !kind_contains(*old(self), kind, new_value@) && is_reserved(new_value@),
            kind_contains(*old(self), kind, name@) && field_ok(kind, field) && (field
                != FieldType::Secname || (!kind_contains(*old(self), kind, new_value@)
                && !is_reserved(new_value@))) ==> (r is Ok || (r matches Err(e)
                && e is StorageError)),
            r is Err ==> tables_unchanged(*old(self), *final(self)),
            other_kind_unchanged(*old(self), *final(self), kind),
            r matches Err(e) ==> e is NotFound || e is InvalidField || e is DuplicateName
                || e is ReservedName || e is StorageError,
    {
        match kind {
            SecretType::Login => change_db_account_field(name, field, new_value, self),
            SecretType::Api => change_db_apikey_field(name, field, new_value, self),
        }
    }

    /// Delete the record of `kind` named `name`: fails with `NotFound` when
    /// it is absent, and otherwise removes exactly that record.
    pub fn delete(&mut self, kind: SecretType, name: &str) -> (r: Result<(), CMError>)
        ensures
            r is Ok ==> kind_contains(*old(self), kind, name@),
            r is Ok ==> kind_after_delete(*old(self), *final(self), kind, name@),
            r matches Err(e) && e is NotFound ==> !kind_contains(*old(self), kind, name@),
            !kind_contains(*old(self), kind, name@) ==> (r matches Err(e) && (e is NotFound
                || e is StorageError)),
            kind_contains(*old(self), kind, name@) ==> (r is Ok || (r matches Err(e)
                && e is StorageError)),
            r is Err ==> tables_unchanged(*old(self), *final(self)),
            other_kind_unchanged(*old(self), *final(self), kind),
            r matches Err(e) ==> e is NotFound || e is StorageError,
    {
        match kind {
            SecretType::Login => delete_account_from_db(name, self),
            SecretType::Api => delete_apikey_from_db(name, self),
        }
    }

    /// Retrieve every record of `kind`, each exactly once, in storage order
    /// (no ordering is promised beyond stability for an unmodified store).
    /// An empty table yields an empty sequence, not an error.
    pub fn list(&self, kind: SecretType) -> (r: Result<Vec<Secret>, CMError>)
        ensures
            r matches Ok(v) ==> {
                &&& kind_dom(*self, kind).finite()
                &&& v@.len() == kind_dom(*self, kind).len()
                &&& forall|i: int|
                    0 <= i < v@.len() ==> secret_kind(#[trigger] v@[i]@) == kind && kind_dom(
                        *self,
                        kind,
                    ).contains(secret_name(v@[i]@)) && secret_matches_store(*self, v@[i]@)
                &&& forall|i: int, j: int|
                    0 <= i < j < v@.len() ==> #[trigger] secret_name(v@[i]@)
                        != #[trigger] secret_name(v@[j]@)
                &&& forall|k: Seq<char>|
                    #[trigger] kind_dom(*self, kind).contains(k) ==> exists|i: int|
                        0 <= i < v@.len() && #[trigger] secret_name(v@[i]@) == k
            },
            r matches Err(e) ==> e is StorageError,
    {
        match kind {
            SecretType::Login => get_all_accounts_from_db(self),
            SecretType::Api => get_all_apikeys_from_db(self),
        }
    }
}

} // verus!
