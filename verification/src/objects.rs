//! The secret model: the two record shapes, their kinds, and their field sets.

use vstd::prelude::*;

verus! {

/// The kind discriminator: each kind has its own name-uniqueness namespace
/// and its own mutable field set.
#[derive(Debug, Clone, Copy, PartialEq, Eq, Structural)]
pub enum SecretType {
    /// The secret is a login credential.
    Login,
    /// The secret is an API key.
    Api,
}

/// A field of a secret that can be read or changed.
#[derive(Debug, Clone, Copy, PartialEq, Eq, Structural)]
pub enum FieldType {
    /// The username of the secret.
    User,
    /// The unique name of the secret.
    Secname,
    /// The password (login credentials only).
    Pass,
    /// The description (API keys only).
    Desc,
    /// The API key itself (API keys only).
    Key,
}

/// The mutable field set of a login credential.
pub open spec fn login_field_ok(f: FieldType) -> bool {
    f == FieldType::User || f == FieldType::Secname || f == FieldType::Pass
}

/// The mutable field set of an API key.
pub open spec fn api_field_ok(f: FieldType) -> bool {
    f == FieldType::User || f == FieldType::Secname || f == FieldType::Desc || f == FieldType::Key
}

/// The mutable field set of `kind`.
pub open spec fn field_ok(kind: SecretType, f: FieldType) -> bool {
    match kind {
        SecretType::Login => login_field_ok(f),
        SecretType::Api => api_field_ok(f),
    }
}

/// A stored login credential.
#[derive(Debug)]
pub struct AccountObj {
    pub account_name: String,
    pub user_name: String,
    pub password: String,
}

/// A stored API key.
#[derive(Debug)]
pub struct APIObj {
    pub api_name: String,
    pub description: String,
    pub user_name: String,
    pub api_key: String,
}

/// A secret of either kind.
#[derive(Debug)]
pub enum Secret {
    Account(AccountObj),
    API(APIObj),
}

impl From<AccountObj> for Secret {
    fn from(value: AccountObj) -> (r: Self) {
        Secret::Account(value)
    }
}

impl vstd::std_specs::convert::FromSpecImpl<AccountObj> for Secret {
    open spec fn obeys_from_spec() -> bool {
        true
    }

    open spec fn from_spec(value: AccountObj) -> Secret {
        Secret::Account(value)
    }
}

impl From<APIObj> for Secret {
    fn from(value: APIObj) -> (r: Self) {
        Secret::API(value)
    }
}

impl vstd::std_specs::convert::FromSpecImpl<APIObj> for Secret {
    open spec fn obeys_from_spec() -> bool {
        true
    }

    open spec fn from_spec(value: APIObj) -> Secret {
        Secret::API(value)
    }
}

impl Clone for AccountObj {
    fn clone(&self) -> (r: Self)
        ensures
            r == *self,
    {
        AccountObj {
            account_name: self.account_name.clone(),
            user_name: self.user_name.clone(),
            password: self.password.clone(),
        }
    }
}

impl Clone for APIObj {
    fn clone(&self) -> (r: Self)
        ensures
            r == *self,
    {
        APIObj {
            api_name: self.api_name.clone(),
            description: self.description.clone(),
            user_name: self.user_name.clone(),
            api_key: self.api_key.clone(),
        }
    }
}

impl Clone for Secret {
    fn clone(&self) -> (r: Self)
        ensures
            r == *self,
    {
        match self {
            Secret::Account(acc) => Secret::Account(acc.clone()),
            Secret::API(api) => Secret::API(api.clone()),
        }
    }
}

/// The mathematical content of an `AccountObj`.
pub ghost struct AccountView {
    pub account_name: Seq<char>,
    pub user_name: Seq<char>,
    pub password: Seq<char>,
}

/// The mathematical content of an `APIObj`.
pub ghost struct APIView {
    pub api_name: Seq<char>,
    pub description: Seq<char>,
    pub user_name: Seq<char>,
    pub api_key: Seq<char>,
}

/// The mathematical content of a `Secret`.
pub ghost enum SecretView {
    Account(AccountView),
    API(APIView),
}

impl View for AccountObj {
    type V = AccountView;

    open spec fn view(&self) -> AccountView {
        AccountView {
            account_name: self.account_name@,
            user_name: self.user_name@,
            password: self.password@,
        }
    }
}

impl View for APIObj {
    type V = APIView;

    open spec fn view(&self) -> APIView {
        APIView {
            api_name: self.api_name@,
            description: self.description@,
            user_name: self.user_name@,
            api_key: self.api_key@,
        }
    }
}

impl View for Secret {
    type V = SecretView;

    open spec fn view(&self) -> SecretView {
        match self {
            Secret::Account(acc) => SecretView::Account(acc@),
            Secret::API(api) => SecretView::API(api@),
        }
    }
}

/// What `AccountObj::get_field` returns: the requested field, or the empty
/// string for a field outside the login field set.
pub open spec fn account_field(a: AccountView, f: FieldType) -> Seq<char> {
    match f {
        FieldType::User => a.user_name,
        FieldType::Secname => a.account_name,
        FieldType::Pass => a.password,
        _ => Seq::<char>::empty(),
    }
}

/// What `APIObj::get_field` returns: the requested field, or the empty string
/// for a field outside the API-key field set.
pub open spec fn api_field(a: APIView, f: FieldType) -> Seq<char> {
    match f {
        FieldType::Secname => a.api_name,
        FieldType::Desc => a.description,
        FieldType::User => a.user_name,
        FieldType::Key => a.api_key,
        _ => Seq::<char>::empty(),
    }
}

/// What `Secret::get_field` returns.
pub open spec fn secret_field(s: SecretView, f: FieldType) -> Seq<char> {
    match s {
        SecretView::Account(a) => account_field(a, f),
        SecretView::API(a) => api_field(a, f),
    }
}

/// The unique name of a secret.
pub open spec fn secret_name(s: SecretView) -> Seq<char> {
    match s {
        SecretView::Account(a) => a.account_name,
        SecretView::API(a) => a.api_name,
    }
}

/// The kind of a secret.
pub open spec fn secret_kind(s: SecretView) -> SecretType {
    match s {
        SecretView::Account(_) => SecretType::Login,
        SecretView::API(_) => SecretType::Api,
    }
}

impl AccountObj {
    /// The requested field's value, or the empty string for a field outside
    /// the login field set.
    pub fn get_field(&self, field: FieldType) -> (r: String)
        ensures
            r@ == account_field(self@, field),
    {
        match field {
            FieldType::User => self.user_name.clone(),
            FieldType::Secname => self.account_name.clone(),
            FieldType::Pass => self.password.clone(),
            _ => String::new(),
        }
    }
}

impl APIObj {
    /// The requested field's value, or the empty string for a field outside
    /// the API-key field set.
    pub fn get_field(&self, field: FieldType) -> (r: String)
        ensures
            r@ == api_field(self@, field),
    {
        match field {
            FieldType::Secname => self.api_name.clone(),
            FieldType::Desc => self.description.clone(),
            FieldType::User => self.user_name.clone(),
            FieldType::Key => self.api_key.clone(),
            _ => String::new(),
        }
    }
}

impl Secret {
    /// The requested field's value, or the empty string for a field outside
    /// the kind's field set.
    pub fn get_field(&self, field: FieldType) -> (r: String)
        ensures
            r@ == secret_field(self@, field),
    {
        match self {
            Secret::API(api) => api.get_field(field),
            Secret::Account(acc) => acc.get_field(field),
        }
    }

    /// The unique name of the secret.
    pub fn get_name(&self) -> (r: String)
        ensures
            r@ == secret_name(self@),
    {
        match self {
            Secret::Account(acc) => acc.account_name.clone(),
            Secret::API(api) => api.api_name.clone(),
        }
    }
}

} // verus!
