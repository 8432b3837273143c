//! The batch importer: many record-creation intents from an ordered sequence
//! of text lines, tolerating per-line failure so that one malformed line
//! never aborts the whole run.
//!
//! Lines are numbered from 1.  A line holding nothing but whitespace and
//! commas is skipped and still consumes its line number.  Every other line
//! is comma-separated with a kind discriminator first: `login` expects
//! exactly `login,name,username,password` (a password of `?` asks for a
//! generated one) and `api` expects exactly
//! `api,name,username,description,key`.  Per-line validation, in order:
//! wrong field count, name already taken within the kind, the reserved
//! master name, an empty name.  A valid line is inserted; a per-line failure
//! is recorded against its line number and the run goes on.  Only a storage
//! failure during an existence check, or a password-generator failure, aborts
//! the run as a whole.

use vstd::prelude::*;

use crate::errors::CMError;
use crate::objects::{APIObj, AccountObj};
use crate::ops::{add_account_to_db, add_apikey_to_db, check_account_exists, check_apikey_exists,
    is_reserved, tables_unchanged};
use crate::passgen::{get_random_pass, pass_alphabet, requested_len};
use crate::store::{store_apikeys, store_logins, ApiEntry, EncryptedStore, LoginEntry};
use crate::strutil::{lemma_split_commas_len, lemma_views_push, split_commas, split_fields, str_eq,
    trim, trimmed, views};

verus! {

/// What one source line asks for, before any table is consulted.
pub enum ParsedLine {
    /// Nothing but whitespace and commas: the line is skipped.
    Blank,
    /// The kind discriminator is neither `login` nor `api`.
    BadKind,
    /// A known kind with the wrong number of fields.
    BadCount,
    /// `login,name,username,password`; a password of `?` asks for a freshly
    /// generated one instead of the literal.
    Login { name: String, username: String, password: String, generate: bool },
    /// `api,name,username,description,key`.
    Api { name: String, username: String, description: String, key: String },
}

/// The mathematical content of a parsed line.
pub ghost enum ParsedLineView {
    Blank,
    BadKind,
    BadCount,
    Login { name: Seq<char>, username: Seq<char>, password: Seq<char>, generate: bool },
    Api { name: Seq<char>, username: Seq<char>, description: Seq<char>, key: Seq<char> },
}

impl View for ParsedLine {
    type V = ParsedLineView;

    open spec fn view(&self) -> ParsedLineView {
        match self {
            ParsedLine::Blank => ParsedLineView::Blank,
            ParsedLine::BadKind => ParsedLineView::BadKind,
            ParsedLine::BadCount => ParsedLineView::BadCount,
            ParsedLine::Login { name, username, password, generate } => ParsedLineView::Login {
                name: name@,
                username: username@,
                password: password@,
                generate: *generate,
            },
            ParsedLine::Api { name, username, description, key } => ParsedLineView::Api {
                name: name@,
                username: username@,
                description: description@,
                key: key@,
            },
        }
    }
}

/// Whether every field of a split is empty: such a line holds nothing but
/// commas (and surrounding whitespace) and is treated as blank.
pub open spec fn all_fields_empty(fs: Seq<Seq<char>>) -> bool {
    forall|i: int| 0 <= i < fs.len() ==> #[trigger] fs[i].len() == 0
}

/// What one line parses to: the line is trimmed, split on commas, and read
/// per the batch grammar.
pub open spec fn spec_parse_line(line: Seq<char>) -> ParsedLineView {
    let fs = split_commas(trimmed(line));
    if all_fields_empty(fs) {
        ParsedLineView::Blank
    } else if fs[0] == "login"@ {
        if fs.len() != 4 {
            ParsedLineView::BadCount
        } else {
            ParsedLineView::Login {
                name: fs[1],
                username: fs[2],
                password: fs[3],
                generate: fs[3] == "?"@,
            }
        }
    } else if fs[0] == "api"@ {
        if fs.len() != 5 {
            ParsedLineView::BadCount
        } else {
            ParsedLineView::Api { name: fs[1], username: fs[2], description: fs[3], key: fs[4] }
        }
    } else {
        ParsedLineView::BadKind
    }
}

/// Parse one line per the batch grammar, consulting no table.
pub fn parse_line(line: &str) -> (r: ParsedLine)
    ensures
        r@ == spec_parse_line(line@),
{
    let t = trim(line);
    let fields = split_fields(t);
    proof {
        lemma_split_commas_len(trimmed(line@));
    }
    let mut all_empty = true;
    let mut k: usize = 0;
    while k < fields.len()
        invariant
            k <= fields@.len(),
            t@ == trimmed(line@),
            fields@.len() == split_commas(trimmed(line@)).len(),
            forall|j: int|
                0 <= j < fields@.len() ==> #[trigger] fields@[j]@ == split_commas(
                    trimmed(line@),
                )[j],
            all_empty == (forall|j: int|
                0 <= j < k as int ==> #[trigger] split_commas(trimmed(line@))[j].len() == 0),
        decreases fields@.len() - k,
    {
        if !fields[k].as_str().is_empty() {
            all_empty = false;
        }
        k = k + 1;
    }
    if all_empty {
        return ParsedLine::Blank;
    }
    if str_eq(fields[0].as_str(), "login") {
        if fields.len() != 4 {
            return ParsedLine::BadCount;
        }
        let generate = str_eq(fields[3].as_str(), "?");
        return ParsedLine::Login {
            name: fields[1].clone(),
            username: fields[2].clone(),
            password: fields[3].clone(),
            generate,
        };
    }
    if str_eq(fields[0].as_str(), "api") {
        if fields.len() != 5 {
            return ParsedLine::BadCount;
        }
        return ParsedLine::Api {
            name: fields[1].clone(),
            username: fields[2].clone(),
            description: fields[3].clone(),
            key: fields[4].clone(),
        };
    }
    ParsedLine::BadKind
}

/// The per-line outcome of a batch import.
#[derive(Debug)]
pub enum LineOutcome {
    /// The line was blank and consumed only its line number.
    Skipped,
    /// A record with this name was inserted.
    Added(String),
    /// The line failed with this error and the import went on.
    Failed(CMError),
}

/// What `import_line` did to the login table and reported, for a parsed
/// `login` line.
pub open spec fn login_line_outcome(
    pre: EncryptedStore,
    post: EncryptedStore,
    name: Seq<char>,
    username: Seq<char>,
    password: Seq<char>,
    generate: bool,
    passlen: Option<usize>,
    o: LineOutcome,
) -> bool {
    match o {
        LineOutcome::Skipped => false,
        LineOutcome::Added(n) => {
            &&& n@ == name
            &&& !store_logins(pre).dom().contains(name)
            &&& !is_reserved(name)
            &&& name.len() > 0
            &&& (!generate ==> store_logins(post) == store_logins(pre).insert(
                name,
                (LoginEntry { user_name: username, password }),
            ))
            &&& (generate ==> exists|pw: Seq<char>|
                {
                    &&& store_logins(post) == #[trigger] store_logins(pre).insert(
                        name,
                        (LoginEntry { user_name: username, password: pw }),
                    )
                    &&& pw.len() == requested_len(passlen) as int
                    &&& forall|i: int| 0 <= i < pw.len() ==> pass_alphabet().contains(#[trigger] pw[i])
                })
        },
        LineOutcome::Failed(e) => {
            &&& store_logins(post) == store_logins(pre)
            &&& (e is DuplicateName <==> store_logins(pre).dom().contains(name))
            &&& (e is ReservedName <==> !store_logins(pre).dom().contains(name) && is_reserved(
                name,
            ))
            &&& (e is EmptyName <==> !store_logins(pre).dom().contains(name) && !is_reserved(name)
                && name.len() == 0)
            &&& (e is DuplicateName || e is ReservedName || e is EmptyName || e is StorageError)
        },
    }
}

/// What `import_line` did to the API-key table and reported, for a parsed
/// `api` line.
pub open spec fn api_line_outcome(
    pre: EncryptedStore,
    post: EncryptedStore,
    name: Seq<char>,
    username: Seq<char>,
    description: Seq<char>,
    key: Seq<char>,
    o: LineOutcome,
) -> bool {
    match o {
        LineOutcome::Skipped => false,
        LineOutcome::Added(n) => {
            &&& n@ == name
            &&& !store_apikeys(pre).dom().contains(name)
            &&& !is_reserved(name)
            &&& name.len() > 0
            &&& store_apikeys(post) == store_apikeys(pre).insert(
                name,
                (ApiEntry { description, user_name: username, api_key: key }),
            )
        },
        LineOutcome::Failed(e) => {
            &&& store_apikeys(post) == store_apikeys(pre)
            &&& (e is DuplicateName <==> store_apikeys(pre).dom().contains(name))
            &&& (e is ReservedName <==> !store_apikeys(pre).dom().contains(name) && is_reserved(
                name,
            ))
            &&& (e is EmptyName <==> !store_apikeys(pre).dom().contains(name) && !is_reserved(name)
                && name.len() == 0)
            &&& (e is DuplicateName || e is ReservedName || e is EmptyName || e is StorageError)
        },
    }
}

/// Process one line: parse it, validate it against the store in the batch
/// order (count, duplicate, reserved, empty), and insert it when valid.  A
/// per-line failure is reported in the outcome; only a storage failure
/// during an existence check or a password-generator failure aborts with
/// `Err`.
pub fn import_line(line: &str, passlen: Option<usize>, store: &mut EncryptedStore) -> (r: Result<
    LineOutcome,
    CMError,
>)
    ensures
        spec_parse_line(line@) is Blank ==> (r matches Ok(o) && o is Skipped),
        spec_parse_line(line@) is BadKind ==> (r matches Ok(o) && o matches LineOutcome::Failed(e)
            && e is UnrecognizedKind),
        spec_parse_line(line@) is BadCount ==> (r matches Ok(o) && o matches LineOutcome::Failed(e)
            && e is FieldCountMismatch),
        spec_parse_line(line@) matches ParsedLineView::Login { name, username, password, generate }
            ==> (r matches Ok(o) ==> login_line_outcome(
            *old(store),
            *final(store),
            name,
            username,
            password,
            generate,
            passlen,
            o,
        )) && store_apikeys(*final(store)) == store_apikeys(*old(store)),
        spec_parse_line(line@) matches ParsedLineView::Api { name, username, description, key }
            ==> (r matches Ok(o) ==> api_line_outcome(
            *old(store),
            *final(store),
            name,
            username,
            description,
            key,
            o,
        )) && store_logins(*final(store)) == store_logins(*old(store)),
        spec_parse_line(line@) is Blank || spec_parse_line(line@) is BadKind || spec_parse_line(
            line@,
        ) is BadCount ==> tables_unchanged(*old(store), *final(store)),
        r is Err ==> tables_unchanged(*old(store), *final(store)),
        r matches Err(e) ==> e is StorageError || e is Custom,
{
    let parsed = parse_line(line);
    match parsed {
        ParsedLine::Blank => Ok(LineOutcome::Skipped),
        ParsedLine::BadKind => Ok(LineOutcome::Failed(CMError::UnrecognizedKind)),
        ParsedLine::BadCount => Ok(LineOutcome::Failed(CMError::FieldCountMismatch)),
        ParsedLine::Login { name, username, password, generate } => {
            let taken = match check_account_exists(name.as_str(), store) {
                Ok(b) => b,
                Err(e) => return Err(e),
            };
            if taken {
                return Ok(LineOutcome::Failed(CMError::DuplicateName));
            }
            if str_eq(name.as_str(), "master") {
                return Ok(LineOutcome::Failed(CMError::ReservedName));
            }
            if name.as_str().is_empty() {
                return Ok(LineOutcome::Failed(CMError::EmptyName));
            }
            let pass: String = if generate {
                match get_random_pass(passlen) {
                    Ok(p) => p,
                    Err(e) => return Err(e),
                }
            } else {
                password
            };
            let acc = AccountObj { account_name: name, user_name: username, password: pass };
            match add_account_to_db(&acc, store) {
                Ok(()) => Ok(LineOutcome::Added(acc.account_name)),
                Err(e) => Ok(LineOutcome::Failed(e)),
            }
        },
        ParsedLine::Api { name, username, description, key } => {
            let taken = match check_apikey_exists(name.as_str(), store) {
                Ok(b) => b,
                Err(e) => return Err(e),
            };
            if taken {
                return Ok(LineOutcome::Failed(CMError::DuplicateName));
            }
            if str_eq(name.as_str(), "master") {
                return Ok(LineOutcome::Failed(CMError::ReservedName));
            }
            if name.as_str().is_empty() {
                return Ok(LineOutcome::Failed(CMError::EmptyName));
            }
            let api = APIObj { api_name: name, description, user_name: username, api_key: key };
            match add_apikey_to_db(&api, store) {
                Ok(()) => Ok(LineOutcome::Added(api.api_name)),
                Err(e) => Ok(LineOutcome::Failed(e)),
            }
        },
    }
}

/// The names of the added records, in line order.
pub open spec fn added_names(os: Seq<LineOutcome>) -> Seq<Seq<char>>
    decreases os.len(),
{
    if os.len() == 0 {
        Seq::empty()
    } else {
        let rest = added_names(os.drop_first());
        match os[0] {
            LineOutcome::Added(n) => seq![n@] + rest,
            _ => rest,
        }
    }
}

/// The `(line number, error)` pairs of the failed lines, in line order,
/// with the first outcome numbered `first`.
pub open spec fn failure_list(os: Seq<LineOutcome>, first: int) -> Seq<(int, CMError)>
    decreases os.len(),
{
    if os.len() == 0 {
        Seq::empty()
    } else {
        let rest = failure_list(os.drop_first(), first + 1);
        match os[0] {
            LineOutcome::Failed(e) => seq![(first, e)] + rest,
            _ => rest,
        }
    }
}

proof fn lemma_added_names_push(os: Seq<LineOutcome>, o: LineOutcome)
    ensures
        o matches LineOutcome::Added(n) ==> added_names(os.push(o)) =~= added_names(os).push(n@),
        !(o is Added) ==> added_names(os.push(o)) =~= added_names(os),
    decreases os.len(),
{
    if os.len() == 0 {
        assert(os.push(o)[0] == o);
        assert(os.push(o).drop_first() =~= Seq::<LineOutcome>::empty());
        assert(added_names(os.push(o).drop_first()) == Seq::<Seq<char>>::empty());
        match o {
            LineOutcome::Added(n) => {
                assert(added_names(os.push(o)) =~= seq![n@]);
                assert(added_names(os).push(n@) =~= seq![n@]);
            },
            _ => {
                assert(added_names(os.push(o)) =~= Seq::<Seq<char>>::empty());
            },
        }
    } else {
        assert(os.push(o)[0] == os[0]);
        assert(os.push(o).drop_first() =~= os.drop_first().push(o));
        lemma_added_names_push(os.drop_first(), o);
        let rest0 = added_names(os.drop_first());
        match o {
            LineOutcome::Added(n) => {
                assert(added_names(os.push(o).drop_first()) =~= rest0.push(n@));
                match os[0] {
                    LineOutcome::Added(m) => {
                        assert(added_names(os.push(o)) =~= (seq![m@] + rest0).push(n@));
                        assert(added_names(os) =~= seq![m@] + rest0);
                    },
                    _ => {
                        assert(added_names(os.push(o)) =~= rest0.push(n@));
                        assert(added_names(os) =~= rest0);
                    },
                }
            },
            _ => {
                assert(added_names(os.push(o).drop_first()) =~= rest0);
                match os[0] {
                    LineOutcome::Added(m) => {
                        assert(added_names(os.push(o)) =~= seq![m@] + rest0);
                        assert(added_names(os) =~= seq![m@] + rest0);
                    },
                    _ => {
                        assert(added_names(os.push(o)) =~= rest0);
                        assert(added_names(os) =~= rest0);
                    },
                }
            },
        }
    }
}

proof fn lemma_failure_list_push(os: Seq<LineOutcome>, o: LineOutcome, first: int)
    ensures
        o matches LineOutcome::Failed(e) ==> failure_list(os.push(o), first) =~= failure_list(
            os,
            first,
        ).push((first + os.len(), e)),
        !(o is Failed) ==> failure_list(os.push(o), first) =~= failure_list(os, first),
    decreases os.len(),
{
    if os.len() == 0 {
        assert(os.push(o)[0] == o);
        assert(os.push(o).drop_first() =~= Seq::<LineOutcome>::empty());
        assert(failure_list(os.push(o).drop_first(), first + 1) == Seq::<(int, CMError)>::empty());
        match o {
            LineOutcome::Failed(e) => {
                assert(failure_list(os.push(o), first) =~= seq![(first, e)]);
                assert(failure_list(os, first).push((first, e)) =~= seq![(first, e)]);
            },
            _ => {
                assert(failure_list(os.push(o), first) =~= Seq::<(int, CMError)>::empty());
            },
        }
    } else {
        assert(os.push(o)[0] == os[0]);
        assert(os.push(o).drop_first() =~= os.drop_first().push(o));
        lemma_failure_list_push(os.drop_first(), o, first + 1);
        let rest0 = failure_list(os.drop_first(), first + 1);
        match o {
            LineOutcome::Failed(e) => {
                let pair = (first + os.len(), e);
                assert(failure_list(os.push(o).drop_first(), first + 1) =~= rest0.push(pair));
                match os[0] {
                    LineOutcome::Failed(e0) => {
                        assert(failure_list(os.push(o), first) =~= (seq![(first, e0)]
                            + rest0).push(pair));
                        assert(failure_list(os, first) =~= seq![(first, e0)] + rest0);
                    },
                    _ => {
                        assert(failure_list(os.push(o), first) =~= rest0.push(pair));
                        assert(failure_list(os, first) =~= rest0);
                    },
                }
            },
            _ => {
                assert(failure_list(os.push(o).drop_first(), first + 1) =~= rest0);
                match os[0] {
                    LineOutcome::Failed(e0) => {
                        assert(failure_list(os.push(o), first) =~= seq![(first, e0)] + rest0);
                        assert(failure_list(os, first) =~= seq![(first, e0)] + rest0);
                    },
                    _ => {
                        assert(failure_list(os.push(o), first) =~= rest0);
                        assert(failure_list(os, first) =~= rest0);
                    },
                }
            },
        }
    }
}

/// What one line's outcome did to the store it met: the line's parse decides
/// which outcomes are possible, and the `login`/`api` cases hold the full
/// store-tied relations [`login_line_outcome`] and [`api_line_outcome`]
/// against the state before the line ran.
pub open spec fn line_outcome_holds(
    pre: EncryptedStore,
    post: EncryptedStore,
    line: Seq<char>,
    passlen: Option<usize>,
    o: LineOutcome,
) -> bool {
    match spec_parse_line(line) {
        ParsedLineView::Blank => o is Skipped && tables_unchanged(pre, post),
        ParsedLineView::BadKind => (o matches LineOutcome::Failed(e) && e is UnrecognizedKind)
            && tables_unchanged(pre, post),
        ParsedLineView::BadCount => (o matches LineOutcome::Failed(e) && e is FieldCountMismatch)
            && tables_unchanged(pre, post),
        ParsedLineView::Login { name, username, password, generate } => login_line_outcome(
            pre,
            post,
            name,
            username,
            password,
            generate,
            passlen,
            o,
        ) && store_apikeys(post) == store_apikeys(pre),
        ParsedLineView::Api { name, username, description, key } => api_line_outcome(
            pre,
            post,
            name,
            username,
            description,
            key,
            o,
        ) && store_logins(post) == store_logins(pre),
    }
}

/// One recorded per-line failure: the 1-based line number and its error.
#[derive(Debug)]
pub struct BatchFailure {
    pub line: usize,
    pub error: CMError,
}

/// The summary of one import run: the names inserted and the per-line
/// failures, each in line order.
#[derive(Debug)]
pub struct BatchSummary {
    pub successes: Vec<String>,
    pub failures: Vec<BatchFailure>,
}

/// The `(line number, error)` content of recorded failures.
pub open spec fn failure_views(v: Seq<BatchFailure>) -> Seq<(int, CMError)> {
    v.map_values(|f: BatchFailure| (f.line as int, f.error))
}

proof fn lemma_failure_views_push(v: Seq<BatchFailure>, f: BatchFailure)
    ensures
        failure_views(v.push(f)) =~= failure_views(v).push((f.line as int, f.error)),
{
    assert forall|i: int| 0 <= i < v.len() + 1 implies failure_views(v.push(f))[i]
        == failure_views(v).push((f.line as int, f.error))[i] by {
        if i < v.len() {
            assert(v.push(f)[i] == v[i]);
        } else {
            assert(v.push(f)[i] == f);
        }
    }
}

/// Import every line in order, numbering them from 1, per [`import_line`].
/// The summary's successes are the added names in line order and its
/// failures the failed lines' numbers and errors in line order; there is a
/// trace of store states, from the store as given to the store as left, in
/// which each line's outcome satisfies the store-tied relation
/// [`line_outcome_holds`] against the state before it.  A run whose every
/// line is blank, of unknown kind or of wrong field count makes no outside
/// call and succeeds; the run aborts with `Err` only when an existence check
/// hits a storage failure or the password generator fails.
pub fn add_secrets_from_batch(
    lines: &Vec<String>,
    passlen: Option<usize>,
    store: &mut EncryptedStore,
) -> (r: Result<BatchSummary, CMError>)
    ensures
        r matches Ok(sum) ==> exists|os: Seq<LineOutcome>, states: Seq<EncryptedStore>|
            #![trigger added_names(os), states.len()]
            {
                &&& os.len() == lines@.len()
                &&& states.len() == lines@.len() + 1
                &&& states[0] == *old(store)
                &&& states[lines@.len() as int] == *final(store)
                &&& forall|i: int|
                    0 <= i < os.len() ==> line_outcome_holds(
                        states[i],
                        states[i + 1],
                        lines@[i]@,
                        passlen,
                        #[trigger] os[i],
                    )
                &&& views(sum.successes@) == added_names(os)
                &&& failure_views(sum.failures@) == failure_list(os, 1)
            },
        r matches Ok(sum) ==> forall|i: int|
            0 <= i < sum.successes@.len() ==> store_logins(*final(store)).dom().contains(
                #[trigger] sum.successes@[i]@,
            ) || store_apikeys(*final(store)).dom().contains(sum.successes@[i]@),
        (forall|i: int|
            0 <= i < lines@.len() ==> (#[trigger] spec_parse_line(lines@[i]@) is Blank
                || spec_parse_line(lines@[i]@) is BadKind || spec_parse_line(
                lines@[i]@,
            ) is BadCount)) ==> r is Ok,
        r matches Err(e) ==> e is StorageError || e is Custom,
{
    let mut successes: Vec<String> = Vec::new();
    let mut failures: Vec<BatchFailure> = Vec::new();
    let ghost mut os: Seq<LineOutcome> = Seq::empty();
    let ghost mut states: Seq<EncryptedStore> = seq![*store];
    let mut i: usize = 0;
    while i < lines.len()
        invariant
            i <= lines@.len(),
            os.len() == i as int,
            states.len() == i as int + 1,
            states[0] == *old(store),
            states[i as int] == *store,
            forall|j: int|
                0 <= j < os.len() ==> line_outcome_holds(
                    states[j],
                    states[j + 1],
                    lines@[j]@,
                    passlen,
                    #[trigger] os[j],
                ),
            views(successes@) == added_names(os),
            failure_views(failures@) == failure_list(os, 1),
            forall|j: int|
                0 <= j < successes@.len() ==> store_logins(*store).dom().contains(
                    #[trigger] successes@[j]@,
                ) || store_apikeys(*store).dom().contains(successes@[j]@),
        decreases lines@.len() - i,
    {
        let ghost pre_state = *store;
        let outcome = match import_line(lines[i].as_str(), passlen, store) {
            Ok(o) => o,
            Err(e) => return Err(e),
        };
        let ghost oc = outcome;
        let ghost os0 = os;
        proof {
            os = os0.push(oc);
            states = states.push(*store);
            lemma_added_names_push(os0, oc);
            lemma_failure_list_push(os0, oc, 1);
            assert(line_outcome_holds(pre_state, *store, lines@[i as int]@, passlen, oc));
        }
        match outcome {
            LineOutcome::Skipped => {},
            LineOutcome::Added(n) => {
                proof {
                    lemma_views_push(successes@, n);
                }
                successes.push(n);
            },
            LineOutcome::Failed(e) => {
                let record = BatchFailure { line: i + 1, error: e };
                proof {
                    lemma_failure_views_push(failures@, record);
                }
                failures.push(record);
            },
        }
        i = i + 1;
    }
    Ok(BatchSummary { successes, failures })
}

} // verus!
