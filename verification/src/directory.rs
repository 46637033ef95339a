//! The directory lookup: which request goes to the directory next, and what
//! its replies mean.
//!
//! One lookup is one connection: connect, bind with the configured name, then
//! search below the configured base for the entry whose `mail` is the
//! identifier. The caller performs each request and hands the reply to
//! [`advance`], which answers with the next request or with the result.
//!
//! The directory answers a bind and a search with a result code. Zero is
//! success; any other code ends the lookup with the error of the stage that
//! was answered.
//!
//! Of several matching entries only the first is used; of several values of
//! the picture attribute only the first, in the order in which the caller
//! hands them over. An entry without the attribute, or with the attribute and
//! no value, counts as having no picture.

use crate::config::ServerConfig;
use vstd::prelude::*;
use vstd::string::*;

verus! {

/// Text in front of the identifier in a search filter.
pub const FILTER_PREFIX: &'static str = "(&(objectClass=inetOrgPerson)(mail=";

/// Text behind the identifier in a search filter.
pub const FILTER_SUFFIX: &'static str = "))";

/// One attribute of an entry with its values as bytes, in the order in which
/// the caller hands them over. That need not be the order in which the
/// directory sent them: a client library may sort the values of an attribute
/// by their kind.
#[derive(Clone, Debug, PartialEq, Eq)]
pub struct BinaryAttribute {
    pub name: String,
    pub values: Vec<Vec<u8>>,
}

/// One entry of a search result: its name and its attributes. An attribute
/// whose values happen to be text is handed over as bytes like any other.
#[derive(Clone, Debug, PartialEq, Eq)]
pub struct DirectoryEntry {
    pub dn: String,
    pub attributes: Vec<BinaryAttribute>,
}

/// How far below the base a search reaches.
#[derive(Clone, Copy, Debug, PartialEq, Eq, Structural)]
pub enum SearchScope {
    Base,
    OneLevel,
    Subtree,
}

/// The step of a lookup whose reply is awaited.
#[derive(Clone, Copy, Debug, PartialEq, Eq, Structural)]
pub enum Stage {
    Connecting,
    Binding,
    Searching,
}

/// A request for the caller to perform on the directory connection.
#[derive(Clone, Debug, PartialEq, Eq)]
pub enum Request {
    /// Open a connection to the directory at `uri`.
    Connect { uri: String },
    /// Bind with a name and its password.
    Bind { dn: String, password: String },
    /// Search below `base` for the entries that match `filter`, asking for
    /// the one attribute named.
    Search { base: String, scope: SearchScope, filter: String, attribute: String },
}

/// The result code with which the directory reports success.
pub const RESULT_SUCCESS: u32 = 0;

/// What came back for a request.
#[derive(Clone, Debug, PartialEq, Eq)]
pub enum Reply {
    /// The directory answered.
    Answered {
        /// The result code of the answer. An opened connection, which has
        /// none, counts as `RESULT_SUCCESS`.
        code: u32,
        /// The answer in words: the reason, where the code is an error.
        detail: String,
        /// The entries of a search, in the order in which they arrived; none
        /// for a connect or a bind.
        entries: Vec<DirectoryEntry>,
    },
    /// The request could not be carried out; the text says why.
    Failure(String),
}

/// The result of a lookup.
#[derive(Clone, Debug, PartialEq, Eq)]
pub enum LookupResult {
    /// The first value of the picture attribute of the first matching entry.
    Value(Vec<u8>),
    /// No entry matched, or the first one that did holds no picture.
    Absent,
    /// The directory could not be reached.
    ConnectionError(String),
    /// The directory rejected the bind.
    BindError(String),
    /// The search failed.
    SearchError(String),
}

/// What follows a reply: another request, or the end of the lookup.
#[derive(Clone, Debug, PartialEq, Eq)]
pub enum Transition {
    Continue { stage: Stage, request: Request },
    Finished(LookupResult),
}

/// `Request` with its texts as sequences of characters.
pub enum RequestView {
    Connect { uri: Seq<char> },
    Bind { dn: Seq<char>, password: Seq<char> },
    Search { base: Seq<char>, scope: SearchScope, filter: Seq<char>, attribute: Seq<char> },
}

/// `Reply` with its contents as sequences.
pub enum ReplyView {
    Answered { code: u32, detail: Seq<char>, entries: Seq<DirectoryEntry> },
    Failure(Seq<char>),
}

/// `LookupResult` with its contents as sequences.
pub enum LookupResultView {
    Value(Seq<u8>),
    Absent,
    ConnectionError(Seq<char>),
    BindError(Seq<char>),
    SearchError(Seq<char>),
}

/// `Transition` with its contents as sequences.
pub enum TransitionView {
    Continue { stage: Stage, request: RequestView },
    Finished(LookupResultView),
}

impl View for Request {
    type V = RequestView;

    open spec fn view(&self) -> RequestView {
        match *self {
            Request::Connect { uri } => RequestView::Connect { uri: uri@ },
            Request::Bind { dn, password } => RequestView::Bind { dn: dn@, password: password@ },
            Request::Search { base, scope, filter, attribute } => RequestView::Search {
                base: base@,
                scope,
                filter: filter@,
                attribute: attribute@,
            },
        }
    }
}

impl View for Reply {
    type V = ReplyView;

    open spec fn view(&self) -> ReplyView {
        match *self {
            Reply::Answered { code, detail, entries } => ReplyView::Answered {
                code,
                detail: detail@,
                entries: entries@,
            },
            Reply::Failure(detail) => ReplyView::Failure(detail@),
        }
    }
}

impl View for LookupResult {
    type V = LookupResultView;

    open spec fn view(&self) -> LookupResultView {
        match *self {
            LookupResult::Value(bytes) => LookupResultView::Value(bytes@),
            LookupResult::Absent => LookupResultView::Absent,
            LookupResult::ConnectionError(detail) => LookupResultView::ConnectionError(detail@),
            LookupResult::BindError(detail) => LookupResultView::BindError(detail@),
            LookupResult::SearchError(detail) => LookupResultView::SearchError(detail@),
        }
    }
}

impl View for Transition {
    type V = TransitionView;

    open spec fn view(&self) -> TransitionView {
        match *self {
            Transition::Continue { stage, request } => TransitionView::Continue {
                stage,
                request: request@,
            },
            Transition::Finished(result) => TransitionView::Finished(result@),
        }
    }
}

/// The filter that selects the person whose `mail` is `identifier`. The
/// identifier is taken as it is.
pub open spec fn filter_of(identifier: Seq<char>) -> Seq<char> {
    FILTER_PREFIX@ + identifier + FILTER_SUFFIX@
}

/// Whether `name` is the name of one of the first `end` attributes.
pub open spec fn named_before(attributes: Seq<BinaryAttribute>, name: Seq<char>, end: int) -> bool {
    exists|i: int| 0 <= i < end && i < attributes.len() && (#[trigger] attributes[i]).name@ == name
}

/// The first value of the first attribute called `name`, if there is such an
/// attribute and it has a value.
pub open spec fn value_in(attributes: Seq<BinaryAttribute>, name: Seq<char>) -> Option<Seq<u8>>
    decreases attributes.len(),
{
    if attributes.len() == 0 {
        None
    } else if attributes[0].name@ == name {
        if attributes[0].values.len() == 0 {
            None
        } else {
            Some(attributes[0].values[0]@)
        }
    } else {
        value_in(attributes.drop_first(), name)
    }
}

/// The picture that a search result holds for the attribute called `name`:
/// the first value of that attribute in the first entry.
pub open spec fn first_value_of(entries: Seq<DirectoryEntry>, name: Seq<char>) -> Option<Seq<u8>> {
    if entries.len() == 0 {
        None
    } else {
        value_in(entries[0].attributes@, name)
    }
}

/// The result of a lookup whose search brought `entries`.
pub open spec fn found(entries: Seq<DirectoryEntry>, name: Seq<char>) -> LookupResultView {
    match first_value_of(entries, name) {
        Some(bytes) => LookupResultView::Value(bytes),
        None => LookupResultView::Absent,
    }
}

/// The result of a lookup whose request at `stage` failed with `detail`.
pub open spec fn failed(stage: Stage, detail: Seq<char>) -> LookupResultView {
    match stage {
        Stage::Connecting => LookupResultView::ConnectionError(detail),
        Stage::Binding => LookupResultView::BindError(detail),
        Stage::Searching => LookupResultView::SearchError(detail),
    }
}

/// The request that opens a lookup.
pub open spec fn first_request_of(config: ServerConfig) -> RequestView {
    RequestView::Connect { uri: config.ldap_uri@ }
}

/// Whether a result code reports success.
pub open spec fn is_success(code: u32) -> bool {
    code == RESULT_SUCCESS
}

/// The reason why a reply counts as a failure: the reason given where the
/// request could not be carried out, the answer in words where its code is an
/// error, and none where the code reports success.
pub open spec fn rejection_of(reply: ReplyView) -> Option<Seq<char>> {
    match reply {
        ReplyView::Failure(detail) => Some(detail),
        ReplyView::Answered { code, detail, entries } => if is_success(code) {
            None
        } else {
            Some(detail)
        },
    }
}

/// What follows a request at `stage` that succeeded; a search brought
/// `entries`.
pub open spec fn next_of(
    config: ServerConfig,
    identifier: Seq<char>,
    stage: Stage,
    entries: Seq<DirectoryEntry>,
) -> TransitionView {
    match stage {
        Stage::Connecting => TransitionView::Continue {
            stage: Stage::Binding,
            request: RequestView::Bind { dn: config.bind_dn@, password: config.bind_pw@ },
        },
        Stage::Binding => TransitionView::Continue {
            stage: Stage::Searching,
            request: RequestView::Search {
                base: config.base@,
                scope: SearchScope::Subtree,
                filter: filter_of(identifier),
                attribute: config.attr@,
            },
        },
        Stage::Searching => TransitionView::Finished(found(entries, config.attr@)),
    }
}

/// What follows the reply to the request at `stage`: the error of the stage
/// where the request could not be carried out or was answered with an error
/// code, and the next step otherwise.
pub open spec fn transition_of(
    config: ServerConfig,
    identifier: Seq<char>,
    stage: Stage,
    reply: ReplyView,
) -> TransitionView {
    match reply {
        ReplyView::Failure(detail) => TransitionView::Finished(failed(stage, detail)),
        ReplyView::Answered { code, detail, entries } => if is_success(code) {
            next_of(config, identifier, stage, entries)
        } else {
            TransitionView::Finished(failed(stage, detail))
        },
    }
}

/// `value_in` skips the attributes in front that have another name.
pub proof fn value_in_skips(attributes: Seq<BinaryAttribute>, name: Seq<char>, index: int)
    requires
        0 <= index <= attributes.len(),
        !named_before(attributes, name, index),
    ensures
        value_in(attributes, name) == value_in(attributes.skip(index), name),
    decreases index,
{
    if index == 0 {
        assert(attributes.skip(0) =~= attributes);
    } else {
        assert(!named_before(attributes, name, index - 1)) by {
            if named_before(attributes, name, index - 1) {
                let i = choose|i: int|
                    0 <= i < index - 1 && i < attributes.len() && (#[trigger] attributes[i]).name@
                        == name;
                assert(0 <= i < index && attributes[i].name@ == name);
            }
        }
        value_in_skips(attributes, name, index - 1);
        let rest = attributes.skip(index - 1);
        assert(rest[0] == attributes[index - 1]);
        assert(rest.drop_first() =~= attributes.skip(index));
    }
}

/// A search result without entries holds no picture, and neither does one
/// whose first entry has no attribute of the name asked for.
pub proof fn no_match_has_no_value(entries: Seq<DirectoryEntry>, name: Seq<char>)
    requires
        entries.len() == 0 || forall|i: int|
            0 <= i < entries[0].attributes@.len() ==> (#[trigger] entries[0].attributes@[i]).name@
                != name,
    ensures
        first_value_of(entries, name) is None,
        found(entries, name) == LookupResultView::Absent,
{
    if entries.len() > 0 {
        let attributes = entries[0].attributes@;
        value_in_skips(attributes, name, attributes.len() as int);
        assert(attributes.skip(attributes.len() as int).len() == 0);
    }
}

/// Only the first entry of a search result counts: what follows it changes
/// nothing.
pub proof fn later_entries_are_ignored(
    first: DirectoryEntry,
    others: Seq<DirectoryEntry>,
    name: Seq<char>,
)
    ensures
        first_value_of(seq![first] + others, name) == first_value_of(seq![first], name),
{
    assert((seq![first] + others)[0] == first);
    assert(seq![first][0] == first);
}

/// Builds the search filter for an identifier.
pub fn search_filter(identifier: &str) -> (filter: String)
    ensures
        filter@ == filter_of(identifier@),
{
    let mut filter = String::from_str(FILTER_PREFIX);
    filter.append(identifier);
    filter.append(FILTER_SUFFIX);
    filter
}

pub(crate) fn copy_bytes(bytes: &Vec<u8>) -> (copy: Vec<u8>)
    ensures
        copy@ == bytes@,
{
    let copy = bytes.clone();
    assert(copy@ =~= bytes@);
    copy
}

/// Picks the picture out of a search result: the first value of the attribute
/// called `name` in the first entry.
pub fn first_value(entries: &Vec<DirectoryEntry>, name: &String) -> (value: Option<Vec<u8>>)
    ensures
        match value {
            Some(bytes) => first_value_of(entries@, name@) == Some(bytes@),
            None => first_value_of(entries@, name@).is_none(),
        },
        entries.len() == 0 ==> value.is_none(),
{
    if entries.len() == 0 {
        return None;
    }
    let attributes = &entries[0].attributes;
    let mut i: usize = 0;
    while i < attributes.len()
        invariant
            i <= attributes.len(),
            entries.len() > 0,
            attributes@ == entries@[0].attributes@,
            !named_before(attributes@, name@, i as int),
        decreases attributes.len() - i,
    {
        if attributes[i].name == *name {
            proof {
                value_in_skips(attributes@, name@, i as int);
                assert(attributes@.skip(i as int)[0] == attributes@[i as int]);
            }
            if attributes[i].values.len() == 0 {
                return None;
            }
            return Some(copy_bytes(&attributes[i].values[0]));
        }
        i += 1;
    }
    proof {
        value_in_skips(attributes@, name@, attributes.len() as int);
    }
    None
}

/// Opens a lookup: the first request is to connect to the configured
/// directory.
pub fn start(config: &ServerConfig) -> (first: (Stage, Request))
    ensures
        first.0 == Stage::Connecting,
        first.1@ == first_request_of(*config),
{
    (Stage::Connecting, Request::Connect { uri: config.ldap_uri.clone() })
}

fn stage_error(stage: Stage, detail: String) -> (result: LookupResult)
    ensures
        result@ == failed(stage, detail@),
{
    match stage {
        Stage::Connecting => LookupResult::ConnectionError(detail),
        Stage::Binding => LookupResult::BindError(detail),
        Stage::Searching => LookupResult::SearchError(detail),
    }
}

/// Decides what follows the reply to the request at `stage`.
///
/// A request that could not be carried out, or that the directory answered
/// with a result code other than `RESULT_SUCCESS`, ends the lookup with the
/// error of that stage. A connection is followed by a bind with the
/// configured name, a bind by a subtree search below the configured base for
/// the entry of `identifier`, asking for the picture attribute alone. The
/// entries of the search end the lookup with the picture or with its absence.
pub fn advance(config: &ServerConfig, identifier: &str, stage: Stage, reply: Reply) -> (next:
    Transition)
    ensures
        next@ == transition_of(*config, identifier@, stage, reply@),
{
    match reply {
        Reply::Failure(detail) => Transition::Finished(stage_error(stage, detail)),
        Reply::Answered { code, detail, entries } => {
            if code != RESULT_SUCCESS {
                return Transition::Finished(stage_error(stage, detail));
            }
            match stage {
                Stage::Connecting => Transition::Continue {
                    stage: Stage::Binding,
                    request: Request::Bind {
                        dn: config.bind_dn.clone(),
                        password: config.bind_pw.clone(),
                    },
                },
                Stage::Binding => Transition::Continue {
                    stage: Stage::Searching,
                    request: Request::Search {
                        base: config.base.clone(),
                        scope: SearchScope::Subtree,
                        filter: search_filter(identifier),
                        attribute: config.attr.clone(),
                    },
                },
                Stage::Searching => {
                    let result = match first_value(&entries, &config.attr) {
                        Some(bytes) => LookupResult::Value(bytes),
                        None => LookupResult::Absent,
                    };
                    Transition::Finished(result)
                },
            }
        },
    }
}

} // verus!
