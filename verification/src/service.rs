//! The three endpoints, as functions of the directory and the request.
//!
//! Each returns what it answers with: the status, the media type and the
//! content. Writing that answer to the wire is left to whoever serves them.

use crate::directory::{
    bindings, bindings_hold_each_name_once, loaded, names, outcome_view, Directory,
};
use crate::json::Reading;
use vstd::prelude::*;
use vstd::string::StrSliceExecFns;

verus! {

/// The status of every answer: a lookup that finds nothing is an answer too.
pub const STATUS_OK: u16 = 200;

/// Where the address token starts in a stored value: behind one leading marker.
pub const TOKEN_START: usize = 1;

/// Where the address token ends in a stored value, exclusive.
pub const TOKEN_END: usize = 43;

/// The media type of an answer's content.
#[derive(Debug, Clone, Copy, PartialEq, Eq)]
pub enum Media {
    /// Plain text.
    Text,
    /// A JSON value.
    Json,
}

/// What an endpoint answers with.
#[derive(Debug, PartialEq, Eq)]
pub struct Reply<C> {
    pub status: u16,
    pub media: Media,
    pub content: C,
}

/// The content of the answer to resolving a name: the JSON object with the one
/// member `address`, which holds the address token, or null where the directory
/// has no such name.
#[derive(Debug, PartialEq, Eq)]
pub struct Resolution {
    pub address: Option<String>,
}

impl View for Resolution {
    type V = Option<Seq<char>>;

    open spec fn view(&self) -> Option<Seq<char>> {
        match self.address {
            Some(token) => Some(token@),
            None => None,
        }
    }
}

/// Why a name that the directory has could not be resolved.
#[derive(Debug, Clone, Copy, PartialEq, Eq)]
pub enum ResolveError {
    /// The stored value ends before the token does.
    ValueTooShort,
}

/// The content of the answer to asking for the statistics: the JSON object with
/// the one member `count`.
#[derive(Debug, Clone, Copy, PartialEq, Eq)]
pub struct Stats {
    pub count: usize,
}

/// The address token of a stored value: its characters from `TOKEN_START` up to `TOKEN_END`.
pub open spec fn token_of(value: Seq<char>) -> Seq<char>
    recommends
        value.len() >= TOKEN_END,
{
    value.subrange(TOKEN_START as int, TOKEN_END as int)
}

/// What resolving a name in a mapping gives: null for a name that is not there, the
/// token of the stored value where that is long enough to hold one, and an error
/// where it is not.
pub open spec fn resolve(dir: Map<Seq<char>, Seq<char>>, name: Seq<char>) -> Result<
    Option<Seq<char>>,
    ResolveError,
> {
    if !dir.contains_key(name) {
        Ok(None)
    } else if dir[name].len() >= TOKEN_END {
        Ok(Some(token_of(dir[name])))
    } else {
        Err(ResolveError::ValueTooShort)
    }
}

/// Whether an outcome is the one that resolving `name` in `dir` gives: the error
/// that `resolve` gives, or a JSON answer with `STATUS_OK` whose content is what
/// `resolve` gives.
pub open spec fn answers(
    outcome: Result<Reply<Resolution>, ResolveError>,
    dir: Map<Seq<char>, Seq<char>>,
    name: Seq<char>,
) -> bool {
    match outcome {
        Ok(reply) => {
            &&& reply.status == STATUS_OK
            &&& reply.media == Media::Json
            &&& resolve(dir, name) == Ok::<_, ResolveError>(reply.content@)
        },
        Err(error) => resolve(dir, name) == Err::<Option<Seq<char>>, _>(error),
    }
}

/// Resolves a name: looks it up and cuts the address token out of the stored value.
pub fn ens_fn(ens_name: String, ens_to_address: &Directory) -> (outcome: Result<
    Reply<Resolution>,
    ResolveError,
>)
    ensures
        answers(outcome, ens_to_address@, ens_name@),
{
    let address = match ens_to_address.lookup(ens_name.as_str()) {
        None => None,
        Some(value) => {
            let stored = value.as_str();
            if stored.unicode_len() < TOKEN_END {
                return Err(ResolveError::ValueTooShort);
            }
            Some(stored.substring_char(TOKEN_START, TOKEN_END).to_owned())
        },
    };
    Ok(Reply { status: STATUS_OK, media: Media::Json, content: Resolution { address } })
}

/// The liveness answer: always the same greeting, whatever any directory holds.
pub fn ping_fn() -> (reply: Reply<&'static str>)
    ensures
        reply.status == STATUS_OK,
        reply.media == Media::Text,
        reply.content@ == "Hello, world!"@,
{
    Reply { status: STATUS_OK, media: Media::Text, content: "Hello, world!" }
}

/// Counts the names in the directory.
pub fn stats_fn(ens_to_address: &Directory) -> (reply: Reply<Stats>)
    ensures
        reply.status == STATUS_OK,
        reply.media == Media::Json,
        ens_to_address@.dom().finite(),
        reply.content.count == ens_to_address@.dom().len(),
{
    Reply { status: STATUS_OK, media: Media::Json, content: Stats { count: ens_to_address.len() } }
}

/// A name that the directory has, with a stored value long enough, resolves to
/// the token of that value: the answer has `STATUS_OK` and holds the characters of
/// the value from `TOKEN_START` up to `TOKEN_END`, and no others.
pub proof fn present_name_resolves_to_its_token(
    dir: Map<Seq<char>, Seq<char>>,
    name: Seq<char>,
    outcome: Result<Reply<Resolution>, ResolveError>,
)
    requires
        answers(outcome, dir, name),
        dir.contains_key(name),
        dir[name].len() >= TOKEN_END,
    ensures
        outcome matches Ok(reply) && reply.status == STATUS_OK && reply.media == Media::Json
            && reply.content@ == Some(dir[name].subrange(TOKEN_START as int, TOKEN_END as int)),
        dir[name].subrange(TOKEN_START as int, TOKEN_END as int).len() == TOKEN_END - TOKEN_START,
{
}

/// A name that the directory does not have resolves to null: the answer has
/// `STATUS_OK` all the same, and is no error.
pub proof fn absent_name_resolves_to_null(
    dir: Map<Seq<char>, Seq<char>>,
    name: Seq<char>,
    outcome: Result<Reply<Resolution>, ResolveError>,
)
    requires
        answers(outcome, dir, name),
        !dir.contains_key(name),
    ensures
        outcome matches Ok(reply) && reply.status == STATUS_OK && reply.media == Media::Json
            && reply.content@ == None::<Seq<char>>,
{
}

/// A name that the directory has with a stored value too short for a token is
/// answered with an error, never with a token cut short.
pub proof fn short_value_is_an_error(
    dir: Map<Seq<char>, Seq<char>>,
    name: Seq<char>,
    outcome: Result<Reply<Resolution>, ResolveError>,
)
    requires
        answers(outcome, dir, name),
        dir.contains_key(name),
        dir[name].len() < TOKEN_END,
    ensures
        outcome == Err::<Reply<Resolution>, _>(ResolveError::ValueTooShort),
{
}

/// Resolving is repeatable: two outcomes for one name in one directory are the same,
/// error for error and answer for answer.
pub proof fn resolving_again_gives_the_same(
    dir: Map<Seq<char>, Seq<char>>,
    name: Seq<char>,
    first: Result<Reply<Resolution>, ResolveError>,
    second: Result<Reply<Resolution>, ResolveError>,
)
    requires
        answers(first, dir, name),
        answers(second, dir, name),
    ensures
        first is Ok <==> second is Ok,
        first matches Ok(one) ==> second matches Ok(other) && one.status == other.status
            && one.media == other.media && one.content@ == other.content@,
        first matches Err(one) ==> second matches Err(other) && one == other,
{
}

/// The count after loading is the number of different names among the members of
/// the top-level object that was read.
pub proof fn count_is_the_number_of_names(reading: Reading, dir: Directory, reply: Reply<Stats>)
    requires
        outcome_view(Ok(dir)) == loaded(reading),
        reply.content.count == dir@.dom().len(),
    ensures
        reading matches Reading::Object(members) && dir@ == bindings(members)
            && reply.content.count == names(members).to_set().len(),
{
    match reading {
        Reading::Object(members) => bindings_hold_each_name_once(members),
        _ => {},
    }
}

} // verus!
