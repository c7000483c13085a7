//! The directory: an immutable mapping from names to stored values.

use crate::json::{json_reading, member_views, parse_document, reading_of, Document, Member, Reading};
use vstd::hash_map::StringHashMap;
use vstd::prelude::*;

verus! {

/// Why a text could not be loaded as a directory.
#[derive(Debug, Clone, Copy, PartialEq, Eq)]
pub enum LoadError {
    /// The text is not JSON.
    Malformed,
    /// The text is JSON, but its top-level value is not an object.
    NotAnObject,
}

/// The mapping that a list of members builds when they are entered one after the
/// other: a name that occurs again takes the later value.
pub open spec fn bindings(members: Seq<(Seq<char>, Seq<char>)>) -> Map<Seq<char>, Seq<char>>
    decreases members.len(),
{
    if members.len() == 0 {
        Map::empty()
    } else {
        bindings(members.drop_last()).insert(members.last().0, members.last().1)
    }
}

/// The names of the members, in order.
pub open spec fn names(members: Seq<(Seq<char>, Seq<char>)>) -> Seq<Seq<char>> {
    members.map_values(|member: (Seq<char>, Seq<char>)| member.0)
}

/// What loading makes of a reading: the members' bindings for an object,
/// and otherwise the error that says what else the text was.
pub open spec fn loaded(reading: Reading) -> Result<Map<Seq<char>, Seq<char>>, LoadError> {
    match reading {
        Reading::Malformed => Err(LoadError::Malformed),
        Reading::NotObject => Err(LoadError::NotAnObject),
        Reading::Object(members) => Ok(bindings(members)),
    }
}

/// The name-to-value mapping, fixed once it is built: no method changes it.
pub struct Directory {
    entries: StringHashMap<String>,
}

impl View for Directory {
    type V = Map<Seq<char>, Seq<char>>;

    closed spec fn view(&self) -> Map<Seq<char>, Seq<char>> {
        self.entries@.map_values(|value: String| value@)
    }
}

/// A load's outcome, the directory taken by its view.
pub open spec fn outcome_view(outcome: Result<Directory, LoadError>) -> Result<
    Map<Seq<char>, Seq<char>>,
    LoadError,
> {
    match outcome {
        Ok(dir) => Ok(dir@),
        Err(error) => Err(error),
    }
}

impl Directory {
    /// A directory holds finitely many names.
    #[verifier::type_invariant]
    spec fn is_finite(self) -> bool {
        self.entries@.dom().finite()
    }

    /// Enters the members in order; of two members with one name the later stays.
    pub fn from_members(members: Vec<Member>) -> (dir: Directory)
        ensures
            dir@ == bindings(member_views(members@)),
    {
        let ghost listed = member_views(members@);
        let mut entries: StringHashMap<String> = StringHashMap::new();
        for member in it: members.into_iter()
            invariant
                member_views(it.seq()) == listed,
                entries@.dom().finite(),
                entries@.map_values(|value: String| value@) == bindings(
                    listed.subrange(0, it.index() as int),
                ),
        {
            proof {
                let upto = listed.subrange(0, it.index() + 1);
                assert(upto.drop_last() == listed.subrange(0, it.index() as int));
            }
            entries.insert(member.name, member.value);
        }
        assert(listed.subrange(0, listed.len() as int) == listed);
        Directory { entries }
    }

    /// Turns a parse result into a directory, or says why there is none.
    pub fn from_parsed(parsed: Result<Document, serde_json::Error>) -> (outcome: Result<
        Directory,
        LoadError,
    >)
        ensures
            outcome_view(outcome) == loaded(reading_of(parsed)),
    {
        match parsed {
            Ok(Document::Object(members)) => Ok(Directory::from_members(members)),
            Ok(Document::Other) => Err(LoadError::NotAnObject),
            Err(_) => Err(LoadError::Malformed),
        }
    }

    /// Loads a directory from a JSON text: one entry for each member of the
    /// top-level object, the value kept as compact JSON text.
    pub fn load(bytes: &[u8]) -> (outcome: Result<Directory, LoadError>)
        ensures
            outcome_view(outcome) == loaded(json_reading(bytes@)),
    {
        Directory::from_parsed(parse_document(bytes))
    }

    /// The value stored under a name, if the directory has the name.
    pub fn lookup(&self, name: &str) -> (found: Option<&String>)
        ensures
            match found {
                Some(value) => self@.contains_key(name@) && self@[name@] == value@,
                None => !self@.contains_key(name@),
            },
    {
        self.entries.get(name)
    }

    /// The number of names in the directory.
    pub fn len(&self) -> (count: usize)
        ensures
            self@.dom().finite(),
            count == self@.dom().len(),
    {
        proof {
            use_type_invariant(self);
            assert(self@.dom() =~= self.entries@.dom());
        }
        self.entries.len()
    }
}

/// The mapping built from a list of members holds exactly the members' names, each
/// once: it has as many entries as there are different names in the list, and as
/// many as there are members where no name occurs twice.
pub proof fn bindings_hold_each_name_once(members: Seq<(Seq<char>, Seq<char>)>)
    ensures
        bindings(members).dom() == names(members).to_set(),
        bindings(members).dom().finite(),
        bindings(members).len() == names(members).to_set().len(),
        bindings(members).len() <= members.len(),
        names(members).no_duplicates() ==> bindings(members).len() == members.len(),
    decreases members.len(),
{
    broadcast use vstd::seq_lib::seq_to_set_is_finite;

    if members.len() > 0 {
        let earlier = members.drop_last();
        bindings_hold_each_name_once(earlier);
        assert(names(members) == names(earlier).push(members.last().0));
        names(earlier).lemma_push_to_set_commute(members.last().0);
    }
    if names(members).no_duplicates() {
        names(members).unique_seq_to_set();
    }
}

/// Of the members with one name the last one stays: a member that no later member
/// shares its name with is found in the mapping with its own value.
pub proof fn last_member_of_a_name_stays(members: Seq<(Seq<char>, Seq<char>)>, at: int)
    requires
        0 <= at < members.len(),
        forall|later: int| at < later < members.len() ==> members[later].0 != members[at].0,
    ensures
        bindings(members).contains_key(members[at].0),
        bindings(members)[members[at].0] == members[at].1,
    decreases members.len(),
{
    if at < members.len() - 1 {
        last_member_of_a_name_stays(members.drop_last(), at);
    }
}

} // verus!
