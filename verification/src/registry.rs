//! The installed applications that a window searches.
//!
//! A registry is enumerated once, handed to the window when it is built and
//! never changed afterwards: it offers no operation that adds, removes or
//! renames an entry.

use vstd::prelude::*;

use crate::matching::{chars_of, contains_chars, matching_names, name_matches};

verus! {

/// One installed application, known by its display name.
#[derive(Debug)]
pub struct ApplicationDescriptor {
    name: String,
    chars: Vec<char>,
}

impl View for ApplicationDescriptor {
    type V = Seq<char>;

    /// The display name.
    closed spec fn view(&self) -> Seq<char> {
        self.name@
    }
}

impl ApplicationDescriptor {
    /// The characters are those of the name, kept so that a search need not
    /// decode the name again.
    #[verifier::type_invariant]
    spec fn chars_spell_name(self) -> bool {
        self.chars@ == self.name@
    }

    /// Describes the application called `name`.
    pub fn new(name: String) -> (descriptor: Self)
        ensures
            descriptor@ == name@,
    {
        let chars = chars_of(name.as_str());
        ApplicationDescriptor { name, chars }
    }

    /// The display name.
    pub fn name(&self) -> (name: &str)
        ensures
            name@ == self@,
    {
        self.name.as_str()
    }

    /// Whether this application is a result for the query spelled by `query`.
    pub fn matches_chars(&self, query: &[char]) -> (matched: bool)
        ensures
            matched == name_matches(self@, query@),
    {
        proof {
            use_type_invariant(self);
        }
        query.len() > 0 && contains_chars(self.chars.as_slice(), query)
    }

    /// Whether this application is a result for `query`.
    pub fn matches(&self, query: &str) -> (matched: bool)
        ensures
            matched == name_matches(self@, query@),
    {
        let query_chars = chars_of(query);
        self.matches_chars(query_chars.as_slice())
    }
}

/// The names of `descriptors`, in order.
pub open spec fn names_of(descriptors: Seq<ApplicationDescriptor>) -> Seq<Seq<char>> {
    Seq::new(descriptors.len(), |i: int| descriptors[i]@)
}

/// The installed applications, in the order in which they were enumerated.
#[derive(Debug)]
pub struct ApplicationRegistry {
    descriptors: Vec<ApplicationDescriptor>,
}

impl View for ApplicationRegistry {
    type V = Seq<Seq<char>>;

    /// The display names, in registry order.
    closed spec fn view(&self) -> Seq<Seq<char>> {
        names_of(self.descriptors@)
    }
}

impl ApplicationRegistry {
    /// A registry of `descriptors`, in the order given. An empty registry is
    /// valid: no query has a result in it.
    pub fn new(descriptors: Vec<ApplicationDescriptor>) -> (registry: Self)
        ensures
            registry@ == names_of(descriptors@),
    {
        ApplicationRegistry { descriptors }
    }

    /// The number of applications.
    pub fn len(&self) -> (len: usize)
        ensures
            len == self@.len(),
    {
        self.descriptors.len()
    }

    /// Whether the registry holds no application.
    pub fn is_empty(&self) -> (empty: bool)
        ensures
            empty == (self@.len() == 0),
    {
        self.descriptors.len() == 0
    }

    /// The application at position `index`, or `None` past the end.
    pub fn get(&self, index: usize) -> (descriptor: Option<&ApplicationDescriptor>)
        ensures
            index < self@.len() ==> descriptor.is_some() && descriptor.unwrap()@ == self@[index as int],
            index >= self@.len() ==> descriptor.is_none(),
    {
        if index < self.descriptors.len() {
            Some(&self.descriptors[index])
        } else {
            None
        }
    }

    /// The names of the applications that are results for `query`, in
    /// registry order. Every application is examined.
    pub fn matching(&self, query: &str) -> (names: Vec<String>)
        ensures
            names.deep_view() == matching_names(self@, query@),
    {
        let query_chars = chars_of(query);
        let ghost pred = |name: Seq<char>| name_matches(name, query@);
        let mut names: Vec<String> = Vec::new();
        let mut i: usize = 0;
        assert(self@.take(0).filter(pred) =~= Seq::<Seq<char>>::empty()) by {
            reveal(Seq::filter);
        }
        assert(names.deep_view() =~= Seq::<Seq<char>>::empty());
        while i < self.descriptors.len()
            invariant
                i <= self.descriptors@.len(),
                query_chars@ == query@,
                pred == (|name: Seq<char>| name_matches(name, query@)),
                names.deep_view() == self@.take(i as int).filter(pred),
            decreases self.descriptors@.len() - i,
        {
            let descriptor = &self.descriptors[i];
            let ghost before = names.deep_view();
            let matched = descriptor.matches_chars(query_chars.as_slice());
            if matched {
                names.push(descriptor.name.clone());
                assert(names.deep_view() =~= before.push(descriptor@));
            }
            proof {
                let prefix = self@.take(i + 1);
                assert(prefix.drop_last() =~= self@.take(i as int));
                assert(prefix.last() == descriptor@);
                reveal(Seq::filter);
            }
            i += 1;
        }
        assert(self@.take(i as int) =~= self@);
        names
    }
}

} // verus!
