//! The scripts that are registered for each type of event.

use vstd::prelude::*;
use super::decode::FromJson;
use super::json::{slot, Field, JsonValue, Slot};

verus! {

/// The texts of a list of strings.
pub open spec fn texts(v: Seq<String>) -> Seq<Seq<char>> {
    Seq::new(v.len(), |i: int| v[i]@)
}

/// A copy of a list of strings.
pub fn copy_texts(v: &Vec<String>) -> (r: Vec<String>)
    ensures
        texts(r@) == texts(v@),
{
    let mut out: Vec<String> = Vec::new();
    let mut i: usize = 0;
    while i < v.len()
        invariant
            i <= v.len(),
            out@.len() == i,
            forall|j: int| 0 <= j < i ==> out@[j]@ == v@[j]@,
        decreases v.len() - i,
    {
        out.push(v[i].clone());
        i += 1;
    }
    assert(texts(out@) =~= texts(v@));
    out
}

/// One launch of a script, as the contracts see it.
pub struct Invocation {
    pub path: Seq<char>,
    pub arguments: Seq<Seq<char>>,
    pub working_directory: Option<Seq<char>>,
}

/// One configured launch of a script: the script, its arguments, and the
/// directory to run it in, if one is set.
#[derive(Debug, PartialEq)]
pub struct ScriptInvocation {
    pub path: String,
    pub arguments: Vec<String>,
    pub working_directory: Option<String>,
}

impl View for ScriptInvocation {
    type V = Invocation;

    open spec fn view(&self) -> Invocation {
        Invocation {
            path: self.path@,
            arguments: texts(self.arguments@),
            working_directory: match self.working_directory {
                Some(d) => Some(d@),
                None => None,
            },
        }
    }
}

impl Clone for ScriptInvocation {
    fn clone(&self) -> (r: Self)
        ensures
            r@ == self@,
    {
        ScriptInvocation {
            path: self.path.clone(),
            arguments: copy_texts(&self.arguments),
            working_directory: match &self.working_directory {
                Some(d) => Some(d.clone()),
                None => None,
            },
        }
    }
}

/// The launches of a list of invocations.
pub open spec fn launches(v: Seq<ScriptInvocation>) -> Seq<Invocation> {
    Seq::new(v.len(), |i: int| v[i]@)
}

/// A copy of a list of invocations.
pub fn copy_invocations(v: &Vec<ScriptInvocation>) -> (r: Vec<ScriptInvocation>)
    ensures
        launches(r@) == launches(v@),
{
    let mut out: Vec<ScriptInvocation> = Vec::new();
    let mut i: usize = 0;
    while i < v.len()
        invariant
            i <= v.len(),
            out@.len() == i,
            forall|j: int| 0 <= j < i ==> out@[j]@ == v@[j]@,
        decreases v.len() - i,
    {
        out.push(v[i].clone());
        i += 1;
    }
    assert(launches(out@) =~= launches(v@));
    out
}

/// In a document an invocation is a record of `path`, `arguments` and,
/// where one is set, `workingDirectory`.
impl FromJson for ScriptInvocation {
    open spec fn fits(s: Slot) -> bool {
        &&& s matches Slot::Found(m)
        &&& <String>::fits(slot(m, "path"@, 0, 3))
        &&& <Vec<String>>::fits(slot(m, "arguments"@, 1, 3))
        &&& <Option<String>>::fits(slot(m, "workingDirectory"@, 2, 3))
    }

    open spec fn reads(&self, s: Slot) -> bool {
        &&& s matches Slot::Found(m)
        &&& self.path.reads(slot(m, "path"@, 0, 3))
        &&& self.arguments.reads(slot(m, "arguments"@, 1, 3))
        &&& self.working_directory.reads(slot(m, "workingDirectory"@, 2, 3))
    }

    fn read(field: &Field) -> (r: Option<Self>) {
        match field {
            Field::Found(v) => {
                let path = <String>::read(&v.field("path", 0, 3))?;
                let arguments = <Vec<String>>::read(&v.field("arguments", 1, 3))?;
                let working_directory = <Option<String>>::read(
                    &v.field("workingDirectory", 2, 3),
                )?;
                Some(ScriptInvocation { path, arguments, working_directory })
            },
            _ => None,
        }
    }
}

/// The scripts of one type of event, in the order in which they are
/// launched.
#[derive(Debug, PartialEq)]
pub struct RegistryEntry {
    pub event_type: String,
    pub invocations: Vec<ScriptInvocation>,
}

impl View for RegistryEntry {
    type V = (Seq<char>, Seq<Invocation>);

    open spec fn view(&self) -> (Seq<char>, Seq<Invocation>) {
        (self.event_type@, launches(self.invocations@))
    }
}

/// In a document an entry is a record of `eventType` and `invocations`.
impl FromJson for RegistryEntry {
    open spec fn fits(s: Slot) -> bool {
        &&& s matches Slot::Found(m)
        &&& <String>::fits(slot(m, "eventType"@, 0, 2))
        &&& <Vec<ScriptInvocation>>::fits(slot(m, "invocations"@, 1, 2))
    }

    open spec fn reads(&self, s: Slot) -> bool {
        &&& s matches Slot::Found(m)
        &&& self.event_type.reads(slot(m, "eventType"@, 0, 2))
        &&& self.invocations.reads(slot(m, "invocations"@, 1, 2))
    }

    fn read(field: &Field) -> (r: Option<Self>) {
        match field {
            Field::Found(v) => {
                let event_type = <String>::read(&v.field("eventType", 0, 2))?;
                let invocations = <Vec<ScriptInvocation>>::read(&v.field("invocations", 1, 2))?;
                Some(RegistryEntry { event_type, invocations })
            },
            _ => None,
        }
    }
}

/// The entries of a list, as the contracts see them.
pub open spec fn entry_models(v: Seq<RegistryEntry>) -> Seq<(Seq<char>, Seq<Invocation>)> {
    Seq::new(v.len(), |i: int| v[i]@)
}

/// The launches registered for a type of event: those of the first entry of
/// that type, and none where there is no such entry.
pub open spec fn registered(
    entries: Seq<(Seq<char>, Seq<Invocation>)>,
    event_type: Seq<char>,
) -> Seq<Invocation>
    decreases entries.len(),
{
    if entries.len() == 0 {
        Seq::empty()
    } else if entries[0].0 == event_type {
        entries[0].1
    } else {
        registered(entries.drop_first(), event_type)
    }
}

/// Why a list of entries is no registry.
#[derive(Debug, Clone, Copy, PartialEq, Eq)]
pub enum RegistryError {
    /// The source is no list of entries.
    Malformed,
    /// The entry at this place names no type of event.
    MissingEventType { entry: usize },
    /// The entry at this place has the type of an earlier entry.
    DuplicateEventType { entry: usize },
    /// The invocation at this place of the entry names no script.
    MissingPath { entry: usize, invocation: usize },
}

/// Entry `i` names no type of event.
pub open spec fn untyped(entries: Seq<(Seq<char>, Seq<Invocation>)>, i: int) -> bool {
    entries[i].0.len() == 0
}

/// Entry `i` has the type of an earlier entry.
pub open spec fn repeated(entries: Seq<(Seq<char>, Seq<Invocation>)>, i: int) -> bool {
    exists|j: int| 0 <= j < i && (#[trigger] entries[j]).0 == entries[i].0
}

/// Invocation `k` of entry `i` names no script.
pub open spec fn pathless(entries: Seq<(Seq<char>, Seq<Invocation>)>, i: int, k: int) -> bool {
    entries[i].1[k].path.len() == 0
}

/// Entry `i` is in order: it names a type that no earlier entry has, and
/// each of its invocations names a script.
pub open spec fn entry_sound(entries: Seq<(Seq<char>, Seq<Invocation>)>, i: int) -> bool {
    &&& !untyped(entries, i)
    &&& !repeated(entries, i)
    &&& forall|k: int| 0 <= k < entries[i].1.len() ==> !pathless(entries, i, k)
}

/// Every entry is in order.
pub open spec fn sound(entries: Seq<(Seq<char>, Seq<Invocation>)>) -> bool {
    forall|i: int| 0 <= i < entries.len() ==> entry_sound(entries, i)
}

/// `e` names the first thing that is out of order in `entries`: the first
/// entry that is not in order, and in it the missing type before the
/// repeated one, and the repeated type before the first missing path.
pub open spec fn first_fault(entries: Seq<(Seq<char>, Seq<Invocation>)>, e: RegistryError) -> bool {
    match e {
        RegistryError::Malformed => false,
        RegistryError::MissingEventType { entry } => {
            &&& entry < entries.len()
            &&& forall|j: int| 0 <= j < entry ==> entry_sound(entries, j)
            &&& untyped(entries, entry as int)
        },
        RegistryError::DuplicateEventType { entry } => {
            &&& entry < entries.len()
            &&& forall|j: int| 0 <= j < entry ==> entry_sound(entries, j)
            &&& !untyped(entries, entry as int)
            &&& repeated(entries, entry as int)
        },
        RegistryError::MissingPath { entry, invocation } => {
            &&& entry < entries.len()
            &&& forall|j: int| 0 <= j < entry ==> entry_sound(entries, j)
            &&& !untyped(entries, entry as int)
            &&& !repeated(entries, entry as int)
            &&& invocation < entries[entry as int].1.len()
            &&& pathless(entries, entry as int, invocation as int)
            &&& forall|k: int| 0 <= k < invocation ==> !pathless(entries, entry as int, k)
        },
    }
}

/// Where every entry is in order, the launches registered for a type are
/// those of the one entry of that type.
pub proof fn lemma_registered_is_the_entry(entries: Seq<(Seq<char>, Seq<Invocation>)>, i: int)
    requires
        sound(entries),
        0 <= i < entries.len(),
    ensures
        registered(entries, entries[i].0) == entries[i].1,
    decreases i,
{
    if i > 0 {
        let rest = entries.drop_first();
        assert(entries[0].0 != entries[i].0) by {
            assert(entry_sound(entries, i));
        }
        assert forall|j: int| 0 <= j < rest.len() implies entry_sound(rest, j) by {
            assert(entry_sound(entries, j + 1));
            assert(rest[j] == entries[j + 1]);
            if repeated(rest, j) {
                let k = choose|k: int| 0 <= k < j && (#[trigger] rest[k]).0 == rest[j].0;
                assert(rest[k] == entries[k + 1]);
                assert(repeated(entries, j + 1));
            }
            assert forall|n: int| 0 <= n < rest[j].1.len() implies !pathless(rest, j, n) by {
                assert(!pathless(entries, j + 1, n));
            }
        }
        lemma_registered_is_the_entry(rest, i - 1);
    }
}

/// A type that heads no entry has no launches.
pub proof fn lemma_unregistered_is_empty(
    entries: Seq<(Seq<char>, Seq<Invocation>)>,
    event_type: Seq<char>,
)
    requires
        forall|i: int| 0 <= i < entries.len() ==> (#[trigger] entries[i]).0 != event_type,
    ensures
        registered(entries, event_type) == Seq::<Invocation>::empty(),
    decreases entries.len(),
{
    if entries.len() > 0 {
        let rest = entries.drop_first();
        assert(entries[0].0 != event_type);
        assert forall|i: int| 0 <= i < rest.len() implies (#[trigger] rest[i]).0 != event_type by {
            assert(rest[i] == entries[i + 1]);
        }
        lemma_unregistered_is_empty(rest, event_type);
    }
}

/// The scripts of every type of event. It is made once, by
/// [`ScriptRegistry::load`], and read from then on.
#[derive(Debug, PartialEq)]
pub struct ScriptRegistry {
    entries: Vec<RegistryEntry>,
}

impl View for ScriptRegistry {
    type V = Seq<(Seq<char>, Seq<Invocation>)>;

    closed spec fn view(&self) -> Seq<(Seq<char>, Seq<Invocation>)> {
        entry_models(self.entries@)
    }
}

impl ScriptRegistry {
    #[verifier::type_invariant]
    spec fn in_order(self) -> bool {
        sound(self@)
    }

    /// The entries of the registry. They are in order.
    pub fn entries(&self) -> (r: &Vec<RegistryEntry>)
        ensures
            entry_models(r@) == self@,
            sound(self@),
    {
        proof {
            use_type_invariant(self);
        }
        &self.entries
    }

    /// The launches registered for a type of event.
    pub open spec fn invocations_for(&self, event_type: Seq<char>) -> Seq<Invocation> {
        registered(self@, event_type)
    }

    /// The first place of `entries` before `limit` that holds the type of
    /// entry `limit`.
    fn earlier_of_type(entries: &Vec<RegistryEntry>, limit: usize) -> (r: bool)
        requires
            limit < entries.len(),
        ensures
            r == repeated(entry_models(entries@), limit as int),
    {
        let ghost model = entry_models(entries@);
        let mut j: usize = 0;
        while j < limit
            invariant
                j <= limit < entries.len(),
                model == entry_models(entries@),
                forall|k: int| 0 <= k < j ==> (#[trigger] model[k]).0 != model[limit as int].0,
            decreases limit - j,
        {
            if entries[j].event_type == entries[limit].event_type {
                assert(model[j as int].0 == model[limit as int].0);
                return true;
            }
            j += 1;
        }
        false
    }

    /// The place of the first invocation that names no script.
    fn first_pathless(entries: &Vec<RegistryEntry>, i: usize) -> (r: Option<usize>)
        requires
            i < entries.len(),
        ensures
            match r {
                Some(k) => {
                    &&& k < entry_models(entries@)[i as int].1.len()
                    &&& pathless(entry_models(entries@), i as int, k as int)
                    &&& forall|n: int| 0 <= n < k ==> !pathless(entry_models(entries@), i as int, n)
                },
                None => forall|n: int|
                    0 <= n < entry_models(entries@)[i as int].1.len() ==> !pathless(
                        entry_models(entries@),
                        i as int,
                        n,
                    ),
            },
    {
        let ghost model = entry_models(entries@);
        let invocations = &entries[i].invocations;
        let mut k: usize = 0;
        while k < invocations.len()
            invariant
                k <= invocations.len(),
                i < entries.len(),
                model == entry_models(entries@),
                *invocations == entries@[i as int].invocations,
                forall|n: int| 0 <= n < k ==> !pathless(model, i as int, n),
            decreases invocations.len() - k,
        {
            if invocations[k].path.as_str().is_empty() {
                return Some(k);
            }
            k += 1;
        }
        None
    }

    /// Makes the registry of a list of entries, if the list is in order,
    /// and names the first thing that is not.
    pub fn load(source: Vec<RegistryEntry>) -> (r: Result<ScriptRegistry, RegistryError>)
        ensures
            match r {
                Ok(registry) => sound(entry_models(source@)) && registry@ == entry_models(
                    source@,
                ),
                Err(e) => first_fault(entry_models(source@), e),
            },
    {
        let ghost model = entry_models(source@);
        let mut i: usize = 0;
        while i < source.len()
            invariant
                i <= source.len(),
                model == entry_models(source@),
                forall|j: int| 0 <= j < i ==> entry_sound(model, j),
            decreases source.len() - i,
        {
            if source[i].event_type.as_str().is_empty() {
                return Err(RegistryError::MissingEventType { entry: i });
            }
            if Self::earlier_of_type(&source, i) {
                return Err(RegistryError::DuplicateEventType { entry: i });
            }
            match Self::first_pathless(&source, i) {
                Some(k) => {
                    return Err(RegistryError::MissingPath { entry: i, invocation: k });
                },
                None => {},
            }
            i += 1;
        }
        Ok(ScriptRegistry { entries: source })
    }

    /// Reads a list of entries from a document and makes their registry.
    pub fn load_json(document: &JsonValue) -> (r: Result<ScriptRegistry, RegistryError>)
        ensures
            r == Err::<ScriptRegistry, RegistryError>(RegistryError::Malformed) <==> !<Vec<
                RegistryEntry,
            >>::fits(Slot::Found(document@)),
            r matches Ok(registry) ==> exists|entries: Vec<RegistryEntry>|
                entries.reads(Slot::Found(document@)) && sound(entry_models(entries@))
                    && registry@ == entry_models(entries@),
            r matches Err(e) ==> e is Malformed || exists|entries: Vec<RegistryEntry>|
                entries.reads(Slot::Found(document@)) && first_fault(entry_models(entries@), e),
    {
        match <Vec<RegistryEntry>>::read(&Field::Found(document)) {
            Some(entries) => Self::load(entries),
            None => Err(RegistryError::Malformed),
        }
    }

    /// The place of the entry of a type of event, if it has one.
    pub fn position(&self, event_type: &str) -> (r: Option<usize>)
        ensures
            match r {
                Some(i) => i < self@.len() && self@[i as int].0 == event_type@
                    && self.invocations_for(event_type@) == self@[i as int].1,
                None => self.invocations_for(event_type@) == Seq::<Invocation>::empty(),
            },
    {
        let wanted = event_type.to_owned();
        let ghost model = self@;
        assert(model.subrange(0, model.len() as int) =~= model);
        let mut i: usize = 0;
        while i < self.entries.len()
            invariant
                i <= self.entries.len(),
                wanted@ == event_type@,
                model == entry_models(self.entries@),
                registered(model, event_type@) == registered(
                    model.subrange(i as int, model.len() as int),
                    event_type@,
                ),
            decreases self.entries.len() - i,
        {
            let ghost rest = model.subrange(i as int, model.len() as int);
            assert(rest[0] == model[i as int]);
            if self.entries[i].event_type == wanted {
                return Some(i);
            }
            assert(rest.drop_first() =~= model.subrange(i as int + 1, model.len() as int));
            i += 1;
        }
        None
    }

    /// The scripts registered for a type of event, in their order; none
    /// where the type has no entry.
    pub fn lookup(&self, event_type: &str) -> (r: Vec<ScriptInvocation>)
        ensures
            launches(r@) == self.invocations_for(event_type@),
    {
        match self.position(event_type) {
            Some(i) => copy_invocations(&self.entries[i].invocations),
            None => {
                let none: Vec<ScriptInvocation> = Vec::new();
                assert(launches(none@) =~= Seq::empty());
                none
            },
        }
    }

    /// How many scripts are registered for a type of event.
    pub fn count(&self, event_type: &str) -> (r: usize)
        ensures
            r == self.invocations_for(event_type@).len(),
    {
        let found = self.lookup(event_type);
        found.len()
    }
}

} // verus!
