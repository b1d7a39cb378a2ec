//! The identifier registry: it gives every trait and method compiled into
//! a binary the integer id that the coordinator chose for its name, once per
//! module instance.

use vstd::prelude::*;
use crate::ids::{InstanceKey, MethodId, TraitId};

verus! {

/// Number of instance keys that the registry tracks; keys are below it.
pub const INSTANCE_KEY_MAX: usize = 256;

/// The id map the coordinator hands to every module of a process group.
pub struct IdMap {
    /// Trait name to trait id.
    pub trait_map: Vec<(String, TraitId)>,
    /// (trait name, method name) to method id.
    pub method_map: Vec<(String, String, MethodId)>,
}

/// The id that `map` gives the trait `name`, looking from entry `start` on:
/// the first entry with that name wins.
pub open spec fn trait_id_from(map: Seq<(String, TraitId)>, name: Seq<char>, start: int) -> Option<TraitId>
    decreases map.len() - start,
{
    if start < 0 || start >= map.len() {
        None
    } else if map[start].0@ == name {
        Some(map[start].1)
    } else {
        trait_id_from(map, name, start + 1)
    }
}

/// The id that `map` gives the trait `name`.
pub open spec fn trait_id_in(map: Seq<(String, TraitId)>, name: Seq<char>) -> Option<TraitId> {
    trait_id_from(map, name, 0)
}

/// The id that `map` gives method `m` of trait `t`, looking from entry `start` on.
pub open spec fn method_id_from(
    map: Seq<(String, String, MethodId)>,
    t: Seq<char>,
    m: Seq<char>,
    start: int,
) -> Option<MethodId>
    decreases map.len() - start,
{
    if start < 0 || start >= map.len() {
        None
    } else if map[start].0@ == t && map[start].1@ == m {
        Some(map[start].2)
    } else {
        method_id_from(map, t, m, start + 1)
    }
}

/// The id that `map` gives method `m` of trait `t`.
pub open spec fn method_id_in(map: Seq<(String, String, MethodId)>, t: Seq<char>, m: Seq<char>) -> Option<MethodId> {
    method_id_from(map, t, m, 0)
}

/// No trait name is registered twice.
pub open spec fn names_distinct(s: Seq<String>) -> bool {
    forall|i: int, j: int| 0 <= i < j < s.len() ==> s[i]@ != s[j]@
}

/// No (trait name, method name) pair is registered twice.
pub open spec fn pairs_distinct(s: Seq<(String, String)>) -> bool {
    forall|i: int, j: int| 0 <= i < j < s.len() ==> !(s[i].0@ == s[j].0@ && s[i].1@ == s[j].1@)
}

/// How many of the first `upto` methods belong to trait `t`.
pub open spec fn count_in_trait(methods: Seq<(String, String)>, t: Seq<char>, upto: int) -> nat
    decreases upto,
{
    if upto <= 0 || upto > methods.len() {
        0
    } else {
        count_in_trait(methods, t, upto - 1) + if methods[upto - 1].0@ == t { 1nat } else { 0nat }
    }
}

/// The default id of method `i`: its position among the methods of its trait.
pub open spec fn declaration_order(methods: Seq<(String, String)>, i: int) -> nat {
    count_in_trait(methods, methods[i].0@, i)
}

/// Every compiled trait has an entry in the map.
pub open spec fn traits_mapped(traits: Seq<String>, map: Seq<(String, TraitId)>) -> bool {
    forall|i: int| 0 <= i < traits.len() ==> trait_id_in(map, #[trigger] traits[i]@) is Some
}

/// Every compiled method has an entry in the map.
pub open spec fn methods_mapped(methods: Seq<(String, String)>, map: Seq<(String, String, MethodId)>) -> bool {
    forall|i: int| 0 <= i < methods.len() ==> method_id_in(map, #[trigger] methods[i].0@, methods[i].1@) is Some
}

/// What a call of setup does.
#[derive(PartialEq, Eq, Structural, Debug, Clone, Copy)]
pub enum SetupOutcome {
    /// The map was applied and the instance key marked as set up.
    Applied,
    /// Another instance key has already set up the shared ids: they stay as
    /// they are, and only this key is marked as set up.
    Skipped,
}

/// The misuse that makes a setup call fatal to the module.
#[derive(PartialEq, Eq, Structural, Debug, Clone, Copy)]
pub enum SetupError {
    /// The instance key is not below `INSTANCE_KEY_MAX`.
    KeyOutOfRange,
    /// Setup already ran for this instance key.
    AlreadySetUp,
    /// A trait name is compiled in twice.
    DuplicateTrait,
    /// A (trait, method) pair is compiled in twice.
    DuplicateMethod,
    /// A compiled trait is missing from the map.
    MissingTrait,
    /// The method map is not empty and lacks a compiled method.
    MissingMethod,
}

/// The ids compiled into one binary and the flags of the instances that set them up.
pub struct IdRegistry {
    /// Trait names compiled into the binary.
    pub traits: Vec<String>,
    /// (trait name, method name) pairs compiled into the binary, in declaration order.
    pub methods: Vec<(String, String)>,
    /// Current id of each compiled trait.
    pub trait_ids: Vec<TraitId>,
    /// Current id of each compiled method.
    pub method_ids: Vec<MethodId>,
    /// Whether setup has run, for each instance key.
    pub done: Vec<bool>,
}

impl IdRegistry {
    pub open spec fn wf(&self) -> bool {
        &&& self.trait_ids@.len() == self.traits@.len()
        &&& self.method_ids@.len() == self.methods@.len()
        &&& self.done@.len() == INSTANCE_KEY_MAX
    }

    /// Some instance key has completed setup.
    pub open spec fn any_done(&self) -> bool {
        exists|k: int| 0 <= k < self.done@.len() && self.done@[k]
    }

    /// The result that setup gives on this registry, key and map.
    pub open spec fn setup_result(&self, key: InstanceKey, map: &IdMap) -> Result<SetupOutcome, SetupError> {
        if key as int >= INSTANCE_KEY_MAX {
            Err(SetupError::KeyOutOfRange)
        } else if self.done@[key as int] {
            Err(SetupError::AlreadySetUp)
        } else if self.any_done() {
            Ok(SetupOutcome::Skipped)
        } else if !names_distinct(self.traits@) {
            Err(SetupError::DuplicateTrait)
        } else if !pairs_distinct(self.methods@) {
            Err(SetupError::DuplicateMethod)
        } else if !traits_mapped(self.traits@, map.trait_map@) {
            Err(SetupError::MissingTrait)
        } else if map.method_map@.len() > 0 && !methods_mapped(self.methods@, map.method_map@) {
            Err(SetupError::MissingMethod)
        } else {
            Ok(SetupOutcome::Applied)
        }
    }

    /// A registry for the given compiled traits and methods: no trait id is
    /// resolved yet, each method has its declaration order as id, and no
    /// instance has run setup.
    pub fn new(traits: Vec<String>, methods: Vec<(String, String)>) -> (r: Self)
        requires
            methods@.len() <= u32::MAX,
        ensures
            r.wf(),
            r.traits@ == traits@,
            r.methods@ == methods@,
            forall|i: int| 0 <= i < traits@.len() ==> r.trait_ids@[i] == crate::ids::UNDECIDED_TRAIT,
            forall|i: int| 0 <= i < methods@.len() ==> r.method_ids@[i] as nat == declaration_order(methods@, i),
            forall|k: int| 0 <= k < INSTANCE_KEY_MAX ==> !r.done@[k],
    {
        let mut trait_ids: Vec<TraitId> = Vec::new();
        let mut i: usize = 0;
        while i < traits.len()
            invariant
                i <= traits@.len(),
                trait_ids@.len() == i,
                forall|j: int| 0 <= j < i ==> trait_ids@[j] == crate::ids::UNDECIDED_TRAIT,
            decreases traits@.len() - i,
        {
            trait_ids.push(crate::ids::UNDECIDED_TRAIT);
            i = i + 1;
        }
        let mut method_ids: Vec<MethodId> = Vec::new();
        let mut i: usize = 0;
        while i < methods.len()
            invariant
                i <= methods@.len(),
                methods@.len() <= u32::MAX,
                method_ids@.len() == i,
                forall|j: int| 0 <= j < i ==> method_ids@[j] as nat == declaration_order(methods@, j),
            decreases methods@.len() - i,
        {
            let order = Self::order_of(&methods, i);
            method_ids.push(order);
            i = i + 1;
        }
        let mut done: Vec<bool> = Vec::new();
        let mut k: usize = 0;
        while k < INSTANCE_KEY_MAX
            invariant
                k <= INSTANCE_KEY_MAX,
                done@.len() == k,
                forall|j: int| 0 <= j < k ==> !done@[j],
            decreases INSTANCE_KEY_MAX - k,
        {
            done.push(false);
            k = k + 1;
        }
        IdRegistry { traits, methods, trait_ids, method_ids, done }
    }

    /// Position of method `i` among the earlier methods of its trait.
    fn order_of(methods: &Vec<(String, String)>, i: usize) -> (r: MethodId)
        requires
            i < methods@.len(),
            methods@.len() <= u32::MAX,
        ensures
            r as nat == declaration_order(methods@, i as int),
    {
        let mut count: u32 = 0;
        let mut j: usize = 0;
        while j < i
            invariant
                j <= i < methods@.len(),
                methods@.len() <= u32::MAX,
                count as nat == count_in_trait(methods@, methods@[i as int].0@, j as int),
                count <= j,
            decreases i - j,
        {
            if methods[j].0 == methods[i].0 {
                count = count + 1;
            }
            j = j + 1;
        }
        count
    }

    /// The current id of compiled trait `i`.
    pub fn trait_id(&self, i: usize) -> (r: TraitId)
        requires
            self.wf(),
            i < self.traits@.len(),
        ensures
            r == self.trait_ids@[i as int],
    {
        self.trait_ids[i]
    }

    /// The current id of compiled method `i`.
    pub fn method_id(&self, i: usize) -> (r: MethodId)
        requires
            self.wf(),
            i < self.methods@.len(),
        ensures
            r == self.method_ids@[i as int],
    {
        self.method_ids[i]
    }
}

/// Looks `name` up in the trait map.
pub fn find_trait_id(map: &Vec<(String, TraitId)>, name: &String) -> (r: Option<TraitId>)
    ensures
        r == trait_id_in(map@, name@),
{
    let mut i: usize = 0;
    while i < map.len()
        invariant
            i <= map@.len(),
            trait_id_from(map@, name@, i as int) == trait_id_in(map@, name@),
        decreases map@.len() - i,
    {
        if map[i].0 == *name {
            return Some(map[i].1);
        }
        i = i + 1;
    }
    None
}

/// Looks method `m` of trait `t` up in the method map.
pub fn find_method_id(map: &Vec<(String, String, MethodId)>, t: &String, m: &String) -> (r: Option<MethodId>)
    ensures
        r == method_id_in(map@, t@, m@),
{
    let mut i: usize = 0;
    while i < map.len()
        invariant
            i <= map@.len(),
            method_id_from(map@, t@, m@, i as int) == method_id_in(map@, t@, m@),
        decreases map@.len() - i,
    {
        if map[i].0 == *t && map[i].1 == *m {
            return Some(map[i].2);
        }
        i = i + 1;
    }
    None
}

/// Whether no name occurs twice.
fn check_names_distinct(s: &Vec<String>) -> (r: bool)
    ensures
        r == names_distinct(s@),
{
    let mut i: usize = 0;
    while i < s.len()
        invariant
            i <= s@.len(),
            forall|a: int, b: int| 0 <= a < i && a < b < s@.len() ==> s@[a]@ != s@[b]@,
        decreases s@.len() - i,
    {
        let mut j: usize = i + 1;
        while j < s.len()
            invariant
                i < s@.len(),
                i + 1 <= j <= s@.len(),
                forall|a: int, b: int| 0 <= a < i && a < b < s@.len() ==> s@[a]@ != s@[b]@,
                forall|b: int| i < b < j ==> s@[i as int]@ != s@[b]@,
            decreases s@.len() - j,
        {
            if s[i] == s[j] {
                return false;
            }
            j = j + 1;
        }
        i = i + 1;
    }
    true
}

/// Whether no (trait, method) pair occurs twice.
fn check_pairs_distinct(s: &Vec<(String, String)>) -> (r: bool)
    ensures
        r == pairs_distinct(s@),
{
    let mut i: usize = 0;
    while i < s.len()
        invariant
            i <= s@.len(),
            forall|a: int, b: int|
                0 <= a < i && a < b < s@.len() ==> !(s@[a].0@ == s@[b].0@ && s@[a].1@ == s@[b].1@),
        decreases s@.len() - i,
    {
        let mut j: usize = i + 1;
        while j < s.len()
            invariant
                i < s@.len(),
                i + 1 <= j <= s@.len(),
                forall|a: int, b: int|
                    0 <= a < i && a < b < s@.len() ==> !(s@[a].0@ == s@[b].0@ && s@[a].1@ == s@[b].1@),
                forall|b: int| i < b < j ==> !(s@[i as int].0@ == s@[b].0@ && s@[i as int].1@ == s@[b].1@),
            decreases s@.len() - j,
        {
            if s[i].0 == s[j].0 && s[i].1 == s[j].1 {
                return false;
            }
            j = j + 1;
        }
        i = i + 1;
    }
    true
}

/// The ids of `traits` in `map`, or `None` when one of them is missing.
fn resolve_traits(traits: &Vec<String>, map: &Vec<(String, TraitId)>) -> (r: Option<Vec<TraitId>>)
    ensures
        r is None <==> !traits_mapped(traits@, map@),
        r matches Some(ids) ==> ids@.len() == traits@.len() && forall|j: int| 0 <= j < traits@.len() ==>
            Some(#[trigger] ids@[j]) == trait_id_in(map@, traits@[j]@),
{
    let mut ids: Vec<TraitId> = Vec::new();
    let mut i: usize = 0;
    while i < traits.len()
        invariant
            i <= traits@.len(),
            ids@.len() == i,
            forall|j: int| 0 <= j < i ==> Some(#[trigger] ids@[j]) == trait_id_in(map@, traits@[j]@),
        decreases traits@.len() - i,
    {
        match find_trait_id(map, &traits[i]) {
            Some(id) => ids.push(id),
            None => {
                assert(trait_id_in(map@, traits@[i as int]@) is None);
                return None;
            },
        }
        i = i + 1;
    }
    assert forall|j: int| 0 <= j < traits@.len() implies trait_id_in(map@, #[trigger] traits@[j]@) is Some by {
        assert(Some(ids@[j]) == trait_id_in(map@, traits@[j]@));
    }
    Some(ids)
}

/// The ids of `methods` in `map`, or `None` when one of them is missing.
fn resolve_methods(methods: &Vec<(String, String)>, map: &Vec<(String, String, MethodId)>) -> (r: Option<Vec<MethodId>>)
    ensures
        r is None <==> !methods_mapped(methods@, map@),
        r matches Some(ids) ==> ids@.len() == methods@.len() && forall|j: int| 0 <= j < methods@.len() ==>
            Some(#[trigger] ids@[j]) == method_id_in(map@, methods@[j].0@, methods@[j].1@),
{
    let mut ids: Vec<MethodId> = Vec::new();
    let mut i: usize = 0;
    while i < methods.len()
        invariant
            i <= methods@.len(),
            ids@.len() == i,
            forall|j: int| 0 <= j < i ==> Some(#[trigger] ids@[j]) == method_id_in(map@, methods@[j].0@, methods@[j].1@),
        decreases methods@.len() - i,
    {
        match find_method_id(map, &methods[i].0, &methods[i].1) {
            Some(id) => ids.push(id),
            None => {
                assert(method_id_in(map@, methods@[i as int].0@, methods@[i as int].1@) is None);
                return None;
            },
        }
        i = i + 1;
    }
    assert forall|j: int| 0 <= j < methods@.len() implies method_id_in(map@, #[trigger] methods@[j].0@, methods@[j].1@) is Some by {
        assert(Some(ids@[j]) == method_id_in(map@, methods@[j].0@, methods@[j].1@));
    }
    Some(ids)
}

impl IdRegistry {
    /// Whether some instance key has completed setup.
    pub fn some_done(&self) -> (r: bool)
        requires
            self.wf(),
        ensures
            r == self.any_done(),
    {
        let mut k: usize = 0;
        while k < INSTANCE_KEY_MAX
            invariant
                self.wf(),
                k <= INSTANCE_KEY_MAX,
                forall|j: int| 0 <= j < k ==> !self.done@[j],
            decreases INSTANCE_KEY_MAX - k,
        {
            if self.done[k] {
                return true;
            }
            k = k + 1;
        }
        false
    }
}

impl IdRegistry {
    /// What setup would do for `instance_key` and `descriptor`: the outcome,
    /// or the misuse that makes it fatal. Callers test this before setup.
    pub fn check_setup(&self, instance_key: InstanceKey, descriptor: &IdMap) -> (r: Result<SetupOutcome, SetupError>)
        requires
            self.wf(),
        ensures
            r == self.setup_result(instance_key, descriptor),
    {
        if instance_key as usize >= INSTANCE_KEY_MAX {
            return Err(SetupError::KeyOutOfRange);
        }
        if self.done[instance_key as usize] {
            return Err(SetupError::AlreadySetUp);
        }
        if self.some_done() {
            return Ok(SetupOutcome::Skipped);
        }
        if !check_names_distinct(&self.traits) {
            return Err(SetupError::DuplicateTrait);
        }
        if !check_pairs_distinct(&self.methods) {
            return Err(SetupError::DuplicateMethod);
        }
        if resolve_traits(&self.traits, &descriptor.trait_map).is_none() {
            return Err(SetupError::MissingTrait);
        }
        if descriptor.method_map.len() > 0 && resolve_methods(&self.methods, &descriptor.method_map).is_none() {
            return Err(SetupError::MissingMethod);
        }
        Ok(SetupOutcome::Applied)
    }
}

/// Resolves every compiled trait and method against `descriptor`, once per
/// instance key. The key is marked as set up in any case. When another key
/// has completed setup already, the shared ids stay as they are; otherwise
/// every compiled trait takes its id from the map, and every compiled method
/// too unless the method map is empty, in which case methods keep their
/// declaration order. Misuse (a key out of range or set up before,
/// duplicate compiled names, names missing from the map) is fatal and left
/// out: callers test `check_setup` first.
pub fn setup_identifiers(registry: &mut IdRegistry, instance_key: InstanceKey, descriptor: &IdMap) -> (r: SetupOutcome)
    requires
        old(registry).wf(),
        old(registry).setup_result(instance_key, descriptor) is Ok,
    ensures
        final(registry).wf(),
        Ok::<SetupOutcome, SetupError>(r) == old(registry).setup_result(instance_key, descriptor),
        final(registry).traits@ == old(registry).traits@,
        final(registry).methods@ == old(registry).methods@,
        final(registry).done@ == old(registry).done@.update(instance_key as int, true),
        r == SetupOutcome::Skipped ==> {
            &&& final(registry).trait_ids@ == old(registry).trait_ids@
            &&& final(registry).method_ids@ == old(registry).method_ids@
        },
        r == SetupOutcome::Applied ==> {
            &&& forall|i: int| 0 <= i < old(registry).traits@.len() ==>
                Some(#[trigger] final(registry).trait_ids@[i]) == trait_id_in(descriptor.trait_map@, old(registry).traits@[i]@)
            &&& descriptor.method_map@.len() == 0 ==> final(registry).method_ids@ == old(registry).method_ids@
            &&& descriptor.method_map@.len() > 0 ==> forall|i: int| 0 <= i < old(registry).methods@.len() ==>
                Some(#[trigger] final(registry).method_ids@[i]) == method_id_in(
                    descriptor.method_map@, old(registry).methods@[i].0@, old(registry).methods@[i].1@)
        },
{
    let key = instance_key as usize;
    if registry.some_done() {
        registry.done.set(key, true);
        return SetupOutcome::Skipped;
    }
    let trait_ids = match resolve_traits(&registry.traits, &descriptor.trait_map) {
        Some(ids) => ids,
        None => {
            assert(false);
            Vec::new()
        },
    };
    if descriptor.method_map.len() > 0 {
        match resolve_methods(&registry.methods, &descriptor.method_map) {
            Some(ids) => registry.method_ids = ids,
            None => assert(false),
        }
    }
    registry.trait_ids = trait_ids;
    registry.done.set(key, true);
    SetupOutcome::Applied
}

/// Setup runs once per instance key: after any setup for a key, a second
/// call for that key is refused as misuse, and when the first call applied
/// the map, a call for any other key succeeds without changing the ids.
pub proof fn lemma_setup_once_per_key(before: IdRegistry, after: IdRegistry, k1: InstanceKey, k2: InstanceKey, map: &IdMap)
    requires
        before.wf(),
        before.setup_result(k1, map) is Ok,
        after.wf(),
        after.traits@ == before.traits@,
        after.methods@ == before.methods@,
        after.done@ == before.done@.update(k1 as int, true),
        k1 != k2,
        (k2 as int) < INSTANCE_KEY_MAX,
    ensures
        after.setup_result(k1, map) == Err::<SetupOutcome, SetupError>(SetupError::AlreadySetUp),
        before.setup_result(k1, map) == Ok::<SetupOutcome, SetupError>(SetupOutcome::Applied)
            ==> after.setup_result(k2, map) == Ok::<SetupOutcome, SetupError>(SetupOutcome::Skipped),
{
    assert(after.done@[k1 as int]);
    assert(after.any_done());
    if before.setup_result(k1, map) == Ok::<SetupOutcome, SetupError>(SetupOutcome::Applied) {
        assert(!before.any_done());
        assert(!after.done@[k2 as int]);
    }
}

} // verus!
