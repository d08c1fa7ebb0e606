//! Routers of several versions of several interfaces, put together as one.
//!
//! A router serves one version of one interface, named by a prefix. All of
//! them are mounted, each under the path of its own version, and for every
//! major version of an interface the one with the highest minor version is
//! mounted once more, under the path of the major version alone.

use crate::text::{chars_of, decimal, decimal_of, same_str, string_of};
use vstd::prelude::*;
use vstd::string::StringExecFns;

verus! {

/// The name of a router: the prefix of its interface, its major and its minor
/// version.
pub type RouterKey = (Seq<char>, usize, usize);

/// One version of one interface. The router that serves it is held by whoever
/// puts the routers together, under the slot that `add` gives.
#[derive(Debug, PartialEq, Eq)]
pub struct VersionedRouter {
    pub prefix: String,
    pub major: usize,
    pub minor: usize,
}

/// A path, and the slot of the router that is mounted under it.
#[derive(Debug, PartialEq, Eq)]
pub struct Mount {
    pub path: String,
    pub slot: usize,
}

/// Why a router is not added.
#[derive(Debug, Clone, Copy, PartialEq, Eq, Structural)]
pub enum RouterError {
    /// The prefix has a slash in it.
    SlashInPrefix,
    /// A router of the same prefix and version has been added before.
    AlreadyAdded,
}

impl RouterError {
    pub open spec fn message(self) -> Seq<char> {
        match self {
            RouterError::SlashInPrefix => "routing prefixes cannot contain slashes"@,
            RouterError::AlreadyAdded => "router already known and added"@,
        }
    }

    /// The text shown for the refusal.
    pub fn to_string(&self) -> (text: String)
        ensures
            text@ == self.message(),
    {
        match self {
            RouterError::SlashInPrefix => String::from_str(
                "routing prefixes cannot contain slashes",
            ),
            RouterError::AlreadyAdded => String::from_str("router already known and added"),
        }
    }
}

/// The path under which one version of an interface is mounted.
pub open spec fn version_path(key: RouterKey) -> Seq<char> {
    seq!['/'] + key.0 + seq!['/', 'v'] + decimal(key.1 as nat) + seq!['.'] + decimal(key.2 as nat)
}

/// The path under which the newest of a major version of an interface is
/// mounted.
pub open spec fn major_path(key: RouterKey) -> Seq<char> {
    seq!['/'] + key.0 + seq!['/', 'v'] + decimal(key.1 as nat)
}

/// Whether two routers serve the same major version of the same interface.
pub open spec fn same_major(a: RouterKey, b: RouterKey) -> bool {
    a.0 == b.0 && a.1 == b.1
}

/// Whether the router in a slot is the newest of its major version: none of
/// the same interface and major version has a higher minor version.
pub open spec fn leads(keys: Seq<RouterKey>, slot: int) -> bool {
    forall|j: int| 0 <= j < keys.len() && same_major(keys[slot], #[trigger] keys[j]) ==> keys[j].2
        <= keys[slot].2
}

/// The mounts of the major versions for the first `upto` slots, in the order
/// of the slots.
pub open spec fn major_mounts(keys: Seq<RouterKey>, upto: int) -> Seq<(Seq<char>, usize)>
    decreases upto,
{
    if upto <= 0 {
        Seq::empty()
    } else if leads(keys, upto - 1) {
        major_mounts(keys, upto - 1).push((major_path(keys[upto - 1]), (upto - 1) as usize))
    } else {
        major_mounts(keys, upto - 1)
    }
}

/// The mounts of the versions for the first `upto` slots, in the order of the
/// slots.
pub open spec fn version_mounts(keys: Seq<RouterKey>, upto: int) -> Seq<(Seq<char>, usize)>
    decreases upto,
{
    if upto <= 0 {
        Seq::empty()
    } else {
        version_mounts(keys, upto - 1).push((version_path(keys[upto - 1]), (upto - 1) as usize))
    }
}

/// All mounts: first every router under the path of its version, then the
/// newest of every major version under the path of the major version.
pub open spec fn assembled(keys: Seq<RouterKey>) -> Seq<(Seq<char>, usize)> {
    version_mounts(keys, keys.len() as int) + major_mounts(keys, keys.len() as int)
}

/// What adding a router to those that are there gives.
pub open spec fn added(keys: Seq<RouterKey>, key: RouterKey) -> Result<Seq<RouterKey>, RouterError> {
    if key.0.contains('/') {
        Err(RouterError::SlashInPrefix)
    } else if keys.contains(key) {
        Err(RouterError::AlreadyAdded)
    } else {
        Ok(keys.push(key))
    }
}

/// What adding a run of routers, one after the other, gives: all of them, or
/// the reason why the first that is refused is refused.
pub open spec fn added_all(keys: Seq<RouterKey>) -> Result<Seq<RouterKey>, RouterError>
    decreases keys.len(),
{
    if keys.len() == 0 {
        Ok(Seq::empty())
    } else {
        match added_all(keys.drop_last()) {
            Ok(before) => added(before, keys.last()),
            Err(e) => Err(e),
        }
    }
}

/// Whether no prefix has a slash in it and no router is there twice.
pub open spec fn well_formed(keys: Seq<RouterKey>) -> bool {
    &&& forall|i: int| 0 <= i < keys.len() ==> !(#[trigger] keys[i]).0.contains('/')
    &&& forall|i: int, j: int| 0 <= i < j < keys.len() ==> keys[i] != keys[j]
}

impl VersionedRouter {
    pub open spec fn key(self) -> RouterKey {
        (self.prefix@, self.major, self.minor)
    }

    pub fn new(prefix: String, major: usize, minor: usize) -> (router: VersionedRouter)
        ensures
            router.key() == (prefix@, major, minor),
    {
        VersionedRouter { prefix, major, minor }
    }
}

impl Mount {
    pub open spec fn view(self) -> (Seq<char>, usize) {
        (self.path@, self.slot)
    }
}

/// The routers that have been added, by their names, in the order in which
/// they were added.
pub struct CompositeRouter {
    routers: Vec<VersionedRouter>,
}

impl View for CompositeRouter {
    type V = Seq<RouterKey>;

    closed spec fn view(&self) -> Seq<RouterKey> {
        self.routers@.map_values(|r: VersionedRouter| r.key())
    }
}

/// Whether a prefix has a slash in it.
fn has_slash(prefix: &str) -> (found: bool)
    ensures
        found == prefix@.contains('/'),
{
    let chars = chars_of(prefix);
    let mut i: usize = 0;
    while i < chars.len()
        invariant
            i <= chars.len(),
            chars@ == prefix@,
            forall|k: int| 0 <= k < i ==> chars[k] != '/',
        decreases chars.len() - i,
    {
        if chars[i] == '/' {
            assert(prefix@[i as int] == '/');
            return true;
        }
        i += 1;
    }
    false
}

/// The path under which a major version of an interface is mounted, as
/// characters.
fn major_path_of(router: &VersionedRouter) -> (path: Vec<char>)
    ensures
        path@ == major_path(router.key()),
{
    let mut path: Vec<char> = Vec::new();
    path.push('/');
    let mut prefix = chars_of(router.prefix.as_str());
    path.append(&mut prefix);
    path.push('/');
    path.push('v');
    let mut major = decimal_of(router.major);
    path.append(&mut major);
    assert(path@ == major_path(router.key()));
    path
}

/// The path under which one version of an interface is mounted, as
/// characters.
fn version_path_of(router: &VersionedRouter) -> (path: Vec<char>)
    ensures
        path@ == version_path(router.key()),
{
    let mut path = major_path_of(router);
    path.push('.');
    let mut minor = decimal_of(router.minor);
    path.append(&mut minor);
    assert(path@ == version_path(router.key()));
    path
}

impl CompositeRouter {
    #[verifier::type_invariant]
    spec fn valid(&self) -> bool {
        well_formed(self@)
    }

    /// No routers.
    pub fn new() -> (composite: CompositeRouter)
        ensures
            composite@ == Seq::<RouterKey>::empty(),
    {
        let composite = CompositeRouter { routers: Vec::new() };
        assert(composite@ == Seq::<RouterKey>::empty());
        composite
    }

    /// The routers of a run, added one after the other. The first that is
    /// refused ends it.
    pub fn new_with(routers: Vec<VersionedRouter>) -> (composite: Result<
        CompositeRouter,
        RouterError,
    >)
        ensures
            match added_all(routers@.map_values(|r: VersionedRouter| r.key())) {
                Ok(keys) => composite matches Ok(c) && c@ == keys,
                Err(e) => composite matches Err(f) && f == e,
            },
    {
        let ghost keys = routers@.map_values(|r: VersionedRouter| r.key());
        let mut composite = CompositeRouter::new();
        assert(keys.take(0) == Seq::<RouterKey>::empty());
        for router in it: routers
            invariant
                it.seq() == routers@,
                keys == routers@.map_values(|r: VersionedRouter| r.key()),
                added_all(keys.take(it.index() as int)) == Ok::<Seq<RouterKey>, RouterError>(
                    composite@,
                ),
        {
            let ghost i = it.index() as int;
            assert(keys.take(i + 1).drop_last() == keys.take(i));
            assert(keys.take(i + 1).last() == router.key());
            match composite.add(router) {
                Ok(_) => {},
                Err(e) => {
                    proof {
                        lemma_refused_stays_refused(keys, i + 1);
                    }
                    return Err(e);
                },
            }
        }
        assert(keys.take(keys.len() as int) == keys);
        Ok(composite)
    }

    /// Adds a router and gives the slot under which it is known from then on.
    /// A prefix with a slash in it is refused, and so is a router that has been
    /// added before.
    pub fn add(&mut self, router: VersionedRouter) -> (slot: Result<usize, RouterError>)
        ensures
            match added(old(self)@, router.key()) {
                Ok(keys) => slot == Ok::<usize, RouterError>(old(self)@.len() as usize)
                    && final(self)@ == keys,
                Err(e) => slot == Err::<usize, RouterError>(e) && final(self)@ == old(self)@,
            },
    {
        proof {
            use_type_invariant(&*self);
        }
        if has_slash(router.prefix.as_str()) {
            return Err(RouterError::SlashInPrefix);
        }
        let mut i: usize = 0;
        while i < self.routers.len()
            invariant
                i <= self.routers.len(),
                self@ == old(self)@,
                self@.len() == self.routers.len(),
                forall|k: int| 0 <= k < self.routers.len() ==> self@[k] == self.routers[k].key(),
                forall|k: int| 0 <= k < i ==> self@[k] != router.key(),
                !router.prefix@.contains('/'),
                well_formed(self@),
            decreases self.routers.len() - i,
        {
            let known = &self.routers[i];
            if known.major == router.major && known.minor == router.minor && same_str(
                known.prefix.as_str(),
                router.prefix.as_str(),
            ) {
                assert(self@[i as int] == router.key());
                assert(self@.contains(router.key()));
                return Err(RouterError::AlreadyAdded);
            }
            i += 1;
        }
        let slot = self.routers.len();
        let ghost key = router.key();
        let mut routers: Vec<VersionedRouter> = Vec::new();
        core::mem::swap(&mut self.routers, &mut routers);
        routers.push(router);
        proof {
            let keys = routers@.map_values(|r: VersionedRouter| r.key());
            assert(keys == old(self)@.push(key));
            assert(well_formed(keys));
        }
        self.routers = routers;
        Ok(slot)
    }

    /// How many routers have been added.
    pub fn len(&self) -> (len: usize)
        ensures
            len == self@.len(),
    {
        self.routers.len()
    }

    /// Whether the router in a slot is the newest of its major version.
    fn is_newest(&self, slot: usize) -> (newest: bool)
        requires
            slot < self@.len(),
        ensures
            newest == leads(self@, slot as int),
    {
        let mut j: usize = 0;
        while j < self.routers.len()
            invariant
                j <= self.routers.len(),
                slot < self.routers.len(),
                self@.len() == self.routers.len(),
                forall|k: int| 0 <= k < self.routers.len() ==> self@[k] == self.routers[k].key(),
                forall|k: int|
                    0 <= k < j && same_major(self@[slot as int], #[trigger] self@[k]) ==> self@[k].2
                        <= self@[slot as int].2,
            decreases self.routers.len() - j,
        {
            let other = &self.routers[j];
            let own = &self.routers[slot];
            if other.major == own.major && other.minor > own.minor && same_str(
                other.prefix.as_str(),
                own.prefix.as_str(),
            ) {
                assert(same_major(self@[slot as int], self@[j as int]));
                return false;
            }
            j += 1;
        }
        true
    }

    /// All mounts: first every router under `/<prefix>/v<major>.<minor>`, in
    /// the order of the slots, then the newest router of every major version
    /// of every interface once more, under `/<prefix>/v<major>`.
    pub fn assemble(&self) -> (mounts: Vec<Mount>)
        ensures
            mounts@.map_values(|m: Mount| m@) == assembled(self@),
    {
        let ghost keys = self@;
        let mut mounts: Vec<Mount> = Vec::new();
        let mut i: usize = 0;
        while i < self.routers.len()
            invariant
                i <= self.routers.len(),
                keys == self@,
                keys.len() == self.routers.len(),
                forall|k: int| 0 <= k < self.routers.len() ==> keys[k] == self.routers[k].key(),
                mounts@.map_values(|m: Mount| m@) == version_mounts(keys, i as int),
            decreases self.routers.len() - i,
        {
            let ghost before = mounts@.map_values(|m: Mount| m@);
            let path = version_path_of(&self.routers[i]);
            let mount = Mount { path: string_of(&path), slot: i };
            assert(mount@ == (version_path(keys[i as int]), i));
            mounts.push(mount);
            assert(mounts@.map_values(|m: Mount| m@) == before.push(
                (version_path(keys[i as int]), i),
            ));
            i += 1;
        }
        let ghost versions = mounts@.map_values(|m: Mount| m@);
        let mut i: usize = 0;
        while i < self.routers.len()
            invariant
                i <= self.routers.len(),
                keys == self@,
                keys.len() == self.routers.len(),
                forall|k: int| 0 <= k < self.routers.len() ==> keys[k] == self.routers[k].key(),
                versions == version_mounts(keys, keys.len() as int),
                mounts@.map_values(|m: Mount| m@) == versions + major_mounts(keys, i as int),
            decreases self.routers.len() - i,
        {
            if self.is_newest(i) {
                let ghost before = mounts@.map_values(|m: Mount| m@);
                let path = major_path_of(&self.routers[i]);
                let mount = Mount { path: string_of(&path), slot: i };
                assert(mount@ == (major_path(keys[i as int]), i));
                mounts.push(mount);
                assert(mounts@.map_values(|m: Mount| m@) == before.push(
                    (major_path(keys[i as int]), i),
                ));
            }
            i += 1;
        }
        mounts
    }
}

/// Once a router of a run is refused, the run is refused, however long it is.
proof fn lemma_refused_stays_refused(keys: Seq<RouterKey>, upto: int)
    requires
        0 <= upto <= keys.len(),
        added_all(keys.take(upto)) is Err,
    ensures
        added_all(keys) == added_all(keys.take(upto)),
    decreases keys.len() - upto,
{
    if upto == keys.len() {
        assert(keys.take(upto) == keys);
    } else {
        assert(keys.take(upto + 1).drop_last() == keys.take(upto));
        lemma_refused_stays_refused(keys, upto + 1);
    }
}

/// The routers that have been added are well formed: no prefix has a slash in
/// it, and none is there twice.
pub proof fn law_added_is_well_formed(keys: Seq<RouterKey>, key: RouterKey)
    requires
        well_formed(keys),
    ensures
        added(keys, key) matches Ok(more) ==> well_formed(more),
        added(keys, key) is Ok <==> !key.0.contains('/') && !keys.contains(key),
{
    if added(keys, key) is Ok {
        let more = keys.push(key);
        assert forall|i: int, j: int| 0 <= i < j < more.len() implies more[i] != more[j] by {
            if j == keys.len() {
                assert(keys.contains(more[i]) || more[i] != key);
            }
        }
    }
}

/// Every major version of every interface that has a router has one that is
/// its newest.
pub proof fn law_every_major_is_led(keys: Seq<RouterKey>, slot: int)
    requires
        0 <= slot < keys.len(),
    ensures
        exists|lead: int|
            0 <= lead < keys.len() && same_major(keys[slot], keys[lead]) && leads(keys, lead),
    decreases usize::MAX - keys[slot].2,
{
    if !leads(keys, slot) {
        let j = choose|j: int|
            0 <= j < keys.len() && same_major(keys[slot], #[trigger] keys[j]) && keys[j].2
                > keys[slot].2;
        law_every_major_is_led(keys, j);
        let lead = choose|lead: int|
            0 <= lead < keys.len() && same_major(keys[j], keys[lead]) && leads(keys, lead);
        assert(same_major(keys[slot], keys[lead]));
    }
}

/// Where no router is there twice, a major version of an interface has one
/// newest router and no more.
pub proof fn law_one_leader(keys: Seq<RouterKey>, a: int, b: int)
    requires
        well_formed(keys),
        0 <= a < keys.len(),
        0 <= b < keys.len(),
        same_major(keys[a], keys[b]),
        leads(keys, a),
        leads(keys, b),
    ensures
        a == b,
{
    assert(keys[b].2 <= keys[a].2);
    assert(keys[a].2 <= keys[b].2);
    if a < b {
        assert(keys[a] != keys[b]);
    } else if b < a {
        assert(keys[b] != keys[a]);
    }
}

} // verus!
