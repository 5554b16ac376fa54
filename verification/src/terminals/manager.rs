//! The register of the panel instances that are alive.
//!
//! One loop owns the register. It enters an instance when its process has
//! been started, looks instances up to route updates to them, and strikes an
//! instance when its supervisor reports that it is gone.

use vstd::prelude::*;

use crate::terminals::TermId;

verus! {

/// Why an instance was not started.
#[derive(Debug, Clone, Copy, PartialEq, Eq, Structural)]
pub enum SpawnError {
    /// An instance with this identity is alive.
    AlreadyRegistered,
    /// The listening socket could not be bound.
    Bind,
    /// The panel process could not be started.
    Spawn,
}

/// How the setup of a new instance went: binding its socket, then starting its
/// process.
#[derive(Debug, Clone, Copy, PartialEq, Eq, Structural)]
pub enum Setup {
    Ready,
    BindFailed,
    SpawnFailed,
}

/// One registered instance.
#[derive(Debug)]
pub struct TermEntry {
    pub id: TermId,
    /// The number under which this registration was made: it tells two
    /// registrations of one identity apart.
    pub internal_id: u64,
}

/// The register: the identities of the instances that are alive, each with
/// the number of its registration.
///
/// An identity is a byte string, and two identities are the same when their
/// bytes are. The entries stand in a list that is searched in order and in
/// which no identity stands twice; what the register holds is the map from
/// identity to number that the list spells out.
pub struct TermManager {
    entries: Vec<TermEntry>,
    issued: u64,
    registered: Ghost<Map<Seq<u8>, u64>>,
}

/// The register after a request to enter `id` whose setup went as `setup`,
/// when `issued` numbers have been given out: entered under the next number
/// where the identity is free and the setup succeeded, unchanged otherwise.
pub open spec fn after_spawn(
    registered: Map<Seq<u8>, u64>,
    issued: nat,
    id: Seq<u8>,
    setup: Setup,
) -> Map<Seq<u8>, u64> {
    if !registered.dom().contains(id) && setup == Setup::Ready {
        registered.insert(id, (issued + 1) as u64)
    } else {
        registered
    }
}

/// What a request to enter `id` is answered with.
pub open spec fn spawn_answer(
    registered: Map<Seq<u8>, u64>,
    issued: nat,
    id: Seq<u8>,
    setup: Setup,
) -> Result<u64, SpawnError> {
    if registered.dom().contains(id) {
        Err(SpawnError::AlreadyRegistered)
    } else {
        match setup {
            Setup::Ready => Ok((issued + 1) as u64),
            Setup::BindFailed => Err(SpawnError::Bind),
            Setup::SpawnFailed => Err(SpawnError::Spawn),
        }
    }
}

/// The register after the instance registered as `id` under `internal_id` is
/// reported gone: struck, where that registration stands; unchanged where the
/// identity is free or has been registered anew since.
pub open spec fn after_stop(registered: Map<Seq<u8>, u64>, id: Seq<u8>, internal_id: u64) -> Map<
    Seq<u8>,
    u64,
> {
    if registered.contains_pair(id, internal_id) {
        registered.remove(id)
    } else {
        registered
    }
}

/// Where an update for `id` goes: to the registration that stands for it, or
/// nowhere.
pub open spec fn route_of(registered: Map<Seq<u8>, u64>, id: Seq<u8>) -> Option<u64> {
    if registered.dom().contains(id) {
        Some(registered[id])
    } else {
        None
    }
}

impl View for TermManager {
    type V = Map<Seq<u8>, u64>;

    closed spec fn view(&self) -> Map<Seq<u8>, u64> {
        self.registered@
    }
}

impl TermManager {
    /// Whether the register is sound: no identity stands in it twice, and
    /// every number in it has been given out.
    pub closed spec fn wf(&self) -> bool {
        &&& forall|i: int, j: int|
            0 <= i < j < self.entries@.len() ==> (#[trigger] self.entries@[i]).id@ != (
            #[trigger] self.entries@[j]).id@
        &&& forall|i: int|
            0 <= i < self.entries@.len() ==> self.registered@.contains_pair(
                (#[trigger] self.entries@[i]).id@,
                self.entries@[i].internal_id,
            )
        &&& forall|k: Seq<u8>| #[trigger]
            self.registered@.dom().contains(k) ==> exists|i: int|
                0 <= i < self.entries@.len() && (#[trigger] self.entries@[i]).id@ == k
        &&& forall|i: int|
            0 <= i < self.entries@.len() ==> 1 <= (#[trigger] self.entries@[i]).internal_id
                <= self.issued
    }

    /// How many registrations have been made so far.
    pub closed spec fn issued_spec(&self) -> nat {
        self.issued as nat
    }

    /// The empty register.
    pub fn new() -> (r: Self)
        ensures
            r.wf(),
            r@ == Map::<Seq<u8>, u64>::empty(),
            r.issued_spec() == 0,
    {
        TermManager { entries: Vec::new(), issued: 0, registered: Ghost(Map::empty()) }
    }

    /// How many registrations have been made so far.
    pub fn issued(&self) -> (r: u64)
        ensures
            r == self.issued_spec(),
    {
        self.issued
    }

    /// The number of instances that are alive.
    pub fn len(&self) -> (r: usize)
        requires
            self.wf(),
        ensures
            r == self@.dom().len(),
            self@.dom().finite(),
    {
        proof {
            self.lemma_dom_len(self.entries@.len() as int);
            assert(self.dom_upto(self.entries@.len() as int) =~= self@.dom());
        }
        self.entries.len()
    }

    /// The identities of the first `n` entries.
    spec fn dom_upto(self, n: int) -> Set<Seq<u8>> {
        Set::new(|k: Seq<u8>| exists|i: int| 0 <= i < n && (#[trigger] self.entries@[i]).id@ == k)
    }

    /// The first `n` entries have `n` identities.
    proof fn lemma_dom_len(self, n: int)
        requires
            self.wf(),
            0 <= n <= self.entries@.len(),
        ensures
            self.dom_upto(n).finite(),
            self.dom_upto(n).len() == n,
        decreases n,
    {
        if n == 0 {
            assert(self.dom_upto(0) =~= Set::<Seq<u8>>::empty());
        } else {
            self.lemma_dom_len(n - 1);
            let k = self.entries@[n - 1].id@;
            assert(self.dom_upto(n) =~= self.dom_upto(n - 1).insert(k)) by {
                assert forall|x: Seq<u8>| self.dom_upto(n).contains(x) implies self.dom_upto(
                    n - 1,
                ).insert(k).contains(x) by {
                    let i = choose|i: int| 0 <= i < n && (#[trigger] self.entries@[i]).id@ == x;
                    if i < n - 1 {
                        assert(self.dom_upto(n - 1).contains(x));
                    }
                }
                assert(self.entries@[n - 1].id@ == k);
            }
            assert(!self.dom_upto(n - 1).contains(k)) by {
                if self.dom_upto(n - 1).contains(k) {
                    let i = choose|i: int| 0 <= i < n - 1 && (#[trigger] self.entries@[i]).id@ == k;
                    assert(self.entries@[i].id@ != self.entries@[n - 1].id@);
                }
            }
        }
    }

    /// The place of the entry for `id`, if it is registered.
    fn find(&self, id: &TermId) -> (r: Option<usize>)
        ensures
            r matches Some(i) ==> i < self.entries@.len() && self.entries@[i as int].id@ == id@,
            r is None ==> forall|j: int|
                0 <= j < self.entries@.len() ==> (#[trigger] self.entries@[j]).id@ != id@,
    {
        let n = self.entries.len();
        let mut i: usize = 0;
        while i < n
            invariant
                i <= n,
                n == self.entries@.len(),
                forall|j: int| 0 <= j < i ==> (#[trigger] self.entries@[j]).id@ != id@,
            decreases n - i,
        {
            if self.entries[i].id.same(id) {
                return Some(i);
            }
            i = i + 1;
        }
        None
    }

    /// The number under which `id` is registered, if it is.
    pub fn lookup(&self, id: &TermId) -> (r: Option<u64>)
        requires
            self.wf(),
        ensures
            r == route_of(self@, id@),
    {
        match self.find(id) {
            Some(i) => Some(self.entries[i].internal_id),
            None => None,
        }
    }

    /// Whether an instance with the identity `id` is alive.
    pub fn is_registered(&self, id: &TermId) -> (r: bool)
        requires
            self.wf(),
        ensures
            r == self@.dom().contains(id@),
    {
        self.find(id).is_some()
    }

    /// Where an update addressed to `ids` goes: for each identity, in order,
    /// the registration that stands for it, or `None` for one that is
    /// unknown, which is skipped.
    pub fn route(&self, ids: &Vec<TermId>) -> (r: Vec<Option<u64>>)
        requires
            self.wf(),
        ensures
            r@.len() == ids@.len(),
            forall|i: int| 0 <= i < ids@.len() ==> r@[i] == route_of(self@, (#[trigger] ids@[i])@),
    {
        let n = ids.len();
        let mut routes: Vec<Option<u64>> = Vec::new();
        let mut i: usize = 0;
        while i < n
            invariant
                self.wf(),
                i <= n,
                n == ids@.len(),
                routes@.len() == i,
                forall|j: int| 0 <= j < i ==> routes@[j] == route_of(self@, (#[trigger] ids@[j])@),
            decreases n - i,
        {
            routes.push(self.lookup(&ids[i]));
            i = i + 1;
        }
        routes
    }

    /// Enters the instance `id`, whose setup went as `setup`.
    ///
    /// An identity that is alive is refused, whatever the setup; so is a
    /// setup that failed: in both cases the register stays as it was. Else
    /// the instance is entered under the next number, which is returned.
    pub fn spawn(&mut self, id: TermId, setup: Setup) -> (r: Result<u64, SpawnError>)
        requires
            old(self).wf(),
            old(self).issued_spec() < u64::MAX,
        ensures
            final(self).wf(),
            r == spawn_answer(old(self)@, old(self).issued_spec(), id@, setup),
            final(self)@ == after_spawn(old(self)@, old(self).issued_spec(), id@, setup),
            final(self).issued_spec() == old(self).issued_spec() + (if r is Ok {
                1nat
            } else {
                0nat
            }),
    {
        if self.find(&id).is_some() {
            return Err(SpawnError::AlreadyRegistered);
        }
        match setup {
            Setup::BindFailed => Err(SpawnError::Bind),
            Setup::SpawnFailed => Err(SpawnError::Spawn),
            Setup::Ready => {
                let internal_id = self.issued + 1;
                let ghost key = id@;
                let ghost before = self.entries@;
                let ghost was = self.registered@;
                self.issued = internal_id;
                self.entries.push(TermEntry { id, internal_id });
                proof {
                    self.registered@ = was.insert(key, internal_id);
                    let now = self.entries@;
                    let n = before.len() as int;
                    assert(now[n].id@ == key);
                    assert forall|i: int| 0 <= i < n implies now[i] == before[i] by {}
                    assert forall|k: Seq<u8>| #[trigger]
                        self.registered@.dom().contains(k) implies exists|i: int|
                        0 <= i < now.len() && (#[trigger] now[i]).id@ == k by {
                        if k != key {
                            assert(was.dom().contains(k));
                            let i = choose|i: int| 0 <= i < n && (#[trigger] before[i]).id@ == k;
                            assert(now[i].id@ == k);
                        }
                    }
                }
                Ok(internal_id)
            },
        }
    }

    /// Strikes the instance that was registered as `id` under `internal_id`,
    /// now that it is gone, and says whether it stood in the register. The
    /// identity is free again. A registration of the same identity under
    /// another number is left alone.
    pub fn on_stop(&mut self, id: &TermId, internal_id: u64) -> (r: bool)
        requires
            old(self).wf(),
        ensures
            final(self).wf(),
            r == old(self)@.contains_pair(id@, internal_id),
            final(self)@ == after_stop(old(self)@, id@, internal_id),
            final(self).issued_spec() == old(self).issued_spec(),
    {
        match self.find(id) {
            Some(i) => {
                if self.entries[i].internal_id == internal_id {
                    let ghost before = self.entries@;
                    let ghost was = self.registered@;
                    self.entries.remove(i);
                    proof {
                        self.registered@ = was.remove(id@);
                        let now = self.entries@;
                        assert forall|j: int| 0 <= j < now.len() implies (#[trigger] now[j])
                            == before[if j < i { j } else { j + 1 }] by {}
                        assert forall|k: Seq<u8>| #[trigger]
                            self.registered@.dom().contains(k) implies exists|j: int|
                            0 <= j < now.len() && (#[trigger] now[j]).id@ == k by {
                            assert(was.dom().contains(k));
                            let j = choose|j: int|
                                0 <= j < before.len() && (#[trigger] before[j]).id@ == k;
                            if j < i {
                                assert(now[j].id@ == k);
                            } else {
                                assert(now[j - 1].id@ == k);
                            }
                        }
                    }
                    true
                } else {
                    false
                }
            },
            None => false,
        }
    }
}

/// One instance's end leaves the others as they are: striking an instance
/// changes neither whether another identity is registered nor under which
/// number.
pub proof fn lemma_stop_leaves_others(
    registered: Map<Seq<u8>, u64>,
    gone: Seq<u8>,
    internal_id: u64,
    other: Seq<u8>,
)
    requires
        other != gone,
    ensures
        route_of(after_stop(registered, gone, internal_id), other) == route_of(registered, other),
{
}

/// A new instance leaves the others as they are, and a refused one leaves
/// everything as it is.
pub proof fn lemma_spawn_leaves_others(
    registered: Map<Seq<u8>, u64>,
    issued: nat,
    id: Seq<u8>,
    setup: Setup,
    other: Seq<u8>,
)
    requires
        other != id,
    ensures
        route_of(after_spawn(registered, issued, id, setup), other) == route_of(registered, other),
        spawn_answer(registered, issued, id, setup) is Err ==> after_spawn(
            registered,
            issued,
            id,
            setup,
        ) == registered,
{
}

/// An identity names at most one live instance, and is free again once that
/// instance is gone: after a successful entry the identity is registered
/// under the number returned, a second entry is refused, and after the
/// instance is struck a new entry succeeds.
pub proof fn lemma_identity_reuse(
    registered: Map<Seq<u8>, u64>,
    issued: nat,
    id: Seq<u8>,
)
    requires
        !registered.dom().contains(id),
        issued + 2 <= u64::MAX,
    ensures
        ({
            let n = (issued + 1) as u64;
            let entered = after_spawn(registered, issued, id, Setup::Ready);
            let struck = after_stop(entered, id, n);
            &&& spawn_answer(registered, issued, id, Setup::Ready) == Ok::<u64, SpawnError>(n)
            &&& route_of(entered, id) == Some(n)
            &&& spawn_answer(entered, issued + 1, id, Setup::Ready) == Err::<u64, SpawnError>(
                SpawnError::AlreadyRegistered,
            )
            &&& struck == registered
            &&& spawn_answer(struck, issued + 1, id, Setup::Ready) is Ok
        }),
{
    let n = (issued + 1) as u64;
    let entered = after_spawn(registered, issued, id, Setup::Ready);
    assert(after_stop(entered, id, n) =~= registered);
}

} // verus!
