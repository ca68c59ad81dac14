//! The registry's state and the management of verifiers.

use crate::address::Address;
use crate::datacap::DataCap;
use crate::error::{ActorError, ExitCode};
use crate::store::{
    bytes_of, delete_verifier, describe, empty_proposal_ids, empty_verifiers, flush_proposal_ids,
    flush_verifiers, get_verifier, is_proposal_ids_root, is_verifiers_root, load_verifiers, lookup,
    proposal_ids_at, proposal_ids_root, set_verifier, verifiers_at, verifiers_root, Cid, Store,
};
use vstd::prelude::*;

verus! {

/// The failure of an operation on a persistent map: the state cannot be relied on.
pub(crate) fn broken_state(context: &str, cause: &fvm_ipld_hamt::Error) -> (r: ActorError)
    ensures
        r.exit_code() == ExitCode::IllegalState,
{
    ActorError::illegal_state(describe(context, cause))
}

/// What comes of taking a verifier out of the map: where nothing was found under its
/// address, the verifier is not there, which is an illegal argument.
pub fn removal_outcome(removed: Option<DataCap>) -> (r: Result<(), ActorError>)
    ensures
        r is Ok <==> removed is Some,
        r matches Err(e) ==> e.exit_code() == ExitCode::IllegalArgument,
{
    match removed {
        Some(_) => Ok(()),
        None => Err(ActorError::illegal_argument("verifier not found".to_string())),
    }
}

/// The root record of the registry.
///
/// The two roots are to be left as the operations of this type set them: the state is then
/// well formed, and stays so. A state is to be used with the store that it was made in: a
/// root that the store does not hold is reported as an illegal state.
#[derive(Debug)]
pub struct State {
    /// The address that alone may add and remove verifiers.
    pub root_key: Address,
    /// The token actor, which holds the clients' balances.
    pub token: Address,
    /// Root of the map from a verifier's address to the data cap that it may still grant.
    pub verifiers: Cid,
    /// Root of the map from a pair of verifier and client to the number of removals that
    /// the verifier has consented to for that client.
    pub remove_data_cap_proposal_ids: Cid,
}

impl State {
    /// The verifiers, each with the number of bytes that it may still grant.
    pub open spec fn verifier_caps(&self) -> Map<Seq<u8>, int> {
        verifiers_at(self.verifiers@)
    }

    /// The counters that are kept, by the key of the pair that each belongs to.
    pub open spec fn proposal_ids(&self) -> Map<Seq<u8>, u64> {
        proposal_ids_at(self.remove_data_cap_proposal_ids@)
    }

    /// Both roots are roots of well-formed maps: maps that were built from nothing by the
    /// operations of this type, and not opened on a node that was picked elsewhere. Each
    /// is then the one root that its entries have.
    pub open spec fn well_formed(&self) -> bool {
        &&& is_verifiers_root(self.verifiers@)
        &&& is_proposal_ids_root(self.remove_data_cap_proposal_ids@)
        &&& self.verifiers@ == verifiers_root(self.verifier_caps())
        &&& self.remove_data_cap_proposal_ids@ == proposal_ids_root(self.proposal_ids())
    }

    /// The state of a registry without verifiers and without counters. It is well formed,
    /// and its two maps, which hold nothing, have one and the same root.
    pub fn new(store: &Store, root_key: Address, token: Address) -> (r: Result<State, ActorError>)
        ensures
            match r {
                Ok(state) => {
                    &&& state.root_key == root_key
                    &&& state.token == token
                    &&& state.verifier_caps() == Map::<Seq<u8>, int>::empty()
                    &&& state.proposal_ids() == Map::<Seq<u8>, u64>::empty()
                    &&& state.well_formed()
                    &&& state.verifiers@ == state.remove_data_cap_proposal_ids@
                },
                Err(e) => e.exit_code() == ExitCode::IllegalState,
            },
    {
        let mut no_verifiers = empty_verifiers(store);
        let verifiers = match flush_verifiers(&mut no_verifiers) {
            Ok(root) => root,
            Err(e) => {
                return Err(broken_state("failed to create empty map", &e));
            },
        };
        let mut no_proposal_ids = empty_proposal_ids(store);
        let remove_data_cap_proposal_ids = match flush_proposal_ids(&mut no_proposal_ids) {
            Ok(root) => root,
            Err(e) => {
                return Err(broken_state("failed to create empty map", &e));
            },
        };
        Ok(State { root_key, token, verifiers, remove_data_cap_proposal_ids })
    }

    /// Adds a verifier and cap, overwriting any existing cap for that verifier. A well-formed
    /// state stays well formed.
    ///
    /// Whether the caller may do so is not asked here.
    pub fn put_verifier(&mut self, store: &Store, verifier: &Address, cap: &DataCap) -> (r: Result<
        (),
        ActorError,
    >)
        ensures
            match r {
                Ok(_) => {
                    &&& final(self).verifier_caps() == old(self).verifier_caps().insert(
                        verifier@,
                        cap@,
                    )
                    &&& old(self).well_formed() ==> final(self).well_formed()
                    &&& final(self).root_key == old(self).root_key
                    &&& final(self).token == old(self).token
                    &&& final(self).remove_data_cap_proposal_ids == old(
                        self,
                    ).remove_data_cap_proposal_ids
                },
                Err(e) => *final(self) == *old(self) && e.exit_code() == ExitCode::IllegalState,
            },
    {
        let mut verifiers = match load_verifiers(&self.verifiers, store) {
            Ok(map) => map,
            Err(e) => {
                return Err(broken_state("failed to load verifiers", &e));
            },
        };
        match set_verifier(&mut verifiers, verifier.to_bytes(), cap) {
            Ok(_) => {},
            Err(e) => {
                return Err(broken_state("failed to set verifier", &e));
            },
        }
        match flush_verifiers(&mut verifiers) {
            Ok(root) => {
                self.verifiers = root;
                Ok(())
            },
            Err(e) => Err(broken_state("failed to flush verifiers", &e)),
        }
    }

    /// Removes a verifier. One that is not there is an illegal argument, and the state
    /// stays as it was.
    ///
    /// What the map of verifiers holds afterwards is stated of a well-formed state, which
    /// stays well formed. A state with a root that was picked elsewhere may hold verifiers
    /// that no lookup finds, and a removal may bring them to light.
    pub fn remove_verifier(&mut self, store: &Store, verifier: &Address) -> (r: Result<
        (),
        ActorError,
    >)
        ensures
            !old(self).verifier_caps().contains_key(verifier@) ==> r is Err,
            match r {
                Ok(_) => {
                    &&& old(self).verifier_caps().contains_key(verifier@)
                    &&& old(self).well_formed() ==> {
                        &&& final(self).verifier_caps() == old(self).verifier_caps().remove(
                            verifier@,
                        )
                        &&& final(self).well_formed()
                    }
                    &&& final(self).root_key == old(self).root_key
                    &&& final(self).token == old(self).token
                    &&& final(self).remove_data_cap_proposal_ids == old(
                        self,
                    ).remove_data_cap_proposal_ids
                },
                Err(e) => {
                    &&& *final(self) == *old(self)
                    &&& e.exit_code() == ExitCode::IllegalArgument
                        || e.exit_code() == ExitCode::IllegalState
                    &&& e.exit_code() == ExitCode::IllegalArgument ==> !old(
                        self,
                    ).verifier_caps().contains_key(verifier@)
                },
            },
    {
        let mut verifiers = match load_verifiers(&self.verifiers, store) {
            Ok(map) => map,
            Err(e) => {
                return Err(broken_state("failed to load verifiers", &e));
            },
        };
        let key = verifier.to_bytes();
        match delete_verifier(&mut verifiers, &key) {
            Ok(removed) => {
                removal_outcome(removed)?;
            },
            Err(e) => {
                return Err(broken_state("failed to remove verifier", &e));
            },
        }
        match flush_verifiers(&mut verifiers) {
            Ok(root) => {
                self.verifiers = root;
                Ok(())
            },
            Err(e) => Err(broken_state("failed to flush verifiers", &e)),
        }
    }

    /// The data cap that a verifier may still grant, or nothing where it is no verifier.
    pub fn get_verifier_cap(&self, store: &Store, verifier: &Address) -> (r: Result<
        Option<DataCap>,
        ActorError,
    >)
        ensures
            match r {
                Ok(cap) => bytes_of(cap) == lookup(self.verifier_caps(), verifier@),
                Err(e) => e.exit_code() == ExitCode::IllegalState,
            },
    {
        let verifiers = match load_verifiers(&self.verifiers, store) {
            Ok(map) => map,
            Err(e) => {
                return Err(broken_state("failed to load verifiers", &e));
            },
        };
        let key = verifier.to_bytes();
        match get_verifier(&verifiers, &key) {
            Ok(allowance) => Ok(allowance),
            Err(e) => Err(broken_state("failed to get verifier", &e)),
        }
    }
}

/// A verifier that has been put is found, with the data cap that it was put with.
pub proof fn lemma_put_then_get(caps: Map<Seq<u8>, int>, verifier: Seq<u8>, cap: int)
    ensures
        lookup(caps.insert(verifier, cap), verifier) == Some(cap),
{
}

/// A verifier that has been removed is not found.
pub proof fn lemma_remove_then_get(caps: Map<Seq<u8>, int>, verifier: Seq<u8>)
    ensures
        lookup(caps.remove(verifier), verifier) is None,
{
}

/// Putting or removing one verifier leaves what is found for every other as it was.
pub proof fn lemma_other_verifiers_untouched(
    caps: Map<Seq<u8>, int>,
    verifier: Seq<u8>,
    cap: int,
    other: Seq<u8>,
)
    requires
        other != verifier,
    ensures
        lookup(caps.insert(verifier, cap), other) == lookup(caps, other),
        lookup(caps.remove(verifier), other) == lookup(caps, other),
{
}

/// Putting a verifier twice leaves only the later cap: the map is the one that the
/// second put alone would have given.
pub proof fn lemma_put_overwrites(
    caps: Map<Seq<u8>, int>,
    verifier: Seq<u8>,
    first: int,
    second: int,
)
    ensures
        caps.insert(verifier, first).insert(verifier, second) == caps.insert(verifier, second),
{
    assert(caps.insert(verifier, first).insert(verifier, second) =~= caps.insert(
        verifier,
        second,
    ));
}

/// The root of the map of verifiers is fixed by what the map holds: two well-formed
/// states with the same verifiers and caps have the same root, however they came by them.
pub proof fn lemma_same_verifiers_same_root(a: State, b: State)
    requires
        a.well_formed(),
        b.well_formed(),
        a.verifier_caps() == b.verifier_caps(),
    ensures
        a.verifiers@ == b.verifiers@,
{
}

/// Putting a verifier that was not there and removing it again gives back the root that
/// the map of verifiers had.
pub proof fn lemma_put_then_remove_restores_root(
    before: State,
    between: State,
    after: State,
    verifier: Seq<u8>,
    cap: int,
)
    requires
        before.well_formed(),
        after.well_formed(),
        !before.verifier_caps().contains_key(verifier),
        between.verifier_caps() == before.verifier_caps().insert(verifier, cap),
        after.verifier_caps() == between.verifier_caps().remove(verifier),
    ensures
        after.verifiers@ == before.verifiers@,
{
    assert(before.verifier_caps().insert(verifier, cap).remove(verifier)
        =~= before.verifier_caps());
}

/// Of two puts for one verifier the second decides: the map, and with it the root of a
/// well-formed state, is the one that the second put alone would have given, and the
/// second cap is the one that is found.
pub proof fn lemma_second_put_decides(
    before: State,
    twice: State,
    only: State,
    verifier: Seq<u8>,
    first: int,
    second: int,
)
    requires
        twice.well_formed(),
        only.well_formed(),
        twice.verifier_caps() == before.verifier_caps().insert(verifier, first).insert(
            verifier,
            second,
        ),
        only.verifier_caps() == before.verifier_caps().insert(verifier, second),
    ensures
        twice.verifier_caps() == only.verifier_caps(),
        twice.verifiers@ == only.verifiers@,
        lookup(twice.verifier_caps(), verifier) == Some(second),
{
    lemma_put_overwrites(before.verifier_caps(), verifier, first, second);
}

/// A put of the cap that a verifier has already changes nothing: the map and the root of
/// a well-formed state stay as they were.
pub proof fn lemma_same_put_changes_nothing(
    before: State,
    after: State,
    verifier: Seq<u8>,
    cap: int,
)
    requires
        before.well_formed(),
        after.well_formed(),
        lookup(before.verifier_caps(), verifier) == Some(cap),
        after.verifier_caps() == before.verifier_caps().insert(verifier, cap),
    ensures
        after.verifier_caps() == before.verifier_caps(),
        after.verifiers@ == before.verifiers@,
{
    assert(before.verifier_caps().insert(verifier, cap) =~= before.verifier_caps());
}

} // verus!
