use crate::registry::error::RegistryError;
use crate::registry::id::{is_core, is_core_id, is_valid_id, normalize_id, normalized};
use crate::registry::model::{same_str, share, GameEntry, ProviderEntry, ProviderSource};
use crate::traits::game_provider::{GameMetadata, GameProvider};
use std::sync::Arc;
use vstd::prelude::*;
use vstd::rwlock::{RwLock, RwLockPredicate};

verus! {

/// The identifiers of a sequence of provider entries, in order.
pub open spec fn provider_ids<M: ?Sized>(ps: Seq<ProviderEntry<M>>) -> Seq<Seq<char>> {
    ps.map_values(|e: ProviderEntry<M>| e.id@)
}

/// The identifiers of a sequence of game entries, in order.
pub open spec fn game_ids<G: ?Sized>(gs: Seq<GameEntry<G>>) -> Seq<Seq<char>> {
    gs.map_values(|e: GameEntry<G>| e.id@)
}

/// A `core:` identifier claimed by a provider that is not built in.
pub open spec fn misuses_core(id: Seq<char>, source: ProviderSource) -> bool {
    is_core(id) && !(source is Core)
}

/// `after` is `before` with one provider entry appended.
pub open spec fn appended_provider<M: ?Sized>(
    before: Seq<ProviderEntry<M>>,
    after: Seq<ProviderEntry<M>>,
    id: Seq<char>,
    source: ProviderSource,
    provider: Arc<M>,
) -> bool {
    &&& after.len() == before.len() + 1
    &&& after.drop_last() == before
    &&& after.last().id@ == id
    &&& after.last().source == source
    &&& after.last().provider == provider
}

/// `after` is `before` with one game entry appended.
pub open spec fn appended_game<G: ?Sized>(
    before: Seq<GameEntry<G>>,
    after: Seq<GameEntry<G>>,
    source: ProviderSource,
    game: Arc<G>,
) -> bool {
    &&& after.len() == before.len() + 1
    &&& after.drop_last() == before
    &&& after.last().source == source
    &&& after.last().game == game
}

/// What every registry holds: identifiers are valid and unique within their
/// kind, `core:` providers are built in, and every game's dependency names a
/// registered provider.
pub open spec fn registry_wf<M: ?Sized, G: ?Sized>(
    ps: Seq<ProviderEntry<M>>,
    gs: Seq<GameEntry<G>>,
) -> bool {
    &&& provider_ids(ps).no_duplicates()
    &&& game_ids(gs).no_duplicates()
    &&& forall|i: int|
        0 <= i < ps.len() ==> is_valid_id((#[trigger] ps[i]).id@) && !misuses_core(
            ps[i].id@,
            ps[i].source,
        )
    &&& forall|i: int|
        0 <= i < gs.len() ==> is_valid_id((#[trigger] gs[i]).id@) && provider_ids(ps).contains(
            gs[i].required_provider_id@,
        )
}

fn position_of_provider<M: ?Sized>(ps: &Vec<ProviderEntry<M>>, id: &str) -> (r: Option<usize>)
    ensures
        r matches Some(i) ==> i < ps@.len() && ps@[i as int].id@ == id@,
        r is Some <==> provider_ids(ps@).contains(id@),
{
    let mut i: usize = 0;
    while i < ps.len()
        invariant
            i <= ps@.len(),
            forall|k: int| 0 <= k < i ==> (#[trigger] ps@[k]).id@ != id@,
        decreases ps@.len() - i,
    {
        if same_str(ps[i].id.as_str(), id) {
            assert(provider_ids(ps@)[i as int] == ps@[i as int].id@);
            return Some(i);
        }
        i += 1;
    }
    assert forall|k: int| 0 <= k < ps@.len() implies #[trigger] provider_ids(ps@)[k] != id@ by {
        assert(provider_ids(ps@)[k] == ps@[k].id@);
    }
    None
}

fn position_of_game<G: ?Sized>(gs: &Vec<GameEntry<G>>, id: &str) -> (r: Option<usize>)
    ensures
        r matches Some(i) ==> i < gs@.len() && gs@[i as int].id@ == id@,
        r is Some <==> game_ids(gs@).contains(id@),
{
    let mut i: usize = 0;
    while i < gs.len()
        invariant
            i <= gs@.len(),
            forall|k: int| 0 <= k < i ==> (#[trigger] gs@[k]).id@ != id@,
        decreases gs@.len() - i,
    {
        if same_str(gs[i].id.as_str(), id) {
            assert(game_ids(gs@)[i as int] == gs@[i as int].id@);
            return Some(i);
        }
        i += 1;
    }
    assert forall|k: int| 0 <= k < gs@.len() implies #[trigger] game_ids(gs@)[k] != id@ by {
        assert(game_ids(gs@)[k] == gs@[k].id@);
    }
    None
}

/// Short-lived accumulator of registrations, consumed by `freeze`.
pub struct ContextBuilder<M: ?Sized, G: ?Sized> {
    mod_providers: Vec<ProviderEntry<M>>,
    games: Vec<GameEntry<G>>,
}

impl<M: ?Sized, G: ?Sized> ContextBuilder<M, G> {
    /// The registered mod providers, in registration order.
    pub closed spec fn providers(&self) -> Seq<ProviderEntry<M>> {
        self.mod_providers@
    }

    /// The registered games, in registration order.
    pub closed spec fn games(&self) -> Seq<GameEntry<G>> {
        self.games@
    }

    pub open spec fn wf(&self) -> bool {
        registry_wf(self.providers(), self.games())
    }

    pub open spec fn has_provider(&self, id: Seq<char>) -> bool {
        provider_ids(self.providers()).contains(id)
    }

    pub open spec fn has_game(&self, id: Seq<char>) -> bool {
        game_ids(self.games()).contains(id)
    }

    pub fn new() -> (r: Self)
        ensures
            r.wf(),
            r.providers().len() == 0,
            r.games().len() == 0,
    {
        let r = ContextBuilder { mod_providers: Vec::new(), games: Vec::new() };
        assert(provider_ids(r.providers()) =~= Seq::<Seq<char>>::empty());
        assert(game_ids(r.games()) =~= Seq::<Seq<char>>::empty());
        r
    }

    /// Registers a mod provider under the normalized form of `id`. A `core:`
    /// identifier is reserved for built-in providers; identifiers are unique.
    pub fn register_mod_provider(
        &mut self,
        id: &str,
        provider: Arc<M>,
        source: ProviderSource,
    ) -> (r: Result<(), RegistryError>)
        requires
            old(self).wf(),
        ensures
            final(self).wf(),
            final(self).games() == old(self).games(),
            !is_valid_id(normalized(id@))
                ==> (r matches Err(RegistryError::InvalidId(m)) && m@ == id@),
            is_valid_id(normalized(id@)) && misuses_core(normalized(id@), source)
                ==> (r matches Err(RegistryError::ReservedCoreId(m)) && m@ == normalized(id@)),
            is_valid_id(normalized(id@)) && !misuses_core(normalized(id@), source)
                && old(self).has_provider(normalized(id@))
                ==> (r matches Err(RegistryError::ProviderAlreadyExists(m)) && m@ == normalized(id@)),
            is_valid_id(normalized(id@)) && !misuses_core(normalized(id@), source)
                && !old(self).has_provider(normalized(id@)) ==> r is Ok,
            r is Ok ==> appended_provider(
                old(self).providers(),
                final(self).providers(),
                normalized(id@),
                source,
                provider,
            ),
            r is Err ==> final(self).providers() == old(self).providers(),
    {
        let n = match normalize_id(id) {
            Ok(n) => n,
            Err(e) => return Err(e),
        };
        if is_core_id(n.as_str()) && !matches!(source, ProviderSource::Core) {
            return Err(RegistryError::ReservedCoreId(n));
        }
        if position_of_provider(&self.mod_providers, n.as_str()).is_some() {
            return Err(RegistryError::ProviderAlreadyExists(n));
        }
        let ghost old_ps = self.mod_providers@;
        let ghost nv = n@;
        self.mod_providers.push(ProviderEntry { id: n, source, provider });
        proof {
            let ps = self.mod_providers@;
            assert(ps.drop_last() =~= old_ps);
            assert(provider_ids(ps) =~= provider_ids(old_ps).push(nv));
            assert forall|i: int, j: int|
                0 <= i < provider_ids(ps).len() && 0 <= j < provider_ids(ps).len() && i != j
                    implies provider_ids(ps)[i] != provider_ids(ps)[j] by {
                if j == old_ps.len() {
                    assert(provider_ids(old_ps)[i] == provider_ids(ps)[i]);
                } else if i == old_ps.len() {
                    assert(provider_ids(old_ps)[j] == provider_ids(ps)[j]);
                } else {
                    assert(provider_ids(old_ps)[i] == provider_ids(ps)[i]);
                    assert(provider_ids(old_ps)[j] == provider_ids(ps)[j]);
                }
            }
            assert forall|i: int| 0 <= i < self.games@.len() implies provider_ids(ps).contains(
                (#[trigger] self.games@[i]).required_provider_id@,
            ) by {
                assert(self.games@[i] == old(self).games@[i]);
                assert(provider_ids(old_ps).contains(self.games@[i].required_provider_id@));
                let k = choose|k: int|
                    0 <= k < provider_ids(old_ps).len() && provider_ids(old_ps)[k]
                        == self.games@[i].required_provider_id@;
                assert(provider_ids(ps)[k] == provider_ids(old_ps)[k]);
            }
            assert forall|i: int| 0 <= i < ps.len() implies is_valid_id((#[trigger] ps[i]).id@)
                && !misuses_core(ps[i].id@, ps[i].source) by {
                if i < old_ps.len() {
                    assert(ps[i] == old_ps[i]);
                }
            }
        }
        Ok(())
    }

    /// Registers a game under the normalized form of `game_id`, depending on
    /// the provider with the normalized form of `depends_on`, which must be
    /// registered already.
    pub fn register_game(
        &mut self,
        game_id: &str,
        depends_on: &str,
        game: Arc<G>,
        source: ProviderSource,
    ) -> (r: Result<(), RegistryError>)
        requires
            old(self).wf(),
        ensures
            final(self).wf(),
            final(self).providers() == old(self).providers(),
            !is_valid_id(normalized(game_id@))
                ==> (r matches Err(RegistryError::InvalidId(m)) && m@ == game_id@),
            is_valid_id(normalized(game_id@)) && old(self).has_game(normalized(game_id@))
                ==> (r matches Err(RegistryError::GameAlreadyExists(m)) && m@ == normalized(game_id@)),
            is_valid_id(normalized(game_id@)) && !old(self).has_game(normalized(game_id@))
                && !is_valid_id(normalized(depends_on@))
                ==> (r matches Err(RegistryError::InvalidId(m)) && m@ == depends_on@),
            is_valid_id(normalized(game_id@)) && !old(self).has_game(normalized(game_id@))
                && is_valid_id(normalized(depends_on@))
                && !old(self).has_provider(normalized(depends_on@))
                ==> (r matches Err(RegistryError::NotFound(m)) && m@ == normalized(depends_on@)),
            is_valid_id(normalized(game_id@)) && !old(self).has_game(normalized(game_id@))
                && is_valid_id(normalized(depends_on@))
                && old(self).has_provider(normalized(depends_on@)) ==> r is Ok,
            r is Ok ==> appended_game(old(self).games(), final(self).games(), source, game)
                && final(self).games().last().id@ == normalized(game_id@)
                && final(self).games().last().required_provider_id@ == normalized(depends_on@),
            r is Err ==> final(self).games() == old(self).games(),
    {
        let g = match normalize_id(game_id) {
            Ok(g) => g,
            Err(e) => return Err(e),
        };
        if position_of_game(&self.games, g.as_str()).is_some() {
            return Err(RegistryError::GameAlreadyExists(g));
        }
        let d = match normalize_id(depends_on) {
            Ok(d) => d,
            Err(e) => return Err(e),
        };
        if position_of_provider(&self.mod_providers, d.as_str()).is_none() {
            return Err(RegistryError::NotFound(d));
        }
        let ghost old_gs = self.games@;
        let ghost gv = g@;
        self.games.push(GameEntry { id: g, source, game, required_provider_id: d });
        proof {
            let gs = self.games@;
            assert(gs.drop_last() =~= old_gs);
            assert(game_ids(gs) =~= game_ids(old_gs).push(gv));
            assert forall|i: int, j: int|
                0 <= i < game_ids(gs).len() && 0 <= j < game_ids(gs).len() && i != j implies game_ids(
                gs,
            )[i] != game_ids(gs)[j] by {
                if j == old_gs.len() {
                    assert(game_ids(old_gs)[i] == game_ids(gs)[i]);
                } else if i == old_gs.len() {
                    assert(game_ids(old_gs)[j] == game_ids(gs)[j]);
                } else {
                    assert(game_ids(old_gs)[i] == game_ids(gs)[i]);
                    assert(game_ids(old_gs)[j] == game_ids(gs)[j]);
                }
            }
            assert forall|i: int| 0 <= i < gs.len() implies is_valid_id((#[trigger] gs[i]).id@)
                && provider_ids(self.mod_providers@).contains(gs[i].required_provider_id@) by {
                if i < old_gs.len() {
                    assert(gs[i] == old_gs[i]);
                }
            }
        }
        Ok(())
    }

    /// Freezes the registrations into a context whose maps never change and
    /// whose active-game slot starts empty.
    pub fn freeze(self) -> (r: Context<M, G>)
        requires
            self.wf(),
        ensures
            r.wf(),
            r.providers() == self.providers(),
            r.games() == self.games(),
    {
        let ghost slot = ActiveGame { game_ids: game_ids(self.games@).to_set() };
        let active_game = RwLock::new(None, Ghost(slot));
        Context { mod_providers: self.mod_providers, game_providers: self.games, active_game }
    }
}

impl<M: ?Sized, G: ?Sized + GameProvider> ContextBuilder<M, G> {
    /// Registers a game provider under its own normalized `id()`, depending
    /// on its normalized `mod_provider_id()`; see `register_game`.
    pub fn register_game_provider(
        &mut self,
        provider: Arc<G>,
        source: ProviderSource,
    ) -> (r: Result<(), RegistryError>)
        requires
            old(self).wf(),
        ensures
            final(self).wf(),
            final(self).providers() == old(self).providers(),
            r is Ok ==> appended_game(old(self).games(), final(self).games(), source, provider),
            r is Err ==> final(self).games() == old(self).games(),
    {
        let game_id = provider.id();
        let depends_on = provider.mod_provider_id().to_string();
        self.register_game(game_id, depends_on.as_str(), provider, source)
    }
}

/// What the active-game slot may hold: nothing, or a registered game id.
pub struct ActiveGame {
    pub game_ids: Set<Seq<char>>,
}

impl RwLockPredicate<Option<String>> for ActiveGame {
    open spec fn inv(self, v: Option<String>) -> bool {
        v matches Some(id) ==> self.game_ids.contains(id@)
    }
}

/// The frozen registry, shared by every reader for the rest of the process.
/// Only the active-game slot changes, under its lock.
pub struct Context<M: ?Sized, G: ?Sized> {
    mod_providers: Vec<ProviderEntry<M>>,
    game_providers: Vec<GameEntry<G>>,
    active_game: RwLock<Option<String>, ActiveGame>,
}

impl<M: ?Sized, G: ?Sized> Context<M, G> {
    pub closed spec fn providers(&self) -> Seq<ProviderEntry<M>> {
        self.mod_providers@
    }

    pub closed spec fn games(&self) -> Seq<GameEntry<G>> {
        self.game_providers@
    }

    pub closed spec fn slot_ids(&self) -> Set<Seq<char>> {
        self.active_game.pred().game_ids
    }

    pub open spec fn wf(&self) -> bool {
        &&& registry_wf(self.providers(), self.games())
        &&& self.slot_ids() == game_ids(self.games()).to_set()
    }

    pub open spec fn has_provider(&self, id: Seq<char>) -> bool {
        provider_ids(self.providers()).contains(id)
    }

    pub open spec fn has_game(&self, id: Seq<char>) -> bool {
        game_ids(self.games()).contains(id)
    }

    /// Some registered game depends on the provider `id`.
    pub open spec fn is_dependency(&self, id: Seq<char>) -> bool {
        exists|j: int|
            0 <= j < self.games().len() && #[trigger] self.games()[j].required_provider_id@ == id
    }
    /// The mod provider registered under the normalized form of `id`.
    pub fn get_mod_provider(&self, id: &str) -> (r: Result<Arc<M>, RegistryError>)
        requires
            self.wf(),
        ensures
            !is_valid_id(normalized(id@)) ==> (r matches Err(RegistryError::InvalidId(m)) && m@
                == id@),
            is_valid_id(normalized(id@)) && !self.has_provider(normalized(id@)) ==> (r matches Err(
                RegistryError::NotFound(m),
            ) && m@ == normalized(id@)),
            is_valid_id(normalized(id@)) && self.has_provider(normalized(id@)) ==> (r matches Ok(p)
                && exists|i: int|
                0 <= i < self.providers().len() && self.providers()[i].id@ == normalized(id@)
                    && #[trigger] self.providers()[i].provider == p),
    {
        let n = match normalize_id(id) {
            Ok(n) => n,
            Err(e) => return Err(e),
        };
        match position_of_provider(&self.mod_providers, n.as_str()) {
            Some(i) => Ok(share(&self.mod_providers[i].provider)),
            None => Err(RegistryError::NotFound(n)),
        }
    }

    /// The game registered under the normalized form of `id`.
    pub fn get_game_provider(&self, id: &str) -> (r: Result<Arc<G>, RegistryError>)
        requires
            self.wf(),
        ensures
            !is_valid_id(normalized(id@)) ==> (r matches Err(RegistryError::InvalidId(m)) && m@
                == id@),
            is_valid_id(normalized(id@)) && !self.has_game(normalized(id@)) ==> (r matches Err(
                RegistryError::NotFound(m),
            ) && m@ == normalized(id@)),
            is_valid_id(normalized(id@)) && self.has_game(normalized(id@)) ==> (r matches Ok(g)
                && exists|i: int|
                0 <= i < self.games().len() && self.games()[i].id@ == normalized(id@)
                    && #[trigger] self.games()[i].game == g),
    {
        let n = match normalize_id(id) {
            Ok(n) => n,
            Err(e) => return Err(e),
        };
        match position_of_game(&self.game_providers, n.as_str()) {
            Some(i) => Ok(share(&self.game_providers[i].game)),
            None => Err(RegistryError::NotFound(n)),
        }
    }

    /// One `(id, source)` row per registered mod provider.
    pub fn list_mod_providers(&self) -> (r: Vec<(String, ProviderSource)>)
        ensures
            r@.len() == self.providers().len(),
            forall|i: int|
                0 <= i < r@.len() ==> (#[trigger] r@[i]).0@ == self.providers()[i].id@ && r@[i].1
                    == self.providers()[i].source,
    {
        let mut rows: Vec<(String, ProviderSource)> = Vec::new();
        let mut i: usize = 0;
        while i < self.mod_providers.len()
            invariant
                i <= self.mod_providers@.len(),
                rows@.len() == i,
                forall|k: int|
                    0 <= k < i ==> (#[trigger] rows@[k]).0@ == self.mod_providers@[k].id@
                        && rows@[k].1 == self.mod_providers@[k].source,
            decreases self.mod_providers@.len() - i,
        {
            let e = &self.mod_providers[i];
            rows.push((e.id.clone(), e.source.clone()));
            i += 1;
        }
        rows
    }

    /// One `(id, source, required provider id)` row per registered game.
    pub fn list_games(&self) -> (r: Vec<(String, ProviderSource, String)>)
        ensures
            r@.len() == self.games().len(),
            forall|i: int|
                0 <= i < r@.len() ==> (#[trigger] r@[i]).0@ == self.games()[i].id@ && r@[i].1
                    == self.games()[i].source && r@[i].2@ == self.games()[i].required_provider_id@,
    {
        let mut rows: Vec<(String, ProviderSource, String)> = Vec::new();
        let mut i: usize = 0;
        while i < self.game_providers.len()
            invariant
                i <= self.game_providers@.len(),
                rows@.len() == i,
                forall|k: int|
                    0 <= k < i ==> (#[trigger] rows@[k]).0@ == self.game_providers@[k].id@
                        && rows@[k].1 == self.game_providers@[k].source && rows@[k].2@
                        == self.game_providers@[k].required_provider_id@,
            decreases self.game_providers@.len() - i,
        {
            let e = &self.game_providers[i];
            rows.push((e.id.clone(), e.source.clone(), e.required_provider_id.clone()));
            i += 1;
        }
        rows
    }

    /// Makes the game registered under the normalized form of `id` the
    /// active one, replacing whatever was active. A failed call leaves the
    /// slot alone.
    pub fn activate_game(&self, id: &str) -> (r: Result<(), RegistryError>)
        requires
            self.wf(),
        ensures
            !is_valid_id(normalized(id@)) ==> (r matches Err(RegistryError::InvalidId(m)) && m@
                == id@),
            is_valid_id(normalized(id@)) && !self.has_game(normalized(id@)) ==> (r matches Err(
                RegistryError::NotFound(m),
            ) && m@ == normalized(id@)),
            is_valid_id(normalized(id@)) && self.has_game(normalized(id@)) ==> r is Ok,
    {
        let n = match normalize_id(id) {
            Ok(n) => n,
            Err(e) => return Err(e),
        };
        if position_of_game(&self.game_providers, n.as_str()).is_none() {
            return Err(RegistryError::NotFound(n));
        }
        proof {
            assert(game_ids(self.game_providers@).to_set().contains(n@));
        }
        let (_previous, handle) = self.active_game.acquire_write();
        handle.release_write(Some(n));
        Ok(())
    }

    /// The active game, if one was activated. Whatever it is, it names a
    /// registered game.
    pub fn active_game(&self) -> (r: Option<String>)
        requires
            self.wf(),
        ensures
            r matches Some(id) ==> self.has_game(id@),
    {
        let handle = self.active_game.acquire_read();
        let r = match handle.borrow() {
            Some(id) => Some(id.clone()),
            None => None,
        };
        handle.release_read();
        r
    }

    /// The provider the game registered exactly under `game_id` depends on.
    pub fn required_provider_of(&self, game_id: &str) -> (r: Option<String>)
        requires
            self.wf(),
        ensures
            r is Some <==> self.has_game(game_id@),
            r matches Some(p) ==> exists|i: int|
                0 <= i < self.games().len() && self.games()[i].id@ == game_id@
                    && #[trigger] self.games()[i].required_provider_id@ == p@,
    {
        match position_of_game(&self.game_providers, game_id) {
            Some(i) => Some(self.game_providers[i].required_provider_id.clone()),
            None => None,
        }
    }

    /// The provider the active game depends on, if a game is active. Whatever
    /// it is, it names a registered provider.
    pub fn active_game_required_provider(&self) -> (r: Option<String>)
        requires
            self.wf(),
        ensures
            r matches Some(p) ==> self.has_provider(p@) && self.is_dependency(p@),
    {
        match self.active_game() {
            Some(game) => {
                let r = self.required_provider_of(game.as_str());
                proof {
                    if r is Some {
                        let p = r->0;
                        let i = choose|i: int|
                            0 <= i < self.games().len() && self.games()[i].id@ == game@
                                && #[trigger] self.games()[i].required_provider_id@ == p@;
                        assert(registry_wf(self.providers(), self.games()));
                        assert(provider_ids(self.providers()).contains(self.games()[i].required_provider_id@));
                    }
                }
                r
            },
            None => None,
        }
    }

    /// The mod provider to ask for extended mod information, given what the
    /// active game depends on (`None` when no game is active).
    pub fn resolve_extended_info_provider(&self, required_provider: Option<String>) -> (r: Result<
        Arc<M>,
        RegistryError,
    >)
        requires
            self.wf(),
        ensures
            match required_provider {
                None => r matches Err(RegistryError::NotFound(m)) && m@ == "No active game"@,
                Some(p) => if self.has_provider(p@) {
                    r matches Ok(a) && exists|i: int|
                        0 <= i < self.providers().len() && self.providers()[i].id@ == p@
                            && #[trigger] self.providers()[i].provider == a
                } else {
                    r matches Err(RegistryError::NotFound(m)) && m@ == p@
                },
            },
    {
        match required_provider {
            None => Err(RegistryError::NotFound("No active game".to_string())),
            Some(p) => match position_of_provider(&self.mod_providers, p.as_str()) {
                Some(i) => Ok(share(&self.mod_providers[i].provider)),
                None => Err(RegistryError::NotFound(p)),
            },
        }
    }

    /// Resolves a request for extended mod information: the normalized mod id
    /// and the provider the active game depends on.
    pub fn extended_info_target(&self, mod_id: &str) -> (r: Result<(String, Arc<M>), RegistryError>)
        requires
            self.wf(),
        ensures
            !is_valid_id(normalized(mod_id@)) ==> (r matches Err(RegistryError::InvalidId(m))
                && m@ == mod_id@),
            is_valid_id(normalized(mod_id@)) && r is Err ==> (r matches Err(
                RegistryError::NotFound(m),
            ) && m@ == "No active game"@),
            r matches Ok((n, a)) ==> n@ == normalized(mod_id@) && exists|i: int|
                0 <= i < self.providers().len() && #[trigger] self.providers()[i].provider == a
                    && self.is_dependency(self.providers()[i].id@),
    {
        let n = match normalize_id(mod_id) {
            Ok(n) => n,
            Err(e) => return Err(e),
        };
        match self.resolve_extended_info_provider(self.active_game_required_provider()) {
            Ok(a) => Ok((n, a)),
            Err(e) => Err(e),
        }
    }
}

impl<M: ?Sized, G: ?Sized + GameProvider> Context<M, G> {
    /// The metadata of the game registered under the normalized form of `id`.
    pub fn get_metadata(&self, id: &str) -> (r: Result<GameMetadata, RegistryError>)
        requires
            self.wf(),
        ensures
            !is_valid_id(normalized(id@)) ==> (r matches Err(RegistryError::InvalidId(m)) && m@
                == id@),
            is_valid_id(normalized(id@)) && !self.has_game(normalized(id@)) ==> (r matches Err(
                RegistryError::NotFound(m),
            ) && m@ == normalized(id@)),
            is_valid_id(normalized(id@)) && self.has_game(normalized(id@)) ==> r is Ok,
    {
        let n = match normalize_id(id) {
            Ok(n) => n,
            Err(e) => return Err(e),
        };
        match position_of_game(&self.game_providers, n.as_str()) {
            Some(i) => Ok(self.game_providers[i].game.metadata()),
            None => Err(RegistryError::NotFound(n)),
        }
    }
}

/// A frozen context lists one row per distinct registered identifier: the
/// number of distinct provider ids equals the number of provider rows, and
/// likewise for games.
pub proof fn lemma_listing_counts_distinct_ids<M: ?Sized, G: ?Sized>(ctx: &Context<M, G>)
    requires
        ctx.wf(),
    ensures
        provider_ids(ctx.providers()).to_set().len() == ctx.providers().len(),
        game_ids(ctx.games()).to_set().len() == ctx.games().len(),
{
    provider_ids(ctx.providers()).unique_seq_to_set();
    game_ids(ctx.games()).unique_seq_to_set();
}

} // verus!
