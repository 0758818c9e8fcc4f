//! The lair: a map fixture that periodically spawns enemies.

use vstd::prelude::*;

use crate::common::Vec3Fixed;
use crate::enemy::{EnemySpawn, EnemySpawnerContainer, EnemySpawnerKind, SquareEnemySpawner};
use crate::map::MapEnvironment;
use crate::unit::CooldownTimer;

verus! {

/// Milliseconds between two spawns of a lair.
pub const LAIR_SPAWN_INTERVAL_MS: u64 = 1000;

/// Marker of a lair entity.
#[derive(Clone, Copy, Debug, PartialEq, Eq, Structural)]
pub struct Lair;

/// A fixture able to describe the spawn of one enemy on demand.
pub trait LairTrait: Sized {
    /// What this lair needs of its own state to spawn.
    spec fn spawn_wf(self) -> bool;

    /// Describe the spawn of the enemy kind named `enemy` at `position`,
    /// consulting the map environment; nothing when the kind is unknown.
    fn spaw_enemy(
        &self,
        position: Vec3Fixed,
        enemy: &str,
        map_environment: &MapEnvironment,
    ) -> Option<EnemySpawn>
        requires
            self.spawn_wf(),
            map_environment.wf(),
    ;
}

/// The lair of square enemies: a repeating timer and its own spawner
/// registry.
#[derive(Debug)]
pub struct SquareLarir {
    /// Gates how often the lair spawns.
    pub timer: CooldownTimer,
    /// The spawners this lair can use.
    pub enemy_spawner_container: EnemySpawnerContainer,
}

impl SquareLarir {
    /// Well-formed: the timer and the registry are.
    pub open spec fn wf(self) -> bool {
        &&& self.timer.wf()
        &&& self.enemy_spawner_container.wf()
    }

    /// The stock lair: the square spawner registered under `square`.
    pub fn new() -> (r: Self)
        ensures
            r.wf(),
            r.timer.duration_ms == LAIR_SPAWN_INTERVAL_MS,
            r.timer.elapsed_ms == 0,
            r.enemy_spawner_container.view() == Map::<Seq<char>, EnemySpawnerKind>::empty().insert(
                "square"@,
                EnemySpawnerKind::Square(SquareEnemySpawner),
            ),
    {
        let mut larir = Self::empty();
        larir.enemy_spawner_container.register(
            "square",
            EnemySpawnerKind::Square(SquareEnemySpawner),
        );
        larir
    }

    /// A lair with a fresh timer and no spawners.
    pub fn empty() -> (r: Self)
        ensures
            r.wf(),
            r.timer.duration_ms == LAIR_SPAWN_INTERVAL_MS,
            r.timer.elapsed_ms == 0,
            r.enemy_spawner_container.view() == Map::<Seq<char>, EnemySpawnerKind>::empty(),
    {
        SquareLarir {
            timer: CooldownTimer::new(LAIR_SPAWN_INTERVAL_MS),
            enemy_spawner_container: EnemySpawnerContainer::empty(),
        }
    }

    /// One tick of the lair: advance the timer and, when it elapses,
    /// describe the spawn of one `square` enemy at `position`.
    pub fn process(
        &mut self,
        delta_ms: u64,
        position: Vec3Fixed,
        map_environment: &MapEnvironment,
    ) -> (r: Option<EnemySpawn>)
        requires
            old(self).wf(),
            map_environment.wf(),
        ensures
            final(self).wf(),
            final(self).enemy_spawner_container == old(self).enemy_spawner_container,
            final(self).timer.duration_ms == old(self).timer.duration_ms,
            old(self).timer.elapsed_ms + delta_ms < old(self).timer.duration_ms ==> r is None,
            old(self).timer.elapsed_ms + delta_ms >= old(self).timer.duration_ms ==> r == (
            if old(self).enemy_spawner_container.view().contains_key("square"@) {
                Some(
                    old(self).enemy_spawner_container.view()["square"@].spec_spawn(position),
                )
            } else {
                None::<EnemySpawn>
            }),
    {
        let just_finished = self.timer.tick(delta_ms);
        if just_finished {
            self.spaw_enemy(position, "square", map_environment)
        } else {
            None
        }
    }
}

impl Default for SquareLarir {
    fn default() -> (r: Self)
        ensures
            r.wf(),
            r.timer.duration_ms == LAIR_SPAWN_INTERVAL_MS,
            r.timer.elapsed_ms == 0,
            r.enemy_spawner_container.view() == Map::<Seq<char>, EnemySpawnerKind>::empty().insert(
                "square"@,
                EnemySpawnerKind::Square(SquareEnemySpawner),
            ),
    {
        Self::new()
    }
}

impl LairTrait for SquareLarir {
    open spec fn spawn_wf(self) -> bool {
        self.enemy_spawner_container.wf()
    }

    fn spaw_enemy(
        &self,
        position: Vec3Fixed,
        enemy: &str,
        map_environment: &MapEnvironment,
    ) -> (r: Option<EnemySpawn>)
        ensures
            self.enemy_spawner_container.view().contains_key(enemy@) <==> r is Some,
            r matches Some(spawn) ==> spawn == self.enemy_spawner_container.view()[
                enemy@].spec_spawn(position),
    {
        let _v = map_environment.get_property("test");
        self.enemy_spawner_container.spawn_enemy(position, enemy)
    }
}

} // verus!
