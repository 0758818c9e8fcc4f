//! The one concrete skill effect: firing a bullet.
//!
//! A tower starts a bullet run per target through [`execute_skill`]; the
//! bullet processor decodes the bullet context fragment from the run's bag
//! and asks for a projectile spawn as a deferred command.

use vstd::prelude::*;

use crate::common::{CollisionLayers, Vec2Fixed};
use crate::context::{
    spec_property_name, SkillRunContextData, SkillRunContextDataBuilder, SkillValue,
};
use crate::skill::{
    EntityId, FromSkill, Skill, SkillCommand, SkillEffctProcessor, SkillResponse, SkillRun,
    SkillRunContext,
};

verus! {

/// Marker of a skill run that fires a bullet.
#[derive(Clone, Copy, Debug, PartialEq, Eq, Structural)]
pub struct BulletSkillEffect {}

impl FromSkill for BulletSkillEffect {
    fn from_skill(_skill: &Skill) -> (r: Self)
        ensures
            r == (BulletSkillEffect {  }),
    {
        BulletSkillEffect {  }
    }
}

/// The typed context the bullet processor requires: flight direction, the
/// collision masks of the projectile's hit sensor, and the spawn position.
#[derive(Clone, Copy, Debug, PartialEq, Eq, Structural)]
pub struct BulletContext {
    /// Flight direction, as the offset from tower to target.
    pub direction: Vec2Fixed,
    /// Masks the projectile's hit sensor carries.
    pub layers: CollisionLayers,
    /// Where the projectile appears.
    pub bullet_position: Vec2Fixed,
}

/// The bag key of the bullet fragment's `direction` field.
pub open spec fn spec_bullet_key_direction() -> Seq<char> {
    spec_property_name("bullet"@, "direction"@)
}

/// The bag key of the bullet fragment's `layers` field.
pub open spec fn spec_bullet_key_layers() -> Seq<char> {
    spec_property_name("bullet"@, "layers"@)
}

/// The bag key of the bullet fragment's `bullet_position` field.
pub open spec fn spec_bullet_key_position() -> Seq<char> {
    spec_property_name("bullet"@, "bullet_position"@)
}

impl SkillRunContextDataBuilder for BulletContext {
    open spec fn spec_unique_name() -> Seq<char> {
        "bullet"@
    }

    open spec fn spec_decode(data: Map<Seq<char>, SkillValue>) -> Option<BulletContext> {
        if data.contains_key(spec_bullet_key_position()) && data.contains_key(
            spec_bullet_key_direction(),
        ) && data.contains_key(spec_bullet_key_layers()) {
            match (data[spec_bullet_key_position()], data[spec_bullet_key_direction()], data[spec_bullet_key_layers()]) {
                (SkillValue::Vector(p), SkillValue::Vector(d), SkillValue::Layers(l)) => Some(
                    BulletContext { direction: d, layers: l, bullet_position: p },
                ),
                _ => None,
            }
        } else {
            None
        }
    }

    open spec fn spec_encode(self, data: Map<Seq<char>, SkillValue>) -> Map<Seq<char>, SkillValue> {
        data.insert(spec_bullet_key_direction(), SkillValue::Vector(self.direction)).insert(
            spec_bullet_key_layers(),
            SkillValue::Layers(self.layers),
        ).insert(spec_bullet_key_position(), SkillValue::Vector(self.bullet_position))
    }

    fn unique_name() -> (r: String)
        ensures
            r@ == Self::spec_unique_name(),
    {
        let r: String = "bullet".to_owned();
        r
    }

    fn from_skill_run_context_data(data: &SkillRunContextData) -> (r: Option<BulletContext>)
        ensures
            r == Self::spec_decode(data@),
    {
        let position_key = Self::get_property_name("bullet_position");
        let bullet_position = match data.get_value(position_key.as_str()) {
            Some(v) => match v.as_vector() {
                Some(p) => p,
                None => {
                    return None;
                },
            },
            None => {
                return None;
            },
        };
        let direction_key = Self::get_property_name("direction");
        let direction = match data.get_value(direction_key.as_str()) {
            Some(v) => match v.as_vector() {
                Some(d) => d,
                None => {
                    return None;
                },
            },
            None => {
                return None;
            },
        };
        let layers_key = Self::get_property_name("layers");
        let layers = match data.get_value(layers_key.as_str()) {
            Some(v) => match v.as_layers() {
                Some(l) => l,
                None => {
                    return None;
                },
            },
            None => {
                return None;
            },
        };
        Some(BulletContext { direction, layers, bullet_position })
    }

    fn update_skill_run_context_data(&self, data: &mut SkillRunContextData)
        ensures
            final(data).wf(),
            final(data)@ == self.spec_encode(old(data)@),
    {
        let direction_key = Self::get_property_name("direction");
        data.set_value(direction_key.as_str(), SkillValue::Vector(self.direction));
        let layers_key = Self::get_property_name("layers");
        data.set_value(layers_key.as_str(), SkillValue::Layers(self.layers));
        let position_key = Self::get_property_name("bullet_position");
        data.set_value(position_key.as_str(), SkillValue::Vector(self.bullet_position));
    }
}

/// The bullet effect's processor: on a decoded context it asks for one
/// projectile spawn, deferred into the response.
#[derive(Debug)]
pub struct BulletSystemParam {}

impl SkillEffctProcessor for BulletSystemParam {
    type Effect = BulletSkillEffect;

    type Context = BulletContext;

    type Response = ();

    /// One spawn command for the described bullet; the processor keeps no
    /// state and writes no result fields.
    open spec fn spec_process(self, skill_effct: BulletSkillEffect, context: BulletContext) -> (
        Self,
        (),
        Seq<SkillCommand>,
    ) {
        (
            self,
            (),
            seq![
                SkillCommand::SpawnBullet {
                    layers: context.layers,
                    direction: context.direction,
                    position: context.bullet_position,
                },
            ],
        )
    }

    fn process(
        &mut self,
        _skill_effct: &BulletSkillEffect,
        context: &BulletContext,
        response: &mut SkillResponse,
    ) -> (r: ())
    {
        let command = SkillCommand::SpawnBullet {
            layers: context.layers,
            direction: context.direction,
            position: context.bullet_position,
        };
        response.push(command);
        proof {
            assert(response.commands@ =~= old(response).commands@ + seq![command]);
        }
    }
}

/// Start one pending skill run per target: each gets the bullet effect
/// marker, a copy of the context data, the identity fields, and an empty
/// response. This is the sole entry point of the dispatch pipeline.
pub fn execute_skill(
    runs: &mut Vec<SkillRun<BulletSkillEffect>>,
    skill: &Skill,
    caster: EntityId,
    targets: Vec<EntityId>,
    source: Option<EntityId>,
    data: SkillRunContextData,
)
    requires
        data.wf(),
    ensures
        final(runs)@.len() == old(runs)@.len() + targets@.len(),
        forall|k: int| 0 <= k < old(runs)@.len() ==> final(runs)@[k] == old(runs)@[k],
        forall|k: int|
            0 <= k < targets@.len() ==> (#[trigger] final(runs)@[old(runs)@.len() + k]).context.caster
                == caster && final(runs)@[old(runs)@.len() + k].context.target == targets@[k]
                && final(runs)@[old(runs)@.len() + k].context.source == source && final(runs)@[old(
                runs,
            )@.len() + k].context.data@ == data@ && final(runs)@[old(
                runs,
            )@.len() + k].context.data.wf() && final(runs)@[old(
                runs,
            )@.len() + k].response.commands@.len() == 0,
{
    let n = targets.len();
    let mut i: usize = 0;
    while i < n
        invariant
            i <= n,
            n == targets@.len(),
            data.wf(),
            runs@.len() == old(runs)@.len() + i,
            forall|k: int| 0 <= k < old(runs)@.len() ==> runs@[k] == old(runs)@[k],
            forall|k: int|
                0 <= k < i ==> (#[trigger] runs@[old(runs)@.len() + k]).context.caster == caster
                    && runs@[old(runs)@.len() + k].context.target == targets@[k] && runs@[old(
                    runs,
                )@.len() + k].context.source == source && runs@[old(runs)@.len() + k].context.data@
                    == data@ && runs@[old(runs)@.len() + k].context.data.wf() && runs@[old(
                    runs,
                )@.len() + k].response.commands@.len() == 0,
        decreases n - i,
    {
        let bullet_skill_effect = BulletSkillEffect::from_skill(skill);
        runs.push(
            SkillRun {
                effect: bullet_skill_effect,
                context: SkillRunContext {
                    source,
                    caster,
                    target: targets[i],
                    data: data.clone(),
                },
                response: SkillResponse::empty(),
            },
        );
        i = i + 1;
    }
}

/// Writing a bullet fragment into any bag and reading it back yields the
/// fragment unchanged, every field equal.
pub proof fn lemma_bullet_context_round_trip(c: BulletContext, data: Map<Seq<char>, SkillValue>)
    ensures
        BulletContext::spec_decode(c.spec_encode(data)) == Some(c),
{
    lemma_bullet_keys_distinct();
}

/// A bag missing any one required bullet field, or holding it with the
/// wrong kind, decodes to nothing: never to a partially filled fragment.
pub proof fn lemma_bullet_context_missing_field(data: Map<Seq<char>, SkillValue>)
    ensures
        !data.contains_key(spec_bullet_key_direction()) ==> BulletContext::spec_decode(
            data,
        ) is None,
        !data.contains_key(spec_bullet_key_layers()) ==> BulletContext::spec_decode(data) is None,
        !data.contains_key(spec_bullet_key_position()) ==> BulletContext::spec_decode(data) is None,
        data.contains_key(spec_bullet_key_direction()) && !(data[spec_bullet_key_direction()] is Vector)
            ==> BulletContext::spec_decode(data) is None,
        data.contains_key(spec_bullet_key_layers()) && !(data[spec_bullet_key_layers()] is Layers)
            ==> BulletContext::spec_decode(data) is None,
        data.contains_key(spec_bullet_key_position()) && !(data[spec_bullet_key_position()] is Vector)
            ==> BulletContext::spec_decode(data) is None,
{
}

/// The three bullet keys are pairwise distinct, so writing one field never
/// disturbs another.
pub proof fn lemma_bullet_keys_distinct()
    ensures
        spec_bullet_key_direction() != spec_bullet_key_layers(),
        spec_bullet_key_direction() != spec_bullet_key_position(),
        spec_bullet_key_layers() != spec_bullet_key_position(),
{
    reveal_strlit("bullet");
    reveal_strlit("_");
    reveal_strlit("direction");
    reveal_strlit("layers");
    reveal_strlit("bullet_position");
    assert(spec_bullet_key_direction().len() == 16);
    assert(spec_bullet_key_layers().len() == 13);
    assert(spec_bullet_key_position().len() == 22);
}

/// A pending bullet run whose bag never decodes contributes no commands: a
/// frame frees it without anything executing on its behalf.
pub proof fn lemma_unresolved_runs_execute_nothing(
    runs: Seq<crate::skill::SkillRunModel<BulletSkillEffect>>,
)
    requires
        forall|i: int|
            0 <= i < runs.len() ==> BulletContext::spec_decode((#[trigger] runs[i]).data) is None,
        forall|i: int| 0 <= i < runs.len() ==> (#[trigger] runs[i]).commands.len() == 0,
    ensures
        crate::skill::spec_all_commands(runs).len() == 0,
{
    crate::skill::lemma_no_commands_without_merges(runs);
}

} // verus!
