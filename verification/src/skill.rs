//! The skill-effect dispatch pipeline.
//!
//! Game logic spawns transient skill runs, one per target, each carrying an
//! effect marker, a context bag and an empty response. Once per frame the
//! pipeline runs three phases in order: Update decodes each run's typed
//! context and, only on success, lets the matching processor execute and
//! re-encodes its typed result into the bag; Execute gathers the deferred
//! commands of every run in merge order; Free disposes of every run,
//! resolved or not. A run whose context never decodes is therefore freed
//! without any of its commands executing.

use vstd::prelude::*;

use crate::common::{CollisionLayers, Vec2Fixed};
use crate::context::{SkillRunContextData, SkillRunContextDataBuilder, SkillValue};

verus! {

/// A reference to a game entity, as the surrounding engine numbers them.
pub type EntityId = u64;

/// Whether `ids` holds `id`.
pub fn contains_entity(ids: &Vec<EntityId>, id: EntityId) -> (r: bool)
    ensures
        r == ids@.contains(id),
{
    let n = ids.len();
    let mut i: usize = 0;
    while i < n
        invariant
            i <= n,
            n == ids@.len(),
            forall|j: int| 0 <= j < i ==> ids@[j] != id,
        decreases n - i,
    {
        if ids[i] == id {
            proof {
                assert(ids@[i as int] == id);
            }
            return true;
        }
        i = i + 1;
    }
    proof {
        if ids@.contains(id) {
            let w = choose|w: int| 0 <= w < ids@.len() && ids@[w] == id;
            assert(false);
        }
    }
    false
}

/// Marker carried by a unit able to trigger skill runs.
#[derive(Clone, Copy, Debug, PartialEq, Eq, Structural)]
pub struct Skill {}

/// An effect marker that can be fabricated from a unit's skill.
pub trait FromSkill: Sized {
    /// Build the effect marker for one run of `skill`.
    fn from_skill(skill: &Skill) -> Self;
}

/// The identity and payload of one skill run: who cast it, at whom, on
/// whose behalf, and the context bag its fragments live in.
#[derive(Debug)]
pub struct SkillRunContext {
    /// The entity on whose behalf the run was started, if any.
    pub source: Option<EntityId>,
    /// The entity that cast the skill.
    pub caster: EntityId,
    /// The entity the run is aimed at.
    pub target: EntityId,
    /// The run's typed payload bag.
    pub data: SkillRunContextData,
}

impl Clone for SkillRunContext {
    fn clone(&self) -> (r: Self)
        ensures
            r.source == self.source,
            r.caster == self.caster,
            r.target == self.target,
            r.data@ == self.data@,
            r.data.wf() == self.data.wf(),
    {
        SkillRunContext {
            source: self.source,
            caster: self.caster,
            target: self.target,
            data: self.data.clone(),
        }
    }
}

/// A deferred side-effecting command a processor asks the engine to run
/// after all effects of the frame have resolved.
#[derive(Clone, Copy, Debug, PartialEq, Eq, Structural)]
pub enum SkillCommand {
    /// Spawn a projectile with the given masks, flight direction and start
    /// position.
    SpawnBullet { layers: CollisionLayers, direction: Vec2Fixed, position: Vec2Fixed },
    /// Remove an entity from the world.
    Despawn(EntityId),
}

/// The deferred commands accumulated while a run is processed, executed in
/// merge order once the frame's Update phase is over.
#[derive(Debug)]
pub struct SkillResponse {
    /// The commands, in the order they were merged.
    pub commands: Vec<SkillCommand>,
}

impl SkillResponse {
    /// A response with no commands.
    pub fn empty() -> (r: SkillResponse)
        ensures
            r.commands@ == Seq::<SkillCommand>::empty(),
    {
        SkillResponse { commands: Vec::new() }
    }

    /// Append one command.
    pub fn push(&mut self, command: SkillCommand)
        ensures
            final(self).commands@ == old(self).commands@.push(command),
    {
        self.commands.push(command);
    }

    /// Append every command of `other`, keeping order.
    pub fn merge(&mut self, other: SkillResponse)
        ensures
            final(self).commands@ == old(self).commands@ + other.commands@,
    {
        let mut tail = other.commands;
        self.commands.append(&mut tail);
    }
}

/// One transient skill run: an effect marker, the run's context, and its
/// response accumulator.
#[derive(Debug)]
pub struct SkillRun<E> {
    /// The marker naming which processor handles this run.
    pub effect: E,
    /// Identity and payload of the run.
    pub context: SkillRunContext,
    /// The deferred commands accumulated so far.
    pub response: SkillResponse,
}

/// The mathematical content of one skill run: its marker, identity fields,
/// the bag's map, and the commands merged so far.
pub ghost struct SkillRunModel<E> {
    pub effect: E,
    pub source: Option<EntityId>,
    pub caster: EntityId,
    pub target: EntityId,
    pub data: Map<Seq<char>, SkillValue>,
    pub commands: Seq<SkillCommand>,
}

impl<E> View for SkillRun<E> {
    type V = SkillRunModel<E>;

    open spec fn view(&self) -> SkillRunModel<E> {
        SkillRunModel {
            effect: self.effect,
            source: self.context.source,
            caster: self.context.caster,
            target: self.context.target,
            data: self.context.data@,
            commands: self.response.commands@,
        }
    }
}

/// The models of a list of runs, in order.
pub open spec fn spec_runs_model<E>(runs: Seq<SkillRun<E>>) -> Seq<SkillRunModel<E>> {
    runs.map_values(|r: SkillRun<E>| r@)
}

/// The handler of one effect type: it consumes that effect's typed context
/// and produces a typed result fragment, merging deferred commands into the
/// response as it goes. A processor is a function of its state, the effect
/// and the context; [`Self::spec_process`] is that function.
pub trait SkillEffctProcessor: Sized {
    /// The effect marker this processor handles.
    type Effect: FromSkill;

    /// The typed context fragment the processor requires; a run whose bag
    /// does not decode to it is skipped.
    type Context: SkillRunContextDataBuilder;

    /// The typed result fragment written back into the bag.
    type Response: SkillRunContextDataBuilder;

    /// The processor's meaning: from its state, the effect and the decoded
    /// context, the state afterwards, the result fragment, and the commands
    /// merged into the response.
    spec fn spec_process(self, skill_effct: Self::Effect, context: Self::Context) -> (
        Self,
        Self::Response,
        Seq<SkillCommand>,
    );

    /// Handle one run: read the typed context, merge commands into
    /// `response`, and return the result fragment, exactly as
    /// [`Self::spec_process`] states it.
    fn process(
        &mut self,
        skill_effct: &Self::Effect,
        context: &Self::Context,
        response: &mut SkillResponse,
    ) -> (r: Self::Response)
        ensures
            *final(self) == old(self).spec_process(*skill_effct, *context).0,
            r == old(self).spec_process(*skill_effct, *context).1,
            final(response).commands@ == old(response).commands@ + old(self).spec_process(
                *skill_effct,
                *context,
            ).2,
    ;
}

/// The Update phase as a function: the processor state and the run models
/// after every run has been tried in order. A run whose bag does not decode
/// is left exactly as it was; a decoded run keeps its identity, gains the
/// processor's commands, and has the result fragment re-encoded into its
/// bag.
pub open spec fn spec_update_phase<T: SkillEffctProcessor>(
    processor: T,
    runs: Seq<SkillRunModel<T::Effect>>,
) -> (T, Seq<SkillRunModel<T::Effect>>)
    decreases runs.len(),
{
    if runs.len() == 0 {
        (processor, Seq::empty())
    } else {
        let rec = spec_update_phase(processor, runs.drop_last());
        let run = runs.last();
        match T::Context::spec_decode(run.data) {
            None => (rec.0, rec.1.push(run)),
            Some(ctx) => {
                let step = rec.0.spec_process(run.effect, ctx);
                (
                    step.0,
                    rec.1.push(
                        SkillRunModel {
                            effect: run.effect,
                            source: run.source,
                            caster: run.caster,
                            target: run.target,
                            data: step.1.spec_encode(run.data),
                            commands: run.commands + step.2,
                        },
                    ),
                )
            },
        }
    }
}

/// The Update phase for one effect type: decode each run's typed context;
/// on failure leave the run exactly as it was (to be freed later), on
/// success run the processor and re-encode its result fragment into the
/// run's bag.
pub fn process_skill_effct<T: SkillEffctProcessor>(
    processor: &mut T,
    runs: &mut Vec<SkillRun<T::Effect>>,
)
    requires
        forall|i: int|
            0 <= i < old(runs)@.len() ==> (#[trigger] old(runs)@[i]).context.data.wf(),
    ensures
        final(runs)@.len() == old(runs)@.len(),
        *final(processor) == spec_update_phase(*old(processor), spec_runs_model(old(runs)@)).0,
        spec_runs_model(final(runs)@) == spec_update_phase(
            *old(processor),
            spec_runs_model(old(runs)@),
        ).1,
        forall|i: int|
            0 <= i < old(runs)@.len() && T::Context::spec_decode(
                (#[trigger] old(runs)@[i]).context.data@,
            ) is None ==> final(runs)@[i] == old(runs)@[i],
        forall|i: int|
            0 <= i < old(runs)@.len() ==> (#[trigger] final(runs)@[i]).context.data.wf(),
{
    let ghost old_models = spec_runs_model(runs@);
    let n = runs.len();
    let mut i: usize = 0;
    while i < n
        invariant
            i <= n,
            n == runs@.len(),
            runs@.len() == old(runs)@.len(),
            old_models == spec_runs_model(old(runs)@),
            forall|j: int|
                0 <= j < n ==> (#[trigger] old(runs)@[j]).context.data.wf(),
            forall|j: int| i <= j < n ==> runs@[j] == old(runs)@[j],
            *processor == spec_update_phase(*old(processor), old_models.take(i as int)).0,
            spec_runs_model(runs@).take(i as int) == spec_update_phase(
                *old(processor),
                old_models.take(i as int),
            ).1,
            forall|j: int|
                0 <= j < i && T::Context::spec_decode(
                    (#[trigger] old(runs)@[j]).context.data@,
                ) is None ==> runs@[j] == old(runs)@[j],
            forall|j: int| 0 <= j < n ==> (#[trigger] runs@[j]).context.data.wf(),
        decreases n - i,
    {
        proof {
            assert(old_models.take(i + 1).drop_last() =~= old_models.take(i as int));
            assert(old_models.take(i + 1).last() == old_models[i as int]);
            assert(old_models[i as int] == old(runs)@[i as int]@);
        }
        let ghost models_before = spec_runs_model(runs@);
        let ghost processor_before = *processor;
        let decoded = T::Context::from_skill_run_context_data(&runs[i].context.data);
        match decoded {
            None => {
                proof {
                    assert(spec_runs_model(runs@).take(i + 1) =~= spec_runs_model(runs@).take(
                        i as int,
                    ).push(old_models[i as int]));
                }
            },
            Some(ctx) => {
                let run = &mut runs[i];
                let res = processor.process(&run.effect, &ctx, &mut run.response);
                res.update_skill_run_context_data(&mut run.context.data);
                proof {
                    let step = processor_before.spec_process(
                        old(runs)@[i as int].effect,
                        ctx,
                    );
                    assert(runs@[i as int]@ == SkillRunModel {
                        effect: old_models[i as int].effect,
                        source: old_models[i as int].source,
                        caster: old_models[i as int].caster,
                        target: old_models[i as int].target,
                        data: step.1.spec_encode(old_models[i as int].data),
                        commands: old_models[i as int].commands + step.2,
                    });
                    assert(spec_runs_model(runs@).take(i + 1) =~= models_before.take(
                        i as int,
                    ).push(runs@[i as int]@));
                    assert(models_before.take(i as int) =~= spec_runs_model(runs@).take(i as int));
                }
            },
        }
        i = i + 1;
    }
    proof {
        assert(old_models.take(n as int) =~= old_models);
        assert(spec_runs_model(runs@).take(n as int) =~= spec_runs_model(runs@));
    }
}

/// The commands of all runs, in run order and, within a run, merge order.
pub open spec fn spec_all_commands<E>(runs: Seq<SkillRunModel<E>>) -> Seq<SkillCommand>
    decreases runs.len(),
{
    if runs.len() == 0 {
        Seq::empty()
    } else {
        spec_all_commands(runs.drop_last()) + runs.last().commands
    }
}

/// The Execute phase: gather every run's deferred commands, in run order
/// and, within one run, in the order they were merged.
pub fn collect_skill_commands<E>(runs: &Vec<SkillRun<E>>) -> (r: Vec<SkillCommand>)
    ensures
        r@ == spec_all_commands(spec_runs_model(runs@)),
{
    let mut out: Vec<SkillCommand> = Vec::new();
    let n = runs.len();
    let mut i: usize = 0;
    while i < n
        invariant
            i <= n,
            n == runs@.len(),
            out@ == spec_all_commands(spec_runs_model(runs@).take(i as int)),
        decreases n - i,
    {
        proof {
            assert(spec_runs_model(runs@).take(i + 1).drop_last() =~= spec_runs_model(
                runs@,
            ).take(i as int));
            assert(spec_runs_model(runs@).take(i + 1).last() == runs@[i as int]@);
        }
        let m = runs[i].response.commands.len();
        let mut k: usize = 0;
        while k < m
            invariant
                k <= m,
                i < n,
                n == runs@.len(),
                m == runs@[i as int].response.commands@.len(),
                out@ == spec_all_commands(spec_runs_model(runs@).take(i as int)) + runs@[
                    i as int].response.commands@.take(k as int),
            decreases m - k,
        {
            out.push(runs[i].response.commands[k]);
            proof {
                assert(runs@[i as int].response.commands@.take(k + 1) =~= runs@[
                    i as int].response.commands@.take(k as int).push(runs@[
                    i as int].response.commands@[k as int]));
                assert(out@ =~= spec_all_commands(spec_runs_model(runs@).take(i as int)) + runs@[
                    i as int].response.commands@.take(k + 1));
            }
            k = k + 1;
        }
        proof {
            assert(runs@[i as int].response.commands@.take(m as int) =~= runs@[
                i as int].response.commands@);
        }
        i = i + 1;
    }
    proof {
        assert(spec_runs_model(runs@).take(n as int) =~= spec_runs_model(runs@));
    }
    out
}

/// The Free phase: dispose of every run, resolved or not. Runs never
/// outlive the frame that created them.
pub fn free_skill_runs<E>(runs: &mut Vec<SkillRun<E>>)
    ensures
        final(runs)@.len() == 0,
{
    runs.clear();
}

/// One whole frame of the pipeline for one effect type: Update, then
/// Execute, then Free. Returns exactly the commands of the updated runs, in
/// order; the run list is left empty. When no run's context decodes, the
/// commands are exactly those already merged before the frame.
pub fn run_skill_frame<T: SkillEffctProcessor>(
    processor: &mut T,
    runs: &mut Vec<SkillRun<T::Effect>>,
) -> (commands: Vec<SkillCommand>)
    requires
        forall|i: int|
            0 <= i < old(runs)@.len() ==> (#[trigger] old(runs)@[i]).context.data.wf(),
    ensures
        final(runs)@.len() == 0,
        *final(processor) == spec_update_phase(*old(processor), spec_runs_model(old(runs)@)).0,
        commands@ == spec_all_commands(
            spec_update_phase(*old(processor), spec_runs_model(old(runs)@)).1,
        ),
        (forall|i: int|
            0 <= i < old(runs)@.len() ==> T::Context::spec_decode(
                (#[trigger] old(runs)@[i]).context.data@,
            ) is None) ==> commands@ == spec_all_commands(spec_runs_model(old(runs)@)),
{
    process_skill_effct(processor, runs);
    let commands = collect_skill_commands(runs);
    proof {
        if forall|i: int|
            0 <= i < old(runs)@.len() ==> T::Context::spec_decode(
                (#[trigger] old(runs)@[i]).context.data@,
            ) is None {
            assert forall|i: int|
                0 <= i < spec_runs_model(old(runs)@).len() implies T::Context::spec_decode(
                (#[trigger] spec_runs_model(old(runs)@)[i]).data,
            ) is None by {
                assert(spec_runs_model(old(runs)@)[i] == old(runs)@[i]@);
            }
            lemma_update_phase_skips_undecodable::<T>(
                *old(processor),
                spec_runs_model(old(runs)@),
            );
        }
    }
    free_skill_runs(runs);
    commands
}

/// When no run's bag decodes, the Update phase changes nothing: the
/// processor and every run come out as they went in.
pub proof fn lemma_update_phase_skips_undecodable<T: SkillEffctProcessor>(
    processor: T,
    runs: Seq<SkillRunModel<T::Effect>>,
)
    requires
        forall|i: int|
            0 <= i < runs.len() ==> T::Context::spec_decode((#[trigger] runs[i]).data) is None,
    ensures
        spec_update_phase(processor, runs) == (processor, runs),
    decreases runs.len(),
{
    if runs.len() == 0 {
        assert(spec_update_phase(processor, runs).1 =~= runs);
    } else {
        lemma_update_phase_skips_undecodable::<T>(processor, runs.drop_last());
        assert(runs[runs.len() - 1].data == runs.last().data);
        assert(spec_update_phase(processor, runs).1 =~= runs);
    }
}

/// Runs whose responses are all empty contribute no commands at all.
pub proof fn lemma_no_commands_without_merges<E>(runs: Seq<SkillRunModel<E>>)
    requires
        forall|i: int| 0 <= i < runs.len() ==> (#[trigger] runs[i]).commands.len() == 0,
    ensures
        spec_all_commands(runs).len() == 0,
    decreases runs.len(),
{
    if runs.len() > 0 {
        lemma_no_commands_without_merges(runs.drop_last());
        assert(runs[runs.len() - 1].commands.len() == 0);
    }
}

} // verus!
