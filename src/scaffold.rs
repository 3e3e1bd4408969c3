//! The engine's entry point: resolution, derivation and the project's files
//! in one step, with nothing derived once a step has failed.
use crate::artifacts::{
    artifacts_view, manifest_tail, manifest_tail_spec, setup_files, setup_spec, source_files,
    sources_spec, snake_case_of, Artifact,
};
use crate::chip::{
    resolve, resolve_spec, with_memory_spec, Chip, ChipView, ClassificationError, MemRegion,
};
use crate::plan::{derive_plan, derive_spec, BuildPlan, BuildPlanView, ConfigError, PanicHandler, Softdevice};
use crate::text::{contains, contains_spec, strings_view};
use vstd::prelude::*;

verus! {

/// Every way a run of the engine can fail.
#[derive(Clone, Debug, PartialEq, Eq)]
pub enum EngineError {
    Classification(ClassificationError),
    Config(ConfigError),
    /// Adding the named dependency failed.
    DirectiveEmissionFailed(String),
}

/// Everything a new project is made of, in the order it is written: the
/// setup files, then the plan's dependencies, then the manifest's tail, then
/// the sources.
#[derive(Clone, Debug, PartialEq, Eq)]
pub struct Scaffold {
    pub chip: Chip,
    pub plan: BuildPlan,
    pub setup: Vec<Artifact>,
    pub manifest_tail: Artifact,
    pub sources: Vec<Artifact>,
}

/// The chip that a run works with: the resolved one, with the user's memory
/// layout where one was supplied.
pub open spec fn run_chip(c: ChipView, memory: Option<MemRegion>) -> ChipView {
    match memory {
        Some(m) => with_memory_spec(c, m),
        None => c,
    }
}

/// Resolves `raw_chip_name` against the chip database's `candidates`,
/// derives the plan, and lists the project's files. `probe_name` is the
/// debug probe's name for the first candidate.
pub fn scaffold(
    raw_chip_name: &str,
    project_name: &str,
    panic_handler: PanicHandler,
    softdevice: Option<Softdevice>,
    memory: Option<MemRegion>,
    candidates: &Vec<String>,
    probe_name: &str,
) -> (r: Result<Scaffold, EngineError>)
    ensures
        ({
            let resolved = resolve_spec(raw_chip_name@, strings_view(candidates@));
            match r {
                Err(EngineError::Classification(e)) => resolved == Err::<ChipView, _>(e@),
                Err(EngineError::Config(e)) => resolved is Ok && derive_spec(
                    run_chip(resolved->Ok_0, memory),
                    panic_handler,
                    softdevice,
                ) == Err::<BuildPlanView, _>(e@),
                Err(EngineError::DirectiveEmissionFailed(_)) => false,
                Ok(s) => {
                    &&& resolved is Ok
                    &&& s.chip@ == run_chip(resolved->Ok_0, memory)
                    &&& derive_spec(s.chip@, panic_handler, softdevice) == Ok::<_, crate::plan::ConfigFailure>(s.plan@)
                    &&& artifacts_view(s.setup@) == setup_spec(
                        project_name@,
                        s.chip.target,
                        probe_name@,
                        s.plan.build_template,
                    )
                    &&& s.manifest_tail@ == manifest_tail_spec(s.plan.manifest_tail, s.chip.family)
                    &&& artifacts_view(s.sources@) == sources_spec(
                        s.plan.main_template,
                        snake_case_of(panic_handler.crate_spec()),
                        s.plan.memory_layout,
                    )
                },
            }
        }),
{
    let chip = match resolve(raw_chip_name, candidates) {
        Ok(c) => c,
        Err(e) => return Err(EngineError::Classification(e)),
    };
    let chip = match memory {
        Some(m) => chip.with_memory_region(m),
        None => chip,
    };
    let plan = match derive_plan(&chip, panic_handler, softdevice) {
        Ok(p) => p,
        Err(e) => return Err(EngineError::Config(e)),
    };
    let setup = setup_files(project_name, &chip, &plan, probe_name);
    let tail = manifest_tail(&chip, &plan);
    let sources = source_files(&plan, panic_handler);
    Ok(Scaffold { chip, plan, setup, manifest_tail: tail, sources })
}

/// Whether a manifest still lacks its features table, which the package
/// manager writes in some versions and not in others.
pub fn needs_feature_patch(manifest: &str) -> (r: bool)
    ensures
        r == !contains_spec(manifest@, "[features]"@),
{
    !contains(manifest, "[features]")
}

} // verus!
