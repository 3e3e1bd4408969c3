//! Derivation of the build plan: the ordered dependency directives and the
//! template variants that a resolved chip and the user's choices call for.
use crate::chip::{Chip, ChipView, Family, MemRegion};
use crate::text::{join, join_spec, strings_view};
use vstd::prelude::*;

verus! {

/// The supported panic-handling crates.
#[derive(Clone, Copy, Debug, PartialEq, Eq, Structural)]
pub enum PanicHandler {
    Halt,
    Reset,
}

impl PanicHandler {
    pub open spec fn crate_spec(&self) -> Seq<char> {
        match self {
            PanicHandler::Halt => "panic-halt"@,
            PanicHandler::Reset => "panic-reset"@,
        }
    }

    /// The crate that provides the handler.
    pub fn str(&self) -> (r: &'static str)
        ensures
            r@ == self.crate_spec(),
    {
        match self {
            PanicHandler::Halt => "panic-halt",
            PanicHandler::Reset => "panic-reset",
        }
    }
}

/// The supported wireless stacks.
#[derive(Clone, Copy, Debug, PartialEq, Eq, Structural)]
pub enum Softdevice {
    S112,
    S113,
    S122,
    S132,
    S140,
}

impl Softdevice {
    pub open spec fn package_spec(&self) -> Seq<char> {
        match self {
            Softdevice::S112 => "s112"@,
            Softdevice::S113 => "s113"@,
            Softdevice::S122 => "s122"@,
            Softdevice::S132 => "s132"@,
            Softdevice::S140 => "s140"@,
        }
    }

    /// The stack's package identifier.
    pub fn str(&self) -> (r: &'static str)
        ensures
            r@ == self.package_spec(),
    {
        match self {
            Softdevice::S112 => "s112",
            Softdevice::S113 => "s113",
            Softdevice::S122 => "s122",
            Softdevice::S132 => "s132",
            Softdevice::S140 => "s140",
        }
    }
}

/// One dependency to add to the generated manifest.
#[derive(Clone, Debug, PartialEq, Eq)]
pub struct Directive {
    pub crate_name: String,
    pub features: Vec<String>,
    pub optional: bool,
}

pub struct DirectiveView {
    pub crate_name: Seq<char>,
    pub features: Seq<Seq<char>>,
    pub optional: bool,
}

impl View for Directive {
    type V = DirectiveView;

    open spec fn view(&self) -> DirectiveView {
        DirectiveView {
            crate_name: self.crate_name@,
            features: strings_view(self.features@),
            optional: self.optional,
        }
    }
}

/// The arguments of the package-manager call that adds `d`.
pub open spec fn cargo_add_args_spec(d: DirectiveView) -> Seq<Seq<char>> {
    seq!["add"@, d.crate_name, "--features="@ + join_spec(d.features, ","@)] + if d.optional {
        seq!["--optional"@]
    } else {
        seq![]
    }
}

impl Directive {
    /// The arguments of the package-manager call that adds this dependency.
    pub fn cargo_add_args(&self) -> (r: Vec<String>)
        ensures
            strings_view(r@) == cargo_add_args_spec(self@),
    {
        let features = String::from_str("--features=").concat(join(&self.features, ",").as_str());
        let mut r = vec![String::from_str("add"), self.crate_name.clone(), features];
        if self.optional {
            r.push(String::from_str("--optional"));
        }
        assert(strings_view(r@) =~= cargo_add_args_spec(self@));
        r
    }
}

pub open spec fn dv(crate_name: Seq<char>, features: Seq<Seq<char>>, optional: bool) -> DirectiveView {
    DirectiveView { crate_name, features, optional }
}

/// The entry-point source variants.
#[derive(Clone, Copy, Debug, PartialEq, Eq, Structural)]
pub enum MainTemplate {
    Stm32,
    Nrf,
    NrfSoftdevice,
}

/// The build-script and memory-layout variants, chosen by family alone.
#[derive(Clone, Copy, Debug, PartialEq, Eq, Structural)]
pub enum FamilyTemplate {
    Stm32,
    Nrf,
}

/// What is appended to the generated manifest after the dependencies.
#[derive(Clone, Copy, Debug, PartialEq, Eq, Structural)]
pub enum ManifestTail {
    /// The plain tail, which names the family.
    Plain,
    /// The tail for a project with a wireless stack.
    Softdevice,
}

/// Everything derived from a chip and the user's choices.
#[derive(Clone, Debug, PartialEq, Eq)]
pub struct BuildPlan {
    pub directives: Vec<Directive>,
    pub main_template: MainTemplate,
    pub build_template: FamilyTemplate,
    pub manifest_tail: ManifestTail,
    /// The layout to write out; present for NRF parts only.
    pub memory_layout: Option<MemRegion>,
}

pub struct BuildPlanView {
    pub directives: Seq<DirectiveView>,
    pub main_template: MainTemplate,
    pub build_template: FamilyTemplate,
    pub manifest_tail: ManifestTail,
    pub memory_layout: Option<MemRegion>,
}

pub open spec fn directives_view(ds: Seq<Directive>) -> Seq<DirectiveView> {
    ds.map_values(|d: Directive| d@)
}

impl View for BuildPlan {
    type V = BuildPlanView;

    open spec fn view(&self) -> BuildPlanView {
        BuildPlanView {
            directives: directives_view(self.directives@),
            main_template: self.main_template,
            build_template: self.build_template,
            manifest_tail: self.manifest_tail,
            memory_layout: self.memory_layout,
        }
    }
}

/// Why no plan could be derived.
#[derive(Clone, Debug, PartialEq, Eq)]
pub enum ConfigError {
    /// A wireless stack was requested for a chip outside the NRF family.
    IncompatibleSoftdevice { chip: String, softdevice: Softdevice },
}

pub enum ConfigFailure {
    IncompatibleSoftdevice(Seq<char>, Softdevice),
}

impl View for ConfigError {
    type V = ConfigFailure;

    open spec fn view(&self) -> ConfigFailure {
        match self {
            ConfigError::IncompatibleSoftdevice { chip, softdevice } =>
                ConfigFailure::IncompatibleSoftdevice(chip@, *softdevice),
        }
    }
}

/// The async runtime layer.
pub open spec fn runtime_directives() -> Seq<DirectiveView> {
    seq![
        dv("embassy-executor"@, seq!["arch-cortex-m"@, "executor-thread"@, "integrated-timers"@], false),
        dv("embassy-sync"@, seq![], false),
        dv("embassy-futures"@, seq![], false),
        dv("embassy-time"@, seq!["tick-hz-32_768"@], false),
    ]
}

/// The family's hardware-abstraction layer, with the chip's name as a feature.
pub open spec fn hal_directive(name: Seq<char>, family: Family) -> DirectiveView {
    match family {
        Family::STM32 => dv(
            "embassy-stm32"@,
            seq!["memory-x"@, name, "time-driver-any"@, "exti"@, "unstable-pac"@],
            false,
        ),
        Family::NRF(_) => dv("embassy-nrf"@, seq![name, "gpiote"@, "time-driver-rtc1"@], false),
    }
}

/// The wireless stack and its helper crate, when one is requested.
pub open spec fn softdevice_directives(name: Seq<char>, softdevice: Option<Softdevice>) -> Seq<DirectiveView> {
    match softdevice {
        None => seq![],
        Some(s) => seq![
            dv(
                "nrf-softdevice"@,
                seq![name, s.package_spec(), "ble-peripheral"@, "ble-gatt-server"@, "critical-section-impl"@],
                false,
            ),
            dv("nrf-softdevice-"@ + s.package_spec(), seq![], false),
        ],
    }
}

/// Architecture and runtime support, diagnostics, and the panic handler.
pub open spec fn support_directives(has_softdevice: bool, panic_handler: PanicHandler) -> Seq<DirectiveView> {
    seq![
        dv(
            "cortex-m"@,
            if has_softdevice { seq!["inline-asm"@] } else { seq!["inline-asm"@, "critical-section-single-core"@] },
            false,
        ),
        dv("cortex-m-rt"@, seq![], false),
        dv("defmt"@, seq![], true),
        dv("defmt-rtt"@, seq![], true),
        dv("panic-probe"@, seq!["print-defmt"@], true),
        dv(panic_handler.crate_spec(), seq![], false),
    ]
}

/// The directives of a plan, in order.
pub open spec fn plan_directives(
    chip: ChipView,
    panic_handler: PanicHandler,
    softdevice: Option<Softdevice>,
) -> Seq<DirectiveView> {
    runtime_directives() + seq![hal_directive(chip.name, chip.family)] + softdevice_directives(
        chip.name,
        softdevice,
    ) + support_directives(softdevice is Some, panic_handler)
}

pub open spec fn main_template_for(family: Family, softdevice: Option<Softdevice>) -> MainTemplate {
    match family {
        Family::STM32 => MainTemplate::Stm32,
        Family::NRF(_) => if softdevice is Some {
            MainTemplate::NrfSoftdevice
        } else {
            MainTemplate::Nrf
        },
    }
}

pub open spec fn family_template_for(family: Family) -> FamilyTemplate {
    match family {
        Family::STM32 => FamilyTemplate::Stm32,
        Family::NRF(_) => FamilyTemplate::Nrf,
    }
}

pub open spec fn memory_layout_for(family: Family) -> Option<MemRegion> {
    match family {
        Family::STM32 => None,
        Family::NRF(m) => Some(m),
    }
}

/// What derivation yields for a chip, a panic handler and an optional
/// wireless stack.
pub open spec fn derive_spec(
    chip: ChipView,
    panic_handler: PanicHandler,
    softdevice: Option<Softdevice>,
) -> Result<BuildPlanView, ConfigFailure> {
    if softdevice is Some && !(chip.family is NRF) {
        Err(ConfigFailure::IncompatibleSoftdevice(chip.name, softdevice->Some_0))
    } else {
        Ok(
            BuildPlanView {
                directives: plan_directives(chip, panic_handler, softdevice),
                main_template: main_template_for(chip.family, softdevice),
                build_template: family_template_for(chip.family),
                manifest_tail: if softdevice is Some {
                    ManifestTail::Softdevice
                } else {
                    ManifestTail::Plain
                },
                memory_layout: memory_layout_for(chip.family),
            },
        )
    }
}

pub open spec fn plan_result_view(r: Result<BuildPlan, ConfigError>) -> Result<BuildPlanView, ConfigFailure> {
    match r {
        Ok(p) => Ok(p@),
        Err(e) => Err(e@),
    }
}

fn owned(s: &str) -> (r: String)
    ensures
        r@ == s@,
{
    String::from_str(s)
}

fn features0() -> (r: Vec<String>)
    ensures
        strings_view(r@) == Seq::<Seq<char>>::empty(),
{
    let r: Vec<String> = Vec::new();
    assert(strings_view(r@) =~= Seq::<Seq<char>>::empty());
    r
}

fn features1(a: &str) -> (r: Vec<String>)
    ensures
        strings_view(r@) == seq![a@],
{
    let r = vec![owned(a)];
    assert(strings_view(r@) =~= seq![a@]);
    r
}

fn features2(a: &str, b: &str) -> (r: Vec<String>)
    ensures
        strings_view(r@) == seq![a@, b@],
{
    let r = vec![owned(a), owned(b)];
    assert(strings_view(r@) =~= seq![a@, b@]);
    r
}

fn features3(a: &str, b: &str, c: &str) -> (r: Vec<String>)
    ensures
        strings_view(r@) == seq![a@, b@, c@],
{
    let r = vec![owned(a), owned(b), owned(c)];
    assert(strings_view(r@) =~= seq![a@, b@, c@]);
    r
}

fn features5(a: &str, b: &str, c: &str, d: &str, e: &str) -> (r: Vec<String>)
    ensures
        strings_view(r@) == seq![a@, b@, c@, d@, e@],
{
    let r = vec![owned(a), owned(b), owned(c), owned(d), owned(e)];
    assert(strings_view(r@) =~= seq![a@, b@, c@, d@, e@]);
    r
}

fn directive(crate_name: String, features: Vec<String>, optional: bool) -> (r: Directive)
    ensures
        r@ == dv(crate_name@, strings_view(features@), optional),
{
    Directive { crate_name, features, optional }
}

/// Appends `d` to `ds`.
fn push_directive(ds: &mut Vec<Directive>, d: Directive)
    ensures
        directives_view(final(ds)@) == directives_view(old(ds)@).push(d@),
{
    let ghost before = ds@;
    ds.push(d);
    assert(directives_view(ds@) =~= directives_view(before).push(d@));
}

fn runtime_layer(ds: &mut Vec<Directive>)
    ensures
        directives_view(final(ds)@) == directives_view(old(ds)@) + runtime_directives(),
{
    let ghost before = directives_view(ds@);
    push_directive(
        ds,
        directive(owned("embassy-executor"), features3("arch-cortex-m", "executor-thread", "integrated-timers"), false),
    );
    push_directive(ds, directive(owned("embassy-sync"), features0(), false));
    push_directive(ds, directive(owned("embassy-futures"), features0(), false));
    push_directive(ds, directive(owned("embassy-time"), features1("tick-hz-32_768"), false));
    assert(directives_view(ds@) =~= before + runtime_directives());
}

fn hal_layer(ds: &mut Vec<Directive>, chip: &Chip)
    ensures
        directives_view(final(ds)@) == directives_view(old(ds)@).push(hal_directive(chip.name@, chip.family)),
{
    let name = chip.name.as_str();
    match chip.family {
        Family::STM32 => push_directive(
            ds,
            directive(
                owned("embassy-stm32"),
                features5("memory-x", name, "time-driver-any", "exti", "unstable-pac"),
                false,
            ),
        ),
        Family::NRF(_) => push_directive(
            ds,
            directive(owned("embassy-nrf"), features3(name, "gpiote", "time-driver-rtc1"), false),
        ),
    }
}

fn softdevice_layer(ds: &mut Vec<Directive>, chip: &Chip, softdevice: Option<Softdevice>)
    ensures
        directives_view(final(ds)@) == directives_view(old(ds)@) + softdevice_directives(chip.name@, softdevice),
{
    let ghost before = directives_view(ds@);
    match softdevice {
        None => {
            assert(directives_view(ds@) =~= before + softdevice_directives(chip.name@, softdevice));
        },
        Some(s) => {
            let package = s.str();
            let features = features5(
                chip.name.as_str(),
                package,
                "ble-peripheral",
                "ble-gatt-server",
                "critical-section-impl",
            );
            push_directive(ds, directive(owned("nrf-softdevice"), features, false));
            let helper = owned("nrf-softdevice-").concat(package);
            push_directive(ds, directive(helper, features0(), false));
            assert(directives_view(ds@) =~= before + softdevice_directives(chip.name@, softdevice));
        },
    }
}

fn support_layer(ds: &mut Vec<Directive>, has_softdevice: bool, panic_handler: PanicHandler)
    ensures
        directives_view(final(ds)@) == directives_view(old(ds)@) + support_directives(
            has_softdevice,
            panic_handler,
        ),
{
    let ghost before = directives_view(ds@);
    let core_features = if has_softdevice {
        features1("inline-asm")
    } else {
        features2("inline-asm", "critical-section-single-core")
    };
    push_directive(ds, directive(owned("cortex-m"), core_features, false));
    push_directive(ds, directive(owned("cortex-m-rt"), features0(), false));
    push_directive(ds, directive(owned("defmt"), features0(), true));
    push_directive(ds, directive(owned("defmt-rtt"), features0(), true));
    push_directive(ds, directive(owned("panic-probe"), features1("print-defmt"), true));
    push_directive(ds, directive(owned(panic_handler.str()), features0(), false));
    assert(directives_view(ds@) =~= before + support_directives(has_softdevice, panic_handler));
}

/// Derives the build plan for `chip`. A wireless stack is refused, before
/// anything is derived, unless the chip is an NRF part.
pub fn derive_plan(chip: &Chip, panic_handler: PanicHandler, softdevice: Option<Softdevice>) -> (r: Result<
    BuildPlan,
    ConfigError,
>)
    ensures
        plan_result_view(r) == derive_spec(chip@, panic_handler, softdevice),
{
    let is_nrf = chip.family.is_nrf();
    if let Some(s) = softdevice {
        if !is_nrf {
            return Err(ConfigError::IncompatibleSoftdevice { chip: chip.name.clone(), softdevice: s });
        }
    }
    let mut ds: Vec<Directive> = Vec::new();
    runtime_layer(&mut ds);
    hal_layer(&mut ds, chip);
    softdevice_layer(&mut ds, chip, softdevice);
    support_layer(&mut ds, softdevice.is_some(), panic_handler);
    assert(directives_view(ds@) =~= plan_directives(chip@, panic_handler, softdevice));
    let main_template = match chip.family {
        Family::STM32 => MainTemplate::Stm32,
        Family::NRF(_) => if softdevice.is_some() {
            MainTemplate::NrfSoftdevice
        } else {
            MainTemplate::Nrf
        },
    };
    let (build_template, memory_layout) = match chip.family {
        Family::STM32 => (FamilyTemplate::Stm32, None),
        Family::NRF(m) => (FamilyTemplate::Nrf, Some(m)),
    };
    let manifest_tail = if softdevice.is_some() {
        ManifestTail::Softdevice
    } else {
        ManifestTail::Plain
    };
    Ok(BuildPlan { directives: ds, main_template, build_template, manifest_tail, memory_layout })
}

/// A wireless stack is refused exactly for chips outside the NRF family, and
/// the refusal names the chip and the stack.
pub proof fn softdevice_needs_nrf(chip: ChipView, panic_handler: PanicHandler, softdevice: Softdevice)
    ensures
        (derive_spec(chip, panic_handler, Some(softdevice)) is Err) <==> !(chip.family is NRF),
        !(chip.family is NRF) ==> derive_spec(chip, panic_handler, Some(softdevice)) == Err::<
            BuildPlanView,
            ConfigFailure,
        >(ConfigFailure::IncompatibleSoftdevice(chip.name, softdevice)),
{
}

/// On an NRF chip with a wireless stack, the hardware-abstraction directive
/// comes strictly before the wireless-stack directive.
pub proof fn hal_precedes_wireless_stack(chip: ChipView, panic_handler: PanicHandler, softdevice: Softdevice)
    requires
        chip.family is NRF,
    ensures
        derive_spec(chip, panic_handler, Some(softdevice)) is Ok,
        ({
            let ds = derive_spec(chip, panic_handler, Some(softdevice))->Ok_0.directives;
            exists|i: int, j: int|
                0 <= i < j < ds.len() && #[trigger] ds[i].crate_name == "embassy-nrf"@
                    && #[trigger] ds[j].crate_name == "nrf-softdevice"@ && ds[i].features[0]
                    == chip.name && ds[j].features[0] == chip.name
        }),
{
    let ds = derive_spec(chip, panic_handler, Some(softdevice))->Ok_0.directives;
    assert(ds[4] == hal_directive(chip.name, chip.family));
    assert(ds[5].crate_name == "nrf-softdevice"@);
    assert(ds[4].crate_name == "embassy-nrf"@);
}

/// Derivation holds no hidden state: equal inputs give equal plans.
pub proof fn derivation_is_deterministic(
    a: ChipView,
    b: ChipView,
    panic_handler: PanicHandler,
    softdevice: Option<Softdevice>,
)
    requires
        a == b,
    ensures
        derive_spec(a, panic_handler, softdevice) == derive_spec(b, panic_handler, softdevice),
{
}

} // verus!
