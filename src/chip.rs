//! The chip descriptor and the resolver that classifies a user-typed chip
//! name into a silicon family and a toolchain target.
use crate::text::{
    dashes_to_underscores, has_prefix, lower_of, lowercase, replace_dashes, starts_with, strings_view,
};
use vstd::prelude::*;

verus! {

/// A flash/RAM address range pair, in the chip's native addressing unit.
#[derive(Clone, Copy, Debug, PartialEq, Eq, Structural)]
pub struct MemRegion {
    pub flash_origin: usize,
    pub flash_length: usize,
    pub ram_origin: usize,
    pub ram_length: usize,
}

impl MemRegion {
    /// The region that resolution leaves in place: nothing is populated yet.
    pub open spec fn unset_spec() -> MemRegion {
        MemRegion { flash_origin: 0, flash_length: 0, ram_origin: 0, ram_length: 0 }
    }

    pub fn unset() -> (r: MemRegion)
        ensures
            r == MemRegion::unset_spec(),
    {
        MemRegion { flash_origin: 0, flash_length: 0, ram_origin: 0, ram_length: 0 }
    }

    pub open spec fn is_unset(&self) -> bool {
        *self == MemRegion::unset_spec()
    }
}

/// The supported silicon families. Only NRF parts carry a memory layout that
/// the user configures; STM32 parts take theirs from the toolchain.
#[derive(Clone, Copy, Debug, PartialEq, Eq, Structural)]
pub enum Family {
    STM32,
    NRF(MemRegion),
}

impl Family {
    pub open spec fn is_nrf_spec(&self) -> bool {
        self is NRF
    }

    pub fn is_nrf(&self) -> (r: bool)
        ensures
            r == self.is_nrf_spec(),
    {
        match self {
            Family::STM32 => false,
            Family::NRF(_) => true,
        }
    }

    /// The family's name as the generated manifest spells it.
    pub fn name(&self) -> (r: &'static str)
        ensures
            r@ == (if self is NRF { "nrf"@ } else { "stm32"@ }),
    {
        match self {
            Family::STM32 => "stm32",
            Family::NRF(_) => "nrf",
        }
    }
}

/// The toolchain compilation target of a chip's core.
#[derive(Clone, Copy, Debug, PartialEq, Eq, Structural)]
pub enum Target {
    /// Cortex-M0 and M0+.
    Thumbv6m,
    /// Cortex-M3.
    Thumbv7m,
    /// Cortex-M4 without a floating-point unit.
    Thumbv7em,
    /// Cortex-M4F and M7.
    Thumbv7emHf,
    /// Cortex-M33 with a floating-point unit.
    Thumbv8mMainHf,
}

impl Target {
    pub open spec fn triple_spec(&self) -> Seq<char> {
        match self {
            Target::Thumbv6m => "thumbv6m-none-eabi"@,
            Target::Thumbv7m => "thumbv7m-none-eabi"@,
            Target::Thumbv7em => "thumbv7em-none-eabi"@,
            Target::Thumbv7emHf => "thumbv7em-none-eabihf"@,
            Target::Thumbv8mMainHf => "thumbv8m.main-none-eabihf"@,
        }
    }

    /// The target triple handed to the toolchain.
    pub fn triple(&self) -> (r: &'static str)
        ensures
            r@ == self.triple_spec(),
    {
        match self {
            Target::Thumbv6m => "thumbv6m-none-eabi",
            Target::Thumbv7m => "thumbv7m-none-eabi",
            Target::Thumbv7em => "thumbv7em-none-eabi",
            Target::Thumbv7emHf => "thumbv7em-none-eabihf",
            Target::Thumbv8mMainHf => "thumbv8m.main-none-eabihf",
        }
    }
}

/// A resolved chip: its normalized name, family and target.
#[derive(Clone, Debug, PartialEq, Eq)]
pub struct Chip {
    pub name: String,
    pub family: Family,
    pub target: Target,
}

impl Chip {
    /// Gives an NRF chip the memory layout that the user supplied; an STM32
    /// chip takes its layout from the toolchain and is left as it is.
    pub fn with_memory_region(self, region: MemRegion) -> (r: Chip)
        ensures
            r@ == with_memory_spec(self@, region),
    {
        match self.family {
            Family::STM32 => self,
            Family::NRF(_) => Chip { name: self.name, family: Family::NRF(region), target: self.target },
        }
    }
}

pub open spec fn with_memory_spec(c: ChipView, region: MemRegion) -> ChipView {
    match c.family {
        Family::STM32 => c,
        Family::NRF(_) => ChipView { name: c.name, family: Family::NRF(region), target: c.target },
    }
}

/// The abstract value of a chip.
pub struct ChipView {
    pub name: Seq<char>,
    pub family: Family,
    pub target: Target,
}

impl View for Chip {
    type V = ChipView;

    open spec fn view(&self) -> ChipView {
        ChipView { name: self.name@, family: self.family, target: self.target }
    }
}

/// Why a chip name could not be resolved; each carries the normalized name.
#[derive(Clone, Debug, PartialEq, Eq)]
pub enum ClassificationError {
    /// The chip database knows no chip of that name.
    UnknownChip(String),
    /// The chip is known but belongs to no supported family.
    UnclassifiedFamily(String),
    /// The family is known but the chip's core is not.
    UnresolvedTarget(String),
}

/// The abstract value of a classification error.
pub enum ClassificationFailure {
    UnknownChip(Seq<char>),
    UnclassifiedFamily(Seq<char>),
    UnresolvedTarget(Seq<char>),
}

impl View for ClassificationError {
    type V = ClassificationFailure;

    open spec fn view(&self) -> ClassificationFailure {
        match self {
            ClassificationError::UnknownChip(s) => ClassificationFailure::UnknownChip(s@),
            ClassificationError::UnclassifiedFamily(s) => ClassificationFailure::UnclassifiedFamily(s@),
            ClassificationError::UnresolvedTarget(s) => ClassificationFailure::UnresolvedTarget(s@),
        }
    }
}

/// An entry of a core table: identifiers that begin with `prefix` integrate
/// a core compiled for `target`.
pub struct CoreRule {
    pub prefix: &'static str,
    pub target: Target,
}

pub open spec fn rules_view(rules: Seq<CoreRule>) -> Seq<(Seq<char>, Target)> {
    rules.map_values(|r: CoreRule| (r.prefix@, r.target))
}

/// The STM32 series and their cores, most specific prefix first.
pub open spec fn stm32_core_table() -> Seq<(Seq<char>, Target)> {
    seq![
        ("stm32c0"@, Target::Thumbv6m),
        ("stm32f0"@, Target::Thumbv6m),
        ("stm32g0"@, Target::Thumbv6m),
        ("stm32l0"@, Target::Thumbv6m),
        ("stm32u0"@, Target::Thumbv6m),
        ("stm32f1"@, Target::Thumbv7m),
        ("stm32f2"@, Target::Thumbv7m),
        ("stm32l1"@, Target::Thumbv7m),
        ("stm32f3"@, Target::Thumbv7emHf),
        ("stm32f4"@, Target::Thumbv7emHf),
        ("stm32f7"@, Target::Thumbv7emHf),
        ("stm32g4"@, Target::Thumbv7emHf),
        ("stm32h7"@, Target::Thumbv7emHf),
        ("stm32l4"@, Target::Thumbv7emHf),
        ("stm32wba"@, Target::Thumbv8mMainHf),
        ("stm32wb"@, Target::Thumbv7emHf),
        ("stm32wl"@, Target::Thumbv7em),
        ("stm32h5"@, Target::Thumbv8mMainHf),
        ("stm32l5"@, Target::Thumbv8mMainHf),
        ("stm32u5"@, Target::Thumbv8mMainHf),
    ]
}

/// The nRF parts and their cores.
pub open spec fn nrf_core_table() -> Seq<(Seq<char>, Target)> {
    seq![
        ("nrf51"@, Target::Thumbv6m),
        ("nrf52805"@, Target::Thumbv7em),
        ("nrf52810"@, Target::Thumbv7em),
        ("nrf52811"@, Target::Thumbv7em),
        ("nrf52820"@, Target::Thumbv7em),
        ("nrf52832"@, Target::Thumbv7emHf),
        ("nrf52833"@, Target::Thumbv7emHf),
        ("nrf52840"@, Target::Thumbv7emHf),
        ("nrf5340"@, Target::Thumbv8mMainHf),
        ("nrf9160"@, Target::Thumbv8mMainHf),
    ]
}

fn stm32_cores() -> (r: Vec<CoreRule>)
    ensures
        rules_view(r@) == stm32_core_table(),
{
    let r = vec![
        CoreRule { prefix: "stm32c0", target: Target::Thumbv6m },
        CoreRule { prefix: "stm32f0", target: Target::Thumbv6m },
        CoreRule { prefix: "stm32g0", target: Target::Thumbv6m },
        CoreRule { prefix: "stm32l0", target: Target::Thumbv6m },
        CoreRule { prefix: "stm32u0", target: Target::Thumbv6m },
        CoreRule { prefix: "stm32f1", target: Target::Thumbv7m },
        CoreRule { prefix: "stm32f2", target: Target::Thumbv7m },
        CoreRule { prefix: "stm32l1", target: Target::Thumbv7m },
        CoreRule { prefix: "stm32f3", target: Target::Thumbv7emHf },
        CoreRule { prefix: "stm32f4", target: Target::Thumbv7emHf },
        CoreRule { prefix: "stm32f7", target: Target::Thumbv7emHf },
        CoreRule { prefix: "stm32g4", target: Target::Thumbv7emHf },
        CoreRule { prefix: "stm32h7", target: Target::Thumbv7emHf },
        CoreRule { prefix: "stm32l4", target: Target::Thumbv7emHf },
        CoreRule { prefix: "stm32wba", target: Target::Thumbv8mMainHf },
        CoreRule { prefix: "stm32wb", target: Target::Thumbv7emHf },
        CoreRule { prefix: "stm32wl", target: Target::Thumbv7em },
        CoreRule { prefix: "stm32h5", target: Target::Thumbv8mMainHf },
        CoreRule { prefix: "stm32l5", target: Target::Thumbv8mMainHf },
        CoreRule { prefix: "stm32u5", target: Target::Thumbv8mMainHf },
    ];
    assert(rules_view(r@) =~= stm32_core_table());
    r
}

fn nrf_cores() -> (r: Vec<CoreRule>)
    ensures
        rules_view(r@) == nrf_core_table(),
{
    let r = vec![
        CoreRule { prefix: "nrf51", target: Target::Thumbv6m },
        CoreRule { prefix: "nrf52805", target: Target::Thumbv7em },
        CoreRule { prefix: "nrf52810", target: Target::Thumbv7em },
        CoreRule { prefix: "nrf52811", target: Target::Thumbv7em },
        CoreRule { prefix: "nrf52820", target: Target::Thumbv7em },
        CoreRule { prefix: "nrf52832", target: Target::Thumbv7emHf },
        CoreRule { prefix: "nrf52833", target: Target::Thumbv7emHf },
        CoreRule { prefix: "nrf52840", target: Target::Thumbv7emHf },
        CoreRule { prefix: "nrf5340", target: Target::Thumbv8mMainHf },
        CoreRule { prefix: "nrf9160", target: Target::Thumbv8mMainHf },
    ];
    assert(rules_view(r@) =~= nrf_core_table());
    r
}

/// The target of the first rule at or after `i` whose prefix `id` carries.
pub open spec fn first_core_from(rules: Seq<(Seq<char>, Target)>, id: Seq<char>, i: int) -> Option<Target>
    decreases rules.len() - i,
{
    if i < 0 || i >= rules.len() {
        None
    } else if has_prefix(id, rules[i].0) {
        Some(rules[i].1)
    } else {
        first_core_from(rules, id, i + 1)
    }
}

/// The target of the first rule of the table whose prefix `id` carries.
pub open spec fn core_target(rules: Seq<(Seq<char>, Target)>, id: Seq<char>) -> Option<Target> {
    first_core_from(rules, id, 0)
}

fn find_core(rules: &Vec<CoreRule>, id: &str) -> (r: Option<Target>)
    ensures
        r == core_target(rules_view(rules@), id@),
{
    let ghost table = rules_view(rules@);
    let mut i: usize = 0;
    while i < rules.len()
        invariant
            table == rules_view(rules@),
            i <= rules@.len(),
            core_target(table, id@) == first_core_from(table, id@, i as int),
        decreases rules@.len() - i,
    {
        let rule = &rules[i];
        if starts_with(id, rule.prefix) {
            return Some(rule.target);
        }
        i = i + 1;
    }
    None
}

/// What classification of a case-folded canonical identifier yields.
pub open spec fn classify_spec(name: Seq<char>, id: Seq<char>) -> Result<ChipView, ClassificationFailure> {
    if has_prefix(id, "stm32"@) {
        match core_target(stm32_core_table(), id) {
            Some(t) => Ok(ChipView { name, family: Family::STM32, target: t }),
            None => Err(ClassificationFailure::UnresolvedTarget(name)),
        }
    } else if has_prefix(id, "nrf"@) {
        match core_target(nrf_core_table(), id) {
            Some(t) => Ok(ChipView { name, family: Family::NRF(MemRegion::unset_spec()), target: t }),
            None => Err(ClassificationFailure::UnresolvedTarget(name)),
        }
    } else {
        Err(ClassificationFailure::UnclassifiedFamily(name))
    }
}

pub open spec fn result_view(r: Result<Chip, ClassificationError>) -> Result<ChipView, ClassificationFailure> {
    match r {
        Ok(c) => Ok(c@),
        Err(e) => Err(e@),
    }
}

/// Classifies the case-folded canonical identifier `id` of the chip that the
/// user named `name`: its family by prefix, its target by the family's core
/// table.
pub fn classify(name: String, id: &str) -> (r: Result<Chip, ClassificationError>)
    ensures
        result_view(r) == classify_spec(name@, id@),
{
    if starts_with(id, "stm32") {
        match find_core(&stm32_cores(), id) {
            Some(target) => Ok(Chip { name, family: Family::STM32, target }),
            None => Err(ClassificationError::UnresolvedTarget(name)),
        }
    } else if starts_with(id, "nrf") {
        match find_core(&nrf_cores(), id) {
            Some(target) => Ok(Chip { name, family: Family::NRF(MemRegion::unset()), target }),
            None => Err(ClassificationError::UnresolvedTarget(name)),
        }
    } else {
        Err(ClassificationError::UnclassifiedFamily(name))
    }
}

/// The canonical form of a user-typed chip name: hyphens become underscores,
/// then the name is case folded.
pub open spec fn normalize_spec(raw: Seq<char>) -> Seq<char> {
    lower_of(dashes_to_underscores(raw))
}

pub fn normalize_chip_name(raw: &str) -> (r: String)
    ensures
        r@ == normalize_spec(raw@),
{
    let dashed = replace_dashes(raw);
    lowercase(dashed.as_str())
}

/// What resolution yields for a raw name, given the canonical identifiers
/// that the chip database returned for its normalized form.
pub open spec fn resolve_spec(raw: Seq<char>, candidates: Seq<Seq<char>>) -> Result<ChipView, ClassificationFailure> {
    let name = normalize_spec(raw);
    if candidates.len() == 0 {
        Err(ClassificationFailure::UnknownChip(name))
    } else {
        classify_spec(name, lower_of(candidates[0]))
    }
}

/// Resolves a raw chip name against the candidates that the chip database
/// returned for it; the first candidate is authoritative.
pub fn resolve(raw_name: &str, candidates: &Vec<String>) -> (r: Result<Chip, ClassificationError>)
    ensures
        result_view(r) == resolve_spec(raw_name@, strings_view(candidates@)),
{
    let name = normalize_chip_name(raw_name);
    if candidates.len() == 0 {
        return Err(ClassificationError::UnknownChip(name));
    }
    let canonical = lowercase(candidates[0].as_str());
    classify(name, canonical.as_str())
}

/// When rule `k` matches `id`, the lookup from `i` finds a matching rule no
/// later than `k`.
proof fn lemma_core_found(rules: Seq<(Seq<char>, Target)>, id: Seq<char>, i: int, k: int)
    requires
        0 <= i <= k < rules.len(),
        has_prefix(id, rules[k].0),
    ensures
        exists|j: int|
            i <= j <= k && has_prefix(id, #[trigger] rules[j].0) && first_core_from(rules, id, i) == Some(
                rules[j].1,
            ),
    decreases k - i,
{
    if has_prefix(id, rules[i].0) {
        assert(first_core_from(rules, id, i) == Some(rules[i].1));
    } else {
        lemma_core_found(rules, id, i + 1, k);
    }
}

/// An identifier of the STM32 family whose series the core table lists
/// resolves to the STM32 family, keeps the normalized name, and gets the
/// target of a table entry whose prefix the identifier carries.
pub proof fn stm32_resolution(raw: Seq<char>, candidates: Seq<Seq<char>>, k: int)
    requires
        candidates.len() > 0,
        has_prefix(lower_of(candidates[0]), "stm32"@),
        0 <= k < stm32_core_table().len(),
        has_prefix(lower_of(candidates[0]), stm32_core_table()[k].0),
    ensures
        resolve_spec(raw, candidates) is Ok,
        resolve_spec(raw, candidates)->Ok_0.family == Family::STM32,
        resolve_spec(raw, candidates)->Ok_0.name == normalize_spec(raw),
        exists|j: int|
            0 <= j < stm32_core_table().len() && has_prefix(
                lower_of(candidates[0]),
                #[trigger] stm32_core_table()[j].0,
            ) && resolve_spec(raw, candidates)->Ok_0.target == stm32_core_table()[j].1,
{
    lemma_core_found(stm32_core_table(), lower_of(candidates[0]), 0, k);
}

/// An identifier of the NRF family whose part the core table lists resolves
/// to the NRF family with no memory region populated, and gets the target of
/// a table entry whose prefix the identifier carries.
pub proof fn nrf_resolution(raw: Seq<char>, candidates: Seq<Seq<char>>, k: int)
    requires
        candidates.len() > 0,
        !has_prefix(lower_of(candidates[0]), "stm32"@),
        has_prefix(lower_of(candidates[0]), "nrf"@),
        0 <= k < nrf_core_table().len(),
        has_prefix(lower_of(candidates[0]), nrf_core_table()[k].0),
    ensures
        resolve_spec(raw, candidates) is Ok,
        resolve_spec(raw, candidates)->Ok_0.family == Family::NRF(MemRegion::unset_spec()),
        resolve_spec(raw, candidates)->Ok_0.family->NRF_0.is_unset(),
        resolve_spec(raw, candidates)->Ok_0.name == normalize_spec(raw),
        exists|j: int|
            0 <= j < nrf_core_table().len() && has_prefix(
                lower_of(candidates[0]),
                #[trigger] nrf_core_table()[j].0,
            ) && resolve_spec(raw, candidates)->Ok_0.target == nrf_core_table()[j].1,
{
    lemma_core_found(nrf_core_table(), lower_of(candidates[0]), 0, k);
}

/// Resolution depends on the raw name only through its normalized form: two
/// spellings that normalize alike resolve alike against the same candidates.
pub proof fn resolution_depends_on_normalized_name(a: Seq<char>, b: Seq<char>, candidates: Seq<Seq<char>>)
    requires
        normalize_spec(a) == normalize_spec(b),
    ensures
        resolve_spec(a, candidates) == resolve_spec(b, candidates),
{
}

} // verus!
