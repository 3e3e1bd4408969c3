//! The files of a new project: which template each is rendered from, where
//! it goes, and what is substituted into it.
use crate::chip::{Chip, ChipView, Family, MemRegion, Target};
use crate::plan::{BuildPlan, FamilyTemplate, MainTemplate, ManifestTail, PanicHandler};
use vstd::prelude::*;

verus! {

/// The templates a project is rendered from.
#[derive(Clone, Copy, Debug, PartialEq, Eq, Structural)]
pub enum TemplateKey {
    CargoConfig,
    Toolchain,
    Embed,
    BuildStm32,
    BuildNrf,
    Manifest,
    ManifestFeaturePatch,
    ManifestTail,
    ManifestTailSoftdevice,
    Fmt,
    MainStm32,
    MainNrf,
    MainNrfSoftdevice,
    MemoryLayout,
}

impl TemplateKey {
    pub open spec fn file_spec(&self) -> Seq<char> {
        match self {
            TemplateKey::CargoConfig => "config.toml.template"@,
            TemplateKey::Toolchain => "rust-toolchain.toml.template"@,
            TemplateKey::Embed => "Embed.toml.template"@,
            TemplateKey::BuildStm32 => "build.rs.stm32.template"@,
            TemplateKey::BuildNrf => "build.rs.nrf.template"@,
            TemplateKey::Manifest => "Cargo.toml.template"@,
            TemplateKey::ManifestFeaturePatch => "Cargo.toml.feature-patch.template"@,
            TemplateKey::ManifestTail => "Cargo.toml.append"@,
            TemplateKey::ManifestTailSoftdevice => "Cargo.toml.sd.append"@,
            TemplateKey::Fmt => "fmt.rs.template"@,
            TemplateKey::MainStm32 => "main.rs.stm32.template"@,
            TemplateKey::MainNrf => "main.rs.nrf.template"@,
            TemplateKey::MainNrfSoftdevice => "main.rs.nrf.sd.template"@,
            TemplateKey::MemoryLayout => "memory.x.template"@,
        }
    }

    /// The name under which the template is stored.
    pub fn file_name(&self) -> (r: &'static str)
        ensures
            r@ == self.file_spec(),
    {
        match self {
            TemplateKey::CargoConfig => "config.toml.template",
            TemplateKey::Toolchain => "rust-toolchain.toml.template",
            TemplateKey::Embed => "Embed.toml.template",
            TemplateKey::BuildStm32 => "build.rs.stm32.template",
            TemplateKey::BuildNrf => "build.rs.nrf.template",
            TemplateKey::Manifest => "Cargo.toml.template",
            TemplateKey::ManifestFeaturePatch => "Cargo.toml.feature-patch.template",
            TemplateKey::ManifestTail => "Cargo.toml.append",
            TemplateKey::ManifestTailSoftdevice => "Cargo.toml.sd.append",
            TemplateKey::Fmt => "fmt.rs.template",
            TemplateKey::MainStm32 => "main.rs.stm32.template",
            TemplateKey::MainNrf => "main.rs.nrf.template",
            TemplateKey::MainNrfSoftdevice => "main.rs.nrf.sd.template",
            TemplateKey::MemoryLayout => "memory.x.template",
        }
    }
}

/// A file to render: its path, its template, and the `{key}` placeholders
/// to fill with values.
#[derive(Clone, Debug, PartialEq, Eq)]
pub struct Artifact {
    pub path: String,
    pub template: TemplateKey,
    pub substitutions: Vec<(String, String)>,
}

pub struct ArtifactView {
    pub path: Seq<char>,
    pub template: TemplateKey,
    pub substitutions: Seq<(Seq<char>, Seq<char>)>,
}

pub open spec fn pairs_view(v: Seq<(String, String)>) -> Seq<(Seq<char>, Seq<char>)> {
    v.map_values(|p: (String, String)| (p.0@, p.1@))
}

impl View for Artifact {
    type V = ArtifactView;

    open spec fn view(&self) -> ArtifactView {
        ArtifactView {
            path: self.path@,
            template: self.template,
            substitutions: pairs_view(self.substitutions@),
        }
    }
}

pub open spec fn av(
    path: Seq<char>,
    template: TemplateKey,
    substitutions: Seq<(Seq<char>, Seq<char>)>,
) -> ArtifactView {
    ArtifactView { path, template, substitutions }
}

pub open spec fn artifacts_view(v: Seq<Artifact>) -> Seq<ArtifactView> {
    v.map_values(|a: Artifact| a@)
}

/// Snake-case conversion as inflector's `to_snake_case` performs it; it
/// depends on the characters alone.
pub uninterp spec fn snake_case_of(s: Seq<char>) -> Seq<char>;

/// Relies on `inflector::cases::snakecase::to_snake_case`: the snake-case form
/// of `s`, a function of its characters.
#[verifier::external_body]
fn snake_case(s: &str) -> (r: String)
    ensures
        r@ == snake_case_of(s@),
{
    inflector::cases::snakecase::to_snake_case(s)
}

/// The decimal digit `d`.
pub open spec fn digit_spec(d: nat) -> Seq<char> {
    if d == 0 { "0"@ } else if d == 1 { "1"@ } else if d == 2 { "2"@ } else if d == 3 { "3"@ }
    else if d == 4 { "4"@ } else if d == 5 { "5"@ } else if d == 6 { "6"@ } else if d == 7 { "7"@ }
    else if d == 8 { "8"@ } else { "9"@ }
}

/// `n` written in decimal, without leading zeros.
pub open spec fn decimal_spec(n: nat) -> Seq<char>
    decreases n,
{
    if n < 10 {
        digit_spec(n)
    } else {
        decimal_spec(n / 10) + digit_spec(n % 10)
    }
}

fn digit(d: usize) -> (r: &'static str)
    requires
        d < 10,
    ensures
        r@ == digit_spec(d as nat),
{
    match d {
        0 => "0",
        1 => "1",
        2 => "2",
        3 => "3",
        4 => "4",
        5 => "5",
        6 => "6",
        7 => "7",
        8 => "8",
        _ => "9",
    }
}

/// `n` in decimal.
pub fn decimal(n: usize) -> (r: String)
    ensures
        r@ == decimal_spec(n as nat),
    decreases n,
{
    if n < 10 {
        String::from_str(digit(n))
    } else {
        let mut s = decimal(n / 10);
        s.append(digit(n % 10));
        s
    }
}

fn pair(k: &str, v: String) -> (r: (String, String))
    ensures
        r.0@ == k@,
        r.1@ == v@,
{
    (String::from_str(k), v)
}

fn artifact(path: &str, template: TemplateKey, substitutions: Vec<(String, String)>) -> (r: Artifact)
    ensures
        r@ == av(path@, template, pairs_view(substitutions@)),
{
    Artifact { path: String::from_str(path), template, substitutions }
}

fn no_substitutions() -> (r: Vec<(String, String)>)
    ensures
        pairs_view(r@) == Seq::<(Seq<char>, Seq<char>)>::empty(),
{
    let r: Vec<(String, String)> = Vec::new();
    assert(pairs_view(r@) =~= Seq::<(Seq<char>, Seq<char>)>::empty());
    r
}

/// The files written before any dependency is added: the toolchain and
/// probe configuration, the build script and the bare manifest.
pub open spec fn setup_spec(
    project_name: Seq<char>,
    target: Target,
    probe_name: Seq<char>,
    build: FamilyTemplate,
) -> Seq<ArtifactView> {
    seq![
        av(".cargo/config.toml"@, TemplateKey::CargoConfig, seq![("target"@, target.triple_spec()), ("chip"@, probe_name)]),
        av("rust-toolchain.toml"@, TemplateKey::Toolchain, seq![("target"@, target.triple_spec())]),
        av("Embed.toml"@, TemplateKey::Embed, seq![("chip"@, probe_name)]),
        av(
            "build.rs"@,
            if build == FamilyTemplate::Nrf { TemplateKey::BuildNrf } else { TemplateKey::BuildStm32 },
            seq![],
        ),
        av("Cargo.toml"@, TemplateKey::Manifest, seq![("name"@, project_name)]),
    ]
}

/// The files of the project that the setup step writes.
pub fn setup_files(project_name: &str, chip: &Chip, plan: &BuildPlan, probe_name: &str) -> (r: Vec<Artifact>)
    ensures
        artifacts_view(r@) == setup_spec(project_name@, chip.target, probe_name@, plan.build_template),
{
    let triple = chip.target.triple();
    let config = artifact(
        ".cargo/config.toml",
        TemplateKey::CargoConfig,
        vec![pair("target", String::from_str(triple)), pair("chip", String::from_str(probe_name))],
    );
    assert(config@.substitutions =~= seq![("target"@, chip.target.triple_spec()), ("chip"@, probe_name@)]);
    let toolchain = artifact(
        "rust-toolchain.toml",
        TemplateKey::Toolchain,
        vec![pair("target", String::from_str(triple))],
    );
    assert(toolchain@.substitutions =~= seq![("target"@, chip.target.triple_spec())]);
    let embed = artifact("Embed.toml", TemplateKey::Embed, vec![pair("chip", String::from_str(probe_name))]);
    assert(embed@.substitutions =~= seq![("chip"@, probe_name@)]);
    let build_key = match plan.build_template {
        FamilyTemplate::Stm32 => TemplateKey::BuildStm32,
        FamilyTemplate::Nrf => TemplateKey::BuildNrf,
    };
    let build = artifact("build.rs", build_key, no_substitutions());
    let manifest = artifact(
        "Cargo.toml",
        TemplateKey::Manifest,
        vec![pair("name", String::from_str(project_name))],
    );
    assert(manifest@.substitutions =~= seq![("name"@, project_name@)]);
    let r = vec![config, toolchain, embed, build, manifest];
    assert(artifacts_view(r@) =~= setup_spec(project_name@, chip.target, probe_name@, plan.build_template));
    r
}

/// What is appended to the manifest once the dependencies are in.
pub open spec fn manifest_tail_spec(tail: ManifestTail, family: Family) -> ArtifactView {
    match tail {
        ManifestTail::Softdevice => av("Cargo.toml"@, TemplateKey::ManifestTailSoftdevice, seq![]),
        ManifestTail::Plain => av(
            "Cargo.toml"@,
            TemplateKey::ManifestTail,
            seq![("family"@, if family is NRF { "nrf"@ } else { "stm32"@ })],
        ),
    }
}

pub fn manifest_tail(chip: &Chip, plan: &BuildPlan) -> (r: Artifact)
    ensures
        r@ == manifest_tail_spec(plan.manifest_tail, chip.family),
{
    match plan.manifest_tail {
        ManifestTail::Softdevice => artifact("Cargo.toml", TemplateKey::ManifestTailSoftdevice, no_substitutions()),
        ManifestTail::Plain => {
            let subs = vec![pair("family", String::from_str(chip.family.name()))];
            let r = artifact("Cargo.toml", TemplateKey::ManifestTail, subs);
            assert(r@.substitutions =~= seq![
                ("family"@, if chip.family is NRF { "nrf"@ } else { "stm32"@ }),
            ]);
            r
        },
    }
}

/// The memory layout's placeholders, each value in decimal.
pub open spec fn memory_substitutions(m: MemRegion) -> Seq<(Seq<char>, Seq<char>)> {
    seq![
        ("flash_origin"@, decimal_spec(m.flash_origin as nat)),
        ("flash_len"@, decimal_spec(m.flash_length as nat)),
        ("ram_origin"@, decimal_spec(m.ram_origin as nat)),
        ("ram_len"@, decimal_spec(m.ram_length as nat)),
    ]
}

/// The sources written last: the formatting helpers, the entry point, and
/// the memory layout where the plan carries one.
pub open spec fn sources_spec(
    main: MainTemplate,
    handler: Seq<char>,
    memory: Option<MemRegion>,
) -> Seq<ArtifactView> {
    let main_key = match main {
        MainTemplate::Stm32 => TemplateKey::MainStm32,
        MainTemplate::Nrf => TemplateKey::MainNrf,
        MainTemplate::NrfSoftdevice => TemplateKey::MainNrfSoftdevice,
    };
    let base = seq![
        av("src/fmt.rs"@, TemplateKey::Fmt, seq![]),
        av("src/main.rs"@, main_key, seq![("panic_handler"@, handler)]),
    ];
    match memory {
        None => base,
        Some(m) => base.push(av("memory.x"@, TemplateKey::MemoryLayout, memory_substitutions(m))),
    }
}

/// The entry point names the panic handler's crate in snake case.
pub fn source_files(plan: &BuildPlan, panic_handler: PanicHandler) -> (r: Vec<Artifact>)
    ensures
        artifacts_view(r@) == sources_spec(
            plan.main_template,
            snake_case_of(panic_handler.crate_spec()),
            plan.memory_layout,
        ),
{
    let handler = snake_case(panic_handler.str());
    let ghost h = handler@;
    let main_key = match plan.main_template {
        MainTemplate::Stm32 => TemplateKey::MainStm32,
        MainTemplate::Nrf => TemplateKey::MainNrf,
        MainTemplate::NrfSoftdevice => TemplateKey::MainNrfSoftdevice,
    };
    let fmt = artifact("src/fmt.rs", TemplateKey::Fmt, no_substitutions());
    let main = artifact("src/main.rs", main_key, vec![pair("panic_handler", handler)]);
    assert(main@.substitutions =~= seq![("panic_handler"@, h)]);
    let mut r = vec![fmt, main];
    let ghost base = artifacts_view(r@);
    match plan.memory_layout {
        None => {},
        Some(m) => {
            let subs = vec![
                pair("flash_origin", decimal(m.flash_origin)),
                pair("flash_len", decimal(m.flash_length)),
                pair("ram_origin", decimal(m.ram_origin)),
                pair("ram_len", decimal(m.ram_length)),
            ];
            let layout = artifact("memory.x", TemplateKey::MemoryLayout, subs);
            assert(layout@.substitutions =~= memory_substitutions(m));
            r.push(layout);
        },
    }
    assert(artifacts_view(r@) =~= sources_spec(
        plan.main_template,
        snake_case_of(panic_handler.crate_spec()),
        plan.memory_layout,
    ));
    r
}

} // verus!
