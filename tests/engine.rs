use cargo_embassy::artifacts::{decimal, TemplateKey};
use cargo_embassy::chip::{classify, normalize_chip_name, resolve, Chip, ClassificationError, Family, MemRegion, Target};
use cargo_embassy::plan::{derive_plan, ConfigError, FamilyTemplate, MainTemplate, ManifestTail, PanicHandler, Softdevice};
use cargo_embassy::scaffold::{needs_feature_patch, scaffold, EngineError};

fn candidates(names: &[&str]) -> Vec<String> {
    names.iter().map(|s| s.to_string()).collect()
}

fn crate_names(chip: &Chip, panic_handler: PanicHandler, softdevice: Option<Softdevice>) -> Vec<String> {
    derive_plan(chip, panic_handler, softdevice)
        .unwrap()
        .directives
        .iter()
        .map(|d| d.crate_name.clone())
        .collect()
}

const ALL_SOFTDEVICES: [Softdevice; 5] =
    [Softdevice::S112, Softdevice::S113, Softdevice::S122, Softdevice::S132, Softdevice::S140];

#[test]
fn stm32f103c8_resolves_and_derives() {
    let chip = resolve("stm32f103c8", &candidates(&["STM32F103C8"])).unwrap();
    assert_eq!(
        chip,
        Chip { name: "stm32f103c8".to_string(), family: Family::STM32, target: Target::Thumbv7m }
    );
    assert_eq!(chip.target.triple(), "thumbv7m-none-eabi");
    let plan = derive_plan(&chip, PanicHandler::Halt, None).unwrap();
    let hal = plan.directives.iter().find(|d| d.crate_name == "embassy-stm32").unwrap();
    assert!(hal.features.contains(&"stm32f103c8".to_string()));
    assert_eq!(
        hal.features,
        vec!["memory-x", "stm32f103c8", "time-driver-any", "exti", "unstable-pac"]
    );
    assert_eq!(plan.main_template, MainTemplate::Stm32);
    assert_eq!(plan.build_template, FamilyTemplate::Stm32);
    assert_eq!(plan.memory_layout, None);
    assert_eq!(plan.manifest_tail, ManifestTail::Plain);
}

#[test]
fn nrf52840_with_s140() {
    let chip = resolve("nrf52840", &candidates(&["nRF52840_xxAA"])).unwrap();
    assert!(matches!(chip.family, Family::NRF(_)));
    assert_eq!(chip.target, Target::Thumbv7emHf);
    let plan = derive_plan(&chip, PanicHandler::Halt, Some(Softdevice::S140)).unwrap();
    let sd = plan.directives.iter().find(|d| d.crate_name == "nrf-softdevice").unwrap();
    assert!(sd.features.contains(&"nrf52840".to_string()));
    assert!(sd.features.contains(&Softdevice::S140.str().to_string()));
    assert!(plan.directives.iter().any(|d| d.crate_name == "nrf-softdevice-s140"));
    assert_eq!(plan.main_template, MainTemplate::NrfSoftdevice);
    assert_eq!(plan.manifest_tail, ManifestTail::Softdevice);
}

#[test]
fn unknown_identifier_is_refused() {
    let r = resolve("foobar9000", &Vec::new());
    assert_eq!(r, Err(ClassificationError::UnknownChip("foobar9000".to_string())));
    let s = scaffold("foobar9000", "blinky", PanicHandler::Halt, None, None, &Vec::new(), "");
    assert_eq!(
        s,
        Err(EngineError::Classification(ClassificationError::UnknownChip("foobar9000".to_string())))
    );
}

#[test]
fn stm32_series_resolve_to_their_cores() {
    let cases = [
        ("stm32f030f4", "STM32F030F4Px", Target::Thumbv6m),
        ("stm32g071rb", "STM32G071RBTx", Target::Thumbv6m),
        ("stm32f207zg", "STM32F207ZGTx", Target::Thumbv7m),
        ("stm32f401re", "STM32F401RETx", Target::Thumbv7emHf),
        ("stm32h743zi", "STM32H743ZITx", Target::Thumbv7emHf),
        ("stm32wb55rg", "STM32WB55RGVx", Target::Thumbv7emHf),
        ("stm32wba52cg", "STM32WBA52CGUx", Target::Thumbv8mMainHf),
        ("stm32wle5jc", "STM32WLE5JCIx", Target::Thumbv7em),
        ("stm32u585ai", "STM32U585AIIx", Target::Thumbv8mMainHf),
    ];
    for (name, canonical, target) in cases {
        let chip = resolve(name, &candidates(&[canonical])).unwrap();
        assert_eq!(chip.family, Family::STM32);
        assert_eq!(chip.target, target, "{name}");
        assert_eq!(chip.name, name);
    }
}

#[test]
fn nrf_parts_resolve_without_memory_region() {
    let cases = [
        ("nrf52832", "nRF52832_xxAA", Target::Thumbv7emHf),
        ("nrf52810", "nRF52810_xxAA", Target::Thumbv7em),
        ("nrf5340", "nRF5340_xxAA", Target::Thumbv8mMainHf),
        ("nrf51822", "nRF51822_xxAA", Target::Thumbv6m),
    ];
    for (name, canonical, target) in cases {
        let chip = resolve(name, &candidates(&[canonical])).unwrap();
        assert_eq!(chip.family, Family::NRF(MemRegion::unset()));
        assert_eq!(chip.target, target, "{name}");
    }
}

#[test]
fn spellings_that_normalize_alike_resolve_alike() {
    let found = candidates(&["STM32F401RETx"]);
    let a = resolve("STM32F4-something", &found);
    let b = resolve("stm32f4_something", &found);
    assert_eq!(a, b);
    assert_eq!(a.unwrap().name, "stm32f4_something");
}

#[test]
fn normalization_folds_case_and_hyphens() {
    assert_eq!(normalize_chip_name("STM32F4-Disco-1"), "stm32f4_disco_1");
    assert_eq!(normalize_chip_name(""), "");
}

#[test]
fn softdevice_only_on_nrf() {
    let stm = resolve("stm32f401re", &candidates(&["STM32F401RETx"])).unwrap();
    let nrf = resolve("nrf52832", &candidates(&["nRF52832_xxAA"])).unwrap();
    for sd in ALL_SOFTDEVICES {
        assert_eq!(
            derive_plan(&stm, PanicHandler::Reset, Some(sd)),
            Err(ConfigError::IncompatibleSoftdevice { chip: "stm32f401re".to_string(), softdevice: sd })
        );
        assert!(derive_plan(&nrf, PanicHandler::Reset, Some(sd)).is_ok());
    }
}

#[test]
fn hal_comes_before_wireless_stack() {
    let nrf = resolve("nrf52840", &candidates(&["nRF52840_xxAA"])).unwrap();
    for sd in ALL_SOFTDEVICES {
        let names = crate_names(&nrf, PanicHandler::Halt, Some(sd));
        let hal = names.iter().position(|n| n == "embassy-nrf").unwrap();
        let stack = names.iter().position(|n| n == "nrf-softdevice").unwrap();
        assert!(hal < stack);
    }
}

#[test]
fn derivation_is_repeatable() {
    let nrf = resolve("nrf52840", &candidates(&["nRF52840_xxAA"])).unwrap();
    let a = derive_plan(&nrf, PanicHandler::Halt, Some(Softdevice::S132));
    let b = derive_plan(&nrf, PanicHandler::Halt, Some(Softdevice::S132));
    assert_eq!(a, b);
}

#[test]
fn stm32_directive_order() {
    let chip = resolve("stm32f103c8", &candidates(&["STM32F103C8"])).unwrap();
    assert_eq!(
        crate_names(&chip, PanicHandler::Reset, None),
        vec![
            "embassy-executor", "embassy-sync", "embassy-futures", "embassy-time", "embassy-stm32",
            "cortex-m", "cortex-m-rt", "defmt", "defmt-rtt", "panic-probe", "panic-reset",
        ]
    );
    let plan = derive_plan(&chip, PanicHandler::Reset, None).unwrap();
    assert_eq!(plan.directives[5].features, vec!["inline-asm", "critical-section-single-core"]);
    assert!(plan.directives[7].optional);
    assert!(!plan.directives[0].optional);
}

#[test]
fn nrf_directives_with_stack() {
    let chip = resolve("nrf52832", &candidates(&["nRF52832_xxAA"])).unwrap();
    let plan = derive_plan(&chip, PanicHandler::Halt, Some(Softdevice::S132)).unwrap();
    assert_eq!(plan.directives[4].crate_name, "embassy-nrf");
    assert_eq!(plan.directives[4].features, vec!["nrf52832", "gpiote", "time-driver-rtc1"]);
    assert_eq!(
        plan.directives[5].features,
        vec!["nrf52832", "s132", "ble-peripheral", "ble-gatt-server", "critical-section-impl"]
    );
    assert_eq!(plan.directives[6].crate_name, "nrf-softdevice-s132");
    assert_eq!(plan.directives[7].features, vec!["inline-asm"]);
    assert_eq!(plan.directives.len(), 13);
    let plain = derive_plan(&chip, PanicHandler::Halt, None).unwrap();
    assert_eq!(plain.main_template, MainTemplate::Nrf);
    assert_eq!(plain.directives.len(), 11);
}

#[test]
fn unclassified_family() {
    let r = resolve("esp32c3", &candidates(&["esp32c3"]));
    assert_eq!(r, Err(ClassificationError::UnclassifiedFamily("esp32c3".to_string())));
}

#[test]
fn unresolved_target() {
    let r = classify("stm32x9".to_string(), "stm32x9");
    assert_eq!(r, Err(ClassificationError::UnresolvedTarget("stm32x9".to_string())));
    let r = classify("nrf52999".to_string(), "nrf52999");
    assert_eq!(r, Err(ClassificationError::UnresolvedTarget("nrf52999".to_string())));
}

#[test]
fn first_candidate_is_authoritative() {
    let chip = resolve("stm32", &candidates(&["STM32F030F4Px", "STM32F401RETx"])).unwrap();
    assert_eq!(chip.target, Target::Thumbv6m);
    assert_eq!(chip.name, "stm32");
}

#[test]
fn cargo_add_arguments() {
    let chip = resolve("stm32f103c8", &candidates(&["STM32F103C8"])).unwrap();
    let plan = derive_plan(&chip, PanicHandler::Halt, None).unwrap();
    assert_eq!(
        plan.directives[0].cargo_add_args(),
        vec!["add", "embassy-executor", "--features=arch-cortex-m,executor-thread,integrated-timers"]
    );
    assert_eq!(plan.directives[7].cargo_add_args(), vec!["add", "defmt", "--features=", "--optional"]);
    assert_eq!(plan.directives[1].cargo_add_args(), vec!["add", "embassy-sync", "--features="]);
}

#[test]
fn feature_patch_detection() {
    assert!(needs_feature_patch("[package]\nname = \"x\"\n"));
    assert!(!needs_feature_patch("[package]\n[features]\ndefault = []\n"));
    assert!(needs_feature_patch(""));
}

#[test]
fn decimal_values() {
    assert_eq!(decimal(0), "0");
    assert_eq!(decimal(7), "7");
    assert_eq!(decimal(10), "10");
    assert_eq!(decimal(1048576), "1048576");
    assert_eq!(decimal(usize::MAX), usize::MAX.to_string());
}

#[test]
fn scaffold_nrf_project_files() {
    let region = MemRegion { flash_origin: 0x27000, flash_length: 868352, ram_origin: 0x20020000, ram_length: 131072 };
    let s = scaffold(
        "nRF52840",
        "radio",
        PanicHandler::Halt,
        Some(Softdevice::S140),
        Some(region),
        &candidates(&["nRF52840_xxAA"]),
        "nRF52840_xxAA",
    )
    .unwrap();
    assert_eq!(s.chip.family, Family::NRF(region));
    assert_eq!(s.plan.memory_layout, Some(region));
    let paths: Vec<&str> = s.setup.iter().map(|a| a.path.as_str()).collect();
    assert_eq!(paths, vec![".cargo/config.toml", "rust-toolchain.toml", "Embed.toml", "build.rs", "Cargo.toml"]);
    assert_eq!(
        s.setup[0].substitutions,
        vec![
            ("target".to_string(), "thumbv7em-none-eabihf".to_string()),
            ("chip".to_string(), "nRF52840_xxAA".to_string()),
        ]
    );
    assert_eq!(s.setup[3].template, TemplateKey::BuildNrf);
    assert_eq!(s.setup[4].substitutions, vec![("name".to_string(), "radio".to_string())]);
    assert_eq!(s.manifest_tail.template, TemplateKey::ManifestTailSoftdevice);
    assert_eq!(s.sources.len(), 3);
    assert_eq!(s.sources[1].template, TemplateKey::MainNrfSoftdevice);
    assert_eq!(s.sources[1].substitutions, vec![("panic_handler".to_string(), "panic_halt".to_string())]);
    assert_eq!(s.sources[2].path, "memory.x");
    assert_eq!(
        s.sources[2].substitutions,
        vec![
            ("flash_origin".to_string(), "159744".to_string()),
            ("flash_len".to_string(), "868352".to_string()),
            ("ram_origin".to_string(), "537001984".to_string()),
            ("ram_len".to_string(), "131072".to_string()),
        ]
    );
}

#[test]
fn scaffold_stm32_project_files() {
    let s = scaffold(
        "stm32f103c8",
        "blinky",
        PanicHandler::Reset,
        None,
        None,
        &candidates(&["STM32F103C8"]),
        "STM32F103C8",
    )
    .unwrap();
    assert_eq!(s.setup[1].substitutions, vec![("target".to_string(), "thumbv7m-none-eabi".to_string())]);
    assert_eq!(s.setup[3].template, TemplateKey::BuildStm32);
    assert_eq!(s.manifest_tail.template, TemplateKey::ManifestTail);
    assert_eq!(s.manifest_tail.substitutions, vec![("family".to_string(), "stm32".to_string())]);
    assert_eq!(s.sources.len(), 2);
    assert_eq!(s.sources[1].template, TemplateKey::MainStm32);
    assert_eq!(s.sources[1].substitutions, vec![("panic_handler".to_string(), "panic_reset".to_string())]);
}

#[test]
fn scaffold_refuses_stack_on_stm32() {
    let s = scaffold(
        "stm32f103c8",
        "blinky",
        PanicHandler::Halt,
        Some(Softdevice::S112),
        None,
        &candidates(&["STM32F103C8"]),
        "STM32F103C8",
    );
    assert_eq!(
        s,
        Err(EngineError::Config(ConfigError::IncompatibleSoftdevice {
            chip: "stm32f103c8".to_string(),
            softdevice: Softdevice::S112,
        }))
    );
}

#[test]
fn memory_region_applies_to_nrf_only() {
    let region = MemRegion { flash_origin: 0, flash_length: 1024, ram_origin: 4096, ram_length: 512 };
    let stm = resolve("stm32f103c8", &candidates(&["STM32F103C8"])).unwrap();
    assert_eq!(stm.clone().with_memory_region(region), stm);
    let nrf = resolve("nrf52840", &candidates(&["nRF52840_xxAA"])).unwrap();
    assert_eq!(nrf.with_memory_region(region).family, Family::NRF(region));
}

#[test]
fn template_file_names() {
    assert_eq!(TemplateKey::MainNrfSoftdevice.file_name(), "main.rs.nrf.sd.template");
    assert_eq!(TemplateKey::ManifestTail.file_name(), "Cargo.toml.append");
    assert_eq!(Family::STM32.name(), "stm32");
    assert_eq!(PanicHandler::Halt.str(), "panic-halt");
}
