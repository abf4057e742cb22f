use proxmox_tui_installer::config::{
    current_product, installer_setup, installer_title, late_setup_plan, BootdiskOptions,
    CidrAddress, Disk, InstallerOptions, IpAddress, IsoInfo, KeymapEntry, LocaleInfo,
    NetworkOptions, PasswordOptions, ProductConfig, ProxmoxProduct, RuntimeInfo, SetupInfo,
    SummaryOption, TimezoneOptions,
};
use proxmox_tui_installer::flow::{
    AdvanceOutcome, EnterAction, InstallerState, InstallerStep, StepOptions, StepRegistry,
};
use proxmox_tui_installer::validate::{
    validate_network_options, validate_password_options, NetworkError, PasswordError,
};

fn disk(path: &str) -> Disk {
    Disk { path: path.to_owned(), size_mb: 64 * 1024 }
}

fn initial_options() -> InstallerOptions {
    InstallerOptions {
        bootdisk: BootdiskOptions::defaults_from(disk("/dev/sda")),
        timezone: TimezoneOptions {
            country: "at".to_owned(),
            timezone: "Europe/Vienna".to_owned(),
            kb_layout: "en-us".to_owned(),
        },
        password: PasswordOptions::default(),
        network: network("10.0.0.5", true),
        autoreboot: false,
    }
}

fn network(addr: &str, ipv4: bool) -> NetworkOptions {
    NetworkOptions {
        ifname: "eth0".to_owned(),
        fqdn: "host.example.com".to_owned(),
        address: CidrAddress {
            addr: IpAddress { ipv4, text: addr.to_owned() },
            mask: if ipv4 { 24 } else { 64 },
        },
        gateway: IpAddress { ipv4, text: "10.0.0.1".to_owned() },
        dns_server: IpAddress { ipv4, text: "10.0.0.53".to_owned() },
    }
}

#[test]
fn registry_creates_then_reuses_screens() {
    let mut reg = StepRegistry::new();
    let (h1, a1) = reg.enter(InstallerStep::Licence);
    assert_eq!(a1, EnterAction::Create { run_late_setup: true });
    assert_eq!(h1.step, InstallerStep::Licence);

    let (h2, a2) = reg.enter(InstallerStep::Bootdisk);
    // the late setup hook runs exactly once, on the very first screen
    assert_eq!(a2, EnterAction::Create { run_late_setup: false });

    let (h1again, a3) = reg.enter(InstallerStep::Licence);
    assert_eq!(a3, EnterAction::Reuse);
    assert_eq!(h1again, h1);
    assert_ne!(h1, h2);
}

#[test]
fn summary_screen_is_rebuilt_on_every_visit() {
    let mut reg = StepRegistry::new();
    let (first, a1) = reg.enter(InstallerStep::Summary);
    assert_eq!(a1, EnterAction::Create { run_late_setup: true });
    let (second, a2) = reg.enter(InstallerStep::Summary);
    assert_eq!(a2, EnterAction::Rebuild);
    assert_ne!(first, second);
    let (third, a3) = reg.enter(InstallerStep::Summary);
    assert_eq!(a3, EnterAction::Rebuild);
    assert_ne!(second, third);
    assert_ne!(first, third);
}

#[test]
fn advancing_merges_validated_options_in_order() {
    let mut state = InstallerState::new(initial_options(), true);
    assert_eq!(state.current, InstallerStep::Licence);

    match state.advance(Ok(StepOptions::Licence)) {
        AdvanceOutcome::Advanced(s) => assert_eq!(s, InstallerStep::Bootdisk),
        AdvanceOutcome::Rejected(e) => panic!("rejected: {e}"),
    }

    let chosen = BootdiskOptions::defaults_from(disk("/dev/nvme0n1"));
    match state.advance(Ok(StepOptions::Bootdisk(chosen))) {
        AdvanceOutcome::Advanced(s) => assert_eq!(s, InstallerStep::Timezone),
        AdvanceOutcome::Rejected(e) => panic!("rejected: {e}"),
    }
    // the bootdisk step's result is in the aggregate, the rest untouched
    assert_eq!(state.options.bootdisk.disk.path, "/dev/nvme0n1");
    assert_eq!(state.options.timezone.timezone, "Europe/Vienna");
    assert_eq!(state.options.password.email, "mail@example.invalid");
    assert!(!state.options.autoreboot);

    let tz = TimezoneOptions {
        country: "de".to_owned(),
        timezone: "Europe/Berlin".to_owned(),
        kb_layout: "de".to_owned(),
    };
    match state.advance(Ok(StepOptions::Timezone(tz))) {
        AdvanceOutcome::Advanced(s) => assert_eq!(s, InstallerStep::Password),
        AdvanceOutcome::Rejected(e) => panic!("rejected: {e}"),
    }
    assert_eq!(state.options.timezone.country, "de");
    assert_eq!(state.options.bootdisk.disk.path, "/dev/nvme0n1");
}

#[test]
fn rejected_advance_mutates_nothing() {
    let mut state = InstallerState::new(initial_options(), false);
    let before = state.options.clone();
    let step_before = state.current;
    match state.advance(Err("Invalid values".to_owned())) {
        AdvanceOutcome::Rejected(e) => assert_eq!(e, "Invalid values"),
        AdvanceOutcome::Advanced(_) => panic!("must be rejected"),
    }
    assert_eq!(state.current, step_before);
    assert_eq!(state.options.bootdisk.disk.path, before.bootdisk.disk.path);
    assert_eq!(state.options.password.email, before.password.email);
}

#[test]
fn retreat_from_first_step_is_a_noop() {
    let mut state = InstallerState::new(initial_options(), false);
    let options_before = state.options.clone();
    state.retreat();
    assert_eq!(state.current, InstallerStep::Licence);
    assert_eq!(state.options.timezone.timezone, options_before.timezone.timezone);

    state.advance(Ok(StepOptions::Licence));
    state.advance(Ok(StepOptions::Bootdisk(BootdiskOptions::defaults_from(disk("/dev/sdb")))));
    assert_eq!(state.current, InstallerStep::Timezone);
    state.retreat();
    assert_eq!(state.current, InstallerStep::Bootdisk);
    state.retreat();
    assert_eq!(state.current, InstallerStep::Licence);
    state.retreat();
    assert_eq!(state.current, InstallerStep::Licence);
}

#[test]
fn password_validation_accepts_good_credentials() {
    let r = validate_password_options("secret99", "secret99", "admin@example.com");
    let p = r.expect("valid credentials");
    assert_eq!(p.root_password, "secret99");
    assert_eq!(p.email, "admin@example.com");
}

#[test]
fn password_validation_rejects_in_order() {
    assert_eq!(
        validate_password_options("abcd", "abcd", "a@b.c"),
        Err(PasswordError::TooShort)
    );
    assert_eq!(
        validate_password_options("abcde", "abcdf", "a@b.c"),
        Err(PasswordError::Mismatch)
    );
    assert_eq!(
        validate_password_options("abcde", "abcde", "mail@example.invalid"),
        Err(PasswordError::PlaceholderEmail)
    );
    assert_eq!(
        validate_password_options("abcde", "abcde", "not an address"),
        Err(PasswordError::MalformedEmail)
    );
    assert_eq!(
        validate_password_options("abcde", "abcde", "a@@b"),
        Err(PasswordError::MalformedEmail)
    );
    assert_eq!(
        PasswordError::TooShort.message(),
        "password too short, must be at least 5 characters long"
    );
}

#[test]
fn network_validation_checks_families_and_hostname() {
    assert!(validate_network_options(network("10.0.0.5", true)).is_ok());

    let mut candidate = network("10.0.0.5", true);
    candidate.gateway.ipv4 = false;
    assert_eq!(
        validate_network_options(candidate),
        Err(NetworkError::GatewayFamilyMismatch)
    );

    let mut candidate = network("10.0.0.5", true);
    candidate.dns_server.ipv4 = false;
    assert_eq!(validate_network_options(candidate), Err(NetworkError::DnsFamilyMismatch));

    let mut candidate = network("10.0.0.5", true);
    candidate.fqdn = "host.example.invalid".to_owned();
    assert_eq!(validate_network_options(candidate), Err(NetworkError::InvalidHostname));

    // only the exact suffix is reserved
    let mut candidate = network("10.0.0.5", true);
    candidate.fqdn = ".invalid".to_owned();
    assert_eq!(validate_network_options(candidate), Err(NetworkError::InvalidHostname));
    let mut candidate = network("10.0.0.5", true);
    candidate.fqdn = "host.invalid.example".to_owned();
    assert!(validate_network_options(candidate).is_ok());
}

#[test]
fn setup_requires_at_least_one_disk() {
    let locales = LocaleInfo { kmap: Vec::new() };
    let no_disks = RuntimeInfo { disks: Vec::new(), total_memory: 4096, hvm_supported: true };
    match installer_setup(locales, no_disks) {
        Err(e) => assert_eq!(e, "The installer could not find any supported hard disks."),
        Ok(_) => panic!("must fail without disks"),
    }

    let locales = LocaleInfo { kmap: Vec::new() };
    let one_disk =
        RuntimeInfo { disks: vec![disk("/dev/sda")], total_memory: 4096, hvm_supported: true };
    assert!(installer_setup(locales, one_disk).is_ok());
}

#[test]
fn setup_presents_disks_in_path_order() {
    let locales = LocaleInfo { kmap: Vec::new() };
    let runtime = RuntimeInfo {
        disks: vec![disk("/dev/sdc"), disk("/dev/nvme0n1"), disk("/dev/sda"), disk("/dev/sda")],
        total_memory: 4096,
        hvm_supported: true,
    };
    let (_, runtime) = installer_setup(locales, runtime).expect("disks present");
    let paths: Vec<&str> = runtime.disks.iter().map(|d| d.path.as_str()).collect();
    assert_eq!(paths, vec!["/dev/nvme0n1", "/dev/sda", "/dev/sda", "/dev/sdc"]);
}

#[test]
fn late_setup_decides_advisories() {
    let locales = LocaleInfo {
        kmap: vec![
            KeymapEntry { id: "en-us".to_owned(), kmap: "us".to_owned() },
            KeymapEntry { id: "de".to_owned(), kmap: "de-latin1".to_owned() },
        ],
    };
    let runtime =
        RuntimeInfo { disks: vec![disk("/dev/sda")], total_memory: 512, hvm_supported: false };

    let plan = late_setup_plan(false, "de", &locales, &runtime, ProxmoxProduct::PVE);
    assert_eq!(plan.apply_keymap.as_deref(), Some("de-latin1"));
    assert!(plan.memory_warning);
    assert!(plan.kvm_warning);

    // in the test configuration no keymap is applied
    let plan = late_setup_plan(true, "de", &locales, &runtime, ProxmoxProduct::PVE);
    assert_eq!(plan.apply_keymap, None);

    // only the virtualization product warns about missing acceleration
    let plan = late_setup_plan(false, "xx", &locales, &runtime, ProxmoxProduct::PBS);
    assert_eq!(plan.apply_keymap, None);
    assert!(!plan.kvm_warning);

    let enough =
        RuntimeInfo { disks: vec![disk("/dev/sda")], total_memory: 2048, hvm_supported: true };
    let plan = late_setup_plan(false, "en-us", &locales, &enough, ProxmoxProduct::PVE);
    assert!(!plan.memory_warning);
    assert!(!plan.kvm_warning);
    assert_eq!(plan.apply_keymap.as_deref(), Some("us"));
}

#[test]
fn full_walk_collects_every_step_result() {
    let mut state = InstallerState::new(initial_options(), true);
    state.advance(Ok(StepOptions::Licence));
    state.advance(Ok(StepOptions::Bootdisk(BootdiskOptions::defaults_from(disk("/dev/sdc")))));
    state.advance(Ok(StepOptions::Timezone(TimezoneOptions {
        country: "fr".to_owned(),
        timezone: "Europe/Paris".to_owned(),
        kb_layout: "fr".to_owned(),
    })));
    state.advance(Ok(StepOptions::Password(PasswordOptions {
        root_password: "secret99".to_owned(),
        email: "admin@example.com".to_owned(),
    })));
    state.advance(Ok(StepOptions::Network(network("172.16.0.9", true))));
    assert_eq!(state.current, InstallerStep::Summary);
    match state.advance(Ok(StepOptions::Autoreboot(true))) {
        AdvanceOutcome::Advanced(s) => assert_eq!(s, InstallerStep::Install),
        AdvanceOutcome::Rejected(e) => panic!("rejected: {e}"),
    }
    assert_eq!(state.options.bootdisk.disk.path, "/dev/sdc");
    assert_eq!(state.options.timezone.timezone, "Europe/Paris");
    assert_eq!(state.options.password.root_password, "secret99");
    assert_eq!(state.options.network.address.addr.text, "172.16.0.9");
    assert!(state.options.autoreboot);
}

#[test]
fn keymap_lookup_takes_the_first_of_equal_identifiers() {
    let locales = LocaleInfo {
        kmap: vec![
            KeymapEntry { id: "de".to_owned(), kmap: "de-latin1".to_owned() },
            KeymapEntry { id: "de".to_owned(), kmap: "de-other".to_owned() },
        ],
    };
    assert_eq!(locales.lookup_kmap("de").as_deref(), Some("de-latin1"));
    assert_eq!(locales.lookup_kmap("hu"), None);
    let empty = LocaleInfo { kmap: Vec::new() };
    assert_eq!(empty.lookup_kmap("de"), None);
}

#[test]
fn product_and_title_come_from_the_setup_info() {
    let setup = SetupInfo {
        config: ProductConfig {
            product: ProxmoxProduct::PVE,
            fullname: "Proxmox VE".to_owned(),
        },
        iso_info: IsoInfo { release: "8.0".to_owned(), isorelease: "2".to_owned() },
    };
    assert_eq!(current_product(&setup), ProxmoxProduct::PVE);
    assert_eq!(installer_title(&setup), "Proxmox VE (8.0-2) Installer");
}

#[test]
fn summary_rows_reflect_the_aggregate() {
    let mut opts = initial_options();
    opts.password.email = "admin@example.com".to_owned();
    let rows = opts.to_summary();
    assert_eq!(rows.len(), 10);
    assert_eq!(rows[0].get_column("name"), "Bootdisk");
    assert_eq!(rows[0].get_column("value"), "/dev/sda");
    assert_eq!(rows[4].get_column("name"), "Administrator email");
    assert_eq!(rows[4].get_column("value"), "admin@example.com");
    assert_eq!(rows[7].get_column("name"), "IP CIDR");
    assert_eq!(rows[7].get_column("value"), "10.0.0.5/24");

    let row = SummaryOption::new("Option", "chosen".to_owned());
    assert_eq!(row.get_column("name"), "Option");
    assert_eq!(row.get_column("value"), "chosen");
}
