//! The aggregate configuration: the accumulated, validated option set
//! carried across the wizard's steps and finally handed to the session
//! engine.
//!
//! Every value here is plain data — strings, integers, booleans — so
//! that the contracts can speak about it directly.  Reading descriptor
//! files, parsing addresses and rendering widgets happen outside this
//! crate; their results arrive here already shaped.

use vstd::prelude::*;

verus! {

/// The product this image installs.
#[derive(Debug, Clone, Copy, PartialEq, Eq, Structural)]
pub enum ProxmoxProduct {
    PVE,
    PBS,
    PMG,
}

/// Product metadata from the image descriptor.
#[derive(Debug, Clone, PartialEq)]
pub struct ProductConfig {
    pub product: ProxmoxProduct,
    pub fullname: String,
}

/// Release information from the image descriptor.
#[derive(Debug, Clone, PartialEq)]
pub struct IsoInfo {
    pub release: String,
    pub isorelease: String,
}

/// The static image information, loaded once at startup and read-only
/// afterwards; it is passed explicitly to whoever needs it.
#[derive(Debug, Clone, PartialEq)]
pub struct SetupInfo {
    pub config: ProductConfig,
    pub iso_info: IsoInfo,
}

/// The product selected by the running image.
pub fn current_product(info: &SetupInfo) -> (p: ProxmoxProduct)
    ensures
        p == info.config.product,
{
    info.config.product
}

/// A supported hard disk, as the environment descriptor reports it.
#[derive(Debug, Clone, PartialEq)]
pub struct Disk {
    pub path: String,
    pub size_mb: u64,
}

/// One entry of the keyboard-layout table: the layout identifier and
/// the console keymap it selects.
#[derive(Debug, Clone, PartialEq)]
pub struct KeymapEntry {
    pub id: String,
    pub kmap: String,
}

/// The locale tables from the pre-generated descriptors.
#[derive(Debug, Clone, PartialEq)]
pub struct LocaleInfo {
    pub kmap: Vec<KeymapEntry>,
}

/// The runtime environment: disks, memory, virtualization support.
#[derive(Debug, Clone, PartialEq)]
pub struct RuntimeInfo {
    pub disks: Vec<Disk>,
    pub total_memory: u64,
    pub hvm_supported: bool,
}

/// The boot-disk selection contributed by the boot-disk step.
#[derive(Debug, Clone, PartialEq)]
pub struct BootdiskOptions {
    pub disk: Disk,
}

impl BootdiskOptions {
    /// The initial selection: the first reported disk.
    pub fn defaults_from(disk: Disk) -> (r: BootdiskOptions)
        ensures
            r.disk == disk,
    {
        BootdiskOptions { disk }
    }
}

/// The timezone, country and keyboard selection.
#[derive(Debug, Clone, PartialEq)]
pub struct TimezoneOptions {
    pub country: String,
    pub timezone: String,
    pub kb_layout: String,
}

/// The credentials: root password and administrator contact address.
#[derive(Debug, Clone, PartialEq)]
pub struct PasswordOptions {
    pub root_password: String,
    pub email: String,
}

impl Default for PasswordOptions {
    /// The unvalidated initial state: no password, a placeholder
    /// address that the validation of the password step rejects.
    fn default() -> (r: PasswordOptions)
        ensures
            r.root_password@ == Seq::<char>::empty(),
            r.email@ == "mail@example.invalid"@,
    {
        PasswordOptions { root_password: String::new(), email: "mail@example.invalid".to_owned() }
    }
}

/// An IP address, reduced to what the wizard's own rules read from it:
/// its version and its canonical text.  Parsing and printing addresses
/// is the field-level input layer's business, outside this crate.
#[derive(Debug, Clone, PartialEq)]
pub struct IpAddress {
    pub ipv4: bool,
    pub text: String,
}

/// An address with a prefix length.
#[derive(Debug, Clone, PartialEq)]
pub struct CidrAddress {
    pub addr: IpAddress,
    pub mask: u8,
}

/// The network identity contributed by the network step.
#[derive(Debug, Clone, PartialEq)]
pub struct NetworkOptions {
    pub ifname: String,
    pub fqdn: String,
    pub address: CidrAddress,
    pub gateway: IpAddress,
    pub dns_server: IpAddress,
}

/// The aggregate configuration: one record per contributing step plus
/// the auto-reboot flag collected on the summary step.
#[derive(Debug, Clone, PartialEq)]
pub struct InstallerOptions {
    pub bootdisk: BootdiskOptions,
    pub timezone: TimezoneOptions,
    pub password: PasswordOptions,
    pub network: NetworkOptions,
    pub autoreboot: bool,
}

/// The disk list is ordered by path.
pub open spec fn disks_sorted(s: Seq<Disk>) -> bool {
    forall|k: int|
        0 <= k < s.len() - 1 ==> #[trigger] crate::msg::seq_le(s[k].path@, s[k + 1].path@)
}

/// Sorts the disk list by path (insertion sort); the result holds the
/// same disks.
fn sort_disks(disks: &mut Vec<Disk>)
    ensures
        final(disks)@.len() == old(disks)@.len(),
        disks_sorted(final(disks)@),
        final(disks)@.to_multiset() == old(disks)@.to_multiset(),
{
    broadcast use vstd::seq_lib::group_to_multiset_ensures;
    broadcast use vstd::multiset::group_multiset_axioms;

    let n = disks.len();
    if n < 2 {
        return ;
    }
    let mut i: usize = 1;
    while i < n
        invariant
            n == disks@.len(),
            1 <= i <= n,
            disks@.to_multiset() == old(disks)@.to_multiset(),
            forall|k: int|
                0 <= k < i - 1 ==> #[trigger] crate::msg::seq_le(
                    disks@[k].path@,
                    disks@[k + 1].path@,
                ),
        decreases n - i,
    {
        let mut k: usize = 0;
        while k < i
            invariant
                k <= i,
                i < n,
                n == disks@.len(),
                forall|j: int|
                    0 <= j < k ==> crate::msg::seq_le(
                        #[trigger] disks@[j].path@,
                        disks@[i as int].path@,
                    ),
            ensures
                k <= i,
                forall|j: int|
                    0 <= j < k ==> crate::msg::seq_le(
                        #[trigger] disks@[j].path@,
                        disks@[i as int].path@,
                    ),
                k < i ==> !crate::msg::seq_le(disks@[k as int].path@, disks@[i as int].path@),
            decreases i - k,
        {
            if !crate::msg::str_le(disks[k].path.as_str(), disks[i].path.as_str()) {
                break ;
            }
            k += 1;
        }
        let ghost s0 = disks@;
        let x = disks.remove(i);
        disks.insert(k, x);
        proof {
            broadcast use vstd::seq_lib::group_to_multiset_ensures;
            broadcast use vstd::multiset::group_multiset_axioms;

            let s1 = s0.remove(i as int);
            s0.remove_ensures(i as int);
            s1.insert_ensures(k as int, x);
            // the list still holds the same disks
            assert(s0.contains(x)) by {
                assert(s0[i as int] == x);
            }
            vstd::seq_lib::to_multiset_remove(s0, i as int);
            vstd::seq_lib::to_multiset_insert(s1, k as int, x);
            assert(s1.to_multiset() == s0.to_multiset().remove(x));
            assert(s1.insert(k as int, x).to_multiset() == s1.to_multiset().insert(x));
            assert(s0.to_multiset().remove(x).insert(x) =~= s0.to_multiset());
            // where each element now stands
            assert(forall|m: int| 0 <= m < k ==> #[trigger] disks@[m] == s0[m]);
            assert(disks@[k as int] == x);
            assert forall|m: int| k < m <= i implies #[trigger] disks@[m] == s0[m - 1] by {
                assert(disks@[m] == s1[m - 1]);
            }
            // the sorted prefix grew by the inserted element
            if k < i {
                crate::msg::lemma_seq_le_total(s0[k as int].path@, x.path@);
            }
            assert forall|j: int| 0 <= j < i implies crate::msg::seq_le(
                #[trigger] disks@[j].path@,
                disks@[j + 1].path@,
            ) by {
                if j + 1 < k {
                    assert(crate::msg::seq_le(s0[j].path@, s0[j + 1].path@));
                } else if j + 1 == k {
                    assert(crate::msg::seq_le(s0[j].path@, x.path@));
                } else if j == k {
                    assert(crate::msg::seq_le(x.path@, s0[j].path@));
                } else {
                    let m = j - 1;
                    assert(crate::msg::seq_le(s0[m].path@, s0[m + 1].path@));
                }
            }
        }
        i += 1;
    }
}

/// The validation gate of the startup sequence: reading the descriptor
/// files happens outside this crate, and the values land here to be
/// checked before the wizard starts.  Without at least one supported
/// disk the installation cannot proceed; with disks, the list is
/// presented in path order.
pub fn installer_setup(locales: LocaleInfo, runtime: RuntimeInfo) -> (r: Result<
    (LocaleInfo, RuntimeInfo),
    String,
>)
    ensures
        match r {
            Ok(lr) => {
                &&& runtime.disks@.len() > 0
                &&& lr.0 == locales
                &&& lr.1.total_memory == runtime.total_memory
                &&& lr.1.hvm_supported == runtime.hvm_supported
                &&& disks_sorted(lr.1.disks@)
                &&& lr.1.disks@.to_multiset() == runtime.disks@.to_multiset()
            },
            Err(e) => runtime.disks@.len() == 0 && e@
                == "The installer could not find any supported hard disks."@,
        },
{
    if runtime.disks.len() == 0 {
        Err("The installer could not find any supported hard disks.".to_owned())
    } else {
        let mut runtime = runtime;
        sort_disks(&mut runtime.disks);
        Ok((locales, runtime))
    }
}

/// The position of the first keymap entry whose identifier is `id`.
pub open spec fn kmap_index(s: Seq<KeymapEntry>, id: Seq<char>, i: int) -> Option<int>
    decreases s.len() - i when 0 <= i
{
    if i >= s.len() {
        None
    } else if s[i].id@ == id {
        Some(i)
    } else {
        kmap_index(s, id, i + 1)
    }
}

impl LocaleInfo {
    /// The console keymap registered for a keyboard-layout identifier.
    pub fn lookup_kmap(&self, id: &str) -> (r: Option<String>)
        ensures
            match r {
                Some(k) => kmap_index(self.kmap@, id@, 0) matches Some(i) && self.kmap@[i].kmap@
                    == k@,
                None => kmap_index(self.kmap@, id@, 0) is None,
            },
    {
        let n = self.kmap.len();
        let mut i: usize = 0;
        while i < n
            invariant
                n == self.kmap@.len(),
                i <= n,
                kmap_index(self.kmap@, id@, 0) == kmap_index(self.kmap@, id@, i as int),
            decreases n - i,
        {
            let entry = &self.kmap[i];
            if crate::msg::str_eq(entry.id.as_str(), id) {
                return Some(entry.kmap.clone());
            }
            i += 1;
        }
        None
    }
}

/// One row of the pre-install summary table: an option's label and its
/// selected value.
pub struct SummaryOption {
    name: &'static str,
    value: String,
}

impl SummaryOption {
    /// The row's label.
    pub closed spec fn name_spec(&self) -> Seq<char> {
        self.name@
    }

    /// The row's displayed value.
    pub closed spec fn value_spec(&self) -> Seq<char> {
        self.value@
    }

    pub fn new(name: &'static str, value: String) -> (r: SummaryOption)
        ensures
            r.name_spec() == name@,
            r.value_spec() == value@,
    {
        SummaryOption { name, value }
    }

    /// The cell of the table column named `name` or `value`.
    pub fn get_column(&self, name: &str) -> (r: String)
        requires
            name@ == "name"@ || name@ == "value"@,
        ensures
            r@ == (if name@ == "name"@ {
                self.name_spec()
            } else {
                self.value_spec()
            }),
    {
        if crate::msg::str_eq(name, "name") {
            self.name.to_owned()
        } else {
            self.value.clone()
        }
    }
}

impl InstallerOptions {
    /// The rows of the pre-install summary, in display order.  The
    /// summary screen is rebuilt from these on every visit, so they
    /// always reflect the latest aggregate configuration.
    pub fn to_summary(&self) -> (r: Vec<SummaryOption>)
        ensures
            r@.len() == 10,
            r@[0].name_spec() == "Bootdisk"@ && r@[0].value_spec() == self.bootdisk.disk.path@,
            r@[1].name_spec() == "Country"@ && r@[1].value_spec() == self.timezone.country@,
            r@[2].name_spec() == "Timezone"@ && r@[2].value_spec() == self.timezone.timezone@,
            r@[3].name_spec() == "Keyboard layout"@ && r@[3].value_spec()
                == self.timezone.kb_layout@,
            r@[4].name_spec() == "Administrator email"@ && r@[4].value_spec()
                == self.password.email@,
            r@[5].name_spec() == "Management interface"@ && r@[5].value_spec()
                == self.network.ifname@,
            r@[6].name_spec() == "Hostname"@ && r@[6].value_spec() == self.network.fqdn@,
            r@[7].name_spec() == "IP CIDR"@ && r@[7].value_spec() == self.network.address.addr.text@
                + "/"@ + crate::msg::dec_rep(self.network.address.mask as nat),
            r@[8].name_spec() == "Gateway"@ && r@[8].value_spec() == self.network.gateway.text@,
            r@[9].name_spec() == "DNS"@ && r@[9].value_spec() == self.network.dns_server.text@,
    {
        let mut cidr = self.network.address.addr.text.clone();
        cidr.append("/");
        let mask = crate::msg::u64_to_string(self.network.address.mask as u64);
        cidr.append(mask.as_str());
        let mut rows: Vec<SummaryOption> = Vec::new();
        rows.push(SummaryOption::new("Bootdisk", self.bootdisk.disk.path.clone()));
        rows.push(SummaryOption::new("Country", self.timezone.country.clone()));
        rows.push(SummaryOption::new("Timezone", self.timezone.timezone.clone()));
        rows.push(SummaryOption::new("Keyboard layout", self.timezone.kb_layout.clone()));
        rows.push(SummaryOption::new("Administrator email", self.password.email.clone()));
        rows.push(SummaryOption::new("Management interface", self.network.ifname.clone()));
        rows.push(SummaryOption::new("Hostname", self.network.fqdn.clone()));
        rows.push(SummaryOption::new("IP CIDR", cidr));
        rows.push(SummaryOption::new("Gateway", self.network.gateway.text.clone()));
        rows.push(SummaryOption::new("DNS", self.network.dns_server.text.clone()));
        rows
    }
}

/// The main dialog's title: product name and release.
pub fn installer_title(setup: &SetupInfo) -> (r: String)
    ensures
        r@ == setup.config.fullname@ + " ("@ + setup.iso_info.release@ + "-"@
            + setup.iso_info.isorelease@ + ") Installer"@,
{
    let mut s = setup.config.fullname.clone();
    s.append(" (");
    s.append(setup.iso_info.release.as_str());
    s.append("-");
    s.append(setup.iso_info.isorelease.as_str());
    s.append(") Installer");
    s
}

/// The decisions of the one-shot late setup hook, run once after the
/// first screen is attached: which console keymap to apply, and which
/// non-fatal advisories to pop up.
pub struct LateSetupPlan {
    /// The console keymap to apply, absent in the test configuration
    /// and when the layout identifier is not in the table.
    pub apply_keymap: Option<String>,
    /// Less than 1 GiB of usable memory was detected.
    pub memory_warning: bool,
    /// The product relies on hardware-accelerated virtualization and
    /// the machine reports none.
    pub kvm_warning: bool,
}

/// Decides what the late setup hook must do; applying the keymap and
/// showing the advisories happen outside this crate.
pub fn late_setup_plan(
    in_test_mode: bool,
    kb_layout: &str,
    locales: &LocaleInfo,
    runtime: &RuntimeInfo,
    product: ProxmoxProduct,
) -> (r: LateSetupPlan)
    ensures
        r.memory_warning == (runtime.total_memory < 1024),
        r.kvm_warning == (product is PVE && !runtime.hvm_supported),
        in_test_mode ==> r.apply_keymap is None,
        !in_test_mode ==> match r.apply_keymap {
            Some(k) => kmap_index(locales.kmap@, kb_layout@, 0) matches Some(i)
                && locales.kmap@[i].kmap@ == k@,
            None => kmap_index(locales.kmap@, kb_layout@, 0) is None,
        },
{
    let apply_keymap = if in_test_mode {
        None
    } else {
        locales.lookup_kmap(kb_layout)
    };
    LateSetupPlan {
        apply_keymap,
        memory_warning: runtime.total_memory < 1024,
        kvm_warning: matches!(product, ProxmoxProduct::PVE) && !runtime.hvm_supported,
    }
}

} // verus!
