//! Scan performance settings of a discovery, how they are shown, and the
//! narrower settings of a single-host rescan.
use vstd::prelude::*;

use crate::discovery::defaults;
use crate::fields::{FieldDefinition, FieldType};
use crate::text::{decimal, push_char, push_decimal};

verus! {

broadcast use vstd::string::group_string_axioms;

/// Scan performance settings. An unset number means "use the daemon's
/// default" (see `defaults`).
#[derive(Debug, Clone, Copy, PartialEq, Eq, Structural, Hash)]
pub struct ScanSettings {
    pub arp_retries: Option<u32>,
    pub arp_rate_pps: Option<u32>,
    pub scan_rate_pps: Option<u32>,
    pub port_scan_batch_size: Option<usize>,
    pub probe_raw_socket_ports: bool,
    pub use_npcap_arp: bool,
    pub full_scan_interval: Option<u32>,
    pub is_full_scan: bool,
    pub arp_scan_cutoff: Option<u8>,
    pub max_discovery_duration: Option<u32>,
}

/// Settings of a single-host rescan: a rescan can never become a full scan,
/// and settings that cannot bind on one or two addresses are left out.
#[derive(Debug, Clone, Copy, PartialEq, Eq, Structural, Hash)]
pub struct RescanSettings {
    pub arp_retries: Option<u32>,
    pub scan_rate_pps: Option<u32>,
    pub port_scan_batch_size: Option<usize>,
    pub probe_raw_socket_ports: bool,
    pub use_npcap_arp: bool,
}

pub open spec fn or_default(v: Option<u32>, d: u32) -> nat {
    match v {
        Some(x) => x as nat,
        None => d as nat,
    }
}

pub open spec fn bool_text(b: bool) -> Seq<char> {
    if b { "true"@ } else { "false"@ }
}

/// The banner lines of `s`: label, value, and whether the value was set
/// rather than defaulted.
pub open spec fn setting_lines(s: ScanSettings) -> Seq<(&'static str, Seq<char>, bool)> {
    seq![
        ("ARP rate:", decimal(or_default(s.arp_rate_pps, 50)) + " pps"@, s.arp_rate_pps is Some),
        ("ARP retries:", decimal(or_default(s.arp_retries, 2)), s.arp_retries is Some),
        ("Port scan rate:", decimal(or_default(s.scan_rate_pps, 500)) + " pps"@, s.scan_rate_pps is Some),
        ("Port batch size:", decimal(match s.port_scan_batch_size {
            Some(n) => n as nat,
            None => 200,
        }), s.port_scan_batch_size is Some),
        ("Raw socket ports:", bool_text(s.probe_raw_socket_ports), s.probe_raw_socket_ports),
        ("Npcap ARP:", bool_text(s.use_npcap_arp), s.use_npcap_arp),
        ("Full scan interval:", "every "@ + decimal(or_default(s.full_scan_interval, 3)) + " scans"@,
            s.full_scan_interval is Some),
        ("ARP scan cutoff:", seq!['/'] + decimal(match s.arp_scan_cutoff {
            Some(n) => n as nat,
            None => 15,
        }), s.arp_scan_cutoff is Some),
        ("Scan mode:", if s.is_full_scan { "Full (65k ports)"@ } else { "Light (discovery ports)"@ },
            s.is_full_scan),
    ]
}

/// The view of banner lines, with each value taken by its characters.
pub open spec fn lines_view(v: Seq<(&'static str, String, bool)>) -> Seq<(&'static str, Seq<char>, bool)> {
    v.map_values(|t: (&'static str, String, bool)| (t.0, t.1@, t.2))
}

/// `s` padded with spaces on the right to `width` characters.
pub open spec fn pad_right(s: Seq<char>, width: nat) -> Seq<char> {
    if s.len() >= width {
        s
    } else {
        s + Seq::new((width - s.len()) as nat, |i: int| ' ')
    }
}

/// One logged settings line.
pub open spec fn log_line(label: Seq<char>, value: Seq<char>, is_override: bool) -> Seq<char> {
    "    "@ + pad_right(label, 20) + value + seq![' '] + (if is_override {
        "(override)"@
    } else {
        "(default)"@
    })
}

/// The settings block as logged: a rule, a heading, one line per setting.
pub open spec fn settings_log(s: ScanSettings) -> Seq<Seq<char>> {
    seq![
        "  ───────────────────────────────────────────────────────────"@,
        "  Scan Settings:"@,
    ] + setting_lines(s).map_values(|t: (&'static str, Seq<char>, bool)| log_line(t.0@, t.1, t.2))
}

/// `prefix`, the decimal of `n`, then `suffix`.
fn number_text(prefix: &str, n: u64, suffix: &str) -> (r: String)
    ensures
        r@ == prefix@ + decimal(n as nat) + suffix@,
{
    let mut r = String::new();
    r.append(prefix);
    push_decimal(&mut r, n);
    r.append(suffix);
    r
}

fn bool_string(b: bool) -> (r: String)
    ensures
        r@ == bool_text(b),
{
    let mut r = String::new();
    if b {
        r.append("true");
    } else {
        r.append("false");
    }
    r
}

fn static_string(s: &str) -> (r: String)
    ensures
        r@ == s@,
{
    let mut r = String::new();
    r.append(s);
    r
}

impl ScanSettings {
    /// The banner lines: label, value (the default when unset), and whether
    /// the value was set.
    pub fn formatted_lines(&self) -> (v: Vec<(&'static str, String, bool)>)
        ensures
            lines_view(v@) == setting_lines(*self),
    {
        proof {
            reveal_strlit("");
        }
        let rate = match self.arp_rate_pps { Some(x) => x, None => defaults::arp_rate_pps() };
        let retries = match self.arp_retries { Some(x) => x, None => defaults::arp_retries() };
        let scan = match self.scan_rate_pps { Some(x) => x, None => defaults::scan_rate_pps() };
        let batch = match self.port_scan_batch_size {
            Some(x) => x,
            None => defaults::port_scan_batch_size(),
        };
        let interval = match self.full_scan_interval {
            Some(x) => x,
            None => defaults::full_scan_interval(),
        };
        let cutoff = match self.arp_scan_cutoff { Some(x) => x, None => defaults::arp_scan_cutoff() };
        let mode = if self.is_full_scan {
            static_string("Full (65k ports)")
        } else {
            static_string("Light (discovery ports)")
        };
        let v = vec![
            ("ARP rate:", number_text("", rate as u64, " pps"), self.arp_rate_pps.is_some()),
            ("ARP retries:", number_text("", retries as u64, ""), self.arp_retries.is_some()),
            ("Port scan rate:", number_text("", scan as u64, " pps"), self.scan_rate_pps.is_some()),
            ("Port batch size:", number_text("", batch as u64, ""), self.port_scan_batch_size.is_some()),
            ("Raw socket ports:", bool_string(self.probe_raw_socket_ports), self.probe_raw_socket_ports),
            ("Npcap ARP:", bool_string(self.use_npcap_arp), self.use_npcap_arp),
            ("Full scan interval:", number_text("every ", interval as u64, " scans"),
                self.full_scan_interval.is_some()),
            ("ARP scan cutoff:", number_text("/", cutoff as u64, ""), self.arp_scan_cutoff.is_some()),
            ("Scan mode:", mode, self.is_full_scan),
        ];
        proof {
            reveal_strlit("/");
            let l = lines_view(v@);
            let e = setting_lines(*self);
            assert(l[0].1 =~= e[0].1);
            assert(l[1].1 =~= e[1].1);
            assert(l[2].1 =~= e[2].1);
            assert(l[3].1 =~= e[3].1);
            assert(l[6].1 =~= e[6].1);
            assert(l[7].1 =~= e[7].1);
            assert(l[0] == e[0]);
            assert(l[1] == e[1]);
            assert(l[2] == e[2]);
            assert(l[3] == e[3]);
            assert(l[4] == e[4]);
            assert(l[5] == e[5]);
            assert(l[6] == e[6]);
            assert(l[7] == e[7]);
            assert(l[8] == e[8]);
            assert(l =~= e);
        }
        v
    }

    /// The settings block to log: a rule, a heading, then each banner line
    /// with its label padded to 20 characters and `(override)` or
    /// `(default)` after the value.
    pub fn log_settings(&self) -> (v: Vec<String>)
        ensures
            v@.map_values(|s: String| s@) == settings_log(*self),
    {
        let lines = self.formatted_lines();
        let mut v: Vec<String> = Vec::new();
        v.push(static_string("  ───────────────────────────────────────────────────────────"));
        v.push(static_string("  Scan Settings:"));
        let ghost head: Seq<Seq<char>> = seq![
            "  ───────────────────────────────────────────────────────────"@,
            "  Scan Settings:"@,
        ];
        assert(v@.map_values(|s: String| s@) =~= head);
        let mut i: usize = 0;
        while i < lines.len()
            invariant
                i <= lines@.len(),
                lines_view(lines@) == setting_lines(*self),
                v@.map_values(|s: String| s@) == head + lines_view(lines@).take(i as int).map_values(
                    |t: (&'static str, Seq<char>, bool)| log_line(t.0@, t.1, t.2),
                ),
            decreases lines.len() - i,
        {
            let (label, value, is_override) = &lines[i];
            let line = format_log_line(label, value.as_str(), *is_override);
            let ghost before = v@;
            v.push(line);
            assert(v@.map_values(|s: String| s@) =~= before.map_values(|s: String| s@).push(line@));
            proof {
                let f = |t: (&'static str, Seq<char>, bool)| log_line(t.0@, t.1, t.2);
                assert(lines_view(lines@)[i as int] == (*label, value@, *is_override));
                assert(lines_view(lines@).take(i + 1) =~= lines_view(lines@).take(i as int).push(
                    lines_view(lines@)[i as int],
                ));
                assert(lines_view(lines@).take(i + 1).map_values(f) =~= lines_view(lines@).take(
                    i as int,
                ).map_values(f).push(f(lines_view(lines@)[i as int])));
                assert(v@.map_values(|s: String| s@) =~= head + lines_view(lines@).take(i + 1).map_values(f));
            }
            i = i + 1;
        }
        proof {
            assert(lines_view(lines@).take(lines@.len() as int) =~= lines_view(lines@));
        }
        v
    }

    /// The form fields of the user-settable settings (all but `is_full_scan`,
    /// which the server sets per run).
    pub fn field_definitions() -> (v: Vec<FieldDefinition>)
        ensures
            v@ == scan_field_definitions(),
    {
        let v = vec![
            FieldDefinition {
                id: "scan_rate_pps",
                label: "Port Scan Rate",
                field_type: FieldType::Number,
                placeholder: Some("500"),
                secret: false,
                optional: true,
                help_text: Some("Probes per second during port scanning. Lower values reduce network impact."),
                default_value: Some("500"),
                category: Some("Port Scanning"),
                options: None,
            },
            FieldDefinition {
                id: "arp_rate_pps",
                label: "ARP Scan Rate",
                field_type: FieldType::Number,
                placeholder: Some("50"),
                secret: false,
                optional: true,
                help_text: Some("ARP packets per second during host discovery. Keep low on networks with strict switch policies."),
                default_value: Some("50"),
                category: Some("ARP"),
                options: None,
            },
            FieldDefinition {
                id: "arp_retries",
                label: "ARP Retries",
                field_type: FieldType::Number,
                placeholder: Some("2"),
                secret: false,
                optional: true,
                help_text: Some("Additional ARP rounds for non-responsive hosts. Total attempts = retries + 1."),
                default_value: Some("2"),
                category: Some("ARP"),
                options: None,
            },
            FieldDefinition {
                id: "port_scan_batch_size",
                label: "Port Scan Batch Size",
                field_type: FieldType::Number,
                placeholder: Some("200"),
                secret: false,
                optional: true,
                help_text: Some("Ports scanned concurrently per host. Range: 16-1000."),
                default_value: Some("200"),
                category: Some("Port Scanning"),
                options: None,
            },
            FieldDefinition {
                id: "probe_raw_socket_ports",
                label: "Probe Raw Socket Ports",
                field_type: FieldType::Boolean,
                placeholder: None,
                secret: false,
                optional: false,
                help_text: Some("Scan ports 9100-9107. May cause ghost printing on some printers."),
                default_value: Some("false"),
                category: Some("Detection"),
                options: None,
            },
            FieldDefinition {
                id: "arp_scan_cutoff",
                label: "ARP Scan Cutoff",
                field_type: FieldType::Number,
                placeholder: Some("15"),
                secret: false,
                optional: true,
                help_text: Some("Interfaced subnets larger than this CIDR prefix are truncated during ARP scanning. Lower values scan more IPs — increase ARP Scan Rate accordingly for large subnets."),
                default_value: Some("15"),
                category: Some("ARP"),
                options: None,
            },
            FieldDefinition {
                id: "use_npcap_arp",
                label: "Use Npcap ARP (Windows)",
                field_type: FieldType::Boolean,
                placeholder: None,
                secret: false,
                optional: false,
                help_text: Some("Use Npcap broadcast ARP instead of Windows SendARP. Requires Npcap installed."),
                default_value: Some("false"),
                category: Some("ARP"),
                options: None,
            },
            FieldDefinition {
                id: "full_scan_interval",
                label: "Full Scan Interval",
                field_type: FieldType::Number,
                placeholder: Some("3"),
                secret: false,
                optional: true,
                help_text: Some("Run a full 65k port scan every N scans. Other scans use a lighter port set for faster results. Set to 0 for light scans only, 1 for every scan to be full."),
                default_value: Some("3"),
                category: Some("Detection"),
                options: None,
            },
            FieldDefinition {
                id: "max_discovery_duration",
                label: "Max Discovery Duration (seconds)",
                field_type: FieldType::Number,
                placeholder: Some("21600"),
                secret: false,
                optional: true,
                help_text: Some("Hard time limit for a single discovery run, in seconds (default 21600 = 6 hours). When reached, the run stops and any hosts not yet scanned are left for the next run. Raise this for very large networks that need a longer window."),
                default_value: Some("21600"),
                category: Some("Detection"),
                options: None,
            },
        ];
        assert(v@ =~= scan_field_definitions());
        v
    }

    /// Widens rescan settings for the scan pipeline: never a full scan, and
    /// the settings a rescan does not carry left unset.
    pub fn from_rescan(r: &RescanSettings) -> (s: ScanSettings)
        ensures
            s == widen(*r),
    {
        ScanSettings {
            arp_retries: r.arp_retries,
            arp_rate_pps: None,
            scan_rate_pps: r.scan_rate_pps,
            port_scan_batch_size: r.port_scan_batch_size,
            probe_raw_socket_ports: r.probe_raw_socket_ports,
            use_npcap_arp: r.use_npcap_arp,
            full_scan_interval: None,
            is_full_scan: false,
            arp_scan_cutoff: None,
            max_discovery_duration: None,
        }
    }
}

impl RescanSettings {
    /// Narrows discovery settings to those that bind on a rescan.
    pub fn from_scan(s: &ScanSettings) -> (r: RescanSettings)
        ensures
            r == narrow(*s),
    {
        RescanSettings {
            arp_retries: s.arp_retries,
            scan_rate_pps: s.scan_rate_pps,
            port_scan_batch_size: s.port_scan_batch_size,
            probe_raw_socket_ports: s.probe_raw_socket_ports,
            use_npcap_arp: s.use_npcap_arp,
        }
    }
}

/// Every setting unset or off.
impl Default for ScanSettings {
    fn default() -> (s: Self)
        ensures
            s == (ScanSettings {
                arp_retries: None,
                arp_rate_pps: None,
                scan_rate_pps: None,
                port_scan_batch_size: None,
                probe_raw_socket_ports: false,
                use_npcap_arp: false,
                full_scan_interval: None,
                is_full_scan: false,
                arp_scan_cutoff: None,
                max_discovery_duration: None,
            }),
    {
        ScanSettings {
            arp_retries: None,
            arp_rate_pps: None,
            scan_rate_pps: None,
            port_scan_batch_size: None,
            probe_raw_socket_ports: false,
            use_npcap_arp: false,
            full_scan_interval: None,
            is_full_scan: false,
            arp_scan_cutoff: None,
            max_discovery_duration: None,
        }
    }
}

pub open spec fn narrow(s: ScanSettings) -> RescanSettings {
    RescanSettings {
        arp_retries: s.arp_retries,
        scan_rate_pps: s.scan_rate_pps,
        port_scan_batch_size: s.port_scan_batch_size,
        probe_raw_socket_ports: s.probe_raw_socket_ports,
        use_npcap_arp: s.use_npcap_arp,
    }
}

pub open spec fn widen(r: RescanSettings) -> ScanSettings {
    ScanSettings {
        arp_retries: r.arp_retries,
        arp_rate_pps: None,
        scan_rate_pps: r.scan_rate_pps,
        port_scan_batch_size: r.port_scan_batch_size,
        probe_raw_socket_ports: r.probe_raw_socket_ports,
        use_npcap_arp: r.use_npcap_arp,
        full_scan_interval: None,
        is_full_scan: false,
        arp_scan_cutoff: None,
        max_discovery_duration: None,
    }
}

/// Narrowing widened rescan settings gives them back unchanged.
pub proof fn lemma_rescan_round_trip(r: RescanSettings)
    ensures
        narrow(widen(r)) == r,
{
}

/// Settings widened from a rescan never ask for a full scan, and keep every
/// setting the rescan carried; those it does not carry are unset.
pub proof fn lemma_widened_rescan_is_light(s: ScanSettings)
    ensures
        !widen(narrow(s)).is_full_scan,
        widen(narrow(s)).full_scan_interval is None,
        widen(narrow(s)).arp_retries == s.arp_retries,
        widen(narrow(s)).scan_rate_pps == s.scan_rate_pps,
        widen(narrow(s)).port_scan_batch_size == s.port_scan_batch_size,
        widen(narrow(s)).probe_raw_socket_ports == s.probe_raw_socket_ports,
        widen(narrow(s)).use_npcap_arp == s.use_npcap_arp,
{
}

/// Formats one logged settings line.
fn format_log_line(label: &str, value: &str, is_override: bool) -> (r: String)
    ensures
        r@ == log_line(label@, value@, is_override),
{
    let mut r = String::new();
    r.append("    ");
    r.append(label);
    let n: usize = crate::text::chars_of(label).len();
    let ghost base = r@;
    let mut k: usize = n;
    while k < 20
        invariant
            n <= 20 ==> n <= k <= 20,
            n > 20 ==> k == n,
            r@ == base + Seq::new((k - n) as nat, |i: int| ' '),
        decreases 20 - k,
    {
        push_char(&mut r, ' ');
        assert(base + Seq::new((k + 1 - n) as nat, |i: int| ' ') =~= (base + Seq::new((k - n) as nat, |i: int| ' ')).push(' '));
        k = k + 1;
    }
    assert(base + Seq::new((k - n) as nat, |i: int| ' ') =~= "    "@ + pad_right(label@, 20));
    r.append(value);
    push_char(&mut r, ' ');
    if is_override {
        r.append("(override)");
    } else {
        r.append("(default)");
    }
    assert(r@ =~= log_line(label@, value@, is_override));
    r
}

/// The form fields of the scan settings, in display order.
pub open spec fn scan_field_definitions() -> Seq<FieldDefinition> {
    seq![
        FieldDefinition {
            id: "scan_rate_pps",
            label: "Port Scan Rate",
            field_type: FieldType::Number,
            placeholder: Some("500"),
            secret: false,
            optional: true,
            help_text: Some("Probes per second during port scanning. Lower values reduce network impact."),
            default_value: Some("500"),
            category: Some("Port Scanning"),
            options: None,
        },
        FieldDefinition {
            id: "arp_rate_pps",
            label: "ARP Scan Rate",
            field_type: FieldType::Number,
            placeholder: Some("50"),
            secret: false,
            optional: true,
            help_text: Some("ARP packets per second during host discovery. Keep low on networks with strict switch policies."),
            default_value: Some("50"),
            category: Some("ARP"),
            options: None,
        },
        FieldDefinition {
            id: "arp_retries",
            label: "ARP Retries",
            field_type: FieldType::Number,
            placeholder: Some("2"),
            secret: false,
            optional: true,
            help_text: Some("Additional ARP rounds for non-responsive hosts. Total attempts = retries + 1."),
            default_value: Some("2"),
            category: Some("ARP"),
            options: None,
        },
        FieldDefinition {
            id: "port_scan_batch_size",
            label: "Port Scan Batch Size",
            field_type: FieldType::Number,
            placeholder: Some("200"),
            secret: false,
            optional: true,
            help_text: Some("Ports scanned concurrently per host. Range: 16-1000."),
            default_value: Some("200"),
            category: Some("Port Scanning"),
            options: None,
        },
        FieldDefinition {
            id: "probe_raw_socket_ports",
            label: "Probe Raw Socket Ports",
            field_type: FieldType::Boolean,
            placeholder: None,
            secret: false,
            optional: false,
            help_text: Some("Scan ports 9100-9107. May cause ghost printing on some printers."),
            default_value: Some("false"),
            category: Some("Detection"),
            options: None,
        },
        FieldDefinition {
            id: "arp_scan_cutoff",
            label: "ARP Scan Cutoff",
            field_type: FieldType::Number,
            placeholder: Some("15"),
            secret: false,
            optional: true,
            help_text: Some("Interfaced subnets larger than this CIDR prefix are truncated during ARP scanning. Lower values scan more IPs — increase ARP Scan Rate accordingly for large subnets."),
            default_value: Some("15"),
            category: Some("ARP"),
            options: None,
        },
        FieldDefinition {
            id: "use_npcap_arp",
            label: "Use Npcap ARP (Windows)",
            field_type: FieldType::Boolean,
            placeholder: None,
            secret: false,
            optional: false,
            help_text: Some("Use Npcap broadcast ARP instead of Windows SendARP. Requires Npcap installed."),
            default_value: Some("false"),
            category: Some("ARP"),
            options: None,
        },
        FieldDefinition {
            id: "full_scan_interval",
            label: "Full Scan Interval",
            field_type: FieldType::Number,
            placeholder: Some("3"),
            secret: false,
            optional: true,
            help_text: Some("Run a full 65k port scan every N scans. Other scans use a lighter port set for faster results. Set to 0 for light scans only, 1 for every scan to be full."),
            default_value: Some("3"),
            category: Some("Detection"),
            options: None,
        },
        FieldDefinition {
            id: "max_discovery_duration",
            label: "Max Discovery Duration (seconds)",
            field_type: FieldType::Number,
            placeholder: Some("21600"),
            secret: false,
            optional: true,
            help_text: Some("Hard time limit for a single discovery run, in seconds (default 21600 = 6 hours). When reached, the run stops and any hosts not yet scanned are left for the next run. Raise this for very large networks that need a longer window."),
            default_value: Some("21600"),
            category: Some("Detection"),
            options: None,
        },
    ]
}

} // verus!
