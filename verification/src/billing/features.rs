//! Plan features: the per-tier feature table and the feature lists derived
//! from it.
use vstd::prelude::*;

use crate::billing::plan::BillingPlanDiscriminants;
use crate::text::str_equal;

verus! {

/// A plan feature. The order of the variants is the order in which feature
/// lists are reported.
#[derive(Debug, Clone, Copy, PartialEq, Eq, Structural, Hash)]
pub enum Feature {
    ShareViews,
    CustomSso,
    ApiAccess,
    ManagedDeployment,
    Embeds,
    Whitelabeling,
    LiveChatSupport,
    PrioritySupport,
    EmailSupport,
    OnboardingCall,
    Webhooks,
    AuditLogs,
    RemoveCreatedWith,
    NetworkMapping,
    PngExport,
    SvgExport,
    MermaidExport,
    ConfluenceExport,
    PdfExport,
    HtmlExport,
    ScheduledDiscovery,
    DiscoveryIntegrations,
    CsvExport,
    SnapshotRetentionDays,
}

/// The feature flags of a plan, and its snapshot retention window in days
/// (`0`: snapshots unavailable).
#[derive(Debug, Clone, Copy, PartialEq, Eq, Structural)]
pub struct BillingPlanFeatures {
    pub share_views: bool,
    pub remove_created_with: bool,
    pub audit_logs: bool,
    pub webhooks: bool,
    pub api_access: bool,
    pub onboarding_call: bool,
    pub custom_sso: bool,
    pub managed_deployment: bool,
    pub whitelabeling: bool,
    pub live_chat_support: bool,
    pub embeds: bool,
    pub email_support: bool,
    pub priority_support: bool,
    pub network_mapping: bool,
    pub png_export: bool,
    pub svg_export: bool,
    pub mermaid_export: bool,
    pub confluence_export: bool,
    pub pdf_export: bool,
    pub html_export: bool,
    pub scheduled_discovery: bool,
    pub discovery_integrations: bool,
    pub csv_export: bool,
    pub snapshot_retention_days: u32,
}

// ---------------------------------------------------------------------------
// Specifications
// ---------------------------------------------------------------------------

/// The identifier of a feature: the name of its field.
pub open spec fn feature_id(f: Feature) -> &'static str {
    match f {
        Feature::ShareViews => "share_views",
        Feature::CustomSso => "custom_sso",
        Feature::ApiAccess => "api_access",
        Feature::ManagedDeployment => "managed_deployment",
        Feature::Embeds => "embeds",
        Feature::Whitelabeling => "whitelabeling",
        Feature::LiveChatSupport => "live_chat_support",
        Feature::PrioritySupport => "priority_support",
        Feature::EmailSupport => "email_support",
        Feature::OnboardingCall => "onboarding_call",
        Feature::Webhooks => "webhooks",
        Feature::AuditLogs => "audit_logs",
        Feature::RemoveCreatedWith => "remove_created_with",
        Feature::NetworkMapping => "network_mapping",
        Feature::PngExport => "png_export",
        Feature::SvgExport => "svg_export",
        Feature::MermaidExport => "mermaid_export",
        Feature::ConfluenceExport => "confluence_export",
        Feature::PdfExport => "pdf_export",
        Feature::HtmlExport => "html_export",
        Feature::ScheduledDiscovery => "scheduled_discovery",
        Feature::DiscoveryIntegrations => "discovery_integrations",
        Feature::CsvExport => "csv_export",
        Feature::SnapshotRetentionDays => "snapshot_retention_days",
    }
}

/// The feature whose identifier is `id`, if any.
pub open spec fn feature_of_id(id: Seq<char>) -> Option<Feature> {
    if id == "share_views"@ { Some(Feature::ShareViews) }
    else if id == "custom_sso"@ { Some(Feature::CustomSso) }
    else if id == "api_access"@ { Some(Feature::ApiAccess) }
    else if id == "managed_deployment"@ { Some(Feature::ManagedDeployment) }
    else if id == "embeds"@ { Some(Feature::Embeds) }
    else if id == "whitelabeling"@ { Some(Feature::Whitelabeling) }
    else if id == "live_chat_support"@ { Some(Feature::LiveChatSupport) }
    else if id == "priority_support"@ { Some(Feature::PrioritySupport) }
    else if id == "email_support"@ { Some(Feature::EmailSupport) }
    else if id == "onboarding_call"@ { Some(Feature::OnboardingCall) }
    else if id == "webhooks"@ { Some(Feature::Webhooks) }
    else if id == "audit_logs"@ { Some(Feature::AuditLogs) }
    else if id == "remove_created_with"@ { Some(Feature::RemoveCreatedWith) }
    else if id == "network_mapping"@ { Some(Feature::NetworkMapping) }
    else if id == "png_export"@ { Some(Feature::PngExport) }
    else if id == "svg_export"@ { Some(Feature::SvgExport) }
    else if id == "mermaid_export"@ { Some(Feature::MermaidExport) }
    else if id == "confluence_export"@ { Some(Feature::ConfluenceExport) }
    else if id == "pdf_export"@ { Some(Feature::PdfExport) }
    else if id == "html_export"@ { Some(Feature::HtmlExport) }
    else if id == "scheduled_discovery"@ { Some(Feature::ScheduledDiscovery) }
    else if id == "discovery_integrations"@ { Some(Feature::DiscoveryIntegrations) }
    else if id == "csv_export"@ { Some(Feature::CsvExport) }
    else if id == "snapshot_retention_days"@ { Some(Feature::SnapshotRetentionDays) }
    else { None }
}

/// Whether `feat` is on in `f`; the retention window counts as on when it
/// is above zero.
pub open spec fn feature_on(f: BillingPlanFeatures, feat: Feature) -> bool {
    match feat {
        Feature::ShareViews => f.share_views,
        Feature::CustomSso => f.custom_sso,
        Feature::ApiAccess => f.api_access,
        Feature::ManagedDeployment => f.managed_deployment,
        Feature::Embeds => f.embeds,
        Feature::Whitelabeling => f.whitelabeling,
        Feature::LiveChatSupport => f.live_chat_support,
        Feature::PrioritySupport => f.priority_support,
        Feature::EmailSupport => f.email_support,
        Feature::OnboardingCall => f.onboarding_call,
        Feature::Webhooks => f.webhooks,
        Feature::AuditLogs => f.audit_logs,
        Feature::RemoveCreatedWith => f.remove_created_with,
        Feature::NetworkMapping => f.network_mapping,
        Feature::PngExport => f.png_export,
        Feature::SvgExport => f.svg_export,
        Feature::MermaidExport => f.mermaid_export,
        Feature::ConfluenceExport => f.confluence_export,
        Feature::PdfExport => f.pdf_export,
        Feature::HtmlExport => f.html_export,
        Feature::ScheduledDiscovery => f.scheduled_discovery,
        Feature::DiscoveryIntegrations => f.discovery_integrations,
        Feature::CsvExport => f.csv_export,
        Feature::SnapshotRetentionDays => f.snapshot_retention_days > 0,
    }
}

/// Every feature, in reporting order.
pub open spec fn all_features() -> Seq<Feature> {
    seq![
        Feature::ShareViews, Feature::CustomSso, Feature::ApiAccess, Feature::ManagedDeployment,
        Feature::Embeds, Feature::Whitelabeling, Feature::LiveChatSupport, Feature::PrioritySupport,
        Feature::EmailSupport, Feature::OnboardingCall, Feature::Webhooks, Feature::AuditLogs,
        Feature::RemoveCreatedWith, Feature::NetworkMapping, Feature::PngExport, Feature::SvgExport,
        Feature::MermaidExport, Feature::ConfluenceExport, Feature::PdfExport, Feature::HtmlExport,
        Feature::ScheduledDiscovery, Feature::DiscoveryIntegrations, Feature::CsvExport,
        Feature::SnapshotRetentionDays,
    ]
}

/// The boolean features: all but the retention window.
pub open spec fn flag_features() -> Seq<Feature> {
    all_features().drop_last()
}

/// The items of `list` that `keep` accepts, in order.
pub open spec fn select(list: Seq<Feature>, keep: spec_fn(Feature) -> bool) -> Seq<Feature>
    decreases list.len(),
{
    if list.len() == 0 {
        Seq::empty()
    } else {
        select(list.drop_last(), keep) + (if keep(list.last()) {
            seq![list.last()]
        } else {
            Seq::empty()
        })
    }
}

/// Accepts the features on in `f` and, when `base` is given, off in `base`.
pub open spec fn on_beyond(f: BillingPlanFeatures, base: Option<BillingPlanFeatures>) -> spec_fn(Feature) -> bool {
    |x: Feature| feature_on(f, x) && (match base {
        Some(b) => !feature_on(b, x),
        None => true,
    })
}

/// The features that are on in `f`, the retention window counting when it
/// is above zero.
pub open spec fn enabled_features(f: BillingPlanFeatures) -> Seq<Feature> {
    select(all_features(), on_beyond(f, None))
}

/// The features on in `f` and off in `base`.
pub open spec fn enabled_beyond(f: BillingPlanFeatures, base: BillingPlanFeatures) -> Seq<Feature> {
    select(all_features(), on_beyond(f, Some(base)))
}

/// The feature list of `f`: every feature that is on, the retention window
/// included.
pub open spec fn feature_list(f: BillingPlanFeatures) -> Seq<Feature> {
    select(all_features(), on_beyond(f, None))
}

/// Snapshot retention of each tier, in days.
pub open spec fn tier_retention_days(k: BillingPlanDiscriminants) -> u32 {
    match k {
        BillingPlanDiscriminants::Free => 0,
        BillingPlanDiscriminants::Starter => 7,
        BillingPlanDiscriminants::Pro => 30,
        _ => 90,
    }
}

/// The feature table: what each tier offers.
pub open spec fn tier_features(k: BillingPlanDiscriminants) -> BillingPlanFeatures {
    let free = k == BillingPlanDiscriminants::Free;
    let community = k == BillingPlanDiscriminants::Community;
    let starter = k == BillingPlanDiscriminants::Starter;
    let pro = k == BillingPlanDiscriminants::Pro;
    let team = k == BillingPlanDiscriminants::Team;
    let enterprise = k == BillingPlanDiscriminants::Enterprise;
    let demo = k == BillingPlanDiscriminants::Demo;
    let csh = k == BillingPlanDiscriminants::CommercialSelfHosted;
    let below_team = free || community || starter || pro;
    BillingPlanFeatures {
        share_views: !free,
        remove_created_with: !(free || community),
        audit_logs: !(below_team || team),
        webhooks: !(below_team || team),
        api_access: !(free || starter),
        onboarding_call: !below_team,
        custom_sso: enterprise || demo || csh,
        managed_deployment: enterprise || demo,
        whitelabeling: enterprise || demo,
        live_chat_support: enterprise || demo,
        embeds: !(free || starter),
        email_support: !(free || community),
        priority_support: !below_team,
        network_mapping: true,
        png_export: true,
        svg_export: !free,
        mermaid_export: !(free || starter),
        confluence_export: !below_team,
        pdf_export: !(free || starter),
        html_export: !(free || starter),
        scheduled_discovery: !free,
        discovery_integrations: true,
        csv_export: true,
        snapshot_retention_days: tier_retention_days(k),
    }
}

// ---------------------------------------------------------------------------
// Executable code
// ---------------------------------------------------------------------------

/// The feature table entry of tier `k`.
pub fn features_of_tier(k: BillingPlanDiscriminants) -> (f: BillingPlanFeatures)
    ensures
        f == tier_features(k),
{
    let free = k == BillingPlanDiscriminants::Free;
    let community = k == BillingPlanDiscriminants::Community;
    let starter = k == BillingPlanDiscriminants::Starter;
    let pro = k == BillingPlanDiscriminants::Pro;
    let team = k == BillingPlanDiscriminants::Team;
    let enterprise = k == BillingPlanDiscriminants::Enterprise;
    let demo = k == BillingPlanDiscriminants::Demo;
    let csh = k == BillingPlanDiscriminants::CommercialSelfHosted;
    let below_team = free || community || starter || pro;
    let retention: u32 = match k {
        BillingPlanDiscriminants::Free => 0,
        BillingPlanDiscriminants::Starter => 7,
        BillingPlanDiscriminants::Pro => 30,
        _ => 90,
    };
    BillingPlanFeatures {
        share_views: !free,
        remove_created_with: !(free || community),
        audit_logs: !(below_team || team),
        webhooks: !(below_team || team),
        api_access: !(free || starter),
        onboarding_call: !below_team,
        custom_sso: enterprise || demo || csh,
        managed_deployment: enterprise || demo,
        whitelabeling: enterprise || demo,
        live_chat_support: enterprise || demo,
        embeds: !(free || starter),
        email_support: !(free || community),
        priority_support: !below_team,
        network_mapping: true,
        png_export: true,
        svg_export: !free,
        mermaid_export: !(free || starter),
        confluence_export: !below_team,
        pdf_export: !(free || starter),
        html_export: !(free || starter),
        scheduled_discovery: !free,
        discovery_integrations: true,
        csv_export: true,
        snapshot_retention_days: retention,
    }
}

/// The feature table, tier by tier. Webhooks and audit logs come only with
/// Business, Enterprise, the demo and commercial self-hosting; Team has
/// onboarding calls, priority support and Confluence export but neither of
/// those.
pub proof fn lemma_feature_table(k: BillingPlanDiscriminants)
    ensures
        tier_features(BillingPlanDiscriminants::Community) == (BillingPlanFeatures { share_views: true, remove_created_with: false, audit_logs: false, webhooks: false, api_access: true, onboarding_call: false, custom_sso: false, managed_deployment: false, whitelabeling: false, live_chat_support: false, embeds: true, email_support: false, priority_support: false, network_mapping: true, png_export: true, svg_export: true, mermaid_export: true, confluence_export: false, pdf_export: true, html_export: true, scheduled_discovery: true, discovery_integrations: true, csv_export: true, snapshot_retention_days: 90 }),
        tier_features(BillingPlanDiscriminants::Free) == (BillingPlanFeatures { share_views: false, remove_created_with: false, audit_logs: false, webhooks: false, api_access: false, onboarding_call: false, custom_sso: false, managed_deployment: false, whitelabeling: false, live_chat_support: false, embeds: false, email_support: false, priority_support: false, network_mapping: true, png_export: true, svg_export: false, mermaid_export: false, confluence_export: false, pdf_export: false, html_export: false, scheduled_discovery: false, discovery_integrations: true, csv_export: true, snapshot_retention_days: 0 }),
        tier_features(BillingPlanDiscriminants::Starter) == (BillingPlanFeatures { share_views: true, remove_created_with: true, audit_logs: false, webhooks: false, api_access: false, onboarding_call: false, custom_sso: false, managed_deployment: false, whitelabeling: false, live_chat_support: false, embeds: false, email_support: true, priority_support: false, network_mapping: true, png_export: true, svg_export: true, mermaid_export: false, confluence_export: false, pdf_export: false, html_export: false, scheduled_discovery: true, discovery_integrations: true, csv_export: true, snapshot_retention_days: 7 }),
        tier_features(BillingPlanDiscriminants::Pro) == (BillingPlanFeatures { share_views: true, remove_created_with: true, audit_logs: false, webhooks: false, api_access: true, onboarding_call: false, custom_sso: false, managed_deployment: false, whitelabeling: false, live_chat_support: false, embeds: true, email_support: true, priority_support: false, network_mapping: true, png_export: true, svg_export: true, mermaid_export: true, confluence_export: false, pdf_export: true, html_export: true, scheduled_discovery: true, discovery_integrations: true, csv_export: true, snapshot_retention_days: 30 }),
        tier_features(BillingPlanDiscriminants::Team) == (BillingPlanFeatures { share_views: true, remove_created_with: true, audit_logs: false, webhooks: false, api_access: true, onboarding_call: true, custom_sso: false, managed_deployment: false, whitelabeling: false, live_chat_support: false, embeds: true, email_support: true, priority_support: true, network_mapping: true, png_export: true, svg_export: true, mermaid_export: true, confluence_export: true, pdf_export: true, html_export: true, scheduled_discovery: true, discovery_integrations: true, csv_export: true, snapshot_retention_days: 90 }),
        tier_features(BillingPlanDiscriminants::Business) == (BillingPlanFeatures { share_views: true, remove_created_with: true, audit_logs: true, webhooks: true, api_access: true, onboarding_call: true, custom_sso: false, managed_deployment: false, whitelabeling: false, live_chat_support: false, embeds: true, email_support: true, priority_support: true, network_mapping: true, png_export: true, svg_export: true, mermaid_export: true, confluence_export: true, pdf_export: true, html_export: true, scheduled_discovery: true, discovery_integrations: true, csv_export: true, snapshot_retention_days: 90 }),
        tier_features(BillingPlanDiscriminants::Enterprise) == (BillingPlanFeatures { share_views: true, remove_created_with: true, audit_logs: true, webhooks: true, api_access: true, onboarding_call: true, custom_sso: true, managed_deployment: true, whitelabeling: true, live_chat_support: true, embeds: true, email_support: true, priority_support: true, network_mapping: true, png_export: true, svg_export: true, mermaid_export: true, confluence_export: true, pdf_export: true, html_export: true, scheduled_discovery: true, discovery_integrations: true, csv_export: true, snapshot_retention_days: 90 }),
        tier_features(BillingPlanDiscriminants::Demo) == (BillingPlanFeatures { share_views: true, remove_created_with: true, audit_logs: true, webhooks: true, api_access: true, onboarding_call: true, custom_sso: true, managed_deployment: true, whitelabeling: true, live_chat_support: true, embeds: true, email_support: true, priority_support: true, network_mapping: true, png_export: true, svg_export: true, mermaid_export: true, confluence_export: true, pdf_export: true, html_export: true, scheduled_discovery: true, discovery_integrations: true, csv_export: true, snapshot_retention_days: 90 }),
        tier_features(BillingPlanDiscriminants::CommercialSelfHosted) == (BillingPlanFeatures { share_views: true, remove_created_with: true, audit_logs: true, webhooks: true, api_access: true, onboarding_call: true, custom_sso: true, managed_deployment: false, whitelabeling: false, live_chat_support: false, embeds: true, email_support: true, priority_support: true, network_mapping: true, png_export: true, svg_export: true, mermaid_export: true, confluence_export: true, pdf_export: true, html_export: true, scheduled_discovery: true, discovery_integrations: true, csv_export: true, snapshot_retention_days: 90 }),
        tier_features(k).webhooks <==> (k == BillingPlanDiscriminants::Business || k == BillingPlanDiscriminants::Enterprise
            || k == BillingPlanDiscriminants::Demo || k == BillingPlanDiscriminants::CommercialSelfHosted),
        tier_features(k).audit_logs <==> (k == BillingPlanDiscriminants::Business || k == BillingPlanDiscriminants::Enterprise
            || k == BillingPlanDiscriminants::Demo || k == BillingPlanDiscriminants::CommercialSelfHosted),
{
}

/// What Team offers, feature by feature: everything but webhooks, audit
/// logs, custom SSO, managed deployment, whitelabeling and live chat.
pub proof fn lemma_team_features(f: Feature)
    ensures
        feature_on(tier_features(BillingPlanDiscriminants::Team), f) <==> !(f is Webhooks || f is AuditLogs || f is CustomSso
            || f is ManagedDeployment || f is Whitelabeling || f is LiveChatSupport),
{
}

/// Every feature, in reporting order.
pub fn all_feature_list() -> (v: Vec<Feature>)
    ensures
        v@ == all_features(),
{
    let v = vec![
        Feature::ShareViews, Feature::CustomSso, Feature::ApiAccess, Feature::ManagedDeployment,
        Feature::Embeds, Feature::Whitelabeling, Feature::LiveChatSupport, Feature::PrioritySupport,
        Feature::EmailSupport, Feature::OnboardingCall, Feature::Webhooks, Feature::AuditLogs,
        Feature::RemoveCreatedWith, Feature::NetworkMapping, Feature::PngExport, Feature::SvgExport,
        Feature::MermaidExport, Feature::ConfluenceExport, Feature::PdfExport, Feature::HtmlExport,
        Feature::ScheduledDiscovery, Feature::DiscoveryIntegrations, Feature::CsvExport,
        Feature::SnapshotRetentionDays,
    ];
    assert(v@ == all_features());
    v
}

impl Feature {
    /// The identifier of the feature.
    pub fn id(&self) -> (r: &'static str)
        ensures
            r == feature_id(*self),
    {
        match self {
            Feature::ShareViews => "share_views",
            Feature::CustomSso => "custom_sso",
            Feature::ApiAccess => "api_access",
            Feature::ManagedDeployment => "managed_deployment",
            Feature::Embeds => "embeds",
            Feature::Whitelabeling => "whitelabeling",
            Feature::LiveChatSupport => "live_chat_support",
            Feature::PrioritySupport => "priority_support",
            Feature::EmailSupport => "email_support",
            Feature::OnboardingCall => "onboarding_call",
            Feature::Webhooks => "webhooks",
            Feature::AuditLogs => "audit_logs",
            Feature::RemoveCreatedWith => "remove_created_with",
            Feature::NetworkMapping => "network_mapping",
            Feature::PngExport => "png_export",
            Feature::SvgExport => "svg_export",
            Feature::MermaidExport => "mermaid_export",
            Feature::ConfluenceExport => "confluence_export",
            Feature::PdfExport => "pdf_export",
            Feature::HtmlExport => "html_export",
            Feature::ScheduledDiscovery => "scheduled_discovery",
            Feature::DiscoveryIntegrations => "discovery_integrations",
            Feature::CsvExport => "csv_export",
            Feature::SnapshotRetentionDays => "snapshot_retention_days",
        }
    }

    /// The feature whose identifier is `id`, if any.
    pub fn from_id(id: &str) -> (r: Option<Feature>)
        ensures
            r == feature_of_id(id@),
    {
        if str_equal(id, "share_views") { Some(Feature::ShareViews) }
        else if str_equal(id, "custom_sso") { Some(Feature::CustomSso) }
        else if str_equal(id, "api_access") { Some(Feature::ApiAccess) }
        else if str_equal(id, "managed_deployment") { Some(Feature::ManagedDeployment) }
        else if str_equal(id, "embeds") { Some(Feature::Embeds) }
        else if str_equal(id, "whitelabeling") { Some(Feature::Whitelabeling) }
        else if str_equal(id, "live_chat_support") { Some(Feature::LiveChatSupport) }
        else if str_equal(id, "priority_support") { Some(Feature::PrioritySupport) }
        else if str_equal(id, "email_support") { Some(Feature::EmailSupport) }
        else if str_equal(id, "onboarding_call") { Some(Feature::OnboardingCall) }
        else if str_equal(id, "webhooks") { Some(Feature::Webhooks) }
        else if str_equal(id, "audit_logs") { Some(Feature::AuditLogs) }
        else if str_equal(id, "remove_created_with") { Some(Feature::RemoveCreatedWith) }
        else if str_equal(id, "network_mapping") { Some(Feature::NetworkMapping) }
        else if str_equal(id, "png_export") { Some(Feature::PngExport) }
        else if str_equal(id, "svg_export") { Some(Feature::SvgExport) }
        else if str_equal(id, "mermaid_export") { Some(Feature::MermaidExport) }
        else if str_equal(id, "confluence_export") { Some(Feature::ConfluenceExport) }
        else if str_equal(id, "pdf_export") { Some(Feature::PdfExport) }
        else if str_equal(id, "html_export") { Some(Feature::HtmlExport) }
        else if str_equal(id, "scheduled_discovery") { Some(Feature::ScheduledDiscovery) }
        else if str_equal(id, "discovery_integrations") { Some(Feature::DiscoveryIntegrations) }
        else if str_equal(id, "csv_export") { Some(Feature::CsvExport) }
        else if str_equal(id, "snapshot_retention_days") { Some(Feature::SnapshotRetentionDays) }
        else { None }
    }
}

impl BillingPlanFeatures {
    /// Whether `feat` is on.
    pub fn is_on(&self, feat: Feature) -> (r: bool)
        ensures
            r == feature_on(*self, feat),
    {
        match feat {
            Feature::ShareViews => self.share_views,
            Feature::CustomSso => self.custom_sso,
            Feature::ApiAccess => self.api_access,
            Feature::ManagedDeployment => self.managed_deployment,
            Feature::Embeds => self.embeds,
            Feature::Whitelabeling => self.whitelabeling,
            Feature::LiveChatSupport => self.live_chat_support,
            Feature::PrioritySupport => self.priority_support,
            Feature::EmailSupport => self.email_support,
            Feature::OnboardingCall => self.onboarding_call,
            Feature::Webhooks => self.webhooks,
            Feature::AuditLogs => self.audit_logs,
            Feature::RemoveCreatedWith => self.remove_created_with,
            Feature::NetworkMapping => self.network_mapping,
            Feature::PngExport => self.png_export,
            Feature::SvgExport => self.svg_export,
            Feature::MermaidExport => self.mermaid_export,
            Feature::ConfluenceExport => self.confluence_export,
            Feature::PdfExport => self.pdf_export,
            Feature::HtmlExport => self.html_export,
            Feature::ScheduledDiscovery => self.scheduled_discovery,
            Feature::DiscoveryIntegrations => self.discovery_integrations,
            Feature::CsvExport => self.csv_export,
            Feature::SnapshotRetentionDays => self.snapshot_retention_days > 0,
        }
    }

    /// The items of `list[..upto]` that are on here and, when `base` is
    /// given, off there.
    fn select_from(&self, list: &Vec<Feature>, upto: usize, base: Option<&BillingPlanFeatures>) -> (r: Vec<Feature>)
        requires
            upto <= list@.len(),
        ensures
            r@ == select(list@.take(upto as int), on_beyond(*self, match base { Some(b) => Some(*b), None => None })),
    {
        let ghost keep = on_beyond(*self, match base { Some(b) => Some(*b), None => None });
        let mut r: Vec<Feature> = Vec::new();
        let mut i: usize = 0;
        while i < upto
            invariant
                i <= upto <= list@.len(),
                keep == on_beyond(*self, match base { Some(b) => Some(*b), None => None }),
                r@ == select(list@.take(i as int), keep),
            decreases upto - i,
        {
            let feat = list[i];
            let on = self.is_on(feat);
            let wanted = match base {
                Some(b) => on && !b.is_on(feat),
                None => on,
            };
            proof {
                let next = list@.take(i + 1);
                assert(next.drop_last() == list@.take(i as int));
                assert(next.last() == feat);
                assert(wanted == keep(feat));
            }
            if wanted {
                r.push(feat);
            }
            i = i + 1;
        }
        r
    }

    /// Identifiers of the given features.
    fn ids_of(list: &Vec<Feature>) -> (r: Vec<&'static str>)
        ensures
            r@ == list@.map_values(|f: Feature| feature_id(f)),
    {
        let mut r: Vec<&'static str> = Vec::new();
        let mut i: usize = 0;
        while i < list.len()
            invariant
                i <= list@.len(),
                r@ == list@.take(i as int).map_values(|f: Feature| feature_id(f)),
            decreases list.len() - i,
        {
            r.push(list[i].id());
            assert(list@.take(i + 1) == list@.take(i as int).push(list@[i as int]));
            i = i + 1;
        }
        assert(list@.take(list@.len() as int) == list@);
        r
    }

    /// Identifiers of the features that are on.
    pub fn enabled_ids(&self) -> (r: Vec<&'static str>)
        ensures
            r@ == enabled_features(*self).map_values(|f: Feature| feature_id(f)),
    {
        let all = all_feature_list();
        let on = self.select_from(&all, 24, None);
        assert(all@.take(24) == all@);
        Self::ids_of(&on)
    }

    /// Identifiers of the features on here and off in `base`.
    pub fn ids_beyond(&self, base: &BillingPlanFeatures) -> (r: Vec<&'static str>)
        ensures
            r@ == enabled_beyond(*self, *base).map_values(|f: Feature| feature_id(f)),
    {
        let all = all_feature_list();
        let on = self.select_from(&all, 24, Some(base));
        assert(all@.take(24) == all@);
        Self::ids_of(&on)
    }

    /// Whether the feature with identifier `id` is on; unknown identifiers
    /// are off.
    pub fn has(&self, id: &str) -> (r: bool)
        ensures
            r == (match feature_of_id(id@) {
                Some(f) => feature_on(*self, f),
                None => false,
            }),
    {
        match Feature::from_id(id) {
            Some(f) => self.is_on(f),
            None => false,
        }
    }

    /// The features that are on, in reporting order; the retention window
    /// is listed when it is above zero.
    pub fn into(self) -> (r: Vec<Feature>)
        ensures
            r@ == feature_list(self),
    {
        let all = all_feature_list();
        let r = self.select_from(&all, 24, None);
        assert(all@.take(24) == all@);
        r
    }
}

/// Along the cloud ladder every tier offers all that the tier below it
/// offers, and keeps snapshots at least as long.
pub proof fn lemma_ladder_is_monotone(k: BillingPlanDiscriminants, below: BillingPlanDiscriminants, f: Feature)
    requires
        crate::billing::plan::previous_cloud_tier(k) == Some(below),
    ensures
        feature_on(tier_features(below), f) ==> feature_on(tier_features(k), f),
        tier_retention_days(below) <= tier_retention_days(k),
{
}

/// A plan's feature list is its boolean features that are on, followed by
/// the retention window when snapshots are kept.
pub proof fn lemma_feature_list_parts(f: BillingPlanFeatures)
    ensures
        feature_list(f) == select(flag_features(), on_beyond(f, None)) + (if f.snapshot_retention_days > 0 {
            seq![Feature::SnapshotRetentionDays]
        } else {
            Seq::empty()
        }),
{
    assert(all_features().drop_last() == flag_features());
    assert(all_features().last() == Feature::SnapshotRetentionDays);
}

proof fn lemma_select_members(list: Seq<Feature>, keep: spec_fn(Feature) -> bool)
    ensures
        forall|x: Feature| #[trigger] select(list, keep).contains(x) <==> (list.contains(x) && keep(x)),
        list.no_duplicates() ==> select(list, keep).no_duplicates(),
    decreases list.len(),
{
    if list.len() > 0 {
        let init = list.drop_last();
        let last = list.last();
        lemma_select_members(init, keep);
        let tail: Seq<Feature> = if keep(last) { seq![last] } else { Seq::empty() };
        let s = select(list, keep);
        assert(s == select(init, keep) + tail);
        assert forall|x: Feature| #[trigger] s.contains(x) <==> (list.contains(x) && keep(x)) by {
            if s.contains(x) {
                let i = choose|i: int| 0 <= i < s.len() && s[i] == x;
                if i < select(init, keep).len() {
                    assert(select(init, keep)[i] == x);
                    assert(select(init, keep).contains(x));
                    assert(init.contains(x));
                    let j = choose|j: int| 0 <= j < init.len() && init[j] == x;
                    assert(list[j] == x);
                } else {
                    assert(tail[i - select(init, keep).len()] == x);
                    assert(list[list.len() - 1] == x);
                }
            }
            if list.contains(x) && keep(x) {
                let j = choose|j: int| 0 <= j < list.len() && list[j] == x;
                if j < list.len() - 1 {
                    assert(init[j] == x);
                    assert(select(init, keep).contains(x));
                    let i = choose|i: int| 0 <= i < select(init, keep).len() && select(init, keep)[i] == x;
                    assert(s[i] == x);
                } else {
                    assert(s[s.len() - 1] == x);
                }
            }
        }
        if list.no_duplicates() {
            assert(init.no_duplicates()) by {
                assert forall|i: int, j: int| 0 <= i < init.len() && 0 <= j < init.len() && i != j
                    implies init[i] != init[j] by {
                    assert(init[i] == list[i] && init[j] == list[j]);
                }
            }
            assert(!init.contains(last)) by {
                if init.contains(last) {
                    let j = choose|j: int| 0 <= j < init.len() && init[j] == last;
                    assert(list[j] == list[list.len() - 1]);
                }
            }
            let si = select(init, keep);
            assert forall|i: int, j: int| 0 <= i < s.len() && 0 <= j < s.len() && i != j implies s[i] != s[j] by {
                if i < si.len() && j < si.len() {
                    assert(s[i] == si[i] && s[j] == si[j]);
                } else if i < si.len() {
                    assert(s[i] == si[i]);
                    assert(si.contains(si[i]));
                    assert(s[j] == last);
                } else if j < si.len() {
                    assert(s[j] == si[j]);
                    assert(si.contains(si[j]));
                    assert(s[i] == last);
                }
            }
        }
    }
}

proof fn lemma_all_features_complete()
    ensures
        all_features().no_duplicates(),
        forall|x: Feature| #[trigger] all_features().contains(x),
{
    let a = all_features();
    assert(a.len() == 24);
    assert forall|x: Feature| #[trigger] a.contains(x) by {
        let i: int = feature_rank(x);
        assert(a[i] == x);
    }
    assert forall|i: int, j: int| 0 <= i < a.len() && 0 <= j < a.len() && i != j implies a[i] != a[j] by {
        assert(feature_rank(a[i]) == i);
        assert(feature_rank(a[j]) == j);
    }
}

/// The place of a feature in reporting order.
pub open spec fn feature_rank(f: Feature) -> int {
    match f {
        Feature::ShareViews => 0,
        Feature::CustomSso => 1,
        Feature::ApiAccess => 2,
        Feature::ManagedDeployment => 3,
        Feature::Embeds => 4,
        Feature::Whitelabeling => 5,
        Feature::LiveChatSupport => 6,
        Feature::PrioritySupport => 7,
        Feature::EmailSupport => 8,
        Feature::OnboardingCall => 9,
        Feature::Webhooks => 10,
        Feature::AuditLogs => 11,
        Feature::RemoveCreatedWith => 12,
        Feature::NetworkMapping => 13,
        Feature::PngExport => 14,
        Feature::SvgExport => 15,
        Feature::MermaidExport => 16,
        Feature::ConfluenceExport => 17,
        Feature::PdfExport => 18,
        Feature::HtmlExport => 19,
        Feature::ScheduledDiscovery => 20,
        Feature::DiscoveryIntegrations => 21,
        Feature::CsvExport => 22,
        Feature::SnapshotRetentionDays => 23,
    }
}

/// The features a plan reports (its feature list, which is also the list
/// its enabled ids name) name each feature at most once, and name a feature
/// exactly when it is on, the retention window when it is above zero.
pub proof fn lemma_feature_list_members(f: BillingPlanFeatures)
    ensures
        feature_list(f) == enabled_features(f),
        feature_list(f).no_duplicates(),
        feature_list(f).map_values(|x: Feature| feature_id(x)).no_duplicates(),
        forall|x: Feature| #[trigger] feature_list(f).contains(x) <==> feature_on(f, x),
{
    lemma_all_features_complete();
    lemma_select_members(all_features(), on_beyond(f, None));
    lemma_feature_ids_distinct(feature_list(f));
}

/// The features on in `f` and off in `base` name each feature at most once,
/// and name a feature exactly when it is on in `f` and off in `base`: the
/// set difference of the two feature sets.
pub proof fn lemma_enabled_beyond_members(f: BillingPlanFeatures, base: BillingPlanFeatures)
    ensures
        enabled_beyond(f, base).no_duplicates(),
        enabled_beyond(f, base).map_values(|x: Feature| feature_id(x)).no_duplicates(),
        forall|x: Feature| #[trigger] enabled_beyond(f, base).contains(x)
            <==> (feature_on(f, x) && !feature_on(base, x)),
{
    lemma_all_features_complete();
    lemma_select_members(all_features(), on_beyond(f, Some(base)));
    lemma_feature_ids_distinct(enabled_beyond(f, base));
}

/// A feature's identifier reads back as the feature, so distinct features
/// have distinct identifiers.
pub proof fn lemma_feature_id_round_trip(f: Feature)
    ensures
        feature_of_id(feature_id(f)@) == Some(f),
{
    match f {
        Feature::ShareViews => {
            reveal_strlit("share_views");
        },
        Feature::CustomSso => {
            reveal_strlit("custom_sso");
            reveal_strlit("share_views");
            assert("custom_sso"@.len() != "share_views"@.len());
        },
        Feature::ApiAccess => {
            reveal_strlit("api_access");
            reveal_strlit("share_views");
            assert("api_access"@.len() != "share_views"@.len());
            reveal_strlit("custom_sso");
            assert("api_access"@[0] != "custom_sso"@[0]);
        },
        Feature::ManagedDeployment => {
            reveal_strlit("managed_deployment");
            reveal_strlit("share_views");
            assert("managed_deployment"@.len() != "share_views"@.len());
            reveal_strlit("custom_sso");
            assert("managed_deployment"@.len() != "custom_sso"@.len());
            reveal_strlit("api_access");
            assert("managed_deployment"@.len() != "api_access"@.len());
        },
        Feature::Embeds => {
            reveal_strlit("embeds");
            reveal_strlit("share_views");
            assert("embeds"@.len() != "share_views"@.len());
            reveal_strlit("custom_sso");
            assert("embeds"@.len() != "custom_sso"@.len());
            reveal_strlit("api_access");
            assert("embeds"@.len() != "api_access"@.len());
            reveal_strlit("managed_deployment");
            assert("embeds"@.len() != "managed_deployment"@.len());
        },
        Feature::Whitelabeling => {
            reveal_strlit("whitelabeling");
            reveal_strlit("share_views");
            assert("whitelabeling"@.len() != "share_views"@.len());
            reveal_strlit("custom_sso");
            assert("whitelabeling"@.len() != "custom_sso"@.len());
            reveal_strlit("api_access");
            assert("whitelabeling"@.len() != "api_access"@.len());
            reveal_strlit("managed_deployment");
            assert("whitelabeling"@.len() != "managed_deployment"@.len());
            reveal_strlit("embeds");
            assert("whitelabeling"@.len() != "embeds"@.len());
        },
        Feature::LiveChatSupport => {
            reveal_strlit("live_chat_support");
            reveal_strlit("share_views");
            assert("live_chat_support"@.len() != "share_views"@.len());
            reveal_strlit("custom_sso");
            assert("live_chat_support"@.len() != "custom_sso"@.len());
            reveal_strlit("api_access");
            assert("live_chat_support"@.len() != "api_access"@.len());
            reveal_strlit("managed_deployment");
            assert("live_chat_support"@.len() != "managed_deployment"@.len());
            reveal_strlit("embeds");
            assert("live_chat_support"@.len() != "embeds"@.len());
            reveal_strlit("whitelabeling");
            assert("live_chat_support"@.len() != "whitelabeling"@.len());
        },
        Feature::PrioritySupport => {
            reveal_strlit("priority_support");
            reveal_strlit("share_views");
            assert("priority_support"@.len() != "share_views"@.len());
            reveal_strlit("custom_sso");
            assert("priority_support"@.len() != "custom_sso"@.len());
            reveal_strlit("api_access");
            assert("priority_support"@.len() != "api_access"@.len());
            reveal_strlit("managed_deployment");
            assert("priority_support"@.len() != "managed_deployment"@.len());
            reveal_strlit("embeds");
            assert("priority_support"@.len() != "embeds"@.len());
            reveal_strlit("whitelabeling");
            assert("priority_support"@.len() != "whitelabeling"@.len());
            reveal_strlit("live_chat_support");
            assert("priority_support"@.len() != "live_chat_support"@.len());
        },
        Feature::EmailSupport => {
            reveal_strlit("email_support");
            reveal_strlit("share_views");
            assert("email_support"@.len() != "share_views"@.len());
            reveal_strlit("custom_sso");
            assert("email_support"@.len() != "custom_sso"@.len());
            reveal_strlit("api_access");
            assert("email_support"@.len() != "api_access"@.len());
            reveal_strlit("managed_deployment");
            assert("email_support"@.len() != "managed_deployment"@.len());
            reveal_strlit("embeds");
            assert("email_support"@.len() != "embeds"@.len());
            reveal_strlit("whitelabeling");
            assert("email_support"@[0] != "whitelabeling"@[0]);
            reveal_strlit("live_chat_support");
            assert("email_support"@.len() != "live_chat_support"@.len());
            reveal_strlit("priority_support");
            assert("email_support"@.len() != "priority_support"@.len());
        },
        Feature::OnboardingCall => {
            reveal_strlit("onboarding_call");
            reveal_strlit("share_views");
            assert("onboarding_call"@.len() != "share_views"@.len());
            reveal_strlit("custom_sso");
            assert("onboarding_call"@.len() != "custom_sso"@.len());
            reveal_strlit("api_access");
            assert("onboarding_call"@.len() != "api_access"@.len());
            reveal_strlit("managed_deployment");
            assert("onboarding_call"@.len() != "managed_deployment"@.len());
            reveal_strlit("embeds");
            assert("onboarding_call"@.len() != "embeds"@.len());
            reveal_strlit("whitelabeling");
            assert("onboarding_call"@.len() != "whitelabeling"@.len());
            reveal_strlit("live_chat_support");
            assert("onboarding_call"@.len() != "live_chat_support"@.len());
            reveal_strlit("priority_support");
            assert("onboarding_call"@.len() != "priority_support"@.len());
            reveal_strlit("email_support");
            assert("onboarding_call"@.len() != "email_support"@.len());
        },
        Feature::Webhooks => {
            reveal_strlit("webhooks");
            reveal_strlit("share_views");
            assert("webhooks"@.len() != "share_views"@.len());
            reveal_strlit("custom_sso");
            assert("webhooks"@.len() != "custom_sso"@.len());
            reveal_strlit("api_access");
            assert("webhooks"@.len() != "api_access"@.len());
            reveal_strlit("managed_deployment");
            assert("webhooks"@.len() != "managed_deployment"@.len());
            reveal_strlit("embeds");
            assert("webhooks"@.len() != "embeds"@.len());
            reveal_strlit("whitelabeling");
            assert("webhooks"@.len() != "whitelabeling"@.len());
            reveal_strlit("live_chat_support");
            assert("webhooks"@.len() != "live_chat_support"@.len());
            reveal_strlit("priority_support");
            assert("webhooks"@.len() != "priority_support"@.len());
            reveal_strlit("email_support");
            assert("webhooks"@.len() != "email_support"@.len());
            reveal_strlit("onboarding_call");
            assert("webhooks"@.len() != "onboarding_call"@.len());
        },
        Feature::AuditLogs => {
            reveal_strlit("audit_logs");
            reveal_strlit("share_views");
            assert("audit_logs"@.len() != "share_views"@.len());
            reveal_strlit("custom_sso");
            assert("audit_logs"@[0] != "custom_sso"@[0]);
            reveal_strlit("api_access");
            assert("audit_logs"@[1] != "api_access"@[1]);
            reveal_strlit("managed_deployment");
            assert("audit_logs"@.len() != "managed_deployment"@.len());
            reveal_strlit("embeds");
            assert("audit_logs"@.len() != "embeds"@.len());
            reveal_strlit("whitelabeling");
            assert("audit_logs"@.len() != "whitelabeling"@.len());
            reveal_strlit("live_chat_support");
            assert("audit_logs"@.len() != "live_chat_support"@.len());
            reveal_strlit("priority_support");
            assert("audit_logs"@.len() != "priority_support"@.len());
            reveal_strlit("email_support");
            assert("audit_logs"@.len() != "email_support"@.len());
            reveal_strlit("onboarding_call");
            assert("audit_logs"@.len() != "onboarding_call"@.len());
            reveal_strlit("webhooks");
            assert("audit_logs"@.len() != "webhooks"@.len());
        },
        Feature::RemoveCreatedWith => {
            reveal_strlit("remove_created_with");
            reveal_strlit("share_views");
            assert("remove_created_with"@.len() != "share_views"@.len());
            reveal_strlit("custom_sso");
            assert("remove_created_with"@.len() != "custom_sso"@.len());
            reveal_strlit("api_access");
            assert("remove_created_with"@.len() != "api_access"@.len());
            reveal_strlit("managed_deployment");
            assert("remove_created_with"@.len() != "managed_deployment"@.len());
            reveal_strlit("embeds");
            assert("remove_created_with"@.len() != "embeds"@.len());
            reveal_strlit("whitelabeling");
            assert("remove_created_with"@.len() != "whitelabeling"@.len());
            reveal_strlit("live_chat_support");
            assert("remove_created_with"@.len() != "live_chat_support"@.len());
            reveal_strlit("priority_support");
            assert("remove_created_with"@.len() != "priority_support"@.len());
            reveal_strlit("email_support");
            assert("remove_created_with"@.len() != "email_support"@.len());
            reveal_strlit("onboarding_call");
            assert("remove_created_with"@.len() != "onboarding_call"@.len());
            reveal_strlit("webhooks");
            assert("remove_created_with"@.len() != "webhooks"@.len());
            reveal_strlit("audit_logs");
            assert("remove_created_with"@.len() != "audit_logs"@.len());
        },
        Feature::NetworkMapping => {
            reveal_strlit("network_mapping");
            reveal_strlit("share_views");
            assert("network_mapping"@.len() != "share_views"@.len());
            reveal_strlit("custom_sso");
            assert("network_mapping"@.len() != "custom_sso"@.len());
            reveal_strlit("api_access");
            assert("network_mapping"@.len() != "api_access"@.len());
            reveal_strlit("managed_deployment");
            assert("network_mapping"@.len() != "managed_deployment"@.len());
            reveal_strlit("embeds");
            assert("network_mapping"@.len() != "embeds"@.len());
            reveal_strlit("whitelabeling");
            assert("network_mapping"@.len() != "whitelabeling"@.len());
            reveal_strlit("live_chat_support");
            assert("network_mapping"@.len() != "live_chat_support"@.len());
            reveal_strlit("priority_support");
            assert("network_mapping"@.len() != "priority_support"@.len());
            reveal_strlit("email_support");
            assert("network_mapping"@.len() != "email_support"@.len());
            reveal_strlit("onboarding_call");
            assert("network_mapping"@[0] != "onboarding_call"@[0]);
            reveal_strlit("webhooks");
            assert("network_mapping"@.len() != "webhooks"@.len());
            reveal_strlit("audit_logs");
            assert("network_mapping"@.len() != "audit_logs"@.len());
            reveal_strlit("remove_created_with");
            assert("network_mapping"@.len() != "remove_created_with"@.len());
        },
        Feature::PngExport => {
            reveal_strlit("png_export");
            reveal_strlit("share_views");
            assert("png_export"@.len() != "share_views"@.len());
            reveal_strlit("custom_sso");
            assert("png_export"@[0] != "custom_sso"@[0]);
            reveal_strlit("api_access");
            assert("png_export"@[0] != "api_access"@[0]);
            reveal_strlit("managed_deployment");
            assert("png_export"@.len() != "managed_deployment"@.len());
            reveal_strlit("embeds");
            assert("png_export"@.len() != "embeds"@.len());
            reveal_strlit("whitelabeling");
            assert("png_export"@.len() != "whitelabeling"@.len());
            reveal_strlit("live_chat_support");
            assert("png_export"@.len() != "live_chat_support"@.len());
            reveal_strlit("priority_support");
            assert("png_export"@.len() != "priority_support"@.len());
            reveal_strlit("email_support");
            assert("png_export"@.len() != "email_support"@.len());
            reveal_strlit("onboarding_call");
            assert("png_export"@.len() != "onboarding_call"@.len());
            reveal_strlit("webhooks");
            assert("png_export"@.len() != "webhooks"@.len());
            reveal_strlit("audit_logs");
            assert("png_export"@[0] != "audit_logs"@[0]);
            reveal_strlit("remove_created_with");
            assert("png_export"@.len() != "remove_created_with"@.len());
            reveal_strlit("network_mapping");
            assert("png_export"@.len() != "network_mapping"@.len());
        },
        Feature::SvgExport => {
            reveal_strlit("svg_export");
            reveal_strlit("share_views");
            assert("svg_export"@.len() != "share_views"@.len());
            reveal_strlit("custom_sso");
            assert("svg_export"@[0] != "custom_sso"@[0]);
            reveal_strlit("api_access");
            assert("svg_export"@[0] != "api_access"@[0]);
            reveal_strlit("managed_deployment");
            assert("svg_export"@.len() != "managed_deployment"@.len());
            reveal_strlit("embeds");
            assert("svg_export"@.len() != "embeds"@.len());
            reveal_strlit("whitelabeling");
            assert("svg_export"@.len() != "whitelabeling"@.len());
            reveal_strlit("live_chat_support");
            assert("svg_export"@.len() != "live_chat_support"@.len());
            reveal_strlit("priority_support");
            assert("svg_export"@.len() != "priority_support"@.len());
            reveal_strlit("email_support");
            assert("svg_export"@.len() != "email_support"@.len());
            reveal_strlit("onboarding_call");
            assert("svg_export"@.len() != "onboarding_call"@.len());
            reveal_strlit("webhooks");
            assert("svg_export"@.len() != "webhooks"@.len());
            reveal_strlit("audit_logs");
            assert("svg_export"@[0] != "audit_logs"@[0]);
            reveal_strlit("remove_created_with");
            assert("svg_export"@.len() != "remove_created_with"@.len());
            reveal_strlit("network_mapping");
            assert("svg_export"@.len() != "network_mapping"@.len());
            reveal_strlit("png_export");
            assert("svg_export"@[0] != "png_export"@[0]);
        },
        Feature::MermaidExport => {
            reveal_strlit("mermaid_export");
            reveal_strlit("share_views");
            assert("mermaid_export"@.len() != "share_views"@.len());
            reveal_strlit("custom_sso");
            assert("mermaid_export"@.len() != "custom_sso"@.len());
            reveal_strlit("api_access");
            assert("mermaid_export"@.len() != "api_access"@.len());
            reveal_strlit("managed_deployment");
            assert("mermaid_export"@.len() != "managed_deployment"@.len());
            reveal_strlit("embeds");
            assert("mermaid_export"@.len() != "embeds"@.len());
            reveal_strlit("whitelabeling");
            assert("mermaid_export"@.len() != "whitelabeling"@.len());
            reveal_strlit("live_chat_support");
            assert("mermaid_export"@.len() != "live_chat_support"@.len());
            reveal_strlit("priority_support");
            assert("mermaid_export"@.len() != "priority_support"@.len());
            reveal_strlit("email_support");
            assert("mermaid_export"@.len() != "email_support"@.len());
            reveal_strlit("onboarding_call");
            assert("mermaid_export"@.len() != "onboarding_call"@.len());
            reveal_strlit("webhooks");
            assert("mermaid_export"@.len() != "webhooks"@.len());
            reveal_strlit("audit_logs");
            assert("mermaid_export"@.len() != "audit_logs"@.len());
            reveal_strlit("remove_created_with");
            assert("mermaid_export"@.len() != "remove_created_with"@.len());
            reveal_strlit("network_mapping");
            assert("mermaid_export"@.len() != "network_mapping"@.len());
            reveal_strlit("png_export");
            assert("mermaid_export"@.len() != "png_export"@.len());
            reveal_strlit("svg_export");
            assert("mermaid_export"@.len() != "svg_export"@.len());
        },
        Feature::ConfluenceExport => {
            reveal_strlit("confluence_export");
            reveal_strlit("share_views");
            assert("confluence_export"@.len() != "share_views"@.len());
            reveal_strlit("custom_sso");
            assert("confluence_export"@.len() != "custom_sso"@.len());
            reveal_strlit("api_access");
            assert("confluence_export"@.len() != "api_access"@.len());
            reveal_strlit("managed_deployment");
            assert("confluence_export"@.len() != "managed_deployment"@.len());
            reveal_strlit("embeds");
            assert("confluence_export"@.len() != "embeds"@.len());
            reveal_strlit("whitelabeling");
            assert("confluence_export"@.len() != "whitelabeling"@.len());
            reveal_strlit("live_chat_support");
            assert("confluence_export"@[0] != "live_chat_support"@[0]);
            reveal_strlit("priority_support");
            assert("confluence_export"@.len() != "priority_support"@.len());
            reveal_strlit("email_support");
            assert("confluence_export"@.len() != "email_support"@.len());
            reveal_strlit("onboarding_call");
            assert("confluence_export"@.len() != "onboarding_call"@.len());
            reveal_strlit("webhooks");
            assert("confluence_export"@.len() != "webhooks"@.len());
            reveal_strlit("audit_logs");
            assert("confluence_export"@.len() != "audit_logs"@.len());
            reveal_strlit("remove_created_with");
            assert("confluence_export"@.len() != "remove_created_with"@.len());
            reveal_strlit("network_mapping");
            assert("confluence_export"@.len() != "network_mapping"@.len());
            reveal_strlit("png_export");
            assert("confluence_export"@.len() != "png_export"@.len());
            reveal_strlit("svg_export");
            assert("confluence_export"@.len() != "svg_export"@.len());
            reveal_strlit("mermaid_export");
            assert("confluence_export"@.len() != "mermaid_export"@.len());
        },
        Feature::PdfExport => {
            reveal_strlit("pdf_export");
            reveal_strlit("share_views");
            assert("pdf_export"@.len() != "share_views"@.len());
            reveal_strlit("custom_sso");
            assert("pdf_export"@[0] != "custom_sso"@[0]);
            reveal_strlit("api_access");
            assert("pdf_export"@[0] != "api_access"@[0]);
            reveal_strlit("managed_deployment");
            assert("pdf_export"@.len() != "managed_deployment"@.len());
            reveal_strlit("embeds");
            assert("pdf_export"@.len() != "embeds"@.len());
            reveal_strlit("whitelabeling");
            assert("pdf_export"@.len() != "whitelabeling"@.len());
            reveal_strlit("live_chat_support");
            assert("pdf_export"@.len() != "live_chat_support"@.len());
            reveal_strlit("priority_support");
            assert("pdf_export"@.len() != "priority_support"@.len());
            reveal_strlit("email_support");
            assert("pdf_export"@.len() != "email_support"@.len());
            reveal_strlit("onboarding_call");
            assert("pdf_export"@.len() != "onboarding_call"@.len());
            reveal_strlit("webhooks");
            assert("pdf_export"@.len() != "webhooks"@.len());
            reveal_strlit("audit_logs");
            assert("pdf_export"@[0] != "audit_logs"@[0]);
            reveal_strlit("remove_created_with");
            assert("pdf_export"@.len() != "remove_created_with"@.len());
            reveal_strlit("network_mapping");
            assert("pdf_export"@.len() != "network_mapping"@.len());
            reveal_strlit("png_export");
            assert("pdf_export"@[1] != "png_export"@[1]);
            reveal_strlit("svg_export");
            assert("pdf_export"@[0] != "svg_export"@[0]);
            reveal_strlit("mermaid_export");
            assert("pdf_export"@.len() != "mermaid_export"@.len());
            reveal_strlit("confluence_export");
            assert("pdf_export"@.len() != "confluence_export"@.len());
        },
        Feature::HtmlExport => {
            reveal_strlit("html_export");
            reveal_strlit("share_views");
            assert("html_export"@[0] != "share_views"@[0]);
            reveal_strlit("custom_sso");
            assert("html_export"@.len() != "custom_sso"@.len());
            reveal_strlit("api_access");
            assert("html_export"@.len() != "api_access"@.len());
            reveal_strlit("managed_deployment");
            assert("html_export"@.len() != "managed_deployment"@.len());
            reveal_strlit("embeds");
            assert("html_export"@.len() != "embeds"@.len());
            reveal_strlit("whitelabeling");
            assert("html_export"@.len() != "whitelabeling"@.len());
            reveal_strlit("live_chat_support");
            assert("html_export"@.len() != "live_chat_support"@.len());
            reveal_strlit("priority_support");
            assert("html_export"@.len() != "priority_support"@.len());
            reveal_strlit("email_support");
            assert("html_export"@.len() != "email_support"@.len());
            reveal_strlit("onboarding_call");
            assert("html_export"@.len() != "onboarding_call"@.len());
            reveal_strlit("webhooks");
            assert("html_export"@.len() != "webhooks"@.len());
            reveal_strlit("audit_logs");
            assert("html_export"@.len() != "audit_logs"@.len());
            reveal_strlit("remove_created_with");
            assert("html_export"@.len() != "remove_created_with"@.len());
            reveal_strlit("network_mapping");
            assert("html_export"@.len() != "network_mapping"@.len());
            reveal_strlit("png_export");
            assert("html_export"@.len() != "png_export"@.len());
            reveal_strlit("svg_export");
            assert("html_export"@.len() != "svg_export"@.len());
            reveal_strlit("mermaid_export");
            assert("html_export"@.len() != "mermaid_export"@.len());
            reveal_strlit("confluence_export");
            assert("html_export"@.len() != "confluence_export"@.len());
            reveal_strlit("pdf_export");
            assert("html_export"@.len() != "pdf_export"@.len());
        },
        Feature::ScheduledDiscovery => {
            reveal_strlit("scheduled_discovery");
            reveal_strlit("share_views");
            assert("scheduled_discovery"@.len() != "share_views"@.len());
            reveal_strlit("custom_sso");
            assert("scheduled_discovery"@.len() != "custom_sso"@.len());
            reveal_strlit("api_access");
            assert("scheduled_discovery"@.len() != "api_access"@.len());
            reveal_strlit("managed_deployment");
            assert("scheduled_discovery"@.len() != "managed_deployment"@.len());
            reveal_strlit("embeds");
            assert("scheduled_discovery"@.len() != "embeds"@.len());
            reveal_strlit("whitelabeling");
            assert("scheduled_discovery"@.len() != "whitelabeling"@.len());
            reveal_strlit("live_chat_support");
            assert("scheduled_discovery"@.len() != "live_chat_support"@.len());
            reveal_strlit("priority_support");
            assert("scheduled_discovery"@.len() != "priority_support"@.len());
            reveal_strlit("email_support");
            assert("scheduled_discovery"@.len() != "email_support"@.len());
            reveal_strlit("onboarding_call");
            assert("scheduled_discovery"@.len() != "onboarding_call"@.len());
            reveal_strlit("webhooks");
            assert("scheduled_discovery"@.len() != "webhooks"@.len());
            reveal_strlit("audit_logs");
            assert("scheduled_discovery"@.len() != "audit_logs"@.len());
            reveal_strlit("remove_created_with");
            assert("scheduled_discovery"@[0] != "remove_created_with"@[0]);
            reveal_strlit("network_mapping");
            assert("scheduled_discovery"@.len() != "network_mapping"@.len());
            reveal_strlit("png_export");
            assert("scheduled_discovery"@.len() != "png_export"@.len());
            reveal_strlit("svg_export");
            assert("scheduled_discovery"@.len() != "svg_export"@.len());
            reveal_strlit("mermaid_export");
            assert("scheduled_discovery"@.len() != "mermaid_export"@.len());
            reveal_strlit("confluence_export");
            assert("scheduled_discovery"@.len() != "confluence_export"@.len());
            reveal_strlit("pdf_export");
            assert("scheduled_discovery"@.len() != "pdf_export"@.len());
            reveal_strlit("html_export");
            assert("scheduled_discovery"@.len() != "html_export"@.len());
        },
        Feature::DiscoveryIntegrations => {
            reveal_strlit("discovery_integrations");
            reveal_strlit("share_views");
            assert("discovery_integrations"@.len() != "share_views"@.len());
            reveal_strlit("custom_sso");
            assert("discovery_integrations"@.len() != "custom_sso"@.len());
            reveal_strlit("api_access");
            assert("discovery_integrations"@.len() != "api_access"@.len());
            reveal_strlit("managed_deployment");
            assert("discovery_integrations"@.len() != "managed_deployment"@.len());
            reveal_strlit("embeds");
            assert("discovery_integrations"@.len() != "embeds"@.len());
            reveal_strlit("whitelabeling");
            assert("discovery_integrations"@.len() != "whitelabeling"@.len());
            reveal_strlit("live_chat_support");
            assert("discovery_integrations"@.len() != "live_chat_support"@.len());
            reveal_strlit("priority_support");
            assert("discovery_integrations"@.len() != "priority_support"@.len());
            reveal_strlit("email_support");
            assert("discovery_integrations"@.len() != "email_support"@.len());
            reveal_strlit("onboarding_call");
            assert("discovery_integrations"@.len() != "onboarding_call"@.len());
            reveal_strlit("webhooks");
            assert("discovery_integrations"@.len() != "webhooks"@.len());
            reveal_strlit("audit_logs");
            assert("discovery_integrations"@.len() != "audit_logs"@.len());
            reveal_strlit("remove_created_with");
            assert("discovery_integrations"@.len() != "remove_created_with"@.len());
            reveal_strlit("network_mapping");
            assert("discovery_integrations"@.len() != "network_mapping"@.len());
            reveal_strlit("png_export");
            assert("discovery_integrations"@.len() != "png_export"@.len());
            reveal_strlit("svg_export");
            assert("discovery_integrations"@.len() != "svg_export"@.len());
            reveal_strlit("mermaid_export");
            assert("discovery_integrations"@.len() != "mermaid_export"@.len());
            reveal_strlit("confluence_export");
            assert("discovery_integrations"@.len() != "confluence_export"@.len());
            reveal_strlit("pdf_export");
            assert("discovery_integrations"@.len() != "pdf_export"@.len());
            reveal_strlit("html_export");
            assert("discovery_integrations"@.len() != "html_export"@.len());
            reveal_strlit("scheduled_discovery");
            assert("discovery_integrations"@.len() != "scheduled_discovery"@.len());
        },
        Feature::CsvExport => {
            reveal_strlit("csv_export");
            reveal_strlit("share_views");
            assert("csv_export"@.len() != "share_views"@.len());
            reveal_strlit("custom_sso");
            assert("csv_export"@[1] != "custom_sso"@[1]);
            reveal_strlit("api_access");
            assert("csv_export"@[0] != "api_access"@[0]);
            reveal_strlit("managed_deployment");
            assert("csv_export"@.len() != "managed_deployment"@.len());
            reveal_strlit("embeds");
            assert("csv_export"@.len() != "embeds"@.len());
            reveal_strlit("whitelabeling");
            assert("csv_export"@.len() != "whitelabeling"@.len());
            reveal_strlit("live_chat_support");
            assert("csv_export"@.len() != "live_chat_support"@.len());
            reveal_strlit("priority_support");
            assert("csv_export"@.len() != "priority_support"@.len());
            reveal_strlit("email_support");
            assert("csv_export"@.len() != "email_support"@.len());
            reveal_strlit("onboarding_call");
            assert("csv_export"@.len() != "onboarding_call"@.len());
            reveal_strlit("webhooks");
            assert("csv_export"@.len() != "webhooks"@.len());
            reveal_strlit("audit_logs");
            assert("csv_export"@[0] != "audit_logs"@[0]);
            reveal_strlit("remove_created_with");
            assert("csv_export"@.len() != "remove_created_with"@.len());
            reveal_strlit("network_mapping");
            assert("csv_export"@.len() != "network_mapping"@.len());
            reveal_strlit("png_export");
            assert("csv_export"@[0] != "png_export"@[0]);
            reveal_strlit("svg_export");
            assert("csv_export"@[0] != "svg_export"@[0]);
            reveal_strlit("mermaid_export");
            assert("csv_export"@.len() != "mermaid_export"@.len());
            reveal_strlit("confluence_export");
            assert("csv_export"@.len() != "confluence_export"@.len());
            reveal_strlit("pdf_export");
            assert("csv_export"@[0] != "pdf_export"@[0]);
            reveal_strlit("html_export");
            assert("csv_export"@.len() != "html_export"@.len());
            reveal_strlit("scheduled_discovery");
            assert("csv_export"@.len() != "scheduled_discovery"@.len());
            reveal_strlit("discovery_integrations");
            assert("csv_export"@.len() != "discovery_integrations"@.len());
        },
        Feature::SnapshotRetentionDays => {
            reveal_strlit("snapshot_retention_days");
            reveal_strlit("share_views");
            assert("snapshot_retention_days"@.len() != "share_views"@.len());
            reveal_strlit("custom_sso");
            assert("snapshot_retention_days"@.len() != "custom_sso"@.len());
            reveal_strlit("api_access");
            assert("snapshot_retention_days"@.len() != "api_access"@.len());
            reveal_strlit("managed_deployment");
            assert("snapshot_retention_days"@.len() != "managed_deployment"@.len());
            reveal_strlit("embeds");
            assert("snapshot_retention_days"@.len() != "embeds"@.len());
            reveal_strlit("whitelabeling");
            assert("snapshot_retention_days"@.len() != "whitelabeling"@.len());
            reveal_strlit("live_chat_support");
            assert("snapshot_retention_days"@.len() != "live_chat_support"@.len());
            reveal_strlit("priority_support");
            assert("snapshot_retention_days"@.len() != "priority_support"@.len());
            reveal_strlit("email_support");
            assert("snapshot_retention_days"@.len() != "email_support"@.len());
            reveal_strlit("onboarding_call");
            assert("snapshot_retention_days"@.len() != "onboarding_call"@.len());
            reveal_strlit("webhooks");
            assert("snapshot_retention_days"@.len() != "webhooks"@.len());
            reveal_strlit("audit_logs");
            assert("snapshot_retention_days"@.len() != "audit_logs"@.len());
            reveal_strlit("remove_created_with");
            assert("snapshot_retention_days"@.len() != "remove_created_with"@.len());
            reveal_strlit("network_mapping");
            assert("snapshot_retention_days"@.len() != "network_mapping"@.len());
            reveal_strlit("png_export");
            assert("snapshot_retention_days"@.len() != "png_export"@.len());
            reveal_strlit("svg_export");
            assert("snapshot_retention_days"@.len() != "svg_export"@.len());
            reveal_strlit("mermaid_export");
            assert("snapshot_retention_days"@.len() != "mermaid_export"@.len());
            reveal_strlit("confluence_export");
            assert("snapshot_retention_days"@.len() != "confluence_export"@.len());
            reveal_strlit("pdf_export");
            assert("snapshot_retention_days"@.len() != "pdf_export"@.len());
            reveal_strlit("html_export");
            assert("snapshot_retention_days"@.len() != "html_export"@.len());
            reveal_strlit("scheduled_discovery");
            assert("snapshot_retention_days"@.len() != "scheduled_discovery"@.len());
            reveal_strlit("discovery_integrations");
            assert("snapshot_retention_days"@.len() != "discovery_integrations"@.len());
            reveal_strlit("csv_export");
            assert("snapshot_retention_days"@.len() != "csv_export"@.len());
        },
    }
}

/// The identifiers of a feature list without repeats have no repeats.
pub proof fn lemma_feature_ids_distinct(fs: Seq<Feature>)
    requires
        fs.no_duplicates(),
    ensures
        fs.map_values(|f: Feature| feature_id(f)).no_duplicates(),
{
    let ids = fs.map_values(|f: Feature| feature_id(f));
    assert forall|i: int, j: int| 0 <= i < ids.len() && 0 <= j < ids.len() && i != j implies ids[i] != ids[j] by {
        lemma_feature_id_round_trip(fs[i]);
        lemma_feature_id_round_trip(fs[j]);
    }
}

} // verus!
