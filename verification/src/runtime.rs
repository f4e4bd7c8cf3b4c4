//! Runtime status: the observed state of the local stack, and the mode, health and
//! hints inferred from it.

use vstd::prelude::*;
use crate::json::{JsonValue, NamedMap, lookup};
use crate::text::{
    char_lists_view, chars_of, concat, decimal_spec, decimal_text, lines_spec, owned, split_lines, starts_with, starts_with_spec, str_eq, string_of,
    string_of_range,
};

verus! {

/// Overall runtime health.
#[derive(Debug, Clone, Copy, PartialEq, Eq, Structural)]
pub enum OverallHealth {
    Healthy,
    Degraded,
    Stopped,
    Unknown,
}

/// How the runtime is run.
#[derive(Debug, Clone, Copy, PartialEq, Eq, Structural)]
pub enum RuntimeMode {
    Systemd,
    Manual,
    Partial,
    Stopped,
    Unknown,
}

/// Status of one component (llama.cpp, model router, osai-api).
#[derive(Debug, Clone)]
pub struct ComponentStatus {
    pub url: String,
    pub reachable: bool,
    pub healthy: bool,
    pub http_status: Option<u16>,
    pub service: Option<String>,
    pub version: Option<String>,
    pub models: Option<Vec<String>>,
    pub error: Option<String>,
}

/// Components by name.
pub type ComponentStatusMap = NamedMap<ComponentStatus>;

/// Status of one systemd user service.
#[derive(Debug, Clone)]
pub struct SystemdServiceStatus {
    pub installed: bool,
    pub enabled: bool,
    pub active: bool,
    pub load_state: Option<String>,
    pub sub_state: Option<String>,
    pub error: Option<String>,
}

/// Status of the systemd user services.
#[derive(Debug, Clone)]
pub struct SystemdStatus {
    pub available: bool,
    pub services: Option<NamedMap<SystemdServiceStatus>>,
}

/// Known runtime paths (no secrets).
#[derive(Debug, Clone)]
pub struct RuntimePaths {
    pub repo_root: String,
    pub plans_dir: String,
    pub chat_receipts_dir: String,
    pub ask_receipts_dir: String,
    pub apply_receipts_dir: String,
    pub model_router_receipts_dir: Option<String>,
    pub local_model_path: Option<String>,
    pub llamacpp_binary_path: Option<String>,
}

/// The full runtime status.
#[derive(Debug, Clone)]
pub struct RuntimeStatus {
    pub ok: bool,
    pub runtime_mode: RuntimeMode,
    pub overall: OverallHealth,
    pub components: ComponentStatusMap,
    pub systemd: SystemdStatus,
    pub paths: RuntimePaths,
    pub hints: Vec<String>,
}

/// Number of healthy components.
pub open spec fn healthy_count(s: Seq<(String, ComponentStatus)>) -> int
    decreases s.len(),
{
    if s.len() == 0 {
        0
    } else {
        healthy_count(s.drop_last()) + if s.last().1.healthy {
            1int
        } else {
            0int
        }
    }
}

/// Some systemd service is active.
pub open spec fn any_service_active(sd: SystemdStatus) -> bool {
    match sd.services {
        Some(m) => exists|i: int| 0 <= i < m.entries@.len() && (#[trigger] m.entries@[i]).1.active,
        None => false,
    }
}

/// The runtime mode: systemd when it is available with an active service; otherwise
/// unknown with no components, manual when all are healthy, partial when some are,
/// stopped when none is.
pub open spec fn runtime_mode_spec(c: Seq<(String, ComponentStatus)>, sd: SystemdStatus) -> RuntimeMode {
    if sd.available && any_service_active(sd) {
        RuntimeMode::Systemd
    } else if c.len() == 0 {
        RuntimeMode::Unknown
    } else if healthy_count(c) == c.len() {
        RuntimeMode::Manual
    } else if healthy_count(c) > 0 {
        RuntimeMode::Partial
    } else {
        RuntimeMode::Stopped
    }
}

/// The overall health from the components and the mode.
pub open spec fn overall_health_spec(c: Seq<(String, ComponentStatus)>, mode: RuntimeMode) -> OverallHealth {
    let h = healthy_count(c);
    let t = c.len() as int;
    if t == 0 {
        OverallHealth::Unknown
    } else {
        match mode {
            RuntimeMode::Systemd | RuntimeMode::Manual => if h == t {
                OverallHealth::Healthy
            } else if h > 0 {
                OverallHealth::Degraded
            } else {
                OverallHealth::Stopped
            },
            RuntimeMode::Partial => if h >= t / 2 {
                OverallHealth::Degraded
            } else {
                OverallHealth::Stopped
            },
            RuntimeMode::Stopped => OverallHealth::Stopped,
            RuntimeMode::Unknown => OverallHealth::Unknown,
        }
    }
}

proof fn lemma_healthy_count_bounds(s: Seq<(String, ComponentStatus)>)
    ensures
        0 <= healthy_count(s) <= s.len(),
    decreases s.len(),
{
    if s.len() > 0 {
        lemma_healthy_count_bounds(s.drop_last());
    }
}

/// Counts the healthy components.
pub fn count_healthy(components: &ComponentStatusMap) -> (n: usize)
    ensures
        n == healthy_count(components.entries@),
{
    let len = components.entries.len();
    let mut n: usize = 0;
    let mut i: usize = 0;
    while i < len
        invariant
            0 <= i <= len,
            len == components.entries@.len(),
            n == healthy_count(components.entries@.take(i as int)),
            n <= i,
        decreases len - i,
    {
        proof {
            assert(components.entries@.take(i + 1).drop_last() =~= components.entries@.take(i as int));
        }
        if components.entries[i].1.healthy {
            n = n + 1;
        }
        i = i + 1;
    }
    assert(components.entries@.take(len as int) =~= components.entries@);
    n
}

/// Whether some systemd service is active.
#[verifier::loop_isolation(false)]
pub fn services_any_active(systemd: &SystemdStatus) -> (b: bool)
    ensures
        b == any_service_active(*systemd),
{
    match &systemd.services {
        Some(m) => {
            let len = m.entries.len();
            let mut i: usize = 0;
            while i < len
                invariant
                    0 <= i <= len,
                    len == m.entries@.len(),
                    forall|j: int| 0 <= j < i ==> !(#[trigger] m.entries@[j]).1.active,
                decreases len - i,
            {
                if m.entries[i].1.active {
                    return true;
                }
                i = i + 1;
            }
            false
        },
        None => false,
    }
}

/// Infers the runtime mode from component and systemd state.
pub fn infer_runtime_mode(components: &ComponentStatusMap, systemd: &SystemdStatus) -> (m: RuntimeMode)
    ensures
        m == runtime_mode_spec(components.entries@, *systemd),
{
    if systemd.available && services_any_active(systemd) {
        return RuntimeMode::Systemd;
    }
    let healthy = count_healthy(components);
    let total = components.len();
    if total == 0 {
        RuntimeMode::Unknown
    } else if healthy == total {
        RuntimeMode::Manual
    } else if healthy > 0 {
        RuntimeMode::Partial
    } else {
        RuntimeMode::Stopped
    }
}

/// Infers overall health from components and the runtime mode.
pub fn infer_overall_health(components: &ComponentStatusMap, mode: RuntimeMode) -> (h: OverallHealth)
    ensures
        h == overall_health_spec(components.entries@, mode),
{
    if components.is_empty() {
        return OverallHealth::Unknown;
    }
    let healthy = count_healthy(components);
    let total = components.len();
    match mode {
        RuntimeMode::Systemd | RuntimeMode::Manual => {
            if healthy == total {
                OverallHealth::Healthy
            } else if healthy > 0 {
                OverallHealth::Degraded
            } else {
                OverallHealth::Stopped
            }
        },
        RuntimeMode::Partial => {
            if healthy >= total / 2 {
                OverallHealth::Degraded
            } else {
                OverallHealth::Stopped
            }
        },
        RuntimeMode::Stopped => OverallHealth::Stopped,
        RuntimeMode::Unknown => OverallHealth::Unknown,
    }
}

/// The component `name` is present and healthy.
pub open spec fn component_up(c: Seq<(String, ComponentStatus)>, name: Seq<char>) -> bool {
    match lookup(c, name) {
        Some(s) => s.healthy,
        None => false,
    }
}

/// A hint when the condition holds, none otherwise.
pub open spec fn hint_if(cond: bool, text: Seq<char>) -> Seq<Seq<char>> {
    if cond {
        seq![text]
    } else {
        seq![]
    }
}

/// The hints given for missing or unhealthy components, in order.
pub open spec fn component_hints(c: Seq<(String, ComponentStatus)>) -> Seq<Seq<char>> {
    hint_if(!component_up(c, "llamacpp"@), "llama.cpp is not reachable on 127.0.0.1:8092"@) + hint_if(
        !component_up(c, "model_router"@),
        "Model Router is not reachable on 127.0.0.1:8088"@,
    ) + hint_if(!component_up(c, "osai_api"@), "osai-api is not reachable on 127.0.0.1:8090"@)
}

/// The hints: what is down, how to start the stack, how to install the services;
/// or, when all is up, how it runs.
pub open spec fn hints_spec(c: Seq<(String, ComponentStatus)>, sd: SystemdStatus, mode: RuntimeMode) -> Seq<Seq<char>> {
    let base = component_hints(c);
    if base.len() == 0 {
        hint_if(mode == RuntimeMode::Systemd, "All components healthy via systemd"@) + hint_if(
            mode == RuntimeMode::Manual,
            "All components healthy in manual mode"@,
        )
    } else {
        base + hint_if(
            mode == RuntimeMode::Stopped || mode == RuntimeMode::Unknown,
            "Start the full stack with ./scripts/osai-local-up"@,
        ) + hint_if(
            sd.available && !any_service_active(sd),
            "Install user services with ./scripts/osai-install-user-services --enable-now --enable-osai-api"@,
        )
    }
}

/// The texts of a list of strings.
pub open spec fn texts(v: Seq<String>) -> Seq<Seq<char>> {
    Seq::new(v.len(), |i: int| v[i]@)
}

fn push_hint(hints: &mut Vec<String>, text: &str)
    ensures
        texts(final(hints)@) == texts(old(hints)@) + seq![text@],
{
    hints.push(owned(text));
    assert(texts(hints@) =~= texts(old(hints)@) + seq![text@]);
}

fn component_up_exec(components: &ComponentStatusMap, name: &str) -> (b: bool)
    ensures
        b == component_up(components.entries@, name@),
{
    match components.get(name) {
        Some(c) => c.healthy,
        None => false,
    }
}

/// Generates hints from missing or unhealthy components.
pub fn generate_hints(components: &ComponentStatusMap, systemd: &SystemdStatus, mode: RuntimeMode) -> (h: Vec<String>)
    ensures
        texts(h@) == hints_spec(components.entries@, *systemd, mode),
{
    let mut hints: Vec<String> = Vec::new();
    assert(texts(hints@) =~= seq![]);
    let ghost c = components.entries@;
    if !component_up_exec(components, "llamacpp") {
        push_hint(&mut hints, "llama.cpp is not reachable on 127.0.0.1:8092");
    }
    assert(texts(hints@) =~= hint_if(!component_up(c, "llamacpp"@), "llama.cpp is not reachable on 127.0.0.1:8092"@));
    if !component_up_exec(components, "model_router") {
        push_hint(&mut hints, "Model Router is not reachable on 127.0.0.1:8088");
    }
    if !component_up_exec(components, "osai_api") {
        push_hint(&mut hints, "osai-api is not reachable on 127.0.0.1:8090");
    }
    assert(texts(hints@) =~= component_hints(c));
    if hints.len() == 0 {
        if mode == RuntimeMode::Systemd {
            push_hint(&mut hints, "All components healthy via systemd");
        } else if mode == RuntimeMode::Manual {
            push_hint(&mut hints, "All components healthy in manual mode");
        }
        assert(texts(hints@) =~= hints_spec(c, *systemd, mode));
    } else {
        let ghost base = texts(hints@);
        if mode == RuntimeMode::Stopped || mode == RuntimeMode::Unknown {
            push_hint(&mut hints, "Start the full stack with ./scripts/osai-local-up");
        }
        if systemd.available && !services_any_active(systemd) {
            push_hint(
                &mut hints,
                "Install user services with ./scripts/osai-install-user-services --enable-now --enable-osai-api",
            );
        }
        assert(texts(hints@) =~= hints_spec(c, *systemd, mode));
    }
    hints
}

/// Builder for a runtime status.
pub struct RuntimeStatusBuilder {
    components: ComponentStatusMap,
    systemd: SystemdStatus,
    hints: Vec<String>,
}

impl RuntimeStatusBuilder {
    /// The components added so far.
    pub closed spec fn components_spec(&self) -> Seq<(String, ComponentStatus)> {
        self.components.entries@
    }

    /// The systemd status set so far.
    pub closed spec fn systemd_spec(&self) -> SystemdStatus {
        self.systemd
    }

    /// The hints added so far.
    pub closed spec fn hints_spec(&self) -> Seq<Seq<char>> {
        texts(self.hints@)
    }

    /// A builder with no components, systemd unavailable, and no hints.
    pub fn new() -> (b: RuntimeStatusBuilder)
        ensures
            b.components_spec().len() == 0,
            !b.systemd_spec().available,
            b.systemd_spec().services is None,
            b.hints_spec().len() == 0,
    {
        let b = RuntimeStatusBuilder {
            components: NamedMap::new(),
            systemd: SystemdStatus { available: false, services: None },
            hints: Vec::new(),
        };
        assert(texts(b.hints@) =~= seq![]);
        b
    }

    /// Adds (or replaces) a component status.
    pub fn add_component(self, name: &str, status: ComponentStatus) -> (b: RuntimeStatusBuilder)
        ensures
            forall|k: Seq<char>|
                #[trigger] lookup(b.components_spec(), k) == if k == name@ {
                    Some(status)
                } else {
                    lookup(self.components_spec(), k)
                },
            crate::json::keys_distinct(self.components_spec()) ==> crate::json::keys_distinct(
                b.components_spec(),
            ),
            b.systemd_spec() == self.systemd_spec(),
            b.hints_spec() == self.hints_spec(),
    {
        let mut b = self;
        let ghost old_c = b.components.entries@;
        let ghost st = status;
        let key = owned(name);
        let ghost k0 = key;
        b.components.insert(key, status);
        proof {
            assert forall|k: Seq<char>|
                #[trigger] lookup(b.components.entries@, k) == if k == name@ {
                    Some(st)
                } else {
                    lookup(old_c, k)
                } by {
                crate::json::lemma_insert_lookup(old_c, k0, st, k);
            }
            if crate::json::keys_distinct(old_c) {
                crate::json::lemma_insert_keeps_keys_distinct(old_c, k0, st);
            }
        }
        b
    }

    /// Sets the systemd status.
    pub fn with_systemd(self, status: SystemdStatus) -> (b: RuntimeStatusBuilder)
        ensures
            b.components_spec() == self.components_spec(),
            b.systemd_spec() == status,
            b.hints_spec() == self.hints_spec(),
    {
        RuntimeStatusBuilder { systemd: status, ..self }
    }

    /// Adds a hint.
    pub fn add_hint(self, hint: &str) -> (b: RuntimeStatusBuilder)
        ensures
            b.components_spec() == self.components_spec(),
            b.systemd_spec() == self.systemd_spec(),
            b.hints_spec() == self.hints_spec() + seq![hint@],
    {
        let mut b = self;
        push_hint(&mut b.hints, hint);
        b
    }

    /// Adds hints from a list.
    pub fn add_hints(self, hints: &Vec<String>) -> (b: RuntimeStatusBuilder)
        ensures
            b.components_spec() == self.components_spec(),
            b.systemd_spec() == self.systemd_spec(),
            b.hints_spec() == self.hints_spec() + texts(hints@),
    {
        let mut b = self;
        let ghost start = texts(b.hints@);
        let n = hints.len();
        let mut i: usize = 0;
        while i < n
            invariant
                0 <= i <= n,
                n == hints@.len(),
                b.components.entries@ == self.components.entries@,
                b.systemd == self.systemd,
                texts(b.hints@) == start + texts(hints@).subrange(0, i as int),
            decreases n - i,
        {
            push_hint(&mut b.hints, hints[i].as_str());
            i = i + 1;
            assert(texts(b.hints@) =~= start + texts(hints@).subrange(0, i as int));
        }
        assert(texts(hints@).subrange(0, n as int) =~= texts(hints@));
        b
    }

    /// Builds the status with the given paths: the mode and health are inferred, and
    /// when no hints were added they are generated.
    pub fn build(self, paths: RuntimePaths) -> (s: RuntimeStatus)
        ensures
            s.ok,
            s.runtime_mode == runtime_mode_spec(self.components_spec(), self.systemd_spec()),
            s.overall == overall_health_spec(self.components_spec(), s.runtime_mode),
            s.components.entries@ == self.components_spec(),
            s.systemd == self.systemd_spec(),
            s.paths == paths,
            texts(s.hints@) == if self.hints_spec().len() == 0 {
                hints_spec(self.components_spec(), self.systemd_spec(), s.runtime_mode)
            } else {
                self.hints_spec()
            },
    {
        let runtime_mode = infer_runtime_mode(&self.components, &self.systemd);
        let overall = infer_overall_health(&self.components, runtime_mode);
        let hints = if self.hints.len() == 0 {
            generate_hints(&self.components, &self.systemd, runtime_mode)
        } else {
            self.hints
        };
        RuntimeStatus {
            ok: true,
            runtime_mode,
            overall,
            components: self.components,
            systemd: self.systemd,
            paths,
            hints,
        }
    }
}

impl Default for RuntimeStatusBuilder {
    /// The same as `new`.
    fn default() -> (b: RuntimeStatusBuilder)
        ensures
            b.components_spec().len() == 0,
            !b.systemd_spec().available,
            b.systemd_spec().services is None,
            b.hints_spec().len() == 0,
    {
        RuntimeStatusBuilder::new()
    }
}

/// Health is reported as healthy only when there are components and all are healthy.
pub proof fn lemma_healthy_means_all_up(c: Seq<(String, ComponentStatus)>, sd: SystemdStatus)
    ensures
        overall_health_spec(c, runtime_mode_spec(c, sd)) == OverallHealth::Healthy ==> c.len() > 0
            && healthy_count(c) == c.len(),
{
}

/// Without components, both mode and health are unknown, unless systemd runs an
/// active service (then the mode is systemd and the health still unknown).
pub proof fn lemma_no_components_unknown(c: Seq<(String, ComponentStatus)>, sd: SystemdStatus)
    requires
        c.len() == 0,
    ensures
        overall_health_spec(c, runtime_mode_spec(c, sd)) == OverallHealth::Unknown,
        !(sd.available && any_service_active(sd)) ==> runtime_mode_spec(c, sd) == RuntimeMode::Unknown,
{
}

/// Health and mode agree: without active systemd, the mode is manual exactly when
/// health is healthy, partial or stopped components never report healthy, and a
/// stopped mode reports stopped health.
pub proof fn lemma_mode_health_agree(c: Seq<(String, ComponentStatus)>, sd: SystemdStatus)
    ensures
        ({
            let m = runtime_mode_spec(c, sd);
            let h = overall_health_spec(c, m);
            &&& (!(sd.available && any_service_active(sd)) ==> (m == RuntimeMode::Manual <==> h
                == OverallHealth::Healthy))
            &&& (m == RuntimeMode::Partial ==> h != OverallHealth::Healthy)
            &&& (m == RuntimeMode::Stopped ==> h == OverallHealth::Stopped)
        }),
{
    lemma_healthy_count_bounds(c);
}


/// All components are healthy exactly when the healthy count is their number, and
/// none is exactly when the count is zero.
proof fn lemma_healthy_count_extremes(s: Seq<(String, ComponentStatus)>)
    ensures
        (healthy_count(s) == s.len()) <==> (forall|i: int| 0 <= i < s.len() ==> (#[trigger] s[i]).1.healthy),
        (healthy_count(s) == 0) <==> (forall|i: int| 0 <= i < s.len() ==> !(#[trigger] s[i]).1.healthy),
    decreases s.len(),
{
    if s.len() > 0 {
        let t = s.drop_last();
        lemma_healthy_count_extremes(t);
        lemma_healthy_count_bounds(t);
        assert forall|i: int| 0 <= i < t.len() implies #[trigger] t[i] == s[i] by {}
        if forall|i: int| 0 <= i < s.len() ==> (#[trigger] s[i]).1.healthy {
            assert forall|i: int| 0 <= i < t.len() implies (#[trigger] t[i]).1.healthy by {
                assert(s[i].1.healthy);
            }
        }
        if forall|i: int| 0 <= i < s.len() ==> !(#[trigger] s[i]).1.healthy {
            assert forall|i: int| 0 <= i < t.len() implies !(#[trigger] t[i]).1.healthy by {
                assert(!s[i].1.healthy);
            }
        }
        if forall|i: int| 0 <= i < t.len() ==> (#[trigger] t[i]).1.healthy {
            if s.last().1.healthy {
                assert forall|i: int| 0 <= i < s.len() implies (#[trigger] s[i]).1.healthy by {
                    if i < t.len() {
                        assert(t[i].1.healthy);
                    }
                }
            }
        }
        if forall|i: int| 0 <= i < t.len() ==> !(#[trigger] t[i]).1.healthy {
            if !s.last().1.healthy {
                assert forall|i: int| 0 <= i < s.len() implies !(#[trigger] s[i]).1.healthy by {
                    if i < t.len() {
                        assert(!t[i].1.healthy);
                    }
                }
            }
        }
    }
}

/// In systemd or manual mode the stack is healthy when every component is, degraded
/// when some but not all are, and stopped when none is.
pub proof fn lemma_direct_mode_health(c: Seq<(String, ComponentStatus)>, mode: RuntimeMode)
    requires
        mode == RuntimeMode::Systemd || mode == RuntimeMode::Manual,
        c.len() > 0,
    ensures
        (forall|i: int| 0 <= i < c.len() ==> (#[trigger] c[i]).1.healthy) ==> overall_health_spec(c, mode)
            == OverallHealth::Healthy,
        (exists|i: int| 0 <= i < c.len() && (#[trigger] c[i]).1.healthy) && (exists|j: int|
            0 <= j < c.len() && !(#[trigger] c[j]).1.healthy) ==> overall_health_spec(c, mode)
            == OverallHealth::Degraded,
        (forall|i: int| 0 <= i < c.len() ==> !(#[trigger] c[i]).1.healthy) ==> overall_health_spec(c, mode)
            == OverallHealth::Stopped,
{
    lemma_healthy_count_extremes(c);
    lemma_healthy_count_bounds(c);
}

/// Without an active systemd service, the mode follows the components: manual when
/// every one is healthy, partial when some but not all are, stopped when none is.
/// With systemd available and a service active, the mode is systemd.
pub proof fn lemma_runtime_mode_from_components(c: Seq<(String, ComponentStatus)>, sd: SystemdStatus)
    ensures
        sd.available && any_service_active(sd) ==> runtime_mode_spec(c, sd) == RuntimeMode::Systemd,
        !(sd.available && any_service_active(sd)) && c.len() > 0 && (forall|i: int|
            0 <= i < c.len() ==> (#[trigger] c[i]).1.healthy) ==> runtime_mode_spec(c, sd) == RuntimeMode::Manual,
        !(sd.available && any_service_active(sd)) && (exists|i: int| 0 <= i < c.len() && (#[trigger] c[i]).1.healthy)
            && (exists|j: int| 0 <= j < c.len() && !(#[trigger] c[j]).1.healthy) ==> runtime_mode_spec(c, sd)
            == RuntimeMode::Partial,
        !(sd.available && any_service_active(sd)) && c.len() > 0 && (forall|i: int|
            0 <= i < c.len() ==> !(#[trigger] c[i]).1.healthy) ==> runtime_mode_spec(c, sd) == RuntimeMode::Stopped,
{
    lemma_healthy_count_extremes(c);
    lemma_healthy_count_bounds(c);
}

/// With no components the health is unknown, whatever the mode; in stopped mode it is
/// stopped; in partial mode it is degraded when at least half the components are
/// healthy and stopped otherwise, and never healthy.
pub proof fn lemma_other_modes_health(c: Seq<(String, ComponentStatus)>, mode: RuntimeMode)
    ensures
        c.len() == 0 ==> overall_health_spec(c, mode) == OverallHealth::Unknown,
        c.len() > 0 && mode == RuntimeMode::Stopped ==> overall_health_spec(c, mode) == OverallHealth::Stopped,
        c.len() > 0 && mode == RuntimeMode::Unknown ==> overall_health_spec(c, mode) == OverallHealth::Unknown,
        c.len() > 0 && mode == RuntimeMode::Partial ==> overall_health_spec(c, mode) == (if 2 * healthy_count(c)
            >= c.len() - c.len() % 2 {
            OverallHealth::Degraded
        } else {
            OverallHealth::Stopped
        }),
{
}

/// The text after `key` on the last line that begins with `key`, if any.
pub open spec fn last_field(ls: Seq<Seq<char>>, key: Seq<char>) -> Option<Seq<char>>
    decreases ls.len(),
{
    if ls.len() == 0 {
        None
    } else if starts_with_spec(ls.last(), key) {
        Some(ls.last().skip(key.len() as int))
    } else {
        last_field(ls.drop_last(), key)
    }
}

/// An optional string's text.
pub open spec fn opt_text(o: Option<String>) -> Option<Seq<char>> {
    match o {
        Some(s) => Some(s@),
        None => None,
    }
}

/// `st` is the status of a service as `systemctl --user show` printed it in `out`:
/// installed when a load state is given, enabled when its unit file state is
/// `enabled`, active when its active state is `active` (the last line for each key
/// counts).
pub open spec fn shows_service(st: SystemdServiceStatus, out: Seq<char>) -> bool {
    let ls = lines_spec(out);
    &&& st.installed == last_field(ls, "LoadState="@) is Some
    &&& st.enabled == (last_field(ls, "UnitFileState="@) == Some("enabled"@))
    &&& st.active == (last_field(ls, "ActiveState="@) == Some("active"@))
    &&& opt_text(st.load_state) == last_field(ls, "LoadState="@)
    &&& opt_text(st.sub_state) == last_field(ls, "SubState="@)
    &&& st.error is None
}

/// The value after `key` if `line` begins with it.
fn field_of(line: &Vec<char>, key: &str) -> (r: Option<String>)
    ensures
        match r {
            Some(v) => starts_with_spec(line@, key@) && v@ == line@.skip(key@.len() as int),
            None => !starts_with_spec(line@, key@),
        },
{
    let l = string_of(line);
    if starts_with(l.as_str(), key) {
        let k = chars_of(key);
        Some(string_of_range(line, k.len(), line.len()))
    } else {
        None
    }
}

/// The status of a service from the output of `systemctl --user show` for it.
pub fn parse_systemd_show(stdout: &str) -> (st: SystemdServiceStatus)
    ensures
        shows_service(st, stdout@),
{
    let lines = split_lines(stdout);
    let ghost ls = lines_spec(stdout@);
    let mut load: Option<String> = None;
    let mut active: Option<String> = None;
    let mut sub: Option<String> = None;
    let mut unit_file: Option<String> = None;
    let n = lines.len();
    let mut i: usize = 0;
    while i < n
        invariant
            0 <= i <= n,
            n == lines@.len(),
            char_lists_view(lines@) == ls,
            opt_text(load) == last_field(ls.take(i as int), "LoadState="@),
            opt_text(active) == last_field(ls.take(i as int), "ActiveState="@),
            opt_text(sub) == last_field(ls.take(i as int), "SubState="@),
            opt_text(unit_file) == last_field(ls.take(i as int), "UnitFileState="@),
        decreases n - i,
    {
        let line = &lines[i];
        proof {
            assert(ls.take(i + 1).drop_last() =~= ls.take(i as int));
            assert(ls.take(i + 1).last() == line@);
        }
        if let Some(v) = field_of(line, "LoadState=") {
            load = Some(v);
        }
        if let Some(v) = field_of(line, "ActiveState=") {
            active = Some(v);
        }
        if let Some(v) = field_of(line, "SubState=") {
            sub = Some(v);
        }
        if let Some(v) = field_of(line, "UnitFileState=") {
            unit_file = Some(v);
        }
        i = i + 1;
    }
    proof {
        assert(ls.take(n as int) =~= ls);
    }
    let enabled = match &unit_file {
        Some(v) => str_eq(v.as_str(), "enabled"),
        None => false,
    };
    let is_active = match &active {
        Some(v) => str_eq(v.as_str(), "active"),
        None => false,
    };
    SystemdServiceStatus {
        installed: load.is_some(),
        enabled,
        active: is_active,
        load_state: load,
        sub_state: sub,
        error: None,
    }
}

/// The systemd user services of the stack, in the order they are queried.
pub open spec fn stack_services() -> Seq<Seq<char>> {
    seq!["osai-llamacpp.service"@, "osai-model-router.service"@, "osai-api.service"@, "osai-vllm.service"@]
}

/// The systemd user services of the stack, in the order they are queried.
pub fn stack_service_names() -> (v: Vec<String>)
    ensures
        v@.len() == 4,
        forall|i: int| 0 <= i < 4 ==> #[trigger] v@[i]@ == stack_services()[i],
{
    let mut v: Vec<String> = Vec::new();
    v.push(owned("osai-llamacpp.service"));
    v.push(owned("osai-model-router.service"));
    v.push(owned("osai-api.service"));
    v.push(owned("osai-vllm.service"));
    v
}

/// The status of every stack service, from the output `systemctl --user show`
/// printed for it, in the order of `stack_service_names` (`None` where the command
/// could not run, which reads as no output). `None` when systemd is unavailable;
/// otherwise every service is reported.
pub fn check_systemd_services(
    available: bool,
    show_outputs: &Vec<Option<String>>,
) -> (r: Option<NamedMap<SystemdServiceStatus>>)
    requires
        show_outputs@.len() == 4,
    ensures
        !available ==> r is None,
        available ==> (r matches Some(m) && m.entries@.len() == 4 && forall|i: int|
            0 <= i < 4 ==> (#[trigger] m.entries@[i]).0@ == stack_services()[i] && shows_service(
                m.entries@[i].1,
                match show_outputs@[i] {
                    Some(o) => o@,
                    None => Seq::empty(),
                },
            )),
{
    if !available {
        return None;
    }
    let names = stack_service_names();
    let mut entries: Vec<(String, SystemdServiceStatus)> = Vec::new();
    let mut i: usize = 0;
    while i < 4
        invariant
            0 <= i <= 4,
            show_outputs@.len() == 4,
            names@.len() == 4,
            forall|k: int| 0 <= k < 4 ==> #[trigger] names@[k]@ == stack_services()[k],
            entries@.len() == i,
            forall|k: int|
                0 <= k < i ==> (#[trigger] entries@[k]).0@ == stack_services()[k] && shows_service(
                    entries@[k].1,
                    match show_outputs@[k] {
                        Some(o) => o@,
                        None => Seq::empty(),
                    },
                ),
        decreases 4 - i,
    {
        let st = match &show_outputs[i] {
            Some(o) => parse_systemd_show(o.as_str()),
            None => {
                let empty = String::new();
                parse_systemd_show(empty.as_str())
            },
        };
        entries.push((names[i].clone(), st));
        i = i + 1;
    }
    Some(NamedMap { entries })
}


/// What probing a component over HTTP gave.
#[derive(Debug)]
pub enum HttpProbe {
    /// No HTTP client could be built; why.
    ClientError(String),
    /// The component did not answer; why.
    Unreachable(String),
    /// The component answered with this status code and, when it parsed, this JSON body.
    Answered(u16, Option<JsonValue>),
}

/// A status code that reports success (2xx).
pub open spec fn is_success_code(code: u16) -> bool {
    200 <= code < 300
}

/// The text of field `key` of a JSON object, if it is text.
pub open spec fn json_text(v: Option<JsonValue>, key: Seq<char>) -> Option<Seq<char>> {
    match v {
        Some(JsonValue::Object(m)) => match lookup(m.entries@, key) {
            Some(JsonValue::Str(t)) => Some(t@),
            _ => None,
        },
        _ => None,
    }
}

/// The name a model entry gives: its `name` field, or else its `model` field, when
/// that is text.
pub open spec fn model_entry_name(m: JsonValue) -> Option<Seq<char>> {
    match m {
        JsonValue::Object(o) => match lookup(o.entries@, "name"@) {
            Some(JsonValue::Str(t)) => Some(t@),
            Some(_) => None,
            None => match lookup(o.entries@, "model"@) {
                Some(JsonValue::Str(t)) => Some(t@),
                _ => None,
            },
        },
        _ => None,
    }
}

/// The names the first `n` model entries give, in order.
pub open spec fn model_names(items: Seq<JsonValue>, n: int) -> Seq<Seq<char>>
    decreases n,
{
    if n <= 0 {
        Seq::empty()
    } else {
        match model_entry_name(items[n - 1]) {
            Some(t) => model_names(items, n - 1).push(t),
            None => model_names(items, n - 1),
        }
    }
}

/// The models a llama.cpp `/v1/models` body lists, when it has a `models` array.
pub open spec fn listed_models(body: Option<JsonValue>) -> Option<Seq<Seq<char>>> {
    match body {
        Some(JsonValue::Object(m)) => match lookup(m.entries@, "models"@) {
            Some(JsonValue::Array(items)) => Some(model_names(items@, items@.len() as int)),
            _ => None,
        },
        _ => None,
    }
}

/// The texts of an optional list of strings.
pub open spec fn opt_texts(v: Option<Vec<String>>) -> Option<Seq<Seq<char>>> {
    match v {
        Some(x) => Some(Seq::new(x@.len(), |i: int| x@[i]@)),
        None => None,
    }
}

/// The text of field `key` of a JSON body, if it is text.
fn json_text_exec(v: &Option<JsonValue>, key: &str) -> (r: Option<String>)
    ensures
        opt_text(r) == json_text(*v, key@),
{
    match v {
        Some(JsonValue::Object(m)) => match m.get(key) {
            Some(x) => match x.as_str() {
                Some(t) => Some(owned(t)),
                None => None,
            },
            None => None,
        },
        _ => None,
    }
}

/// The name a model entry gives.
fn model_entry_name_exec(m: &JsonValue) -> (r: Option<String>)
    ensures
        opt_text(r) == model_entry_name(*m),
{
    proof {
        reveal_strlit("name");
        reveal_strlit("model");
    }
    match m {
        JsonValue::Object(o) => match o.get("name") {
            Some(x) => match x.as_str() {
                Some(t) => Some(owned(t)),
                None => None,
            },
            None => match o.get("model") {
                Some(x) => match x.as_str() {
                    Some(t) => Some(owned(t)),
                    None => None,
                },
                None => None,
            },
        },
        _ => None,
    }
}

/// The models a llama.cpp `/v1/models` body lists.
pub fn models_from_body(body: &Option<JsonValue>) -> (r: Option<Vec<String>>)
    ensures
        opt_texts(r) == listed_models(*body),
{
    match body {
        Some(JsonValue::Object(m)) => match m.get("models") {
            Some(JsonValue::Array(items)) => {
                let mut names: Vec<String> = Vec::new();
                let mut i: usize = 0;
                while i < items.len()
                    invariant
                        0 <= i <= items@.len(),
                        Seq::new(names@.len(), |k: int| names@[k]@) == model_names(items@, i as int),
                    decreases items@.len() - i,
                {
                    let ghost before = Seq::new(names@.len(), |k: int| names@[k]@);
                    match model_entry_name_exec(&items[i]) {
                        Some(t) => {
                            names.push(t);
                            assert(Seq::new(names@.len(), |k: int| names@[k]@) =~= before.push(
                                names@[names@.len() - 1]@,
                            ));
                        },
                        None => {},
                    }
                    i = i + 1;
                }
                Some(names)
            },
            _ => None,
        },
        _ => None,
    }
}

/// `c` is the status of the component at `url` named `service` that `probe` found:
/// unreachable when no client could be built or it did not answer; otherwise
/// reachable, healthy when the status code reports success, with the service it
/// names (or `service`) and, if `with_version`, the version it names.
pub open spec fn probed_status(
    c: ComponentStatus,
    url: Seq<char>,
    service: Seq<char>,
    with_version: bool,
    probe: HttpProbe,
) -> bool {
    &&& c.url@ == url
    &&& match probe {
        HttpProbe::ClientError(e) => {
            &&& !c.reachable && !c.healthy && c.http_status is None
            &&& c.service is None && c.version is None && c.models is None
            &&& opt_text(c.error) == Some("client build error: "@ + e@)
        },
        HttpProbe::Unreachable(e) => {
            &&& !c.reachable && !c.healthy && c.http_status is None
            &&& opt_text(c.service) == Some(service) && c.version is None && c.models is None
            &&& opt_text(c.error) == Some("connection refused: "@ + e@)
        },
        HttpProbe::Answered(code, body) => {
            &&& c.reachable
            &&& c.healthy == is_success_code(code)
            &&& c.http_status == Some(code)
            &&& opt_text(c.service) == (match json_text(body, "service"@) {
                Some(s) => Some(s),
                None => Some(service),
            })
            &&& opt_text(c.version) == (if with_version { json_text(body, "version"@) } else { None })
            &&& c.models is None
            &&& opt_text(c.error) == (if is_success_code(code) { None } else { Some("HTTP "@ + decimal_spec(code as nat)) })
        },
    }
}

/// The status of a component probed at `url`, when its health body may name its
/// service and version.
fn health_status(url: &str, service: &str, with_version: bool, probe: &HttpProbe) -> (c: ComponentStatus)
    ensures
        probed_status(c, url@, service@, with_version, *probe),
{
    match probe {
        HttpProbe::ClientError(e) => ComponentStatus {
            url: owned(url),
            reachable: false,
            healthy: false,
            http_status: None,
            service: None,
            version: None,
            models: None,
            error: Some(concat("client build error: ", e.as_str())),
        },
        HttpProbe::Unreachable(e) => ComponentStatus {
            url: owned(url),
            reachable: false,
            healthy: false,
            http_status: None,
            service: Some(owned(service)),
            version: None,
            models: None,
            error: Some(concat("connection refused: ", e.as_str())),
        },
        HttpProbe::Answered(code, body) => {
            let ok = *code >= 200 && *code < 300;
            let named = match json_text_exec(body, "service") {
                Some(s) => s,
                None => owned(service),
            };
            let version = if with_version {
                json_text_exec(body, "version")
            } else {
                None
            };
            let error = if ok {
                None
            } else {
                let d = decimal_text(*code as u64);
                Some(concat("HTTP ", d.as_str()))
            };
            ComponentStatus {
                url: owned(url),
                reachable: true,
                healthy: ok,
                http_status: Some(*code),
                service: Some(named),
                version,
                models: None,
                error,
            }
        },
    }
}

/// The status of the model router at `url` from probing its `/health`.
pub fn model_router_status(url: &str, probe: &HttpProbe) -> (c: ComponentStatus)
    ensures
        probed_status(c, url@, "osai-model-router"@, false, *probe),
{
    health_status(url, "osai-model-router", false, probe)
}

/// The status of osai-api at `url` from probing its `/health`.
pub fn osai_api_status(url: &str, probe: &HttpProbe) -> (c: ComponentStatus)
    ensures
        probed_status(c, url@, "osai-api"@, true, *probe),
{
    health_status(url, "osai-api", true, probe)
}

/// `c` is the status of llama.cpp at `url` that probing its `/v1/models` found: as
/// for other components, except that its service is always `llama.cpp` once a
/// client exists, and a successful answer lists its models.
pub open spec fn llamacpp_probed(c: ComponentStatus, url: Seq<char>, probe: HttpProbe) -> bool {
    &&& c.url@ == url
    &&& match probe {
        HttpProbe::ClientError(e) => {
            &&& !c.reachable && !c.healthy && c.http_status is None
            &&& c.service is None && c.version is None && c.models is None
            &&& opt_text(c.error) == Some("client build error: "@ + e@)
        },
        HttpProbe::Unreachable(e) => {
            &&& !c.reachable && !c.healthy && c.http_status is None
            &&& opt_text(c.service) == Some("llama.cpp"@) && c.version is None && c.models is None
            &&& opt_text(c.error) == Some("connection refused: "@ + e@)
        },
        HttpProbe::Answered(code, body) => {
            &&& c.reachable
            &&& c.healthy == is_success_code(code)
            &&& c.http_status == Some(code)
            &&& opt_text(c.service) == Some("llama.cpp"@)
            &&& c.version is None
            &&& opt_texts(c.models) == (if is_success_code(code) { listed_models(body) } else { None })
            &&& opt_text(c.error) == (if is_success_code(code) { None } else { Some("HTTP "@ + decimal_spec(code as nat)) })
        },
    }
}

/// The status of llama.cpp at `url` from probing its `/v1/models`.
pub fn llamacpp_status(url: &str, probe: &HttpProbe) -> (c: ComponentStatus)
    ensures
        llamacpp_probed(c, url@, *probe),
{
    match probe {
        HttpProbe::ClientError(e) => ComponentStatus {
            url: owned(url),
            reachable: false,
            healthy: false,
            http_status: None,
            service: None,
            version: None,
            models: None,
            error: Some(concat("client build error: ", e.as_str())),
        },
        HttpProbe::Unreachable(e) => ComponentStatus {
            url: owned(url),
            reachable: false,
            healthy: false,
            http_status: None,
            service: Some(owned("llama.cpp")),
            version: None,
            models: None,
            error: Some(concat("connection refused: ", e.as_str())),
        },
        HttpProbe::Answered(code, body) => {
            if *code >= 200 && *code < 300 {
                ComponentStatus {
                    url: owned(url),
                    reachable: true,
                    healthy: true,
                    http_status: Some(*code),
                    service: Some(owned("llama.cpp")),
                    version: None,
                    models: models_from_body(body),
                    error: None,
                }
            } else {
                let d = decimal_text(*code as u64);
                ComponentStatus {
                    url: owned(url),
                    reachable: true,
                    healthy: false,
                    http_status: Some(*code),
                    service: Some(owned("llama.cpp")),
                    version: None,
                    models: None,
                    error: Some(concat("HTTP ", d.as_str())),
                }
            }
        },
    }
}

/// A component's endpoint: `base` without trailing slashes, then `path`.
pub fn endpoint_url(base: &str, path: &str) -> (r: String)
    ensures
        r@ == base@.subrange(0, base@.len() - crate::shared::trailing_count(base@, '/')) + path@,
{
    let cs = chars_of(base);
    let mut e: usize = cs.len();
    proof {
        assert(cs@.subrange(0, e as int) =~= cs@);
    }
    while e > 0 && cs[e - 1] == '/'
        invariant
            0 <= e <= cs@.len(),
            cs@ == base@,
            e - crate::shared::trailing_count(cs@.subrange(0, e as int), '/') == cs@.len()
                - crate::shared::trailing_count(cs@, '/'),
        decreases e,
    {
        proof {
            assert(cs@.subrange(0, e as int).drop_last() =~= cs@.subrange(0, e - 1));
        }
        e = e - 1;
    }
    proof {
        if e > 0 {
            assert(cs@.subrange(0, e as int).last() == cs@[e - 1]);
        }
    }
    let b = string_of_range(&cs, 0, e);
    concat(b.as_str(), path)
}

} // verus!
