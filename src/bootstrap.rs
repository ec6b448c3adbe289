//! Turning the declared plugins into the registry: each plugin that loaded
//! is registered under its effective prefix, each failure is reported and
//! the rest go on.
use vstd::prelude::*;
use crate::config::Plugin;
use crate::registry::{HandleModel, PluginHandle, Registry};

verus! {

/// What became of one declared plugin when its binary was opened.
pub enum LoadOutcome {
    /// The binary honours the plugin interface: the prefix it reports, and
    /// whether its initializer succeeded on the declared settings.
    Loaded { default_prefix: String, initialized: bool },
    /// The binary could not be opened or does not honour the interface.
    Failed { reason: String },
}

/// A problem to show to the user.
pub enum Notice {
    LoadFailed { name: String, reason: String },
    InitFailed { name: String },
}

/// A problem to show, as plain values.
pub enum NoticeModel {
    LoadFailed { name: Seq<char>, reason: Seq<char> },
    InitFailed { name: Seq<char> },
}

impl View for Notice {
    type V = NoticeModel;

    open spec fn view(&self) -> NoticeModel {
        match self {
            Notice::LoadFailed { name, reason } => NoticeModel::LoadFailed { name: name@, reason: reason@ },
            Notice::InitFailed { name } => NoticeModel::InitFailed { name: name@ },
        }
    }
}

impl Notice {
    /// The text shown to the user.
    pub fn message(&self) -> (r: String)
        ensures
            r@ == match self@ {
                NoticeModel::LoadFailed { name, reason } =>
                    "Failed to load plugin "@ + name + ": "@ + reason,
                NoticeModel::InitFailed { name } => "Plugin \""@ + name + "\" failed to initialize"@,
            },
    {
        match self {
            Notice::LoadFailed { name, reason } => String::from_str("Failed to load plugin ")
                .concat(name.as_str()).concat(": ").concat(reason.as_str()),
            Notice::InitFailed { name } => String::from_str("Plugin \"").concat(name.as_str())
                .concat("\" failed to initialize"),
        }
    }
}

/// The prefix a plugin is registered under: the declared one, else the one
/// the plugin reports.
pub open spec fn effective_prefix(p: Plugin, default_prefix: Seq<char>) -> Seq<char> {
    match p.prefix {
        Some(x) => x@,
        None => default_prefix,
    }
}

/// The registry after one more declared plugin.
pub open spec fn register_step(m: Map<Seq<char>, HandleModel>, name: Seq<char>, p: Plugin, o: LoadOutcome) -> Map<Seq<char>, HandleModel> {
    match o {
        LoadOutcome::Failed { .. } => m,
        LoadOutcome::Loaded { default_prefix, initialized } => {
            let prefix = effective_prefix(p, default_prefix@);
            m.insert(prefix, HandleModel { name, prefix, initialized })
        },
    }
}

/// What one more declared plugin reports.
pub open spec fn notice_step(name: Seq<char>, o: LoadOutcome) -> Seq<NoticeModel> {
    match o {
        LoadOutcome::Failed { reason } => seq![NoticeModel::LoadFailed { name, reason: reason@ }],
        LoadOutcome::Loaded { initialized, .. } => if initialized {
            Seq::empty()
        } else {
            seq![NoticeModel::InitFailed { name }]
        },
    }
}

/// The registry after the declared plugins `ps`, in order, with outcomes `os`.
pub open spec fn registry_after(ps: Seq<(String, Plugin)>, os: Seq<LoadOutcome>) -> Map<Seq<char>, HandleModel>
    decreases ps.len(),
{
    if ps.len() == 0 {
        Map::empty()
    } else {
        let n = ps.len() - 1;
        register_step(registry_after(ps.take(n), os.take(n)), ps[n].0@, ps[n].1, os[n])
    }
}

/// What the declared plugins `ps`, in order, with outcomes `os`, report.
pub open spec fn notices_after(ps: Seq<(String, Plugin)>, os: Seq<LoadOutcome>) -> Seq<NoticeModel>
    decreases ps.len(),
{
    if ps.len() == 0 {
        Seq::empty()
    } else {
        let n = ps.len() - 1;
        notices_after(ps.take(n), os.take(n)) + notice_step(ps[n].0@, os[n])
    }
}

/// Registers one declared plugin: a plugin that failed to load is left out
/// and reported; one that loaded is registered under its effective prefix,
/// replacing what held it, and reported if its initializer failed.
pub fn register_plugin(registry: &mut Registry, name: &String, plugin: &Plugin, outcome: &LoadOutcome) -> (r: Option<Notice>)
    requires
        old(registry).wf(),
    ensures
        final(registry).wf(),
        final(registry)@ == register_step(old(registry)@, name@, *plugin, *outcome),
        match r {
            None => notice_step(name@, *outcome) == Seq::<NoticeModel>::empty(),
            Some(n) => notice_step(name@, *outcome) == seq![n@],
        },
{
    match outcome {
        LoadOutcome::Failed { reason } => Some(Notice::LoadFailed { name: name.clone(), reason: reason.clone() }),
        LoadOutcome::Loaded { default_prefix, initialized } => {
            let prefix = match &plugin.prefix {
                Some(x) => x.clone(),
                None => default_prefix.clone(),
            };
            let handle = PluginHandle { name: name.clone(), prefix: prefix.clone(), initialized: *initialized };
            registry.insert(prefix, handle);
            if *initialized {
                None
            } else {
                Some(Notice::InitFailed { name: name.clone() })
            }
        },
    }
}

/// Registers the declared plugins in order, given what loading each one
/// gave; returns what is to be reported, in order.
pub fn build_registry(registry: &mut Registry, plugins: &Vec<(String, Plugin)>, outcomes: &Vec<LoadOutcome>) -> (r: Vec<Notice>)
    requires
        old(registry).wf(),
        old(registry)@ == Map::<Seq<char>, HandleModel>::empty(),
        outcomes@.len() == plugins@.len(),
    ensures
        final(registry).wf(),
        final(registry)@ == registry_after(plugins@, outcomes@),
        r@.map_values(|n: Notice| n@) == notices_after(plugins@, outcomes@),
{
    let mut notices: Vec<Notice> = Vec::new();
    let mut i: usize = 0;
    while i < plugins.len()
        invariant
            i <= plugins@.len(),
            outcomes@.len() == plugins@.len(),
            registry.wf(),
            registry@ == registry_after(plugins@.take(i as int), outcomes@.take(i as int)),
            notices@.map_values(|n: Notice| n@) == notices_after(plugins@.take(i as int), outcomes@.take(i as int)),
        decreases plugins@.len() - i,
    {
        let ghost before = notices@;
        match register_plugin(registry, &plugins[i].0, &plugins[i].1, &outcomes[i]) {
            Some(n) => { notices.push(n); },
            None => {},
        }
        proof {
            let ps = plugins@.take(i + 1);
            let os = outcomes@.take(i + 1);
            assert(ps.take(i as int) =~= plugins@.take(i as int));
            assert(os.take(i as int) =~= outcomes@.take(i as int));
            assert(notices@.map_values(|n: Notice| n@) =~= notices_after(ps, os));
        }
        i = i + 1;
    }
    assert(plugins@.take(plugins@.len() as int) =~= plugins@);
    assert(outcomes@.take(outcomes@.len() as int) =~= outcomes@);
    notices
}

/// Plugin `k` loaded and resolved to `prefix`.
pub open spec fn loaded_as(ps: Seq<(String, Plugin)>, os: Seq<LoadOutcome>, k: int, prefix: Seq<char>) -> bool {
    match os[k] {
        LoadOutcome::Loaded { default_prefix, .. } => effective_prefix(ps[k].1, default_prefix@) == prefix,
        LoadOutcome::Failed { .. } => false,
    }
}

/// A prefix is registered exactly when some declared plugin loaded and
/// resolved to it: failures leave nothing behind.
pub proof fn lemma_registry_domain(ps: Seq<(String, Plugin)>, os: Seq<LoadOutcome>, prefix: Seq<char>)
    requires
        os.len() == ps.len(),
    ensures
        registry_after(ps, os).contains_key(prefix)
            <==> exists|k: int| 0 <= k < ps.len() && #[trigger] loaded_as(ps, os, k, prefix),
    decreases ps.len(),
{
    if ps.len() > 0 {
        let n = ps.len() - 1;
        let (qs, rs) = (ps.take(n), os.take(n));
        lemma_registry_domain(qs, rs, prefix);
        if registry_after(ps, os).contains_key(prefix) {
            if !loaded_as(ps, os, n, prefix) {
                let k = choose|k: int| 0 <= k < qs.len() && #[trigger] loaded_as(qs, rs, k, prefix);
                assert(loaded_as(ps, os, k, prefix));
            }
        } else {
            assert forall|k: int| 0 <= k < ps.len() implies !#[trigger] loaded_as(ps, os, k, prefix) by {
                if k < n {
                    assert(!loaded_as(qs, rs, k, prefix));
                }
            }
        }
    }
}

/// Of the declared plugins that resolve to one prefix, the last that loaded
/// holds it: the registry keeps one handle per prefix, the later one.
pub proof fn lemma_last_wins(ps: Seq<(String, Plugin)>, os: Seq<LoadOutcome>, j: int, prefix: Seq<char>)
    requires
        os.len() == ps.len(),
        0 <= j < ps.len(),
        loaded_as(ps, os, j, prefix),
        forall|k: int| j < k < ps.len() ==> !#[trigger] loaded_as(ps, os, k, prefix),
    ensures
        registry_after(ps, os).contains_key(prefix),
        registry_after(ps, os)[prefix] == (HandleModel {
            name: ps[j].0@,
            prefix,
            initialized: os[j]->Loaded_initialized,
        }),
    decreases ps.len(),
{
    let n = ps.len() - 1;
    if j < n {
        let (qs, rs) = (ps.take(n), os.take(n));
        assert forall|k: int| j < k < qs.len() implies !#[trigger] loaded_as(qs, rs, k, prefix) by {
            assert(!loaded_as(ps, os, k, prefix));
        }
        lemma_last_wins(qs, rs, j, prefix);
        assert(!loaded_as(ps, os, n, prefix));
    }
}

/// A plugin that declares a prefix is registered under it, whatever prefix
/// the plugin itself reports, unless a later plugin takes that prefix.
pub proof fn lemma_prefix_override(ps: Seq<(String, Plugin)>, os: Seq<LoadOutcome>, j: int, prefix: String)
    requires
        os.len() == ps.len(),
        0 <= j < ps.len(),
        os[j] is Loaded,
        ps[j].1.prefix == Some(prefix),
        forall|k: int| j < k < ps.len() ==> !#[trigger] loaded_as(ps, os, k, prefix@),
    ensures
        registry_after(ps, os).contains_key(prefix@),
        registry_after(ps, os)[prefix@].name == ps[j].0@,
{
    lemma_last_wins(ps, os, j, prefix@);
}

/// How many reports in `ns` say that the plugin `name` failed to load.
pub open spec fn load_failure_reports(ns: Seq<NoticeModel>, name: Seq<char>) -> nat
    decreases ns.len(),
{
    if ns.len() == 0 {
        0
    } else {
        load_failure_reports(ns.drop_last(), name) + match ns.last() {
            NoticeModel::LoadFailed { name: x, .. } => if x == name { 1nat } else { 0nat },
            _ => 0nat,
        }
    }
}

/// How many of the declared plugins named `name` failed to load.
pub open spec fn load_failures(ps: Seq<(String, Plugin)>, os: Seq<LoadOutcome>, name: Seq<char>) -> nat
    decreases ps.len(),
{
    if ps.len() == 0 {
        0
    } else {
        let n = ps.len() - 1;
        load_failures(ps.take(n), os.take(n), name) + if os[n] is Failed && ps[n].0@ == name { 1nat } else { 0nat }
    }
}

proof fn lemma_reports_append(a: Seq<NoticeModel>, b: Seq<NoticeModel>, name: Seq<char>)
    ensures
        load_failure_reports(a + b, name) == load_failure_reports(a, name) + load_failure_reports(b, name),
    decreases b.len(),
{
    if b.len() > 0 {
        lemma_reports_append(a, b.drop_last(), name);
        assert((a + b).drop_last() =~= a + b.drop_last());
    }
}

/// Each failure to load is reported exactly once, under the plugin's name;
/// nothing else is reported as a failure to load.
pub proof fn lemma_failures_reported(ps: Seq<(String, Plugin)>, os: Seq<LoadOutcome>, name: Seq<char>)
    requires
        os.len() == ps.len(),
    ensures
        load_failure_reports(notices_after(ps, os), name) == load_failures(ps, os, name),
    decreases ps.len(),
{
    if ps.len() > 0 {
        let n = ps.len() - 1;
        lemma_failures_reported(ps.take(n), os.take(n), name);
        let step = notice_step(ps[n].0@, os[n]);
        lemma_reports_append(notices_after(ps.take(n), os.take(n)), step, name);
        assert(load_failure_reports(Seq::<NoticeModel>::empty(), name) == 0);
        if step.len() == 1 {
            assert(step.drop_last() =~= Seq::<NoticeModel>::empty());
            assert(load_failure_reports(step, name) == load_failure_reports(step.drop_last(), name)
                + match step.last() {
                    NoticeModel::LoadFailed { name: x, .. } => if x == name { 1nat } else { 0nat },
                    _ => 0nat,
                });
        }
        assert(load_failure_reports(step, name)
            == if os[n] is Failed && ps[n].0@ == name { 1nat } else { 0nat });
    }
}

/// Of three declared plugins with distinct names, where one fails to load and
/// the other two load under distinct prefixes: both of those are registered,
/// nothing else is, and the failure is reported once.
pub proof fn lemma_load_isolation(ps: Seq<(String, Plugin)>, os: Seq<LoadOutcome>, bad: int, p: Seq<char>, q: Seq<char>)
    requires
        ps.len() == 3,
        os.len() == 3,
        0 <= bad < 3,
        forall|i: int, j: int| 0 <= i < j < 3 ==> ps[i].0@ != ps[j].0@,
        os[bad] is Failed,
        p != q,
        ({
            let (a, c) = if bad == 0 { (1int, 2int) } else if bad == 1 { (0int, 2int) } else { (0int, 1int) };
            loaded_as(ps, os, a, p) && loaded_as(ps, os, c, q)
        }),
    ensures
        ({
            let (a, c) = if bad == 0 { (1int, 2int) } else if bad == 1 { (0int, 2int) } else { (0int, 1int) };
            &&& registry_after(ps, os).dom() =~= set![p, q]
            &&& registry_after(ps, os)[p].name == ps[a].0@
            &&& registry_after(ps, os)[q].name == ps[c].0@
        }),
        load_failure_reports(notices_after(ps, os), ps[bad].0@) == 1,
{
    let (a, c) = if bad == 0 { (1int, 2int) } else if bad == 1 { (0int, 2int) } else { (0int, 1int) };
    assert(!loaded_as(ps, os, bad, p) && !loaded_as(ps, os, bad, q));
    assert(!loaded_as(ps, os, a, q) && !loaded_as(ps, os, c, p));
    lemma_last_wins(ps, os, a, p);
    lemma_last_wins(ps, os, c, q);
    assert forall|x: Seq<char>| registry_after(ps, os).contains_key(x) implies x == p || x == q by {
        lemma_registry_domain(ps, os, x);
    }
    lemma_failures_reported(ps, os, ps[bad].0@);
    let name = ps[bad].0@;
    assert(ps.take(2).take(1) =~= ps.take(1));
    assert(os.take(2).take(1) =~= os.take(1));
    assert(ps.take(1).take(0) =~= ps.take(0));
    assert(os.take(1).take(0) =~= os.take(0));
    let one = |k: int| if os[k] is Failed && ps[k].0@ == name { 1nat } else { 0nat };
    assert(load_failures(ps.take(0), os.take(0), name) == 0);
    assert(load_failures(ps.take(1), os.take(1), name) == one(0));
    assert(load_failures(ps.take(2), os.take(2), name) == one(0) + one(1));
    assert(ps.take(3) =~= ps);
    assert(os.take(3) =~= os);
    assert(load_failures(ps, os, name) == one(0) + one(1) + one(2));
}

} // verus!
