//! Per-job export settings, and the scripting engine they own for filtering
//! nodes.
use rquickjs::{Context, Runtime};
use vstd::prelude::*;
use vstd::string::StringExecFns;

use crate::engine::{call_filter, find_filter, new_context, new_runtime, run_script, FilterFn};
use crate::filter::{
    apply_verdicts, call_failures, evaluation_result, failures_of, kept, stage_outcome, FilterError,
    Verdict,
};
use crate::json::node_json;
use crate::proxy::{Proxy, RegexMatchConfigs};

verus! {

/// The process-wide values that new export settings start from.
pub struct GlobalSettings {
    pub enable_rule_gen: bool,
    pub overwrite_original_rules: bool,
    pub surge_ssr_path: String,
    pub clash_proxies_style: String,
    pub clash_proxy_groups_style: String,
}

impl GlobalSettings {
    /// Global values with every flag off and every string empty.
    pub fn new() -> (r: GlobalSettings)
        ensures
            !r.enable_rule_gen,
            !r.overwrite_original_rules,
            r.surge_ssr_path@.len() == 0,
            r.clash_proxies_style@.len() == 0,
            r.clash_proxy_groups_style@.len() == 0,
    {
        GlobalSettings {
            enable_rule_gen: false,
            overwrite_original_rules: false,
            surge_ssr_path: String::new(),
            clash_proxies_style: String::new(),
            clash_proxy_groups_style: String::new(),
        }
    }
}

/// Settings for subscription export operations.
pub struct ExtraSettings {
    /// Whether to enable the rule generator
    pub enable_rule_generator: bool,
    /// Whether to overwrite original rules
    pub overwrite_original_rules: bool,
    /// Rename operations to apply
    pub rename_array: RegexMatchConfigs,
    /// Emoji operations to apply
    pub emoji_array: RegexMatchConfigs,
    /// Whether to add emoji
    pub add_emoji: bool,
    /// Whether to remove emoji
    pub remove_emoji: bool,
    /// Whether to append proxy type
    pub append_proxy_type: bool,
    /// Whether to output as node list
    pub nodelist: bool,
    /// Whether to sort nodes
    pub sort_flag: bool,
    /// Whether to filter deprecated nodes
    pub filter_deprecated: bool,
    /// Whether to use new field names in Clash
    pub clash_new_field_name: bool,
    /// Whether to use scripts in Clash
    pub clash_script: bool,
    /// Path to Surge SSR binary
    pub surge_ssr_path: String,
    /// Prefix for managed configs
    pub managed_config_prefix: String,
    /// QuantumultX device ID
    pub quanx_dev_id: String,
    /// UDP support flag
    pub udp: Option<bool>,
    /// TCP Fast Open support flag
    pub tfo: Option<bool>,
    /// Skip certificate verification flag
    pub skip_cert_verify: Option<bool>,
    /// TLS 1.3 support flag
    pub tls13: Option<bool>,
    /// Whether to use classical ruleset in Clash
    pub clash_classical_ruleset: bool,
    /// Script for sorting nodes
    pub sort_script: String,
    /// Style for Clash proxies output
    pub clash_proxies_style: String,
    /// Style for Clash proxy groups output
    pub clash_proxy_groups_style: String,
    /// Whether the export is authorized
    pub authorized: bool,
    /// JavaScript context, created on first use
    pub js_context: Option<Context>,
    /// JavaScript runtime of that context
    pub js_runtime: Option<Runtime>,
}

impl ExtraSettings {
    /// The scripting engine is created as a pair: a context only ever stands
    /// with the runtime it was made in.
    pub open spec fn engine_paired(&self) -> bool {
        self.js_context is Some ==> self.js_runtime is Some
    }
}

/// An output style as configured, or `flow` where none is.
pub open spec fn style_or_flow(s: Seq<char>) -> Seq<char> {
    if s.len() == 0 {
        "flow"@
    } else {
        s
    }
}

/// Whether `s` holds the defaults derived from the given global values: the
/// rule-generator flags and the Surge SSR path as given, the two Clash
/// styles as given or `flow`, every other flag off or unknown, every other string and list empty, and no scripting engine
/// yet.
pub open spec fn is_default_with(
    s: ExtraSettings,
    rule_gen: bool,
    overwrite: bool,
    ssr_path: Seq<char>,
    proxies_style: Seq<char>,
    groups_style: Seq<char>,
) -> bool {
    &&& s.enable_rule_generator == rule_gen
    &&& s.overwrite_original_rules == overwrite
    &&& s.rename_array@.len() == 0
    &&& s.emoji_array@.len() == 0
    &&& !s.add_emoji && !s.remove_emoji && !s.append_proxy_type
    &&& !s.nodelist && !s.sort_flag && !s.filter_deprecated
    &&& !s.clash_new_field_name
    &&& !s.clash_script
    &&& s.surge_ssr_path@ == ssr_path
    &&& s.managed_config_prefix@.len() == 0
    &&& s.quanx_dev_id@.len() == 0
    &&& s.udp is None && s.tfo is None && s.skip_cert_verify is None && s.tls13 is None
    &&& !s.clash_classical_ruleset
    &&& s.sort_script@.len() == 0
    &&& s.clash_proxies_style@ == style_or_flow(proxies_style)
    &&& s.clash_proxy_groups_style@ == style_or_flow(groups_style)
    &&& !s.authorized
    &&& s.js_context is None
    &&& s.js_runtime is None
}

/// Whether `s` holds the defaults derived from `g`.
pub open spec fn is_default_for(s: ExtraSettings, g: GlobalSettings) -> bool {
    is_default_with(
        s,
        g.enable_rule_gen,
        g.overwrite_original_rules,
        g.surge_ssr_path@,
        g.clash_proxies_style@,
        g.clash_proxy_groups_style@,
    )
}

/// Whether `a` and `b` agree on everything but the scripting engine.
pub open spec fn same_options(a: ExtraSettings, b: ExtraSettings) -> bool {
    (ExtraSettings { js_context: None, js_runtime: None, ..a }) == (ExtraSettings {
        js_context: None,
        js_runtime: None,
        ..b
    })
}

fn style_or_default(style: &String) -> (r: String)
    ensures
        r@ == style_or_flow(style@),
{
    if style.as_str().is_empty() {
        String::from_str("flow")
    } else {
        style.clone()
    }
}

impl ExtraSettings {
    /// Settings that start from the global values `global`.
    pub fn from_global(global: &GlobalSettings) -> (r: ExtraSettings)
        ensures
            is_default_for(r, *global),
    {
        ExtraSettings {
            enable_rule_generator: global.enable_rule_gen,
            overwrite_original_rules: global.overwrite_original_rules,
            rename_array: Vec::new(),
            emoji_array: Vec::new(),
            add_emoji: false,
            remove_emoji: false,
            append_proxy_type: false,
            nodelist: false,
            sort_flag: false,
            filter_deprecated: false,
            clash_new_field_name: false,
            clash_script: false,
            surge_ssr_path: global.surge_ssr_path.clone(),
            managed_config_prefix: String::new(),
            quanx_dev_id: String::new(),
            udp: None,
            tfo: None,
            skip_cert_verify: None,
            tls13: None,
            clash_classical_ruleset: false,
            sort_script: String::new(),
            clash_proxies_style: style_or_default(&global.clash_proxies_style),
            clash_proxy_groups_style: style_or_default(&global.clash_proxy_groups_style),
            authorized: false,
            js_context: None,
            js_runtime: None,
        }
    }

    /// Creates the scripting context if there is none yet, on the existing
    /// runtime or on a new one where there is none; an existing runtime or
    /// context is kept as it is. On failure nothing changes.
    pub fn init_js_context(&mut self) -> (r: Result<(), FilterError>)
        requires
            old(self).engine_paired(),
        ensures
            final(self).engine_paired(),
            old(self).js_context is Some ==> r is Ok && *final(self) == *old(self),
            old(self).js_runtime is Some ==> final(self).js_runtime == old(self).js_runtime,
            r is Ok ==> final(self).js_context is Some && final(self).js_runtime is Some,
            r is Ok ==> same_options(*final(self), *old(self)),
            r is Err ==> r->Err_0 is EngineInitFailure && *final(self) == *old(self),
    {
        if self.js_context.is_none() {
            let created = match &self.js_runtime {
                Some(runtime) => match new_context(runtime) {
                    Ok(cx) => (None, cx),
                    Err(e) => return Err(FilterError::EngineInitFailure(e)),
                },
                None => {
                    let runtime = match new_runtime() {
                        Ok(rt) => rt,
                        Err(e) => return Err(FilterError::EngineInitFailure(e)),
                    };
                    match new_context(&runtime) {
                        Ok(cx) => (Some(runtime), cx),
                        Err(e) => return Err(FilterError::EngineInitFailure(e)),
                    }
                },
            };
            let (fresh_runtime, context) = created;
            if let Some(rt) = fresh_runtime {
                self.js_runtime = Some(rt);
            }
            self.js_context = Some(context);
        }
        Ok(())
    }

    /// Runs `source_str` once and keeps, in order, the nodes for which its
    /// global `filter` returns `true`. A node whose call fails is dropped
    /// and the run goes on; the texts of those failures are returned, in
    /// node order. When the engine cannot be created, the script throws or
    /// fails to run, or leaves no callable `filter`, the nodes are left as
    /// they were and the error says which. The engine is created on the
    /// first run and reused by every later one.
    pub fn run_filter(&mut self, nodes: &mut Vec<Proxy>, source_str: &str) -> (r: Result<
        Vec<String>,
        FilterError,
    >)
        requires
            old(self).engine_paired(),
        ensures
            final(self).engine_paired(),
            old(self).js_runtime is Some ==> final(self).js_runtime == old(self).js_runtime,
            r is Ok ==> final(self).js_runtime is Some,
            same_options(*final(self), *old(self)),
            old(self).js_context is Some ==> final(self).js_context == old(self).js_context
                && final(self).js_runtime == old(self).js_runtime,
            r matches Err(FilterError::EngineInitFailure(_)) ==> old(self).js_context is None
                && *final(self) == *old(self),
            r is Err ==> final(nodes)@ == old(nodes)@,
            r is Ok ==> final(self).js_context is Some,
            r matches Ok(failed) ==> exists|v: Seq<Verdict>|
                v.len() == old(nodes)@.len() && final(nodes)@ == #[trigger] kept(old(nodes)@, v)
                    && failed@ == call_failures(v),
    {
        match self.init_js_context() {
            Ok(()) => {},
            Err(e) => return Err(e),
        }
        let context = match &self.js_context {
            Some(cx) => cx,
            None => unreached(),
        };
        let evaluated = evaluation_result(run_script(context, source_str));
        let found = if evaluated.is_ok() {
            find_filter(context)
        } else {
            None
        };
        match stage_outcome(evaluated, found.is_some()) {
            Ok(()) => {},
            Err(e) => return Err(e),
        }
        let filter = match &found {
            Some(f) => f,
            None => unreached(),
        };
        let verdicts = collect_verdicts(context, filter, nodes);
        apply_verdicts(nodes, &verdicts);
        Ok(failures_of(&verdicts))
    }

    /// Filters `nodes` by the script's `filter`, as `run_filter` does,
    /// without the texts of failed calls.
    pub fn eval_filter_function(&mut self, nodes: &mut Vec<Proxy>, source_str: &str) -> (r: Result<
        (),
        FilterError,
    >)
        requires
            old(self).engine_paired(),
        ensures
            final(self).engine_paired(),
            old(self).js_runtime is Some ==> final(self).js_runtime == old(self).js_runtime,
            r is Ok ==> final(self).js_runtime is Some,
            same_options(*final(self), *old(self)),
            old(self).js_context is Some ==> final(self).js_context == old(self).js_context
                && final(self).js_runtime == old(self).js_runtime,
            r matches Err(FilterError::EngineInitFailure(_)) ==> old(self).js_context is None
                && *final(self) == *old(self),
            r is Err ==> final(nodes)@ == old(nodes)@,
            r is Ok ==> final(self).js_context is Some,
            r is Ok ==> exists|v: Seq<Verdict>|
                v.len() == old(nodes)@.len() && final(nodes)@ == #[trigger] kept(old(nodes)@, v),
    {
        match self.run_filter(nodes, source_str) {
            Ok(_) => Ok(()),
            Err(e) => Err(e),
        }
    }
}

/// The verdict of `filter` on each node, in order.
fn collect_verdicts(context: &Context, filter: &FilterFn, nodes: &Vec<Proxy>) -> (v: Vec<Verdict>)
    ensures
        v@.len() == nodes@.len(),
{
    let mut verdicts: Vec<Verdict> = Vec::new();
    let mut i: usize = 0;
    while i < nodes.len()
        invariant
            i <= nodes@.len(),
            verdicts@.len() == i,
        decreases nodes@.len() - i,
    {
        let text = node_json(&nodes[i]);
        verdicts.push(call_filter(context, filter, text.as_str()));
        i = i + 1;
    }
    verdicts
}

impl Default for ExtraSettings {
    /// Settings from empty global values: both Clash styles `flow`.
    fn default() -> (r: ExtraSettings)
        ensures
            is_default_with(r, false, false, Seq::empty(), Seq::empty(), Seq::empty()),
    {
        let global = GlobalSettings::new();
        assert(global.surge_ssr_path@ =~= Seq::empty());
        assert(global.clash_proxies_style@ =~= Seq::empty());
        assert(global.clash_proxy_groups_style@ =~= Seq::empty());
        ExtraSettings::from_global(&global)
    }
}

} // verus!
