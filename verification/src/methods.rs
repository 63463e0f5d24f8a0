//! One discovery/policy table for the local research control plane.
use vstd::prelude::*;
use crate::strings::str_eq;

verus! {

/// A research method: whether it needs a project binding, whether only the
/// trusted native UI may call it, and what it does.
#[derive(Clone, Copy, Debug)]
pub struct MethodDescriptor {
    pub method: &'static str,
    pub requires_binding: bool,
    pub native_only: bool,
    pub description: &'static str,
}

/// A descriptor as plain values: method name, binding requirement, native-only flag.
pub open spec fn descriptor_model(d: MethodDescriptor) -> (Seq<char>, bool, bool) {
    (d.method@, d.requires_binding, d.native_only)
}

/// The research method table, in order.
pub open spec fn research_table() -> Seq<(Seq<char>, bool, bool)> {
    seq![
        ("plugins.remove_local"@, false, true),
        ("slots.migrations"@, false, false),
        ("pool.read_index_partition"@, true, false),
        ("pool.collect_cache"@, true, true),
        ("pool.open_view"@, true, false),
        ("pool.read_batch"@, true, false),
        ("pool.read_slice"@, true, false),
        ("pool.read_segment"@, true, false),
        ("pool.read_alignment"@, true, false),
        ("pool.read_annotation"@, true, false),
        ("pool.close_view"@, true, false),
        ("plugins.install_local"@, false, true),
        ("research.summary"@, true, false),
        ("research.merge_groups"@, true, true),
        ("pipeline.list_methods_v2"@, true, false),
        ("pipeline.save_method_v2"@, true, true),
        ("pipeline.start"@, true, false),
        ("pipeline.get_graph_run"@, true, false),
        ("pipeline.cancel_graph_run"@, true, false),
        ("capabilities.get"@, false, false),
        ("slots.list"@, false, false),
        ("schemas.list"@, false, false),
        ("schemas.get"@, false, false),
        ("operators.list"@, false, false),
        ("research.start"@, true, false),
        ("pipeline.get_run"@, true, false),
        ("pipeline.list_runs"@, true, false),
        ("pipeline.cancel_run"@, true, false),
        ("pipeline.read_result"@, true, false),
        ("pipeline.validate_plan"@, true, false),
        ("pipeline.list_artifacts"@, true, false),
        ("pipeline.read_artifact"@, true, false),
        ("features.enable"@, false, true),
        ("features.disable"@, false, true),
        ("features.cancel_prepare"@, false, true),
        ("features.retry_prepare"@, false, true),
        ("features.update_preferences"@, false, true),
        ("research.confirm"@, true, true),
    ]
}

/// The research methods' descriptions, in table order.
pub open spec fn research_descriptions() -> Seq<Seq<char>> {
    seq![
        "Unregister a separately installed local package while retaining historical artifacts"@,
        "Discover explicit legacy aliases and names requiring a new provider choice"@,
        "Read at most 200 term postings from a snapshot-bound index artifact"@,
        "Collect unreachable rebuildable payloads while preserving view, method and run references"@,
        "Open a scoped view pinned to a canonical revision"@,
        "Pull at most 200 rows and publish a typed immutable batch"@,
        "Read a bounded snapshot slice"@,
        "Read a stable Segment from a frozen view"@,
        "Read an n:m alignment from a frozen view"@,
        "Read a human annotation from a frozen view"@,
        "Close a scoped view and release its lease"@,
        "Install a verified local algorithm package directory"@,
        "Read full-run group distribution and review coverage"@,
        "Merge human surface-form groups in one canonical revision"@,
        "List versioned named-port methods"@,
        "Save a validated immutable method revision"@,
        "Start asynchronous v2 graph execution"@,
        "Read generic graph status and output manifests"@,
        "Cancel generic graph execution"@,
        "Read live feature, slot and operator availability"@,
        "List registered slot contracts"@,
        "List registered JSON Schemas"@,
        "Read immutable schema by name and version"@,
        "List currently bound operators"@,
        "Start asynchronous frozen-snapshot translation research"@,
        "Read research run status"@,
        "List durable project research runs"@,
        "Cancel a research run"@,
        "Read at most 200 occurrences at a stable cursor"@,
        "Compile typed v2 named-port graph without execution"@,
        "Discover published schema-checked artifacts"@,
        "Read immutable artifact by opaque handle"@,
        "Prepare official resources and enable feature"@,
        "Stop feature, retain resources and project records"@,
        "Cancel resource preparation"@,
        "Retry resource preparation"@,
        "Save local feature defaults"@,
        "Commit human judgement through canonical command envelope"@,
    ]
}

/// The first table entry for a method name.
pub open spec fn lookup(table: Seq<(Seq<char>, bool, bool)>, method: Seq<char>) -> Option<(Seq<char>, bool, bool)>
    decreases table.len(),
{
    if table.len() == 0 {
        None
    } else if table[0].0 == method {
        Some(table[0])
    } else {
        lookup(table.drop_first(), method)
    }
}

/// Every research method descriptor, in table order.
pub fn research_methods() -> (r: Vec<MethodDescriptor>)
    ensures
        r@.map_values(|d: MethodDescriptor| descriptor_model(d)) == research_table(),
        r@.len() == research_descriptions().len(),
        forall|i: int| 0 <= i < r@.len() ==> (#[trigger] r@[i]).description@ == research_descriptions()[i],
{
    let r = vec![
        MethodDescriptor { method: "plugins.remove_local", requires_binding: false, native_only: true, description: "Unregister a separately installed local package while retaining historical artifacts" },
        MethodDescriptor { method: "slots.migrations", requires_binding: false, native_only: false, description: "Discover explicit legacy aliases and names requiring a new provider choice" },
        MethodDescriptor { method: "pool.read_index_partition", requires_binding: true, native_only: false, description: "Read at most 200 term postings from a snapshot-bound index artifact" },
        MethodDescriptor { method: "pool.collect_cache", requires_binding: true, native_only: true, description: "Collect unreachable rebuildable payloads while preserving view, method and run references" },
        MethodDescriptor { method: "pool.open_view", requires_binding: true, native_only: false, description: "Open a scoped view pinned to a canonical revision" },
        MethodDescriptor { method: "pool.read_batch", requires_binding: true, native_only: false, description: "Pull at most 200 rows and publish a typed immutable batch" },
        MethodDescriptor { method: "pool.read_slice", requires_binding: true, native_only: false, description: "Read a bounded snapshot slice" },
        MethodDescriptor { method: "pool.read_segment", requires_binding: true, native_only: false, description: "Read a stable Segment from a frozen view" },
        MethodDescriptor { method: "pool.read_alignment", requires_binding: true, native_only: false, description: "Read an n:m alignment from a frozen view" },
        MethodDescriptor { method: "pool.read_annotation", requires_binding: true, native_only: false, description: "Read a human annotation from a frozen view" },
        MethodDescriptor { method: "pool.close_view", requires_binding: true, native_only: false, description: "Close a scoped view and release its lease" },
        MethodDescriptor { method: "plugins.install_local", requires_binding: false, native_only: true, description: "Install a verified local algorithm package directory" },
        MethodDescriptor { method: "research.summary", requires_binding: true, native_only: false, description: "Read full-run group distribution and review coverage" },
        MethodDescriptor { method: "research.merge_groups", requires_binding: true, native_only: true, description: "Merge human surface-form groups in one canonical revision" },
        MethodDescriptor { method: "pipeline.list_methods_v2", requires_binding: true, native_only: false, description: "List versioned named-port methods" },
        MethodDescriptor { method: "pipeline.save_method_v2", requires_binding: true, native_only: true, description: "Save a validated immutable method revision" },
        MethodDescriptor { method: "pipeline.start", requires_binding: true, native_only: false, description: "Start asynchronous v2 graph execution" },
        MethodDescriptor { method: "pipeline.get_graph_run", requires_binding: true, native_only: false, description: "Read generic graph status and output manifests" },
        MethodDescriptor { method: "pipeline.cancel_graph_run", requires_binding: true, native_only: false, description: "Cancel generic graph execution" },
        MethodDescriptor { method: "capabilities.get", requires_binding: false, native_only: false, description: "Read live feature, slot and operator availability" },
        MethodDescriptor { method: "slots.list", requires_binding: false, native_only: false, description: "List registered slot contracts" },
        MethodDescriptor { method: "schemas.list", requires_binding: false, native_only: false, description: "List registered JSON Schemas" },
        MethodDescriptor { method: "schemas.get", requires_binding: false, native_only: false, description: "Read immutable schema by name and version" },
        MethodDescriptor { method: "operators.list", requires_binding: false, native_only: false, description: "List currently bound operators" },
        MethodDescriptor { method: "research.start", requires_binding: true, native_only: false, description: "Start asynchronous frozen-snapshot translation research" },
        MethodDescriptor { method: "pipeline.get_run", requires_binding: true, native_only: false, description: "Read research run status" },
        MethodDescriptor { method: "pipeline.list_runs", requires_binding: true, native_only: false, description: "List durable project research runs" },
        MethodDescriptor { method: "pipeline.cancel_run", requires_binding: true, native_only: false, description: "Cancel a research run" },
        MethodDescriptor { method: "pipeline.read_result", requires_binding: true, native_only: false, description: "Read at most 200 occurrences at a stable cursor" },
        MethodDescriptor { method: "pipeline.validate_plan", requires_binding: true, native_only: false, description: "Compile typed v2 named-port graph without execution" },
        MethodDescriptor { method: "pipeline.list_artifacts", requires_binding: true, native_only: false, description: "Discover published schema-checked artifacts" },
        MethodDescriptor { method: "pipeline.read_artifact", requires_binding: true, native_only: false, description: "Read immutable artifact by opaque handle" },
        MethodDescriptor { method: "features.enable", requires_binding: false, native_only: true, description: "Prepare official resources and enable feature" },
        MethodDescriptor { method: "features.disable", requires_binding: false, native_only: true, description: "Stop feature, retain resources and project records" },
        MethodDescriptor { method: "features.cancel_prepare", requires_binding: false, native_only: true, description: "Cancel resource preparation" },
        MethodDescriptor { method: "features.retry_prepare", requires_binding: false, native_only: true, description: "Retry resource preparation" },
        MethodDescriptor { method: "features.update_preferences", requires_binding: false, native_only: true, description: "Save local feature defaults" },
        MethodDescriptor { method: "research.confirm", requires_binding: true, native_only: true, description: "Commit human judgement through canonical command envelope" },
    ];
    assert(r@.map_values(|d: MethodDescriptor| descriptor_model(d)) =~= research_table());
    assert(r@.len() == research_descriptions().len());
    r
}

/// The descriptor of a research method, if the table lists it.
pub fn research_method(method: &str) -> (r: Option<MethodDescriptor>)
    ensures
        match lookup(research_table(), method@) {
            None => r is None,
            Some(m) => r matches Some(d) && descriptor_model(d) == m,
        },
        r matches Some(d) ==> exists|i: int| 0 <= i < research_table().len() && research_table()[i].0 == method@
            && #[trigger] research_descriptions()[i] == d.description@,
{
    let table = research_methods();
    let ghost models = table@.map_values(|d: MethodDescriptor| descriptor_model(d));
    let mut i: usize = 0;
    assert(models.skip(0) == models);
    while i < table.len()
        invariant
            0 <= i <= table@.len(),
            models == table@.map_values(|d: MethodDescriptor| descriptor_model(d)),
            models == research_table(),
            lookup(models.skip(i as int), method@) == lookup(research_table(), method@),
            table@.len() == research_descriptions().len(),
            forall|k: int| 0 <= k < table@.len() ==> (#[trigger] table@[k]).description@ == research_descriptions()[k],
        decreases table@.len() - i,
    {
        assert(models.skip(i as int).drop_first() == models.skip(i as int + 1));
        assert(models.skip(i as int)[0] == descriptor_model(table@[i as int]));
        if str_eq(table[i].method, method) {
            assert(research_table()[i as int].0 == method@);
            assert(research_descriptions()[i as int] == table@[i as int].description@);
            return Some(table[i]);
        }
        i += 1;
    }
    None
}

} // verus!
