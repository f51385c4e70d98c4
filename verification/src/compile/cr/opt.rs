//! The call-graph analysis that selects the call sites to instrument.

use std::collections::{HashMap, HashSet};
use vstd::prelude::*;
use vstd::std_specs::hash::*;

use crate::compile::cr::graph::{find_cycles, on_cycle, reach_closure, reaches_seed};
use crate::context::{Context, ContextView, Function};
use crate::error::{CompileError, Malformation};
use crate::wasm::{FunctionBody, Operator};

verus! {

broadcast use vstd::std_specs::hash::group_hash_axioms;

/// What the analysis found out about a module. The tables are keyed by
/// function index, imports included, or by type index; a key without an
/// entry has no functions, and a function that is in no set has not the
/// property.
#[derive(Debug)]
pub struct Analysis {
    pub num_function_imports: u32,
    /// The number of functions of the module.
    pub num_functions: usize,
    /// The number of types of the module.
    pub num_types: usize,
    /// For each type index, the functions of that type, in rising order.
    pub type_idx_to_fn_idx: HashMap<u32, Vec<u32>>,
    /// For each function, the functions that it may call.
    pub callgraph: HashMap<u32, Vec<u32>>,
    /// The functions that lie on a cycle of the call graph.
    pub cycle_fn: HashSet<u32>,
    /// The functions whose body holds a loop.
    pub fn_has_loop: HashSet<u32>,
    /// The functions that can reach one that may run without bound.
    pub functions_reachable_to_fn_taking_infinite_time: HashSet<u32>,
}

/// What the analysis found out about a module.
pub struct AnalysisView {
    pub num_imports: nat,
    /// For each type index, the functions of that type, in rising order.
    pub by_type: Seq<Seq<u32>>,
    /// For each function, the functions that it may call.
    pub callgraph: Seq<Seq<u32>>,
    /// For each function, whether it lies on a cycle of the call graph.
    pub cycle: Seq<bool>,
    /// For each function, whether its body holds a loop.
    pub loops: Seq<bool>,
    /// For each function, whether it can reach a function that may run
    /// without bound.
    pub reachable: Seq<bool>,
}

/// The entry of a table under the key `k`; nothing where it has none.
pub open spec fn entry(table: Map<u32, Vec<u32>>, k: int) -> Seq<u32> {
    if 0 <= k <= u32::MAX && table.contains_key(k as u32) {
        table[k as u32]@
    } else {
        seq![]
    }
}

/// The entries of a table under the keys below `n`, in the order of the
/// keys.
pub open spec fn rows(table: Map<u32, Vec<u32>>, n: nat) -> Seq<Seq<u32>> {
    Seq::new(n, |k: int| entry(table, k))
}

/// For each number below `n`, whether it is in the set.
pub open spec fn marks(set: Set<u32>, n: nat) -> Seq<bool> {
    Seq::new(n, |k: int| 0 <= k <= u32::MAX && set.contains(k as u32))
}

impl View for Analysis {
    type V = AnalysisView;

    open spec fn view(&self) -> AnalysisView {
        AnalysisView {
            num_imports: self.num_function_imports as nat,
            by_type: rows(self.type_idx_to_fn_idx@, self.num_types as nat),
            callgraph: rows(self.callgraph@, self.num_functions as nat),
            cycle: marks(self.cycle_fn@, self.num_functions as nat),
            loops: marks(self.fn_has_loop@, self.num_functions as nat),
            reachable: marks(
                self.functions_reachable_to_fn_taking_infinite_time@,
                self.num_functions as nat,
            ),
        }
    }
}

impl AnalysisView {
    /// Whether function `f` may run without bound: whether it holds a loop
    /// or lies on a cycle of the call graph.
    pub open spec fn unbounded(self, f: u32) -> bool {
        (f < self.cycle.len() && self.cycle[f as int]) || (f < self.loops.len()
            && self.loops[f as int])
    }

    /// Whether function `f` can reach a function that may run without bound.
    pub open spec fn instrumented(self, f: u32) -> bool {
        f < self.reachable.len() && self.reachable[f as int]
    }

    /// Whether some function of the type with index `type_index` can reach a
    /// function that may run without bound.
    pub open spec fn type_instrumented(self, type_index: u32) -> bool {
        &&& type_index < self.by_type.len()
        &&& exists|k: int|
            0 <= k < self.by_type[type_index as int].len() && self.instrumented(
                #[trigger] self.by_type[type_index as int][k],
            )
    }
}

impl Analysis {
    /// Tells whether a call of `callee` needs a migration point.
    pub fn call_requires_migration_point(&self, caller: u32, callee: u32) -> (r: bool)
        ensures
            r == self@.instrumented(callee),
    {
        (callee as usize) < self.num_functions
            && self.functions_reachable_to_fn_taking_infinite_time.contains(&callee)
    }

    /// Tells whether an indirect call through the type with index
    /// `type_index` needs a migration point: whether any function that it
    /// may reach does.
    pub fn call_indirect_requires_migration_point(&self, caller: u32, type_index: u32) -> (r: bool)
        ensures
            r == self@.type_instrumented(type_index),
    {
        if type_index as usize >= self.num_types {
            return false;
        }
        match self.type_idx_to_fn_idx.get(&type_index) {
            None => false,
            Some(callees) => {
                let n = callees.len();
                let mut i: usize = 0;
                while i < n
                    invariant
                        i <= n,
                        type_index < self@.by_type.len(),
                        callees@ == self@.by_type[type_index as int],
                        n == callees@.len(),
                        forall|k: int| 0 <= k < i ==> !self@.instrumented(#[trigger] callees@[k]),
                    decreases n - i,
                {
                    if self.call_requires_migration_point(caller, callees[i]) {
                        return true;
                    }
                    i += 1;
                }
                false
            },
        }
    }

    /// Tells whether the function with index `fn_index` has sites at which
    /// it can be restored.
    pub fn function_requires_restore_instrumentation(&self, fn_index: u32) -> (r: bool)
        ensures
            r == self@.instrumented(fn_index),
    {
        (fn_index as usize) < self.num_functions
            && self.functions_reachable_to_fn_taking_infinite_time.contains(&fn_index)
    }
}

/// What the analysis reads of a module: its functions, the number of its
/// types, the number of its imported functions, and the bodies of the
/// functions that it defines.
pub struct ModuleShape {
    pub functions: Seq<Function>,
    pub types: nat,
    pub num_imports: nat,
    pub bodies: Seq<FunctionBody>,
}

impl ModuleShape {
    /// The functions below `k` whose type has the index `t`, in rising
    /// order.
    pub open spec fn fns_of_type(self, t: int, k: nat) -> Seq<u32>
        decreases k,
    {
        if k == 0 {
            seq![]
        } else {
            let r = self.fns_of_type(t, (k - 1) as nat);
            if self.functions[k - 1].type_idx == t {
                r.push((k - 1) as u32)
            } else {
                r
            }
        }
    }

    /// For each type index, the functions of that type.
    pub open spec fn by_type(self) -> Seq<Seq<u32>> {
        Seq::new(self.types, |t: int| self.fns_of_type(t, self.functions.len()))
    }

    /// The functions that an operator may call: the callee of a call, and
    /// for an indirect call every function of the type that it names.
    pub open spec fn op_callees(self, op: Operator) -> Seq<u32> {
        match op {
            Operator::Call { function_index } => seq![function_index],
            Operator::CallIndirect { type_index, .. } => if type_index < self.types {
                self.fns_of_type(type_index as int, self.functions.len())
            } else {
                seq![]
            },
            _ => seq![],
        }
    }

    /// The functions that the first `k` of `ops` may call.
    pub open spec fn callees(self, ops: Seq<Operator>, k: nat) -> Seq<u32>
        decreases k,
    {
        if k == 0 {
            seq![]
        } else {
            self.callees(ops, (k - 1) as nat) + self.op_callees(ops[k - 1])
        }
    }

    /// The operators of function `f`; none for a function without a body.
    pub open spec fn body(self, f: int) -> Seq<Operator> {
        if self.num_imports <= f < self.num_imports + self.bodies.len() {
            self.bodies[f - self.num_imports].operators@
        } else {
            seq![]
        }
    }

    /// The call graph: for each function, the functions that it may call.
    pub open spec fn callgraph(self) -> Seq<Seq<u32>> {
        Seq::new(
            self.functions.len(),
            |f: int| self.callees(self.body(f), self.body(f).len()),
        )
    }

    /// For each function, whether its body holds a loop.
    pub open spec fn loops(self) -> Seq<bool> {
        Seq::new(self.functions.len(), |f: int| holds_loop(self.body(f)))
    }

    /// For each function, whether it may run without bound: whether it
    /// holds a loop or lies on a cycle of the call graph.
    pub open spec fn unbounded(self) -> Seq<bool> {
        Seq::new(
            self.functions.len(),
            |f: int| holds_loop(self.body(f)) || on_cycle(self.callgraph(), f),
        )
    }

    /// Whether function `f` can reach, by calls, a function that may run
    /// without bound.
    pub open spec fn instrumented(self, f: int) -> bool {
        reaches_seed(self.callgraph(), self.unbounded(), f)
    }
}

/// Whether a loop is among the operators.
pub open spec fn holds_loop(ops: Seq<Operator>) -> bool {
    exists|i: int| 0 <= i < ops.len() && #[trigger] ops[i] is Loop
}

/// What the analysis finds out about a module.
pub open spec fn analysis_of(m: ModuleShape) -> AnalysisView {
    AnalysisView {
        num_imports: m.num_imports,
        by_type: m.by_type(),
        callgraph: m.callgraph(),
        cycle: Seq::new(m.functions.len(), |f: int| on_cycle(m.callgraph(), f)),
        loops: m.loops(),
        reachable: Seq::new(m.functions.len(), |f: int| m.instrumented(f)),
    }
}

/// What the analysis reads of the module at hand.
pub open spec fn shape_of(c: ContextView, bodies: Seq<FunctionBody>) -> ModuleShape {
    ModuleShape {
        functions: c.functions,
        types: c.signatures.len(),
        num_imports: c.num_imports as nat,
        bodies,
    }
}

/// Lists, for each type index, the functions of that type.
pub fn calculate_type_idx_to_fn_idx(functions: &Vec<Function>, ntypes: usize) -> (r: Vec<Vec<u32>>)
    requires
        functions@.len() <= u32::MAX,
    ensures
        r@.len() == ntypes,
        forall|m: ModuleShape|
            m.functions == functions@ && m.types == ntypes ==> r@.map_values(|v: Vec<u32>| v@)
                == #[trigger] m.by_type(),
{
    let ghost m0 = ModuleShape {
        functions: functions@,
        types: ntypes as nat,
        num_imports: 0,
        bodies: seq![],
    };
    let mut r: Vec<Vec<u32>> = Vec::new();
    let mut t: usize = 0;
    while t < ntypes
        invariant
            t <= ntypes,
            r@.len() == t,
            forall|k: int| 0 <= k < t ==> (#[trigger] r@[k])@ == Seq::<u32>::empty(),
        decreases ntypes - t,
    {
        r.push(Vec::new());
        t += 1;
    }
    let n = functions.len();
    let mut f: usize = 0;
    while f < n
        invariant
            f <= n,
            n == functions@.len(),
            n <= u32::MAX,
            r@.len() == ntypes,
            m0.functions == functions@,
            forall|k: int| 0 <= k < ntypes ==> (#[trigger] r@[k])@ == m0.fns_of_type(k, f as nat),
        decreases n - f,
    {
        let ty = functions[f].type_idx as usize;
        if ty < ntypes {
            r[ty].push(f as u32);
        }
        f += 1;
    }
    proof {
        assert forall|m: ModuleShape|
            m.functions == functions@ && m.types == ntypes implies r@.map_values(
            |v: Vec<u32>| v@,
        ) == #[trigger] m.by_type() by {
            assert forall|k: int| 0 <= k < ntypes implies m.fns_of_type(k, n as nat)
                == m0.fns_of_type(k, n as nat) by {
                lemma_fns_of_type_same(m, m0, k, n as nat);
            }
            assert(r@.map_values(|v: Vec<u32>| v@) =~= m.by_type());
        }
    }
    r
}

/// The functions of a type depend on the functions alone.
proof fn lemma_fns_of_type_same(a: ModuleShape, b: ModuleShape, t: int, k: nat)
    requires
        a.functions == b.functions,
    ensures
        a.fns_of_type(t, k) == b.fns_of_type(t, k),
    decreases k,
{
    if k > 0 {
        lemma_fns_of_type_same(a, b, t, (k - 1) as nat);
    }
}

/// Tells whether a body holds a loop.
pub fn has_loop(ops: &Vec<Operator>) -> (r: bool)
    ensures
        r == holds_loop(ops@),
{
    let n = ops.len();
    let mut i: usize = 0;
    while i < n
        invariant
            i <= n,
            n == ops@.len(),
            forall|k: int| 0 <= k < i ==> !(#[trigger] ops@[k] is Loop),
        decreases n - i,
    {
        match &ops[i] {
            Operator::Loop { .. } => {
                return true;
            },
            _ => {},
        }
        i += 1;
    }
    false
}

/// Lists the functions that a body may call.
fn get_callee(ops: &Vec<Operator>, by_type: &Vec<Vec<u32>>, Ghost(m): Ghost<ModuleShape>) -> (r:
    Vec<u32>)
    requires
        by_type@.map_values(|v: Vec<u32>| v@) == m.by_type(),
    ensures
        r@ == m.callees(ops@, ops@.len()),
{
    let mut callee: Vec<u32> = Vec::new();
    let n = ops.len();
    let mut i: usize = 0;
    while i < n
        invariant
            i <= n,
            n == ops@.len(),
            by_type@.map_values(|v: Vec<u32>| v@) == m.by_type(),
            callee@ == m.callees(ops@, i as nat),
        decreases n - i,
    {
        let ghost before = callee@;
        match &ops[i] {
            Operator::Call { function_index } => {
                callee.push(*function_index);
                proof {
                    assert(callee@ =~= before + seq![*function_index]);
                }
            },
            Operator::CallIndirect { type_index, .. } => {
                let t = *type_index as usize;
                if t < by_type.len() {
                    let fns = &by_type[t];
                    proof {
                        assert(by_type@.map_values(|v: Vec<u32>| v@).len() == by_type@.len());
                        assert(m.by_type().len() == m.types);
                        assert(by_type@.map_values(|v: Vec<u32>| v@)[t as int] == fns@);
                        assert(m.by_type()[t as int] == m.fns_of_type(
                            t as int,
                            m.functions.len(),
                        ));
                    }
                    let k = fns.len();
                    let mut j: usize = 0;
                    while j < k
                        invariant
                            j <= k,
                            k == fns@.len(),
                            callee@ == before + fns@.take(j as int),
                        decreases k - j,
                    {
                        callee.push(fns[j]);
                        proof {
                            assert(callee@ =~= before + fns@.take(j + 1));
                        }
                        j += 1;
                    }
                    proof {
                        assert(fns@.take(k as int) =~= fns@);
                    }
                } else {
                    proof {
                        assert(by_type@.map_values(|v: Vec<u32>| v@).len() == by_type@.len());
                        assert(m.by_type().len() == m.types);
                        assert(callee@ =~= before + Seq::<u32>::empty());
                    }
                }
            },
            _ => {
                proof {
                    assert(callee@ =~= before + Seq::<u32>::empty());
                }
            },
        }
        i += 1;
    }
    callee
}

/// Tells whether function `f` may run without bound: whether it holds a
/// loop or lies on a cycle of the call graph.
pub fn may_take_infinite_time(analysis: &Analysis, fn_index: u32) -> (r: bool)
    ensures
        r == analysis@.unbounded(fn_index),
        forall|m: ModuleShape|
            analysis@ == #[trigger] analysis_of(m) ==> r == (fn_index < m.functions.len()
                && m.unbounded()[fn_index as int]),
{
    (fn_index as usize) < analysis.num_functions && (analysis.cycle_fn.contains(&fn_index)
        || analysis.fn_has_loop.contains(&fn_index))
}

/// No function has a type whose index is no 32-bit number.
proof fn lemma_no_functions_of_large_type(m: ModuleShape, t: int, k: nat)
    requires
        t > u32::MAX,
    ensures
        m.fns_of_type(t, k) == Seq::<u32>::empty(),
    decreases k,
{
    if k > 0 {
        lemma_no_functions_of_large_type(m, t, (k - 1) as nat);
    }
}

/// Makes the table that holds each row under its index.
fn to_table(table: &Vec<Vec<u32>>) -> (m: HashMap<u32, Vec<u32>>)
    requires
        forall|k: int| u32::MAX < k < table@.len() ==> (#[trigger] table@[k])@.len() == 0,
    ensures
        rows(m@, table@.len()) == table@.map_values(|v: Vec<u32>| v@),
{
    let mut m: HashMap<u32, Vec<u32>> = HashMap::new();
    let n = table.len();
    let mut k: usize = 0;
    while k < n && k <= u32::MAX as usize
        invariant
            k <= n,
            k <= u32::MAX + 1,
            n == table@.len(),
            forall|j: u32| #[trigger] m@.contains_key(j) <==> j < k,
            forall|j: u32| j < k ==> (#[trigger] m@[j])@ == table@[j as int]@,
        decreases n - k,
    {
        let row = copy_row(&table[k]);
        m.insert(k as u32, row);
        k += 1;
    }
    proof {
        assert forall|j: int| 0 <= j < n implies entry(m@, j) == #[trigger] table@[j]@ by {
            if j <= u32::MAX {
                assert(m@.contains_key(j as u32) <==> (j as u32) < k);
            } else {
                assert(table@[j]@ =~= Seq::<u32>::empty());
            }
        }
        assert(rows(m@, n as nat) =~= table@.map_values(|v: Vec<u32>| v@));
    }
    m
}

fn copy_row(v: &Vec<u32>) -> (r: Vec<u32>)
    ensures
        r@ == v@,
{
    let mut r: Vec<u32> = Vec::new();
    let n = v.len();
    let mut i: usize = 0;
    while i < n
        invariant
            i <= n,
            n == v@.len(),
            r@ == v@.take(i as int),
        decreases n - i,
    {
        r.push(v[i]);
        proof {
            assert(r@ =~= v@.take(i + 1));
        }
        i += 1;
    }
    proof {
        assert(v@.take(n as int) =~= v@);
    }
    r
}

/// Makes the set of the numbers that are marked.
fn to_set(marked: &Vec<bool>) -> (s: HashSet<u32>)
    requires
        marked@.len() <= u32::MAX,
    ensures
        marks(s@, marked@.len()) == marked@,
{
    let mut s: HashSet<u32> = HashSet::new();
    let n = marked.len();
    let mut k: usize = 0;
    while k < n
        invariant
            k <= n,
            n == marked@.len(),
            n <= u32::MAX,
            forall|j: u32| #[trigger] s@.contains(j) <==> j < k && marked@[j as int],
        decreases n - k,
    {
        if marked[k] {
            s.insert(k as u32);
        }
        k += 1;
    }
    proof {
        assert(marks(s@, n as nat) =~= marked@);
    }
    s
}

/// Tells whether the function with index `fn_index` is an import.
pub fn is_external_function(ctx: &Context, fn_index: usize) -> (r: bool)
    ensures
        r == (fn_index < ctx@.num_imports),
{
    fn_index < ctx.num_imports as usize
}

/// Analyses a module.
pub fn analyse(
    functions: &Vec<Function>,
    ntypes: usize,
    num_imports: u32,
    bodies: &Vec<FunctionBody>,
) -> (a: Analysis)
    requires
        functions@.len() <= u32::MAX,
    ensures
        a@ == analysis_of(
            ModuleShape {
                functions: functions@,
                types: ntypes as nat,
                num_imports: num_imports as nat,
                bodies: bodies@,
            },
        ),
{
    let ghost m = ModuleShape {
        functions: functions@,
        types: ntypes as nat,
        num_imports: num_imports as nat,
        bodies: bodies@,
    };
    let by_type = calculate_type_idx_to_fn_idx(functions, ntypes);
    assert(by_type@.map_values(|v: Vec<u32>| v@) == m.by_type());
    let n = functions.len();
    let first = num_imports as usize;
    let mut callgraph: Vec<Vec<u32>> = Vec::new();
    let mut loops: Vec<bool> = Vec::new();
    let mut f: usize = 0;
    while f < n
        invariant
            f <= n,
            n == functions@.len(),
            first == num_imports,
            m.functions == functions@,
            m.num_imports == num_imports,
            m.bodies == bodies@,
            by_type@.map_values(|v: Vec<u32>| v@) == m.by_type(),
            callgraph@.len() == f,
            loops@.len() == f,
            forall|h: int|
                0 <= h < f ==> (#[trigger] callgraph@[h])@ == m.callees(
                    m.body(h),
                    m.body(h).len(),
                ),
            forall|h: int| 0 <= h < f ==> #[trigger] loops@[h] == holds_loop(m.body(h)),
        decreases n - f,
    {
        if f >= first && f - first < bodies.len() {
            let ops = &bodies[f - first].operators;
            assert(m.body(f as int) == ops@);
            callgraph.push(get_callee(ops, &by_type, Ghost(m)));
            loops.push(has_loop(ops));
        } else {
            assert(m.body(f as int) == Seq::<Operator>::empty());
            callgraph.push(Vec::new());
            loops.push(false);
        }
        f += 1;
    }
    proof {
        assert(callgraph@.map_values(|v: Vec<u32>| v@) =~= m.callgraph());
        assert(loops@ =~= m.loops());
    }
    let cycle = find_cycles(&callgraph);
    let mut unbounded: Vec<bool> = Vec::new();
    let mut i: usize = 0;
    while i < n
        invariant
            i <= n,
            n == cycle@.len(),
            n == loops@.len(),
            unbounded@.len() == i,
            forall|h: int| 0 <= h < i ==> #[trigger] unbounded@[h] == (loops@[h] || cycle@[h]),
        decreases n - i,
    {
        unbounded.push(loops[i] || cycle[i]);
        i += 1;
    }
    proof {
        assert(unbounded@ =~= m.unbounded());
        assert(cycle@ =~= Seq::new(m.functions.len(), |f: int| on_cycle(m.callgraph(), f)));
    }
    let reachable = reach_closure(&callgraph, &unbounded);
    proof {
        assert(reachable@ =~= Seq::new(m.functions.len(), |f: int| m.instrumented(f)));
    }
    proof {
        assert forall|k: int| u32::MAX < k < by_type@.len() implies (#[trigger] by_type@[k])@.len()
            == 0 by {
            lemma_no_functions_of_large_type(m, k, m.functions.len());
            assert(by_type@.map_values(|v: Vec<u32>| v@)[k] == m.by_type()[k]);
        }
    }
    Analysis {
        num_function_imports: num_imports,
        num_functions: n,
        num_types: ntypes,
        type_idx_to_fn_idx: to_table(&by_type),
        callgraph: to_table(&callgraph),
        cycle_fn: to_set(&cycle),
        fn_has_loop: to_set(&loops),
        functions_reachable_to_fn_taking_infinite_time: to_set(&reachable),
    }
}

/// Runs the analysis on the module at hand and keeps what it finds.
pub fn run_analysis_pass(ctx: &mut Context, functions: &Vec<FunctionBody>) -> (r: Result<
    (),
    CompileError,
>)
    ensures
        old(ctx)@.functions.len() <= u32::MAX ==> r.is_ok() && final(ctx)@ == (ContextView {
            analysis: Some(analysis_of(shape_of(old(ctx)@, functions@))),
            ..old(ctx)@
        }),
        old(ctx)@.functions.len() > u32::MAX ==> r == Err::<(), CompileError>(
            CompileError::Malformed(Malformation::TooManyItems),
        ) && final(ctx)@ == old(ctx)@,
{
    if ctx.functions.len() > u32::MAX as usize {
        return Err(CompileError::Malformed(Malformation::TooManyItems));
    }
    let analysis = analyse(&ctx.functions, ctx.signatures.len(), ctx.num_imports, functions);
    ctx.analysis = Some(analysis);
    Ok(())
}

} // verus!
