use std::collections::{HashMap, HashSet};

use wanco::compile::cr::graph::{find_cycles, reach_closure};
use wanco::compile::cr::opt::{
    analyse, calculate_type_idx_to_fn_idx, has_loop, may_take_infinite_time,
};
use wanco::compile::stackmap::{encode_llvm_type, stackmap_id};
use wanco::context::{Function, Origin};
use wanco::ir::NumType;
use wanco::wasm::{BlockType, FunctionBody, Operator};

fn table(rows: Vec<Vec<u32>>) -> HashMap<u32, Vec<u32>> {
    rows.into_iter().enumerate().map(|(k, row)| (k as u32, row)).collect()
}

fn defined(type_idx: u32) -> Function {
    Function { type_idx, origin: Origin::Defined }
}

fn body(operators: Vec<Operator>) -> FunctionBody {
    FunctionBody { locals: vec![], operators }
}

fn calls(callees: &[u32]) -> FunctionBody {
    let mut operators: Vec<Operator> =
        callees.iter().map(|f| Operator::Call { function_index: *f }).collect();
    operators.push(Operator::End);
    body(operators)
}

#[test]
fn reachability_follows_the_edges_backwards() {
    // 0 -> 1 -> 2, 3 alone, 4 -> 4
    let adj = vec![vec![1], vec![2], vec![], vec![], vec![4]];
    let seeds = vec![false, false, true, false, false];
    assert_eq!(reach_closure(&adj, &seeds), vec![true, true, true, false, false]);
    let none = vec![false; 5];
    assert_eq!(reach_closure(&adj, &none), none);
}

#[test]
fn edges_to_nodes_that_do_not_exist_lead_nowhere() {
    let adj = vec![vec![7], vec![0]];
    assert_eq!(reach_closure(&adj, &vec![false, false]), vec![false, false]);
    assert_eq!(find_cycles(&adj), vec![false, false]);
}

#[test]
fn cycles_are_found() {
    // 0 -> 1 -> 2 -> 0, 2 -> 3, 4 -> 4, 5 -> 0
    let adj = vec![vec![1], vec![2], vec![0, 3], vec![], vec![4], vec![0]];
    assert_eq!(find_cycles(&adj), vec![true, true, true, false, true, false]);
    assert_eq!(find_cycles(&vec![]), Vec::<bool>::new());
}

#[test]
fn functions_are_listed_by_their_types() {
    let functions = vec![defined(1), defined(0), defined(1), defined(5)];
    assert_eq!(
        calculate_type_idx_to_fn_idx(&functions, 3),
        vec![vec![1], vec![0, 2], vec![]]
    );
}

#[test]
fn a_loop_is_found_anywhere_in_a_body() {
    assert!(!has_loop(&vec![Operator::Nop, Operator::End]));
    assert!(has_loop(&vec![
        Operator::Block { blockty: BlockType::Empty },
        Operator::Loop { blockty: BlockType::Empty },
        Operator::End,
        Operator::End,
        Operator::End,
    ]));
}

#[test]
fn functions_that_reach_unbounded_ones_are_instrumented() {
    // 0 is an import; 1 calls 2 and 3; 2 recurses; 3 is plain; 4 loops;
    // 5 calls 4; 6 calls 3
    let functions = vec![
        Function { type_idx: 0, origin: Origin::Import { entry: 0, qualified: false } },
        defined(0),
        defined(0),
        defined(0),
        defined(0),
        defined(0),
        defined(0),
    ];
    let bodies = vec![
        calls(&[2, 3]),
        calls(&[0, 2]),
        calls(&[]),
        body(vec![Operator::Loop { blockty: BlockType::Empty }, Operator::End, Operator::End]),
        calls(&[4]),
        calls(&[3, 0]),
    ];
    let a = analyse(&functions, 1, 1, &bodies);
    assert_eq!(a.num_function_imports, 1);
    assert_eq!(a.num_functions, 7);
    assert_eq!(a.callgraph, table(vec![vec![], vec![2, 3], vec![0, 2], vec![], vec![], vec![4], vec![
        3, 0
    ]]));
    assert_eq!(a.cycle_fn, HashSet::from([2]));
    assert_eq!(a.fn_has_loop, HashSet::from([4]));
    assert_eq!(a.functions_reachable_to_fn_taking_infinite_time, HashSet::from([1, 2, 4, 5]));
    assert!(a.call_requires_migration_point(1, 2));
    assert!(!a.call_requires_migration_point(1, 3));
    assert!(!a.call_requires_migration_point(1, 100));
    assert!(may_take_infinite_time(&a, 2));
    assert!(may_take_infinite_time(&a, 4));
    assert!(!may_take_infinite_time(&a, 1));
    assert!(a.function_requires_restore_instrumentation(5));
    assert!(!a.function_requires_restore_instrumentation(6));
}

#[test]
fn an_indirect_call_may_reach_every_function_of_its_type() {
    // type 1: functions 1 and 2; function 2 loops
    let functions = vec![defined(0), defined(1), defined(1), defined(2)];
    let bodies = vec![
        body(vec![
            Operator::I32Const { value: 0 },
            Operator::CallIndirect { type_index: 1, table_index: 0 },
            Operator::End,
        ]),
        calls(&[]),
        body(vec![Operator::Loop { blockty: BlockType::Empty }, Operator::End, Operator::End]),
        calls(&[]),
    ];
    let a = analyse(&functions, 3, 0, &bodies);
    assert_eq!(a.num_types, 3);
    assert_eq!(a.type_idx_to_fn_idx, table(vec![vec![0], vec![1, 2], vec![3]]));
    assert_eq!(a.callgraph[&0], vec![1, 2]);
    assert_eq!(a.functions_reachable_to_fn_taking_infinite_time, HashSet::from([0, 2]));
    assert!(a.call_indirect_requires_migration_point(0, 1));
    // function 0 itself is of type 0
    assert!(a.call_indirect_requires_migration_point(0, 0));
    assert!(!a.call_indirect_requires_migration_point(0, 2));
    assert!(!a.call_indirect_requires_migration_point(0, 9));
}

#[test]
fn stack_map_identifiers() {
    assert_eq!(stackmap_id(0, 0), 0);
    assert_eq!(stackmap_id(1, 2), (1 << 32) | 2);
    assert_eq!(stackmap_id(u32::MAX, u32::MAX), u64::MAX);
    assert_eq!(stackmap_id(7, 0xffff), 0x0000_0007_0000_ffff);
}

#[test]
fn types_in_stack_maps() {
    assert_eq!(encode_llvm_type(NumType::I32), 0);
    assert_eq!(encode_llvm_type(NumType::I64), 1);
    assert_eq!(encode_llvm_type(NumType::F32), 2);
    assert_eq!(encode_llvm_type(NumType::F64), 3);
}
