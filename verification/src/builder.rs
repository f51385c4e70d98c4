//! The cursor through which all code is emitted.

use crate::ir::{
    Block, BlockView, FuncRef, Incoming, Inst, InstView, IrType, Label, Phi, PhiRef, PhiView, Value,
    ValueKind,
};
use vstd::prelude::*;

verus! {

/// The basic blocks of the module under construction and the block at whose
/// end the next instruction goes.
#[derive(Clone, Debug, PartialEq, Eq)]
pub struct Builder {
    pub blocks: Vec<Block>,
    pub position: Option<usize>,
}

pub struct BuilderView {
    pub blocks: Seq<BlockView>,
    pub position: Option<usize>,
}

impl View for Builder {
    type V = BuilderView;

    open spec fn view(&self) -> BuilderView {
        BuilderView { blocks: self.blocks@.map_values(|b: Block| b@), position: self.position }
    }
}

impl BuilderView {
    /// The cursor stands at the end of an existing block.
    pub open spec fn ready(self) -> bool {
        self.position matches Some(p) && p < self.blocks.len()
    }

    pub open spec fn has_block(self, b: usize) -> bool {
        b < self.blocks.len()
    }

    pub open spec fn has_phi(self, phi: PhiRef) -> bool {
        &&& phi.block < self.blocks.len()
        &&& phi.index < self.blocks[phi.block as int].phis.len()
        &&& self.blocks[phi.block as int].phis[phi.index as int].ty == phi.ty
    }

    /// The index of the block at which the cursor stands.
    pub open spec fn at(self) -> int {
        self.position.unwrap() as int
    }

    /// The instructions of the block at which the cursor stands.
    pub open spec fn code(self) -> Seq<InstView> {
        self.blocks[self.at()].insts
    }

    /// The value that the next instruction emitted at the cursor defines.
    pub open spec fn next_value(self, ty: IrType) -> Value {
        Value {
            kind: ValueKind::Inst {
                block: self.position.unwrap(),
                index: self.code().len() as usize,
            },
            ty,
        }
    }

    /// The value defined by the instruction that comes `k` instructions after
    /// the next one emitted at the cursor.
    pub open spec fn value_at(self, k: int, ty: IrType) -> Value {
        Value {
            kind: ValueKind::Inst {
                block: self.position.unwrap(),
                index: (self.code().len() + k) as usize,
            },
            ty,
        }
    }

    pub open spec fn with_block(self, b: int, block: BlockView) -> BuilderView {
        BuilderView { blocks: self.blocks.update(b, block), ..self }
    }

    /// Appends instructions at the cursor.
    pub open spec fn emit(self, insts: Seq<InstView>) -> BuilderView {
        self.with_block(
            self.at(),
            BlockView { insts: self.code() + insts, ..self.blocks[self.at()] },
        )
    }

    pub open spec fn emit1(self, inst: InstView) -> BuilderView {
        self.emit(seq![inst])
    }

    /// Adds an empty block; its index is the number of blocks before.
    pub open spec fn append_block(self, owner: FuncRef, label: Label) -> BuilderView {
        BuilderView { blocks: self.blocks.push(BlockView::empty(owner, label)), ..self }
    }

    pub open spec fn position_at(self, b: usize) -> BuilderView {
        BuilderView { position: Some(b), ..self }
    }

    /// Adds a phi node without edges to block `b`.
    pub open spec fn add_phi(self, b: usize, ty: IrType) -> BuilderView {
        let block = self.blocks[b as int];
        self.with_block(
            b as int,
            BlockView {
                phis: block.phis.push(PhiView { ty, incoming: Seq::empty(), erased: false }),
                ..block
            },
        )
    }

    /// The place of the phi node that `add_phi` adds.
    pub open spec fn next_phi(self, b: usize, ty: IrType) -> PhiRef {
        PhiRef { block: b, index: self.blocks[b as int].phis.len() as usize, ty }
    }

    pub open spec fn phi(self, phi: PhiRef) -> PhiView {
        self.blocks[phi.block as int].phis[phi.index as int]
    }

    pub open spec fn with_phi(self, phi: PhiRef, node: PhiView) -> BuilderView {
        let block = self.blocks[phi.block as int];
        self.with_block(
            phi.block as int,
            BlockView { phis: block.phis.update(phi.index as int, node), ..block },
        )
    }

    /// Adds an edge to a phi node.
    pub open spec fn add_incoming(self, phi: PhiRef, value: Value, from: usize) -> BuilderView {
        let node = self.phi(phi);
        self.with_phi(
            phi,
            PhiView { incoming: node.incoming.push(Incoming { value, from }), ..node },
        )
    }

    /// Takes a phi node out of the code.
    pub open spec fn erase_phi(self, phi: PhiRef) -> BuilderView {
        self.with_phi(phi, PhiView { erased: true, ..self.phi(phi) })
    }
}

impl Builder {
    /// A builder without blocks.
    pub fn new() -> (b: Builder)
        ensures
            b@.blocks.len() == 0,
            b@.position.is_none(),
    {
        Builder { blocks: Vec::new(), position: None }
    }

    /// The block at which the cursor stands.
    pub fn get_insert_block(&self) -> (r: Option<usize>)
        ensures
            r == self@.position,
    {
        self.position
    }

    /// Adds an empty block to function `owner` and returns its index.
    pub fn append_basic_block(&mut self, owner: FuncRef, label: Label) -> (b: usize)
        ensures
            b == old(self)@.blocks.len(),
            final(self)@ == old(self)@.append_block(owner, label),
    {
        let b = self.blocks.len();
        self.blocks.push(Block { owner, label, phis: Vec::new(), insts: Vec::new() });
        proof {
            let last = self.blocks@[b as int]@;
            assert(last.phis =~= Seq::empty());
            assert(last.insts =~= Seq::empty());
            assert(self@.blocks =~= old(self)@.append_block(owner, label).blocks);
        }
        b
    }

    /// Moves the cursor to the end of block `b`.
    pub fn position_at_end(&mut self, b: usize)
        ensures
            final(self)@ == old(self)@.position_at(b),
    {
        self.position = Some(b);
    }

    /// Appends an instruction at the cursor.
    pub fn emit(&mut self, inst: Inst)
        requires
            old(self)@.ready(),
        ensures
            final(self)@ == old(self)@.emit1(inst@),
    {
        let p = self.position.unwrap();
        self.blocks[p].insts.push(inst);
        proof {
            let b = old(self)@;
            assert(self.blocks@[p as int]@.insts =~= b.code() + seq![inst@]);
            assert(self.blocks@[p as int]@.phis =~= b.blocks[p as int].phis);
            assert(self@.blocks =~= b.emit1(inst@).blocks);
        }
    }

    /// Appends an instruction at the cursor and returns the value it defines.
    pub fn build(&mut self, inst: Inst) -> (v: Value)
        requires
            old(self)@.ready(),
            inst.ty.is_some(),
        ensures
            final(self)@ == old(self)@.emit1(inst@),
            v == old(self)@.next_value(inst.ty.unwrap()),
    {
        let p = self.position.unwrap();
        let index = self.blocks[p].insts.len();
        let ty = inst.ty.unwrap();
        self.emit(inst);
        Value { kind: ValueKind::Inst { block: p, index }, ty }
    }

    /// Adds a phi node without edges to block `b`.
    pub fn build_phi(&mut self, b: usize, ty: IrType) -> (phi: PhiRef)
        requires
            old(self)@.has_block(b),
        ensures
            final(self)@ == old(self)@.add_phi(b, ty),
            phi == old(self)@.next_phi(b, ty),
            final(self)@.has_phi(phi),
    {
        let index = self.blocks[b].phis.len();
        self.blocks[b].phis.push(Phi { ty, incoming: Vec::new(), erased: false });
        proof {
            let o = old(self)@;
            assert(self.blocks@[b as int]@.phis =~= o.blocks[b as int].phis.push(
                PhiView { ty, incoming: Seq::empty(), erased: false },
            ));
            assert(self.blocks@[b as int]@.insts =~= o.blocks[b as int].insts);
            assert(self@.blocks =~= o.add_phi(b, ty).blocks);
        }
        PhiRef { block: b, index, ty }
    }

    /// Adds the edge from block `from`, carrying `value`, to a phi node.
    pub fn add_incoming(&mut self, phi: PhiRef, value: Value, from: usize)
        requires
            old(self)@.has_phi(phi),
        ensures
            final(self)@ == old(self)@.add_incoming(phi, value, from),
    {
        self.blocks[phi.block].phis[phi.index].incoming.push(Incoming { value, from });
        proof {
            let o = old(self)@;
            let b = phi.block as int;
            assert(self.blocks@[b]@.phis =~= o.add_incoming(phi, value, from).blocks[b].phis);
            assert(self.blocks@[b]@.insts =~= o.blocks[b].insts);
            assert(self@.blocks =~= o.add_incoming(phi, value, from).blocks);
        }
    }

    /// The number of edges into a phi node.
    pub fn count_incoming(&self, phi: PhiRef) -> (n: usize)
        requires
            self@.has_phi(phi),
        ensures
            n == self@.phi(phi).incoming.len(),
    {
        self.blocks[phi.block].phis[phi.index].incoming.len()
    }

    /// Takes a phi node out of the code.
    pub fn erase_phi(&mut self, phi: PhiRef)
        requires
            old(self)@.has_phi(phi),
        ensures
            final(self)@ == old(self)@.erase_phi(phi),
    {
        self.blocks[phi.block].phis[phi.index].erased = true;
        proof {
            let o = old(self)@;
            let b = phi.block as int;
            assert(self.blocks@[b]@.phis =~= o.erase_phi(phi).blocks[b].phis);
            assert(self.blocks@[b]@.insts =~= o.blocks[b].insts);
            assert(self@.blocks =~= o.erase_phi(phi).blocks);
        }
    }
}

} // verus!
