//! Builds WebAssembly binary modules and serializes them byte for byte.

use vstd::prelude::*;

pub mod builder;
pub mod module;
pub mod ops;
pub mod types;
pub mod util;

pub use module::{
    DataSegment, ElemSegment, ExportEntry, ExportKind, Function, FunctionBody, GlobalVariable,
    ImportEntry, ImportKind, LocalEntry, Module,
};
pub use ops::{BrTarget, MemoryImmediate, Op};
pub use types::{
    BlockType, Code, CodeIndex, DataIndex, ElemType, ElementIndex, ExportIndex, FuncType,
    FunctionIndex, FunctionSpaceIndex, GlobalIndex, GlobalType, ImportIndex, ImportedFunctionIndex,
    InitExpr, InnerFunctionSpaceIndex, LocalIndex, MemoryIndex, MemoryType, ResizableLimits,
    TableIndex, TableType, TypeIndex, ValueType,
};

verus! {

/// A value with a binary encoding: `dump` appends exactly `encoding()` to a buffer.
pub trait Dump {
    /// The bytes this value serializes to.
    spec fn encoding(&self) -> Seq<u8>;

    /// Whether this value can be serialized (some entries only support index 0).
    spec fn dumpable(&self) -> bool;

    /// Appends the encoding of `self` to `buf` and returns how many bytes were written.
    fn dump(&self, buf: &mut Vec<u8>) -> (r: usize)
        requires
            self.dumpable(),
        ensures
            final(buf)@ == old(buf)@ + self.encoding(),
            r == self.encoding().len(),
    ;
}

/// The encodings of `xs`, one after another.
pub open spec fn encode_all<T: Dump>(xs: Seq<T>) -> Seq<u8>
    decreases xs.len(),
{
    if xs.len() == 0 {
        seq![]
    } else {
        encode_all(xs.drop_last()) + xs.last().encoding()
    }
}

/// A vector as the format writes it: its length as unsigned LEB128, then its items.
pub open spec fn encode_vec<T: Dump>(xs: Seq<T>) -> Seq<u8> {
    util::leb_u(xs.len()) + encode_all(xs)
}

pub open spec fn all_dumpable<T: Dump>(xs: Seq<T>) -> bool {
    forall|i: int| 0 <= i < xs.len() ==> #[trigger] xs[i].dumpable()
}

/// Appends the encodings of the items of `xs`, in order.
pub fn dump_all<T: Dump>(xs: &Vec<T>, buf: &mut Vec<u8>) -> (r: usize)
    requires
        all_dumpable(xs@),
    ensures
        final(buf)@ == old(buf)@ + encode_all(xs@),
        r == encode_all(xs@).len(),
{
    let start = buf.len();
    let mut i: usize = 0;
    while i < xs.len()
        invariant
            i <= xs@.len(),
            all_dumpable(xs@),
            start == old(buf)@.len(),
            buf@ == old(buf)@ + encode_all(xs@.take(i as int)),
        decreases xs@.len() - i,
    {
        xs[i].dump(buf);
        assert(xs@.take(i + 1).drop_last() =~= xs@.take(i as int));
        assert(buf@ =~= old(buf)@ + encode_all(xs@.take(i + 1)));
        i = i + 1;
    }
    assert(xs@.take(i as int) =~= xs@);
    buf.len() - start
}

/// Appends `xs` as a vector: its length, then its items.
pub fn dump_vec<T: Dump>(xs: &Vec<T>, buf: &mut Vec<u8>) -> (r: usize)
    requires
        all_dumpable(xs@),
    ensures
        final(buf)@ == old(buf)@ + encode_vec(xs@),
        r == encode_vec(xs@).len(),
{
    let start = buf.len();
    util::write_varusize(buf, xs.len());
    dump_all(xs, buf);
    assert(buf@ =~= old(buf)@ + encode_vec(xs@));
    buf.len() - start
}

} // verus!
