//! Value types, descriptors and the index types of each numbering space.
use crate::ops::Op;
use crate::util::{leb_u, write_varint7, write_varuint1, write_varuint32, write_varusize};
use crate::{dump_all, encode_all, all_dumpable, Dump};
use vstd::prelude::*;

verus! {

#[derive(Debug, Clone, Copy, PartialEq, Eq, Hash)]
pub enum ValueType {
    I32,
    I64,
    F32,
    F64,
}

/// The result type of a block; `None` for a block without a result.
#[derive(Debug, Clone, PartialEq, Eq, Hash)]
pub struct BlockType(pub Option<ValueType>);

#[derive(Debug, Clone, PartialEq, Eq, Hash)]
pub enum ElemType {
    AnyFunc,
}

/// A function signature: parameter types and at most one result type.
#[derive(Debug, Clone, PartialEq, Eq, Hash)]
pub struct FuncType {
    pub params: Vec<ValueType>,
    pub ret: Option<ValueType>,
}

#[derive(Debug, Clone, PartialEq, Eq, Hash)]
pub struct GlobalType {
    pub content: ValueType,
    pub mutable: bool,
}

#[derive(Debug, Clone, PartialEq, Eq, Hash)]
pub struct TableType {
    pub element: ElemType,
    pub limits: ResizableLimits,
}

#[derive(Debug, Clone, PartialEq, Eq, Hash)]
pub struct MemoryType {
    pub limits: ResizableLimits,
}

/// Initial and optional maximum size of a table or memory. The low bit of the
/// encoded flags is derived from whether `maximum` is present.
#[derive(Debug, Clone, PartialEq, Eq, Hash)]
pub struct ResizableLimits {
    pub flags: u32,
    pub initial: u32,
    pub maximum: Option<u32>,
}

/// A sequence of instructions.
#[derive(Debug, Clone)]
pub struct Code(pub Vec<Op>);

/// A constant expression, such as the offset of a segment or the value of a global.
#[derive(Debug, Clone)]
pub struct InitExpr(pub Code);

impl Dump for ValueType {
    open spec fn encoding(&self) -> Seq<u8> {
        match self {
            ValueType::I32 => seq![0x7fu8],
            ValueType::I64 => seq![0x7eu8],
            ValueType::F32 => seq![0x7du8],
            ValueType::F64 => seq![0x7cu8],
        }
    }

    open spec fn dumpable(&self) -> bool {
        true
    }

    fn dump(&self, buf: &mut Vec<u8>) -> (r: usize) {
        match self {
            ValueType::I32 => write_varint7(buf, -0x01),
            ValueType::I64 => write_varint7(buf, -0x02),
            ValueType::F32 => write_varint7(buf, -0x03),
            ValueType::F64 => write_varint7(buf, -0x04),
        }
    }
}

impl Dump for BlockType {
    open spec fn encoding(&self) -> Seq<u8> {
        match self.0 {
            Some(v) => v.encoding(),
            None => seq![0x40u8],
        }
    }

    open spec fn dumpable(&self) -> bool {
        true
    }

    fn dump(&self, buf: &mut Vec<u8>) -> (r: usize) {
        match &self.0 {
            Some(v) => v.dump(buf),
            None => write_varint7(buf, -0x40),
        }
    }
}

impl Dump for ElemType {
    open spec fn encoding(&self) -> Seq<u8> {
        seq![0x70u8]
    }

    open spec fn dumpable(&self) -> bool {
        true
    }

    fn dump(&self, buf: &mut Vec<u8>) -> (r: usize) {
        match self {
            ElemType::AnyFunc => write_varint7(buf, -0x10),
        }
    }
}

/// The encoding of an optional value: its encoding if present, nothing otherwise.
pub open spec fn encode_opt<T: Dump>(o: Option<T>) -> Seq<u8> {
    match o {
        Some(v) => v.encoding(),
        None => seq![],
    }
}

impl Dump for FuncType {
    /// The `func` constructor, the parameter types as a vector, then the number of
    /// results (0 or 1) and the result type.
    open spec fn encoding(&self) -> Seq<u8> {
        seq![0x60u8] + leb_u(self.params@.len()) + encode_all(self.params@) + seq![
            if self.ret.is_some() { 1u8 } else { 0u8 }] + encode_opt(self.ret)
    }

    open spec fn dumpable(&self) -> bool {
        true
    }

    fn dump(&self, buf: &mut Vec<u8>) -> (r: usize) {
        let start = buf.len();
        write_varint7(buf, -0x20);
        write_varusize(buf, self.params.len());
        dump_all(&self.params, buf);
        write_varuint1(buf, if self.ret.is_some() { 1 } else { 0 });
        if let Some(ret) = &self.ret {
            ret.dump(buf);
        }
        assert(buf@ =~= old(buf)@ + self.encoding());
        buf.len() - start
    }
}

impl Dump for GlobalType {
    open spec fn encoding(&self) -> Seq<u8> {
        self.content.encoding() + seq![if self.mutable { 1u8 } else { 0u8 }]
    }

    open spec fn dumpable(&self) -> bool {
        true
    }

    fn dump(&self, buf: &mut Vec<u8>) -> (r: usize) {
        let start = buf.len();
        self.content.dump(buf);
        write_varuint1(buf, if self.mutable { 1 } else { 0 });
        assert(buf@ =~= old(buf)@ + self.encoding());
        buf.len() - start
    }
}

impl Dump for TableType {
    open spec fn encoding(&self) -> Seq<u8> {
        self.element.encoding() + self.limits.encoding()
    }

    open spec fn dumpable(&self) -> bool {
        true
    }

    fn dump(&self, buf: &mut Vec<u8>) -> (r: usize) {
        let start = buf.len();
        self.element.dump(buf);
        self.limits.dump(buf);
        assert(buf@ =~= old(buf)@ + self.encoding());
        buf.len() - start
    }
}

impl Dump for MemoryType {
    open spec fn encoding(&self) -> Seq<u8> {
        self.limits.encoding()
    }

    open spec fn dumpable(&self) -> bool {
        true
    }

    fn dump(&self, buf: &mut Vec<u8>) -> (r: usize) {
        self.limits.dump(buf)
    }
}

impl ResizableLimits {
    /// The flags as written: bit 0 says whether a maximum follows, the other bits are kept.
    pub open spec fn encoded_flags(&self) -> u32 {
        (self.flags & 0xffff_fffeu32) | (if self.maximum.is_some() { 1u32 } else { 0u32 })
    }

    /// Limits with the given initial size and no maximum.
    pub fn new(limit: u32) -> (r: Self)
        ensures
            r == (ResizableLimits { flags: 0, initial: limit, maximum: None }),
    {
        ResizableLimits { flags: 0, initial: limit, maximum: None }
    }

    /// The same limits with the given maximum.
    pub fn max(self, maximum: u32) -> (r: Self)
        ensures
            r == (ResizableLimits { maximum: Some(maximum), ..self }),
    {
        ResizableLimits { maximum: Some(maximum), ..self }
    }

    /// The same limits with the given flags; bit 0 is still taken from the maximum.
    pub fn flags(self, flags: u32) -> (r: Self)
        ensures
            r == (ResizableLimits { flags: flags, ..self }),
    {
        ResizableLimits { flags: flags, ..self }
    }
}

impl Dump for ResizableLimits {
    open spec fn encoding(&self) -> Seq<u8> {
        leb_u(self.encoded_flags() as nat) + leb_u(self.initial as nat) + match self.maximum {
            Some(m) => leb_u(m as nat),
            None => seq![],
        }
    }

    open spec fn dumpable(&self) -> bool {
        true
    }

    fn dump(&self, buf: &mut Vec<u8>) -> (r: usize) {
        let start = buf.len();
        let present: u32 = if self.maximum.is_some() { 1 } else { 0 };
        write_varuint32(buf, (self.flags & 0xffff_fffe) | present);
        write_varuint32(buf, self.initial);
        if let Some(m) = self.maximum {
            write_varuint32(buf, m);
        }
        assert(buf@ =~= old(buf)@ + self.encoding());
        buf.len() - start
    }
}

impl Dump for Code {
    open spec fn encoding(&self) -> Seq<u8> {
        encode_all(self.0@)
    }

    open spec fn dumpable(&self) -> bool {
        all_dumpable(self.0@)
    }

    fn dump(&self, buf: &mut Vec<u8>) -> (r: usize) {
        dump_all(&self.0, buf)
    }
}

impl Dump for InitExpr {
    open spec fn encoding(&self) -> Seq<u8> {
        self.0.encoding()
    }

    open spec fn dumpable(&self) -> bool {
        self.0.dumpable()
    }

    fn dump(&self, buf: &mut Vec<u8>) -> (r: usize) {
        self.0.dump(buf)
    }
}

/// The position of a function signature in the type space.
#[derive(Debug, Clone, Copy, PartialEq, Eq, PartialOrd, Ord, Hash)]
pub struct TypeIndex(u32);

impl TypeIndex {
    /// The ordinal this index stands for.
    pub closed spec fn ord(self) -> u32 {
        self.0
    }

    /// The index with ordinal `u`.
    pub closed spec fn new_spec(u: u32) -> Self {
        Self(u)
    }

    pub fn new(u: u32) -> (r: Self)
        ensures
            r.ord() == u,
            r == Self::new_spec(u),
    {
        TypeIndex(u)
    }
}

impl std::ops::Deref for TypeIndex {
    type Target = u32;

    fn deref(&self) -> (r: &u32)
        ensures
            *r == self.ord(),
    {
        &self.0
    }
}

/// The position of an entry of the import space.
#[derive(Debug, Clone, Copy, PartialEq, Eq, PartialOrd, Ord, Hash)]
pub struct ImportIndex(u32);

impl ImportIndex {
    /// The ordinal this index stands for.
    pub closed spec fn ord(self) -> u32 {
        self.0
    }

    /// The index with ordinal `u`.
    pub closed spec fn new_spec(u: u32) -> Self {
        Self(u)
    }

    pub fn new(u: u32) -> (r: Self)
        ensures
            r.ord() == u,
            r == Self::new_spec(u),
    {
        ImportIndex(u)
    }
}

impl std::ops::Deref for ImportIndex {
    type Target = u32;

    fn deref(&self) -> (r: &u32)
        ensures
            *r == self.ord(),
    {
        &self.0
    }
}

/// The position of a locally defined function, counted among local functions only.
#[derive(Debug, Clone, Copy, PartialEq, Eq, PartialOrd, Ord, Hash)]
pub struct FunctionIndex(pub u32);

impl FunctionIndex {
    /// The ordinal this index stands for.
    pub open spec fn ord(self) -> u32 {
        self.0
    }

    /// The index with ordinal `u`.
    pub open spec fn new_spec(u: u32) -> Self {
        Self(u)
    }

    pub fn new(u: u32) -> (r: Self)
        ensures
            r.ord() == u,
            r == Self::new_spec(u),
    {
        FunctionIndex(u)
    }
}

impl std::ops::Deref for FunctionIndex {
    type Target = u32;

    fn deref(&self) -> (r: &u32)
        ensures
            *r == self.ord(),
    {
        &self.0
    }
}

/// The position of a table.
#[derive(Debug, Clone, Copy, PartialEq, Eq, PartialOrd, Ord, Hash)]
pub struct TableIndex(u32);

impl TableIndex {
    /// The ordinal this index stands for.
    pub closed spec fn ord(self) -> u32 {
        self.0
    }

    /// The index with ordinal `u`.
    pub closed spec fn new_spec(u: u32) -> Self {
        Self(u)
    }

    pub fn new(u: u32) -> (r: Self)
        ensures
            r.ord() == u,
            r == Self::new_spec(u),
    {
        TableIndex(u)
    }
}

impl std::ops::Deref for TableIndex {
    type Target = u32;

    fn deref(&self) -> (r: &u32)
        ensures
            *r == self.ord(),
    {
        &self.0
    }
}

/// The position of a linear memory.
#[derive(Debug, Clone, Copy, PartialEq, Eq, PartialOrd, Ord, Hash)]
pub struct MemoryIndex(u32);

impl MemoryIndex {
    /// The ordinal this index stands for.
    pub closed spec fn ord(self) -> u32 {
        self.0
    }

    /// The index with ordinal `u`.
    pub closed spec fn new_spec(u: u32) -> Self {
        Self(u)
    }

    pub fn new(u: u32) -> (r: Self)
        ensures
            r.ord() == u,
            r == Self::new_spec(u),
    {
        MemoryIndex(u)
    }
}

impl std::ops::Deref for MemoryIndex {
    type Target = u32;

    fn deref(&self) -> (r: &u32)
        ensures
            *r == self.ord(),
    {
        &self.0
    }
}

/// The position of a global variable.
#[derive(Debug, Clone, Copy, PartialEq, Eq, PartialOrd, Ord, Hash)]
pub struct GlobalIndex(u32);

impl GlobalIndex {
    /// The ordinal this index stands for.
    pub closed spec fn ord(self) -> u32 {
        self.0
    }

    /// The index with ordinal `u`.
    pub closed spec fn new_spec(u: u32) -> Self {
        Self(u)
    }

    pub fn new(u: u32) -> (r: Self)
        ensures
            r.ord() == u,
            r == Self::new_spec(u),
    {
        GlobalIndex(u)
    }
}

impl std::ops::Deref for GlobalIndex {
    type Target = u32;

    fn deref(&self) -> (r: &u32)
        ensures
            *r == self.ord(),
    {
        &self.0
    }
}

/// The position of an export entry.
#[derive(Debug, Clone, Copy, PartialEq, Eq, PartialOrd, Ord, Hash)]
pub struct ExportIndex(u32);

impl ExportIndex {
    /// The ordinal this index stands for.
    pub closed spec fn ord(self) -> u32 {
        self.0
    }

    /// The index with ordinal `u`.
    pub closed spec fn new_spec(u: u32) -> Self {
        Self(u)
    }

    pub fn new(u: u32) -> (r: Self)
        ensures
            r.ord() == u,
            r == Self::new_spec(u),
    {
        ExportIndex(u)
    }
}

impl std::ops::Deref for ExportIndex {
    type Target = u32;

    fn deref(&self) -> (r: &u32)
        ensures
            *r == self.ord(),
    {
        &self.0
    }
}

/// The position of an element segment.
#[derive(Debug, Clone, Copy, PartialEq, Eq, PartialOrd, Ord, Hash)]
pub struct ElementIndex(u32);

impl ElementIndex {
    /// The ordinal this index stands for.
    pub closed spec fn ord(self) -> u32 {
        self.0
    }

    /// The index with ordinal `u`.
    pub closed spec fn new_spec(u: u32) -> Self {
        Self(u)
    }

    pub fn new(u: u32) -> (r: Self)
        ensures
            r.ord() == u,
            r == Self::new_spec(u),
    {
        ElementIndex(u)
    }
}

impl std::ops::Deref for ElementIndex {
    type Target = u32;

    fn deref(&self) -> (r: &u32)
        ensures
            *r == self.ord(),
    {
        &self.0
    }
}

/// The position of a function body.
#[derive(Debug, Clone, Copy, PartialEq, Eq, PartialOrd, Ord, Hash)]
pub struct CodeIndex(u32);

impl CodeIndex {
    /// The ordinal this index stands for.
    pub closed spec fn ord(self) -> u32 {
        self.0
    }

    /// The index with ordinal `u`.
    pub closed spec fn new_spec(u: u32) -> Self {
        Self(u)
    }

    pub fn new(u: u32) -> (r: Self)
        ensures
            r.ord() == u,
            r == Self::new_spec(u),
    {
        CodeIndex(u)
    }
}

impl std::ops::Deref for CodeIndex {
    type Target = u32;

    fn deref(&self) -> (r: &u32)
        ensures
            *r == self.ord(),
    {
        &self.0
    }
}

/// The position of a data segment.
#[derive(Debug, Clone, Copy, PartialEq, Eq, PartialOrd, Ord, Hash)]
pub struct DataIndex(u32);

impl DataIndex {
    /// The ordinal this index stands for.
    pub closed spec fn ord(self) -> u32 {
        self.0
    }

    /// The index with ordinal `u`.
    pub closed spec fn new_spec(u: u32) -> Self {
        Self(u)
    }

    pub fn new(u: u32) -> (r: Self)
        ensures
            r.ord() == u,
            r == Self::new_spec(u),
    {
        DataIndex(u)
    }
}

impl std::ops::Deref for DataIndex {
    type Target = u32;

    fn deref(&self) -> (r: &u32)
        ensures
            *r == self.ord(),
    {
        &self.0
    }
}

/// The position of a local variable of a function, parameters first.
#[derive(Debug, Clone, Copy, PartialEq, Eq, PartialOrd, Ord, Hash)]
pub struct LocalIndex(u32);

impl LocalIndex {
    /// The ordinal this index stands for.
    pub closed spec fn ord(self) -> u32 {
        self.0
    }

    /// The index with ordinal `u`.
    pub closed spec fn new_spec(u: u32) -> Self {
        Self(u)
    }

    pub fn new(u: u32) -> (r: Self)
        ensures
            r.ord() == u,
            r == Self::new_spec(u),
    {
        LocalIndex(u)
    }
}

impl std::ops::Deref for LocalIndex {
    type Target = u32;

    fn deref(&self) -> (r: &u32)
        ensures
            *r == self.ord(),
    {
        &self.0
    }
}

/// The position of a function among the imported functions only.
#[derive(Debug, Clone, Copy, PartialEq, Eq, PartialOrd, Ord, Hash)]
pub struct ImportedFunctionIndex(pub u32);

#[derive(Debug, Clone, Copy, PartialEq, Eq, PartialOrd, Ord, Hash)]
pub enum InnerFunctionSpaceIndex {
    Import(ImportedFunctionIndex),
    Function(FunctionIndex),
}

/// A reference into the function space, where imported functions come before
/// locally defined ones.
#[derive(Debug, Clone, Copy, PartialEq, Eq, PartialOrd, Ord, Hash)]
pub struct FunctionSpaceIndex(pub InnerFunctionSpaceIndex);

impl FunctionSpaceIndex {
    /// The ordinal written for this reference.
    pub open spec fn ord(self) -> u32 {
        match self.0 {
            InnerFunctionSpaceIndex::Import(i) => i.0,
            InnerFunctionSpaceIndex::Function(f) => f.0,
        }
    }
}

impl std::ops::Deref for FunctionSpaceIndex {
    type Target = u32;

    fn deref(&self) -> (r: &u32)
        ensures
            *r == self.ord(),
    {
        match &self.0 {
            InnerFunctionSpaceIndex::Import(i) => &i.0,
            InnerFunctionSpaceIndex::Function(f) => &f.0,
        }
    }
}

impl Dump for FunctionSpaceIndex {
    open spec fn encoding(&self) -> Seq<u8> {
        leb_u(self.ord() as nat)
    }

    open spec fn dumpable(&self) -> bool {
        true
    }

    fn dump(&self, buf: &mut Vec<u8>) -> (r: usize) {
        write_varuint32(buf, **self)
    }
}

impl From<FunctionIndex> for FunctionSpaceIndex {
    fn from(f: FunctionIndex) -> (r: FunctionSpaceIndex) {
        FunctionSpaceIndex(InnerFunctionSpaceIndex::Function(f))
    }
}

impl vstd::std_specs::convert::FromSpecImpl<FunctionIndex> for FunctionSpaceIndex {
    open spec fn obeys_from_spec() -> bool {
        true
    }

    open spec fn from_spec(f: FunctionIndex) -> FunctionSpaceIndex {
        FunctionSpaceIndex(InnerFunctionSpaceIndex::Function(f))
    }
}

} // verus!
