//! The module aggregate, its entries, and the binary framing of a whole module.
use crate::types::{
    Code, FuncType, FunctionIndex, FunctionSpaceIndex, GlobalIndex, GlobalType, ImportIndex,
    ImportedFunctionIndex, InitExpr, InnerFunctionSpaceIndex, MemoryIndex, MemoryType, TableIndex,
    TableType, TypeIndex, ValueType,
};
use crate::ops::Op;
use crate::util::{leb_u, write_slice, write_uint8, write_varuint32, write_varusize};
use crate::{all_dumpable, dump_vec, encode_vec, Dump};
use vstd::prelude::*;
use vstd::utf8::encode_utf8;

verus! {

/// The items of an optional sequence; an absent sequence has none.
pub open spec fn opt_seq<T>(o: Option<Vec<T>>) -> Seq<T> {
    match o {
        Some(v) => v@,
        None => seq![],
    }
}

/// A name as the format writes it: its UTF-8 length, then its UTF-8 bytes.
pub open spec fn encode_name(s: Seq<char>) -> Seq<u8> {
    leb_u(encode_utf8(s).len()) + encode_utf8(s)
}

fn dump_name(s: &String, buf: &mut Vec<u8>)
    ensures
        final(buf)@ == old(buf)@ + encode_name(s@),
{
    let bytes = s.as_str().as_bytes();
    write_varusize(buf, bytes.len());
    write_slice(buf, bytes);
    assert(buf@ =~= old(buf)@ + encode_name(s@));
}

/// The magic number `\0asm` and the version 1, little-endian.
pub open spec fn header() -> Seq<u8> {
    seq![0x00u8, 0x61u8, 0x73u8, 0x6du8, 0x01u8, 0x00u8, 0x00u8, 0x00u8]
}

/// A section with id `id` holding `entries`: the id, the payload length and the payload,
/// which is the entries as a vector. A missing or empty sequence has no section.
#[verifier::opaque]
pub open spec fn section<T: Dump>(id: u8, entries: Option<Vec<T>>) -> Seq<u8> {
    let xs = opt_seq(entries);
    if xs.len() == 0 {
        seq![]
    } else {
        seq![id] + leb_u(encode_vec(xs).len()) + encode_vec(xs)
    }
}

/// The start section: its payload is the bare function-space index of the start function,
/// that is its local index moved past the `nimports` imported functions.
pub open spec fn start_section(start: Option<FunctionIndex>, nimports: nat) -> Seq<u8> {
    match start {
        Some(f) => seq![0x08u8] + leb_u(leb_u((f.0 + nimports) as nat).len()) + leb_u((f.0 + nimports) as nat),
        None => seq![],
    }
}

fn dump_section<T: Dump>(id: u8, entries: &Option<Vec<T>>, buf: &mut Vec<u8>)
    requires
        all_dumpable(opt_seq(*entries)),
    ensures
        final(buf)@ == old(buf)@ + section(id, *entries),
{
    reveal(section);
    if let Some(xs) = entries {
        if xs.len() > 0 {
            let mut payload: Vec<u8> = Vec::new();
            dump_vec(xs, &mut payload);
            assert(payload@ =~= encode_vec(xs@));
            write_uint8(buf, id);
            write_varusize(buf, payload.len());
            write_slice(buf, payload.as_slice());
            assert(buf@ =~= old(buf)@ + section(id, *entries));
            return ;
        }
    }
    assert(buf@ =~= old(buf)@ + section(id, *entries));
}

/// A module: one optional sequence per index space, plus an optional start function.
#[derive(Debug, Clone)]
pub struct Module {
    pub unknown: Option<String>,
    pub types: Option<Vec<FuncType>>,
    pub imports: Option<Vec<ImportEntry>>,
    pub functions: Option<Vec<Function>>,
    pub tables: Option<Vec<TableType>>,
    pub memories: Option<Vec<MemoryType>>,
    pub globals: Option<Vec<GlobalVariable>>,
    pub exports: Option<Vec<ExportEntry>>,
    pub start: Option<FunctionIndex>,
    pub elements: Option<Vec<ElemSegment>>,
    pub codes: Option<Vec<FunctionBody>>,
    pub data: Option<Vec<DataSegment>>,
}

/// How many of `imports` import a function.
pub open spec fn count_function_imports(imports: Seq<ImportEntry>) -> nat
    decreases imports.len(),
{
    if imports.len() == 0 {
        0
    } else {
        count_function_imports(imports.drop_last()) + if imports.last().kind is Function {
            1nat
        } else {
            0nat
        }
    }
}

/// No more imports import a function than there are imports.
pub proof fn lemma_count_function_imports_bound(imports: Seq<ImportEntry>)
    ensures
        count_function_imports(imports) <= imports.len(),
    decreases imports.len(),
{
    if imports.len() > 0 {
        lemma_count_function_imports_bound(imports.drop_last());
    }
}

/// Counts the imports that import a function.
pub fn function_import_count(imports: &Option<Vec<ImportEntry>>) -> (r: usize)
    ensures
        r == count_function_imports(opt_seq(*imports)),
{
    match imports {
        None => 0,
        Some(v) => {
            let mut count: usize = 0;
            let mut j: usize = 0;
            while j < v.len()
                invariant
                    j <= v@.len(),
                    count == count_function_imports(v@.take(j as int)),
                decreases v@.len() - j,
            {
                proof {
                    lemma_count_function_imports_bound(v@.take(j as int));
                }
                assert(v@.take(j + 1).drop_last() =~= v@.take(j as int));
                if v[j].kind.is_function() {
                    count = count + 1;
                }
                j = j + 1;
            }
            assert(v@.take(j as int) =~= v@);
            count
        },
    }
}

impl Module {
    /// The function-space reference of import `i`, if that import is a function: its
    /// position among the imported functions. Otherwise `i` is handed back.
    pub fn function_index_of(&self, i: ImportIndex) -> (r: Result<FunctionSpaceIndex, ImportIndex>)
        ensures
            ({
                let s = opt_seq(self.imports);
                if i.ord() < s.len() && s[i.ord() as int].kind is Function {
                    r == Ok::<FunctionSpaceIndex, ImportIndex>(
                        FunctionSpaceIndex(
                            InnerFunctionSpaceIndex::Import(
                                ImportedFunctionIndex(
                                    count_function_imports(s.take(i.ord() as int)) as u32,
                                ),
                            ),
                        ),
                    )
                } else {
                    r == Err::<FunctionSpaceIndex, ImportIndex>(i)
                }
            }),
    {
        match &self.imports {
            None => Err(i),
            Some(imports) => {
                let k: u32 = *i;
                if (k as usize) < imports.len() && imports[k as usize].kind.is_function() {
                    let mut count: u32 = 0;
                    let mut j: usize = 0;
                    while j < k as usize
                        invariant
                            j <= k,
                            (k as usize) < imports@.len(),
                            count == count_function_imports(imports@.take(j as int)),
                        decreases k - j,
                    {
                        proof {
                            lemma_count_function_imports_bound(imports@.take(j as int));
                        }
                        assert(imports@.take(j + 1).drop_last() =~= imports@.take(j as int));
                        if imports[j].kind.is_function() {
                            count = count + 1;
                        }
                        j = j + 1;
                    }
                    Ok(
                        FunctionSpaceIndex(
                            InnerFunctionSpaceIndex::Import(ImportedFunctionIndex(count)),
                        ),
                    )
                } else {
                    Err(i)
                }
            },
        }
    }
}

impl Module {
    /// How many imports of the module import a function.
    pub open spec fn function_imports(&self) -> nat {
        count_function_imports(opt_seq(self.imports))
    }

    /// Each present non-empty sequence as a section, in the order of the section ids 1 to 11.
    pub open spec fn sections(&self) -> Seq<u8> {
        section(0x01, self.types) + section(0x02, self.imports) + section(0x03, self.functions)
            + section(0x04, self.tables) + section(0x05, self.memories) + section(
            0x06,
            self.globals,
        ) + section(0x07, self.exports) + start_section(self.start, self.function_imports()) + section(
            0x09,
            self.elements,
        ) + section(0x0a, self.codes) + section(0x0b, self.data)
    }
}

impl Dump for Module {
    /// The header, then the sections.
    open spec fn encoding(&self) -> Seq<u8> {
        header() + self.sections()
    }

    /// Element and data segments may only target table and memory 0, every code body has
    /// been resolved, and the start function's function-space index fits in 32 bits.
    open spec fn dumpable(&self) -> bool {
        &&& all_dumpable(opt_seq(self.elements))
        &&& all_dumpable(opt_seq(self.data))
        &&& forall|i: int|
            0 <= i < opt_seq(self.codes).len() ==> (#[trigger] opt_seq(self.codes)[i]).resolved
        &&& match self.start {
            Some(f) => f.0 + self.function_imports() <= u32::MAX,
            None => true,
        }
    }

    fn dump(&self, buf: &mut Vec<u8>) -> (r: usize) {
        let start = buf.len();
        write_uint8(buf, 0x00);
        write_uint8(buf, 0x61);
        write_uint8(buf, 0x73);
        write_uint8(buf, 0x6d);
        write_uint8(buf, 0x01);
        write_uint8(buf, 0x00);
        write_uint8(buf, 0x00);
        write_uint8(buf, 0x00);
        assert(buf@ =~= old(buf)@ + header());
        let ghost mid = buf@;
        let ghost s1 = section(0x01, self.types);
        let ghost s2 = s1 + section(0x02, self.imports);
        let ghost s3 = s2 + section(0x03, self.functions);
        let ghost s4 = s3 + section(0x04, self.tables);
        let ghost s5 = s4 + section(0x05, self.memories);
        let ghost s6 = s5 + section(0x06, self.globals);
        let ghost s7 = s6 + section(0x07, self.exports);
        let ghost s8 = s7 + start_section(self.start, self.function_imports());
        let ghost s9 = s8 + section(0x09, self.elements);
        let ghost s10 = s9 + section(0x0a, self.codes);
        let ghost s11 = s10 + section(0x0b, self.data);
        dump_section(0x01, &self.types, buf);
        assert(buf@ =~= mid + s1);
        dump_section(0x02, &self.imports, buf);
        assert(buf@ =~= mid + s2);
        dump_section(0x03, &self.functions, buf);
        assert(buf@ =~= mid + s3);
        dump_section(0x04, &self.tables, buf);
        assert(buf@ =~= mid + s4);
        dump_section(0x05, &self.memories, buf);
        assert(buf@ =~= mid + s5);
        dump_section(0x06, &self.globals, buf);
        assert(buf@ =~= mid + s6);
        dump_section(0x07, &self.exports, buf);
        assert(buf@ =~= mid + s7);
        let ghost before_start = buf@;
        if let Some(f) = self.start {
            let nimports = function_import_count(&self.imports);
            let mut payload: Vec<u8> = Vec::new();
            write_varusize(&mut payload, f.0 as usize + nimports);
            assert(payload@ =~= leb_u((f.0 + self.function_imports()) as nat));
            write_uint8(buf, 0x08);
            write_varusize(buf, payload.len());
            write_slice(buf, payload.as_slice());
        }
        assert(buf@ =~= before_start + start_section(self.start, self.function_imports()));
        assert(buf@ =~= mid + s8);
        dump_section(0x09, &self.elements, buf);
        assert(buf@ =~= mid + s9);
        dump_section(0x0a, &self.codes, buf);
        assert(buf@ =~= mid + s10);
        dump_section(0x0b, &self.data, buf);
        assert(buf@ =~= mid + s11);
        assert(s11 == self.sections());
        assert(buf@ =~= old(buf)@ + self.encoding());
        buf.len() - start
    }
}

/// Every serialized module starts with the eight bytes `00 61 73 6d 01 00 00 00`.
pub proof fn lemma_module_header(m: Module)
    ensures
        m.encoding().len() >= 8,
        m.encoding().take(8) == header(),
{
    assert((header() + m.sections()).take(8) =~= header());
}

/// A sequence that is absent or empty contributes no section at all: in particular a
/// module without imports is serialized without an import section.
pub proof fn lemma_empty_section_omitted<T: Dump>(id: u8, entries: Option<Vec<T>>)
    requires
        opt_seq(entries).len() == 0,
    ensures
        section(id, entries) == Seq::<u8>::empty(),
{
    reveal(section);
}

/// A module without imports serializes to its header followed by its other sections,
/// with nothing in place of the import section.
pub proof fn lemma_no_import_section(m: Module)
    requires
        opt_seq(m.imports).len() == 0,
    ensures
        m.encoding() == header() + (section(0x01, m.types) + section(0x03, m.functions) + section(
            0x04,
            m.tables,
        ) + section(0x05, m.memories) + section(0x06, m.globals) + section(0x07, m.exports)
            + start_section(m.start, 0) + section(0x09, m.elements) + section(0x0a, m.codes)
            + section(0x0b, m.data)),
{
    lemma_empty_section_omitted(0x02, m.imports);
    assert(m.function_imports() == 0);
    assert(section(0x01, m.types) + section(0x02, m.imports) =~= section(0x01, m.types));
}

/// An import: the module and field it comes from, and what it imports.
#[derive(Debug, Clone)]
pub struct ImportEntry {
    pub module: String,
    pub field: String,
    pub kind: ImportKind,
}

#[derive(Debug, Clone)]
pub enum ImportKind {
    Function(TypeIndex),
    Table(TableType),
    Memory(MemoryType),
    Global(GlobalType),
}

impl ImportKind {
    pub fn is_function(&self) -> (r: bool)
        ensures
            r == (self is Function),
    {
        if let ImportKind::Function(_) = self {
            true
        } else {
            false
        }
    }

    pub fn is_table(&self) -> (r: bool)
        ensures
            r == (self is Table),
    {
        if let ImportKind::Table(_) = self {
            true
        } else {
            false
        }
    }

    pub fn is_memory(&self) -> (r: bool)
        ensures
            r == (self is Memory),
    {
        if let ImportKind::Memory(_) = self {
            true
        } else {
            false
        }
    }

    pub fn is_global(&self) -> (r: bool)
        ensures
            r == (self is Global),
    {
        if let ImportKind::Global(_) = self {
            true
        } else {
            false
        }
    }
}

impl Dump for ImportEntry {
    open spec fn encoding(&self) -> Seq<u8> {
        encode_name(self.module@) + encode_name(self.field@) + self.kind.encoding()
    }

    open spec fn dumpable(&self) -> bool {
        true
    }

    fn dump(&self, buf: &mut Vec<u8>) -> (r: usize) {
        let start = buf.len();
        dump_name(&self.module, buf);
        dump_name(&self.field, buf);
        self.kind.dump(buf);
        assert(buf@ =~= old(buf)@ + self.encoding());
        buf.len() - start
    }
}

impl Dump for ImportKind {
    /// The external kind byte (function 0, table 1, memory 2, global 3), then its type.
    open spec fn encoding(&self) -> Seq<u8> {
        match self {
            ImportKind::Function(t) => seq![0u8] + leb_u(t.ord() as nat),
            ImportKind::Table(t) => seq![1u8] + t.encoding(),
            ImportKind::Memory(m) => seq![2u8] + m.encoding(),
            ImportKind::Global(g) => seq![3u8] + g.encoding(),
        }
    }

    open spec fn dumpable(&self) -> bool {
        true
    }

    fn dump(&self, buf: &mut Vec<u8>) -> (r: usize) {
        let start = buf.len();
        match self {
            ImportKind::Function(t) => {
                write_uint8(buf, 0);
                write_varuint32(buf, **t);
            },
            ImportKind::Table(t) => {
                write_uint8(buf, 1);
                t.dump(buf);
            },
            ImportKind::Memory(m) => {
                write_uint8(buf, 2);
                m.dump(buf);
            },
            ImportKind::Global(g) => {
                write_uint8(buf, 3);
                g.dump(buf);
            },
        }
        assert(buf@ =~= old(buf)@ + self.encoding());
        buf.len() - start
    }
}

/// A function declaration: the index of its signature.
#[derive(Debug, Clone)]
pub struct Function(pub TypeIndex);

impl Dump for Function {
    open spec fn encoding(&self) -> Seq<u8> {
        leb_u(self.0.ord() as nat)
    }

    open spec fn dumpable(&self) -> bool {
        true
    }

    fn dump(&self, buf: &mut Vec<u8>) -> (r: usize) {
        write_varuint32(buf, *self.0)
    }
}

#[derive(Debug, Clone)]
pub struct GlobalVariable {
    pub ty: GlobalType,
    pub init: InitExpr,
}

impl Dump for GlobalVariable {
    open spec fn encoding(&self) -> Seq<u8> {
        self.ty.encoding() + self.init.encoding()
    }

    open spec fn dumpable(&self) -> bool {
        true
    }

    fn dump(&self, buf: &mut Vec<u8>) -> (r: usize) {
        let start = buf.len();
        self.ty.dump(buf);
        self.init.dump(buf);
        assert(buf@ =~= old(buf)@ + self.encoding());
        buf.len() - start
    }
}

/// An export: the name it is visible under and what it exports.
#[derive(Debug, Clone)]
pub struct ExportEntry {
    pub field: String,
    pub kind: ExportKind,
}

#[derive(Debug, Clone)]
pub enum ExportKind {
    Function(FunctionIndex),
    Table(TableIndex),
    Memory(MemoryIndex),
    Global(GlobalIndex),
}

impl Dump for ExportEntry {
    open spec fn encoding(&self) -> Seq<u8> {
        encode_name(self.field@) + self.kind.encoding()
    }

    open spec fn dumpable(&self) -> bool {
        true
    }

    fn dump(&self, buf: &mut Vec<u8>) -> (r: usize) {
        let start = buf.len();
        dump_name(&self.field, buf);
        self.kind.dump(buf);
        assert(buf@ =~= old(buf)@ + self.encoding());
        buf.len() - start
    }
}

impl Dump for ExportKind {
    /// The external kind byte (function 0, table 1, memory 2, global 3), then the index.
    open spec fn encoding(&self) -> Seq<u8> {
        match self {
            ExportKind::Function(i) => seq![0u8] + leb_u(i.ord() as nat),
            ExportKind::Table(i) => seq![1u8] + leb_u(i.ord() as nat),
            ExportKind::Memory(i) => seq![2u8] + leb_u(i.ord() as nat),
            ExportKind::Global(i) => seq![3u8] + leb_u(i.ord() as nat),
        }
    }

    open spec fn dumpable(&self) -> bool {
        true
    }

    fn dump(&self, buf: &mut Vec<u8>) -> (r: usize) {
        let start = buf.len();
        match self {
            ExportKind::Function(i) => {
                write_uint8(buf, 0);
                write_varuint32(buf, **i);
            },
            ExportKind::Table(i) => {
                write_uint8(buf, 1);
                write_varuint32(buf, **i);
            },
            ExportKind::Memory(i) => {
                write_uint8(buf, 2);
                write_varuint32(buf, **i);
            },
            ExportKind::Global(i) => {
                write_uint8(buf, 3);
                write_varuint32(buf, **i);
            },
        }
        assert(buf@ =~= old(buf)@ + self.encoding());
        buf.len() - start
    }
}

/// Function references placed into a table from a constant offset on.
#[derive(Debug, Clone)]
pub struct ElemSegment {
    pub index: TableIndex,
    pub offset: InitExpr,
    pub elems: Vec<FunctionSpaceIndex>,
}

impl Dump for ElemSegment {
    open spec fn encoding(&self) -> Seq<u8> {
        leb_u(self.index.ord() as nat) + self.offset.encoding() + encode_vec(self.elems@)
    }

    /// Only table 0 is supported.
    open spec fn dumpable(&self) -> bool {
        self.index.ord() == 0
    }

    fn dump(&self, buf: &mut Vec<u8>) -> (r: usize) {
        let start = buf.len();
        write_varuint32(buf, *self.index);
        self.offset.dump(buf);
        dump_vec(&self.elems, buf);
        assert(buf@ =~= old(buf)@ + self.encoding());
        buf.len() - start
    }
}

/// The body of a function: its extra locals, run-length encoded, and its instructions.
/// `resolved` records whether the call targets were already moved into the function space.
#[derive(Debug, Clone)]
pub struct FunctionBody {
    pub locals: Vec<LocalEntry>,
    pub code: Code,
    pub resolved: bool,
}

/// Whether resolution past `nimports` imported functions keeps every call target of `b`
/// within 32 bits.
pub open spec fn body_resolvable(b: FunctionBody, nimports: u32) -> bool {
    forall|i: int| 0 <= i < b.code.0@.len() ==> (#[trigger] b.code.0@[i]).resolvable(nimports)
}

/// `r` is `b` after resolution past `nimports` imported functions: marked resolved, same
/// locals, and each instruction resolved in place.
pub open spec fn resolves_to(b: FunctionBody, nimports: u32, r: FunctionBody) -> bool {
    &&& r.resolved
    &&& r.locals == b.locals
    &&& r.code.0@.len() == b.code.0@.len()
    &&& forall|i: int|
        0 <= i < b.code.0@.len() ==> #[trigger] r.code.0@[i] == b.code.0@[i].resolved(nimports)
}

impl FunctionBody {
    /// Moves every call of a locally defined function past the `nimports` imported
    /// functions. It runs once per body, once all imports are declared.
    pub fn resolve_functions(&mut self, nimports: u32)
        requires
            !old(self).resolved,
            body_resolvable(*old(self), nimports),
        ensures
            resolves_to(*old(self), nimports, *final(self)),
    {
        let mut i: usize = 0;
        while i < self.code.0.len()
            invariant
                i <= self.code.0@.len(),
                self.code.0@.len() == old(self).code.0@.len(),
                self.locals == old(self).locals,
                body_resolvable(*old(self), nimports),
                forall|j: int| 0 <= j < i ==> #[trigger] self.code.0@[j] == old(self).code.0@[j].resolved(
                    nimports),
                forall|j: int| i <= j < self.code.0@.len() ==> #[trigger] self.code.0@[j] == old(self).code.0@[j],
            decreases old(self).code.0@.len() - i,
        {
            assert(old(self).code.0@[i as int].resolvable(nimports));
            self.code.0[i].resolve_functions(nimports);
            i = i + 1;
        }
        self.resolved = true;
    }
}

impl Dump for FunctionBody {
    /// The body size, then the local declarations as a vector, the instructions and `end`.
    open spec fn encoding(&self) -> Seq<u8> {
        let body = encode_vec(self.locals@) + self.code.encoding() + seq![0x0bu8];
        leb_u(body.len()) + body
    }

    open spec fn dumpable(&self) -> bool {
        true
    }

    fn dump(&self, buf: &mut Vec<u8>) -> (r: usize) {
        let start = buf.len();
        let mut body: Vec<u8> = Vec::new();
        dump_vec(&self.locals, &mut body);
        self.code.dump(&mut body);
        write_uint8(&mut body, 0x0b);
        write_varusize(buf, body.len());
        write_slice(buf, body.as_slice());
        assert(buf@ =~= old(buf)@ + self.encoding());
        buf.len() - start
    }
}

/// `count` locals of type `ty`.
#[derive(Debug, Clone)]
pub struct LocalEntry {
    pub count: u32,
    pub ty: ValueType,
}

impl Dump for LocalEntry {
    open spec fn encoding(&self) -> Seq<u8> {
        leb_u(self.count as nat) + self.ty.encoding()
    }

    open spec fn dumpable(&self) -> bool {
        true
    }

    fn dump(&self, buf: &mut Vec<u8>) -> (r: usize) {
        let start = buf.len();
        write_varuint32(buf, self.count);
        self.ty.dump(buf);
        assert(buf@ =~= old(buf)@ + self.encoding());
        buf.len() - start
    }
}

/// Bytes placed into a memory from a constant offset on.
#[derive(Debug, Clone)]
pub struct DataSegment {
    pub index: MemoryIndex,
    pub offset: InitExpr,
    pub data: Vec<u8>,
}

impl Dump for DataSegment {
    open spec fn encoding(&self) -> Seq<u8> {
        leb_u(self.index.ord() as nat) + self.offset.encoding() + leb_u(self.data@.len())
            + self.data@
    }

    /// Only memory 0 is supported.
    open spec fn dumpable(&self) -> bool {
        self.index.ord() == 0
    }

    fn dump(&self, buf: &mut Vec<u8>) -> (r: usize) {
        let start = buf.len();
        write_varuint32(buf, *self.index);
        self.offset.dump(buf);
        write_varusize(buf, self.data.len());
        write_slice(buf, self.data.as_slice());
        assert(buf@ =~= old(buf)@ + self.encoding());
        buf.len() - start
    }
}

} // verus!
