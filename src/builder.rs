//! Construction of modules: every insertion hands back the index the entity now has.
use crate::module::{
    body_resolvable, function_import_count, lemma_count_function_imports_bound, opt_seq,
    resolves_to, DataSegment, ElemSegment, ExportEntry, ExportKind, Function, FunctionBody,
    GlobalVariable, ImportEntry, ImportKind, LocalEntry, Module,
};
use crate::ops::{BrTarget, MemoryImmediate, Op};
use crate::types::{
    BlockType, Code, CodeIndex, DataIndex, ElemType, ElementIndex, ExportIndex, FuncType,
    FunctionIndex, FunctionSpaceIndex, GlobalIndex, GlobalType, ImportIndex, InitExpr, LocalIndex,
    MemoryIndex, MemoryType, ResizableLimits, TableIndex, TableType, TypeIndex, ValueType,
};
use crate::{all_dumpable, Dump};
use std::ops::{Range, RangeFrom};
use vstd::prelude::*;
use vstd::std_specs::convert::FromSpec;

verus! {

/// Declares std's `RangeFrom` with its one public field, `start`, so that `start..` can
/// size a table or memory; vstd declares `Range` the same way.
#[verifier::external_type_specification]
#[verifier::reject_recursive_types(Idx)]
pub struct ExRangeFrom<Idx>(RangeFrom<Idx>);

/// Appends `x` to the sequence in `slot`, creating it if absent, and returns its position.
fn push_entry<T>(slot: &mut Option<Vec<T>>, x: T) -> (r: u32)
    requires
        opt_seq(*old(slot)).len() < u32::MAX,
    ensures
        opt_seq(*final(slot)) == opt_seq(*old(slot)).push(x),
        r == opt_seq(*old(slot)).len(),
{
    match slot {
        Some(v) => {
            v.push(x);
            (v.len() - 1) as u32
        },
        None => {
            *slot = Some(vec![x]);
            assert(opt_seq(*slot) =~= seq![x]);
            0
        },
    }
}

/// What a builder keeps true of its module: each declared function has its body at the
/// same position, segments only target table and memory 0, and the import indices fit in
/// 32 bits.
pub open spec fn builder_wf(m: Module) -> bool {
    &&& opt_seq(m.functions).len() == opt_seq(m.codes).len()
    &&& opt_seq(m.imports).len() <= u32::MAX
    &&& all_dumpable(opt_seq(m.elements))
    &&& all_dumpable(opt_seq(m.data))
}

/// Builds a module; each insertion returns the index of the new entity in its space.
pub struct ModuleBuilder(Module);

impl View for ModuleBuilder {
    type V = Module;

    closed spec fn view(&self) -> Module {
        self.0
    }
}

impl ModuleBuilder {
    /// A builder for a module with no entries.
    pub fn new() -> (r: Self)
        ensures
            r@ == (Module {
                unknown: None,
                types: None,
                imports: None,
                functions: None,
                tables: None,
                memories: None,
                globals: None,
                exports: None,
                start: None,
                elements: None,
                codes: None,
                data: None,
            }),
            builder_wf(r@),
    {
        ModuleBuilder(
            Module {
                unknown: None,
                types: None,
                imports: None,
                functions: None,
                tables: None,
                memories: None,
                globals: None,
                exports: None,
                start: None,
                elements: None,
                codes: None,
                data: None,
            },
        )
    }

    /// The module built so far, with every body not yet resolved now resolved past the
    /// imported functions, so that its calls address the function space.
    pub fn build(self) -> (r: Module)
        requires
            builder_wf(self@),
            forall|i: int|
                0 <= i < opt_seq(self@.codes).len() && !(#[trigger] opt_seq(self@.codes)[i]).resolved
                    ==> body_resolvable(opt_seq(self@.codes)[i], self@.function_imports() as u32),
            match self@.start {
                Some(f) => f.0 + self@.function_imports() <= u32::MAX,
                None => true,
            },
        ensures
            r == (Module { codes: r.codes, ..self@ }),
            opt_seq(r.codes).len() == opt_seq(self@.codes).len(),
            forall|i: int|
                0 <= i < opt_seq(self@.codes).len() ==> if (#[trigger] opt_seq(self@.codes)[i]).resolved {
                    opt_seq(r.codes)[i] == opt_seq(self@.codes)[i]
                } else {
                    resolves_to(
                        opt_seq(self@.codes)[i],
                        self@.function_imports() as u32,
                        opt_seq(r.codes)[i],
                    )
                },
            r.dumpable(),
            opt_seq(r.functions).len() == opt_seq(r.codes).len(),
    {
        let ghost before = self@;
        let Module {
            unknown,
            types,
            imports,
            functions,
            tables,
            memories,
            globals,
            exports,
            start,
            elements,
            codes,
            data,
        } = self.0;
        let nimports = function_import_count(&imports);
        proof {
            lemma_count_function_imports_bound(opt_seq(imports));
        }
        let n = nimports as u32;
        let codes = match codes {
            None => None,
            Some(mut v) => {
                let ghost v0 = v@;
                let mut i: usize = 0;
                while i < v.len()
                    invariant
                        i <= v@.len(),
                        v@.len() == v0.len(),
                        forall|j: int|
                            0 <= j < v0.len() && !(#[trigger] v0[j]).resolved ==> body_resolvable(
                                v0[j],
                                n,
                            ),
                        forall|j: int|
                            0 <= j < i ==> if (#[trigger] v0[j]).resolved {
                                v@[j] == v0[j]
                            } else {
                                resolves_to(v0[j], n, v@[j])
                            },
                        forall|j: int| i <= j < v@.len() ==> #[trigger] v@[j] == v0[j],
                    decreases v0.len() - i,
                {
                    if !v[i].resolved {
                        v[i].resolve_functions(n);
                    }
                    i = i + 1;
                }
                Some(v)
            },
        };
        let r = Module {
            unknown,
            types,
            imports,
            functions,
            tables,
            memories,
            globals,
            exports,
            start,
            elements,
            codes,
            data,
        };
        assert forall|i: int| 0 <= i < opt_seq(r.codes).len() implies (#[trigger] opt_seq(
            r.codes,
        )[i]).resolved by {
            assert(opt_seq(before.codes)[i].resolved ==> opt_seq(r.codes)[i] == opt_seq(
                before.codes,
            )[i]);
        }
        r
    }

    /// Adds a function signature to the type space.
    pub fn add_type(&mut self, ty: FuncType) -> (r: TypeIndex)
        requires
            builder_wf(old(self)@),
            opt_seq(old(self)@.types).len() < u32::MAX,
        ensures
            builder_wf(final(self)@),
            r.ord() == opt_seq(old(self)@.types).len(),
            r == TypeIndex::new_spec(opt_seq(old(self)@.types).len() as u32),
            opt_seq(final(self)@.types) == opt_seq(old(self)@.types).push(ty),
            final(self)@ == (Module { types: final(self)@.types, ..old(self)@ }),
    {
        TypeIndex::new(push_entry(&mut self.0.types, ty))
    }

    /// Adds an import entry to the import space.
    pub fn add_import(&mut self, import: ImportEntry) -> (r: ImportIndex)
        requires
            builder_wf(old(self)@),
            opt_seq(old(self)@.imports).len() < u32::MAX,
        ensures
            builder_wf(final(self)@),
            r.ord() == opt_seq(old(self)@.imports).len(),
            opt_seq(final(self)@.imports) == opt_seq(old(self)@.imports).push(import),
            final(self)@ == (Module { imports: final(self)@.imports, ..old(self)@ }),
    {
        ImportIndex::new(push_entry(&mut self.0.imports, import))
    }

    /// Adds a function declaration; only `new_function` pairs it with its body.
    fn add_function(&mut self, func: Function) -> (r: FunctionIndex)
        requires
            opt_seq(old(self)@.functions).len() < u32::MAX,
        ensures
            r.ord() == opt_seq(old(self)@.functions).len(),
            opt_seq(final(self)@.functions) == opt_seq(old(self)@.functions).push(func),
            final(self)@ == (Module { functions: final(self)@.functions, ..old(self)@ }),
    {
        FunctionIndex::new(push_entry(&mut self.0.functions, func))
    }

    /// Adds a table.
    pub fn add_table(&mut self, table: TableType) -> (r: TableIndex)
        requires
            builder_wf(old(self)@),
            opt_seq(old(self)@.tables).len() < u32::MAX,
        ensures
            builder_wf(final(self)@),
            r.ord() == opt_seq(old(self)@.tables).len(),
            opt_seq(final(self)@.tables) == opt_seq(old(self)@.tables).push(table),
            final(self)@ == (Module { tables: final(self)@.tables, ..old(self)@ }),
    {
        TableIndex::new(push_entry(&mut self.0.tables, table))
    }

    /// Adds a linear memory.
    pub fn add_memory(&mut self, memory: MemoryType) -> (r: MemoryIndex)
        requires
            builder_wf(old(self)@),
            opt_seq(old(self)@.memories).len() < u32::MAX,
        ensures
            builder_wf(final(self)@),
            r.ord() == opt_seq(old(self)@.memories).len(),
            opt_seq(final(self)@.memories) == opt_seq(old(self)@.memories).push(memory),
            final(self)@ == (Module { memories: final(self)@.memories, ..old(self)@ }),
    {
        MemoryIndex::new(push_entry(&mut self.0.memories, memory))
    }

    /// Adds a global variable.
    pub fn add_global(&mut self, global: GlobalVariable) -> (r: GlobalIndex)
        requires
            builder_wf(old(self)@),
            opt_seq(old(self)@.globals).len() < u32::MAX,
        ensures
            builder_wf(final(self)@),
            r.ord() == opt_seq(old(self)@.globals).len(),
            opt_seq(final(self)@.globals) == opt_seq(old(self)@.globals).push(global),
            final(self)@ == (Module { globals: final(self)@.globals, ..old(self)@ }),
    {
        GlobalIndex::new(push_entry(&mut self.0.globals, global))
    }

    /// Adds an export entry.
    pub fn add_export(&mut self, export: ExportEntry) -> (r: ExportIndex)
        requires
            builder_wf(old(self)@),
            opt_seq(old(self)@.exports).len() < u32::MAX,
        ensures
            builder_wf(final(self)@),
            r.ord() == opt_seq(old(self)@.exports).len(),
            opt_seq(final(self)@.exports) == opt_seq(old(self)@.exports).push(export),
            final(self)@ == (Module { exports: final(self)@.exports, ..old(self)@ }),
    {
        ExportIndex::new(push_entry(&mut self.0.exports, export))
    }

    /// Sets the function run when the module is instantiated.
    pub fn start(&mut self, index: FunctionIndex)
        requires
            builder_wf(old(self)@),
        ensures
            builder_wf(final(self)@),
            final(self)@ == (Module { start: Some(index), ..old(self)@ }),
    {
        self.0.start = Some(index);
    }

    /// Adds an element segment; only table 0 is supported.
    pub fn add_element(&mut self, element: ElemSegment) -> (r: ElementIndex)
        requires
            builder_wf(old(self)@),
            element.index.ord() == 0,
            opt_seq(old(self)@.elements).len() < u32::MAX,
        ensures
            builder_wf(final(self)@),
            r.ord() == opt_seq(old(self)@.elements).len(),
            opt_seq(final(self)@.elements) == opt_seq(old(self)@.elements).push(element),
            final(self)@ == (Module { elements: final(self)@.elements, ..old(self)@ }),
    {
        let ghost e = element;
        let r = ElementIndex::new(push_entry(&mut self.0.elements, element));
        assert(opt_seq(self.0.elements)[opt_seq(self.0.elements).len() - 1] == e);
        r
    }

    /// Adds a function body; only `new_function` pairs it with its declaration.
    fn add_code(&mut self, code: FunctionBody) -> (r: CodeIndex)
        requires
            opt_seq(old(self)@.codes).len() < u32::MAX,
        ensures
            r.ord() == opt_seq(old(self)@.codes).len(),
            opt_seq(final(self)@.codes) == opt_seq(old(self)@.codes).push(code),
            final(self)@ == (Module { codes: final(self)@.codes, ..old(self)@ }),
    {
        CodeIndex::new(push_entry(&mut self.0.codes, code))
    }

    /// Adds a data segment; only memory 0 is supported.
    pub fn add_data(&mut self, data: DataSegment) -> (r: DataIndex)
        requires
            builder_wf(old(self)@),
            data.index.ord() == 0,
            opt_seq(old(self)@.data).len() < u32::MAX,
        ensures
            builder_wf(final(self)@),
            r.ord() == opt_seq(old(self)@.data).len(),
            opt_seq(final(self)@.data) == opt_seq(old(self)@.data).push(data),
            final(self)@ == (Module { data: final(self)@.data, ..old(self)@ }),
    {
        let ghost d = data;
        let r = DataIndex::new(push_entry(&mut self.0.data, data));
        assert(opt_seq(self.0.data)[opt_seq(self.0.data).len() - 1] == d);
        r
    }

    /// Declares a function with its own new signature and its body. The declaration and
    /// the body land at the same position, which is the returned index.
    pub fn new_function(&mut self, f: (FuncType, FunctionBody)) -> (r: FunctionIndex)
        requires
            builder_wf(old(self)@),
            opt_seq(old(self)@.types).len() < u32::MAX,
            opt_seq(old(self)@.functions).len() < u32::MAX,
        ensures
            builder_wf(final(self)@),
            r.ord() == opt_seq(old(self)@.functions).len(),
            opt_seq(final(self)@.types) == opt_seq(old(self)@.types).push(f.0),
            opt_seq(final(self)@.functions) == opt_seq(old(self)@.functions).push(
                Function(TypeIndex::new_spec(opt_seq(old(self)@.types).len() as u32)),
            ),
            opt_seq(final(self)@.codes) == opt_seq(old(self)@.codes).push(f.1),
            final(self)@ == (Module {
                types: final(self)@.types,
                functions: final(self)@.functions,
                codes: final(self)@.codes,
                ..old(self)@
            }),
    {
        let (t, body) = f;
        let tidx = self.add_type(t);
        self.new_function_of_type(tidx, body)
    }

    /// Declares a function of signature `t` and adds its body at the same position.
    fn new_function_of_type(&mut self, t: TypeIndex, body: FunctionBody) -> (r: FunctionIndex)
        requires
            builder_wf(old(self)@),
            opt_seq(old(self)@.functions).len() < u32::MAX,
        ensures
            builder_wf(final(self)@),
            r.ord() == opt_seq(old(self)@.functions).len(),
            opt_seq(final(self)@.functions) == opt_seq(old(self)@.functions).push(Function(t)),
            opt_seq(final(self)@.codes) == opt_seq(old(self)@.codes).push(body),
            final(self)@ == (Module {
                functions: final(self)@.functions,
                codes: final(self)@.codes,
                ..old(self)@
            }),
    {
        let fidx = self.add_function(Function(t));
        let cidx = self.add_code(body);
        assert(cidx.ord() == fidx.ord());
        fidx
    }

    /// Adds a data segment for memory `idx` (only memory 0 is supported) at the offset
    /// computed by `offset`.
    pub fn new_data(&mut self, idx: MemoryIndex, offset: Code, data: Vec<u8>) -> (r: DataIndex)
        requires
            builder_wf(old(self)@),
            idx.ord() == 0,
            opt_seq(old(self)@.data).len() < u32::MAX,
        ensures
            builder_wf(final(self)@),
            r.ord() == opt_seq(old(self)@.data).len(),
            opt_seq(final(self)@.data) == opt_seq(old(self)@.data).push(
                DataSegment { index: idx, offset: InitExpr(offset), data: data },
            ),
            final(self)@ == (Module { data: final(self)@.data, ..old(self)@ }),
    {
        let seg = DataSegment { index: idx, offset: InitExpr(offset), data: data };
        self.add_data(seg)
    }

    /// Adds a global of type `ty` initialised by `init`.
    pub fn new_global(&mut self, ty: GlobalType, init: Code) -> (r: GlobalIndex)
        requires
            builder_wf(old(self)@),
            opt_seq(old(self)@.globals).len() < u32::MAX,
        ensures
            builder_wf(final(self)@),
            r.ord() == opt_seq(old(self)@.globals).len(),
            opt_seq(final(self)@.globals) == opt_seq(old(self)@.globals).push(
                GlobalVariable { ty: ty, init: InitExpr(init) },
            ),
            final(self)@ == (Module { globals: final(self)@.globals, ..old(self)@ }),
    {
        self.add_global(GlobalVariable { ty: ty, init: InitExpr(init) })
    }
}

/// Declaring a table whose limits are given by a range of sizes.
pub trait NewTable<T>: View<V = Module> + Sized {
    /// The limits of a table declared with `range`.
    spec fn table_limits(range: T) -> ResizableLimits;

    fn new_table(&mut self, element: ElemType, range: T) -> (r: TableIndex)
        requires
            builder_wf(old(self)@),
            opt_seq(old(self)@.tables).len() < u32::MAX,
        ensures
            builder_wf(final(self)@),
            r.ord() == opt_seq(old(self)@.tables).len(),
            opt_seq(final(self)@.tables) == opt_seq(old(self)@.tables).push(
                TableType { element: element, limits: Self::table_limits(range) },
            ),
            final(self)@ == (Module { tables: final(self)@.tables, ..old(self)@ }),
    ;
}

impl NewTable<Range<u32>> for ModuleBuilder {
    /// `start..end`: initial size `start`, maximum `end`.
    open spec fn table_limits(range: Range<u32>) -> ResizableLimits {
        ResizableLimits { flags: 0, initial: range.start, maximum: Some(range.end) }
    }

    fn new_table(&mut self, element: ElemType, range: Range<u32>) -> (r: TableIndex) {
        let table = TableType {
            element: element,
            limits: ResizableLimits::new(range.start).max(range.end),
        };
        self.add_table(table)
    }
}

impl NewTable<RangeFrom<u32>> for ModuleBuilder {
    /// `start..`: initial size `start`, no maximum.
    open spec fn table_limits(range: RangeFrom<u32>) -> ResizableLimits {
        ResizableLimits { flags: 0, initial: range.start, maximum: None }
    }

    fn new_table(&mut self, element: ElemType, range: RangeFrom<u32>) -> (r: TableIndex) {
        let table = TableType { element: element, limits: ResizableLimits::new(range.start) };
        self.add_table(table)
    }
}

/// Declaring a memory whose limits are given by a range of sizes.
pub trait NewMemory<T>: View<V = Module> + Sized {
    /// The limits of a memory declared with `range`.
    spec fn memory_limits(range: T) -> ResizableLimits;

    fn new_memory(&mut self, range: T) -> (r: MemoryIndex)
        requires
            builder_wf(old(self)@),
            opt_seq(old(self)@.memories).len() < u32::MAX,
        ensures
            builder_wf(final(self)@),
            r.ord() == opt_seq(old(self)@.memories).len(),
            opt_seq(final(self)@.memories) == opt_seq(old(self)@.memories).push(
                MemoryType { limits: Self::memory_limits(range) },
            ),
            final(self)@ == (Module { memories: final(self)@.memories, ..old(self)@ }),
    ;
}

impl NewMemory<Range<u32>> for ModuleBuilder {
    /// `start..end`: initial size `start`, maximum `end`.
    open spec fn memory_limits(range: Range<u32>) -> ResizableLimits {
        ResizableLimits { flags: 0, initial: range.start, maximum: Some(range.end) }
    }

    fn new_memory(&mut self, range: Range<u32>) -> (r: MemoryIndex) {
        let memory = MemoryType { limits: ResizableLimits::new(range.start).max(range.end) };
        self.add_memory(memory)
    }
}

impl NewMemory<RangeFrom<u32>> for ModuleBuilder {
    /// `start..`: initial size `start`, no maximum.
    open spec fn memory_limits(range: RangeFrom<u32>) -> ResizableLimits {
        ResizableLimits { flags: 0, initial: range.start, maximum: None }
    }

    fn new_memory(&mut self, range: RangeFrom<u32>) -> (r: MemoryIndex) {
        let memory = MemoryType { limits: ResizableLimits::new(range.start) };
        self.add_memory(memory)
    }
}

/// Exporting an entity under a name; implemented only for the index kinds that can be
/// exported.
pub trait Export<T>: View<V = Module> + Sized {
    /// The export kind that binds `index`.
    spec fn export_kind(index: T) -> ExportKind;

    fn export(&mut self, name: &str, index: T) -> (r: ExportIndex)
        requires
            builder_wf(old(self)@),
            opt_seq(old(self)@.exports).len() < u32::MAX,
        ensures
            builder_wf(final(self)@),
            r.ord() == opt_seq(old(self)@.exports).len(),
            opt_seq(final(self)@.exports).len() == opt_seq(old(self)@.exports).len() + 1,
            opt_seq(final(self)@.exports).drop_last() == opt_seq(old(self)@.exports),
            opt_seq(final(self)@.exports).last().field@ == name@,
            opt_seq(final(self)@.exports).last().kind == Self::export_kind(index),
            final(self)@ == (Module { exports: final(self)@.exports, ..old(self)@ }),
    ;
}

impl Export<FunctionIndex> for ModuleBuilder {
    open spec fn export_kind(index: FunctionIndex) -> ExportKind {
        ExportKind::Function(index)
    }

    fn export(&mut self, name: &str, index: FunctionIndex) -> (r: ExportIndex) {
        let entry = ExportEntry { field: name.to_owned(), kind: ExportKind::Function(index) };
        let r = self.add_export(entry);
        assert(opt_seq(self@.exports).drop_last() =~= opt_seq(old(self)@.exports));
        r
    }
}

impl Export<TableIndex> for ModuleBuilder {
    open spec fn export_kind(index: TableIndex) -> ExportKind {
        ExportKind::Table(index)
    }

    fn export(&mut self, name: &str, index: TableIndex) -> (r: ExportIndex) {
        let entry = ExportEntry { field: name.to_owned(), kind: ExportKind::Table(index) };
        let r = self.add_export(entry);
        assert(opt_seq(self@.exports).drop_last() =~= opt_seq(old(self)@.exports));
        r
    }
}

impl Export<MemoryIndex> for ModuleBuilder {
    open spec fn export_kind(index: MemoryIndex) -> ExportKind {
        ExportKind::Memory(index)
    }

    fn export(&mut self, name: &str, index: MemoryIndex) -> (r: ExportIndex) {
        let entry = ExportEntry { field: name.to_owned(), kind: ExportKind::Memory(index) };
        let r = self.add_export(entry);
        assert(opt_seq(self@.exports).drop_last() =~= opt_seq(old(self)@.exports));
        r
    }
}

impl Export<GlobalIndex> for ModuleBuilder {
    open spec fn export_kind(index: GlobalIndex) -> ExportKind {
        ExportKind::Global(index)
    }

    fn export(&mut self, name: &str, index: GlobalIndex) -> (r: ExportIndex) {
        let entry = ExportEntry { field: name.to_owned(), kind: ExportKind::Global(index) };
        let r = self.add_export(entry);
        assert(opt_seq(self@.exports).drop_last() =~= opt_seq(old(self)@.exports));
        r
    }
}

/// Importing an entity from another module; implemented only for what can be imported:
/// functions (by signature), tables, memories and globals.
pub trait Import<Ty>: View<V = Module> + Sized {
    /// The import kind that describes `index`.
    spec fn import_kind(index: Ty) -> ImportKind;

    fn import(&mut self, module: &str, name: &str, index: Ty) -> (r: ImportIndex)
        requires
            builder_wf(old(self)@),
            opt_seq(old(self)@.imports).len() < u32::MAX,
        ensures
            builder_wf(final(self)@),
            r.ord() == opt_seq(old(self)@.imports).len(),
            opt_seq(final(self)@.imports).len() == opt_seq(old(self)@.imports).len() + 1,
            opt_seq(final(self)@.imports).drop_last() == opt_seq(old(self)@.imports),
            opt_seq(final(self)@.imports).last().module@ == module@,
            opt_seq(final(self)@.imports).last().field@ == name@,
            opt_seq(final(self)@.imports).last().kind == Self::import_kind(index),
            final(self)@ == (Module { imports: final(self)@.imports, ..old(self)@ }),
    ;
}

impl Import<TypeIndex> for ModuleBuilder {
    open spec fn import_kind(index: TypeIndex) -> ImportKind {
        ImportKind::Function(index)
    }

    fn import(&mut self, module: &str, name: &str, index: TypeIndex) -> (r: ImportIndex) {
        let entry = ImportEntry {
            module: module.to_owned(),
            field: name.to_owned(),
            kind: ImportKind::Function(index),
        };
        let r = self.add_import(entry);
        assert(opt_seq(self@.imports).drop_last() =~= opt_seq(old(self)@.imports));
        r
    }
}

impl Import<TableType> for ModuleBuilder {
    open spec fn import_kind(index: TableType) -> ImportKind {
        ImportKind::Table(index)
    }

    fn import(&mut self, module: &str, name: &str, index: TableType) -> (r: ImportIndex) {
        let entry = ImportEntry {
            module: module.to_owned(),
            field: name.to_owned(),
            kind: ImportKind::Table(index),
        };
        let r = self.add_import(entry);
        assert(opt_seq(self@.imports).drop_last() =~= opt_seq(old(self)@.imports));
        r
    }
}

impl Import<MemoryType> for ModuleBuilder {
    open spec fn import_kind(index: MemoryType) -> ImportKind {
        ImportKind::Memory(index)
    }

    fn import(&mut self, module: &str, name: &str, index: MemoryType) -> (r: ImportIndex) {
        let entry = ImportEntry {
            module: module.to_owned(),
            field: name.to_owned(),
            kind: ImportKind::Memory(index),
        };
        let r = self.add_import(entry);
        assert(opt_seq(self@.imports).drop_last() =~= opt_seq(old(self)@.imports));
        r
    }
}

impl Import<GlobalType> for ModuleBuilder {
    open spec fn import_kind(index: GlobalType) -> ImportKind {
        ImportKind::Global(index)
    }

    fn import(&mut self, module: &str, name: &str, index: GlobalType) -> (r: ImportIndex) {
        let entry = ImportEntry {
            module: module.to_owned(),
            field: name.to_owned(),
            kind: ImportKind::Global(index),
        };
        let r = self.add_import(entry);
        assert(opt_seq(self@.imports).drop_last() =~= opt_seq(old(self)@.imports));
        r
    }
}

/// Declaring a function with its body, by an existing signature index or a new signature.
pub trait NewFunction<T>: View<V = Module> + Sized {
    /// Whether the index spaces of `m` have room for what declaring with `t` adds.
    spec fn has_room(m: Module, t: T) -> bool;

    /// The signatures after declaring with `t`.
    spec fn types_after(types: Seq<FuncType>, t: T) -> Seq<FuncType>;

    /// The signature index the new declaration refers to.
    spec fn signature_index(types: Seq<FuncType>, t: T) -> TypeIndex;

    fn new_function(&mut self, t: T, body: FunctionBody) -> (r: FunctionIndex)
        requires
            builder_wf(old(self)@),
            Self::has_room(old(self)@, t),
        ensures
            builder_wf(final(self)@),
            r.ord() == opt_seq(old(self)@.functions).len(),
            opt_seq(final(self)@.types) == Self::types_after(opt_seq(old(self)@.types), t),
            opt_seq(final(self)@.functions) == opt_seq(old(self)@.functions).push(
                Function(Self::signature_index(opt_seq(old(self)@.types), t)),
            ),
            opt_seq(final(self)@.codes) == opt_seq(old(self)@.codes).push(body),
            final(self)@ == (Module {
                types: final(self)@.types,
                functions: final(self)@.functions,
                codes: final(self)@.codes,
                ..old(self)@
            }),
    ;
}

impl NewFunction<TypeIndex> for ModuleBuilder {
    open spec fn has_room(m: Module, t: TypeIndex) -> bool {
        opt_seq(m.functions).len() < u32::MAX
    }

    open spec fn types_after(types: Seq<FuncType>, t: TypeIndex) -> Seq<FuncType> {
        types
    }

    open spec fn signature_index(types: Seq<FuncType>, t: TypeIndex) -> TypeIndex {
        t
    }

    fn new_function(&mut self, t: TypeIndex, body: FunctionBody) -> (r: FunctionIndex) {
        self.new_function_of_type(t, body)
    }
}

impl NewFunction<FuncType> for ModuleBuilder {
    open spec fn has_room(m: Module, t: FuncType) -> bool {
        opt_seq(m.types).len() < u32::MAX && opt_seq(m.functions).len() < u32::MAX
    }

    open spec fn types_after(types: Seq<FuncType>, t: FuncType) -> Seq<FuncType> {
        types.push(t)
    }

    open spec fn signature_index(types: Seq<FuncType>, t: FuncType) -> TypeIndex {
        TypeIndex::new_spec(types.len() as u32)
    }

    fn new_function(&mut self, t: FuncType, body: FunctionBody) -> (r: FunctionIndex) {
        ModuleBuilder::new_function(self, (t, body))
    }
}

/// Accumulates a sequence of instructions.
pub struct CodeBuilder {
    code: Vec<Op>,
}

impl View for CodeBuilder {
    type V = Seq<Op>;

    closed spec fn view(&self) -> Seq<Op> {
        self.code@
    }
}

impl CodeBuilder {
    pub fn new() -> (r: Self)
        ensures
            r@ == Seq::<Op>::empty(),
    {
        CodeBuilder { code: Vec::new() }
    }

    /// The instructions accumulated so far.
    pub fn build(self) -> (r: Code)
        ensures
            r.0@ == self@,
    {
        Code(self.code)
    }

    fn push(self, op: Op) -> (r: Self)
        ensures
            r@ == self@.push(op),
    {
        let mut code = self.code;
        code.push(op);
        CodeBuilder { code }
    }

    pub fn unreachable(self) -> (r: Self)
        ensures
            r@ == self@.push(Op::Unreachable),
    {
        self.push(Op::Unreachable)
    }

    pub fn nop(self) -> (r: Self)
        ensures
            r@ == self@.push(Op::Nop),
    {
        self.push(Op::Nop)
    }

    pub fn block(self, sig: BlockType) -> (r: Self)
        ensures
            r@ == self@.push(Op::Block { sig: sig }),
    {
        self.push(Op::Block { sig: sig })
    }

    pub fn loop_(self, sig: BlockType) -> (r: Self)
        ensures
            r@ == self@.push(Op::Loop { sig: sig }),
    {
        self.push(Op::Loop { sig: sig })
    }

    pub fn if_(self) -> (r: Self)
        ensures
            r@ == self@.push(Op::If),
    {
        self.push(Op::If)
    }

    pub fn else_(self) -> (r: Self)
        ensures
            r@ == self@.push(Op::Else),
    {
        self.push(Op::Else)
    }

    pub fn end(self) -> (r: Self)
        ensures
            r@ == self@.push(Op::End),
    {
        self.push(Op::End)
    }

    pub fn br(self, depth: u32) -> (r: Self)
        ensures
            r@ == self@.push(Op::Br { depth: depth }),
    {
        self.push(Op::Br { depth: depth })
    }

    pub fn br_if(self, depth: u32) -> (r: Self)
        ensures
            r@ == self@.push(Op::BrIf { depth: depth }),
    {
        self.push(Op::BrIf { depth: depth })
    }

    /// A branch table: `table` holds the depths chosen by index, `default` the one taken otherwise.
    pub fn br_table(self, table: Vec<u32>, default: u32) -> (r: Self)
        ensures
            r@ == self@.push(Op::BrTable(BrTarget { table: table, default_target: default })),
    {
        self.push(Op::BrTable(BrTarget { table: table, default_target: default }))
    }

    pub fn return_(self) -> (r: Self)
        ensures
            r@ == self@.push(Op::Return),
    {
        self.push(Op::Return)
    }

    pub fn call(self, index: FunctionSpaceIndex) -> (r: Self)
        ensures
            r@ == self@.push(Op::Call { index: index }),
    {
        self.push(Op::Call { index: index })
    }

    pub fn call_indirect(self, index: u32, reserved: bool) -> (r: Self)
        ensures
            r@ == self@.push(Op::CallIndirect { index: index, reserved: reserved }),
    {
        self.push(Op::CallIndirect { index: index, reserved: reserved })
    }

    pub fn drop(self) -> (r: Self)
        ensures
            r@ == self@.push(Op::Drop),
    {
        self.push(Op::Drop)
    }

    pub fn select(self) -> (r: Self)
        ensures
            r@ == self@.push(Op::Select),
    {
        self.push(Op::Select)
    }

    pub fn get_local(self, idx: LocalIndex) -> (r: Self)
        ensures
            r@ == self@.push(Op::GetLocal(idx)),
    {
        self.push(Op::GetLocal(idx))
    }

    pub fn set_local(self, idx: LocalIndex) -> (r: Self)
        ensures
            r@ == self@.push(Op::SetLocal(idx)),
    {
        self.push(Op::SetLocal(idx))
    }

    pub fn tee_local(self, idx: LocalIndex) -> (r: Self)
        ensures
            r@ == self@.push(Op::TeeLocal(idx)),
    {
        self.push(Op::TeeLocal(idx))
    }

    pub fn get_global(self, idx: GlobalIndex) -> (r: Self)
        ensures
            r@ == self@.push(Op::GetGlobal(idx)),
    {
        self.push(Op::GetGlobal(idx))
    }

    pub fn set_global(self, idx: GlobalIndex) -> (r: Self)
        ensures
            r@ == self@.push(Op::SetGlobal(idx)),
    {
        self.push(Op::SetGlobal(idx))
    }

    pub fn i32_load(self, offset: u32) -> (r: Self)
        ensures
            r@ == self@.push(Op::I32Load { imm: MemoryImmediate { flags: 5, offset: offset } }),
    {
        self.push(Op::I32Load { imm: MemoryImmediate { flags: 5, offset: offset } })
    }

    pub fn i64_load(self, offset: u32) -> (r: Self)
        ensures
            r@ == self@.push(Op::I64Load { imm: MemoryImmediate { flags: 6, offset: offset } }),
    {
        self.push(Op::I64Load { imm: MemoryImmediate { flags: 6, offset: offset } })
    }

    pub fn f32_load(self, offset: u32) -> (r: Self)
        ensures
            r@ == self@.push(Op::F32Load { imm: MemoryImmediate { flags: 5, offset: offset } }),
    {
        self.push(Op::F32Load { imm: MemoryImmediate { flags: 5, offset: offset } })
    }

    pub fn f64_load(self, offset: u32) -> (r: Self)
        ensures
            r@ == self@.push(Op::F64Load { imm: MemoryImmediate { flags: 6, offset: offset } }),
    {
        self.push(Op::F64Load { imm: MemoryImmediate { flags: 6, offset: offset } })
    }

    pub fn i32_load8_s(self, offset: u32) -> (r: Self)
        ensures
            r@ == self@.push(Op::I32Load8S { imm: MemoryImmediate { flags: 3, offset: offset } }),
    {
        self.push(Op::I32Load8S { imm: MemoryImmediate { flags: 3, offset: offset } })
    }

    pub fn i32_load8_u(self, offset: u32) -> (r: Self)
        ensures
            r@ == self@.push(Op::I32Load8U { imm: MemoryImmediate { flags: 3, offset: offset } }),
    {
        self.push(Op::I32Load8U { imm: MemoryImmediate { flags: 3, offset: offset } })
    }

    pub fn i32_load16_s(self, offset: u32) -> (r: Self)
        ensures
            r@ == self@.push(Op::I32Load16S { imm: MemoryImmediate { flags: 4, offset: offset } }),
    {
        self.push(Op::I32Load16S { imm: MemoryImmediate { flags: 4, offset: offset } })
    }

    pub fn i32_load16_u(self, offset: u32) -> (r: Self)
        ensures
            r@ == self@.push(Op::I32Load16U { imm: MemoryImmediate { flags: 4, offset: offset } }),
    {
        self.push(Op::I32Load16U { imm: MemoryImmediate { flags: 4, offset: offset } })
    }

    pub fn i64_load8_s(self, offset: u32) -> (r: Self)
        ensures
            r@ == self@.push(Op::I64Load8S { imm: MemoryImmediate { flags: 3, offset: offset } }),
    {
        self.push(Op::I64Load8S { imm: MemoryImmediate { flags: 3, offset: offset } })
    }

    pub fn i64_load8_u(self, offset: u32) -> (r: Self)
        ensures
            r@ == self@.push(Op::I64Load8U { imm: MemoryImmediate { flags: 3, offset: offset } }),
    {
        self.push(Op::I64Load8U { imm: MemoryImmediate { flags: 3, offset: offset } })
    }

    pub fn i64_load16_s(self, offset: u32) -> (r: Self)
        ensures
            r@ == self@.push(Op::I64Load16S { imm: MemoryImmediate { flags: 4, offset: offset } }),
    {
        self.push(Op::I64Load16S { imm: MemoryImmediate { flags: 4, offset: offset } })
    }

    pub fn i64_load16_u(self, offset: u32) -> (r: Self)
        ensures
            r@ == self@.push(Op::I64Load16U { imm: MemoryImmediate { flags: 4, offset: offset } }),
    {
        self.push(Op::I64Load16U { imm: MemoryImmediate { flags: 4, offset: offset } })
    }

    pub fn i64_load32_s(self, offset: u32) -> (r: Self)
        ensures
            r@ == self@.push(Op::I64load32S { imm: MemoryImmediate { flags: 5, offset: offset } }),
    {
        self.push(Op::I64load32S { imm: MemoryImmediate { flags: 5, offset: offset } })
    }

    pub fn i64_load32_u(self, offset: u32) -> (r: Self)
        ensures
            r@ == self@.push(Op::I64load32U { imm: MemoryImmediate { flags: 5, offset: offset } }),
    {
        self.push(Op::I64load32U { imm: MemoryImmediate { flags: 5, offset: offset } })
    }

    pub fn i32_store(self, offset: u32) -> (r: Self)
        ensures
            r@ == self@.push(Op::I32Store { imm: MemoryImmediate { flags: 5, offset: offset } }),
    {
        self.push(Op::I32Store { imm: MemoryImmediate { flags: 5, offset: offset } })
    }

    pub fn i64_store(self, offset: u32) -> (r: Self)
        ensures
            r@ == self@.push(Op::I64Store { imm: MemoryImmediate { flags: 6, offset: offset } }),
    {
        self.push(Op::I64Store { imm: MemoryImmediate { flags: 6, offset: offset } })
    }

    pub fn f32_store(self, offset: u32) -> (r: Self)
        ensures
            r@ == self@.push(Op::F32Store { imm: MemoryImmediate { flags: 5, offset: offset } }),
    {
        self.push(Op::F32Store { imm: MemoryImmediate { flags: 5, offset: offset } })
    }

    pub fn f64_store(self, offset: u32) -> (r: Self)
        ensures
            r@ == self@.push(Op::F64Store { imm: MemoryImmediate { flags: 6, offset: offset } }),
    {
        self.push(Op::F64Store { imm: MemoryImmediate { flags: 6, offset: offset } })
    }

    pub fn i32_store8(self, offset: u32) -> (r: Self)
        ensures
            r@ == self@.push(Op::I32Store8 { imm: MemoryImmediate { flags: 3, offset: offset } }),
    {
        self.push(Op::I32Store8 { imm: MemoryImmediate { flags: 3, offset: offset } })
    }

    pub fn i32_store16(self, offset: u32) -> (r: Self)
        ensures
            r@ == self@.push(Op::I32Store16 { imm: MemoryImmediate { flags: 4, offset: offset } }),
    {
        self.push(Op::I32Store16 { imm: MemoryImmediate { flags: 4, offset: offset } })
    }

    pub fn i64_store8(self, offset: u32) -> (r: Self)
        ensures
            r@ == self@.push(Op::I64Store8 { imm: MemoryImmediate { flags: 3, offset: offset } }),
    {
        self.push(Op::I64Store8 { imm: MemoryImmediate { flags: 3, offset: offset } })
    }

    pub fn i64_store16(self, offset: u32) -> (r: Self)
        ensures
            r@ == self@.push(Op::I64Store16 { imm: MemoryImmediate { flags: 4, offset: offset } }),
    {
        self.push(Op::I64Store16 { imm: MemoryImmediate { flags: 4, offset: offset } })
    }

    pub fn i64_store32(self, offset: u32) -> (r: Self)
        ensures
            r@ == self@.push(Op::I64Store32 { imm: MemoryImmediate { flags: 5, offset: offset } }),
    {
        self.push(Op::I64Store32 { imm: MemoryImmediate { flags: 5, offset: offset } })
    }

    pub fn current_memory(self, reserved: bool) -> (r: Self)
        ensures
            r@ == self@.push(Op::CurrentMemory { reserved: reserved }),
    {
        self.push(Op::CurrentMemory { reserved: reserved })
    }

    pub fn grow_memory(self, reserved: bool) -> (r: Self)
        ensures
            r@ == self@.push(Op::GrowMemory { reserved: reserved }),
    {
        self.push(Op::GrowMemory { reserved: reserved })
    }

    /// A constant instruction for `c`: `i32.const` for an `i32`, `i64.const` for an `i64`.
    pub fn constant<C>(self, c: C) -> (r: Self) where Op: From<C>
        ensures
            <Op as FromSpec<C>>::obeys_from_spec() ==> r@ == self@.push(
                <Op as FromSpec<C>>::from_spec(c),
            ),
    {
        self.push(Op::from(c))
    }

    /// `f32.const` with the given IEEE-754 bit pattern.
    pub fn f32_const_bits(self, bits: u32) -> (r: Self)
        ensures
            r@ == self@.push(Op::F32Const(bits)),
    {
        self.push(Op::F32Const(bits))
    }

    /// `f64.const` with the given IEEE-754 bit pattern.
    pub fn f64_const_bits(self, bits: u64) -> (r: Self)
        ensures
            r@ == self@.push(Op::F64Const(bits)),
    {
        self.push(Op::F64Const(bits))
    }

    pub fn i32_eqz(self) -> (r: Self)
        ensures
            r@ == self@.push(Op::I32Eqz),
    {
        self.push(Op::I32Eqz)
    }

    pub fn i32_eq(self) -> (r: Self)
        ensures
            r@ == self@.push(Op::I32Eq),
    {
        self.push(Op::I32Eq)
    }

    pub fn i32_ne(self) -> (r: Self)
        ensures
            r@ == self@.push(Op::I32NE),
    {
        self.push(Op::I32NE)
    }

    pub fn i32_lt_s(self) -> (r: Self)
        ensures
            r@ == self@.push(Op::I32LtS),
    {
        self.push(Op::I32LtS)
    }

    pub fn i32_lt_u(self) -> (r: Self)
        ensures
            r@ == self@.push(Op::I32LtU),
    {
        self.push(Op::I32LtU)
    }

    pub fn i32_gt_s(self) -> (r: Self)
        ensures
            r@ == self@.push(Op::I32GtS),
    {
        self.push(Op::I32GtS)
    }

    pub fn i32_gt_u(self) -> (r: Self)
        ensures
            r@ == self@.push(Op::I32GtU),
    {
        self.push(Op::I32GtU)
    }

    pub fn i32_le_s(self) -> (r: Self)
        ensures
            r@ == self@.push(Op::I32LeS),
    {
        self.push(Op::I32LeS)
    }

    pub fn i32_le_u(self) -> (r: Self)
        ensures
            r@ == self@.push(Op::I32LeU),
    {
        self.push(Op::I32LeU)
    }

    pub fn i32_ge_s(self) -> (r: Self)
        ensures
            r@ == self@.push(Op::I32GeS),
    {
        self.push(Op::I32GeS)
    }

    pub fn i32_ge_u(self) -> (r: Self)
        ensures
            r@ == self@.push(Op::I32GeU),
    {
        self.push(Op::I32GeU)
    }

    pub fn i64_eqz(self) -> (r: Self)
        ensures
            r@ == self@.push(Op::I64Eqz),
    {
        self.push(Op::I64Eqz)
    }

    pub fn i64_eq(self) -> (r: Self)
        ensures
            r@ == self@.push(Op::I64Eq),
    {
        self.push(Op::I64Eq)
    }

    pub fn i64_ne(self) -> (r: Self)
        ensures
            r@ == self@.push(Op::I64Ne),
    {
        self.push(Op::I64Ne)
    }

    pub fn i64_lt_s(self) -> (r: Self)
        ensures
            r@ == self@.push(Op::I64LtS),
    {
        self.push(Op::I64LtS)
    }

    pub fn i64_lt_u(self) -> (r: Self)
        ensures
            r@ == self@.push(Op::I64LtU),
    {
        self.push(Op::I64LtU)
    }

    pub fn i64_gt_s(self) -> (r: Self)
        ensures
            r@ == self@.push(Op::I64GtS),
    {
        self.push(Op::I64GtS)
    }

    pub fn i64_gt_u(self) -> (r: Self)
        ensures
            r@ == self@.push(Op::I64GtU),
    {
        self.push(Op::I64GtU)
    }

    pub fn i64_le_s(self) -> (r: Self)
        ensures
            r@ == self@.push(Op::I64LeS),
    {
        self.push(Op::I64LeS)
    }

    pub fn i64_le_u(self) -> (r: Self)
        ensures
            r@ == self@.push(Op::I64LeU),
    {
        self.push(Op::I64LeU)
    }

    pub fn i64_ge_s(self) -> (r: Self)
        ensures
            r@ == self@.push(Op::I64GeS),
    {
        self.push(Op::I64GeS)
    }

    pub fn i64_ge_u(self) -> (r: Self)
        ensures
            r@ == self@.push(Op::I64GeU),
    {
        self.push(Op::I64GeU)
    }

    pub fn f32_eq(self) -> (r: Self)
        ensures
            r@ == self@.push(Op::F32Eq),
    {
        self.push(Op::F32Eq)
    }

    pub fn f32_ne(self) -> (r: Self)
        ensures
            r@ == self@.push(Op::F32Ne),
    {
        self.push(Op::F32Ne)
    }

    pub fn f32_lt(self) -> (r: Self)
        ensures
            r@ == self@.push(Op::F32Lt),
    {
        self.push(Op::F32Lt)
    }

    pub fn f32_gt(self) -> (r: Self)
        ensures
            r@ == self@.push(Op::F32Gt),
    {
        self.push(Op::F32Gt)
    }

    pub fn f32_le(self) -> (r: Self)
        ensures
            r@ == self@.push(Op::F32Le),
    {
        self.push(Op::F32Le)
    }

    pub fn f32_ge(self) -> (r: Self)
        ensures
            r@ == self@.push(Op::F32Ge),
    {
        self.push(Op::F32Ge)
    }

    pub fn f64_eq(self) -> (r: Self)
        ensures
            r@ == self@.push(Op::F64Eq),
    {
        self.push(Op::F64Eq)
    }

    pub fn f64_ne(self) -> (r: Self)
        ensures
            r@ == self@.push(Op::F64Ne),
    {
        self.push(Op::F64Ne)
    }

    pub fn f64_lt(self) -> (r: Self)
        ensures
            r@ == self@.push(Op::F64Lt),
    {
        self.push(Op::F64Lt)
    }

    pub fn f64_gt(self) -> (r: Self)
        ensures
            r@ == self@.push(Op::F64Gt),
    {
        self.push(Op::F64Gt)
    }

    pub fn f64_le(self) -> (r: Self)
        ensures
            r@ == self@.push(Op::F64Le),
    {
        self.push(Op::F64Le)
    }

    pub fn f64_ge(self) -> (r: Self)
        ensures
            r@ == self@.push(Op::F64Ge),
    {
        self.push(Op::F64Ge)
    }

    pub fn i32_clz(self) -> (r: Self)
        ensures
            r@ == self@.push(Op::I32Clz),
    {
        self.push(Op::I32Clz)
    }

    pub fn i32_ctz(self) -> (r: Self)
        ensures
            r@ == self@.push(Op::I32Ctz),
    {
        self.push(Op::I32Ctz)
    }

    pub fn i32_popcnt(self) -> (r: Self)
        ensures
            r@ == self@.push(Op::I32Popcnt),
    {
        self.push(Op::I32Popcnt)
    }

    pub fn i32_add(self) -> (r: Self)
        ensures
            r@ == self@.push(Op::I32Add),
    {
        self.push(Op::I32Add)
    }

    pub fn i32_sub(self) -> (r: Self)
        ensures
            r@ == self@.push(Op::I32Sub),
    {
        self.push(Op::I32Sub)
    }

    pub fn i32_mul(self) -> (r: Self)
        ensures
            r@ == self@.push(Op::I32Mul),
    {
        self.push(Op::I32Mul)
    }

    pub fn i32_div_s(self) -> (r: Self)
        ensures
            r@ == self@.push(Op::I32DivS),
    {
        self.push(Op::I32DivS)
    }

    pub fn i32_div_u(self) -> (r: Self)
        ensures
            r@ == self@.push(Op::I32DivU),
    {
        self.push(Op::I32DivU)
    }

    pub fn i32_rem_s(self) -> (r: Self)
        ensures
            r@ == self@.push(Op::I32RemS),
    {
        self.push(Op::I32RemS)
    }

    pub fn i32_rem_u(self) -> (r: Self)
        ensures
            r@ == self@.push(Op::I32RemU),
    {
        self.push(Op::I32RemU)
    }

    pub fn i32_and(self) -> (r: Self)
        ensures
            r@ == self@.push(Op::I32And),
    {
        self.push(Op::I32And)
    }

    pub fn i32_or(self) -> (r: Self)
        ensures
            r@ == self@.push(Op::I32Or),
    {
        self.push(Op::I32Or)
    }

    pub fn i32_xor(self) -> (r: Self)
        ensures
            r@ == self@.push(Op::I32Xor),
    {
        self.push(Op::I32Xor)
    }

    pub fn i32_shl(self) -> (r: Self)
        ensures
            r@ == self@.push(Op::I32Shl),
    {
        self.push(Op::I32Shl)
    }

    pub fn i32_shr_s(self) -> (r: Self)
        ensures
            r@ == self@.push(Op::I32ShrS),
    {
        self.push(Op::I32ShrS)
    }

    pub fn i32_shr_u(self) -> (r: Self)
        ensures
            r@ == self@.push(Op::I32ShrU),
    {
        self.push(Op::I32ShrU)
    }

    pub fn i32_rotl(self) -> (r: Self)
        ensures
            r@ == self@.push(Op::I32Rotl),
    {
        self.push(Op::I32Rotl)
    }

    pub fn i32_rotr(self) -> (r: Self)
        ensures
            r@ == self@.push(Op::I32Rotr),
    {
        self.push(Op::I32Rotr)
    }

    pub fn i64_clz(self) -> (r: Self)
        ensures
            r@ == self@.push(Op::I64Clz),
    {
        self.push(Op::I64Clz)
    }

    pub fn i64_ctz(self) -> (r: Self)
        ensures
            r@ == self@.push(Op::I64Ctz),
    {
        self.push(Op::I64Ctz)
    }

    pub fn i64_popcnt(self) -> (r: Self)
        ensures
            r@ == self@.push(Op::I64Popcnt),
    {
        self.push(Op::I64Popcnt)
    }

    pub fn i64_add(self) -> (r: Self)
        ensures
            r@ == self@.push(Op::I64Add),
    {
        self.push(Op::I64Add)
    }

    pub fn i64_sub(self) -> (r: Self)
        ensures
            r@ == self@.push(Op::I64Sub),
    {
        self.push(Op::I64Sub)
    }

    pub fn i64_mul(self) -> (r: Self)
        ensures
            r@ == self@.push(Op::I64Mul),
    {
        self.push(Op::I64Mul)
    }

    pub fn i64_div_s(self) -> (r: Self)
        ensures
            r@ == self@.push(Op::I64DivS),
    {
        self.push(Op::I64DivS)
    }

    pub fn i64_div_u(self) -> (r: Self)
        ensures
            r@ == self@.push(Op::I64DivU),
    {
        self.push(Op::I64DivU)
    }

    pub fn i64_rem_s(self) -> (r: Self)
        ensures
            r@ == self@.push(Op::I64RemS),
    {
        self.push(Op::I64RemS)
    }

    pub fn i64_rem_u(self) -> (r: Self)
        ensures
            r@ == self@.push(Op::I64RemU),
    {
        self.push(Op::I64RemU)
    }

    pub fn i64_and(self) -> (r: Self)
        ensures
            r@ == self@.push(Op::I64And),
    {
        self.push(Op::I64And)
    }

    pub fn i64_or(self) -> (r: Self)
        ensures
            r@ == self@.push(Op::I64Or),
    {
        self.push(Op::I64Or)
    }

    pub fn i64_xor(self) -> (r: Self)
        ensures
            r@ == self@.push(Op::I64Xor),
    {
        self.push(Op::I64Xor)
    }

    pub fn i64_shl(self) -> (r: Self)
        ensures
            r@ == self@.push(Op::I64Shl),
    {
        self.push(Op::I64Shl)
    }

    pub fn i64_shr_s(self) -> (r: Self)
        ensures
            r@ == self@.push(Op::I64ShrS),
    {
        self.push(Op::I64ShrS)
    }

    pub fn i64_shr_u(self) -> (r: Self)
        ensures
            r@ == self@.push(Op::I64ShrU),
    {
        self.push(Op::I64ShrU)
    }

    pub fn i64_rotl(self) -> (r: Self)
        ensures
            r@ == self@.push(Op::I64Rotl),
    {
        self.push(Op::I64Rotl)
    }

    pub fn i64_rotr(self) -> (r: Self)
        ensures
            r@ == self@.push(Op::I64Rotr),
    {
        self.push(Op::I64Rotr)
    }

    pub fn f32_abs(self) -> (r: Self)
        ensures
            r@ == self@.push(Op::F32Abs),
    {
        self.push(Op::F32Abs)
    }

    pub fn f32_neg(self) -> (r: Self)
        ensures
            r@ == self@.push(Op::F32Neg),
    {
        self.push(Op::F32Neg)
    }

    pub fn f32_ceil(self) -> (r: Self)
        ensures
            r@ == self@.push(Op::F32Ceil),
    {
        self.push(Op::F32Ceil)
    }

    pub fn f32_floor(self) -> (r: Self)
        ensures
            r@ == self@.push(Op::F32Floor),
    {
        self.push(Op::F32Floor)
    }

    pub fn f32_trunc(self) -> (r: Self)
        ensures
            r@ == self@.push(Op::F32Trunc),
    {
        self.push(Op::F32Trunc)
    }

    pub fn f32_nearest(self) -> (r: Self)
        ensures
            r@ == self@.push(Op::F32Nearest),
    {
        self.push(Op::F32Nearest)
    }

    pub fn f32_sqrt(self) -> (r: Self)
        ensures
            r@ == self@.push(Op::F32Sqrt),
    {
        self.push(Op::F32Sqrt)
    }

    pub fn f32_add(self) -> (r: Self)
        ensures
            r@ == self@.push(Op::F32Add),
    {
        self.push(Op::F32Add)
    }

    pub fn f32_sub(self) -> (r: Self)
        ensures
            r@ == self@.push(Op::F32Sub),
    {
        self.push(Op::F32Sub)
    }

    pub fn f32_mul(self) -> (r: Self)
        ensures
            r@ == self@.push(Op::F32Mul),
    {
        self.push(Op::F32Mul)
    }

    pub fn f32_div(self) -> (r: Self)
        ensures
            r@ == self@.push(Op::F32Div),
    {
        self.push(Op::F32Div)
    }

    pub fn f32_min(self) -> (r: Self)
        ensures
            r@ == self@.push(Op::F32Min),
    {
        self.push(Op::F32Min)
    }

    pub fn f32_max(self) -> (r: Self)
        ensures
            r@ == self@.push(Op::F32Max),
    {
        self.push(Op::F32Max)
    }

    pub fn f32_copysign(self) -> (r: Self)
        ensures
            r@ == self@.push(Op::F32Copysign),
    {
        self.push(Op::F32Copysign)
    }

    pub fn f64_abs(self) -> (r: Self)
        ensures
            r@ == self@.push(Op::F64Abs),
    {
        self.push(Op::F64Abs)
    }

    pub fn f64_neg(self) -> (r: Self)
        ensures
            r@ == self@.push(Op::F64Neg),
    {
        self.push(Op::F64Neg)
    }

    pub fn f64_ceil(self) -> (r: Self)
        ensures
            r@ == self@.push(Op::F64Ceil),
    {
        self.push(Op::F64Ceil)
    }

    pub fn f64_floor(self) -> (r: Self)
        ensures
            r@ == self@.push(Op::F64Floor),
    {
        self.push(Op::F64Floor)
    }

    pub fn f64_trunc(self) -> (r: Self)
        ensures
            r@ == self@.push(Op::F64Trunc),
    {
        self.push(Op::F64Trunc)
    }

    pub fn f64_nearest(self) -> (r: Self)
        ensures
            r@ == self@.push(Op::F64Nearest),
    {
        self.push(Op::F64Nearest)
    }

    pub fn f64_sqrt(self) -> (r: Self)
        ensures
            r@ == self@.push(Op::F64Sqrt),
    {
        self.push(Op::F64Sqrt)
    }

    pub fn f64_add(self) -> (r: Self)
        ensures
            r@ == self@.push(Op::F64Add),
    {
        self.push(Op::F64Add)
    }

    pub fn f64_sub(self) -> (r: Self)
        ensures
            r@ == self@.push(Op::F64Sub),
    {
        self.push(Op::F64Sub)
    }

    pub fn f64_mul(self) -> (r: Self)
        ensures
            r@ == self@.push(Op::F64Mul),
    {
        self.push(Op::F64Mul)
    }

    pub fn f64_div(self) -> (r: Self)
        ensures
            r@ == self@.push(Op::F64Div),
    {
        self.push(Op::F64Div)
    }

    pub fn f64_min(self) -> (r: Self)
        ensures
            r@ == self@.push(Op::F64Min),
    {
        self.push(Op::F64Min)
    }

    pub fn f64_max(self) -> (r: Self)
        ensures
            r@ == self@.push(Op::F64Max),
    {
        self.push(Op::F64Max)
    }

    pub fn f64_copysign(self) -> (r: Self)
        ensures
            r@ == self@.push(Op::F64Copysign),
    {
        self.push(Op::F64Copysign)
    }

    pub fn i32_wrap_i64(self) -> (r: Self)
        ensures
            r@ == self@.push(Op::I32wrapI64),
    {
        self.push(Op::I32wrapI64)
    }

    pub fn i32_trunc_s_f32(self) -> (r: Self)
        ensures
            r@ == self@.push(Op::I32TruncSF32),
    {
        self.push(Op::I32TruncSF32)
    }

    pub fn i32_trunc_u_f32(self) -> (r: Self)
        ensures
            r@ == self@.push(Op::I32TruncUF32),
    {
        self.push(Op::I32TruncUF32)
    }

    pub fn i32_trunc_s_f64(self) -> (r: Self)
        ensures
            r@ == self@.push(Op::I32TruncSF64),
    {
        self.push(Op::I32TruncSF64)
    }

    pub fn i32_trunc_u_f64(self) -> (r: Self)
        ensures
            r@ == self@.push(Op::I32TruncUF64),
    {
        self.push(Op::I32TruncUF64)
    }

    pub fn i64_extend_s_i32(self) -> (r: Self)
        ensures
            r@ == self@.push(Op::I64ExtendSI32),
    {
        self.push(Op::I64ExtendSI32)
    }

    pub fn i64_extend_u_i32(self) -> (r: Self)
        ensures
            r@ == self@.push(Op::I64ExtendUI32),
    {
        self.push(Op::I64ExtendUI32)
    }

    pub fn i64_trunc_s_f32(self) -> (r: Self)
        ensures
            r@ == self@.push(Op::I64TruncSF32),
    {
        self.push(Op::I64TruncSF32)
    }

    pub fn i64_trunc_u_f32(self) -> (r: Self)
        ensures
            r@ == self@.push(Op::I64TruncUF32),
    {
        self.push(Op::I64TruncUF32)
    }

    pub fn i64_trunc_s_f64(self) -> (r: Self)
        ensures
            r@ == self@.push(Op::I64TruncSF64),
    {
        self.push(Op::I64TruncSF64)
    }

    pub fn i64_trunc_u_f64(self) -> (r: Self)
        ensures
            r@ == self@.push(Op::I64TruncUF64),
    {
        self.push(Op::I64TruncUF64)
    }

    pub fn f32_convert_s_i32(self) -> (r: Self)
        ensures
            r@ == self@.push(Op::F32ConvertSI32),
    {
        self.push(Op::F32ConvertSI32)
    }

    pub fn f32_convert_u_i32(self) -> (r: Self)
        ensures
            r@ == self@.push(Op::F32ConvertUI32),
    {
        self.push(Op::F32ConvertUI32)
    }

    pub fn f32_convert_s_i64(self) -> (r: Self)
        ensures
            r@ == self@.push(Op::F32ConvertSI64),
    {
        self.push(Op::F32ConvertSI64)
    }

    pub fn f32_convert_u_i64(self) -> (r: Self)
        ensures
            r@ == self@.push(Op::F32ConvertUI64),
    {
        self.push(Op::F32ConvertUI64)
    }

    pub fn f32_demote_f64(self) -> (r: Self)
        ensures
            r@ == self@.push(Op::F32DemoteF64),
    {
        self.push(Op::F32DemoteF64)
    }

    pub fn f64_convert_s_i32(self) -> (r: Self)
        ensures
            r@ == self@.push(Op::F64ConvertSI32),
    {
        self.push(Op::F64ConvertSI32)
    }

    pub fn f64_convert_u_i32(self) -> (r: Self)
        ensures
            r@ == self@.push(Op::F64ConvertUI32),
    {
        self.push(Op::F64ConvertUI32)
    }

    pub fn f64_convert_s_i64(self) -> (r: Self)
        ensures
            r@ == self@.push(Op::F64ConvertSI64),
    {
        self.push(Op::F64ConvertSI64)
    }

    pub fn f64_convert_u_i64(self) -> (r: Self)
        ensures
            r@ == self@.push(Op::F64ConvertUI64),
    {
        self.push(Op::F64ConvertUI64)
    }

    pub fn f64_promote_f32(self) -> (r: Self)
        ensures
            r@ == self@.push(Op::F64PromoteF32),
    {
        self.push(Op::F64PromoteF32)
    }

    pub fn i32_reinterpret_f32(self) -> (r: Self)
        ensures
            r@ == self@.push(Op::I32ReinterpretF32),
    {
        self.push(Op::I32ReinterpretF32)
    }

    pub fn i64_reinterpret_f64(self) -> (r: Self)
        ensures
            r@ == self@.push(Op::I64ReinterpretF64),
    {
        self.push(Op::I64ReinterpretF64)
    }

    pub fn f32_reinterpret_i32(self) -> (r: Self)
        ensures
            r@ == self@.push(Op::F32ReinterpretI32),
    {
        self.push(Op::F32ReinterpretI32)
    }

    pub fn f64_reinterpret_i64(self) -> (r: Self)
        ensures
            r@ == self@.push(Op::F64ReinterpretI64),
    {
        self.push(Op::F64ReinterpretI64)
    }
}

/// Assembles one function: its signature, the local indices of its parameters, the
/// extra locals it declares and its instructions.
pub struct FunctionBuilder {
    ty: FuncType,
    args: Vec<LocalIndex>,
    locals: Vec<ValueType>,
    cb: CodeBuilder,
}

impl FunctionBuilder {
    /// The signature of the function.
    pub closed spec fn signature(&self) -> FuncType {
        self.ty
    }

    /// The local indices of the parameters.
    pub closed spec fn params(&self) -> Seq<LocalIndex> {
        self.args@
    }

    /// The types of the locals declared beyond the parameters.
    pub closed spec fn extra_locals(&self) -> Seq<ValueType> {
        self.locals@
    }

    /// The instructions of the body so far.
    pub closed spec fn body(&self) -> Seq<Op> {
        self.cb@
    }

    /// The assembler holding the body so far.
    pub closed spec fn code_builder(&self) -> CodeBuilder {
        self.cb
    }

    /// Parameter `i` is local `i`, the assembler holds exactly the body, and every local
    /// index fits in 32 bits.
    pub open spec fn wf(&self) -> bool {
        &&& self.params().len() == self.signature().params@.len()
        &&& forall|i: int|
            0 <= i < self.params().len() ==> #[trigger] self.params()[i] == LocalIndex::new_spec(
                i as u32,
            ) && self.params()[i].ord() == i
        &&& self.code_builder()@ == self.body()
        &&& self.signature().params@.len() + self.extra_locals().len() <= u32::MAX + 1
    }

    /// A builder for a function of signature `ty`, with no extra locals and no instructions.
    pub fn new(ty: FuncType) -> (r: Self)
        requires
            ty.params@.len() <= u32::MAX + 1,
        ensures
            r.wf(),
            r.signature() == ty,
            r.extra_locals() == Seq::<ValueType>::empty(),
            r.body() == Seq::<Op>::empty(),
    {
        let n = ty.params.len();
        let mut args: Vec<LocalIndex> = Vec::new();
        let mut i: usize = 0;
        while i < n
            invariant
                n == ty.params@.len(),
                n <= u32::MAX + 1,
                i <= n,
                args@.len() == i,
                forall|j: int|
                    0 <= j < i ==> #[trigger] args@[j] == LocalIndex::new_spec(j as u32)
                        && args@[j].ord() == j,
            decreases n - i,
        {
            args.push(LocalIndex::new(i as u32));
            i = i + 1;
        }
        FunctionBuilder { ty: ty, args: args, locals: Vec::new(), cb: CodeBuilder::new() }
    }

    /// The signature and the body: one local declaration of count 1 per extra local, in
    /// order, then the instructions. The body is not yet resolved.
    pub fn build(self) -> (r: (FuncType, FunctionBody))
        ensures
            r.0 == self.signature(),
            r.1.locals@.len() == self.extra_locals().len(),
            forall|i: int|
                0 <= i < self.extra_locals().len() ==> #[trigger] r.1.locals@[i] == (LocalEntry {
                    count: 1,
                    ty: self.extra_locals()[i],
                }),
            r.1.code.0@ == self.body(),
            !r.1.resolved,
    {
        let mut locals: Vec<LocalEntry> = Vec::new();
        let mut i: usize = 0;
        while i < self.locals.len()
            invariant
                i <= self.locals@.len(),
                locals@.len() == i,
                forall|j: int|
                    0 <= j < i ==> #[trigger] locals@[j] == (LocalEntry {
                        count: 1,
                        ty: self.locals@[j],
                    }),
            decreases self.locals@.len() - i,
        {
            locals.push(LocalEntry { count: 1, ty: self.locals[i] });
            i = i + 1;
        }
        let body = FunctionBody { locals: locals, code: self.cb.build(), resolved: false };
        (self.ty, body)
    }

    /// Declares one more local of type `ty` and returns its index, which comes after the
    /// parameters and the locals declared before.
    pub fn new_local(&mut self, ty: ValueType) -> (r: LocalIndex)
        requires
            old(self).wf(),
            old(self).signature().params@.len() + old(self).extra_locals().len() <= u32::MAX,
        ensures
            final(self).wf(),
            r.ord() == old(self).signature().params@.len() + old(self).extra_locals().len(),
            final(self).extra_locals() == old(self).extra_locals().push(ty),
            final(self).signature() == old(self).signature(),
            final(self).params() == old(self).params(),
            final(self).body() == old(self).body(),
    {
        let idx = self.ty.params.len() + self.locals.len();
        self.locals.push(ty);
        LocalIndex::new(idx as u32)
    }

    /// Declares locals of the types in `tys`, in order, and returns their indices.
    pub fn new_locals(&mut self, tys: Vec<ValueType>) -> (r: Vec<LocalIndex>)
        requires
            old(self).wf(),
            old(self).signature().params@.len() + old(self).extra_locals().len() + tys@.len()
                <= u32::MAX + 1,
        ensures
            final(self).wf(),
            r@.len() == tys@.len(),
            forall|i: int|
                0 <= i < tys@.len() ==> (#[trigger] r@[i]).ord() == old(
                    self,
                ).signature().params@.len() + old(self).extra_locals().len() + i,
            final(self).extra_locals() == old(self).extra_locals() + tys@,
            final(self).signature() == old(self).signature(),
            final(self).params() == old(self).params(),
            final(self).body() == old(self).body(),
    {
        let mut r: Vec<LocalIndex> = Vec::new();
        let mut i: usize = 0;
        while i < tys.len()
            invariant
                i <= tys@.len(),
                r@.len() == i,
                self.wf(),
                self.ty == old(self).ty,
                self.params() == old(self).params(),
                self.body() == old(self).body(),
                self.locals@ == old(self).locals@ + tys@.take(i as int),
                old(self).ty.params@.len() + old(self).locals@.len() + tys@.len() <= u32::MAX + 1,
                forall|j: int|
                    0 <= j < i ==> (#[trigger] r@[j]).ord() == old(self).ty.params@.len() + old(
                        self,
                    ).locals@.len() + j,
            decreases tys@.len() - i,
        {
            let idx = self.new_local(tys[i]);
            r.push(idx);
            assert(tys@.take(i + 1) =~= tys@.take(i as int).push(tys@[i as int]));
            i = i + 1;
        }
        assert(tys@.take(i as int) =~= tys@);
        r
    }

    /// Lets `f` extend the body, given the local indices of the parameters.
    pub fn code<F: Fn(CodeBuilder, &[LocalIndex]) -> CodeBuilder>(self, f: F) -> (r: Self)
        requires
            forall|s: &[LocalIndex]| s@ == self.params() ==> f.requires((self.code_builder(), s)),
        ensures
            self.wf() ==> r.wf(),
            r.signature() == self.signature(),
            r.params() == self.params(),
            r.extra_locals() == self.extra_locals(),
            exists|s: &[LocalIndex], cb: CodeBuilder|
                s@ == self.params() && f.ensures((self.code_builder(), s), cb) && r.body() == cb@,
    {
        let FunctionBuilder { ty, args, locals, cb } = self;
        let cb = f(cb, args.as_slice());
        FunctionBuilder { ty: ty, args: args, locals: locals, cb: cb }
    }
}

/// Indices follow insertion order: in a run of insertions into one index space that
/// starts empty, where each insertion returns the length of the space before it and
/// appends its item (as every `add_*` and `new_*` method of `ModuleBuilder` ensures), the
/// k-th insertion returns k and the space ends up holding the items in insertion order.
pub proof fn lemma_indices_follow_insertion_order<T>(
    states: Seq<Seq<T>>,
    items: Seq<T>,
    returned: Seq<u32>,
)
    requires
        states.len() == items.len() + 1,
        returned.len() == items.len(),
        states[0].len() == 0,
        forall|k: int|
            0 <= k < items.len() ==> returned[k] == states[k].len() && #[trigger] states[k + 1]
                == states[k].push(items[k]),
    ensures
        forall|k: int| 0 <= k < items.len() ==> returned[k] == k,
        states[items.len() as int] == items,
{
    assert forall|k: int| 0 <= k <= items.len() implies #[trigger] states[k] == items.take(k) by {
        lemma_states_are_prefixes(states, items, k);
    }
    assert forall|k: int| 0 <= k < items.len() implies returned[k] == k by {
        assert(states[k + 1] == states[k].push(items[k]));
        assert(states[k] == items.take(k));
    }
    assert(items.take(items.len() as int) =~= items);
}

proof fn lemma_states_are_prefixes<T>(states: Seq<Seq<T>>, items: Seq<T>, k: int)
    requires
        states.len() == items.len() + 1,
        states[0].len() == 0,
        forall|j: int| 0 <= j < items.len() ==> #[trigger] states[j + 1] == states[j].push(items[j]),
        0 <= k <= items.len(),
    ensures
        states[k] == items.take(k),
    decreases k,
{
    if k == 0 {
        assert(states[0] =~= items.take(0));
    } else {
        lemma_states_are_prefixes(states, items, k - 1);
        assert(states[(k - 1) + 1] == states[k - 1].push(items[k - 1]));
        assert(items.take(k) =~= items.take(k - 1).push(items[k - 1]));
    }
}

/// Declarations and bodies stay paired: in a run of `new_function` calls from a builder
/// whose declarations and bodies are equally many, each call appending one declaration and
/// one body (as `new_function` ensures), both sequences stay equally long after every call,
/// and the k-th declaration and the k-th body added come from the same call.
pub proof fn lemma_function_code_pairing(
    states: Seq<Module>,
    sigs: Seq<TypeIndex>,
    bodies: Seq<FunctionBody>,
)
    requires
        states.len() == bodies.len() + 1,
        sigs.len() == bodies.len(),
        opt_seq(states[0].functions).len() == opt_seq(states[0].codes).len(),
        forall|k: int|
            0 <= k < bodies.len() ==> opt_seq(#[trigger] states[k + 1].functions) == opt_seq(
                states[k].functions,
            ).push(Function(sigs[k])) && opt_seq(states[k + 1].codes) == opt_seq(
                states[k].codes,
            ).push(bodies[k]),
    ensures
        forall|k: int|
            0 <= k < states.len() ==> opt_seq(#[trigger] states[k].functions).len() == opt_seq(
                states[k].codes,
            ).len(),
        forall|k: int|
            0 <= k < bodies.len() ==> opt_seq(states[bodies.len() as int].functions)[opt_seq(
                states[0].functions,
            ).len() + k] == Function(#[trigger] sigs[k]) && opt_seq(
                states[bodies.len() as int].codes,
            )[opt_seq(states[0].functions).len() + k] == bodies[k],
{
    let n0 = opt_seq(states[0].functions).len();
    assert forall|k: int| 0 <= k < states.len() implies opt_seq(
        #[trigger] states[k].functions,
    ).len() == opt_seq(states[k].codes).len() by {
        lemma_pairing_upto(states, sigs, bodies, k);
    }
    lemma_pairing_upto(states, sigs, bodies, bodies.len() as int);
}

proof fn lemma_pairing_upto(
    states: Seq<Module>,
    sigs: Seq<TypeIndex>,
    bodies: Seq<FunctionBody>,
    k: int,
)
    requires
        states.len() == bodies.len() + 1,
        sigs.len() == bodies.len(),
        opt_seq(states[0].functions).len() == opt_seq(states[0].codes).len(),
        forall|i: int|
            0 <= i < bodies.len() ==> opt_seq(#[trigger] states[i + 1].functions) == opt_seq(
                states[i].functions,
            ).push(Function(sigs[i])) && opt_seq(states[i + 1].codes) == opt_seq(
                states[i].codes,
            ).push(bodies[i]),
        0 <= k < states.len(),
    ensures
        opt_seq(states[k].functions).len() == opt_seq(states[0].functions).len() + k,
        opt_seq(states[k].codes).len() == opt_seq(states[0].functions).len() + k,
        forall|j: int|
            0 <= j < k ==> opt_seq(states[k].functions)[opt_seq(states[0].functions).len() + j]
                == Function(#[trigger] sigs[j]) && opt_seq(states[k].codes)[opt_seq(
                states[0].functions,
            ).len() + j] == bodies[j],
    decreases k,
{
    if k > 0 {
        let n0 = opt_seq(states[0].functions).len();
        lemma_pairing_upto(states, sigs, bodies, k - 1);
        let pf = opt_seq(states[k - 1].functions);
        let pc = opt_seq(states[k - 1].codes);
        assert(opt_seq(states[(k - 1) + 1].functions) == pf.push(Function(sigs[k - 1])));
        assert(opt_seq(states[k].codes) == pc.push(bodies[k - 1]));
        assert forall|j: int| 0 <= j < k implies opt_seq(states[k].functions)[n0 + j] == Function(
            #[trigger] sigs[j],
        ) && opt_seq(states[k].codes)[n0 + j] == bodies[j] by {
            if j < k - 1 {
                assert(pf[n0 + j] == Function(sigs[j]));
            }
        }
    }
}

} // verus!
