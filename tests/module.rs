use web_assembler::builder::{
    CodeBuilder, Export, FunctionBuilder, Import, ModuleBuilder, NewFunction, NewMemory,
    NewTable,
};
use web_assembler::{
    BlockType, BrTarget, Dump, ElemSegment, ElemType, ExportKind, FuncType, FunctionBody,
    FunctionIndex, FunctionSpaceIndex, GlobalType, ImportKind, ImportedFunctionIndex,
    InitExpr, InnerFunctionSpaceIndex, LocalEntry, MemoryImmediate, MemoryType, Op,
    ResizableLimits, TableIndex, TableType, TypeIndex, ValueType,
};

const HEADER: [u8; 8] = [0x00, 0x61, 0x73, 0x6d, 0x01, 0x00, 0x00, 0x00];

fn i32_to_i32() -> FuncType {
    FuncType { params: vec![ValueType::I32], ret: Some(ValueType::I32) }
}

fn dump_of<T: Dump>(x: &T) -> Vec<u8> {
    let mut buf = Vec::new();
    let n = x.dump(&mut buf);
    assert_eq!(n, buf.len());
    buf
}

#[test]
fn empty_module_is_only_the_header() {
    let module = ModuleBuilder::new().build();
    assert_eq!(dump_of(&module), HEADER.to_vec());
}

#[test]
fn identity_function_module_bytes() {
    let mut mb = ModuleBuilder::new();
    let f = FunctionBuilder::new(i32_to_i32())
        .code(|cb, args| cb.get_local(args[0]).return_())
        .build();
    let fidx = mb.new_function(f);
    assert_eq!(*fidx, 0);
    let eidx = mb.export("id", fidx);
    assert_eq!(*eidx, 0);
    let module = mb.build();
    let mut expected = HEADER.to_vec();
    expected.extend_from_slice(&[0x01, 0x06, 0x01, 0x60, 0x01, 0x7f, 0x01, 0x7f]);
    expected.extend_from_slice(&[0x03, 0x02, 0x01, 0x00]);
    expected.extend_from_slice(&[0x07, 0x06, 0x01, 0x02, b'i', b'd', 0x00, 0x00]);
    expected.extend_from_slice(&[0x0a, 0x07, 0x01, 0x05, 0x00, 0x20, 0x00, 0x0f, 0x0b]);
    assert_eq!(dump_of(&module), expected);
}

#[test]
fn resolving_calls_adds_the_function_imports() {
    let call = Op::Call { index: FunctionIndex(0).into() };
    assert_eq!(dump_of(&call), vec![0x10, 0x00]);
    let mut body = FunctionBody {
        locals: vec![],
        code: CodeBuilder::new().call(FunctionIndex(0).into()).i32_add().build(),
        resolved: false,
    };
    body.resolve_functions(2);
    assert!(body.resolved);
    assert_eq!(dump_of(&body.code.0[0]), vec![0x10, 0x02]);
    assert_eq!(dump_of(&body.code.0[1]), vec![0x6a]);

    let mut op = Op::Call { index: FunctionIndex(5).into() };
    op.resolve_functions(3);
    assert_eq!(dump_of(&op), vec![0x10, 0x08]);
    let mut imported = Op::Call {
        index: FunctionSpaceIndex(InnerFunctionSpaceIndex::Import(ImportedFunctionIndex(1))),
    };
    imported.resolve_functions(3);
    assert_eq!(dump_of(&imported), vec![0x10, 0x01]);
}

#[test]
fn module_without_imports_has_no_import_section() {
    let mut mb = ModuleBuilder::new();
    mb.add_type(i32_to_i32());
    let bytes = dump_of(&mb.build());
    assert_eq!(&bytes[..8], &HEADER);
    assert_eq!(&bytes[8..], &[0x01, 0x06, 0x01, 0x60, 0x01, 0x7f, 0x01, 0x7f]);

    let mut mb = ModuleBuilder::new();
    mb.import("env", "f", TypeIndex::new(0));
    let bytes = dump_of(&mb.build());
    assert_eq!(&bytes[8..], &[0x02, 0x09, 0x01, 0x03, b'e', b'n', b'v', 0x01, b'f', 0x00, 0x00]);
}

#[test]
fn indices_are_handed_out_in_insertion_order() {
    let mut mb = ModuleBuilder::new();
    for k in 0..5u32 {
        assert_eq!(*mb.add_type(i32_to_i32()), k);
    }
    for k in 0..3u32 {
        assert_eq!(*mb.new_global(GlobalType { content: ValueType::I64, mutable: k == 1 }, CodeBuilder::new().build()), k);
    }
    assert_eq!(*mb.new_table(ElemType::AnyFunc, 1..2), 0);
    assert_eq!(*mb.new_table(ElemType::AnyFunc, 3..), 1);
    assert_eq!(*mb.new_memory(1..4), 0);
    assert_eq!(*mb.new_memory(2..), 1);
}

#[test]
fn declarations_and_bodies_stay_paired() {
    let mut mb = ModuleBuilder::new();
    let t = mb.add_type(i32_to_i32());
    let a = NewFunction::new_function(&mut mb, t, FunctionBuilder::new(i32_to_i32()).build().1);
    let b = NewFunction::new_function(&mut mb, i32_to_i32(), FunctionBuilder::new(i32_to_i32()).build().1);
    let c = mb.new_function(FunctionBuilder::new(i32_to_i32()).code(|cb, _| cb.nop()).build());
    assert_eq!((*a, *b, *c), (0, 1, 2));
    let module = mb.build();
    let functions = module.functions.as_ref().unwrap();
    let codes = module.codes.as_ref().unwrap();
    assert_eq!(functions.len(), codes.len());
    assert_eq!(*functions[0].0, 0);
    assert_eq!(*functions[1].0, 1);
    assert_eq!(*functions[2].0, 2);
    assert_eq!(codes[2].code.0.len(), 1);
    assert_eq!(module.types.as_ref().unwrap().len(), 3);
}

#[test]
fn function_index_of_counts_function_imports() {
    let mut mb = ModuleBuilder::new();
    let i0 = mb.import("m", "f", TypeIndex::new(0));
    let i1 = mb.import("m", "mem", MemoryType { limits: ResizableLimits::new(1) });
    let i2 = mb.import("m", "g", TypeIndex::new(0));
    let module = mb.build();
    assert!(module.imports.as_ref().unwrap()[1].kind.is_memory());
    let expect = |n| FunctionSpaceIndex(InnerFunctionSpaceIndex::Import(ImportedFunctionIndex(n)));
    assert_eq!(module.function_index_of(i0), Ok(expect(0)));
    assert_eq!(module.function_index_of(i2), Ok(expect(1)));
    assert_eq!(module.function_index_of(i1), Err(i1));
    let no_imports = ModuleBuilder::new().build();
    assert_eq!(no_imports.function_index_of(i0), Err(i0));
}

#[test]
fn import_kinds() {
    let f = ImportKind::Function(TypeIndex::new(0));
    let t = ImportKind::Table(TableType { element: ElemType::AnyFunc, limits: ResizableLimits::new(0) });
    let m = ImportKind::Memory(MemoryType { limits: ResizableLimits::new(0) });
    let g = ImportKind::Global(GlobalType { content: ValueType::F32, mutable: false });
    assert!(f.is_function() && !f.is_table() && !f.is_memory() && !f.is_global());
    assert!(t.is_table() && !t.is_function());
    assert!(m.is_memory() && !m.is_global());
    assert!(g.is_global() && !g.is_memory());
    assert_eq!(dump_of(&t), vec![0x01, 0x70, 0x00, 0x00]);
    assert_eq!(dump_of(&g), vec![0x03, 0x7d, 0x00]);
}

#[test]
fn limits_derive_the_maximum_flag() {
    assert_eq!(dump_of(&ResizableLimits::new(1)), vec![0x00, 0x01]);
    assert_eq!(dump_of(&ResizableLimits::new(1).max(300)), vec![0x01, 0x01, 0xac, 0x02]);
    assert_eq!(dump_of(&ResizableLimits::new(1).flags(1)), vec![0x00, 0x01]);
    assert_eq!(dump_of(&ResizableLimits::new(1).flags(2).max(3)), vec![0x03, 0x01, 0x03]);
}

#[test]
fn type_encodings() {
    assert_eq!(dump_of(&ValueType::I64), vec![0x7e]);
    assert_eq!(dump_of(&ValueType::F64), vec![0x7c]);
    assert_eq!(dump_of(&BlockType(None)), vec![0x40]);
    assert_eq!(dump_of(&BlockType(Some(ValueType::F32))), vec![0x7d]);
    let sig = FuncType { params: vec![ValueType::I32, ValueType::F64], ret: None };
    assert_eq!(dump_of(&sig), vec![0x60, 0x02, 0x7f, 0x7c, 0x00]);
    assert_eq!(dump_of(&LocalEntry { count: 3, ty: ValueType::I64 }), vec![0x03, 0x7e]);
}

#[test]
fn instruction_encodings() {
    let code = CodeBuilder::new()
        .block(BlockType(None))
        .br_if(1)
        .br_table(vec![0, 1], 2)
        .call_indirect(4, false)
        .i32_load(16)
        .i64_store(0)
        .current_memory(false)
        .constant(-3256i32)
        .constant(5i64)
        .f32_const_bits(0x3f80_0000)
        .f64_const_bits(0x3ff0_0000_0000_0000)
        .i32_add()
        .f64_reinterpret_i64()
        .end()
        .build();
    let expected = vec![
        0x02, 0x40, 0x0d, 0x01, 0x0e, 0x02, 0x00, 0x01, 0x02, 0x11, 0x04, 0x00, 0x28, 0x05,
        0x10, 0x37, 0x06, 0x00, 0x3f, 0x00, 0x41, 0xc8, 0x66, 0x42, 0x05, 0x43, 0x00, 0x00,
        0x80, 0x3f, 0x44, 0, 0, 0, 0, 0, 0, 0xf0, 0x3f, 0x6a, 0xbf, 0x0b,
    ];
    assert_eq!(dump_of(&code), expected);
    let imm = MemoryImmediate { flags: 2, offset: 128 };
    assert_eq!(dump_of(&imm), vec![0x02, 0x80, 0x01]);
    let t = BrTarget { table: vec![], default_target: 0 };
    assert_eq!(dump_of(&t), vec![0x00, 0x00]);
}

#[test]
fn function_builder_locals() {
    let mut fb = FunctionBuilder::new(FuncType {
        params: vec![ValueType::I32, ValueType::I32],
        ret: None,
    });
    let l = fb.new_local(ValueType::I64);
    assert_eq!(*l, 2);
    let ls = fb.new_locals(vec![ValueType::F32, ValueType::F64]);
    assert_eq!(ls.iter().map(|i| **i).collect::<Vec<u32>>(), vec![3, 4]);
    let (ty, body) = fb.code(|cb, args| cb.get_local(args[1]).set_local(l)).build();
    assert_eq!(ty.params.len(), 2);
    assert!(!body.resolved);
    assert_eq!(
        dump_of(&body),
        vec![0x0c, 0x03, 0x01, 0x7e, 0x01, 0x7d, 0x01, 0x7c, 0x20, 0x01, 0x21, 0x02, 0x0b]
    );
}

#[test]
fn segments_globals_and_start() {
    let mut mb = ModuleBuilder::new();
    let t = mb.add_type(FuncType { params: vec![], ret: None });
    let f = NewFunction::new_function(&mut mb, t, FunctionBuilder::new(FuncType { params: vec![], ret: None }).build().1);
    let table = mb.new_table(ElemType::AnyFunc, 1..1);
    let mem = mb.new_memory(1..);
    let g = mb.new_global(
        GlobalType { content: ValueType::I32, mutable: true },
        CodeBuilder::new().constant(7i32).end().build(),
    );
    mb.add_element(ElemSegment {
        index: table,
        offset: InitExpr(CodeBuilder::new().constant(0i32).end().build()),
        elems: vec![f.into()],
    });
    let d = mb.new_data(mem, CodeBuilder::new().constant(8i32).end().build(), vec![0xaa, 0xbb]);
    assert_eq!(*d, 0);
    mb.export("t", table);
    mb.export("m", mem);
    mb.export("g", g);
    mb.start(f);
    let module = mb.build();
    match &module.exports.as_ref().unwrap()[2].kind {
        ExportKind::Global(i) => assert_eq!(**i, 0),
        _ => panic!("expected a global export"),
    }
    let bytes = dump_of(&module);
    let mut expected = HEADER.to_vec();
    expected.extend_from_slice(&[0x01, 0x04, 0x01, 0x60, 0x00, 0x00]);
    expected.extend_from_slice(&[0x03, 0x02, 0x01, 0x00]);
    expected.extend_from_slice(&[0x04, 0x05, 0x01, 0x70, 0x01, 0x01, 0x01]);
    expected.extend_from_slice(&[0x05, 0x03, 0x01, 0x00, 0x01]);
    expected.extend_from_slice(&[0x06, 0x06, 0x01, 0x7f, 0x01, 0x41, 0x07, 0x0b]);
    expected.extend_from_slice(&[
        0x07, 0x0d, 0x03, 0x01, b't', 0x01, 0x00, 0x01, b'm', 0x02, 0x00, 0x01, b'g', 0x03, 0x00,
    ]);
    expected.extend_from_slice(&[0x08, 0x01, 0x00]);
    expected.extend_from_slice(&[0x09, 0x07, 0x01, 0x00, 0x41, 0x00, 0x0b, 0x01, 0x00]);
    expected.extend_from_slice(&[0x0a, 0x04, 0x01, 0x02, 0x00, 0x0b]);
    expected.extend_from_slice(&[0x0b, 0x08, 0x01, 0x00, 0x41, 0x08, 0x0b, 0x02, 0xaa, 0xbb]);
    assert_eq!(bytes, expected);
    let _ = TableIndex::new(0);
}

#[test]
fn start_and_calls_address_the_function_space() {
    let mut mb = ModuleBuilder::new();
    let t = mb.add_type(FuncType { params: vec![], ret: None });
    mb.import("env", "f", t);
    let f = NewFunction::new_function(
        &mut mb,
        t,
        FunctionBuilder::new(FuncType { params: vec![], ret: None })
            .code(|cb, _| cb.call(FunctionIndex(0).into()))
            .build()
            .1,
    );
    assert_eq!(*f, 0);
    mb.start(f);
    let module = mb.build();
    let codes = module.codes.as_ref().unwrap();
    assert!(codes[0].resolved);
    assert_eq!(dump_of(&codes[0].code.0[0]), vec![0x10, 0x01]);
    let bytes = dump_of(&module);
    let start = bytes.windows(3).position(|w| w == [0x08, 0x01, 0x01]);
    assert!(start.is_some());
    assert_eq!(&bytes[bytes.len() - 11..], &[0x08, 0x01, 0x01, 0x0a, 0x06, 0x01, 0x04, 0x00, 0x10, 0x01, 0x0b]);
}

#[test]
fn build_keeps_bodies_that_were_already_resolved() {
    let mut mb = ModuleBuilder::new();
    let t = mb.add_type(FuncType { params: vec![], ret: None });
    mb.import("env", "f", t);
    let mut body = FunctionBuilder::new(FuncType { params: vec![], ret: None })
        .code(|cb, _| cb.call(FunctionIndex(0).into()))
        .build()
        .1;
    body.resolve_functions(1);
    NewFunction::new_function(&mut mb, t, body);
    let module = mb.build();
    assert_eq!(dump_of(&module.codes.as_ref().unwrap()[0].code.0[0]), vec![0x10, 0x01]);
}
