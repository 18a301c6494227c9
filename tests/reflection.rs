use vulkano_shaders::capability::{capability_name, CapabilityRequirement, HostFeature};
use vulkano_shaders::entry_point::{reflect, write_entry_point};
use vulkano_shaders::module::{
    find_first, Capability, Dim, ExecutionModel, Instruction, Key, Module, StorageClass,
};
use vulkano_shaders::names::{member_name_from_id, name_from_id};
use vulkano_shaders::types::{array_length, type_from_id, ImageDescriptor, Member, TypeDescriptor};
use vulkano_shaders::Error;

fn module(instructions: Vec<Instruction>) -> Module {
    Module { instructions }
}

fn float(id: u32) -> Instruction {
    Instruction::TypeFloat { result_id: id, width: 32 }
}

fn int_type(id: u32) -> Instruction {
    Instruction::TypeInt { result_id: id, width: 32, signedness: true }
}

fn vector(id: u32, component_id: u32, count: u32) -> Instruction {
    Instruction::TypeVector { result_id: id, component_id, count }
}

fn array_of(element: TypeDescriptor, length: u64) -> TypeDescriptor {
    TypeDescriptor::Array { element: Box::new(element), length }
}

fn f32_desc() -> TypeDescriptor {
    TypeDescriptor::Float { width: 32 }
}

fn i32_desc() -> TypeDescriptor {
    TypeDescriptor::Int { width: 32, signed: true }
}

fn input(var: u32, ty: u32) -> Instruction {
    Instruction::Variable {
        result_type_id: ty,
        result_id: var,
        storage_class: StorageClass::Input,
        initializer: None,
    }
}

fn output(var: u32, ty: u32) -> Instruction {
    Instruction::Variable {
        result_type_id: ty,
        result_id: var,
        storage_class: StorageClass::Output,
        initializer: None,
    }
}

fn entry(execution: ExecutionModel, name: &str, interface: Vec<u32>) -> Instruction {
    Instruction::EntryPoint { execution, id: 100, name: name.to_string(), interface }
}

fn two_member_struct() -> Vec<Instruction> {
    vec![
        int_type(1),
        float(2),
        vector(3, 2, 3),
        Instruction::TypeStruct { result_id: 4, member_types: vec![1, 3] },
    ]
}

#[test]
fn scalar_resolution_is_stable() {
    let m = module(vec![
        Instruction::TypeVoid { result_id: 1 },
        Instruction::TypeBool { result_id: 2 },
        Instruction::TypeInt { result_id: 3, width: 16, signedness: false },
        Instruction::TypeFloat { result_id: 4, width: 64 },
    ]);
    let expected = [
        TypeDescriptor::Void,
        TypeDescriptor::Bool,
        TypeDescriptor::Int { width: 16, signed: false },
        TypeDescriptor::Float { width: 64 },
    ];
    for (id, want) in (1u32..=4).zip(expected) {
        let first = type_from_id(&m, id).unwrap();
        let second = type_from_id(&m, id).unwrap();
        assert_eq!(first, second);
        assert_eq!(first, want);
    }
}

#[test]
fn vector_resolves_to_array_of_component() {
    let m = module(vec![float(1), vector(2, 1, 4)]);
    let v = type_from_id(&m, 2).unwrap();
    assert_eq!(v, array_of(type_from_id(&m, 1).unwrap(), 4));
}

#[test]
fn struct_without_names_keeps_order() {
    let m = module(two_member_struct());
    let expected = TypeDescriptor::Struct {
        name: "__unnamed".to_string(),
        members: vec![
            Member { name: "__unnamed".to_string(), ty: i32_desc() },
            Member { name: "__unnamed".to_string(), ty: array_of(f32_desc(), 3) },
        ],
    };
    assert_eq!(type_from_id(&m, 4).unwrap(), expected);
}

#[test]
fn struct_with_names() {
    let mut ins = two_member_struct();
    ins.push(Instruction::Name { target_id: 4, name: "Light".to_string() });
    ins.push(Instruction::MemberName { target_id: 4, member: 1, name: "color".to_string() });
    ins.push(Instruction::MemberName { target_id: 4, member: 0, name: "power".to_string() });
    let m = module(ins);
    let expected = TypeDescriptor::Struct {
        name: "Light".to_string(),
        members: vec![
            Member { name: "power".to_string(), ty: i32_desc() },
            Member { name: "color".to_string(), ty: array_of(f32_desc(), 3) },
        ],
    };
    assert_eq!(type_from_id(&m, 4).unwrap(), expected);
}

fn array_module(data: Vec<u32>) -> Module {
    module(vec![
        float(1),
        Instruction::Constant { result_type_id: 9, result_id: 5, data },
        Instruction::TypeArray { result_id: 2, type_id: 1, length_id: 5 },
    ])
}

#[test]
fn array_length_from_one_word() {
    let m = array_module(vec![4]);
    assert_eq!(type_from_id(&m, 2).unwrap(), array_of(f32_desc(), 4));
}

#[test]
fn array_length_from_two_words() {
    let m = array_module(vec![4, 0]);
    assert_eq!(type_from_id(&m, 2).unwrap(), array_of(f32_desc(), 4));
}

#[test]
fn array_length_words_are_little_endian() {
    assert_eq!(array_length(&vec![]), 0);
    assert_eq!(array_length(&vec![7, 1]), (1u64 << 32) | 7);
    assert_eq!(array_length(&vec![0xffff_ffff, 0xffff_ffff]), u64::MAX);
    assert_eq!(array_length(&vec![3, 2, 1]), (2u64 << 32) | 3);
}

#[test]
fn array_without_length_constant_is_malformed() {
    let m = module(vec![float(1), Instruction::TypeArray { result_id: 2, type_id: 1, length_id: 5 }]);
    assert_eq!(type_from_id(&m, 2), Err(Error::MalformedModule(5)));
}

#[test]
fn runtime_array_and_opaque() {
    let m = module(vec![
        float(1),
        Instruction::TypeRuntimeArray { result_id: 2, type_id: 1 },
        Instruction::TypeOpaque { result_id: 3, name: "handle".to_string() },
    ]);
    assert_eq!(
        type_from_id(&m, 2).unwrap(),
        TypeDescriptor::RuntimeArray { element: Box::new(f32_desc()) }
    );
    assert_eq!(type_from_id(&m, 3).unwrap(), TypeDescriptor::Opaque);
}

#[test]
fn image_flags_carried_and_sampled_image_delegates() {
    let m = module(vec![
        float(1),
        Instruction::TypeImage {
            result_id: 2,
            sampled_type_id: 1,
            dim: Dim::Dim2D,
            depth: Some(true),
            arrayed: true,
            ms: false,
            sampled: Some(true),
            format: 0,
            access: None,
        },
        Instruction::TypeSampledImage { result_id: 3, image_type_id: 2 },
    ]);
    let image = TypeDescriptor::Image(ImageDescriptor {
        sampled_type_id: 1,
        dim: Dim::Dim2D,
        depth: Some(true),
        arrayed: true,
        multisampled: false,
        sampled: Some(true),
        format: 0,
        access: None,
    });
    assert_eq!(type_from_id(&m, 2).unwrap(), image);
    assert_eq!(type_from_id(&m, 3).unwrap(), image);
}

#[test]
fn pointer_to_struct_is_transparent() {
    let mut ins = two_member_struct();
    ins.push(Instruction::TypePointer { result_id: 5, storage_class: StorageClass::Uniform, type_id: 4 });
    let m = module(ins);
    assert_eq!(type_from_id(&m, 5).unwrap(), type_from_id(&m, 4).unwrap());
}

#[test]
fn absent_type_is_malformed() {
    let m = module(vec![float(1), Instruction::Name { target_id: 7, name: "x".to_string() }]);
    assert_eq!(type_from_id(&m, 7), Err(Error::MalformedModule(7)));
    assert_eq!(type_from_id(&module(vec![]), 1), Err(Error::MalformedModule(1)));
}

#[test]
fn member_of_absent_type_is_malformed() {
    let m = module(vec![vector(2, 1, 4)]);
    assert_eq!(type_from_id(&m, 2), Err(Error::MalformedModule(1)));
}

#[test]
fn cyclic_struct_is_reported() {
    let m = module(vec![
        Instruction::TypeStruct { result_id: 1, member_types: vec![2] },
        Instruction::TypePointer { result_id: 2, storage_class: StorageClass::Function, type_id: 1 },
    ]);
    assert!(matches!(type_from_id(&m, 1), Err(Error::CyclicType(_))));
    let self_vector = module(vec![vector(3, 3, 2)]);
    assert_eq!(type_from_id(&self_vector, 3), Err(Error::CyclicType(3)));
}

#[test]
fn names_fall_back_to_placeholder() {
    let m = module(vec![
        Instruction::Name { target_id: 1, name: "first".to_string() },
        Instruction::Name { target_id: 1, name: "second".to_string() },
        Instruction::Name { target_id: 2, name: String::new() },
        Instruction::Name { target_id: 2, name: "late".to_string() },
        Instruction::MemberName { target_id: 1, member: 0, name: "m0".to_string() },
    ]);
    assert_eq!(name_from_id(&m, 1), "first");
    assert_eq!(name_from_id(&m, 2), "__unnamed");
    assert_eq!(name_from_id(&m, 3), "__unnamed");
    assert_eq!(member_name_from_id(&m, 1, 0), "m0");
    assert_eq!(member_name_from_id(&m, 1, 1), "__unnamed");
    assert_eq!(member_name_from_id(&m, 2, 0), "__unnamed");
}

#[test]
fn find_first_returns_earliest_match() {
    let m = module(vec![
        Instruction::Other { opcode: 3 },
        float(1),
        Instruction::TypeBool { result_id: 1 },
    ]);
    assert_eq!(find_first(&m, Key::TypeDef(1)), Some(1));
    assert_eq!(find_first(&m, Key::Constant(1)), None);
}

#[test]
fn vertex_inputs_in_table_order() {
    let m = module(vec![
        float(1),
        vector(2, 1, 4),
        input(10, 1),
        input(11, 2),
        output(12, 1),
        entry(ExecutionModel::Vertex, "main", vec![11, 10, 12]),
    ]);
    let ep = write_entry_point(&m, &m.instructions[5]).unwrap();
    assert_eq!(ep.stage, ExecutionModel::Vertex);
    assert_eq!(ep.name, "main");
    assert_eq!(ep.interface, Some(vec![f32_desc(), array_of(f32_desc(), 4)]));
}

#[test]
fn fragment_outputs_only() {
    let m = module(vec![
        float(1),
        vector(2, 1, 4),
        input(10, 1),
        output(11, 2),
        entry(ExecutionModel::Fragment, "frag", vec![10, 11]),
    ]);
    let ep = write_entry_point(&m, &m.instructions[4]).unwrap();
    assert_eq!(ep.interface, Some(vec![array_of(f32_desc(), 4)]));
}

#[test]
fn other_stages_have_no_interface() {
    let m = module(vec![float(1), input(10, 1), entry(ExecutionModel::GLCompute, "cs", vec![10])]);
    let ep = write_entry_point(&m, &m.instructions[2]).unwrap();
    assert_eq!(ep.stage, ExecutionModel::GLCompute);
    assert_eq!(ep.name, "cs");
    assert_eq!(ep.interface, None);
}

#[test]
fn kernel_entry_point_is_unsupported() {
    let m = module(vec![entry(ExecutionModel::Kernel, "k", vec![])]);
    assert_eq!(write_entry_point(&m, &m.instructions[0]), Err(Error::UnsupportedConstruct));
}

#[test]
fn interface_type_missing_is_malformed() {
    let m = module(vec![input(10, 1), entry(ExecutionModel::Vertex, "main", vec![10])]);
    assert_eq!(write_entry_point(&m, &m.instructions[1]), Err(Error::MalformedModule(1)));
}

#[test]
fn capability_requirements() {
    assert_eq!(
        capability_name(&Capability::Geometry),
        CapabilityRequirement::RequiresFeature(HostFeature::GeometryShader)
    );
    assert_eq!(HostFeature::GeometryShader.name(), "geometryShader");
    assert_eq!(capability_name(&Capability::Matrix), CapabilityRequirement::AlwaysAvailable);
    assert_eq!(capability_name(&Capability::Kernel), CapabilityRequirement::Unsupported);
    assert_eq!(
        capability_name(&Capability::GeometryPointSize),
        CapabilityRequirement::RequiresFeature(HostFeature::ShaderTessellationAndGeometryPointSize)
    );
    assert_eq!(HostFeature::MultiViewport.name(), "multiViewport");
}

#[test]
fn reflect_whole_module() {
    let m = module(vec![
        Instruction::Capability(Capability::Shader),
        Instruction::Capability(Capability::Geometry),
        float(1),
        input(10, 1),
        output(11, 1),
        entry(ExecutionModel::Vertex, "vs", vec![10]),
        entry(ExecutionModel::Fragment, "fs", vec![11]),
    ]);
    let refl = reflect(&m).unwrap();
    assert_eq!(
        refl.capabilities,
        vec![
            (Capability::Shader, CapabilityRequirement::AlwaysAvailable),
            (Capability::Geometry, CapabilityRequirement::RequiresFeature(HostFeature::GeometryShader)),
        ]
    );
    assert_eq!(refl.entry_points.len(), 2);
    assert_eq!(refl.entry_points[0].name, "vs");
    assert_eq!(refl.entry_points[0].interface, Some(vec![f32_desc()]));
    assert_eq!(refl.entry_points[1].name, "fs");
    assert_eq!(refl.entry_points[1].interface, Some(vec![f32_desc()]));
}

#[test]
fn reflect_stops_at_first_failing_entry_point() {
    let m = module(vec![
        entry(ExecutionModel::Vertex, "vs", vec![10]),
        input(10, 7),
        entry(ExecutionModel::Kernel, "k", vec![]),
    ]);
    assert_eq!(reflect(&m), Err(Error::MalformedModule(7)));
}

#[test]
fn reflect_fails_on_unsupported_capability() {
    let m = module(vec![
        Instruction::Capability(Capability::Shader),
        Instruction::Capability(Capability::Kernel),
        float(1),
        input(10, 1),
        entry(ExecutionModel::Vertex, "vs", vec![10]),
    ]);
    assert_eq!(reflect(&m), Err(Error::UnsupportedConstruct));
    let only = module(vec![Instruction::Capability(Capability::Int8)]);
    assert_eq!(reflect(&only), Err(Error::UnsupportedConstruct));
}

#[test]
fn unsupported_capability_wins_over_entry_point_error() {
    let m = module(vec![
        entry(ExecutionModel::Vertex, "vs", vec![10]),
        input(10, 7),
        Instruction::Capability(Capability::Linkage),
    ]);
    assert_eq!(reflect(&m), Err(Error::UnsupportedConstruct));
}

#[test]
fn undeclared_interface_variable_is_malformed() {
    let m = module(vec![
        float(1),
        input(10, 1),
        entry(ExecutionModel::Vertex, "main", vec![10, 12, 13]),
        entry(ExecutionModel::Fragment, "frag", vec![14]),
    ]);
    assert_eq!(write_entry_point(&m, &m.instructions[2]), Err(Error::MalformedModule(12)));
    assert_eq!(write_entry_point(&m, &m.instructions[3]), Err(Error::MalformedModule(14)));
    assert_eq!(reflect(&m), Err(Error::MalformedModule(12)));
}

#[test]
fn undeclared_interface_id_ignored_outside_vertex_and_fragment() {
    let m = module(vec![entry(ExecutionModel::GLCompute, "cs", vec![10])]);
    assert_eq!(write_entry_point(&m, &m.instructions[0]).unwrap().interface, None);
}
