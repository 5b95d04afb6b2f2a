use typegen::ast::{DataType, Operator, Statement, Variable};
use typegen::constant_folder::{evaluate_constant_int, extract_value};
use typegen::data_type_generator::{
    create_nested_array_type, generate_data_type, generate_data_type_stubs, get_array_dimensions,
    get_single_array_dimension,
};
use typegen::dimensions::Dimension;
use typegen::errors::GenError;
use typegen::index::{DataTypeInformation, Index};
use typegen::instance_struct_generator::{get_struct_instance_name, InstanceStructGenerator};
use typegen::typerep::{Builder, Module, TypeContext, TypeRep, ValueRep};

fn lit(value: i32) -> Statement {
    Statement::LiteralInteger { value }
}

fn neg(s: Statement) -> Statement {
    Statement::UnaryExpression { operator: Operator::Minus, value: Box::new(s) }
}

fn range(start: Statement, end: Statement) -> Statement {
    Statement::RangeStatement { start: Box::new(start), end: Box::new(end) }
}

fn int_type(name: &str, size: u32) -> (String, DataTypeInformation) {
    (
        name.to_string(),
        DataTypeInformation::Integer {
            signed: true,
            size,
            generated_type: TypeRep::IntType { size },
        },
    )
}

fn index_with_int() -> Index {
    let mut index = Index::new();
    let (name, info) = int_type("INT", 16);
    index.associate_type(&name, info);
    index
}

#[test]
fn fold_single_minus() {
    assert_eq!(evaluate_constant_int(&neg(lit(5))), Some(-5));
}

#[test]
fn fold_double_minus_is_identity() {
    // Unary composition is arithmetic: the two signs cancel.
    assert_eq!(evaluate_constant_int(&neg(neg(lit(5)))), Some(5));
}

#[test]
fn fold_plus_keeps_value() {
    let e = Statement::UnaryExpression {
        operator: Operator::Plus,
        value: Box::new(lit(-3)),
    };
    assert_eq!(evaluate_constant_int(&e), Some(-3));
    assert_eq!(extract_value(&lit(12)), Some(12));
}

#[test]
fn fold_non_literal_fails() {
    let e = Statement::Reference { name: "x".to_string() };
    assert_eq!(evaluate_constant_int(&e), None);
}

#[test]
fn fold_negating_min_fails() {
    assert_eq!(evaluate_constant_int(&neg(lit(i32::MIN))), None);
}

#[test]
fn unfoldable_bound_defaults_to_zero() {
    let bounds = range(Statement::Reference { name: "x".to_string() }, lit(7));
    let d = get_single_array_dimension(&bounds).unwrap();
    assert_eq!(d, Dimension { start_offset: 0, end_offset: 7 });
}

#[test]
fn non_range_bound_is_an_error() {
    assert_eq!(get_single_array_dimension(&lit(7)), Err(GenError::ExpectedRange));
    assert_eq!(
        get_array_dimensions(&Statement::Reference { name: "x".to_string() }),
        Err(GenError::ExpectedRange)
    );
}

#[test]
fn dimension_lengths() {
    assert_eq!(Dimension { start_offset: 1, end_offset: 3 }.get_length(), 3);
    assert_eq!(Dimension { start_offset: -2, end_offset: 2 }.get_length(), 5);
    // Degenerate dimensions clamp instead of panicking.
    assert_eq!(Dimension { start_offset: 5, end_offset: 1 }.get_length(), 0);
    assert_eq!(
        Dimension { start_offset: i32::MIN, end_offset: i32::MAX }.get_length(),
        u32::MAX
    );
}

#[test]
fn nested_array_first_dimension_outermost() {
    // ARRAY[1..3, 1..2] OF T is array[3] of array[2] of T.
    let dims = vec![
        Dimension { start_offset: 1, end_offset: 3 },
        Dimension { start_offset: 1, end_offset: 2 },
    ];
    assert_eq!(dims[0].get_length(), 3);
    assert_eq!(dims[1].get_length(), 2);
    let nested = create_nested_array_type(TypeRep::IntType { size: 16 }, &dims);
    assert_eq!(
        nested,
        TypeRep::ArrayOf {
            element: Box::new(TypeRep::ArrayOf {
                element: Box::new(TypeRep::IntType { size: 16 }),
                len: 2,
            }),
            len: 3,
        }
    );
}

#[test]
fn array_stub_holds_dimensions_and_nested_type() {
    let mut context = TypeContext::new();
    let mut index = index_with_int();
    let decls = vec![DataType::ArrayType {
        name: "MyArr".to_string(),
        bounds: Statement::ExpressionList {
            expressions: vec![range(lit(1), lit(3)), range(lit(1), lit(2))],
        },
        referenced_type: "INT".to_string(),
    }];
    generate_data_type_stubs(&mut context, &mut index, &decls).unwrap();
    match index.find_type("MyArr").unwrap() {
        DataTypeInformation::Array { dimensions, generated_type, internal_type_information, .. } => {
            assert_eq!(dimensions.len(), 2);
            assert_eq!(dimensions[0].get_length(), 3);
            assert_eq!(dimensions[1].get_length(), 2);
            assert_eq!(
                *generated_type,
                TypeRep::ArrayOf {
                    element: Box::new(TypeRep::ArrayOf {
                        element: Box::new(TypeRep::IntType { size: 16 }),
                        len: 2,
                    }),
                    len: 3,
                }
            );
            match internal_type_information.as_ref() {
                DataTypeInformation::Integer { size, .. } => assert_eq!(*size, 16),
                other => panic!("unexpected element descriptor: {:?}", other),
            }
        }
        other => panic!("unexpected descriptor: {:?}", other),
    }
}

#[test]
fn array_of_unknown_element_type_fails() {
    let mut context = TypeContext::new();
    let mut index = Index::new();
    let decls = vec![DataType::ArrayType {
        name: "A".to_string(),
        bounds: range(lit(1), lit(2)),
        referenced_type: "NOPE".to_string(),
    }];
    assert_eq!(
        generate_data_type_stubs(&mut context, &mut index, &decls),
        Err(GenError::UnknownDatatype { name: "NOPE".to_string() })
    );
}

#[test]
fn empty_bounds_list_is_an_error() {
    let mut context = TypeContext::new();
    let mut index = index_with_int();
    let decls = vec![DataType::ArrayType {
        name: "A".to_string(),
        bounds: Statement::ExpressionList { expressions: vec![] },
        referenced_type: "INT".to_string(),
    }];
    assert_eq!(
        generate_data_type_stubs(&mut context, &mut index, &decls),
        Err(GenError::ExpectedRange)
    );
}

#[test]
fn enum_constants_are_zero_based_ordinals() {
    let mut context = TypeContext::new();
    let mut index = Index::new();
    let mut module = Module::new();
    let decls = vec![DataType::EnumType {
        name: "Color".to_string(),
        elements: vec!["RED".to_string(), "GREEN".to_string(), "BLUE".to_string()],
    }];
    generate_data_type_stubs(&mut context, &mut index, &decls).unwrap();
    // The enum itself is registered as a 32-bit signed integer.
    match index.find_type("Color").unwrap() {
        DataTypeInformation::Integer { signed, size, .. } => {
            assert!(*signed);
            assert_eq!(*size, 32);
        }
        other => panic!("unexpected descriptor: {:?}", other),
    }
    generate_data_type(&mut module, &mut context, &mut index, &decls).unwrap();
    assert_eq!(module.len(), 3);
    let expected = ["RED", "GREEN", "BLUE"];
    for (i, name) in expected.iter().enumerate() {
        let g = module.get(i);
        assert_eq!(g.name, name.to_string());
        assert_eq!(g.ty, TypeRep::IntType { size: 32 });
        assert_eq!(
            g.initial_value,
            Some(ValueRep::IntVal { size: 32, value: i as i64 })
        );
        assert_eq!(
            index.find_global_variable(name),
            Some(&ValueRep::GlobalRef { name: name.to_string() })
        );
    }
}

#[test]
fn struct_layout_and_default_aggregate() {
    let mut context = TypeContext::new();
    let mut index = index_with_int();
    // INT carries a registered default value of 7.
    index.associate_type_initial_value("INT", ValueRep::IntVal { size: 16, value: 7 });
    let members = vec![
        Variable {
            name: "a".to_string(),
            data_type: "INT".to_string(),
            initializer: Some(lit(42)),
        },
        Variable { name: "b".to_string(), data_type: "INT".to_string(), initializer: None },
    ];
    let decls = vec![DataType::StructType { name: "S".to_string(), variables: vec![] }];
    generate_data_type_stubs(&mut context, &mut index, &decls).unwrap();

    let mut generator = InstanceStructGenerator::new(&index);
    let rep = generator.generate_struct_type(&mut context, &members, "S").unwrap();
    assert_eq!(rep, TypeRep::StructRef { name: "S".to_string() });

    // The cell body lists the member types in declaration order.
    let body = context.find_struct_body("S").unwrap();
    assert_eq!(
        body.members,
        Some(vec![TypeRep::IntType { size: 16 }, TypeRep::IntType { size: 16 }])
    );

    // The staged default aggregate: explicit initializer, then the type's
    // own registered default.
    assert_eq!(
        generator.local_index.find_initial_value("S"),
        Some(&ValueRep::StructVal {
            struct_name: "S".to_string(),
            fields: vec![
                ValueRep::IntVal { size: 16, value: 42 },
                ValueRep::IntVal { size: 16, value: 7 },
            ],
        })
    );
    // Nothing is merged into the global index implicitly.
    assert_eq!(index.find_initial_value("S"), None);
}

#[test]
fn struct_member_without_registered_default_gets_generic_default() {
    let mut context = TypeContext::new();
    let mut index = index_with_int();
    let members = vec![Variable {
        name: "a".to_string(),
        data_type: "INT".to_string(),
        initializer: None,
    }];
    let decls = vec![DataType::StructType { name: "S".to_string(), variables: vec![] }];
    generate_data_type_stubs(&mut context, &mut index, &decls).unwrap();
    let mut generator = InstanceStructGenerator::new(&index);
    generator.generate_struct_type(&mut context, &members, "S").unwrap();
    assert_eq!(
        generator.local_index.find_initial_value("S"),
        Some(&ValueRep::StructVal {
            struct_name: "S".to_string(),
            fields: vec![ValueRep::IntVal { size: 16, value: 0 }],
        })
    );
}

#[test]
fn struct_with_unknown_member_type_fails() {
    let mut context = TypeContext::new();
    let mut index = Index::new();
    let decls = vec![DataType::StructType {
        name: "S".to_string(),
        variables: vec![Variable {
            name: "a".to_string(),
            data_type: "FOO".to_string(),
            initializer: None,
        }],
    }];
    generate_data_type_stubs(&mut context, &mut index, &decls).unwrap();
    let mut module = Module::new();
    let err = generate_data_type(&mut module, &mut context, &mut index, &decls).unwrap_err();
    assert_eq!(err, GenError::UnknownDatatype { name: "FOO".to_string() });
    assert_eq!(err.message(), "Unknown datatype 'FOO'");
}

#[test]
fn unlowerable_initializer_fails() {
    let mut context = TypeContext::new();
    let mut index = index_with_int();
    let decls = vec![DataType::StructType { name: "S".to_string(), variables: vec![] }];
    generate_data_type_stubs(&mut context, &mut index, &decls).unwrap();
    let members = vec![Variable {
        name: "a".to_string(),
        data_type: "INT".to_string(),
        initializer: Some(Statement::Reference { name: "other".to_string() }),
    }];
    let mut generator = InstanceStructGenerator::new(&index);
    assert_eq!(
        generator.generate_struct_type(&mut context, &members, "S"),
        Err(GenError::InvalidInitializer { member: "a".to_string() })
    );
}

#[test]
fn struct_without_stub_is_an_internal_error() {
    let mut context = TypeContext::new();
    let index = Index::new();
    let mut generator = InstanceStructGenerator::new(&index);
    assert_eq!(
        generator.generate_struct_type(&mut context, &vec![], "S"),
        Err(GenError::MissingStub { name: "S".to_string() })
    );
}

fn mutual_decls() -> Vec<DataType> {
    vec![
        DataType::StructType {
            name: "A".to_string(),
            variables: vec![Variable {
                name: "other".to_string(),
                data_type: "B".to_string(),
                initializer: None,
            }],
        },
        DataType::StructType {
            name: "B".to_string(),
            variables: vec![Variable {
                name: "other".to_string(),
                data_type: "A".to_string(),
                initializer: None,
            }],
        },
    ]
}

#[test]
fn mutually_referential_structs_generate_in_either_order() {
    for reverse in [false, true] {
        let mut context = TypeContext::new();
        let mut index = Index::new();
        let mut module = Module::new();
        let mut decls = mutual_decls();
        if reverse {
            decls.reverse();
        }
        generate_data_type_stubs(&mut context, &mut index, &decls).unwrap();
        // Both stub entries exist before any body is filled.
        assert!(matches!(
            index.find_type("A"),
            Some(DataTypeInformation::Struct { .. })
        ));
        assert!(matches!(
            index.find_type("B"),
            Some(DataTypeInformation::Struct { .. })
        ));
        assert_eq!(context.find_struct_body("A").unwrap().members, None);
        assert_eq!(context.find_struct_body("B").unwrap().members, None);

        generate_data_type(&mut module, &mut context, &mut index, &decls).unwrap();
        assert_eq!(
            context.find_struct_body("A").unwrap().members,
            Some(vec![TypeRep::StructRef { name: "B".to_string() }])
        );
        assert_eq!(
            context.find_struct_body("B").unwrap().members,
            Some(vec![TypeRep::StructRef { name: "A".to_string() }])
        );
    }
}

#[test]
fn alias_lookup_is_one_hop_not_flattened() {
    let mut context = TypeContext::new();
    let mut index = index_with_int();
    let decls = vec![
        DataType::SubRangeType {
            name: "MyInt".to_string(),
            referenced_type: "INT".to_string(),
            initializer: None,
        },
        DataType::SubRangeType {
            name: "MyInt2".to_string(),
            referenced_type: "MyInt".to_string(),
            initializer: None,
        },
    ];
    generate_data_type_stubs(&mut context, &mut index, &decls).unwrap();
    // One hop: the alias's immediately referenced entry, itself an alias.
    assert_eq!(
        index.find_type_information("MyInt2"),
        Some(DataTypeInformation::Alias {
            name: "MyInt".to_string(),
            referenced_type: "INT".to_string(),
        })
    );
    // A one-hop alias to a concrete type resolves to that type's descriptor.
    assert!(matches!(
        index.find_type_information("MyInt"),
        Some(DataTypeInformation::Integer { size: 16, .. })
    ));
}

#[test]
fn allocate_struct_instance_emits_named_local() {
    let mut context = TypeContext::new();
    let mut index = Index::new();
    let decls = vec![DataType::StructType { name: "prog".to_string(), variables: vec![] }];
    generate_data_type_stubs(&mut context, &mut index, &decls).unwrap();
    let generator = InstanceStructGenerator::new(&index);
    let mut builder = Builder::new();
    let handle = generator.allocate_struct_instance(&mut builder, "prog").unwrap();
    assert_eq!(handle, ValueRep::LocalRef { name: "prog_instance".to_string() });
    assert_eq!(builder.len(), 1);
    assert_eq!(builder.get(0).name, "prog_instance".to_string());
    assert_eq!(builder.get(0).ty, TypeRep::StructRef { name: "prog".to_string() });
    assert_eq!(get_struct_instance_name("prog"), "prog_instance".to_string());
}

#[test]
fn allocate_struct_instance_unknown_callable_is_an_error() {
    let index = Index::new();
    let generator = InstanceStructGenerator::new(&index);
    let mut builder = Builder::new();
    let err = generator.allocate_struct_instance(&mut builder, "nope").unwrap_err();
    assert_eq!(err, GenError::NoTypeAssociated { name: "nope".to_string() });
    assert_eq!(err.message(), "No type associated to nope");
    assert_eq!(builder.len(), 0);
}

#[test]
fn struct_member_of_struct_type_uses_registered_aggregate_default() {
    let mut context = TypeContext::new();
    let mut index = index_with_int();
    let decls = vec![
        DataType::StructType { name: "Inner".to_string(), variables: vec![] },
        DataType::StructType { name: "Outer".to_string(), variables: vec![] },
    ];
    generate_data_type_stubs(&mut context, &mut index, &decls).unwrap();
    // The caller merged Inner's default aggregate into the global index.
    let inner_default = ValueRep::StructVal {
        struct_name: "Inner".to_string(),
        fields: vec![ValueRep::IntVal { size: 16, value: 3 }],
    };
    index.associate_type_initial_value("Inner", inner_default.clone());

    let members = vec![Variable {
        name: "in_field".to_string(),
        data_type: "Inner".to_string(),
        initializer: None,
    }];
    let mut generator = InstanceStructGenerator::new(&index);
    generator.generate_struct_type(&mut context, &members, "Outer").unwrap();
    assert_eq!(
        generator.local_index.find_initial_value("Outer"),
        Some(&ValueRep::StructVal {
            struct_name: "Outer".to_string(),
            fields: vec![inner_default],
        })
    );
}

#[test]
fn single_range_bounds_give_one_dimension() {
    let dims = get_array_dimensions(&range(lit(0), lit(9))).unwrap();
    assert_eq!(dims, vec![Dimension { start_offset: 0, end_offset: 9 }]);
}

#[test]
fn error_messages() {
    assert_eq!(GenError::ExpectedRange.message(), "expected a range expression");
    assert_eq!(
        GenError::InvalidInitializer { member: "a".to_string() }.message(),
        "cannot lower the initializer of 'a'"
    );
    assert_eq!(
        GenError::MissingStub { name: "S".to_string() }.message(),
        "no stub was generated for 'S'"
    );
}

#[test]
fn associate_type_overwrites_last_write_wins() {
    let mut index = Index::new();
    let (name, info16) = int_type("T", 16);
    index.associate_type(&name, info16);
    let (_, info32) = int_type("T", 32);
    index.associate_type(&name, info32);
    assert!(matches!(
        index.find_type("T"),
        Some(DataTypeInformation::Integer { size: 32, .. })
    ));
}
