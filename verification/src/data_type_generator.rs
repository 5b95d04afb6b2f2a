//! The two passes over the declared data types: the stub pass, which
//! registers a forward-reference-safe entry for every named type, and the
//! body pass, which fills struct bodies, emits enum constants and re-records
//! alias edges. The array dimension builder lives here as well.

use vstd::prelude::*;
use crate::ast::{DataType, Statement};
use crate::constant_folder::{evaluate_constant_int, folded_int};
use crate::dimensions::Dimension;
use crate::errors::{GenError, GenErrorModel};
use crate::index::{
    DataTypeInformation, Index, IndexModel, TypeInfoModel, info_type, resolved_info,
};
use crate::instance_struct_generator::{InstanceStructGenerator, struct_gen};
use crate::typerep::{
    GlobalVarModel, Module, TypeContext, TypeRep, TypeRepModel, ValueRep, ValueRepModel,
};

verus! {

/// The model of the struct registry: named cells, opaque (`None`) or filled.
pub type ContextModel = Seq<(Seq<char>, Option<Seq<TypeRepModel>>)>;

/// The offset an array bound folds to: the folded constant, or 0 when the
/// expression does not fold (the documented silent default).
pub open spec fn fold_or_zero(s: Statement) -> i32 {
    match folded_int(s) {
        Option::Some(v) => v as i32,
        Option::None => 0,
    }
}

/// The dimension a single bounds expression denotes: `None` unless the
/// expression is exactly a `start..end` range.
pub open spec fn spec_single_dimension(s: Statement) -> Option<Dimension> {
    match s {
        Statement::RangeStatement { start, end } => Some(
            Dimension { start_offset: fold_or_zero(*start), end_offset: fold_or_zero(*end) },
        ),
        _ => None,
    }
}

/// The list of sub-expressions a bounds expression consists of.
pub open spec fn spec_bounds_list(bounds: Statement) -> Seq<Statement> {
    match bounds {
        Statement::ExpressionList { expressions } => expressions@,
        _ => seq![bounds],
    }
}

/// The dimensions of a list of bounds expressions, in declaration order;
/// `None` as soon as one of them is not a range.
pub open spec fn spec_dims_of(list: Seq<Statement>) -> Option<Seq<Dimension>>
    decreases list.len(),
{
    if list.len() == 0 {
        Some(Seq::<Dimension>::empty())
    } else {
        match spec_single_dimension(list[0]) {
            Option::None => None,
            Option::Some(d) => match spec_dims_of(list.drop_first()) {
                Option::None => None,
                Option::Some(rest) => Some(seq![d] + rest),
            },
        }
    }
}

/// The dimensions of a whole bounds expression.
pub open spec fn spec_dimensions(bounds: Statement) -> Option<Seq<Dimension>> {
    spec_dims_of(spec_bounds_list(bounds))
}

/// Converts one bounds expression into a dimension. The expression must be
/// exactly a `start..end` range; a bound that does not fold to a constant
/// silently defaults to offset 0 (a deliberate, documented policy).
pub fn get_single_array_dimension(bounds: &Statement) -> (r: Result<Dimension, GenError>)
    ensures
        match spec_single_dimension(*bounds) {
            Option::Some(d) => r == Result::<Dimension, GenError>::Ok(d),
            Option::None => r matches Result::Err(e) && e@ == GenErrorModel::ExpectedRange,
        },
{
    match bounds {
        Statement::RangeStatement { start, end } => {
            proof {
                crate::constant_folder::lemma_folded_int_in_range(**start);
                crate::constant_folder::lemma_folded_int_in_range(**end);
            }
            let start_offset = match evaluate_constant_int(start) {
                Option::Some(v) => v,
                Option::None => 0,
            };
            let end_offset = match evaluate_constant_int(end) {
                Option::Some(v) => v,
                Option::None => 0,
            };
            Ok(Dimension { start_offset, end_offset })
        },
        _ => Err(GenError::ExpectedRange),
    }
}

/// Converts a bounds expression (a single range or a list of ranges) into
/// the ordered dimensions; any sub-expression that is not a range is a hard
/// error.
#[verifier::loop_isolation(false)]
pub fn get_array_dimensions(bounds: &Statement) -> (r: Result<Vec<Dimension>, GenError>)
    ensures
        match spec_dimensions(*bounds) {
            Option::Some(ds) => r matches Result::Ok(v) && v@ == ds,
            Option::None => r matches Result::Err(e) && e@ == GenErrorModel::ExpectedRange,
        },
{
    match bounds {
        Statement::ExpressionList { expressions } => {
            let n = expressions.len();
            let mut result: Vec<Dimension> = Vec::new();
            let mut i: usize = 0;
            proof {
                assert(spec_bounds_list(*bounds) =~= expressions@);
                assert(expressions@.subrange(0, n as int) =~= expressions@);
                let d0 = spec_dims_of(expressions@);
                if d0 is Some {
                    assert(result@ + d0->0 =~= d0->0);
                }
            }
            while i < n
                invariant
                    i <= n,
                    spec_dims_of(expressions@) == (match spec_dims_of(
                        expressions@.subrange(i as int, n as int),
                    ) {
                        Option::Some(rest) => Some(result@ + rest),
                        Option::None => Option::<Seq<Dimension>>::None,
                    }),
                decreases n - i,
            {
                proof {
                    assert(expressions@.subrange(i as int, n as int)[0]
                        == expressions@[i as int]);
                    assert(expressions@.subrange(i as int, n as int).drop_first()
                        =~= expressions@.subrange(i as int + 1, n as int));
                }
                match get_single_array_dimension(&expressions[i]) {
                    Result::Ok(d) => {
                        result.push(d);
                        proof {
                            let ds_rest = spec_dims_of(expressions@.subrange(i as int + 1, n as int));
                            if ds_rest is Some {
                                let rest = ds_rest->0;
                                assert(result@ + rest =~= result@.drop_last() + (seq![d] + rest));
                            }
                        }
                    },
                    Result::Err(e) => {
                        return Err(e);
                    },
                }
                i = i + 1;
            }
            proof {
                assert(expressions@.subrange(n as int, n as int) =~= Seq::<Statement>::empty());
                assert(result@ + Seq::<Dimension>::empty() =~= result@);
                assert(spec_dims_of(expressions@) == Some(result@));
                assert(spec_dimensions(*bounds) == Some(result@));
            }
            Ok(result)
        },
        _ => {
            match get_single_array_dimension(bounds) {
                Result::Ok(d) => {
                    let mut result: Vec<Dimension> = Vec::new();
                    result.push(d);
                    proof {
                        assert(spec_bounds_list(*bounds) =~= seq![*bounds]);
                        assert(seq![*bounds].len() == 1);
                        assert(seq![*bounds][0] == *bounds);
                        assert(seq![*bounds].drop_first() =~= Seq::<Statement>::empty());
                        assert(spec_dims_of(Seq::<Statement>::empty())
                            == Some(Seq::<Dimension>::empty()));
                        assert(spec_single_dimension(*bounds) == Some(d));
                        assert(seq![d] + Seq::<Dimension>::empty() =~= result@);
                        assert(spec_dims_of(seq![*bounds]) == Some(result@));
                        assert(spec_dimensions(*bounds) == Some(result@));
                    }
                    Ok(result)
                },
                Result::Err(e) => Err(e),
            }
        },
    }
}

/// The nested array type over `t`, folded right to left: the last-declared
/// dimension wraps first (innermost), the first-declared dimension is the
/// outermost wrapper.
pub open spec fn spec_nested_array(t: TypeRepModel, dims: Seq<Dimension>) -> TypeRepModel
    decreases dims.len(),
{
    if dims.len() == 0 {
        t
    } else {
        spec_nested_array(
            TypeRepModel::ArrayOf { element: Box::new(t), len: dims.last().spec_length_u32() },
            dims.drop_last(),
        )
    }
}

/// Builds the nested low-level array type for the given element type and
/// dimensions, wrapping from the innermost (last-declared) dimension
/// outward.
#[verifier::loop_isolation(false)]
pub fn create_nested_array_type(end_type: TypeRep, dimensions: &Vec<Dimension>) -> (r: TypeRep)
    ensures
        r@ == spec_nested_array(end_type@, dimensions@),
{
    let mut current = end_type;
    let mut i: usize = dimensions.len();
    proof {
        assert(dimensions@.subrange(0, dimensions@.len() as int) =~= dimensions@);
    }
    while i > 0
        invariant
            i <= dimensions.len(),
            spec_nested_array(end_type@, dimensions@) == spec_nested_array(
                current@,
                dimensions@.subrange(0, i as int),
            ),
        decreases i,
    {
        i = i - 1;
        let len = dimensions[i].get_length();
        current = TypeRep::ArrayOf { element: Box::new(current), len };
        proof {
            assert(dimensions@.subrange(0, i as int + 1).drop_last() =~= dimensions@.subrange(
                0,
                i as int,
            ));
            assert(dimensions@.subrange(0, i as int + 1).last() == dimensions@[i as int]);
        }
    }
    proof {
        assert(dimensions@.subrange(0, 0) =~= Seq::<Dimension>::empty());
    }
    current
}

/// What the stub pass does for one declaration: a struct gets an opaque
/// cell and a struct descriptor; an enum is registered as a 32-bit signed
/// integer; an alias records its immediate target's name; an array is built
/// completely (dimensions, owned element descriptor, nested type). A failing
/// declaration changes nothing.
pub open spec fn stub_one(c: ContextModel, m: IndexModel, d: DataType) -> Result<
    (ContextModel, IndexModel),
    GenErrorModel,
> {
    match d {
        DataType::StructType { name, .. } => Ok(
            (
                seq![(name@, Option::<Seq<TypeRepModel>>::None)] + c,
                IndexModel {
                    types: seq![
                        (
                            name@,
                            TypeInfoModel::Struct {
                                name: name@,
                                generated_type: TypeRepModel::StructRef { name: name@ },
                            },
                        ),
                    ] + m.types,
                    initial_values: m.initial_values,
                    global_variables: m.global_variables,
                },
            ),
        ),
        DataType::EnumType { name, .. } => Ok(
            (
                c,
                IndexModel {
                    types: seq![
                        (
                            name@,
                            TypeInfoModel::Integer {
                                signed: true,
                                size: 32,
                                generated_type: TypeRepModel::IntType { size: 32 },
                            },
                        ),
                    ] + m.types,
                    initial_values: m.initial_values,
                    global_variables: m.global_variables,
                },
            ),
        ),
        DataType::SubRangeType { name, referenced_type, .. } => Ok(
            (
                c,
                IndexModel {
                    types: seq![
                        (
                            name@,
                            TypeInfoModel::Alias { name: name@, referenced_type: referenced_type@ },
                        ),
                    ] + m.types,
                    initial_values: m.initial_values,
                    global_variables: m.global_variables,
                },
            ),
        ),
        DataType::ArrayType { name, bounds, referenced_type } => match spec_dimensions(bounds) {
            Option::None => Err(GenErrorModel::ExpectedRange),
            Option::Some(dims) => if dims.len() == 0 {
                Err(GenErrorModel::ExpectedRange)
            } else {
                match resolved_info(m, referenced_type@) {
                    Option::None => Err(GenErrorModel::UnknownDatatype { name: referenced_type@ }),
                    Option::Some(info) => match info_type(info) {
                        Option::None => Err(
                            GenErrorModel::UnknownDatatype { name: referenced_type@ },
                        ),
                        Option::Some(t) => Ok(
                            (
                                c,
                                IndexModel {
                                    types: seq![
                                        (
                                            name@,
                                            TypeInfoModel::Array {
                                                name: name@,
                                                internal_type_information: Box::new(info),
                                                dimensions: dims,
                                                generated_type: spec_nested_array(t, dims),
                                            },
                                        ),
                                    ] + m.types,
                                    initial_values: m.initial_values,
                                    global_variables: m.global_variables,
                                },
                            ),
                        ),
                    },
                }
            },
        },
    }
}

/// The whole stub pass, declaration by declaration in source order, stopping
/// at the first failing declaration with the state reached so far.
pub open spec fn stub_pass(c: ContextModel, m: IndexModel, ds: Seq<DataType>) -> (
    ContextModel,
    IndexModel,
    Option<GenErrorModel>,
)
    decreases ds.len(),
{
    if ds.len() == 0 {
        (c, m, None)
    } else {
        match stub_one(c, m, ds[0]) {
            Result::Ok(t2) => stub_pass(t2.0, t2.1, ds.drop_first()),
            Result::Err(e) => (c, m, Some(e)),
        }
    }
}

/// The first pass: registers a forward-reference-safe entry for every
/// declared type, so that struct bodies generated later can refer to any
/// name of the same compilation unit; see [`stub_one`] for the per-kind
/// effect. Stops at the first failing declaration and returns its error.
#[verifier::loop_isolation(false)]
pub fn generate_data_type_stubs(
    context: &mut TypeContext,
    index: &mut Index,
    data_types: &Vec<DataType>,
) -> (r: Result<(), GenError>)
    ensures
        ({
            let (c2, m2, err) = stub_pass(old(context)@, old(index)@, data_types@);
            &&& final(context)@ == c2
            &&& final(index)@ == m2
            &&& match (r, err) {
                (Result::Ok(u), Option::None) => true,
                (Result::Err(e), Option::Some(em)) => e@ == em,
                _ => false,
            }
        }),
{
    let ghost c0 = context@;
    let ghost m0 = index@;
    let ghost all = data_types@;
    let n = data_types.len();
    let mut i: usize = 0;
    proof {
        assert(all.subrange(0, n as int) =~= all);
    }
    while i < n
        invariant
            i <= n,
            stub_pass(c0, m0, all) == stub_pass(context@, index@, all.subrange(i as int, n as int)),
        decreases n - i,
    {
        proof {
            assert(all.subrange(i as int, n as int)[0] == all[i as int]);
            assert(all.subrange(i as int, n as int).drop_first() =~= all.subrange(
                i as int + 1,
                n as int,
            ));
        }
        let ghost pre_c = context@;
        let ghost pre_m = index@;
        match &data_types[i] {
            DataType::StructType { name, .. } => {
                let rep = context.opaque_struct_type(name.as_str());
                index.associate_type(
                    name.as_str(),
                    DataTypeInformation::Struct { name: name.clone(), generated_type: rep },
                );
                proof {
                    assert(stub_one(pre_c, pre_m, all[i as int]) matches Result::Ok(t2)
                        && context@ =~= t2.0 && index@ =~= t2.1);
                }
            },
            DataType::EnumType { name, .. } => {
                index.associate_type(
                    name.as_str(),
                    DataTypeInformation::Integer {
                        signed: true,
                        size: 32,
                        generated_type: TypeRep::IntType { size: 32 },
                    },
                );
                proof {
                    assert(stub_one(pre_c, pre_m, all[i as int]) matches Result::Ok(t2)
                        && context@ =~= t2.0 && index@ =~= t2.1);
                }
            },
            DataType::SubRangeType { name, referenced_type, .. } => {
                index.associate_type_alias(name.as_str(), referenced_type.as_str());
                proof {
                    assert(stub_one(pre_c, pre_m, all[i as int]) matches Result::Ok(t2)
                        && context@ =~= t2.0 && index@ =~= t2.1);
                }
            },
            DataType::ArrayType { name, bounds, referenced_type } => {
                let dims = match get_array_dimensions(bounds) {
                    Result::Ok(v) => v,
                    Result::Err(e) => {
                        proof {
                            assert(stub_one(pre_c, pre_m, all[i as int]) matches Result::Err(em)
                                && em == e@);
                        }
                        return Err(e);
                    },
                };
                if dims.len() == 0 {
                    proof {
                        assert(stub_one(pre_c, pre_m, all[i as int])
                            == Result::<(ContextModel, IndexModel), GenErrorModel>::Err(
                            GenErrorModel::ExpectedRange,
                        ));
                    }
                    return Err(GenError::ExpectedRange);
                }
                let info = match index.find_type_information(referenced_type.as_str()) {
                    Option::Some(info) => info,
                    Option::None => {
                        proof {
                            assert(stub_one(pre_c, pre_m, all[i as int]) matches Result::Err(em)
                                && em == (GenErrorModel::UnknownDatatype {
                                name: referenced_type@,
                            }));
                        }
                        return Err(GenError::UnknownDatatype { name: referenced_type.clone() });
                    },
                };
                let target_type: TypeRep = match info.get_type() {
                    Option::Some(t) => t.clone(),
                    Option::None => {
                        proof {
                            assert(stub_one(pre_c, pre_m, all[i as int]) matches Result::Err(em)
                                && em == (GenErrorModel::UnknownDatatype {
                                name: referenced_type@,
                            }));
                        }
                        return Err(GenError::UnknownDatatype { name: referenced_type.clone() });
                    },
                };
                let generated = create_nested_array_type(target_type, &dims);
                index.associate_type(
                    name.as_str(),
                    DataTypeInformation::Array {
                        name: name.clone(),
                        internal_type_information: Box::new(info),
                        dimensions: dims,
                        generated_type: generated,
                    },
                );
                proof {
                    assert(stub_one(pre_c, pre_m, all[i as int]) matches Result::Ok(t2)
                        && context@ =~= t2.0 && index@ =~= t2.1);
                }
            },
        }
        i = i + 1;
    }
    proof {
        assert(all.subrange(n as int, n as int) =~= Seq::<DataType>::empty());
    }
    Ok(())
}

/// What emitting an enum's constants does, element by element from position
/// `i` on: each element becomes a global 32-bit signed integer constant
/// holding its zero-based ordinal, registered in the index under the
/// element's own name.
pub open spec fn enum_pass(
    mo: Seq<GlobalVarModel>,
    m: IndexModel,
    elements: Seq<String>,
    i: int,
) -> (Seq<GlobalVarModel>, IndexModel)
    decreases elements.len() - i,
{
    if i < 0 || i >= elements.len() {
        (mo, m)
    } else {
        enum_pass(
            mo + seq![
                GlobalVarModel {
                    name: elements[i]@,
                    ty: TypeRepModel::IntType { size: 32 },
                    initial_value: Some(ValueRepModel::IntVal { size: 32, value: i as i64 }),
                },
            ],
            IndexModel {
                types: m.types,
                initial_values: m.initial_values,
                global_variables: seq![
                    (elements[i]@, ValueRepModel::GlobalRef { name: elements[i]@ }),
                ] + m.global_variables,
            },
            elements,
            i + 1,
        )
    }
}

/// What the body pass does for one declaration: a struct's body is
/// generated (the staged default aggregate is the caller's to merge and is
/// discarded here, as the committed index is not written); an enum's
/// constants are emitted; an alias edge is re-recorded, idempotent with the
/// stub pass (an alias initializer is deliberately not evaluated: a known
/// incomplete path, kept as-is); an array needs no body. A failing
/// declaration changes nothing.
pub open spec fn body_one(
    mo: Seq<GlobalVarModel>,
    c: ContextModel,
    m: IndexModel,
    d: DataType,
) -> Result<(Seq<GlobalVarModel>, ContextModel, IndexModel), GenErrorModel> {
    match d {
        DataType::StructType { name, variables } => match struct_gen(c, m, variables@, name@) {
            Result::Ok(t3) => Ok((mo, t3.0, m)),
            Result::Err(e) => Err(e),
        },
        DataType::EnumType { elements, .. } => {
            let (mo2, m2) = enum_pass(mo, m, elements@, 0);
            Ok((mo2, c, m2))
        },
        DataType::SubRangeType { name, referenced_type, .. } => Ok(
            (
                mo,
                c,
                IndexModel {
                    types: seq![
                        (
                            name@,
                            TypeInfoModel::Alias { name: name@, referenced_type: referenced_type@ },
                        ),
                    ] + m.types,
                    initial_values: m.initial_values,
                    global_variables: m.global_variables,
                },
            ),
        ),
        DataType::ArrayType { .. } => Ok((mo, c, m)),
    }
}

/// The whole body pass, declaration by declaration in source order, stopping
/// at the first failing declaration with the state reached so far. It must
/// run strictly after the stub pass over the same declarations.
pub open spec fn body_pass(
    mo: Seq<GlobalVarModel>,
    c: ContextModel,
    m: IndexModel,
    ds: Seq<DataType>,
) -> (Seq<GlobalVarModel>, ContextModel, IndexModel, Option<GenErrorModel>)
    decreases ds.len(),
{
    if ds.len() == 0 {
        (mo, c, m, None)
    } else {
        match body_one(mo, c, m, ds[0]) {
            Result::Ok(t3) => body_pass(t3.0, t3.1, t3.2, ds.drop_first()),
            Result::Err(e) => (mo, c, m, Some(e)),
        }
    }
}

/// One global-variable model as the enum pass emits it.
pub open spec fn enum_constant_model(element: String, ordinal: int) -> GlobalVarModel {
    GlobalVarModel {
        name: element@,
        ty: TypeRepModel::IntType { size: 32 },
        initial_value: Some(ValueRepModel::IntVal { size: 32, value: ordinal as i64 }),
    }
}

proof fn lemma_enum_pass(mo: Seq<GlobalVarModel>, m: IndexModel, elements: Seq<String>, i: int)
    requires
        0 <= i <= elements.len(),
        forall|p: int, q: int|
            0 <= p < q < elements.len() ==> elements[p]@ != elements[q]@,
    ensures
        ({
            let (mo2, m2) = enum_pass(mo, m, elements, i);
            &&& mo2.len() == mo.len() + (elements.len() - i)
            &&& forall|k: int| 0 <= k < mo.len() ==> mo2[k] == mo[k]
            &&& forall|k: int|
                i <= k < elements.len() ==> mo2[mo.len() + (k - i)] == enum_constant_model(
                    elements[k],
                    k,
                )
            &&& m2.types == m.types
            &&& m2.initial_values == m.initial_values
            &&& forall|k: int|
                i <= k < elements.len() ==> crate::index::map_find(m2.global_variables, elements[k]@)
                    == Some(ValueRepModel::GlobalRef { name: elements[k]@ })
            &&& forall|nm: Seq<char>|
                (forall|k: int| i <= k < elements.len() ==> elements[k]@ != nm)
                    ==> #[trigger] crate::index::map_find(m2.global_variables, nm)
                    == crate::index::map_find(m.global_variables, nm)
        }),
    decreases elements.len() - i,
{
    if i < elements.len() {
        let mo1 = mo + seq![enum_constant_model(elements[i], i)];
        let m1 = IndexModel {
            types: m.types,
            initial_values: m.initial_values,
            global_variables: seq![
                (elements[i]@, ValueRepModel::GlobalRef { name: elements[i]@ }),
            ] + m.global_variables,
        };
        lemma_enum_pass(mo1, m1, elements, i + 1);
        let (mo2, m2) = enum_pass(mo, m, elements, i);
        assert forall|nm: Seq<char>|
            (forall|k: int| i <= k < elements.len() ==> elements[k]@ != nm)
                implies #[trigger] crate::index::map_find(m2.global_variables, nm)
                == crate::index::map_find(m.global_variables, nm) by {
            assert(crate::index::map_find(m2.global_variables, nm) == crate::index::map_find(
                m1.global_variables,
                nm,
            ));
            assert(m1.global_variables.drop_first() =~= m.global_variables);
        }
        assert(crate::index::map_find(m2.global_variables, elements[i]@) == crate::index::map_find(
            m1.global_variables,
            elements[i]@,
        ));
    }
}

/// Law: for an enum with elements declared in order, the emitted globals are
/// 32-bit signed integer constants holding the elements' zero-based
/// ordinals, appended in declaration order, and each is retrievable from the
/// index under the element's own name (element names taken as distinct).
pub proof fn lemma_enum_constants(mo: Seq<GlobalVarModel>, m: IndexModel, elements: Seq<String>)
    requires
        forall|p: int, q: int|
            0 <= p < q < elements.len() ==> elements[p]@ != elements[q]@,
    ensures
        ({
            let (mo2, m2) = enum_pass(mo, m, elements, 0);
            &&& mo2.len() == mo.len() + elements.len()
            &&& forall|k: int| 0 <= k < mo.len() ==> mo2[k] == mo[k]
            &&& forall|k: int|
                0 <= k < elements.len() ==> mo2[mo.len() + k] == enum_constant_model(
                    elements[k],
                    k,
                )
            &&& m2.types == m.types
            &&& m2.initial_values == m.initial_values
            &&& forall|k: int|
                0 <= k < elements.len() ==> crate::index::map_find(m2.global_variables, elements[k]@)
                    == Some(ValueRepModel::GlobalRef { name: elements[k]@ })
        }),
{
    lemma_enum_pass(mo, m, elements, 0);
}

/// The member names of a struct declaration refer only to the two given
/// struct names and carry no initializers.
pub open spec fn members_within(d: DataType, na: Seq<char>, nb: Seq<char>) -> bool {
    &&& d is StructType
    &&& forall|i: int|
        0 <= i < d->StructType_variables@.len() ==> (#[trigger] d->StructType_variables@[i]).initializer
            is None && (d->StructType_variables@[i].data_type@ == na
            || d->StructType_variables@[i].data_type@ == nb)
}

proof fn lemma_mutual_body_one(
    mo: Seq<GlobalVarModel>,
    c1: ContextModel,
    m1: IndexModel,
    d: DataType,
    na: Seq<char>,
    nb: Seq<char>,
)
    requires
        members_within(d, na, nb),
        d->StructType_name@ == na || d->StructType_name@ == nb,
        crate::index::map_find(m1.types, na) matches Some(TypeInfoModel::Struct { generated_type, .. })
            && generated_type == (TypeRepModel::StructRef { name: na }),
        crate::index::map_find(m1.types, nb) matches Some(TypeInfoModel::Struct { generated_type, .. })
            && generated_type == (TypeRepModel::StructRef { name: nb }),
        crate::index::map_find(c1, na) is Some,
        crate::index::map_find(c1, nb) is Some,
    ensures
        body_one(mo, c1, m1, d) matches Result::Ok(t3) && t3.0 == mo && t3.2 == m1
            && crate::index::map_find(t3.1, na) is Some && crate::index::map_find(t3.1, nb)
            is Some,
{
    let name = d->StructType_name@;
    let vars = d->StructType_variables@;
    assert forall|i: int| 0 <= i < vars.len() implies (#[trigger] vars[i]).initializer is None
        && resolved_info(m1, vars[i].data_type@) is Some && info_type(
        resolved_info(m1, vars[i].data_type@)->0,
    ) is Some by {
        assert(vars[i].data_type@ == na || vars[i].data_type@ == nb);
    }
    crate::instance_struct_generator::lemma_members_fold_ok(m1, vars);
    let rep = info_type(resolved_info(m1, name)->0)->0;
    assert(rep == (TypeRepModel::StructRef { name }));
    let t3 = struct_gen(c1, m1, vars, name)->Ok_0;
    assert(t3.0[0].0 == name);
    assert(crate::index::map_find(t3.0, na) is Some && crate::index::map_find(t3.0, nb) is Some)
        by {
        assert(t3.0.drop_first() =~= c1);
    }
}

/// Law: for two structs that contain members referring to each other, both
/// stub entries exist before either body is filled, and the bodies can then
/// be generated in either order; neither order fails.
pub proof fn lemma_mutual_struct_bodies_either_order(
    mo: Seq<GlobalVarModel>,
    c: ContextModel,
    m: IndexModel,
    a: DataType,
    b: DataType,
)
    requires
        a is StructType,
        b is StructType,
        a->StructType_name@ != b->StructType_name@,
        members_within(a, a->StructType_name@, b->StructType_name@),
        members_within(b, a->StructType_name@, b->StructType_name@),
    ensures
        ({
            let (c1, m1, err) = stub_pass(c, m, seq![a, b]);
            &&& err is None
            &&& crate::index::map_find(m1.types, a->StructType_name@) matches Some(
                TypeInfoModel::Struct { .. },
            )
            &&& crate::index::map_find(m1.types, b->StructType_name@) matches Some(
                TypeInfoModel::Struct { .. },
            )
            &&& crate::index::map_find(c1, a->StructType_name@) == Some(
                Option::<Seq<TypeRepModel>>::None,
            )
            &&& crate::index::map_find(c1, b->StructType_name@) == Some(
                Option::<Seq<TypeRepModel>>::None,
            )
            &&& body_pass(mo, c1, m1, seq![a, b]).3 is None
            &&& body_pass(mo, c1, m1, seq![b, a]).3 is None
        }),
{
    let na = a->StructType_name@;
    let nb = b->StructType_name@;
    let ab = seq![a, b];
    assert(ab.len() == 2 && ab[0] == a && ab[1] == b);
    assert(ab.drop_first() =~= seq![b]);
    assert(seq![b].len() == 1 && seq![b][0] == b);
    assert(seq![b].drop_first() =~= Seq::<DataType>::empty());
    let (ca, ma) = stub_one(c, m, a)->Ok_0;
    let (c1, m1) = stub_one(ca, ma, b)->Ok_0;
    assert(stub_pass(c1, m1, Seq::<DataType>::empty()) == (
        c1,
        m1,
        Option::<GenErrorModel>::None,
    ));
    assert(stub_pass(ca, ma, seq![b]) == stub_pass(c1, m1, seq![b].drop_first()));
    assert(stub_pass(c, m, ab) == stub_pass(ca, ma, ab.drop_first()));
    assert(stub_pass(c, m, ab) == (c1, m1, Option::<GenErrorModel>::None));
    assert(m1.types[0].0 == nb);
    assert(m1.types.drop_first() =~= ma.types);
    assert(ma.types[0].0 == na);
    assert(c1[0].0 == nb);
    assert(c1.drop_first() =~= ca);
    assert(ca[0].0 == na);
    assert(crate::index::map_find(m1.types, na) == crate::index::map_find(ma.types, na));
    assert(crate::index::map_find(m1.types, na) matches Some(TypeInfoModel::Struct { .. }));
    assert(crate::index::map_find(c1, na) == crate::index::map_find(ca, na));
    assert(crate::index::map_find(c1, na) == Some(Option::<Seq<TypeRepModel>>::None));

    lemma_mutual_body_one(mo, c1, m1, a, na, nb);
    let t3a = body_one(mo, c1, m1, a)->Ok_0;
    lemma_mutual_body_one(t3a.0, t3a.1, t3a.2, b, na, nb);
    assert(seq![a, b][0] == a);
    let t3ab = body_one(t3a.0, t3a.1, t3a.2, b)->Ok_0;
    assert(body_pass(t3ab.0, t3ab.1, t3ab.2, Seq::<DataType>::empty()).3 is None);
    assert(body_pass(t3a.0, t3a.1, t3a.2, seq![b]) == body_pass(
        t3ab.0,
        t3ab.1,
        t3ab.2,
        seq![b].drop_first(),
    ));
    assert(body_pass(mo, c1, m1, ab) == body_pass(t3a.0, t3a.1, t3a.2, ab.drop_first()));
    assert(body_pass(mo, c1, m1, seq![a, b]).3 is None);

    lemma_mutual_body_one(mo, c1, m1, b, na, nb);
    let t3b = body_one(mo, c1, m1, b)->Ok_0;
    lemma_mutual_body_one(t3b.0, t3b.1, t3b.2, a, na, nb);
    let ba = seq![b, a];
    assert(ba.drop_first() =~= seq![a]);
    assert(seq![a].drop_first() =~= Seq::<DataType>::empty());
    assert(ba.len() == 2 && ba[0] == b && ba[1] == a);
    assert(seq![a].len() == 1 && seq![a][0] == a);
    let t3ba = body_one(t3b.0, t3b.1, t3b.2, a)->Ok_0;
    assert(body_pass(t3ba.0, t3ba.1, t3ba.2, Seq::<DataType>::empty()).3 is None);
    assert(body_pass(t3b.0, t3b.1, t3b.2, seq![a]) == body_pass(
        t3ba.0,
        t3ba.1,
        t3ba.2,
        seq![a].drop_first(),
    ));
    assert(body_pass(mo, c1, m1, ba) == body_pass(t3b.0, t3b.1, t3b.2, ba.drop_first()));
    assert(body_pass(mo, c1, m1, ba).3 is None);
}

/// The second pass: fills every struct cell's body, emits enum constants
/// and re-records alias edges; see [`body_one`] for the per-kind effect.
/// Must run after [`generate_data_type_stubs`] over the same declarations.
/// Stops at the first failing declaration and returns its error.
#[verifier::loop_isolation(false)]
pub fn generate_data_type(
    module: &mut Module,
    context: &mut TypeContext,
    index: &mut Index,
    data_types: &Vec<DataType>,
) -> (r: Result<(), GenError>)
    ensures
        ({
            let (mo2, c2, m2, err) = body_pass(
                old(module)@,
                old(context)@,
                old(index)@,
                data_types@,
            );
            &&& final(module)@ == mo2
            &&& final(context)@ == c2
            &&& final(index)@ == m2
            &&& match (r, err) {
                (Result::Ok(u), Option::None) => true,
                (Result::Err(e), Option::Some(em)) => e@ == em,
                _ => false,
            }
        }),
{
    let ghost mo0 = module@;
    let ghost c0 = context@;
    let ghost m0 = index@;
    let ghost all = data_types@;
    let n = data_types.len();
    let mut i: usize = 0;
    proof {
        assert(all.subrange(0, n as int) =~= all);
    }
    while i < n
        invariant
            i <= n,
            body_pass(mo0, c0, m0, all) == body_pass(
                module@,
                context@,
                index@,
                all.subrange(i as int, n as int),
            ),
        decreases n - i,
    {
        proof {
            assert(all.subrange(i as int, n as int)[0] == all[i as int]);
            assert(all.subrange(i as int, n as int).drop_first() =~= all.subrange(
                i as int + 1,
                n as int,
            ));
        }
        let ghost pre_mo = module@;
        let ghost pre_c = context@;
        let ghost pre_m = index@;
        match &data_types[i] {
            DataType::StructType { name, variables } => {
                let mut struct_generator = InstanceStructGenerator::new(&*index);
                match struct_generator.generate_struct_type(context, variables, name.as_str()) {
                    Result::Ok(st) => {
                        proof {
                            assert(body_one(pre_mo, pre_c, pre_m, all[i as int])
                                matches Result::Ok(t3) && module@ == t3.0 && context@ =~= t3.1
                                && index@ == t3.2);
                        }
                    },
                    Result::Err(e) => {
                        proof {
                            assert(body_one(pre_mo, pre_c, pre_m, all[i as int])
                                matches Result::Err(em) && em == e@);
                        }
                        return Err(e);
                    },
                }
            },
            DataType::EnumType { elements, .. } => {
                let en = elements.len();
                let mut j: usize = 0;
                while j < en
                    invariant
                        j <= en,
                        en == elements.len(),
                        enum_pass(pre_mo, pre_m, elements@, 0) == enum_pass(
                            module@,
                            index@,
                            elements@,
                            j as int,
                        ),
                        context@ == pre_c,
                    decreases en - j,
                {
                    let ghost mo_j = module@;
                    let ghost m_j = index@;
                    let ordinal: i64 = j as i64;
                    let element_variable = module.create_global_variable(
                        elements[j].as_str(),
                        TypeRep::IntType { size: 32 },
                        Some(ValueRep::IntVal { size: 32, value: ordinal }),
                    );
                    index.associate_global_variable(elements[j].as_str(), element_variable);
                    proof {
                        let gvm = GlobalVarModel {
                            name: elements@[j as int]@,
                            ty: TypeRepModel::IntType { size: 32 },
                            initial_value: Some(
                                ValueRepModel::IntVal { size: 32, value: j as i64 },
                            ),
                        };
                        assert(module@ =~= mo_j + seq![gvm]);
                        assert(index@ =~= IndexModel {
                            types: m_j.types,
                            initial_values: m_j.initial_values,
                            global_variables: seq![
                                (
                                    elements@[j as int]@,
                                    ValueRepModel::GlobalRef { name: elements@[j as int]@ },
                                ),
                            ] + m_j.global_variables,
                        });
                        assert(enum_pass(mo_j, m_j, elements@, j as int) == enum_pass(
                            module@,
                            index@,
                            elements@,
                            j as int + 1,
                        ));
                    }
                    j = j + 1;
                }
                proof {
                    assert(body_one(pre_mo, pre_c, pre_m, all[i as int]) matches Result::Ok(t3)
                        && module@ == t3.0 && context@ == t3.1 && index@ == t3.2);
                }
            },
            DataType::SubRangeType { name, referenced_type, .. } => {
                index.associate_type_alias(name.as_str(), referenced_type.as_str());
                proof {
                    assert(body_one(pre_mo, pre_c, pre_m, all[i as int]) matches Result::Ok(t3)
                        && module@ == t3.0 && context@ == t3.1 && index@ =~= t3.2);
                }
            },
            DataType::ArrayType { .. } => {
                proof {
                    assert(body_one(pre_mo, pre_c, pre_m, all[i as int]) matches Result::Ok(t3)
                        && module@ == t3.0 && context@ == t3.1 && index@ == t3.2);
                }
            },
        }
        i = i + 1;
    }
    proof {
        assert(all.subrange(n as int, n as int) =~= Seq::<DataType>::empty());
    }
    Ok(())
}

} // verus!
