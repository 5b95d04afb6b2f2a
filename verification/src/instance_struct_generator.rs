//! The instance struct generator: computes the member layout and the
//! default-valued aggregate of one struct type, and allocates activation
//! records ("instances") of previously generated callables' struct types.

use vstd::prelude::*;
use vstd::string::StringExecFns;
use crate::ast::{Statement, Variable};
use crate::constant_folder::{evaluate_constant_int, folded_int, lemma_folded_int_in_range};
use crate::errors::{GenError, GenErrorModel};
use crate::index::{Index, IndexModel, effective_name, info_type, map_find, resolved_info};
use crate::typerep::{
    Builder, LocalVarModel, TypeRep, TypeRepModel, ValueRep, ValueRepModel, get_default_for,
    opt_value_model, spec_default_for,
};

verus! {

/// The model of the struct registry (named cells, opaque or filled).
pub type ContextModel = Seq<(Seq<char>, Option<Seq<TypeRepModel>>)>;

/// The model of one resolved struct member: its name, its low-level type,
/// and its initial value (explicit, or the type's registered default) if
/// any.
pub struct MemberModel {
    pub name: Seq<char>,
    pub ty: TypeRepModel,
    pub init: Option<ValueRepModel>,
}

/// What lowering an initializer expression against an expected low-level
/// type yields: initializers are restricted to constant integer expressions
/// of integer-typed members; everything else fails to lower.
pub open spec fn spec_lowered(stmt: Statement, ty: TypeRepModel) -> Option<ValueRepModel> {
    match ty {
        TypeRepModel::IntType { size } => match folded_int(stmt) {
            Option::Some(v) => Some(ValueRepModel::IntVal { size, value: v as i64 }),
            Option::None => None,
        },
        _ => None,
    }
}

/// The resolved triple of one declared member: its type descriptor from the
/// global index (unknown name: error), and its value — the lowered explicit
/// initializer if present (unlowerable: error), else the member type's
/// registered default value if any.
pub open spec fn member_triple(m: IndexModel, v: Variable) -> Result<MemberModel, GenErrorModel> {
    match resolved_info(m, v.data_type@) {
        Option::None => Err(GenErrorModel::UnknownDatatype { name: v.data_type@ }),
        Option::Some(info) => match info_type(info) {
            Option::None => Err(GenErrorModel::UnknownDatatype { name: v.data_type@ }),
            Option::Some(ty) => match v.initializer {
                Option::Some(stmt) => match spec_lowered(stmt, ty) {
                    Option::Some(val) => Ok(
                        MemberModel { name: v.name@, ty, init: Some(val) },
                    ),
                    Option::None => Err(GenErrorModel::InvalidInitializer { member: v.name@ }),
                },
                Option::None => Ok(
                    MemberModel {
                        name: v.name@,
                        ty,
                        init: map_find(m.initial_values, effective_name(m, v.data_type@)),
                    },
                ),
            },
        },
    }
}

/// The resolved triples of all members, in declaration order; the first
/// failing member aborts the whole struct.
pub open spec fn members_fold(m: IndexModel, vars: Seq<Variable>) -> Result<
    Seq<MemberModel>,
    GenErrorModel,
>
    decreases vars.len(),
{
    if vars.len() == 0 {
        Ok(Seq::<MemberModel>::empty())
    } else {
        match member_triple(m, vars[0]) {
            Result::Err(e) => Err(e),
            Result::Ok(mm) => match members_fold(m, vars.drop_first()) {
                Result::Err(e) => Err(e),
                Result::Ok(rest) => Ok(seq![mm] + rest),
            },
        }
    }
}

/// The ordered member types of resolved members.
pub open spec fn member_types(ms: Seq<MemberModel>) -> Seq<TypeRepModel> {
    Seq::new(ms.len(), |i: int| ms[i].ty)
}

/// The ordered member values of the default aggregate: each member's initial
/// value, or its type's generic default where none is registered.
pub open spec fn member_defaults(ms: Seq<MemberModel>) -> Seq<ValueRepModel> {
    Seq::new(
        ms.len(),
        |i: int|
            match ms[i].init {
                Option::Some(v) => v,
                Option::None => spec_default_for(ms[i].ty),
            },
    )
}

/// What generating one struct type does: under the pre-registered struct
/// cell's name, the cell body becomes the ordered member types, and the
/// default aggregate holds, per member, the explicit initializer's value or
/// the member type's own default. Missing stub entries are errors, never
/// created.
pub open spec fn struct_gen(
    c: ContextModel,
    m: IndexModel,
    vars: Seq<Variable>,
    name: Seq<char>,
) -> Result<(ContextModel, ValueRepModel, TypeRepModel), GenErrorModel> {
    match resolved_info(m, name) {
        Option::None => Err(GenErrorModel::MissingStub { name }),
        Option::Some(info) => match info_type(info) {
            Option::None => Err(GenErrorModel::MissingStub { name }),
            Option::Some(rep) => if !(rep is StructRef) {
                Err(GenErrorModel::MissingStub { name })
            } else {
                match members_fold(m, vars) {
                    Result::Err(e) => Err(e),
                    Result::Ok(ms) => if map_find(c, rep->StructRef_name) is None {
                        Err(GenErrorModel::MissingStub { name: rep->StructRef_name })
                    } else {
                        Ok(
                            (
                                seq![(rep->StructRef_name, Some(member_types(ms)))] + c,
                                ValueRepModel::StructVal {
                                    struct_name: rep->StructRef_name,
                                    fields: member_defaults(ms),
                                },
                                TypeRepModel::StructRef { name: rep->StructRef_name },
                            ),
                        )
                    },
                }
            },
        },
    }
}

/// The resolved triples line up with the declared members one to one.
pub proof fn lemma_members_fold(m: IndexModel, vars: Seq<Variable>)
    requires
        members_fold(m, vars) is Ok,
    ensures
        members_fold(m, vars)->Ok_0.len() == vars.len(),
        forall|i: int|
            0 <= i < vars.len() ==> member_triple(m, vars[i]) == Result::<
                MemberModel,
                GenErrorModel,
            >::Ok(members_fold(m, vars)->Ok_0[i]),
    decreases vars.len(),
{
    if vars.len() > 0 {
        lemma_members_fold(m, vars.drop_first());
        let ms = members_fold(m, vars)->Ok_0;
        let rest = members_fold(m, vars.drop_first())->Ok_0;
        assert forall|i: int|
            0 <= i < vars.len() implies member_triple(m, vars[i]) == Result::<
            MemberModel,
            GenErrorModel,
        >::Ok(ms[i]) by {
            if i > 0 {
                assert(vars.drop_first()[i - 1] == vars[i]);
                assert(ms[i] == rest[i - 1]);
            }
        }
    }
}

/// Members whose types all resolve to concrete descriptors and that carry no
/// initializers always fold successfully.
pub proof fn lemma_members_fold_ok(m: IndexModel, vars: Seq<Variable>)
    requires
        forall|i: int|
            0 <= i < vars.len() ==> (#[trigger] vars[i]).initializer is None && resolved_info(
                m,
                vars[i].data_type@,
            ) is Some && info_type(resolved_info(m, vars[i].data_type@)->0) is Some,
    ensures
        members_fold(m, vars) is Ok,
    decreases vars.len(),
{
    if vars.len() > 0 {
        assert(vars[0].initializer is None);
        assert forall|i: int| 0 <= i < vars.drop_first().len() implies (#[trigger] vars.drop_first()[i]).initializer
            is None && resolved_info(m, vars.drop_first()[i].data_type@) is Some && info_type(
            resolved_info(m, vars.drop_first()[i].data_type@)->0,
        ) is Some by {
            assert(vars.drop_first()[i] == vars[i + 1]);
        }
        lemma_members_fold_ok(m, vars.drop_first());
    }
}

/// Law: for a struct with members declared in order, the generated struct
/// cell's body lists the member types in declaration order, and the default
/// aggregate value holds, for each member, its explicit initializer's
/// lowered value if present, else the member type's own registered default
/// value, else the member type's generic default.
pub proof fn lemma_struct_layout_follows_declaration(
    c: ContextModel,
    m: IndexModel,
    vars: Seq<Variable>,
    name: Seq<char>,
)
    requires
        struct_gen(c, m, vars, name) is Ok,
    ensures
        ({
            let (c2, aggregate, rep) = struct_gen(c, m, vars, name)->Ok_0;
            let ms = members_fold(m, vars)->Ok_0;
            &&& members_fold(m, vars) is Ok
            &&& ms.len() == vars.len()
            &&& forall|i: int|
                0 <= i < vars.len() ==> member_triple(m, vars[i]) == Result::<
                    MemberModel,
                    GenErrorModel,
                >::Ok(ms[i])
            &&& rep is StructRef
            &&& map_find(c2, rep->StructRef_name) == Some(Some(member_types(ms)))
            &&& member_types(ms).len() == vars.len()
            &&& forall|i: int| 0 <= i < vars.len() ==> member_types(ms)[i] == ms[i].ty
            &&& aggregate matches ValueRepModel::StructVal { struct_name, fields }
                && struct_name == rep->StructRef_name && fields.len() == vars.len() && (forall|
                i: int,
            |
                0 <= i < vars.len() ==> fields[i] == (match ms[i].init {
                    Option::Some(v) => v,
                    Option::None => spec_default_for(ms[i].ty),
                }))
        }),
{
    lemma_members_fold(m, vars);
    let (c2, aggregate, rep) = struct_gen(c, m, vars, name)->Ok_0;
    let ms = members_fold(m, vars)->Ok_0;
    assert(c2[0] == (rep->StructRef_name, Some(member_types(ms))));
    assert(map_find(c2, rep->StructRef_name) == Some(Some(member_types(ms))));
}

/// The deterministic name of a callable's instance variable.
pub fn get_struct_instance_name(callable_name: &str) -> (r: String)
    ensures
        r@ == callable_name@ + "_instance"@,
{
    callable_name.to_owned().concat("_instance")
}

/// Generates struct member layouts and default aggregates against a global
/// index, staging each computed default in a struct-local index that the
/// caller may merge (or discard) explicitly.
pub struct InstanceStructGenerator<'g> {
    /// The committed, process-wide index; only read.
    pub global_index: &'g Index,
    /// The staging index holding the default values computed by this
    /// generator; never merged implicitly.
    pub local_index: Index,
}

impl<'g> InstanceStructGenerator<'g> {
    /// A generator over the given global index, with an empty local index.
    pub fn new(global_index: &'g Index) -> (r: InstanceStructGenerator<'g>)
        ensures
            r.global_index == global_index,
            r.local_index@.types == Seq::<(Seq<char>, crate::index::TypeInfoModel)>::empty(),
            r.local_index@.initial_values == Seq::<(Seq<char>, ValueRepModel)>::empty(),
            r.local_index@.global_variables == Seq::<(Seq<char>, ValueRepModel)>::empty(),
    {
        InstanceStructGenerator { global_index, local_index: Index::new() }
    }

    /// Resolves one declared member into its `(name, type, initial value)`
    /// triple.
    fn create_variable_declaration_elements(&self, variable: &Variable) -> (r: Result<
        (String, TypeRep, Option<ValueRep>),
        GenError,
    >)
        ensures
            match member_triple(self.global_index@, *variable) {
                Result::Ok(mm) => r matches Result::Ok(t) && t.0@ == mm.name && t.1@ == mm.ty
                    && opt_value_model(t.2) == mm.init,
                Result::Err(e) => r matches Result::Err(ge) && ge@ == e,
            },
    {
        let info = match self.global_index.find_type(variable.data_type.as_str()) {
            Option::Some(i) => i,
            Option::None => {
                return Err(GenError::UnknownDatatype { name: variable.data_type.clone() });
            },
        };
        let ty: TypeRep = match info.get_type() {
            Option::Some(t) => t.clone(),
            Option::None => {
                return Err(GenError::UnknownDatatype { name: variable.data_type.clone() });
            },
        };
        let init: Option<ValueRep> = match &variable.initializer {
            Option::Some(stmt) => {
                proof {
                    lemma_folded_int_in_range(*stmt);
                }
                match (evaluate_constant_int(stmt), &ty) {
                    (Option::Some(v), TypeRep::IntType { size }) => Some(
                        ValueRep::IntVal { size: *size, value: v as i64 },
                    ),
                    _ => {
                        return Err(GenError::InvalidInitializer { member: variable.name.clone() });
                    },
                }
            },
            Option::None => {
                match self.global_index.find_initial_value(variable.data_type.as_str()) {
                    Option::Some(v) => Some(v.clone()),
                    Option::None => None,
                }
            },
        };
        Ok((variable.name.clone(), ty, init))
    }

    /// Fills the pre-registered struct cell for `name` with the ordered
    /// member types and stages the struct's default aggregate value in the
    /// local index; see [`struct_gen`] for the exact effect.
    #[verifier::loop_isolation(false)]
    pub fn generate_struct_type(
        &mut self,
        context: &mut crate::typerep::TypeContext,
        member_variables: &Vec<Variable>,
        name: &str,
    ) -> (r: Result<TypeRep, GenError>)
        ensures
            final(self).global_index == old(self).global_index,
            match struct_gen(
                old(context)@,
                old(self).global_index@,
                member_variables@,
                name@,
            ) {
                Result::Ok(t3) => r matches Result::Ok(rt) && rt@ == t3.2
                    && final(context)@ == t3.0
                    && final(self).local_index@.initial_values =~= seq![(name@, t3.1)]
                        + old(self).local_index@.initial_values
                    && final(self).local_index@.types == old(self).local_index@.types
                    && final(self).local_index@.global_variables
                        == old(self).local_index@.global_variables,
                Result::Err(e) => r matches Result::Err(ge) && ge@ == e
                    && final(context)@ == old(context)@
                    && final(self).local_index@ == old(self).local_index@,
            },
    {
        let struct_type_info = match self.global_index.find_type(name) {
            Option::Some(i) => i,
            Option::None => {
                return Err(GenError::MissingStub { name: name.to_owned() });
            },
        };
        let struct_rep: TypeRep = match struct_type_info.get_type() {
            Option::Some(t) => t.clone(),
            Option::None => {
                return Err(GenError::MissingStub { name: name.to_owned() });
            },
        };
        let struct_name: String = match &struct_rep {
            TypeRep::StructRef { name: sn } => sn.clone(),
            _ => {
                return Err(GenError::MissingStub { name: name.to_owned() });
            },
        };

        let ghost m = self.global_index@;
        let ghost vars = member_variables@;
        let n = member_variables.len();
        let mut members: Vec<(String, TypeRep, Option<ValueRep>)> = Vec::new();
        let mut i: usize = 0;
        proof {
            assert(vars.subrange(0, n as int) =~= vars);
            let f0 = members_fold(m, vars);
            if f0 is Ok {
                assert(triples_model(members@) + f0->Ok_0 =~= f0->Ok_0);
            }
        }
        while i < n
            invariant
                i <= n,
                members@.len() == i,
                members_fold(m, vars) == (match members_fold(
                    m,
                    vars.subrange(i as int, n as int),
                ) {
                    Result::Ok(rest) => Result::<Seq<MemberModel>, GenErrorModel>::Ok(
                        triples_model(members@) + rest,
                    ),
                    Result::Err(e) => Result::<Seq<MemberModel>, GenErrorModel>::Err(e),
                }),
            decreases n - i,
        {
            proof {
                assert(vars.subrange(i as int, n as int)[0] == vars[i as int]);
                assert(vars.subrange(i as int, n as int).drop_first() =~= vars.subrange(
                    i as int + 1,
                    n as int,
                ));
            }
            let ghost pre = members@;
            match self.create_variable_declaration_elements(&member_variables[i]) {
                Result::Ok(triple) => {
                    members.push(triple);
                    proof {
                        let step = member_triple(m, vars[i as int]);
                        assert(step is Ok);
                        let mm = step->Ok_0;
                        assert(members@ == pre.push((triple.0, triple.1, triple.2)));
                        assert(triples_model(members@).last() == mm);
                        assert(triples_model(pre) =~= triples_model(members@).drop_last());
                        let f_rest = members_fold(m, vars.subrange(i as int + 1, n as int));
                        if f_rest is Ok {
                            let rest = f_rest->Ok_0;
                            assert(triples_model(members@) + rest =~= triples_model(pre) + (seq![
                                mm,
                            ] + rest));
                        }
                    }
                },
                Result::Err(e) => {
                    return Err(e);
                },
            }
            i = i + 1;
        }
        proof {
            assert(vars.subrange(n as int, n as int) =~= Seq::<Variable>::empty());
            assert(triples_model(members@) + Seq::<MemberModel>::empty() =~= triples_model(
                members@,
            ));
        }
        let ghost ms = triples_model(members@);

        let mut member_type_vec: Vec<TypeRep> = Vec::new();
        let mut j: usize = 0;
        while j < members.len()
            invariant
                j <= members.len(),
                member_type_vec@.len() == j,
                forall|k: int| 0 <= k < j ==> member_type_vec@[k]@ == ms[k].ty,
            decreases members.len() - j,
        {
            member_type_vec.push(members[j].1.clone());
            j = j + 1;
        }
        proof {
            assert(crate::typerep::reps_model(member_type_vec@) =~= member_types(ms));
        }
        if !context.set_struct_body(struct_name.as_str(), member_type_vec) {
            return Err(GenError::MissingStub { name: struct_name });
        }

        let mut fields: Vec<ValueRep> = Vec::new();
        let mut k: usize = 0;
        while k < members.len()
            invariant
                k <= members.len(),
                fields@.len() == k,
                forall|q: int| 0 <= q < k ==> fields@[q]@ == member_defaults(ms)[q],
            decreases members.len() - k,
        {
            let value: ValueRep = match &members[k].2 {
                Option::Some(v) => v.clone(),
                Option::None => get_default_for(&members[k].1),
            };
            fields.push(value);
            k = k + 1;
        }
        let aggregate = ValueRep::StructVal { struct_name: struct_name.clone(), fields };
        proof {
            crate::typerep::lemma_values_model(aggregate->StructVal_fields@);
            assert(crate::typerep::values_model(aggregate->StructVal_fields@) =~= member_defaults(
                ms,
            ));
        }
        self.local_index.associate_type_initial_value(name, aggregate);
        Ok(struct_rep)
    }

    /// Emits a fresh local storage slot of the struct type previously
    /// associated with `callable_name`, named `<callable>_instance`; a
    /// callable without a registered type is a lookup error, never a crash.
    pub fn allocate_struct_instance(&self, builder: &mut Builder, callable_name: &str) -> (r:
        Result<ValueRep, GenError>)
        ensures
            match callable_type(self.global_index@, callable_name@) {
                Option::Some(t) => r matches Result::Ok(v) && v@ == (ValueRepModel::LocalRef {
                    name: callable_name@ + "_instance"@,
                }) && final(builder)@ =~= old(builder)@ + seq![
                    LocalVarModel { name: callable_name@ + "_instance"@, ty: t },
                ],
                Option::None => r matches Result::Err(e) && e@
                    == (GenErrorModel::NoTypeAssociated { name: callable_name@ })
                    && final(builder)@ == old(builder)@,
            },
    {
        let instance_name = get_struct_instance_name(callable_name);
        let info = match self.global_index.find_type(callable_name) {
            Option::Some(i) => i,
            Option::None => {
                return Err(GenError::NoTypeAssociated { name: callable_name.to_owned() });
            },
        };
        let function_type: TypeRep = match info.get_type() {
            Option::Some(t) => t.clone(),
            Option::None => {
                return Err(GenError::NoTypeAssociated { name: callable_name.to_owned() });
            },
        };
        Ok(builder.create_local_variable(instance_name.as_str(), function_type))
    }
}

/// The low-level type a callable's name resolves to in the index.
pub open spec fn callable_type(m: IndexModel, name: Seq<char>) -> Option<TypeRepModel> {
    match resolved_info(m, name) {
        Option::Some(info) => info_type(info),
        Option::None => None,
    }
}

/// The member models of a vector of resolved triples.
pub open spec fn triples_model(ts: Seq<(String, TypeRep, Option<ValueRep>)>) -> Seq<MemberModel> {
    Seq::new(
        ts.len(),
        |i: int| MemberModel { name: ts[i].0@, ty: ts[i].1@, init: opt_value_model(ts[i].2) },
    )
}

} // verus!
