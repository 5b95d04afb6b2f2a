//! Plain-data descriptors for the low-level layer: scalar, named-struct,
//! array and pointer types, constant values, and the containers that hold
//! named struct cells, global variables and emitted local variables.
//!
//! An unverified backend can map each descriptor one to one onto a real
//! code-generation library; everything this crate proves is stated over
//! these descriptors.

use vstd::prelude::*;

verus! {

broadcast use vstd::std_specs::vec::group_vec_axioms;

/// A low-level type descriptor.
#[derive(Debug, PartialEq)]
pub enum TypeRep {
    /// A fixed-width integer type.
    IntType { size: u32 },
    /// A named struct type; its body (member list) lives in the
    /// [`TypeContext`] under `name` and may still be opaque.
    StructRef { name: String },
    /// An array of `len` elements of the element type.
    ArrayOf { element: Box<TypeRep>, len: u32 },
    /// A pointer to the pointee type.
    PointerTo { pointee: Box<TypeRep> },
}

/// The mathematical model of a [`TypeRep`]: the same tree with strings
/// abstracted to character sequences.
pub enum TypeRepModel {
    IntType { size: u32 },
    StructRef { name: Seq<char> },
    ArrayOf { element: Box<TypeRepModel>, len: u32 },
    PointerTo { pointee: Box<TypeRepModel> },
}

impl View for TypeRep {
    type V = TypeRepModel;

    open spec fn view(&self) -> TypeRepModel
        decreases self,
    {
        match self {
            TypeRep::IntType { size } => TypeRepModel::IntType { size: *size },
            TypeRep::StructRef { name } => TypeRepModel::StructRef { name: name@ },
            TypeRep::ArrayOf { element, len } => TypeRepModel::ArrayOf {
                element: Box::new((**element)@),
                len: *len,
            },
            TypeRep::PointerTo { pointee } => TypeRepModel::PointerTo {
                pointee: Box::new((**pointee)@),
            },
        }
    }
}

impl Clone for TypeRep {
    /// Cloning keeps the modelled value.
    fn clone(&self) -> (r: Self)
        ensures
            r@ == self@,
        decreases self,
    {
        match self {
            TypeRep::IntType { size } => TypeRep::IntType { size: *size },
            TypeRep::StructRef { name } => TypeRep::StructRef { name: name.clone() },
            TypeRep::ArrayOf { element, len } => TypeRep::ArrayOf {
                element: Box::new((**element).clone()),
                len: *len,
            },
            TypeRep::PointerTo { pointee } => TypeRep::PointerTo {
                pointee: Box::new((**pointee).clone()),
            },
        }
    }
}

/// A low-level constant or address value.
#[derive(Debug, PartialEq)]
pub enum ValueRep {
    /// An integer constant of the given width.
    IntVal { size: u32, value: i64 },
    /// A constant aggregate of the named struct type, one value per member
    /// in declaration order.
    StructVal { struct_name: String, fields: Vec<ValueRep> },
    /// The zero-initialized constant of a non-integer type.
    ZeroVal { ty: TypeRep },
    /// The address of the global variable of that name.
    GlobalRef { name: String },
    /// The address of the emitted local variable of that name.
    LocalRef { name: String },
}

/// The mathematical model of a [`ValueRep`].
pub enum ValueRepModel {
    IntVal { size: u32, value: i64 },
    StructVal { struct_name: Seq<char>, fields: Seq<ValueRepModel> },
    ZeroVal { ty: TypeRepModel },
    GlobalRef { name: Seq<char> },
    LocalRef { name: Seq<char> },
}

/// The model of one value.
pub open spec fn value_model(v: ValueRep) -> ValueRepModel
    decreases v,
{
    match v {
        ValueRep::IntVal { size, value } => ValueRepModel::IntVal { size, value },
        ValueRep::StructVal { struct_name, fields } => {
            proof {
                assert(decreases_to!(v => v->StructVal_fields));
                assert(decreases_to!(v->StructVal_fields => v->StructVal_fields@));
            }
            ValueRepModel::StructVal { struct_name: struct_name@, fields: values_model(fields@) }
        },
        ValueRep::ZeroVal { ty } => ValueRepModel::ZeroVal { ty: ty@ },
        ValueRep::GlobalRef { name } => ValueRepModel::GlobalRef { name: name@ },
        ValueRep::LocalRef { name } => ValueRepModel::LocalRef { name: name@ },
    }
}

/// The models of a sequence of values, element by element.
pub open spec fn values_model(s: Seq<ValueRep>) -> Seq<ValueRepModel>
    decreases s,
{
    if s.len() == 0 {
        Seq::empty()
    } else {
        seq![value_model(s[0])] + values_model(s.subrange(1, s.len() as int))
    }
}

/// `values_model` maps the element models one to one.
pub proof fn lemma_values_model(s: Seq<ValueRep>)
    ensures
        values_model(s).len() == s.len(),
        forall|i: int| 0 <= i < s.len() ==> values_model(s)[i] == value_model(s[i]),
    decreases s.len(),
{
    if s.len() > 0 {
        lemma_values_model(s.subrange(1, s.len() as int));
    }
}

impl View for ValueRep {
    type V = ValueRepModel;

    open spec fn view(&self) -> ValueRepModel {
        value_model(*self)
    }
}

impl Clone for ValueRep {
    /// Cloning keeps the modelled value.
    #[verifier::loop_isolation(false)]
    fn clone(&self) -> (r: Self)
        ensures
            r@ == self@,
        decreases self,
    {
        match self {
            ValueRep::IntVal { size, value } => ValueRep::IntVal {
                size: *size,
                value: *value,
            },
            ValueRep::StructVal { struct_name, fields } => {
                let mut cloned_fields: Vec<ValueRep> = Vec::new();
                let mut i: usize = 0;
                while i < fields.len()
                    invariant
                        i <= fields.len(),
                        cloned_fields.len() == i,
                        forall|j: int| 0 <= j < i ==> cloned_fields[j]@ == fields[j]@,
                    decreases fields.len() - i,
                {
                    proof {
                        let v = *self;
                        assert(v is StructVal);
                        assert(decreases_to!(v => v->StructVal_fields));
                        assert(decreases_to!(v->StructVal_fields => v->StructVal_fields@));
                        assert(*fields == v->StructVal_fields);
                        assert(i < v->StructVal_fields@.len());
                        assert(decreases_to!(v->StructVal_fields@
                            => v->StructVal_fields@[i as int]));
                    }
                    cloned_fields.push(fields[i].clone());
                    i = i + 1;
                }
                let r = ValueRep::StructVal {
                    struct_name: struct_name.clone(),
                    fields: cloned_fields,
                };
                proof {
                    lemma_values_model(fields@);
                    lemma_values_model(r->StructVal_fields@);
                    assert(values_model(r->StructVal_fields@) =~= values_model(fields@));
                }
                r
            },
            ValueRep::ZeroVal { ty } => ValueRep::ZeroVal { ty: ty.clone() },
            ValueRep::GlobalRef { name } => ValueRep::GlobalRef { name: name.clone() },
            ValueRep::LocalRef { name } => ValueRep::LocalRef { name: name.clone() },
        }
    }
}

/// The models of a sequence of type descriptors, element by element.
pub open spec fn reps_model(s: Seq<TypeRep>) -> Seq<TypeRepModel> {
    Seq::new(s.len(), |i: int| s[i]@)
}

/// The model of an optional value.
pub open spec fn opt_value_model(v: Option<ValueRep>) -> Option<ValueRepModel> {
    match v {
        Option::Some(x) => Some(value_model(x)),
        Option::None => None,
    }
}

/// The generic default value of a type: zero for integer types, the
/// zero-initializer constant for every other type.
pub fn get_default_for(ty: &TypeRep) -> (r: ValueRep)
    ensures
        r@ == spec_default_for(ty@),
{
    match ty {
        TypeRep::IntType { size } => ValueRep::IntVal { size: *size, value: 0 },
        _ => ValueRep::ZeroVal { ty: ty.clone() },
    }
}

/// What [`get_default_for`] returns.
pub open spec fn spec_default_for(ty: TypeRepModel) -> ValueRepModel {
    match ty {
        TypeRepModel::IntType { size } => ValueRepModel::IntVal { size, value: 0 },
        _ => ValueRepModel::ZeroVal { ty },
    }
}

/// The body of a named struct cell: `None` while the struct is still opaque,
/// the ordered member types once the body has been set.
pub struct StructBody {
    pub members: Option<Vec<TypeRep>>,
}

impl View for StructBody {
    type V = Option<Seq<TypeRepModel>>;

    open spec fn view(&self) -> Option<Seq<TypeRepModel>> {
        match self.members {
            Option::Some(ref v) => Some(reps_model(v@)),
            Option::None => None,
        }
    }
}

/// The registry of named struct types: each name maps to a two-state cell
/// that is opaque until its body is filled in.
pub struct TypeContext {
    cells: crate::index::NamedMap<StructBody>,
}

impl View for TypeContext {
    type V = Seq<(Seq<char>, Option<Seq<TypeRepModel>>)>;

    closed spec fn view(&self) -> Seq<(Seq<char>, Option<Seq<TypeRepModel>>)> {
        self.cells@
    }
}

impl TypeContext {
    /// A registry with no struct cells.
    pub fn new() -> (r: TypeContext)
        ensures
            r@ == Seq::<(Seq<char>, Option<Seq<TypeRepModel>>)>::empty(),
    {
        TypeContext { cells: crate::index::NamedMap::new() }
    }

    /// Registers an opaque struct cell under `name` (shadowing any earlier
    /// cell of that name) and returns the descriptor that refers to it.
    pub fn opaque_struct_type(&mut self, name: &str) -> (r: TypeRep)
        ensures
            final(self)@ =~= seq![(name@, Option::<Seq<TypeRepModel>>::None)] + old(self)@,
            r@ == (TypeRepModel::StructRef { name: name@ }),
    {
        self.cells.insert(name, StructBody { members: None });
        TypeRep::StructRef { name: name.to_owned() }
    }

    /// The current body of the cell named `name`: `None` if no such cell,
    /// `Some(None)` while opaque, `Some(Some(members))` once filled.
    pub fn find_struct_body(&self, name: &str) -> (r: Option<&StructBody>)
        ensures
            match r {
                Option::Some(b) => crate::index::map_find(self@, name@) == Some(b@),
                Option::None => crate::index::map_find(self@, name@) is None,
            },
    {
        self.cells.find(name)
    }

    /// Fills the body of the cell named `name` with the ordered member
    /// types; returns false (and changes nothing) if no such cell exists.
    pub fn set_struct_body(&mut self, name: &str, members: Vec<TypeRep>) -> (r: bool)
        ensures
            r == (crate::index::map_find(old(self)@, name@) is Some),
            r ==> final(self)@ =~= seq![(name@, Some(reps_model(members@)))] + old(self)@,
            !r ==> final(self)@ == old(self)@,
    {
        let exists_already = self.cells.find(name).is_some();
        if exists_already {
            self.cells.insert(name, StructBody { members: Some(members) });
            true
        } else {
            false
        }
    }
}

/// A global variable emitted into the module.
pub struct GlobalVariable {
    pub name: String,
    pub ty: TypeRep,
    pub initial_value: Option<ValueRep>,
}

/// The model of a [`GlobalVariable`].
pub struct GlobalVarModel {
    pub name: Seq<char>,
    pub ty: TypeRepModel,
    pub initial_value: Option<ValueRepModel>,
}

impl View for GlobalVariable {
    type V = GlobalVarModel;

    open spec fn view(&self) -> GlobalVarModel {
        GlobalVarModel {
            name: self.name@,
            ty: self.ty@,
            initial_value: opt_value_model(self.initial_value),
        }
    }
}

/// The compilation module: the ordered list of global variables emitted so
/// far.
pub struct Module {
    globals: Vec<GlobalVariable>,
}

impl View for Module {
    type V = Seq<GlobalVarModel>;

    closed spec fn view(&self) -> Seq<GlobalVarModel> {
        Seq::new(self.globals@.len(), |i: int| self.globals@[i]@)
    }
}

impl Module {
    /// A module with no globals.
    pub fn new() -> (r: Module)
        ensures
            r@ == Seq::<GlobalVarModel>::empty(),
    {
        let r = Module { globals: Vec::new() };
        proof {
            assert(r@ =~= Seq::<GlobalVarModel>::empty());
        }
        r
    }

    /// Emits a global variable and returns the value that refers to it.
    pub fn create_global_variable(&mut self, name: &str, ty: TypeRep, initial_value: Option<
        ValueRep,
    >) -> (r: ValueRep)
        ensures
            final(self)@ =~= old(self)@ + seq![
                GlobalVarModel { name: name@, ty: ty@, initial_value: opt_value_model(initial_value) },
            ],
            r@ == (ValueRepModel::GlobalRef { name: name@ }),
    {
        self.globals.push(GlobalVariable { name: name.to_owned(), ty, initial_value });
        ValueRep::GlobalRef { name: name.to_owned() }
    }

    /// How many globals have been emitted.
    pub fn len(&self) -> (r: usize)
        ensures
            r == self@.len(),
    {
        self.globals.len()
    }

    /// The `i`-th emitted global, in emission order.
    pub fn get(&self, i: usize) -> (r: &GlobalVariable)
        requires
            i < self@.len(),
        ensures
            r@ == self@[i as int],
    {
        &self.globals[i]
    }
}

/// A local variable (storage slot) emitted into the current function.
pub struct LocalVariable {
    pub name: String,
    pub ty: TypeRep,
}

/// The model of a [`LocalVariable`].
pub struct LocalVarModel {
    pub name: Seq<char>,
    pub ty: TypeRepModel,
}

impl View for LocalVariable {
    type V = LocalVarModel;

    open spec fn view(&self) -> LocalVarModel {
        LocalVarModel { name: self.name@, ty: self.ty@ }
    }
}

/// The instruction builder: records the local variables emitted so far.
pub struct Builder {
    locals: Vec<LocalVariable>,
}

impl View for Builder {
    type V = Seq<LocalVarModel>;

    closed spec fn view(&self) -> Seq<LocalVarModel> {
        Seq::new(self.locals@.len(), |i: int| self.locals@[i]@)
    }
}

impl Builder {
    /// A builder with no emitted locals.
    pub fn new() -> (r: Builder)
        ensures
            r@ == Seq::<LocalVarModel>::empty(),
    {
        let r = Builder { locals: Vec::new() };
        proof {
            assert(r@ =~= Seq::<LocalVarModel>::empty());
        }
        r
    }

    /// Emits a local storage slot of the given type and returns the value
    /// that refers to it.
    pub fn create_local_variable(&mut self, name: &str, ty: TypeRep) -> (r: ValueRep)
        ensures
            final(self)@ =~= old(self)@ + seq![LocalVarModel { name: name@, ty: ty@ }],
            r@ == (ValueRepModel::LocalRef { name: name@ }),
    {
        self.locals.push(LocalVariable { name: name.to_owned(), ty });
        ValueRep::LocalRef { name: name.to_owned() }
    }

    /// How many locals have been emitted.
    pub fn len(&self) -> (r: usize)
        ensures
            r == self@.len(),
    {
        self.locals.len()
    }

    /// The `i`-th emitted local, in emission order.
    pub fn get(&self, i: usize) -> (r: &LocalVariable)
        requires
            i < self@.len(),
        ensures
            r@ == self@[i as int],
    {
        &self.locals[i]
    }
}

} // verus!
