//! The type index: the symbol table mapping type names to their descriptors,
//! to optional default values, and to the global variables that hold enum
//! constants.

use vstd::prelude::*;
use crate::typerep::{TypeRep, TypeRepModel, ValueRep, ValueRepModel};
use crate::dimensions::Dimension;

verus! {

/// First match in an association list of name/value pairs; entries added
/// later are put in front, so the first match is the latest association.
pub open spec fn map_find<T>(entries: Seq<(Seq<char>, T)>, name: Seq<char>) -> Option<T>
    decreases entries.len(),
{
    if entries.len() == 0 {
        None
    } else if entries[0].0 == name {
        Some(entries[0].1)
    } else {
        map_find(entries.drop_first(), name)
    }
}

/// Skipping entries whose name does not match leaves the lookup unchanged.
pub proof fn lemma_map_find_skip<T>(entries: Seq<(Seq<char>, T)>, name: Seq<char>, i: int)
    requires
        0 <= i <= entries.len(),
        forall|j: int| 0 <= j < i ==> entries[j].0 != name,
    ensures
        map_find(entries, name) == map_find(entries.subrange(i, entries.len() as int), name),
    decreases i,
{
    if i > 0 {
        lemma_map_find_skip(entries, name, i - 1);
        assert(entries.subrange(i - 1, entries.len() as int).drop_first()
            =~= entries.subrange(i, entries.len() as int));
    } else {
        assert(entries.subrange(0, entries.len() as int) =~= entries);
    }
}

/// An association list from names to values, where a later association for
/// the same name shadows an earlier one (last write wins).
pub struct NamedMap<T> {
    entries: Vec<(String, T)>,
}

impl<T: View> View for NamedMap<T> {
    type V = Seq<(Seq<char>, <T as View>::V)>;

    closed spec fn view(&self) -> Seq<(Seq<char>, <T as View>::V)> {
        Seq::new(self.entries@.len(), |i: int| (self.entries@[i].0@, self.entries@[i].1@))
    }
}

impl<T: View> NamedMap<T> {
    /// An empty map.
    pub fn new() -> (r: NamedMap<T>)
        ensures
            r@ == Seq::<(Seq<char>, <T as View>::V)>::empty(),
    {
        let r = NamedMap { entries: Vec::new() };
        proof {
            assert(r@ =~= Seq::<(Seq<char>, <T as View>::V)>::empty());
        }
        r
    }

    /// Associates `name` with `value`; a previous association for `name` is
    /// shadowed.
    pub fn insert(&mut self, name: &str, value: T)
        ensures
            final(self)@ =~= seq![(name@, value@)] + old(self)@,
    {
        self.entries.insert(0, (name.to_owned(), value));
    }

    /// The latest value associated with `name`, if any.
    pub fn find(&self, name: &str) -> (r: Option<&T>)
        ensures
            match r {
                Option::Some(v) => map_find(self@, name@) == Some(v@),
                Option::None => map_find(self@, name@) is None,
            },
    {
        let key: String = name.to_owned();
        let n = self.entries.len();
        let mut i: usize = 0;
        while i < n
            invariant
                n == self.entries.len(),
                0 <= i <= n,
                key@ == name@,
                forall|j: int| 0 <= j < i ==> self@[j].0 != name@,
            decreases n - i,
        {
            if self.entries[i].0 == key {
                proof {
                    lemma_map_find_skip(self@, name@, i as int);
                }
                return Some(&self.entries[i].1);
            }
            i = i + 1;
        }
        proof {
            lemma_map_find_skip(self@, name@, n as int);
        }
        None
    }
}

/// The descriptor the index keeps for one named type: one case per type
/// category.
#[derive(Debug, PartialEq)]
pub enum DataTypeInformation {
    /// A declared struct: its name and the (opaque-then-concrete) named
    /// struct type that represents it.
    Struct { name: String, generated_type: TypeRep },
    /// An integer type of the given signedness and bit width (enums are
    /// represented as 32-bit signed integers).
    Integer { signed: bool, size: u32, generated_type: TypeRep },
    /// An alias: stores only the *name* of the immediately referenced type;
    /// resolution happens lazily, one hop per lookup.
    Alias { name: String, referenced_type: String },
    /// An array: the element's own full descriptor (an owned copy), the
    /// ordered dimensions and the fully nested low-level array type.
    Array {
        name: String,
        internal_type_information: Box<DataTypeInformation>,
        dimensions: Vec<Dimension>,
        generated_type: TypeRep,
    },
}

/// The mathematical model of a [`DataTypeInformation`].
pub enum TypeInfoModel {
    Struct { name: Seq<char>, generated_type: TypeRepModel },
    Integer { signed: bool, size: u32, generated_type: TypeRepModel },
    Alias { name: Seq<char>, referenced_type: Seq<char> },
    Array {
        name: Seq<char>,
        internal_type_information: Box<TypeInfoModel>,
        dimensions: Seq<Dimension>,
        generated_type: TypeRepModel,
    },
}

impl View for DataTypeInformation {
    type V = TypeInfoModel;

    open spec fn view(&self) -> TypeInfoModel
        decreases self,
    {
        match self {
            DataTypeInformation::Struct { name, generated_type } => TypeInfoModel::Struct {
                name: name@,
                generated_type: generated_type@,
            },
            DataTypeInformation::Integer { signed, size, generated_type } => {
                TypeInfoModel::Integer {
                    signed: *signed,
                    size: *size,
                    generated_type: generated_type@,
                }
            },
            DataTypeInformation::Alias { name, referenced_type } => TypeInfoModel::Alias {
                name: name@,
                referenced_type: referenced_type@,
            },
            DataTypeInformation::Array {
                name,
                internal_type_information,
                dimensions,
                generated_type,
            } => TypeInfoModel::Array {
                name: name@,
                internal_type_information: Box::new((**internal_type_information)@),
                dimensions: dimensions@,
                generated_type: generated_type@,
            },
        }
    }
}

impl Clone for DataTypeInformation {
    /// Cloning keeps the modelled value.
    fn clone(&self) -> (r: Self)
        ensures
            r@ == self@,
        decreases self,
    {
        match self {
            DataTypeInformation::Struct { name, generated_type } => DataTypeInformation::Struct {
                name: name.clone(),
                generated_type: generated_type.clone(),
            },
            DataTypeInformation::Integer { signed, size, generated_type } => {
                DataTypeInformation::Integer {
                    signed: *signed,
                    size: *size,
                    generated_type: generated_type.clone(),
                }
            },
            DataTypeInformation::Alias { name, referenced_type } => DataTypeInformation::Alias {
                name: name.clone(),
                referenced_type: referenced_type.clone(),
            },
            DataTypeInformation::Array {
                name,
                internal_type_information,
                dimensions,
                generated_type,
            } => DataTypeInformation::Array {
                name: name.clone(),
                internal_type_information: Box::new((**internal_type_information).clone()),
                dimensions: dimensions.clone(),
                generated_type: generated_type.clone(),
            },
        }
    }
}

/// The low-level type descriptor a descriptor carries: aliases carry none.
pub open spec fn info_type(m: TypeInfoModel) -> Option<TypeRepModel> {
    match m {
        TypeInfoModel::Struct { generated_type, .. } => Some(generated_type),
        TypeInfoModel::Integer { generated_type, .. } => Some(generated_type),
        TypeInfoModel::Alias { .. } => None,
        TypeInfoModel::Array { generated_type, .. } => Some(generated_type),
    }
}

impl DataTypeInformation {
    /// The low-level type descriptor, if this category carries one.
    pub fn get_type(&self) -> (r: Option<&TypeRep>)
        ensures
            match r {
                Option::Some(t) => info_type(self@) == Some(t@),
                Option::None => info_type(self@) is None,
            },
    {
        match self {
            DataTypeInformation::Struct { generated_type, .. } => Some(generated_type),
            DataTypeInformation::Integer { generated_type, .. } => Some(generated_type),
            DataTypeInformation::Alias { .. } => None,
            DataTypeInformation::Array { generated_type, .. } => Some(generated_type),
        }
    }
}

/// The model of the whole type index.
#[verifier::ext_equal]
pub struct IndexModel {
    pub types: Seq<(Seq<char>, TypeInfoModel)>,
    pub initial_values: Seq<(Seq<char>, ValueRepModel)>,
    pub global_variables: Seq<(Seq<char>, ValueRepModel)>,
}

/// The name a lookup of `name` effectively reads: if `name` is registered as
/// an alias, the name of its immediately referenced type, else `name` itself.
/// Alias chains are deliberately *not* flattened: looking up an alias to an
/// alias yields the middle alias's descriptor.
pub open spec fn effective_name(m: IndexModel, name: Seq<char>) -> Seq<char> {
    match map_find(m.types, name) {
        Some(TypeInfoModel::Alias { referenced_type, .. }) => referenced_type,
        _ => name,
    }
}

/// What a resolving lookup of `name` returns: the descriptor registered
/// under the effective name.
pub open spec fn resolved_info(m: IndexModel, name: Seq<char>) -> Option<TypeInfoModel> {
    map_find(m.types, effective_name(m, name))
}

/// Law: looking up a name registered as an alias returns the descriptor of
/// its immediately referenced name — which may itself be an alias — never a
/// flattened chain.
pub proof fn lemma_alias_lookup_one_hop(m: IndexModel, name: Seq<char>)
    requires
        map_find(m.types, name) matches Some(TypeInfoModel::Alias { .. }),
    ensures
        resolved_info(m, name) == map_find(
            m.types,
            map_find(m.types, name)->0->Alias_referenced_type,
        ),
{
}

/// The symbol table mapping type names to descriptors, to optional default
/// values, and names of enum constants to their global variables.
pub struct Index {
    types: NamedMap<DataTypeInformation>,
    initial_values: NamedMap<ValueRep>,
    global_variables: NamedMap<ValueRep>,
}

impl View for Index {
    type V = IndexModel;

    closed spec fn view(&self) -> IndexModel {
        IndexModel {
            types: self.types@,
            initial_values: self.initial_values@,
            global_variables: self.global_variables@,
        }
    }
}

impl Index {
    /// An empty index.
    pub fn new() -> (r: Index)
        ensures
            r@.types == Seq::<(Seq<char>, TypeInfoModel)>::empty(),
            r@.initial_values == Seq::<(Seq<char>, ValueRepModel)>::empty(),
            r@.global_variables == Seq::<(Seq<char>, ValueRepModel)>::empty(),
    {
        Index {
            types: NamedMap::new(),
            initial_values: NamedMap::new(),
            global_variables: NamedMap::new(),
        }
    }

    /// Inserts or overwrites the descriptor for `name`; the last write wins.
    pub fn associate_type(&mut self, name: &str, info: DataTypeInformation)
        ensures
            final(self)@.types =~= seq![(name@, info@)] + old(self)@.types,
            final(self)@.initial_values == old(self)@.initial_values,
            final(self)@.global_variables == old(self)@.global_variables,
    {
        self.types.insert(name, info);
    }

    /// Records the alias edge `name -> target_name`.
    pub fn associate_type_alias(&mut self, name: &str, target_name: &str)
        ensures
            final(self)@.types =~= seq![
                (name@, TypeInfoModel::Alias { name: name@, referenced_type: target_name@ }),
            ] + old(self)@.types,
            final(self)@.initial_values == old(self)@.initial_values,
            final(self)@.global_variables == old(self)@.global_variables,
    {
        let info = DataTypeInformation::Alias {
            name: name.to_owned(),
            referenced_type: target_name.to_owned(),
        };
        self.types.insert(name, info);
    }

    /// Attaches a computed default value to `name`; the last write wins.
    pub fn associate_type_initial_value(&mut self, name: &str, value: ValueRep)
        ensures
            final(self)@.initial_values =~= seq![(name@, value@)] + old(self)@.initial_values,
            final(self)@.types == old(self)@.types,
            final(self)@.global_variables == old(self)@.global_variables,
    {
        self.initial_values.insert(name, value);
    }

    /// Records the global variable that holds an enum constant under the
    /// element's own name.
    pub fn associate_global_variable(&mut self, name: &str, variable: ValueRep)
        ensures
            final(self)@.global_variables =~= seq![(name@, variable@)] + old(self)@.global_variables,
            final(self)@.types == old(self)@.types,
            final(self)@.initial_values == old(self)@.initial_values,
    {
        self.global_variables.insert(name, variable);
    }

    /// The descriptor for `name`, resolving an alias by exactly one hop:
    /// looking up an alias returns the descriptor of its immediately
    /// referenced name, never a fully flattened chain.
    pub fn find_type(&self, name: &str) -> (r: Option<&DataTypeInformation>)
        ensures
            match r {
                Option::Some(info) => resolved_info(self@, name@) == Some(info@),
                Option::None => resolved_info(self@, name@) is None,
            },
    {
        match self.types.find(name) {
            Option::Some(info) => match info {
                DataTypeInformation::Alias { referenced_type, .. } => {
                    self.types.find(referenced_type.as_str())
                },
                _ => Some(info),
            },
            Option::None => None,
        }
    }

    /// As [`Self::find_type`], but returns an owned copy of the descriptor.
    pub fn find_type_information(&self, name: &str) -> (r: Option<DataTypeInformation>)
        ensures
            match r {
                Option::Some(info) => resolved_info(self@, name@) == Some(info@),
                Option::None => resolved_info(self@, name@) is None,
            },
    {
        match self.find_type(name) {
            Option::Some(info) => Some(info.clone()),
            Option::None => None,
        }
    }

    /// The default value registered for `name` (under its effective name,
    /// with the same one-hop alias resolution as [`Self::find_type`]).
    pub fn find_initial_value(&self, name: &str) -> (r: Option<&ValueRep>)
        ensures
            match r {
                Option::Some(v) => map_find(self@.initial_values, effective_name(self@, name@))
                    == Some(v@),
                Option::None => map_find(self@.initial_values, effective_name(self@, name@))
                    is None,
            },
    {
        match self.types.find(name) {
            Option::Some(DataTypeInformation::Alias { referenced_type, .. }) => {
                self.initial_values.find(referenced_type.as_str())
            },
            _ => self.initial_values.find(name),
        }
    }

    /// The global variable registered under `name`, if any.
    pub fn find_global_variable(&self, name: &str) -> (r: Option<&ValueRep>)
        ensures
            match r {
                Option::Some(v) => map_find(self@.global_variables, name@) == Some(v@),
                Option::None => map_find(self@.global_variables, name@) is None,
            },
    {
        self.global_variables.find(name)
    }
}

} // verus!
