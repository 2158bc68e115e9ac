//! The schema listing of the REST API: schema rows and property-definition
//! rows become nested "slice" answers, with struct-typed properties resolved
//! recursively through the definition table.

use vstd::prelude::*;

use crate::error::RestApiResponseError;
use crate::text::clone_opt_string;
use crate::text::clone_string_vec;
use crate::text::str_eq;
use vstd::string::StringExecFns;

verus! {

broadcast use vstd::std_specs::vec::axiom_vec_index_decreases;

/// A schema row.
pub struct GridSchema {
    pub name: String,
    pub description: String,
    pub owner: String,
    pub service_id: Option<String>,
}

/// Mathematical model of a [`GridSchema`].
pub struct SchemaV {
    pub name: Seq<char>,
    pub description: Seq<char>,
    pub owner: Seq<char>,
    pub service_id: Option<Seq<char>>,
}

impl View for GridSchema {
    type V = SchemaV;

    open spec fn view(&self) -> SchemaV {
        SchemaV {
            name: self.name@,
            description: self.description@,
            owner: self.owner@,
            service_id: self.service_id.deep_view(),
        }
    }
}

impl DeepView for GridSchema {
    type V = SchemaV;

    open spec fn deep_view(&self) -> SchemaV {
        self.view()
    }
}

/// A property-definition row; a struct-typed definition names its member
/// definitions.
pub struct GridPropertyDefinition {
    pub name: String,
    pub schema_name: String,
    pub data_type: String,
    pub required: bool,
    pub description: String,
    pub number_exponent: i64,
    pub enum_options: Vec<String>,
    pub struct_properties: Vec<String>,
    pub service_id: Option<String>,
}

/// Mathematical model of a [`GridPropertyDefinition`].
pub struct PropertyDefinitionV {
    pub name: Seq<char>,
    pub schema_name: Seq<char>,
    pub data_type: Seq<char>,
    pub required: bool,
    pub description: Seq<char>,
    pub number_exponent: i64,
    pub enum_options: Seq<Seq<char>>,
    pub struct_properties: Seq<Seq<char>>,
    pub service_id: Option<Seq<char>>,
}

impl View for GridPropertyDefinition {
    type V = PropertyDefinitionV;

    open spec fn view(&self) -> PropertyDefinitionV {
        PropertyDefinitionV {
            name: self.name@,
            schema_name: self.schema_name@,
            data_type: self.data_type@,
            required: self.required,
            description: self.description@,
            number_exponent: self.number_exponent,
            enum_options: self.enum_options.deep_view(),
            struct_properties: self.struct_properties.deep_view(),
            service_id: self.service_id.deep_view(),
        }
    }
}

impl DeepView for GridPropertyDefinition {
    type V = PropertyDefinitionV;

    open spec fn deep_view(&self) -> PropertyDefinitionV {
        self.view()
    }
}

/// One property of a schema answer; a struct-typed property nests its
/// members' slices.
pub struct GridPropertyDefinitionSlice {
    pub name: String,
    pub schema_name: String,
    pub data_type: String,
    pub required: bool,
    pub description: String,
    pub number_exponent: i64,
    pub enum_options: Vec<String>,
    pub struct_properties: Vec<GridPropertyDefinitionSlice>,
    pub service_id: Option<String>,
}

/// Mathematical model of a [`GridPropertyDefinitionSlice`].
pub struct PropertySliceV {
    pub name: Seq<char>,
    pub schema_name: Seq<char>,
    pub data_type: Seq<char>,
    pub required: bool,
    pub description: Seq<char>,
    pub number_exponent: i64,
    pub enum_options: Seq<Seq<char>>,
    pub struct_properties: Seq<PropertySliceV>,
    pub service_id: Option<Seq<char>>,
}

/// The model of a property slice, member slices modelled recursively.
pub open spec fn slice_view(s: GridPropertyDefinitionSlice) -> PropertySliceV
    decreases s,
{
    PropertySliceV {
        name: s.name@,
        schema_name: s.schema_name@,
        data_type: s.data_type@,
        required: s.required,
        description: s.description@,
        number_exponent: s.number_exponent,
        enum_options: s.enum_options.deep_view(),
        struct_properties: Seq::new(
            s.struct_properties@.len(),
            |i: int|
                if 0 <= i < s.struct_properties@.len() {
                    slice_view(s.struct_properties@[i])
                } else {
                    arbitrary()
                },
        ),
        service_id: s.service_id.deep_view(),
    }
}

/// The models of a sequence of property slices.
pub open spec fn slices_view(l: Seq<GridPropertyDefinitionSlice>) -> Seq<PropertySliceV> {
    Seq::new(l.len(), |i: int| slice_view(l[i]))
}

/// A schema answer: the schema row's fields and its property slices.
pub struct GridSchemaSlice {
    pub name: String,
    pub description: String,
    pub owner: String,
    pub properties: Vec<GridPropertyDefinitionSlice>,
    pub service_id: Option<String>,
}

/// Mathematical model of a [`GridSchemaSlice`].
pub struct SchemaSliceV {
    pub name: Seq<char>,
    pub description: Seq<char>,
    pub owner: Seq<char>,
    pub properties: Seq<PropertySliceV>,
    pub service_id: Option<Seq<char>>,
}

/// The model of a schema answer.
pub open spec fn schema_slice_view(s: GridSchemaSlice) -> SchemaSliceV {
    SchemaSliceV {
        name: s.name@,
        description: s.description@,
        owner: s.owner@,
        properties: slices_view(s.properties@),
        service_id: s.service_id.deep_view(),
    }
}

/// The slice a schema row turns into, once its property slices stand.
pub open spec fn spec_schema_slice(s: SchemaV, properties: Seq<PropertySliceV>) -> SchemaSliceV {
    SchemaSliceV {
        name: s.name,
        description: s.description,
        owner: s.owner,
        properties: properties,
        service_id: s.service_id,
    }
}

/// The slice a leaf definition turns into: its own fields, no members.
pub open spec fn spec_slice_of_definition(d: PropertyDefinitionV) -> PropertySliceV {
    PropertySliceV {
        name: d.name,
        schema_name: d.schema_name,
        data_type: d.data_type,
        required: d.required,
        description: d.description,
        number_exponent: d.number_exponent,
        enum_options: d.enum_options,
        struct_properties: Seq::empty(),
        service_id: d.service_id,
    }
}

/// The slice a struct-typed definition turns into, given its member slices.
pub open spec fn spec_slice_with_children(
    d: PropertyDefinitionV,
    children: Seq<PropertySliceV>,
) -> PropertySliceV {
    PropertySliceV {
        name: d.name,
        schema_name: d.schema_name,
        data_type: d.data_type,
        required: d.required,
        description: d.description,
        number_exponent: d.number_exponent,
        enum_options: d.enum_options,
        struct_properties: children,
        service_id: d.service_id,
    }
}

impl GridSchemaSlice {
    /// Shapes a schema row and its property slices into the answer.
    pub fn from_schema(schema: &GridSchema, properties: Vec<GridPropertyDefinitionSlice>) -> (r:
        Self)
        ensures
            schema_slice_view(r) == spec_schema_slice(schema@, slices_view(properties@)),
    {
        Self {
            name: schema.name.clone(),
            description: schema.description.clone(),
            owner: schema.owner.clone(),
            properties,
            service_id: clone_opt_string(&schema.service_id),
        }
    }
}

impl GridPropertyDefinitionSlice {
    /// Shapes a leaf definition into its slice, with no member slices.
    pub fn from_definition(definition: &GridPropertyDefinition) -> (r: Self)
        ensures
            slice_view(r) == spec_slice_of_definition(definition@),
    {
        let r = Self {
            name: definition.name.clone(),
            schema_name: definition.schema_name.clone(),
            data_type: definition.data_type.clone(),
            required: definition.required,
            description: definition.description.clone(),
            number_exponent: definition.number_exponent,
            enum_options: clone_string_vec(&definition.enum_options),
            struct_properties: Vec::new(),
            service_id: clone_opt_string(&definition.service_id),
        };
        proof {
            assert(slice_view(r).struct_properties =~= Seq::<PropertySliceV>::empty());
            assert(slice_view(r) == spec_slice_of_definition(definition@));
        }
        r
    }

    /// Shapes a struct-typed definition and its member slices into one
    /// slice.
    pub fn from_slices(
        definition: &GridPropertyDefinition,
        slices: Vec<GridPropertyDefinitionSlice>,
    ) -> (r: Self)
        ensures
            slice_view(r) == spec_slice_with_children(definition@, slices_view(slices@)),
    {
        let r = Self {
            name: definition.name.clone(),
            schema_name: definition.schema_name.clone(),
            data_type: definition.data_type.clone(),
            required: definition.required,
            description: definition.description.clone(),
            number_exponent: definition.number_exponent,
            enum_options: clone_string_vec(&definition.enum_options),
            struct_properties: slices,
            service_id: clone_opt_string(&definition.service_id),
        };
        proof {
            assert(slice_view(r).struct_properties =~= slices_view(slices@));
            assert(slice_view(r) == spec_slice_with_children(definition@, slices_view(slices@)));
        }
        r
    }
}

/// The first definition row at or after `from` for the given schema and
/// property name.
pub open spec fn spec_lookup_from(
    table: Seq<PropertyDefinitionV>,
    schema_name: Seq<char>,
    name: Seq<char>,
    from: int,
) -> Option<PropertyDefinitionV>
    decreases table.len() - from,
{
    if from < 0 || from >= table.len() {
        None
    } else if table[from].schema_name == schema_name && table[from].name == name {
        Some(table[from])
    } else {
        spec_lookup_from(table, schema_name, name, from + 1)
    }
}

/// The slice tree of one property: its definition row resolved in the
/// table, member definitions resolved recursively. `None` when a definition
/// is missing, or when nesting outruns `fuel` (which a cycle in the
/// definition table always does).
pub open spec fn spec_build_one(
    table: Seq<PropertyDefinitionV>,
    schema_name: Seq<char>,
    name: Seq<char>,
    fuel: nat,
) -> Option<PropertySliceV>
    decreases fuel, 0nat, 1nat,
{
    match spec_lookup_from(table, schema_name, name, 0) {
        None => None,
        Some(d) => {
            if d.struct_properties.len() == 0 {
                Some(spec_slice_of_definition(d))
            } else if fuel == 0 {
                None
            } else {
                match spec_build_list(table, schema_name, d.struct_properties, (fuel - 1) as nat) {
                    None => None,
                    Some(children) => Some(spec_slice_with_children(d, children)),
                }
            }
        },
    }
}

/// The slice trees of a list of property names, in list order.
pub open spec fn spec_build_list(
    table: Seq<PropertyDefinitionV>,
    schema_name: Seq<char>,
    names: Seq<Seq<char>>,
    fuel: nat,
) -> Option<Seq<PropertySliceV>>
    decreases fuel, names.len(), 0nat,
{
    if names.len() == 0 {
        Some(Seq::empty())
    } else {
        match spec_build_one(table, schema_name, names[0], fuel) {
            None => None,
            Some(s) => match spec_build_list(table, schema_name, names.drop_first(), fuel) {
                None => None,
                Some(rest) => Some(seq![s] + rest),
            },
        }
    }
}

/// Looks a property definition up by schema and property name.
fn lookup_definition<'a>(
    table: &'a Vec<GridPropertyDefinition>,
    schema_name: &str,
    name: &str,
) -> (r: Option<&'a GridPropertyDefinition>)
    ensures
        r matches Some(d) ==> Some(d@) == spec_lookup_from(
            table.deep_view(),
            schema_name@,
            name@,
            0,
        ),
        r is None ==> spec_lookup_from(table.deep_view(), schema_name@, name@, 0) is None,
{
    let mut i: usize = 0;
    while i < table.len()
        invariant
            i <= table.len(),
            spec_lookup_from(table.deep_view(), schema_name@, name@, 0) == spec_lookup_from(
                table.deep_view(),
                schema_name@,
                name@,
                i as int,
            ),
        decreases table.len() - i,
    {
        let d = &table[i];
        proof {
            assert(d@ == table.deep_view()[i as int]);
        }
        if str_eq(d.schema_name.as_str(), schema_name) && str_eq(d.name.as_str(), name) {
            return Some(d);
        }
        i = i + 1;
    }
    None
}

/// Builds the slice tree of one property and appends it; answers an error,
/// and appends nothing, when a definition is missing or nesting outruns
/// `fuel`.
fn make_definition_slices_aux(
    table: &Vec<GridPropertyDefinition>,
    schema_name: &str,
    name: &str,
    fuel: u64,
    slices: &mut Vec<GridPropertyDefinitionSlice>,
) -> (r: Result<(), RestApiResponseError>)
    ensures
        match spec_build_one(table.deep_view(), schema_name@, name@, fuel as nat) {
            Some(sl) => r is Ok && slices_view(final(slices)@) == slices_view(old(slices)@).push(
                sl,
            ),
            None => r is Err && final(slices)@ == old(slices)@,
        },
    decreases fuel,
{
    let ghost table_v: Seq<PropertyDefinitionV> = table.deep_view();
    let def = match lookup_definition(table, schema_name, name) {
        Some(d) => d,
        None => {
            return Err(
                RestApiResponseError::DatabaseError(
                    "Could not fetch property definition".to_owned(),
                ),
            );
        },
    };
    if def.struct_properties.len() == 0 {
        let ghost slices_before: Seq<GridPropertyDefinitionSlice> = slices@;
        slices.push(GridPropertyDefinitionSlice::from_definition(def));
        proof {
            assert(slices_view(slices@) =~= slices_view(slices_before).push(
                spec_slice_of_definition(def@),
            ));
        }
        Ok(())
    } else {
        if fuel == 0 {
            return Err(
                RestApiResponseError::DatabaseError(
                    "Property definitions nest too deeply".to_owned(),
                ),
            );
        }
        let ghost names: Seq<Seq<char>> = def@.struct_properties;
        let mut sub_slices: Vec<GridPropertyDefinitionSlice> = Vec::new();
        let mut j: usize = 0;
        proof {
            assert(slices_view(sub_slices@) =~= Seq::<PropertySliceV>::empty());
            assert(names.skip(0) =~= names);
        }
        while j < def.struct_properties.len()
            invariant
                j <= def.struct_properties.len(),
                names == def@.struct_properties,
                names.len() == def.struct_properties@.len(),
                table_v == table.deep_view(),
                fuel >= 1,
                spec_lookup_from(table_v, schema_name@, name@, 0) == Some(def@),
                def@.struct_properties.len() > 0,
                spec_build_list(table_v, schema_name@, names, (fuel - 1) as nat) == (
                match spec_build_list(
                    table_v,
                    schema_name@,
                    names.skip(j as int),
                    (fuel - 1) as nat,
                ) {
                    None => None,
                    Some(rest) => Some(slices_view(sub_slices@) + rest),
                }),
            decreases def.struct_properties.len() - j,
        {
            let ghost sub_before: Seq<GridPropertyDefinitionSlice> = sub_slices@;
            let child = &def.struct_properties[j];
            proof {
                assert(child@ == names[j as int]);
                assert(names.skip(j as int)[0] == names[j as int]);
            }
            match make_definition_slices_aux(table, schema_name, child.as_str(), fuel - 1,
                &mut sub_slices) {
                Ok(()) => {
                    proof {
                        assert(names.skip(j as int).drop_first() =~= names.skip(j as int + 1));
                        let one = spec_build_one(
                            table_v,
                            schema_name@,
                            names[j as int],
                            (fuel - 1) as nat,
                        ).unwrap();
                        assert forall|rest: Seq<PropertySliceV>| true implies slices_view(
                            sub_before,
                        ) + (seq![one] + rest) =~= slices_view(sub_slices@) + rest by {
                            assert(slices_view(sub_slices@) =~= slices_view(sub_before).push(one));
                        }
                    }
                },
                Err(e) => {
                    proof {
                        assert(spec_build_one(
                            table_v,
                            schema_name@,
                            names[j as int],
                            (fuel - 1) as nat,
                        ) is None);
                        assert(spec_build_list(
                            table_v,
                            schema_name@,
                            names.skip(j as int),
                            (fuel - 1) as nat,
                        ) is None);
                        assert(spec_build_list(table_v, schema_name@, names, (fuel - 1) as nat)
                            is None);
                        assert(spec_lookup_from(table_v, schema_name@, name@, 0) == Some(def@));
                        assert(def@.struct_properties.len() > 0);
                        assert(fuel as nat != 0);
                        assert(spec_build_list(
                            table_v,
                            schema_name@,
                            def@.struct_properties,
                            ((fuel as nat) - 1) as nat,
                        ) is None);
                        assert(spec_build_one(table_v, schema_name@, name@, fuel as nat) is None);
                    }
                    return Err(e);
                },
            }
            j = j + 1;
        }
        proof {
            assert(names.skip(names.len() as int).len() == 0);
            assert(spec_build_list(table_v, schema_name@, names, (fuel - 1) as nat) == Some(
                slices_view(sub_slices@) + Seq::<PropertySliceV>::empty(),
            ));
            assert(slices_view(sub_slices@) + Seq::<PropertySliceV>::empty() =~= slices_view(
                sub_slices@,
            ));
        }
        let ghost slices_before: Seq<GridPropertyDefinitionSlice> = slices@;
        let ghost children: Seq<PropertySliceV> = slices_view(sub_slices@);
        slices.push(GridPropertyDefinitionSlice::from_slices(def, sub_slices));
        proof {
            assert(slices_view(slices@) =~= slices_view(slices_before).push(
                spec_slice_with_children(def@, children),
            ));
        }
        Ok(())
    }
}

/// Builds the slice trees of the given top-level property names, in order.
/// The recursion budget, the length of the table, outlasts every acyclic
/// nesting: a deeper one must pass through some definition twice.
pub fn make_definition_slices(
    table: &Vec<GridPropertyDefinition>,
    schema_name: &str,
    names: &Vec<String>,
) -> (r: Result<Vec<GridPropertyDefinitionSlice>, RestApiResponseError>)
    ensures
        match spec_build_list(
            table.deep_view(),
            schema_name@,
            names.deep_view(),
            table@.len(),
        ) {
            Some(l) => r matches Ok(v) && slices_view(v@) == l,
            None => r is Err,
        },
{
    let ghost table_v: Seq<PropertyDefinitionV> = table.deep_view();
    let ghost names_v: Seq<Seq<char>> = names.deep_view();
    let ghost fuel: nat = table@.len();
    let fuel_exec: u64 = table.len() as u64;
    let mut slices: Vec<GridPropertyDefinitionSlice> = Vec::new();
    let mut j: usize = 0;
    proof {
        assert(slices_view(slices@) =~= Seq::<PropertySliceV>::empty());
        assert(names_v.skip(0) =~= names_v);
    }
    while j < names.len()
        invariant
            j <= names.len(),
            names_v == names.deep_view(),
            names_v.len() == names@.len(),
            table_v == table.deep_view(),
            fuel == fuel_exec as nat,
            fuel == table@.len(),
            spec_build_list(table_v, schema_name@, names_v, fuel) == (match spec_build_list(
                table_v,
                schema_name@,
                names_v.skip(j as int),
                fuel,
            ) {
                None => None,
                Some(rest) => Some(slices_view(slices@) + rest),
            }),
        decreases names.len() - j,
    {
        let ghost slices_before: Seq<GridPropertyDefinitionSlice> = slices@;
        let name = &names[j];
        proof {
            assert(name@ == names_v[j as int]);
            assert(names_v.skip(j as int)[0] == names_v[j as int]);
        }
        match make_definition_slices_aux(table, schema_name, name.as_str(), fuel_exec,
            &mut slices) {
            Ok(()) => {
                proof {
                    assert(names_v.skip(j as int).drop_first() =~= names_v.skip(j as int + 1));
                    let one = spec_build_one(table_v, schema_name@, names_v[j as int], fuel)
                        .unwrap();
                    assert forall|rest: Seq<PropertySliceV>| true implies slices_view(slices_before)
                        + (seq![one] + rest) =~= slices_view(slices@) + rest by {
                        assert(slices_view(slices@) =~= slices_view(slices_before).push(one));
                    }
                }
            },
            Err(e) => {
                proof {
                    assert(spec_build_list(table_v, schema_name@, names_v.skip(j as int), fuel)
                        is None);
                    assert(spec_build_list(table_v, schema_name@, names_v, fuel) is None);
                }
                return Err(e);
            },
        }
        j = j + 1;
    }
    proof {
        assert(names_v.skip(names_v.len() as int).len() == 0);
        assert(slices_view(slices@) + Seq::<PropertySliceV>::empty() =~= slices_view(slices@));
    }
    Ok(slices)
}

/// The names of the table's definitions for a schema, in table order, at or
/// after `from`.
pub open spec fn spec_top_level_names(
    table: Seq<PropertyDefinitionV>,
    schema_name: Seq<char>,
    from: int,
) -> Seq<Seq<char>>
    decreases table.len() - from,
{
    if from < 0 || from >= table.len() {
        Seq::empty()
    } else if table[from].schema_name == schema_name {
        seq![table[from].name] + spec_top_level_names(table, schema_name, from + 1)
    } else {
        spec_top_level_names(table, schema_name, from + 1)
    }
}

/// Collects the names of the table's definitions for a schema, in table
/// order.
pub fn top_level_names(table: &Vec<GridPropertyDefinition>, schema_name: &str) -> (r: Vec<String>)
    ensures
        r.deep_view() == spec_top_level_names(table.deep_view(), schema_name@, 0),
{
    let ghost table_v: Seq<PropertyDefinitionV> = table.deep_view();
    let mut r: Vec<String> = Vec::new();
    let mut i: usize = 0;
    proof {
        assert(r.deep_view() =~= Seq::<Seq<char>>::empty());
    }
    while i < table.len()
        invariant
            i <= table.len(),
            table_v == table.deep_view(),
            r.deep_view() + spec_top_level_names(table_v, schema_name@, i as int)
                == spec_top_level_names(table_v, schema_name@, 0),
        decreases table.len() - i,
    {
        let d = &table[i];
        proof {
            assert(d@ == table_v[i as int]);
        }
        let ghost r_before: Seq<Seq<char>> = r.deep_view();
        if str_eq(d.schema_name.as_str(), schema_name) {
            r.push(d.name.clone());
            proof {
                assert(r.deep_view() =~= r_before.push(table_v[i as int].name));
                assert(r.deep_view() + spec_top_level_names(table_v, schema_name@, i + 1)
                    =~= spec_top_level_names(table_v, schema_name@, 0));
            }
        }
        i = i + 1;
    }
    proof {
        assert(spec_top_level_names(table_v, schema_name@, table_v.len() as int) =~= Seq::<
            Seq<char>,
        >::empty());
        assert(r.deep_view() =~= spec_top_level_names(table_v, schema_name@, 0));
    }
    r
}

/// The answer one schema row yields: its property slices resolved through
/// the definition table. `None` when a definition is missing or the table
/// is cyclic.
pub open spec fn spec_schema_answer(table: Seq<PropertyDefinitionV>, s: SchemaV) -> Option<
    SchemaSliceV,
> {
    match spec_build_list(table, s.name, spec_top_level_names(table, s.name, 0), table.len()) {
        None => None,
        Some(props) => Some(spec_schema_slice(s, props)),
    }
}

/// The answers of a schema listing, in row order, at or after `from`.
pub open spec fn spec_list_schemas(
    schemas: Seq<SchemaV>,
    table: Seq<PropertyDefinitionV>,
    from: int,
) -> Option<Seq<SchemaSliceV>>
    decreases schemas.len() - from,
{
    if from < 0 || from >= schemas.len() {
        Some(Seq::empty())
    } else {
        match spec_schema_answer(table, schemas[from]) {
            None => None,
            Some(sl) => match spec_list_schemas(schemas, table, from + 1) {
                None => None,
                Some(rest) => Some(seq![sl] + rest),
            },
        }
    }
}

/// The models of a sequence of schema answers.
pub open spec fn schema_slices_view(l: Seq<GridSchemaSlice>) -> Seq<SchemaSliceV> {
    Seq::new(l.len(), |i: int| schema_slice_view(l[i]))
}

/// Answers the schema listing: every schema row, each with its property
/// slices resolved through the definition table.
pub fn list_grid_schemas(
    schemas: &Vec<GridSchema>,
    table: &Vec<GridPropertyDefinition>,
) -> (r: Result<Vec<GridSchemaSlice>, RestApiResponseError>)
    ensures
        match spec_list_schemas(schemas.deep_view(), table.deep_view(), 0) {
            Some(l) => r matches Ok(v) && schema_slices_view(v@) == l,
            None => r is Err,
        },
{
    let ghost schemas_v: Seq<SchemaV> = schemas.deep_view();
    let ghost table_v: Seq<PropertyDefinitionV> = table.deep_view();
    let mut out: Vec<GridSchemaSlice> = Vec::new();
    let mut i: usize = 0;
    proof {
        assert(schema_slices_view(out@) =~= Seq::<SchemaSliceV>::empty());
    }
    while i < schemas.len()
        invariant
            i <= schemas.len(),
            schemas_v == schemas.deep_view(),
            schemas_v.len() == schemas@.len(),
            table_v == table.deep_view(),
            spec_list_schemas(schemas_v, table_v, 0) == (match spec_list_schemas(
                schemas_v,
                table_v,
                i as int,
            ) {
                None => None,
                Some(rest) => Some(schema_slices_view(out@) + rest),
            }),
        decreases schemas.len() - i,
    {
        let schema = &schemas[i];
        proof {
            assert(schema@ == schemas_v[i as int]);
        }
        let names = top_level_names(table, schema.name.as_str());
        let ghost out_before: Seq<GridSchemaSlice> = out@;
        match make_definition_slices(table, schema.name.as_str(), &names) {
            Ok(definitions) => {
                let ghost props: Seq<PropertySliceV> = slices_view(definitions@);
                out.push(GridSchemaSlice::from_schema(schema, definitions));
                proof {
                    let one = spec_schema_slice(schemas_v[i as int], props);
                    assert(spec_schema_answer(table_v, schemas_v[i as int]) == Some(one));
                    assert(schema_slices_view(out@) =~= schema_slices_view(out_before).push(one));
                    assert forall|rest: Seq<SchemaSliceV>| true implies schema_slices_view(
                        out_before,
                    ) + (seq![one] + rest) =~= schema_slices_view(out@) + rest by {}
                }
            },
            Err(e) => {
                proof {
                    assert(spec_schema_answer(table_v, schemas_v[i as int]) is None);
                    assert(spec_list_schemas(schemas_v, table_v, i as int) is None);
                }
                return Err(e);
            },
        }
        i = i + 1;
    }
    proof {
        assert(spec_list_schemas(schemas_v, table_v, schemas_v.len() as int) == Some(Seq::<
            SchemaSliceV,
        >::empty()));
        assert(schema_slices_view(out@) + Seq::<SchemaSliceV>::empty() =~= schema_slices_view(
            out@,
        ));
    }
    Ok(out)
}

/// The first schema row at or after `from` with the given name.
pub open spec fn spec_find_schema(schemas: Seq<SchemaV>, name: Seq<char>, from: int) -> Option<
    SchemaV,
>
    decreases schemas.len() - from,
{
    if from < 0 || from >= schemas.len() {
        None
    } else if schemas[from].name == name {
        Some(schemas[from])
    } else {
        spec_find_schema(schemas, name, from + 1)
    }
}

fn find_schema<'a>(schemas: &'a Vec<GridSchema>, name: &str) -> (r: Option<&'a GridSchema>)
    ensures
        r matches Some(s) ==> Some(s@) == spec_find_schema(schemas.deep_view(), name@, 0),
        r is None ==> spec_find_schema(schemas.deep_view(), name@, 0) is None,
{
    let mut i: usize = 0;
    while i < schemas.len()
        invariant
            i <= schemas.len(),
            spec_find_schema(schemas.deep_view(), name@, 0) == spec_find_schema(
                schemas.deep_view(),
                name@,
                i as int,
            ),
        decreases schemas.len() - i,
    {
        let s = &schemas[i];
        proof {
            assert(s@ == schemas.deep_view()[i as int]);
        }
        if str_eq(s.name.as_str(), name) {
            return Some(s);
        }
        i = i + 1;
    }
    None
}

/// Answers one schema by name: its row shaped into a slice with its
/// property slices, or a not-found error naming the schema. The property
/// slices are resolved first, as the listing's store does, so a fault in
/// the definition table is answered even for an absent schema.
pub fn fetch_grid_schema(
    schemas: &Vec<GridSchema>,
    table: &Vec<GridPropertyDefinition>,
    name: &str,
) -> (r: Result<GridSchemaSlice, RestApiResponseError>)
    ensures
        match spec_build_list(
            table.deep_view(),
            name@,
            spec_top_level_names(table.deep_view(), name@, 0),
            table@.len(),
        ) {
            None => r is Err,
            Some(props) => match spec_find_schema(schemas.deep_view(), name@, 0) {
                None => r matches Err(e) && e matches RestApiResponseError::NotFoundError(m) && m@
                    == "Could not find schema with name: "@ + name@,
                Some(s) => r matches Ok(sl) && schema_slice_view(sl) == spec_schema_slice(
                    s,
                    props,
                ),
            },
        },
{
    let names = top_level_names(table, name);
    let definitions = match make_definition_slices(table, name, &names) {
        Ok(d) => d,
        Err(e) => {
            return Err(e);
        },
    };
    match find_schema(schemas, name) {
        Some(schema) => Ok(GridSchemaSlice::from_schema(schema, definitions)),
        None => Err(
            RestApiResponseError::NotFoundError(
                "Could not find schema with name: ".to_owned().concat(name),
            ),
        ),
    }
}

} // verus!
