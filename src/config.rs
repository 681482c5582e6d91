use vstd::prelude::*;

use crate::attributes::{field_attributes_of, parse_field_attributes, FieldDefinition, FieldView};
use crate::instructions::{
    instructions_of_tags, instructions_view, parse_top_level_attributes, ConfigError,
    ConfigErrorView, DefaultInstruction, DefaultInstructions,
};
use crate::tags::{tags_view, Tag, TagView};

verus! {

/// An annotated record: its name, its fields in declaration order, and its own tags.
#[derive(Debug, PartialEq, Eq)]
pub struct RecordDefinition {
    pub name: String,
    pub fields: Vec<FieldDefinition>,
    pub tags: Vec<Tag>,
}

/// Mathematical model of a [`RecordDefinition`].
pub struct RecordView {
    pub name: Seq<char>,
    pub fields: Seq<FieldView>,
    pub tags: Seq<TagView>,
}

/// The models of a sequence of fields.
pub open spec fn fields_view(fields: Seq<FieldDefinition>) -> Seq<FieldView> {
    fields.map_values(|f: FieldDefinition| f@)
}

impl View for RecordDefinition {
    type V = RecordView;

    open spec fn view(&self) -> RecordView {
        RecordView { name: self.name@, fields: fields_view(self.fields@), tags: tags_view(self.tags@) }
    }
}

/// The descriptor of a record that has a primary key.
#[derive(Debug, PartialEq, Eq)]
pub struct NautilusObjectConfig {
    pub table_name: String,
    /// The record's fields, passed through unchanged.
    pub data_fields: Vec<FieldDefinition>,
    pub autoincrement_enabled: bool,
    pub primary_key_ident: String,
    pub primary_key_ty: String,
    /// The authority fields, in declaration order.
    pub authorities: Vec<String>,
    pub default_instructions: Vec<DefaultInstruction>,
}

/// Mathematical model of a [`NautilusObjectConfig`].
pub struct ObjectConfigView {
    pub table_name: Seq<char>,
    pub data_fields: Seq<FieldView>,
    pub autoincrement_enabled: bool,
    pub primary_key_ident: Seq<char>,
    pub primary_key_ty: Seq<char>,
    pub authorities: Seq<Seq<char>>,
    pub default_instructions: Seq<(DefaultInstructions, Seq<char>)>,
}

impl View for NautilusObjectConfig {
    type V = ObjectConfigView;

    open spec fn view(&self) -> ObjectConfigView {
        ObjectConfigView {
            table_name: self.table_name@,
            data_fields: fields_view(self.data_fields@),
            autoincrement_enabled: self.autoincrement_enabled,
            primary_key_ident: self.primary_key_ident@,
            primary_key_ty: self.primary_key_ty@,
            authorities: self.authorities@.map_values(|s: String| s@),
            default_instructions: instructions_view(self.default_instructions@),
        }
    }
}

/// The model of the outcome of an extraction.
pub open spec fn outcome_view(r: Result<Option<NautilusObjectConfig>, ConfigError>) -> Result<
    Option<ObjectConfigView>,
    ConfigErrorView,
> {
    match r {
        Ok(Some(c)) => Ok(Some(c@)),
        Ok(None) => Ok(None),
        Err(e) => Err(e@),
    }
}

/// Whether a field's tags mark it as a primary key.
pub open spec fn is_primary_key_field(f: FieldView) -> bool {
    field_attributes_of(f.tags).is_primary_key
}

/// Whether a field's tags mark it as an authority.
pub open spec fn is_authority_field(f: FieldView) -> bool {
    field_attributes_of(f.tags).is_authority
}

/// The record-wide autoincrement flag: false exactly when some field, of any
/// role, carries `autoincrement = false` as its last word on the flag.
pub open spec fn aggregate_autoincrement(fields: Seq<FieldView>) -> bool {
    forall|i: int|
        0 <= i < fields.len() ==> #[trigger] field_attributes_of(fields[i].tags).autoincrement_enabled
}

/// The (identifier, type) of the last field marked as primary key, if any.
pub open spec fn last_primary_key(fields: Seq<FieldView>) -> Option<(Seq<char>, Seq<char>)>
    decreases fields.len(),
{
    if fields.len() == 0 {
        None
    } else if is_primary_key_field(fields.last()) {
        Some((fields.last().ident, fields.last().ty))
    } else {
        last_primary_key(fields.drop_last())
    }
}

/// The identifiers of the authority fields, in declaration order.
pub open spec fn authorities_of(fields: Seq<FieldView>) -> Seq<Seq<char>>
    decreases fields.len(),
{
    if fields.len() == 0 {
        Seq::empty()
    } else if is_authority_field(fields.last()) {
        authorities_of(fields.drop_last()).push(fields.last().ident)
    } else {
        authorities_of(fields.drop_last())
    }
}

/// What extraction yields for a record, given its table name: the first error
/// in the record's `default_instructions` tags; otherwise no configuration when
/// no field is a primary key; otherwise the assembled configuration.
pub open spec fn object_config(table_name: Seq<char>, r: RecordView) -> Result<
    Option<ObjectConfigView>,
    ConfigErrorView,
> {
    match instructions_of_tags(r.name, r.tags) {
        Err(e) => Err(e),
        Ok(instructions) => match last_primary_key(r.fields) {
            None => Ok(None),
            Some(key) => Ok(
                Some(
                    ObjectConfigView {
                        table_name,
                        data_fields: r.fields,
                        autoincrement_enabled: aggregate_autoincrement(r.fields),
                        primary_key_ident: key.0,
                        primary_key_ty: key.1,
                        authorities: authorities_of(r.fields),
                        default_instructions: instructions,
                    },
                ),
            ),
        },
    }
}

/// The lower-case form of a string, as Unicode defines it.
pub uninterp spec fn lower_of(s: Seq<char>) -> Seq<char>;

/// Relies on `str::to_lowercase`, whose result depends on the characters alone.
#[verifier::external_body]
fn lowercase(s: &str) -> (r: String)
    ensures
        r@ == lower_of(s@),
{
    s.to_lowercase()
}

/// Copies a list of fields, keeping each field's model.
fn copy_fields(fields: &Vec<FieldDefinition>) -> (r: Vec<FieldDefinition>)
    ensures
        fields_view(r@) == fields_view(fields@),
{
    let r = fields.clone();
    assert(fields_view(r@) =~= fields_view(fields@));
    r
}

/// Assembles the configuration of `item` under the given table name.
///
/// Fails when the record's `default_instructions` tags are malformed; yields
/// `None` when no field is marked as primary key.
pub fn build_object_config(table_name: String, item: &RecordDefinition) -> (r: Result<
    Option<NautilusObjectConfig>,
    ConfigError,
>)
    ensures
        outcome_view(r) == object_config(table_name@, item@),
{
    let default_instructions = match parse_top_level_attributes(item.name.as_str(), &item.tags) {
        Ok(v) => v,
        Err(e) => {
            return Err(e);
        },
    };
    let ghost fields = fields_view(item.fields@);
    let mut autoincrement_enabled = true;
    let mut primary_key: Option<(String, String)> = None;
    let mut authorities: Vec<String> = Vec::new();
    let mut i: usize = 0;
    while i < item.fields.len()
        invariant
            i <= item.fields.len(),
            fields == fields_view(item.fields@),
            autoincrement_enabled == aggregate_autoincrement(fields.take(i as int)),
            match primary_key {
                Some(k) => last_primary_key(fields.take(i as int)) == Some((k.0@, k.1@)),
                None => last_primary_key(fields.take(i as int)) is None,
            },
            authorities@.map_values(|s: String| s@) == authorities_of(fields.take(i as int)),
        decreases item.fields.len() - i,
    {
        let ghost prefix = fields.take(i as int);
        let ghost next = fields.take(i + 1);
        assert(next.drop_last() =~= prefix);
        assert(next.last() == item.fields@[i as int]@);
        let field = &item.fields[i];
        let attrs = parse_field_attributes(field);
        if !attrs.autoincrement_enabled {
            autoincrement_enabled = false;
        }
        assert(autoincrement_enabled == aggregate_autoincrement(next)) by {
            if autoincrement_enabled {
                assert forall|j: int| 0 <= j < next.len() implies #[trigger] field_attributes_of(
                    next[j].tags,
                ).autoincrement_enabled by {
                    if j < i {
                        assert(next[j] == prefix[j]);
                    }
                }
            } else if attrs.autoincrement_enabled {
                let j = choose|j: int|
                    0 <= j < prefix.len() && !#[trigger] field_attributes_of(
                        prefix[j].tags,
                    ).autoincrement_enabled;
                assert(next[j] == prefix[j]);
            } else {
                assert(!field_attributes_of(next[i as int].tags).autoincrement_enabled);
            }
        }
        if attrs.is_primary_key {
            primary_key = Some((field.ident.clone(), field.ty.clone()));
        }
        let ghost before = authorities@;
        assert(is_authority_field(next.last()) == attrs.is_authority);
        if attrs.is_authority {
            authorities.push(field.ident.clone());
            assert(authorities@.map_values(|s: String| s@) =~= before.map_values(|s: String| s@).push(
                field.ident@,
            ));
        }
        assert(authorities@.map_values(|s: String| s@) =~= authorities_of(next));
        i = i + 1;
    }
    assert(fields.take(item.fields.len() as int) =~= fields);
    match primary_key {
        None => Ok(None),
        Some((primary_key_ident, primary_key_ty)) => Ok(
            Some(
                NautilusObjectConfig {
                    table_name,
                    data_fields: copy_fields(&item.fields),
                    autoincrement_enabled,
                    primary_key_ident,
                    primary_key_ty,
                    authorities,
                    default_instructions,
                },
            ),
        ),
    }
}

/// Extracts the configuration of a record: its table name is the record's
/// name in lower case, and the rest is as [`build_object_config`] gives it.
pub fn parse_item_struct(item: &RecordDefinition) -> (r: Result<Option<NautilusObjectConfig>, ConfigError>)
    ensures
        outcome_view(r) == object_config(lower_of(item.name@), item@),
{
    let table_name = lowercase(item.name.as_str());
    build_object_config(table_name, item)
}

} // verus!
