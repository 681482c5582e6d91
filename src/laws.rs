use vstd::prelude::*;

use crate::attributes::{field_attributes_of, initial_attributes, FieldView};
use crate::config::{
    aggregate_autoincrement, authorities_of, is_authority_field, is_primary_key_field,
    last_primary_key, lower_of, object_config, ObjectConfigView, RecordView,
};
use crate::instructions::{instructions_of_tags, ConfigErrorView};
use crate::tags::{TagShapeView, TagView};

verus! {

/// The last primary-key field is `k` when `k` is one and no later field is.
proof fn lemma_last_primary_key_at(fields: Seq<FieldView>, k: int)
    requires
        0 <= k < fields.len(),
        is_primary_key_field(fields[k]),
        forall|j: int| k < j < fields.len() ==> !is_primary_key_field(#[trigger] fields[j]),
    ensures
        last_primary_key(fields) == Some((fields[k].ident, fields[k].ty)),
    decreases fields.len(),
{
    if k < fields.len() - 1 {
        let rest = fields.drop_last();
        assert(!is_primary_key_field(fields[fields.len() - 1]));
        assert forall|j: int| k < j < rest.len() implies !is_primary_key_field(#[trigger] rest[j]) by {
            assert(rest[j] == fields[j]);
        }
        lemma_last_primary_key_at(rest, k);
    }
}

/// No field is a primary key exactly when there is no last one.
proof fn lemma_last_primary_key_none(fields: Seq<FieldView>)
    ensures
        last_primary_key(fields) is None <==> forall|j: int|
            0 <= j < fields.len() ==> !is_primary_key_field(#[trigger] fields[j]),
    decreases fields.len(),
{
    if fields.len() > 0 {
        let rest = fields.drop_last();
        lemma_last_primary_key_none(rest);
        if last_primary_key(fields) is None {
            assert forall|j: int| 0 <= j < fields.len() implies !is_primary_key_field(
                #[trigger] fields[j],
            ) by {
                if j < rest.len() {
                    assert(rest[j] == fields[j]);
                }
            }
        } else if !is_primary_key_field(fields.last()) {
            let j = choose|j: int| 0 <= j < rest.len() && is_primary_key_field(#[trigger] rest[j]);
            assert(rest[j] == fields[j]);
        }
    }
}

/// A record none of whose fields is marked as primary key yields no
/// configuration and no error, whenever its `default_instructions` tags are
/// well formed.
pub proof fn lemma_no_primary_key_not_applicable(table_name: Seq<char>, r: RecordView)
    requires
        forall|i: int| 0 <= i < r.fields.len() ==> !is_primary_key_field(#[trigger] r.fields[i]),
        instructions_of_tags(r.name, r.tags) is Ok,
    ensures
        object_config(table_name, r) == Ok::<Option<ObjectConfigView>, ConfigErrorView>(None),
{
    lemma_last_primary_key_none(r.fields);
}

/// A bare tag of the given name.
pub open spec fn bare_tag(name: Seq<char>) -> TagView {
    TagView { name, shape: TagShapeView::Bare }
}

/// With no authority field there are no authorities.
proof fn lemma_no_authorities(fields: Seq<FieldView>)
    requires
        forall|j: int| 0 <= j < fields.len() ==> !is_authority_field(#[trigger] fields[j]),
    ensures
        authorities_of(fields) == Seq::<Seq<char>>::empty(),
    decreases fields.len(),
{
    if fields.len() > 0 {
        let rest = fields.drop_last();
        assert(!is_authority_field(fields[fields.len() - 1]));
        assert forall|j: int| 0 <= j < rest.len() implies !is_authority_field(#[trigger] rest[j]) by {
            assert(rest[j] == fields[j]);
        }
        lemma_no_authorities(rest);
    }
}

/// When `idx` lists, in increasing order, exactly the positions of the
/// authority fields, the authorities are the identifiers at those positions,
/// in that order.
pub proof fn lemma_authorities_in_declaration_order(fields: Seq<FieldView>, idx: Seq<int>)
    requires
        forall|a: int, b: int| 0 <= a < b < idx.len() ==> idx[a] < idx[b],
        forall|a: int| 0 <= a < idx.len() ==> 0 <= #[trigger] idx[a] < fields.len(),
        forall|j: int|
            0 <= j < fields.len() ==> (is_authority_field(#[trigger] fields[j]) <==> idx.contains(j)),
    ensures
        authorities_of(fields) == idx.map_values(|j: int| fields[j].ident),
    decreases fields.len(),
{
    if fields.len() == 0 {
        if idx.len() > 0 {
            assert(0 <= idx[0] < fields.len());
        }
        assert(idx.map_values(|j: int| fields[j].ident) =~= Seq::<Seq<char>>::empty());
    } else {
        let n = fields.len() - 1;
        let rest = fields.drop_last();
        if is_authority_field(fields[n]) {
            assert(idx.contains(n));
            let p = choose|p: int| 0 <= p < idx.len() && idx[p] == n;
            if p < idx.len() - 1 {
                assert(idx[p] < idx[idx.len() - 1]);
            }
            let shorter = idx.drop_last();
            assert forall|j: int| 0 <= j < rest.len() implies (is_authority_field(#[trigger] rest[j])
                <==> shorter.contains(j)) by {
                assert(rest[j] == fields[j]);
                if idx.contains(j) {
                    let q = choose|q: int| 0 <= q < idx.len() && idx[q] == j;
                    assert(q != idx.len() - 1);
                    assert(shorter[q] == j);
                }
                if shorter.contains(j) {
                    let q = choose|q: int| 0 <= q < shorter.len() && shorter[q] == j;
                    assert(idx[q] == j);
                }
            }
            assert forall|a: int| 0 <= a < shorter.len() implies 0 <= #[trigger] shorter[a] < rest.len() by {
                assert(idx[a] < idx[idx.len() - 1]);
            }
            lemma_authorities_in_declaration_order(rest, shorter);
            assert(shorter.map_values(|j: int| rest[j].ident) =~= shorter.map_values(
                |j: int| fields[j].ident,
            ));
            assert(idx.map_values(|j: int| fields[j].ident) =~= shorter.map_values(
                |j: int| fields[j].ident,
            ).push(fields[n].ident));
        } else {
            assert forall|j: int| 0 <= j < rest.len() implies (is_authority_field(#[trigger] rest[j])
                <==> idx.contains(j)) by {
                assert(rest[j] == fields[j]);
            }
            assert forall|a: int| 0 <= a < idx.len() implies 0 <= #[trigger] idx[a] < rest.len() by {
                if idx[a] == n {
                    assert(idx.contains(n));
                }
            }
            lemma_authorities_in_declaration_order(rest, idx);
            assert(idx.map_values(|j: int| rest[j].ident) =~= idx.map_values(|j: int| fields[j].ident));
        }
    }
}

/// A record whose only tag is one bare `primary_key` on field `k` is keyed by
/// that field, keeps autoincrement on, and has no authorities and no
/// instructions.
pub proof fn lemma_single_primary_key(table_name: Seq<char>, r: RecordView, k: int)
    requires
        0 <= k < r.fields.len(),
        r.tags.len() == 0,
        r.fields[k].tags == seq![bare_tag("primary_key"@)],
        forall|j: int| 0 <= j < r.fields.len() && j != k ==> (#[trigger] r.fields[j]).tags.len() == 0,
    ensures
        object_config(table_name, r) == Ok::<_, ConfigErrorView>(
            Some(
                ObjectConfigView {
                    table_name,
                    data_fields: r.fields,
                    autoincrement_enabled: true,
                    primary_key_ident: r.fields[k].ident,
                    primary_key_ty: r.fields[k].ty,
                    authorities: Seq::empty(),
                    default_instructions: Seq::empty(),
                },
            ),
        ),
{
    let key_tags = r.fields[k].tags;
    assert(key_tags.drop_last() =~= Seq::<TagView>::empty());
    assert(key_tags.last() == bare_tag("primary_key"@));
    assert(field_attributes_of(key_tags.drop_last()) == initial_attributes());
    assert(field_attributes_of(key_tags) == crate::attributes::NautilusAccountFieldAttributes {
        is_primary_key: true,
        ..initial_attributes()
    });
    assert forall|j: int| 0 <= j < r.fields.len() implies #[trigger] field_attributes_of(
        r.fields[j].tags,
    ).autoincrement_enabled && !is_authority_field(r.fields[j]) && (j != k
        ==> !is_primary_key_field(r.fields[j])) by {
        if j != k {
            assert(r.fields[j].tags.len() == 0);
        }
    }
    assert(aggregate_autoincrement(r.fields));
    lemma_last_primary_key_at(r.fields, k);
    lemma_no_authorities(r.fields);
}

/// Extraction depends on the record alone: two records with the same model
/// yield the same outcome, so running it again gives the same configuration.
pub proof fn lemma_extraction_deterministic(a: RecordView, b: RecordView)
    requires
        a == b,
    ensures
        object_config(lower_of(a.name), a) == object_config(lower_of(b.name), b),
{
}

} // verus!
