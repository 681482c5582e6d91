use vstd::prelude::*;
use vstd::string::StringExecFns;

use crate::tags::{args_view, tags_view, ArgValue, NestedArg, NestedArgView, Tag, TagShape, TagShapeView, TagView};

verus! {

/// A field of a record: its name, its type as opaque source text, and its tags.
#[derive(Debug, PartialEq, Eq)]
pub struct FieldDefinition {
    pub ident: String,
    /// The field's type, kept as written and never interpreted.
    pub ty: String,
    pub tags: Vec<Tag>,
}

/// Mathematical model of a [`FieldDefinition`].
pub struct FieldView {
    pub ident: Seq<char>,
    pub ty: Seq<char>,
    pub tags: Seq<TagView>,
}

impl View for FieldDefinition {
    type V = FieldView;

    open spec fn view(&self) -> FieldView {
        FieldView { ident: self.ident@, ty: self.ty@, tags: tags_view(self.tags@) }
    }
}

impl Clone for FieldDefinition {
    fn clone(&self) -> (r: Self)
        ensures
            r@ == self@,
    {
        let tags = self.tags.clone();
        assert(tags_view(tags@) =~= tags_view(self.tags@));
        FieldDefinition { ident: self.ident.clone(), ty: self.ty.clone(), tags }
    }
}

/// The flags that a field's tags give it.
#[derive(Clone, Copy, Debug, PartialEq, Eq)]
pub struct NautilusAccountFieldAttributes {
    pub is_primary_key: bool,
    pub autoincrement_enabled: bool,
    pub is_authority: bool,
}

/// The flags of a field that carries no tag.
pub open spec fn initial_attributes() -> NautilusAccountFieldAttributes {
    NautilusAccountFieldAttributes {
        is_primary_key: false,
        autoincrement_enabled: true,
        is_authority: false,
    }
}

/// The value of the last `autoincrement = <bool>` argument in `args`, if any.
pub open spec fn autoincrement_arg(args: Seq<NestedArgView>) -> Option<bool>
    decreases args.len(),
{
    if args.len() == 0 {
        None
    } else {
        match args.last() {
            NestedArgView::NameValue(n, ArgValue::Bool(b)) if n == "autoincrement"@ => Some(b),
            _ => autoincrement_arg(args.drop_last()),
        }
    }
}

/// The flags after reading one more tag of the field.
///
/// `primary_key(autoincrement = b)` marks the key and sets the flag to `b`;
/// bare `primary_key` marks the key; bare `authority` marks an authority.
/// Every other tag, of any name or shape, leaves the flags as they are.
pub open spec fn apply_field_tag(
    a: NautilusAccountFieldAttributes,
    t: TagView,
) -> NautilusAccountFieldAttributes {
    if t.name == "primary_key"@ {
        match t.shape {
            TagShapeView::List(args) => match autoincrement_arg(args) {
                Some(b) => NautilusAccountFieldAttributes {
                    is_primary_key: true,
                    autoincrement_enabled: b,
                    ..a
                },
                None => a,
            },
            TagShapeView::Bare => NautilusAccountFieldAttributes { is_primary_key: true, ..a },
            TagShapeView::Other => a,
        }
    } else if t.name == "authority"@ && t.shape is Bare {
        NautilusAccountFieldAttributes { is_authority: true, ..a }
    } else {
        a
    }
}

/// The flags that a sequence of tags gives a field, read in order.
pub open spec fn field_attributes_of(tags: Seq<TagView>) -> NautilusAccountFieldAttributes
    decreases tags.len(),
{
    if tags.len() == 0 {
        initial_attributes()
    } else {
        apply_field_tag(field_attributes_of(tags.drop_last()), tags.last())
    }
}

/// Returns the value of the last `autoincrement = <bool>` argument of a tag.
fn find_autoincrement(args: &Vec<NestedArg>) -> (r: Option<bool>)
    ensures
        r == autoincrement_arg(args_view(args@)),
{
    let key = String::from_str("autoincrement");
    let mut found: Option<bool> = None;
    let mut i: usize = 0;
    while i < args.len()
        invariant
            i <= args.len(),
            key@ == "autoincrement"@,
            found == autoincrement_arg(args_view(args@.take(i as int))),
        decreases args.len() - i,
    {
        let ghost prefix = args_view(args@.take(i as int));
        let ghost next = args_view(args@.take(i + 1));
        assert(next.drop_last() =~= prefix);
        match &args[i] {
            NestedArg::NameValue(n, ArgValue::Bool(b)) => {
                if *n == key {
                    found = Some(*b);
                }
            },
            _ => {},
        }
        i = i + 1;
    }
    assert(args@.take(args.len() as int) =~= args@);
    found
}

/// Resolves the flags of one field by reading its tags in order.
pub fn parse_field_attributes(field: &FieldDefinition) -> (r: NautilusAccountFieldAttributes)
    ensures
        r == field_attributes_of(field@.tags),
{
    let primary_key = String::from_str("primary_key");
    let authority = String::from_str("authority");
    let mut attrs = NautilusAccountFieldAttributes {
        is_primary_key: false,
        autoincrement_enabled: true,
        is_authority: false,
    };
    let mut i: usize = 0;
    while i < field.tags.len()
        invariant
            i <= field.tags.len(),
            primary_key@ == "primary_key"@,
            authority@ == "authority"@,
            attrs == field_attributes_of(tags_view(field.tags@.take(i as int))),
        decreases field.tags.len() - i,
    {
        let ghost prefix = tags_view(field.tags@.take(i as int));
        let ghost next = tags_view(field.tags@.take(i + 1));
        assert(next.drop_last() =~= prefix);
        let tag = &field.tags[i];
        if tag.name == primary_key {
            match &tag.shape {
                TagShape::List(args) => {
                    if let Some(b) = find_autoincrement(args) {
                        attrs.is_primary_key = true;
                        attrs.autoincrement_enabled = b;
                    }
                },
                TagShape::Bare => {
                    attrs.is_primary_key = true;
                },
                TagShape::Other => {},
            }
        } else if tag.name == authority {
            if let TagShape::Bare = &tag.shape {
                attrs.is_authority = true;
            }
        }
        i = i + 1;
    }
    assert(field.tags@.take(field.tags.len() as int) =~= field.tags@);
    attrs
}

} // verus!
