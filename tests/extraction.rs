use nautilus_syn::{
    build_object_config, parse_field_attributes, parse_item_struct, parse_top_level_attributes,
    ArgValue, ConfigError, DefaultInstruction, DefaultInstructions, FieldDefinition,
    NautilusAccountFieldAttributes, NestedArg, RecordDefinition, Tag, TagShape,
};

fn bare(name: &str) -> Tag {
    Tag { name: name.to_string(), shape: TagShape::Bare }
}

fn list(name: &str, args: Vec<NestedArg>) -> Tag {
    Tag { name: name.to_string(), shape: TagShape::List(args) }
}

fn path(p: &str) -> NestedArg {
    NestedArg::Path(p.to_string())
}

fn autoincrement(b: bool) -> NestedArg {
    NestedArg::NameValue("autoincrement".to_string(), ArgValue::Bool(b))
}

fn field(ident: &str, ty: &str, tags: Vec<Tag>) -> FieldDefinition {
    FieldDefinition { ident: ident.to_string(), ty: ty.to_string(), tags }
}

fn record(name: &str, fields: Vec<FieldDefinition>, tags: Vec<Tag>) -> RecordDefinition {
    RecordDefinition { name: name.to_string(), fields, tags }
}

fn attrs(is_primary_key: bool, autoincrement_enabled: bool, is_authority: bool) -> NautilusAccountFieldAttributes {
    NautilusAccountFieldAttributes { is_primary_key, autoincrement_enabled, is_authority }
}

#[test]
fn no_primary_key_is_not_applicable() {
    let r = record(
        "Person",
        vec![
            field("name", "String", vec![bare("authority")]),
            field("age", "u8", vec![list("primary_key", vec![path("something")])]),
        ],
        vec![list("default_instructions", vec![path("Create")])],
    );
    assert_eq!(parse_item_struct(&r), Ok(None));
    assert_eq!(parse_item_struct(&record("Empty", vec![], vec![])), Ok(None));
}

#[test]
fn malformed_instructions_fail_before_the_key_check() {
    let r = record("Person", vec![field("name", "String", vec![])], vec![list("default_instructions", vec![path("Remove")])]);
    assert_eq!(parse_item_struct(&r), Err(ConfigError::UnknownInstruction("Remove".to_string())));
}

#[test]
fn single_primary_key_defaults() {
    let r = record(
        "Person",
        vec![field("name", "String", vec![]), field("id", "u32", vec![bare("primary_key")]), field("age", "u8", vec![])],
        vec![],
    );
    let c = parse_item_struct(&r).unwrap().unwrap();
    assert_eq!(c.table_name, "person");
    assert_eq!(c.primary_key_ident, "id");
    assert_eq!(c.primary_key_ty, "u32");
    assert!(c.autoincrement_enabled);
    assert!(c.authorities.is_empty());
    assert!(c.default_instructions.is_empty());
    assert_eq!(c.data_fields, r.fields);
}

#[test]
fn last_primary_key_wins_and_disables_autoincrement() {
    let r = record(
        "Pair",
        vec![
            field("a", "u64", vec![bare("primary_key")]),
            field("b", "u32", vec![list("primary_key", vec![autoincrement(false)])]),
        ],
        vec![],
    );
    let c = parse_item_struct(&r).unwrap().unwrap();
    assert_eq!(c.primary_key_ident, "b");
    assert_eq!(c.primary_key_ty, "u32");
    assert!(!c.autoincrement_enabled);
}

#[test]
fn autoincrement_off_on_another_field_lowers_the_aggregate() {
    let r = record(
        "Pair",
        vec![
            field("a", "u64", vec![list("primary_key", vec![autoincrement(false)])]),
            field("b", "u32", vec![bare("primary_key")]),
        ],
        vec![],
    );
    let c = parse_item_struct(&r).unwrap().unwrap();
    assert_eq!(c.primary_key_ident, "b");
    assert!(!c.autoincrement_enabled);
}

#[test]
fn widget_default_instructions_in_order() {
    let r = record(
        "Widget",
        vec![field("id", "u8", vec![bare("primary_key")])],
        vec![list("default_instructions", vec![path("Create"), path("Update")])],
    );
    let c = parse_item_struct(&r).unwrap().unwrap();
    assert_eq!(c.table_name, "widget");
    assert_eq!(
        c.default_instructions,
        vec![DefaultInstruction::Create("Widget".to_string()), DefaultInstruction::Update("Widget".to_string())]
    );
}

#[test]
fn unknown_instruction_is_fatal() {
    let r = record(
        "Widget",
        vec![field("id", "u8", vec![bare("primary_key")])],
        vec![list("default_instructions", vec![path("Frobnicate")])],
    );
    let e = parse_item_struct(&r).unwrap_err();
    assert_eq!(e, ConfigError::UnknownInstruction("Frobnicate".to_string()));
    assert_eq!(e.message(), "unknown default instruction: `Frobnicate`");
}

#[test]
fn non_path_instruction_is_invalid_format() {
    let tags = vec![list("default_instructions", vec![path("Create"), autoincrement(true)])];
    let e = parse_top_level_attributes("Widget", &tags).unwrap_err();
    assert_eq!(e, ConfigError::InvalidFormat);
    assert_eq!(e.message(), "invalid format for `default_instructions`");
    let tags = vec![list("default_instructions", vec![NestedArg::Other])];
    assert_eq!(parse_top_level_attributes("Widget", &tags), Err(ConfigError::InvalidFormat));
}

#[test]
fn first_error_among_instructions_is_reported() {
    let tags = vec![
        list("default_instructions", vec![path("Delete")]),
        list("default_instructions", vec![path("Drop"), NestedArg::Other]),
    ];
    assert_eq!(parse_top_level_attributes("Widget", &tags), Err(ConfigError::UnknownInstruction("Drop".to_string())));
}

#[test]
fn instructions_across_tags_and_other_tags_ignored() {
    let tags = vec![
        list("default_instructions", vec![path("Delete")]),
        bare("default_instructions"),
        list("derive", vec![path("Frobnicate")]),
        list("default_instructions", vec![path("Create"), path("Delete")]),
    ];
    assert_eq!(
        parse_top_level_attributes("Gadget", &tags),
        Ok(vec![
            DefaultInstruction::Delete("Gadget".to_string()),
            DefaultInstruction::Create("Gadget".to_string()),
            DefaultInstruction::Delete("Gadget".to_string()),
        ])
    );
    let kinds: Vec<DefaultInstructions> =
        parse_top_level_attributes("Gadget", &tags).unwrap().iter().map(|d| d.kind()).collect();
    assert_eq!(kinds, vec![DefaultInstructions::Delete, DefaultInstructions::Create, DefaultInstructions::Delete]);
}

#[test]
fn three_authorities_in_declaration_order() {
    let r = record(
        "Vault",
        vec![
            field("owner", "Pubkey", vec![bare("authority")]),
            field("id", "u32", vec![bare("primary_key")]),
            field("admin", "Pubkey", vec![bare("authority")]),
            field("note", "String", vec![]),
            field("guard", "Pubkey", vec![bare("authority")]),
        ],
        vec![],
    );
    let c = parse_item_struct(&r).unwrap().unwrap();
    assert_eq!(c.authorities, vec!["owner".to_string(), "admin".to_string(), "guard".to_string()]);
}

#[test]
fn extraction_is_repeatable() {
    let r = record(
        "Widget",
        vec![
            field("id", "u8", vec![list("primary_key", vec![autoincrement(false)])]),
            field("owner", "Pubkey", vec![bare("authority")]),
        ],
        vec![list("default_instructions", vec![path("Delete")])],
    );
    let first = parse_item_struct(&r);
    let second = parse_item_struct(&r);
    assert_eq!(first, second);
    assert!(first.is_ok());
}

#[test]
fn field_attributes_defaults_and_overrides() {
    assert_eq!(parse_field_attributes(&field("x", "u8", vec![])), attrs(false, true, false));
    assert_eq!(parse_field_attributes(&field("x", "u8", vec![bare("primary_key")])), attrs(true, true, false));
    assert_eq!(
        parse_field_attributes(&field("x", "u8", vec![list("primary_key", vec![autoincrement(false)])])),
        attrs(true, false, false)
    );
    assert_eq!(
        parse_field_attributes(&field(
            "x",
            "u8",
            vec![
                list("primary_key", vec![autoincrement(false)]),
                list("primary_key", vec![autoincrement(true)]),
                bare("authority"),
            ]
        )),
        attrs(true, true, true)
    );
    assert_eq!(
        parse_field_attributes(&field("x", "u8", vec![list("primary_key", vec![autoincrement(false)]), bare("primary_key")])),
        attrs(true, false, false)
    );
}

#[test]
fn field_attributes_ignore_unrecognized_shapes() {
    let ignored = vec![
        list("primary_key", vec![path("autoincrement")]),
        list("primary_key", vec![NestedArg::NameValue("autoincrement".to_string(), ArgValue::Other)]),
        list("primary_key", vec![NestedArg::NameValue("step".to_string(), ArgValue::Bool(false))]),
        list("authority", vec![]),
        Tag { name: "authority".to_string(), shape: TagShape::Other },
        Tag { name: "primary_key".to_string(), shape: TagShape::Other },
        bare("serde"),
    ];
    assert_eq!(parse_field_attributes(&field("x", "u8", ignored)), attrs(false, true, false));
}

#[test]
fn build_uses_given_table_name() {
    let r = record("Widget", vec![field("id", "u8", vec![bare("primary_key")])], vec![]);
    let c = build_object_config("widgets_v2".to_string(), &r).unwrap().unwrap();
    assert_eq!(c.table_name, "widgets_v2");
}

#[test]
fn table_name_is_lower_case() {
    let r = record("MyÉcoleRecord", vec![field("id", "u8", vec![bare("primary_key")])], vec![]);
    let c = parse_item_struct(&r).unwrap().unwrap();
    assert_eq!(c.table_name, "myécolerecord");
}
