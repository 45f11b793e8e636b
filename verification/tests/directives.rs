use sql_macros::catalog::build_catalog;
use sql_macros::catalog::FieldDef;
use sql_macros::catalog::TypeDef;
use sql_macros::directives::parse_table_directives;
use sql_macros::errors::GenError;
use sql_macros::parser::parse_group;
use sql_macros::parser::Directive;
use sql_macros::queries::generate_delete;
use sql_macros::queries::generate_insert;
use sql_macros::queries::generate_insert_many;
use sql_macros::queries::generate_select;
use sql_macros::queries::generate_table;
use sql_macros::tokens::Tok;

fn ident(s: &str) -> Tok {
    Tok::Ident(String::from(s))
}

fn text(s: &str) -> Tok {
    Tok::Text(String::from(s))
}

fn field(name: &str, ty: &str, attrs: Vec<Vec<Tok>>) -> FieldDef {
    FieldDef { name: String::from(name), ty: String::from(ty), attrs }
}

#[test]
fn unresolved_custom_spec_aborts_naming_method_and_fields() {
    let t = TypeDef {
        name: String::from("User"),
        attrs: vec![vec![
            ident("delete"),
            Tok::Equals,
            ident("remove_ghost"),
            Tok::OpenParen,
            ident("ghost_id"),
            Tok::CloseParen,
        ]],
        fields: vec![field("id", "i64", vec![]), field("name", "String", vec![])],
    };
    match generate_delete(&t) {
        Err(GenError::UnresolvedMethod(method, fields)) => {
            assert_eq!(method, "remove_ghost");
            assert_eq!(fields, vec![String::from("ghost_id")]);
        },
        other => panic!("expected the unresolved-method failure, got {:?}", other.is_ok()),
    }
}

#[test]
fn method_key_with_scalar_value_is_malformed() {
    let t = TypeDef {
        name: String::from("User"),
        attrs: vec![vec![ident("select"), Tok::Equals, ident("orphan")]],
        fields: vec![field("id", "i64", vec![])],
    };
    assert!(matches!(generate_select(&t), Err(GenError::BadDirective)));
}

#[test]
fn dangling_equals_is_malformed() {
    let toks = vec![ident("name"), Tok::Equals];
    assert!(matches!(parse_group(&toks), Err(GenError::BadDirective)));
}

#[test]
fn unterminated_group_is_malformed() {
    let toks = vec![
        ident("select"),
        Tok::Equals,
        ident("m"),
        Tok::OpenParen,
        ident("id"),
    ];
    assert!(matches!(parse_group(&toks), Err(GenError::BadDirective)));
}

#[test]
fn parse_group_reads_entries() {
    let toks = vec![
        ident("name"),
        Tok::Equals,
        text("users"),
        Tok::Comma,
        ident("select"),
        Tok::Equals,
        ident("m"),
        Tok::OpenParen,
        Tok::CloseParen,
    ];
    let ds = parse_group(&toks).unwrap();
    assert_eq!(ds.len(), 2);
    assert!(matches!(&ds[0], Directive::Scalar(k, _) if k.as_str() == "name"));
    assert!(matches!(&ds[1], Directive::Method(k, m) if k.as_str() == "select" && m.fields.is_empty()));
}

#[test]
fn duplicate_scalar_key_honors_first_occurrence() {
    let groups = vec![vec![
        ident("name"),
        Tok::Equals,
        ident("first"),
        Tok::Comma,
        ident("name"),
        Tok::Equals,
        ident("second"),
    ]];
    let d = parse_table_directives(&groups).unwrap();
    assert_eq!(d.name.as_deref(), Some("first"));
}

#[test]
fn scalar_key_takes_first_group_that_carries_it() {
    let groups = vec![
        vec![ident("spec_columns"), Tok::Equals, text("a=1")],
        vec![ident("spec_columns"), Tok::Equals, text("b=2")],
    ];
    let d = parse_table_directives(&groups).unwrap();
    assert_eq!(d.spec_columns.as_deref(), Some("a=1"));
}

#[test]
fn unknown_role_marker_is_fatal() {
    let t = TypeDef {
        name: String::from("User"),
        attrs: vec![],
        fields: vec![field("id", "i64", vec![vec![ident("indexed")]])],
    };
    match generate_select(&t) {
        Err(GenError::UnknownRole(marker)) => assert_eq!(marker, "indexed"),
        other => panic!("expected the unknown-role failure, got {:?}", other.is_ok()),
    }
}

#[test]
fn duplicate_field_name_is_fatal() {
    let fields = vec![field("id", "i64", vec![]), field("id", "i32", vec![])];
    match build_catalog(&fields) {
        Err(GenError::DuplicateField(name)) => assert_eq!(name, "id"),
        other => panic!("expected the duplicate-field failure, got {:?}", other.is_ok()),
    }
}

#[test]
fn empty_record_refused_for_insert_family() {
    let t = TypeDef { name: String::from("User"), attrs: vec![], fields: vec![] };
    assert!(matches!(generate_insert(&t), Err(GenError::EmptyFields)));
    assert!(matches!(generate_insert_many(&t), Err(GenError::EmptyFields)));
}

#[test]
fn alias_changes_columns_but_not_parameters() {
    let t = TypeDef {
        name: String::from("User"),
        attrs: vec![],
        fields: vec![
            field("email", "String", vec![]),
            field(
                "role",
                "Role",
                vec![vec![
                    ident("select"),
                    Tok::Comma,
                    ident("as_type"),
                    Tok::Equals,
                    text("role!: Role"),
                ]],
            ),
        ],
    };
    let accs = generate_select(&t).unwrap();
    assert_eq!(accs.len(), 1);
    assert_eq!(
        accs[0].query.sql,
        "SELECT email, role AS \"role!: Role\" FROM users WHERE role=$1"
    );
    assert_eq!(accs[0].query.params[0].name, "role");
}

#[test]
fn alias_must_be_quoted() {
    let fields = vec![field(
        "role",
        "Role",
        vec![vec![ident("as_type"), Tok::Equals, ident("bare")]],
    )];
    assert!(matches!(build_catalog(&fields), Err(GenError::BadDirective)));
}

#[test]
fn descriptor_lists_name_fields_and_columns() {
    let t = TypeDef {
        name: String::from("User"),
        attrs: vec![vec![ident("name"), Tok::Equals, ident("accounts")]],
        fields: vec![
            field("id", "i64", vec![]),
            field(
                "role",
                "Role",
                vec![vec![ident("as_type"), Tok::Equals, text("role!: Role")]],
            ),
        ],
    };
    let desc = generate_table(&t).unwrap();
    assert_eq!(desc.name, "accounts");
    assert_eq!(desc.fields, vec![String::from("id"), String::from("role")]);
    assert_eq!(
        desc.sql_columns,
        vec![String::from("id"), String::from("role AS \"role!: Role\"")]
    );
}

#[test]
fn unrecognized_scalar_key_is_ignored() {
    let mut groups: Vec<Vec<Tok>> = Vec::new();
    groups.push(vec![ident("comment"), Tok::Equals, text("whatever")]);
    let d = parse_table_directives(&groups).unwrap();
    assert!(d.name.is_none());
    assert!(d.spec_columns.is_none());
    assert!(d.return_type.is_none());
    assert!(d.return_fields.is_none());
    assert!(d.selects.is_empty());
}

#[test]
fn empty_metadata_group_is_accepted() {
    let groups: Vec<Vec<Tok>> = vec![vec![]];
    let d = parse_table_directives(&groups).unwrap();
    assert!(d.name.is_none());
}
