use sql_macros::catalog::FieldDef;
use sql_macros::catalog::TypeDef;
use sql_macros::queries::generate_delete;
use sql_macros::queries::generate_insert;
use sql_macros::queries::generate_insert_many;
use sql_macros::queries::generate_select;
use sql_macros::queries::generate_select_all;
use sql_macros::queries::generate_select_many;
use sql_macros::queries::generate_update;
use sql_macros::queries::OpKind;
use sql_macros::queries::ReturnShape;
use sql_macros::tokens::Tok;
use sql_macros::SqlTable;

struct FixedTable;

impl SqlTable for FixedTable {
    fn name() -> &'static str {
        "users"
    }

    fn fields() -> Vec<&'static str> {
        vec!["id", "name"]
    }

    fn sql_columns() -> Vec<&'static str> {
        vec!["id", "name AS \"name!: Name\""]
    }
}

fn ident(s: &str) -> Tok {
    Tok::Ident(String::from(s))
}

fn text(s: &str) -> Tok {
    Tok::Text(String::from(s))
}

fn field(name: &str, ty: &str, attrs: Vec<Vec<Tok>>) -> FieldDef {
    FieldDef { name: String::from(name), ty: String::from(ty), attrs }
}

fn user_two_fields() -> TypeDef {
    TypeDef {
        name: String::from("User"),
        attrs: vec![],
        fields: vec![
            field("id", "i64", vec![vec![ident("select")]]),
            field("name", "String", vec![]),
        ],
    }
}

fn user_three_fields() -> TypeDef {
    TypeDef {
        name: String::from("User"),
        attrs: vec![],
        fields: vec![
            field("id", "i64", vec![vec![ident("update")]]),
            field("name", "String", vec![]),
            field("email", "String", vec![]),
        ],
    }
}

#[test]
fn select_by_single_role_field() {
    let t = user_two_fields();
    let accs = generate_select(&t).unwrap();
    assert_eq!(accs.len(), 1);
    assert_eq!(accs[0].name, "select_by_id");
    assert_eq!(accs[0].query.sql, "SELECT id, name FROM users WHERE id=$1");
    assert_eq!(accs[0].query.kind, OpKind::Select);
    assert_eq!(accs[0].query.params.len(), 1);
    assert_eq!(accs[0].query.params[0].name, "id");
    assert_eq!(accs[0].query.params[0].ty, "i64");
    assert!(matches!(accs[0].query.shape, ReturnShape::OptionalRow));
}

#[test]
fn update_splits_set_and_where_numbering() {
    let t = user_three_fields();
    let acc = generate_update(&t).unwrap();
    assert_eq!(acc.name, "update");
    assert_eq!(acc.query.sql, "UPDATE users SET name=$1, email=$2 WHERE id=$3");
    let names: Vec<&str> = acc.query.params.iter().map(|p| p.name.as_str()).collect();
    assert_eq!(names, vec!["name", "email", "id"]);
    assert!(matches!(acc.query.shape, ReturnShape::Affected));
}

#[test]
fn insert_with_return_type_appends_returning() {
    let mut t = user_three_fields();
    t.attrs = vec![
        vec![ident("return_type"), Tok::Equals, ident("NewUser")],
        vec![ident("return_fields"), Tok::Equals, text("id,name")],
    ];
    let acc = generate_insert(&t).unwrap();
    assert_eq!(
        acc.query.sql,
        "INSERT INTO users (id, name, email) VALUES ($1,$2,$3) RETURNING id,name"
    );
    match &acc.query.shape {
        ReturnShape::Row(ty) => assert_eq!(ty, "NewUser"),
        other => panic!("expected a decoded-row shape, got {:?}", other),
    }
}

#[test]
fn insert_without_return_type_is_plain() {
    let t = user_three_fields();
    let acc = generate_insert(&t).unwrap();
    assert_eq!(acc.name, "insert");
    assert_eq!(acc.query.sql, "INSERT INTO users (id, name, email) VALUES ($1,$2,$3)");
    assert!(matches!(acc.query.shape, ReturnShape::Affected));
    let names: Vec<&str> = acc.query.params.iter().map(|p| p.name.as_str()).collect();
    assert_eq!(names, vec!["id", "name", "email"]);
}

#[test]
fn insert_many_returns_star_and_nothing() {
    let t = user_three_fields();
    let acc = generate_insert_many(&t).unwrap();
    assert_eq!(acc.name, "insert_many");
    assert_eq!(
        acc.query.sql,
        "INSERT INTO users (id, name, email) VALUES ($1,$2,$3) RETURNING *"
    );
    assert_eq!(acc.query.kind, OpKind::InsertMany);
    assert!(matches!(acc.query.shape, ReturnShape::Nothing));
}

#[test]
fn select_all_has_no_parameters() {
    let t = user_two_fields();
    let acc = generate_select_all(&t).unwrap();
    assert_eq!(acc.name, "select_all");
    assert_eq!(acc.query.sql, "SELECT id, name FROM users");
    assert_eq!(acc.query.params.len(), 0);
    assert!(matches!(acc.query.shape, ReturnShape::Rows));
}

#[test]
fn delete_by_role_field() {
    let t = TypeDef {
        name: String::from("User"),
        attrs: vec![],
        fields: vec![
            field("id", "i64", vec![vec![ident("delete")]]),
            field("name", "String", vec![]),
        ],
    };
    let accs = generate_delete(&t).unwrap();
    assert_eq!(accs.len(), 1);
    assert_eq!(accs[0].name, "delete_by_id");
    assert_eq!(accs[0].query.sql, "DELETE FROM users WHERE id=$1");
    assert!(matches!(accs[0].query.shape, ReturnShape::Affected));
}

#[test]
fn select_many_by_role_field() {
    let t = TypeDef {
        name: String::from("User"),
        attrs: vec![],
        fields: vec![
            field("id", "i64", vec![]),
            field("city", "String", vec![vec![ident("select_many")]]),
        ],
    };
    let accs = generate_select_many(&t).unwrap();
    assert_eq!(accs.len(), 1);
    assert_eq!(accs[0].name, "select_many_by_city");
    assert_eq!(accs[0].query.sql, "SELECT id, city FROM users WHERE city=$1");
    assert!(matches!(accs[0].query.shape, ReturnShape::Rows));
}

#[test]
fn explicit_table_name_directive() {
    let mut t = user_two_fields();
    t.attrs = vec![vec![ident("name"), Tok::Equals, ident("accounts")]];
    let accs = generate_select(&t).unwrap();
    assert_eq!(accs[0].query.sql, "SELECT id, name FROM accounts WHERE id=$1");
}

#[test]
fn quoted_table_name_directive() {
    let mut t = user_two_fields();
    t.attrs = vec![vec![ident("name"), Tok::Equals, text("accounts")]];
    let acc = generate_select_all(&t).unwrap();
    assert_eq!(acc.query.sql, "SELECT id, name FROM accounts");
}

#[test]
fn default_table_name_is_lowercased_and_pluralized() {
    let t = TypeDef {
        name: String::from("BlogPost"),
        attrs: vec![],
        fields: vec![field("id", "i64", vec![])],
    };
    let acc = generate_select_all(&t).unwrap();
    assert_eq!(acc.query.sql, "SELECT id FROM blogposts");
}

#[test]
fn spec_columns_fragment_appended_to_set() {
    let mut t = user_two_fields();
    t.attrs = vec![vec![ident("spec_columns"), Tok::Equals, text("updated_at=NOW()")]];
    t.fields[0].attrs = vec![vec![ident("update")]];
    let acc = generate_update(&t).unwrap();
    assert_eq!(acc.query.sql, "UPDATE users SET name=$1, updated_at=NOW() WHERE id=$2");
}

#[test]
fn update_with_return_type() {
    let mut t = user_three_fields();
    t.attrs = vec![vec![ident("return_type"), Tok::Equals, ident("User")]];
    let acc = generate_update(&t).unwrap();
    assert_eq!(acc.query.sql, "UPDATE users SET name=$1, email=$2 WHERE id=$3 RETURNING *");
    match &acc.query.shape {
        ReturnShape::Row(ty) => assert_eq!(ty, "User"),
        other => panic!("expected a decoded-row shape, got {:?}", other),
    }
}

#[test]
fn custom_select_spec_keeps_directive_order() {
    let mut t = user_three_fields();
    t.fields[0].attrs = vec![];
    t.attrs = vec![vec![
        ident("select"),
        Tok::Equals,
        ident("find_user"),
        Tok::OpenParen,
        ident("name"),
        Tok::Comma,
        ident("id"),
        Tok::CloseParen,
    ]];
    let accs = generate_select(&t).unwrap();
    assert_eq!(accs.len(), 1);
    assert_eq!(accs[0].name, "find_user");
    assert_eq!(
        accs[0].query.sql,
        "SELECT id, name, email FROM users WHERE name=$1 AND id=$2"
    );
    let names: Vec<&str> = accs[0].query.params.iter().map(|p| p.name.as_str()).collect();
    assert_eq!(names, vec!["name", "id"]);
}

#[test]
fn custom_spec_drops_unknown_names_but_keeps_known() {
    let mut t = user_two_fields();
    t.fields[0].attrs = vec![];
    t.attrs = vec![vec![
        ident("select"),
        Tok::Equals,
        ident("find_user"),
        Tok::OpenParen,
        ident("missing"),
        Tok::Comma,
        ident("id"),
        Tok::CloseParen,
    ]];
    let accs = generate_select(&t).unwrap();
    assert_eq!(accs[0].query.sql, "SELECT id, name FROM users WHERE id=$1");
}

#[test]
fn repeated_method_key_across_groups_yields_one_each() {
    let mut t = user_two_fields();
    t.fields[0].attrs = vec![];
    t.attrs = vec![
        vec![
            ident("delete"),
            Tok::Equals,
            ident("purge_by_id"),
            Tok::OpenParen,
            ident("id"),
            Tok::CloseParen,
        ],
        vec![
            ident("delete"),
            Tok::Equals,
            ident("purge_by_name"),
            Tok::OpenParen,
            ident("name"),
            Tok::CloseParen,
        ],
    ];
    let accs = generate_delete(&t).unwrap();
    assert_eq!(accs.len(), 2);
    assert_eq!(accs[0].name, "purge_by_id");
    assert_eq!(accs[1].name, "purge_by_name");
    assert_eq!(accs[1].query.sql, "DELETE FROM users WHERE name=$1");
}

#[test]
fn sql_table_trait_exposes_descriptor() {
    assert_eq!(FixedTable::name(), "users");
    assert_eq!(FixedTable::fields(), vec!["id", "name"]);
    assert_eq!(FixedTable::sql_columns(), vec!["id", "name AS \"name!: Name\""]);
}

#[test]
fn generation_is_deterministic() {
    let t1 = user_three_fields();
    let t2 = user_three_fields();
    let a = generate_update(&t1).unwrap();
    let b = generate_update(&t2).unwrap();
    assert_eq!(a.query.sql, b.query.sql);
    assert_eq!(a.name, b.name);
    let an: Vec<&str> = a.query.params.iter().map(|p| p.name.as_str()).collect();
    let bn: Vec<&str> = b.query.params.iter().map(|p| p.name.as_str()).collect();
    assert_eq!(an, bn);
    let s1 = generate_select_all(&t1).unwrap();
    let s2 = generate_select_all(&t2).unwrap();
    assert_eq!(s1.query.sql, s2.query.sql);
}
