use rethinkdb::query::{db, db_create, db_drop, db_list, expr, table, table_create, table_drop, table_list, ToDatum};
use rethinkdb::Datum;
use rethinkdb::FuncType::{
    Add, Db, DbCreate, DbDrop, DbList, Delete, Div, Get, IndexCreate, IndexDrop, IndexList, Insert,
    Mod, Mul, Sub, Table, TableCreate, TableDrop, TableList,
};

fn s(x: &str) -> Datum {
    Datum::Str(x.to_string())
}

#[test]
fn mod_test_db() {
    assert_eq!(db("test").serialize(), r#"[14,["test"]]"#);
    assert_eq!(db_create("foo").serialize(), r#"[57,["foo"]]"#);
    assert_eq!(db_drop("foo").serialize(), r#"[58,["foo"]]"#);
    assert_eq!(db("foo").table("bar").serialize(), r#"[15,[[14,["foo"]],"bar"]]"#);
    assert_eq!(db("foo").table_create("bar").serialize(), r#"[60,[[14,["foo"]],"bar"]]"#);
    assert_eq!(db("foo").table_drop("bar").serialize(), r#"[61,[[14,["foo"]],"bar"]]"#);
    assert_eq!(db("foo").table_list().serialize(), r#"[62,[[14,["foo"]]]]"#);
}

#[test]
fn mod_test_table() {
    assert_eq!(table("foo").serialize(), r#"[15,["foo"]]"#);
    assert_eq!(table("test").get("deadbeef").serialize(), r#"[16,[[15,["test"]],"deadbeef"]]"#);
    let doc = Datum::Object(vec![("foo".to_string(), s("bar"))]);
    assert_eq!(table("test").insert(doc).serialize(), r#"[56,[[15,["test"]],{"foo":"bar"}]]"#);
    assert_eq!(table("test").index_create("bar").serialize(), r#"[75,[[15,["test"]],"bar"]]"#);
    assert_eq!(table("test").index_drop("bar").serialize(), r#"[76,[[15,["test"]],"bar"]]"#);
    assert_eq!(table("test").index_list().serialize(), r#"[77,[[15,["test"]]]]"#);
    assert_eq!(table("foo").get("bar").delete().serialize(), r#"[54,[[16,[[15,["foo"]],"bar"]]]]"#);
}

#[test]
fn test_expr() {
    assert_eq!(expr(1i32).to_datum(), Datum::Int(1));
    assert_eq!(expr("foo").to_datum(), s("foo"));
}

#[test]
fn test_ops() {
    assert_eq!(expr(420i32).add(123i32).serialize(), "[24,[420,123]]");
    assert_eq!(expr("foo").add("bar").serialize(), r#"[24,["foo","bar"]]"#);
    assert_eq!(expr(420i32).sub(123i32).serialize(), "[25,[420,123]]");
    assert_eq!(expr(420i32).mul(123i32).serialize(), "[26,[420,123]]");
    assert_eq!(expr(420i32).div(123i32).serialize(), "[27,[420,123]]");
}

#[test]
fn rem_serializes_with_mod_opcode() {
    assert_eq!(expr(420i64).rem(123u64).serialize(), "[28,[420,123]]");
}

#[test]
fn negative_and_unsigned_numbers_serialize() {
    assert_eq!(expr(-7i64).sub(u64::MAX).serialize(), "[25,[-7,18446744073709551615]]");
}

#[test]
fn db_list_and_default_db_tables() {
    assert_eq!(db_list().serialize(), "[59,[]]");
    assert_eq!(table_create("t").serialize(), r#"[60,["t"]]"#);
    assert_eq!(table_drop("t").serialize(), r#"[61,["t"]]"#);
    assert_eq!(table_list().serialize(), "[62,[]]");
}

#[test]
fn strings_are_escaped() {
    assert_eq!(table("a\"b").serialize(), r#"[15,["a\"b"]]"#);
}

#[test]
fn serializing_twice_gives_the_same_text() {
    let q = db("foo").table("bar").get("k").delete();
    let first = q.serialize();
    let second = q.serialize();
    assert_eq!(first.as_bytes(), second.as_bytes());
}

#[test]
fn test_bool_to_datum() {
    assert_eq!(true.to_datum(), Datum::Bool(true));
}

#[test]
fn test_option_to_datum() {
    assert_eq!(ToDatum::to_datum(&Some(true)), Datum::Bool(true));
    assert_eq!(ToDatum::to_datum(&None::<bool>), Datum::Null);
}

#[test]
fn test_owned_str_to_datum() {
    assert_eq!("foo".to_string().to_datum(), s("foo"));
}

#[test]
fn test_static_str_to_datum() {
    assert_eq!("foo".to_datum(), s("foo"));
}

#[test]
fn named_arguments_make_a_third_element() {
    let t = rethinkdb::Term::start(rethinkdb::FuncType::Table, vec![s("t")])
        .with_named_args(vec![("use_outdated".to_string(), Datum::Bool(true))]);
    assert_eq!(t.serialize(), r#"[15,["t"],{"use_outdated":true}]"#);
}

#[test]
fn opcodes_match_the_protocol() {
    let all = [
        (Db, 14), (Table, 15), (Get, 16), (Add, 24), (Sub, 25), (Mul, 26), (Div, 27), (Mod, 28),
        (Delete, 54), (Insert, 56), (DbCreate, 57), (DbDrop, 58), (DbList, 59),
        (TableCreate, 60), (TableDrop, 61), (TableList, 62), (IndexCreate, 75),
        (IndexDrop, 76), (IndexList, 77),
    ];
    for (f, c) in all.iter() {
        assert_eq!(f.code(), *c);
    }
}

#[test]
fn small_integers_to_datum() {
    assert_eq!(ToDatum::to_datum(&-3i8), Datum::Int(-3));
    assert_eq!(ToDatum::to_datum(&200u8), Datum::UInt(200));
    assert_eq!(ToDatum::to_datum(&-300i16), Datum::Int(-300));
    assert_eq!(ToDatum::to_datum(&60000u16), Datum::UInt(60000));
    assert_eq!(expr(7u8).mul(6i16).serialize(), "[26,[7,6]]");
}
