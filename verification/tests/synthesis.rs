//! End-to-end checks of the three synthesizers on concrete records.

use unprolix::constructor::constructor;
use unprolix::getters::getters;
use unprolix::model::AttrEntry;
use unprolix::model::BodyDesc;
use unprolix::model::DataShape;
use unprolix::model::FieldDef;
use unprolix::model::FieldInit;
use unprolix::model::GenericArg;
use unprolix::model::InitExpr;
use unprolix::model::MetaItem;
use unprolix::model::Param;
use unprolix::model::PathSegment;
use unprolix::model::ReturnDesc;
use unprolix::model::TypeDef;
use unprolix::model::TypeDesc;
use unprolix::setters::setters;

fn scalar(name: &str) -> TypeDesc {
    TypeDesc::Path(vec![PathSegment { name: name.to_string(), args: None }])
}

fn container(name: &str, arg: &str) -> TypeDesc {
    TypeDesc::Path(vec![PathSegment {
        name: name.to_string(),
        args: Some(vec![GenericArg { text: arg.to_string() }]),
    }])
}

fn directive(token: &str) -> AttrEntry {
    AttrEntry::Group(vec![MetaItem::Named(token.to_string())])
}

fn plain_field(name: &str, ty: TypeDesc) -> FieldDef {
    FieldDef { name: name.to_string(), ty, public: false, attrs: vec![] }
}

fn flagged_field(name: &str, ty: TypeDesc, token: &str) -> FieldDef {
    FieldDef { name: name.to_string(), ty, public: false, attrs: vec![directive(token)] }
}

fn record(name: &str, fields: Vec<FieldDef>) -> TypeDef {
    TypeDef { name: name.to_string(), data: DataShape::NamedFields(fields) }
}

#[test]
fn constructor_with_defaulted_field() {
    let input = record(
        "Point",
        vec![plain_field("x", scalar("u8")), flagged_field("y", scalar("u8"), "default")],
    );
    let frag = constructor(&input);
    assert_eq!(frag.record_name, "Point");
    assert_eq!(frag.functions.len(), 1);
    let f = &frag.functions[0];
    assert_eq!(f.name, "new");
    assert_eq!(f.params, vec![Param { name: "x".to_string(), ty: scalar("u8") }]);
    assert_eq!(f.ret, ReturnDesc::Record("Point".to_string()));
    assert_eq!(
        f.body,
        BodyDesc::Construct(vec![
            FieldInit {
                field: "x".to_string(),
                init: InitExpr::FromParam("x".to_string()),
            },
            FieldInit { field: "y".to_string(), init: InitExpr::DefaultCall },
        ])
    );
}

#[test]
fn constructor_counts_parameters() {
    let input = record(
        "Triple",
        vec![
            plain_field("a", scalar("u8")),
            flagged_field("b", scalar("u16"), "default"),
            plain_field("c", scalar("u32")),
        ],
    );
    let frag = constructor(&input);
    let f = &frag.functions[0];
    assert_eq!(f.params.len(), 2);
    assert_eq!(f.params[0].name, "a");
    assert_eq!(f.params[1].name, "c");
    match &f.body {
        BodyDesc::Construct(inits) => {
            assert_eq!(inits.len(), 3);
            assert_eq!(inits[1].init, InitExpr::DefaultCall);
        },
        other => panic!("unexpected body {:?}", other),
    }
}

#[test]
fn constructor_keeps_public_fields_as_parameters() {
    let input = record(
        "Pair",
        vec![
            FieldDef {
                name: "seen".to_string(),
                ty: scalar("u8"),
                public: true,
                attrs: vec![],
            },
            plain_field("hidden", scalar("u8")),
        ],
    );
    let frag = constructor(&input);
    let f = &frag.functions[0];
    assert_eq!(f.params.len(), 2);
    assert_eq!(f.params[0].name, "seen");
}

#[test]
fn getters_skip_and_slice() {
    let input = record(
        "Wrapper",
        vec![
            flagged_field("secret", scalar("u8"), "skip"),
            flagged_field("data", container("Vec", "u8"), "as_slice"),
        ],
    );
    let frag = getters(&input).expect("generation succeeds");
    assert_eq!(frag.record_name, "Wrapper");
    assert_eq!(frag.functions.len(), 1);
    let f = &frag.functions[0];
    assert_eq!(f.name, "data");
    assert!(f.params.is_empty());
    assert_eq!(f.ret, ReturnDesc::RefSlice(GenericArg { text: "u8".to_string() }));
    assert_eq!(f.body, BodyDesc::SliceField("data".to_string()));
}

#[test]
fn setters_for_plain_field() {
    let input = record("Counter", vec![plain_field("count", scalar("u8"))]);
    let frag = setters(&input);
    assert_eq!(frag.functions.len(), 2);
    let set = &frag.functions[0];
    assert_eq!(set.name, "set_count");
    assert_eq!(set.params, vec![Param { name: "v".to_string(), ty: scalar("u8") }]);
    assert_eq!(set.ret, ReturnDesc::Unit);
    assert_eq!(set.body, BodyDesc::AssignField("count".to_string()));
    let as_mut = &frag.functions[1];
    assert_eq!(as_mut.name, "count_as_mut");
    assert!(as_mut.params.is_empty());
    assert_eq!(as_mut.ret, ReturnDesc::RefMut(scalar("u8")));
    assert_eq!(as_mut.body, BodyDesc::MutBorrowField("count".to_string()));
}

#[test]
fn non_record_shapes_yield_empty_fragments() {
    let input = TypeDef { name: "Choice".to_string(), data: DataShape::Unsupported };
    assert!(constructor(&input).functions.is_empty());
    assert!(getters(&input).expect("silent degradation").functions.is_empty());
    assert!(setters(&input).functions.is_empty());
}

#[test]
fn accessors_ignore_public_and_skipped_fields() {
    let input = record(
        "Mixed",
        vec![
            FieldDef {
                name: "open_count".to_string(),
                ty: scalar("u8"),
                public: true,
                attrs: vec![],
            },
            flagged_field("internal", scalar("u8"), "skip"),
            plain_field("first", scalar("u8")),
            plain_field("second", scalar("u16")),
        ],
    );
    let read = getters(&input).expect("generation succeeds");
    assert_eq!(read.functions.len(), 2);
    assert_eq!(read.functions[0].name, "first");
    assert_eq!(read.functions[1].name, "second");
    let write = setters(&input);
    assert_eq!(write.functions.len(), 4);
    assert_eq!(write.functions[0].name, "set_first");
    assert_eq!(write.functions[1].name, "first_as_mut");
    assert_eq!(write.functions[2].name, "set_second");
    assert_eq!(write.functions[3].name, "second_as_mut");
}

#[test]
fn copy_directive_changes_return_shape() {
    let with_copy = record("A", vec![flagged_field("n", scalar("u8"), "copy")]);
    let without = record("A", vec![plain_field("n", scalar("u8"))]);
    let f_copy = getters(&with_copy).expect("generation succeeds").functions.remove(0);
    let f_ref = getters(&without).expect("generation succeeds").functions.remove(0);
    assert_eq!(f_copy.ret, ReturnDesc::Value(scalar("u8")));
    assert_eq!(f_copy.body, BodyDesc::ReadField("n".to_string()));
    assert_eq!(f_ref.ret, ReturnDesc::Ref(scalar("u8")));
    assert_eq!(f_ref.body, BodyDesc::BorrowField("n".to_string()));
    assert_ne!(f_copy.ret, f_ref.ret);
}

#[test]
fn copy_takes_priority_over_as_slice() {
    let input = record(
        "B",
        vec![FieldDef {
            name: "n".to_string(),
            ty: scalar("u8"),
            public: false,
            attrs: vec![directive("copy"), directive("as_slice")],
        }],
    );
    let frag = getters(&input).expect("copy wins, no extraction happens");
    assert_eq!(frag.functions[0].ret, ReturnDesc::Value(scalar("u8")));
}

#[test]
fn setters_ignore_copy_and_as_slice() {
    let input = record(
        "C",
        vec![flagged_field("data", container("Vec", "u8"), "as_slice")],
    );
    let frag = setters(&input);
    assert_eq!(frag.functions.len(), 2);
    assert_eq!(frag.functions[0].name, "set_data");
    assert_eq!(frag.functions[0].params[0].ty, container("Vec", "u8"));
    assert_eq!(frag.functions[1].ret, ReturnDesc::RefMut(container("Vec", "u8")));
}

#[test]
fn default_shaped_getter_borrows_the_declared_type() {
    let input = record(
        "D",
        vec![plain_field("table", container("HashMap", "String"))],
    );
    let frag = getters(&input).expect("generation succeeds");
    let f = &frag.functions[0];
    assert_eq!(f.name, "table");
    assert_eq!(f.ret, ReturnDesc::Ref(container("HashMap", "String")));
    assert_eq!(f.body, BodyDesc::BorrowField("table".to_string()));
}
