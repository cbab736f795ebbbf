//! Checks of the directive scanner, the type-argument extractor, and the
//! fatal failure path of read-accessor generation.

use unprolix::extract::extract_single_argument;
use unprolix::extract::TypeArgKind;
use unprolix::getters::getters;
use unprolix::model::AttrEntry;
use unprolix::model::DataShape;
use unprolix::model::FieldDef;
use unprolix::model::GenericArg;
use unprolix::model::MetaItem;
use unprolix::model::PathSegment;
use unprolix::model::TypeDef;
use unprolix::model::TypeDesc;
use unprolix::scan::has_directive;

fn scalar(name: &str) -> TypeDesc {
    TypeDesc::Path(vec![PathSegment { name: name.to_string(), args: None }])
}

fn container(name: &str, arg: &str) -> TypeDesc {
    TypeDesc::Path(vec![PathSegment {
        name: name.to_string(),
        args: Some(vec![GenericArg { text: arg.to_string() }]),
    }])
}

fn field_with_attrs(name: &str, ty: TypeDesc, attrs: Vec<AttrEntry>) -> FieldDef {
    FieldDef { name: name.to_string(), ty, public: false, attrs }
}

#[test]
fn scanner_finds_directive_in_group() {
    let f = field_with_attrs(
        "a",
        scalar("u8"),
        vec![AttrEntry::Group(vec![MetaItem::Named("default".to_string())])],
    );
    assert!(has_directive(&f, "default"));
    assert!(!has_directive(&f, "skip"));
}

#[test]
fn scanner_reports_absence_on_empty_attribute_list() {
    let f = field_with_attrs("a", scalar("u8"), vec![]);
    assert!(!has_directive(&f, "default"));
}

#[test]
fn scanner_ignores_non_grouping_attributes() {
    let f = field_with_attrs("a", scalar("u8"), vec![AttrEntry::Other]);
    assert!(!has_directive(&f, "default"));
}

#[test]
fn scanner_ignores_non_identifier_items() {
    let f = field_with_attrs(
        "a",
        scalar("u8"),
        vec![AttrEntry::Group(vec![MetaItem::Other])],
    );
    assert!(!has_directive(&f, "copy"));
}

#[test]
fn scanner_searches_every_group() {
    let f = field_with_attrs(
        "a",
        scalar("u8"),
        vec![
            AttrEntry::Group(vec![MetaItem::Named("frobnicate".to_string())]),
            AttrEntry::Other,
            AttrEntry::Group(vec![MetaItem::Other, MetaItem::Named("skip".to_string())]),
        ],
    );
    assert!(has_directive(&f, "skip"));
    assert!(has_directive(&f, "frobnicate"));
    assert!(!has_directive(&f, "copy"));
}

#[test]
fn scanner_matches_exactly() {
    let f = field_with_attrs(
        "a",
        scalar("u8"),
        vec![AttrEntry::Group(vec![MetaItem::Named("skipping".to_string())])],
    );
    assert!(!has_directive(&f, "skip"));
}

#[test]
fn unknown_directives_have_no_effect() {
    let f = field_with_attrs(
        "a",
        scalar("u8"),
        vec![AttrEntry::Group(vec![MetaItem::Named("frobnicate".to_string())])],
    );
    let input = TypeDef {
        name: "E".to_string(),
        data: DataShape::NamedFields(vec![f]),
    };
    let frag = getters(&input).expect("generation succeeds");
    assert_eq!(frag.functions.len(), 1);
    assert_eq!(frag.functions[0].name, "a");
}

#[test]
fn extractor_returns_first_argument() {
    let r = extract_single_argument(&container("Vec", "u8"));
    assert_eq!(r, Ok(GenericArg { text: "u8".to_string() }));
}

#[test]
fn extractor_reads_only_the_first_segment() {
    let multi = TypeDesc::Path(vec![
        PathSegment { name: "std".to_string(), args: None },
        PathSegment {
            name: "vec".to_string(),
            args: Some(vec![GenericArg { text: "u8".to_string() }]),
        },
    ]);
    assert_eq!(extract_single_argument(&multi), Err(TypeArgKind::GenericContainerExpected));
}

#[test]
fn extractor_rejects_bare_scalar() {
    assert_eq!(
        extract_single_argument(&scalar("u8")),
        Err(TypeArgKind::GenericContainerExpected)
    );
}

#[test]
fn extractor_rejects_empty_argument_list() {
    let t = TypeDesc::Path(vec![PathSegment { name: "Vec".to_string(), args: Some(vec![]) }]);
    assert_eq!(extract_single_argument(&t), Err(TypeArgKind::GenericContainerExpected));
}

#[test]
fn extractor_rejects_non_path_types() {
    let t = TypeDesc::Other("&[u8]".to_string());
    assert_eq!(extract_single_argument(&t), Err(TypeArgKind::ContainerExpected));
    let empty = TypeDesc::Path(vec![]);
    assert_eq!(extract_single_argument(&empty), Err(TypeArgKind::ContainerExpected));
}

#[test]
fn as_slice_on_bare_scalar_fails_generation() {
    let input = TypeDef {
        name: "W".to_string(),
        data: DataShape::NamedFields(vec![field_with_attrs(
            "n",
            scalar("u8"),
            vec![AttrEntry::Group(vec![MetaItem::Named("as_slice".to_string())])],
        )]),
    };
    let err = getters(&input).expect_err("bare scalar must fail fatally");
    assert_eq!(err.field, "n");
    assert_eq!(err.kind, TypeArgKind::GenericContainerExpected);
}

#[test]
fn as_slice_on_non_path_type_fails_generation() {
    let input = TypeDef {
        name: "W".to_string(),
        data: DataShape::NamedFields(vec![field_with_attrs(
            "raw",
            TypeDesc::Other("[u8; 4]".to_string()),
            vec![AttrEntry::Group(vec![MetaItem::Named("as_slice".to_string())])],
        )]),
    };
    let err = getters(&input).expect_err("non-path type must fail fatally");
    assert_eq!(err.field, "raw");
    assert_eq!(err.kind, TypeArgKind::ContainerExpected);
}

#[test]
fn first_failing_field_names_the_error() {
    let input = TypeDef {
        name: "W".to_string(),
        data: DataShape::NamedFields(vec![
            field_with_attrs(
                "early",
                scalar("u8"),
                vec![AttrEntry::Group(vec![MetaItem::Named("as_slice".to_string())])],
            ),
            field_with_attrs(
                "late",
                TypeDesc::Other("fn()".to_string()),
                vec![AttrEntry::Group(vec![MetaItem::Named("as_slice".to_string())])],
            ),
        ]),
    };
    let err = getters(&input).expect_err("two failing fields, first wins");
    assert_eq!(err.field, "early");
    assert_eq!(err.kind, TypeArgKind::GenericContainerExpected);
}

#[test]
fn skipped_field_with_bad_as_slice_does_not_fail() {
    let input = TypeDef {
        name: "W".to_string(),
        data: DataShape::NamedFields(vec![field_with_attrs(
            "n",
            scalar("u8"),
            vec![AttrEntry::Group(vec![
                MetaItem::Named("as_slice".to_string()),
                MetaItem::Named("skip".to_string()),
            ])],
        )]),
    };
    let frag = getters(&input).expect("skipped field is never extracted");
    assert!(frag.functions.is_empty());
}
