use derive_di::decl::{field_from_source, AdapterAnnotation};

#[test]
fn type_head_is_the_lone_segment_identifier() {
    let f = field_from_source(Some("i_struct"), "Box<dyn Getter>", None);
    assert_eq!(f.name, Some("i_struct".to_string()));
    assert_eq!(f.ty_text, "Box<dyn Getter>");
    assert_eq!(f.ty_segment, Some("Box".to_string()));
    assert_eq!(f.annotation, None);
}

#[test]
fn multi_segment_type_path_has_no_head() {
    let f = field_from_source(Some("inner"), "std::string::String", None);
    assert_eq!(f.ty_segment, None);
}

#[test]
fn tuple_type_has_no_head() {
    let f = field_from_source(Some("pair"), "(u8, u8)", None);
    assert_eq!(f.ty_segment, None);
}

#[test]
fn annotation_argument_names_the_origin() {
    let f = field_from_source(
        Some("i_struct"),
        "Box<dyn Getter>",
        Some("InjectableStruct"),
    );
    assert_eq!(
        f.annotation,
        Some(AdapterAnnotation::Origin { name: "InjectableStruct".to_string() })
    );
}

#[test]
fn generic_annotation_argument_keeps_its_identifier() {
    let f = field_from_source(Some("items"), "Vec<u8>", Some("Vec<u8>"));
    assert_eq!(f.ty_segment, Some("Vec".to_string()));
    assert_eq!(f.annotation, Some(AdapterAnnotation::Origin { name: "Vec".to_string() }));
}

#[test]
fn non_path_annotation_argument_is_malformed() {
    let f = field_from_source(Some("i_struct"), "InjectableStruct", Some("1 + 2"));
    assert_eq!(f.annotation, Some(AdapterAnnotation::Malformed));
}

#[test]
fn unnamed_field_keeps_no_name() {
    let f = field_from_source(None, "u64", None);
    assert_eq!(f.name, None);
}
