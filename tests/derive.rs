use field_names::{
    derive_field_names, field_options, AnnotationError, Attr, AttrArgs, Body, DeclInput,
    DeriveError, FieldInput, Lit, MetaItem, Receiver, ShapeKind,
};

fn s(x: &str) -> String {
    x.to_string()
}

fn plain(name: &str) -> FieldInput {
    FieldInput { ident: Some(s(name)), attrs: vec![] }
}

fn annotated(name: &str, items: Vec<MetaItem>) -> FieldInput {
    FieldInput {
        ident: Some(s(name)),
        attrs: vec![Attr { path: s("field_names"), args: AttrArgs::List(items) }],
    }
}

fn record(fields: Vec<FieldInput>) -> DeclInput {
    DeclInput {
        ident: s("Example"),
        impl_generics: s(""),
        ty_generics: s(""),
        where_clause: s(""),
        body: Body::Struct(fields),
    }
}

fn strings(xs: &[&str]) -> Vec<String> {
    xs.iter().map(|x| x.to_string()).collect()
}

#[test]
fn simple() {
    let input = Receiver::from_derive_input(&record(vec![plain("hello"), plain("world")])).unwrap();
    assert_eq!(input.fields_to_emit(), vec!["hello".to_string(), "world".to_string()]);
}

#[test]
fn skip_field() {
    let input = Receiver::from_derive_input(&record(vec![
        plain("hello"),
        annotated("hidden", vec![MetaItem::Word(s("skip"))]),
        plain("world"),
    ]))
    .unwrap();
    assert_eq!(input.fields_to_emit(), vec!["hello".to_string(), "world".to_string()]);
    assert_eq!(input.descs(), vec!["".to_string(), "".to_string()]);
}

#[test]
fn no_annotations_give_empty_descriptions() {
    let input = Receiver::from_derive_input(&record(vec![plain("hello"), plain("world")])).unwrap();
    assert_eq!(input.descs(), strings(&["", ""]));
}

#[test]
fn descriptions_follow_names() {
    let input = Receiver::from_derive_input(&record(vec![
        annotated("a", vec![MetaItem::NameValue(s("desc"), Lit::Str(s("first")))]),
        annotated("b", vec![MetaItem::NameValue(s("desc"), Lit::Str(s("second")))]),
    ]))
    .unwrap();
    assert_eq!(input.fields_to_emit(), strings(&["a", "b"]));
    assert_eq!(input.descs(), strings(&["first", "second"]));
}

#[test]
fn skipped_fields_drop_out_of_both_arrays() {
    let input = Receiver::from_derive_input(&record(vec![
        annotated("a", vec![MetaItem::NameValue(s("desc"), Lit::Str(s("one")))]),
        annotated(
            "b",
            vec![MetaItem::Word(s("skip")), MetaItem::NameValue(s("desc"), Lit::Str(s("two")))],
        ),
        annotated("c", vec![MetaItem::NameValue(s("desc"), Lit::Str(s("three")))]),
        annotated("d", vec![MetaItem::Word(s("skip"))]),
    ]))
    .unwrap();
    let names = input.fields_to_emit();
    let descs = input.descs();
    assert_eq!(names.len(), 4 - 2);
    assert_eq!(descs.len(), 4 - 2);
    assert_eq!(names, strings(&["a", "c"]));
    assert_eq!(descs, strings(&["one", "three"]));
}

#[test]
fn skip_takes_booleans_and_boolean_strings() {
    let input = Receiver::from_derive_input(&record(vec![
        annotated("a", vec![MetaItem::NameValue(s("skip"), Lit::Bool(false))]),
        annotated("b", vec![MetaItem::NameValue(s("skip"), Lit::Bool(true))]),
        annotated("c", vec![MetaItem::NameValue(s("skip"), Lit::Str(s("true")))]),
        annotated("d", vec![MetaItem::NameValue(s("skip"), Lit::Str(s("false")))]),
    ]))
    .unwrap();
    assert_eq!(input.fields_to_emit(), strings(&["a", "d"]));
}

#[test]
fn other_attributes_are_ignored() {
    let field = FieldInput {
        ident: Some(s("x")),
        attrs: vec![
            Attr { path: s("serde"), args: AttrArgs::Value },
            Attr { path: s("doc"), args: AttrArgs::List(vec![MetaItem::Word(s("foo"))]) },
            Attr { path: s("field_names"), args: AttrArgs::Word },
        ],
    };
    let o = field_options(&field.attrs).unwrap();
    assert!(!o.skip);
    assert_eq!(o.desc, "");
}

#[test]
fn tuple_struct_is_rejected() {
    let input = record(vec![
        FieldInput { ident: None, attrs: vec![] },
        FieldInput { ident: None, attrs: vec![] },
    ]);
    assert_eq!(
        Receiver::from_derive_input(&input).err(),
        Some(DeriveError::UnsupportedShape(ShapeKind::Tuple))
    );
    assert_eq!(derive_field_names(&input), Err(DeriveError::UnsupportedShape(ShapeKind::Tuple)));
}

#[test]
fn other_shapes_are_rejected() {
    let mut input = record(vec![]);
    input.body = Body::UnitStruct;
    assert_eq!(derive_field_names(&input), Err(DeriveError::UnsupportedShape(ShapeKind::Unit)));
    input.body = Body::Enum;
    assert_eq!(derive_field_names(&input), Err(DeriveError::UnsupportedShape(ShapeKind::Enum)));
    input.body = Body::Union;
    assert_eq!(derive_field_names(&input), Err(DeriveError::UnsupportedShape(ShapeKind::Union)));
}

#[test]
fn unknown_key_is_rejected() {
    let input = record(vec![
        plain("a"),
        annotated("b", vec![MetaItem::NameValue(s("foo"), Lit::Other)]),
    ]);
    assert_eq!(
        derive_field_names(&input),
        Err(DeriveError::Annotation {
            field: 1,
            error: AnnotationError::UnknownKey { attr: 0, item: 0 }
        })
    );
}

#[test]
fn unknown_word_is_rejected() {
    let input = record(vec![annotated("a", vec![MetaItem::Word(s("unknownoption"))])]);
    assert_eq!(
        derive_field_names(&input),
        Err(DeriveError::Annotation {
            field: 0,
            error: AnnotationError::UnknownKey { attr: 0, item: 0 }
        })
    );
}

#[test]
fn malformed_entries_are_rejected() {
    let cases = vec![
        (
            vec![MetaItem::Word(s("skip")), MetaItem::Word(s("skip"))],
            AnnotationError::DuplicateKey { attr: 0, item: 1 },
        ),
        (vec![MetaItem::Word(s("desc"))], AnnotationError::UnexpectedValue { attr: 0, item: 0 }),
        (
            vec![MetaItem::NameValue(s("desc"), Lit::Bool(true))],
            AnnotationError::UnexpectedValue { attr: 0, item: 0 },
        ),
        (
            vec![MetaItem::NameValue(s("skip"), Lit::Str(s("yes")))],
            AnnotationError::UnexpectedValue { attr: 0, item: 0 },
        ),
        (vec![MetaItem::List(s("skip"))], AnnotationError::UnexpectedValue { attr: 0, item: 0 }),
        (vec![MetaItem::Literal], AnnotationError::UnexpectedLiteral { attr: 0, item: 0 }),
    ];
    for (items, error) in cases {
        let field = annotated("a", items);
        assert_eq!(field_options(&field.attrs).err(), Some(error));
    }
}

#[test]
fn duplicate_key_across_attributes_is_rejected() {
    let field = FieldInput {
        ident: Some(s("a")),
        attrs: vec![
            Attr {
                path: s("field_names"),
                args: AttrArgs::List(vec![MetaItem::NameValue(s("desc"), Lit::Str(s("x")))]),
            },
            Attr {
                path: s("field_names"),
                args: AttrArgs::List(vec![MetaItem::NameValue(s("desc"), Lit::Str(s("y")))]),
            },
        ],
    };
    assert_eq!(
        field_options(&field.attrs).err(),
        Some(AnnotationError::DuplicateKey { attr: 1, item: 0 })
    );
}

#[test]
fn name_value_attribute_is_rejected() {
    let field = FieldInput {
        ident: Some(s("a")),
        attrs: vec![Attr { path: s("field_names"), args: AttrArgs::Value }],
    };
    assert_eq!(
        derive_field_names(&record(vec![field])),
        Err(DeriveError::Annotation { field: 0, error: AnnotationError::NameValueForm { attr: 0 } })
    );
}

#[test]
fn fragment_text_for_two_fields() {
    let out = derive_field_names(&record(vec![plain("hello"), plain("world")])).unwrap();
    assert_eq!(
        out,
        "#[automatically_derived] impl  Example   { pub const FIELDS: [&'static str; 2usize] \
         = [\"hello\", \"world\"]; pub const DESCS: [&'static str; 2usize] = [\"\", \"\"]; }"
    );
}

#[test]
fn fragment_keeps_generics_and_escapes_descriptions() {
    let mut input = record(vec![annotated(
        "v",
        vec![MetaItem::NameValue(s("desc"), Lit::Str(s("say \"hi\"\n")))],
    )]);
    input.impl_generics = s("< T : Clone >");
    input.ty_generics = s("< T >");
    input.where_clause = s("where T : Copy");
    let out = derive_field_names(&input).unwrap();
    assert_eq!(
        out,
        "#[automatically_derived] impl < T : Clone > Example < T > where T : Copy { pub const \
         FIELDS: [&'static str; 1usize] = [\"v\"]; pub const DESCS: [&'static str; 1usize] = \
         [\"say \\\"hi\\\"\\n\"]; }"
    );
}

#[test]
fn empty_struct_gives_empty_arrays() {
    let out = derive_field_names(&record(vec![])).unwrap();
    assert!(out.contains("[&'static str; 0usize] = []; pub const DESCS"));
    assert!(out.ends_with("[&'static str; 0usize] = []; }"));
}

#[test]
fn twelve_fields_give_a_two_digit_length() {
    let names: Vec<String> = (0..12).map(|i| format!("f{}", i)).collect();
    let input = record(names.iter().map(|n| plain(n)).collect());
    let out = derive_field_names(&input).unwrap();
    assert!(out.contains("[&'static str; 12usize]"));
}

#[test]
fn rerun_gives_identical_fragment() {
    let input = record(vec![
        annotated("a", vec![MetaItem::NameValue(s("desc"), Lit::Str(s("first")))]),
        annotated("b", vec![MetaItem::Word(s("skip"))]),
        plain("c"),
    ]);
    let first = derive_field_names(&input).unwrap();
    let second = derive_field_names(&input).unwrap();
    assert_eq!(first, second);
}

#[test]
fn name_returns_the_identifier() {
    let input = Receiver::from_derive_input(&record(vec![plain("alpha")])).unwrap();
    assert_eq!(input.fields[0].name(), "alpha");
}
