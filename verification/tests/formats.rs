use crux_core::type_generation::format::Format;
use crux_core::type_generation::naming::QualifiedTypeName;

fn t(name: &str) -> Format {
    Format::TypeName(QualifiedTypeName::root(name))
}

#[test]
fn names_are_collected_once_in_visit_order() {
    let format = Format::MapOf {
        key: Box::new(t("Key")),
        value: Box::new(Format::Tuple(vec![
            Format::SeqOf(Box::new(t("Item"))),
            Format::SetOf(Box::new(t("Key"))),
            Format::TupleArray { content: Box::new(t("Cell")), size: 3 },
            Format::U8,
        ])),
    };
    let mut names = vec![QualifiedTypeName::root("Item")];
    format.collect_names(&mut names);
    let names: Vec<String> = names.into_iter().map(|n| n.name).collect();
    assert_eq!(names, vec!["Item", "Key", "Cell"]);
}

#[test]
fn a_primitive_names_nothing() {
    let mut names = Vec::new();
    Format::Str.collect_names(&mut names);
    Format::Option(Box::new(Format::Bool)).collect_names(&mut names);
    assert!(names.is_empty());
}
