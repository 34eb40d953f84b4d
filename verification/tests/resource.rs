use bigml::resource::evaluation::ClassificationModel;
use bigml::resource::execution::{Data, Output, OutputError, Source, SourceError, SourceId};
use bigml::resource::id::{Id, IdError, Resource, ResourceId};
use bigml::resource::kind;
use bigml::resource::source::{Args, Optype};
use bigml::text::{same_text, starts_with};

#[test]
fn prefixes() {
    assert_eq!(kind::Script::id_prefix(), "script/");
    assert_eq!(kind::Library::id_prefix(), "library/");
    assert_eq!(kind::Source::id_prefix(), "source/");
    assert_eq!(kind::Execution::id_prefix(), "execution/");
    assert_eq!(kind::Ensemble::id_prefix(), "ensemble/");
    assert_eq!(kind::Evaluation::id_prefix(), "evaluation/");
}

#[test]
fn an_id_has_the_prefix_of_its_kind() {
    let id = Id::<kind::Script>::from_str("script/50a2").unwrap();
    assert_eq!(id.as_str(), "script/50a2");
    assert_eq!(id.clone().as_str(), "script/50a2");
    match Id::<kind::Script>::from_str("library/50a2") {
        Err(IdError::WrongResourceType { prefix, id }) => {
            assert_eq!(prefix, "script/");
            assert_eq!(id, "library/50a2");
        }
        Ok(_) => panic!("accepted"),
    }
    assert!(Id::<kind::Script>::from_str("script").is_err());
    assert!(Id::<kind::Script>::from_str("").is_err());
    assert!(Id::<kind::Script>::from_str("script/").is_ok());
}

#[test]
fn a_short_id_carries_no_prefix() {
    let id = ResourceId::<kind::Source>::from_str("4f5a").unwrap();
    assert_eq!(id.as_str(), "4f5a");
    assert_eq!(id.clone().as_str(), "4f5a");
    match ResourceId::<kind::Source>::from_str("source/4f5a") {
        Err(IdError::WrongResourceType { prefix, id }) => {
            assert_eq!(prefix, "source/");
            assert_eq!(id, "source/4f5a");
        }
        Ok(_) => panic!("accepted"),
    }
}

#[test]
fn source_ids_are_scripts_or_libraries() {
    let id = SourceId::parse("library/1").unwrap();
    assert!(matches!(id, SourceId::Library(_)));
    assert_eq!(id.as_str(), "library/1");
    let id = SourceId::parse("script/2").unwrap();
    assert!(matches!(id, SourceId::Script(_)));
    assert_eq!(id.as_str(), "script/2");
    assert_eq!(SourceId::parse("source/3").err(), Some(SourceError::ExpectedScriptOrLibrary));
    assert_eq!(SourceId::parse("").err(), Some(SourceError::ExpectedScriptOrLibrary));
}

#[test]
fn a_source_is_a_list_of_id_and_description() {
    let source =
        Source::from_elements(&vec!["script/2".to_owned(), "cleans data".to_owned()]).unwrap();
    assert_eq!(source.id.as_str(), "script/2");
    assert_eq!(source.description, "cleans data");
    assert_eq!(source.to_elements(), vec!["script/2".to_owned(), "cleans data".to_owned()]);
    let longer = Source::from_elements(&vec![
        "library/9".to_owned(),
        "d".to_owned(),
        "ignored".to_owned(),
    ])
    .unwrap();
    assert_eq!(longer.to_elements(), vec!["library/9".to_owned(), "d".to_owned()]);
}

#[test]
fn a_short_or_wrong_list_is_no_source() {
    assert_eq!(Source::from_elements(&vec![]).err(), Some(SourceError::NoId));
    assert_eq!(
        Source::from_elements(&vec!["script/2".to_owned()]).err(),
        Some(SourceError::NoDescription)
    );
    assert_eq!(
        Source::from_elements(&vec!["model/2".to_owned()]).err(),
        Some(SourceError::ExpectedScriptOrLibrary)
    );
    assert_eq!(
        Source::from_elements(&vec!["model/2".to_owned(), "d".to_owned()]).err(),
        Some(SourceError::ExpectedScriptOrLibrary)
    );
}

fn output(name: &str, value: &str) -> Output {
    Output { name: name.to_owned(), value: Some(value.to_owned()), declared_type: None }
}

#[test]
fn outputs_are_found_by_name() {
    let data = Data {
        outputs: vec![output("a", "1"), output("b", "2"), output("a", "3")],
        result: None,
        sources: vec![],
    };
    assert_eq!(data.get("a").unwrap().value, Some("1".to_owned()));
    assert_eq!(data.get("b").unwrap().value, Some("2".to_owned()));
    assert_eq!(data.position("a"), Some(0));
    assert_eq!(data.position("b"), Some(1));
    assert_eq!(data.position("c"), None);
    assert_eq!(data.get("c").err(), Some(OutputError::NotFound));
    assert_eq!(data.get("").err(), Some(OutputError::NotFound));
}

#[test]
fn source_arguments() {
    let args = Args::remote("https://example.com/data.csv");
    assert_eq!(args.remote, Some("https://example.com/data.csv".to_owned()));
    assert_eq!(args.data, None);
    assert_eq!(args.disable_datetime, None);
    assert_eq!(args.name, None);
    assert!(args.tags.is_empty());
    let args = Args::data("a,b\n1,2\n");
    assert_eq!(args.data, Some("a,b\n1,2\n".to_owned()));
    assert_eq!(args.remote, None);
    assert_eq!(args.disable_datetime, None);
    assert_eq!(args.name, None);
    assert!(args.tags.is_empty());
}

#[test]
fn optype_names() {
    let all = [
        (Optype::DateTime, "datetime"),
        (Optype::Numeric, "numeric"),
        (Optype::Categorical, "categorical"),
        (Optype::Text, "text"),
        (Optype::Items, "items"),
    ];
    for (optype, name) in all {
        assert_eq!(optype.name(), name);
        assert_eq!(Optype::from_name(name), Some(optype));
    }
    assert_eq!(Optype::from_name("Numeric"), None);
    assert_eq!(Optype::from_name(""), None);
}

#[test]
fn text_helpers() {
    assert!(starts_with("script/1", "script/"));
    assert!(starts_with("script/", "script/"));
    assert!(starts_with("anything", ""));
    assert!(!starts_with("script", "script/"));
    assert!(!starts_with("scripT/1", "script/"));
    assert!(same_text("", ""));
    assert!(same_text("äb", "äb"));
    assert!(!same_text("ab", "abc"));
    assert!(!same_text("abd", "abc"));
}

#[test]
fn classification_model_is_a_marker() {
    assert_eq!(ClassificationModel, ClassificationModel);
}
