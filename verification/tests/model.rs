use jairika::{init, Activation, AddressStatus, Error, IsolationLevel, Layer, Model};
use jairika::{Repository, Scalar, Statement};

fn rendered(statements: &Vec<Statement>) -> Vec<String> {
    statements.iter().map(|s| s.render()).collect()
}

fn opened(address: &str) -> (Model, Repository) {
    let bootstrap = init(address, AddressStatus::Directory).unwrap();
    let model = Model::new(address, AddressStatus::Directory, &bootstrap.repository).unwrap();
    (model, bootstrap.repository)
}

#[test]
fn test_init() {
    let bootstrap = init("test_model", AddressStatus::Directory).unwrap();
    assert_eq!(bootstrap.options.dir, "test_model");
    assert!(bootstrap.options.disk_persistence);
    assert_eq!(bootstrap.options.isolation_level, IsolationLevel::SnapshotIsolation);
    assert_eq!(
        rendered(&bootstrap.statements),
        vec!["DEFINE NAMESPACE IF NOT EXISTS main", "USE NS main", "DEFINE DATABASE prime"]
    );
    assert!(bootstrap.repository.has_branch("main"));
    assert_eq!(bootstrap.repository.current_iteration("main"), Some(String::from("prime")));
}

#[test]
fn test_model_new() {
    let bootstrap = init("test_model", AddressStatus::Directory).unwrap();
    let model = Model::new("test_model", AddressStatus::Directory, &bootstrap.repository).unwrap();
    assert_eq!(model.address(), Some("test_model"));
}

#[test]
fn test_model_add_layer() {
    let (model, mut repo) = opened("test_model_add_layer");
    model.add_layer(&mut repo, Layer::Input, "input_layer", vec![64, 64], None, None).unwrap();
}

#[test]
fn a_new_handle_stands_on_main_and_prime() {
    let (model, repo) = opened("some/where");
    assert_eq!(model.branch(), "main");
    assert_eq!(model.iteration(), "prime");
    assert_eq!(model.current_iteration(&repo), Some(String::from("prime")));
    assert_eq!(rendered(&model.session()), vec!["USE NS main", "USE DB prime"]);
}

#[test]
fn init_fails_where_nothing_is() {
    match init("no/such/place", AddressStatus::Missing) {
        Err(Error::ModelAddressNotFound(address)) => assert_eq!(address, "no/such/place"),
        Err(other) => panic!("{:?}", other),
        Ok(_) => panic!("initialised nothing"),
    }
}

#[test]
fn init_fails_at_what_is_no_directory() {
    match init("a/file.txt", AddressStatus::NotADirectory) {
        Err(Error::InvalidModelAddress(address)) => assert_eq!(address, "a/file.txt"),
        Err(other) => panic!("{:?}", other),
        Ok(_) => panic!("initialised a file"),
    }
}

#[test]
fn open_fails_like_init_on_the_address() {
    let repo = Repository::new();
    match Model::new("no/such/place", AddressStatus::Missing, &repo) {
        Err(Error::ModelAddressNotFound(address)) => assert_eq!(address, "no/such/place"),
        other => panic!("{:?}", other),
    }
    match Model::new("a/file.txt", AddressStatus::NotADirectory, &repo) {
        Err(Error::InvalidModelAddress(address)) => assert_eq!(address, "a/file.txt"),
        other => panic!("{:?}", other),
    }
}

#[test]
fn add_then_describe_reports_what_was_added() {
    let (model, mut repo) = opened("m");
    model
        .add_layer(&mut repo, Layer::Hidden, "h1", vec![64, 64], Some(Activation::Tanh), None)
        .unwrap();
    let found = model.describe_layer(&repo, "h1").unwrap();
    assert_eq!(found.name, "h1");
    assert_eq!(found.class, Layer::Hidden);
    assert_eq!(found.shape, vec![64, 64]);
    assert_eq!(found.activation, Some(Activation::Tanh));
    assert_eq!(found.dropout, None);
}

#[test]
fn add_layer_names_the_statements_of_the_transaction() {
    let (model, mut repo) = opened("m");
    let statements = model
        .add_layer(&mut repo, Layer::Hidden, "h1", vec![64, 64], Some(Activation::Tanh), None)
        .unwrap();
    assert_eq!(
        rendered(&statements),
        vec![
            "USE NS main",
            "USE DB prime",
            "DEFINE TABLE h1 SCHEMAFULL TYPE NORMAL",
            "DEFINE FIELD bias ON TABLE h1 TYPE array<array<float, 64>, 64>",
            "DEFINE FIELD class ON TABLE h1 TYPE \"hidden\"",
            "DEFINE FIELD activation ON TABLE h1 TYPE \"tanh\"",
        ]
    );
}

#[test]
fn add_then_remove_then_describe_fails() {
    let (model, mut repo) = opened("m");
    model.add_layer(&mut repo, Layer::Hidden, "h1", vec![8], None, None).unwrap();
    let statements = model.remove_layer(&mut repo, Layer::Hidden, "h1").unwrap();
    assert_eq!(rendered(&statements), vec!["USE NS main", "USE DB prime", "REMOVE TABLE h1"]);
    match model.describe_layer(&repo, "h1") {
        Err(Error::LayerNotFound(name)) => assert_eq!(name, "h1"),
        other => panic!("{:?}", other),
    }
    match model.remove_layer(&mut repo, Layer::Hidden, "h1") {
        Err(Error::LayerRemovalFailed(text)) => assert_eq!(text, "no layer of this name exists"),
        other => panic!("{:?}", other),
    }
}

#[test]
fn remove_layer_does_not_consult_the_class() {
    let (model, mut repo) = opened("m");
    model.add_layer(&mut repo, Layer::Hidden, "h1", vec![8], None, None).unwrap();
    assert!(model.remove_layer(&mut repo, Layer::Output, "h1").is_ok());
    assert!(model.describe_layer(&repo, "h1").is_err());
}

#[test]
fn two_adds_of_one_name_give_one_success_and_one_failure() {
    let (first, mut repo) = opened("m");
    let second = Model::new("m", AddressStatus::Directory, &repo).unwrap();
    let a = first.add_layer(&mut repo, Layer::Hidden, "h1", vec![8], None, None);
    let b = second.add_layer(&mut repo, Layer::Hidden, "h1", vec![16], None, None);
    assert!(a.is_ok());
    match b {
        Err(Error::LayerAdditionFailed(text)) => {
            assert_eq!(text, "a layer of this name exists already")
        }
        other => panic!("{:?}", other),
    }
    assert_eq!(second.describe_layer(&repo, "h1").unwrap().shape, vec![8]);
}

#[test]
fn an_invalid_elu_is_refused_before_anything_is_written() {
    let (model, mut repo) = opened("m");
    let bad = Activation::Elu { alpha: Scalar::from_bits(0.0f32.to_bits()) };
    match model.add_layer(&mut repo, Layer::Hidden, "h1", vec![8], Some(bad), None) {
        Err(Error::LayerAdditionFailed(text)) => {
            assert_eq!(text, "alpha of elu must be greater than zero")
        }
        other => panic!("{:?}", other),
    }
    assert!(model.describe_layer(&repo, "h1").is_err());
    assert!(matches!(bad.validate(), Err(Error::InvalidActivationParameter(_))));
}

#[test]
fn derive_then_add_on_the_variant_leaves_main_unchanged() {
    let (main, mut repo) = opened("m");
    main.add_layer(&mut repo, Layer::Input, "in", vec![4], None, None).unwrap();
    main.derive(&mut repo, "main", "exp1").unwrap();
    let mut exp = main.clone();
    let statements = exp.switch(&repo, "exp1").unwrap();
    assert_eq!(rendered(&statements), vec!["USE NS exp1", "USE DB prime"]);
    exp.add_layer(&mut repo, Layer::Hidden, "h1", vec![8], Some(Activation::Mish), None).unwrap();
    assert_eq!(main.branch(), "main");
    assert!(main.describe_layer(&repo, "in").is_ok());
    assert!(matches!(main.describe_layer(&repo, "h1"), Err(Error::LayerNotFound(_))));
    assert!(exp.describe_layer(&repo, "in").is_ok());
    assert_eq!(exp.describe_layer(&repo, "h1").unwrap().activation, Some(Activation::Mish));
}

#[test]
fn changes_of_the_parent_do_not_reach_the_derived_variant() {
    let (main, mut repo) = opened("m");
    main.derive(&mut repo, "main", "exp1").unwrap();
    main.add_layer(&mut repo, Layer::Hidden, "late", vec![2], None, None).unwrap();
    let mut exp = main.clone();
    exp.switch(&repo, "exp1").unwrap();
    assert!(exp.describe_layer(&repo, "late").is_err());
    assert!(main.describe_layer(&repo, "late").is_ok());
}

#[test]
fn switch_moves_one_handle_only() {
    let (mut a, mut repo) = opened("m");
    let b = Model::new("m", AddressStatus::Directory, &repo).unwrap();
    a.derive(&mut repo, "main", "exp1").unwrap();
    a.switch(&repo, "exp1").unwrap();
    assert_eq!(a.branch(), "exp1");
    assert_eq!(a.iteration(), "prime");
    assert_eq!(a.address(), Some("m"));
    assert_eq!(b.branch(), "main");
    assert_eq!(b.iteration(), "prime");
}

#[test]
fn switch_to_a_variant_that_does_not_exist_fails() {
    let (mut model, repo) = opened("m");
    match model.switch(&repo, "exp1") {
        Err(Error::BranchSwitchFailed(text)) => assert_eq!(text, "the variant does not exist"),
        other => panic!("{:?}", other),
    }
    assert_eq!(model.branch(), "main");
    assert_eq!(model.iteration(), "prime");
}

#[test]
fn derive_through_a_handle_fails_as_the_catalogue_says() {
    let (model, mut repo) = opened("m");
    assert!(matches!(
        model.derive(&mut repo, "exp0", "exp1"),
        Err(Error::BranchCreationFailed(_))
    ));
    assert!(model.derive(&mut repo, "main", "exp1").is_ok());
    assert!(matches!(
        model.derive(&mut repo, "main", "exp1"),
        Err(Error::BranchCreationFailed(_))
    ));
}
