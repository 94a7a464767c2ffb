use data_frame_service::schematic::{check_schematic, FeatureDecl, SchemaError};

fn names(v: &[&str]) -> Vec<String> {
    v.iter().map(|s| s.to_string()).collect()
}

fn decl(output: &str, inputs: &[&str]) -> FeatureDecl {
    FeatureDecl { output: output.to_string(), inputs: names(inputs) }
}

fn momentum_fields() -> Vec<String> {
    names(&["close", "timestamp", "5_period_high_close", "5_period_highest_close"])
}

#[test]
fn layered_schematic_is_accepted() {
    let layers = vec![
        vec![decl("5_period_high_close", &["close"])],
        vec![decl("5_period_highest_close", &["close", "5_period_high_close"])],
    ];
    assert_eq!(check_schematic(&momentum_fields(), &names(&["close", "timestamp"]), &layers), Ok(()));
}

#[test]
fn schematic_without_layers_is_accepted() {
    assert_eq!(check_schematic(&momentum_fields(), &names(&["close"]), &vec![]), Ok(()));
}

#[test]
fn duplicate_field_is_refused() {
    let fields = names(&["close", "ma", "close"]);
    assert_eq!(check_schematic(&fields, &names(&["close"]), &vec![]), Err(SchemaError::DuplicateField));
}

#[test]
fn undeclared_output_is_refused() {
    let layers = vec![vec![decl("ma_7", &["close"])]];
    assert_eq!(
        check_schematic(&momentum_fields(), &names(&["close"]), &layers),
        Err(SchemaError::UndeclaredOutput)
    );
}

#[test]
fn input_from_same_layer_is_refused() {
    let layers = vec![vec![
        decl("5_period_high_close", &["close"]),
        decl("5_period_highest_close", &["close", "5_period_high_close"]),
    ]];
    assert_eq!(
        check_schematic(&momentum_fields(), &names(&["close"]), &layers),
        Err(SchemaError::MissingInput)
    );
}

#[test]
fn unknown_input_is_refused() {
    let layers = vec![vec![decl("5_period_high_close", &["high"])]];
    assert_eq!(
        check_schematic(&momentum_fields(), &names(&["close"]), &layers),
        Err(SchemaError::MissingInput)
    );
}
